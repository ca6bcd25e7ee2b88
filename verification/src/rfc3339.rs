use vstd::prelude::*;
use vstd::string::StrSliceExecFns;
use crate::port::{is_dec_digit, digit_val};

verus! {

/// A leap year of the proleptic Gregorian calendar.
pub open spec fn is_leap_year(y: int) -> bool {
    y % 4 == 0 && (y % 100 != 0 || y % 400 == 0)
}

/// Number of days of a month, counting February by the year.
pub open spec fn days_in_month(y: int, m: int) -> int {
    if m == 2 {
        if is_leap_year(y) {
            29
        } else {
            28
        }
    } else if m == 4 || m == 6 || m == 9 || m == 11 {
        30
    } else {
        31
    }
}

/// Value of the four year digits of a timestamp.
pub open spec fn year_of(s: Seq<char>) -> int {
    digit_val(s[0]) * 1000 + digit_val(s[1]) * 100 + digit_val(s[2]) * 10 + digit_val(s[3])
}

/// Value of the two digits at `i`.
pub open spec fn two_digit_val(s: Seq<char>, i: int) -> int {
    digit_val(s[i]) * 10 + digit_val(s[i + 1])
}

/// The first nineteen characters form a calendar date and time
/// `YYYY-MM-DDThh:mm:ss`, with the fields in range. Seconds may reach 60,
/// which RFC 3339 admits for leap seconds.
pub open spec fn datetime_ok(s: Seq<char>) -> bool {
    &&& s.len() >= 19
    &&& is_dec_digit(s[0]) && is_dec_digit(s[1]) && is_dec_digit(s[2]) && is_dec_digit(s[3])
    &&& s[4] == '-'
    &&& is_dec_digit(s[5]) && is_dec_digit(s[6])
    &&& s[7] == '-'
    &&& is_dec_digit(s[8]) && is_dec_digit(s[9])
    &&& s[10] == 'T'
    &&& is_dec_digit(s[11]) && is_dec_digit(s[12])
    &&& s[13] == ':'
    &&& is_dec_digit(s[14]) && is_dec_digit(s[15])
    &&& s[16] == ':'
    &&& is_dec_digit(s[17]) && is_dec_digit(s[18])
    &&& 1 <= two_digit_val(s, 5) <= 12
    &&& 1 <= two_digit_val(s, 8) <= days_in_month(year_of(s), two_digit_val(s, 5))
    &&& two_digit_val(s, 11) <= 23
    &&& two_digit_val(s, 14) <= 59
    &&& two_digit_val(s, 17) <= 60
}

/// The characters from position 19 up to `end` form a fraction of a second:
/// a '.' followed by at least one digit.
pub open spec fn fraction_ok(s: Seq<char>, end: int) -> bool {
    &&& s[19] == '.'
    &&& end >= 21
    &&& forall|i: int| 20 <= i < end ==> is_dec_digit(#[trigger] s[i])
}

/// An RFC 3339 timestamp in UTC: date and time, an optional fraction of a
/// second, and the UTC offset written `Z` or `+00:00`.
pub open spec fn is_rfc3339_utc(s: Seq<char>) -> bool {
    let n = s.len() as int;
    &&& n >= 20
    &&& datetime_ok(s)
    &&& if s[n - 1] == 'Z' {
        n - 1 == 19 || fraction_ok(s, n - 1)
    } else {
        &&& n - 6 >= 19
        &&& s[n - 6] == '+' && s[n - 5] == '0' && s[n - 4] == '0' && s[n - 3] == ':' && s[n - 2]
            == '0' && s[n - 1] == '0'
        &&& (n - 6 == 19 || fraction_ok(s, n - 6))
    }
}

/// Reads the two characters at `i` and `i + 1` as a two-digit number.
fn two_digits(s: &str, i: usize) -> (r: Option<u8>)
    requires
        i + 1 < s@.len(),
        s@.len() <= usize::MAX,
    ensures
        r is Some <==> is_dec_digit(s@[i as int]) && is_dec_digit(s@[i as int + 1]),
        match r {
            Some(v) => v as int == two_digit_val(s@, i as int),
            None => true,
        },
{
    let a = s.get_char(i) as u32;
    let b = s.get_char(i + 1) as u32;
    if a < 48 || a > 57 || b < 48 || b > 57 {
        return None;
    }
    Some(((a - 48) * 10 + (b - 48)) as u8)
}

/// Decides `is_rfc3339_utc` for a string.
#[verifier::loop_isolation(false)]
pub fn check_rfc3339_utc(s: &str) -> (r: bool)
    ensures
        r == is_rfc3339_utc(s@),
{
    let n = s.unicode_len();
    if n < 20 {
        return false;
    }
    // the date and time, `YYYY-MM-DDThh:mm:ss`
    let y_hi = match two_digits(s, 0) {
        Some(v) => v,
        None => {
            return false;
        },
    };
    let y_lo = match two_digits(s, 2) {
        Some(v) => v,
        None => {
            return false;
        },
    };
    if s.get_char(4) != '-' {
        return false;
    }
    let month = match two_digits(s, 5) {
        Some(v) => v,
        None => {
            return false;
        },
    };
    if s.get_char(7) != '-' {
        return false;
    }
    let day = match two_digits(s, 8) {
        Some(v) => v,
        None => {
            return false;
        },
    };
    if s.get_char(10) != 'T' {
        return false;
    }
    let hour = match two_digits(s, 11) {
        Some(v) => v,
        None => {
            return false;
        },
    };
    if s.get_char(13) != ':' {
        return false;
    }
    let minute = match two_digits(s, 14) {
        Some(v) => v,
        None => {
            return false;
        },
    };
    if s.get_char(16) != ':' {
        return false;
    }
    let second = match two_digits(s, 17) {
        Some(v) => v,
        None => {
            return false;
        },
    };
    let year: u32 = y_hi as u32 * 100 + y_lo as u32;
    proof {
        assert(year as int == year_of(s@));
    }
    if month < 1 || month > 12 {
        return false;
    }
    let max_day: u8 = if month == 2 {
        if (year % 4 == 0 && year % 100 != 0) || year % 400 == 0 {
            29
        } else {
            28
        }
    } else if month == 4 || month == 6 || month == 9 || month == 11 {
        30
    } else {
        31
    };
    if day < 1 || day > max_day {
        return false;
    }
    if hour > 23 || minute > 59 || second > 60 {
        return false;
    }
    // the offset, `Z` or `+00:00`, and the optional fraction before it
    let k: usize = if s.get_char(n - 1) == 'Z' {
        n - 1
    } else {
        if n - 6 < 19 {
            return false;
        }
        if s.get_char(n - 6) != '+' || s.get_char(n - 5) != '0' || s.get_char(n - 4) != '0'
            || s.get_char(n - 3) != ':' || s.get_char(n - 2) != '0' || s.get_char(n - 1) != '0' {
            return false;
        }
        n - 6
    };
    if k == 19 {
        return true;
    }
    if s.get_char(19) != '.' {
        return false;
    }
    if k < 21 {
        return false;
    }
    let mut i: usize = 20;
    while i < k
        invariant
            20 <= i <= k <= s@.len(),
            forall|j: int| 20 <= j < i ==> is_dec_digit(#[trigger] s@[j]),
        decreases k - i,
    {
        let c = s.get_char(i) as u32;
        if c < 48 || c > 57 {
            return false;
        }
        i = i + 1;
    }
    true
}

} // verus!
