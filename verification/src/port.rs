use vstd::prelude::*;
use vstd::string::StrSliceExecFns;

verus! {

/// Port the gateway listens on when no environment variable supplies one.
pub const DEFAULT_PORT: u16 = 5003;

/// The one fatal startup condition: the chosen port text does not denote a
/// 16-bit port.
#[derive(Clone, Copy, PartialEq, Eq, Structural, Debug)]
pub enum PortError {
    InvalidPort,
}

/// A decimal digit, by code point.
pub open spec fn is_dec_digit(c: char) -> bool {
    48 <= c as int <= 57
}

/// Numeric value of a decimal digit.
pub open spec fn digit_val(c: char) -> int {
    c as int - 48
}

/// The digits of a port string: everything after an optional leading '+'.
pub open spec fn digits_part(s: Seq<char>) -> Seq<char> {
    if s.len() > 0 && s[0] == '+' {
        s.subrange(1, s.len() as int)
    } else {
        s
    }
}

pub open spec fn all_dec_digits(s: Seq<char>) -> bool {
    forall|i: int| 0 <= i < s.len() ==> is_dec_digit(#[trigger] s[i])
}

/// Value denoted by a sequence of decimal digits, most significant first.
pub open spec fn dec_value(s: Seq<char>) -> int
    decreases s.len(),
{
    if s.len() == 0 {
        0
    } else {
        dec_value(s.drop_last()) * 10 + digit_val(s.last())
    }
}

/// A string accepted as a port: an optional leading '+', then at least one
/// decimal digit, denoting a value that fits in 16 bits.
pub open spec fn is_port_str(s: Seq<char>) -> bool {
    &&& digits_part(s).len() > 0
    &&& all_dec_digits(digits_part(s))
    &&& dec_value(digits_part(s)) <= u16::MAX
}

/// The port a valid port string denotes.
pub open spec fn port_value(s: Seq<char>) -> int {
    dec_value(digits_part(s))
}

proof fn lemma_dec_value_nonneg(s: Seq<char>)
    requires
        all_dec_digits(s),
    ensures
        dec_value(s) >= 0,
    decreases s.len(),
{
    if s.len() > 0 {
        assert(all_dec_digits(s.drop_last()));
        lemma_dec_value_nonneg(s.drop_last());
    }
}

/// Appending digits never shrinks the value: once a prefix already exceeds a
/// bound, the whole string does too.
proof fn lemma_dec_value_prefix_le(s: Seq<char>, i: int)
    requires
        all_dec_digits(s),
        0 <= i <= s.len(),
    ensures
        dec_value(s.subrange(0, i)) <= dec_value(s),
    decreases s.len() - i,
{
    if i == s.len() {
        assert(s.subrange(0, i) =~= s);
    } else {
        lemma_dec_value_prefix_le(s, i + 1);
        let p = s.subrange(0, i);
        let q = s.subrange(0, i + 1);
        assert(q.drop_last() =~= p);
        assert(all_dec_digits(p));
        lemma_dec_value_nonneg(p);
        assert(dec_value(q) == dec_value(p) * 10 + digit_val(s[i]));
        assert(dec_value(p) <= dec_value(p) * 10 + digit_val(s[i]));
    }
}

/// Parses the text of a port variable exactly as unsigned 16-bit integer
/// parsing accepts it: an optional leading '+', then decimal digits, with the
/// value at most `u16::MAX`. Returns `None` on any other text.
pub fn parse_port(s: &str) -> (r: Option<u16>)
    ensures
        r is Some <==> is_port_str(s@),
        match r {
            Some(p) => p as int == port_value(s@),
            None => true,
        },
{
    let n = s.unicode_len();
    let mut i: usize = 0;
    if n > 0 && s.get_char(0) == '+' {
        i = 1;
    }
    let start = i;
    proof {
        assert(digits_part(s@) =~= s@.subrange(start as int, n as int));
    }
    if i == n {
        // no digits at all
        return None;
    }
    let mut acc: u32 = 0;
    while i < n
        invariant
            start <= i <= n,
            n == s@.len(),
            start <= 1,
            n > start,
            digits_part(s@) =~= s@.subrange(start as int, n as int),
            all_dec_digits(s@.subrange(start as int, i as int)),
            acc as int == dec_value(s@.subrange(start as int, i as int)),
            acc <= 65535,
        decreases n - i,
    {
        let c = s.get_char(i);
        let v = c as u32;
        if v < 48 || v > 57 {
            // a non-digit among the digits: not a port string
            assert(!is_port_str(s@)) by {
                let d = digits_part(s@);
                assert(d[i - start] == s@[i as int]);
                assert(!is_dec_digit(s@[i as int]));
            }
            return None;
        }
        proof {
            assert(s@.subrange(start as int, i + 1 as int).drop_last()
                =~= s@.subrange(start as int, i as int));
            assert(s@.subrange(start as int, i + 1 as int).last() == s@[i as int]);
        }
        acc = acc * 10 + (v - 48);
        i = i + 1;
        if acc > 65535 {
            // the value already exceeds u16::MAX and further digits only grow it
            assert(!is_port_str(s@)) by {
                let d = digits_part(s@);
                if all_dec_digits(d) {
                    assert(d.subrange(0, i - start) =~= s@.subrange(start as int, i as int));
                    lemma_dec_value_prefix_le(d, i - start);
                }
            }
            return None;
        }
    }
    proof {
        assert(s@.subrange(start as int, n as int) =~= digits_part(s@));
        assert(is_port_str(s@));
    }
    Some(acc as u16)
}

/// View of an optional variable value as an optional character sequence.
pub open spec fn opt_text(o: Option<String>) -> Option<Seq<char>> {
    match o {
        Some(s) => Some(s@),
        None => None,
    }
}

/// The text the port is read from: the primary variable if set, else the
/// fallback if set, else the textual default.
pub open spec fn chosen_port_text(primary: Option<Seq<char>>, fallback: Option<Seq<char>>) -> Seq<
    char,
> {
    match primary {
        Some(p) => p,
        None => match fallback {
            Some(f) => f,
            None => "5003"@,
        },
    }
}

/// A set primary variable decides the port text alone, whatever the fallback
/// holds.
pub proof fn lemma_primary_wins(primary: Seq<char>, fallback: Option<Seq<char>>)
    ensures
        chosen_port_text(Some(primary), fallback) == primary,
{
}

/// With the primary variable absent, a set fallback decides the port text.
pub proof fn lemma_fallback_when_primary_absent(fallback: Seq<char>)
    ensures
        chosen_port_text(None, Some(fallback)) == fallback,
{
}

/// With both variables absent, the chosen text is a valid port string and
/// denotes the default port.
pub proof fn lemma_default_when_both_absent()
    ensures
        is_port_str(chosen_port_text(None, None)),
        port_value(chosen_port_text(None, None)) == DEFAULT_PORT,
{
    reveal_strlit("5003");
    let s = "5003"@;
    assert(s.len() == 4);
    assert(digits_part(s) =~= s);
    let s3 = s.drop_last();
    let s2 = s3.drop_last();
    let s1 = s2.drop_last();
    let s0 = s1.drop_last();
    assert(s3 =~= s.subrange(0, 3));
    assert(s2 =~= s.subrange(0, 2));
    assert(s1 =~= s.subrange(0, 1));
    assert(s0.len() == 0);
    assert(dec_value(s0) == 0);
    assert(s1.last() == '5' && s2.last() == '0' && s3.last() == '0' && s.last() == '3');
    assert(dec_value(s1) == 5);
    assert(dec_value(s2) == 50);
    assert(dec_value(s3) == 500);
    assert(dec_value(s) == 5003);
}

/// Resolves the listening port from the two optional environment values:
/// the primary value if set, else the fallback if set, else the default text.
/// Returns `Err` exactly when the chosen text is not a valid port string —
/// the condition on which startup must abort.
pub fn resolve_port(primary: Option<String>, fallback: Option<String>) -> (r: Result<
    u16,
    PortError,
>)
    ensures
        ({
            let chosen = chosen_port_text(opt_text(primary), opt_text(fallback));
            match r {
                Ok(p) => is_port_str(chosen) && p as int == port_value(chosen),
                Err(e) => !is_port_str(chosen) && e == PortError::InvalidPort,
            }
        }),
        primary is None && fallback is None ==> r == Ok::<u16, PortError>(DEFAULT_PORT),
{
    let text: &str = match &primary {
        Some(p) => p.as_str(),
        None => match &fallback {
            Some(f) => f.as_str(),
            None => "5003",
        },
    };
    proof {
        if primary is None && fallback is None {
            lemma_default_when_both_absent();
        }
    }
    match parse_port(text) {
        Some(p) => Ok(p),
        None => Err(PortError::InvalidPort),
    }
}

} // verus!
