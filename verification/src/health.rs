use vstd::prelude::*;
use vstd::string::StringExecFns;
use crate::port::is_dec_digit;
use crate::rfc3339::is_rfc3339_utc;

verus! {

/// A character chrono's RFC 3339 rendering draws on: a decimal digit or the
/// punctuation of dates, times and numeric offsets. None of these needs
/// escaping inside a JSON string literal.
pub open spec fn rfc3339_char(c: char) -> bool {
    is_dec_digit(c) || c == '-' || c == ':' || c == 'T' || c == '.' || c == '+'
}

/// An RFC 3339 character never needs escaping inside a JSON string literal:
/// none is a quote, a backslash, or a control character. The rendering of a
/// well-formed health body is therefore a sound JSON object.
pub proof fn lemma_rfc3339_char_json_safe(c: char)
    requires
        rfc3339_char(c),
    ensures
        c != '"',
        c != '\\',
        c as int >= 32,
{
}

/// The body served by the health route: a fixed status and service name, and
/// the time the request was handled.
pub struct HealthStatus {
    pub status: String,
    pub service: String,
    pub timestamp: String,
}

/// The rendering of the health body as a JSON object, for field values whose
/// characters need no escaping.
pub open spec fn health_json(status: Seq<char>, service: Seq<char>, timestamp: Seq<char>) -> Seq<
    char,
> {
    "{\"status\":\""@ + status + "\",\"service\":\""@ + service + "\",\"timestamp\":\""@ + timestamp
        + "\"}"@
}

impl HealthStatus {
    /// Well-formed: the status reads `ok`, the service carries the gateway's
    /// name, and the timestamp is made of RFC 3339 characters only.
    pub open spec fn wf(self) -> bool {
        &&& self.status@ == "ok"@
        &&& self.service@ == "realtime-gateway"@
        &&& forall|i: int|
            0 <= i < self.timestamp@.len() ==> rfc3339_char(#[trigger] self.timestamp@[i])
    }

    /// Builds the health body for a given timestamp. The timestamp is an
    /// RFC 3339 rendering, so its characters are drawn from `rfc3339_char`.
    pub fn new(timestamp: String) -> (r: Self)
        requires
            forall|i: int|
                0 <= i < timestamp@.len() ==> rfc3339_char(#[trigger] timestamp@[i]),
        ensures
            r.wf(),
            r.timestamp@ == timestamp@,
    {
        HealthStatus {
            status: String::from_str("ok"),
            service: String::from_str("realtime-gateway"),
            timestamp,
        }
    }

    /// Renders the body as the JSON object with the three fields in order.
    /// No field of a well-formed body holds a character that JSON escapes.
    pub fn json_body(&self) -> (r: String)
        ensures
            r@ == health_json(self.status@, self.service@, self.timestamp@),
    {
        let mut out = String::new();
        out.append("{\"status\":\"");
        out.append(self.status.as_str());
        out.append("\",\"service\":\"");
        out.append(self.service.as_str());
        out.append("\",\"timestamp\":\"");
        out.append(self.timestamp.as_str());
        out.append("\"}");
        proof {
            assert(out@ =~= health_json(self.status@, self.service@, self.timestamp@));
        }
        out
    }
}

/// Relies on chrono: `Utc::now().to_rfc3339()` renders the current UTC time
/// in RFC 3339 form — four year digits, date and time fields in range, an
/// optional digit fraction, and the offset written `+00:00`. Every character
/// it writes is a decimal digit or one of `-` `:` `T` `.` `+`. `Utc::now`
/// panics on a clock before the Unix epoch; for a clock past the year 9999
/// chrono would sign the year and leave the four-digit form behind, so the
/// rendering clause relies on the clock standing at most in that year.
#[verifier::external_body]
fn now_rfc3339() -> (r: String)
    ensures
        r@.len() > 0,
        is_rfc3339_utc(r@),
        forall|i: int| 0 <= i < r@.len() ==> rfc3339_char(#[trigger] r@[i]),
{
    chrono::Utc::now().to_rfc3339()
}

/// The health body for the moment of the call: status `ok`, the gateway's
/// service name, and the current UTC time, in RFC 3339 form, as the
/// timestamp.
pub fn health_now() -> (r: HealthStatus)
    ensures
        r.wf(),
        r.timestamp@.len() > 0,
        is_rfc3339_utc(r.timestamp@),
{
    let ts = now_rfc3339();
    HealthStatus::new(ts)
}

} // verus!
