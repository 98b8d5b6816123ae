use vstd::prelude::*;
use crate::timestamp::Instant;

verus! {

#[verifier::external_type_specification]
#[verifier::external_body]
pub struct ExParseError(chrono::ParseError);

/// The UTC moment that an RFC 3339 text denotes, or `None` where the text is
/// not a valid RFC 3339 date and time.
pub uninterp spec fn rfc3339_instant(s: Seq<char>) -> Option<Instant>;

/// Why a timestamp text was refused.
#[derive(Debug)]
pub enum TimestampError {
    /// The text is not an RFC 3339 date and time; chrono's reason.
    NotRfc3339(chrono::ParseError),
}

/// Relies on chrono::DateTime::parse_from_rfc3339, read back through
/// `timestamp` and `timestamp_subsec_nanos`: the parse depends on the text
/// alone, and the offset it carries is already folded into the UTC seconds.
/// A leap second (`:60`) comes back as second :59 with a nanosecond count of
/// one second or more; offsets are whole minutes, so it stays on a :59.
#[verifier::external_body]
fn parse_rfc3339(s: &str) -> (r: Result<Instant, chrono::ParseError>)
    ensures
        match r {
            Ok(t) => rfc3339_instant(s@) == Some(t) && t.wf(),
            Err(_) => rfc3339_instant(s@) is None,
        },
{
    match chrono::DateTime::parse_from_rfc3339(s) {
        Ok(dt) => Ok(Instant { secs: dt.timestamp(), nanos: dt.timestamp_subsec_nanos() }),
        Err(e) => Err(e),
    }
}

/// Reads an RFC 3339 timestamp as a UTC moment.
pub fn deserialize(s: &str) -> (r: Result<Instant, TimestampError>)
    ensures
        match rfc3339_instant(s@) {
            Some(t) => r == Ok::<Instant, TimestampError>(t),
            None => r is Err,
        },
        r matches Ok(t) ==> t.wf(),
{
    match parse_rfc3339(s) {
        Ok(t) => Ok(t),
        Err(e) => Err(TimestampError::NotRfc3339(e)),
    }
}

} // verus!
