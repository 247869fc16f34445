//! Timestamps in the form of RFC 3339.

use vstd::prelude::*;

use crate::protocol::Timestamp;

verus! {

/// What `chrono::DateTime::parse_from_rfc3339` makes of a text: the instant that the text writes,
/// as `timestamp` and `timestamp_subsec_nanos` give it, or the message of the error.
pub uninterp spec fn rfc3339_instant(raw: Seq<char>) -> Result<(i64, u32), Seq<char>>;

/// Calls `chrono::DateTime::parse_from_rfc3339`, moves the instant to UTC, which leaves it where
/// it is, and reads its seconds and nanoseconds; an error becomes its message. Both are those
/// that [`rfc3339_instant`] names for the text.
#[verifier::external_body]
fn instant_from_rfc3339(raw: &str) -> (r: Result<(i64, u32), String>)
    ensures
        match r {
            Ok(t) => rfc3339_instant(raw@) == Ok::<(i64, u32), Seq<char>>(t),
            Err(message) => rfc3339_instant(raw@) == Err::<(i64, u32), Seq<char>>(message@),
        },
{
    chrono::DateTime::parse_from_rfc3339(raw)
        .map(|t| t.with_timezone(&chrono::Utc))
        .map(|t| (t.timestamp(), t.timestamp_subsec_nanos()))
        .map_err(|e| e.to_string())
}

/// The timestamp that `raw` writes, or the message that says why it writes none.
pub open spec fn timestamp_in(raw: Seq<char>) -> Result<Timestamp, Seq<char>> {
    match rfc3339_instant(raw) {
        Ok(t) => Ok(Timestamp { secs: t.0, nanos: t.1 }),
        Err(message) => Err(message),
    }
}

/// The timestamp that `raw` writes, or the message that says why it writes none.
pub fn parse_timestamp(raw: &str) -> (r: Result<Timestamp, String>)
    ensures
        match r {
            Ok(t) => timestamp_in(raw@) == Ok::<Timestamp, Seq<char>>(t),
            Err(message) => timestamp_in(raw@) == Err::<Timestamp, Seq<char>>(message@),
        },
{
    match instant_from_rfc3339(raw) {
        Ok(t) => Ok(Timestamp { secs: t.0, nanos: t.1 }),
        Err(message) => Err(message),
    }
}

}
