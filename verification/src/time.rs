//! Instants on the UTC time line, at the resolution of the store.

use chrono::DateTime;
use vstd::prelude::*;

verus! {

/// Microseconds in a second.
pub const MICROS_PER_SECOND: i64 = 1_000_000;

/// An absolute UTC instant: microseconds since 1970-01-01T00:00:00Z, leap
/// seconds not counted.
#[derive(Clone, Copy, Debug, PartialEq, Eq, Structural)]
pub struct Timestamp {
    pub micros: i64,
}

impl Timestamp {
    pub fn new(micros: i64) -> (instant: Self)
        ensures
            instant.micros == micros,
    {
        Timestamp { micros }
    }

    /// Whether this instant is `other` or later.
    pub open spec fn reached(self, other: Timestamp) -> bool {
        self.micros >= other.micros
    }

    /// Whether this instant is `other` or later.
    pub fn has_reached(&self, other: &Timestamp) -> (yes: bool)
        ensures
            yes == self.reached(*other),
    {
        self.micros >= other.micros
    }
}

/// The instant that `chrono::DateTime::parse_from_rfc3339` reads from
/// `text`, in microseconds since the epoch, or `None` where it reports an
/// error.
pub uninterp spec fn rfc3339_micros(text: Seq<char>) -> Option<int>;

#[verifier::external_type_specification]
#[verifier::external_body]
pub struct ExParseError(chrono::ParseError);

/// `chrono::DateTime::parse_from_rfc3339`, read out with
/// `DateTime::timestamp_micros`.
///
/// Trusted: the outcome is the named one.
#[verifier::external_body]
fn rfc3339_instant(text: &str) -> (outcome: Result<i64, chrono::ParseError>)
    ensures
        outcome matches Ok(micros) ==> rfc3339_micros(text@) == Some(micros as int),
        outcome is Err ==> rfc3339_micros(text@) is None,
{
    Ok(DateTime::parse_from_rfc3339(text)?.timestamp_micros())
}

/// The instant that a parse outcome stands for, if any.
pub fn instant_of(outcome: Result<i64, chrono::ParseError>) -> (instant: Option<Timestamp>)
    ensures
        outcome matches Ok(micros) ==> instant == Some(Timestamp { micros }),
        outcome is Err ==> instant is None,
{
    match outcome {
        Ok(micros) => Some(Timestamp { micros }),
        Err(_) => None,
    }
}

/// What `parse_rfc3339` returns, as a value of the model.
pub open spec fn rfc3339(text: Seq<char>) -> Option<Timestamp> {
    match rfc3339_micros(text) {
        Some(micros) if i64::MIN <= micros <= i64::MAX => Some(Timestamp { micros: micros as i64 }),
        _ => None,
    }
}

/// Reads an RFC 3339 date and time, such as `2030-01-31T12:00:00+01:00`.
pub fn parse_rfc3339(text: &str) -> (instant: Option<Timestamp>)
    ensures
        instant == rfc3339(text@),
{
    instant_of(rfc3339_instant(text))
}

} // verus!
