//! Settings of the service.

use vstd::prelude::*;

verus! {

/// Port the service listens on.
pub const DEFAULT_PORT: u64 = 8000;

/// Settings of the service.
#[derive(Debug, Clone)]
pub struct Config {
    pub database_url: String,
    pub jwt_secret: String,
    pub jwt_maxage: i64,
    pub port: u64,
}

/// Whether every character is a decimal digit.
pub open spec fn all_digits(digits: Seq<char>) -> bool {
    forall|i: int| 0 <= i < digits.len() ==> '0' as u32 <= (#[trigger] digits[i]) as u32 <= '9' as u32
}

/// The number that a string of decimal digits writes.
pub open spec fn digits_value(digits: Seq<char>) -> int
    decreases digits.len(),
{
    if digits.len() == 0 {
        0
    } else {
        digits_value(digits.drop_last()) * 10 + (digits.last() as u32 - '0' as u32)
    }
}

/// The 64-bit signed number that `text` writes in decimal: an optional sign,
/// then at least one digit and nothing but digits, the whole within the
/// range of the type. `None` for any other text.
pub open spec fn i64_of_text(text: Seq<char>) -> Option<int> {
    let signed = text.len() > 0 && (text[0] == '-' || text[0] == '+');
    let digits = if signed {
        text.skip(1)
    } else {
        text
    };
    let value = if signed && text[0] == '-' {
        -digits_value(digits)
    } else {
        digits_value(digits)
    };
    if digits.len() > 0 && all_digits(digits) && i64::MIN <= value <= i64::MAX {
        Some(value)
    } else {
        None
    }
}

#[verifier::external_type_specification]
#[verifier::external_body]
pub struct ExParseIntError(std::num::ParseIntError);

/// `str::parse::<i64>`.
///
/// Trusted: the text is read as a decimal number with an optional sign, and
/// refused where it is anything else or out of range.
#[verifier::external_body]
fn parse_i64(text: &str) -> (outcome: Result<i64, std::num::ParseIntError>)
    ensures
        outcome matches Ok(n) ==> i64_of_text(text@) == Some(n as int),
        outcome is Err ==> i64_of_text(text@) is None,
{
    text.parse::<i64>()
}

impl Config {
    /// Whether these are the settings that the three values stand for.
    pub open spec fn reads(
        self,
        database_url: String,
        jwt_secret: String,
        jwt_maxage: Seq<char>,
    ) -> bool {
        &&& self.database_url == database_url
        &&& self.jwt_secret == jwt_secret
        &&& Some(self.jwt_maxage as int) == i64_of_text(jwt_maxage)
        &&& self.port == DEFAULT_PORT
    }

    /// The settings, from a parse outcome of the session length.
    pub fn with_maxage(
        database_url: String,
        jwt_secret: String,
        jwt_maxage: Result<i64, std::num::ParseIntError>,
    ) -> (config: Option<Self>)
        ensures
            jwt_maxage is Err ==> config is None,
            jwt_maxage matches Ok(n) ==> config matches Some(c) && c.database_url == database_url
                && c.jwt_secret == jwt_secret && c.jwt_maxage == n && c.port == DEFAULT_PORT,
    {
        match jwt_maxage {
            Ok(n) => Some(Self { database_url, jwt_secret, jwt_maxage: n, port: DEFAULT_PORT }),
            Err(_) => None,
        }
    }

    /// The settings that the values of the three variables stand for: the
    /// database address and the token secret as they are, the session
    /// length read as a decimal number, and the default port. `None` where
    /// the session length is no number.
    pub fn from_values(database_url: String, jwt_secret: String, jwt_maxage: &str) -> (config:
        Option<Self>)
        ensures
            config is Some <==> i64_of_text(jwt_maxage@) is Some,
            config matches Some(c) ==> c.reads(database_url, jwt_secret, jwt_maxage@),
    {
        Self::with_maxage(database_url, jwt_secret, parse_i64(jwt_maxage))
    }
}

} // verus!
