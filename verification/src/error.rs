//! Error values that reach a client: a message catalogue and an HTTP-shaped
//! error of status code and text.

use crate::text::{decimal, decimal_text};
use vstd::prelude::*;
use vstd::string::StringExecFns;

verus! {

/// Body of a failed response.
#[derive(Debug)]
pub struct ErrorResponse {
    pub status: String,
    pub message: String,
}

/// The fixed messages of the service.
#[derive(Debug, PartialEq, Eq, Structural)]
pub enum ErrorMessage {
    EmptyPassword,
    ExceededMaxPasswordLength(usize),
    InvalidHashFormat,
    HashingError,
    InvalidToken,
    WrongCredentials,
    EmailAlreadyExists,
    UserNoLongerExists,
    EmailDoesNotExist,
    TokenNotProvided,
}

impl ErrorMessage {
    /// The text of a message.
    pub open spec fn message(self) -> Seq<char> {
        match self {
            ErrorMessage::EmptyPassword => "Password cannot be empty"@,
            ErrorMessage::ExceededMaxPasswordLength(max_length) => {
                "Password length exceeds maximum of "@ + decimal(max_length as nat)
            },
            ErrorMessage::InvalidHashFormat => "Invalid hash format"@,
            ErrorMessage::HashingError => "Error while hashing password"@,
            ErrorMessage::InvalidToken => "Authentication token is invalid or expired"@,
            ErrorMessage::WrongCredentials => "Wrong credentials"@,
            ErrorMessage::EmailAlreadyExists => "Email already exists"@,
            ErrorMessage::UserNoLongerExists => "User no longer exists"@,
            ErrorMessage::EmailDoesNotExist => "Email does not exist"@,
            ErrorMessage::TokenNotProvided => "Token not provided"@,
        }
    }

    /// Writes the message out.
    pub fn to_str(&self) -> (text: String)
        ensures
            text@ == self.message(),
    {
        match self {
            ErrorMessage::EmptyPassword => String::from_str("Password cannot be empty"),
            ErrorMessage::ExceededMaxPasswordLength(max_length) => {
                let limit = decimal_text(*max_length as u64);
                String::from_str("Password length exceeds maximum of ").concat(limit.as_str())
            },
            ErrorMessage::InvalidHashFormat => String::from_str("Invalid hash format"),
            ErrorMessage::HashingError => String::from_str("Error while hashing password"),
            ErrorMessage::InvalidToken => String::from_str(
                "Authentication token is invalid or expired",
            ),
            ErrorMessage::WrongCredentials => String::from_str("Wrong credentials"),
            ErrorMessage::EmailAlreadyExists => String::from_str("Email already exists"),
            ErrorMessage::UserNoLongerExists => String::from_str("User no longer exists"),
            ErrorMessage::EmailDoesNotExist => String::from_str("Email does not exist"),
            ErrorMessage::TokenNotProvided => String::from_str("Token not provided"),
        }
    }

    /// The message as an owned string; the same text as `to_str`.
    pub fn to_string(&self) -> (text: String)
        ensures
            text@ == self.message(),
    {
        self.to_str()
    }
}

/// Status code of a malformed or refused request.
pub const BAD_REQUEST: u16 = 400;

/// Status code of a request without valid credentials.
pub const UNAUTHORIZED: u16 = 401;

/// Status code of a request that collides with stored data.
pub const CONFLICT: u16 = 409;

/// Status code of a failure on the server's side.
pub const INTERNAL_SERVER_ERROR: u16 = 500;

/// A failure as the transport reports it: a status code and a message.
#[derive(Debug, Clone)]
pub struct HttpError {
    pub status: u16,
    pub message: String,
}

impl HttpError {
    /// Whether this error has the given status and text.
    pub open spec fn is(self, status: u16, message: Seq<char>) -> bool {
        self.status == status && self.message@ == message
    }

    pub fn new(message: String, status: u16) -> (error: Self)
        ensures
            error.is(status, message@),
    {
        Self { status, message }
    }

    pub fn server_error(message: String) -> (error: Self)
        ensures
            error.is(INTERNAL_SERVER_ERROR, message@),
    {
        Self { status: INTERNAL_SERVER_ERROR, message }
    }

    pub fn bad_request(message: String) -> (error: Self)
        ensures
            error.is(BAD_REQUEST, message@),
    {
        Self { status: BAD_REQUEST, message }
    }

    pub fn unique_constraint_violation(message: String) -> (error: Self)
        ensures
            error.is(CONFLICT, message@),
    {
        Self { status: CONFLICT, message }
    }

    pub fn unauthorized(message: String) -> (error: Self)
        ensures
            error.is(UNAUTHORIZED, message@),
    {
        Self { status: UNAUTHORIZED, message }
    }

    /// The body that a failed response carries: the status word `fail` and
    /// this error's message.
    pub fn into_error_response(self) -> (body: ErrorResponse)
        ensures
            body.status@ == "fail"@,
            body.message@ == self.message@,
    {
        ErrorResponse { status: String::from_str("fail"), message: self.message }
    }
}

} // verus!
