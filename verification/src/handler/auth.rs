//! Registration and login.

use crate::dtos::{LoginUserDto, RegisterUserDto, Response, UserLoginResponseDto};
use crate::error::{ErrorMessage, HttpError, BAD_REQUEST, CONFLICT, INTERNAL_SERVER_ERROR};
use crate::models::User;
use crate::password;
use vstd::prelude::*;
use vstd::string::StringExecFns;

verus! {

/// What the store is asked to save for a new user: the password as a hash.
#[derive(Debug)]
pub struct NewUser {
    pub name: String,
    pub email: String,
    pub password: String,
}

/// Why the store did not save a row.
#[derive(Debug)]
pub enum SaveFailure {
    /// A unique constraint was violated.
    UniqueViolation,
    /// Another failure of the database, with its message.
    Database(String),
    /// A failure before or after the database, with its message.
    Other(String),
}

/// Prepares a registration for the store: the name and address as given,
/// the password hashed. The only refusal is that of a password too long to
/// hash, a server error.
pub fn register(user: RegisterUserDto) -> (result: Result<NewUser, HttpError>)
    ensures
        result is Ok <==> password::hashable(user.password@),
        match result {
            Ok(row) => row.name == user.name && row.email == user.email && password::accepts(
                user.password@,
                row.password@,
            ),
            Err(e) => e.is(INTERNAL_SERVER_ERROR, ErrorMessage::HashingError.message()),
        },
{
    match password::hash(user.password.as_str()) {
        Ok(hashed) => Ok(NewUser { name: user.name, email: user.email, password: hashed }),
        Err(e) => Err(HttpError::server_error(e.to_string())),
    }
}

/// The refusal of a registration that the store did not save: a conflict
/// where the address is taken, else a server error with the store's message.
pub fn register_failed(failure: SaveFailure) -> (error: HttpError)
    ensures
        match failure {
            SaveFailure::UniqueViolation => error.is(
                CONFLICT,
                ErrorMessage::EmailAlreadyExists.message(),
            ),
            SaveFailure::Database(message) => error.is(INTERNAL_SERVER_ERROR, message@),
            SaveFailure::Other(message) => error.is(INTERNAL_SERVER_ERROR, message@),
        },
{
    match failure {
        SaveFailure::UniqueViolation => HttpError::unique_constraint_violation(
            ErrorMessage::EmailAlreadyExists.to_string(),
        ),
        SaveFailure::Database(message) => HttpError::server_error(message),
        SaveFailure::Other(message) => HttpError::server_error(message),
    }
}

/// The body of the response to an accepted registration.
pub fn registered() -> (body: Response)
    ensures
        body.status@ == "successful"@,
        body.message@ == "User registered successfully"@,
{
    Response { status: "successful", message: String::from_str("User registered successfully") }
}

/// What `login` returns, as a value of the model: nothing, or the status and
/// message of the refusal.
pub open spec fn login_check(user: Option<User>, password: Seq<char>) -> Result<
    (),
    (u16, Seq<char>),
> {
    match user {
        None => Err((BAD_REQUEST, ErrorMessage::WrongCredentials.message())),
        Some(row) => match password::comparison(password, row.password@) {
            Err(e) => Err((INTERNAL_SERVER_ERROR, e.message())),
            Ok(false) => Err((BAD_REQUEST, ErrorMessage::WrongCredentials.message())),
            Ok(true) => Ok(()),
        },
    }
}

/// Checks the credentials of a login against the row found under the
/// address, and gives the row back where they are right.
///
/// An unknown address and a wrong password are refused in the same words; a
/// stored hash that is no hash is a server error.
pub fn login(user: Option<User>, body: &LoginUserDto) -> (result: Result<User, HttpError>)
    ensures
        match login_check(user, body.password@) {
            Ok(_) => result == Ok::<User, HttpError>(user->0),
            Err((status, message)) => result is Err && result->Err_0.is(status, message),
        },
{
    let row = match user {
        Some(row) => row,
        None => {
            return Err(HttpError::bad_request(ErrorMessage::WrongCredentials.to_string()));
        },
    };
    match password::compare(body.password.as_str(), row.password.as_str()) {
        Err(e) => Err(HttpError::server_error(e.to_string())),
        Ok(false) => Err(HttpError::bad_request(ErrorMessage::WrongCredentials.to_string())),
        Ok(true) => Ok(row),
    }
}

/// Whether a session length in hours can be told in minutes.
pub open spec fn session_fits(jwt_maxage: i64) -> bool {
    i64::MIN <= jwt_maxage * 60 <= i64::MAX
}

/// The lifetime of the session cookie in minutes, from the configured
/// session length.
pub fn cookie_minutes(jwt_maxage: i64) -> (minutes: i64)
    requires
        session_fits(jwt_maxage),
    ensures
        minutes == jwt_maxage * 60,
{
    jwt_maxage * 60
}

/// The body of the response to an accepted login.
pub fn logged_in(token: String) -> (body: UserLoginResponseDto)
    ensures
        body.status@ == "successful"@,
        body.token == token,
{
    UserLoginResponseDto { status: String::from_str("successful"), token }
}

} // verus!
