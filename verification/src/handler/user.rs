//! The user's own profile.

use crate::dtos::{FilterUserDto, Response, UserData, UserResponseDto};
use crate::error::{ErrorMessage, HttpError, BAD_REQUEST, INTERNAL_SERVER_ERROR, UNAUTHORIZED};
use crate::models::User;
use crate::password;
use vstd::prelude::*;
use vstd::string::StringExecFns;

verus! {

/// The body that shows a user to themselves.
pub fn get_me(user: &User) -> (body: UserResponseDto)
    requires
        user.created_at is Some,
        user.updated_at is Some,
    ensures
        body.status@ == "successful"@,
        body.data.user.shows(*user),
{
    UserResponseDto {
        status: String::from_str("successful"),
        data: UserData { user: FilterUserDto::filter_user(user) },
    }
}

/// The refusal of a password change, if any, as status and message. In
/// this order: the user must still exist, the old password match the
/// stored hash, and the new password be short enough to hash.
pub open spec fn password_change_refusal(
    user: Option<User>,
    old_password: Seq<char>,
    new_password: Seq<char>,
) -> Option<(u16, Seq<char>)> {
    match user {
        None => Some((UNAUTHORIZED, ErrorMessage::InvalidToken.message())),
        Some(row) => match password::comparison(old_password, row.password@) {
            Err(e) => Some((INTERNAL_SERVER_ERROR, e.message())),
            Ok(false) => Some((BAD_REQUEST, "Old password is incorrect"@)),
            Ok(true) => if password::hashable(new_password) {
                None
            } else {
                Some((INTERNAL_SERVER_ERROR, ErrorMessage::HashingError.message()))
            },
        },
    }
}

/// Decides a password change and gives the hash of the new password to
/// store.
///
/// Refused exactly as `password_change_refusal` tells; otherwise the hash
/// returned matches the new password.
pub fn update_user_password(user: Option<User>, old_password: &str, new_password: &str) -> (result:
    Result<String, HttpError>)
    ensures
        match password_change_refusal(user, old_password@, new_password@) {
            Some((status, message)) => result is Err && result->Err_0.is(status, message),
            None => result is Ok && password::accepts(new_password@, result->Ok_0@),
        },
{
    let row = match user {
        Some(row) => row,
        None => {
            return Err(HttpError::unauthorized(ErrorMessage::InvalidToken.to_string()));
        },
    };
    match password::compare(old_password, row.password.as_str()) {
        Err(e) => {
            return Err(HttpError::server_error(e.to_string()));
        },
        Ok(false) => {
            return Err(HttpError::bad_request(String::from_str("Old password is incorrect")));
        },
        Ok(true) => {},
    }
    match password::hash(new_password) {
        Ok(hashed) => Ok(hashed),
        Err(e) => Err(HttpError::server_error(e.to_string())),
    }
}

/// The body of the response to an accepted password change.
pub fn password_updated() -> (body: Response)
    ensures
        body.status@ == "successful"@,
        body.message@ == "Password updated successfully"@,
{
    Response { status: "successful", message: String::from_str("Password updated successfully") }
}

/// The pattern that finds the addresses containing `query`: the query
/// between two percent signs.
pub fn search_by_email(query: &str) -> (pattern: String)
    ensures
        pattern@ == "%"@ + query@ + "%"@,
{
    String::from_str("%").concat(query).concat("%")
}

} // verus!
