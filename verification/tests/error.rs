use secure_share::error::{
    ErrorMessage, HttpError, BAD_REQUEST, CONFLICT, INTERNAL_SERVER_ERROR, UNAUTHORIZED,
};
use secure_share::text::{decimal_text, push_decimal};

#[test]
fn every_message_has_its_text() {
    let cases = [
        (ErrorMessage::EmptyPassword, "Password cannot be empty"),
        (ErrorMessage::ExceededMaxPasswordLength(64), "Password length exceeds maximum of 64"),
        (ErrorMessage::ExceededMaxPasswordLength(0), "Password length exceeds maximum of 0"),
        (ErrorMessage::InvalidHashFormat, "Invalid hash format"),
        (ErrorMessage::HashingError, "Error while hashing password"),
        (ErrorMessage::InvalidToken, "Authentication token is invalid or expired"),
        (ErrorMessage::WrongCredentials, "Wrong credentials"),
        (ErrorMessage::EmailAlreadyExists, "Email already exists"),
        (ErrorMessage::UserNoLongerExists, "User no longer exists"),
        (ErrorMessage::EmailDoesNotExist, "Email does not exist"),
        (ErrorMessage::TokenNotProvided, "Token not provided"),
    ];
    for (message, text) in cases {
        assert_eq!(message.to_str(), text);
        assert_eq!(message.to_string(), text);
    }
}

#[test]
fn constructors_set_the_status() {
    assert_eq!(HttpError::new("teapot".to_string(), 418).status, 418);
    assert_eq!(HttpError::server_error("a".to_string()).status, 500);
    assert_eq!(HttpError::bad_request("b".to_string()).status, 400);
    assert_eq!(HttpError::unique_constraint_violation("c".to_string()).status, 409);
    assert_eq!(HttpError::unauthorized("d".to_string()).status, 401);
    assert_eq!(HttpError::unauthorized("d".to_string()).message, "d");
    assert_eq!(
        (BAD_REQUEST, UNAUTHORIZED, CONFLICT, INTERNAL_SERVER_ERROR),
        (400, 401, 409, 500)
    );
}

#[test]
fn error_response_body_says_fail() {
    let body = HttpError::bad_request("nope".to_string()).into_error_response();
    assert_eq!(body.status, "fail");
    assert_eq!(body.message, "nope");
}

#[test]
fn decimal_text_is_the_decimal_form() {
    for n in [0u64, 7, 9, 10, 64, 100, 1_234_567_890, u64::MAX] {
        assert_eq!(decimal_text(n), n.to_string());
    }
    assert_eq!(decimal_text(u64::MAX), "18446744073709551615");
    let mut text = "n=".to_string();
    push_decimal(&mut text, 405);
    assert_eq!(text, "n=405");
}
