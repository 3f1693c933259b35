use sqlstuff::error::InputError;
use sqlstuff::validate::validate_email;

#[test]
fn accepts_plain_email() {
    assert!(validate_email("alice@example.com").is_ok());
}

#[test]
fn accepts_minimal_email() {
    assert!(validate_email("@").is_ok());
}

#[test]
fn rejects_email_with_space() {
    let r = validate_email("alice @example.com");
    assert_eq!(r.unwrap_err(), "email cannot contain spaces");
}

#[test]
fn rejects_email_without_at() {
    let r = validate_email("alice.example.com");
    assert_eq!(r.unwrap_err(), "email is not valid");
}

#[test]
fn space_reported_before_missing_at() {
    let r = validate_email("alice example com");
    assert_eq!(r.unwrap_err(), "email cannot contain spaces");
}

#[test]
fn rejects_empty_email() {
    let r = validate_email("");
    assert_eq!(r.unwrap_err(), "email is not valid");
}

#[test]
fn accepts_non_ascii_email() {
    assert!(validate_email("ålice@exämple.com").is_ok());
    assert!(validate_email("ålice exämple").is_err());
}

#[test]
fn input_error_messages() {
    assert_eq!(InputError::EmptyUsername.message(), "username cannot be empty");
    assert_eq!(InputError::EmptyEmail.message(), "email cannot be empty");
    assert_eq!(InputError::EmailHasSpace.message(), "email cannot contain spaces");
    assert_eq!(InputError::EmailMissingAt.message(), "email is not valid");
}
