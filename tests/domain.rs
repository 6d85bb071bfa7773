use auth_service::password::{meets_min_length, MIN_PASSWORD_LEN};
use auth_service::{Email, Password, User, ValidationError};

#[test]
fn test_valid_email() {
    let email = Email::parse("test@example.com".to_string());
    assert!(email.is_ok());
}

#[test]
fn test_invalid_email() {
    let email = Email::parse("invalid_email".to_string());
    assert!(email.is_err());
}

#[test]
fn test_valid_password() {
    let password = Password::parse("strongpassword".to_string());
    assert!(password.is_ok());
}

#[test]
fn test_invalid_password() {
    let password = Password::parse("short".to_string());
    assert!(password.is_err());
}

#[test]
fn email_without_at_is_refused_with_its_kind() {
    for raw in ["", "plainaddress", "bad-email", "a.b.c"] {
        assert_eq!(Email::parse(raw.to_string()), Err(ValidationError::InvalidEmailFormat));
    }
}

#[test]
fn email_keeps_its_text() {
    for raw in ["@", "a@b.com", "  x@y  ", "ü@ñ.de", "two@@ats"] {
        let email = Email::parse(raw.to_string()).unwrap();
        assert_eq!(email.as_str(), raw);
        assert_eq!(email.as_ref(), raw);
    }
}

#[test]
fn email_round_trip_reparses_to_equal_value() {
    let first = Email::parse("new@example.com".to_string()).unwrap();
    let second = Email::parse(first.as_str().to_string()).unwrap();
    assert_eq!(first, second);
    assert_eq!(first.clone(), second);
}

#[test]
fn password_too_short_names_its_kind() {
    assert_eq!(Password::parse("short".to_string()), Err(ValidationError::PasswordTooShort));
    assert_eq!(Password::parse(String::new()), Err(ValidationError::PasswordTooShort));
    assert_eq!(Password::parse("1234567".to_string()), Err(ValidationError::PasswordTooShort));
}

#[test]
fn password_length_is_measured_after_trimming() {
    assert!(Password::parse("12345678".to_string()).is_ok());
    assert_eq!(Password::parse("   1234567   ".to_string()), Err(ValidationError::PasswordTooShort));
    assert_eq!(Password::parse("\t\n1234567\r\n".to_string()), Err(ValidationError::PasswordTooShort));
    assert!(Password::parse("  12345678  ".to_string()).is_ok());
    assert_eq!(Password::parse("          ".to_string()), Err(ValidationError::PasswordTooShort));
}

#[test]
fn password_length_counts_characters() {
    assert_eq!(Password::parse("éééé".to_string()), Err(ValidationError::PasswordTooShort));
    assert_eq!(Password::parse("ééééé".to_string()), Err(ValidationError::PasswordTooShort));
    assert!(Password::parse("éééééééé".to_string()).is_ok());
    assert_eq!(Password::parse("日本語パスワー".to_string()), Err(ValidationError::PasswordTooShort));
    assert!(Password::parse("日本語パスワード".to_string()).is_ok());
}

#[test]
fn password_keeps_untrimmed_text() {
    let password = Password::parse("  password123  ".to_string()).unwrap();
    assert_eq!(password.as_str(), "  password123  ");
    let again = Password::parse(password.as_ref().to_string()).unwrap();
    assert_eq!(password, again);
}

#[test]
fn min_length_check_on_trimmed_text() {
    assert_eq!(MIN_PASSWORD_LEN, 8);
    assert!(meets_min_length("12345678"));
    assert!(!meets_min_length("1234567"));
    assert!(!meets_min_length(""));
    assert!(!meets_min_length("éééé"));
    assert!(meets_min_length("éééééééé"));
}

#[test]
fn user_projections_return_what_was_given() {
    let email = Email::parse("a@b.com".to_string()).unwrap();
    let password = Password::parse("password123".to_string()).unwrap();
    let user = User::new(email.clone(), password.clone(), true);
    assert_eq!(user.email(), &email);
    assert_eq!(user.password(), &password);
    assert!(user.requires_2fa());
    let copy = user.clone();
    assert_eq!(copy.email(), &email);
    assert!(!User::new(email, password, false).requires_2fa());
}
