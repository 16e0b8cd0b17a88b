use auth_service::domain::password::{validate_password, MIN_PASSWORD_LENGTH};
use auth_service::domain::{Email, LoginAttemptId, Password, TwoFACode, User, ValidationError};

fn email_of(text: &str) -> Result<Email, ValidationError> {
    Email::parse(text.to_owned())
}

#[test]
fn email_empty_string() {
    let email = "".to_owned();
    assert!(Email::parse(email).is_err());
}

#[test]
fn missing_domain() {
    let email = "myemaildomainless".to_owned();
    assert!(Email::parse(email).is_err());
}

#[test]
fn missing_subject() {
    let email = "@mydomain".to_owned();
    assert!(Email::parse(email).is_err());
}

#[test]
fn email_errors_are_of_their_kind() {
    assert_eq!(email_of("").err(), Some(ValidationError::InvalidEmail));
    assert_eq!(email_of("no-at-sign").err(), Some(ValidationError::InvalidEmail));
    assert_eq!(email_of("@only-domain.com").err(), Some(ValidationError::InvalidEmail));
}

#[test]
fn valid_emails_parse_and_keep_their_text() {
    let valid = [
        "test@example.com",
        "johndoe@example.com",
        "a@x.com",
        "weirder-email@here.and.there.com",
        "email@[127.0.0.1]",
        "first.last+tag@sub.example.org",
    ];
    for text in valid {
        let email = email_of(text).unwrap();
        assert_eq!(email.expose_secret(), text);
    }
}

#[test]
fn malformed_emails_are_refused() {
    let invalid = [
        "invalid-email",
        "two@@example.com",
        "spaces in@example.com",
        "trailing@",
        "a@b@c@",
        "\"quoted@local\"@example.com",
    ];
    for text in invalid {
        assert!(email_of(text).is_err(), "{text}");
    }
}

#[test]
fn emails_compare_by_their_text() {
    let a = email_of("a@x.com").unwrap();
    let b = email_of("a@x.com").unwrap();
    let c = email_of("b@x.com").unwrap();
    assert!(a == b);
    assert!(a != c);
    assert!(a.clone() == a);
}

#[test]
fn password_empty_string() {
    let pass = "".to_string();
    assert!(Password::parse(pass).is_err());
}

#[test]
fn less_than_8_chars() {
    let pass = "1234567".to_string();
    assert!(Password::parse(pass).is_err());
}

#[test]
fn passwords_of_eight_or_more_parse() {
    assert_eq!(MIN_PASSWORD_LENGTH, 8);
    for length in 8..50 {
        let text = "x".repeat(length);
        let password = Password::parse(text.clone()).unwrap();
        assert_eq!(password.expose_secret(), &text);
    }
    for length in 0..8 {
        let r = Password::parse("x".repeat(length));
        assert_eq!(r.err(), Some(ValidationError::InvalidPassword));
    }
}

#[test]
fn password_length_counts_bytes() {
    // Four characters of two bytes each.
    assert!(validate_password(&"éééé".to_owned()));
    assert!(Password::parse("éééé".to_owned()).is_ok());
    // Seven characters, seven bytes.
    assert!(!validate_password(&"abcdefg".to_owned()));
    // Three characters of two bytes each and one of one: seven bytes.
    assert!(!validate_password(&"éééa".to_owned()));
}

#[test]
fn passwords_compare_by_their_text() {
    let a = Password::parse("password".to_owned()).unwrap();
    let b = Password::parse("password".to_owned()).unwrap();
    let c = Password::parse("wrong_password".to_owned()).unwrap();
    assert!(a == b);
    assert!(a != c);
    assert!(a.clone() == a);
}

#[test]
fn empty_string_2fa_code() {
    let code = "";
    assert!(TwoFACode::parse(code.to_string()).is_err());
}

#[test]
fn less_than_six_2fa_code() {
    let code = "12345";
    assert!(TwoFACode::parse(code.to_string()).is_err());
}

#[test]
fn not_all_numbers_2fa_code() {
    let code = "1234t2";
    assert!(TwoFACode::parse(code.to_string()).is_err());
}

#[test]
fn test_parse_valid_2fa_code() {
    let code = rand::Rng::gen_range(&mut rand::thread_rng(), 100000..=999999).to_string();
    assert!(TwoFACode::parse(code).is_ok());
}

#[test]
fn two_fa_codes_are_exactly_six_digits() {
    for text in ["000000", "123456", "999999", "012345"] {
        let code = TwoFACode::parse(text.to_owned()).unwrap();
        assert_eq!(code.expose_secret(), text);
    }
    for text in ["", "1", "12345", "1234567", "12F456", "12 456", "-12345", "１２３４５６", "١٢٣"] {
        let r = TwoFACode::parse(text.to_owned());
        assert_eq!(r.err(), Some(ValidationError::InvalidTwoFACode), "{text}");
    }
}

#[test]
fn two_fa_code_from_number_prints_six_digits() {
    assert_eq!(TwoFACode::from_number(100000).unwrap().expose_secret(), "100000");
    assert_eq!(TwoFACode::from_number(123456).unwrap().expose_secret(), "123456");
    assert_eq!(TwoFACode::from_number(907050).unwrap().expose_secret(), "907050");
    assert_eq!(TwoFACode::from_number(999999).unwrap().expose_secret(), "999999");
    for n in [0, 1, 99999, 1000000, u32::MAX] {
        assert_eq!(TwoFACode::from_number(n).err(), Some(ValidationError::InvalidTwoFACode));
    }
}

#[test]
fn fresh_two_fa_codes_are_six_digits_without_leading_zero() {
    for _ in 0..200 {
        let code = TwoFACode::default();
        let text = code.expose_secret().clone();
        assert_eq!(text.len(), 6);
        assert!(text.chars().all(|c| c.is_ascii_digit()));
        assert_ne!(text.as_bytes()[0], b'0');
        assert!(TwoFACode::parse(text).unwrap() == code);
    }
}

#[test]
fn empty_string_login_attempt_id() {
    let code = "";
    assert!(LoginAttemptId::parse(code.to_string()).is_err());
}

#[test]
fn not_uuid_login_attempt_id() {
    let code = "fidoaspnfds-fdas-fdsarg";
    assert!(LoginAttemptId::parse(code.to_string()).is_err());
}

#[test]
fn login_attempt_id_errors_are_of_their_kind() {
    for text in ["", "454325433455432", "fidoaspnfds-fdas-fdsarg", "550e8400-e29b-41d4-a716-44665544000"] {
        let r = LoginAttemptId::parse(text.to_owned());
        assert_eq!(r.err(), Some(ValidationError::InvalidLoginAttemptId), "{text}");
    }
}

#[test]
fn login_attempt_id_is_kept_in_printed_form() {
    let printed = "550e8400-e29b-41d4-a716-446655440000";
    let forms = [
        "550e8400-e29b-41d4-a716-446655440000",
        "550E8400-E29B-41D4-A716-446655440000",
        "550e8400e29b41d4a716446655440000",
        "{550e8400-e29b-41d4-a716-446655440000}",
        "urn:uuid:550e8400-e29b-41d4-a716-446655440000",
    ];
    for form in forms {
        let id = LoginAttemptId::parse(form.to_owned()).unwrap();
        assert_eq!(id.expose_secret(), printed, "{form}");
    }
}

#[test]
fn fresh_login_attempt_ids_parse_as_themselves() {
    let mut seen = Vec::new();
    for _ in 0..50 {
        let id = LoginAttemptId::default();
        let text = id.expose_secret().clone();
        assert_eq!(text.len(), 36);
        assert!(LoginAttemptId::parse(text.clone()).unwrap() == id);
        assert!(uuid::Uuid::parse_str(&text).is_ok());
        assert!(!seen.contains(&text));
        seen.push(text);
    }
}

#[test]
fn user_holds_what_it_was_made_of() {
    let email = email_of("johndoe@example.com").unwrap();
    let password = Password::parse("password".to_owned()).unwrap();
    let user = User::new(email.clone(), password.clone(), true);
    assert!(user.email == email);
    assert!(user.password == password);
    assert!(user.requires_2fa);
    assert!(user.clone() == user);
    let other = User::new(email, password, false);
    assert!(other != user);
}

#[test]
fn text_of_another_length_is_no_uuid() {
    for length in (0..64).filter(|n| ![32, 36, 38, 45].contains(n)) {
        let text = "a".repeat(length);
        assert!(LoginAttemptId::parse(text).is_err(), "{length}");
    }
    // Of the right length in characters, not in bytes.
    let text = "é".repeat(32);
    assert!(LoginAttemptId::parse(text).is_err());
}
