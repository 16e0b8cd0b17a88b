use auth_service::domain::Email;
use auth_service::utils::auth::{
    claims_at, create_auth_cookie, create_token, generate_auth_cookie, generate_auth_token,
    generate_auth_token_at, validate_token, Claims, GenerateTokenError, SameSite,
    TOKEN_TTL_SECONDS,
};
use auth_service::utils::constants::JWT_COOKIE_NAME;
use auth_service::utils::password_hash::{compute_password_hash, verify_password_hash, VerifyError};

fn secret() -> String {
    "secret".to_owned()
}

fn now() -> i64 {
    chrono::Utc::now().timestamp()
}

#[test]
fn test_generate_auth_cookie() {
    let email = Email::parse("test@example.com".to_owned()).unwrap();
    let cookie = generate_auth_cookie(&email, &secret()).unwrap();
    assert_eq!(cookie.name, JWT_COOKIE_NAME);
    assert_eq!(cookie.value.split('.').count(), 3);
    assert_eq!(cookie.path, "/");
    assert!(cookie.http_only);
    assert_eq!(cookie.same_site, SameSite::Lax);
}

#[test]
fn test_create_auth_cookie() {
    let token = "test_token".to_owned();
    let cookie = create_auth_cookie(token.clone());
    assert_eq!(cookie.name, JWT_COOKIE_NAME);
    assert_eq!(cookie.value, token);
    assert_eq!(cookie.path, "/");
    assert!(cookie.http_only);
    assert_eq!(cookie.same_site, SameSite::Lax);
}

#[test]
fn test_generate_auth_token() {
    let email = Email::parse("test@example.com".to_owned()).unwrap();
    let result = generate_auth_token(&email, &secret()).unwrap();
    assert_eq!(result.split('.').count(), 3);
}

#[test]
fn test_validate_token_with_valid_token() {
    let email = Email::parse("test@example.com".to_owned()).unwrap();
    let token = generate_auth_token(&email, &secret()).unwrap();
    let result = validate_token(&token, &secret()).unwrap();
    assert_eq!(result.sub, "test@example.com");

    let exp = chrono::Utc::now()
        .checked_add_signed(chrono::Duration::try_minutes(9).expect("valid duration"))
        .expect("valid timestamp")
        .timestamp();

    assert!(result.exp > exp as usize);
}

#[test]
fn test_validate_token_with_invalid_token() {
    let token = "invalid token".to_owned();
    let result = validate_token(&token, &secret());
    assert!(result.is_err());
}

#[test]
fn cookie_name_and_token_lifetime() {
    assert_eq!(JWT_COOKIE_NAME, "jwt");
    assert_eq!(TOKEN_TTL_SECONDS, 600);
}

#[test]
fn claims_expire_ten_minutes_after_issue() {
    let email = Email::parse("test@example.com".to_owned()).unwrap();
    let claims = claims_at(&email, 1_000).unwrap();
    assert_eq!(claims.sub, "test@example.com");
    assert_eq!(claims.exp, 1_600);
    let claims = claims_at(&email, -600).unwrap();
    assert_eq!(claims.exp, 0);
}

#[test]
fn claims_are_refused_where_the_expiry_does_not_fit() {
    let email = Email::parse("test@example.com".to_owned()).unwrap();
    assert!(matches!(claims_at(&email, -601), Err(GenerateTokenError::UnexpectedError)));
    assert!(matches!(claims_at(&email, i64::MIN), Err(GenerateTokenError::UnexpectedError)));
    assert!(matches!(claims_at(&email, i64::MAX), Err(GenerateTokenError::UnexpectedError)));
    assert!(matches!(claims_at(&email, i64::MAX - 599), Err(GenerateTokenError::UnexpectedError)));
    assert!(matches!(
        generate_auth_token_at(&email, i64::MAX, &secret()),
        Err(GenerateTokenError::UnexpectedError)
    ));
}

#[test]
fn token_carries_its_claims() {
    let email = Email::parse("test@example.com".to_owned()).unwrap();
    let issued = now();
    let token = generate_auth_token_at(&email, issued, &secret()).unwrap();
    assert_ne!(token, "test@example.com");
    let claims = validate_token(&token, &secret()).unwrap();
    assert_eq!(claims.sub, "test@example.com");
    assert_eq!(claims.exp as i64, issued + 600);
}

#[test]
fn token_is_a_function_of_claims_and_key() {
    let claims = Claims { sub: "test@example.com".to_owned(), exp: 4_000_000_000 };
    let one = create_token(&claims, &secret()).unwrap();
    let two = create_token(&claims, &secret()).unwrap();
    assert_eq!(one, two);
    let other_key = create_token(&claims, &"another secret".to_owned()).unwrap();
    assert_ne!(one, other_key);
    let other_claims =
        create_token(&Claims { sub: "test@example.com".to_owned(), exp: 4_000_000_001 }, &secret())
            .unwrap();
    assert_ne!(one, other_claims);
    let read = validate_token(&one, &secret()).unwrap();
    assert_eq!(read.sub, claims.sub);
    assert_eq!(read.exp, claims.exp);
}

#[test]
fn token_is_refused_under_another_key() {
    let email = Email::parse("test@example.com".to_owned()).unwrap();
    let token = generate_auth_token(&email, &secret()).unwrap();
    assert!(validate_token(&token, &"another secret".to_owned()).is_err());
}

#[test]
fn token_is_refused_once_expired() {
    let email = Email::parse("test@example.com".to_owned()).unwrap();
    // Issued an hour ago: expired fifty minutes ago.
    let token = generate_auth_token_at(&email, now() - 3_600, &secret()).unwrap();
    assert!(validate_token(&token, &secret()).is_err());
    // Issued ten minutes and half a minute ago: expired, but within the
    // minute of leeway.
    let token = generate_auth_token_at(&email, now() - 630, &secret()).unwrap();
    assert!(validate_token(&token, &secret()).is_ok());
}

#[test]
fn tampered_and_malformed_tokens_are_refused() {
    let email = Email::parse("test@example.com".to_owned()).unwrap();
    let token = generate_auth_token(&email, &secret()).unwrap();
    let mut tampered = token.clone();
    let last = tampered.pop().unwrap();
    tampered.push(if last == 'A' { 'B' } else { 'A' });
    assert!(validate_token(&tampered, &secret()).is_err());
    for text in ["", "invalid", "a.b.c", "banned_token"] {
        assert!(validate_token(text, &secret()).is_err(), "{text}");
    }
}

#[test]
fn hash_verifies_against_its_password() {
    for text in ["password1", "password123", "pässwörd", "a much longer passphrase, with spaces"] {
        let password = text.to_owned();
        let hash = compute_password_hash(&password).unwrap();
        assert_ne!(hash, password);
        assert!(hash.starts_with("$argon2id$v=19$m=1500,t=2,p=1$"));
        assert_eq!(verify_password_hash(&hash, &password), Ok(()));
    }
}

#[test]
fn hash_refuses_another_password() {
    let hash = compute_password_hash(&"password1".to_owned()).unwrap();
    for other in ["password2", "Password1", "password1 ", "", "password"] {
        assert_eq!(verify_password_hash(&hash, &other.to_owned()), Err(VerifyError));
    }
}

#[test]
fn hashes_of_one_password_differ() {
    let password = "password1".to_owned();
    let one = compute_password_hash(&password).unwrap();
    let two = compute_password_hash(&password).unwrap();
    assert_ne!(one, two);
    assert_eq!(verify_password_hash(&one, &password), Ok(()));
    assert_eq!(verify_password_hash(&two, &password), Ok(()));
}

#[test]
fn malformed_hash_verifies_nothing() {
    for hash in ["", "password1", "$argon2id$", "not a hash at all"] {
        assert_eq!(
            verify_password_hash(&hash.to_owned(), &"password1".to_owned()),
            Err(VerifyError)
        );
    }
}

#[test]
fn cookie_carries_the_token_issued_now() {
    let email = Email::parse("test@example.com".to_owned()).unwrap();
    let before = now();
    let cookie = generate_auth_cookie(&email, &secret()).unwrap();
    let after = now();
    assert_eq!(cookie.name, "jwt");
    assert_eq!(cookie.path, "/");
    assert!(cookie.http_only);
    assert_eq!(cookie.same_site, SameSite::Lax);
    let claims = validate_token(&cookie.value, &secret()).unwrap();
    assert_eq!(claims.sub, "test@example.com");
    assert!(before + 600 <= claims.exp as i64 && claims.exp as i64 <= after + 600);
    // The cookie holds exactly the token that is issued at that time.
    let issued = claims.exp as i64 - 600;
    assert!(issued >= 0);
    assert_eq!(cookie.value, generate_auth_token_at(&email, issued, &secret()).unwrap());
}

const DIGEST: &str = "AAAAAAAAAAAAAAAAAAAAAAAAAAAAAAAAAAAAAAAAAAA";

fn hash_with(params: &str) -> String {
    format!("$argon2id$v=19${params}$c2FsdHNhbHQ${DIGEST}")
}

#[test]
fn hash_that_asks_for_too_many_lanes_is_refused() {
    let password = "password1".to_owned();
    for params in [
        "m=65536,t=2,p=16777216",
        "m=65536,t=2,p=536870911",
        "m=65536,t=2,p=536870912",
        "m=4294967295,t=2,p=536870912",
        "m=65536,t=2,p=4294967295",
        "m=32,t=1,p=1,p=536870912",
        "p=536870912",
    ] {
        assert_eq!(verify_password_hash(&hash_with(params), &password), Err(VerifyError), "{params}");
    }
}

#[test]
fn the_last_number_of_lanes_is_the_one_that_counts() {
    let password = "password1".to_owned();
    // Hashed for real with one lane; a first `p` beyond the maximum in front
    // of it changes nothing of what Argon2 goes by.
    let hash = compute_password_hash(&password).unwrap();
    let doubled = hash.replace("m=1500,t=2,p=1$", "p=536870912,m=1500,t=2,p=1$");
    assert_ne!(doubled, hash);
    assert_eq!(verify_password_hash(&doubled, &password), Ok(()));
    assert_eq!(verify_password_hash(&doubled, &"password2".to_owned()), Err(VerifyError));
    // Turned round, the last asks for too many lanes.
    let turned = hash.replace("m=1500,t=2,p=1$", "m=1500,t=2,p=1,p=536870912$");
    assert_eq!(verify_password_hash(&turned, &password), Err(VerifyError));
}

#[test]
fn hash_with_odd_parameters_is_left_to_argon2() {
    let password = "password1".to_owned();
    for params in ["m=32,t=1,p=x", "m=32,t=1,p=01", "m=32,t=1,p=99999999999", "m=32,t=1", "m=32,t=1,p=0", "q=1"] {
        assert_eq!(verify_password_hash(&hash_with(params), &password), Err(VerifyError), "{params}");
    }
}

#[test]
fn text_without_three_parts_is_no_token() {
    for text in ["", "invalid token", "invalid", "a.b", ".", "banned_token"] {
        assert!(validate_token(text, &secret()).is_err(), "{text}");
    }
}
