use auth_service::app_state::AppState;
use auth_service::domain::{AuthAPIError, BannedTokenStore, Email, LoginAttemptId, TwoFACode, TwoFACodeStore};
use auth_service::routes::login::{LOGIN_STATUS, TWO_FACTOR_STATUS};
use auth_service::routes::logout::LOGOUT_STATUS;
use auth_service::routes::signup::SIGNUP_STATUS;
use auth_service::routes::verify_2fa::VERIFY_2FA_STATUS;
use auth_service::routes::verify_token::VERIFY_TOKEN_STATUS;
use auth_service::routes::{
    login, login_with, logout, logout_with, signup, verify_2fa, verify_2fa_at, verify_token,
    verify_token_with, LoginOutcome, LoginRequest, SignupRequest, Verify2FARequest,
    VerifyTokenRequest,
};
use auth_service::services::{HashmapTwoFACodeStore, HashmapUserStore, HashsetBannedTokenStore};
use auth_service::utils::auth::{validate_token, AuthCookie, InvalidToken, SameSite};
use auth_service::utils::constants::JWT_COOKIE_NAME;

type App = AppState<HashmapUserStore, HashsetBannedTokenStore, HashmapTwoFACodeStore>;

fn app() -> App {
    AppState::new(
        HashmapUserStore::default(),
        HashsetBannedTokenStore::default(),
        HashmapTwoFACodeStore::default(),
        "secret".to_owned(),
    )
}

fn get_random_email() -> String {
    format!("{}@example.com", uuid::Uuid::new_v4())
}

fn signup_request(email: &str, password: &str, requires_2fa: bool) -> SignupRequest {
    SignupRequest { email: email.to_owned(), password: password.to_owned(), requires_2fa }
}

fn login_request(email: &str, password: &str) -> LoginRequest {
    LoginRequest { email: email.to_owned(), password: password.to_owned() }
}

fn confirmation(email: &str, login_attempt_id: &str, code: &str) -> Verify2FARequest {
    Verify2FARequest {
        email: email.to_owned(),
        login_attempt_id: login_attempt_id.to_owned(),
        two_fa_code: code.to_owned(),
    }
}

fn status_of(error: AuthAPIError) -> u16 {
    error.into_response().status
}

fn session_of(outcome: LoginOutcome) -> AuthCookie {
    match outcome {
        LoginOutcome::RegularAuth(cookie) => cookie,
        LoginOutcome::TwoFactorAuth(_, _) => panic!("a second factor was asked for"),
    }
}

/// Logs in a user that requires a second factor and gives the attempt and
/// the code of the challenge, the code as the store holds it.
fn challenge_of(app: &mut App, email: &str, password: &str) -> (String, String) {
    let outcome = login(app, login_request(email, password)).unwrap();
    assert_eq!(outcome.status_code(), 206);
    let (response, delivery) = match outcome {
        LoginOutcome::TwoFactorAuth(response, delivery) => (response, delivery),
        LoginOutcome::RegularAuth(_) => panic!("no second factor was asked for"),
    };
    assert_eq!(response.message, "2FA required");
    assert_eq!(delivery.recipient.expose_secret(), email);
    let stored = app.two_fa_code_store.get_code(&Email::parse(email.to_owned()).unwrap()).unwrap();
    assert_eq!(stored.0.expose_secret(), &response.login_attempt_id);
    assert!(stored.1 == delivery.code);
    (response.login_attempt_id, stored.1.expose_secret().clone())
}

fn another_code(code: &str) -> &'static str {
    if code == "123456" {
        "654321"
    } else {
        "123456"
    }
}

#[test]
fn success_statuses() {
    assert_eq!(SIGNUP_STATUS, 201);
    assert_eq!(LOGIN_STATUS, 200);
    assert_eq!(TWO_FACTOR_STATUS, 206);
    assert_eq!(VERIFY_2FA_STATUS, 200);
    assert_eq!(LOGOUT_STATUS, 200);
    assert_eq!(VERIFY_TOKEN_STATUS, 200);
}

#[test]
fn should_return_201_if_valid_input() {
    let mut app = app();
    let random_email = get_random_email();
    let response = signup(&mut app, signup_request(&random_email, "password123", true)).unwrap();
    assert_eq!(response.message, "User created successfully!");
}

#[test]
fn signup_should_return_400_if_invalid_input() {
    let mut app = app();
    let random_email = get_random_email();
    let test_cases = [
        signup_request("invalid-email", "password123", true),
        signup_request(&random_email, "pass", true),
    ];
    for test_case in test_cases {
        let error = signup(&mut app, test_case).err().unwrap();
        assert_eq!(error, AuthAPIError::InvalidCredentials);
        let reply = error.into_response();
        assert_eq!(reply.status, 400);
        assert_eq!(reply.body.error, "Invalid credentials".to_owned());
    }
}

#[test]
fn should_return_409_if_email_already_exists() {
    let mut app = app();
    let email1 = get_random_email();

    let response = signup(&mut app, signup_request(&email1, "password123", true));
    assert!(response.is_ok());

    let error = signup(&mut app, signup_request(&email1, "password123", true)).err().unwrap();
    assert_eq!(error, AuthAPIError::UserAlreadyExists);
    let reply = error.into_response();
    assert_eq!(reply.status, 409);
    assert_eq!(reply.body.error, "User already exists".to_owned());

    // Another password or setting makes no difference.
    let error = signup(&mut app, signup_request(&email1, "password456", false)).err().unwrap();
    assert_eq!(error, AuthAPIError::UserAlreadyExists);
}

#[test]
fn should_return_200_if_valid_credentials_and_2fa_disabled() {
    let mut app = app();
    let random_email = get_random_email();
    signup(&mut app, signup_request(&random_email, "password123", false)).unwrap();

    let outcome = login(&mut app, login_request(&random_email, "password123")).unwrap();
    assert_eq!(outcome.status_code(), 200);
    let auth_cookie = session_of(outcome);
    assert_eq!(auth_cookie.name, JWT_COOKIE_NAME);
    assert!(!auth_cookie.value.is_empty());
    assert_eq!(auth_cookie.path, "/");
    assert!(auth_cookie.http_only);
    assert_eq!(auth_cookie.same_site, SameSite::Lax);
    let claims = validate_token(&auth_cookie.value, &app.jwt_secret).unwrap();
    assert_eq!(claims.sub, random_email);
}

#[test]
fn should_return_206_if_valid_credentials_and_2fa_enabled() {
    let mut app = app();
    let random_email = get_random_email();
    signup(&mut app, signup_request(&random_email, "password123", true)).unwrap();

    let outcome = login(&mut app, login_request(&random_email, "password123")).unwrap();
    assert_eq!(outcome.status_code(), 206);
    match outcome {
        LoginOutcome::TwoFactorAuth(response, _) => {
            assert_eq!(response.message, "2FA required".to_owned());
        }
        LoginOutcome::RegularAuth(_) => panic!("no second factor was asked for"),
    }

    let email = Email::parse(random_email).expect("Could not parse email");
    assert!(app.two_fa_code_store.get_code(&email).is_ok());
}

#[test]
fn login_should_return_400_if_invalid_input() {
    let mut app = app();
    let random_email = get_random_email();
    let test_cases =
        [login_request("invalid-email", "password123"), login_request(&random_email, "pass")];
    for test_case in test_cases {
        let error = login(&mut app, test_case).err().unwrap();
        assert_eq!(error, AuthAPIError::InvalidCredentials);
        let reply = error.into_response();
        assert_eq!(reply.status, 400);
        assert_eq!(reply.body.error, "Invalid credentials".to_owned());
    }
}

#[test]
fn login_should_return_401_if_incorrect_credentials() {
    let mut app = app();
    let random_email = get_random_email();
    // Nobody has signed up.
    let error = login(&mut app, login_request(&random_email, "password123")).err().unwrap();
    assert_eq!(error, AuthAPIError::IncorrectCredentials);
    let reply = error.into_response();
    assert_eq!(reply.status, 401);
    assert_eq!(reply.body.error, "Incorrect Credentials".to_owned());

    // Somebody has, with another password.
    signup(&mut app, signup_request(&random_email, "password123", false)).unwrap();
    let error = login(&mut app, login_request(&random_email, "password124")).err().unwrap();
    assert_eq!(error, AuthAPIError::IncorrectCredentials);
    // And another address is still unknown.
    let error = login(&mut app, login_request(&get_random_email(), "password123")).err().unwrap();
    assert_eq!(error, AuthAPIError::IncorrectCredentials);
}

#[test]
fn login_with_given_challenge_stores_it() {
    let mut app = app();
    signup(&mut app, signup_request("b@x.com", "password1", true)).unwrap();
    let id = LoginAttemptId::parse("550e8400-e29b-41d4-a716-446655440000".to_owned()).unwrap();
    let code = TwoFACode::parse("123456".to_owned()).unwrap();
    let outcome =
        login_with(&mut app, login_request("b@x.com", "password1"), id.clone(), code.clone(), 1_000)
            .unwrap();
    match outcome {
        LoginOutcome::TwoFactorAuth(response, delivery) => {
            assert_eq!(response.login_attempt_id, "550e8400-e29b-41d4-a716-446655440000");
            assert_eq!(delivery.recipient.expose_secret(), "b@x.com");
            assert_eq!(delivery.code.expose_secret(), "123456");
        }
        LoginOutcome::RegularAuth(_) => panic!("no second factor was asked for"),
    }
    let stored = app.two_fa_code_store.get_code(&Email::parse("b@x.com".to_owned()).unwrap()).unwrap();
    assert!(stored.0 == id);
    assert!(stored.1 == code);
}

#[test]
fn login_without_second_factor_leaves_no_challenge() {
    let mut app = app();
    signup(&mut app, signup_request("a@x.com", "password1", false)).unwrap();
    let id = LoginAttemptId::default();
    let code = TwoFACode::default();
    let issued = chrono::Utc::now().timestamp();
    let outcome =
        login_with(&mut app, login_request("a@x.com", "password1"), id, code, issued).unwrap();
    let cookie = session_of(outcome);
    let claims = validate_token(&cookie.value, &app.jwt_secret).unwrap();
    assert_eq!(claims.sub, "a@x.com");
    assert_eq!(claims.exp as i64, issued + 600);
    assert!(app.two_fa_code_store.get_code(&Email::parse("a@x.com".to_owned()).unwrap()).is_err());
}

#[test]
fn should_return_200_if_correct_code() {
    let mut app = app();
    let random_email = get_random_email();
    signup(&mut app, signup_request(&random_email, "password123", true)).unwrap();
    let (login_attempt_id, two_fa_code) = challenge_of(&mut app, &random_email, "password123");

    let (cookie, result) =
        verify_2fa(&mut app, confirmation(&random_email, &login_attempt_id, &two_fa_code));
    assert_eq!(result, Ok(()));
    let auth_cookie = cookie.expect("No auth cookie found");
    assert_eq!(auth_cookie.name, JWT_COOKIE_NAME);
    assert!(!auth_cookie.value.is_empty());
    let claims = validate_token(&auth_cookie.value, &app.jwt_secret).unwrap();
    assert_eq!(claims.sub, random_email);
}

#[test]
fn verify_2fa_should_return_400_if_invalid_input() {
    let mut app = app();
    let random_email = get_random_email();
    let random_uuid = uuid::Uuid::new_v4().to_string();
    let test_cases = [
        confirmation(&random_email, &random_uuid, "12F456"),
        confirmation(&random_email, "454325433455432", "12F456"),
        confirmation("invalid-email", &random_uuid, "12F456"),
        confirmation(&random_email, "454325433455432", "123456"),
        confirmation("invalid-email", &random_uuid, "123456"),
    ];
    for test_case in test_cases {
        let (cookie, result) = verify_2fa(&mut app, test_case);
        assert!(cookie.is_none());
        let error = result.err().unwrap();
        assert_eq!(error, AuthAPIError::InvalidCredentials);
        assert_eq!(status_of(error), 400);
    }
}

#[test]
fn should_return_401_if_incorrect_credentials() {
    let mut app = app();
    let random_email = get_random_email();
    signup(&mut app, signup_request(&random_email, "password123", true)).unwrap();
    let (login_attempt_id, two_fa_code) = challenge_of(&mut app, &random_email, "password123");
    let incorrect_login_attempt_id = uuid::Uuid::new_v4().to_string();
    let incorrect_code = another_code(&two_fa_code);

    let test_cases = [
        confirmation("test@example.com", &login_attempt_id, &two_fa_code),
        confirmation(&random_email, &login_attempt_id, incorrect_code),
        confirmation(&random_email, &incorrect_login_attempt_id, &two_fa_code),
    ];
    for test_case in test_cases {
        let (cookie, result) = verify_2fa(&mut app, test_case);
        assert!(cookie.is_none());
        let error = result.err().unwrap();
        assert_eq!(error, AuthAPIError::IncorrectCredentials);
        assert_eq!(status_of(error), 401);
    }
    // None of these has used the challenge up.
    let (cookie, result) =
        verify_2fa(&mut app, confirmation(&random_email, &login_attempt_id, &two_fa_code));
    assert_eq!(result, Ok(()));
    assert!(cookie.is_some());
}

#[test]
fn should_return_401_if_old_code() {
    let mut app = app();
    let random_email = get_random_email();
    signup(&mut app, signup_request(&random_email, "password123", true)).unwrap();
    let (login_attempt_id, two_fa_code) = challenge_of(&mut app, &random_email, "password123");
    let (new_login_attempt_id, new_two_fa_code) =
        challenge_of(&mut app, &random_email, "password123");
    assert_ne!(login_attempt_id, new_login_attempt_id);

    let (cookie, result) =
        verify_2fa(&mut app, confirmation(&random_email, &login_attempt_id, &two_fa_code));
    assert!(cookie.is_none());
    let error = result.err().unwrap();
    assert_eq!(error, AuthAPIError::IncorrectCredentials);
    assert_eq!(status_of(error), 401);

    // The new challenge is still there to be answered.
    let (cookie, result) =
        verify_2fa(&mut app, confirmation(&random_email, &new_login_attempt_id, &new_two_fa_code));
    assert_eq!(result, Ok(()));
    assert!(cookie.is_some());
}

#[test]
fn should_return_401_if_same_code_twice() {
    let mut app = app();
    let random_email = get_random_email();
    signup(&mut app, signup_request(&random_email, "password123", true)).unwrap();
    let (login_attempt_id, two_fa_code) = challenge_of(&mut app, &random_email, "password123");

    let (cookie, result) =
        verify_2fa(&mut app, confirmation(&random_email, &login_attempt_id, &two_fa_code));
    assert_eq!(result, Ok(()));
    let auth_cookie = cookie.expect("No auth cookie found");
    assert!(!auth_cookie.value.is_empty());

    let (cookie, result) =
        verify_2fa(&mut app, confirmation(&random_email, &login_attempt_id, &two_fa_code));
    assert!(cookie.is_none());
    let error = result.err().unwrap();
    assert_eq!(error, AuthAPIError::IncorrectCredentials);
    assert_eq!(status_of(error), 401);
}

#[test]
fn confirmation_accepts_the_attempt_in_any_form() {
    let mut app = app();
    signup(&mut app, signup_request("b@x.com", "password1", true)).unwrap();
    let id = LoginAttemptId::parse("550e8400-e29b-41d4-a716-446655440000".to_owned()).unwrap();
    let code = TwoFACode::parse("123456".to_owned()).unwrap();
    login_with(&mut app, login_request("b@x.com", "password1"), id, code, 1_000).unwrap();
    let issued = chrono::Utc::now().timestamp();
    let (cookie, result) = verify_2fa_at(
        &mut app,
        confirmation("b@x.com", "550E8400E29B41D4A716446655440000", "123456"),
        issued,
    );
    assert_eq!(result, Ok(()));
    let claims = validate_token(&cookie.unwrap().value, &app.jwt_secret).unwrap();
    assert_eq!(claims.sub, "b@x.com");
    assert_eq!(claims.exp as i64, issued + 600);
}

#[test]
fn confirmation_without_challenge_is_refused() {
    let mut app = app();
    signup(&mut app, signup_request("b@x.com", "password1", true)).unwrap();
    let (cookie, result) = verify_2fa(
        &mut app,
        confirmation("b@x.com", "550e8400-e29b-41d4-a716-446655440000", "123456"),
    );
    assert!(cookie.is_none());
    assert_eq!(result, Err(AuthAPIError::IncorrectCredentials));
}

#[test]
fn should_return_200_if_valid_jwt_cookie() {
    let mut app = app();
    let random_email = get_random_email();
    signup(&mut app, signup_request(&random_email, "password123", false)).unwrap();
    let auth_cookie = session_of(login(&mut app, login_request(&random_email, "password123")).unwrap());
    assert!(!auth_cookie.value.is_empty());
    let token = auth_cookie.value;

    let response = logout(&mut app, Some(token.clone()));
    assert_eq!(response, Ok(()));

    let contains_token =
        app.banned_token_store.is_banned_token(&token).expect("Failed to check if token is banned");
    assert!(contains_token);
}

#[test]
fn should_return_400_if_logout_called_twice_in_a_row() {
    let mut app = app();
    let random_email = get_random_email();
    signup(&mut app, signup_request(&random_email, "password123", false)).unwrap();
    let auth_cookie = session_of(login(&mut app, login_request(&random_email, "password123")).unwrap());

    assert_eq!(logout(&mut app, Some(auth_cookie.value)), Ok(()));

    // The cookie has been cleared, so the second request carries none.
    let error = logout(&mut app, None).err().unwrap();
    assert_eq!(error, AuthAPIError::MissingToken);
    let reply = error.into_response();
    assert_eq!(reply.status, 400);
    assert_eq!(reply.body.error, "Missing auth token".to_owned());
}

#[test]
fn should_return_400_if_jwt_cookie_missing() {
    let mut app = app();
    let error = logout(&mut app, None).err().unwrap();
    assert_eq!(error, AuthAPIError::MissingToken);
    let reply = error.into_response();
    assert_eq!(reply.status, 400);
    assert_eq!(reply.body.error, "Missing auth token".to_owned());
}

#[test]
fn should_return_401_if_invalid_token() {
    let mut app = app();
    let error = logout(&mut app, Some("invalid".to_owned())).err().unwrap();
    assert_eq!(error, AuthAPIError::InvalidToken);
    let reply = error.into_response();
    assert_eq!(reply.status, 401);
    assert_eq!(reply.body.error, "JWT is not valid".to_owned());
    assert!(!app.banned_token_store.is_banned_token("invalid").unwrap());
}

#[test]
fn should_return_200_valid_token() {
    let mut app = app();
    let random_email = get_random_email();
    signup(&mut app, signup_request(&random_email, "password123", false)).unwrap();
    let auth_cookie = session_of(login(&mut app, login_request(&random_email, "password123")).unwrap());
    assert!(!auth_cookie.value.is_empty());

    let claims = verify_token(&app, VerifyTokenRequest { token: auth_cookie.value }).unwrap();
    assert_eq!(claims.sub, random_email);
}

#[test]
fn should_return_401_if_valid_token() {
    let app = app();
    let error = verify_token(&app, VerifyTokenRequest { token: "".to_owned() }).err().unwrap();
    assert_eq!(error, AuthAPIError::InvalidToken);
    let reply = error.into_response();
    assert_eq!(reply.status, 401);
    assert_eq!(reply.body.error, "JWT is not valid".to_owned());
}

#[test]
fn should_return_401_if_banned_token() {
    let mut app = app();
    let token = "banned_token".to_owned();
    if app.banned_token_store.add_banned_token(token.clone()).is_err() {
        panic!("Could not add banned token to store");
    }

    let error = verify_token(&app, VerifyTokenRequest { token }).err().unwrap();
    assert_eq!(error, AuthAPIError::InvalidToken);
    let reply = error.into_response();
    assert_eq!(reply.status, 401);
    assert_eq!(reply.body.error, "JWT is not valid".to_owned());
}

#[test]
fn logged_out_token_is_refused_and_another_is_not() {
    let mut app = app();
    signup(&mut app, signup_request("a@x.com", "password1", false)).unwrap();
    let first = session_of(login(&mut app, login_request("a@x.com", "password1")).unwrap()).value;
    // A token issued a second later, from a separate login.
    let later = chrono::Utc::now().timestamp() + 1;
    let second = session_of(
        login_with(
            &mut app,
            login_request("a@x.com", "password1"),
            LoginAttemptId::default(),
            TwoFACode::default(),
            later,
        )
        .unwrap(),
    )
    .value;
    assert_ne!(first, second);
    assert!(verify_token(&app, VerifyTokenRequest { token: first.clone() }).is_ok());

    assert_eq!(logout(&mut app, Some(first.clone())), Ok(()));

    let error = verify_token(&app, VerifyTokenRequest { token: first.clone() }).err().unwrap();
    assert_eq!(error, AuthAPIError::InvalidToken);
    let claims = verify_token(&app, VerifyTokenRequest { token: second }).unwrap();
    assert_eq!(claims.sub, "a@x.com");
    // The signature of the banned token is as good as before.
    assert!(validate_token(&first, &app.jwt_secret).is_ok());
}

#[test]
fn banned_token_is_refused_whatever_its_validation_gave() {
    let mut app = app();
    signup(&mut app, signup_request("a@x.com", "password1", false)).unwrap();
    let token = session_of(login(&mut app, login_request("a@x.com", "password1")).unwrap()).value;
    let validation = validate_token(&token, &app.jwt_secret);
    assert!(validation.is_ok());
    assert_eq!(logout_with(&mut app, token.clone(), validation), Ok(()));
    let validation = validate_token(&token, &app.jwt_secret);
    assert_eq!(verify_token_with(&app, &token, validation).err(), Some(AuthAPIError::InvalidToken));
    assert_eq!(
        verify_token_with(&app, &token, Err(InvalidToken)).err(),
        Some(AuthAPIError::InvalidToken)
    );
}

#[test]
fn token_that_did_not_pass_is_not_banned() {
    let mut app = app();
    assert_eq!(
        logout_with(&mut app, "some token".to_owned(), Err(InvalidToken)),
        Err(AuthAPIError::InvalidToken)
    );
    assert!(!app.banned_token_store.is_banned_token("some token").unwrap());
}

#[test]
fn scenario_without_second_factor() {
    let mut app = app();
    let created = signup(&mut app, signup_request("a@x.com", "password1", false));
    assert!(created.is_ok());
    let outcome = login(&mut app, login_request("a@x.com", "password1")).unwrap();
    assert_eq!(outcome.status_code(), 200);
    let cookie = session_of(outcome);
    assert!(verify_token(&app, VerifyTokenRequest { token: cookie.value }).is_ok());
}

#[test]
fn scenario_with_second_factor() {
    let mut app = app();
    let created = signup(&mut app, signup_request("b@x.com", "password1", true));
    assert!(created.is_ok());
    let (login_attempt_id, code) = challenge_of(&mut app, "b@x.com", "password1");

    let (cookie, result) =
        verify_2fa(&mut app, confirmation("b@x.com", &login_attempt_id, another_code(&code)));
    assert!(cookie.is_none());
    assert_eq!(status_of(result.err().unwrap()), 401);

    let (cookie, result) = verify_2fa(&mut app, confirmation("b@x.com", &login_attempt_id, &code));
    assert_eq!(result, Ok(()));
    let cookie = cookie.unwrap();
    assert!(verify_token(&app, VerifyTokenRequest { token: cookie.value }).is_ok());
}
