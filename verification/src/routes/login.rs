use vstd::prelude::*;
use crate::app_state::AppState;
use crate::domain::data_stores::{BannedTokenStore, Challenges, TwoFACodeStore, UserStore, Users};
use crate::domain::email::Email;
use crate::domain::error::{
    unforeseen_answer, AuthAPIError, ErrorCause, TwoFACodeStoreError, UserStoreError,
};
use crate::domain::user::User;
use crate::domain::password::Password;
use crate::domain::two_factor::{LoginAttemptId, TwoFACode};
use crate::utils::auth::{
    create_auth_cookie, current_timestamp, generate_auth_token_at, AuthCookie, GenerateTokenError,
};

verus! {

/// The HTTP status that answers a login that is complete.
pub const LOGIN_STATUS: u16 = 200;

/// The HTTP status that answers a login that awaits its second factor.
pub const TWO_FACTOR_STATUS: u16 = 206;

/// What a login asks for.
pub struct LoginRequest {
    pub email: String,
    pub password: String,
}

/// The body that answers a login that awaits its second factor: the attempt
/// to confirm, never the code that confirms it.
pub struct LoginResponse {
    pub message: String,
    pub login_attempt_id: String,
}

/// The code to send to a user, out of band, for a login that awaits it.
pub struct CodeDelivery {
    pub recipient: Email,
    pub code: TwoFACode,
}

/// How a login ends when the credentials are right.
pub enum LoginOutcome {
    /// The user is logged in; the cookie carries the session token.
    RegularAuth(AuthCookie),
    /// A challenge is pending; the caller is told which attempt, and the
    /// code goes to the user's address.
    TwoFactorAuth(LoginResponse, CodeDelivery),
}

impl LoginOutcome {
    /// The HTTP status this outcome is answered with.
    pub fn status_code(&self) -> (status: u16)
        ensures
            status == (if self is RegularAuth {
                LOGIN_STATUS
            } else {
                TWO_FACTOR_STATUS
            }),
    {
        match self {
            LoginOutcome::RegularAuth(_) => LOGIN_STATUS,
            LoginOutcome::TwoFactorAuth(_, _) => TWO_FACTOR_STATUS,
        }
    }
}

/// What the caller is told of the user store's answer to the check of a
/// password. An unknown user and a wrong password are not told apart.
pub fn credentials_reply(answer: Result<(), UserStoreError>) -> (r: Result<(), AuthAPIError>)
    ensures
        match answer {
            Ok(()) => r is Ok,
            Err(UserStoreError::UserNotFound) => r matches Err(AuthAPIError::IncorrectCredentials),
            Err(UserStoreError::InvalidCredentials) => r matches Err(
                AuthAPIError::IncorrectCredentials,
            ),
            Err(UserStoreError::UnexpectedError(cause)) => r matches Err(
                AuthAPIError::UnexpectedError(reported),
            ) && reported == cause,
            Err(UserStoreError::UserAlreadyExists) => r matches Err(AuthAPIError::UnexpectedError(_)),
        },
{
    match answer {
        Ok(()) => Ok(()),
        Err(UserStoreError::UserNotFound) => Err(AuthAPIError::IncorrectCredentials),
        Err(UserStoreError::InvalidCredentials) => Err(AuthAPIError::IncorrectCredentials),
        Err(UserStoreError::UnexpectedError(cause)) => Err(AuthAPIError::UnexpectedError(cause)),
        Err(UserStoreError::UserAlreadyExists) => Err(
            AuthAPIError::UnexpectedError(unforeseen_answer()),
        ),
    }
}

/// What the caller is told of the user store's answer to the lookup of a
/// user whose password has just been checked.
pub fn lookup_reply(answer: Result<User, UserStoreError>) -> (r: Result<User, AuthAPIError>)
    ensures
        match answer {
            Ok(user) => r == Ok::<User, AuthAPIError>(user),
            Err(UserStoreError::UserNotFound) => r matches Err(AuthAPIError::IncorrectCredentials),
            Err(UserStoreError::UnexpectedError(cause)) => r matches Err(
                AuthAPIError::UnexpectedError(reported),
            ) && reported == cause,
            Err(_) => r matches Err(AuthAPIError::UnexpectedError(_)),
        },
{
    match answer {
        Ok(user) => Ok(user),
        Err(UserStoreError::UserNotFound) => Err(AuthAPIError::IncorrectCredentials),
        Err(UserStoreError::UnexpectedError(cause)) => Err(AuthAPIError::UnexpectedError(cause)),
        Err(_) => Err(AuthAPIError::UnexpectedError(unforeseen_answer())),
    }
}

/// What the caller is told of the code store's answer to a new challenge.
pub fn challenge_set_reply(answer: Result<(), TwoFACodeStoreError>) -> (r: Result<(), AuthAPIError>)
    ensures
        match answer {
            Ok(()) => r is Ok,
            Err(TwoFACodeStoreError::UnexpectedError(cause)) => r matches Err(
                AuthAPIError::UnexpectedError(reported),
            ) && reported == cause,
            Err(TwoFACodeStoreError::LoginAttemptIdNotFound) => r matches Err(
                AuthAPIError::UnexpectedError(_),
            ),
        },
{
    match answer {
        Ok(()) => Ok(()),
        Err(TwoFACodeStoreError::UnexpectedError(cause)) => Err(AuthAPIError::UnexpectedError(cause)),
        Err(TwoFACodeStoreError::LoginAttemptIdNotFound) => Err(
            AuthAPIError::UnexpectedError(unforeseen_answer()),
        ),
    }
}

/// Whether the user store holds `email` with a hash that `password`
/// verifies against.
pub open spec fn credentials_match(users: Users, email: Seq<char>, password: Seq<char>) -> bool {
    users.contains_key(email) && crate::utils::password_hash::hash_accepts(
        users[email].password,
        password,
    )
}

/// What a login hands out when the credentials are right: the session
/// cookie for the address, or the attempt and the code of the challenge.
pub open spec fn login_reply(
    email: Seq<char>,
    login_attempt_id: Seq<char>,
    code: Seq<char>,
    now: int,
    secret: Seq<char>,
    outcome: LoginOutcome,
) -> bool {
    match outcome {
        LoginOutcome::RegularAuth(cookie) => {
            &&& crate::utils::auth::is_auth_cookie(cookie, cookie.value@)
            &&& crate::utils::auth::is_token_for(cookie.value@, email, now, secret)
        },
        LoginOutcome::TwoFactorAuth(response, delivery) => {
            &&& response.message@ == "2FA required"@
            &&& response.login_attempt_id@ == login_attempt_id
            &&& delivery.recipient@ == email
            &&& delivery.code@ == code
        },
    }
}

/// What a login answers whatever the stores are: a request is refused as
/// invalid exactly when it is not well formed, what is handed out is as
/// [`login_reply`] says, and no other refusal than those of a login is
/// given.
pub open spec fn login_answer(
    email: Seq<char>,
    password: Seq<char>,
    login_attempt_id: Seq<char>,
    code: Seq<char>,
    now: int,
    secret: Seq<char>,
    r: Result<LoginOutcome, AuthAPIError>,
) -> bool {
    let well_formed = crate::routes::signup::well_formed_credentials(email, password);
    match r {
        Ok(outcome) => well_formed && login_reply(
            email,
            login_attempt_id,
            code,
            now,
            secret,
            outcome,
        ),
        Err(AuthAPIError::InvalidCredentials) => !well_formed,
        Err(AuthAPIError::IncorrectCredentials) => well_formed,
        Err(AuthAPIError::UnexpectedError(_)) => well_formed,
        Err(_) => false,
    }
}

/// What a login does to the pending challenges: one that ends with a
/// challenge sets it in place of any the address had, and any other leaves
/// them as they are.
pub open spec fn login_challenges(
    before: Challenges,
    after: Challenges,
    email: Seq<char>,
    login_attempt_id: Seq<char>,
    code: Seq<char>,
    r: Result<LoginOutcome, AuthAPIError>,
) -> bool {
    after == (if r matches Ok(outcome) && outcome is TwoFactorAuth {
        before.insert(email, (login_attempt_id, code))
    } else {
        before
    })
}

/// What a login answers, and the challenges it leaves, where
/// `login_attempt_id` and `code` are what a challenge would be made of and
/// `now` is the time a token would be issued at. The only failure that is
/// not the caller's is that of signing the token.
pub open spec fn login_outcome(
    users: Users,
    before: Challenges,
    after: Challenges,
    email: Seq<char>,
    password: Seq<char>,
    login_attempt_id: Seq<char>,
    code: Seq<char>,
    now: int,
    secret: Seq<char>,
    r: Result<LoginOutcome, AuthAPIError>,
) -> bool {
    let well_formed = crate::routes::signup::well_formed_credentials(email, password);
    let answered = match r {
        Ok(outcome) => {
            &&& well_formed
            &&& credentials_match(users, email, password)
            &&& login_reply(email, login_attempt_id, code, now, secret, outcome)
            &&& outcome is TwoFactorAuth <==> users[email].requires_2fa
        },
        Err(AuthAPIError::InvalidCredentials) => !well_formed,
        Err(AuthAPIError::IncorrectCredentials) => well_formed && !credentials_match(
            users,
            email,
            password,
        ),
        Err(AuthAPIError::UnexpectedError(_)) => {
            &&& well_formed
            &&& credentials_match(users, email, password)
            &&& !users[email].requires_2fa
            &&& !crate::utils::auth::is_issuable(email, now, secret)
        },
        Err(_) => false,
    };
    answered && login_challenges(before, after, email, login_attempt_id, code, r)
}

/// Logs a user in, with the identifier and code to use should a challenge
/// be due, as of the time `now`.
///
/// The request is validated; the user store checks the password and tells
/// whether a second factor is required. Without one a token is issued at
/// once. With one the challenge takes the place of any that was pending for
/// the address, and the code is handed back for delivery.
pub fn login_with<U: UserStore, B: BannedTokenStore, T: TwoFACodeStore>(
    state: &mut AppState<U, B, T>,
    request: LoginRequest,
    login_attempt_id: LoginAttemptId,
    code: TwoFACode,
    now: i64,
) -> (r: Result<LoginOutcome, AuthAPIError>)
    ensures
        login_answer(
            request.email@,
            request.password@,
            login_attempt_id@,
            code@,
            now as int,
            old(state).jwt_secret@,
            r,
        ),
        old(state).two_fa_code_store.is_modelled() ==> login_challenges(
            old(state).two_fa_code_store.codes(),
            final(state).two_fa_code_store.codes(),
            request.email@,
            login_attempt_id@,
            code@,
            r,
        ),
        old(state).user_store.is_modelled() && old(state).two_fa_code_store.is_modelled()
            ==> login_outcome(
            old(state).user_store.users(),
            old(state).two_fa_code_store.codes(),
            final(state).two_fa_code_store.codes(),
            request.email@,
            request.password@,
            login_attempt_id@,
            code@,
            now as int,
            old(state).jwt_secret@,
            r,
        ),
        final(state).two_fa_code_store.is_modelled() == old(state).two_fa_code_store.is_modelled(),
        final(state).user_store == old(state).user_store,
        final(state).banned_token_store == old(state).banned_token_store,
        final(state).jwt_secret == old(state).jwt_secret,
{
    let email = match Email::parse(request.email) {
        Ok(email) => email,
        Err(_) => {
            return Err(AuthAPIError::InvalidCredentials);
        },
    };
    let password = match Password::parse(request.password) {
        Ok(password) => password,
        Err(_) => {
            return Err(AuthAPIError::InvalidCredentials);
        },
    };
    match credentials_reply(state.user_store.validate_user(&email, &password)) {
        Ok(()) => {},
        Err(e) => {
            return Err(e);
        },
    }
    let user = match lookup_reply(state.user_store.get_user(&email)) {
        Ok(user) => user,
        Err(e) => {
            return Err(e);
        },
    };
    if user.requires_2fa {
        handle_2fa(email, login_attempt_id, code, state)
    } else {
        handle_no_2fa(&email, now, &state.jwt_secret)
    }
}

/// Sets the challenge for `email` and hands back what the caller and the
/// user are each to be told.
fn handle_2fa<U: UserStore, B: BannedTokenStore, T: TwoFACodeStore>(
    email: Email,
    login_attempt_id: LoginAttemptId,
    code: TwoFACode,
    state: &mut AppState<U, B, T>,
) -> (r: Result<LoginOutcome, AuthAPIError>)
    ensures
        match r {
            Ok(LoginOutcome::TwoFactorAuth(response, delivery)) => {
                &&& old(state).two_fa_code_store.is_modelled() ==> final(
                    state
                ).two_fa_code_store.codes() == old(state).two_fa_code_store.codes().insert(
                    email@,
                    (login_attempt_id@, code@),
                )
                &&& response.message@ == "2FA required"@
                &&& response.login_attempt_id@ == login_attempt_id@
                &&& delivery.recipient@ == email@
                &&& delivery.code@ == code@
            },
            Err(AuthAPIError::UnexpectedError(_)) => !old(state).two_fa_code_store.is_modelled(),
            _ => false,
        },
        final(state).two_fa_code_store.is_modelled() == old(state).two_fa_code_store.is_modelled(),
        final(state).user_store == old(state).user_store,
        final(state).banned_token_store == old(state).banned_token_store,
        final(state).jwt_secret == old(state).jwt_secret,
{
    let attempt = login_attempt_id.expose_secret().clone();
    let delivery = CodeDelivery { recipient: email.clone(), code: code.clone() };
    match challenge_set_reply(state.two_fa_code_store.add_code(email, login_attempt_id, code)) {
        Ok(()) => {},
        Err(e) => {
            return Err(e);
        },
    }
    let response = LoginResponse {
        message: String::from_str("2FA required"),
        login_attempt_id: attempt,
    };
    Ok(LoginOutcome::TwoFactorAuth(response, delivery))
}

/// Issues the session token for `email` as of `now`.
fn handle_no_2fa(email: &Email, now: i64, secret: &String) -> (r: Result<LoginOutcome, AuthAPIError>)
    ensures
        match r {
            Ok(LoginOutcome::RegularAuth(cookie)) => crate::utils::auth::is_auth_cookie(
                cookie,
                cookie.value@,
            ) && crate::utils::auth::is_token_for(cookie.value@, email@, now as int, secret@),
            Err(AuthAPIError::UnexpectedError(_)) => !crate::utils::auth::is_issuable(
                email@,
                now as int,
                secret@,
            ),
            _ => false,
        },
{
    match generate_auth_token_at(email, now, secret) {
        Ok(token) => Ok(LoginOutcome::RegularAuth(create_auth_cookie(token))),
        Err(e) => Err(AuthAPIError::UnexpectedError(token_failure(e))),
    }
}

/// The cause reported when no token could be issued.
pub fn token_failure(e: GenerateTokenError) -> (cause: ErrorCause)
    ensures
        cause.message@ == "failed to create token"@,
{
    let source = match e {
        GenerateTokenError::TokenError(inner) => ErrorCause::new(
            crate::utils::auth::describe_token_error(&inner),
        ),
        GenerateTokenError::UnexpectedError => ErrorCause::new(
            String::from_str("the expiry time is out of range"),
        ),
    };
    source.wrap_err(String::from_str("failed to create token"))
}

/// Logs a user in, as of now. A challenge, should one be due, is made of a
/// fresh random identifier and a fresh random code.
pub fn login<U: UserStore, B: BannedTokenStore, T: TwoFACodeStore>(
    state: &mut AppState<U, B, T>,
    request: LoginRequest,
) -> (r: Result<LoginOutcome, AuthAPIError>)
    ensures
        exists|login_attempt_id: Seq<char>, code: Seq<char>, now: int|
            {
                &&& crate::domain::two_factor::uuid_text(login_attempt_id) == Some(login_attempt_id)
                &&& crate::domain::two_factor::is_two_fa_code(code)
                &&& #[trigger] login_answer(
                    request.email@,
                    request.password@,
                    login_attempt_id,
                    code,
                    now,
                    old(state).jwt_secret@,
                    r,
                )
                &&& old(state).two_fa_code_store.is_modelled() ==> login_challenges(
                    old(state).two_fa_code_store.codes(),
                    final(state).two_fa_code_store.codes(),
                    request.email@,
                    login_attempt_id,
                    code,
                    r,
                )
                &&& old(state).user_store.is_modelled() && old(
                    state,
                ).two_fa_code_store.is_modelled() ==> login_outcome(
                    old(state).user_store.users(),
                    old(state).two_fa_code_store.codes(),
                    final(state).two_fa_code_store.codes(),
                    request.email@,
                    request.password@,
                    login_attempt_id,
                    code,
                    now,
                    old(state).jwt_secret@,
                    r,
                )
            },
        final(state).two_fa_code_store.is_modelled() == old(state).two_fa_code_store.is_modelled(),
        final(state).user_store == old(state).user_store,
        final(state).banned_token_store == old(state).banned_token_store,
        final(state).jwt_secret == old(state).jwt_secret,
{
    let login_attempt_id = LoginAttemptId::default();
    let code = TwoFACode::default();
    let now = current_timestamp();
    login_with(state, request, login_attempt_id, code, now)
}

} // verus!
