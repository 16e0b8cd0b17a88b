use vstd::prelude::*;
use crate::app_state::AppState;
use crate::domain::data_stores::{BannedTokenStore, Challenges, TwoFACodeStore, UserStore};
use crate::domain::email::Email;
use crate::domain::error::{AuthAPIError, ErrorCause, TwoFACodeStoreError};
use crate::domain::two_factor::{LoginAttemptId, TwoFACode};
use crate::routes::login::token_failure;
use crate::utils::auth::{create_auth_cookie, current_timestamp, generate_auth_token_at, AuthCookie};

verus! {

/// The HTTP status that answers a confirmation that succeeded.
pub const VERIFY_2FA_STATUS: u16 = 200;

/// What a two-factor confirmation asks for.
pub struct Verify2FARequest {
    pub email: String,
    pub login_attempt_id: String,
    pub two_fa_code: String,
}

/// Whether the texts of a confirmation are of the form an address, an
/// identifier and a code must have.
pub open spec fn well_formed_confirmation(
    email: Seq<char>,
    login_attempt_id: Seq<char>,
    two_fa_code: Seq<char>,
) -> bool {
    &&& crate::domain::email::is_email_address(email)
    &&& crate::domain::two_factor::uuid_text(login_attempt_id) is Some
    &&& crate::domain::two_factor::is_two_fa_code(two_fa_code)
}

/// Whether the challenge pending for `email` is the one the confirmation
/// names: the same attempt, whatever form its identifier was written in, and
/// the same code.
pub open spec fn answers_challenge(
    pending: Challenges,
    email: Seq<char>,
    login_attempt_id: Seq<char>,
    two_fa_code: Seq<char>,
) -> bool {
    &&& pending.contains_key(email)
    &&& Some(pending[email].0) == crate::domain::two_factor::uuid_text(login_attempt_id)
    &&& pending[email].1 == two_fa_code
}

/// What the caller is told of the code store's answer to the lookup of a
/// challenge, for a confirmation that names `login_attempt_id` and
/// `two_fa_code`: both must be those of the challenge found.
pub fn challenge_reply(
    answer: Result<(LoginAttemptId, TwoFACode), TwoFACodeStoreError>,
    login_attempt_id: &LoginAttemptId,
    two_fa_code: &TwoFACode,
) -> (r: Result<(), AuthAPIError>)
    ensures
        match answer {
            Ok(found) => if found.0@ == login_attempt_id@ && found.1@ == two_fa_code@ {
                r is Ok
            } else {
                r matches Err(AuthAPIError::IncorrectCredentials)
            },
            Err(TwoFACodeStoreError::LoginAttemptIdNotFound) => r matches Err(
                AuthAPIError::IncorrectCredentials,
            ),
            Err(TwoFACodeStoreError::UnexpectedError(cause)) => r matches Err(
                AuthAPIError::UnexpectedError(reported),
            ) && reported == cause,
        },
{
    match answer {
        Ok(code_tuple) => {
            if code_tuple.1 == *two_fa_code && code_tuple.0 == *login_attempt_id {
                Ok(())
            } else {
                Err(AuthAPIError::IncorrectCredentials)
            }
        },
        Err(TwoFACodeStoreError::LoginAttemptIdNotFound) => Err(AuthAPIError::IncorrectCredentials),
        Err(TwoFACodeStoreError::UnexpectedError(cause)) => Err(AuthAPIError::UnexpectedError(cause)),
    }
}

/// What the caller is told of the code store's answer to the removal of a
/// challenge that has just been found: any failure is unexpected.
pub open spec fn reports_removal(
    answer: Result<(), TwoFACodeStoreError>,
    r: Result<(), AuthAPIError>,
) -> bool {
    match answer {
        Ok(()) => r is Ok,
        Err(TwoFACodeStoreError::UnexpectedError(cause)) => r matches Err(
            AuthAPIError::UnexpectedError(reported),
        ) && reported == cause,
        Err(TwoFACodeStoreError::LoginAttemptIdNotFound) => r matches Err(
            AuthAPIError::UnexpectedError(_),
        ),
    }
}

/// What the caller is told of the code store's answer to the removal of a
/// challenge that has just been found.
pub fn removal_reply(answer: Result<(), TwoFACodeStoreError>) -> (r: Result<(), AuthAPIError>)
    ensures
        reports_removal(answer, r),
{
    match answer {
        Ok(()) => Ok(()),
        Err(TwoFACodeStoreError::UnexpectedError(cause)) => Err(AuthAPIError::UnexpectedError(cause)),
        Err(TwoFACodeStoreError::LoginAttemptIdNotFound) => Err(
            AuthAPIError::UnexpectedError(
                ErrorCause::new(String::from_str("the challenge was gone before it could be removed")),
            ),
        ),
    }
}

/// How a confirmation ends once the token exists: the cookie is handed back
/// whatever became of the removal of the challenge, beside what the caller
/// is told of that removal.
pub fn confirmation_reply(cookie: AuthCookie, removal: Result<(), TwoFACodeStoreError>) -> (answer: (
    Option<AuthCookie>,
    Result<(), AuthAPIError>,
))
    ensures
        answer.0 == Some(cookie),
        reports_removal(removal, answer.1),
{
    (Some(cookie), removal_reply(removal))
}

/// Whether `cookie` is the session cookie for `email`, issued at `now`.
pub open spec fn opens_session(cookie: Option<AuthCookie>, email: Seq<char>, now: int, secret: Seq<char>) -> bool {
    cookie matches Some(c) && crate::utils::auth::is_auth_cookie(c, c.value@)
        && crate::utils::auth::is_token_for(c.value@, email, now, secret)
}

/// What a confirmation answers whatever the store is: a request is refused
/// as invalid exactly when it is not well formed, success comes with the
/// session cookie, a refusal comes without, and an unexpected failure comes
/// with it only where the token had been made.
pub open spec fn verify_2fa_answer(
    email: Seq<char>,
    login_attempt_id: Seq<char>,
    two_fa_code: Seq<char>,
    now: int,
    secret: Seq<char>,
    cookie: Option<AuthCookie>,
    r: Result<(), AuthAPIError>,
) -> bool {
    let well_formed = well_formed_confirmation(email, login_attempt_id, two_fa_code);
    let session = opens_session(cookie, email, now, secret);
    match r {
        Ok(()) => well_formed && session,
        Err(AuthAPIError::InvalidCredentials) => !well_formed && cookie is None,
        Err(AuthAPIError::IncorrectCredentials) => well_formed && cookie is None,
        Err(AuthAPIError::UnexpectedError(_)) => well_formed && (cookie is None || session),
        Err(_) => false,
    }
}

/// What a confirmation answers, the cookie it sets and the challenges it
/// leaves, where `now` is the time a token would be issued at.
///
/// A challenge that is absent or does not match is answered with
/// `IncorrectCredentials` and stays as it is. One that matches is removed
/// and a session opened, unless signing the token fails.
pub open spec fn verify_2fa_outcome(
    before: Challenges,
    after: Challenges,
    email: Seq<char>,
    login_attempt_id: Seq<char>,
    two_fa_code: Seq<char>,
    now: int,
    secret: Seq<char>,
    cookie: Option<AuthCookie>,
    r: Result<(), AuthAPIError>,
) -> bool {
    let well_formed = well_formed_confirmation(email, login_attempt_id, two_fa_code);
    let answered = answers_challenge(before, email, login_attempt_id, two_fa_code);
    let session = opens_session(cookie, email, now, secret);
    match r {
        Ok(()) => well_formed && answered && session && after == before.remove(email),
        Err(AuthAPIError::InvalidCredentials) => !well_formed && cookie is None && after == before,
        Err(AuthAPIError::IncorrectCredentials) => well_formed && !answered && cookie is None
            && after == before,
        Err(AuthAPIError::UnexpectedError(_)) => {
            &&& well_formed
            &&& answered
            &&& cookie is None
            &&& !crate::utils::auth::is_issuable(email, now, secret)
            &&& after == before
        },
        Err(_) => false,
    }
}

/// Confirms a login with its second factor, as of the time `now`.
///
/// The request is validated; the challenge pending for the address must
/// name the same attempt and the same code. A token is then issued, and the
/// challenge is removed so that it cannot be answered again. A confirmation
/// that does not match leaves the challenge where it is.
///
/// The cookie is handed back as soon as the token exists. Should a store
/// that keeps its data elsewhere then fail to remove the challenge, the
/// answer is `UnexpectedError` beside the cookie.
pub fn verify_2fa_at<U: UserStore, B: BannedTokenStore, T: TwoFACodeStore>(
    state: &mut AppState<U, B, T>,
    request: Verify2FARequest,
    now: i64,
) -> (answer: (Option<AuthCookie>, Result<(), AuthAPIError>))
    ensures
        verify_2fa_answer(
            request.email@,
            request.login_attempt_id@,
            request.two_fa_code@,
            now as int,
            old(state).jwt_secret@,
            answer.0,
            answer.1,
        ),
        old(state).two_fa_code_store.is_modelled() ==> verify_2fa_outcome(
            old(state).two_fa_code_store.codes(),
            final(state).two_fa_code_store.codes(),
            request.email@,
            request.login_attempt_id@,
            request.two_fa_code@,
            now as int,
            old(state).jwt_secret@,
            answer.0,
            answer.1,
        ),
        final(state).two_fa_code_store.is_modelled() == old(state).two_fa_code_store.is_modelled(),
        final(state).user_store == old(state).user_store,
        final(state).banned_token_store == old(state).banned_token_store,
        final(state).jwt_secret == old(state).jwt_secret,
{
    let email = match Email::parse(request.email) {
        Ok(email) => email,
        Err(_) => {
            return (None, Err(AuthAPIError::InvalidCredentials));
        },
    };
    let login_attempt_id = match LoginAttemptId::parse(request.login_attempt_id) {
        Ok(login_attempt_id) => login_attempt_id,
        Err(_) => {
            return (None, Err(AuthAPIError::InvalidCredentials));
        },
    };
    let two_fa_code = match TwoFACode::parse(request.two_fa_code) {
        Ok(two_fa_code) => two_fa_code,
        Err(_) => {
            return (None, Err(AuthAPIError::InvalidCredentials));
        },
    };
    let found = state.two_fa_code_store.get_code(&email);
    match challenge_reply(found, &login_attempt_id, &two_fa_code) {
        Ok(()) => {},
        Err(e) => {
            return (None, Err(e));
        },
    }
    let cookie = match generate_auth_token_at(&email, now, &state.jwt_secret) {
        Ok(token) => create_auth_cookie(token),
        Err(e) => {
            return (None, Err(AuthAPIError::UnexpectedError(token_failure(e))));
        },
    };
    confirmation_reply(cookie, state.two_fa_code_store.remove_code(&email))
}

/// Confirms a login with its second factor, as of now.
pub fn verify_2fa<U: UserStore, B: BannedTokenStore, T: TwoFACodeStore>(
    state: &mut AppState<U, B, T>,
    request: Verify2FARequest,
) -> (answer: (Option<AuthCookie>, Result<(), AuthAPIError>))
    ensures
        exists|now: int|
            {
                &&& #[trigger] verify_2fa_answer(
                    request.email@,
                    request.login_attempt_id@,
                    request.two_fa_code@,
                    now,
                    old(state).jwt_secret@,
                    answer.0,
                    answer.1,
                )
                &&& old(state).two_fa_code_store.is_modelled() ==> verify_2fa_outcome(
                    old(state).two_fa_code_store.codes(),
                    final(state).two_fa_code_store.codes(),
                    request.email@,
                    request.login_attempt_id@,
                    request.two_fa_code@,
                    now,
                    old(state).jwt_secret@,
                    answer.0,
                    answer.1,
                )
            },
        final(state).two_fa_code_store.is_modelled() == old(state).two_fa_code_store.is_modelled(),
        final(state).user_store == old(state).user_store,
        final(state).banned_token_store == old(state).banned_token_store,
        final(state).jwt_secret == old(state).jwt_secret,
{
    verify_2fa_at(state, request, current_timestamp())
}

} // verus!
