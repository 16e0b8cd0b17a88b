use vstd::prelude::*;
use crate::app_state::AppState;
use crate::domain::data_stores::{BannedTokenStore, TwoFACodeStore, UserStore};
use crate::domain::error::{AuthAPIError, BannedTokenStoreError, ErrorCause};
use crate::utils::auth::{validate_token, Claims, InvalidToken};

verus! {

/// The HTTP status that answers a logout that succeeded.
pub const LOGOUT_STATUS: u16 = 200;

/// What the caller is told of the token store's answer to a ban: any
/// failure is unexpected.
pub fn ban_reply(answer: Result<(), BannedTokenStoreError>) -> (r: Result<(), AuthAPIError>)
    ensures
        match answer {
            Ok(()) => r is Ok,
            Err(BannedTokenStoreError::UnexpectedError(cause)) => r matches Err(
                AuthAPIError::UnexpectedError(reported),
            ) && reported == cause,
            Err(BannedTokenStoreError::TokenAlreadyExists) => r matches Err(
                AuthAPIError::UnexpectedError(_),
            ),
        },
{
    match answer {
        Ok(()) => Ok(()),
        Err(BannedTokenStoreError::UnexpectedError(cause)) => Err(
            AuthAPIError::UnexpectedError(cause),
        ),
        Err(BannedTokenStoreError::TokenAlreadyExists) => Err(
            AuthAPIError::UnexpectedError(
                ErrorCause::new(String::from_str("the token was banned already")),
            ),
        ),
    }
}

/// What [`logout_with`] answers, and the banned tokens it leaves, for a
/// token whose validation gave `validation`.
pub open spec fn revocation_outcome(
    before: Set<Seq<char>>,
    after: Set<Seq<char>>,
    token: Seq<char>,
    validation: Result<Claims, InvalidToken>,
    r: Result<(), AuthAPIError>,
) -> bool {
    match r {
        Ok(()) => validation is Ok && after == before.insert(token),
        Err(AuthAPIError::InvalidToken) => validation is Err && after == before,
        Err(_) => false,
    }
}

/// Ends the session of `token`, given what its validation gave: a token
/// that passed is banned, one that did not is refused.
pub fn logout_with<U: UserStore, B: BannedTokenStore, T: TwoFACodeStore>(
    state: &mut AppState<U, B, T>,
    token: String,
    validation: Result<Claims, InvalidToken>,
) -> (r: Result<(), AuthAPIError>)
    ensures
        match r {
            Ok(()) => validation is Ok,
            Err(AuthAPIError::InvalidToken) => validation is Err,
            Err(AuthAPIError::UnexpectedError(_)) => validation is Ok,
            Err(_) => false,
        },
        old(state).banned_token_store.is_modelled() ==> revocation_outcome(
            old(state).banned_token_store.banned_tokens(),
            final(state).banned_token_store.banned_tokens(),
            token@,
            validation,
            r,
        ),
        final(state).banned_token_store.is_modelled() == old(
            state,
        ).banned_token_store.is_modelled(),
        final(state).user_store == old(state).user_store,
        final(state).two_fa_code_store == old(state).two_fa_code_store,
        final(state).jwt_secret == old(state).jwt_secret,
{
    if validation.is_err() {
        return Err(AuthAPIError::InvalidToken);
    }
    ban_reply(state.banned_token_store.add_banned_token(token))
}

/// What [`logout`] answers whatever the store is: a request without a token
/// is told so, and only a token that carries claims under the key gets as
/// far as the store.
pub open spec fn logout_answer(token: Option<String>, secret: Seq<char>, r: Result<(), AuthAPIError>) -> bool {
    let passed = token matches Some(t) && crate::utils::auth::has_three_parts(t@)
        && crate::utils::auth::token_claims(t@, secret) is Some;
    match r {
        Ok(()) => passed,
        Err(AuthAPIError::MissingToken) => token is None,
        Err(AuthAPIError::InvalidToken) => token is Some,
        Err(AuthAPIError::UnexpectedError(_)) => passed,
        Err(_) => false,
    }
}

/// What [`logout`] answers, and the banned tokens it leaves. Only a token
/// that carries claims under the key can be banned.
pub open spec fn logout_outcome(
    before: Set<Seq<char>>,
    after: Set<Seq<char>>,
    token: Option<String>,
    secret: Seq<char>,
    r: Result<(), AuthAPIError>,
) -> bool {
    match r {
        Ok(()) => token matches Some(t) && crate::utils::auth::token_claims(t@, secret) is Some
            && after == before.insert(t@),
        Err(AuthAPIError::MissingToken) => token is None && after == before,
        Err(AuthAPIError::InvalidToken) => token is Some && after == before,
        Err(_) => false,
    }
}

/// Ends the session that the cookie of a request carries, if it carries
/// one. On success the token is banned and the caller clears the cookie.
pub fn logout<U: UserStore, B: BannedTokenStore, T: TwoFACodeStore>(
    state: &mut AppState<U, B, T>,
    token: Option<String>,
) -> (r: Result<(), AuthAPIError>)
    ensures
        logout_answer(token, old(state).jwt_secret@, r),
        old(state).banned_token_store.is_modelled() ==> logout_outcome(
            old(state).banned_token_store.banned_tokens(),
            final(state).banned_token_store.banned_tokens(),
            token,
            old(state).jwt_secret@,
            r,
        ),
        final(state).banned_token_store.is_modelled() == old(
            state,
        ).banned_token_store.is_modelled(),
        final(state).user_store == old(state).user_store,
        final(state).two_fa_code_store == old(state).two_fa_code_store,
        final(state).jwt_secret == old(state).jwt_secret,
{
    let token = match token {
        Some(token) => token,
        None => {
            return Err(AuthAPIError::MissingToken);
        },
    };
    let validation = validate_token(token.as_str(), &state.jwt_secret);
    logout_with(state, token, validation)
}

} // verus!
