use vstd::prelude::*;
use crate::app_state::AppState;
use crate::domain::data_stores::{BannedTokenStore, TwoFACodeStore, UserStore};
use crate::domain::error::{unforeseen_answer, AuthAPIError, BannedTokenStoreError};
use crate::utils::auth::{validate_token, Claims, InvalidToken};

verus! {

/// The HTTP status that answers the check of a token that is good.
pub const VERIFY_TOKEN_STATUS: u16 = 200;

/// What the check of a token asks for.
pub struct VerifyTokenRequest {
    pub token: String,
}

/// What the caller is told of the token store's answer to the question
/// whether a token that carries `claims` is banned.
pub fn admission_reply(claims: Claims, answer: Result<bool, BannedTokenStoreError>) -> (r: Result<
    Claims,
    AuthAPIError,
>)
    ensures
        match answer {
            Ok(true) => r matches Err(AuthAPIError::InvalidToken),
            Ok(false) => r == Ok::<Claims, AuthAPIError>(claims),
            Err(BannedTokenStoreError::UnexpectedError(cause)) => r matches Err(
                AuthAPIError::UnexpectedError(reported),
            ) && reported == cause,
            Err(BannedTokenStoreError::TokenAlreadyExists) => r matches Err(
                AuthAPIError::UnexpectedError(_),
            ),
        },
{
    match answer {
        Ok(true) => Err(AuthAPIError::InvalidToken),
        Ok(false) => Ok(claims),
        Err(BannedTokenStoreError::UnexpectedError(cause)) => Err(
            AuthAPIError::UnexpectedError(cause),
        ),
        Err(BannedTokenStoreError::TokenAlreadyExists) => Err(
            AuthAPIError::UnexpectedError(unforeseen_answer()),
        ),
    }
}

/// What [`verify_token_with`] answers for a token whose validation gave
/// `validation`: a banned token is refused exactly as one that did not
/// pass.
pub open spec fn admission_outcome(
    banned: Set<Seq<char>>,
    token: Seq<char>,
    validation: Result<Claims, InvalidToken>,
    r: Result<Claims, AuthAPIError>,
) -> bool {
    match r {
        Ok(claims) => validation == Ok::<Claims, InvalidToken>(claims) && !banned.contains(token),
        Err(AuthAPIError::InvalidToken) => validation is Err || banned.contains(token),
        Err(_) => false,
    }
}

/// Admits or refuses `token`, given what its validation gave: a token that
/// passed is admitted unless it is banned.
pub fn verify_token_with<U: UserStore, B: BannedTokenStore, T: TwoFACodeStore>(
    state: &AppState<U, B, T>,
    token: &str,
    validation: Result<Claims, InvalidToken>,
) -> (r: Result<Claims, AuthAPIError>)
    ensures
        match r {
            Ok(claims) => validation == Ok::<Claims, InvalidToken>(claims),
            Err(AuthAPIError::InvalidToken) => true,
            Err(AuthAPIError::UnexpectedError(_)) => validation is Ok,
            Err(_) => false,
        },
        validation is Err ==> r matches Err(AuthAPIError::InvalidToken),
        state.banned_token_store.is_modelled() ==> admission_outcome(
            state.banned_token_store.banned_tokens(),
            token@,
            validation,
            r,
        ),
{
    let claims = match validation {
        Ok(claims) => claims,
        Err(_) => {
            return Err(AuthAPIError::InvalidToken);
        },
    };
    admission_reply(claims, state.banned_token_store.is_banned_token(token))
}

/// What [`verify_token`] answers whatever the store is: claims that come
/// back are those the token carries under the key, and only such a token
/// gets as far as the store.
pub open spec fn verify_token_answer(token: Seq<char>, secret: Seq<char>, r: Result<Claims, AuthAPIError>) -> bool {
    match r {
        Ok(claims) => crate::utils::auth::has_three_parts(token)
            && crate::utils::auth::token_claims(token, secret) == Some(
            (claims.sub@, claims.exp as int),
        ),
        Err(AuthAPIError::InvalidToken) => true,
        Err(AuthAPIError::UnexpectedError(_)) => crate::utils::auth::has_three_parts(token)
            && crate::utils::auth::token_claims(token, secret) is Some,
        Err(_) => false,
    }
}

/// What [`verify_token`] answers: claims that come back are those the
/// token carries under the key, and the token is not banned.
pub open spec fn verify_token_outcome(
    banned: Set<Seq<char>>,
    token: Seq<char>,
    secret: Seq<char>,
    r: Result<Claims, AuthAPIError>,
) -> bool {
    match r {
        Ok(claims) => !banned.contains(token) && crate::utils::auth::token_claims(token, secret)
            == Some((claims.sub@, claims.exp as int)),
        Err(AuthAPIError::InvalidToken) => true,
        Err(_) => false,
    }
}

/// Checks a token: its signature and expiry first, then whether it has been
/// banned.
pub fn verify_token<U: UserStore, B: BannedTokenStore, T: TwoFACodeStore>(
    state: &AppState<U, B, T>,
    request: VerifyTokenRequest,
) -> (r: Result<Claims, AuthAPIError>)
    ensures
        verify_token_answer(request.token@, state.jwt_secret@, r),
        state.banned_token_store.is_modelled() ==> verify_token_outcome(
            state.banned_token_store.banned_tokens(),
            request.token@,
            state.jwt_secret@,
            r,
        ),
{
    let validation = validate_token(request.token.as_str(), &state.jwt_secret);
    verify_token_with(state, request.token.as_str(), validation)
}

} // verus!
