use vstd::prelude::*;
use crate::domain::email::Email;
use crate::utils::constants::JWT_COOKIE_NAME;

verus! {

/// How long an issued token stays valid, in seconds: ten minutes.
pub const TOKEN_TTL_SECONDS: i64 = 600;

/// The error of `jsonwebtoken`, carried as it comes and never looked into.
#[verifier::external_type_specification]
#[verifier::external_body]
pub struct ExTokenError(jsonwebtoken::errors::Error);

/// Why no token could be issued.
#[derive(Debug)]
pub enum GenerateTokenError {
    /// Serialising or signing the claims failed.
    TokenError(jsonwebtoken::errors::Error),
    /// The expiry does not fit the claim that carries it.
    UnexpectedError,
}

/// What a token says: whom it was issued to, and the Unix time in seconds at
/// which it expires.
#[derive(Debug)]
pub struct Claims {
    pub sub: String,
    pub exp: usize,
}

/// How a cookie may travel with requests from other sites.
#[derive(Debug, Clone, Copy, PartialEq, Eq, Structural)]
pub enum SameSite {
    /// Never sent with requests that come from another site.
    Strict,
    /// Sent with top-level navigation from another site, not with its
    /// sub-requests.
    Lax,
    /// Sent with every request.
    Unrestricted,
}

/// The cookie that carries a session token, as plain values.
#[derive(Debug)]
pub struct AuthCookie {
    pub name: String,
    pub value: String,
    pub path: String,
    pub http_only: bool,
    pub same_site: SameSite,
}

/// The token `jsonwebtoken` makes, with its default header (HS256), of the
/// claims `sub` and `exp` under the HMAC key `secret`. `None` where it makes
/// none.
pub uninterp spec fn signed_token(sub: Seq<char>, exp: int, secret: Seq<char>) -> Option<Seq<char>>;

/// The subject and expiry that `token` carries, where its signature under
/// the HMAC key `secret` is good and both claims are there. Whether the
/// expiry has passed plays no part.
pub uninterp spec fn token_claims(token: Seq<char>, secret: Seq<char>) -> Option<(Seq<char>, int)>;

/// Calls `jsonwebtoken::encode` with `Header::default()`, the claims `sub`
/// and `exp` as a JSON object, and `EncodingKey::from_secret` of the bytes
/// of `secret`.
///
/// Trusted: the call is a function of the claims and the key; a token it
/// makes carries these claims under this key.
#[verifier::external_body]
fn encode_claims(sub: &String, exp: usize, secret: &String) -> (r: Result<
    String,
    jsonwebtoken::errors::Error,
>)
    ensures
        match r {
            Ok(token) => signed_token(sub@, exp as int, secret@) == Some(token@) && token_claims(
                token@,
                secret@,
            ) == Some((sub@, exp as int)),
            Err(_) => signed_token(sub@, exp as int, secret@) is None,
        },
{
    let mut claims = serde_json::Map::new();
    claims.insert("sub".to_owned(), serde_json::Value::from(sub.as_str()));
    claims.insert("exp".to_owned(), serde_json::Value::from(exp));
    let key = jsonwebtoken::EncodingKey::from_secret(secret.as_bytes());
    jsonwebtoken::encode(&jsonwebtoken::Header::default(), &claims, &key)
}

/// Whether `token` has two dots, and so the three parts of a signed token:
/// header, claims and signature.
pub open spec fn has_three_parts(token: Seq<char>) -> bool {
    exists|i: int, j: int|
        0 <= i < j < token.len() && #[trigger] token[i] == '.' && #[trigger] token[j] == '.'
}

/// Calls `jsonwebtoken::decode` with `DecodingKey::from_secret` of the bytes
/// of `secret` and `Validation::default()`, and reads `sub` and `exp` out of
/// the claims it returns.
///
/// Trusted: claims that come back are those the token carries under the
/// key, and none come back for a text without two dots, which the call
/// refuses when it splits the text into its parts. Whether any come back
/// also depends on the clock the call reads (a token counts as expired a
/// minute after its expiry), so that is not claimed. On a machine whose
/// clock stands before 1970 the call panics.
#[verifier::external_body]
fn decode_claims(token: &str, secret: &String) -> (claims: Option<Claims>)
    ensures
        claims matches Some(c) ==> token_claims(token@, secret@) == Some((c.sub@, c.exp as int)),
        !has_three_parts(token@) ==> claims is None,
{
    let key = jsonwebtoken::DecodingKey::from_secret(secret.as_bytes());
    let validation = jsonwebtoken::Validation::default();
    let data = jsonwebtoken::decode::<serde_json::Value>(token, &key, &validation).ok()?;
    let sub = data.claims.get("sub")?.as_str()?.to_owned();
    let exp = usize::try_from(data.claims.get("exp")?.as_u64()?).ok()?;
    Some(Claims { sub, exp })
}

/// Calls `chrono::Utc::now` and takes its `timestamp`: the Unix time in
/// seconds.
///
/// Trusted: the time is not negative. `chrono` reads the clock as the time
/// that has passed since the beginning of 1970, and on a machine whose clock
/// stands before that the call panics. Nothing else is claimed of the time:
/// two calls may give any two such times.
#[verifier::external_body]
pub(crate) fn current_timestamp() -> (now: i64)
    ensures
        0 <= now,
{
    chrono::Utc::now().timestamp()
}

/// The expiry of a token issued at `now`: [`TOKEN_TTL_SECONDS`] later, where
/// that is a time the claim can carry.
pub open spec fn expiry_at(now: int) -> Option<int> {
    let exp = now + TOKEN_TTL_SECONDS;
    if 0 <= exp <= i64::MAX && exp <= usize::MAX {
        Some(exp)
    } else {
        None
    }
}

/// The claims of a token issued to `email` at `now`.
pub fn claims_at(email: &Email, now: i64) -> (r: Result<Claims, GenerateTokenError>)
    ensures
        match r {
            Ok(claims) => claims.sub@ == email@ && expiry_at(now as int) == Some(claims.exp as int),
            Err(GenerateTokenError::UnexpectedError) => expiry_at(now as int) is None,
            Err(GenerateTokenError::TokenError(_)) => false,
        },
{
    let exp = match now.checked_add(TOKEN_TTL_SECONDS) {
        Some(exp) => exp,
        None => {
            return Err(GenerateTokenError::UnexpectedError);
        },
    };
    if exp < 0 || exp as u64 > usize::MAX as u64 {
        return Err(GenerateTokenError::UnexpectedError);
    }
    Ok(Claims { sub: email.expose_secret().clone(), exp: exp as usize })
}

/// Signs `claims` under `secret`.
pub fn create_token(claims: &Claims, secret: &String) -> (r: Result<String, GenerateTokenError>)
    ensures
        match r {
            Ok(token) => signed_token(claims.sub@, claims.exp as int, secret@) == Some(token@)
                && token_claims(token@, secret@) == Some((claims.sub@, claims.exp as int)),
            Err(GenerateTokenError::TokenError(_)) => signed_token(
                claims.sub@,
                claims.exp as int,
                secret@,
            ) is None,
            Err(GenerateTokenError::UnexpectedError) => false,
        },
{
    match encode_claims(&claims.sub, claims.exp, secret) {
        Ok(token) => Ok(token),
        Err(e) => Err(GenerateTokenError::TokenError(e)),
    }
}

/// `token` is the token for `email` that expires [`TOKEN_TTL_SECONDS`]
/// after `now`, signed under `secret`.
pub open spec fn is_token_for(token: Seq<char>, email: Seq<char>, now: int, secret: Seq<char>) -> bool {
    &&& expiry_at(now) matches Some(exp)
    &&& signed_token(email, exp, secret) == Some(token)
    &&& token_claims(token, secret) == Some((email, exp))
}

/// Whether there is a token for `email` as of `now` under `secret`: the
/// expiry fits its claim and the claims can be signed.
pub open spec fn is_issuable(email: Seq<char>, now: int, secret: Seq<char>) -> bool {
    expiry_at(now) matches Some(exp) && signed_token(email, exp, secret) is Some
}

/// What [`generate_auth_token_at`] answers: the token for `email` as of
/// `now`, or the reason there is none.
pub open spec fn token_issued(
    email: Seq<char>,
    now: int,
    secret: Seq<char>,
    r: Result<String, GenerateTokenError>,
) -> bool {
    match r {
        Ok(token) => is_token_for(token@, email, now, secret),
        Err(GenerateTokenError::UnexpectedError) => expiry_at(now) is None,
        Err(GenerateTokenError::TokenError(_)) => expiry_at(now) matches Some(exp) && signed_token(
            email,
            exp,
            secret,
        ) is None,
    }
}

/// Issues a token to `email` as of the time `now`.
pub fn generate_auth_token_at(email: &Email, now: i64, secret: &String) -> (r: Result<
    String,
    GenerateTokenError,
>)
    ensures
        token_issued(email@, now as int, secret@, r),
{
    let claims = match claims_at(email, now) {
        Ok(claims) => claims,
        Err(_) => {
            return Err(GenerateTokenError::UnexpectedError);
        },
    };
    create_token(&claims, secret)
}

/// Issues a token to `email` as of now.
pub fn generate_auth_token(email: &Email, secret: &String) -> (r: Result<String, GenerateTokenError>)
    ensures
        exists|now: int| 0 <= now && #[trigger] token_issued(email@, now, secret@, r),
{
    generate_auth_token_at(email, current_timestamp(), secret)
}

/// What makes a cookie the session cookie for `token`: the agreed name, the
/// token as value, valid for every path, hidden from scripts, and sent along
/// with top-level navigation from other sites only.
pub open spec fn is_auth_cookie(cookie: AuthCookie, token: Seq<char>) -> bool {
    &&& cookie.name@ == JWT_COOKIE_NAME@
    &&& cookie.value@ == token
    &&& cookie.path@ == "/"@
    &&& cookie.http_only
    &&& cookie.same_site == SameSite::Lax
}

/// The session cookie for `token`.
pub fn create_auth_cookie(token: String) -> (cookie: AuthCookie)
    ensures
        is_auth_cookie(cookie, token@),
{
    AuthCookie {
        name: String::from_str(JWT_COOKIE_NAME),
        value: token,
        path: String::from_str("/"),
        http_only: true,
        same_site: SameSite::Lax,
    }
}

/// Issues a token to `email` as of now and wraps it as the session cookie.
pub fn generate_auth_cookie(email: &Email, secret: &String) -> (r: Result<AuthCookie, GenerateTokenError>)
    ensures
        exists|now: int| 0 <= now && #[trigger] cookie_issued(email@, now, secret@, r),
{
    let issued = generate_auth_token(email, secret);
    let ghost now = choose|now: int|
        0 <= now && #[trigger] token_issued(email@, now, secret@, issued);
    let r = match issued {
        Ok(token) => Ok(create_auth_cookie(token)),
        Err(e) => Err(e),
    };
    assert(cookie_issued(email@, now, secret@, r));
    r
}

/// Why a token was refused. A bad signature, a malformed token and a
/// passed expiry are not told apart.
#[derive(Debug, Clone, Copy, PartialEq, Eq, Structural)]
pub struct InvalidToken;

/// Checks the signature and the expiry of `token` and gives the claims it
/// carries. A text that has not the three parts of a token is refused
/// whatever the time.
pub fn validate_token(token: &str, secret: &String) -> (r: Result<Claims, InvalidToken>)
    ensures
        r matches Ok(claims) ==> token_claims(token@, secret@) == Some(
            (claims.sub@, claims.exp as int),
        ),
        !has_three_parts(token@) ==> r is Err,
{
    match decode_claims(token, secret) {
        Some(claims) => Ok(claims),
        None => Err(InvalidToken),
    }
}

/// What [`generate_auth_cookie`] answers where the clock gives `now`: the
/// session cookie around the token for `email` as of `now`, or the reason
/// there is no such token. A cookie is owed wherever the expiry fits its
/// claim and the claims can be signed.
pub open spec fn cookie_issued(
    email: Seq<char>,
    now: int,
    secret: Seq<char>,
    r: Result<AuthCookie, GenerateTokenError>,
) -> bool {
    match r {
        Ok(cookie) => is_auth_cookie(cookie, cookie.value@) && is_token_for(
            cookie.value@,
            email,
            now,
            secret,
        ),
        Err(GenerateTokenError::UnexpectedError) => expiry_at(now) is None,
        Err(GenerateTokenError::TokenError(_)) => expiry_at(now) matches Some(exp) && signed_token(
            email,
            exp,
            secret,
        ) is None,
    }
}

/// Calls `to_string` on an error of `jsonwebtoken`: what it says of itself.
/// Nothing is claimed of the text.
#[verifier::external_body]
pub(crate) fn describe_token_error(e: &jsonwebtoken::errors::Error) -> String {
    e.to_string()
}

} // verus!
