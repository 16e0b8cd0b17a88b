//! What holds across several operations. Each statement takes the answers
//! of the operations as the operations' own contracts describe them, and so
//! holds of every run on stores that answer for their models: the statements
//! on users of such a user store, those on challenges of such a code store,
//! those on tokens of such a token store.

use vstd::prelude::*;
use crate::domain::data_stores::{Challenges, Users};
use crate::domain::error::AuthAPIError;
use crate::domain::user::UserView;
use crate::routes::login::LoginOutcome;
use crate::routes::signup::SignupResponse;
use crate::utils::auth::{AuthCookie, Claims, InvalidToken};

verus! {

/// An address can be registered once: after a sign-up that succeeded, a
/// well-formed sign-up under the same address is refused with
/// `UserAlreadyExists` and registers nothing.
pub proof fn signup_twice_is_refused(
    users: Users,
    after_first: Users,
    after_second: Users,
    first: UserView,
    second: UserView,
    r1: Result<SignupResponse, AuthAPIError>,
    r2: Result<SignupResponse, AuthAPIError>,
)
    requires
        crate::routes::signup::signup_outcome(users, after_first, first, r1),
        r1 is Ok,
        second.email == first.email,
        crate::routes::signup::well_formed_credentials(second.email, second.password),
        crate::routes::signup::signup_outcome(after_first, after_second, second, r2),
    ensures
        r2 matches Err(AuthAPIError::UserAlreadyExists),
        after_second == after_first,
{
}

/// Whoever signed up can log in: after a sign-up that succeeded, a login
/// with the same address and password finds the credentials right. It ends
/// with a pending challenge where the user asked for a second factor, and
/// with a session where not, unless the token cannot be signed.
pub proof fn login_follows_signup(
    users: Users,
    registered: Users,
    user: UserView,
    r1: Result<SignupResponse, AuthAPIError>,
    pending: Challenges,
    pending_after: Challenges,
    login_attempt_id: Seq<char>,
    code: Seq<char>,
    now: int,
    secret: Seq<char>,
    r2: Result<LoginOutcome, AuthAPIError>,
)
    requires
        crate::routes::signup::signup_outcome(users, registered, user, r1),
        r1 is Ok,
        crate::routes::login::login_outcome(
            registered,
            pending,
            pending_after,
            user.email,
            user.password,
            login_attempt_id,
            code,
            now,
            secret,
            r2,
        ),
    ensures
        crate::routes::login::credentials_match(registered, user.email, user.password),
        user.requires_2fa ==> (r2 matches Ok(outcome) && outcome is TwoFactorAuth),
        !user.requires_2fa && crate::utils::auth::is_issuable(user.email, now, secret) ==> (
        r2 matches Ok(outcome) && outcome is RegularAuth),
        r2 is Err ==> r2 matches Err(AuthAPIError::UnexpectedError(_)),
{
}

/// A login with a wrong password, or for an address nobody registered, is
/// refused with `IncorrectCredentials` and leaves no challenge.
pub proof fn wrong_credentials_are_refused(
    users: Users,
    pending: Challenges,
    pending_after: Challenges,
    email: Seq<char>,
    password: Seq<char>,
    login_attempt_id: Seq<char>,
    code: Seq<char>,
    now: int,
    secret: Seq<char>,
    r: Result<LoginOutcome, AuthAPIError>,
)
    requires
        crate::routes::signup::well_formed_credentials(email, password),
        !crate::routes::login::credentials_match(users, email, password),
        crate::routes::login::login_outcome(
            users,
            pending,
            pending_after,
            email,
            password,
            login_attempt_id,
            code,
            now,
            secret,
            r,
        ),
    ensures
        r matches Err(AuthAPIError::IncorrectCredentials),
        pending_after == pending,
{
}

/// A challenge can be answered once. A login that asks for a second factor
/// leaves its challenge pending; the confirmation that names that attempt
/// and that code succeeds and opens a session, unless the token cannot be
/// signed; and once it has succeeded, the same confirmation again is refused
/// with `IncorrectCredentials`.
pub proof fn challenge_is_answered_once(
    pending: Challenges,
    after_login: Challenges,
    after_first: Challenges,
    after_second: Challenges,
    email: Seq<char>,
    password: Seq<char>,
    login_attempt_id: Seq<char>,
    code: Seq<char>,
    secret: Seq<char>,
    login_time: int,
    login: Result<LoginOutcome, AuthAPIError>,
    first_time: int,
    first_cookie: Option<AuthCookie>,
    first: Result<(), AuthAPIError>,
    second_time: int,
    second_cookie: Option<AuthCookie>,
    second: Result<(), AuthAPIError>,
)
    requires
        crate::domain::two_factor::uuid_text(login_attempt_id) == Some(login_attempt_id),
        crate::domain::two_factor::is_two_fa_code(code),
        crate::routes::login::login_answer(
            email,
            password,
            login_attempt_id,
            code,
            login_time,
            secret,
            login,
        ),
        crate::routes::login::login_challenges(
            pending,
            after_login,
            email,
            login_attempt_id,
            code,
            login,
        ),
        login matches Ok(outcome) && outcome is TwoFactorAuth,
        crate::routes::verify_2fa::verify_2fa_outcome(
            after_login,
            after_first,
            email,
            login_attempt_id,
            code,
            first_time,
            secret,
            first_cookie,
            first,
        ),
        crate::routes::verify_2fa::verify_2fa_outcome(
            after_first,
            after_second,
            email,
            login_attempt_id,
            code,
            second_time,
            secret,
            second_cookie,
            second,
        ),
    ensures
        crate::routes::verify_2fa::answers_challenge(after_login, email, login_attempt_id, code),
        crate::utils::auth::is_issuable(email, first_time, secret) ==> first is Ok,
        first is Ok ==> crate::routes::verify_2fa::opens_session(
            first_cookie,
            email,
            first_time,
            secret,
        ),
        first is Ok ==> second matches Err(AuthAPIError::IncorrectCredentials),
        first is Ok ==> second_cookie is None && !after_second.contains_key(email),
{
}

/// A confirmation with a wrong code, or one that names another attempt, is
/// refused with `IncorrectCredentials` and does not use the challenge up.
pub proof fn wrong_confirmation_keeps_challenge(
    before: Challenges,
    after: Challenges,
    email: Seq<char>,
    login_attempt_id: Seq<char>,
    code: Seq<char>,
    now: int,
    secret: Seq<char>,
    cookie: Option<AuthCookie>,
    r: Result<(), AuthAPIError>,
)
    requires
        crate::routes::verify_2fa::well_formed_confirmation(email, login_attempt_id, code),
        !crate::routes::verify_2fa::answers_challenge(before, email, login_attempt_id, code),
        crate::routes::verify_2fa::verify_2fa_outcome(
            before,
            after,
            email,
            login_attempt_id,
            code,
            now,
            secret,
            cookie,
            r,
        ),
    ensures
        r matches Err(AuthAPIError::IncorrectCredentials),
        cookie is None,
        after == before,
{
}

/// A new login supersedes the challenge of an earlier one. After two logins
/// for one address that each ask for a second factor, a confirmation that
/// names the attempt and the code of the first is refused with
/// `IncorrectCredentials` and leaves the second challenge pending, provided
/// the two challenges are not the same pair.
pub proof fn new_login_supersedes_challenge(
    pending: Challenges,
    after_first_login: Challenges,
    after_second_login: Challenges,
    after_confirmation: Challenges,
    email: Seq<char>,
    first_password: Seq<char>,
    second_password: Seq<char>,
    first_attempt: Seq<char>,
    first_code: Seq<char>,
    second_attempt: Seq<char>,
    second_code: Seq<char>,
    secret: Seq<char>,
    first_time: int,
    first_login: Result<LoginOutcome, AuthAPIError>,
    second_time: int,
    second_login: Result<LoginOutcome, AuthAPIError>,
    confirmation_time: int,
    cookie: Option<AuthCookie>,
    confirmation: Result<(), AuthAPIError>,
)
    requires
        crate::domain::two_factor::uuid_text(first_attempt) == Some(first_attempt),
        crate::domain::two_factor::uuid_text(second_attempt) == Some(second_attempt),
        crate::domain::two_factor::is_two_fa_code(first_code),
        crate::domain::two_factor::is_two_fa_code(second_code),
        (first_attempt, first_code) != (second_attempt, second_code),
        crate::routes::login::login_answer(
            email,
            first_password,
            first_attempt,
            first_code,
            first_time,
            secret,
            first_login,
        ),
        crate::routes::login::login_challenges(
            pending,
            after_first_login,
            email,
            first_attempt,
            first_code,
            first_login,
        ),
        first_login matches Ok(outcome) && outcome is TwoFactorAuth,
        crate::routes::login::login_answer(
            email,
            second_password,
            second_attempt,
            second_code,
            second_time,
            secret,
            second_login,
        ),
        crate::routes::login::login_challenges(
            after_first_login,
            after_second_login,
            email,
            second_attempt,
            second_code,
            second_login,
        ),
        second_login matches Ok(outcome) && outcome is TwoFactorAuth,
        crate::routes::verify_2fa::verify_2fa_outcome(
            after_second_login,
            after_confirmation,
            email,
            first_attempt,
            first_code,
            confirmation_time,
            secret,
            cookie,
            confirmation,
        ),
    ensures
        after_second_login[email] == (second_attempt, second_code),
        confirmation matches Err(AuthAPIError::IncorrectCredentials),
        cookie is None,
        after_confirmation == after_second_login,
{
}

/// Logout revokes: once a logout has succeeded, its token is banned, and a
/// check of that token is refused with `InvalidToken` whatever its
/// validation gives.
pub proof fn logout_revokes_token(
    banned: Set<Seq<char>>,
    after_logout: Set<Seq<char>>,
    token: Seq<char>,
    validation_at_logout: Result<Claims, InvalidToken>,
    logout: Result<(), AuthAPIError>,
    validation_at_check: Result<Claims, InvalidToken>,
    check: Result<Claims, AuthAPIError>,
)
    requires
        crate::routes::logout::revocation_outcome(
            banned,
            after_logout,
            token,
            validation_at_logout,
            logout,
        ),
        logout is Ok,
        crate::routes::verify_token::admission_outcome(
            after_logout,
            token,
            validation_at_check,
            check,
        ),
    ensures
        after_logout.contains(token),
        check matches Err(AuthAPIError::InvalidToken),
{
}

/// Logout revokes no other token: a token that was not banned before the
/// logout of another is admitted after it, with the claims it carries,
/// whenever its validation passes.
pub proof fn logout_spares_other_tokens(
    banned: Set<Seq<char>>,
    after_logout: Set<Seq<char>>,
    token: Seq<char>,
    validation_at_logout: Result<Claims, InvalidToken>,
    logout: Result<(), AuthAPIError>,
    other: Seq<char>,
    validation: Result<Claims, InvalidToken>,
    check: Result<Claims, AuthAPIError>,
)
    requires
        crate::routes::logout::revocation_outcome(
            banned,
            after_logout,
            token,
            validation_at_logout,
            logout,
        ),
        other != token,
        !banned.contains(other),
        validation is Ok,
        crate::routes::verify_token::admission_outcome(after_logout, other, validation, check),
    ensures
        !after_logout.contains(other),
        check is Ok,
        check->Ok_0 == validation->Ok_0,
{
}

/// A session names its user: where a check admits a token that was issued
/// to an address at some time, whether at login or at a confirmation, the
/// claims it gives have that address as subject and expire ten minutes after
/// that time.
pub proof fn session_names_its_user(
    token: Seq<char>,
    email: Seq<char>,
    issued: int,
    secret: Seq<char>,
    banned: Set<Seq<char>>,
    check: Result<Claims, AuthAPIError>,
)
    requires
        crate::utils::auth::is_token_for(token, email, issued, secret),
        crate::routes::verify_token::verify_token_outcome(banned, token, secret, check),
        check is Ok,
    ensures
        check->Ok_0.sub@ == email,
        check->Ok_0.exp == issued + crate::utils::auth::TOKEN_TTL_SECONDS,
        !banned.contains(token),
{
}

} // verus!
