use vstd::prelude::*;
use crate::domain::email::Email;
use crate::domain::error::{ErrorCause, TwoFACodeStoreError};
use crate::domain::two_factor::{LoginAttemptId, TwoFACode};

verus! {

/// How long a challenge is kept, in seconds: ten minutes.
pub const TEN_MINUTES: u64 = 10 * 60;

/// What the key of every challenge begins with.
pub const TWO_FA_CODE_PREFIX: &'static str = "two_fa_code:";

/// The JSON text `serde_json` writes for the pair of strings
/// `(login_attempt_id, code)`: an array of the two. `None` where it writes
/// none.
pub uninterp spec fn pair_to_json(login_attempt_id: Seq<char>, code: Seq<char>) -> Option<Seq<char>>;

/// The pair of strings that `serde_json` reads from `value`. `None` where
/// `value` is not a JSON array of two strings.
pub uninterp spec fn json_to_pair(value: Seq<char>) -> Option<(Seq<char>, Seq<char>)>;

/// Calls `serde_json::to_string` on the pair of the two strings.
///
/// Trusted: the text is a function of the two strings, and reading it back
/// with `serde_json::from_str` gives the same pair.
#[verifier::external_body]
fn write_pair(login_attempt_id: &String, code: &String) -> (r: Result<String, String>)
    ensures
        match r {
            Ok(value) => pair_to_json(login_attempt_id@, code@) == Some(value@) && json_to_pair(
                value@,
            ) == Some((login_attempt_id@, code@)),
            Err(_) => pair_to_json(login_attempt_id@, code@) is None,
        },
{
    serde_json::to_string(&(login_attempt_id, code)).map_err(|e| e.to_string())
}

/// Calls `serde_json::from_str` for a pair of strings.
///
/// Trusted: the pair is a function of the text.
#[verifier::external_body]
fn read_pair(value: &str) -> (r: Result<(String, String), String>)
    ensures
        match r {
            Ok(pair) => json_to_pair(value@) == Some((pair.0@, pair.1@)),
            Err(_) => json_to_pair(value@) is None,
        },
{
    serde_json::from_str::<(String, String)>(value).map_err(|e| e.to_string())
}

/// The key under which the challenge for `email` is kept.
pub fn get_key(email: &Email) -> (key: String)
    ensures
        key@ == TWO_FA_CODE_PREFIX@ + email@,
{
    let mut key = String::from_str(TWO_FA_CODE_PREFIX);
    key.append(email.expose_secret().as_str());
    key
}

/// The value to keep for a challenge: the attempt and the code as a JSON
/// array of two strings.
pub fn encode_challenge(login_attempt_id: &LoginAttemptId, code: &TwoFACode) -> (r: Result<
    String,
    TwoFACodeStoreError,
>)
    ensures
        match r {
            Ok(value) => pair_to_json(login_attempt_id@, code@) == Some(value@)
                && stored_challenge(value@) == Some((login_attempt_id@, code@)),
            Err(e) => e is UnexpectedError && pair_to_json(login_attempt_id@, code@) is None,
        },
{
    match write_pair(login_attempt_id.expose_secret(), code.expose_secret()) {
        Ok(value) => Ok(value),
        Err(message) => Err(
            TwoFACodeStoreError::UnexpectedError(
                ErrorCause::new(message).wrap_err(String::from_str("failed to serialize 2FA tuple")),
            ),
        ),
    }
}

/// The challenge that a stored value stands for: the pair it holds, where
/// the first is a UUID, taken in its printed form, and the second a code.
pub open spec fn stored_challenge(value: Seq<char>) -> Option<(Seq<char>, Seq<char>)> {
    match json_to_pair(value) {
        Some(pair) => match crate::domain::two_factor::uuid_text(pair.0) {
            Some(login_attempt_id) => if crate::domain::two_factor::is_two_fa_code(pair.1) {
                Some((login_attempt_id, pair.1))
            } else {
                None
            },
            None => None,
        },
        None => None,
    }
}

/// The challenge that a stored value stands for. A value that does not read
/// as a pair, or whose parts are not an identifier and a code, is damaged
/// data and reported as `UnexpectedError`.
pub fn decode_challenge(value: &str) -> (r: Result<(LoginAttemptId, TwoFACode), TwoFACodeStoreError>)
    ensures
        match r {
            Ok(challenge) => stored_challenge(value@) == Some((challenge.0@, challenge.1@)),
            Err(e) => e is UnexpectedError && stored_challenge(value@) is None,
        },
{
    let (login_attempt_id, code) = match read_pair(value) {
        Ok(pair) => pair,
        Err(message) => {
            return Err(
                TwoFACodeStoreError::UnexpectedError(
                    ErrorCause::new(message).wrap_err(
                        String::from_str("failed to deserialize 2FA tuple"),
                    ),
                ),
            );
        },
    };
    let login_attempt_id = match LoginAttemptId::parse(login_attempt_id) {
        Ok(login_attempt_id) => login_attempt_id,
        Err(_) => {
            return Err(
                TwoFACodeStoreError::UnexpectedError(
                    ErrorCause::new(String::from_str("Invalid login attempt id")),
                ),
            );
        },
    };
    let code = match TwoFACode::parse(code) {
        Ok(code) => code,
        Err(_) => {
            return Err(
                TwoFACodeStoreError::UnexpectedError(ErrorCause::new(String::from_str("Invalid 2FA code"))),
            );
        },
    };
    Ok((login_attempt_id, code))
}

} // verus!
