use vstd::prelude::*;
use crate::utils::auth::{Claims, InvalidToken};

verus! {

/// What the key of every banned token begins with.
pub const BANNED_TOKENS_KEY_PREFIX: &'static str = "banned_token:";

/// How long past its expiry a token still passes validation, in seconds.
pub const VALIDATION_LEEWAY_SECONDS: u64 = 60;

/// The key under which `token` is recorded as banned.
pub fn get_key(token: &str) -> (key: String)
    ensures
        key@ == BANNED_TOKENS_KEY_PREFIX@ + token@,
{
    let mut key = String::from_str(BANNED_TOKENS_KEY_PREFIX);
    key.append(token);
    key
}

/// The seconds for which the record of a token that expires at `exp` must
/// last as of `now`. Validation passes the token through the whole of the
/// second `exp` plus the leeway, so the record must last into the second
/// after it: one more than the seconds from `now` to there. Never less than
/// one, the shortest lifetime a record can have, nor more than a lifetime
/// can express.
pub open spec fn remaining_validity(exp: int, now: int) -> int {
    let left = exp + VALIDATION_LEEWAY_SECONDS + 1 - now;
    if left < 1 {
        1
    } else if left > u64::MAX {
        u64::MAX as int
    } else {
        left
    }
}

/// The lifetime to give the record of a banned token, so that the record
/// lasts as long as the token could otherwise be used and no second more.
pub fn time_to_live(claims: &Claims, now: i64) -> (ttl: u64)
    ensures
        ttl == remaining_validity(claims.exp as int, now as int),
{
    let end: i128 = claims.exp as i128 + VALIDATION_LEEWAY_SECONDS as i128 + 1;
    let left: i128 = end - now as i128;
    if left < 1 {
        1
    } else if left > u64::MAX as i128 {
        u64::MAX
    } else {
        left as u64
    }
}

/// The lifetime to give the record of a token, given what its validation
/// gave as of `now`. A token that does not pass cannot be used, banned or
/// not, so its record gets the shortest lifetime there is.
pub fn record_lifetime(validation: &Result<Claims, InvalidToken>, now: i64) -> (ttl: u64)
    ensures
        ttl == (match *validation {
            Ok(claims) => remaining_validity(claims.exp as int, now as int),
            Err(_) => 1,
        }),
{
    match validation {
        Ok(claims) => time_to_live(claims, now),
        Err(_) => 1,
    }
}

} // verus!
