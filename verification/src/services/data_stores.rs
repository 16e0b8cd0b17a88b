//! What the stores that keep their data elsewhere compute around their
//! calls: the rows, keys, values and lifetimes they hand over, and what they
//! make of the answers.

pub mod postgres_user_store;
pub mod redis_banned_token_store;
pub mod redis_two_fa_code_store;
