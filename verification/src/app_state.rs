use vstd::prelude::*;
use crate::domain::data_stores::{BannedTokenStore, TwoFACodeStore, UserStore};

verus! {

/// All that the lifecycle operations work on: the three stores and the key
/// that session tokens are signed under. It is built once and handed to each
/// operation by reference.
pub struct AppState<U, B, T> {
    pub user_store: U,
    pub banned_token_store: B,
    pub two_fa_code_store: T,
    pub jwt_secret: String,
}

impl<U: UserStore, B: BannedTokenStore, T: TwoFACodeStore> AppState<U, B, T> {
    pub fn new(user_store: U, banned_token_store: B, two_fa_code_store: T, jwt_secret: String) -> (state:
        Self)
        ensures
            state.user_store == user_store,
            state.banned_token_store == banned_token_store,
            state.two_fa_code_store == two_fa_code_store,
            state.jwt_secret == jwt_secret,
    {
        AppState { user_store, banned_token_store, two_fa_code_store, jwt_secret }
    }
}

} // verus!
