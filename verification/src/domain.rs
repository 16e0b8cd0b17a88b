//! Validated value types, errors and the store capabilities.

pub mod data_stores;
pub mod email;
pub mod error;
pub mod password;
pub mod two_factor;
pub mod user;

pub use data_stores::{BannedTokenStore, TwoFACodeStore, UserStore};
pub use email::Email;
pub use error::{
    AuthAPIError, BannedTokenStoreError, ErrorCause, TwoFACodeStoreError, UserStoreError,
    ValidationError,
};
pub use password::Password;
pub use two_factor::{LoginAttemptId, TwoFACode};
pub use user::User;
