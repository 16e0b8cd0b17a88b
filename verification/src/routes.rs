//! The lifecycle operations: sign-up, login, two-factor confirmation, logout
//! and the check of a token.

pub mod lifecycle;
pub mod login;
pub mod logout;
pub mod signup;
pub mod verify_2fa;
pub mod verify_token;

pub use login::{login, login_with, CodeDelivery, LoginOutcome, LoginRequest, LoginResponse};
pub use logout::{logout, logout_with};
pub use signup::{signup, SignupRequest, SignupResponse};
pub use verify_2fa::{verify_2fa, verify_2fa_at, Verify2FARequest};
pub use verify_token::{verify_token, verify_token_with, VerifyTokenRequest};
