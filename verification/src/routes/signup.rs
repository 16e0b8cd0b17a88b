use vstd::prelude::*;
use crate::app_state::AppState;
use crate::domain::data_stores::{BannedTokenStore, TwoFACodeStore, UserStore, Users};
use crate::domain::email::Email;
use crate::domain::error::{AuthAPIError, UserStoreError};
use crate::domain::password::Password;
use crate::domain::user::{User, UserView};
use crate::AuthRequest;

verus! {

/// The HTTP status that answers a sign-up that succeeded.
pub const SIGNUP_STATUS: u16 = 201;

/// What a sign-up asks for.
pub struct SignupRequest {
    pub email: String,
    pub password: String,
    pub requires_2fa: bool,
}

/// The body that answers a sign-up that succeeded.
pub struct SignupResponse {
    pub message: String,
}

/// Whether the texts of a request are of the form an address and a password
/// must have.
pub open spec fn well_formed_credentials(email: Seq<char>, password: Seq<char>) -> bool {
    crate::domain::email::is_email_address(email) && crate::domain::password::is_password(
        password,
    )
}

impl SignupRequest {
    /// The user this request describes.
    pub open spec fn user(&self) -> UserView {
        UserView { email: self.email@, password: self.password@, requires_2fa: self.requires_2fa }
    }
}

impl AuthRequest for SignupRequest {
    /// Validates the address and the password and makes a user of them.
    fn into_user(self) -> (r: Result<User, AuthAPIError>)
        ensures
            match r {
                Ok(user) => well_formed_credentials(self.email@, self.password@) && user@
                    == self.user(),
                Err(AuthAPIError::InvalidCredentials) => !well_formed_credentials(
                    self.email@,
                    self.password@,
                ),
                Err(_) => false,
            },
    {
        let email = match Email::parse(self.email) {
            Ok(email) => email,
            Err(_) => {
                return Err(AuthAPIError::InvalidCredentials);
            },
        };
        let password = match Password::parse(self.password) {
            Ok(password) => password,
            Err(_) => {
                return Err(AuthAPIError::InvalidCredentials);
            },
        };
        Ok(User::new(email, password, self.requires_2fa))
    }
}

/// What the caller is told of the user store's answer to a registration:
/// success, that the address is taken, or that something failed beneath.
pub fn registration_reply(answer: Result<(), UserStoreError>) -> (r: Result<
    SignupResponse,
    AuthAPIError,
>)
    ensures
        match answer {
            Ok(()) => r matches Ok(response) && response.message@ == "User created successfully!"@,
            Err(UserStoreError::UserAlreadyExists) => r matches Err(AuthAPIError::UserAlreadyExists),
            Err(UserStoreError::UnexpectedError(cause)) => r matches Err(
                AuthAPIError::UnexpectedError(reported),
            ) && reported == cause,
            Err(_) => r matches Err(AuthAPIError::UnexpectedError(_)),
        },
{
    match answer {
        Ok(()) => Ok(SignupResponse { message: String::from_str("User created successfully!") }),
        Err(UserStoreError::UserAlreadyExists) => Err(AuthAPIError::UserAlreadyExists),
        Err(UserStoreError::UnexpectedError(cause)) => Err(AuthAPIError::UnexpectedError(cause)),
        Err(_) => Err(AuthAPIError::UnexpectedError(crate::domain::error::unforeseen_answer())),
    }
}

/// What [`signup`] answers whatever the store is: a request is refused as
/// invalid exactly when it is not well formed, and no other refusal than
/// those of a registration is given.
pub open spec fn signup_answer(user: UserView, r: Result<SignupResponse, AuthAPIError>) -> bool {
    let well_formed = well_formed_credentials(user.email, user.password);
    match r {
        Ok(response) => well_formed && response.message@ == "User created successfully!"@,
        Err(AuthAPIError::InvalidCredentials) => !well_formed,
        Err(AuthAPIError::UserAlreadyExists) => well_formed,
        Err(AuthAPIError::UnexpectedError(_)) => well_formed,
        Err(_) => false,
    }
}

/// What [`signup`] answers, and the users it leaves. A request that is well
/// formed and names a free address registers the user, unless the hash
/// engine fails.
pub open spec fn signup_outcome(
    before: Users,
    after: Users,
    user: UserView,
    r: Result<SignupResponse, AuthAPIError>,
) -> bool {
    let well_formed = well_formed_credentials(user.email, user.password);
    match r {
        Ok(response) => {
            &&& well_formed
            &&& crate::domain::data_stores::registers(before, after, user)
            &&& response.message@ == "User created successfully!"@
        },
        Err(AuthAPIError::InvalidCredentials) => !well_formed && after == before,
        Err(AuthAPIError::UserAlreadyExists) => well_formed && before.contains_key(user.email)
            && after == before,
        Err(AuthAPIError::UnexpectedError(_)) => well_formed && !before.contains_key(user.email)
            && after == before,
        Err(_) => false,
    }
}

/// Registers a new user. The request is validated first; the user store then
/// decides whether the address is free.
pub fn signup<U: UserStore, B: BannedTokenStore, T: TwoFACodeStore>(
    state: &mut AppState<U, B, T>,
    request: SignupRequest,
) -> (r: Result<SignupResponse, AuthAPIError>)
    ensures
        signup_answer(request.user(), r),
        old(state).user_store.is_modelled() ==> signup_outcome(
            old(state).user_store.users(),
            final(state).user_store.users(),
            request.user(),
            r,
        ),
        final(state).user_store.is_modelled() == old(state).user_store.is_modelled(),
        final(state).banned_token_store == old(state).banned_token_store,
        final(state).two_fa_code_store == old(state).two_fa_code_store,
        final(state).jwt_secret == old(state).jwt_secret,
{
    let user = match request.into_user() {
        Ok(user) => user,
        Err(_) => {
            return Err(AuthAPIError::InvalidCredentials);
        },
    };
    registration_reply(state.user_store.add_user(user))
}

} // verus!
