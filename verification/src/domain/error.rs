use vstd::prelude::*;

verus! {

/// Why a raw input was refused by one of the value types.
#[derive(Debug, Clone, Copy, PartialEq, Eq, Structural)]
pub enum ValidationError {
    /// The text is not an email address.
    InvalidEmail,
    /// The text is shorter than a password may be.
    InvalidPassword,
    /// The text is not six decimal digits.
    InvalidTwoFACode,
    /// The text is not a UUID.
    InvalidLoginAttemptId,
}

/// One link in the chain of causes behind an unexpected failure: what went
/// wrong at this layer, and the failure beneath it, if any.
#[derive(Debug)]
pub struct ErrorCause {
    pub message: String,
    pub source: Option<Box<ErrorCause>>,
}

/// The messages of a chain, outermost first.
pub open spec fn chain_messages(cause: ErrorCause) -> Seq<Seq<char>>
    decreases cause,
{
    match cause.source {
        None => seq![cause.message@],
        Some(inner) => seq![cause.message@] + chain_messages(*inner),
    }
}

/// The texts of a list of messages.
pub open spec fn texts(messages: Seq<String>) -> Seq<Seq<char>> {
    Seq::new(messages.len(), |i: int| messages[i]@)
}

impl ErrorCause {
    /// A failure with nothing known beneath it.
    pub fn new(message: String) -> (cause: ErrorCause)
        ensures
            cause.message == message,
            cause.source is None,
            chain_messages(cause) == seq![message@],
    {
        ErrorCause { message, source: None }
    }

    /// Puts `message` in front of this chain, as the layer that met the
    /// failure.
    pub fn wrap_err(self, message: String) -> (cause: ErrorCause)
        ensures
            cause.message == message,
            cause.source == Some(Box::new(self)),
            chain_messages(cause) == seq![message@] + chain_messages(self),
    {
        ErrorCause { message, source: Some(Box::new(self)) }
    }

    /// The chain that reads `context` first and then `messages`, each the
    /// cause of the one before it.
    pub fn from_messages(context: String, messages: Vec<String>) -> (cause: ErrorCause)
        ensures
            chain_messages(cause) == seq![context@] + texts(messages@),
    {
        let ghost all = messages@;
        let mut messages = messages;
        let mut chain: Option<ErrorCause> = None;
        while messages.len() > 0
            invariant
                messages@.len() <= all.len(),
                messages@ == all.subrange(0, messages@.len() as int),
                match chain {
                    Some(inner) => chain_messages(inner) == texts(
                        all.subrange(messages@.len() as int, all.len() as int),
                    ),
                    None => messages@.len() == all.len(),
                },
            decreases messages@.len(),
        {
            let message = messages.pop().unwrap();
            chain = Some(
                match chain {
                    Some(inner) => inner.wrap_err(message),
                    None => ErrorCause::new(message),
                },
            );
        }
        match chain {
            Some(inner) => inner.wrap_err(context),
            None => ErrorCause::new(context),
        }
    }
}

/// The cause reported when a store answers what no operation on it can
/// give.
pub fn unforeseen_answer() -> (cause: ErrorCause)
    ensures
        cause.message@ == "a store gave an answer it cannot give"@,
        cause.source is None,
{
    ErrorCause::new(String::from_str("a store gave an answer it cannot give"))
}

/// What a user store may answer in place of success.
#[derive(Debug)]
pub enum UserStoreError {
    UserAlreadyExists,
    UserNotFound,
    InvalidCredentials,
    UnexpectedError(ErrorCause),
}

impl PartialEq for UserStoreError {
    /// Two errors are equal when they are of the same kind; the causes of
    /// unexpected errors are not compared.
    fn eq(&self, other: &UserStoreError) -> (equal: bool) {
        match (self, other) {
            (UserStoreError::UserAlreadyExists, UserStoreError::UserAlreadyExists) => true,
            (UserStoreError::UserNotFound, UserStoreError::UserNotFound) => true,
            (UserStoreError::InvalidCredentials, UserStoreError::InvalidCredentials) => true,
            (UserStoreError::UnexpectedError(_), UserStoreError::UnexpectedError(_)) => true,
            _ => false,
        }
    }
}

impl vstd::std_specs::cmp::PartialEqSpecImpl for UserStoreError {
    open spec fn obeys_eq_spec() -> bool {
        true
    }

    open spec fn eq_spec(&self, other: &UserStoreError) -> bool {
        match (*self, *other) {
            (UserStoreError::UserAlreadyExists, UserStoreError::UserAlreadyExists) => true,
            (UserStoreError::UserNotFound, UserStoreError::UserNotFound) => true,
            (UserStoreError::InvalidCredentials, UserStoreError::InvalidCredentials) => true,
            (UserStoreError::UnexpectedError(_), UserStoreError::UnexpectedError(_)) => true,
            _ => false,
        }
    }
}

/// What a banned-token store may answer in place of success.
#[derive(Debug)]
pub enum BannedTokenStoreError {
    TokenAlreadyExists,
    UnexpectedError(ErrorCause),
}

/// What a two-factor code store may answer in place of success.
#[derive(Debug)]
pub enum TwoFACodeStoreError {
    LoginAttemptIdNotFound,
    UnexpectedError(ErrorCause),
}

impl PartialEq for TwoFACodeStoreError {
    /// Two errors are equal when they are of the same kind; the causes of
    /// unexpected errors are not compared.
    fn eq(&self, other: &TwoFACodeStoreError) -> (equal: bool) {
        match (self, other) {
            (
                TwoFACodeStoreError::LoginAttemptIdNotFound,
                TwoFACodeStoreError::LoginAttemptIdNotFound,
            ) => true,
            (TwoFACodeStoreError::UnexpectedError(_), TwoFACodeStoreError::UnexpectedError(_)) => true,
            _ => false,
        }
    }
}

impl vstd::std_specs::cmp::PartialEqSpecImpl for TwoFACodeStoreError {
    open spec fn obeys_eq_spec() -> bool {
        true
    }

    open spec fn eq_spec(&self, other: &TwoFACodeStoreError) -> bool {
        match (*self, *other) {
            (
                TwoFACodeStoreError::LoginAttemptIdNotFound,
                TwoFACodeStoreError::LoginAttemptIdNotFound,
            ) => true,
            (TwoFACodeStoreError::UnexpectedError(_), TwoFACodeStoreError::UnexpectedError(_)) => true,
            _ => false,
        }
    }
}

/// How a lifecycle operation fails, as its caller is told.
#[derive(Debug)]
pub enum AuthAPIError {
    /// Sign-up for an address that is already registered.
    UserAlreadyExists,
    /// An input that is not of the form its value type demands.
    InvalidCredentials,
    /// A wrong password, an unknown user, or a wrong or absent two-factor
    /// challenge.
    IncorrectCredentials,
    /// Logout without a session token.
    MissingToken,
    /// A token that is forged, malformed, expired or banned.
    InvalidToken,
    /// A failure of a store, of the hash engine or of token signing.
    UnexpectedError(ErrorCause),
}

/// The HTTP status an error is answered with.
pub open spec fn status_of(error: AuthAPIError) -> u16 {
    match error {
        AuthAPIError::UserAlreadyExists => 409,
        AuthAPIError::InvalidCredentials => 400,
        AuthAPIError::IncorrectCredentials => 401,
        AuthAPIError::MissingToken => 400,
        AuthAPIError::InvalidToken => 401,
        AuthAPIError::UnexpectedError(_) => 500,
    }
}

/// The message an error is answered with. An unexpected error shows nothing
/// of its cause.
pub open spec fn message_of(error: AuthAPIError) -> Seq<char> {
    match error {
        AuthAPIError::UserAlreadyExists => "User already exists"@,
        AuthAPIError::InvalidCredentials => "Invalid credentials"@,
        AuthAPIError::IncorrectCredentials => "Incorrect Credentials"@,
        AuthAPIError::MissingToken => "Missing auth token"@,
        AuthAPIError::InvalidToken => "JWT is not valid"@,
        AuthAPIError::UnexpectedError(_) => "Unexpected error"@,
    }
}

impl AuthAPIError {
    /// The HTTP status this error is answered with.
    pub fn status_code(&self) -> (status: u16)
        ensures
            status == status_of(*self),
    {
        match self {
            AuthAPIError::UserAlreadyExists => 409,
            AuthAPIError::InvalidCredentials => 400,
            AuthAPIError::IncorrectCredentials => 401,
            AuthAPIError::MissingToken => 400,
            AuthAPIError::InvalidToken => 401,
            AuthAPIError::UnexpectedError(_) => 500,
        }
    }

    /// The message this error is answered with.
    pub fn message(&self) -> (text: String)
        ensures
            text@ == message_of(*self),
    {
        match self {
            AuthAPIError::UserAlreadyExists => String::from_str("User already exists"),
            AuthAPIError::InvalidCredentials => String::from_str("Invalid credentials"),
            AuthAPIError::IncorrectCredentials => String::from_str("Incorrect Credentials"),
            AuthAPIError::MissingToken => String::from_str("Missing auth token"),
            AuthAPIError::InvalidToken => String::from_str("JWT is not valid"),
            AuthAPIError::UnexpectedError(_) => String::from_str("Unexpected error"),
        }
    }
}

impl PartialEq for AuthAPIError {
    /// Two errors are equal when they are of the same kind; the causes of
    /// unexpected errors are not compared.
    fn eq(&self, other: &AuthAPIError) -> (equal: bool) {
        match (self, other) {
            (AuthAPIError::UserAlreadyExists, AuthAPIError::UserAlreadyExists) => true,
            (AuthAPIError::InvalidCredentials, AuthAPIError::InvalidCredentials) => true,
            (AuthAPIError::IncorrectCredentials, AuthAPIError::IncorrectCredentials) => true,
            (AuthAPIError::MissingToken, AuthAPIError::MissingToken) => true,
            (AuthAPIError::InvalidToken, AuthAPIError::InvalidToken) => true,
            (AuthAPIError::UnexpectedError(_), AuthAPIError::UnexpectedError(_)) => true,
            _ => false,
        }
    }
}

impl vstd::std_specs::cmp::PartialEqSpecImpl for AuthAPIError {
    open spec fn obeys_eq_spec() -> bool {
        true
    }

    open spec fn eq_spec(&self, other: &AuthAPIError) -> bool {
        match (*self, *other) {
            (AuthAPIError::UserAlreadyExists, AuthAPIError::UserAlreadyExists) => true,
            (AuthAPIError::InvalidCredentials, AuthAPIError::InvalidCredentials) => true,
            (AuthAPIError::IncorrectCredentials, AuthAPIError::IncorrectCredentials) => true,
            (AuthAPIError::MissingToken, AuthAPIError::MissingToken) => true,
            (AuthAPIError::InvalidToken, AuthAPIError::InvalidToken) => true,
            (AuthAPIError::UnexpectedError(_), AuthAPIError::UnexpectedError(_)) => true,
            _ => false,
        }
    }
}

} // verus!
