use vstd::prelude::*;
use crate::domain::email::Email;
use crate::domain::error::{ErrorCause, UserStoreError};
use crate::domain::password::Password;
use crate::domain::user::User;
use crate::utils::password_hash::{compute_password_hash, verify_password_hash};

verus! {

/// A user as a row of the table `users`: the address, which is unique, the
/// hash of the password, and the two-factor setting.
pub struct UserRow {
    pub email: String,
    pub password_hash: String,
    pub requires_2fa: bool,
}

/// The row to insert for `user`: its address and setting, and a fresh hash
/// of its password in place of the password itself.
pub fn row_for_user(user: &User) -> (r: Result<UserRow, UserStoreError>)
    ensures
        match r {
            Ok(row) => {
                &&& row.email@ == user.email@
                &&& row.requires_2fa == user.requires_2fa
                &&& crate::utils::password_hash::is_library_hash(row.password_hash@)
                &&& crate::utils::password_hash::hash_accepts(row.password_hash@, user.password@)
            },
            Err(e) => e is UnexpectedError,
        },
{
    match compute_password_hash(user.password.expose_secret()) {
        Ok(password_hash) => Ok(
            UserRow {
                email: user.email.expose_secret().clone(),
                password_hash,
                requires_2fa: user.requires_2fa,
            },
        ),
        Err(cause) => Err(
            UserStoreError::UnexpectedError(
                cause.wrap_err(String::from_str("failed to hash the password")),
            ),
        ),
    }
}

/// How the insertion of a row ended.
pub enum InsertOutcome {
    /// The row is in the table.
    Inserted,
    /// The table has a row with this address already.
    AddressTaken,
    /// The insertion failed for another reason.
    Failed(ErrorCause),
}

/// What the store answers to a registration whose insertion ended as
/// `outcome`: an address can be registered once, and any other failure is
/// unexpected.
pub fn insertion_reply(outcome: InsertOutcome) -> (r: Result<(), UserStoreError>)
    ensures
        match outcome {
            InsertOutcome::Inserted => r is Ok,
            InsertOutcome::AddressTaken => r matches Err(UserStoreError::UserAlreadyExists),
            InsertOutcome::Failed(cause) => r matches Err(UserStoreError::UnexpectedError(reported))
                && reported == cause,
        },
{
    match outcome {
        InsertOutcome::Inserted => Ok(()),
        InsertOutcome::AddressTaken => Err(UserStoreError::UserAlreadyExists),
        InsertOutcome::Failed(cause) => Err(UserStoreError::UnexpectedError(cause)),
    }
}

/// Whether a row holds what a user is made of.
pub open spec fn is_sound_row(row: UserRow) -> bool {
    crate::domain::email::is_email_address(row.email@) && crate::domain::password::is_password(
        row.password_hash@,
    )
}

/// The user that a lookup found, if it found a row. The fields of the row
/// pass through the same validation as input does; a row that fails it is
/// damaged data, not a user's mistake, and is reported as `UnexpectedError`.
pub fn user_from_row(row: Option<UserRow>) -> (r: Result<User, UserStoreError>)
    ensures
        match r {
            Ok(user) => {
                &&& row matches Some(found)
                &&& is_sound_row(found)
                &&& user.email@ == found.email@
                &&& user.password@ == found.password_hash@
                &&& user.requires_2fa == found.requires_2fa
            },
            Err(UserStoreError::UserNotFound) => row is None,
            Err(UserStoreError::UnexpectedError(_)) => row matches Some(found) && !is_sound_row(found),
            Err(_) => false,
        },
{
    let row = match row {
        Some(row) => row,
        None => {
            return Err(UserStoreError::UserNotFound);
        },
    };
    let email = match Email::parse(row.email) {
        Ok(email) => email,
        Err(_) => {
            return Err(
                UserStoreError::UnexpectedError(
                    ErrorCause::new(String::from_str("the stored email address is not valid")),
                ),
            );
        },
    };
    let password = match Password::parse(row.password_hash) {
        Ok(password) => password,
        Err(_) => {
            return Err(
                UserStoreError::UnexpectedError(
                    ErrorCause::new(String::from_str("the stored password hash is not valid")),
                ),
            );
        },
    };
    Ok(User { email, password, requires_2fa: row.requires_2fa })
}

/// Whether `password` verifies against the hash that `user`, as stored,
/// holds for a password.
pub fn check_password(user: &User, password: &Password) -> (r: Result<(), UserStoreError>)
    ensures
        match r {
            Ok(()) => crate::utils::password_hash::hash_accepts(user.password@, password@),
            Err(UserStoreError::InvalidCredentials) => !crate::utils::password_hash::hash_accepts(
                user.password@,
                password@,
            ),
            Err(_) => false,
        },
{
    match verify_password_hash(user.password.expose_secret(), password.expose_secret()) {
        Ok(()) => Ok(()),
        Err(_) => Err(UserStoreError::InvalidCredentials),
    }
}

} // verus!
