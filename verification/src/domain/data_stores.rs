//! The three capabilities the lifecycle operations rest on, and what each
//! promises.
//!
//! A store that lives in this process answers for a model of what it holds:
//! every call gives exactly the answer that the model calls for, and fails
//! with `UnexpectedError` only where it has to compute a hash and the hash
//! engine fails. Such a store says so by `is_modelled`. A store that keeps
//! its data elsewhere, where it can change or lapse unseen and where any
//! call can fail, has no model and is promised nothing of; the operations
//! take its answers as they come.

use vstd::prelude::*;
use crate::domain::email::Email;
use crate::domain::error::{BannedTokenStoreError, TwoFACodeStoreError, UserStoreError};
use crate::domain::password::Password;
use crate::domain::two_factor::{LoginAttemptId, TwoFACode};
use crate::domain::user::{User, UserView};

verus! {

/// The users of a store, by the text of their email address.
pub type Users = Map<Seq<char>, UserView>;

/// The pending two-factor challenges of a store: for the text of an email
/// address, the login attempt and the code that confirms it.
pub type Challenges = Map<Seq<char>, (Seq<char>, Seq<char>)>;

/// `after` is `before` with `user` registered: the address was free, the
/// entry carries the user's address and two-factor setting, and what is kept
/// as the password is a hash of the library's making that the user's
/// password verifies against.
pub open spec fn registers(before: Users, after: Users, user: UserView) -> bool {
    &&& !before.contains_key(user.email)
    &&& after.contains_key(user.email)
    &&& after.remove(user.email) == before
    &&& after[user.email].email == user.email
    &&& after[user.email].requires_2fa == user.requires_2fa
    &&& crate::utils::password_hash::is_library_hash(after[user.email].password)
    &&& crate::utils::password_hash::hash_accepts(after[user.email].password, user.password)
}

/// What `add_user` answers, and the users it leaves. An address that is
/// taken is refused; a free one is registered unless the hash engine fails.
pub open spec fn add_user_outcome(
    before: Users,
    after: Users,
    user: UserView,
    r: Result<(), UserStoreError>,
) -> bool {
    match r {
        Ok(()) => registers(before, after, user),
        Err(UserStoreError::UserAlreadyExists) => before.contains_key(user.email) && after
            == before,
        Err(UserStoreError::UnexpectedError(_)) => !before.contains_key(user.email) && after
            == before,
        Err(_) => false,
    }
}

/// What `get_user` answers.
pub open spec fn get_user_outcome(users: Users, email: Seq<char>, r: Result<User, UserStoreError>) -> bool {
    match r {
        Ok(user) => users.contains_key(email) && user@ == users[email],
        Err(UserStoreError::UserNotFound) => !users.contains_key(email),
        Err(_) => false,
    }
}

/// What `validate_user` answers.
pub open spec fn validate_user_outcome(
    users: Users,
    email: Seq<char>,
    password: Seq<char>,
    r: Result<(), UserStoreError>,
) -> bool {
    match r {
        Ok(()) => users.contains_key(email) && crate::utils::password_hash::hash_accepts(
            users[email].password,
            password,
        ),
        Err(UserStoreError::UserNotFound) => !users.contains_key(email),
        Err(UserStoreError::InvalidCredentials) => users.contains_key(email)
            && !crate::utils::password_hash::hash_accepts(users[email].password, password),
        Err(_) => false,
    }
}

/// The capability to keep users.
pub trait UserStore {
    /// Whether this store answers for [`UserStore::users`].
    open spec fn is_modelled(&self) -> bool {
        false
    }

    /// The users held.
    open spec fn users(&self) -> Users {
        Map::empty()
    }

    /// Registers `user` under its address, keeping a hash in place of the
    /// password. An address can be registered once.
    fn add_user(&mut self, user: User) -> (r: Result<(), UserStoreError>)
        ensures
            final(self).is_modelled() == old(self).is_modelled(),
            old(self).is_modelled() ==> add_user_outcome(
                old(self).users(),
                final(self).users(),
                user@,
                r,
            ),
    ;

    /// The user registered under `email`, as stored.
    fn get_user(&self, email: &Email) -> (r: Result<User, UserStoreError>)
        ensures
            self.is_modelled() ==> get_user_outcome(self.users(), email@, r),
    ;

    /// Whether `password` verifies against the hash kept for `email`.
    fn validate_user(&self, email: &Email, password: &Password) -> (r: Result<(), UserStoreError>)
        ensures
            self.is_modelled() ==> validate_user_outcome(self.users(), email@, password@, r),
    ;
}

/// The capability to remember revoked tokens.
pub trait BannedTokenStore {
    /// Whether this store answers for [`BannedTokenStore::banned_tokens`].
    open spec fn is_modelled(&self) -> bool {
        false
    }

    /// The tokens banned.
    open spec fn banned_tokens(&self) -> Set<Seq<char>> {
        Set::empty()
    }

    /// Bans `token`. Banning a token again changes nothing.
    fn add_banned_token(&mut self, token: String) -> (r: Result<(), BannedTokenStoreError>)
        ensures
            final(self).is_modelled() == old(self).is_modelled(),
            old(self).is_modelled() ==> r is Ok && final(self).banned_tokens() == old(
                self,
            ).banned_tokens().insert(token@),
    ;

    /// Whether `token` is banned.
    fn is_banned_token(&self, token: &str) -> (r: Result<bool, BannedTokenStoreError>)
        ensures
            self.is_modelled() ==> r == Ok::<bool, BannedTokenStoreError>(
                self.banned_tokens().contains(token@),
            ),
    ;
}

/// What `get_code` answers.
pub open spec fn get_code_outcome(
    pending: Challenges,
    email: Seq<char>,
    r: Result<(LoginAttemptId, TwoFACode), TwoFACodeStoreError>,
) -> bool {
    match r {
        Ok(challenge) => pending.contains_key(email) && pending[email] == (
            challenge.0@,
            challenge.1@,
        ),
        Err(TwoFACodeStoreError::LoginAttemptIdNotFound) => !pending.contains_key(email),
        Err(TwoFACodeStoreError::UnexpectedError(_)) => false,
    }
}

/// What `remove_code` answers, and the challenges it leaves.
pub open spec fn remove_code_outcome(
    before: Challenges,
    after: Challenges,
    email: Seq<char>,
    r: Result<(), TwoFACodeStoreError>,
) -> bool {
    match r {
        Ok(()) => before.contains_key(email) && after == before.remove(email),
        Err(TwoFACodeStoreError::LoginAttemptIdNotFound) => !before.contains_key(email) && after
            == before,
        Err(TwoFACodeStoreError::UnexpectedError(_)) => false,
    }
}

/// The capability to keep pending two-factor challenges, at most one for an
/// address.
pub trait TwoFACodeStore {
    /// Whether this store answers for [`TwoFACodeStore::codes`].
    open spec fn is_modelled(&self) -> bool {
        false
    }

    /// The challenges pending.
    open spec fn codes(&self) -> Challenges {
        Map::empty()
    }

    /// Sets the challenge for `email`, in place of any it had.
    fn add_code(&mut self, email: Email, login_attempt_id: LoginAttemptId, code: TwoFACode) -> (r:
        Result<(), TwoFACodeStoreError>)
        ensures
            final(self).is_modelled() == old(self).is_modelled(),
            old(self).is_modelled() ==> r is Ok && final(self).codes() == old(self).codes().insert(
                email@,
                (login_attempt_id@, code@),
            ),
    ;

    /// The challenge pending for `email`.
    fn get_code(&self, email: &Email) -> (r: Result<(LoginAttemptId, TwoFACode), TwoFACodeStoreError>)
        ensures
            self.is_modelled() ==> get_code_outcome(self.codes(), email@, r),
    ;

    /// Drops the challenge pending for `email`.
    fn remove_code(&mut self, email: &Email) -> (r: Result<(), TwoFACodeStoreError>)
        ensures
            final(self).is_modelled() == old(self).is_modelled(),
            old(self).is_modelled() ==> remove_code_outcome(
                old(self).codes(),
                final(self).codes(),
                email@,
                r,
            ),
    ;
}

} // verus!
