use vstd::prelude::*;
use crate::domain::data_stores::{UserStore, Users};
use crate::domain::email::Email;
use crate::domain::error::UserStoreError;
use crate::domain::password::Password;
use crate::domain::user::{User, UserView};
use crate::services::data_stores::postgres_user_store::{
    check_password, row_for_user, user_from_row,
};

verus! {

/// The users of a list, each under the text of its address.
pub open spec fn user_entries(users: Seq<User>) -> Seq<(Seq<char>, UserView)> {
    Seq::new(users.len(), |i: int| (users[i].email@, users[i]@))
}

/// A user store that lives in memory and is gone with the process. It keeps
/// of a user what a row of a table would: the hash in place of the password.
pub struct HashmapUserStore {
    users: Vec<User>,
}

impl HashmapUserStore {
    #[verifier::type_invariant]
    spec fn one_user_per_address(&self) -> bool {
        crate::services::entries::distinct_keys(user_entries(self.users@))
    }

    /// The place of the user registered under `email`.
    fn position(&self, email: &Email) -> (found: Option<usize>)
        ensures
            match found {
                Some(i) => i < self.users@.len() && self.users@[i as int].email@ == email@,
                None => forall|i: int| 0 <= i < self.users@.len() ==> self.users@[i].email@ != email@,
            },
    {
        let mut i: usize = 0;
        while i < self.users.len()
            invariant
                i <= self.users@.len(),
                forall|j: int| 0 <= j < i ==> self.users@[j].email@ != email@,
            decreases self.users@.len() - i,
        {
            if *self.users[i].email.expose_secret() == *email.expose_secret() {
                return Some(i);
            }
            i = i + 1;
        }
        None
    }
}

impl Default for HashmapUserStore {
    /// A store without users.
    fn default() -> (store: HashmapUserStore)
        ensures
            store.users() == Map::<Seq<char>, UserView>::empty(),
    {
        HashmapUserStore { users: Vec::new() }
    }
}

impl UserStore for HashmapUserStore {
    open spec fn is_modelled(&self) -> bool {
        true
    }

    closed spec fn users(&self) -> Users {
        crate::services::entries::as_map(user_entries(self.users@))
    }

    fn add_user(&mut self, user: User) -> (r: Result<(), UserStoreError>) {
        proof {
            use_type_invariant(&*self);
        }
        let ghost before = user_entries(self.users@);
        match self.position(&user.email) {
            Some(i) => {
                proof {
                    crate::services::entries::lemma_entry_in_map(before, i as int);
                }
                return Err(UserStoreError::UserAlreadyExists);
            },
            None => {},
        }
        let row = match row_for_user(&user) {
            Ok(row) => row,
            Err(e) => {
                return Err(e);
            },
        };
        let stored = match user_from_row(Some(row)) {
            Ok(stored) => stored,
            Err(e) => {
                return Err(e);
            },
        };
        proof {
            crate::services::entries::lemma_push(before, stored.email@, stored@);
            assert(user_entries(self.users@.push(stored)) =~= before.push((stored.email@, stored@)));
        }
        let mut users: Vec<User> = Vec::new();
        core::mem::swap(&mut self.users, &mut users);
        users.push(stored);
        self.users = users;
        proof {
            let old_map = crate::services::entries::as_map(before);
            assert(old_map.insert(stored.email@, stored@).remove(stored.email@) =~= old_map);
        }
        Ok(())
    }

    fn get_user(&self, email: &Email) -> (r: Result<User, UserStoreError>) {
        proof {
            use_type_invariant(self);
        }
        let ghost entries = user_entries(self.users@);
        match self.position(email) {
            Some(i) => {
                proof {
                    crate::services::entries::lemma_entry_in_map(entries, i as int);
                }
                Ok(self.users[i].clone())
            },
            None => Err(UserStoreError::UserNotFound),
        }
    }

    fn validate_user(&self, email: &Email, password: &Password) -> (r: Result<(), UserStoreError>) {
        proof {
            use_type_invariant(self);
        }
        let ghost entries = user_entries(self.users@);
        match self.position(email) {
            Some(i) => {
                proof {
                    crate::services::entries::lemma_entry_in_map(entries, i as int);
                }
                check_password(&self.users[i], password)
            },
            None => Err(UserStoreError::UserNotFound),
        }
    }
}

} // verus!
