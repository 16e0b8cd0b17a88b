use vstd::prelude::*;
use crate::domain::data_stores::{Challenges, TwoFACodeStore};
use crate::domain::email::Email;
use crate::domain::error::TwoFACodeStoreError;
use crate::domain::two_factor::{LoginAttemptId, TwoFACode};

verus! {

/// A challenge that awaits its answer.
pub struct PendingChallenge {
    pub email: Email,
    pub login_attempt_id: LoginAttemptId,
    pub code: TwoFACode,
}

/// The challenges of a list, each under the text of its address.
pub open spec fn challenge_entries(pending: Seq<PendingChallenge>) -> Seq<
    (Seq<char>, (Seq<char>, Seq<char>)),
> {
    Seq::new(
        pending.len(),
        |i: int| (pending[i].email@, (pending[i].login_attempt_id@, pending[i].code@)),
    )
}

/// A two-factor code store that lives in memory. A challenge stays until the
/// next one for its address takes its place or it is removed.
pub struct HashmapTwoFACodeStore {
    codes: Vec<PendingChallenge>,
}

impl HashmapTwoFACodeStore {
    #[verifier::type_invariant]
    spec fn one_challenge_per_address(&self) -> bool {
        crate::services::entries::distinct_keys(challenge_entries(self.codes@))
    }

    /// The place of the challenge pending for `email`.
    fn position(&self, email: &Email) -> (found: Option<usize>)
        ensures
            match found {
                Some(i) => i < self.codes@.len() && self.codes@[i as int].email@ == email@,
                None => forall|i: int| 0 <= i < self.codes@.len() ==> self.codes@[i].email@ != email@,
            },
    {
        let mut i: usize = 0;
        while i < self.codes.len()
            invariant
                i <= self.codes@.len(),
                forall|j: int| 0 <= j < i ==> self.codes@[j].email@ != email@,
            decreases self.codes@.len() - i,
        {
            if *self.codes[i].email.expose_secret() == *email.expose_secret() {
                return Some(i);
            }
            i = i + 1;
        }
        None
    }
}

impl Default for HashmapTwoFACodeStore {
    /// A store without challenges.
    fn default() -> (store: HashmapTwoFACodeStore)
        ensures
            store.codes() == Map::<Seq<char>, (Seq<char>, Seq<char>)>::empty(),
    {
        HashmapTwoFACodeStore { codes: Vec::new() }
    }
}

impl TwoFACodeStore for HashmapTwoFACodeStore {
    open spec fn is_modelled(&self) -> bool {
        true
    }

    closed spec fn codes(&self) -> Challenges {
        crate::services::entries::as_map(challenge_entries(self.codes@))
    }

    fn add_code(&mut self, email: Email, login_attempt_id: LoginAttemptId, code: TwoFACode) -> (r:
        Result<(), TwoFACodeStoreError>) {
        proof {
            use_type_invariant(&*self);
        }
        let ghost before = challenge_entries(self.codes@);
        let found = self.position(&email);
        let challenge = PendingChallenge { email, login_attempt_id, code };
        let mut codes: Vec<PendingChallenge> = Vec::new();
        core::mem::swap(&mut self.codes, &mut codes);
        match found {
            Some(i) => {
                proof {
                    crate::services::entries::lemma_update(
                        before,
                        i as int,
                        (challenge.login_attempt_id@, challenge.code@),
                    );
                    assert(challenge_entries(codes@.update(i as int, challenge)) =~= before.update(
                        i as int,
                        (before[i as int].0, (challenge.login_attempt_id@, challenge.code@)),
                    ));
                }
                codes.set(i, challenge);
            },
            None => {
                proof {
                    crate::services::entries::lemma_push(
                        before,
                        challenge.email@,
                        (challenge.login_attempt_id@, challenge.code@),
                    );
                    assert(challenge_entries(codes@.push(challenge)) =~= before.push(
                        (challenge.email@, (challenge.login_attempt_id@, challenge.code@)),
                    ));
                }
                codes.push(challenge);
            },
        }
        self.codes = codes;
        Ok(())
    }

    fn get_code(&self, email: &Email) -> (r: Result<(LoginAttemptId, TwoFACode), TwoFACodeStoreError>) {
        proof {
            use_type_invariant(self);
        }
        let ghost entries = challenge_entries(self.codes@);
        match self.position(email) {
            Some(i) => {
                proof {
                    crate::services::entries::lemma_entry_in_map(entries, i as int);
                }
                let challenge = &self.codes[i];
                Ok((challenge.login_attempt_id.clone(), challenge.code.clone()))
            },
            None => Err(TwoFACodeStoreError::LoginAttemptIdNotFound),
        }
    }

    fn remove_code(&mut self, email: &Email) -> (r: Result<(), TwoFACodeStoreError>) {
        proof {
            use_type_invariant(&*self);
        }
        let ghost before = challenge_entries(self.codes@);
        match self.position(email) {
            Some(i) => {
                proof {
                    crate::services::entries::lemma_remove(before, i as int);
                    assert(challenge_entries(self.codes@.remove(i as int)) =~= before.remove(
                        i as int,
                    ));
                }
                let mut codes: Vec<PendingChallenge> = Vec::new();
                core::mem::swap(&mut self.codes, &mut codes);
                let _ = codes.remove(i);
                self.codes = codes;
                Ok(())
            },
            None => Err(TwoFACodeStoreError::LoginAttemptIdNotFound),
        }
    }
}

} // verus!
