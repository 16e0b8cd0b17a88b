use vstd::prelude::*;
use crate::domain::data_stores::BannedTokenStore;
use crate::domain::error::BannedTokenStoreError;

verus! {

/// The texts of a list of tokens, as a set.
pub open spec fn token_set(tokens: Seq<String>) -> Set<Seq<char>> {
    Set::new(|token: Seq<char>| exists|i: int| 0 <= i < tokens.len() && (#[trigger] tokens[i])@ == token)
}

/// A banned-token store that lives in memory. It grows with every token
/// banned and forgets none.
pub struct HashsetBannedTokenStore {
    tokens: Vec<String>,
}

impl HashsetBannedTokenStore {
    #[verifier::type_invariant]
    spec fn no_token_twice(&self) -> bool {
        forall|i: int, j: int|
            0 <= i < j < self.tokens@.len() ==> (#[trigger] self.tokens@[i])@ != (
            #[trigger] self.tokens@[j])@
    }

    /// Whether `token` is among the tokens kept.
    fn holds(&self, token: &String) -> (found: bool)
        ensures
            found == token_set(self.tokens@).contains(token@),
    {
        let mut i: usize = 0;
        while i < self.tokens.len()
            invariant
                i <= self.tokens@.len(),
                forall|j: int| 0 <= j < i ==> (#[trigger] self.tokens@[j])@ != token@,
            decreases self.tokens@.len() - i,
        {
            if self.tokens[i] == *token {
                return true;
            }
            i = i + 1;
        }
        false
    }
}

impl Default for HashsetBannedTokenStore {
    /// A store without tokens.
    fn default() -> (store: HashsetBannedTokenStore)
        ensures
            store.banned_tokens() == Set::<Seq<char>>::empty(),
    {
        HashsetBannedTokenStore { tokens: Vec::new() }
    }
}

impl BannedTokenStore for HashsetBannedTokenStore {
    open spec fn is_modelled(&self) -> bool {
        true
    }

    closed spec fn banned_tokens(&self) -> Set<Seq<char>> {
        token_set(self.tokens@)
    }

    fn add_banned_token(&mut self, token: String) -> (r: Result<(), BannedTokenStoreError>) {
        proof {
            use_type_invariant(&*self);
        }
        let ghost before = self.tokens@;
        if self.holds(&token) {
            return Ok(());
        }
        let mut tokens: Vec<String> = Vec::new();
        core::mem::swap(&mut self.tokens, &mut tokens);
        proof {
            let after = before.push(token);
            assert forall|text: Seq<char>| #[trigger] token_set(after).contains(text) <==> token_set(
                before,
            ).insert(token@).contains(text) by {
                if token_set(before).contains(text) {
                    let i = choose|i: int| 0 <= i < before.len() && (#[trigger] before[i])@ == text;
                    assert(after[i]@ == text);
                }
                if text == token@ {
                    assert(after[before.len() as int]@ == text);
                }
            }
        }
        tokens.push(token);
        self.tokens = tokens;
        Ok(())
    }

    fn is_banned_token(&self, token: &str) -> (r: Result<bool, BannedTokenStoreError>) {
        Ok(self.holds(&String::from_str(token)))
    }
}

} // verus!
