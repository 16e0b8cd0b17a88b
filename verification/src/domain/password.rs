use vstd::prelude::*;
use crate::domain::error::ValidationError;

verus! {

/// The least number of bytes a password may have.
pub const MIN_PASSWORD_LENGTH: usize = 8;

/// The length of `text` in bytes of UTF-8, the measure passwords are held to.
pub open spec fn byte_length(text: Seq<char>) -> nat {
    vstd::utf8::encode_utf8(text).len()
}

/// What makes a text acceptable as a password.
pub open spec fn is_password(text: Seq<char>) -> bool {
    byte_length(text) >= MIN_PASSWORD_LENGTH
}

/// A text has at least as many bytes as characters.
pub proof fn lemma_bytes_bound_characters(text: Seq<char>)
    ensures
        byte_length(text) >= text.len(),
    decreases text.len(),
{
    if text.len() > 0 {
        lemma_bytes_bound_characters(text.drop_first());
    }
}

/// Every text of [`MIN_PASSWORD_LENGTH`] characters or more is a password.
pub proof fn lemma_long_text_is_password(text: Seq<char>)
    requires
        text.len() >= MIN_PASSWORD_LENGTH,
    ensures
        is_password(text),
{
    lemma_bytes_bound_characters(text);
}

/// A password of acceptable length: the secret a user typed, or the hash
/// that stands for it once stored. The text is private; read it with
/// [`Password::expose_secret`].
pub struct Password(String);

impl View for Password {
    type V = Seq<char>;

    closed spec fn view(&self) -> Seq<char> {
        self.0@
    }
}

impl Password {
    #[verifier::type_invariant]
    spec fn valid(&self) -> bool {
        is_password(self.0@)
    }

    /// Accepts `password` unchanged if it has at least
    /// [`MIN_PASSWORD_LENGTH`] bytes.
    pub fn parse(password: String) -> (r: Result<Password, ValidationError>)
        ensures
            r is Ok <==> is_password(password@),
            r matches Ok(parsed) ==> parsed@ == password@,
            r matches Err(e) ==> e == ValidationError::InvalidPassword,
    {
        if validate_password(&password) {
            Ok(Password(password))
        } else {
            Err(ValidationError::InvalidPassword)
        }
    }

    /// The password as text.
    pub fn expose_secret(&self) -> (text: &String)
        ensures
            text@ == self@,
            is_password(text@),
    {
        proof {
            use_type_invariant(self);
        }
        &self.0
    }
}

/// Whether `s` is long enough to be a password.
pub fn validate_password(s: &String) -> (ok: bool)
    ensures
        ok == is_password(s@),
{
    s.as_str().as_bytes().len() >= MIN_PASSWORD_LENGTH
}

impl Clone for Password {
    fn clone(&self) -> (copy: Password)
        ensures
            copy@ == self@,
    {
        proof {
            use_type_invariant(self);
        }
        Password(self.0.clone())
    }
}

impl PartialEq for Password {
    fn eq(&self, other: &Password) -> (equal: bool) {
        self.0 == other.0
    }
}

impl vstd::std_specs::cmp::PartialEqSpecImpl for Password {
    open spec fn obeys_eq_spec() -> bool {
        true
    }

    open spec fn eq_spec(&self, other: &Password) -> bool {
        self@ == other@
    }
}

} // verus!
