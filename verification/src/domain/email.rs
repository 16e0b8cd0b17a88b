use vstd::prelude::*;
use crate::domain::error::ValidationError;

verus! {

/// Whether `text` is an email address as `validator` understands one: a
/// local part and a domain (or bracketed IP literal) around the last `@`, in
/// the syntax HTML5 gives for the `email` form control, internationalised
/// domains included.
pub uninterp spec fn is_email_address(text: Seq<char>) -> bool;

/// A text whose only `@` is its first character: an address without a
/// subject.
pub open spec fn lacks_subject(text: Seq<char>) -> bool {
    &&& text.len() > 0
    &&& text[0] == '@'
    &&& forall|i: int| 0 < i < text.len() ==> text[i] != '@'
}

/// Calls `validator::ValidateEmail::validate_email`.
///
/// Trusted: the answer is a function of the text alone; the function returns
/// `false` at once for an empty text and for one without `@`; it splits the
/// text at its last `@` and refuses an empty part before it, because the
/// pattern for that part demands at least one character.
#[verifier::external_body]
fn validate_email(text: &String) -> (ok: bool)
    ensures
        ok == is_email_address(text@),
        text@.len() == 0 ==> !ok,
        !text@.contains('@') ==> !ok,
        lacks_subject(text@) ==> !ok,
{
    validator::ValidateEmail::validate_email(text)
}

/// An email address that has passed validation. The text is private; read it
/// with [`Email::expose_secret`].
#[derive(Hash)]
pub struct Email(String);

impl View for Email {
    type V = Seq<char>;

    closed spec fn view(&self) -> Seq<char> {
        self.0@
    }
}

impl Email {
    #[verifier::type_invariant]
    spec fn valid(&self) -> bool {
        is_email_address(self.0@)
    }

    /// Validates `email` and wraps it unchanged.
    pub fn parse(email: String) -> (r: Result<Email, ValidationError>)
        ensures
            r is Ok <==> is_email_address(email@),
            r matches Ok(parsed) ==> parsed@ == email@,
            r matches Err(e) ==> e == ValidationError::InvalidEmail,
            email@.len() == 0 ==> r is Err,
            !email@.contains('@') ==> r is Err,
            lacks_subject(email@) ==> r is Err,
    {
        if validate_email(&email) {
            Ok(Email(email))
        } else {
            Err(ValidationError::InvalidEmail)
        }
    }

    /// The address as text.
    pub fn expose_secret(&self) -> (text: &String)
        ensures
            text@ == self@,
            is_email_address(text@),
    {
        proof {
            use_type_invariant(self);
        }
        &self.0
    }
}

impl Clone for Email {
    fn clone(&self) -> (copy: Email)
        ensures
            copy@ == self@,
    {
        proof {
            use_type_invariant(self);
        }
        Email(self.0.clone())
    }
}

impl PartialEq for Email {
    fn eq(&self, other: &Email) -> (equal: bool) {
        self.0 == other.0
    }
}

impl Eq for Email {}

impl vstd::std_specs::cmp::PartialEqSpecImpl for Email {
    open spec fn obeys_eq_spec() -> bool {
        true
    }

    open spec fn eq_spec(&self, other: &Email) -> bool {
        self@ == other@
    }
}

} // verus!
