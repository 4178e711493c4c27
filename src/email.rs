use vstd::prelude::*;
use vstd::string::*;

use crate::error::ValidationError;

verus! {

/// What `validator`'s email check accepts.
pub uninterp spec fn email_grammar_accepts(s: Seq<char>) -> bool;

/// Relies on `validator::ValidateEmail::validate_email` for `str`: the verdict
/// depends on the text alone, and a text without an `@` is refused.
#[verifier::external_body]
fn validate_email(s: &str) -> (r: bool)
    ensures
        r == email_grammar_accepts(s@),
        !s@.contains('@') ==> !r,
{
    validator::ValidateEmail::validate_email(&s)
}

/// A validated email address. Its text is read only through `as_ref`, and it
/// has no `Debug` form, so that it does not end up in logs by accident.
pub struct Email {
    value: String,
}

impl View for Email {
    type V = Seq<char>;

    closed spec fn view(&self) -> Seq<char> {
        self.value@
    }
}

impl Clone for Email {
    fn clone(&self) -> (r: Email)
        ensures
            r@ == self@,
    {
        proof {
            use_type_invariant(self);
        }
        Email { value: self.value.clone() }
    }
}

impl PartialEq for Email {
    fn eq(&self, other: &Email) -> (r: bool) {
        self.value == other.value
    }
}

impl vstd::std_specs::cmp::PartialEqSpecImpl for Email {
    open spec fn obeys_eq_spec() -> bool {
        true
    }

    open spec fn eq_spec(&self, other: &Email) -> bool {
        self@ == other@
    }
}

impl Eq for Email {}

impl Email {
    #[verifier::type_invariant]
    spec fn inv(&self) -> bool {
        email_grammar_accepts(self.value@)
    }

    pub fn parse(input: &str) -> (r: Result<Email, ValidationError>)
        ensures
            r is Ok <==> email_grammar_accepts(input@),
            !input@.contains('@') ==> r is Err,
            r is Ok ==> r->Ok_0@ == input@,
            r is Err ==> r->Err_0 == ValidationError::InvalidEmail,
    {
        if validate_email(input) {
            Ok(Email { value: input.to_owned() })
        } else {
            Err(ValidationError::InvalidEmail)
        }
    }

    /// The address, read explicitly.
    pub fn as_ref(&self) -> (r: &str)
        ensures
            r@ == self@,
            email_grammar_accepts(self@),
    {
        proof {
            use_type_invariant(self);
        }
        self.value.as_str()
    }
}

} // verus!
