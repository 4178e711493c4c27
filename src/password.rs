use vstd::prelude::*;
use vstd::string::*;

use crate::error::ValidationError;

verus! {

/// The number of bytes that a text takes in UTF-8, as `str::len` reports it.
pub open spec fn byte_len(s: Seq<char>) -> usize {
    vstd::utf8::encode_utf8(s).len() as usize
}

pub const MIN_PASSWORD_BYTES: usize = 8;

/// A password of at least eight bytes. Its text is read only through
/// `as_ref`, and it has no `Debug` form.
pub struct Password {
    value: String,
}

impl View for Password {
    type V = Seq<char>;

    closed spec fn view(&self) -> Seq<char> {
        self.value@
    }
}

impl Clone for Password {
    fn clone(&self) -> (r: Password)
        ensures
            r@ == self@,
    {
        proof {
            use_type_invariant(self);
        }
        Password { value: self.value.clone() }
    }
}

impl PartialEq for Password {
    fn eq(&self, other: &Password) -> (r: bool) {
        self.value == other.value
    }
}

impl vstd::std_specs::cmp::PartialEqSpecImpl for Password {
    open spec fn obeys_eq_spec() -> bool {
        true
    }

    open spec fn eq_spec(&self, other: &Password) -> bool {
        self@ == other@
    }
}

impl Password {
    #[verifier::type_invariant]
    spec fn inv(&self) -> bool {
        byte_len(self.value@) >= MIN_PASSWORD_BYTES
    }

    pub fn parse(input: &str) -> (r: Result<Password, ValidationError>)
        ensures
            r is Ok <==> byte_len(input@) >= MIN_PASSWORD_BYTES,
            r is Ok ==> r->Ok_0@ == input@,
            r is Err ==> r->Err_0 == ValidationError::InvalidPassword,
    {
        if input.len() < MIN_PASSWORD_BYTES {
            return Err(ValidationError::InvalidPassword);
        }
        Ok(Password { value: input.to_owned() })
    }

    /// The password, read explicitly.
    pub fn as_ref(&self) -> (r: &str)
        ensures
            r@ == self@,
            byte_len(self@) >= MIN_PASSWORD_BYTES,
    {
        proof {
            use_type_invariant(self);
        }
        self.value.as_str()
    }
}

} // verus!
