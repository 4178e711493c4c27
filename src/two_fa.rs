use vstd::prelude::*;
use vstd::string::*;

use crate::error::{CodeDefect, ValidationError};
use crate::password::byte_len;
use vstd::utf8::{is_ascii_chars, is_ascii_chars_encode_utf8};

verus! {

pub open spec fn is_hex_char(c: char) -> bool {
    ('0' <= c && c <= '9') || ('a' <= c && c <= 'f') || ('A' <= c && c <= 'F')
}

/// Thirty-two hex digits.
pub open spec fn is_simple_uuid(s: Seq<char>) -> bool {
    s.len() == 32 && forall|i: int| 0 <= i < 32 ==> is_hex_char(#[trigger] s[i])
}

/// Thirty-two hex digits in groups of 8, 4, 4, 4 and 12, joined by `-`.
pub open spec fn is_hyphenated_uuid(s: Seq<char>) -> bool {
    s.len() == 36 && forall|i: int|
        0 <= i < 36 ==> if i == 8 || i == 13 || i == 18 || i == 23 {
            #[trigger] s[i] == '-'
        } else {
            is_hex_char(s[i])
        }
}

pub open spec fn ascii_lower(c: char) -> char {
    if 'A' <= c && c <= 'Z' {
        ((c as u32) + 32) as char
    } else {
        c
    }
}

/// The `urn:uuid:` prefix, in any case of its letters.
pub open spec fn is_urn_prefix(s: Seq<char>) -> bool {
    s.len() == 9 && forall|i: int| 0 <= i < 9 ==> ascii_lower(#[trigger] s[i]) == "urn:uuid:"@[i]
}

/// What `uuid::Uuid::parse_str` accepts: a simple or a hyphenated UUID, the
/// latter also in braces or after a `urn:uuid:` prefix.
pub open spec fn is_uuid_text(s: Seq<char>) -> bool {
    ||| is_simple_uuid(s)
    ||| is_hyphenated_uuid(s)
    ||| (s.len() == 38 && s[0] == '{' && s[37] == '}' && is_hyphenated_uuid(s.subrange(1, 37)))
    ||| (s.len() == 45 && is_urn_prefix(s.subrange(0, 9)) && is_hyphenated_uuid(s.subrange(9, 45)))
}

/// Relies on `uuid::Uuid::parse_str` (its `try_parse`): it accepts by length
/// 32, 36, 38 or 45 bytes exactly the forms of `is_uuid_text`, where a hex
/// digit is `0-9`, `a-f` or `A-F`; anything it accepts is ASCII, so bytes and
/// characters agree.
#[verifier::external_body]
fn uuid_accepts(s: &str) -> (r: bool)
    ensures
        r == is_uuid_text(s@),
{
    uuid::Uuid::parse_str(s).is_ok()
}

/// Relies on `uuid::Uuid::new_v4`, written in its hyphenated form (lower-case
/// hex in groups of 8, 4, 4, 4 and 12).
#[verifier::external_body]
fn random_uuid_text() -> (r: String)
    ensures
        is_hyphenated_uuid(r@),
{
    uuid::Uuid::new_v4().to_string()
}

/// Relies on `rand::random`; nothing is known of the value drawn.
pub assume_specification<T>[ rand::random::<T> ]() -> (r: T)
    where
        rand::distributions::Standard: rand::distributions::Distribution<T>,
;

/// Identifies one login attempt that waits for its second factor: a UUID.
#[derive(Debug, Eq)]
pub struct LoginAttemptId {
    value: String,
}

impl View for LoginAttemptId {
    type V = Seq<char>;

    closed spec fn view(&self) -> Seq<char> {
        self.value@
    }
}

impl Clone for LoginAttemptId {
    fn clone(&self) -> (r: LoginAttemptId)
        ensures
            r@ == self@,
    {
        proof {
            use_type_invariant(self);
        }
        LoginAttemptId { value: self.value.clone() }
    }
}

impl PartialEq for LoginAttemptId {
    fn eq(&self, other: &LoginAttemptId) -> (r: bool) {
        self.value == other.value
    }
}

impl vstd::std_specs::cmp::PartialEqSpecImpl for LoginAttemptId {
    open spec fn obeys_eq_spec() -> bool {
        true
    }

    open spec fn eq_spec(&self, other: &LoginAttemptId) -> bool {
        self@ == other@
    }
}

impl Default for LoginAttemptId {
    /// A fresh random identifier.
    fn default() -> (r: LoginAttemptId)
        ensures
            is_hyphenated_uuid(r@),
            is_uuid_text(r@),
    {
        LoginAttemptId { value: random_uuid_text() }
    }
}

impl LoginAttemptId {
    #[verifier::type_invariant]
    spec fn inv(&self) -> bool {
        is_uuid_text(self.value@)
    }

    pub fn parse(id: &str) -> (r: Result<LoginAttemptId, ValidationError>)
        ensures
            r is Ok <==> is_uuid_text(id@),
            r is Ok ==> r->Ok_0@ == id@,
            r is Err ==> r->Err_0 == ValidationError::InvalidAttemptId,
    {
        if uuid_accepts(id) {
            Ok(LoginAttemptId { value: id.to_owned() })
        } else {
            Err(ValidationError::InvalidAttemptId)
        }
    }

    /// The identifier's text, read explicitly.
    pub fn as_ref(&self) -> (r: &str)
        ensures
            r@ == self@,
            is_uuid_text(self@),
    {
        proof {
            use_type_invariant(self);
        }
        self.value.as_str()
    }
}

pub open spec fn is_ascii_digit(c: char) -> bool {
    '0' <= c && c <= '9'
}

/// Exactly six characters, each an ASCII digit.
pub open spec fn is_code_text(s: Seq<char>) -> bool {
    s.len() == 6 && forall|i: int| 0 <= i < s.len() ==> is_ascii_digit(#[trigger] s[i])
}

/// A one-time second-factor code: six ASCII digits.
#[derive(Debug, Eq)]
pub struct TwoFACode {
    value: String,
}

impl View for TwoFACode {
    type V = Seq<char>;

    closed spec fn view(&self) -> Seq<char> {
        self.value@
    }
}

impl Clone for TwoFACode {
    fn clone(&self) -> (r: TwoFACode)
        ensures
            r@ == self@,
    {
        proof {
            use_type_invariant(self);
        }
        TwoFACode { value: self.value.clone() }
    }
}

impl PartialEq for TwoFACode {
    fn eq(&self, other: &TwoFACode) -> (r: bool) {
        self.value == other.value
    }
}

impl vstd::std_specs::cmp::PartialEqSpecImpl for TwoFACode {
    open spec fn obeys_eq_spec() -> bool {
        true
    }

    open spec fn eq_spec(&self, other: &TwoFACode) -> bool {
        self@ == other@
    }
}

impl Default for TwoFACode {
    /// Six digits drawn at random.
    fn default() -> (r: TwoFACode)
        ensures
            is_code_text(r@),
    {
        let digits = "0123456789";
        proof {
            reveal_strlit("0123456789");
        }
        assert(digits.is_ascii());
        assert(digits@.len() == 10);
        assert(forall|j: int| 0 <= j < 10 ==> is_ascii_digit(#[trigger] digits@[j]));
        let mut code = String::new();
        let mut i: usize = 0;
        while i < 6
            invariant
                i <= 6,
                code@.len() == i,
                digits@.len() == 10,
                forall|j: int| 0 <= j < 10 ==> is_ascii_digit(#[trigger] digits@[j]),
                digits.is_ascii(),
                forall|j: int| 0 <= j < i ==> is_ascii_digit(#[trigger] code@[j]),
            decreases 6 - i,
        {
            let k: usize = (rand::random::<u8>() % 10) as usize;
            let d = digits.substring_ascii(k, k + 1);
            assert(d@[0] == digits@[k as int]);
            let ghost before = code@;
            code.append(d);
            assert(code@ == before + d@);
            i = i + 1;
        }
        TwoFACode { value: code }
    }
}

impl TwoFACode {
    #[verifier::type_invariant]
    spec fn inv(&self) -> bool {
        is_code_text(self.value@)
    }

    /// Parses a code: a text that is not six bytes long has the wrong length;
    /// one of six bytes that are not all ASCII digits is not a code.
    pub fn parse(code: &str) -> (r: Result<TwoFACode, ValidationError>)
        ensures
            r is Ok <==> is_code_text(code@),
            r is Ok ==> r->Ok_0@ == code@,
            byte_len(code@) != 6 ==> r == Err::<TwoFACode, ValidationError>(
                ValidationError::InvalidCode(CodeDefect::Length),
            ),
            byte_len(code@) == 6 && !is_code_text(code@) ==> r == Err::<TwoFACode, ValidationError>(
                ValidationError::InvalidCode(CodeDefect::NotDigits),
            ),
    {
        proof {
            if is_code_text(code@) {
                assert(is_ascii_chars(code@));
                is_ascii_chars_encode_utf8(code@);
            }
        }
        if code.len() != 6 {
            return Err(ValidationError::InvalidCode(CodeDefect::Length));
        }
        if !code.is_ascii() || code.unicode_len() != 6 {
            return Err(ValidationError::InvalidCode(CodeDefect::NotDigits));
        }
        let mut i: usize = 0;
        while i < 6
            invariant
                i <= 6,
                code@.len() == 6,
                byte_len(code@) == 6,
                forall|j: int| 0 <= j < i ==> is_ascii_digit(#[trigger] code@[j]),
            decreases 6 - i,
        {
            let c = code.get_char(i);
            if !('0' <= c && c <= '9') {
                return Err(ValidationError::InvalidCode(CodeDefect::NotDigits));
            }
            i = i + 1;
        }
        Ok(TwoFACode { value: code.to_owned() })
    }

    /// The code's digits, read explicitly.
    pub fn as_ref(&self) -> (r: &str)
        ensures
            r@ == self@,
            is_code_text(self@),
    {
        proof {
            use_type_invariant(self);
        }
        self.value.as_str()
    }
}

} // verus!
