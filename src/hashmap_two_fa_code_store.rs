use vstd::prelude::*;

use crate::data_stores::TwoFACodeStore;
use crate::email::Email;
use crate::error::TwoFACodeStoreError;
use crate::two_fa::{LoginAttemptId, TwoFACode};

verus! {

/// One pending challenge.
struct CodeEntry {
    email: Email,
    login_attempt_id: LoginAttemptId,
    code: TwoFACode,
}

impl CodeEntry {
    spec fn pair(&self) -> (Seq<char>, Seq<char>) {
        (self.login_attempt_id@, self.code@)
    }
}

/// A second-factor challenge store in memory, for tests and single-process use.
pub struct HashmapTwoFACodeStore {
    codes: Vec<CodeEntry>,
    model: Ghost<Map<Seq<char>, (Seq<char>, Seq<char>)>>,
}

impl HashmapTwoFACodeStore {
    /// Emails are unique in the vector, and the model maps each email held to its challenge.
    spec fn wf(&self) -> bool {
        &&& forall|i: int, j: int|
            0 <= i < j < self.codes@.len() ==> (#[trigger] self.codes@[i]).email@
                != (#[trigger] self.codes@[j]).email@
        &&& forall|k: Seq<char>|
            #![trigger self.model@.contains_key(k)]
            self.model@.contains_key(k) <==> exists|i: int|
                0 <= i < self.codes@.len() && (#[trigger] self.codes@[i]).email@ == k
        &&& forall|i: int|
            0 <= i < self.codes@.len() ==> self.model@[(#[trigger] self.codes@[i]).email@]
                == self.codes@[i].pair()
    }

    pub fn new() -> (r: HashmapTwoFACodeStore)
        ensures
            r.inv(),
            r.codes() == Map::<Seq<char>, (Seq<char>, Seq<char>)>::empty(),
    {
        HashmapTwoFACodeStore { codes: Vec::new(), model: Ghost(Map::empty()) }
    }

    /// The position of the challenge of this email, if any.
    fn position(&self, email: &Email) -> (r: Option<usize>)
        requires
            self.wf(),
        ensures
            r is Some ==> r->Some_0 < self.codes@.len() && self.codes@[r->Some_0 as int].email@
                == email@,
            r is None <==> !self.model@.contains_key(email@),
    {
        let mut i: usize = 0;
        while i < self.codes.len()
            invariant
                self.wf(),
                i <= self.codes@.len(),
                forall|j: int| 0 <= j < i ==> self.codes@[j].email@ != email@,
            decreases self.codes@.len() - i,
        {
            if self.codes[i].email == *email {
                return Some(i);
            }
            i = i + 1;
        }
        None
    }
}

impl Default for HashmapTwoFACodeStore {
    fn default() -> (r: HashmapTwoFACodeStore)
        ensures
            r.inv(),
            r.codes() == Map::<Seq<char>, (Seq<char>, Seq<char>)>::empty(),
    {
        HashmapTwoFACodeStore::new()
    }
}

impl TwoFACodeStore for HashmapTwoFACodeStore {
    closed spec fn inv(&self) -> bool {
        self.wf()
    }

    closed spec fn codes(&self) -> Map<Seq<char>, (Seq<char>, Seq<char>)> {
        self.model@
    }

    fn add_code(&mut self, email: Email, login_attempt_id: &LoginAttemptId, code: TwoFACode) -> (r:
        Result<(), TwoFACodeStoreError>)
        ensures
            r is Ok,
    {
        let ghost key = email@;
        let ghost value = (login_attempt_id@, code@);
        let ghost old_codes = self.codes@;
        let entry = CodeEntry { email, login_attempt_id: login_attempt_id.clone(), code };
        match self.position(&entry.email) {
            Some(i) => {
                self.codes.set(i, entry);
                self.model = Ghost(self.model@.insert(key, value));
                assert forall|k: Seq<char>|
                    self.model@.contains_key(k) <==> exists|j: int|
                        0 <= j < self.codes@.len() && (#[trigger] self.codes@[j]).email@ == k by {
                    if k == key {
                        assert(self.codes@[i as int].email@ == k);
                    } else if old(self).model@.contains_key(k) {
                        let j = choose|j: int|
                            0 <= j < old_codes.len() && (#[trigger] old_codes[j]).email@ == k;
                        assert(self.codes@[j].email@ == k);
                    }
                    if exists|j: int| 0 <= j < self.codes@.len() && (#[trigger] self.codes@[j]).email@ == k {
                        let j = choose|j: int|
                            0 <= j < self.codes@.len() && (#[trigger] self.codes@[j]).email@ == k;
                        if j != i {
                            assert(old_codes[j].email@ == k);
                        }
                    }
                }
            },
            None => {
                self.codes.push(entry);
                self.model = Ghost(self.model@.insert(key, value));
                assert forall|k: Seq<char>|
                    self.model@.contains_key(k) <==> exists|j: int|
                        0 <= j < self.codes@.len() && (#[trigger] self.codes@[j]).email@ == k by {
                    if k == key {
                        assert(self.codes@[old_codes.len() as int].email@ == k);
                    } else if old(self).model@.contains_key(k) {
                        let j = choose|j: int|
                            0 <= j < old_codes.len() && (#[trigger] old_codes[j]).email@ == k;
                        assert(self.codes@[j].email@ == k);
                    }
                }
            },
        }
        Ok(())
    }

    fn remove_code(&mut self, email: Email) -> (r: Result<(), TwoFACodeStoreError>) {
        match self.position(&email) {
            Some(i) => {
                let ghost key = email@;
                let ghost old_codes = self.codes@;
                self.codes.remove(i);
                self.model = Ghost(self.model@.remove(key));
                assert forall|k: Seq<char>|
                    self.model@.contains_key(k) <==> exists|j: int|
                        0 <= j < self.codes@.len() && (#[trigger] self.codes@[j]).email@ == k by {
                    if k != key && old(self).model@.contains_key(k) {
                        let j = choose|j: int|
                            0 <= j < old_codes.len() && (#[trigger] old_codes[j]).email@ == k;
                        if j < i {
                            assert(self.codes@[j].email@ == k);
                        } else {
                            assert(self.codes@[j - 1].email@ == k);
                        }
                    }
                    if exists|j: int| 0 <= j < self.codes@.len() && (#[trigger] self.codes@[j]).email@ == k {
                        let j = choose|j: int|
                            0 <= j < self.codes@.len() && (#[trigger] self.codes@[j]).email@ == k;
                        if j < i {
                            assert(old_codes[j].email@ == k);
                        } else {
                            assert(old_codes[j + 1].email@ == k);
                        }
                    }
                }
                Ok(())
            },
            None => {
                assert(self.model@.remove(email@) =~= self.model@);
                Err(TwoFACodeStoreError::UnexpectedError)
            },
        }
    }

    fn get_code(&self, email: Email) -> (r: Result<(LoginAttemptId, TwoFACode), TwoFACodeStoreError>) {
        match self.position(&email) {
            Some(i) => {
                let entry = &self.codes[i];
                Ok((entry.login_attempt_id.clone(), entry.code.clone()))
            },
            None => Err(TwoFACodeStoreError::LoginAttemptIdNotFound),
        }
    }
}

} // verus!
