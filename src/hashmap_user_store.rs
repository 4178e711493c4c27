use vstd::prelude::*;

use crate::data_stores::{stores_user, UserStore};
use crate::email::Email;
use crate::error::UserStoreError;
use crate::password_hasher::{compute_password_hash, verify_password_hash};
use crate::user::{StoredUser, StoredUserView, User};

verus! {

/// A user store in memory, for tests and single-process use. Passwords are
/// kept only as Argon2id hashes.
pub struct HashmapUserStore {
    users: Vec<StoredUser>,
    model: Ghost<Map<Seq<char>, StoredUserView>>,
}

impl HashmapUserStore {
    /// Emails are unique in the vector, and the model maps each email held to its record.
    spec fn wf(&self) -> bool {
        &&& forall|i: int, j: int|
            0 <= i < j < self.users@.len() ==> (#[trigger] self.users@[i]).email@
                != (#[trigger] self.users@[j]).email@
        &&& forall|k: Seq<char>|
            #![trigger self.model@.contains_key(k)]
            self.model@.contains_key(k) <==> exists|i: int|
                0 <= i < self.users@.len() && (#[trigger] self.users@[i]).email@ == k
        &&& forall|i: int|
            0 <= i < self.users@.len() ==> self.model@[(#[trigger] self.users@[i]).email@]
                == self.users@[i]@
    }

    pub fn new() -> (r: HashmapUserStore)
        ensures
            r.inv(),
            r.users() == Map::<Seq<char>, StoredUserView>::empty(),
    {
        HashmapUserStore { users: Vec::new(), model: Ghost(Map::empty()) }
    }

    /// The position of the user with this email, if any.
    fn position(&self, email: &Email) -> (r: Option<usize>)
        requires
            self.wf(),
        ensures
            r is Some ==> r->Some_0 < self.users@.len() && self.users@[r->Some_0 as int].email@
                == email@,
            r is None <==> !self.model@.contains_key(email@),
    {
        let mut i: usize = 0;
        while i < self.users.len()
            invariant
                self.wf(),
                i <= self.users@.len(),
                forall|j: int| 0 <= j < i ==> self.users@[j].email@ != email@,
            decreases self.users@.len() - i,
        {
            if self.users[i].email == *email {
                return Some(i);
            }
            i = i + 1;
        }
        None
    }
}

impl Default for HashmapUserStore {
    fn default() -> (r: HashmapUserStore)
        ensures
            r.inv(),
            r.users() == Map::<Seq<char>, StoredUserView>::empty(),
    {
        HashmapUserStore::new()
    }
}

impl UserStore for HashmapUserStore {
    closed spec fn inv(&self) -> bool {
        self.wf()
    }

    closed spec fn users(&self) -> Map<Seq<char>, StoredUserView> {
        self.model@
    }

    fn add_user(&mut self, user: User) -> (r: Result<(), UserStoreError>) {
        if self.position(&user.email).is_some() {
            return Err(UserStoreError::UserAlreadyExists);
        }
        let password_hash = match compute_password_hash(&user.password) {
            Ok(hash) => hash,
            Err(_) => return Err(UserStoreError::UnexpectedError),
        };
        let record = StoredUser { email: user.email, password_hash, requires_2fa: user.requires_2fa };
        let ghost key = record.email@;
        let ghost value = record@;
        assert(stores_user(value, user@));
        let ghost old_users = self.users@;
        self.users.push(record);
        self.model = Ghost(self.model@.insert(key, value));
        assert forall|k: Seq<char>|
            self.model@.contains_key(k) <==> exists|i: int|
                0 <= i < self.users@.len() && (#[trigger] self.users@[i]).email@ == k by {
            if k == key {
                assert(self.users@[old_users.len() as int].email@ == k);
            } else if old(self).model@.contains_key(k) {
                let i = choose|i: int| 0 <= i < old_users.len() && (#[trigger] old_users[i]).email@ == k;
                assert(self.users@[i].email@ == k);
            }
        }
        Ok(())
    }

    fn get_user(&self, email: &str) -> (r: Result<StoredUser, UserStoreError>) {
        let email = match Email::parse(email) {
            Ok(e) => e,
            Err(_) => return Err(UserStoreError::InvalidCredentials),
        };
        match self.position(&email) {
            Some(i) => Ok(self.users[i].clone()),
            None => Err(UserStoreError::UserNotFound),
        }
    }

    fn validate_user(&self, email: &str, password: &str) -> (r: Result<(), UserStoreError>) {
        let email = match Email::parse(email) {
            Ok(e) => e,
            Err(_) => return Err(UserStoreError::InvalidCredentials),
        };
        match self.position(&email) {
            Some(i) => {
                assert(self.model@[self.users@[i as int].email@] == self.users@[i as int]@);
                verify_password_hash(self.users[i].password_hash.as_str(), password)
            },
            None => Err(UserStoreError::UserNotFound),
        }
    }

    fn delete_user(&mut self, email: &str) -> (r: Result<(), UserStoreError>) {
        let email = match Email::parse(email) {
            Ok(e) => e,
            Err(_) => return Err(UserStoreError::InvalidCredentials),
        };
        match self.position(&email) {
            Some(i) => {
                let ghost key = email@;
                let ghost old_users = self.users@;
                self.users.remove(i);
                self.model = Ghost(self.model@.remove(key));
                assert forall|k: Seq<char>|
                    self.model@.contains_key(k) <==> exists|j: int|
                        0 <= j < self.users@.len() && (#[trigger] self.users@[j]).email@ == k by {
                    if k != key && old(self).model@.contains_key(k) {
                        let j = choose|j: int|
                            0 <= j < old_users.len() && (#[trigger] old_users[j]).email@ == k;
                        if j < i {
                            assert(self.users@[j].email@ == k);
                        } else {
                            assert(self.users@[j - 1].email@ == k);
                        }
                    }
                    if exists|j: int| 0 <= j < self.users@.len() && (#[trigger] self.users@[j]).email@ == k {
                        let j = choose|j: int|
                            0 <= j < self.users@.len() && (#[trigger] self.users@[j]).email@ == k;
                        if j < i {
                            assert(old_users[j].email@ == k);
                        } else {
                            assert(old_users[j + 1].email@ == k);
                        }
                    }
                }
                Ok(())
            },
            None => Err(UserStoreError::UserNotFound),
        }
    }
}

/// Whether two texts are the same.
pub(crate) fn string_eq(a: &str, b: &str) -> (r: bool)
    ensures
        r == (a@ == b@),
{
    let n = a.unicode_len();
    if n != b.unicode_len() {
        return false;
    }
    let mut i: usize = 0;
    while i < n
        invariant
            n == a@.len() == b@.len(),
            i <= n,
            forall|j: int| 0 <= j < i ==> a@[j] == b@[j],
        decreases n - i,
    {
        if a.get_char(i) != b.get_char(i) {
            return false;
        }
        i = i + 1;
    }
    assert(a@ =~= b@);
    true
}

} // verus!
