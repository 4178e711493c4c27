use vstd::prelude::*;

use crate::data_stores::BannedTokenStore;
use crate::hashmap_user_store::string_eq;

verus! {

/// A revoked-token store in memory, for tests and single-process use.
pub struct HashSetBannedTokenStore {
    pub banned_tokens: Vec<String>,
}

impl HashSetBannedTokenStore {
    pub fn new() -> (r: HashSetBannedTokenStore)
        ensures
            r.banned() == Set::<Seq<char>>::empty(),
    {
        let r = HashSetBannedTokenStore { banned_tokens: Vec::new() };
        assert(r.banned() =~= Set::<Seq<char>>::empty());
        r
    }
}

impl Default for HashSetBannedTokenStore {
    fn default() -> (r: HashSetBannedTokenStore)
        ensures
            r.banned() == Set::<Seq<char>>::empty(),
    {
        HashSetBannedTokenStore::new()
    }
}

impl BannedTokenStore for HashSetBannedTokenStore {
    open spec fn banned(&self) -> Set<Seq<char>> {
        Set::new(
            |t: Seq<char>|
                exists|i: int|
                    0 <= i < self.banned_tokens@.len() && (#[trigger] self.banned_tokens@[i])@ == t,
        )
    }

    fn store_token(&mut self, token: &str) -> (r: bool)
        ensures
            r,
    {
        if self.is_token_banned(token) {
            assert(self.banned() =~= old(self).banned().insert(token@));
            return true;
        }
        self.banned_tokens.push(token.to_owned());
        assert(self.banned_tokens@[self.banned_tokens@.len() - 1]@ == token@);
        assert forall|t: Seq<char>| #[trigger]
            self.banned().contains(t) <==> old(self).banned().insert(token@).contains(t) by {
            if old(self).banned().contains(t) {
                let i = choose|i: int|
                    0 <= i < old(self).banned_tokens@.len() && (#[trigger] old(
                        self,
                    ).banned_tokens@[i])@ == t;
                assert(self.banned_tokens@[i]@ == t);
            }
        }
        assert(self.banned() =~= old(self).banned().insert(token@));
        true
    }

    fn is_token_banned(&self, token: &str) -> (r: bool) {
        let mut i: usize = 0;
        while i < self.banned_tokens.len()
            invariant
                i <= self.banned_tokens@.len(),
                forall|j: int| 0 <= j < i ==> (#[trigger] self.banned_tokens@[j])@ != token@,
            decreases self.banned_tokens@.len() - i,
        {
            if string_eq(self.banned_tokens[i].as_str(), token) {
                return true;
            }
            i = i + 1;
        }
        false
    }
}

} // verus!
