//! The token store: which tokens are known, and when each runs out.

use vstd::prelude::*;

verus! {

/// One known token and the time at which it runs out.
struct TokenEntry<Time> {
    token: String,
    expiry: Time,
}

/// A map from token to expiry, whatever the context takes for time.
///
/// The entries are kept in a list that is searched from the front. A store
/// that was made by [`TokenStore::new`] and filled by [`TokenStore::insert`]
/// holds no token twice: see [`TokenStore::wf`].
pub struct TokenStore<Time> {
    entries: Vec<TokenEntry<Time>>,
}

impl<Time> View for TokenStore<Time> {
    type V = Map<Seq<char>, Time>;

    closed spec fn view(&self) -> Map<Seq<char>, Time> {
        Map::new(
            |token: Seq<char>| exists|i: int| self.holds_at(token, i),
            |token: Seq<char>| self.entries[self.first(token)].expiry,
        )
    }
}

impl<Time> TokenStore<Time> {
    /// The entry at `i` is that of `token`.
    closed spec fn holds_at(&self, token: Seq<char>, i: int) -> bool {
        0 <= i < self.entries.len() && self.entries[i].token@ == token
    }

    /// The entry at `i` is the first one of `token`.
    closed spec fn holds_first_at(&self, token: Seq<char>, i: int) -> bool {
        self.holds_at(token, i) && forall|j: int| 0 <= j < i ==> !self.holds_at(token, j)
    }

    /// Where the first entry of `token` is.
    closed spec fn first(&self, token: Seq<char>) -> int {
        choose|i: int| self.holds_first_at(token, i)
    }

    /// No token is held twice.
    pub closed spec fn wf(&self) -> bool {
        forall|i: int, j: int|
            0 <= i < j < self.entries.len() ==> (#[trigger] self.entries[i]).token@
                != (#[trigger] self.entries[j]).token@
    }

    /// The first entry of a token is where the search from the front finds it.
    proof fn first_is(&self, token: Seq<char>, i: int)
        requires
            self.holds_first_at(token, i),
        ensures
            self.first(token) == i,
            self@.contains_key(token),
            self@[token] == self.entries[i].expiry,
    {
        let p = self.first(token);
        assert(self.holds_first_at(token, p));
        if p < i {
            assert(!self.holds_at(token, p));
        } else if i < p {
            assert(!self.holds_at(token, i));
        }
        assert(self.holds_at(token, i));
    }

    /// A store that knows no token.
    pub fn new() -> (store: TokenStore<Time>)
        ensures
            store.wf(),
            (store@ == Map::<Seq<char>, Time>::empty()),
    {
        let store = TokenStore { entries: Vec::new() };
        assert(store@ =~= Map::<Seq<char>, Time>::empty()) by {
            assert(forall|token: Seq<char>, i: int| !store.holds_at(token, i));
        }
        store
    }

    /// Where `token` is held first, by search from the front.
    fn find(&self, token: &String) -> (found: Option<usize>)
        ensures
            match found {
                Some(i) => self.holds_first_at(token@, i as int),
                None => forall|i: int| !self.holds_at(token@, i),
            },
    {
        let mut i: usize = 0;
        while i < self.entries.len()
            invariant
                i <= self.entries.len(),
                forall|j: int| 0 <= j < i ==> !self.holds_at(token@, j),
            decreases self.entries.len() - i,
        {
            if self.entries[i].token == *token {
                return Some(i);
            }
            i = i + 1;
        }
        None
    }

    /// The expiry of `token`, if the token is known.
    pub fn get(&self, token: &String) -> (expiry: Option<Time>) where Time: Copy
        ensures
            expiry == if self@.contains_key(token@) {
                Some(self@[token@])
            } else {
                None
            },
    {
        match self.find(token) {
            Some(i) => {
                proof {
                    self.first_is(token@, i as int);
                }
                Some(self.entries[i].expiry)
            },
            None => None,
        }
    }

    /// Makes `token` known with `expiry`, in place of what was known of it.
    /// Hands back the expiry that was known before.
    pub fn insert(&mut self, token: String, expiry: Time) -> (before: Option<Time>) where
        Time: Copy,
        ensures
            final(self)@ == old(self)@.insert(token@, expiry),
            before == if old(self)@.contains_key(token@) {
                Some(old(self)@[token@])
            } else {
                None
            },
            old(self).wf() ==> final(self).wf(),
    {
        let ghost held = *self;
        let ghost key = token@;
        let found = self.find(&token);
        let before = match found {
            Some(i) => {
                proof {
                    held.first_is(key, i as int);
                }
                let before = self.entries[i].expiry;
                self.entries.set(i, TokenEntry { token, expiry });
                Some(before)
            },
            None => {
                self.entries.push(TokenEntry { token, expiry });
                None
            },
        };
        proof {
            let n = held.entries.len() as int;
            let at: int = match found {
                Some(i) => i as int,
                None => n,
            };
            assert(self.holds_first_at(key, at)) by {
                assert(self.holds_at(key, at));
                assert forall|j: int| 0 <= j < at implies !self.holds_at(key, j) by {
                    assert(!held.holds_at(key, j));
                }
            }
            self.first_is(key, at);
            assert forall|other: Seq<char>, p: int| other != key implies self.holds_at(other, p)
                == held.holds_at(other, p) by {}
            assert forall|other: Seq<char>| other != key && held@.contains_key(
                other,
            ) implies self@.contains_key(other) && self@[other] == held@[other] by {
                let w = choose|i: int| held.holds_at(other, i);
                held.has_first(other, w);
                let p = choose|p: int| held.holds_first_at(other, p);
                held.first_is(other, p);
                assert(self.holds_first_at(other, p)) by {
                    assert(self.holds_at(other, p) == held.holds_at(other, p));
                    assert forall|j: int| 0 <= j < p implies !self.holds_at(other, j) by {
                        assert(!held.holds_at(other, j));
                    }
                }
                self.first_is(other, p);
                assert(p != at);
            }
            assert forall|other: Seq<char>| other != key && self@.contains_key(
                other,
            ) implies held@.contains_key(other) by {
                let w = choose|i: int| self.holds_at(other, i);
                assert(held.holds_at(other, w));
            }
            assert(self@ =~= held@.insert(key, expiry));
            if held.wf() {
                assert forall|a: int, b: int| 0 <= a < b < self.entries.len() implies (
                #[trigger] self.entries[a]).token@ != (#[trigger] self.entries[b]).token@ by {
                    if found is Some {
                        assert(held.entries[a].token@ != held.entries[b].token@);
                    } else if b < n {
                        assert(held.entries[a].token@ != held.entries[b].token@);
                    } else {
                        assert(!held.holds_at(key, a));
                    }
                }
            }
        }
        before
    }

    /// A token that is held somewhere is held first somewhere.
    proof fn has_first(&self, token: Seq<char>, i: int)
        requires
            self.holds_at(token, i),
        ensures
            exists|p: int| self.holds_first_at(token, p),
        decreases i,
    {
        if exists|j: int| 0 <= j < i && self.holds_at(token, j) {
            let j = choose|j: int| 0 <= j < i && self.holds_at(token, j);
            self.has_first(token, j);
        } else {
            assert(self.holds_first_at(token, i));
        }
    }
}

} // verus!
