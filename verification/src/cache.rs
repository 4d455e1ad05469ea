//! A cache of values by text whose entries expire.

use vstd::prelude::*;
use vstd::string::*;

use crate::text::same_text;

verus! {

/// A value of the cache, under its key, with the reading of the clock until which it is live.
#[derive(Debug)]
pub struct CacheEntry<V> {
    pub key: String,
    pub value: V,
    pub expires_at: u64,
}

/// A cache of values by text, with one entry at most for a key. Times are readings of one
/// monotonic clock, in nanoseconds.
#[derive(Debug)]
pub struct ExpiringCache<V> {
    entries: Vec<CacheEntry<V>>,
}

/// What the cache holds for a key.
pub struct Cached<V> {
    pub value: V,
    pub expires_at: u64,
}

/// The place of `key` in `entries`.
spec fn place<V>(entries: Seq<CacheEntry<V>>, key: Seq<char>, i: int) -> bool {
    0 <= i < entries.len() && entries[i].key@ == key
}

impl<V> View for ExpiringCache<V> {
    type V = Map<Seq<char>, Cached<V>>;

    closed spec fn view(&self) -> Map<Seq<char>, Cached<V>> {
        Map::new(
            |key: Seq<char>| exists|i: int| place(self.entries@, key, i),
            |key: Seq<char>|
                {
                    let e = self.entries@[choose|i: int| place(self.entries@, key, i)];
                    Cached { value: e.value, expires_at: e.expires_at }
                },
        )
    }
}

/// The value that is live for `key` at the time `now`.
pub open spec fn live<V>(cache: Map<Seq<char>, Cached<V>>, key: Seq<char>, now: u64) -> Option<V> {
    if cache.contains_key(key) && now <= cache[key].expires_at {
        Some(cache[key].value)
    } else {
        None
    }
}

/// The time at which a value that is stored at `now` for `ttl` nanoseconds expires.
pub open spec fn deadline(now: u64, ttl: u64) -> u64 {
    if now + ttl <= u64::MAX {
        (now + ttl) as u64
    } else {
        u64::MAX
    }
}

impl<V> ExpiringCache<V> {
    #[verifier::type_invariant]
    spec fn distinct(self) -> bool {
        forall|i: int, j: int|
            0 <= i < j < self.entries@.len() ==> (#[trigger] self.entries@[i]).key@ != (
            #[trigger] self.entries@[j]).key@
    }

    /// The entry at `i` is what the cache holds for its key.
    proof fn lemma_at(self, i: int)
        requires
            self.distinct(),
            0 <= i < self.entries@.len(),
        ensures
            self@.contains_key(self.entries@[i].key@),
            self@[self.entries@[i].key@] == (Cached {
                value: self.entries@[i].value,
                expires_at: self.entries@[i].expires_at,
            }),
    {
        let key = self.entries@[i].key@;
        assert(place(self.entries@, key, i));
        let j = choose|j: int| place(self.entries@, key, j);
        assert(place(self.entries@, key, j));
        assert(self.entries@[i].key@ == self.entries@[j].key@);
    }

    /// An empty cache.
    pub fn new() -> (r: ExpiringCache<V>)
        ensures
            r@ == Map::<Seq<char>, Cached<V>>::empty(),
    {
        let r = ExpiringCache { entries: Vec::new() };
        assert(r@ =~= Map::<Seq<char>, Cached<V>>::empty());
        r
    }

    /// Where `key` stands.
    fn position(&self, key: &str) -> (r: Option<usize>)
        ensures
            r matches Some(i) ==> place(self.entries@, key@, i as int),
            r is None ==> forall|i: int| !place(self.entries@, key@, i),
    {
        let mut i: usize = 0;
        while i < self.entries.len()
            invariant
                i <= self.entries@.len(),
                forall|j: int| 0 <= j < i ==> (#[trigger] self.entries@[j]).key@ != key@,
            decreases self.entries.len() - i,
        {
            if same_text(self.entries[i].key.as_str(), key) {
                return Some(i);
            }
            i = i + 1;
        }
        None
    }

    /// The value that is live for `key`.
    pub fn get(&self, key: &str, now: u64) -> (r: Option<&V>)
        ensures
            r is Some <==> live(self@, key@, now) is Some,
            r matches Some(v) ==> live(self@, key@, now) == Some(*v),
    {
        proof {
            use_type_invariant(self);
        }
        match self.position(key) {
            Some(i) => {
                proof {
                    self.lemma_at(i as int);
                }
                if now <= self.entries[i].expires_at {
                    Some(&self.entries[i].value)
                } else {
                    None
                }
            },
            None => None,
        }
    }

    /// Takes `key` out, and hands out its value if that is live.
    pub fn remove(&mut self, key: &str, now: u64) -> (r: Option<V>)
        ensures
            r == live(old(self)@, key@, now),
            final(self)@ == old(self)@.remove(key@),
    {
        proof {
            use_type_invariant(&*self);
        }
        let found = self.position(key);
        let mut entries: Vec<CacheEntry<V>> = Vec::new();
        std::mem::swap(&mut entries, &mut self.entries);
        match found {
            Some(i) => {
                let ghost before = ExpiringCache { entries };
                proof {
                    before.lemma_at(i as int);
                }
                let e = entries.remove(i);
                assert forall|a: int, b: int| 0 <= a < b < entries@.len() implies (
                #[trigger] entries@[a]).key@ != (#[trigger] entries@[b]).key@ by {
                    let x = if a < i { a } else { a + 1 };
                    let y = if b < i { b } else { b + 1 };
                    assert(entries@[a] == before.entries@[x]);
                    assert(entries@[b] == before.entries@[y]);
                }
                *self = ExpiringCache { entries };
                proof {
                    let after = *self;
                    assert forall|k: Seq<char>| after@.contains_key(k) <==> before@.remove(
                        key@,
                    ).contains_key(k) by {
                        if after@.contains_key(k) {
                            let a = choose|a: int| place(after.entries@, k, a);
                            let x = if a < i { a } else { a + 1 };
                            assert(after.entries@[a] == before.entries@[x]);
                            assert(place(before.entries@, k, x));
                            assert(before.entries@[x].key@ != before.entries@[i as int].key@);
                        }
                        if before@.remove(key@).contains_key(k) {
                            let x = choose|x: int| place(before.entries@, k, x);
                            let a = if x < i { x } else { x - 1 };
                            assert(after.entries@[a] == before.entries@[x]);
                            assert(place(after.entries@, k, a));
                        }
                    }
                    assert forall|k: Seq<char>| after@.contains_key(k) implies #[trigger] after@[k]
                        == before@.remove(key@)[k] by {
                        let a = choose|a: int| place(after.entries@, k, a);
                        let x = if a < i { a } else { a + 1 };
                        assert(after.entries@[a] == before.entries@[x]);
                        after.lemma_at(a);
                        before.lemma_at(x);
                    }
                    assert(after@ =~= before@.remove(key@));
                }
                if now <= e.expires_at {
                    Some(e.value)
                } else {
                    None
                }
            },
            None => {
                *self = ExpiringCache { entries };
                assert(self@ =~= old(self)@.remove(key@));
                None
            },
        }
    }

    /// Stores `value` for `key`, live for `ttl` nanoseconds from `now` on.
    pub fn insert(&mut self, key: String, value: V, ttl: u64, now: u64)
        ensures
            final(self)@ == old(self)@.insert(
                key@,
                Cached { value, expires_at: deadline(now, ttl) },
            ),
    {
        let ghost before = self@;
        let _ = self.remove(key.as_str(), now);
        proof {
            use_type_invariant(&*self);
        }
        let ghost middle = *self;
        let ghost k0 = key@;
        let expires_at: u64 = now.saturating_add(ttl);
        let mut entries: Vec<CacheEntry<V>> = Vec::new();
        std::mem::swap(&mut entries, &mut self.entries);
        entries.push(CacheEntry { key, value, expires_at });
        assert forall|a: int, b: int| 0 <= a < b < entries@.len() implies (
        #[trigger] entries@[a]).key@ != (#[trigger] entries@[b]).key@ by {
            assert(entries@[a] == middle.entries@[a]);
            if b < middle.entries@.len() {
                assert(entries@[b] == middle.entries@[b]);
            } else {
                middle.lemma_at(a);
            }
        }
        *self = ExpiringCache { entries };
        proof {
            let after = *self;
            let n = middle.entries@.len() as int;
            let goal = before.insert(k0, Cached { value, expires_at });
            assert(after.entries@[n].key@ == k0);
            after.lemma_at(n);
            assert forall|k: Seq<char>| after@.contains_key(k) <==> goal.contains_key(k) by {
                if after@.contains_key(k) && k != k0 {
                    let a = choose|a: int| place(after.entries@, k, a);
                    assert(after.entries@[a] == middle.entries@[a]);
                    assert(place(middle.entries@, k, a));
                    assert(middle@.contains_key(k));
                }
                if goal.contains_key(k) && k != k0 {
                    assert(middle@.contains_key(k));
                    let a = choose|a: int| place(middle.entries@, k, a);
                    assert(after.entries@[a] == middle.entries@[a]);
                    assert(place(after.entries@, k, a));
                }
            }
            assert forall|k: Seq<char>| after@.contains_key(k) implies #[trigger] after@[k]
                == goal[k] by {
                if k != k0 {
                    let a = choose|a: int| place(after.entries@, k, a);
                    assert(after.entries@[a] == middle.entries@[a]);
                    after.lemma_at(a);
                    middle.lemma_at(a);
                }
            }
            assert(after@ =~= goal);
        }
    }
}

} // verus!
