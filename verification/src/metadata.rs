//! Free-form key/value annotations of an endpoint.

use vstd::prelude::*;

verus! {

/// One annotation.
#[derive(Debug)]
pub struct MetadataEntry {
    pub key: String,
    pub value: String,
}

/// A mapping from text keys to text values. No key occurs twice; the
/// order in which keys were inserted carries no meaning.
#[derive(Debug)]
pub struct Metadata {
    entries: Vec<MetadataEntry>,
}

impl View for Metadata {
    type V = Map<Seq<char>, Seq<char>>;

    closed spec fn view(&self) -> Map<Seq<char>, Seq<char>> {
        Map::new(
            |k: Seq<char>| self.holds(k),
            |k: Seq<char>| self.entries@[self.index_of(k)].value@,
        )
    }
}

impl Metadata {
    #[verifier::type_invariant]
    spec fn keys_distinct(self) -> bool {
        forall|i: int, j: int|
            0 <= i < j < self.entries@.len() ==> self.key_at(i) != self.key_at(j)
    }

    spec fn key_at(self, i: int) -> Seq<char> {
        self.entries@[i].key@
    }

    spec fn holds(self, k: Seq<char>) -> bool {
        exists|i: int| 0 <= i < self.entries@.len() && self.key_at(i) == k
    }

    spec fn index_of(self, k: Seq<char>) -> int {
        choose|i: int| 0 <= i < self.entries@.len() && self.key_at(i) == k
    }

    /// The empty mapping.
    pub fn new() -> (m: Metadata)
        ensures
            m@ == Map::<Seq<char>, Seq<char>>::empty(),
    {
        Metadata { entries: Vec::new() }
    }

    /// The position of `key` among the entries, if it is there.
    fn position(&self, key: &String) -> (r: Option<usize>)
        ensures
            match r {
                Some(i) => i < self.entries@.len() && self.key_at(i as int) == key@,
                None => !self.holds(key@),
            },
    {
        let mut i: usize = 0;
        while i < self.entries.len()
            invariant
                i <= self.entries@.len(),
                forall|j: int| 0 <= j < i ==> self.key_at(j) != key@,
            decreases self.entries@.len() - i,
        {
            if self.entries[i].key == *key {
                return Some(i);
            }
            i = i + 1;
        }
        None
    }

    /// Binds `key` to `value`, replacing what `key` was bound to before.
    pub fn insert(&mut self, key: String, value: String)
        ensures
            final(self)@ == old(self)@.insert(key@, value@),
    {
        proof {
            use_type_invariant(&*self);
        }
        let ghost before = *self;
        let ghost n = before.entries@.len() as int;
        let found = self.position(&key);
        let entry = MetadataEntry { key, value };
        let mut entries: Vec<MetadataEntry> = Vec::new();
        core::mem::swap(&mut self.entries, &mut entries);
        match found {
            Some(i) => {
                entries.set(i, entry);
                assert forall|a: int, b: int| 0 <= a < b < entries@.len() implies entries@[a].key@
                    != entries@[b].key@ by {
                    assert(before.key_at(a) != before.key_at(b));
                }
            },
            None => {
                entries.push(entry);
                assert forall|a: int, b: int| 0 <= a < b < entries@.len() implies entries@[a].key@
                    != entries@[b].key@ by {
                    if b < n {
                        assert(before.key_at(a) != before.key_at(b));
                    } else {
                        assert(before.key_at(a) != entry.key@);
                    }
                }
            },
        }
        self.entries = entries;
        proof {
            let after = *self;
            let target = before@.insert(entry.key@, entry.value@);
            let at: int = match found {
                Some(i) => i as int,
                None => n,
            };
            assert(after.key_at(at) == entry.key@);
            assert forall|k: Seq<char>| after@.contains_key(k) == target.contains_key(k) by {
                if before.holds(k) {
                    let j = before.index_of(k);
                    assert(after.key_at(j) == k);
                }
                if after.holds(k) && k != entry.key@ {
                    let j = after.index_of(k);
                    assert(before.key_at(j) == k);
                }
            }
            assert forall|k: Seq<char>| after@.contains_key(k) implies after@[k] == target[k] by {
                let j = after.index_of(k);
                if k != entry.key@ {
                    let j0 = before.index_of(k);
                    assert(j0 == j) by {
                        if j0 < j {
                            assert(before.key_at(j0) != before.key_at(j));
                        } else if j < j0 {
                            assert(before.key_at(j) != before.key_at(j0));
                        }
                    }
                }
            }
        }
    }

    /// The value that `key` is bound to.
    pub fn get(&self, key: &str) -> (r: Option<&String>)
        ensures
            match r {
                Some(v) => self@.contains_key(key@) && v@ == self@[key@],
                None => !self@.contains_key(key@),
            },
    {
        proof {
            use_type_invariant(self);
        }
        let owned = key.to_owned();
        match self.position(&owned) {
            Some(i) => {
                assert(self.index_of(key@) == i);
                Some(&self.entries[i].value)
            },
            None => None,
        }
    }

    /// The annotations, one entry for each key, in no order that carries
    /// meaning.
    pub fn entries(&self) -> (entries: &Vec<MetadataEntry>)
        ensures
            forall|i: int|
                0 <= i < entries@.len() ==> self@.contains_pair(
                    (#[trigger] entries@[i]).key@,
                    entries@[i].value@,
                ),
            forall|i: int, j: int|
                0 <= i < j < entries@.len() ==> entries@[i].key@ != entries@[j].key@,
            forall|k: Seq<char>|
                self@.contains_key(k) ==> exists|i: int|
                    0 <= i < entries@.len() && (#[trigger] entries@[i]).key@ == k,
    {
        proof {
            use_type_invariant(self);
            assert forall|i: int| 0 <= i < self.entries@.len() implies self@.contains_pair(
                (#[trigger] self.entries@[i]).key@,
                self.entries@[i].value@,
            ) by {
                assert(self.index_of(self.key_at(i)) == i);
            }
            assert forall|i: int, j: int| 0 <= i < j < self.entries@.len() implies self.entries@[i].key@
                != self.entries@[j].key@ by {
                assert(self.key_at(i) != self.key_at(j));
            }
        }
        &self.entries
    }

    /// Whether `key` is bound.
    pub fn contains_key(&self, key: &str) -> (r: bool)
        ensures
            r == self@.contains_key(key@),
    {
        let owned = key.to_owned();
        self.position(&owned).is_some()
    }
}

impl Clone for MetadataEntry {
    fn clone(&self) -> (r: MetadataEntry)
        ensures
            r.key@ == self.key@,
            r.value@ == self.value@,
    {
        MetadataEntry { key: self.key.clone(), value: self.value.clone() }
    }
}

impl Clone for Metadata {
    fn clone(&self) -> (r: Metadata)
        ensures
            r@ == self@,
    {
        proof {
            use_type_invariant(self);
        }
        let mut entries: Vec<MetadataEntry> = Vec::new();
        let mut i: usize = 0;
        while i < self.entries.len()
            invariant
                i <= self.entries@.len(),
                entries@.len() == i,
                forall|j: int|
                    0 <= j < i ==> entries@[j].key@ == self.entries@[j].key@ && entries@[j].value@
                        == self.entries@[j].value@,
            decreases self.entries@.len() - i,
        {
            entries.push(self.entries[i].clone());
            i = i + 1;
        }
        assert forall|a: int, b: int| 0 <= a < b < entries@.len() implies entries@[a].key@
            != entries@[b].key@ by {
            assert(self.key_at(a) != self.key_at(b));
        }
        let r = Metadata { entries };
        proof {
            assert forall|k: Seq<char>| r.holds(k) == self.holds(k) by {
                if r.holds(k) {
                    assert(self.key_at(r.index_of(k)) == k);
                }
                if self.holds(k) {
                    assert(r.key_at(self.index_of(k)) == k);
                }
            }
            assert forall|k: Seq<char>| r.holds(k) implies r@[k] == self@[k] by {
                let a = r.index_of(k);
                let b = self.index_of(k);
                if a < b {
                    assert(self.key_at(a) != self.key_at(b));
                } else if b < a {
                    assert(self.key_at(b) != self.key_at(a));
                }
            }
        }
        r
    }
}

} // verus!
