//! Maps whose keys are strings.
use vstd::prelude::*;

verus! {

/// A map from strings to values, without an order of its own.
///
/// It is a mathematical map from character sequences: whatever the way in
/// which it was filled, a key is bound at most once.
#[derive(Debug)]
pub struct StrMap<V> {
    entries: Vec<(String, V)>,
}

/// `values` holds the values of `m`, each once, in the order in which `keys`
/// lists the keys of `m`.
pub open spec fn lists_map<V>(m: Map<Seq<char>, V>, keys: Seq<Seq<char>>, values: Seq<V>) -> bool {
    &&& keys.no_duplicates()
    &&& keys.to_set() == m.dom()
    &&& values.len() == keys.len()
    &&& forall|i: int| 0 <= i < keys.len() ==> values[i] == m[#[trigger] keys[i]]
}

impl<V> StrMap<V> {
    spec fn binds(&self, i: int, k: Seq<char>) -> bool {
        0 <= i < self.entries.len() && self.entries[i].0@ == k
    }

    spec fn keys_seq(&self) -> Seq<Seq<char>> {
        Seq::new(self.entries@.len(), |i: int| self.entries[i].0@)
    }

    /// No key is bound twice.
    #[verifier::type_invariant]
    spec fn unique_keys(&self) -> bool {
        forall|i: int, j: int|
            0 <= i < j < self.entries.len() ==> #[trigger] self.entries[i].0@
                != #[trigger] self.entries[j].0@
    }

    /// The contents.
    pub closed spec fn view(&self) -> Map<Seq<char>, V> {
        Map::new(
            |k: Seq<char>| exists|i: int| self.binds(i, k),
            |k: Seq<char>| self.entries[choose|i: int| self.binds(i, k)].1,
        )
    }

    proof fn lemma_entry(&self, i: int)
        requires
            self.unique_keys(),
            0 <= i < self.entries.len(),
        ensures
            self@.contains_key(self.entries[i].0@),
            self@[self.entries[i].0@] == self.entries[i].1,
    {
        let k = self.entries[i].0@;
        assert(self.binds(i, k));
        let j = choose|j: int| self.binds(j, k);
        assert(self.binds(j, k));
        if j < i {
            assert(self.entries[j].0@ != self.entries[i].0@);
        } else if i < j {
            assert(self.entries[i].0@ != self.entries[j].0@);
        }
    }

    pub fn new() -> (r: Self)
        ensures
            r@ == Map::<Seq<char>, V>::empty(),
    {
        let r = StrMap { entries: Vec::new() };
        assert(r@ =~= Map::<Seq<char>, V>::empty()) by {
            assert forall|k: Seq<char>| !r@.contains_key(k) by {
                assert(forall|i: int| !r.binds(i, k));
            }
        }
        r
    }

    /// The place of the entry for `key`, if there is one.
    fn find(&self, key: &String) -> (r: Option<usize>)
        ensures
            match r {
                Some(i) => self.binds(i as int, key@),
                None => forall|i: int| !self.binds(i, key@),
            },
    {
        let mut i: usize = 0;
        while i < self.entries.len()
            invariant
                i <= self.entries.len(),
                forall|j: int| 0 <= j < i ==> !self.binds(j, key@),
            decreases self.entries.len() - i,
        {
            if self.entries[i].0 == *key {
                return Some(i);
            }
            i = i + 1;
        }
        None
    }

    pub fn contains_key(&self, key: &str) -> (r: bool)
        ensures
            r == self@.contains_key(key@),
    {
        match self.find(&key.to_owned()) {
            Some(i) => {
                assert(self.binds(i as int, key@));
                true
            },
            None => false,
        }
    }

    pub fn get(&self, key: &str) -> (r: Option<&V>)
        ensures
            r is Some == self@.contains_key(key@),
            r matches Some(v) ==> *v == self@[key@],
    {
        match self.find(&key.to_owned()) {
            Some(i) => {
                proof {
                    use_type_invariant(self);
                    self.lemma_entry(i as int);
                }
                Some(&self.entries[i].1)
            },
            None => None,
        }
    }

    /// Binds `key` to `value`, in place of what it was bound to.
    pub fn insert(&mut self, key: String, value: V)
        ensures
            final(self)@ == old(self)@.insert(key@, value),
    {
        proof {
            use_type_invariant(&*self);
        }
        let ghost before = *self;
        let place = self.find(&key);
        let mut entries: Vec<(String, V)> = Vec::new();
        std::mem::swap(&mut entries, &mut self.entries);
        match place {
            Some(i) => {
                let ghost k = key@;
                entries.set(i, (key, value));
                let after = StrMap { entries };
                assert forall|c: Seq<char>| #[trigger]
                    after@.contains_key(c) <==> before@.insert(k, value).contains_key(c) by {
                    if after@.contains_key(c) {
                        let j = choose|j: int| after.binds(j, c);
                        assert(before.binds(j, c));
                    }
                    if before@.contains_key(c) {
                        let j = choose|j: int| before.binds(j, c);
                        assert(after.binds(j, c));
                    }
                    assert(after.binds(i as int, k));
                }
                assert forall|c: Seq<char>| #[trigger] after@.contains_key(c) implies after@[c]
                    == before@.insert(k, value)[c] by {
                    let j = choose|j: int| after.binds(j, c);
                    after.lemma_entry(j);
                    before.lemma_entry(j);
                    before.lemma_entry(i as int);
                    if j < i {
                        assert(before.entries[j].0@ != before.entries[i as int].0@);
                    } else if i < j {
                        assert(before.entries[i as int].0@ != before.entries[j].0@);
                    }
                }
                assert(after@ =~= before@.insert(k, value));
                *self = after;
            },
            None => {
                let ghost k = key@;
                entries.push((key, value));
                let ghost n = before.entries@.len() as int;
                assert forall|a: int, b: int|
                    0 <= a < b < entries.len() implies #[trigger] entries[a].0@
                    != #[trigger] entries[b].0@ by {
                    assert(!before.binds(a, k));
                }
                let after = StrMap { entries };
                assert forall|c: Seq<char>| #[trigger]
                    after@.contains_key(c) <==> before@.insert(k, value).contains_key(c) by {
                    if after@.contains_key(c) {
                        let j = choose|j: int| after.binds(j, c);
                        if j < n {
                            assert(before.binds(j, c));
                        }
                    }
                    if before@.contains_key(c) {
                        let j = choose|j: int| before.binds(j, c);
                        assert(after.binds(j, c));
                    }
                    assert(after.binds(n, k));
                }
                assert forall|c: Seq<char>| #[trigger] after@.contains_key(c) implies after@[c]
                    == before@.insert(k, value)[c] by {
                    let j = choose|j: int| after.binds(j, c);
                    after.lemma_entry(j);
                    if j < n {
                        before.lemma_entry(j);
                        assert(!before.binds(j, k));
                    }
                }
                assert(after@ =~= before@.insert(k, value));
                *self = after;
            },
        }
    }

    /// Unbinds `key` and hands out what it was bound to.
    pub fn remove(&mut self, key: &str) -> (r: Option<V>)
        ensures
            r is Some == old(self)@.contains_key(key@),
            r matches Some(v) ==> v == old(self)@[key@],
            final(self)@ == old(self)@.remove(key@),
    {
        proof {
            use_type_invariant(&*self);
        }
        let ghost before = *self;
        let place = self.find(&key.to_owned());
        match place {
            Some(i) => {
                let mut entries: Vec<(String, V)> = Vec::new();
                std::mem::swap(&mut entries, &mut self.entries);
                let (_, value) = entries.remove(i);
                let after = StrMap { entries };
                proof {
                    before.lemma_entry(i as int);
                    assert forall|j: int|
                        0 <= j < after.entries.len() implies #[trigger] after.entries[j]
                        == before.entries[if j < i { j } else { j + 1 }] by {}
                    assert forall|c: Seq<char>| #[trigger]
                        after@.contains_key(c) <==> before@.remove(key@).contains_key(c) by {
                        if after@.contains_key(c) {
                            let j = choose|j: int| after.binds(j, c);
                            let b = if j < i { j } else { j + 1 };
                            assert(before.binds(b, c));
                            assert(before.entries[b].0@ != before.entries[i as int].0@);
                        }
                        if before@.remove(key@).contains_key(c) {
                            let b = choose|b: int| before.binds(b, c);
                            assert(b != i);
                            assert(after.binds(if b < i { b } else { b - 1 }, c));
                        }
                    }
                    assert forall|c: Seq<char>| #[trigger] after@.contains_key(c) implies after@[c]
                        == before@.remove(key@)[c] by {
                        let j = choose|j: int| after.binds(j, c);
                        after.lemma_entry(j);
                        before.lemma_entry(if j < i { j } else { j + 1 });
                    }
                    assert(after@ =~= before@.remove(key@));
                }
                *self = after;
                Some(value)
            },
            None => {
                assert(before@.remove(key@) =~= before@);
                None
            },
        }
    }
}

impl<V: Copy> StrMap<V> {
    /// The values, each once, in an order that is not determined.
    pub fn values(&self) -> (r: Vec<V>)
        ensures
            exists|keys: Seq<Seq<char>>| #[trigger] lists_map(self@, keys, r@),
    {
        proof {
            use_type_invariant(self);
        }
        let mut r: Vec<V> = Vec::new();
        let mut i: usize = 0;
        while i < self.entries.len()
            invariant
                i <= self.entries.len(),
                r.len() == i,
                forall|j: int| 0 <= j < i ==> r[j] == self.entries[j].1,
            decreases self.entries.len() - i,
        {
            r.push(self.entries[i].1);
            i = i + 1;
        }
        proof {
            let keys = self.keys_seq();
            assert forall|k: Seq<char>| keys.to_set().contains(k) <==> self@.contains_key(k) by {
                if keys.to_set().contains(k) {
                    let j = choose|j: int| 0 <= j < keys.len() && keys[j] == k;
                    assert(self.binds(j, k));
                }
                if self@.contains_key(k) {
                    let j = choose|j: int| self.binds(j, k);
                    assert(keys[j] == k);
                }
            }
            assert(keys.to_set() =~= self@.dom());
            assert forall|j: int| 0 <= j < keys.len() implies r@[j] == self@[#[trigger]
            keys[j]] by {
                self.lemma_entry(j);
            }
            assert(lists_map(self@, keys, r@));
        }
        r
    }
}

} // verus!
