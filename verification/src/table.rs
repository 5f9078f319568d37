//! A keyed table: the storage of values under string keys, with no key twice.
use vstd::prelude::*;

verus! {

/// Values stored under string keys; each key appears at most once.
#[verifier::reject_recursive_types(V)]
pub struct Table<V> {
    entries: Vec<(String, V)>,
}

impl<V> Table<V> {
    #[verifier::type_invariant]
    spec fn keys_distinct(self) -> bool {
        forall|i: int, j: int|
            0 <= i < self.entries@.len() && 0 <= j < self.entries@.len() && i != j
                ==> #[trigger] self.entries@[i].0@ != #[trigger] self.entries@[j].0@
    }

    spec fn holds_key(self, k: Seq<char>) -> bool {
        exists|i: int| 0 <= i < self.entries@.len() && #[trigger] self.entries@[i].0@ == k
    }

    spec fn position_of(self, k: Seq<char>) -> int {
        choose|i: int| 0 <= i < self.entries@.len() && #[trigger] self.entries@[i].0@ == k
    }

    /// The contents of the table, as a map from keys to values.
    pub closed spec fn contents(self) -> Map<Seq<char>, V> {
        Map::new(|k: Seq<char>| self.holds_key(k), |k: Seq<char>| self.entries@[self.position_of(k)].1)
    }

    proof fn lemma_position(self, i: int)
        requires
            self.keys_distinct(),
            0 <= i < self.entries@.len(),
        ensures
            self.contents().contains_key(self.entries@[i].0@),
            self.position_of(self.entries@[i].0@) == i,
            self.contents()[self.entries@[i].0@] == self.entries@[i].1,
    {
        let k = self.entries@[i].0@;
        assert(self.holds_key(k));
        let j = self.position_of(k);
        assert(self.entries@[j].0@ == k);
    }

    /// An empty table.
    pub fn new() -> (t: Self)
        ensures
            t.contents() == Map::<Seq<char>, V>::empty(),
    {
        let t = Table { entries: Vec::new() };
        assert(t.contents() =~= Map::<Seq<char>, V>::empty());
        t
    }

    fn find(&self, k: &String) -> (r: Option<usize>)
        ensures
            match r {
                Some(i) => i < self.entries@.len() && self.entries@[i as int].0@ == k@,
                None => !self.contents().contains_key(k@),
            },
    {
        let mut i: usize = 0;
        while i < self.entries.len()
            invariant
                i <= self.entries@.len(),
                forall|j: int| 0 <= j < i ==> #[trigger] self.entries@[j].0@ != k@,
            decreases self.entries@.len() - i,
        {
            if self.entries[i].0 == *k {
                return Some(i);
            }
            i = i + 1;
        }
        None
    }

    /// Whether a value is stored under `k`.
    pub fn contains_key(&self, k: &String) -> (b: bool)
        ensures
            b == self.contents().contains_key(k@),
    {
        proof { use_type_invariant(self); }
        match self.find(k) {
            Some(i) => {
                proof { self.lemma_position(i as int); }
                true
            },
            None => false,
        }
    }

    /// The value stored under `k`, if any.
    pub fn get(&self, k: &String) -> (r: Option<&V>)
        ensures
            r == (if self.contents().contains_key(k@) {
                Some(&self.contents()[k@])
            } else {
                None
            }),
    {
        proof { use_type_invariant(self); }
        match self.find(k) {
            Some(i) => {
                proof { self.lemma_position(i as int); }
                Some(&self.entries[i].1)
            },
            None => None,
        }
    }

    /// Stores `v` under `k`, in place of what was stored there.
    pub fn set(&mut self, k: String, v: V)
        ensures
            final(self).contents() == old(self).contents().insert(k@, v),
    {
        proof { use_type_invariant(&*self); }
        let found = self.find(&k);
        let ghost before = *self;
        let mut entries: Vec<(String, V)> = Vec::new();
        std::mem::swap(&mut entries, &mut self.entries);
        let ghost key = k@;
        match found {
            Some(i) => {
                entries.set(i, (k, v));
            },
            None => {
                entries.push((k, v));
            },
        }
        assert forall|a: int, b: int|
            0 <= a < entries@.len() && 0 <= b < entries@.len() && a != b
                implies #[trigger] entries@[a].0@ != #[trigger] entries@[b].0@ by {
            if a < before.entries@.len() && b < before.entries@.len() {
                if found is None || (a != found->0 && b != found->0) {
                    assert(entries@[a] == before.entries@[a]);
                    assert(entries@[b] == before.entries@[b]);
                }
            } else if found is None {
                if a == before.entries@.len() {
                    assert(before.entries@[b].0@ != key) by {
                        if before.entries@[b].0@ == key {
                            assert(before.holds_key(key));
                        }
                    }
                } else {
                    assert(before.entries@[a].0@ != key) by {
                        if before.entries@[a].0@ == key {
                            assert(before.holds_key(key));
                        }
                    }
                }
            }
        }
        self.entries = entries;
        proof {
            let after = *self;
            assert forall|q: Seq<char>|
                #[trigger] after.contents().contains_key(q)
                    == old(self).contents().insert(key, v).contains_key(q) by {
                if q == key {
                    match found {
                        Some(i) => { after.lemma_position(i as int); },
                        None => { after.lemma_position(before.entries@.len() as int); },
                    }
                } else if after.holds_key(q) {
                    let j = after.position_of(q);
                    assert(before.entries@[j].0@ == q);
                    assert(before.holds_key(q));
                } else if before.holds_key(q) {
                    let j = before.position_of(q);
                    assert(after.entries@[j].0@ == q);
                    assert(after.holds_key(q));
                }
            }
            assert forall|q: Seq<char>| #[trigger] after.contents().contains_key(q)
                implies after.contents()[q] == old(self).contents().insert(key, v)[q] by {
                if q == key {
                    match found {
                        Some(i) => { after.lemma_position(i as int); },
                        None => { after.lemma_position(before.entries@.len() as int); },
                    }
                } else {
                    let j = after.position_of(q);
                    assert(after.entries@[j].0@ == q);
                    assert(before.entries@[j] == after.entries@[j]);
                    before.lemma_position(j);
                    after.lemma_position(j);
                }
            }
            assert(after.contents() =~= old(self).contents().insert(key, v));
        }
    }

    /// Removes what is stored under `k`; says whether anything was.
    pub fn remove(&mut self, k: &String) -> (found: bool)
        ensures
            found == old(self).contents().contains_key(k@),
            final(self).contents() == old(self).contents().remove(k@),
    {
        proof { use_type_invariant(&*self); }
        let pos = self.find(k);
        match pos {
            None => {
                assert(self.contents() =~= old(self).contents().remove(k@));
                false
            },
            Some(i) => {
                let ghost before = *self;
                proof { before.lemma_position(i as int); }
                let mut entries: Vec<(String, V)> = Vec::new();
                std::mem::swap(&mut entries, &mut self.entries);
                let _removed = entries.remove(i);
                assert forall|a: int, b: int|
                    0 <= a < entries@.len() && 0 <= b < entries@.len() && a != b
                        implies #[trigger] entries@[a].0@ != #[trigger] entries@[b].0@ by {
                    let oa = if a < i { a } else { a + 1 };
                    let ob = if b < i { b } else { b + 1 };
                    assert(entries@[a] == before.entries@[oa]);
                    assert(entries@[b] == before.entries@[ob]);
                }
                self.entries = entries;
                proof {
                    let after = *self;
                    let key = k@;
                    assert forall|q: Seq<char>|
                        #[trigger] after.contents().contains_key(q)
                            == old(self).contents().remove(key).contains_key(q) by {
                        if after.holds_key(q) {
                            let j = after.position_of(q);
                            let oj = if j < i { j } else { j + 1 };
                            assert(before.entries@[oj].0@ == q);
                            assert(before.holds_key(q));
                            assert(q != key);
                        } else if before.holds_key(q) && q != key {
                            let j = before.position_of(q);
                            assert(j != i);
                            let nj = if j < i { j } else { j - 1 };
                            assert(after.entries@[nj].0@ == q);
                            assert(after.holds_key(q));
                        }
                    }
                    assert forall|q: Seq<char>| #[trigger] after.contents().contains_key(q)
                        implies after.contents()[q] == old(self).contents().remove(key)[q] by {
                        let j = after.position_of(q);
                        assert(after.entries@[j].0@ == q);
                        let oj = if j < i { j } else { j + 1 };
                        assert(before.entries@[oj] == after.entries@[j]);
                        before.lemma_position(oj);
                        after.lemma_position(j);
                    }
                    assert(after.contents() =~= old(self).contents().remove(key));
                }
                true
            },
        }
    }
}

impl<V> View for Table<V> {
    type V = Map<Seq<char>, V>;

    open spec fn view(&self) -> Map<Seq<char>, V> {
        self.contents()
    }
}

} // verus!
