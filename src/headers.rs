use vstd::prelude::*;

verus! {

/// Header fields of a request: each name at most once, a later value for a
/// name replacing the earlier one.
pub struct HeaderMap {
    entries: Vec<(String, String)>,
}

impl HeaderMap {
    /// The names, in the order in which they were first inserted.
    pub closed spec fn names(self) -> Seq<Seq<char>> {
        self.entries@.map_values(|e: (String, String)| e.0@)
    }

    /// The index of the entry named `k`.
    pub closed spec fn position(self, k: Seq<char>) -> int {
        choose|j: int| 0 <= j < self.names().len() && self.names()[j] == k
    }

    /// No name occurs twice.
    pub closed spec fn wf(self) -> bool {
        self.names().no_duplicates()
    }

    /// A map with no headers.
    pub fn new() -> (r: HeaderMap)
        ensures
            r.wf(),
            r@ == Map::<Seq<char>, Seq<char>>::empty(),
    {
        let r = HeaderMap { entries: Vec::new() };
        assert(r@ =~= Map::<Seq<char>, Seq<char>>::empty());
        r
    }

    /// The number of distinct header names.
    pub fn len(&self) -> (r: usize)
        requires
            self.wf(),
        ensures
            r == self@.len(),
    {
        proof {
            assert(self@.dom() =~= self.names().to_set());
            self.names().unique_seq_to_set();
        }
        self.entries.len()
    }

    /// The value stored under `name`.
    pub fn get(&self, name: &str) -> (r: Option<&String>)
        requires
            self.wf(),
        ensures
            r is Some <==> self@.contains_key(name@),
            r matches Some(v) ==> v@ == self@[name@],
    {
        let key = name.to_owned();
        let mut i: usize = 0;
        while i < self.entries.len()
            invariant
                self.wf(),
                key@ == name@,
                i <= self.entries@.len(),
                forall|j: int| 0 <= j < i ==> self.entries@[j].0@ != key@,
            decreases self.entries@.len() - i,
        {
            if self.entries[i].0 == key {
                proof {
                    assert(self.names()[i as int] == key@);
                    self.lemma_value_at(i as int);
                }
                return Some(&self.entries[i].1);
            }
            i += 1;
        }
        proof {
            if self.names().contains(key@) {
                let j = self.names().index_of(key@);
                assert(self.names()[j] == key@);
            }
        }
        None
    }

    /// Stores `value` under `name`, replacing any earlier value.
    pub fn insert(&mut self, name: String, value: String)
        requires
            old(self).wf(),
        ensures
            final(self).wf(),
            final(self)@ == old(self)@.insert(name@, value@),
    {
        let ghost before = *self;
        let ghost nk = name@;
        let ghost nv = value@;
        let mut i: usize = 0;
        while i < self.entries.len()
            invariant
                *self == before,
                before == *old(self),
                before.wf(),
                nk == name@,
                nv == value@,
                i <= self.entries@.len(),
                forall|j: int| 0 <= j < i ==> self.entries@[j].0@ != nk,
            decreases self.entries@.len() - i,
        {
            if self.entries[i].0 == name {
                self.entries.set(i, (name, value));
                proof {
                    assert(before.names()[i as int] == nk);
                    assert(self.names() =~= before.names());
                    assert forall|k: Seq<char>| #[trigger] self@.contains_key(k) implies self@[k]
                        == before@.insert(nk, nv)[k] by {
                        let c = self.names().index_of(k);
                        assert(self.names()[c] == k);
                        if k == nk {
                            self.lemma_value_at(i as int);
                        } else {
                            self.lemma_value_at(c);
                            before.lemma_value_at(c);
                        }
                    }
                    assert(self@ =~= before@.insert(nk, nv));
                }
                return;
            }
            i += 1;
        }
        self.entries.push((name, value));
        proof {
            assert(self.names() =~= before.names().push(nk));
            assert(!before.names().contains(nk)) by {
                if before.names().contains(nk) {
                    let j = before.names().index_of(nk);
                    assert(before.names()[j] == nk);
                }
            }
            assert forall|k: Seq<char>| #[trigger] self@.contains_key(k) implies self@[k]
                == before@.insert(nk, nv)[k] by {
                let c = self.names().index_of(k);
                assert(self.names()[c] == k);
                let last = self.entries@.len() - 1;
                assert(self.names()[last] == nk);
                self.lemma_value_at(c);
                if k != nk {
                    before.lemma_value_at(c);
                }
            }
            assert(self.wf());
            assert forall|k: Seq<char>| #[trigger] self@.contains_key(k) <==> before@.insert(
                nk,
                nv,
            ).contains_key(k) by {
                let last = self.entries@.len() - 1;
                assert(self.names()[last] == nk);
                if before.names().contains(k) {
                    let j = before.names().index_of(k);
                    assert(self.names()[j] == k);
                }
                if self.names().contains(k) && k != nk {
                    let j = self.names().index_of(k);
                    assert(before.names()[j] == k);
                }
            }
            assert(self@ =~= before@.insert(nk, nv));
        }
    }

    /// The value stored under the name of entry `i` is that entry's value.
    proof fn lemma_value_at(self, i: int)
        requires
            self.wf(),
            0 <= i < self.entries@.len(),
        ensures
            self@.contains_key(self.entries@[i].0@),
            self@[self.entries@[i].0@] == self.entries@[i].1@,
    {
        let k = self.entries@[i].0@;
        assert(self.names()[i] == k);
        assert(self.names().contains(k));
        let c = self.position(k);
        assert(self.names()[c] == k);
        assert(c == i);
    }
}

impl View for HeaderMap {
    type V = Map<Seq<char>, Seq<char>>;

    closed spec fn view(&self) -> Map<Seq<char>, Seq<char>> {
        Map::new(
            |k: Seq<char>| self.names().contains(k),
            |k: Seq<char>| self.entries@[self.position(k)].1@,
        )
    }
}

} // verus!
