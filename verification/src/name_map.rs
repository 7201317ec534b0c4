//! A map keyed by device or peer name, viewed as `Map<Seq<char>, V>`.
//! Entries are kept in insertion order so that callers can walk them.
use vstd::prelude::*;

verus! {

/// A finite map from names to values.
#[derive(Clone)]
pub struct NameMap<V> {
    entries: Vec<(String, V)>,
    model: Ghost<Map<Seq<char>, V>>,
}

impl<V> View for NameMap<V> {
    type V = Map<Seq<char>, V>;

    closed spec fn view(&self) -> Map<Seq<char>, V> {
        self.model@
    }
}

impl<V> NameMap<V> {
    /// The entries and the abstract map agree, and no name occurs twice.
    pub closed spec fn wf(&self) -> bool {
        &&& forall|i: int, j: int|
            0 <= i < j < self.entries@.len() ==> #[trigger] self.entries@[i].0@
                != #[trigger] self.entries@[j].0@
        &&& forall|i: int|
            0 <= i < self.entries@.len() ==> self.model@.contains_key(
                #[trigger] self.entries@[i].0@,
            ) && self.model@[self.entries@[i].0@] == self.entries@[i].1
        &&& forall|k: Seq<char>|
            #[trigger] self.model@.contains_key(k) ==> exists|i: int|
                0 <= i < self.entries@.len() && #[trigger] self.entries@[i].0@ == k
        &&& self.model@.dom().finite()
        &&& self.model@.dom().len() == self.entries@.len()
    }

    /// The name stored at position `i` of the walk order.
    pub closed spec fn key_at(&self, i: int) -> Seq<char> {
        self.entries@[i].0@
    }

    /// Number of entries in the walk order.
    pub closed spec fn size(&self) -> nat {
        self.entries@.len()
    }

    /// The walk order lists every name of the map exactly once.
    pub proof fn lemma_walk(&self)
        requires
            self.wf(),
        ensures
            self.size() == self@.len(),
            self@.dom().finite(),
            forall|i: int| 0 <= i < self.size() ==> self@.contains_key(#[trigger] self.key_at(i)),
            forall|i: int, j: int|
                0 <= i < j < self.size() ==> #[trigger] self.key_at(i) != #[trigger] self.key_at(j),
            forall|k: Seq<char>|
                #[trigger] self@.contains_key(k) ==> exists|i: int|
                    0 <= i < self.size() && #[trigger] self.key_at(i) == k,
    {
        assert forall|k: Seq<char>| #[trigger] self@.contains_key(k) implies exists|i: int|
            0 <= i < self.size() && #[trigger] self.key_at(i) == k by {
            let i = choose|i: int| 0 <= i < self.entries@.len() && #[trigger] self.entries@[i].0@ == k;
            assert(self.key_at(i) == k);
        }
    }

    /// `names` lists, in walk order and each once, the names among the first `i`
    /// of the walk that satisfy `p`.
    pub closed spec fn walk_filtered(&self, p: spec_fn(Seq<char>) -> bool, names: Seq<Seq<char>>, i: int) -> bool {
        &&& 0 <= i <= self.entries@.len()
        &&& names.no_duplicates()
        &&& forall|j: int|
            0 <= j < names.len() ==> exists|t: int|
                0 <= t < i && #[trigger] self.entries@[t].0@ == #[trigger] names[j] && p(names[j])
        &&& forall|t: int|
            0 <= t < i && p(#[trigger] self.entries@[t].0@) ==> names.contains(self.entries@[t].0@)
    }

    /// Nothing of the walk is seen yet.
    pub proof fn lemma_walk_filter_start(&self, p: spec_fn(Seq<char>) -> bool)
        ensures
            self.walk_filtered(p, Seq::empty(), 0),
    {
    }

    /// One more step of the walk: the name at position `i` is added when it
    /// satisfies `p`.
    pub proof fn lemma_walk_filter_step(&self, p: spec_fn(Seq<char>) -> bool, names: Seq<Seq<char>>, i: int)
        requires
            self.wf(),
            self.walk_filtered(p, names, i),
            i < self.size(),
        ensures
            self.walk_filtered(p, if p(self.key_at(i)) { names.push(self.key_at(i)) } else { names }, i + 1),
    {
        let k = self.key_at(i);
        let next = if p(k) { names.push(k) } else { names };
        if p(k) {
            assert(!names.contains(k)) by {
                if names.contains(k) {
                    let j = choose|j: int| 0 <= j < names.len() && names[j] == k;
                    let t = choose|t: int| 0 <= t < i && #[trigger] self.entries@[t].0@ == names[j] && p(names[j]);
                }
            }
            assert forall|a: int, b: int| 0 <= a < b < next.len() implies next[a] != next[b] by {
                if b == names.len() {
                    assert(names.contains(names[a]));
                }
            }
            assert(next[names.len() as int] == k);
        }
        assert forall|j: int| 0 <= j < next.len() implies exists|t: int|
            0 <= t < i + 1 && #[trigger] self.entries@[t].0@ == #[trigger] next[j] && p(next[j]) by {
            if j < names.len() {
                assert(next[j] == names[j]);
                let t = choose|t: int| 0 <= t < i && #[trigger] self.entries@[t].0@ == names[j] && p(names[j]);
                assert(self.entries@[t].0@ == next[j]);
            } else {
                assert(self.entries@[i].0@ == next[j]);
            }
        }
        assert forall|t: int| 0 <= t < i + 1 && p(#[trigger] self.entries@[t].0@) implies next.contains(
            self.entries@[t].0@,
        ) by {
            if t == i {
                assert(next[next.len() - 1] == k);
            } else {
                assert(names.contains(self.entries@[t].0@));
                let j = choose|j: int| 0 <= j < names.len() && names[j] == self.entries@[t].0@;
                assert(next[j] == names[j]);
            }
        }
    }

    /// At the end of the walk, `names` lists exactly the names of the map that
    /// satisfy `p`, each once.
    pub proof fn lemma_walk_filter_done(&self, p: spec_fn(Seq<char>) -> bool, names: Seq<Seq<char>>)
        requires
            self.wf(),
            self.walk_filtered(p, names, self.size() as int),
        ensures
            names.no_duplicates(),
            names.to_set() == self@.dom().filter(p),
            self@.dom().filter(p).finite(),
            names.len() == self@.dom().filter(p).len(),
            forall|j: int| 0 <= j < names.len() ==> self@.contains_key(#[trigger] names[j]) && p(names[j]),
            forall|k: Seq<char>| #[trigger] self@.contains_key(k) && p(k) ==> names.contains(k),
    {
        assert forall|j: int| 0 <= j < names.len() implies self@.contains_key(#[trigger] names[j]) && p(names[j]) by {
            let t = choose|t: int|
                0 <= t < self.entries@.len() && #[trigger] self.entries@[t].0@ == names[j] && p(names[j]);
        }
        assert forall|k: Seq<char>| #[trigger] self@.contains_key(k) && p(k) implies names.contains(k) by {
            let t = choose|t: int| 0 <= t < self.entries@.len() && #[trigger] self.entries@[t].0@ == k;
        }
        assert(names.to_set() =~= self@.dom().filter(p));
        names.unique_seq_to_set();
    }

    /// An empty map.
    pub fn new() -> (r: Self)
        ensures
            r.wf(),
            r@ == Map::<Seq<char>, V>::empty(),
    {
        NameMap { entries: Vec::new(), model: Ghost(Map::empty()) }
    }

    /// Number of names in the map.
    pub fn len(&self) -> (r: usize)
        requires
            self.wf(),
        ensures
            r == self@.len(),
            r == self.size(),
            self@.dom().finite(),
    {
        self.entries.len()
    }

    /// Position of `k` in the walk order, if present.
    fn find(&self, k: &String) -> (r: Option<usize>)
        requires
            self.wf(),
        ensures
            match r {
                Some(i) => i < self.entries@.len() && self.entries@[i as int].0@ == k@,
                None => !self@.contains_key(k@),
            },
    {
        let n = self.entries.len();
        let mut i: usize = 0;
        while i < n
            invariant
                self.wf(),
                n == self.entries@.len(),
                i <= n,
                forall|j: int| 0 <= j < i ==> self.entries@[j].0@ != k@,
            decreases n - i,
        {
            if self.entries[i].0 == *k {
                return Some(i);
            }
            i = i + 1;
        }
        proof {
            if self@.contains_key(k@) {
                let j = choose|j: int| 0 <= j < self.entries@.len() && #[trigger] self.entries@[j].0@ == k@;
                assert(self.entries@[j].0@ == k@);
            }
        }
        None
    }

    /// Whether `k` is a name of the map.
    pub fn contains_key(&self, k: &str) -> (r: bool)
        requires
            self.wf(),
        ensures
            r == self@.contains_key(k@),
    {
        let key = k.to_owned();
        match self.find(&key) {
            Some(_) => true,
            None => false,
        }
    }

    /// The value stored under `k`, if any.
    pub fn get(&self, k: &str) -> (r: Option<&V>)
        requires
            self.wf(),
        ensures
            match r {
                Some(v) => self@.contains_key(k@) && *v == self@[k@],
                None => !self@.contains_key(k@),
            },
    {
        let key = k.to_owned();
        match self.find(&key) {
            Some(i) => Some(&self.entries[i].1),
            None => None,
        }
    }

    /// The name at position `i` of the walk order.
    pub fn key_ref(&self, i: usize) -> (r: &String)
        requires
            self.wf(),
            i < self.size(),
        ensures
            r@ == self.key_at(i as int),
            self@.contains_key(r@),
    {
        &self.entries[i].0
    }

    /// The value at position `i` of the walk order.
    pub fn value_ref(&self, i: usize) -> (r: &V)
        requires
            self.wf(),
            i < self.size(),
        ensures
            *r == self@[self.key_at(i as int)],
    {
        &self.entries[i].1
    }

    /// Every name of the map, each once, in walk order.
    pub fn keys(&self) -> (r: Vec<String>)
        requires
            self.wf(),
        ensures
            r@.len() == self@.len(),
            forall|j: int| 0 <= j < r@.len() ==> self@.contains_key(#[trigger] r@[j]@),
            forall|a: int, b: int| 0 <= a < b < r@.len() ==> (#[trigger] r@[a])@ != (#[trigger] r@[b])@,
            forall|k: Seq<char>| #[trigger] self@.contains_key(k) ==> exists|j: int| 0 <= j < r@.len() && r@[j]@ == k,
    {
        let n = self.entries.len();
        let mut out: Vec<String> = Vec::new();
        let mut i: usize = 0;
        while i < n
            invariant
                self.wf(),
                n == self.entries@.len(),
                i <= n,
                out@.len() == i,
                forall|j: int| 0 <= j < i ==> (#[trigger] out@[j])@ == self.entries@[j].0@,
            decreases n - i,
        {
            out.push(self.entries[i].0.clone());
            i = i + 1;
        }
        proof {
            assert forall|k: Seq<char>| #[trigger] self@.contains_key(k) implies exists|j: int|
                0 <= j < out@.len() && out@[j]@ == k by {
                let j = choose|j: int| 0 <= j < self.entries@.len() && #[trigger] self.entries@[j].0@ == k;
                assert(out@[j]@ == k);
            }
        }
        out
    }

    /// Stores `v` under `k`, replacing any earlier value.
    pub fn insert(&mut self, k: String, v: V)
        requires
            old(self).wf(),
        ensures
            final(self).wf(),
            final(self)@ == old(self)@.insert(k@, v),
    {
        let ghost old_map = self.model@;
        let ghost ks = k@;
        match self.find(&k) {
            Some(i) => {
                let ghost old_entries = self.entries@;
                self.entries.set(i, (k, v));
                self.model = Ghost(old_map.insert(ks, v));
                proof {
                    assert(old_map.dom().insert(ks) =~= old_map.dom());
                    assert forall|j: int| 0 <= j < self.entries@.len() implies #[trigger] self.entries@[j].0@
                        == old_entries[j].0@ by {}
                    assert forall|j: int| 0 <= j < self.entries@.len() implies self.model@.contains_key(
                        #[trigger] self.entries@[j].0@,
                    ) && self.model@[self.entries@[j].0@] == self.entries@[j].1 by {
                        if j != i {
                            assert(self.entries@[j] == old_entries[j]);
                            assert(old_entries[j].0@ != old_entries[i as int].0@);
                        }
                    }
                    assert forall|kk: Seq<char>| #[trigger] self.model@.contains_key(kk) implies exists|j: int|
                        0 <= j < self.entries@.len() && #[trigger] self.entries@[j].0@ == kk by {
                        if kk == ks {
                            assert(self.entries@[i as int].0@ == kk);
                        } else {
                            let j = choose|j: int| 0 <= j < old_entries.len() && #[trigger] old_entries[j].0@ == kk;
                            assert(self.entries@[j].0@ == kk);
                        }
                    }
                }
            },
            None => {
                let ghost old_entries = self.entries@;
                self.entries.push((k, v));
                self.model = Ghost(old_map.insert(ks, v));
                proof {
                    assert forall|j: int| 0 <= j < old_entries.len() implies #[trigger] self.entries@[j]
                        == old_entries[j] by {}
                    assert forall|a: int, b: int|
                        0 <= a < b < self.entries@.len() implies #[trigger] self.entries@[a].0@
                        != #[trigger] self.entries@[b].0@ by {
                        if b == old_entries.len() {
                            assert(old_map.contains_key(old_entries[a].0@));
                        }
                    }
                    assert forall|j: int| 0 <= j < self.entries@.len() implies self.model@.contains_key(
                        #[trigger] self.entries@[j].0@,
                    ) && self.model@[self.entries@[j].0@] == self.entries@[j].1 by {
                        if j < old_entries.len() {
                            assert(old_map.contains_key(old_entries[j].0@));
                        }
                    }
                    assert forall|kk: Seq<char>| #[trigger] self.model@.contains_key(kk) implies exists|j: int|
                        0 <= j < self.entries@.len() && #[trigger] self.entries@[j].0@ == kk by {
                        if kk == ks {
                            assert(self.entries@[old_entries.len() as int].0@ == kk);
                        } else {
                            let j = choose|j: int| 0 <= j < old_entries.len() && #[trigger] old_entries[j].0@ == kk;
                            assert(self.entries@[j].0@ == kk);
                        }
                    }
                }
            },
        }
    }

    /// Removes `k` and returns its value, if it was present.
    pub fn remove(&mut self, k: &str) -> (r: Option<V>)
        requires
            old(self).wf(),
        ensures
            final(self).wf(),
            final(self)@ == old(self)@.remove(k@),
            match r {
                Some(v) => old(self)@.contains_key(k@) && v == old(self)@[k@],
                None => !old(self)@.contains_key(k@),
            },
    {
        let key = k.to_owned();
        let ghost old_map = self.model@;
        let ghost ks = key@;
        match self.find(&key) {
            Some(i) => {
                let ghost old_entries = self.entries@;
                let (_name, v) = self.entries.remove(i);
                self.model = Ghost(old_map.remove(ks));
                proof {
                    assert forall|j: int| 0 <= j < self.entries@.len() implies #[trigger] self.entries@[j]
                        == (if j < i { old_entries[j] } else { old_entries[j + 1] }) by {}
                    assert forall|a: int, b: int|
                        0 <= a < b < self.entries@.len() implies #[trigger] self.entries@[a].0@
                        != #[trigger] self.entries@[b].0@ by {
                        let a2 = if a < i { a } else { a + 1 };
                        let b2 = if b < i { b } else { b + 1 };
                        assert(self.entries@[a] == old_entries[a2]);
                        assert(self.entries@[b] == old_entries[b2]);
                        assert(old_entries[a2].0@ != old_entries[b2].0@);
                    }
                    assert forall|j: int| 0 <= j < self.entries@.len() implies self.model@.contains_key(
                        #[trigger] self.entries@[j].0@,
                    ) && self.model@[self.entries@[j].0@] == self.entries@[j].1 by {
                        let j2 = if j < i { j } else { j + 1 };
                        assert(self.entries@[j] == old_entries[j2]);
                        assert(old_entries[j2].0@ != old_entries[i as int].0@);
                    }
                    assert forall|kk: Seq<char>| #[trigger] self.model@.contains_key(kk) implies exists|j: int|
                        0 <= j < self.entries@.len() && #[trigger] self.entries@[j].0@ == kk by {
                        let j = choose|j: int| 0 <= j < old_entries.len() && #[trigger] old_entries[j].0@ == kk;
                        assert(j != i);
                        if j < i {
                            assert(self.entries@[j].0@ == kk);
                        } else {
                            assert(self.entries@[j - 1].0@ == kk);
                        }
                    }
                }
                Some(v)
            },
            None => {
                proof {
                    assert(old_map.remove(ks) =~= old_map);
                }
                None
            },
        }
    }
}

} // verus!
