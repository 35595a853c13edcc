//! Small sets that count distinct keys: pairs of numbers, and names.

use vstd::prelude::*;

verus! {

/// A set of pairs of numbers.
#[derive(Debug)]
pub struct DistinctPairs {
    items: Vec<(i32, i32)>,
}

impl View for DistinctPairs {
    type V = Set<(i32, i32)>;

    closed spec fn view(&self) -> Set<(i32, i32)> {
        self.items@.to_set()
    }
}

impl DistinctPairs {
    /// No pair is held twice.
    pub closed spec fn wf(&self) -> bool {
        self.items@.no_duplicates()
    }

    pub fn new() -> (set: DistinctPairs)
        ensures
            set.wf(),
            set@ == Set::<(i32, i32)>::empty(),
    {
        let set = DistinctPairs { items: Vec::new() };
        assert(set.items@.to_set() =~= Set::<(i32, i32)>::empty());
        set
    }

    pub fn contains(&self, pair: (i32, i32)) -> (held: bool)
        ensures
            held == self@.contains(pair),
    {
        let mut k: usize = 0;
        while k < self.items.len()
            invariant
                k <= self.items@.len(),
                forall|j: int| 0 <= j < k ==> self.items@[j] != pair,
            decreases self.items@.len() - k,
        {
            if self.items[k].0 == pair.0 && self.items[k].1 == pair.1 {
                assert(self.items@.contains(pair));
                return true;
            }
            k += 1;
        }
        false
    }

    /// The number of pairs held.
    pub fn len(&self) -> (n: usize)
        requires
            self.wf(),
        ensures
            n == self@.len(),
    {
        proof {
            self.items@.unique_seq_to_set();
        }
        self.items.len()
    }

    /// Adds `pair`, where it is not held yet.
    pub fn insert(&mut self, pair: (i32, i32))
        requires
            old(self).wf(),
        ensures
            final(self).wf(),
            final(self)@ == old(self)@.insert(pair),
    {
        if !self.contains(pair) {
            self.items.push(pair);
            proof {
                old(self).items@.lemma_push_to_set_commute(pair);
                assert(self.items@ == old(self).items@.push(pair));
                assert forall|i: int, j: int|
                    0 <= i < self.items@.len() && 0 <= j < self.items@.len() && i
                        != j implies self.items@[i] != self.items@[j] by {
                    if i < old(self).items@.len() {
                        assert(old(self).items@.contains(self.items@[i]));
                    }
                    if j < old(self).items@.len() {
                        assert(old(self).items@.contains(self.items@[j]));
                    }
                }
            }
        } else {
            assert(self@.insert(pair) =~= self@);
        }
    }
}

/// A set of names.
#[derive(Debug)]
pub struct DistinctNames {
    items: Vec<String>,
}

impl View for DistinctNames {
    type V = Set<Seq<char>>;

    closed spec fn view(&self) -> Set<Seq<char>> {
        self.names().to_set()
    }
}

impl DistinctNames {
    /// The names held, in the order in which they came.
    pub closed spec fn names(&self) -> Seq<Seq<char>> {
        self.items@.map_values(|name: String| name@)
    }

    /// No name is held twice.
    pub closed spec fn wf(&self) -> bool {
        self.names().no_duplicates()
    }

    pub fn new() -> (set: DistinctNames)
        ensures
            set.wf(),
            set@ == Set::<Seq<char>>::empty(),
    {
        let set = DistinctNames { items: Vec::new() };
        assert(set.names().to_set() =~= Set::<Seq<char>>::empty());
        set
    }

    pub fn contains(&self, name: &String) -> (held: bool)
        ensures
            held == self@.contains(name@),
    {
        let mut k: usize = 0;
        while k < self.items.len()
            invariant
                k <= self.items@.len(),
                forall|j: int| 0 <= j < k ==> self.names()[j] != name@,
            decreases self.items@.len() - k,
        {
            if self.items[k] == *name {
                assert(self.names()[k as int] == name@);
                assert(self.names().contains(name@));
                return true;
            }
            k += 1;
        }
        false
    }

    /// The number of names held.
    pub fn len(&self) -> (n: usize)
        requires
            self.wf(),
        ensures
            n == self@.len(),
    {
        proof {
            self.names().unique_seq_to_set();
        }
        self.items.len()
    }

    /// Adds `name`, where it is not held yet.
    pub fn insert(&mut self, name: &String)
        requires
            old(self).wf(),
        ensures
            final(self).wf(),
            final(self)@ == old(self)@.insert(name@),
    {
        if !self.contains(name) {
            self.items.push(name.clone());
            proof {
                let before = old(self).names();
                before.lemma_push_to_set_commute(name@);
                assert(self.names() =~= before.push(name@));
                assert forall|i: int, j: int|
                    0 <= i < self.names().len() && 0 <= j < self.names().len() && i
                        != j implies self.names()[i] != self.names()[j] by {
                    if i < before.len() {
                        assert(before.contains(self.names()[i]));
                    }
                    if j < before.len() {
                        assert(before.contains(self.names()[j]));
                    }
                }
            }
        } else {
            assert(self@.insert(name@) =~= self@);
        }
    }
}

} // verus!
