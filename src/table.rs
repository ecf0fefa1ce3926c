//! A table of runtime handles keyed by job id, holding at most one handle per id.
use vstd::prelude::*;

verus! {

/// Handles keyed by job id; at most one handle stands under an id.
pub struct HandleTable<T> {
    slots: Vec<(String, T)>,
}

impl<T> View for HandleTable<T> {
    type V = Map<Seq<char>, T>;

    closed spec fn view(&self) -> Map<Seq<char>, T> {
        Map::new(
            |k: Seq<char>| exists|i: int| 0 <= i < self.slots@.len() && #[trigger] self.slots@[i].0@ == k,
            |k: Seq<char>|
                self.slots@[choose|i: int| 0 <= i < self.slots@.len() && #[trigger] self.slots@[i].0@ == k].1,
        )
    }
}

impl<T> HandleTable<T> {
    /// No id stands twice.
    pub closed spec fn wf(&self) -> bool {
        forall|i: int, j: int|
            0 <= i < self.slots@.len() && 0 <= j < self.slots@.len() && i != j
                ==> #[trigger] self.slots@[i].0@ != #[trigger] self.slots@[j].0@
    }

    proof fn lemma_slot(&self, i: int)
        requires
            self.wf(),
            0 <= i < self.slots@.len(),
        ensures
            self@.contains_key(self.slots@[i].0@),
            self@[self.slots@[i].0@] == self.slots@[i].1,
    {
        let k = self.slots@[i].0@;
        assert(self@.contains_key(k));
        let j = choose|j: int| 0 <= j < self.slots@.len() && #[trigger] self.slots@[j].0@ == k;
        assert(self.slots@[j].0@ == k);
        assert(j == i);
    }

    /// An empty table.
    pub fn new() -> (r: HandleTable<T>)
        ensures
            r.wf(),
            r@ == Map::<Seq<char>, T>::empty(),
    {
        let r = HandleTable { slots: Vec::new() };
        assert(r@ =~= Map::<Seq<char>, T>::empty());
        r
    }

    fn find(&self, id: &String) -> (r: Option<usize>)
        requires
            self.wf(),
        ensures
            r matches Some(i) ==> i < self.slots@.len() && self.slots@[i as int].0@ == id@,
            r is None ==> !self@.contains_key(id@),
    {
        let mut i: usize = 0;
        while i < self.slots.len()
            invariant
                i <= self.slots@.len(),
                forall|j: int| 0 <= j < i ==> #[trigger] self.slots@[j].0@ != id@,
            decreases self.slots@.len() - i,
        {
            if self.slots[i].0 == *id {
                return Some(i);
            }
            i = i + 1;
        }
        None
    }

    /// Whether a handle stands under `id`.
    pub fn contains(&self, id: &String) -> (r: bool)
        requires
            self.wf(),
        ensures
            r == self@.contains_key(id@),
    {
        match self.find(id) {
            Some(i) => {
                proof {
                    self.lemma_slot(i as int);
                }
                true
            },
            None => false,
        }
    }

    /// The handle under `id`.
    pub fn get(&self, id: &String) -> (r: Option<&T>)
        requires
            self.wf(),
        ensures
            r is Some == self@.contains_key(id@),
            r matches Some(v) ==> *v == self@[id@],
    {
        match self.find(id) {
            Some(i) => {
                proof {
                    self.lemma_slot(i as int);
                }
                Some(&self.slots[i].1)
            },
            None => None,
        }
    }

    /// Takes the handle under `id` out of the table.
    pub fn remove(&mut self, id: &String) -> (r: Option<T>)
        requires
            old(self).wf(),
        ensures
            final(self).wf(),
            final(self)@ == old(self)@.remove(id@),
            r is Some == old(self)@.contains_key(id@),
            r matches Some(v) ==> v == old(self)@[id@],
    {
        match self.find(id) {
            None => {
                assert(self@ =~= self@.remove(id@));
                None
            },
            Some(i) => {
                let ghost before = *self;
                proof {
                    before.lemma_slot(i as int);
                }
                let (_, v) = self.slots.remove(i);
                assert(self.slots@ == before.slots@.remove(i as int));
                assert forall|a: int, b: int|
                    0 <= a < self.slots@.len() && 0 <= b < self.slots@.len() && a != b
                        implies #[trigger] self.slots@[a].0@ != #[trigger] self.slots@[b].0@ by {
                    let a0 = if a < i { a } else { a + 1 };
                    let b0 = if b < i { b } else { b + 1 };
                    assert(self.slots@[a] == before.slots@[a0]);
                    assert(self.slots@[b] == before.slots@[b0]);
                }
                assert forall|k: Seq<char>| #[trigger] self@.contains_key(k)
                    == before@.remove(id@).contains_key(k) by {
                    if self@.contains_key(k) {
                        let a = choose|a: int| 0 <= a < self.slots@.len() && #[trigger] self.slots@[a].0@ == k;
                        let a0 = if a < i { a } else { a + 1 };
                        assert(self.slots@[a] == before.slots@[a0]);
                        assert(before.slots@[a0].0@ == k);
                    }
                    if before@.remove(id@).contains_key(k) {
                        let a0 = choose|a: int| 0 <= a < before.slots@.len() && #[trigger] before.slots@[a].0@ == k;
                        assert(a0 != i);
                        let a = if a0 < i { a0 } else { a0 - 1 };
                        assert(self.slots@[a] == before.slots@[a0]);
                    }
                }
                assert forall|k: Seq<char>| #[trigger] self@.contains_key(k)
                    implies self@[k] == before@[k] by {
                    let a = choose|a: int| 0 <= a < self.slots@.len() && #[trigger] self.slots@[a].0@ == k;
                    let a0 = if a < i { a } else { a + 1 };
                    assert(self.slots@[a] == before.slots@[a0]);
                    self.lemma_slot(a);
                    before.lemma_slot(a0);
                }
                assert(self@ =~= before@.remove(id@));
                Some(v)
            },
        }
    }

    /// Puts `v` under `id`, handing back the handle it replaces.
    pub fn insert(&mut self, id: String, v: T) -> (r: Option<T>)
        requires
            old(self).wf(),
        ensures
            final(self).wf(),
            final(self)@ == old(self)@.insert(id@, v),
            r is Some == old(self)@.contains_key(id@),
            r matches Some(o) ==> o == old(self)@[id@],
    {
        let r = self.remove(&id);
        let ghost before = *self;
        self.slots.push((id, v));
        let ghost n = before.slots@.len() as int;
        assert(self.slots@ == before.slots@.push((id, v)));
        assert forall|a: int, b: int|
            0 <= a < self.slots@.len() && 0 <= b < self.slots@.len() && a != b
                implies #[trigger] self.slots@[a].0@ != #[trigger] self.slots@[b].0@ by {
            if a < n && b < n {
                assert(self.slots@[a] == before.slots@[a]);
                assert(self.slots@[b] == before.slots@[b]);
            } else if a < n {
                assert(self.slots@[a] == before.slots@[a]);
                before.lemma_slot(a);
            } else {
                assert(self.slots@[b] == before.slots@[b]);
                before.lemma_slot(b);
            }
        }
        assert forall|k: Seq<char>| #[trigger] self@.contains_key(k)
            == before@.insert(id@, v).contains_key(k) by {
            if self@.contains_key(k) {
                let a = choose|a: int| 0 <= a < self.slots@.len() && #[trigger] self.slots@[a].0@ == k;
                if a < n {
                    assert(self.slots@[a] == before.slots@[a]);
                    before.lemma_slot(a);
                }
            }
            if before@.contains_key(k) {
                let a = choose|a: int| 0 <= a < before.slots@.len() && #[trigger] before.slots@[a].0@ == k;
                assert(self.slots@[a] == before.slots@[a]);
            }
            if k == id@ {
                assert(self.slots@[n].0@ == k);
            }
        }
        assert forall|k: Seq<char>| #[trigger] self@.contains_key(k)
            implies self@[k] == before@.insert(id@, v)[k] by {
            let a = choose|a: int| 0 <= a < self.slots@.len() && #[trigger] self.slots@[a].0@ == k;
            self.lemma_slot(a);
            if a < n {
                assert(self.slots@[a] == before.slots@[a]);
                before.lemma_slot(a);
            }
        }
        assert(self@ =~= before@.insert(id@, v));
        r
    }

    /// The ids that have a handle.
    pub fn keys(&self) -> (r: Vec<String>)
        requires
            self.wf(),
        ensures
            forall|k: Seq<char>|
                self@.contains_key(k) <==> exists|i: int| 0 <= i < r@.len() && #[trigger] r@[i]@ == k,
    {
        let mut r: Vec<String> = Vec::new();
        let mut i: usize = 0;
        while i < self.slots.len()
            invariant
                i <= self.slots@.len(),
                r@.len() == i,
                forall|j: int| 0 <= j < i ==> #[trigger] r@[j]@ == self.slots@[j].0@,
            decreases self.slots@.len() - i,
        {
            r.push(self.slots[i].0.clone());
            i = i + 1;
        }
        assert forall|k: Seq<char>|
            self@.contains_key(k) <==> exists|i: int| 0 <= i < r@.len() && #[trigger] r@[i]@ == k by {
            if self@.contains_key(k) {
                let a = choose|a: int| 0 <= a < self.slots@.len() && #[trigger] self.slots@[a].0@ == k;
                assert(r@[a]@ == k);
            }
            if exists|i: int| 0 <= i < r@.len() && #[trigger] r@[i]@ == k {
                let a = choose|i: int| 0 <= i < r@.len() && #[trigger] r@[i]@ == k;
                assert(self.slots@[a].0@ == k);
            }
        }
        r
    }
}

} // verus!
