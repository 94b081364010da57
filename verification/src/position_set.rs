use vstd::prelude::*;

verus! {

/// A finite set of map positions `(row, column)` kept in insertion order.
pub struct PositionSet {
    items: Vec<(usize, usize)>,
}

impl View for PositionSet {
    type V = Set<(usize, usize)>;

    closed spec fn view(&self) -> Set<(usize, usize)> {
        self.items@.to_set()
    }
}

impl PositionSet {
    /// No position is stored twice.
    #[verifier::type_invariant]
    closed spec fn no_repeats(self) -> bool {
        self.items@.no_duplicates()
    }

    /// The stored positions, in the order they were first inserted.
    pub closed spec fn order(self) -> Seq<(usize, usize)> {
        self.items@
    }

    /// The empty set.
    pub fn new() -> (s: PositionSet)
        ensures
            s@ == Set::<(usize, usize)>::empty(),
            s.order() == Seq::<(usize, usize)>::empty(),
    {
        let s = PositionSet { items: Vec::new() };
        assert(s@ =~= Set::<(usize, usize)>::empty());
        s
    }

    /// Whether `p` is in the set.
    pub fn contains(&self, p: (usize, usize)) -> (found: bool)
        ensures
            found == self@.contains(p),
    {
        let mut i: usize = 0;
        while i < self.items.len()
            invariant
                i <= self.items@.len(),
                forall|k: int| 0 <= k < i ==> self.items@[k] != p,
            decreases self.items@.len() - i,
        {
            let q = self.items[i];
            if q.0 == p.0 && q.1 == p.1 {
                assert(self.items@.contains(p));
                return true;
            }
            i = i + 1;
        }
        false
    }

    /// Adds `p`; answers whether it was new.
    pub fn insert(&mut self, p: (usize, usize)) -> (added: bool)
        ensures
            final(self)@ == old(self)@.insert(p),
            added == !old(self)@.contains(p),
            added ==> final(self).order() == old(self).order().push(p),
            !added ==> final(self).order() == old(self).order(),
    {
        if self.contains(p) {
            assert(self@.insert(p) =~= self@);
            false
        } else {
            proof {
                use_type_invariant(&*self);
            }
            let ghost before = self.items@;
            let mut taken = PositionSet::new();
            std::mem::swap(self, &mut taken);
            let mut items = taken.items;
            items.push(p);
            *self = PositionSet { items };
            proof {
                assert(self.items@.no_duplicates()) by {
                    assert forall|a: int, b: int|
                        0 <= a < self.items@.len() && 0 <= b < self.items@.len() && a != b
                        implies self.items@[a] != self.items@[b] by {
                        if a == before.len() as int {
                            assert(before.contains(before[b]));
                        } else if b == before.len() as int {
                            assert(before.contains(before[a]));
                        }
                    }
                }
                assert(self.items@.to_set() =~= before.to_set().insert(p)) by {
                    assert forall|q: (usize, usize)| self.items@.to_set().contains(q)
                        == before.to_set().insert(p).contains(q) by {
                        if self.items@.contains(q) && q != p {
                            let k = choose|k: int| 0 <= k < self.items@.len() && self.items@[k] == q;
                            assert(before[k] == q);
                        }
                        if before.contains(q) {
                            let k = choose|k: int| 0 <= k < before.len() && before[k] == q;
                            assert(self.items@[k] == q);
                        }
                        if q == p {
                            assert(self.items@[before.len() as int] == p);
                        }
                    }
                }
            }
            true
        }
    }

    /// The number of positions in the set.
    pub fn len(&self) -> (n: usize)
        ensures
            n == self@.len(),
            n == self.order().len(),
    {
        proof {
            use_type_invariant(self);
            self.items@.unique_seq_to_set();
        }
        self.items.len()
    }

    /// The positions, in insertion order.
    pub fn to_vec(&self) -> (v: Vec<(usize, usize)>)
        ensures
            v@ == self.order(),
            v@.no_duplicates(),
            v@.to_set() == self@,
    {
        proof {
            use_type_invariant(self);
        }
        let mut v: Vec<(usize, usize)> = Vec::new();
        let mut i: usize = 0;
        while i < self.items.len()
            invariant
                i <= self.items@.len(),
                v@ == self.items@.subrange(0, i as int),
            decreases self.items@.len() - i,
        {
            v.push(self.items[i]);
            i = i + 1;
            assert(v@ =~= self.items@.subrange(0, i as int));
        }
        assert(v@ =~= self.items@);
        v
    }
}

} // verus!
