use vstd::prelude::*;
use crate::text::{chars_eq, chars_lt, chars_of, lemma_lt_asymmetric, lemma_lt_irreflexive, lemma_lt_total, lemma_lt_transitive, seq_lt, views};

verus! {

/// Every element sorts strictly before every later one.
pub open spec fn strictly_sorted(s: Seq<Seq<char>>) -> bool {
    forall|i: int, j: int| 0 <= i < j < s.len() ==> seq_lt(#[trigger] s[i], #[trigger] s[j])
}

/// Every element is strictly smaller than every later one.
pub open spec fn strictly_increasing(s: Seq<usize>) -> bool {
    forall|i: int, j: int| 0 <= i < j < s.len() ==> #[trigger] s[i] < #[trigger] s[j]
}

/// Whether two strings are equal.
pub fn str_eq(a: &str, b: &str) -> (r: bool)
    ensures
        r == (a@ == b@),
{
    let x = chars_of(a);
    let y = chars_of(b);
    chars_eq(&x, &y)
}

/// A set of names, kept in sorted order (the order `BTreeSet<String>` and
/// a sorted `Vec<String>` have).
pub struct NameSet {
    names: Vec<String>,
}

impl NameSet {
    /// The names, in sorted order.
    pub closed spec fn elems(&self) -> Seq<Seq<char>> {
        views(self.names@)
    }

    #[verifier::type_invariant]
    closed spec fn inv(&self) -> bool {
        strictly_sorted(self.elems())
    }

    pub fn new() -> (r: NameSet)
        ensures
            r@ == Set::<Seq<char>>::empty(),
            r.elems() == Seq::<Seq<char>>::empty(),
    {
        let r = NameSet { names: Vec::new() };
        assert(r.elems() =~= Seq::<Seq<char>>::empty());
        assert(r@ =~= Set::<Seq<char>>::empty());
        r
    }

    /// The position of the first name not sorting before `x`.
    fn lower_bound(&self, x: &Vec<char>) -> (r: usize)
        ensures
            r <= self.elems().len(),
            forall|k: int| 0 <= k < r ==> seq_lt(#[trigger] self.elems()[k], x@),
            r < self.elems().len() ==> !seq_lt(self.elems()[r as int], x@),
    {
        let n = self.names.len();
        let mut i: usize = 0;
        while i < n
            invariant
                n == self.names@.len(),
                self.elems().len() == n,
                i <= n,
                forall|k: int| 0 <= k < i ==> seq_lt(#[trigger] self.elems()[k], x@),
            decreases n - i,
        {
            let y = chars_of(self.names[i].as_str());
            if !chars_lt(&y, x) {
                return i;
            }
            i = i + 1;
        }
        i
    }

    /// Whether `x` is in the set.
    pub fn contains(&self, x: &str) -> (r: bool)
        ensures
            r == self@.contains(x@),
    {
        proof {
            use_type_invariant(self);
        }
        let xv = chars_of(x);
        let i = self.lower_bound(&xv);
        let found = i < self.names.len() && str_eq(self.names[i].as_str(), x);
        proof {
            if !found {
                if self@.contains(x@) {
                    let k = choose|k: int| 0 <= k < self.elems().len() && self.elems()[k] == x@;
                    lemma_lt_irreflexive(x@);
                    if k >= i {
                        if k > i {
                            assert(seq_lt(self.elems()[i as int], self.elems()[k]));
                            lemma_lt_total(self.elems()[i as int], x@);
                        }
                    }
                    assert(false);
                }
            } else {
                assert(self.elems()[i as int] == x@);
            }
        }
        found
    }

    /// Adds `x`; true when it was not there before.
    pub fn insert(&mut self, x: String) -> (r: bool)
        ensures
            final(self)@ == old(self)@.insert(x@),
            r == !old(self)@.contains(x@),
    {
        proof {
            use_type_invariant(&*self);
        }
        let xv = chars_of(x.as_str());
        let i = self.lower_bound(&xv);
        if i < self.names.len() && str_eq(self.names[i].as_str(), x.as_str()) {
            proof {
                assert(self.elems().contains(x@));
                assert(old(self)@.insert(x@) =~= old(self)@);
            }
            return false;
        }
        let ghost old_elems = self.elems();
        proof {
            lemma_lt_irreflexive(x@);
            if i < old_elems.len() {
                lemma_lt_total(old_elems[i as int], x@);
                assert(seq_lt(x@, old_elems[i as int]));
            }
            assert forall|k: int| 0 <= k < old_elems.len() implies old_elems[k] != x@ by {
                if k >= i {
                    if k > i {
                        assert(seq_lt(old_elems[i as int], old_elems[k]));
                        lemma_lt_transitive(x@, old_elems[i as int], old_elems[k]);
                        lemma_lt_irreflexive(x@);
                    }
                }
            }
        }
        let mut v: Vec<String> = Vec::new();
        std::mem::swap(&mut v, &mut self.names);
        v.insert(i, x);
        proof {
            let ne = views(v@);
            assert(ne =~= old_elems.insert(i as int, x@));
            assert forall|a: int, b: int| 0 <= a < b < ne.len() implies seq_lt(
                #[trigger] ne[a],
                #[trigger] ne[b],
            ) by {
                if b == i {
                    assert(ne[a] == old_elems[a]);
                } else if a == i {
                    assert(ne[b] == old_elems[b - 1]);
                    if b - 1 > i {
                        assert(seq_lt(old_elems[i as int], old_elems[b - 1]));
                        lemma_lt_transitive(x@, old_elems[i as int], old_elems[b - 1]);
                    }
                } else if a < i && b > i {
                    assert(seq_lt(old_elems[a], x@));
                    assert(seq_lt(x@, ne[b])) by {
                        if b - 1 > i {
                            assert(seq_lt(old_elems[i as int], old_elems[b - 1]));
                            lemma_lt_transitive(x@, old_elems[i as int], old_elems[b - 1]);
                        }
                    }
                    lemma_lt_transitive(ne[a], x@, ne[b]);
                } else if b < i {
                    assert(ne[a] == old_elems[a] && ne[b] == old_elems[b]);
                } else {
                    assert(ne[a] == old_elems[a - 1] && ne[b] == old_elems[b - 1]);
                }
            }
            assert(ne.to_set() =~= old_elems.to_set().insert(x@)) by {
                assert forall|y: Seq<char>| ne.to_set().contains(y) implies old_elems.to_set().insert(
                    x@,
                ).contains(y) by {
                    let k = choose|k: int| 0 <= k < ne.len() && ne[k] == y;
                    if k < i {
                        assert(old_elems[k] == y);
                    } else if k > i {
                        assert(old_elems[k - 1] == y);
                    }
                }
                assert forall|y: Seq<char>| old_elems.to_set().insert(x@).contains(y) implies ne.to_set().contains(
                    y,
                ) by {
                    if y == x@ {
                        assert(ne[i as int] == y);
                    } else {
                        let k = choose|k: int| 0 <= k < old_elems.len() && old_elems[k] == y;
                        if k < i {
                            assert(ne[k] == y);
                        } else {
                            assert(ne[k + 1] == y);
                        }
                    }
                }
            }
        }
        self.names = v;
        true
    }

    /// Removes `x`; true when it was there.
    pub fn remove(&mut self, x: &str) -> (r: bool)
        ensures
            final(self)@ == old(self)@.remove(x@),
            r == old(self)@.contains(x@),
    {
        proof {
            use_type_invariant(&*self);
        }
        let present = self.contains(x);
        if !present {
            proof {
                assert(old(self)@.remove(x@) =~= old(self)@);
            }
            return false;
        }
        let xv = chars_of(x);
        let i = self.lower_bound(&xv);
        let ghost old_elems = self.elems();
        proof {
            let k = choose|k: int| 0 <= k < old_elems.len() && old_elems[k] == x@;
            lemma_lt_irreflexive(x@);
            if k < i {
                assert(seq_lt(old_elems[k], x@));
            } else if k > i {
                assert(i < old_elems.len());
                assert(seq_lt(old_elems[i as int], old_elems[k]));
                lemma_lt_total(old_elems[i as int], x@);
                lemma_lt_asymmetric(old_elems[i as int], x@);
            }
            assert(old_elems[i as int] == x@);
        }
        let mut v: Vec<String> = Vec::new();
        std::mem::swap(&mut v, &mut self.names);
        v.remove(i);
        proof {
            let ne = views(v@);
            assert(ne =~= old_elems.remove(i as int));
            assert forall|a: int, b: int| 0 <= a < b < ne.len() implies seq_lt(
                #[trigger] ne[a],
                #[trigger] ne[b],
            ) by {
                if b < i {
                    assert(ne[a] == old_elems[a] && ne[b] == old_elems[b]);
                } else if a < i {
                    assert(ne[a] == old_elems[a] && ne[b] == old_elems[b + 1]);
                } else {
                    assert(ne[a] == old_elems[a + 1] && ne[b] == old_elems[b + 1]);
                }
            }
            assert(ne.to_set() =~= old_elems.to_set().remove(x@)) by {
                assert forall|y: Seq<char>| ne.to_set().contains(y) implies old_elems.to_set().remove(
                    x@,
                ).contains(y) by {
                    let k = choose|k: int| 0 <= k < ne.len() && ne[k] == y;
                    if k < i {
                        assert(old_elems[k] == y);
                        assert(seq_lt(old_elems[k], old_elems[i as int]));
                    } else {
                        assert(old_elems[k + 1] == y);
                        assert(seq_lt(old_elems[i as int], old_elems[k + 1]));
                    }
                    lemma_lt_irreflexive(y);
                }
                assert forall|y: Seq<char>| old_elems.to_set().remove(x@).contains(y) implies ne.to_set().contains(
                    y,
                ) by {
                    let k = choose|k: int| 0 <= k < old_elems.len() && old_elems[k] == y;
                    if k < i {
                        assert(ne[k] == y);
                    } else {
                        assert(k != i);
                        assert(ne[k - 1] == y);
                    }
                }
            }
        }
        self.names = v;
        true
    }

    /// Whether the set has no names.
    pub fn is_empty(&self) -> (r: bool)
        ensures
            r == (self@ == Set::<Seq<char>>::empty()),
            r == (self.elems().len() == 0),
    {
        let r = self.names.len() == 0;
        proof {
            if !r {
                assert(self@.contains(self.elems()[0]));
            } else {
                assert(self@ =~= Set::<Seq<char>>::empty());
            }
        }
        r
    }

    /// Removes every name.
    pub fn clear(&mut self)
        ensures
            final(self)@ == Set::<Seq<char>>::empty(),
    {
        self.names = Vec::new();
        assert(self.elems() =~= Seq::<Seq<char>>::empty());
        assert(self@ =~= Set::<Seq<char>>::empty());
    }

    /// The names in sorted order.
    pub fn to_vec(&self) -> (r: Vec<String>)
        ensures
            views(r@) == self.elems(),
            strictly_sorted(views(r@)),
    {
        proof {
            use_type_invariant(self);
        }
        let r = self.names.clone();
        assert(r@ == self.names@) by {
            assert forall|k: int| 0 <= k < r@.len() implies r@[k] == self.names@[k] by {
                assert(cloned::<String>(self.names[k], r[k]));
            }
            assert(r@ =~= self.names@);
        }
        r
    }
}

impl View for NameSet {
    type V = Set<Seq<char>>;

    open spec fn view(&self) -> Set<Seq<char>> {
        self.elems().to_set()
    }
}

} // verus!

verus! {

/// A set of positions, kept in increasing order.
pub struct IndexSet {
    items: Vec<usize>,
}

impl IndexSet {
    /// The positions, in increasing order.
    pub closed spec fn elems(&self) -> Seq<usize> {
        self.items@
    }

    #[verifier::type_invariant]
    closed spec fn inv(&self) -> bool {
        strictly_increasing(self.elems())
    }

    pub fn new() -> (r: IndexSet)
        ensures
            r@ == Set::<usize>::empty(),
            r.elems() == Seq::<usize>::empty(),
    {
        let r = IndexSet { items: Vec::new() };
        assert(r@ =~= Set::<usize>::empty());
        r
    }

    /// The position of the first item not below `x`.
    fn lower_bound(&self, x: usize) -> (r: usize)
        ensures
            r <= self.elems().len(),
            forall|k: int| 0 <= k < r ==> #[trigger] self.elems()[k] < x,
            r < self.elems().len() ==> self.elems()[r as int] >= x,
    {
        let n = self.items.len();
        let mut i: usize = 0;
        while i < n && self.items[i] < x
            invariant
                n == self.items@.len(),
                i <= n,
                forall|k: int| 0 <= k < i ==> #[trigger] self.elems()[k] < x,
            decreases n - i,
        {
            i = i + 1;
        }
        i
    }

    /// Whether `x` is in the set.
    pub fn contains(&self, x: &usize) -> (r: bool)
        ensures
            r == self@.contains(*x),
    {
        proof {
            use_type_invariant(self);
        }
        let i = self.lower_bound(*x);
        let found = i < self.items.len() && self.items[i] == *x;
        proof {
            if !found && self@.contains(*x) {
                let k = choose|k: int| 0 <= k < self.elems().len() && self.elems()[k] == *x;
                if k > i {
                    assert(self.elems()[i as int] < self.elems()[k]);
                }
                assert(false);
            }
        }
        found
    }

    /// Adds `x`; true when it was not there before.
    pub fn insert(&mut self, x: usize) -> (r: bool)
        ensures
            final(self)@ == old(self)@.insert(x),
            r == !old(self)@.contains(x),
    {
        proof {
            use_type_invariant(&*self);
        }
        let i = self.lower_bound(x);
        if i < self.items.len() && self.items[i] == x {
            proof {
                assert(self.elems().contains(x));
                assert(old(self)@.insert(x) =~= old(self)@);
            }
            return false;
        }
        let ghost old_elems = self.elems();
        proof {
            assert forall|k: int| 0 <= k < old_elems.len() implies old_elems[k] != x by {
                if k > i {
                    assert(old_elems[i as int] < old_elems[k]);
                }
            }
        }
        let mut v: Vec<usize> = Vec::new();
        std::mem::swap(&mut v, &mut self.items);
        v.insert(i, x);
        proof {
            assert(v@ =~= old_elems.insert(i as int, x));
            assert forall|a: int, b: int| 0 <= a < b < v@.len() implies #[trigger] v@[a]
                < #[trigger] v@[b] by {
                if b <= i {
                } else if a == i {
                    if b - 1 > i {
                        assert(old_elems[i as int] < old_elems[b - 1]);
                    }
                } else if a < i {
                    if b - 1 > i {
                        assert(old_elems[i as int] < old_elems[b - 1]);
                    }
                } else {
                    assert(old_elems[a - 1] < old_elems[b - 1]);
                }
            }
            assert(v@.to_set() =~= old_elems.to_set().insert(x)) by {
                assert forall|y: usize| v@.to_set().contains(y) implies old_elems.to_set().insert(
                    x,
                ).contains(y) by {
                    let k = choose|k: int| 0 <= k < v@.len() && v@[k] == y;
                    if k < i {
                        assert(old_elems[k] == y);
                    } else if k > i {
                        assert(old_elems[k - 1] == y);
                    }
                }
                assert forall|y: usize| old_elems.to_set().insert(x).contains(y) implies v@.to_set().contains(
                    y,
                ) by {
                    if y == x {
                        assert(v@[i as int] == y);
                    } else {
                        let k = choose|k: int| 0 <= k < old_elems.len() && old_elems[k] == y;
                        if k < i {
                            assert(v@[k] == y);
                        } else {
                            assert(v@[k + 1] == y);
                        }
                    }
                }
            }
        }
        self.items = v;
        true
    }

    /// Removes `x`; true when it was there.
    pub fn remove(&mut self, x: &usize) -> (r: bool)
        ensures
            final(self)@ == old(self)@.remove(*x),
            r == old(self)@.contains(*x),
    {
        proof {
            use_type_invariant(&*self);
        }
        let i = self.lower_bound(*x);
        if !(i < self.items.len() && self.items[i] == *x) {
            proof {
                if old(self)@.contains(*x) {
                    let k = choose|k: int| 0 <= k < self.elems().len() && self.elems()[k] == *x;
                    if k > i {
                        assert(self.elems()[i as int] < self.elems()[k]);
                    }
                }
                assert(old(self)@.remove(*x) =~= old(self)@);
            }
            return false;
        }
        let ghost old_elems = self.elems();
        let mut v: Vec<usize> = Vec::new();
        std::mem::swap(&mut v, &mut self.items);
        v.remove(i);
        proof {
            assert(v@ =~= old_elems.remove(i as int));
            assert forall|a: int, b: int| 0 <= a < b < v@.len() implies #[trigger] v@[a]
                < #[trigger] v@[b] by {
                if b < i {
                } else if a < i {
                    assert(old_elems[a] < old_elems[b + 1]);
                } else {
                    assert(old_elems[a + 1] < old_elems[b + 1]);
                }
            }
            assert(v@.to_set() =~= old_elems.to_set().remove(*x)) by {
                assert forall|y: usize| v@.to_set().contains(y) implies old_elems.to_set().remove(
                    *x,
                ).contains(y) by {
                    let k = choose|k: int| 0 <= k < v@.len() && v@[k] == y;
                    if k < i {
                        assert(old_elems[k] == y);
                        assert(old_elems[k] < old_elems[i as int]);
                    } else {
                        assert(old_elems[k + 1] == y);
                        assert(old_elems[i as int] < old_elems[k + 1]);
                    }
                }
                assert forall|y: usize| old_elems.to_set().remove(*x).contains(y) implies v@.to_set().contains(
                    y,
                ) by {
                    let k = choose|k: int| 0 <= k < old_elems.len() && old_elems[k] == y;
                    if k < i {
                        assert(v@[k] == y);
                    } else {
                        assert(k != i);
                        assert(v@[k - 1] == y);
                    }
                }
            }
        }
        self.items = v;
        true
    }

    /// Whether the set is empty.
    pub fn is_empty(&self) -> (r: bool)
        ensures
            r == (self@ == Set::<usize>::empty()),
    {
        let r = self.items.len() == 0;
        proof {
            if !r {
                assert(self@.contains(self.elems()[0]));
            } else {
                assert(self@ =~= Set::<usize>::empty());
            }
        }
        r
    }

    /// Removes every item.
    pub fn clear(&mut self)
        ensures
            final(self)@ == Set::<usize>::empty(),
    {
        self.items = Vec::new();
        assert(self@ =~= Set::<usize>::empty());
    }

    /// The items in increasing order.
    pub fn to_vec(&self) -> (r: Vec<usize>)
        ensures
            r@ == self.elems(),
            r@.to_set() == self@,
            strictly_increasing(r@),
    {
        proof {
            use_type_invariant(self);
        }
        let r = self.items.clone();
        assert(r@ =~= self.items@);
        r
    }
}

impl View for IndexSet {
    type V = Set<usize>;

    open spec fn view(&self) -> Set<usize> {
        self.elems().to_set()
    }
}

} // verus!
