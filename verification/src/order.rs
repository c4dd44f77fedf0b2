//! A merge sort for the lists the engine orders.

use vstd::prelude::*;

verus! {

broadcast use vstd::seq_lib::group_to_multiset_ensures;

/// Items the engine sorts: a comparison that decides which of two items
/// goes first, described by a relation on the items.
pub trait Sequenced: Sized {
    /// `self` may stand before `other` in a sorted list.
    spec fn key_le(self, other: Self) -> bool;

    /// Whether `self` goes strictly before `other`.
    fn precedes(&self, other: &Self) -> (r: bool)
        ensures
            r ==> self.key_le(*other),
            !r ==> other.key_le(*self);

    /// A copy of the item.
    fn duplicate(&self) -> (r: Self)
        ensures
            r == *self;
}

/// Each item may stand before the next one.
pub open spec fn sorted_adjacent<T: Sequenced>(s: Seq<T>) -> bool {
    forall|i: int| 0 <= i < s.len() - 1 ==> #[trigger] s[i].key_le(s[i + 1])
}

fn merge<T: Sequenced>(a: &Vec<T>, b: &Vec<T>) -> (r: Vec<T>)
    requires
        sorted_adjacent(a@),
        sorted_adjacent(b@),
    ensures
        sorted_adjacent(r@),
        r@.to_multiset() == a@.to_multiset().add(b@.to_multiset()),
{
    broadcast use vstd::multiset::group_multiset_axioms;
    let mut out: Vec<T> = Vec::new();
    let mut i: usize = 0;
    let mut j: usize = 0;
    assert(a@.take(0) =~= Seq::<T>::empty());
    assert(b@.take(0) =~= Seq::<T>::empty());
    while i < a.len() || j < b.len()
        invariant
            0 <= i <= a.len(),
            0 <= j <= b.len(),
            sorted_adjacent(a@),
            sorted_adjacent(b@),
            sorted_adjacent(out@),
            out@.len() == i + j,
            out@.to_multiset() == a@.take(i as int).to_multiset().add(b@.take(j as int).to_multiset()),
            out@.len() > 0 && i < a.len() ==> out@.last().key_le(a@[i as int]),
            out@.len() > 0 && j < b.len() ==> out@.last().key_le(b@[j as int]),
        decreases a.len() + b.len() - i - j,
    {
        let take_left = if i < a.len() {
            if j < b.len() {
                !b[j].precedes(&a[i])
            } else {
                true
            }
        } else {
            false
        };
        if take_left {
            let x = a[i].duplicate();
            assert(a@.take(i + 1) =~= a@.take(i as int).push(a@[i as int]));
            out.push(x);
            i = i + 1;
            assert(i < a.len() ==> a@[i - 1].key_le(a@[i as int]));
        } else {
            let x = b[j].duplicate();
            assert(b@.take(j + 1) =~= b@.take(j as int).push(b@[j as int]));
            out.push(x);
            j = j + 1;
            assert(j < b.len() ==> b@[j - 1].key_le(b@[j as int]));
        }
    }
    assert(a@.take(a.len() as int) =~= a@);
    assert(b@.take(b.len() as int) =~= b@);
    out
}

fn sort_range<T: Sequenced>(v: &Vec<T>, lo: usize, hi: usize) -> (r: Vec<T>)
    requires
        lo <= hi <= v.len(),
    ensures
        sorted_adjacent(r@),
        r@.to_multiset() == v@.subrange(lo as int, hi as int).to_multiset(),
    decreases hi - lo,
{
    broadcast use vstd::multiset::group_multiset_axioms;
    if hi - lo == 0 {
        assert(v@.subrange(lo as int, hi as int) =~= Seq::<T>::empty());
        Vec::new()
    } else if hi - lo == 1 {
        let mut r: Vec<T> = Vec::new();
        r.push(v[lo].duplicate());
        assert(v@.subrange(lo as int, hi as int) =~= Seq::<T>::empty().push(v@[lo as int]));
        assert(r@ =~= Seq::<T>::empty().push(v@[lo as int]));
        r
    } else {
        let mid = lo + (hi - lo) / 2;
        let left = sort_range(v, lo, mid);
        let right = sort_range(v, mid, hi);
        assert(v@.subrange(lo as int, hi as int) =~= v@.subrange(lo as int, mid as int) + v@.subrange(
            mid as int,
            hi as int,
        ));
        proof {
            vstd::seq_lib::lemma_multiset_commutative(
                v@.subrange(lo as int, mid as int),
                v@.subrange(mid as int, hi as int),
            );
        }
        merge(&left, &right)
    }
}

/// Sorts a list: the result holds the same items, each of which may stand
/// before the next.
pub fn sort_items<T: Sequenced>(v: &Vec<T>) -> (r: Vec<T>)
    ensures
        sorted_adjacent(r@),
        r@.to_multiset() == v@.to_multiset(),
        r@.len() == v@.len(),
{
    let r = sort_range(v, 0, v.len());
    assert(v@.subrange(0, v.len() as int) =~= v@);
    proof {
        r@.to_multiset_ensures();
        v@.to_multiset_ensures();
    }
    r
}

} // verus!
