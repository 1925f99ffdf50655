//! Ordering by an integer key, stably: what ranks equal keeps its order.

use vstd::prelude::*;

verus! {

/// A value that is ordered by an integer key.
pub trait Keyed: Sized {
    /// The key by which the value is ordered.
    spec fn key(self) -> int;

    /// The key by which the value is ordered.
    fn key_of(&self) -> (k: i64)
        ensures
            k == self.key(),
    ;
}

impl Keyed for i64 {
    open spec fn key(self) -> int {
        self as int
    }

    fn key_of(&self) -> (k: i64) {
        *self
    }
}

/// `sorted` with `t` put behind every value whose key is not greater.
pub open spec fn inserted<T: Keyed>(sorted: Seq<T>, t: T) -> Seq<T>
    decreases sorted.len(),
{
    if sorted.len() == 0 {
        seq![t]
    } else if sorted.last().key() <= t.key() {
        sorted.push(t)
    } else {
        inserted(sorted.drop_last(), t).push(sorted.last())
    }
}

/// The values in the order of their keys; values of one key keep their
/// order.
pub open spec fn sorted_by_key<T: Keyed>(values: Seq<T>) -> Seq<T>
    decreases values.len(),
{
    if values.len() == 0 {
        Seq::<T>::empty()
    } else {
        inserted(sorted_by_key(values.drop_last()), values.last())
    }
}

/// Whether the keys never fall from one value to the next.
pub open spec fn ordered<T: Keyed>(values: Seq<T>) -> bool {
    forall|i: int, j: int| 0 <= i <= j < values.len() ==> values[i].key() <= values[j].key()
}

/// Putting a value where the tail is greater and the head is not equals the
/// insertion by key.
pub proof fn lemma_insert_position<T: Keyed>(sorted: Seq<T>, t: T, at: int)
    requires
        0 <= at <= sorted.len(),
        forall|j: int| at <= j < sorted.len() ==> sorted[j].key() > t.key(),
        at > 0 ==> sorted[at - 1].key() <= t.key(),
    ensures
        inserted(sorted, t) == sorted.insert(at, t),
    decreases sorted.len() - at,
{
    if sorted.len() == 0 {
        assert(sorted.insert(at, t) =~= seq![t]);
    } else if at == sorted.len() {
        assert(sorted.insert(at, t) =~= sorted.push(t));
    } else {
        let front = sorted.drop_last();
        lemma_insert_position(front, t, at);
        assert(front.insert(at, t).push(sorted.last()) =~= sorted.insert(at, t));
    }
}

/// Insertion keeps the order and adds exactly the one value.
pub proof fn lemma_inserted<T: Keyed>(sorted: Seq<T>, t: T)
    requires
        ordered(sorted),
    ensures
        ordered(inserted(sorted, t)),
        inserted(sorted, t).len() == sorted.len() + 1,
        inserted(sorted, t).to_multiset() == sorted.to_multiset().insert(t),
    decreases sorted.len(),
{
    broadcast use vstd::seq_lib::group_to_multiset_ensures;

    if sorted.len() == 0 {
        assert(sorted =~= Seq::<T>::empty());
        assert(seq![t] =~= Seq::<T>::empty().push(t));
    } else if sorted.last().key() <= t.key() {
    } else {
        let front = sorted.drop_last();
        assert(ordered(front));
        lemma_inserted(front, t);
        let placed = inserted(front, t);
        assert(sorted =~= front.push(sorted.last()));
        assert forall|i: int| 0 <= i < placed.len() implies placed[i].key()
            <= sorted.last().key() by {
            assert(placed.to_multiset().count(placed[i]) > 0);
            if placed[i] != t {
                assert(front.to_multiset().count(placed[i]) > 0);
                assert(front.contains(placed[i]));
                let k = choose|k: int| 0 <= k < front.len() && front[k] == placed[i];
                assert(sorted[k].key() <= sorted[sorted.len() - 1].key());
            }
        }
    }
}

/// Sorting orders the values and keeps each of them.
pub proof fn lemma_sorted_by_key<T: Keyed>(values: Seq<T>)
    ensures
        ordered(sorted_by_key(values)),
        sorted_by_key(values).len() == values.len(),
        sorted_by_key(values).to_multiset() == values.to_multiset(),
    decreases values.len(),
{
    broadcast use vstd::seq_lib::group_to_multiset_ensures;

    if values.len() > 0 {
        lemma_sorted_by_key(values.drop_last());
        lemma_inserted(sorted_by_key(values.drop_last()), values.last());
        assert(values =~= values.drop_last().push(values.last()));
    } else {
        assert(values =~= Seq::<T>::empty());
    }
}

/// What is in order already stays as it is.
pub proof fn lemma_sorted_is_fixed<T: Keyed>(values: Seq<T>)
    requires
        ordered(values),
    ensures
        sorted_by_key(values) == values,
    decreases values.len(),
{
    if values.len() > 0 {
        let front = values.drop_last();
        assert(ordered(front));
        lemma_sorted_is_fixed(front);
        if front.len() > 0 {
            assert(front.last() == values[values.len() - 2]);
        }
        assert(values =~= front.push(values.last()));
    } else {
        assert(values =~= Seq::<T>::empty());
    }
}

/// Puts `t` into `sorted` behind every value whose key is not greater.
pub fn insert_by_key<T: Keyed>(sorted: &mut Vec<T>, t: T)
    ensures
        final(sorted)@ == inserted(old(sorted)@, t),
{
    let key: i64 = t.key_of();
    let mut at: usize = sorted.len();
    while at > 0 && sorted[at - 1].key_of() > key
        invariant
            at <= sorted.len(),
            sorted@ == old(sorted)@,
            key == t.key(),
            forall|j: int| at <= j < sorted.len() ==> sorted@[j].key() > t.key(),
        decreases at,
    {
        at -= 1;
    }
    proof {
        lemma_insert_position(sorted@, t, at as int);
    }
    sorted.insert(at, t);
}

} // verus!
