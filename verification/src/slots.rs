//! The slot collection: a growable sequence of optional entities.
//! Insertion fills the lowest-index empty slot and only appends when no
//! slot is empty; removal empties a slot in place, so indices of other
//! entities never move.

use vstd::prelude::*;

verus! {

/// Index of the lowest empty slot, or `s.len()` when every slot is full.
pub open spec fn lowest_free_slot<T>(s: Seq<Option<T>>) -> int
    decreases s.len(),
{
    if s.len() == 0 {
        0
    } else if s[0] is None {
        0
    } else {
        1 + lowest_free_slot(s.skip(1))
    }
}

/// The collection after an insertion: the lowest empty slot is filled,
/// and only a full collection grows.
pub open spec fn inserted<T>(s: Seq<Option<T>>, item: T) -> Seq<Option<T>> {
    let i = lowest_free_slot(s);
    if i < s.len() {
        s.update(i, Some(item))
    } else {
        s.push(Some(item))
    }
}

/// Every slot of the collection is empty.
pub open spec fn slots_all_empty<T>(s: Seq<Option<T>>) -> bool {
    forall|i: int| 0 <= i < s.len() ==> s[i] is None
}

/// How many slots are occupied.
pub open spec fn occupied_count<T>(s: Seq<Option<T>>) -> nat
    decreases s.len(),
{
    if s.len() == 0 {
        0
    } else {
        occupied_count(s.drop_last()) + if s.last() is Some {
            1nat
        } else {
            0nat
        }
    }
}

/// Law of slot reuse: the slot an insertion fills is empty, and every
/// slot below it is occupied — so an insertion reuses the lowest empty
/// slot and appends only when there is none.
pub proof fn lemma_lowest_free_slot<T>(s: Seq<Option<T>>)
    ensures
        0 <= lowest_free_slot(s) <= s.len(),
        forall|k: int| 0 <= k < lowest_free_slot(s) ==> #[trigger] s[k] is Some,
        lowest_free_slot(s) < s.len() ==> s[lowest_free_slot(s)] is None,
    decreases s.len(),
{
    if s.len() == 0 {
    } else if s[0] is None {
    } else {
        lemma_lowest_free_slot(s.skip(1));
        assert forall|k: int| 0 <= k < lowest_free_slot(s) implies #[trigger] s[k] is Some by {
            if k >= 1 {
                assert(s.skip(1)[k - 1] is Some);
                assert(s.skip(1)[k - 1] == s[k]);
            }
        }
        if lowest_free_slot(s) < s.len() {
            assert(s.skip(1)[lowest_free_slot(s.skip(1))] == s[lowest_free_slot(s)]);
        }
    }
}

/// An empty collection has no occupied slot.
pub proof fn lemma_occupied_count_all_empty<T>(s: Seq<Option<T>>)
    requires
        slots_all_empty(s),
    ensures
        occupied_count(s) == 0,
    decreases s.len(),
{
    if s.len() > 0 {
        lemma_occupied_count_all_empty(s.drop_last());
    }
}

/// A collection whose only occupied slot is `j` holds exactly one entity.
pub proof fn lemma_occupied_count_single<T>(s: Seq<Option<T>>, j: int)
    requires
        0 <= j < s.len(),
        s[j] is Some,
        forall|k: int| 0 <= k < s.len() && k != j ==> #[trigger] s[k] is None,
    ensures
        occupied_count(s) == 1,
    decreases s.len(),
{
    if j == s.len() - 1 {
        lemma_occupied_count_all_empty(s.drop_last());
    } else {
        lemma_occupied_count_single(s.drop_last(), j);
    }
}

/// Report whether every slot of the collection is empty.
pub fn no_occupied_slot<T>(optionvec: &Vec<Option<T>>) -> (b: bool)
    ensures
        b == slots_all_empty(optionvec@),
{
    let mut i: usize = 0;
    while i < optionvec.len()
        invariant
            i <= optionvec@.len(),
            forall|k: int| 0 <= k < i ==> #[trigger] optionvec@[k] is None,
        decreases optionvec@.len() - i,
    {
        if optionvec[i].is_some() {
            return false;
        }
        i += 1;
    }
    true
}

/// Find the lowest empty slot, if any.
fn find_first_free<T>(optionvec: &Vec<Option<T>>) -> (r: Option<usize>)
    ensures
        match r {
            Some(i) => i == lowest_free_slot(optionvec@) && i < optionvec@.len(),
            None => lowest_free_slot(optionvec@) == optionvec@.len(),
        },
{
    let mut i: usize = 0;
    while i < optionvec.len()
        invariant
            i <= optionvec@.len(),
            forall|k: int| 0 <= k < i ==> #[trigger] optionvec@[k] is Some,
        decreases optionvec@.len() - i,
    {
        if optionvec[i].is_none() {
            proof {
                lemma_lowest_free_slot(optionvec@);
            }
            return Some(i);
        }
        i += 1;
    }
    proof {
        lemma_lowest_free_slot(optionvec@);
    }
    None
}

/// Insert an entity into the lowest empty slot, appending only when every
/// slot is occupied.
pub fn insert_into_option_vec<T>(optionvec: &mut Vec<Option<T>>, item: T)
    ensures
        final(optionvec)@ == inserted(old(optionvec)@, item),
{
    let index = find_first_free(optionvec);
    match index {
        Some(i) => {
            optionvec.set(i, Some(item));
        },
        None => {
            optionvec.push(Some(item));
        },
    }
}

/// Empty the marked slots. Other slots, and the collection's length, are
/// untouched.
pub fn delete_marked_entities<T>(optionvec: &mut Vec<Option<T>>, marks: Vec<usize>)
    requires
        forall|j: int| 0 <= j < marks@.len() ==> #[trigger] marks@[j] < old(optionvec)@.len(),
    ensures
        final(optionvec)@.len() == old(optionvec)@.len(),
        forall|i: int|
            0 <= i < final(optionvec)@.len() ==> #[trigger] final(optionvec)@[i] == (
            if marks@.contains(i as usize) {
                None::<T>
            } else {
                old(optionvec)@[i]
            }),
{
    let n = optionvec.len();
    let mut j: usize = 0;
    while j < marks.len()
        invariant
            j <= marks@.len(),
            forall|k: int| 0 <= k < marks@.len() ==> #[trigger] marks@[k] < optionvec@.len(),
            optionvec@.len() == n,
            optionvec@.len() == old(optionvec)@.len(),
            forall|i: int|
                0 <= i < optionvec@.len() ==> #[trigger] optionvec@[i] == (
                if (exists|k: int| 0 <= k < j && #[trigger] marks@[k] == i as usize) {
                    None::<T>
                } else {
                    old(optionvec)@[i]
                }),
        decreases marks@.len() - j,
    {
        let idx = marks[j];
        optionvec.set(idx, None);
        proof {
            assert forall|i: int| 0 <= i < optionvec@.len() implies #[trigger] optionvec@[i] == (
                if (exists|k: int| 0 <= k < j + 1 && #[trigger] marks@[k] == i as usize) {
                    None::<T>
                } else {
                    old(optionvec)@[i]
                }) by {
                if i == idx as int {
                    assert(marks@[j as int] == i as usize);
                } else {
                    if exists|k: int| 0 <= k < j + 1 && #[trigger] marks@[k] == i as usize {
                        let k = choose|k: int|
                            0 <= k < j + 1 && #[trigger] marks@[k] == i as usize;
                        assert(0 <= i < n as int);
                        assert((i as usize) as int == i);
                        assert(k < j);
                        assert(exists|k2: int| 0 <= k2 < j && #[trigger] marks@[k2] == i as usize);
                    }
                }
            }
        }
        j += 1;
    }
    proof {
        assert forall|u: usize| (exists|k: int| 0 <= k < marks@.len() && #[trigger] marks@[k] == u)
            <==> #[trigger] marks@.contains(u) by {
            if marks@.contains(u) {
                let w = choose|w: int| 0 <= w < marks@.len() && marks@[w] == u;
                assert(marks@[w] == u);
            }
        }
    }
}

} // verus!
