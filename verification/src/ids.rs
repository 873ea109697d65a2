//! The identifier allocation policy: a new record gets the highest
//! identifier in use plus one, and the first record gets 1.

use vstd::prelude::*;

verus! {

/// The highest identifier of `ids` that is positive and at most `bound`,
/// or 0 where there is none.
pub open spec fn highest_id_upto(ids: Set<u32>, bound: u32) -> u32
    decreases bound,
{
    if bound == 0 {
        0
    } else if ids.contains(bound) {
        bound
    } else {
        highest_id_upto(ids, (bound - 1) as u32)
    }
}

/// The highest identifier in use, or 0 where none is.
pub open spec fn max_id(ids: Set<u32>) -> u32 {
    highest_id_upto(ids, u32::MAX)
}

/// The identifier that the next record gets. It exceeds `u32::MAX` exactly
/// where the identifier space is used up.
pub open spec fn next_id(ids: Set<u32>) -> int {
    max_id(ids) + 1
}

/// `top` bounds every identifier of `ids` and is itself one of them, or is 0.
pub open spec fn is_highest(ids: Set<u32>, top: u32) -> bool {
    &&& top == 0 || ids.contains(top)
    &&& forall|id: u32| ids.contains(id) ==> id <= top
}

proof fn lemma_highest_id_upto(ids: Set<u32>, bound: u32)
    ensures
        highest_id_upto(ids, bound) <= bound,
        highest_id_upto(ids, bound) == 0 || ids.contains(highest_id_upto(ids, bound)),
        forall|id: u32| ids.contains(id) && id <= bound ==> id <= highest_id_upto(ids, bound),
    decreases bound,
{
    if bound != 0 && !ids.contains(bound) {
        lemma_highest_id_upto(ids, (bound - 1) as u32);
    }
}

/// `max_id` is the greatest identifier of the set (0 for a set without a
/// positive one), and nothing else is.
pub proof fn lemma_max_id_is_highest(ids: Set<u32>)
    ensures
        is_highest(ids, max_id(ids)),
        forall|top: u32| is_highest(ids, top) ==> top == max_id(ids),
{
    lemma_highest_id_upto(ids, u32::MAX);
}

} // verus!
