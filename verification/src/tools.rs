//! Choosing among weekends.

use vstd::prelude::*;
use crate::record::Weekend;

verus! {

/// Whether the weekend at `k` is the best: none starts before it, and of
/// those that start with it, it stands first.
pub open spec fn is_best(weekends: Seq<Weekend>, k: int) -> bool {
    &&& 0 <= k < weekends.len()
    &&& forall|j: int|
        0 <= j < weekends.len() ==> weekends[k].start_date <= (#[trigger] weekends[j]).start_date
    &&& forall|j: int| 0 <= j < k ==> weekends[k].start_date < (#[trigger] weekends[j]).start_date
}

/// The weekend that is the least time away: the one that starts first, and
/// of several that start together the one given first. None where there is
/// no weekend.
pub fn best_weekend(weekends: &Vec<Weekend>) -> (r: Option<Weekend>)
    ensures
        weekends@.len() == 0 ==> r.is_none(),
        weekends@.len() > 0 ==> r.is_some() && exists|k: int|
            is_best(weekends@, k) && r == Some(weekends@[k]),
{
    if weekends.len() == 0 {
        return None;
    }
    let mut best: usize = 0;
    let mut i: usize = 1;
    while i < weekends.len()
        invariant
            1 <= i <= weekends.len(),
            best < i,
            forall|j: int|
                0 <= j < i ==> weekends@[best as int].start_date <= (
                #[trigger] weekends@[j]).start_date,
            forall|j: int|
                0 <= j < best ==> weekends@[best as int].start_date < (
                #[trigger] weekends@[j]).start_date,
        decreases weekends.len() - i,
    {
        if weekends[i].start_date < weekends[best].start_date {
            best = i;
        }
        i += 1;
    }
    assert(is_best(weekends@, best as int));
    Some(weekends[best].copy())
}

} // verus!
