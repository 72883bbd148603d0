//! The two reductions over the final accumulator: the oldest entry and the
//! entry with the longest body.

use vstd::prelude::*;

use crate::records::{ReducedResult, ReducedView};

verus! {

/// Whether index `i` selects the record with the longest body: no record has
/// a longer body, and every earlier record has a strictly shorter one (so on
/// a tie the first occurrence in accumulation order is selected).
pub open spec fn is_first_longest(s: Seq<ReducedView>, i: int) -> bool {
    &&& 0 <= i < s.len()
    &&& (forall|j: int| 0 <= j < s.len() ==> (#[trigger] s[j].body_length) <= s[i].body_length)
    &&& (forall|j: int| 0 <= j < i ==> (#[trigger] s[j].body_length) < s[i].body_length)
}

/// The oldest accumulated record: the query sorts ascending by creation time,
/// so it is the last element of the accumulator. `None` exactly when the
/// accumulator is empty.
pub fn oldest(results: &Vec<ReducedResult>) -> (r: Option<&ReducedResult>)
    ensures
        (match r {
            Some(x) => results.deep_view().len() > 0 && x@ == results.deep_view().last(),
            None => results.deep_view().len() == 0,
        }),
{
    if results.len() == 0 {
        None
    } else {
        Some(&results[results.len() - 1])
    }
}

/// The record with the maximum body length, the first in accumulation order
/// where several share the maximum. `None` exactly when the accumulator is
/// empty.
pub fn longest_body(results: &Vec<ReducedResult>) -> (r: Option<&ReducedResult>)
    ensures
        (match r {
            Some(x) => exists|i: int|
                is_first_longest(results.deep_view(), i) && x@ == results.deep_view()[i],
            None => results.deep_view().len() == 0,
        }),
{
    if results.len() == 0 {
        return None;
    }
    let ghost dv: Seq<ReducedView> = results.deep_view();
    let mut best: usize = 0;
    let mut k: usize = 1;
    while k < results.len()
        invariant
            results.deep_view() == dv,
            dv.len() == results.len(),
            best < k <= results.len(),
            (forall|j: int| 0 <= j < k ==> (#[trigger] dv[j].body_length) <= dv[best as int].body_length),
            (forall|j: int| 0 <= j < best ==> (#[trigger] dv[j].body_length) < dv[best as int].body_length),
        decreases results.len() - k,
    {
        if results[k].body_length > results[best].body_length {
            best = k;
        }
        k += 1;
    }
    assert(is_first_longest(dv, best as int));
    Some(&results[best])
}

} // verus!
