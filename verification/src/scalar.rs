//! The scalar engine: fills the buffer one position at a time, then verifies
//! it with a second full pass. Neither pass short-circuits: the verification
//! scan accumulates a flag and always reads every position.

use vstd::prelude::*;
use crate::model::{fill_value, filled, scalar_outcome};

verus! {

/// Fills the whole buffer with the fill value, then scans the whole buffer
/// and reports whether every position holds it. Both passes always run to
/// completion; the result is the outcome of the full scan.
pub fn generic_fill_and_check(arr: &mut Vec<u16>) -> (r: bool)
    ensures
        final(arr)@ == filled(old(arr)@),
        r == scalar_outcome(old(arr)@),
{
    let mut flag = true;

    let max: usize = arr.len();

    for i in 0..max
        invariant
            arr.len() == max,
            forall|j: int| 0 <= j < i ==> arr@[j] == fill_value(),
    {
        arr[i] = 1;
    }

    for i in 0..max
        invariant
            arr.len() == max,
            forall|j: int| 0 <= j < max ==> arr@[j] == fill_value(),
            flag,
    {
        if arr[i] != 1 {
            flag = false;
        }
    }

    assert(arr@ =~= filled(old(arr)@));
    flag
}

} // verus!
