//! The chunked engine: walks the buffer in fixed-width chunks of `LANES`
//! positions, one chunk store or chunk compare at a time, and falls back to
//! single positions for the remainder that is too short for a full chunk.

use vstd::prelude::*;
use crate::model::{all_ones, fill_value, filled, separated_outcome};

verus! {

/// The chunk width: how many 16-bit positions one chunk operation covers.
pub const LANES: usize = 8;

/// One chunk store: writes the fill value to the `LANES` consecutive
/// positions starting at `start`, leaving everything else unchanged.
fn fill_chunk(arr: &mut Vec<u16>, start: usize)
    requires
        start + LANES <= old(arr).len(),
    ensures
        final(arr).len() == old(arr).len(),
        forall|j: int| start <= j < start + LANES ==> final(arr)@[j] == fill_value(),
        forall|j: int|
            0 <= j < old(arr).len() && !(start <= j < start + LANES) ==> final(arr)@[j] == old(
                arr,
            )@[j],
{
    let mut lane: usize = 0;
    while lane < LANES
        invariant
            lane <= LANES,
            start + LANES <= arr.len(),
            arr.len() == old(arr).len(),
            forall|j: int| start <= j < start + lane ==> arr@[j] == fill_value(),
            forall|j: int|
                0 <= j < old(arr).len() && !(start <= j < start + lane) ==> arr@[j] == old(
                    arr,
                )@[j],
        decreases LANES - lane,
    {
        arr[start + lane] = 1;
        lane = lane + 1;
    }
}

/// One chunk compare: reads the `LANES` consecutive positions starting at
/// `start`, compares every lane against the fill value, and reduces the
/// lane-wise comparison to a single flag.
fn check_chunk(arr: &Vec<u16>, start: usize) -> (r: bool)
    requires
        start + LANES <= arr.len(),
    ensures
        r == (forall|j: int| start <= j < start + LANES ==> arr@[j] == fill_value()),
{
    let mut all_match = true;
    let mut lane: usize = 0;
    while lane < LANES
        invariant
            lane <= LANES,
            start + LANES <= arr.len(),
            all_match == (forall|j: int| start <= j < start + lane ==> arr@[j] == fill_value()),
        decreases LANES - lane,
    {
        if arr[start + lane] != 1 {
            all_match = false;
        }
        lane = lane + 1;
    }
    all_match
}

/// Fill-only pass: one chunk store per full chunk, then one scalar write per
/// remainder position. Always completes the fill over the whole buffer.
pub fn simd_fill_only(arr: &mut Vec<u16>)
    ensures
        final(arr)@ == filled(old(arr)@),
{
    let len: usize = arr.len();
    let mut pos: usize = 0;
    while len - pos >= LANES
        invariant
            pos <= len,
            arr.len() == len,
            forall|j: int| 0 <= j < pos ==> arr@[j] == fill_value(),
        decreases len - pos,
    {
        fill_chunk(arr, pos);
        pos = pos + LANES;
    }
    while pos < len
        invariant
            pos <= len,
            arr.len() == len,
            forall|j: int| 0 <= j < pos ==> arr@[j] == fill_value(),
        decreases len - pos,
    {
        arr[pos] = 1;
        pos = pos + 1;
    }
    assert(arr@ =~= filled(old(arr)@));
}

/// Check-only pass: one chunk compare per full chunk, returning at the first
/// chunk whose reduced flag shows a mismatch, then one scalar compare per
/// remainder position, returning at the first mismatch. True exactly when
/// every position holds the fill value.
pub fn simd_check_only(arr: &Vec<u16>) -> (r: bool)
    ensures
        r == all_ones(arr@),
{
    let len: usize = arr.len();
    let mut pos: usize = 0;
    while len - pos >= LANES
        invariant
            pos <= len,
            arr.len() == len,
            forall|j: int| 0 <= j < pos ==> arr@[j] == fill_value(),
        decreases len - pos,
    {
        if !check_chunk(arr, pos) {
            return false;
        }
        pos = pos + LANES;
    }
    while pos < len
        invariant
            pos <= len,
            arr.len() == len,
            forall|j: int| 0 <= j < pos ==> arr@[j] == fill_value(),
        decreases len - pos,
    {
        if arr[pos] != 1 {
            return false;
        }
        pos = pos + 1;
    }
    true
}

/// Fused single-pass variant: stores each full chunk and immediately
/// re-reads and compares that same chunk, returning at the first chunk that
/// fails; then writes and re-checks each remainder position in turn. Because
/// every compare reads a chunk that was just written, the early-abort paths
/// never fire: the fill always completes and the result is the outcome of
/// checking the freshly filled buffer.
pub fn simd_fill_and_check(arr: &mut Vec<u16>) -> (r: bool)
    ensures
        final(arr)@ == filled(old(arr)@),
        r == all_ones(final(arr)@),
{
    let len: usize = arr.len();
    let mut pos: usize = 0;
    while len - pos >= LANES
        invariant
            pos <= len,
            arr.len() == len,
            forall|j: int| 0 <= j < pos ==> arr@[j] == fill_value(),
        decreases len - pos,
    {
        fill_chunk(arr, pos);
        if !check_chunk(arr, pos) {
            return false;
        }
        pos = pos + LANES;
    }
    while pos < len
        invariant
            pos <= len,
            arr.len() == len,
            forall|j: int| 0 <= j < pos ==> arr@[j] == fill_value(),
        decreases len - pos,
    {
        arr[pos] = 1;
        if arr[pos] != 1 {
            return false;
        }
        pos = pos + 1;
    }
    assert(arr@ =~= filled(old(arr)@));
    true
}

/// Separated variant: the fill-only pass over the whole buffer, then the
/// check-only pass over the whole buffer. The fill always completes before
/// any position is verified.
pub fn simd_fill_and_check_optimized(arr: &mut Vec<u16>) -> (r: bool)
    ensures
        final(arr)@ == filled(old(arr)@),
        r == separated_outcome(old(arr)@),
{
    simd_fill_only(arr);
    simd_check_only(arr)
}

} // verus!
