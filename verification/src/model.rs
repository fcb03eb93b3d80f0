//! The mathematical model shared by both engines: what a filled buffer looks
//! like, what it means for every position to hold the fill value, and the
//! laws that relate the engines to each other.

use vstd::prelude::*;

verus! {

/// The fill value every position must hold after a fill pass.
pub open spec fn fill_value() -> u16 {
    1u16
}

/// Every position of `s` holds the fill value.
pub open spec fn all_ones(s: Seq<u16>) -> bool {
    forall|i: int| 0 <= i < s.len() ==> s[i] == fill_value()
}

/// The contents of a buffer after a complete fill pass: same length,
/// every position set to the fill value.
pub open spec fn filled(s: Seq<u16>) -> Seq<u16> {
    Seq::new(s.len(), |i: int| fill_value())
}

/// The boolean outcome of the scalar engine on initial contents `s`:
/// it fills the whole buffer and then scans the whole buffer.
pub open spec fn scalar_outcome(s: Seq<u16>) -> bool {
    all_ones(filled(s))
}

/// The boolean outcome of the separated chunked variant on initial contents
/// `s`: it fills the whole buffer and then checks the whole buffer.
pub open spec fn separated_outcome(s: Seq<u16>) -> bool {
    all_ones(filled(s))
}

/// Law: after a fill of a buffer of any length, an independent scan of the
/// result finds the fill value at every position.
pub proof fn lemma_filled_all_ones(s: Seq<u16>)
    ensures
        all_ones(filled(s)),
{
}

/// Law: on identical initial contents, the scalar engine and the separated
/// chunked variant return the identical boolean outcome.
pub proof fn lemma_engines_agree(s: Seq<u16>)
    ensures
        scalar_outcome(s) == separated_outcome(s),
{
}

/// Law: a buffer that holds anything but the fill value at any position
/// fails the check; a check pass over it must report `false`.
pub proof fn lemma_check_detects_corruption(s: Seq<u16>, i: int)
    requires
        0 <= i < s.len(),
        s[i] != fill_value(),
    ensures
        !all_ones(s),
{
}

/// Law: filling twice in succession leaves the buffer exactly as filling
/// once does.
pub proof fn lemma_fill_idempotent(s: Seq<u16>)
    ensures
        filled(filled(s)) == filled(s),
{
    assert(filled(filled(s)) =~= filled(s));
}

} // verus!
