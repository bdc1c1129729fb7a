//! Fixed-point frequencies and the thresholds that the checkpoints compare
//! against. A frequency or resonance is a `u64` count of millionths of a
//! hertz; a threshold such as `0.369 x base` is compared by cross
//! multiplication, so the boundary value itself is decided exactly.

use vstd::prelude::*;

verus! {

/// Millionths in one unit.
pub const MICRO: u64 = 1_000_000;

/// Distance between two frequencies.
pub open spec fn spec_distance(a: u64, b: u64) -> nat {
    if a >= b {
        (a - b) as nat
    } else {
        (b - a) as nat
    }
}

/// `resonance < 0.369 x base`.
pub open spec fn below_cancel_threshold(resonance: u64, base: u64) -> bool {
    resonance * 1000 < base * 369
}

/// `resonance >= 0.9 x base`.
pub open spec fn meets_manifest_threshold(resonance: u64, base: u64) -> bool {
    resonance * 10 >= base * 9
}

/// `|resonance - base| <= 0.05 x base`.
pub open spec fn within_tolerance(resonance: u64, base: u64) -> bool {
    spec_distance(resonance, base) * 100 <= base * 5
}

/// Distance between two frequencies.
pub fn distance(a: u64, b: u64) -> (d: u64)
    ensures
        d == spec_distance(a, b),
{
    if a >= b {
        a - b
    } else {
        b - a
    }
}

/// Whether `resonance` lies strictly below 0.369 times `base`.
pub fn is_below_cancel_threshold(resonance: u64, base: u64) -> (below: bool)
    ensures
        below == below_cancel_threshold(resonance, base),
{
    (resonance as u128) * 1000 < (base as u128) * 369
}

/// Whether `resonance` reaches 0.9 times `base`.
pub fn does_meet_manifest_threshold(resonance: u64, base: u64) -> (meets: bool)
    ensures
        meets == meets_manifest_threshold(resonance, base),
{
    (resonance as u128) * 10 >= (base as u128) * 9
}

/// Whether `resonance` differs from `base` by at most 5% of `base`.
pub fn is_within_tolerance(resonance: u64, base: u64) -> (within: bool)
    ensures
        within == within_tolerance(resonance, base),
{
    (distance(resonance, base) as u128) * 100 <= (base as u128) * 5
}

/// At the boundary `resonance = 0.369 x base` nothing cancels; any resonance
/// below it does.
pub proof fn lemma_cancel_boundary(resonance: u64, base: u64)
    ensures
        resonance * 1000 == base * 369 ==> !below_cancel_threshold(resonance, base),
        resonance * 1000 < base * 369 ==> below_cancel_threshold(resonance, base),
        forall|lower: u64|
            resonance * 1000 == base * 369 && lower < resonance ==> below_cancel_threshold(
                lower,
                base,
            ),
{
}

/// At the boundary `resonance = 0.9 x base` the action may manifest; any
/// resonance below it fails.
pub proof fn lemma_manifest_boundary(resonance: u64, base: u64)
    ensures
        resonance * 10 == base * 9 ==> meets_manifest_threshold(resonance, base),
        forall|lower: u64|
            resonance * 10 == base * 9 && lower < resonance ==> !meets_manifest_threshold(
                lower,
                base,
            ),
{
}

} // verus!
