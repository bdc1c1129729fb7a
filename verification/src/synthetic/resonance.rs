//! Scores and validates events against a base frequency.

use vstd::prelude::*;
use crate::constants::{is_369_aligned, spec_is_369_aligned};
use crate::fixed::div_floor;
use crate::wide::{from_u128, less_than, mul_small, mul_u128, mul_u64, sum_of, value};
use crate::frequency::{
    below_cancel_threshold, distance, is_below_cancel_threshold, is_within_tolerance,
    spec_distance, within_tolerance,
};
use crate::synthetic::types::SyntheticEvent;
use crate::BASE_FREQUENCY;

verus! {

/// Sum of the resonances.
pub open spec fn resonance_sum(resonances: Seq<u64>) -> nat
    decreases resonances.len(),
{
    if resonances.len() == 0 {
        0
    } else {
        resonance_sum(resonances.drop_last()) + resonances.last() as nat
    }
}

/// Sum of the squares of the resonances.
pub open spec fn resonance_square_sum(resonances: Seq<u64>) -> nat
    decreases resonances.len(),
{
    if resonances.len() == 0 {
        0
    } else {
        resonance_square_sum(resonances.drop_last()) + (resonances.last() as nat) * (
        resonances.last() as nat)
    }
}

/// The resonances of the events, in order.
pub open spec fn resonances_of(events: Seq<SyntheticEvent>) -> Seq<u64> {
    events.map_values(|event: SyntheticEvent| event.resonance)
}

/// Whether a set of resonances is coherent around `base`: it is not empty
/// and its population variance is strictly below `(0.1 x base)^2`.
///
/// With `n` resonances of sum `S` and square sum `Q` the variance is
/// `Q/n - (S/n)^2`, so the test reads `100 n Q < base^2 n^2 + 100 S^2`.
pub open spec fn coherent(resonances: Seq<u64>, base: u64) -> bool {
    let n = resonances.len();
    let s = resonance_sum(resonances);
    let q = resonance_square_sum(resonances);
    n > 0 && 100 * n * q < (base as nat) * (base as nat) * n * n + 100 * s * s
}

/// The score of a resonance at a time, in millionths: the mean of
/// `1 - |resonance - base| / base` and of 1 where the time is aligned with
/// the triad, else 0.5; rounded down.
pub open spec fn spec_score(resonance: u64, base: u64, timestamp: u64) -> int {
    let pattern: int = if spec_is_369_aligned(timestamp as nat) {
        1_000_000
    } else {
        500_000
    };
    ((base - spec_distance(resonance, base)) * 1_000_000 + pattern * base) / (2 * base)
}

/// Validates resonances against a base frequency, in millionths of a hertz.
pub struct ResonanceValidator {
    frequency: u64,
}

impl ResonanceValidator {
    /// The base frequency.
    pub closed spec fn frequency(&self) -> u64 {
        self.frequency
    }

    /// A validator for the given base frequency.
    pub fn new(frequency: u64) -> (validator: ResonanceValidator)
        ensures
            validator.frequency() == frequency,
    {
        ResonanceValidator { frequency }
    }

    /// A validator for 432 Hz.
    pub fn default() -> (validator: ResonanceValidator)
        ensures
            validator.frequency() == BASE_FREQUENCY,
    {
        ResonanceValidator::new(BASE_FREQUENCY)
    }

    /// Whether the event's resonance differs from the base frequency by at
    /// most 5% of it.
    pub fn validate_frequency(&self, event: &SyntheticEvent) -> (valid: bool)
        ensures
            valid == within_tolerance(event.resonance, self.frequency()),
    {
        is_within_tolerance(event.resonance, self.frequency)
    }

    /// Whether `value` is aligned with the triad: its digital root is 3, 6
    /// or 9.
    pub fn validate_369_pattern(&self, value: u64) -> (aligned: bool)
        ensures
            aligned == spec_is_369_aligned(value as nat),
    {
        is_369_aligned(value)
    }

    /// Whether the event cancels itself: its resonance is strictly below
    /// 0.369 times the base frequency.
    pub fn should_self_cancel(&self, event: &SyntheticEvent) -> (cancel: bool)
        ensures
            cancel == below_cancel_threshold(event.resonance, self.frequency()),
    {
        is_below_cancel_threshold(event.resonance, self.frequency)
    }

    /// The score of the event in millionths; `None` for a base frequency of
    /// 0, where the score is not a number.
    pub fn calculate_score(&self, event: &SyntheticEvent) -> (score: Option<i128>)
        ensures
            score is Some <==> self.frequency() > 0,
            score matches Some(value) ==> value == spec_score(
                event.resonance,
                self.frequency(),
                event.timestamp,
            ),
    {
        if self.frequency == 0 {
            return None;
        }
        let base: i128 = self.frequency as i128;
        let gap: i128 = distance(event.resonance, self.frequency) as i128;
        let pattern: i128 = if self.validate_369_pattern(event.timestamp) {
            1_000_000
        } else {
            500_000
        };
        Some(div_floor((base - gap) * 1_000_000 + pattern * base, 2 * base))
    }

    /// Whether the events are coherent: there is at least one and the
    /// population variance of their resonances is strictly below
    /// `(0.1 x base)^2`. The sums are taken exactly, however large.
    pub fn validate_coherence(&self, events: &[SyntheticEvent]) -> (valid: bool)
        ensures
            valid == coherent(resonances_of(events@), self.frequency()),
    {
        if events.len() == 0 {
            return false;
        }
        let ghost all = resonances_of(events@);
        let n: u64 = events.len() as u64;
        let mut sum: u128 = 0;
        let mut squares: Vec<u32> = from_u128(0);
        let mut i: usize = 0;
        assert(all.take(0) =~= Seq::<u64>::empty());
        while i < events.len()
            invariant
                i <= events.len(),
                all == resonances_of(events@),
                all.len() == events.len(),
                sum == resonance_sum(all.take(i as int)),
                sum <= i * u64::MAX,
                value(squares@) == resonance_square_sum(all.take(i as int)),
            decreases events.len() - i,
        {
            let r: u128 = events[i].resonance as u128;
            proof {
                let upto = all.take(i + 1);
                assert(upto.drop_last() =~= all.take(i as int));
                assert(upto.last() == events@[i as int].resonance);
                assert(i * u64::MAX + u64::MAX <= u128::MAX) by (nonlinear_arith)
                    requires
                        i < usize::MAX,
                ;
                assert(r * r <= u64::MAX * u64::MAX) by (nonlinear_arith)
                    requires
                        r <= u64::MAX,
                ;
            }
            sum = sum + r;
            squares = sum_of(&squares, &from_u128(r * r));
            i = i + 1;
        }
        let base: u128 = self.frequency as u128;
        assert(base * base <= u64::MAX * u64::MAX) by (nonlinear_arith)
            requires
                base <= u64::MAX,
        ;
        let left = mul_small(&mul_u64(&squares, n), 100);
        let right_first = mul_u64(&mul_u64(&from_u128(base * base), n), n);
        let right_second = mul_small(&mul_u128(&from_u128(sum), sum), 100);
        let right = sum_of(&right_first, &right_second);
        proof {
            assert(all.take(i as int) =~= all);
            lemma_coherence_terms(
                n as nat,
                resonance_sum(all),
                resonance_square_sum(all),
                base as nat,
            );
        }
        less_than(&left, &right)
    }
}

/// The products of the coherence test, regrouped as they are computed.
proof fn lemma_coherence_terms(n: nat, s: nat, q: nat, base: nat)
    ensures
        100 * n * q == (q * n) * 100,
        base * base * n * n == ((base * base) * n) * n,
        100 * s * s == (s * s) * 100,
{
    assert(100 * n * q == (q * n) * 100) by (nonlinear_arith);
    assert(base * base * n * n == ((base * base) * n) * n) by (nonlinear_arith);
    assert(100 * s * s == (s * s) * 100) by (nonlinear_arith);
}

/// Sum of the squares `(scale x r - shift)^2` over the resonances. With
/// the number of resonances as `scale` and their sum as `shift` this is
/// `n^2` times the sum of the squared deviations from the mean.
pub open spec fn deviation_squares(resonances: Seq<u64>, scale: int, shift: int) -> int
    decreases resonances.len(),
{
    if resonances.len() == 0 {
        0
    } else {
        deviation_squares(resonances.drop_last(), scale, shift) + (scale * resonances.last()
            - shift) * (scale * resonances.last() - shift)
    }
}

/// The deviation squares, multiplied out.
proof fn lemma_deviation_expands(resonances: Seq<u64>, scale: int, shift: int)
    ensures
        deviation_squares(resonances, scale, shift) == (scale * scale) * resonance_square_sum(
            resonances,
        ) - (2 * scale * shift) * resonance_sum(resonances) + resonances.len() * (shift * shift),
    decreases resonances.len(),
{
    let n = resonances.len() as int;
    if n == 0 {
        assert((scale * scale) * 0 == 0);
        assert((2 * scale * shift) * 0 == 0);
        assert(0 * (shift * shift) == 0);
    } else {
        let rest = resonances.drop_last();
        lemma_deviation_expands(rest, scale, shift);
        let r = resonances.last() as int;
        let q = resonance_square_sum(rest) as int;
        let t = resonance_sum(rest) as int;
        let aa = scale * scale;
        let ac = 2 * scale * shift;
        let cc = shift * shift;
        let u = scale * r;
        assert((u - shift) * (u - shift) == u * u - 2 * (u * shift) + cc) by (nonlinear_arith)
            requires
                cc == shift * shift,
        ;
        assert(u * u == aa * (r * r)) by (nonlinear_arith)
            requires
                u == scale * r,
                aa == scale * scale,
        ;
        assert(2 * (u * shift) == ac * r) by (nonlinear_arith)
            requires
                u == scale * r,
                ac == 2 * scale * shift,
        ;
        assert(aa * (q + r * r) == aa * q + aa * (r * r)) by (nonlinear_arith);
        assert(ac * (t + r) == ac * t + ac * r) by (nonlinear_arith);
        assert(n * cc == (n - 1) * cc + cc) by (nonlinear_arith);
        assert(rest.len() == n - 1);
    }
}

/// The coherence test is the variance test: with `n` resonances of sum
/// `S`, the population variance is the sum of the squares `(n r - S)^2`
/// over `n^3`, and the set is coherent exactly when it is not empty and
/// that variance lies strictly below `(base / 10)^2`.
pub proof fn lemma_coherence_is_variance_test(resonances: Seq<u64>, base: u64)
    ensures
        coherent(resonances, base) <==> resonances.len() > 0 && 100 * deviation_squares(
            resonances,
            resonances.len() as int,
            resonance_sum(resonances) as int,
        ) < (base * base) * (resonances.len() * resonances.len() * resonances.len()),
{
    let n = resonances.len() as int;
    let s = resonance_sum(resonances) as int;
    let q = resonance_square_sum(resonances) as int;
    let b = base as int;
    let d = deviation_squares(resonances, n, s);
    lemma_deviation_expands(resonances, n, s);
    if n > 0 {
        let bb = b * b;
        let nq = n * q;
        let ss = s * s;
        // d == n * (n q - s^2)
        assert((n * n) * q == n * nq) by (nonlinear_arith)
            requires
                nq == n * q,
        ;
        assert((2 * n * s) * s == 2 * (n * ss)) by (nonlinear_arith)
            requires
                ss == s * s,
        ;
        assert(d == n * nq - n * ss);
        assert(n * nq - n * ss == n * (nq - ss)) by (nonlinear_arith);
        assert(bb * (n * n * n) == n * (bb * (n * n))) by (nonlinear_arith);
        assert(100 * n * q == 100 * nq) by (nonlinear_arith)
            requires
                nq == n * q,
        ;
        assert(b * b * n * n == bb * (n * n)) by (nonlinear_arith)
            requires
                bb == b * b,
        ;
        assert(100 * s * s == 100 * ss) by (nonlinear_arith)
            requires
                ss == s * s,
        ;
        let left = 100 * (nq - ss);
        let right = bb * (n * n);
        assert(100 * (n * (nq - ss)) == n * left) by (nonlinear_arith)
            requires
                left == 100 * (nq - ss),
        ;
        assert((left < right) <==> (n * left < n * right)) by (nonlinear_arith)
            requires
                n > 0,
        ;
    }
}

} // verus!
