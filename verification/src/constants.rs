//! Numeric constants and the witness codec: digit sums, digital roots and
//! base-9 encoding.

use vstd::prelude::*;
use vstd::arithmetic::div_mod::*;

pub mod addresses;
pub mod chains;
pub mod protocols;

use crate::text::{push_chars, radix_digit_vec, radix_digits};

verus! {

/// Base resonance frequency in whole hertz.
pub const BASE_FREQUENCY: u64 = 432;

/// Tolerance within which a frequency dissolves, in ten-millionths of a
/// hertz.
pub const FREQUENCY_TOLERANCE: u64 = 1;

/// The triad.
pub const TRIAD: [u8; 3] = [3, 6, 9];

/// The torus frequencies 432, 216 and 108 Hz, in whole hertz; each has the
/// digital root 9.
pub const TORUS_FREQUENCIES: [u64; 3] = [432, 216, 108];

/// Nodes of the triple torus.
pub const TOTAL_NODES: u8 = 27;

pub const TOTAL_PHASES: u8 = 9;

pub const CANCEL_PHASE: u8 = 6;

pub const AMPLIFY_PHASE: u8 = 9;

pub const PROTOCOL_FEE_BPS: u64 = 90;

pub const DAO_SHARE_BPS: u64 = 9;

pub const NULL_BURN_BPS: u64 = 81;

pub const BPS_DENOMINATOR: u64 = 10000;

pub const MAX_OWNERSHIP_BPS: u64 = 90;

pub const MAX_OWNERSHIP_CYCLES: u64 = 9;

pub const MANIPULATION_EXCLUSION_DAYS: u64 = 81;

/// Sum of the decimal digits of `n`.
pub open spec fn digit_sum(n: nat) -> nat
    decreases n,
{
    if n == 0 {
        0
    } else {
        n % 10 + digit_sum(n / 10)
    }
}

/// The digit sum taken again and again until one digit is left.
pub open spec fn spec_digital_root(n: nat) -> nat
    decreases n,
    via digital_root_decreases
{
    if n < 10 {
        n
    } else {
        spec_digital_root(digit_sum(n))
    }
}

#[via_fn]
proof fn digital_root_decreases(n: nat) {
    if n >= 10 {
        lemma_digit_sum_bounds(n);
    }
}

/// A digit sum never exceeds its number, is smaller from 10 on, and is
/// positive for a positive number.
pub proof fn lemma_digit_sum_bounds(n: nat)
    ensures
        digit_sum(n) <= n,
        n >= 10 ==> digit_sum(n) < n,
        n > 0 ==> digit_sum(n) > 0,
    decreases n,
{
    if n > 0 {
        lemma_digit_sum_bounds(n / 10);
    }
}

/// A number and its digit sum leave the same remainder modulo 9.
pub proof fn lemma_digit_sum_mod_9(n: nat)
    ensures
        digit_sum(n) % 9 == n % 9,
    decreases n,
{
    if n > 0 {
        lemma_digit_sum_mod_9(n / 10);
        let q = n / 10;
        let r = n % 10;
        assert(n == 10 * q + r);
        assert((r + digit_sum(q)) % 9 == (10 * q + r) % 9) by {
            lemma_mod_adds_congruent(r, digit_sum(q), q);
        }
    }
}

proof fn lemma_mod_adds_congruent(r: nat, s: nat, q: nat)
    requires
        s % 9 == q % 9,
    ensures
        (r + s) % 9 == (10 * q + r) % 9,
{
    let ks = s / 9;
    let kq = q / 9;
    let m = q % 9;
    assert(s == 9 * ks + m);
    assert(q == 9 * kq + m);
    assert(r + s == 9 * ks + (m + r));
    assert(10 * q + r == 9 * (10 * kq + m) + (m + r));
    lemma_mod_multiples_vanish(ks as int, (m + r) as int, 9);
    lemma_mod_multiples_vanish((10 * kq + m) as int, (m + r) as int, 9);
}

/// The digital root in closed form: 0 for 0, else `1 + (n - 1) mod 9`.
pub proof fn lemma_digital_root_closed_form(n: nat)
    ensures
        spec_digital_root(n) == if n == 0 {
            0
        } else {
            1 + ((n - 1) as nat) % 9
        },
    decreases n,
{
    if n >= 10 {
        let s = digit_sum(n);
        lemma_digit_sum_bounds(n);
        lemma_digit_sum_mod_9(n);
        lemma_digital_root_closed_form(s);
    }
}

/// Digital root of `n`: its decimal digits are summed until a single digit
/// remains; the root of 0 is 0.
pub fn digital_root(n: u64) -> (root: u64)
    ensures
        root == spec_digital_root(n as nat),
        root <= 9,
{
    proof {
        lemma_digital_root_closed_form(n as nat);
    }
    if n == 0 {
        return 0;
    }
    let mut cur: u64 = n;
    loop
        invariant
            cur > 0,
            spec_digital_root(cur as nat) == spec_digital_root(n as nat),
        decreases cur,
    {
        let mut sum: u64 = 0;
        let mut rest: u64 = cur;
        proof {
            lemma_digit_sum_bounds(cur as nat);
        }
        while rest > 0
            invariant
                sum + digit_sum(rest as nat) == digit_sum(cur as nat),
                digit_sum(cur as nat) <= cur,
            decreases rest,
        {
            sum = sum + rest % 10;
            rest = rest / 10;
        }
        proof {
            assert(digit_sum(0) == 0);
            assert(sum == digit_sum(cur as nat));
            if cur < 10 {
                assert(digit_sum((cur / 10) as nat) == 0);
                assert(digit_sum(cur as nat) == cur);
            } else {
                assert(spec_digital_root(cur as nat) == spec_digital_root(sum as nat));
            }
            if sum < 10 {
                assert(spec_digital_root(sum as nat) == sum);
            }
        }
        if sum < 10 {
            return sum;
        }
        cur = sum;
    }
}

/// True when the digital root of `n` is 3, 6 or 9.
pub open spec fn spec_is_369_aligned(n: nat) -> bool {
    let root = spec_digital_root(n);
    root == 3 || root == 6 || root == 9
}

/// Whether `n` is aligned with the triad: its digital root is 3, 6 or 9.
pub fn is_369_aligned(n: u64) -> (aligned: bool)
    ensures
        aligned == spec_is_369_aligned(n as nat),
{
    let root = digital_root(n);
    root == 3 || root == 6 || root == 9
}

/// Whether `n` closes the loop: its digital root is 9.
pub fn verify_closure(n: u64) -> (closed: bool)
    ensures
        closed == (spec_digital_root(n as nat) == 9),
{
    digital_root(n) == 9
}

/// `n` in base 9, most significant digit first, padded on the left with
/// `'0'` up to `width` characters and never cut: a numeral longer than
/// `width` comes out whole.
pub open spec fn spec_to_base9(n: nat, width: nat) -> Seq<char> {
    let digits = radix_digits(n, 9);
    if digits.len() < width {
        Seq::new((width - digits.len()) as nat, |i: int| '0') + digits
    } else {
        digits
    }
}

/// Writes `n` in base 9, left-padded with zeros to `digits` characters.
pub fn to_base9(n: u64, digits: usize) -> (text: String)
    ensures
        text@ == spec_to_base9(n as nat, digits as nat),
{
    let numeral = radix_digit_vec(n, 9);
    let mut text = String::new();
    if numeral.len() < digits {
        let pad: usize = digits - numeral.len();
        let mut i: usize = 0;
        while i < pad
            invariant
                i <= pad,
                text@ == Seq::new(i as nat, |j: int| '0'),
            decreases pad - i,
        {
            text.push('0');
            i = i + 1;
        }
    }
    push_chars(&mut text, &numeral, 0);
    assert(numeral@.skip(0) == numeral@);
    text
}

} // verus!
