//! Integer helpers for fixed-point quantities: square roots and quotients
//! rounded down.

use vstd::prelude::*;
use crate::wide::{from_u128, less_than, mul_u128, value};

verus! {

/// `root` is the square root of `n` rounded down.
pub open spec fn is_floor_sqrt(n: nat, root: nat) -> bool {
    root * root <= n && n < (root + 1) * (root + 1)
}

/// The square root of `n` rounded down.
pub open spec fn floor_sqrt(n: nat) -> nat {
    choose|root: nat| is_floor_sqrt(n, root)
}

/// Squaring keeps the order of natural numbers.
proof fn lemma_square_monotone(a: nat, b: nat)
    requires
        a <= b,
    ensures
        a * a <= b * b,
{
    assert(a * a <= b * b) by (nonlinear_arith)
        requires
            a <= b,
    ;
}

/// A number has one square root rounded down.
pub proof fn lemma_floor_sqrt_unique(n: nat, root: nat)
    requires
        is_floor_sqrt(n, root),
    ensures
        floor_sqrt(n) == root,
{
    let other = floor_sqrt(n);
    assert(is_floor_sqrt(n, other));
    if other < root {
        lemma_square_monotone(other + 1, root);
    } else if root < other {
        lemma_square_monotone(root + 1, other);
    }
}

/// The square root of `n` rounded down.
pub fn isqrt(n: u128) -> (root: u64)
    ensures
        is_floor_sqrt(n as nat, root as nat),
        root == floor_sqrt(n as nat),
{
    let mut lo: u128 = 0;
    let mut hi: u128 = 0x1_0000_0000_0000_0000;
    assert(n < hi * hi) by (nonlinear_arith)
        requires
            hi == 0x1_0000_0000_0000_0000,
            n <= u128::MAX,
    ;
    while hi - lo > 1
        invariant
            lo < hi <= 0x1_0000_0000_0000_0000,
            lo * lo <= n,
            n < hi * hi,
        decreases hi - lo,
    {
        let mid: u128 = lo + (hi - lo) / 2;
        assert(mid * mid <= 0xffff_ffff_ffff_ffff * 0xffff_ffff_ffff_ffff) by (nonlinear_arith)
            requires
                mid <= 0xffff_ffff_ffff_ffff,
        ;
        if mid * mid <= n {
            lo = mid;
        } else {
            hi = mid;
        }
    }
    proof {
        assert(hi == lo + 1);
        lemma_floor_sqrt_unique(n as nat, lo as nat);
    }
    lo as u64
}

/// The square root of the product `a x b` rounded down, for factors below
/// 2^66. The product is taken exactly, though it may leave 128 bits.
pub fn isqrt_product(a: u128, b: u128) -> (root: u128)
    requires
        a < 0x4_0000_0000_0000_0000,
        b < 0x4_0000_0000_0000_0000,
    ensures
        is_floor_sqrt((a * b) as nat, root as nat),
        root == floor_sqrt((a * b) as nat),
        root < 0x4_0000_0000_0000_0000,
{
    let product = mul_u128(&from_u128(a), b);
    let mut lo: u128 = 0;
    let mut hi: u128 = 0x4_0000_0000_0000_0000;
    proof {
        assert(a * b < hi * hi) by (nonlinear_arith)
            requires
                a < 0x4_0000_0000_0000_0000,
                b < 0x4_0000_0000_0000_0000,
                hi == 0x4_0000_0000_0000_0000,
        ;
        assert(lo * lo == 0);
    }
    while hi - lo > 1
        invariant
            lo < hi <= 0x4_0000_0000_0000_0000,
            value(product@) == a * b,
            lo * lo <= a * b,
            a * b < hi * hi,
        decreases hi - lo,
    {
        let mid: u128 = lo + (hi - lo) / 2;
        let square = mul_u128(&from_u128(mid), mid);
        if less_than(&product, &square) {
            hi = mid;
        } else {
            lo = mid;
        }
    }
    proof {
        assert(hi == lo + 1);
        lemma_floor_sqrt_unique((a * b) as nat, lo as nat);
    }
    lo
}

/// The quotient `numerator / divisor` rounded down, for a positive
/// divisor.
pub fn div_floor(numerator: i128, divisor: i128) -> (quotient: i128)
    requires
        divisor > 0,
        numerator > i128::MIN,
    ensures
        quotient == numerator as int / divisor as int,
{
    if numerator >= 0 {
        numerator / divisor
    } else {
        let magnitude: i128 = -numerator;
        let whole: i128 = magnitude / divisor;
        let rest: i128 = magnitude % divisor;
        proof {
            lemma_floor_of_negative(magnitude as int, divisor as int, whole as int, rest as int);
        }
        if rest == 0 {
            -whole
        } else {
            -whole - 1
        }
    }
}

/// The quotient of a negative number rounded down, from the quotient and
/// remainder of its magnitude.
proof fn lemma_floor_of_negative(magnitude: int, divisor: int, whole: int, rest: int)
    requires
        magnitude > 0,
        divisor > 0,
        whole == magnitude / divisor,
        rest == magnitude % divisor,
    ensures
        (-magnitude) / divisor == if rest == 0 {
            -whole
        } else {
            -whole - 1
        },
{
    vstd::arithmetic::div_mod::lemma_fundamental_div_mod(magnitude, divisor);
    vstd::arithmetic::div_mod::lemma_mod_pos_bound(magnitude, divisor);
    assert(magnitude == divisor * whole + rest);
    assert(0 <= rest < divisor);
    if rest == 0 {
        assert(-magnitude == (-whole) * divisor + 0) by (nonlinear_arith)
            requires
                magnitude == divisor * whole,
        ;
        vstd::arithmetic::div_mod::lemma_fundamental_div_mod_converse(-magnitude, divisor, -whole, 0);
    } else {
        assert(-magnitude == (-whole - 1) * divisor + (divisor - rest)) by (nonlinear_arith)
            requires
                magnitude == divisor * whole + rest,
        ;
        vstd::arithmetic::div_mod::lemma_fundamental_div_mod_converse(
            -magnitude,
            divisor,
            -whole - 1,
            divisor - rest,
        );
    }
}

} // verus!
