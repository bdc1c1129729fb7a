//! Sums over vectors of fixed-point components.

use vstd::prelude::*;
use crate::fixed::{floor_sqrt, is_floor_sqrt, isqrt};

verus! {

/// The dot product of the first `n` components.
pub open spec fn dot_upto(a: Seq<i32>, b: Seq<i32>, n: nat) -> int
    decreases n,
{
    if n == 0 {
        0
    } else {
        dot_upto(a, b, (n - 1) as nat) + a[n - 1] * b[n - 1]
    }
}

/// The dot product of two vectors of 9 components.
pub open spec fn dot(a: Seq<i32>, b: Seq<i32>) -> int {
    dot_upto(a, b, 9)
}

/// The sum of the squares of the components.
pub open spec fn square_sum(a: Seq<i32>) -> int {
    dot(a, a)
}

/// The length of a vector, rounded down to the millionth.
pub open spec fn spec_magnitude(a: Seq<i32>) -> nat {
    floor_sqrt(square_sum(a) as nat)
}

/// Squares are not negative, and neither are their sums.
pub proof fn lemma_square_sum_bounds(a: Seq<i32>, n: nat)
    requires
        n <= a.len(),
    ensures
        0 <= dot_upto(a, a, n),
        dot_upto(a, a, n) <= n * 0x4000_0000_0000_0000,
        forall|i: int| 0 <= i < n ==> (#[trigger] a[i]) * a[i] <= dot_upto(a, a, n),
    decreases n,
{
    if n > 0 {
        lemma_square_sum_bounds(a, (n - 1) as nat);
        let x = a[n - 1] as int;
        assert(0 <= x * x <= 0x4000_0000_0000_0000) by (nonlinear_arith)
            requires
                -0x8000_0000 <= x <= 0x7fff_ffff,
        ;
    }
}

/// Sum of the squares `(a[i] y - b[i] x)^2` over the first `n` components.
spec fn cross_upto(a: Seq<i32>, b: Seq<i32>, n: nat, x: int, y: int) -> int
    decreases n,
{
    if n == 0 {
        0
    } else {
        cross_upto(a, b, (n - 1) as nat, x, y) + (a[n - 1] * y - b[n - 1] * x) * (a[n - 1] * y
            - b[n - 1] * x)
    }
}

/// The cross sum, multiplied out.
proof fn lemma_cross_expands(a: Seq<i32>, b: Seq<i32>, n: nat, x: int, y: int)
    ensures
        cross_upto(a, b, n, x, y) >= 0,
        cross_upto(a, b, n, x, y) == dot_upto(a, a, n) * (y * y) + dot_upto(b, b, n) * (x * x) - 2
            * dot_upto(a, b, n) * (x * y),
    decreases n,
{
    if n > 0 {
        lemma_cross_expands(a, b, (n - 1) as nat, x, y);
        let p = a[n - 1] as int;
        let q = b[n - 1] as int;
        let aa = dot_upto(a, a, (n - 1) as nat);
        let bb = dot_upto(b, b, (n - 1) as nat);
        let ab = dot_upto(a, b, (n - 1) as nat);
        let yy = y * y;
        let xx = x * x;
        let xy = x * y;
        assert((p * y - q * x) * (p * y - q * x) >= 0) by (nonlinear_arith);
        let u = p * y;
        let v = q * x;
        assert((u - v) * (u - v) == u * u - 2 * (u * v) + v * v) by (nonlinear_arith);
        assert(u * u == (p * p) * yy) by (nonlinear_arith)
            requires
                u == p * y,
                yy == y * y,
        ;
        assert(v * v == (q * q) * xx) by (nonlinear_arith)
            requires
                v == q * x,
                xx == x * x,
        ;
        assert(u * v == (p * q) * xy) by (nonlinear_arith)
            requires
                u == p * y,
                v == q * x,
                xy == x * y,
        ;
        assert((aa + p * p) * yy == aa * yy + (p * p) * yy) by (nonlinear_arith);
        assert((bb + q * q) * xx == bb * xx + (q * q) * xx) by (nonlinear_arith);
        assert(2 * (ab + p * q) * xy == 2 * ab * xy + 2 * (p * q) * xy) by (nonlinear_arith);
        assert(2 * (p * q) * xy == 2 * ((p * q) * xy)) by (nonlinear_arith);
        let prev = cross_upto(a, b, (n - 1) as nat, x, y);
        assert(cross_upto(a, b, n, x, y) == prev + (u - v) * (u - v));
        assert(dot_upto(a, a, n) == aa + p * p);
        assert(dot_upto(b, b, n) == bb + q * q);
        assert(dot_upto(a, b, n) == ab + p * q);
        assert(prev == aa * yy + bb * xx - 2 * ab * xy);
        assert(cross_upto(a, b, n, x, y) == (aa + p * p) * yy + (bb + q * q) * xx - 2 * (ab + p * q)
            * xy);
    } else {
        assert(dot_upto(a, a, n) * (y * y) == 0) by (nonlinear_arith)
            requires
                dot_upto(a, a, n) == 0,
        ;
        assert(dot_upto(b, b, n) * (x * x) == 0) by (nonlinear_arith)
            requires
                dot_upto(b, b, n) == 0,
        ;
        assert(2 * dot_upto(a, b, n) * (x * y) == 0) by (nonlinear_arith)
            requires
                dot_upto(a, b, n) == 0,
        ;
    }
}

/// Cauchy-Schwarz: the square of a dot product does not exceed the product
/// of the two square sums.
pub proof fn lemma_cauchy_schwarz(a: Seq<i32>, b: Seq<i32>, n: nat)
    ensures
        dot_upto(a, b, n) * dot_upto(a, b, n) <= dot_upto(a, a, n) * dot_upto(b, b, n),
    decreases n,
{
    if n > 0 {
        lemma_cauchy_schwarz(a, b, (n - 1) as nat);
        let p = a[n - 1] as int;
        let q = b[n - 1] as int;
        let aa = dot_upto(a, a, (n - 1) as nat);
        let bb = dot_upto(b, b, (n - 1) as nat);
        let ab = dot_upto(a, b, (n - 1) as nat);
        lemma_cross_expands(a, b, (n - 1) as nat, p, q);
        let cross = cross_upto(a, b, (n - 1) as nat, p, q);
        let pp = p * p;
        let qq = q * q;
        let pq = p * q;
        assert((aa + pp) * (bb + qq) == aa * bb + aa * qq + pp * bb + pp * qq) by (nonlinear_arith);
        assert((ab + pq) * (ab + pq) == ab * ab + 2 * ab * pq + pq * pq) by (nonlinear_arith);
        assert(pp * qq == pq * pq) by (nonlinear_arith)
            requires
                pp == p * p,
                qq == q * q,
                pq == p * q,
        ;
        assert(pp * bb == bb * pp) by (nonlinear_arith);
        assert(cross == aa * qq + bb * pp - 2 * ab * pq);
    }
}

/// The dot product of two vectors.
pub fn dot_product(a: &[i32; 9], b: &[i32; 9]) -> (sum: i128)
    ensures
        sum == dot(a@, b@),
        -9 * 0x4000_0000_0000_0000 <= sum <= 9 * 0x4000_0000_0000_0000,
{
    let mut sum: i128 = 0;
    let mut i: usize = 0;
    while i < 9
        invariant
            i <= 9,
            sum == dot_upto(a@, b@, i as nat),
            -i * 0x4000_0000_0000_0000 <= sum <= i * 0x4000_0000_0000_0000,
        decreases 9 - i,
    {
        let x = a[i] as i128;
        let y = b[i] as i128;
        assert(-0x4000_0000_0000_0000 <= x * y <= 0x4000_0000_0000_0000) by (nonlinear_arith)
            requires
                -0x8000_0000 <= x <= 0x7fff_ffff,
                -0x8000_0000 <= y <= 0x7fff_ffff,
        ;
        sum = sum + x * y;
        i = i + 1;
    }
    sum
}

/// The sum of the squares of the components.
pub fn squares(a: &[i32; 9]) -> (sum: u128)
    ensures
        sum == square_sum(a@),
        sum <= 9 * 0x4000_0000_0000_0000,
{
    proof {
        lemma_square_sum_bounds(a@, 9);
    }
    dot_product(a, a) as u128
}

/// The length of a vector, rounded down to the millionth.
pub fn magnitude_of(a: &[i32; 9]) -> (length: u64)
    ensures
        length == spec_magnitude(a@),
        is_floor_sqrt(square_sum(a@) as nat, length as nat),
{
    isqrt(squares(a))
}

} // verus!
