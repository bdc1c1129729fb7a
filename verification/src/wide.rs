//! Natural numbers of any size, for the sums that leave 128 bits: a number
//! is a vector of 32-bit limbs, least significant first.

use vstd::prelude::*;
use vstd::arithmetic::power::{lemma_pow0, lemma_pow1, lemma_pow_adds, lemma_pow_positive, pow};

verus! {

/// The base of the limbs, 2^32.
pub open spec fn base() -> nat {
    0x1_0000_0000
}

/// What a limb at place `i` counts: the `i`th power of the base.
pub open spec fn place(i: nat) -> nat {
    pow(base() as int, i) as nat
}

/// The number that the limbs write, least significant limb first.
pub open spec fn value(limbs: Seq<u32>) -> nat
    decreases limbs.len(),
{
    if limbs.len() == 0 {
        0
    } else {
        value(limbs.drop_last()) + limbs.last() as nat * place((limbs.len() - 1) as nat)
    }
}

/// The places: 1 for the lowest limb, and each the base times the one
/// before.
proof fn lemma_base_pow(n: nat)
    ensures
        place(0) == 1,
        place(n) > 0,
        place(n + 1) == base() * place(n),
{
    lemma_pow0(base() as int);
    lemma_pow_positive(base() as int, n);
    lemma_pow_positive(base() as int, n + 1);
    lemma_pow_adds(base() as int, 1, n);
    lemma_pow1(base() as int);
}

/// One more limb at the top adds that limb times the power of its place.
proof fn lemma_value_push(limbs: Seq<u32>, top: u32)
    ensures
        value(limbs.push(top)) == value(limbs) + top as nat * place(limbs.len()),
{
    assert(limbs.push(top).drop_last() =~= limbs);
}

/// A number written on `n` limbs is below the `n`th power of the base.
proof fn lemma_value_bound(limbs: Seq<u32>)
    ensures
        value(limbs) < place(limbs.len()),
    decreases limbs.len(),
{
    if limbs.len() == 0 {
        lemma_base_pow(0);
    } else {
        let n = (limbs.len() - 1) as nat;
        lemma_value_bound(limbs.drop_last());
        lemma_base_pow(n);
        let p = place(n) as int;
        let top = limbs.last() as int;
        assert(top * p + p <= base() * p) by (nonlinear_arith)
            requires
                0 <= top <= 0xffff_ffff,
                p > 0,
                base() == 0x1_0000_0000,
        ;
    }
}

/// A zero limb at the bottom multiplies the number by the base.
proof fn lemma_value_shift(limbs: Seq<u32>)
    ensures
        value(seq![0u32] + limbs) == base() * value(limbs),
    decreases limbs.len(),
{
    let shifted = seq![0u32] + limbs;
    if limbs.len() == 0 {
        assert(shifted =~= seq![0u32]);
        assert(shifted.drop_last() =~= Seq::<u32>::empty());
        lemma_base_pow(0);
        assert(value(shifted) == value(Seq::<u32>::empty()) + 0 * place(0));
        assert(base() * value(limbs) == 0) by (nonlinear_arith)
            requires
                value(limbs) == 0,
        ;
    } else {
        let n = (limbs.len() - 1) as nat;
        assert(shifted.drop_last() =~= seq![0u32] + limbs.drop_last());
        assert(shifted.last() == limbs.last());
        lemma_value_shift(limbs.drop_last());
        lemma_base_pow(n);
        let p = place(n) as int;
        let top = limbs.last() as int;
        let low = value(limbs.drop_last()) as int;
        assert(base() * low + top * (base() * p) == base() * (low + top * p)) by (nonlinear_arith);
    }
}

/// The first `i + 1` limbs write what the first `i` write, plus limb `i`
/// at its place.
proof fn lemma_value_take(limbs: Seq<u32>, i: int)
    requires
        0 <= i < limbs.len(),
    ensures
        value(limbs.take(i + 1)) == value(limbs.take(i)) + limbs[i] as nat * place(i as nat),
{
    assert(limbs.take(i + 1).drop_last() =~= limbs.take(i));
}

/// The fifth place is 2^128.
proof fn lemma_place_4()
    ensures
        place(1) == 0x1_0000_0000,
        place(2) == 0x1_0000_0000_0000_0000,
        place(3) == 0x1_0000_0000_0000_0000_0000_0000,
        place(4) == 0x1_0000_0000_0000_0000_0000_0000_0000_0000,
{
    lemma_base_pow(0);
    lemma_base_pow(1);
    lemma_base_pow(2);
    lemma_base_pow(3);
}

/// The limbs of a 128-bit number.
pub fn from_u128(x: u128) -> (limbs: Vec<u32>)
    ensures
        value(limbs@) == x,
{
    let l0: u32 = (x % 0x1_0000_0000) as u32;
    let q1: u128 = x / 0x1_0000_0000;
    let l1: u32 = (q1 % 0x1_0000_0000) as u32;
    let q2: u128 = q1 / 0x1_0000_0000;
    let l2: u32 = (q2 % 0x1_0000_0000) as u32;
    let q3: u128 = q2 / 0x1_0000_0000;
    let l3: u32 = q3 as u32;
    let mut limbs: Vec<u32> = Vec::new();
    limbs.push(l0);
    limbs.push(l1);
    limbs.push(l2);
    limbs.push(l3);
    proof {
        let s0 = Seq::<u32>::empty();
        let s1 = s0.push(l0);
        let s2 = s1.push(l1);
        let s3 = s2.push(l2);
        let s4 = s3.push(l3);
        assert(limbs@ =~= s4);
        lemma_place_4();
        lemma_base_pow(0);
        lemma_value_push(s0, l0);
        lemma_value_push(s1, l1);
        lemma_value_push(s2, l2);
        lemma_value_push(s3, l3);
        assert(l0 as nat * place(0) == l0) by (nonlinear_arith)
            requires
                place(0) == 1,
        ;
        assert(l1 as nat * place(1) == l1 * 0x1_0000_0000) by (nonlinear_arith)
            requires
                place(1) == 0x1_0000_0000,
        ;
        assert(l2 as nat * place(2) == l2 * 0x1_0000_0000_0000_0000) by (nonlinear_arith)
            requires
                place(2) == 0x1_0000_0000_0000_0000,
        ;
        assert(l3 as nat * place(3) == l3 * 0x1_0000_0000_0000_0000_0000_0000)
            by (nonlinear_arith)
            requires
                place(3) == 0x1_0000_0000_0000_0000_0000_0000,
        ;
        assert(x == l0 + 0x1_0000_0000 * q1);
        assert(q1 == l1 + 0x1_0000_0000 * q2);
        assert(q2 == l2 + 0x1_0000_0000 * q3);
        assert(q3 == l3);
    }
    limbs
}

/// The limbs with zeros added at the top up to `len` limbs.
fn padded(limbs: &Vec<u32>, len: usize) -> (wide: Vec<u32>)
    ensures
        value(wide@) == value(limbs@),
        wide@.len() == if limbs@.len() < len {
            len as nat
        } else {
            limbs@.len()
        },
{
    let mut wide: Vec<u32> = Vec::new();
    let mut i: usize = 0;
    while i < limbs.len()
        invariant
            i <= limbs.len(),
            wide@ == limbs@.take(i as int),
        decreases limbs.len() - i,
    {
        wide.push(limbs[i]);
        assert(limbs@.take(i + 1) =~= limbs@.take(i as int).push(limbs@[i as int]));
        i = i + 1;
    }
    assert(limbs@.take(i as int) =~= limbs@);
    while wide.len() < len
        invariant
            value(wide@) == value(limbs@),
            wide@.len() >= limbs@.len(),
            wide@.len() <= len || wide@.len() == limbs@.len(),
        decreases len - wide.len(),
    {
        proof {
            lemma_value_push(wide@, 0);
            assert(0 * place(wide@.len()) == 0);
        }
        wide.push(0);
    }
    wide
}

/// The sum of two numbers.
pub fn sum_of(a: &Vec<u32>, b: &Vec<u32>) -> (sum: Vec<u32>)
    ensures
        value(sum@) == value(a@) + value(b@),
{
    let len: usize = if a.len() > b.len() {
        a.len()
    } else {
        b.len()
    };
    let x = padded(a, len);
    let y = padded(b, len);
    let mut sum: Vec<u32> = Vec::new();
    let mut carry: u64 = 0;
    let mut i: usize = 0;
    proof {
        lemma_base_pow(0);
        assert(x@.take(0) =~= Seq::<u32>::empty());
        assert(y@.take(0) =~= Seq::<u32>::empty());
    }
    while i < len
        invariant
            i <= len,
            x@.len() == len,
            y@.len() == len,
            sum@.len() == i,
            carry <= 1,
            value(sum@) + carry * place(i as nat) == value(x@.take(i as int)) + value(
                y@.take(i as int),
            ),
        decreases len - i,
    {
        let total: u64 = x[i] as u64 + y[i] as u64 + carry;
        let limb: u32 = (total % 0x1_0000_0000) as u32;
        let next: u64 = total / 0x1_0000_0000;
        proof {
            lemma_value_push(sum@, limb);
            lemma_value_take(x@, i as int);
            lemma_value_take(y@, i as int);
            lemma_base_pow(i as nat);
            let p = place(i as nat) as int;
            assert(total == next * 0x1_0000_0000 + limb);
            assert(limb * p + next * (base() * p) == (x@[i as int] + y@[i as int] + carry) * p)
                by (nonlinear_arith)
                requires
                    x@[i as int] + y@[i as int] + carry == next * 0x1_0000_0000 + limb,
                    base() == 0x1_0000_0000,
            ;
            assert((x@[i as int] + y@[i as int] + carry) * p == x@[i as int] * p + y@[i as int] * p
                + carry * p) by (nonlinear_arith);
        }
        sum.push(limb);
        carry = next;
        i = i + 1;
    }
    proof {
        assert(x@.take(len as int) =~= x@);
        assert(y@.take(len as int) =~= y@);
        lemma_value_push(sum@, carry as u32);
    }
    sum.push(carry as u32);
    sum
}

/// The product of a number and a 32-bit factor.
pub fn mul_small(a: &Vec<u32>, factor: u32) -> (product: Vec<u32>)
    ensures
        value(product@) == value(a@) * factor,
{
    let mut product: Vec<u32> = Vec::new();
    let mut carry: u64 = 0;
    let mut i: usize = 0;
    proof {
        lemma_base_pow(0);
        assert(a@.take(0) =~= Seq::<u32>::empty());
        assert(value(a@.take(0)) * factor == 0) by (nonlinear_arith)
            requires
                value(a@.take(0)) == 0,
        ;
    }
    while i < a.len()
        invariant
            i <= a.len(),
            product@.len() == i,
            carry <= 0xffff_ffff,
            value(product@) + carry * place(i as nat) == value(a@.take(i as int)) * factor,
        decreases a.len() - i,
    {
        assert((a@[i as int] as u64) * (factor as u64) <= 0xffff_ffff * 0xffff_ffff)
            by (nonlinear_arith)
            requires
                a@[i as int] <= 0xffff_ffff,
                factor <= 0xffff_ffff,
        ;
        let total: u64 = (a[i] as u64) * (factor as u64) + carry;
        let limb: u32 = (total % 0x1_0000_0000) as u32;
        let next: u64 = total / 0x1_0000_0000;
        proof {
            lemma_value_push(product@, limb);
            lemma_value_take(a@, i as int);
            lemma_base_pow(i as nat);
            let p = place(i as nat) as int;
            let low = value(a@.take(i as int)) as int;
            let ai = a@[i as int] as int;
            assert(total == next * 0x1_0000_0000 + limb);
            assert(limb * p + next * (base() * p) == (ai * factor + carry) * p) by (nonlinear_arith)
                requires
                    ai * factor + carry == next * 0x1_0000_0000 + limb,
                    base() == 0x1_0000_0000,
            ;
            assert((ai * factor + carry) * p == (ai * p) * factor + carry * p)
                by (nonlinear_arith);
            assert((low + ai * p) * factor == low * factor + (ai * p) * factor)
                by (nonlinear_arith);
        }
        product.push(limb);
        carry = next;
        i = i + 1;
    }
    proof {
        assert(a@.take(i as int) =~= a@);
        lemma_value_push(product@, carry as u32);
    }
    product.push(carry as u32);
    product
}

/// The product of a number and the base.
pub fn shifted(a: &Vec<u32>) -> (product: Vec<u32>)
    ensures
        value(product@) == value(a@) * base(),
{
    let mut product: Vec<u32> = Vec::new();
    product.push(0);
    let mut i: usize = 0;
    while i < a.len()
        invariant
            i <= a.len(),
            product@ == seq![0u32] + a@.take(i as int),
        decreases a.len() - i,
    {
        product.push(a[i]);
        assert(a@.take(i + 1) =~= a@.take(i as int).push(a@[i as int]));
        assert(product@ =~= seq![0u32] + a@.take(i + 1));
        i = i + 1;
    }
    proof {
        assert(a@.take(i as int) =~= a@);
        lemma_value_shift(a@);
        assert(base() * value(a@) == value(a@) * base()) by (nonlinear_arith);
    }
    product
}

/// The product of a number and a 64-bit factor.
pub fn mul_u64(a: &Vec<u32>, factor: u64) -> (product: Vec<u32>)
    ensures
        value(product@) == value(a@) * factor,
{
    let low: u32 = (factor % 0x1_0000_0000) as u32;
    let high: u32 = (factor / 0x1_0000_0000) as u32;
    let first = mul_small(a, low);
    let second = shifted(&mul_small(a, high));
    proof {
        let v = value(a@) as int;
        assert(v * low + (v * high) * base() == v * (high * 0x1_0000_0000 + low))
            by (nonlinear_arith)
            requires
                base() == 0x1_0000_0000,
        ;
    }
    sum_of(&first, &second)
}

/// The product of a number and a 128-bit factor.
pub fn mul_u128(a: &Vec<u32>, factor: u128) -> (product: Vec<u32>)
    ensures
        value(product@) == value(a@) * factor,
{
    let low: u64 = (factor % 0x1_0000_0000_0000_0000) as u64;
    let high: u64 = (factor / 0x1_0000_0000_0000_0000) as u64;
    let first = mul_u64(a, low);
    let second = shifted(&shifted(&mul_u64(a, high)));
    proof {
        let v = value(a@) as int;
        assert(v * low + ((v * high) * base()) * base() == v * (high * 0x1_0000_0000_0000_0000
            + low)) by (nonlinear_arith)
            requires
                base() == 0x1_0000_0000,
        ;
    }
    sum_of(&first, &second)
}

/// Limbs above place `i` agree, on numbers of the same length: then the
/// numbers differ as their first `i + 1` limbs do.
proof fn lemma_equal_tops(a: Seq<u32>, b: Seq<u32>, i: int)
    requires
        a.len() == b.len(),
        -1 <= i < a.len(),
        forall|j: int| i < j < a.len() ==> a[j] == b[j],
    ensures
        value(a) - value(a.take(i + 1)) == value(b) - value(b.take(i + 1)),
    decreases a.len() - i,
{
    if i + 1 == a.len() {
        assert(a.take(i + 1) =~= a);
        assert(b.take(i + 1) =~= b);
    } else {
        lemma_equal_tops(a, b, i + 1);
        lemma_value_take(a, i + 1);
        lemma_value_take(b, i + 1);
    }
}

/// Whether the first number is smaller than the second.
pub fn less_than(a: &Vec<u32>, b: &Vec<u32>) -> (smaller: bool)
    ensures
        smaller == (value(a@) < value(b@)),
{
    let len: usize = if a.len() > b.len() {
        a.len()
    } else {
        b.len()
    };
    let x = padded(a, len);
    let y = padded(b, len);
    let mut i: usize = len;
    while i > 0
        invariant
            i <= len,
            x@.len() == len,
            y@.len() == len,
            value(x@) == value(a@),
            value(y@) == value(b@),
            forall|j: int| i <= j < len ==> x@[j] == y@[j],
        decreases i,
    {
        i = i - 1;
        if x[i] != y[i] {
            proof {
                lemma_equal_tops(x@, y@, i as int);
                lemma_value_take(x@, i as int);
                lemma_value_take(y@, i as int);
                lemma_value_bound(x@.take(i as int));
                lemma_value_bound(y@.take(i as int));
                lemma_base_pow(i as nat);
                let p = place(i as nat) as int;
                let xi = x@[i as int] as int;
                let yi = y@[i as int] as int;
                if xi < yi {
                    assert(xi * p + p <= yi * p) by (nonlinear_arith)
                        requires
                            xi + 1 <= yi,
                            p > 0,
                    ;
                } else {
                    assert(yi * p + p <= xi * p) by (nonlinear_arith)
                        requires
                            yi + 1 <= xi,
                            p > 0,
                    ;
                }
            }
            return x[i] < y[i];
        }
    }
    proof {
        lemma_equal_tops(x@, y@, -1);
        assert(x@.take(0) =~= Seq::<u32>::empty());
        assert(y@.take(0) =~= Seq::<u32>::empty());
    }
    false
}

} // verus!
