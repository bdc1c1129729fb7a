//! Similarity of embeddings.

use vstd::prelude::*;
use crate::embedding::vector::{
    dot, dot_product, lemma_cauchy_schwarz, magnitude_of, spec_magnitude, square_sum, squares,
};
use crate::fixed::{div_floor, floor_sqrt, isqrt_product};

verus! {

/// The cosine of the angle between two vectors, in millionths: the dot
/// product over the root of the product of the square sums, both rounded
/// down; 0 where one of the vectors is zero.
pub open spec fn spec_cosine(a: Seq<i32>, b: Seq<i32>) -> int {
    if square_sum(a) == 0 || square_sum(b) == 0 {
        0
    } else {
        (dot(a, b) * 1_000_000) / (floor_sqrt((square_sum(a) * square_sum(b)) as nat) as int)
    }
}

/// The score of a vector, in millionths: a third of its length, at most 1.
pub open spec fn spec_vector_score(v: Seq<i32>) -> nat {
    let third = spec_magnitude(v) / 3;
    if third > 1_000_000 {
        1_000_000
    } else {
        third
    }
}

/// The opposite vector.
pub open spec fn spec_negated(v: Seq<i32>) -> Seq<i32> {
    Seq::new(9, |i: int| (-v[i]) as i32)
}

/// Compares embeddings.
#[derive(Debug, Clone, Copy)]
pub struct SemanticAnalyzer {}

impl SemanticAnalyzer {
    pub fn new() -> (analyzer: SemanticAnalyzer) {
        SemanticAnalyzer {  }
    }

    /// The cosine similarity of two vectors in millionths, between
    /// -1000000 and 1000000.
    pub fn cosine_similarity(&self, a: &[i32; 9], b: &[i32; 9]) -> (similarity: i32)
        ensures
            similarity == spec_cosine(a@, b@),
            -1_000_000 <= similarity <= 1_000_000,
    {
        let aa = squares(a);
        let bb = squares(b);
        if aa == 0 || bb == 0 {
            return 0;
        }
        let root = isqrt_product(aa, bb);
        let d = dot_product(a, b);
        proof {
            assert(aa * bb >= 1) by (nonlinear_arith)
                requires
                    aa >= 1,
                    bb >= 1,
            ;
            assert(root > 0) by {
                if root == 0 {
                    assert((root + 1) * (root + 1) == 1) by (nonlinear_arith)
                        requires
                            root == 0,
                    ;
                }
            }
            lemma_cauchy_schwarz(a@, b@, 9);
            lemma_dot_within_root(d as int, (aa * bb) as int, root as int);
            assert(-1_000_000 * root <= d * 1_000_000 <= 1_000_000 * root);
        }
        let quotient = div_floor(d * 1_000_000, root as i128);
        proof {
            lemma_quotient_bounds(d * 1_000_000, root as int, 1_000_000);
        }
        quotient as i32
    }

    /// The opposite of a vector. A component of `i32::MIN`, which has no
    /// opposite, is left out by the precondition.
    pub fn generate_anti_proposal(&self, vector: &[i32; 9]) -> (anti: [i32; 9])
        requires
            forall|i: int| 0 <= i < 9 ==> #[trigger] vector@[i] > i32::MIN,
        ensures
            anti@ == spec_negated(vector@),
    {
        let mut anti: [i32; 9] = [0; 9];
        let mut i: usize = 0;
        while i < 9
            invariant
                i <= 9,
                forall|k: int| 0 <= k < 9 ==> #[trigger] vector@[k] > i32::MIN,
                forall|k: int| 0 <= k < i ==> anti@[k] == -vector@[k],
            decreases 9 - i,
        {
            anti[i] = -vector[i];
            i = i + 1;
        }
        assert(anti@ =~= spec_negated(vector@));
        anti
    }

    /// The score of a vector in millionths: a third of its length, at most
    /// one.
    pub fn calculate_resonance_score(&self, vector: &[i32; 9]) -> (score: u32)
        ensures
            score == spec_vector_score(vector@),
            score <= 1_000_000,
    {
        let third = magnitude_of(vector) / 3;
        if third > 1_000_000 {
            1_000_000
        } else {
            third as u32
        }
    }
}

impl Default for SemanticAnalyzer {
    fn default() -> (analyzer: SemanticAnalyzer) {
        SemanticAnalyzer::new()
    }
}

/// A number whose square does not exceed `product` lies within the root of
/// `product`, rounded down.
proof fn lemma_dot_within_root(d: int, product: int, root: int)
    requires
        d * d <= product,
        0 <= root,
        product < (root + 1) * (root + 1),
    ensures
        -root <= d <= root,
{
    if d > root {
        assert(d * d >= (root + 1) * (root + 1)) by (nonlinear_arith)
            requires
                d >= root + 1,
                root >= 0,
        ;
    }
    if d < -root {
        assert(d * d >= (root + 1) * (root + 1)) by (nonlinear_arith)
            requires
                d <= -(root + 1),
                root >= 0,
        ;
    }
}

/// A numerator between `-bound x divisor` and `bound x divisor` has a
/// quotient between `-bound` and `bound`.
proof fn lemma_quotient_bounds(numerator: int, divisor: int, bound: int)
    requires
        divisor > 0,
        -bound * divisor <= numerator <= bound * divisor,
    ensures
        -bound <= numerator / divisor <= bound,
{
    vstd::arithmetic::div_mod::lemma_fundamental_div_mod(numerator, divisor);
    vstd::arithmetic::div_mod::lemma_mod_bound(numerator, divisor);
    let q = numerator / divisor;
    let r = numerator % divisor;
    assert(numerator == divisor * q + r);
    if q > bound {
        assert(divisor * q >= divisor * (bound + 1)) by (nonlinear_arith)
            requires
                q >= bound + 1,
                divisor > 0,
        ;
        assert(divisor * (bound + 1) == bound * divisor + divisor) by (nonlinear_arith);
    }
    if q < -bound {
        assert(divisor * q <= divisor * (-bound - 1)) by (nonlinear_arith)
            requires
                q <= -bound - 1,
                divisor > 0,
        ;
        assert(divisor * (-bound - 1) == -bound * divisor - divisor) by (nonlinear_arith);
    }
}

} // verus!
