//! The embedder: a text becomes 384 components taken from its Keccak-256
//! digest, which are pooled into 9 and scaled by the triad.

use vstd::prelude::*;
use vstd::utf8::encode_utf8;
use crate::digest::{keccak256, keccak256_digest};
use crate::embedding::vector::{
    lemma_square_sum_bounds, magnitude_of, spec_magnitude, square_sum,
};
use crate::fixed::{div_floor, is_floor_sqrt};
use crate::text::{decimal, push_decimal};

verus! {

/// Components of the embedding before it is pooled.
pub const EMBEDDING_DIM: usize = 384;

/// Components that are pooled into one.
pub const CHUNK: usize = 42;

/// The component that a digest byte stands for, in millionths: the byte
/// mapped linearly from 0..255 onto -1..1, rounded down.
pub open spec fn spec_component(byte: u8) -> int {
    (2 * byte * 1_000_000) / 255 - 1_000_000
}

/// The 384 components of a digest: its bytes, taken round and round.
pub open spec fn spec_components(hash: Seq<u8>) -> Seq<i32> {
    Seq::new(384, |i: int| spec_component(hash[i % 32]) as i32)
}

/// The 384 components of a text: those of the Keccak-256 digest of its
/// UTF-8 bytes.
pub open spec fn spec_hash_embedding(text: Seq<char>) -> Seq<i32> {
    spec_components(keccak256_digest(encode_utf8(text)))
}

/// Sum of the components from `from` up to `to`.
pub open spec fn range_sum(values: Seq<i32>, from: int, to: int) -> int
    decreases to - from,
{
    if to <= from {
        0
    } else {
        range_sum(values, from, to - 1) + values[to - 1]
    }
}

/// The factor of a dimension, in sixths: 3, 6 and 9 for the dimensions 0, 3
/// and 6, else 1.
pub open spec fn spec_scale(i: int) -> int {
    if i == 0 {
        3
    } else if i == 3 {
        6
    } else if i == 6 {
        9
    } else {
        1
    }
}

/// A component scaled by the factor of its dimension, rounded down.
pub open spec fn spec_scaled(value: int, i: int) -> int {
    (value * spec_scale(i)) / 6
}

/// Component `i` of the pooled embedding: the mean of chunk `i`, rounded
/// down, then scaled.
pub open spec fn spec_pooled(embedding: Seq<i32>, i: int) -> int {
    spec_scaled(range_sum(embedding, 42 * i, 42 * i + 42) / 42, i)
}

/// The 9 components that 384 are reduced to.
pub open spec fn spec_reduce(embedding: Seq<i32>) -> Seq<i32> {
    Seq::new(9, |i: int| spec_pooled(embedding, i) as i32)
}

/// The embedding of a text.
pub open spec fn spec_embed(text: Seq<char>) -> Seq<i32> {
    spec_reduce(spec_hash_embedding(text))
}

/// Every component lies between -1 and 1.
pub open spec fn within_unit(values: Seq<i32>) -> bool {
    forall|i: int| 0 <= i < values.len() ==> -1_000_000 <= #[trigger] values[i] <= 1_000_000
}

/// A vector divided by its length: each component times a million over
/// the length, rounded down; a zero vector stays as it is.
pub open spec fn spec_normalized(v: Seq<i32>) -> Seq<i32> {
    if spec_magnitude(v) == 0 {
        v
    } else {
        Seq::new(9, |i: int| ((v[i] * 1_000_000) / (spec_magnitude(v) as int)) as i32)
    }
}

/// The message for an embedding of the wrong size.
pub open spec fn dimension_error(expected: nat, got: nat) -> Seq<char> {
    "Invalid embedding dimension: expected "@ + decimal(expected) + ", got "@ + decimal(got)
}

/// Embeds texts in nine dimensions.
pub struct VectorEmbedder {
    model_path: Option<String>,
}

impl VectorEmbedder {
    /// The path of the model, if one was named.
    pub closed spec fn model_path(&self) -> Option<Seq<char>> {
        match self.model_path {
            Some(path) => Some(path@),
            None => None,
        }
    }

    /// An embedder, with the path of a model or without.
    pub fn new(model_path: Option<String>) -> (embedder: Result<VectorEmbedder, String>)
        ensures
            embedder matches Ok(made) && made.model_path() == match model_path {
                Some(path) => Some(path@),
                None => None,
            },
    {
        Ok(VectorEmbedder { model_path })
    }

    /// An embedder without a model.
    pub fn with_default_model() -> (embedder: Result<VectorEmbedder, String>)
        ensures
            embedder matches Ok(made) && made.model_path() is None,
    {
        VectorEmbedder::new(None)
    }

    /// The embedding of a text: 9 components between -1.5 and 1.5.
    pub fn embed(&self, text: &str) -> (embedding: Result<[i32; 9], String>)
        ensures
            embedding matches Ok(vector) && vector@ == spec_embed(text@),
    {
        Ok(self.embedding_of(text))
    }

    /// The embedding of a text.
    pub fn embedding_of(&self, text: &str) -> (vector: [i32; 9])
        ensures
            vector@ == spec_embed(text@),
    {
        let embedding = self.hash_based_embedding(text);
        self.pool(embedding.as_slice())
    }

    /// The 384 components of a text.
    pub fn hash_based_embedding(&self, text: &str) -> (embedding: Vec<i32>)
        ensures
            embedding@ == spec_hash_embedding(text@),
            within_unit(embedding@),
    {
        let hash = keccak256(text.as_bytes());
        self.components_of_digest(&hash)
    }

    /// The 384 components of a digest.
    pub fn components_of_digest(&self, hash: &[u8; 32]) -> (embedding: Vec<i32>)
        ensures
            embedding@ == spec_components(hash@),
            within_unit(embedding@),
    {
        let mut embedding: Vec<i32> = Vec::new();
        let mut i: usize = 0;
        while i < EMBEDDING_DIM
            invariant
                i <= 384,
                embedding@.len() == i,
                forall|k: int|
                    0 <= k < i ==> #[trigger] embedding@[k] == spec_component(hash@[k % 32]),
                within_unit(embedding@),
            decreases 384 - i,
        {
            let idx = i % 32;
            let value: i32 = (2 * (hash[idx] as i32) * 1_000_000) / 255 - 1_000_000;
            embedding.push(value);
            i = i + 1;
        }
        assert(embedding@ =~= spec_components(hash@));
        embedding
    }

    /// Pools 384 components into 9 and scales them; any other number of
    /// components is refused.
    pub fn reduce_to_9d(&self, embedding: &[i32]) -> (reduced: Result<[i32; 9], String>)
        requires
            within_unit(embedding@),
        ensures
            match reduced {
                Ok(vector) => embedding@.len() == 384 && vector@ == spec_reduce(embedding@),
                Err(reason) => embedding@.len() != 384 && reason@ == dimension_error(
                    384,
                    embedding@.len(),
                ),
            },
    {
        if embedding.len() != EMBEDDING_DIM {
            let mut reason = "Invalid embedding dimension: expected ".to_owned();
            push_decimal(&mut reason, EMBEDDING_DIM as u64);
            reason.append(", got ");
            push_decimal(&mut reason, embedding.len() as u64);
            return Err(reason);
        }
        Ok(self.pool(embedding))
    }

    /// Pools 384 components into 9, each the mean of a chunk of 42, and
    /// scales them.
    fn pool(&self, embedding: &[i32]) -> (reduced: [i32; 9])
        requires
            embedding@.len() == 384,
            within_unit(embedding@),
        ensures
            reduced@ == spec_reduce(embedding@),
    {
        let mut reduced: [i32; 9] = [0; 9];
        let mut i: usize = 0;
        while i < 9
            invariant
                i <= 9,
                embedding@.len() == 384,
                within_unit(embedding@),
                forall|k: int|
                    0 <= k < i ==> #[trigger] reduced@[k] == range_sum(
                        embedding@,
                        42 * k,
                        42 * k + 42,
                    ) / 42,
                forall|k: int| 0 <= k < i ==> -1_000_000 <= #[trigger] reduced@[k] <= 1_000_000,
                forall|k: int| i <= k < 9 ==> #[trigger] reduced@[k] == 0,
            decreases 9 - i,
        {
            let start: usize = i * CHUNK;
            let mut sum: i64 = 0;
            let mut j: usize = 0;
            while j < CHUNK
                invariant
                    j <= 42,
                    i < 9,
                    start == 42 * i,
                    embedding@.len() == 384,
                    within_unit(embedding@),
                    sum == range_sum(embedding@, start as int, start + j),
                    -1_000_000 * j <= sum <= 1_000_000 * j,
                decreases 42 - j,
            {
                sum = sum + embedding[start + j] as i64;
                j = j + 1;
            }
            let mean = div_floor(sum as i128, 42);
            reduced[i] = mean as i32;
            i = i + 1;
        }
        self.apply_369_scaling(&mut reduced);
        assert(reduced@ =~= spec_reduce(embedding@));
        reduced
    }

    /// Scales each component by the factor of its dimension: dimension 0 by
    /// 3/6, 3 by 6/6, 6 by 9/6, the others by 1/6.
    pub fn apply_369_scaling(&self, vector: &mut [i32; 9])
        requires
            within_unit(old(vector)@),
        ensures
            forall|i: int| 0 <= i < 9 ==> #[trigger] final(vector)@[i] == spec_scaled(
                old(vector)@[i] as int,
                i,
            ),
            forall|i: int| 0 <= i < 9 ==> -1_500_000 <= #[trigger] final(vector)@[i] <= 1_500_000,
    {
        let scales: [i32; 9] = [3, 1, 1, 6, 1, 1, 9, 1, 1];
        let mut i: usize = 0;
        while i < 9
            invariant
                i <= 9,
                scales@ == seq![3i32, 1, 1, 6, 1, 1, 9, 1, 1],
                within_unit(old(vector)@),
                forall|k: int| i <= k < 9 ==> #[trigger] vector@[k] == old(vector)@[k],
                forall|k: int|
                    0 <= k < i ==> #[trigger] vector@[k] == spec_scaled(old(vector)@[k] as int, k),
                forall|k: int| 0 <= k < i ==> -1_500_000 <= #[trigger] vector@[k] <= 1_500_000,
            decreases 9 - i,
        {
            let scale = scales[i];
            let value = vector[i];
            proof {
                assert(scale == spec_scale(i as int));
                assert(value == old(vector)@[i as int]);
                assert(-1_000_000 <= value <= 1_000_000);
                assert(-9_000_000 <= (value as int) * (scale as int) <= 9_000_000)
                    by (nonlinear_arith)
                    requires
                        -1_000_000 <= value <= 1_000_000,
                        1 <= scale <= 9,
                ;
            }
            let scaled = div_floor((value as i128) * (scale as i128), 6);
            vector[i] = scaled as i32;
            i = i + 1;
        }
    }

    /// The embeddings of the texts, in their order.
    pub fn embed_batch(&self, texts: &[String]) -> (embeddings: Result<Vec<[i32; 9]>, String>)
        ensures
            embeddings matches Ok(vectors) && vectors@.len() == texts@.len() && forall|i: int|
                0 <= i < texts@.len() ==> (#[trigger] vectors@[i])@ == spec_embed(texts@[i]@),
    {
        let mut vectors: Vec<[i32; 9]> = Vec::new();
        let mut i: usize = 0;
        while i < texts.len()
            invariant
                i <= texts.len(),
                vectors@.len() == i,
                forall|k: int| 0 <= k < i ==> (#[trigger] vectors@[k])@ == spec_embed(texts@[k]@),
            decreases texts.len() - i,
        {
            match self.embed(texts[i].as_str()) {
                Ok(vector) => {
                    vectors.push(vector);
                },
                Err(reason) => {
                    return Err(reason);
                },
            }
            i = i + 1;
        }
        Ok(vectors)
    }

    /// The length of an embedding, rounded down to the millionth.
    pub fn magnitude(&self, embedding: &[i32; 9]) -> (length: u64)
        ensures
            length == spec_magnitude(embedding@),
            is_floor_sqrt(square_sum(embedding@) as nat, length as nat),
    {
        magnitude_of(embedding)
    }

    /// Brings an embedding to unit length; a zero embedding stays zero.
    pub fn normalize(&self, embedding: &mut [i32; 9])
        ensures
            final(embedding)@ == spec_normalized(old(embedding)@),
    {
        let mag = self.magnitude(embedding);
        if mag > 0 {
            let mut i: usize = 0;
            proof {
                lemma_square_sum_bounds(embedding@, 9);
            }
            while i < 9
                invariant
                    i <= 9,
                    mag > 0,
                    mag == spec_magnitude(old(embedding)@),
                    is_floor_sqrt(square_sum(old(embedding)@) as nat, mag as nat),
                    forall|k: int|
                        0 <= k < 9 ==> (#[trigger] old(embedding)@[k]) * old(embedding)@[k]
                            <= square_sum(old(embedding)@),
                    forall|k: int| i <= k < 9 ==> #[trigger] embedding@[k] == old(embedding)@[k],
                    forall|k: int|
                        0 <= k < i ==> #[trigger] embedding@[k] == (old(embedding)@[k] * 1_000_000)
                            / (mag as int),
                decreases 9 - i,
            {
                let value = embedding[i] as i128;
                proof {
                    lemma_component_within_length(
                        value as int,
                        square_sum(old(embedding)@),
                        mag as int,
                    );
                }
                let scaled = div_floor(value * 1_000_000, mag as i128);
                proof {
                    lemma_unit_quotient(value as int, mag as int);
                }
                embedding[i] = scaled as i32;
                i = i + 1;
            }
            assert(embedding@ =~= spec_normalized(old(embedding)@));
        }
    }
}

impl Default for VectorEmbedder {
    fn default() -> (embedder: VectorEmbedder)
        ensures
            embedder.model_path() is None,
    {
        VectorEmbedder { model_path: None }
    }
}

/// A component is at most as long as its vector.
proof fn lemma_component_within_length(value: int, sum: int, length: int)
    requires
        value * value <= sum,
        0 <= length,
        sum < (length + 1) * (length + 1),
    ensures
        -length <= value <= length,
{
    if value > length {
        assert(value * value >= (length + 1) * (length + 1)) by (nonlinear_arith)
            requires
                value >= length + 1,
                length >= 0,
        ;
    }
    if value < -length {
        assert(value * value >= (length + 1) * (length + 1)) by (nonlinear_arith)
            requires
                value <= -(length + 1),
                length >= 0,
        ;
    }
}

/// A component over the length lies between -1 and 1.
proof fn lemma_unit_quotient(value: int, length: int)
    requires
        length > 0,
        -length <= value <= length,
    ensures
        -1_000_000 <= (value * 1_000_000) / length <= 1_000_000,
{
    let numerator = value * 1_000_000;
    vstd::arithmetic::div_mod::lemma_fundamental_div_mod(numerator, length);
    vstd::arithmetic::div_mod::lemma_mod_bound(numerator, length);
    let q = numerator / length;
    let r = numerator % length;
    assert(numerator == length * q + r);
    if q > 1_000_000 {
        assert(length * q >= length * 1_000_001) by (nonlinear_arith)
            requires
                q >= 1_000_001,
                length > 0,
        ;
    }
    if q < -1_000_000 {
        assert(length * q <= length * (-1_000_001)) by (nonlinear_arith)
            requires
                q <= -1_000_001,
                length > 0,
        ;
    }
}

} // verus!
