//! Witness records and loop closure: a record is the base-9 numeral of the
//! low 64 bits of a SHA-256 digest, and a record closes the loop when the
//! digital root of its digit sum is 9.

use vstd::prelude::*;
use crate::digest::{sha256, sha256_digest};
use crate::constants::{
    is_369_aligned, lemma_digital_root_closed_form, spec_digital_root, spec_is_369_aligned,
    spec_to_base9, to_base9,
};
use crate::text::chars_of;

verus! {

/// The `count` low bytes of `value`, least significant first.
pub open spec fn le_bytes(value: nat, count: nat) -> Seq<u8>
    decreases count,
{
    if count == 0 {
        Seq::empty()
    } else {
        seq![(value % 256) as u8] + le_bytes(value / 256, (count - 1) as nat)
    }
}

/// The number that `bytes` write, least significant byte first.
pub open spec fn le_value(bytes: Seq<u8>) -> nat
    decreases bytes.len(),
{
    if bytes.len() == 0 {
        0
    } else {
        bytes[0] as nat + 256 * le_value(bytes.drop_first())
    }
}

/// The bytes that are digested for a record: the hash, then the value as 16
/// little-endian bytes, then the phase.
pub open spec fn witness_preimage(action_hash: Seq<u8>, value: u128, phase: u8) -> Seq<u8> {
    action_hash + le_bytes(value as nat, 16) + seq![phase]
}

/// The number that a digest contributes to a record: its first 8 bytes read
/// as a little-endian integer.
pub open spec fn digest_low64(digest: Seq<u8>) -> nat {
    le_value(digest.take(8))
}

/// The witness record of `(action_hash, value, phase)`.
pub open spec fn spec_witness_record(action_hash: Seq<u8>, value: u128, phase: u8) -> Seq<char> {
    spec_to_base9(digest_low64(sha256_digest(witness_preimage(action_hash, value, phase))), 9)
}

/// Bytes write a number below 256 to the power of their count.
proof fn lemma_le_value_bound(bytes: Seq<u8>)
    ensures
        le_value(bytes) < vstd::arithmetic::power::pow(256, bytes.len()),
    decreases bytes.len(),
{
    reveal(vstd::arithmetic::power::pow);
    if bytes.len() > 0 {
        lemma_le_value_bound(bytes.drop_first());
    }
}

/// The record that a digest yields: `to_base9` of its low 64 bits, at
/// least 9 digits wide.
pub fn record_from_digest(digest: &[u8; 32]) -> (record: String)
    ensures
        record@ == spec_to_base9(digest_low64(digest@), 9),
{
    let mut low: u64 = 0;
    let mut i: usize = 8;
    let ghost head = digest@.take(8);
    proof {
        assert(head.skip(8) =~= Seq::<u8>::empty());
        lemma_pow256_values();
    }
    while i > 0
        invariant
            i <= 8,
            head == digest@.take(8),
            low == le_value(head.skip(i as int)),
            le_value(head.skip(i as int)) < vstd::arithmetic::power::pow(256, (8 - i) as nat),
        decreases i,
    {
        i = i - 1;
        proof {
            let tail = head.skip(i as int);
            assert(tail.drop_first() =~= head.skip(i + 1));
            assert(tail[0] == digest[i as int]);
            lemma_le_value_bound(tail);
            lemma_pow256_values();
        }
        low = low * 256 + digest[i] as u64;
    }
    assert(head.skip(0) =~= head);
    to_base9(low, 9)
}

/// The powers of 256 up to the eighth.
proof fn lemma_pow256_values()
    ensures
        vstd::arithmetic::power::pow(256, 0) == 1,
        vstd::arithmetic::power::pow(256, 1) == 0x100,
        vstd::arithmetic::power::pow(256, 2) == 0x1_0000,
        vstd::arithmetic::power::pow(256, 3) == 0x100_0000,
        vstd::arithmetic::power::pow(256, 4) == 0x1_0000_0000,
        vstd::arithmetic::power::pow(256, 5) == 0x100_0000_0000,
        vstd::arithmetic::power::pow(256, 6) == 0x1_0000_0000_0000,
        vstd::arithmetic::power::pow(256, 7) == 0x100_0000_0000_0000,
        vstd::arithmetic::power::pow(256, 8) == 0x1_0000_0000_0000_0000,
{
    reveal_with_fuel(vstd::arithmetic::power::pow, 10);
}

/// The bytes digested for `(action_hash, value, phase)`.
pub fn build_preimage(action_hash: &[u8], value: u128, phase: u8) -> (data: Vec<u8>)
    ensures
        data@ == witness_preimage(action_hash@, value, phase),
{
    let mut data: Vec<u8> = Vec::new();
    let mut i: usize = 0;
    while i < action_hash.len()
        invariant
            i <= action_hash.len(),
            data@ == action_hash@.take(i as int),
        decreases action_hash.len() - i,
    {
        data.push(action_hash[i]);
        i = i + 1;
    }
    assert(action_hash@.take(i as int) =~= action_hash@);
    let mut rest: u128 = value;
    let mut k: usize = 0;
    let ghost done: Seq<u8> = Seq::empty();
    while k < 16
        invariant
            k <= 16,
            data@ == action_hash@ + done,
            done + le_bytes(rest as nat, (16 - k) as nat) == le_bytes(value as nat, 16),
        decreases 16 - k,
    {
        let byte: u8 = (rest % 256) as u8;
        proof {
            assert(le_bytes(rest as nat, (16 - k) as nat) == seq![byte] + le_bytes(
                (rest / 256) as nat,
                (16 - k - 1) as nat,
            ));
            assert(done.push(byte) + le_bytes((rest / 256) as nat, (16 - k - 1) as nat) =~= done
                + le_bytes(rest as nat, (16 - k) as nat));
            assert(data@.push(byte) =~= action_hash@ + done.push(byte));
            done = done.push(byte);
        }
        data.push(byte);
        rest = rest / 256;
        k = k + 1;
    }
    assert(done + le_bytes(rest as nat, 0) =~= done);
    data.push(phase);
    assert(data@ =~= action_hash@ + le_bytes(value as nat, 16) + seq![phase]);
    data
}

/// The witness record of an action: SHA-256 over the hash, the value and
/// the phase, the low 64 bits of the digest written in base 9 on at least
/// 9 digits.
pub fn generate_witness_record(action_hash: &[u8], value: u128, phase: u8) -> (record: String)
    ensures
        record@ == spec_witness_record(action_hash@, value, phase),
{
    let data = build_preimage(action_hash, value, phase);
    let digest = sha256(data.as_slice());
    record_from_digest(&digest)
}

/// What a character adds to the closure sum: its value if it is a decimal
/// digit, else nothing.
pub open spec fn digit_value(c: char) -> nat {
    if '0' <= c && c <= '9' {
        (c as u32 - 48) as nat
    } else {
        0
    }
}

/// Sum of the decimal digits among `chars`.
pub open spec fn digit_value_sum(chars: Seq<char>) -> nat
    decreases chars.len(),
{
    if chars.len() == 0 {
        0
    } else {
        digit_value_sum(chars.drop_last()) + digit_value(chars.last())
    }
}

/// Whether a witness record closes the loop.
pub open spec fn spec_loop_closure(witness: Seq<char>) -> bool {
    witness.len() > 0 && spec_digital_root(digit_value_sum(witness)) == 9
}

/// Whether `witness` closes the loop: it is not empty and the digital root
/// of the sum of its digits is 9.
pub fn verify_loop_closure(witness: &str) -> (closes: bool)
    ensures
        closes == spec_loop_closure(witness@),
{
    let chars = chars_of(witness);
    if chars.len() == 0 {
        return false;
    }
    let mut residue: u8 = 0;
    let mut positive: bool = false;
    let mut i: usize = 0;
    while i < chars.len()
        invariant
            i <= chars.len(),
            residue < 9,
            residue == digit_value_sum(chars@.take(i as int)) % 9,
            positive == (digit_value_sum(chars@.take(i as int)) > 0),
        decreases chars.len() - i,
    {
        let c = chars[i];
        let d: u8 = if '0' <= c && c <= '9' {
            (c as u32 - 48) as u8
        } else {
            0
        };
        proof {
            let upto = chars@.take(i + 1);
            assert(upto.drop_last() =~= chars@.take(i as int));
            assert(upto.last() == c);
            assert(digit_value_sum(upto) == digit_value_sum(chars@.take(i as int)) + d);
        }
        residue = (residue + d) % 9;
        positive = positive || d > 0;
        i = i + 1;
    }
    proof {
        assert(chars@.take(i as int) =~= chars@);
        lemma_digital_root_closed_form(digit_value_sum(witness@));
    }
    positive && residue == 0
}

/// Whether `value` holds at the given scale: the product fits in 64 bits
/// and is aligned with the triad.
pub open spec fn scale_holds(value: u64, scale: u64) -> bool {
    value * scale <= u64::MAX && spec_is_369_aligned((value * scale) as nat)
}

/// How many of the six scales 3, 9, 27, 81, 243, 729 hold for `value`.
pub open spec fn holding_scales(value: u64) -> nat {
    (if scale_holds(value, 3) { 1nat } else { 0 })
        + (if scale_holds(value, 9) { 1nat } else { 0 })
        + (if scale_holds(value, 27) { 1nat } else { 0 })
        + (if scale_holds(value, 81) { 1nat } else { 0 })
        + (if scale_holds(value, 243) { 1nat } else { 0 })
        + (if scale_holds(value, 729) { 1nat } else { 0 })
}

/// Whether `value` holds at one scale.
fn check_scale(value: u64, scale: u64) -> (holds: bool)
    ensures
        holds == scale_holds(value, scale),
{
    match value.checked_mul(scale) {
        Some(scaled) => is_369_aligned(scaled),
        None => false,
    }
}

/// Whether `value` replicates across the fractal scales: at least three of
/// the products with 3, 9, 27, 81, 243 and 729 fit in 64 bits and are
/// aligned with the triad.
pub fn validate_fractal_scales(value: u64) -> (valid: bool)
    ensures
        valid == (holding_scales(value) >= 3),
{
    let scales: [u64; 6] = [3, 9, 27, 81, 243, 729];
    let mut valid_scales: u8 = 0;
    let mut i: usize = 0;
    while i < 6
        invariant
            i <= 6,
            scales@ == seq![3u64, 9, 27, 81, 243, 729],
            valid_scales == (if i > 0 && scale_holds(value, 3) { 1nat } else { 0 })
                + (if i > 1 && scale_holds(value, 9) { 1nat } else { 0 })
                + (if i > 2 && scale_holds(value, 27) { 1nat } else { 0 })
                + (if i > 3 && scale_holds(value, 81) { 1nat } else { 0 })
                + (if i > 4 && scale_holds(value, 243) { 1nat } else { 0 })
                + (if i > 5 && scale_holds(value, 729) { 1nat } else { 0 }),
        decreases 6 - i,
    {
        if check_scale(value, scales[i]) {
            valid_scales = valid_scales + 1;
        }
        i = i + 1;
    }
    valid_scales >= 3
}

/// A positive multiple of 3 is aligned with the triad.
pub proof fn lemma_multiples_of_three_are_aligned(n: nat)
    requires
        n > 0,
        n % 3 == 0,
    ensures
        spec_is_369_aligned(n),
{
    lemma_digital_root_closed_form(n);
    let m = (n - 1) as nat;
    assert(n == 3 * (n / 3));
    assert(m % 9 == 2 || m % 9 == 5 || m % 9 == 8) by {
        assert(m == 9 * (m / 9) + m % 9);
        assert(n == 3 * (n / 3));
    }
}

/// The scales test in closed form: a value replicates exactly when it is
/// positive and its product with 27 still fits in 64 bits.
pub proof fn lemma_fractal_scales_closed_form(value: u64)
    ensures
        holding_scales(value) >= 3 <==> (value > 0 && value * 27 <= u64::MAX),
{
    if value > 0 {
        if value * 3 <= u64::MAX {
            lemma_multiples_of_three_are_aligned((value * 3) as nat);
        }
        if value * 9 <= u64::MAX {
            lemma_multiples_of_three_are_aligned((value * 9) as nat);
        }
        if value * 27 <= u64::MAX {
            lemma_multiples_of_three_are_aligned((value * 27) as nat);
        }
    } else {
        assert(spec_digital_root(0) == 0);
    }
}

} // verus!
