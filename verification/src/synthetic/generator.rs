//! The seeded event generator. Everything it produces is a function of the
//! seed, the base frequency, the index of the event and the time it is
//! asked at.

use vstd::prelude::*;
use rand_chacha::rand_core::{RngCore, SeedableRng};
use rand_chacha::ChaCha20Rng;
use crate::clock::unix_seconds;
use crate::synthetic::types::{EventType, SyntheticEvent, SyntheticEventView};
use crate::text::{decimal, push_decimal};
use crate::BASE_FREQUENCY;

verus! {

/// `ChaCha20Rng` of rand_chacha, carried as it is: what it holds is known
/// only through the seed and the number of words drawn.
#[verifier::external_type_specification]
#[verifier::external_body]
pub struct ExChaCha20Rng(rand_chacha::ChaCha20Rng);

/// The seed that a generator was made from.
pub uninterp spec fn rng_seed(rng: ChaCha20Rng) -> Seq<u8>;

/// How many 32-bit words were drawn from a generator since it was seeded.
pub uninterp spec fn rng_words_drawn(rng: ChaCha20Rng) -> nat;

/// The word that a ChaCha20 generator seeded with `seed` yields as its
/// draw number `index`, counted from 0.
pub uninterp spec fn chacha20_word(seed: Seq<u8>, index: nat) -> u32;

/// `ChaCha20Rng::from_seed` of rand_chacha: a generator at the start of the
/// stream that the seed determines.
#[verifier::external_body]
fn rng_from_seed(seed: [u8; 32]) -> (rng: ChaCha20Rng)
    ensures
        rng_seed(rng) == seed@,
        rng_words_drawn(rng) == 0,
{
    ChaCha20Rng::from_seed(seed)
}

/// `RngCore::next_u32` on a `ChaCha20Rng`: the next word of the stream,
/// which depends on the seed and on the number of words drawn before; the
/// generator moves on by one word and keeps its seed.
#[verifier::external_body]
fn rng_next_u32(rng: &mut ChaCha20Rng) -> (word: u32)
    ensures
        word == chacha20_word(rng_seed(*old(rng)), rng_words_drawn(*old(rng))),
        rng_seed(*final(rng)) == rng_seed(*old(rng)),
        rng_words_drawn(*final(rng)) == rng_words_drawn(*old(rng)) + 1,
{
    rng.next_u32()
}

/// The highest base frequency that a generator takes: a resonance, which
/// is at most 1.188 times the base frequency, then still fits in 64 bits.
pub const MAX_FREQUENCY: u64 = 0x7fff_ffff_ffff_ffff;

/// The latest time that a generator takes, so that the time grid still
/// fits in 64 bits.
pub const MAX_TIME: u64 = 0xffff_ffff_ffff_fff7;

/// The category of a draw, by its remainder modulo 100: up to 33
/// `Liquidation`, up to 66 `YieldHarvest`, up to 90 `Rebalance`, else
/// `Custom`.
pub open spec fn spec_event_type(word: u32) -> EventType {
    let band = word % 100;
    if band <= 33 {
        EventType::Liquidation
    } else if band <= 66 {
        EventType::YieldHarvest
    } else if band <= 90 {
        EventType::Rebalance
    } else {
        EventType::Custom
    }
}

/// The resonance of event number `index` for a draw: `frequency x (1 + v) x
/// (1 + (index mod 9) / 100)`, where `v = 0.2 x word / (2^32 - 1) - 0.1`
/// runs over `[-0.1, 0.1]`; rounded down to the millionth of a hertz.
pub open spec fn spec_resonance(frequency: u64, word: u32, index: nat) -> nat {
    (frequency * (9 * 0xffff_ffff + 2 * word) * (100 + index % 9)) as nat / (1000 * 0xffff_ffff)
}

/// The time of event number `index` asked at `now`: `now` on the 9-second
/// grid, plus `index mod 9`.
pub open spec fn spec_timestamp(now: u64, index: nat) -> nat {
    ((now / 9) * 9 + index % 9) as nat
}

/// The description of an event of a category for a draw.
pub open spec fn spec_description(event_type: EventType, word: u32) -> Seq<char> {
    match event_type {
        EventType::Liquidation => "Liquidate position #"@ + decimal((word % 1000) as nat),
        EventType::YieldHarvest => "Harvest yield from pool #"@ + decimal((word % 100) as nat),
        EventType::Rebalance => "Rebalance strategy #"@ + decimal((word % 50) as nat),
        EventType::Custom => "Custom action #"@ + decimal(word as nat),
    }
}

/// The event that a generator with the given seed and base frequency makes
/// as its event number `index` out of the draws from `first` on, asked at
/// `now`: the draw `first` decides the category, the next the resonance
/// and the third the description.
pub open spec fn spec_event_from(
    seed: Seq<u8>,
    frequency: u64,
    first: nat,
    index: nat,
    now: u64,
) -> SyntheticEventView {
    let event_type = spec_event_type(chacha20_word(seed, first));
    SyntheticEventView::fresh(
        spec_timestamp(now, index) as u64,
        event_type,
        spec_resonance(frequency, chacha20_word(seed, first + 1), index) as u64,
        spec_description(event_type, chacha20_word(seed, first + 2)),
    )
}

/// Event number `index` (counted from 1) of a generator with the given seed
/// and base frequency, asked at `now`. Each event takes three draws, so
/// event `index` begins at the draw `3 (index - 1)`.
pub open spec fn spec_event(seed: Seq<u8>, frequency: u64, index: nat, now: u64) -> SyntheticEventView {
    spec_event_from(seed, frequency, (3 * (index - 1)) as nat, index, now)
}

/// The category of a draw.
pub fn generate_event_type(word: u32) -> (event_type: EventType)
    ensures
        event_type == spec_event_type(word),
{
    let val: u32 = word % 100;
    if val <= 33 {
        EventType::Liquidation
    } else if val <= 66 {
        EventType::YieldHarvest
    } else if val <= 90 {
        EventType::Rebalance
    } else {
        EventType::Custom
    }
}

/// The resonance of event number `index` for a draw, at a base frequency
/// of at most `MAX_FREQUENCY`.
pub fn calculate_resonance(frequency: u64, word: u32, index: u64) -> (resonance: u64)
    requires
        frequency <= MAX_FREQUENCY,
    ensures
        resonance == spec_resonance(frequency, word, index as nat),
{
    let wide: u128 = word as u128;
    let base: u128 = frequency as u128;
    let spread: u128 = 9 * 0xffff_ffff + 2 * wide;
    let pattern: u128 = 100 + (index % 9) as u128;
    assert(base * spread <= 9223372036854775807 * 47244640245) by (nonlinear_arith)
        requires
            base <= 9223372036854775807,
            spread <= 47244640245,
    ;
    let scaled: u128 = base * spread;
    assert(scaled * pattern <= 435756396537174203928865820325 * 108) by (nonlinear_arith)
        requires
            scaled <= 435756396537174203928865820325,
            pattern <= 108,
    ;
    let product: u128 = scaled * pattern;
    let resonance: u128 = product / 4294967295000;
    assert(product == frequency * (9 * 0xffff_ffff + 2 * word) * (100 + (index as nat) % 9))
        by (nonlinear_arith)
        requires
            product == scaled * pattern,
            scaled == base * spread,
            base == frequency,
            spread == 9 * 0xffff_ffff + 2 * word,
            pattern == 100 + (index as nat) % 9,
    ;
    resonance as u64
}

/// The time of event number `index` asked at `now`, for a time of at most
/// `MAX_TIME`.
pub fn generate_timestamp(now: u64, index: u64) -> (timestamp: u64)
    requires
        now <= MAX_TIME,
    ensures
        timestamp == spec_timestamp(now, index as nat),
{
    (now / 9) * 9 + index % 9
}

/// The description of an event of a category for a draw.
pub fn generate_description(event_type: EventType, word: u32) -> (description: String)
    ensures
        description@ == spec_description(event_type, word),
{
    let mut description: String;
    match event_type {
        EventType::Liquidation => {
            description = "Liquidate position #".to_owned();
            push_decimal(&mut description, (word % 1000) as u64);
        },
        EventType::YieldHarvest => {
            description = "Harvest yield from pool #".to_owned();
            push_decimal(&mut description, (word % 100) as u64);
        },
        EventType::Rebalance => {
            description = "Rebalance strategy #".to_owned();
            push_decimal(&mut description, (word % 50) as u64);
        },
        EventType::Custom => {
            description = "Custom action #".to_owned();
            push_decimal(&mut description, word as u64);
        },
    }
    description
}

/// Whether `event` is the event that such a generator makes as its event
/// number `index` out of the draws from `first` on, asked at some time up
/// to `MAX_TIME`.
pub open spec fn is_event_at_some_time(
    event: SyntheticEventView,
    seed: Seq<u8>,
    frequency: u64,
    first: nat,
    index: nat,
) -> bool {
    exists|now: u64|
        now <= MAX_TIME && event == #[trigger] spec_event_from(seed, frequency, first, index, now)
}

/// A base frequency that a generator can take: at most `MAX_FREQUENCY`.
struct BaseFrequency {
    micro: u64,
}

impl BaseFrequency {
    #[verifier::type_invariant]
    spec fn in_range(self) -> bool {
        self.micro <= MAX_FREQUENCY
    }

    /// The frequency in millionths of a hertz.
    closed spec fn micro(self) -> u64 {
        self.micro
    }

    /// The base frequency of the given millionths of a hertz.
    fn new(micro: u64) -> (frequency: BaseFrequency)
        requires
            micro <= MAX_FREQUENCY,
        ensures
            frequency.micro() == micro,
    {
        BaseFrequency { micro }
    }

    /// The frequency in millionths of a hertz.
    fn get(&self) -> (micro: u64)
        ensures
            micro == self.micro(),
            micro <= MAX_FREQUENCY,
    {
        proof {
            use_type_invariant(self);
        }
        self.micro
    }
}

/// Produces synthetic events from a ChaCha20 stream.
pub struct SyntheticGenerator {
    rng: ChaCha20Rng,
    frequency: BaseFrequency,
    event_count: u64,
}

impl SyntheticGenerator {
    /// The seed.
    pub closed spec fn seed(&self) -> Seq<u8> {
        rng_seed(self.rng)
    }

    /// How many words were drawn from the stream so far.
    pub closed spec fn draws(&self) -> nat {
        rng_words_drawn(self.rng)
    }

    /// The base frequency, in millionths of a hertz.
    pub closed spec fn frequency(&self) -> u64 {
        self.frequency.micro()
    }

    /// How many events were generated so far.
    pub closed spec fn spec_event_count(&self) -> u64 {
        self.event_count
    }

    /// A generator for the given seed and a base frequency of at most
    /// `MAX_FREQUENCY`, at the start of its stream.
    pub fn new(seed: [u8; 32], frequency: u64) -> (generator: SyntheticGenerator)
        requires
            frequency <= MAX_FREQUENCY,
        ensures
            generator.seed() == seed@,
            generator.draws() == 0,
            generator.frequency() == frequency,
            generator.spec_event_count() == 0,
    {
        SyntheticGenerator {
            rng: rng_from_seed(seed),
            frequency: BaseFrequency::new(frequency),
            event_count: 0,
        }
    }

    /// A generator for 432 Hz, seeded with a block hash.
    pub fn from_block_hash(block_hash: [u8; 32]) -> (generator: SyntheticGenerator)
        ensures
            generator.seed() == block_hash@,
            generator.draws() == 0,
            generator.frequency() == BASE_FREQUENCY,
            generator.spec_event_count() == 0,
    {
        SyntheticGenerator::new(block_hash, BASE_FREQUENCY)
    }

    /// Draws a word from the stream.
    fn draw(&mut self) -> (word: u32)
        ensures
            word == chacha20_word(old(self).seed(), old(self).draws()),
            final(self).seed() == old(self).seed(),
            final(self).draws() == old(self).draws() + 1,
            final(self).frequency == old(self).frequency,
            final(self).event_count == old(self).event_count,
    {
        rng_next_u32(&mut self.rng)
    }

    /// Generates the next event as asked at the time `now`, in seconds.
    ///
    /// The event takes three draws. On a generator that took three draws
    /// for each event so far, as every generator does that was made by
    /// `new`, it is `spec_event` of its index.
    pub fn generate_event_at(&mut self, now: u64) -> (event: SyntheticEvent)
        requires
            old(self).spec_event_count() < u64::MAX,
            now <= MAX_TIME,
        ensures
            final(self).seed() == old(self).seed(),
            final(self).frequency() == old(self).frequency(),
            final(self).draws() == old(self).draws() + 3,
            final(self).spec_event_count() == old(self).spec_event_count() + 1,
            event@ == spec_event_from(
                old(self).seed(),
                old(self).frequency(),
                old(self).draws(),
                (old(self).spec_event_count() + 1) as nat,
                now,
            ),
            old(self).draws() == 3 * old(self).spec_event_count() ==> event@ == spec_event(
                old(self).seed(),
                old(self).frequency(),
                (old(self).spec_event_count() + 1) as nat,
                now,
            ),
    {
        self.event_count = self.event_count + 1;
        let frequency = self.frequency.get();
        let event_type = generate_event_type(self.draw());
        let resonance = calculate_resonance(frequency, self.draw(), self.event_count);
        let timestamp = generate_timestamp(now, self.event_count);
        let description = generate_description(event_type, self.draw());
        SyntheticEvent::new(timestamp, event_type, resonance, description)
    }

    /// Generates the next event at the current time. A clock reading beyond
    /// `MAX_TIME` counts as `MAX_TIME`.
    pub fn generate_event(&mut self) -> (event: SyntheticEvent)
        requires
            old(self).spec_event_count() < u64::MAX,
        ensures
            final(self).seed() == old(self).seed(),
            final(self).frequency() == old(self).frequency(),
            final(self).draws() == old(self).draws() + 3,
            final(self).spec_event_count() == old(self).spec_event_count() + 1,
            is_event_at_some_time(
                event@,
                old(self).seed(),
                old(self).frequency(),
                old(self).draws(),
                (old(self).spec_event_count() + 1) as nat,
            ),
    {
        let reading = unix_seconds();
        let now = if reading <= MAX_TIME {
            reading
        } else {
            MAX_TIME
        };
        self.generate_event_at(now)
    }

    /// Generates `count` events one after the other, all asked at the time
    /// `now`.
    pub fn generate_batch_at(&mut self, count: usize, now: u64) -> (batch: Vec<SyntheticEvent>)
        requires
            old(self).spec_event_count() + count <= u64::MAX,
            now <= MAX_TIME,
        ensures
            final(self).seed() == old(self).seed(),
            final(self).frequency() == old(self).frequency(),
            final(self).draws() == old(self).draws() + 3 * count,
            final(self).spec_event_count() == old(self).spec_event_count() + count,
            batch@.len() == count,
            forall|i: int|
                0 <= i < count ==> (#[trigger] batch@[i])@ == spec_event_from(
                    old(self).seed(),
                    old(self).frequency(),
                    (old(self).draws() + 3 * i) as nat,
                    (old(self).spec_event_count() + 1 + i) as nat,
                    now,
                ),
    {
        let mut batch: Vec<SyntheticEvent> = Vec::new();
        let mut made: usize = 0;
        while made < count
            invariant
                made <= count,
                now <= MAX_TIME,
                old(self).spec_event_count() + count <= u64::MAX,
                self.seed() == old(self).seed(),
                self.frequency() == old(self).frequency(),
                self.draws() == old(self).draws() + 3 * made,
                self.spec_event_count() == old(self).spec_event_count() + made,
                batch@.len() == made,
                forall|i: int|
                    0 <= i < made ==> (#[trigger] batch@[i])@ == spec_event_from(
                        old(self).seed(),
                        old(self).frequency(),
                        (old(self).draws() + 3 * i) as nat,
                        (old(self).spec_event_count() + 1 + i) as nat,
                        now,
                    ),
            decreases count - made,
        {
            let event = self.generate_event_at(now);
            batch.push(event);
            made = made + 1;
        }
        batch
    }

    /// Generates `count` events one after the other, each at the time the
    /// clock shows when its turn comes.
    pub fn generate_batch(&mut self, count: usize) -> (batch: Vec<SyntheticEvent>)
        requires
            old(self).spec_event_count() + count <= u64::MAX,
        ensures
            final(self).seed() == old(self).seed(),
            final(self).frequency() == old(self).frequency(),
            final(self).draws() == old(self).draws() + 3 * count,
            final(self).spec_event_count() == old(self).spec_event_count() + count,
            batch@.len() == count,
            forall|i: int|
                0 <= i < count ==> is_event_at_some_time(
                    (#[trigger] batch@[i])@,
                    old(self).seed(),
                    old(self).frequency(),
                    (old(self).draws() + 3 * i) as nat,
                    (old(self).spec_event_count() + 1 + i) as nat,
                ),
    {
        let mut batch: Vec<SyntheticEvent> = Vec::new();
        let mut made: usize = 0;
        while made < count
            invariant
                made <= count,
                old(self).spec_event_count() + count <= u64::MAX,
                self.seed() == old(self).seed(),
                self.frequency() == old(self).frequency(),
                self.draws() == old(self).draws() + 3 * made,
                self.spec_event_count() == old(self).spec_event_count() + made,
                batch@.len() == made,
                forall|i: int|
                    0 <= i < made ==> is_event_at_some_time(
                        (#[trigger] batch@[i])@,
                        old(self).seed(),
                        old(self).frequency(),
                        (old(self).draws() + 3 * i) as nat,
                        (old(self).spec_event_count() + 1 + i) as nat,
                    ),
            decreases count - made,
        {
            let event = self.generate_event();
            batch.push(event);
            made = made + 1;
        }
        batch
    }

    /// How many events were generated so far.
    pub fn event_count(&self) -> (count: u64)
        ensures
            count == self.spec_event_count(),
    {
        self.event_count
    }
}

/// Determinism: an event is fixed by the seed, the base frequency, the
/// draws and events made before it and the time it is asked at. Two
/// generators that agree on these produce the same category, resonance,
/// description and time.
pub proof fn lemma_generation_is_deterministic(
    first: SyntheticGenerator,
    second: SyntheticGenerator,
    now: u64,
)
    requires
        first.seed() == second.seed(),
        first.frequency() == second.frequency(),
        first.draws() == second.draws(),
        first.spec_event_count() == second.spec_event_count(),
    ensures
        spec_event_from(
            first.seed(),
            first.frequency(),
            first.draws(),
            (first.spec_event_count() + 1) as nat,
            now,
        ) == spec_event_from(
            second.seed(),
            second.frequency(),
            second.draws(),
            (second.spec_event_count() + 1) as nat,
            now,
        ),
{
}

/// The events of a generator from its start: a generator that took three
/// draws for each event so far makes event number `index` out of the
/// draws from `3 (index - 1)` on, which is `spec_event` of the index. So
/// two generators made from the same seed and base frequency make the same
/// sequence of events.
pub proof fn lemma_events_from_the_start(seed: Seq<u8>, frequency: u64, index: nat, now: u64)
    requires
        index >= 1,
    ensures
        spec_event_from(seed, frequency, (3 * (index - 1)) as nat, index, now) == spec_event(
            seed,
            frequency,
            index,
            now,
        ),
{
}

/// The resonance of an event lies between 0.9 and 1.188 times the base
/// frequency.
pub proof fn lemma_resonance_range(frequency: u64, word: u32, index: nat)
    ensures
        spec_resonance(frequency, word, index) * 10 >= frequency * 9 - 9,
        spec_resonance(frequency, word, index) * 1000 <= frequency * 1188,
{
    let m: int = 0xffff_ffff;
    let k: int = (100 + index % 9) as int;
    let spread: int = 9 * m + 2 * word;
    let product: int = frequency * spread * k;
    let r: int = product / (1000 * m);
    vstd::arithmetic::div_mod::lemma_fundamental_div_mod(product, 1000 * m);
    assert(product == (1000 * m) * r + product % (1000 * m));
    assert(0 <= product % (1000 * m) < 1000 * m);
    assert(product >= frequency * (9 * m) * 100) by (nonlinear_arith)
        requires
            product == frequency * spread * k,
            spread >= 9 * m,
            k >= 100,
            frequency >= 0,
            m > 0,
    ;
    assert(product <= frequency * (11 * m) * 108) by (nonlinear_arith)
        requires
            product == frequency * spread * k,
            spread <= 11 * m,
            k <= 108,
            frequency >= 0,
            spread >= 0,
            m > 0,
    ;
    assert(frequency * (9 * m) * 100 == (frequency * 9) * (100 * m)) by (nonlinear_arith);
    assert(frequency * (11 * m) * 108 == (frequency * 1188) * m) by (nonlinear_arith);
    assert(r * 10 >= frequency * 9 - 9) by (nonlinear_arith)
        requires
            (1000 * m) * r + product % (1000 * m) >= (frequency * 9) * (100 * m),
            product % (1000 * m) < 1000 * m,
            m > 0,
    ;
    assert(r * 1000 <= frequency * 1188) by (nonlinear_arith)
        requires
            (1000 * m) * r <= (frequency * 1188) * m,
            m > 0,
    ;
}

} // verus!
