//! The processing engine: an event passes nine phases and comes out
//! manifested, or is cancelled at the first phase that refuses it.

use vstd::prelude::*;
use vstd::utf8::encode_utf8;
use crate::clock::unix_seconds;
use crate::config::VortexConfig;
use crate::constants::{
    digital_root, is_369_aligned, spec_digital_root, spec_is_369_aligned, CANCEL_PHASE,
};
use crate::digest::{sha256, sha256_digest};
use crate::hexcode::{hex_encode, hex_lower};
use crate::relayer::ChainRelayer;
use crate::text::{concat, padded_hash, text_eq};
use crate::types::{
    EngineStats, HealthResponse, Phase, ProcessingResult, ProcessingResultView, SyntheticEvent,
    SyntheticEventView,
};
use crate::witness::{
    generate_witness_record, holding_scales, spec_loop_closure, spec_witness_record,
    validate_fractal_scales, verify_loop_closure,
};

verus! {

/// Seconds by which an event may lie ahead of the clock.
pub const MAX_AHEAD: u64 = 300;

/// Seconds by which an event may lie behind the clock.
pub const MAX_BEHIND: u64 = 3600;

/// The value, in wei, below which an event cancels itself at `Breath`.
pub const MIN_VALUE: u128 = 1_000_000_000_000_000;

/// The low 64 bits of a value.
pub open spec fn low64(value: u128) -> u64 {
    (value % 0x1_0000_0000_0000_0000) as u64
}

/// Whether a time lies in the window around `now`: at most 300 seconds
/// ahead of it and at most 3600 behind.
pub open spec fn in_window(timestamp: u64, now: u64) -> bool {
    timestamp <= now + MAX_AHEAD && timestamp + MAX_BEHIND >= now
}

/// Whether an event is valid at `now`: it has a hash and its time lies in
/// the window.
pub open spec fn event_valid(event: SyntheticEventView, now: u64) -> bool {
    event.event_hash.len() > 0 && in_window(event.timestamp, now)
}

/// Whether an event survives the conflict with its inversion: the low 64
/// bits of its value are aligned with the triad, or it has a target other
/// than the zero address.
pub open spec fn survives_conflict(event: SyntheticEventView) -> bool {
    spec_is_369_aligned(low64(event.value) as nat) || (event.target.len() > 0 && event.target
        != "0x0000000000000000000000000000000000000000"@)
}

/// The spin of an event in tenths: 9, 8 and 7 where the digital root of
/// the low 64 bits of its value is 9, 6 and 3, else 4.
pub open spec fn spec_spin(event: SyntheticEventView) -> u8 {
    let root = spec_digital_root(low64(event.value) as nat);
    if root == 9 {
        9
    } else if root == 6 {
        8
    } else if root == 3 {
        7
    } else {
        4
    }
}

/// The witness record of an event, taken at phase 7 over the UTF-8 bytes
/// of its hash.
pub open spec fn event_witness(event: SyntheticEventView) -> Seq<char> {
    spec_witness_record(encode_utf8(event.event_hash), event.value, 7)
}

/// The phase at which an event is cancelled, or 0 where it manifests.
///
/// Phase 1 refuses an event that is not valid, phase 4 one that does not
/// survive the conflict, phase 5 one whose value does not replicate across
/// the fractal scales, phase 6 one whose value lies below the minimum, and
/// phase 8 one whose witness record does not close the loop.
pub open spec fn cancel_phase_of(event: SyntheticEventView, now: u64) -> u8 {
    if !event_valid(event, now) {
        1
    } else if !survives_conflict(event) {
        4
    } else if holding_scales(low64(event.value)) < 3 {
        5
    } else if event.value < MIN_VALUE {
        6
    } else if !spec_loop_closure(event_witness(event)) {
        8
    } else {
        0
    }
}

/// How the cycle ends for an event at `now`.
pub open spec fn spec_process(event: SyntheticEventView, now: u64) -> ProcessingResultView {
    let cancel_phase = cancel_phase_of(event, now);
    ProcessingResultView {
        event_hash: event.event_hash,
        manifested: cancel_phase == 0,
        cancel_phase,
        witness_record: if cancel_phase == 0 || cancel_phase == 8 {
            event_witness(event)
        } else {
            Seq::empty()
        },
        final_phase: if cancel_phase == 0 {
            Phase::Manifestation
        } else {
            Phase::Silence
        },
        processing_time_ms: 0,
    }
}

/// The counters after an event was processed: one more processed, and one
/// more manifested or, for a cancellation after phase 1, cancelled.
pub open spec fn spec_stats_after(stats: EngineStats, cancel_phase: u8) -> EngineStats {
    EngineStats {
        events_processed: (stats.events_processed + 1) as u64,
        events_manifested: if cancel_phase == 0 {
            (stats.events_manifested + 1) as u64
        } else {
            stats.events_manifested
        },
        events_cancelled: if cancel_phase > 1 {
            (stats.events_cancelled + 1) as u64
        } else {
            stats.events_cancelled
        },
        ..stats
    }
}

/// The inversion of an event: the same event under the hash
/// `hex(sha256("INVERT:" + hash)[..18])` and with the value mirrored in
/// 128 bits.
pub open spec fn spec_inversion(event: SyntheticEventView) -> SyntheticEventView {
    SyntheticEventView {
        event_hash: hex_lower(
            sha256_digest(encode_utf8("INVERT:"@ + event.event_hash)).take(18),
        ),
        value: (u128::MAX - event.value) as u128,
        ..event
    }
}

/// The low 64 bits of a value.
fn low_bits(value: u128) -> (low: u64)
    ensures
        low == low64(value),
{
    (value % 0x1_0000_0000_0000_0000) as u64
}

/// A copy of the bytes.
fn copy_bytes(bytes: &Vec<u8>) -> (copy: Vec<u8>)
    ensures
        copy@ == bytes@,
{
    let mut copy: Vec<u8> = Vec::new();
    let mut i: usize = 0;
    while i < bytes.len()
        invariant
            i <= bytes.len(),
            copy@ == bytes@.take(i as int),
        decreases bytes.len() - i,
    {
        copy.push(bytes[i]);
        assert(bytes@.take(i + 1) =~= bytes@.take(i as int).push(bytes@[i as int]));
        i = i + 1;
    }
    assert(bytes@.take(i as int) =~= bytes@);
    copy
}

/// Processes events and keeps count of how they end.
pub struct VortexEngine {
    pub config: VortexConfig,
    pub office: u8,
    pub relayer: ChainRelayer,
    pub stats: EngineStats,
}

impl VortexEngine {
    /// An engine for an office, with all counters at zero.
    pub fn new(config: VortexConfig, office: u8, relayer: ChainRelayer) -> (engine: VortexEngine)
        ensures
            engine.config@ == config@,
            engine.office == office,
            engine.relayer == relayer,
            engine.stats == EngineStats::zero(),
    {
        VortexEngine { config, office, relayer, stats: EngineStats::default() }
    }

    /// The events to work on after a health check of the source: those
    /// polled where the source is coherent, else none.
    pub fn poll_macedon_events(&self, health: &HealthResponse, polled: Vec<SyntheticEvent>) -> (events:
        Vec<SyntheticEvent>)
        ensures
            events@ == if health.coherent {
                polled@
            } else {
                Seq::<SyntheticEvent>::empty()
            },
    {
        if !health.coherent {
            return Vec::new();
        }
        polled
    }

    /// Whether an event is valid at `now`.
    pub fn validate_event(&self, event: &SyntheticEvent, now: u64) -> (valid: bool)
        ensures
            valid == event_valid(event@, now),
    {
        if event.event_hash.as_str().is_empty() {
            return false;
        }
        let timestamp = event.timestamp as u128;
        let clock = now as u128;
        if timestamp > clock + MAX_AHEAD as u128 || timestamp + (MAX_BEHIND as u128) < clock {
            return false;
        }
        true
    }

    /// The inversion of an event, its anti-proposal.
    pub fn create_inversion(&self, event: &SyntheticEvent) -> (inverted: SyntheticEvent)
        ensures
            inverted@ == spec_inversion(event@),
    {
        let tagged = concat("INVERT:", event.event_hash.as_str());
        let hash_bytes = sha256(tagged.as_str().as_bytes());
        self.inversion_with_digest(event, &hash_bytes)
    }

    /// The inversion of an event for the digest of its tagged hash: the
    /// new hash is the first 18 bytes of the digest in hexadecimal, the
    /// value is mirrored in 128 bits, everything else stays.
    pub fn inversion_with_digest(&self, event: &SyntheticEvent, digest: &[u8; 32]) -> (inverted:
        SyntheticEvent)
        ensures
            inverted@ == (SyntheticEventView {
                event_hash: hex_lower(digest@.take(18)),
                value: (u128::MAX - event.value) as u128,
                ..event@
            }),
    {
        let mut head: Vec<u8> = Vec::new();
        let mut i: usize = 0;
        while i < 18
            invariant
                i <= 18,
                head@ == digest@.take(i as int),
            decreases 18 - i,
        {
            head.push(digest[i]);
            assert(digest@.take(i + 1) =~= digest@.take(i as int).push(digest@[i as int]));
            i = i + 1;
        }
        SyntheticEvent {
            event_hash: hex_encode(head.as_slice()),
            event_type: event.event_type,
            target: event.target.clone(),
            value: u128::MAX - event.value,
            payload: copy_bytes(&event.payload),
            base9_witness: event.base9_witness.clone(),
            timestamp: event.timestamp,
            phase: event.phase,
        }
    }

    /// The spin of an event in tenths.
    pub fn calculate_spin(&self, event: &SyntheticEvent) -> (spin: u8)
        ensures
            spin == spec_spin(event@),
    {
        let value_root = digital_root(low_bits(event.value));
        if value_root == 9 {
            9
        } else if value_root == 6 {
            8
        } else if value_root == 3 {
            7
        } else {
            4
        }
    }

    /// Whether an event survives the conflict with its inversion.
    pub fn resolve_conflict(&self, event: &SyntheticEvent) -> (survives: bool)
        ensures
            survives == survives_conflict(event@),
    {
        let value_aligned = is_369_aligned(low_bits(event.value));
        let target_valid = !event.target.as_str().is_empty() && !text_eq(
            event.target.as_str(),
            "0x0000000000000000000000000000000000000000",
        );
        value_aligned || target_valid
    }

    /// Whether the value of an event replicates across the fractal scales.
    pub fn validate_fractal_scales(&self, event: &SyntheticEvent) -> (valid: bool)
        ensures
            valid == (holding_scales(low64(event.value)) >= 3),
    {
        validate_fractal_scales(low_bits(event.value))
    }

    /// Whether an event cancels itself at `Breath`: its value lies below
    /// the minimum.
    pub fn check_self_cancel(&self, event: &SyntheticEvent) -> (cancel: bool)
        ensures
            cancel == (event.value < MIN_VALUE),
    {
        event.value < MIN_VALUE
    }

    /// The witness record of an event at its phase.
    pub fn generate_witness_record(&self, event: &SyntheticEvent) -> (record: String)
        ensures
            record@ == spec_witness_record(encode_utf8(event.event_hash@), event.value, event.phase),
    {
        generate_witness_record(event.event_hash.as_str().as_bytes(), event.value, event.phase)
    }

    /// Whether the witness record of an event closes the loop.
    pub fn verify_loop_closure(&self, event: &SyntheticEvent) -> (closes: bool)
        ensures
            closes == spec_loop_closure(event.base9_witness@),
    {
        verify_loop_closure(event.base9_witness.as_str())
    }

    /// Takes an event through the nine phases at the time `now`.
    ///
    /// The result names the phase that cancelled the event, or is
    /// manifested. The processing time is left at 0 for the caller who
    /// measures it.
    pub fn process_event_at(&mut self, event: SyntheticEvent, now: u64) -> (processed: Result<
        ProcessingResult,
        String,
    >)
        requires
            old(self).stats.events_processed < u64::MAX,
            old(self).stats.events_manifested < u64::MAX,
            old(self).stats.events_cancelled < u64::MAX,
        ensures
            processed matches Ok(result) && result@ == spec_process(event@, now),
            final(self).stats == spec_stats_after(old(self).stats, cancel_phase_of(event@, now)),
            final(self).config == old(self).config,
            final(self).office == old(self).office,
            final(self).relayer == old(self).relayer,
    {
        let mut event = event;
        self.stats.events_processed = self.stats.events_processed + 1;
        let mut result = ProcessingResult {
            event_hash: event.event_hash.clone(),
            manifested: false,
            cancel_phase: 0,
            witness_record: String::new(),
            final_phase: Phase::Silence,
            processing_time_ms: 0,
        };

        // Proposal: the event has to be valid.
        event.phase = 1;
        if !self.validate_event(&event, now) {
            result.cancel_phase = 1;
            return Ok(result);
        }
        // Mirror and Vortex cancel nothing; Resolution is the conflict
        // between the event and its inversion.
        event.phase = 4;
        if !self.resolve_conflict(&event) {
            result.cancel_phase = 4;
            self.stats.events_cancelled = self.stats.events_cancelled + 1;
            return Ok(result);
        }
        // Fractal: the value has to replicate across the scales.
        event.phase = 5;
        if !self.validate_fractal_scales(&event) {
            result.cancel_phase = 5;
            self.stats.events_cancelled = self.stats.events_cancelled + 1;
            return Ok(result);
        }
        // Breath: the self-cancel checkpoint.
        event.phase = 6;
        if self.check_self_cancel(&event) {
            result.cancel_phase = CANCEL_PHASE;
            self.stats.events_cancelled = self.stats.events_cancelled + 1;
            return Ok(result);
        }
        // Witness: the record in base 9.
        event.phase = 7;
        result.witness_record = self.generate_witness_record(&event);
        event.base9_witness = result.witness_record.clone();
        // Return: the loop has to close.
        event.phase = 8;
        if !self.verify_loop_closure(&event) {
            result.cancel_phase = 8;
            self.stats.events_cancelled = self.stats.events_cancelled + 1;
            return Ok(result);
        }
        // Manifestation.
        result.manifested = true;
        result.final_phase = Phase::Manifestation;
        self.stats.events_manifested = self.stats.events_manifested + 1;
        Ok(result)
    }

    /// Takes an event through the nine phases at the current time.
    pub fn process_event(&mut self, event: SyntheticEvent) -> (processed: Result<
        ProcessingResult,
        String,
    >)
        requires
            old(self).stats.events_processed < u64::MAX,
            old(self).stats.events_manifested < u64::MAX,
            old(self).stats.events_cancelled < u64::MAX,
        ensures
            exists|now: u64|
                {
                    &&& processed matches Ok(result) && result@ == #[trigger] spec_process(
                        event@,
                        now,
                    )
                    &&& final(self).stats == spec_stats_after(
                        old(self).stats,
                        cancel_phase_of(event@, now),
                    )
                },
            final(self).config == old(self).config,
            final(self).office == old(self).office,
            final(self).relayer == old(self).relayer,
    {
        let now = unix_seconds();
        self.process_event_at(event, now)
    }

    /// Hands a manifested result to the relayer; any other result is
    /// refused.
    pub fn push_to_chain(&mut self, result: &ProcessingResult) -> (sent: Result<String, String>)
        ensures
            *final(self) == *old(self),
            match sent {
                Ok(hash) => result.manifested && hash@ == if old(self).relayer.has_signer() {
                    "0x"@ + hex_lower(crate::hexcode::hex_bytes("1234abcd"@))
                } else {
                    padded_hash(result.event_hash@)
                },
                Err(reason) => !result.manifested && reason@ == "Event not manifested"@,
            },
    {
        if !result.manifested {
            return Err("Event not manifested".to_owned());
        }
        self.relayer.submit_action(result)
    }
}

} // verus!
