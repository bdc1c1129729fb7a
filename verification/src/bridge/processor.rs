//! One cycle of the bridge: generate an event, embed its description, hash
//! it, and run it through governance.

use vstd::prelude::*;
use vstd::utf8::encode_utf8;
use crate::clock::unix_seconds;
use crate::digest::{keccak256, keccak256_digest};
use crate::embedding::embedder::{spec_embed, VectorEmbedder};
use crate::governance::action::ActionType;
use crate::governance::engine::{cycle_history, cycle_outcome, submitted, GovernanceEngine};
use crate::governance::phase_engine::GovernanceError;
use crate::assoc::{upsert, without};
use crate::governance::state::Phase;
use crate::synthetic::generator::{spec_event_from, SyntheticGenerator, MAX_TIME};
use crate::synthetic::types::{EventType, SyntheticEventView};
use crate::BASE_FREQUENCY;

verus! {

/// The action type of an event category.
pub open spec fn spec_action_type(event_type: EventType) -> ActionType {
    match event_type {
        EventType::Liquidation => ActionType::Liquidation,
        EventType::YieldHarvest => ActionType::YieldHarvest,
        EventType::Rebalance => ActionType::Rebalance,
        EventType::Custom => ActionType::Custom,
    }
}

/// The action type of an event category.
pub fn action_type_of(event_type: EventType) -> (action_type: ActionType)
    ensures
        action_type == spec_action_type(event_type),
{
    match event_type {
        EventType::Liquidation => ActionType::Liquidation,
        EventType::YieldHarvest => ActionType::YieldHarvest,
        EventType::Rebalance => ActionType::Rebalance,
        EventType::Custom => ActionType::Custom,
    }
}

/// The hash under which a description is submitted: the Keccak-256 digest
/// of its UTF-8 bytes.
pub open spec fn description_hash(description: Seq<char>) -> Seq<u8> {
    keccak256_digest(encode_utf8(description))
}

/// Connects generator, embedder and governance.
pub struct VortexBridge {
    pub generator: SyntheticGenerator,
    pub embedder: VectorEmbedder,
    pub governance: GovernanceEngine,
}

impl VortexBridge {
    /// A bridge whose generator is seeded with `seed` at 432 Hz, with an
    /// empty governance engine.
    pub fn new(seed: [u8; 32]) -> (bridge: Result<VortexBridge, String>)
        ensures
            bridge matches Ok(made) && made.generator.seed() == seed@ && made.generator.draws() == 0
                && made.generator.frequency() == BASE_FREQUENCY
                && made.generator.spec_event_count() == 0 && made.governance.entries().len() == 0
                && made.governance.history().len() == 0,
    {
        match VectorEmbedder::new(None) {
            Ok(embedder) => Ok(
                VortexBridge {
                    generator: SyntheticGenerator::new(seed, BASE_FREQUENCY),
                    embedder,
                    governance: GovernanceEngine::new(),
                },
            ),
            Err(reason) => Err(reason),
        }
    }

    /// The hash of a description.
    pub fn calculate_hash(&self, description: &str) -> (hash: [u8; 32])
        ensures
            hash@ == description_hash(description@),
    {
        keccak256(description.as_bytes())
    }

    /// Whether the state after a cycle at the time `now` is the one that
    /// the event decides.
    ///
    /// The generator has made one more event. That event, under the hash of
    /// its description and with the embedding of its description as its
    /// vector, went through the governance cycle as an action created at
    /// `now`: the outcome, the table of actions and the witness history
    /// are those of `GovernanceEngine::process_event_at`.
    pub open spec fn cycled(
        before: VortexBridge,
        after: VortexBridge,
        event: SyntheticEventView,
        now: u64,
        outcome: Result<(), GovernanceError>,
    ) -> bool {
        let hash = description_hash(event.description);
        &&& after.generator.seed() == before.generator.seed()
        &&& after.generator.frequency() == before.generator.frequency()
        &&& after.generator.draws() == before.generator.draws() + 3
        &&& after.generator.spec_event_count() == before.generator.spec_event_count() + 1
        &&& outcome == cycle_outcome(event.resonance)
        &&& after.governance.history() == cycle_history(
            before.governance.history(),
            hash,
            event.resonance,
        )
        &&& outcome is Err ==> after.governance.entries() == without(
            before.governance.entries(),
            hash,
        )
        &&& outcome is Ok ==> after.governance.entries() == upsert(
            before.governance.entries(),
            hash,
            submitted(
                hash,
                spec_action_type(event.event_type),
                event.resonance,
                event.description,
                spec_embed(event.description),
                now,
            ).at_phase(Phase::Manifestation),
        )
    }

    /// Runs one cycle with the event asked at the time `now`.
    pub fn run_cycle_at(&mut self, now: u64) -> (outcome: Result<(), GovernanceError>)
        requires
            old(self).generator.spec_event_count() < u64::MAX,
            now <= MAX_TIME,
        ensures
            Self::cycled(
                *old(self),
                *final(self),
                spec_event_from(
                    old(self).generator.seed(),
                    old(self).generator.frequency(),
                    old(self).generator.draws(),
                    (old(self).generator.spec_event_count() + 1) as nat,
                    now,
                ),
                now,
                outcome,
            ),
    {
        let event = self.generator.generate_event_at(now);
        let vector = self.embedder.embedding_of(event.description.as_str());
        let hash = self.calculate_hash(event.description.as_str());
        let action_type = action_type_of(event.event_type);
        match self.governance.process_event_at(
            hash,
            action_type,
            event.resonance,
            event.description,
            vector,
            now,
        ) {
            Ok(_) => Ok(()),
            Err(error) => Err(error),
        }
    }

    /// Runs one cycle with the event asked at the current time. A clock
    /// reading beyond `MAX_TIME` counts as `MAX_TIME`.
    pub fn run_single_cycle(&mut self) -> (outcome: Result<(), GovernanceError>)
        requires
            old(self).generator.spec_event_count() < u64::MAX,
        ensures
            exists|now: u64|
                now <= MAX_TIME && Self::cycled(
                    *old(self),
                    *final(self),
                    #[trigger] spec_event_from(
                        old(self).generator.seed(),
                        old(self).generator.frequency(),
                        old(self).generator.draws(),
                        (old(self).generator.spec_event_count() + 1) as nat,
                        now,
                    ),
                    now,
                    outcome,
                ),
    {
        let reading = unix_seconds();
        let now = if reading <= MAX_TIME {
            reading
        } else {
            MAX_TIME
        };
        self.run_cycle_at(now)
    }
}

} // verus!
