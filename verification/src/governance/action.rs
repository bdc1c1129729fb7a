//! A governance action and the two checkpoint tests it carries.

use vstd::prelude::*;
use crate::clock::unix_seconds;
use crate::embedding::vector::{magnitude_of, spec_magnitude};
use crate::frequency::{
    below_cancel_threshold, does_meet_manifest_threshold, is_below_cancel_threshold,
    meets_manifest_threshold,
};
use crate::governance::phase_engine::GovernanceError;
use crate::governance::state::Phase;
use crate::BASE_FREQUENCY;

verus! {

/// Category of a governance action.
#[derive(Debug, Clone, Copy, PartialEq, Eq, Structural)]
pub enum ActionType {
    Liquidation,
    YieldHarvest,
    Rebalance,
    Custom,
}

/// One governance action on its way through the cycle.
///
/// `resonance` is in millionths of a hertz, the components of `vector` in
/// millionths of a unit.
#[derive(Debug, Clone)]
pub struct Action {
    pub hash: [u8; 32],
    pub phase: Phase,
    pub action_type: ActionType,
    pub resonance: u64,
    pub vector: [i32; 9],
    pub timestamp: u64,
    pub description: String,
    pub target: [u8; 20],
    pub value: u128,
}

/// What an action holds, as plain values.
pub struct ActionView {
    pub hash: Seq<u8>,
    pub phase: Phase,
    pub action_type: ActionType,
    pub resonance: u64,
    pub vector: Seq<i32>,
    pub timestamp: u64,
    pub description: Seq<char>,
    pub target: Seq<u8>,
    pub value: u128,
}

impl ActionView {
    /// The action as it is submitted: at `Silence`, with an all-zero vector,
    /// target and value.
    pub open spec fn fresh(
        hash: Seq<u8>,
        action_type: ActionType,
        resonance: u64,
        description: Seq<char>,
        timestamp: u64,
    ) -> ActionView {
        ActionView {
            hash,
            phase: Phase::Silence,
            action_type,
            resonance,
            vector: Seq::new(9, |i: int| 0i32),
            timestamp,
            description,
            target: Seq::new(20, |i: int| 0u8),
            value: 0,
        }
    }

    /// The same action at another phase.
    pub open spec fn at_phase(self, phase: Phase) -> ActionView {
        ActionView { phase, ..self }
    }

    /// The same action with another vector.
    pub open spec fn with_vector(self, vector: Seq<i32>) -> ActionView {
        ActionView { vector, ..self }
    }

    /// The score of the action in millionths: the mean of `resonance /
    /// base` and of a third of the length of the vector, at most 1; each
    /// rounded down.
    pub open spec fn score(self) -> nat {
        let resonance_score = (self.resonance * 1_000_000) as nat / (BASE_FREQUENCY as nat);
        let third = spec_magnitude(self.vector) / 3;
        let vector_score = if third > 1_000_000 {
            1_000_000
        } else {
            third
        };
        (resonance_score + vector_score) / 2
    }

    /// The action is at `Breath` and its resonance is below 0.369 times the
    /// base frequency.
    pub open spec fn should_self_cancel(self) -> bool {
        self.phase == Phase::Breath && below_cancel_threshold(self.resonance, BASE_FREQUENCY)
    }

    /// The action is at `Manifestation` and its resonance reaches 0.9 times
    /// the base frequency.
    pub open spec fn can_manifest(self) -> bool {
        self.phase == Phase::Manifestation && meets_manifest_threshold(
            self.resonance,
            BASE_FREQUENCY,
        )
    }
}

impl View for Action {
    type V = ActionView;

    open spec fn view(&self) -> ActionView {
        ActionView {
            hash: self.hash@,
            phase: self.phase,
            action_type: self.action_type,
            resonance: self.resonance,
            vector: self.vector@,
            timestamp: self.timestamp,
            description: self.description@,
            target: self.target@,
            value: self.value,
        }
    }
}

impl Action {
    /// A new action at `Silence`, created at the given time.
    pub fn new_at(
        hash: [u8; 32],
        action_type: ActionType,
        resonance: u64,
        description: String,
        timestamp: u64,
    ) -> (action: Action)
        ensures
            action@ == ActionView::fresh(hash@, action_type, resonance, description@, timestamp),
    {
        let action = Action {
            hash,
            phase: Phase::Silence,
            action_type,
            resonance,
            vector: [0i32; 9],
            timestamp,
            description,
            target: [0u8; 20],
            value: 0,
        };
        assert(action.vector@ =~= Seq::new(9, |i: int| 0i32));
        assert(action.target@ =~= Seq::new(20, |i: int| 0u8));
        action
    }

    /// A new action at `Silence`, stamped with the current time.
    pub fn new(hash: [u8; 32], action_type: ActionType, resonance: u64, description: String) -> (action:
        Action)
        ensures
            action@ == ActionView::fresh(
                hash@,
                action_type,
                resonance,
                description@,
                action.timestamp,
            ),
    {
        let now = unix_seconds();
        Action::new_at(hash, action_type, resonance, description, now)
    }

    /// Whether the action cancels itself: it is at `Breath` with a resonance
    /// below 0.369 times the base frequency.
    pub fn should_self_cancel(&self) -> (cancel: bool)
        ensures
            cancel == self@.should_self_cancel(),
    {
        self.phase == Phase::Breath && is_below_cancel_threshold(self.resonance, BASE_FREQUENCY)
    }

    /// Whether the action passes the terminal checkpoint: it is at
    /// `Manifestation`
    /// with a resonance of at least 0.9 times the base frequency.
    pub fn can_manifest(&self) -> (manifest: bool)
        ensures
            manifest == self@.can_manifest(),
    {
        self.phase == Phase::Manifestation && does_meet_manifest_threshold(
            self.resonance,
            BASE_FREQUENCY,
        )
    }

    /// The score of the action in millionths: the mean of its resonance
    /// over the base frequency and of the score of its vector, each
    /// rounded down.
    pub fn calculate_score(&self) -> (score: u64)
        ensures
            score == self@.score(),
    {
        let resonance_score: u128 = (self.resonance as u128) * 1_000_000 / (BASE_FREQUENCY as u128);
        let third: u64 = magnitude_of(&self.vector) / 3;
        let vector_score: u64 = if third > 1_000_000 {
            1_000_000
        } else {
            third
        };
        ((resonance_score + vector_score as u128) / 2) as u64
    }

    /// Attaches the vector.
    pub fn set_vector(&mut self, vector: [i32; 9])
        ensures
            final(self)@ == old(self)@.with_vector(vector@),
    {
        self.vector = vector;
    }

    /// Moves the action to the successor of its phase. At `Manifestation`
    /// nothing changes and `TerminalPhaseExceeded` is returned.
    pub fn advance_phase(&mut self) -> (moved: Result<Phase, GovernanceError>)
        ensures
            match old(self).phase.spec_next() {
                Some(next) => moved == Ok::<Phase, GovernanceError>(next) && final(self)@ == old(
                    self,
                )@.at_phase(next),
                None => moved == Err::<Phase, GovernanceError>(
                    GovernanceError::TerminalPhaseExceeded,
                ) && final(self)@ == old(self)@,
            },
    {
        match self.phase.next() {
            Some(next_phase) => {
                self.phase = next_phase;
                Ok(next_phase)
            },
            None => Err(GovernanceError::TerminalPhaseExceeded),
        }
    }

    /// A copy of the action.
    pub fn duplicate(&self) -> (copy: Action)
        ensures
            copy@ == self@,
    {
        Action {
            hash: self.hash,
            phase: self.phase,
            action_type: self.action_type,
            resonance: self.resonance,
            vector: self.vector,
            timestamp: self.timestamp,
            description: self.description.clone(),
            target: self.target,
            value: self.value,
        }
    }
}

/// A successful move raises the phase ordinal by exactly one, so no move
/// ever lowers it.
pub proof fn lemma_advance_raises_ordinal(before: ActionView, after: ActionView)
    requires
        before.phase.spec_next() matches Some(next) && after == before.at_phase(next),
    ensures
        after.phase.spec_number() == before.phase.spec_number() + 1,
{
}

} // verus!
