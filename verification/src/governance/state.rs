//! The ten phases of the cycle, a linear chain with a single successor each.

use vstd::prelude::*;

verus! {

/// A phase of the governance cycle. `Breath` and `Manifestation` are the two
/// checkpoints; `Manifestation` is terminal.
#[derive(Debug, Clone, Copy, PartialEq, Eq, Hash, Structural)]
pub enum Phase {
    Silence,
    Proposal,
    Mirror,
    Vortex,
    Resolution,
    Fractal,
    Breath,
    Witness,
    Return,
    Manifestation,
}

impl Phase {
    /// Ordinal of the phase, 0 for `Silence` up to 9 for `Manifestation`.
    pub open spec fn spec_number(self) -> nat {
        match self {
            Phase::Silence => 0,
            Phase::Proposal => 1,
            Phase::Mirror => 2,
            Phase::Vortex => 3,
            Phase::Resolution => 4,
            Phase::Fractal => 5,
            Phase::Breath => 6,
            Phase::Witness => 7,
            Phase::Return => 8,
            Phase::Manifestation => 9,
        }
    }

    /// The phase with the given ordinal, if there is one.
    pub open spec fn spec_from_number(n: nat) -> Option<Phase> {
        if n == 0 {
            Some(Phase::Silence)
        } else if n == 1 {
            Some(Phase::Proposal)
        } else if n == 2 {
            Some(Phase::Mirror)
        } else if n == 3 {
            Some(Phase::Vortex)
        } else if n == 4 {
            Some(Phase::Resolution)
        } else if n == 5 {
            Some(Phase::Fractal)
        } else if n == 6 {
            Some(Phase::Breath)
        } else if n == 7 {
            Some(Phase::Witness)
        } else if n == 8 {
            Some(Phase::Return)
        } else if n == 9 {
            Some(Phase::Manifestation)
        } else {
            None
        }
    }

    /// The unique successor: the phase whose ordinal is one higher, none
    /// for `Manifestation`.
    pub open spec fn spec_next(self) -> Option<Phase> {
        Self::spec_from_number(self.spec_number() + 1)
    }

    /// The phase reached after `steps` successive moves, if the chain is that
    /// long.
    pub open spec fn spec_after(self, steps: nat) -> Option<Phase>
        decreases steps,
    {
        if steps == 0 {
            Some(self)
        } else {
            match self.spec_next() {
                Some(next) => next.spec_after((steps - 1) as nat),
                None => None,
            }
        }
    }

    /// Whether the phase is a checkpoint.
    pub open spec fn spec_is_checkpoint(self) -> bool {
        self == Phase::Breath || self == Phase::Manifestation
    }

    /// The successor of this phase; `None` at the terminal phase.
    pub fn next(self) -> (next: Option<Phase>)
        ensures
            next == self.spec_next(),
    {
        match self {
            Phase::Silence => Some(Phase::Proposal),
            Phase::Proposal => Some(Phase::Mirror),
            Phase::Mirror => Some(Phase::Vortex),
            Phase::Vortex => Some(Phase::Resolution),
            Phase::Resolution => Some(Phase::Fractal),
            Phase::Fractal => Some(Phase::Breath),
            Phase::Breath => Some(Phase::Witness),
            Phase::Witness => Some(Phase::Return),
            Phase::Return => Some(Phase::Manifestation),
            Phase::Manifestation => None,
        }
    }

    /// Whether a checkpoint is evaluated at this phase.
    pub fn is_checkpoint(self) -> (checkpoint: bool)
        ensures
            checkpoint == self.spec_is_checkpoint(),
    {
        match self {
            Phase::Breath => true,
            Phase::Manifestation => true,
            _ => false,
        }
    }

    /// Ordinal of the phase.
    pub fn number(self) -> (n: u8)
        ensures
            n == self.spec_number(),
    {
        match self {
            Phase::Silence => 0,
            Phase::Proposal => 1,
            Phase::Mirror => 2,
            Phase::Vortex => 3,
            Phase::Resolution => 4,
            Phase::Fractal => 5,
            Phase::Breath => 6,
            Phase::Witness => 7,
            Phase::Return => 8,
            Phase::Manifestation => 9,
        }
    }

    /// The phase with ordinal `n`; `None` above 9.
    pub fn from_number(n: u8) -> (phase: Option<Phase>)
        ensures
            phase == Self::spec_from_number(n as nat),
    {
        match n {
            0 => Some(Phase::Silence),
            1 => Some(Phase::Proposal),
            2 => Some(Phase::Mirror),
            3 => Some(Phase::Vortex),
            4 => Some(Phase::Resolution),
            5 => Some(Phase::Fractal),
            6 => Some(Phase::Breath),
            7 => Some(Phase::Witness),
            8 => Some(Phase::Return),
            9 => Some(Phase::Manifestation),
            _ => None,
        }
    }

    /// The name of the phase.
    pub fn name(self) -> (name: &'static str)
        ensures
            name@ == self.spec_name(),
    {
        match self {
            Phase::Silence => "Silence",
            Phase::Proposal => "Proposal",
            Phase::Mirror => "Mirror",
            Phase::Vortex => "Vortex",
            Phase::Resolution => "Resolution",
            Phase::Fractal => "Fractal",
            Phase::Breath => "Breath",
            Phase::Witness => "Witness",
            Phase::Return => "Return",
            Phase::Manifestation => "Manifestation",
        }
    }

    /// The name of the phase in capitals.
    pub fn upper_name(self) -> (name: &'static str)
        ensures
            name@ == self.spec_upper_name(),
    {
        match self {
            Phase::Silence => "SILENCE",
            Phase::Proposal => "PROPOSAL",
            Phase::Mirror => "MIRROR",
            Phase::Vortex => "VORTEX",
            Phase::Resolution => "RESOLUTION",
            Phase::Fractal => "FRACTAL",
            Phase::Breath => "BREATH",
            Phase::Witness => "WITNESS",
            Phase::Return => "RETURN",
            Phase::Manifestation => "MANIFESTATION",
        }
    }

    /// The name of the phase in capitals.
    pub open spec fn spec_upper_name(self) -> Seq<char> {
        match self {
            Phase::Silence => "SILENCE"@,
            Phase::Proposal => "PROPOSAL"@,
            Phase::Mirror => "MIRROR"@,
            Phase::Vortex => "VORTEX"@,
            Phase::Resolution => "RESOLUTION"@,
            Phase::Fractal => "FRACTAL"@,
            Phase::Breath => "BREATH"@,
            Phase::Witness => "WITNESS"@,
            Phase::Return => "RETURN"@,
            Phase::Manifestation => "MANIFESTATION"@,
        }
    }

    /// The name under which the phase is written.
    pub open spec fn spec_name(self) -> Seq<char> {
        match self {
            Phase::Silence => "Silence"@,
            Phase::Proposal => "Proposal"@,
            Phase::Mirror => "Mirror"@,
            Phase::Vortex => "Vortex"@,
            Phase::Resolution => "Resolution"@,
            Phase::Fractal => "Fractal"@,
            Phase::Breath => "Breath"@,
            Phase::Witness => "Witness"@,
            Phase::Return => "Return"@,
            Phase::Manifestation => "Manifestation"@,
        }
    }
}

/// Ordinals and phases correspond one to one: `from_number` inverts `number`.
pub proof fn lemma_number_round_trip(phase: Phase)
    ensures
        phase.spec_number() <= 9,
        Phase::spec_from_number(phase.spec_number()) == Some(phase),
{
}

/// A move raises the ordinal by exactly one, and only the terminal phase has
/// no successor.
pub proof fn lemma_next_raises_ordinal(phase: Phase)
    ensures
        phase.spec_next() is None <==> phase == Phase::Manifestation,
        phase.spec_next() matches Some(next) ==> next.spec_number() == phase.spec_number() + 1,
{
}

/// `steps` moves from a phase succeed exactly while the chain lasts, and
/// land on the phase whose ordinal is `steps` higher.
pub proof fn lemma_after_adds_steps(phase: Phase, steps: nat)
    ensures
        phase.spec_after(steps) is Some <==> phase.spec_number() + steps <= 9,
        phase.spec_after(steps) matches Some(reached) ==> reached.spec_number()
            == phase.spec_number() + steps,
    decreases steps,
{
    if steps > 0 {
        lemma_next_raises_ordinal(phase);
        match phase.spec_next() {
            Some(next) => {
                lemma_after_adds_steps(next, (steps - 1) as nat);
            },
            None => {},
        }
    }
}

/// Exactly nine moves lead from `Silence` to `Manifestation`: fewer stop
/// short of it, and a tenth does not exist.
pub proof fn lemma_nine_moves_reach_manifestation(steps: nat)
    ensures
        Phase::Silence.spec_after(9) == Some(Phase::Manifestation),
        steps < 9 ==> Phase::Silence.spec_after(steps) is Some && Phase::Silence.spec_after(
            steps,
        ) != Some(Phase::Manifestation),
        steps > 9 ==> Phase::Silence.spec_after(steps) is None,
{
    lemma_after_adds_steps(Phase::Silence, 9);
    lemma_after_adds_steps(Phase::Silence, steps);
    let reached = Phase::Silence.spec_after(9);
    lemma_number_round_trip(reached->0);
}

} // verus!
