//! Phase transitions with their checkpoints, and the witness history.

use vstd::prelude::*;
use crate::assoc::{has_key, index_of, keys_distinct, lemma_index_of, lemma_upsert, to_map, upsert};
use crate::governance::action::{Action, ActionView};
use crate::governance::state::Phase;
use crate::witness::{generate_witness_record, spec_witness_record};

verus! {

/// Why an action left the cycle, or could not be moved.
#[derive(Debug, Clone, Copy, PartialEq, Eq, Structural)]
pub enum GovernanceError {
    /// The resonance was below 0.369 times the base frequency at `Breath`.
    SelfCancelled,
    /// The resonance was below 0.9 times the base frequency at
    /// `Manifestation`.
    ManifestationGateFailed,
    /// A move was asked of an action that is already at the terminal phase.
    TerminalPhaseExceeded,
    /// No active action has the given hash.
    ActionNotFound,
}

impl GovernanceError {
    /// The message that goes with the error.
    pub fn message(self) -> (text: &'static str)
        ensures
            text@ == self.spec_message(),
    {
        match self {
            GovernanceError::SelfCancelled => "Action self-cancelled at Phase 6 (Breath)",
            GovernanceError::ManifestationGateFailed => "Action failed manifestation gate",
            GovernanceError::TerminalPhaseExceeded => "Already at terminal phase",
            GovernanceError::ActionNotFound => "Action not found",
        }
    }

    /// The message that goes with the error.
    pub open spec fn spec_message(self) -> Seq<char> {
        match self {
            GovernanceError::SelfCancelled => "Action self-cancelled at Phase 6 (Breath)"@,
            GovernanceError::ManifestationGateFailed => "Action failed manifestation gate"@,
            GovernanceError::TerminalPhaseExceeded => "Already at terminal phase"@,
            GovernanceError::ActionNotFound => "Action not found"@,
        }
    }
}

/// Whether two hashes are the same.
pub fn same_hash(a: &[u8; 32], b: &[u8; 32]) -> (same: bool)
    ensures
        same == (a@ == b@),
{
    let mut i: usize = 0;
    while i < 32
        invariant
            i <= 32,
            a@.take(i as int) == b@.take(i as int),
        decreases 32 - i,
    {
        if a[i] != b[i] {
            assert(a@[i as int] != b@[i as int]);
            return false;
        }
        assert(a@.take(i + 1) =~= a@.take(i as int).push(a@[i as int]));
        assert(b@.take(i + 1) =~= b@.take(i as int).push(b@[i as int]));
        i = i + 1;
    }
    assert(a@.take(32) =~= a@);
    assert(b@.take(32) =~= b@);
    true
}

/// What a move decides for an action: the phase it is at afterwards, or why
/// it leaves the cycle.
///
/// At `Breath` an action below the cancel threshold cancels itself. At
/// `Manifestation` the terminal checkpoint is evaluated: the action stays there, finalized,
/// or fails. Everywhere else the action moves to the successor.
pub open spec fn transition_outcome(action: ActionView) -> Result<Phase, GovernanceError> {
    if action.should_self_cancel() {
        Err(GovernanceError::SelfCancelled)
    } else if action.phase == Phase::Manifestation {
        if action.can_manifest() {
            Ok(Phase::Manifestation)
        } else {
            Err(GovernanceError::ManifestationGateFailed)
        }
    } else {
        Ok(action.phase.spec_next()->0)
    }
}

/// The action after a move: at the phase that the move decided, or
/// unchanged where the move failed.
pub open spec fn transition_target(action: ActionView) -> ActionView {
    match transition_outcome(action) {
        Ok(phase) => action.at_phase(phase),
        Err(_) => action,
    }
}

/// The history with one more record at the end of the records of `key`.
pub open spec fn with_record(
    history: Seq<(Seq<u8>, Seq<Seq<char>>)>,
    key: Seq<u8>,
    record: Seq<char>,
) -> Seq<(Seq<u8>, Seq<Seq<char>>)> {
    if has_key(history, key) {
        upsert(history, key, history[index_of(history, key)].1.push(record))
    } else {
        upsert(history, key, seq![record])
    }
}

/// The witness history after a move of `action`: a move out of `Witness`
/// appends the action's witness record, any other move leaves the history
/// alone.
pub open spec fn transition_history(
    history: Seq<(Seq<u8>, Seq<Seq<char>>)>,
    action: ActionView,
) -> Seq<(Seq<u8>, Seq<Seq<char>>)> {
    if action.phase == Phase::Witness {
        with_record(history, action.hash, spec_witness_record(action.hash, action.value, 7))
    } else {
        history
    }
}

/// The witness records of one hash, oldest first.
struct WitnessLog {
    key: [u8; 32],
    records: Vec<String>,
}

impl WitnessLog {
    /// The records as plain text.
    closed spec fn spec_records(&self) -> Seq<Seq<char>> {
        self.records@.map_values(|record: String| record@)
    }

    /// The hash that the records belong to.
    closed spec fn spec_key(&self) -> Seq<u8> {
        self.key@
    }
}

/// Drives single moves through the cycle and keeps the witness history:
/// for each hash the records produced so far, appended and never changed.
pub struct PhaseEngine {
    witness_records: Vec<WitnessLog>,
}

/// The logs as a table: one pair per hash, in the order in which the hashes
/// were first recorded.
closed spec fn log_table(logs: Seq<WitnessLog>) -> Seq<(Seq<u8>, Seq<Seq<char>>)> {
    Seq::new(logs.len(), |i: int| (logs[i].spec_key(), logs[i].spec_records()))
}

/// Where the log of `action_hash` stands among the logs.
fn find_log(logs: &Vec<WitnessLog>, action_hash: &[u8; 32]) -> (found: Option<usize>)
    requires
        keys_distinct(log_table(logs@)),
    ensures
        match found {
            Some(i) => has_key(log_table(logs@), action_hash@) && i == index_of(
                log_table(logs@),
                action_hash@,
            ) && i < logs@.len(),
            None => !has_key(log_table(logs@), action_hash@),
        },
{
    let mut i: usize = 0;
    while i < logs.len()
        invariant
            keys_distinct(log_table(logs@)),
            i <= logs@.len(),
            forall|j: int| 0 <= j < i ==> (#[trigger] log_table(logs@)[j]).0 != action_hash@,
        decreases logs@.len() - i,
    {
        if same_hash(&logs[i].key, action_hash) {
            proof {
                assert(log_table(logs@)[i as int].0 == action_hash@);
                lemma_index_of(log_table(logs@), i as int);
            }
            return Some(i);
        }
        assert(log_table(logs@)[i as int].0 != action_hash@);
        i = i + 1;
    }
    None
}

impl PhaseEngine {
    /// The history as a table: one pair per hash, in the order in which the
    /// hashes were first recorded.
    pub closed spec fn history(&self) -> Seq<(Seq<u8>, Seq<Seq<char>>)> {
        log_table(self.witness_records@)
    }

    /// No hash has two logs.
    #[verifier::type_invariant]
    spec fn inv(self) -> bool {
        keys_distinct(log_table(self.witness_records@))
    }

    /// The history as a map from hash to records.
    pub open spec fn witnesses(&self) -> Map<Seq<u8>, Seq<Seq<char>>> {
        to_map(self.history())
    }

    /// An engine with an empty history.
    pub fn new() -> (engine: PhaseEngine)
        ensures
            engine.history() == Seq::<(Seq<u8>, Seq<Seq<char>>)>::empty(),
    {
        let witness_records: Vec<WitnessLog> = Vec::new();
        assert(log_table(witness_records@) =~= Seq::<(Seq<u8>, Seq<Seq<char>>)>::empty());
        PhaseEngine { witness_records }
    }

    /// Appends `record` to the history of `action_hash`.
    pub fn record_witness(&mut self, action_hash: &[u8; 32], record: &str)
        ensures
            final(self).history() == with_record(old(self).history(), action_hash@, record@),
            final(self).witnesses() == old(self).witnesses().insert(
                action_hash@,
                if old(self).witnesses().contains_key(action_hash@) {
                    old(self).witnesses()[action_hash@].push(record@)
                } else {
                    seq![record@]
                },
            ),
    {
        proof {
            use_type_invariant(&*self);
        }
        let ghost before = self.history();
        let text = record.to_owned();
        let mut logs: Vec<WitnessLog> = Vec::new();
        proof {
            assert(log_table(logs@) =~= Seq::<(Seq<u8>, Seq<Seq<char>>)>::empty());
        }
        std::mem::swap(&mut logs, &mut self.witness_records);
        match find_log(&logs, action_hash) {
            Some(i) => {
                let mut log = logs.remove(i);
                let ghost old_records = log.spec_records();
                log.records.push(text);
                proof {
                    assert(log.spec_records() =~= old_records.push(record@));
                }
                logs.insert(i, log);
                proof {
                    lemma_index_of(before, i as int);
                    assert(log_table(logs@) =~= with_record(before, action_hash@, record@));
                    lemma_upsert(before, action_hash@, before[i as int].1.push(record@));
                }
            },
            None => {
                let mut records: Vec<String> = Vec::new();
                records.push(text);
                let log = WitnessLog { key: *action_hash, records };
                proof {
                    assert(log.spec_records() =~= seq![record@]);
                }
                logs.push(log);
                proof {
                    assert(log_table(logs@) =~= with_record(before, action_hash@, record@));
                    lemma_upsert(before, action_hash@, seq![record@]);
                }
            },
        }
        self.witness_records = logs;
    }

    /// The witness records of `action_hash`, oldest first; `None` where
    /// nothing was recorded for it.
    pub fn get_witness_records(&self, action_hash: &[u8; 32]) -> (records: Option<&Vec<String>>)
        ensures
            match records {
                Some(list) => self.witnesses().contains_key(action_hash@) && list@.map_values(
                    |record: String| record@,
                ) == self.witnesses()[action_hash@],
                None => !self.witnesses().contains_key(action_hash@),
            },
    {
        proof {
            use_type_invariant(self);
        }
        match find_log(&self.witness_records, action_hash) {
            Some(i) => {
                proof {
                    lemma_index_of(self.history(), i as int);
                }
                Some(&self.witness_records[i].records)
            },
            None => None,
        }
    }

    /// Moves `action` one step through the cycle.
    ///
    /// At `Breath` an action whose resonance is below 0.369 times the base
    /// frequency fails with `SelfCancelled`. At `Manifestation` the terminal checkpoint is
    /// evaluated: with a resonance of at least 0.9 times the base frequency
    /// the action stays where it is and is returned as finalized, else the
    /// move fails with `ManifestationGateFailed`. A move out of `Witness`
    /// first appends the action's witness record to the history. A failed
    /// move changes neither the action nor the history.
    pub fn advance_phase(&mut self, action: &mut Action) -> (moved: Result<Phase, GovernanceError>)
        ensures
            moved == transition_outcome(old(action)@),
            final(action)@ == transition_target(old(action)@),
            final(self).history() == transition_history(old(self).history(), old(action)@),
            final(action)@.phase.spec_number() >= old(action)@.phase.spec_number(),
    {
        let current_phase = action.phase;
        if current_phase == Phase::Breath {
            if action.should_self_cancel() {
                return Err(GovernanceError::SelfCancelled);
            }
        }
        if current_phase == Phase::Manifestation {
            if !action.can_manifest() {
                return Err(GovernanceError::ManifestationGateFailed);
            }
            return Ok(Phase::Manifestation);
        }
        if current_phase == Phase::Witness {
            let record = generate_witness_record(action.hash.as_slice(), action.value, 7);
            self.record_witness(&action.hash, record.as_str());
        }
        action.advance_phase()
    }

    /// The scaling factor of an iteration: 3, 9, 27, 81, ...
    pub fn calculate_fractal_scale(&self, iteration: u32) -> (scale: u64)
        requires
            iteration <= 39,
        ensures
            scale == vstd::arithmetic::power::pow(3, (iteration + 1) as nat),
    {
        let mut scale: u64 = 3;
        let mut i: u32 = 0;
        proof {
            reveal_with_fuel(vstd::arithmetic::power::pow, 2);
            lemma_pow3_bound(40);
        }
        while i < iteration
            invariant
                i <= iteration <= 39,
                scale == vstd::arithmetic::power::pow(3, (i + 1) as nat),
            decreases iteration - i,
        {
            proof {
                reveal_with_fuel(vstd::arithmetic::power::pow, 1);
                vstd::arithmetic::power::lemma_pow_increases(3, (i + 2) as nat, 40);
                lemma_pow3_bound(40);
            }
            scale = scale * 3;
            i = i + 1;
        }
        scale
    }

    /// Whether `to` is the successor of `from`.
    pub fn validate_transition(&self, from: Phase, to: Phase) -> (valid: bool)
        ensures
            valid == (from.spec_next() == Some(to)),
    {
        match from.next() {
            Some(next) => next == to,
            None => false,
        }
    }

    /// Seconds that a phase lasts: 18 for `Vortex`, 27 for `Fractal`, 9 for
    /// the others.
    pub fn get_phase_duration(&self, phase: Phase) -> (seconds: u64)
        ensures
            seconds == spec_phase_duration(phase),
    {
        match phase {
            Phase::Vortex => 18,
            Phase::Fractal => 27,
            _ => 9,
        }
    }

    /// Seconds that the whole cycle lasts: the durations of the ten phases
    /// together.
    pub fn total_cycle_time(&self) -> (seconds: u64)
        ensures
            seconds == spec_cycle_time(10),
            seconds == 117,
    {
        let mut total: u64 = 0;
        let mut n: u8 = 0;
        proof {
            reveal_with_fuel(spec_cycle_time, 11);
        }
        while n < 10
            invariant
                n <= 10,
                total == spec_cycle_time(n as nat),
                total <= 27 * n,
            decreases 10 - n,
        {
            proof {
                reveal_with_fuel(spec_cycle_time, 1);
            }
            match Phase::from_number(n) {
                Some(phase) => {
                    total = total + self.get_phase_duration(phase);
                },
                None => {},
            }
            n = n + 1;
        }
        total
    }
}

impl Default for PhaseEngine {
    fn default() -> (engine: PhaseEngine)
        ensures
            engine.history() == Seq::<(Seq<u8>, Seq<Seq<char>>)>::empty(),
    {
        PhaseEngine::new()
    }
}

/// Seconds that a phase lasts.
pub open spec fn spec_phase_duration(phase: Phase) -> nat {
    match phase {
        Phase::Vortex => 18,
        Phase::Fractal => 27,
        _ => 9,
    }
}

/// Seconds that the first `count` phases last together.
pub open spec fn spec_cycle_time(count: nat) -> nat
    decreases count,
{
    if count == 0 {
        0
    } else {
        spec_cycle_time((count - 1) as nat) + match Phase::spec_from_number((count - 1) as nat) {
            Some(phase) => spec_phase_duration(phase),
            None => 0,
        }
    }
}

/// `3^40` still fits in 64 bits.
proof fn lemma_pow3_bound(e: nat)
    requires
        e == 40,
    ensures
        vstd::arithmetic::power::pow(3, e) == 12157665459056928801,
{
    reveal_with_fuel(vstd::arithmetic::power::pow, 41);
}

/// The cycle lasts a whole number of 9-second intervals.
pub proof fn lemma_cycle_time_on_grid()
    ensures
        spec_cycle_time(10) == 117,
        spec_cycle_time(10) % 9 == 0,
{
    reveal_with_fuel(spec_cycle_time, 11);
}

/// No move lowers the phase ordinal, and a move that succeeds below
/// `Manifestation` raises it by exactly one.
pub proof fn lemma_transition_monotonic(action: ActionView)
    ensures
        transition_target(action).phase.spec_number() >= action.phase.spec_number(),
        transition_outcome(action) is Ok && action.phase != Phase::Manifestation
            ==> transition_target(action).phase.spec_number() == action.phase.spec_number() + 1,
        transition_outcome(action) is Err ==> transition_target(action) == action,
{
}

/// The action after `moves` successive moves.
pub open spec fn after_moves(action: ActionView, moves: nat) -> ActionView
    decreases moves,
{
    if moves == 0 {
        action
    } else {
        transition_target(after_moves(action, (moves - 1) as nat))
    }
}

/// Phase monotonicity: however many moves are made, the phase ordinal
/// never goes down.
pub proof fn lemma_moves_never_lower(action: ActionView, earlier: nat, later: nat)
    requires
        earlier <= later,
    ensures
        after_moves(action, earlier).phase.spec_number() <= after_moves(
            action,
            later,
        ).phase.spec_number(),
    decreases later,
{
    if earlier < later {
        lemma_moves_never_lower(action, earlier, (later - 1) as nat);
        lemma_transition_monotonic(after_moves(action, (later - 1) as nat));
    }
}

/// Exactly nine successful moves lead from `Silence` to `Manifestation`:
/// for an action that does not cancel itself, each of the first nine
/// moves succeeds and raises the ordinal by one, so the action stands at
/// `Manifestation` after the ninth and not before.
pub proof fn lemma_nine_moves_manifest(action: ActionView, moves: nat)
    requires
        action.phase == Phase::Silence,
        !crate::frequency::below_cancel_threshold(action.resonance, crate::BASE_FREQUENCY),
        moves <= 9,
    ensures
        after_moves(action, moves).phase.spec_number() == moves,
        after_moves(action, moves) == action.at_phase(after_moves(action, moves).phase),
        moves < 9 ==> transition_outcome(after_moves(action, moves)) is Ok,
        after_moves(action, moves).phase == Phase::Manifestation <==> moves == 9,
    decreases moves,
{
    if moves > 0 {
        lemma_nine_moves_manifest(action, (moves - 1) as nat);
    }
}

/// An action whose resonance lies below the cancel threshold gets as far
/// as `Breath` and fails there.
pub proof fn lemma_low_resonance_cancels(action: ActionView)
    requires
        action.phase == Phase::Silence,
        crate::frequency::below_cancel_threshold(action.resonance, crate::BASE_FREQUENCY),
    ensures
        after_moves(action, 6).phase == Phase::Breath,
        transition_outcome(after_moves(action, 6)) == Err::<Phase, GovernanceError>(
            GovernanceError::SelfCancelled,
        ),
        forall|moves: nat|
            moves >= 6 ==> #[trigger] after_moves(action, moves) == after_moves(action, 6),
{
    reveal_with_fuel(after_moves, 7);
    assert forall|moves: nat| moves >= 6 implies #[trigger] after_moves(action, moves)
        == after_moves(action, 6) by {
        lemma_stays_cancelled(action, moves);
    }
}

/// Once a move fails, every later move fails the same way.
proof fn lemma_stays_cancelled(action: ActionView, moves: nat)
    requires
        moves >= 6,
        transition_outcome(after_moves(action, 6)) is Err,
    ensures
        after_moves(action, moves) == after_moves(action, 6),
    decreases moves,
{
    if moves > 6 {
        lemma_stays_cancelled(action, (moves - 1) as nat);
    }
}

} // verus!
