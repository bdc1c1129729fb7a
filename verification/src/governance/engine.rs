//! The governance engine: the table of active actions and the full cycle.

use vstd::prelude::*;
use crate::assoc::{
    has_key, index_of, keys_distinct, lemma_index_of, lemma_map_len, lemma_upsert,
    lemma_upsert_twice, lemma_without, lemma_without_upsert, to_map, upsert, without,
};
use crate::clock::unix_seconds;
use crate::frequency::{below_cancel_threshold, meets_manifest_threshold};
use crate::governance::action::{Action, ActionType, ActionView};
use crate::governance::phase_engine::{
    same_hash, transition_history, transition_outcome, transition_target, with_record,
    GovernanceError, PhaseEngine,
};
use crate::governance::state::Phase;
use crate::witness::spec_witness_record;
use crate::BASE_FREQUENCY;

verus! {

/// The actions among `entries` that satisfy `keep`, in the order of the
/// table.
pub open spec fn selected(
    entries: Seq<(Seq<u8>, ActionView)>,
    keep: spec_fn(ActionView) -> bool,
) -> Seq<ActionView>
    decreases entries.len(),
{
    if entries.len() == 0 {
        Seq::empty()
    } else {
        let earlier = selected(entries.drop_last(), keep);
        if keep(entries.last().1) {
            earlier.push(entries.last().1)
        } else {
            earlier
        }
    }
}

/// The action that a submission creates, with its vector attached.
pub open spec fn submitted(
    hash: Seq<u8>,
    action_type: ActionType,
    resonance: u64,
    description: Seq<char>,
    vector: Seq<i32>,
    timestamp: u64,
) -> ActionView {
    ActionView::fresh(hash, action_type, resonance, description, timestamp).with_vector(vector)
}

/// How a full cycle ends for a resonance: cancelled at `Breath` below 0.369
/// times the base frequency, failed at `Manifestation` below 0.9 times it, else
/// manifested.
pub open spec fn cycle_outcome(resonance: u64) -> Result<(), GovernanceError> {
    if below_cancel_threshold(resonance, BASE_FREQUENCY) {
        Err(GovernanceError::SelfCancelled)
    } else if !meets_manifest_threshold(resonance, BASE_FREQUENCY) {
        Err(GovernanceError::ManifestationGateFailed)
    } else {
        Ok(())
    }
}

/// The witness history after a full cycle of a fresh action: one more
/// record for the hash where the action got past `Breath`, else unchanged.
pub open spec fn cycle_history(
    history: Seq<(Seq<u8>, Seq<Seq<char>>)>,
    hash: Seq<u8>,
    resonance: u64,
) -> Seq<(Seq<u8>, Seq<Seq<char>>)> {
    if below_cancel_threshold(resonance, BASE_FREQUENCY) {
        history
    } else {
        with_record(history, hash, spec_witness_record(hash, 0, 7))
    }
}

/// The active actions side by side with the hashes they were submitted
/// under, in the order in which the hashes entered the table.
struct ActionTable {
    keys: Vec<[u8; 32]>,
    actions: Vec<Action>,
}

impl ActionTable {
    /// The table as pairs of hash and action.
    closed spec fn pairs(&self) -> Seq<(Seq<u8>, ActionView)> {
        Seq::new(self.keys@.len(), |i: int| (self.keys@[i]@, self.actions@[i]@))
    }

    /// Each hash has its action, and no hash stands twice.
    closed spec fn ok(&self) -> bool {
        self.keys@.len() == self.actions@.len() && keys_distinct(self.pairs())
    }

    /// The empty table.
    fn new() -> (table: ActionTable)
        ensures
            table.ok(),
            table.pairs() == Seq::<(Seq<u8>, ActionView)>::empty(),
    {
        let table = ActionTable { keys: Vec::new(), actions: Vec::new() };
        assert(table.pairs() =~= Seq::<(Seq<u8>, ActionView)>::empty());
        table
    }

    /// Where the action of `hash` stands.
    fn find(&self, hash: &[u8; 32]) -> (found: Option<usize>)
        requires
            self.ok(),
        ensures
            match found {
                Some(i) => has_key(self.pairs(), hash@) && i == index_of(self.pairs(), hash@) && i
                    < self.actions@.len(),
                None => !has_key(self.pairs(), hash@),
            },
    {
        let mut i: usize = 0;
        while i < self.keys.len()
            invariant
                self.ok(),
                i <= self.keys@.len(),
                forall|j: int| 0 <= j < i ==> (#[trigger] self.pairs()[j]).0 != hash@,
            decreases self.keys@.len() - i,
        {
            if same_hash(&self.keys[i], hash) {
                proof {
                    assert(self.pairs()[i as int].0 == hash@);
                    lemma_index_of(self.pairs(), i as int);
                }
                return Some(i);
            }
            assert(self.pairs()[i as int].0 != hash@);
            i = i + 1;
        }
        None
    }

    /// Puts `action` under `hash`, in place of the action that the hash had.
    fn put(&mut self, hash: [u8; 32], action: Action)
        requires
            old(self).ok(),
        ensures
            final(self).ok(),
            final(self).pairs() == upsert(old(self).pairs(), hash@, action@),
    {
        let ghost before = self.pairs();
        proof {
            lemma_upsert(before, hash@, action@);
        }
        match self.find(&hash) {
            Some(i) => {
                self.actions.set(i, action);
                assert(self.pairs() =~= upsert(before, hash@, action@));
            },
            None => {
                self.keys.push(hash);
                self.actions.push(action);
                assert(self.pairs() =~= upsert(before, hash@, action@));
            },
        }
    }

    /// Puts `action` under `hash` at place `i`, for a hash that the table
    /// does not have.
    fn insert_at(&mut self, i: usize, hash: [u8; 32], action: Action)
        requires
            old(self).ok(),
            i <= old(self).pairs().len(),
            !has_key(old(self).pairs(), hash@),
        ensures
            final(self).ok(),
            final(self).pairs() == old(self).pairs().insert(i as int, (hash@, action@)),
    {
        let ghost before = self.pairs();
        self.keys.insert(i, hash);
        self.actions.insert(i, action);
        proof {
            let after = before.insert(i as int, (hash@, action@));
            assert(self.pairs() =~= after);
            assert forall|a: int, b: int| 0 <= a < b < after.len() implies (#[trigger] after[a]).0
                != (#[trigger] after[b]).0 by {
                let sa = if a < i {
                    a
                } else {
                    a - 1
                };
                let sb = if b < i {
                    b
                } else {
                    b - 1
                };
                if a == i as int {
                    assert(after[b] == before[sb]);
                    assert(before[sb].0 != hash@);
                } else if b == i as int {
                    assert(after[a] == before[sa]);
                    assert(before[sa].0 != hash@);
                } else {
                    assert(after[a] == before[sa] && after[b] == before[sb]);
                    assert(before[sa].0 != before[sb].0);
                }
            }
        }
    }

    /// Takes the action at place `i` out of the table.
    fn take(&mut self, i: usize) -> (action: Action)
        requires
            old(self).ok(),
            i < old(self).pairs().len(),
        ensures
            final(self).ok(),
            action@ == old(self).pairs()[i as int].1,
            final(self).pairs() == old(self).pairs().remove(i as int),
    {
        let ghost before = self.pairs();
        proof {
            lemma_index_of(before, i as int);
            lemma_without(before, before[i as int].0);
        }
        self.keys.remove(i);
        let action = self.actions.remove(i);
        assert(self.pairs() =~= before.remove(i as int));
        action
    }
}

/// Owns the table of active actions, at most one per hash, and drives them
/// through the cycle.
pub struct GovernanceEngine {
    table: ActionTable,
    phase_engine: PhaseEngine,
}

impl View for GovernanceEngine {
    type V = Map<Seq<u8>, ActionView>;

    /// The active actions by hash.
    open spec fn view(&self) -> Map<Seq<u8>, ActionView> {
        to_map(self.entries())
    }
}

impl GovernanceEngine {
    /// The active actions as a table, in the order in which their hashes
    /// entered it.
    pub closed spec fn entries(&self) -> Seq<(Seq<u8>, ActionView)> {
        self.table.pairs()
    }

    /// The witness history as a table.
    pub closed spec fn history(&self) -> Seq<(Seq<u8>, Seq<Seq<char>>)> {
        self.phase_engine.history()
    }

    /// The witness history by hash.
    pub open spec fn witnesses(&self) -> Map<Seq<u8>, Seq<Seq<char>>> {
        to_map(self.history())
    }

    /// No hash has two actions.
    #[verifier::type_invariant]
    spec fn inv(self) -> bool {
        self.table.ok()
    }

    /// An engine without actions or witness records.
    pub fn new() -> (engine: GovernanceEngine)
        ensures
            engine.entries() == Seq::<(Seq<u8>, ActionView)>::empty(),
            engine.history() == Seq::<(Seq<u8>, Seq<Seq<char>>)>::empty(),
    {
        GovernanceEngine { table: ActionTable::new(), phase_engine: PhaseEngine::new() }
    }

    /// Puts `action` under `hash`, in place of the action that the hash had.
    fn put(&mut self, hash: [u8; 32], action: Action)
        ensures
            final(self).entries() == upsert(old(self).entries(), hash@, action@),
            final(self).history() == old(self).history(),
    {
        proof {
            use_type_invariant(&*self);
        }
        let mut table = ActionTable::new();
        std::mem::swap(&mut table, &mut self.table);
        table.put(hash, action);
        self.table = table;
    }

    /// Submits a new action, created at the given time. An action already
    /// active under the same hash is replaced.
    pub fn submit_action_at(
        &mut self,
        hash: [u8; 32],
        action_type: ActionType,
        resonance: u64,
        description: String,
        timestamp: u64,
    ) -> (done: Result<(), GovernanceError>)
        ensures
            done is Ok,
            final(self).entries() == upsert(
                old(self).entries(),
                hash@,
                ActionView::fresh(hash@, action_type, resonance, description@, timestamp),
            ),
            final(self)@ == old(self)@.insert(
                hash@,
                ActionView::fresh(hash@, action_type, resonance, description@, timestamp),
            ),
            final(self).history() == old(self).history(),
    {
        proof {
            use_type_invariant(&*self);
            lemma_upsert(
                self.entries(),
                hash@,
                ActionView::fresh(hash@, action_type, resonance, description@, timestamp),
            );
        }
        let action = Action::new_at(hash, action_type, resonance, description, timestamp);
        self.put(hash, action);
        Ok(())
    }

    /// Submits a new action, stamped with the current time. An action
    /// already active under the same hash is replaced.
    pub fn submit_action(
        &mut self,
        hash: [u8; 32],
        action_type: ActionType,
        resonance: u64,
        description: String,
    ) -> (done: Result<(), GovernanceError>)
        ensures
            done is Ok,
            exists|timestamp: u64|
                {
                    &&& final(self).entries() == upsert(
                        old(self).entries(),
                        hash@,
                        ActionView::fresh(hash@, action_type, resonance, description@, timestamp),
                    )
                    &&& final(self)@ == old(self)@.insert(
                        hash@,
                        ActionView::fresh(hash@, action_type, resonance, description@, timestamp),
                    )
                },
            final(self).history() == old(self).history(),
    {
        let now = unix_seconds();
        self.submit_action_at(hash, action_type, resonance, description, now)
    }

    /// The active action of `hash`.
    pub fn get_action(&self, hash: &[u8; 32]) -> (found: Option<&Action>)
        ensures
            match found {
                Some(action) => self@.contains_key(hash@) && action@ == self@[hash@],
                None => !self@.contains_key(hash@),
            },
    {
        proof {
            use_type_invariant(self);
        }
        match self.table.find(hash) {
            Some(i) => {
                proof {
                    lemma_index_of(self.entries(), i as int);
                }
                Some(&self.table.actions[i])
            },
            None => None,
        }
    }

    /// The active action of `hash`, to be changed in place. Whatever the
    /// caller writes into it, the action stays under the hash it was
    /// submitted with.
    pub fn get_action_mut(&mut self, hash: &[u8; 32]) -> (found: Option<&mut Action>)
        ensures
            final(self).history() == old(self).history(),
            match found {
                Some(action) => {
                    &&& old(self)@.contains_key(hash@)
                    &&& action@ == old(self)@[hash@]
                    &&& final(self).entries() == upsert(
                        old(self).entries(),
                        hash@,
                        (*final(action))@,
                    )
                },
                None => !old(self)@.contains_key(hash@) && final(self).entries() == old(
                    self,
                ).entries(),
            },
    {
        proof {
            use_type_invariant(&*self);
        }
        match self.table.find(hash) {
            Some(i) => {
                proof {
                    lemma_index_of(self.entries(), i as int);
                    assert forall|a: int, b: int|
                        0 <= a < b < self.table.keys@.len() implies (#[trigger] self.table.keys@[a])@
                        != (#[trigger] self.table.keys@[b])@ by {
                        assert(self.entries()[a].0 != self.entries()[b].0);
                    }
                }
                Some(&mut self.table.actions[i])
            },
            None => None,
        }
    }

    /// Moves the action of `hash` one step through the cycle.
    ///
    /// Without such an action the call fails with `ActionNotFound` and
    /// changes nothing. Else the move is decided as by
    /// `PhaseEngine::advance_phase`; an action whose move fails at a
    /// checkpoint is removed from the table.
    pub fn advance_action_phase(&mut self, hash: &[u8; 32]) -> (moved: Result<
        Phase,
        GovernanceError,
    >)
        ensures
            !old(self)@.contains_key(hash@) ==> {
                &&& moved == Err::<Phase, GovernanceError>(GovernanceError::ActionNotFound)
                &&& final(self).entries() == old(self).entries()
                &&& final(self).history() == old(self).history()
            },
            old(self)@.contains_key(hash@) ==> {
                &&& moved == transition_outcome(old(self)@[hash@])
                &&& final(self).history() == transition_history(
                    old(self).history(),
                    old(self)@[hash@],
                )
                &&& final(self).entries() == if moved is Ok {
                    upsert(old(self).entries(), hash@, transition_target(old(self)@[hash@]))
                } else {
                    without(old(self).entries(), hash@)
                }
            },
    {
        proof {
            use_type_invariant(&*self);
        }
        let ghost before = self.entries();
        let mut table = ActionTable::new();
        std::mem::swap(&mut table, &mut self.table);
        let mut phases = PhaseEngine::new();
        std::mem::swap(&mut phases, &mut self.phase_engine);
        let moved = match table.find(hash) {
            None => Err(GovernanceError::ActionNotFound),
            Some(i) => {
                proof {
                    lemma_index_of(before, i as int);
                    lemma_without(before, hash@);
                }
                let mut action = table.take(i);
                let ghost start = action@;
                let moved = phases.advance_phase(&mut action);
                match moved {
                    Ok(phase) => {
                        table.insert_at(i, *hash, action);
                        assert(table.pairs() =~= upsert(before, hash@, transition_target(start)));
                    },
                    Err(_) => {
                        assert(table.pairs() =~= without(before, hash@));
                    },
                }
                moved
            },
        };
        self.table = table;
        self.phase_engine = phases;
        moved
    }

    /// Runs a new action, created at the given time, through the whole
    /// cycle.
    ///
    /// The action is submitted under `hash` (replacing an action that the
    /// hash had), the vector is attached, and the action is moved until it
    /// stands at `Manifestation` with the terminal checkpoint passed, or a
    /// checkpoint fails. On success the finalized action is returned and
    /// stays in the table. On failure nothing of it remains in the table.
    pub fn process_event_at(
        &mut self,
        hash: [u8; 32],
        action_type: ActionType,
        resonance: u64,
        description: String,
        vector: [i32; 9],
        timestamp: u64,
    ) -> (finished: Result<Action, GovernanceError>)
        ensures
            match finished {
                Ok(action) => {
                    &&& cycle_outcome(resonance) is Ok
                    &&& action@ == submitted(
                        hash@,
                        action_type,
                        resonance,
                        description@,
                        vector@,
                        timestamp,
                    ).at_phase(Phase::Manifestation)
                    &&& action@.can_manifest()
                    &&& final(self).entries() == upsert(old(self).entries(), hash@, action@)
                    &&& final(self)@ == old(self)@.insert(hash@, action@)
                },
                Err(error) => {
                    &&& cycle_outcome(resonance) == Err::<(), GovernanceError>(error)
                    &&& final(self).entries() == without(old(self).entries(), hash@)
                    &&& final(self)@ == old(self)@.remove(hash@)
                },
            },
            final(self).history() == cycle_history(old(self).history(), hash@, resonance),
    {
        proof {
            use_type_invariant(&*self);
        }
        let ghost before = self.entries();
        let ghost old_history = self.history();
        let mut action = Action::new_at(hash, action_type, resonance, description, timestamp);
        action.set_vector(vector);
        let ghost start = action@;
        self.put(hash, action);
        let mut step: u8 = 0;
        loop
            invariant
                step <= 9,
                keys_distinct(before),
                before == old(self).entries(),
                old_history == old(self).history(),
                start == submitted(hash@, action_type, resonance, description@, vector@, timestamp),
                self.entries() == upsert(
                    before,
                    hash@,
                    start.at_phase(Phase::spec_from_number(step as nat)->0),
                ),
                self.history() == if step <= 7 {
                    old_history
                } else {
                    with_record(old_history, hash@, spec_witness_record(hash@, 0, 7))
                },
                step > 6 ==> !below_cancel_threshold(resonance, BASE_FREQUENCY),
            decreases 10 - step,
        {
            let ghost current = start.at_phase(Phase::spec_from_number(step as nat)->0);
            proof {
                lemma_upsert(before, hash@, current);
            }
            match self.advance_action_phase(&hash) {
                Ok(phase) => {
                    proof {
                        lemma_upsert_twice(before, hash@, current, transition_target(current));
                    }
                    if step == 9 {
                        proof {
                            lemma_upsert(before, hash@, transition_target(current));
                        }
                        match self.get_action(&hash) {
                            Some(stored) => {
                                return Ok(stored.duplicate());
                            },
                            None => {
                                return Err(GovernanceError::ActionNotFound);
                            },
                        }
                    }
                    step = step + 1;
                },
                Err(error) => {
                    proof {
                        lemma_without_upsert(before, hash@, current);
                        lemma_without(before, hash@);
                    }
                    return Err(error);
                },
            }
        }
    }

    /// Runs a new action, stamped with the current time, through the whole
    /// cycle, as `process_event_at` does.
    pub fn process_event(
        &mut self,
        hash: [u8; 32],
        action_type: ActionType,
        resonance: u64,
        description: String,
        vector: [i32; 9],
    ) -> (finished: Result<Action, GovernanceError>)
        ensures
            match finished {
                Ok(action) => {
                    &&& cycle_outcome(resonance) is Ok
                    &&& action@ == submitted(
                        hash@,
                        action_type,
                        resonance,
                        description@,
                        vector@,
                        action.timestamp,
                    ).at_phase(Phase::Manifestation)
                    &&& action@.can_manifest()
                    &&& final(self).entries() == upsert(old(self).entries(), hash@, action@)
                    &&& final(self)@ == old(self)@.insert(hash@, action@)
                },
                Err(error) => {
                    &&& cycle_outcome(resonance) == Err::<(), GovernanceError>(error)
                    &&& final(self).entries() == without(old(self).entries(), hash@)
                    &&& final(self)@ == old(self)@.remove(hash@)
                },
            },
            final(self).history() == cycle_history(old(self).history(), hash@, resonance),
    {
        let now = unix_seconds();
        self.process_event_at(hash, action_type, resonance, description, vector, now)
    }

    /// The active actions that are at `phase`, in the order of the table.
    pub fn get_actions_by_phase(&self, phase: Phase) -> (found: Vec<&Action>)
        ensures
            found@.map_values(|action: &Action| action@) == selected(
                self.entries(),
                |action: ActionView| action.phase == phase,
            ),
    {
        proof {
            use_type_invariant(self);
        }
        let ghost keep = |action: ActionView| action.phase == phase;
        let mut found: Vec<&Action> = Vec::new();
        let mut i: usize = 0;
        assert(self.entries().take(0) =~= Seq::<(Seq<u8>, ActionView)>::empty());
        while i < self.table.actions.len()
            invariant
                i <= self.table.actions@.len(),
                self.table.ok(),
                keep == |action: ActionView| action.phase == phase,
                found@.map_values(|action: &Action| action@) == selected(
                    self.entries().take(i as int),
                    keep,
                ),
            decreases self.table.actions@.len() - i,
        {
            let ghost upto = self.entries().take(i + 1);
            let ghost shown = found@.map_values(|action: &Action| action@);
            assert(upto.drop_last() =~= self.entries().take(i as int));
            assert(upto.last().1 == self.table.actions@[i as int]@);
            if self.table.actions[i].phase == phase {
                found.push(&self.table.actions[i]);
                assert(found@.map_values(|action: &Action| action@) =~= shown.push(
                    self.table.actions@[i as int]@,
                ));
            }
            i = i + 1;
        }
        assert(self.entries().take(i as int) =~= self.entries());
        found
    }

    /// The active actions that stand at `Manifestation` with the terminal
    /// checkpoint passed, in the order of the table.
    pub fn get_manifestable_actions(&self) -> (found: Vec<&Action>)
        ensures
            found@.map_values(|action: &Action| action@) == selected(
                self.entries(),
                |action: ActionView| action.can_manifest(),
            ),
    {
        proof {
            use_type_invariant(self);
        }
        let ghost keep = |action: ActionView| action.can_manifest();
        let mut found: Vec<&Action> = Vec::new();
        let mut i: usize = 0;
        assert(self.entries().take(0) =~= Seq::<(Seq<u8>, ActionView)>::empty());
        while i < self.table.actions.len()
            invariant
                i <= self.table.actions@.len(),
                self.table.ok(),
                keep == |action: ActionView| action.can_manifest(),
                found@.map_values(|action: &Action| action@) == selected(
                    self.entries().take(i as int),
                    keep,
                ),
            decreases self.table.actions@.len() - i,
        {
            let ghost upto = self.entries().take(i + 1);
            let ghost shown = found@.map_values(|action: &Action| action@);
            assert(upto.drop_last() =~= self.entries().take(i as int));
            assert(upto.last().1 == self.table.actions@[i as int]@);
            if self.table.actions[i].phase == Phase::Manifestation
                && self.table.actions[i].can_manifest() {
                found.push(&self.table.actions[i]);
                assert(found@.map_values(|action: &Action| action@) =~= shown.push(
                    self.table.actions@[i as int]@,
                ));
            }
            i = i + 1;
        }
        assert(self.entries().take(i as int) =~= self.entries());
        found
    }

    /// Takes the action of `hash` out of the table.
    pub fn remove_action(&mut self, hash: &[u8; 32]) -> (removed: Option<Action>)
        ensures
            match removed {
                Some(action) => old(self)@.contains_key(hash@) && action@ == old(self)@[hash@],
                None => !old(self)@.contains_key(hash@),
            },
            final(self).entries() == without(old(self).entries(), hash@),
            final(self)@ == old(self)@.remove(hash@),
            final(self).history() == old(self).history(),
    {
        proof {
            use_type_invariant(&*self);
        }
        let ghost before = self.entries();
        proof {
            lemma_without(before, hash@);
        }
        let mut table = ActionTable::new();
        std::mem::swap(&mut table, &mut self.table);
        let removed = match table.find(hash) {
            Some(i) => {
                proof {
                    lemma_index_of(before, i as int);
                }
                Some(table.take(i))
            },
            None => None,
        };
        self.table = table;
        removed
    }

    /// How many actions are active.
    pub fn action_count(&self) -> (count: usize)
        ensures
            count == self.entries().len(),
            count == self@.dom().len(),
    {
        proof {
            use_type_invariant(self);
            lemma_map_len(self.entries());
        }
        self.table.actions.len()
    }

    /// Drops every active action. The witness history stays.
    pub fn clear(&mut self)
        ensures
            final(self).entries() == Seq::<(Seq<u8>, ActionView)>::empty(),
            final(self).history() == old(self).history(),
    {
        self.table = ActionTable::new();
    }

    /// The witness records of `hash`, oldest first.
    pub fn get_witness_records(&self, hash: &[u8; 32]) -> (records: Option<&Vec<String>>)
        ensures
            match records {
                Some(list) => self.witnesses().contains_key(hash@) && list@.map_values(
                    |record: String| record@,
                ) == self.witnesses()[hash@],
                None => !self.witnesses().contains_key(hash@),
            },
    {
        self.phase_engine.get_witness_records(hash)
    }
}

impl Default for GovernanceEngine {
    fn default() -> (engine: GovernanceEngine)
        ensures
            engine.entries() == Seq::<(Seq<u8>, ActionView)>::empty(),
            engine.history() == Seq::<(Seq<u8>, Seq<Seq<char>>)>::empty(),
    {
        GovernanceEngine::new()
    }
}

} // verus!
