//! What the client of the event source computes around its requests: the
//! addresses it asks, and how answers become events and results.

use vstd::prelude::*;
use crate::text::{chars_of, concat, decimal, push_decimal, text_eq};
use crate::types::{ActionType, Phase, ProcessingResult, ProcessingResultView, SyntheticEvent, SyntheticEventView};

verus! {

/// A text without the slashes at its end.
pub open spec fn without_trailing_slashes(text: Seq<char>) -> Seq<char>
    decreases text.len(),
{
    if text.len() > 0 && text.last() == '/' {
        without_trailing_slashes(text.drop_last())
    } else {
        text
    }
}

/// The client's side of the event source: where it is asked.
pub struct MacedonClient {
    base_url: String,
}

impl MacedonClient {
    /// The base address of the source.
    pub closed spec fn base_url(&self) -> Seq<char> {
        self.base_url@
    }

    /// A client for the source at the given address; slashes at its end
    /// are dropped.
    pub fn new(given: &str) -> (client: Result<MacedonClient, String>)
        ensures
            client matches Ok(made) && made.base_url() == without_trailing_slashes(given@),
    {
        let chars = chars_of(given);
        let mut end: usize = chars.len();
        assert(chars@.take(end as int) =~= chars@);
        while end > 0 && chars[end - 1] == '/'
            invariant
                end <= chars.len(),
                without_trailing_slashes(chars@.take(end as int)) == without_trailing_slashes(
                    chars@,
                ),
            decreases end,
        {
            assert(chars@.take(end as int).drop_last() =~= chars@.take(end - 1));
            end = end - 1;
        }
        let mut base = String::new();
        let mut i: usize = 0;
        while i < end
            invariant
                i <= end <= chars.len(),
                base@ == chars@.take(i as int),
            decreases end - i,
        {
            base.push(chars[i]);
            assert(chars@.take(i + 1) =~= chars@.take(i as int).push(chars@[i as int]));
            i = i + 1;
        }
        Ok(MacedonClient { base_url: base })
    }

    /// The address of an endpoint: the base address followed by the path.
    pub fn endpoint(&self, path: &str) -> (url: String)
        ensures
            url@ == self.base_url() + path@,
    {
        concat(self.base_url.as_str(), path)
    }

    /// The address of the health check.
    pub fn health_url(&self) -> (url: String)
        ensures
            url@ == self.base_url() + "/health"@,
    {
        self.endpoint("/health")
    }

    /// The address of the pending proposals.
    pub fn pending_events_url(&self) -> (url: String)
        ensures
            url@ == self.base_url() + "/proposals?state=PENDING"@,
    {
        self.endpoint("/proposals?state=PENDING")
    }

    /// The address that proposals are submitted to.
    pub fn proposals_url(&self) -> (url: String)
        ensures
            url@ == self.base_url() + "/proposals"@,
    {
        self.endpoint("/proposals")
    }

    /// The address that has the source process its proposals.
    pub fn process_url(&self) -> (url: String)
        ensures
            url@ == self.base_url() + "/proposals/process"@,
    {
        self.endpoint("/proposals/process")
    }

    /// The address that petitions are submitted to, for a petition of
    /// `count` words; a petition of any other length than 3, 6 or 9 words
    /// is refused.
    pub fn petition_url(&self, count: usize) -> (url: Result<String, String>)
        ensures
            match url {
                Ok(address) => petition_length_ok(count as nat) && address@ == self.base_url()
                    + "/petitions"@,
                Err(reason) => !petition_length_ok(count as nat) && reason@
                    == "Word count must be 3, 6, or 9 (got "@ + decimal(count as nat) + ")"@,
            },
    {
        match check_petition(count) {
            Ok(_) => Ok(self.endpoint("/petitions")),
            Err(reason) => Err(reason),
        }
    }

    /// The address of the status.
    pub fn status_url(&self) -> (url: String)
        ensures
            url@ == self.base_url() + "/status"@,
    {
        self.endpoint("/status")
    }
}

/// The action type that a proposal names: `liquidation`, `harvest`,
/// `rebalance` and `compound` have their types, anything else and no name
/// mean `BurnToNull`.
pub open spec fn spec_action_type(name: Option<Seq<char>>) -> ActionType {
    match name {
        Some(text) => if text == "liquidation"@ {
            ActionType::Liquidation
        } else if text == "harvest"@ {
            ActionType::YieldHarvest
        } else if text == "rebalance"@ {
            ActionType::Rebalance
        } else if text == "compound"@ {
            ActionType::Compound
        } else {
            ActionType::BurnToNull
        },
        None => ActionType::BurnToNull,
    }
}

/// The name under which an action type is proposed.
pub open spec fn spec_action_name(action_type: ActionType) -> Seq<char> {
    match action_type {
        ActionType::Liquidation => "liquidation"@,
        ActionType::YieldHarvest => "harvest"@,
        ActionType::Rebalance => "rebalance"@,
        ActionType::Compound => "compound"@,
        ActionType::BurnToNull => "burn"@,
    }
}

/// An optional text as plain values.
pub open spec fn option_str(text: Option<&str>) -> Option<Seq<char>> {
    match text {
        Some(inner) => Some(inner@),
        None => None,
    }
}

/// The action type that a proposal names.
pub fn action_type_of(name: Option<&str>) -> (action_type: ActionType)
    ensures
        action_type == spec_action_type(option_str(name)),
{
    match name {
        Some(text) => {
            if text_eq(text, "liquidation") {
                ActionType::Liquidation
            } else if text_eq(text, "harvest") {
                ActionType::YieldHarvest
            } else if text_eq(text, "rebalance") {
                ActionType::Rebalance
            } else if text_eq(text, "compound") {
                ActionType::Compound
            } else {
                ActionType::BurnToNull
            }
        },
        None => ActionType::BurnToNull,
    }
}

/// The name under which an action type is proposed.
pub fn action_name(action_type: ActionType) -> (name: &'static str)
    ensures
        name@ == spec_action_name(action_type),
{
    match action_type {
        ActionType::Liquidation => "liquidation",
        ActionType::YieldHarvest => "harvest",
        ActionType::Rebalance => "rebalance",
        ActionType::Compound => "compound",
        ActionType::BurnToNull => "burn",
    }
}

/// The event that a pending proposal stands for. A proposal without a
/// value counts as 0, one without a target or a witness record as having
/// an empty one.
pub fn event_from_proposal(
    id: String,
    action: Option<&str>,
    value: Option<u64>,
    target: Option<&str>,
    payload: Vec<u8>,
    witness_record: Option<String>,
    created_at: u64,
    phase: u8,
) -> (event: SyntheticEvent)
    ensures
        event@ == (SyntheticEventView {
            event_hash: id@,
            event_type: spec_action_type(option_str(action)),
            target: match target {
                Some(text) => text@,
                None => Seq::empty(),
            },
            value: match value {
                Some(amount) => amount as u128,
                None => 0,
            },
            payload: payload@,
            base9_witness: match witness_record {
                Some(record) => record@,
                None => Seq::empty(),
            },
            timestamp: created_at,
            phase,
        }),
{
    SyntheticEvent {
        event_hash: id,
        event_type: action_type_of(action),
        target: match target {
            Some(text) => text.to_owned(),
            None => String::new(),
        },
        value: match value {
            Some(amount) => amount as u128,
            None => 0,
        },
        payload,
        base9_witness: match witness_record {
            Some(record) => record,
            None => String::new(),
        },
        timestamp: created_at,
        phase,
    }
}

/// The result that the source reports for a proposal: manifested at
/// `Manifestation` in the state `MANIFESTED`, cancelled at phase 6 in the
/// state `CANCELLED`, else neither.
pub fn result_from_report(
    proposal_id: String,
    state: &str,
    witness_record: Option<String>,
    processing_time_ms: u64,
) -> (result: ProcessingResult)
    ensures
        result@ == (ProcessingResultView {
            event_hash: proposal_id@,
            manifested: state@ == "MANIFESTED"@,
            cancel_phase: if state@ == "CANCELLED"@ {
                6
            } else {
                0
            },
            witness_record: match witness_record {
                Some(record) => record@,
                None => Seq::empty(),
            },
            final_phase: if state@ == "MANIFESTED"@ {
                Phase::Manifestation
            } else {
                Phase::Silence
            },
            processing_time_ms,
        }),
{
    let manifested = text_eq(state, "MANIFESTED");
    ProcessingResult {
        event_hash: proposal_id,
        manifested,
        cancel_phase: if text_eq(state, "CANCELLED") {
            6
        } else {
            0
        },
        witness_record: match witness_record {
            Some(record) => record,
            None => String::new(),
        },
        final_phase: if manifested {
            Phase::Manifestation
        } else {
            Phase::Silence
        },
        processing_time_ms,
    }
}

/// Whether a petition may have this many words: 3, 6 or 9.
pub open spec fn petition_length_ok(count: nat) -> bool {
    count == 3 || count == 6 || count == 9
}

/// Checks the number of words of a petition.
pub fn check_petition(count: usize) -> (checked: Result<(), String>)
    ensures
        match checked {
            Ok(_) => petition_length_ok(count as nat),
            Err(reason) => !petition_length_ok(count as nat) && reason@
                == "Word count must be 3, 6, or 9 (got "@ + decimal(count as nat) + ")"@,
        },
{
    if count != 3 && count != 6 && count != 9 {
        let mut reason = "Word count must be 3, 6, or 9 (got ".to_owned();
        push_decimal(&mut reason, count as u64);
        reason.append(")");
        return Err(reason);
    }
    Ok(())
}

/// What the answer to a petition means: an accepted petition gives the
/// proposal it became, or the message where none is named; any other
/// status is an error that quotes status and message.
pub fn petition_outcome(status: &str, message: String, proposal_id: Option<String>) -> (outcome:
    Result<String, String>)
    ensures
        match outcome {
            Ok(id) => status@ == "ACCEPTED"@ && id@ == match proposal_id {
                Some(named) => named@,
                None => message@,
            },
            Err(reason) => status@ != "ACCEPTED"@ && reason@ == status@ + ": "@ + message@,
        },
{
    if text_eq(status, "ACCEPTED") {
        match proposal_id {
            Some(named) => Ok(named),
            None => Ok(message),
        }
    } else {
        let mut reason = concat(status, ": ");
        reason.append(message.as_str());
        Err(reason)
    }
}

} // verus!
