//! Data carried between the event source, the processing engine and the
//! chain.

use vstd::prelude::*;
use vstd::std_specs::convert::FromSpecImpl;

pub use crate::governance::state::Phase;

verus! {

/// What an action does on chain.
#[derive(Debug, Clone, Copy, PartialEq, Eq, Structural)]
pub enum ActionType {
    Liquidation,
    YieldHarvest,
    Rebalance,
    Compound,
    BurnToNull,
}

impl ActionType {
    /// The action type with the given code; codes above 4 mean `BurnToNull`.
    pub open spec fn spec_from_code(code: u8) -> ActionType {
        if code == 0 {
            ActionType::Liquidation
        } else if code == 1 {
            ActionType::YieldHarvest
        } else if code == 2 {
            ActionType::Rebalance
        } else if code == 3 {
            ActionType::Compound
        } else {
            ActionType::BurnToNull
        }
    }

    /// The code of the action type, 0 to 4.
    pub open spec fn spec_code(self) -> u8 {
        match self {
            ActionType::Liquidation => 0,
            ActionType::YieldHarvest => 1,
            ActionType::Rebalance => 2,
            ActionType::Compound => 3,
            ActionType::BurnToNull => 4,
        }
    }

    /// The code of the action type.
    pub fn code(self) -> (code: u8)
        ensures
            code == self.spec_code(),
    {
        match self {
            ActionType::Liquidation => 0,
            ActionType::YieldHarvest => 1,
            ActionType::Rebalance => 2,
            ActionType::Compound => 3,
            ActionType::BurnToNull => 4,
        }
    }
}

impl From<u8> for ActionType {
    fn from(v: u8) -> (action_type: ActionType) {
        match v {
            0 => ActionType::Liquidation,
            1 => ActionType::YieldHarvest,
            2 => ActionType::Rebalance,
            3 => ActionType::Compound,
            4 => ActionType::BurnToNull,
            _ => ActionType::BurnToNull,
        }
    }
}

impl FromSpecImpl<u8> for ActionType {
    open spec fn obeys_from_spec() -> bool {
        true
    }

    open spec fn from_spec(v: u8) -> ActionType {
        ActionType::spec_from_code(v)
    }
}

impl From<u8> for Phase {
    fn from(v: u8) -> (phase: Phase) {
        match Phase::from_number(v) {
            Some(phase) => phase,
            None => Phase::Silence,
        }
    }
}

impl FromSpecImpl<u8> for Phase {
    open spec fn obeys_from_spec() -> bool {
        true
    }

    /// The phase with the given ordinal; ordinals above 9 mean `Silence`.
    open spec fn from_spec(v: u8) -> Phase {
        match Phase::spec_from_number(v as nat) {
            Some(phase) => phase,
            None => Phase::Silence,
        }
    }
}

/// Codes and action types correspond: the code of an action type leads
/// back to it.
pub proof fn lemma_code_round_trip(action_type: ActionType)
    ensures
        ActionType::spec_from_code(action_type.spec_code()) == action_type,
        action_type.spec_code() <= 4,
{
}

/// An event as the event source hands it over.
#[derive(Debug, Clone)]
pub struct SyntheticEvent {
    pub event_hash: String,
    pub event_type: ActionType,
    pub target: String,
    pub value: u128,
    pub payload: Vec<u8>,
    pub base9_witness: String,
    pub timestamp: u64,
    pub phase: u8,
}

/// What an event holds, as plain values.
pub struct SyntheticEventView {
    pub event_hash: Seq<char>,
    pub event_type: ActionType,
    pub target: Seq<char>,
    pub value: u128,
    pub payload: Seq<u8>,
    pub base9_witness: Seq<char>,
    pub timestamp: u64,
    pub phase: u8,
}

impl View for SyntheticEvent {
    type V = SyntheticEventView;

    open spec fn view(&self) -> SyntheticEventView {
        SyntheticEventView {
            event_hash: self.event_hash@,
            event_type: self.event_type,
            target: self.target@,
            value: self.value,
            payload: self.payload@,
            base9_witness: self.base9_witness@,
            timestamp: self.timestamp,
            phase: self.phase,
        }
    }
}

impl SyntheticEventView {
    /// The empty event: no hash, target, payload or witness, no value, the
    /// type `BurnToNull`.
    pub open spec fn empty() -> SyntheticEventView {
        SyntheticEventView {
            event_hash: Seq::empty(),
            event_type: ActionType::BurnToNull,
            target: Seq::empty(),
            value: 0,
            payload: Seq::empty(),
            base9_witness: Seq::empty(),
            timestamp: 0,
            phase: 0,
        }
    }
}

impl Default for SyntheticEvent {
    fn default() -> (event: SyntheticEvent)
        ensures
            event@ == SyntheticEventView::empty(),
    {
        SyntheticEvent {
            event_hash: String::new(),
            event_type: ActionType::BurnToNull,
            target: String::new(),
            value: 0,
            payload: Vec::new(),
            base9_witness: String::new(),
            timestamp: 0,
            phase: 0,
        }
    }
}

/// How the cycle ended for an event.
#[derive(Debug, Clone)]
pub struct ProcessingResult {
    pub event_hash: String,
    pub manifested: bool,
    pub cancel_phase: u8,
    pub witness_record: String,
    pub final_phase: Phase,
    pub processing_time_ms: u64,
}

/// What a result holds, as plain values.
pub struct ProcessingResultView {
    pub event_hash: Seq<char>,
    pub manifested: bool,
    pub cancel_phase: u8,
    pub witness_record: Seq<char>,
    pub final_phase: Phase,
    pub processing_time_ms: u64,
}

impl View for ProcessingResult {
    type V = ProcessingResultView;

    open spec fn view(&self) -> ProcessingResultView {
        ProcessingResultView {
            event_hash: self.event_hash@,
            manifested: self.manifested,
            cancel_phase: self.cancel_phase,
            witness_record: self.witness_record@,
            final_phase: self.final_phase,
            processing_time_ms: self.processing_time_ms,
        }
    }
}

impl ProcessingResultView {
    /// The result before anything happened: not manifested, not cancelled,
    /// at `Silence`.
    pub open spec fn pending(event_hash: Seq<char>) -> ProcessingResultView {
        ProcessingResultView {
            event_hash,
            manifested: false,
            cancel_phase: 0,
            witness_record: Seq::empty(),
            final_phase: Phase::Silence,
            processing_time_ms: 0,
        }
    }
}

impl Default for ProcessingResult {
    fn default() -> (result: ProcessingResult)
        ensures
            result@ == ProcessingResultView::pending(Seq::empty()),
    {
        ProcessingResult {
            event_hash: String::new(),
            manifested: false,
            cancel_phase: 0,
            witness_record: String::new(),
            final_phase: Phase::Silence,
            processing_time_ms: 0,
        }
    }
}

/// Liquidation parameters.
#[derive(Debug, Clone)]
pub struct LiquidationParams {
    pub protocol: String,
    pub collateral_asset: String,
    pub debt_asset: String,
    pub borrower: String,
    pub debt_to_cover: u128,
}

/// Yield harvest parameters.
#[derive(Debug, Clone)]
pub struct YieldHarvestParams {
    pub protocol: String,
    pub asset: String,
    pub strategy: Option<String>,
}

/// Rebalance parameters.
#[derive(Debug, Clone)]
pub struct RebalanceParams {
    pub from_protocol: String,
    pub to_protocol: String,
    pub asset: String,
    pub amount: u128,
}

/// A transaction for a chain.
#[derive(Debug, Clone)]
pub struct ChainTx {
    pub chain_id: u64,
    pub to: String,
    pub value: u128,
    pub data: Vec<u8>,
    pub gas_limit: u64,
    pub nonce: u64,
}

/// Counters of the processing engine. The two amounts are in millionths of
/// an ether.
#[derive(Debug, Clone, Copy, PartialEq, Eq, Structural)]
pub struct EngineStats {
    pub events_processed: u64,
    pub events_manifested: u64,
    pub events_cancelled: u64,
    pub liquidations_executed: u64,
    pub yields_harvested: u64,
    pub total_burned_eth: u64,
    pub total_profit_eth: u64,
    pub uptime_seconds: u64,
}

impl EngineStats {
    /// All counters at zero.
    pub open spec fn zero() -> EngineStats {
        EngineStats {
            events_processed: 0,
            events_manifested: 0,
            events_cancelled: 0,
            liquidations_executed: 0,
            yields_harvested: 0,
            total_burned_eth: 0,
            total_profit_eth: 0,
            uptime_seconds: 0,
        }
    }
}

impl Default for EngineStats {
    fn default() -> (stats: EngineStats)
        ensures
            stats == EngineStats::zero(),
    {
        EngineStats {
            events_processed: 0,
            events_manifested: 0,
            events_cancelled: 0,
            liquidations_executed: 0,
            yields_harvested: 0,
            total_burned_eth: 0,
            total_profit_eth: 0,
            uptime_seconds: 0,
        }
    }
}

/// Proof of a phase transition, for verification on chain.
#[derive(Debug, Clone)]
pub struct PhaseProof {
    pub event_hash: String,
    pub from_phase: u8,
    pub to_phase: u8,
    pub witness_record: String,
    pub signature: Vec<u8>,
}

/// Answer of the event source to a request for events.
#[derive(Debug, Clone)]
pub struct MacedonResponse {
    pub status: String,
    pub events: Option<Vec<SyntheticEvent>>,
    pub error: Option<String>,
}

/// Answer of the event source to a health check. `frequency` is in
/// millionths of a hertz.
#[derive(Debug, Clone)]
pub struct HealthResponse {
    pub status: String,
    pub version: String,
    pub frequency: u64,
    pub coherent: bool,
    pub database: String,
    pub timestamp: u64,
}

} // verus!
