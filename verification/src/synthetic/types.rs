//! The events that the generator produces.

use vstd::prelude::*;

verus! {

/// Category of a synthetic event.
#[derive(Debug, Clone, Copy, PartialEq, Eq, Structural)]
pub enum EventType {
    Liquidation,
    YieldHarvest,
    Rebalance,
    Custom,
}

/// A synthetic governance event. `resonance` is in millionths of a hertz.
#[derive(Debug, Clone)]
pub struct SyntheticEvent {
    pub timestamp: u64,
    pub event_type: EventType,
    pub resonance: u64,
    pub description: String,
    pub target_address: [u8; 20],
    pub value: u128,
    pub phase: u8,
}

/// What an event holds, as plain values.
pub struct SyntheticEventView {
    pub timestamp: u64,
    pub event_type: EventType,
    pub resonance: u64,
    pub description: Seq<char>,
    pub target_address: Seq<u8>,
    pub value: u128,
    pub phase: u8,
}

impl SyntheticEventView {
    /// The event as it is made: with an all-zero target, no value, at
    /// phase 0.
    pub open spec fn fresh(
        timestamp: u64,
        event_type: EventType,
        resonance: u64,
        description: Seq<char>,
    ) -> SyntheticEventView {
        SyntheticEventView {
            timestamp,
            event_type,
            resonance,
            description,
            target_address: Seq::new(20, |i: int| 0u8),
            value: 0,
            phase: 0,
        }
    }
}

impl View for SyntheticEvent {
    type V = SyntheticEventView;

    open spec fn view(&self) -> SyntheticEventView {
        SyntheticEventView {
            timestamp: self.timestamp,
            event_type: self.event_type,
            resonance: self.resonance,
            description: self.description@,
            target_address: self.target_address@,
            value: self.value,
            phase: self.phase,
        }
    }
}

impl SyntheticEvent {
    /// An event with the given time, category, resonance and description.
    pub fn new(timestamp: u64, event_type: EventType, resonance: u64, description: String) -> (event:
        SyntheticEvent)
        ensures
            event@ == SyntheticEventView::fresh(timestamp, event_type, resonance, description@),
    {
        let event = SyntheticEvent {
            timestamp,
            event_type,
            resonance,
            description,
            target_address: [0u8; 20],
            value: 0,
            phase: 0,
        };
        assert(event.target_address@ =~= Seq::new(20, |i: int| 0u8));
        event
    }
}

} // verus!
