//! The nine offices and the chains that the command line knows.

use vstd::prelude::*;
use crate::text::text_eq;

verus! {

/// The name of an office, `UNKNOWN` outside 1 to 9.
pub open spec fn spec_office_name(office: u8) -> Seq<char> {
    if office == 1 {
        "RESONATOR"@
    } else if office == 2 {
        "NULL"@
    } else if office == 3 {
        "MIRROR"@
    } else if office == 4 {
        "VORTEX"@
    } else if office == 5 {
        "WITNESS"@
    } else if office == 6 {
        "FRACTAL"@
    } else if office == 7 {
        "BREATH"@
    } else if office == 8 {
        "SILENCE"@
    } else if office == 9 {
        "RETURN"@
    } else {
        "UNKNOWN"@
    }
}

/// The name of an office.
pub fn get_office_name(office: u8) -> (name: &'static str)
    ensures
        name@ == spec_office_name(office),
{
    match office {
        1 => "RESONATOR",
        2 => "NULL",
        3 => "MIRROR",
        4 => "VORTEX",
        5 => "WITNESS",
        6 => "FRACTAL",
        7 => "BREATH",
        8 => "SILENCE",
        9 => "RETURN",
        _ => "UNKNOWN",
    }
}

/// Whether there is such an office: the offices are 1 to 9.
pub fn is_valid_office(office: u8) -> (valid: bool)
    ensures
        valid == (1 <= office <= 9),
{
    !(office < 1 || office > 9)
}

/// A chain that the command line can select.
#[derive(Debug, Clone, Copy, PartialEq, Eq, Structural)]
pub enum ChainChoice {
    Base,
    Arbitrum,
}

/// The chain that a name selects: `base` and `base-sepolia` select Base,
/// `arbitrum` Arbitrum, and no other name is supported.
pub fn select_chain(name: &str) -> (choice: Option<ChainChoice>)
    ensures
        choice == if name@ == "base"@ || name@ == "base-sepolia"@ {
            Some(ChainChoice::Base)
        } else if name@ == "arbitrum"@ {
            Some(ChainChoice::Arbitrum)
        } else {
            None
        },
{
    if text_eq(name, "base") || text_eq(name, "base-sepolia") {
        Some(ChainChoice::Base)
    } else if text_eq(name, "arbitrum") {
        Some(ChainChoice::Arbitrum)
    } else {
        None
    }
}

/// Whether the statistics are due after a cycle: after every ninth.
pub fn is_stats_cycle(cycle_count: u64) -> (due: bool)
    ensures
        due == (cycle_count % 9 == 0),
{
    cycle_count % 9 == 0
}

} // verus!
