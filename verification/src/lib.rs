//! Resonance governance engine: a ten-phase action cycle with its witness
//! codec, resonance validator and seeded event generator.
//!
//! Frequencies and resonances are carried as whole millionths of a hertz, so
//! every threshold comparison is exact.

use vstd::prelude::*;

pub mod api;
pub mod assoc;
pub mod bridge;
pub mod chain;
pub mod clock;
pub mod config;
pub mod constants;
pub mod digest;
pub mod embedding;
pub mod fixed;
pub mod frequency;
pub mod governance;
pub mod hexcode;
pub mod macedon;
pub mod office;
pub mod relayer;
pub mod resolver;
pub mod scoring;
pub mod services;
pub mod synthetic;
pub mod text;
pub mod types;
pub mod wide;
pub mod witness;

pub use governance::{Action, GovernanceEngine, Phase};
pub use synthetic::{ResonanceValidator, SyntheticGenerator};

verus! {

/// Crate version.
pub const VERSION: &'static str = "0.1.0";

/// Base frequency, 432 Hz, in millionths of a hertz.
pub const BASE_FREQUENCY: u64 = 432_000_000;

/// Protocol fee in basis points (0.9%).
pub const PROTOCOL_FEE_BPS: u16 = 90;

/// Share of the fee that goes to the treasury, in basis points.
pub const DAO_SHARE_BPS: u16 = 9;

/// Share of the fee that is burned, in basis points.
pub const NULL_BURN_BPS: u16 = 81;

} // verus!
