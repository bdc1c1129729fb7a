//! Synthetic events: their seeded generator and the resonance validator.

pub mod generator;
pub mod resonance;
pub mod types;

pub use generator::SyntheticGenerator;
pub use resonance::ResonanceValidator;
pub use types::{EventType, SyntheticEvent, SyntheticEventView};
