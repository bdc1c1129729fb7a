//! The governance cycle: phases, actions and the engines that drive them.

pub mod action;
pub mod engine;
pub mod phase_engine;
pub mod state;

pub use action::{Action, ActionType, ActionView};
pub use engine::GovernanceEngine;
pub use phase_engine::{GovernanceError, PhaseEngine};
pub use state::Phase;
