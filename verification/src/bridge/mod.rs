//! The bridge from generated events to the governance cycle.

pub mod processor;

pub use processor::VortexBridge;
