//! The processing engine that takes events from the source to the chain.

pub mod engine;
