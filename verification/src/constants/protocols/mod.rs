//! Addresses of the lending and yield protocols, by chain.

pub mod arbitrum;
pub mod base;
pub mod ethereum;
