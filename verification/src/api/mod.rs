//! What the HTTP endpoints compute, apart from the transport.

pub mod health;
pub mod photonic;
pub mod score;
