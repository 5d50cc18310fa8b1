//! The background agent.

pub mod pairing;
pub mod permissions;
pub mod runtime;
