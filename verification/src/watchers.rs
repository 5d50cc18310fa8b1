//! Watchers of live input.

pub mod gesture;
