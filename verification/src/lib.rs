//! Supervision and invocation core for a single long-lived external worker
//! process: validating and normalizing start requests, resolving the
//! executable artifact to run, building canonical argument vectors, decoding
//! one-shot child output, and tracking the liveness of the one managed
//! process slot.
//!
//! The crate holds the decision logic only. The host around it performs the
//! operating-system effects (environment reads, filesystem checks, spawning,
//! signalling, waiting) and hands every observed result in as a plain value;
//! each module states in its contracts exactly what is decided from those
//! values.

pub mod builder;
pub mod errors;
pub mod resolver;
pub mod roles;
pub mod runner;
pub mod supervisor;
pub mod text;
