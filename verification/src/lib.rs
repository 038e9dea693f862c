//! Orchestration core for standing up a local KubeFlow Pipelines environment.
//!
//! The crate models every mutating action as data: a capability describes the
//! commands it would run (its installation plan) and how its presence is
//! probed, and the engine state machines decide, step by step, what happens
//! next.  The surrounding binary performs the actual process invocations and
//! feeds the observed outcomes back into the machines.

pub mod cmd;
pub mod engine;
pub mod helpers;
pub mod plan;
pub mod probe;
pub mod services;
pub mod text;
