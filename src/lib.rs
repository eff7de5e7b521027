//! Verified core of a sandboxed code-execution engine: status resolution,
//! resource-limit computation, output collection and the lifecycle state
//! machine that drives an isolation backend.
use vstd::prelude::*;

pub mod status;
pub mod text;
pub mod numbers;
pub mod output;
pub mod config;
pub mod error;
pub mod container;
pub mod result;
pub mod lifecycle;
pub mod monitor;
pub mod runner;
pub mod security;

pub use status::{ExecutionStatus, WaitOutcome};
pub use error::ExecError;
pub use result::{ExecutionResult, WaitReport};
pub use output::LogChunk;
pub use lifecycle::{Action, Controller, Event, Phase};
pub use security::{SecurityConfig, create_seccomp_profile};
pub use runner::{Runner, ExecutionConfig};

verus! {

} // verus!
