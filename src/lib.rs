//! Policy engine and execution-lifecycle model for blockchain runtimes.
//!
//! The library decides, for a security policy and a runtime measurement,
//! whether a violation occurred (call depth, external calls, gas, memory,
//! reentrancy, integer overflow, access control), accumulates violations
//! per execution, and aggregates them into execution results.
use vstd::prelude::*;

pub mod config;
pub mod constants;
pub mod runtime;
pub mod security;
pub mod text;
pub mod types;

pub use config::{RuntimeConfig, RuntimeConfigBuilder};
pub use runtime::DefaultBlockchainRuntime;
pub use security::{SecurityConfig, SecurityContext, SecurityValidator};
pub use types::{
    AccessControlCheck, EnvironmentState, ExecutionContext, ExecutionInputs, ExecutionResult,
    MetricType, NetworkMode, RuntimeCapabilities, RuntimeEnvironment, RuntimeEvent,
    RuntimeMetricDefinition, RuntimeType, SecureExecutionContext, SecuritySeverity,
    SecurityViolation, SecurityViolationType, StateChange, StateChangeType,
};

verus! {

} // verus!
