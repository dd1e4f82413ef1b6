//! The default runtime: capabilities, metric definitions, environment
//! construction, batch resource-limit enforcement and secure results.
use std::collections::HashMap;
use vstd::prelude::*;
use vstd::string::*;

use crate::security::{SecurityConfig, SecurityValidator};
use crate::text::{decimal, push_decimal};
use crate::types::{
    EnvironmentState, ExecutionResult, MetricType, RuntimeCapabilities, RuntimeEnvironment,
    RuntimeMetricDefinition, RuntimeType, SecureExecutionContext, SecuritySeverity,
    SecurityViolation, SecurityViolationType,
};

verus! {

/// The limits that the measurements breach under `c`, in checking order:
/// gas, memory, call depth, external calls.
pub open spec fn breached_limits(
    c: SecurityConfig,
    gas_used: u64,
    memory_used: u64,
    call_depth: u32,
    external_calls: u32,
) -> Seq<SecurityViolationType> {
    (if c.gas_limit_enforcement && gas_used > c.max_gas_limit {
        seq![SecurityViolationType::GasLimitExceeded]
    } else {
        Seq::empty()
    }) + (if c.memory_limit_enforcement && memory_used > c.max_memory_bytes {
        seq![SecurityViolationType::MemoryLimitExceeded]
    } else {
        Seq::empty()
    }) + (if call_depth > c.max_call_depth {
        seq![SecurityViolationType::CallDepthExceeded]
    } else {
        Seq::empty()
    }) + (if external_calls > c.max_external_calls {
        seq![SecurityViolationType::ExternalCallLimitExceeded]
    } else {
        Seq::empty()
    })
}

/// How many of the four resource checks fail for the measurements under `c`.
pub open spec fn failing_checks(
    c: SecurityConfig,
    gas_used: u64,
    memory_used: u64,
    call_depth: u32,
    external_calls: u32,
) -> nat {
    (if c.gas_limit_enforcement && gas_used > c.max_gas_limit {
        1nat
    } else {
        0nat
    }) + (if c.memory_limit_enforcement && memory_used > c.max_memory_bytes {
        1nat
    } else {
        0nat
    }) + (if call_depth > c.max_call_depth {
        1nat
    } else {
        0nat
    }) + (if external_calls > c.max_external_calls {
        1nat
    } else {
        0nat
    })
}

/// The identifier of an environment created at `millis` milliseconds since
/// the Unix epoch.
pub open spec fn environment_id_text(millis: u64) -> Seq<char> {
    "env_"@ + decimal(millis as nat)
}

/// A runtime with a fixed blockchain identifier and capability set.
pub struct DefaultBlockchainRuntime {
    blockchain_id: String,
    capabilities: RuntimeCapabilities,
}

impl DefaultBlockchainRuntime {
    /// The runtime's blockchain identifier.
    pub closed spec fn id(&self) -> Seq<char> {
        self.blockchain_id@
    }

    /// The runtime's capabilities.
    pub closed spec fn caps(&self) -> RuntimeCapabilities {
        self.capabilities
    }

    /// A runtime for `blockchain_id` with the default capabilities.
    pub fn new(blockchain_id: String) -> (r: DefaultBlockchainRuntime)
        ensures
            r.id() == blockchain_id@,
            r.caps() == RuntimeCapabilities::spec_default(),
    {
        DefaultBlockchainRuntime { blockchain_id, capabilities: RuntimeCapabilities::default() }
    }

    /// A runtime for `blockchain_id` with the given capabilities.
    pub fn with_capabilities(blockchain_id: String, capabilities: RuntimeCapabilities) -> (r: DefaultBlockchainRuntime)
        ensures
            r.id() == blockchain_id@,
            r.caps() == capabilities,
    {
        DefaultBlockchainRuntime { blockchain_id, capabilities }
    }

    /// The blockchain identifier.
    pub fn blockchain_id(&self) -> (r: &str)
        ensures
            r@ == self.id(),
    {
        self.blockchain_id.as_str()
    }

    /// The capability set.
    pub fn capabilities(&self) -> (r: RuntimeCapabilities)
        ensures
            r == self.caps(),
    {
        self.capabilities
    }

    /// The metrics the runtime reports: gas used, then execution time.
    pub fn metrics_definition(&self) -> (r: Vec<RuntimeMetricDefinition>)
        ensures
            r@.len() == 2,
            r@[0].name@ == "gas_used"@,
            r@[0].unit@ == "gas"@,
            r@[0].metric_type is Gas,
            r@[1].name@ == "execution_time"@,
            r@[1].unit@ == "ms"@,
            r@[1].metric_type is Time,
    {
        let mut r: Vec<RuntimeMetricDefinition> = Vec::new();
        r.push(
            RuntimeMetricDefinition {
                name: String::from_str("gas_used"),
                description: String::from_str("Gas consumed during execution"),
                unit: String::from_str("gas"),
                metric_type: MetricType::Gas,
            },
        );
        r.push(
            RuntimeMetricDefinition {
                name: String::from_str("execution_time"),
                description: String::from_str("Time taken to execute"),
                unit: String::from_str("ms"),
                metric_type: MetricType::Time,
            },
        );
        r
    }

    /// The environment this runtime provides when created at `created_millis`
    /// milliseconds since the Unix epoch: a ready local process at
    /// http://localhost:8545 with no metadata.
    pub fn create_environment(&self, created_millis: u64) -> (r: RuntimeEnvironment)
        ensures
            r.environment_id@ == environment_id_text(created_millis),
            r.blockchain_id@ == self.id(),
            r.runtime_type == RuntimeType::LocalProcess,
            r.endpoint_url@ == "http://localhost:8545"@,
            r.state == EnvironmentState::Ready,
            r.metadata@ == Map::<String, serde_json::Value>::empty(),
    {
        let mut environment_id = String::from_str("env_");
        push_decimal(&mut environment_id, created_millis);
        RuntimeEnvironment {
            environment_id,
            blockchain_id: self.blockchain_id.clone(),
            runtime_type: RuntimeType::LocalProcess,
            endpoint_url: String::from_str("http://localhost:8545"),
            state: EnvironmentState::Ready,
            metadata: HashMap::new(),
        }
    }

    /// The result of a plain execution with a fresh security context attached.
    pub fn execute_secure(&self, result: ExecutionResult) -> (r: ExecutionResult)
        ensures
            r.security_context.is_fresh(),
            r.security_violations@.len() == 0,
            r.execution_id == result.execution_id,
            r.success == result.success,
            r.return_value == result.return_value,
            r.error == result.error,
            r.execution_time_ms == result.execution_time_ms,
    {
        result.with_security_context(SecureExecutionContext::default())
    }

    /// Runs the gas, memory, call-depth and external-call checks of
    /// `security_config` on the measurements and returns every violation
    /// found, in that order.
    pub fn enforce_resource_limits(
        &self,
        gas_used: u64,
        memory_used: u64,
        call_depth: u32,
        external_calls: u32,
        security_config: &SecurityConfig,
    ) -> (r: Vec<SecurityViolation>)
        ensures
            r@.len() == failing_checks(
                *security_config,
                gas_used,
                memory_used,
                call_depth,
                external_calls,
            ),
            r@.len() == breached_limits(
                *security_config,
                gas_used,
                memory_used,
                call_depth,
                external_calls,
            ).len(),
            forall|i: int|
                0 <= i < r@.len() ==> (#[trigger] r@[i]).violation_type == breached_limits(
                    *security_config,
                    gas_used,
                    memory_used,
                    call_depth,
                    external_calls,
                )[i] && r@[i].severity == SecuritySeverity::High,
    {
        let validator = SecurityValidator::new(*security_config);
        let ghost c = *security_config;
        let mut found: Vec<SecurityViolation> = Vec::new();
        let ghost g = if c.gas_limit_enforcement && gas_used > c.max_gas_limit {
            seq![SecurityViolationType::GasLimitExceeded]
        } else {
            Seq::<SecurityViolationType>::empty()
        };
        let ghost m = if c.memory_limit_enforcement && memory_used > c.max_memory_bytes {
            seq![SecurityViolationType::MemoryLimitExceeded]
        } else {
            Seq::<SecurityViolationType>::empty()
        };
        let ghost d = if call_depth > c.max_call_depth {
            seq![SecurityViolationType::CallDepthExceeded]
        } else {
            Seq::<SecurityViolationType>::empty()
        };
        let ghost e = if external_calls > c.max_external_calls {
            seq![SecurityViolationType::ExternalCallLimitExceeded]
        } else {
            Seq::<SecurityViolationType>::empty()
        };
        if let Err(v) = validator.validate_gas_usage(gas_used) {
            found.push(v);
        }
        assert(found@.map_values(|v: SecurityViolation| v.violation_type) =~= g);
        if let Err(v) = validator.validate_memory_usage(memory_used) {
            found.push(v);
        }
        assert(found@.map_values(|v: SecurityViolation| v.violation_type) =~= g + m);
        if let Err(v) = validator.validate_call_depth(call_depth) {
            found.push(v);
        }
        assert(found@.map_values(|v: SecurityViolation| v.violation_type) =~= g + m + d);
        if let Err(v) = validator.validate_external_calls(external_calls) {
            found.push(v);
        }
        assert(found@.map_values(|v: SecurityViolation| v.violation_type) =~= g + m + d + e);
        assert(breached_limits(c, gas_used, memory_used, call_depth, external_calls) == g + m + d + e);
        assert forall|i: int| 0 <= i < found@.len() implies (#[trigger] found@[i]).violation_type
            == breached_limits(c, gas_used, memory_used, call_depth, external_calls)[i] by {
            assert(found@.map_values(|v: SecurityViolation| v.violation_type)[i] == found@[i].violation_type);
        }
        found
    }
}

} // verus!
