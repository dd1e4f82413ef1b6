//! Core data types: environments, executions, violations and results.
use std::collections::HashMap;
use vstd::prelude::*;

use crate::constants::DEFAULT_MAX_EXECUTION_TIME_SECONDS;

verus! {

/// A JSON value (`serde_json::Value`), carried through unchanged: the
/// library never looks inside one.
#[verifier::external_type_specification]
#[verifier::external_body]
pub struct ExJsonValue(serde_json::Value);

/// Relies on `serde_json::Value`'s derived `Clone`, which copies the value
/// variant by variant.
pub assume_specification[ <serde_json::Value as Clone>::clone ](v: &serde_json::Value) -> (r: serde_json::Value)
    ensures
        r == *v,
;

/// Network mode for a runtime.
#[derive(Debug, Clone, Copy, PartialEq, Eq, Structural)]
pub enum NetworkMode {
    Local,
    Testnet,
    MainnetFork,
}

/// How an environment is provisioned.
#[derive(Debug, Clone, Copy, PartialEq, Eq, Structural)]
pub enum RuntimeType {
    Docker,
    LocalProcess,
    CloudInstance,
    InMemory,
}

/// Lifecycle state of an environment.
#[derive(Debug, Clone, Copy, PartialEq, Eq, Structural)]
pub enum EnvironmentState {
    Creating,
    Ready,
    Running,
    Stopped,
    Error,
}

/// Kind of a runtime metric; `Custom` carries its own name.
#[derive(Debug, Clone)]
pub enum MetricType {
    Gas,
    ComputeUnits,
    StorageBytes,
    Time,
    Custom(String),
}

/// Equality of metric types: same variant, and for `Custom` the same name.
pub open spec fn metric_type_eq(a: MetricType, b: MetricType) -> bool {
    match a {
        MetricType::Gas => b is Gas,
        MetricType::ComputeUnits => b is ComputeUnits,
        MetricType::StorageBytes => b is StorageBytes,
        MetricType::Time => b is Time,
        MetricType::Custom(x) => b matches MetricType::Custom(y) && x@ == y@,
    }
}

impl PartialEq for MetricType {
    fn eq(&self, other: &MetricType) -> (r: bool)
        ensures
            r == metric_type_eq(*self, *other),
    {
        match self {
            MetricType::Gas => match other {
                MetricType::Gas => true,
                _ => false,
            },
            MetricType::ComputeUnits => match other {
                MetricType::ComputeUnits => true,
                _ => false,
            },
            MetricType::StorageBytes => match other {
                MetricType::StorageBytes => true,
                _ => false,
            },
            MetricType::Time => match other {
                MetricType::Time => true,
                _ => false,
            },
            MetricType::Custom(x) => match other {
                MetricType::Custom(y) => crate::text::same_text(x.as_str(), y.as_str()),
                _ => false,
            },
        }
    }
}

impl vstd::std_specs::cmp::PartialEqSpecImpl for MetricType {
    open spec fn obeys_eq_spec() -> bool {
        true
    }

    open spec fn eq_spec(&self, other: &MetricType) -> bool {
        metric_type_eq(*self, *other)
    }
}

/// Kind of a state change.
#[derive(Debug, Clone, Copy, PartialEq, Eq, Structural)]
pub enum StateChangeType {
    Created,
    Updated,
    Deleted,
}

/// The closed set of detectable security problems.
#[derive(Debug, Clone, Copy, PartialEq, Eq, Structural)]
pub enum SecurityViolationType {
    ReentrancyAttack,
    IntegerOverflow,
    AccessControlViolation,
    ResourceLimitExceeded,
    SandboxViolation,
    CallDepthExceeded,
    ExternalCallLimitExceeded,
    GasLimitExceeded,
    MemoryLimitExceeded,
}

/// Severity of a violation, totally ordered `Low < Medium < High < Critical`.
#[derive(Debug, Clone, Copy, PartialEq, Eq, Structural)]
pub enum SecuritySeverity {
    Low,
    Medium,
    High,
    Critical,
}

impl SecuritySeverity {
    /// Position of the severity in the order `Low < Medium < High < Critical`.
    pub open spec fn spec_rank(self) -> u8 {
        match self {
            SecuritySeverity::Low => 0,
            SecuritySeverity::Medium => 1,
            SecuritySeverity::High => 2,
            SecuritySeverity::Critical => 3,
        }
    }

    /// Position of the severity in the order `Low < Medium < High < Critical`.
    #[verifier::when_used_as_spec(spec_rank)]
    pub fn rank(self) -> (r: u8)
        ensures
            r == self.spec_rank(),
    {
        match self {
            SecuritySeverity::Low => 0,
            SecuritySeverity::Medium => 1,
            SecuritySeverity::High => 2,
            SecuritySeverity::Critical => 3,
        }
    }

    /// Whether `self` is at least as severe as `other`.
    pub fn at_least(self, other: SecuritySeverity) -> (r: bool)
        ensures
            r == (self.rank() >= other.rank()),
    {
        self.rank() >= other.rank()
    }
}

/// Definition of a metric that a runtime reports.
#[derive(Debug, Clone)]
pub struct RuntimeMetricDefinition {
    pub name: String,
    pub description: String,
    pub unit: String,
    pub metric_type: MetricType,
}

/// What a runtime backend can do.
#[derive(Debug, Clone, Copy, PartialEq, Eq, Structural)]
pub struct RuntimeCapabilities {
    pub supports_contract_deployment: bool,
    pub supports_function_calls: bool,
    pub supports_state_inspection: bool,
    pub supports_event_monitoring: bool,
    pub supports_gas_estimation: bool,
    pub supports_time_travel: bool,
    pub max_execution_time_seconds: u64,
}

impl RuntimeCapabilities {
    /// The default capabilities: deployment, calls, state inspection and event
    /// monitoring, without gas estimation or time travel.
    pub open spec fn spec_default() -> RuntimeCapabilities {
        RuntimeCapabilities {
            supports_contract_deployment: true,
            supports_function_calls: true,
            supports_state_inspection: true,
            supports_event_monitoring: true,
            supports_gas_estimation: false,
            supports_time_travel: false,
            max_execution_time_seconds: DEFAULT_MAX_EXECUTION_TIME_SECONDS,
        }
    }
}

impl Default for RuntimeCapabilities {
    fn default() -> (r: RuntimeCapabilities)
        ensures
            r == RuntimeCapabilities::spec_default(),
    {
        RuntimeCapabilities {
            supports_contract_deployment: true,
            supports_function_calls: true,
            supports_state_inspection: true,
            supports_event_monitoring: true,
            supports_gas_estimation: false,
            supports_time_travel: false,
            max_execution_time_seconds: DEFAULT_MAX_EXECUTION_TIME_SECONDS,
        }
    }
}

/// A provisioned, addressable instance of an execution backend.
#[derive(Debug, Clone)]
pub struct RuntimeEnvironment {
    pub environment_id: String,
    pub blockchain_id: String,
    pub runtime_type: RuntimeType,
    pub endpoint_url: String,
    pub state: EnvironmentState,
    pub metadata: HashMap<String, serde_json::Value>,
}

/// Inputs of one execution.
#[derive(Debug, Clone)]
pub struct ExecutionInputs {
    pub target_function: String,
    pub parameters: HashMap<String, serde_json::Value>,
    pub context: ExecutionContext,
}

/// Transaction context of one execution.
#[derive(Debug, Clone)]
pub struct ExecutionContext {
    pub sender: Option<String>,
    pub block_number: Option<u64>,
    pub timestamp: Option<u64>,
    pub extra: HashMap<String, serde_json::Value>,
}

/// A state change made by an execution.
#[derive(Debug, Clone)]
pub struct StateChange {
    pub key: String,
    pub old_value: Option<serde_json::Value>,
    pub new_value: serde_json::Value,
    pub change_type: StateChangeType,
}

/// An event emitted during an execution.
#[derive(Debug, Clone)]
pub struct RuntimeEvent {
    pub event_id: String,
    pub event_type: String,
    pub timestamp: u64,
    pub data: HashMap<String, serde_json::Value>,
}

/// Record of one access-control check.
#[derive(Debug, Clone)]
pub struct AccessControlCheck {
    pub function_name: String,
    pub caller: String,
    pub required_role: Option<String>,
    pub has_permission: bool,
    pub check_timestamp: u64,
}

/// A detected breach of policy.
#[derive(Debug, Clone)]
pub struct SecurityViolation {
    pub violation_type: SecurityViolationType,
    pub description: String,
    pub severity: SecuritySeverity,
    /// Unix seconds at detection.
    pub timestamp: u64,
    pub context: HashMap<String, serde_json::Value>,
}

/// `a` and `b` record the same finding.
pub open spec fn same_violation(a: SecurityViolation, b: SecurityViolation) -> bool {
    &&& a.violation_type == b.violation_type
    &&& a.description@ == b.description@
    &&& a.severity == b.severity
    &&& a.timestamp == b.timestamp
    &&& a.context@ == b.context@
}

impl SecurityViolation {
    /// A copy of the violation.
    pub fn duplicate(&self) -> (r: SecurityViolation)
        ensures
            same_violation(r, *self),
    {
        SecurityViolation {
            violation_type: self.violation_type,
            description: self.description.clone(),
            severity: self.severity,
            timestamp: self.timestamp,
            context: self.context.clone(),
        }
    }
}

/// Copies of the violations of `v`, in order.
pub fn duplicate_all(v: &Vec<SecurityViolation>) -> (r: Vec<SecurityViolation>)
    ensures
        r@.len() == v@.len(),
        forall|i: int| 0 <= i < v@.len() ==> same_violation(#[trigger] r@[i], v@[i]),
{
    let mut r: Vec<SecurityViolation> = Vec::new();
    let mut i: usize = 0;
    while i < v.len()
        invariant
            i <= v@.len(),
            r@.len() == i,
            forall|k: int| 0 <= k < i ==> same_violation(#[trigger] r@[k], v@[k]),
        decreases v@.len() - i,
    {
        r.push(v[i].duplicate());
        i = i + 1;
    }
    r
}

/// Number of violations in `s` whose severity is `sev`.
pub open spec fn severity_count(s: Seq<SecurityViolation>, sev: SecuritySeverity) -> nat
    decreases s.len(),
{
    if s.len() == 0 {
        0
    } else {
        severity_count(s.drop_last(), sev) + if s.last().severity == sev {
            1nat
        } else {
            0nat
        }
    }
}

/// Whether some violation in `s` has severity `sev`.
pub open spec fn has_severity(s: Seq<SecurityViolation>, sev: SecuritySeverity) -> bool {
    exists|i: int| 0 <= i < s.len() && #[trigger] s[i].severity == sev
}

/// `m` is the highest severity among the violations of the non-empty `s`.
pub open spec fn is_highest_severity(s: Seq<SecurityViolation>, m: SecuritySeverity) -> bool {
    &&& has_severity(s, m)
    &&& forall|i: int| 0 <= i < s.len() ==> (#[trigger] s[i].severity).rank() <= m.rank()
}

/// Returns the number of violations with each severity, as
/// `(critical, high, medium, low)`.
pub fn count_by_severity(violations: &Vec<SecurityViolation>) -> (r: (usize, usize, usize, usize))
    ensures
        r.0 == severity_count(violations@, SecuritySeverity::Critical),
        r.1 == severity_count(violations@, SecuritySeverity::High),
        r.2 == severity_count(violations@, SecuritySeverity::Medium),
        r.3 == severity_count(violations@, SecuritySeverity::Low),
{
    let mut critical: usize = 0;
    let mut high: usize = 0;
    let mut medium: usize = 0;
    let mut low: usize = 0;
    let mut i: usize = 0;
    while i < violations.len()
        invariant
            i <= violations@.len(),
            critical == severity_count(violations@.take(i as int), SecuritySeverity::Critical),
            high == severity_count(violations@.take(i as int), SecuritySeverity::High),
            medium == severity_count(violations@.take(i as int), SecuritySeverity::Medium),
            low == severity_count(violations@.take(i as int), SecuritySeverity::Low),
            critical + high + medium + low == i,
        decreases violations@.len() - i,
    {
        let ghost prefix = violations@.take(i as int);
        assert(violations@.take(i + 1).drop_last() =~= prefix);
        match violations[i].severity {
            SecuritySeverity::Critical => critical = critical + 1,
            SecuritySeverity::High => high = high + 1,
            SecuritySeverity::Medium => medium = medium + 1,
            SecuritySeverity::Low => low = low + 1,
        }
        i = i + 1;
    }
    assert(violations@.take(i as int) =~= violations@);
    (critical, high, medium, low)
}

/// Whether some violation in the list has the given severity.
pub fn any_with_severity(violations: &Vec<SecurityViolation>, sev: SecuritySeverity) -> (r: bool)
    ensures
        r == has_severity(violations@, sev),
{
    let mut i: usize = 0;
    while i < violations.len()
        invariant
            i <= violations@.len(),
            forall|k: int| 0 <= k < i ==> violations@[k].severity != sev,
        decreases violations@.len() - i,
    {
        if violations[i].severity == sev {
            return true;
        }
        i = i + 1;
    }
    false
}

/// Per-execution record of measurements, call stack and findings.
#[derive(Debug, Clone)]
pub struct SecureExecutionContext {
    pub call_depth: u32,
    pub external_call_count: u32,
    pub gas_used: u64,
    pub memory_used: u64,
    pub call_stack: Vec<String>,
    pub access_control_checks: Vec<AccessControlCheck>,
    pub security_violations: Vec<SecurityViolation>,
}

impl SecureExecutionContext {
    /// All counters zero and all logs empty.
    pub open spec fn is_fresh(&self) -> bool {
        &&& self.call_depth == 0
        &&& self.external_call_count == 0
        &&& self.gas_used == 0
        &&& self.memory_used == 0
        &&& self.call_stack@.len() == 0
        &&& self.access_control_checks@.len() == 0
        &&& self.security_violations@.len() == 0
    }
}

impl Default for SecureExecutionContext {
    fn default() -> (r: SecureExecutionContext)
        ensures
            r.is_fresh(),
    {
        SecureExecutionContext {
            call_depth: 0,
            external_call_count: 0,
            gas_used: 0,
            memory_used: 0,
            call_stack: Vec::new(),
            access_control_checks: Vec::new(),
            security_violations: Vec::new(),
        }
    }
}

/// Outcome of one execution, with its security findings.
#[derive(Debug, Clone)]
pub struct ExecutionResult {
    pub execution_id: String,
    pub success: bool,
    pub return_value: Option<serde_json::Value>,
    pub error: Option<String>,
    pub metrics: HashMap<String, serde_json::Value>,
    pub state_changes: Vec<StateChange>,
    pub events: Vec<RuntimeEvent>,
    pub execution_time_ms: u64,
    /// The security context of the execution.
    pub security_context: SecureExecutionContext,
    /// The security violations detected.
    pub security_violations: Vec<SecurityViolation>,
}

impl ExecutionResult {
    /// A result with the given id and outcome, and nothing else recorded.
    pub fn new(execution_id: String, success: bool) -> (r: ExecutionResult)
        ensures
            r.execution_id == execution_id,
            r.success == success,
            r.return_value.is_none(),
            r.error.is_none(),
            r.metrics@ == Map::<String, serde_json::Value>::empty(),
            r.state_changes@.len() == 0,
            r.events@.len() == 0,
            r.execution_time_ms == 0,
            r.security_context.is_fresh(),
            r.security_violations@.len() == 0,
    {
        ExecutionResult {
            execution_id,
            success,
            return_value: None,
            error: None,
            metrics: HashMap::new(),
            state_changes: Vec::new(),
            events: Vec::new(),
            execution_time_ms: 0,
            security_context: SecureExecutionContext::default(),
            security_violations: Vec::new(),
        }
    }

    /// The result with `context` attached as its security context, and its
    /// top-level violation list replaced by a copy of the context's list.
    pub fn with_security_context(self, context: SecureExecutionContext) -> (r: ExecutionResult)
        ensures
            r.security_context == context,
            r.security_violations@.len() == context.security_violations@.len(),
            forall|i: int|
                0 <= i < context.security_violations@.len() ==> same_violation(
                    #[trigger] r.security_violations@[i],
                    context.security_violations@[i],
                ),
            r.execution_id == self.execution_id,
            r.success == self.success,
            r.return_value == self.return_value,
            r.error == self.error,
            r.metrics == self.metrics,
            r.state_changes == self.state_changes,
            r.events == self.events,
            r.execution_time_ms == self.execution_time_ms,
    {
        let copies = duplicate_all(&context.security_violations);
        let mut r = self;
        r.security_context = context;
        r.security_violations = copies;
        r
    }

    /// Appends a violation to the result's list.
    pub fn add_security_violation(&mut self, violation: SecurityViolation)
        ensures
            final(self).security_violations@ == old(self).security_violations@.push(violation),
            final(self).execution_id == old(self).execution_id,
            final(self).success == old(self).success,
            final(self).security_context == old(self).security_context,
    {
        self.security_violations.push(violation);
    }

    /// Whether any violation was recorded.
    pub fn has_security_violations(&self) -> (r: bool)
        ensures
            r == (self.security_violations@.len() > 0),
    {
        !self.security_violations.is_empty()
    }

    /// The highest severity among the recorded violations, if any.
    pub fn get_highest_severity(&self) -> (r: Option<SecuritySeverity>)
        ensures
            r.is_none() <==> self.security_violations@.len() == 0,
            r matches Some(m) ==> is_highest_severity(self.security_violations@, m),
    {
        let v = &self.security_violations;
        if v.len() == 0 {
            return None;
        }
        let mut best = v[0].severity;
        let mut i: usize = 1;
        while i < v.len()
            invariant
                1 <= i <= v@.len(),
                exists|k: int| 0 <= k < i && #[trigger] v@[k].severity == best,
                forall|k: int| 0 <= k < i ==> (#[trigger] v@[k].severity).rank() <= best.rank(),
            decreases v@.len() - i,
        {
            if v[i].severity.at_least(best) {
                best = v[i].severity;
            }
            i = i + 1;
        }
        Some(best)
    }
}

} // verus!
