//! Security policy, the validator's checks, and the per-execution context.
use std::collections::HashMap;
use vstd::prelude::*;
use vstd::string::*;

use crate::constants::{
    DEFAULT_MAX_CALL_DEPTH, DEFAULT_MAX_EXTERNAL_CALLS, DEFAULT_MAX_GAS_LIMIT,
    DEFAULT_MAX_MEMORY_BYTES,
};
use crate::text::{decimal, ends_with, has_suffix, push_decimal, push_signed_decimal, same_text, signed_decimal};
use crate::types::{
    count_by_severity, any_with_severity, has_severity, severity_count, SecureExecutionContext,
    SecuritySeverity, SecurityViolation, SecurityViolationType,
};

verus! {

/// Which protections are active, and their numeric limits.
#[derive(Debug, Clone, Copy, PartialEq, Eq, Structural)]
pub struct SecurityConfig {
    /// Enable execution sandboxing.
    pub sandbox_enabled: bool,
    /// Enable reentrancy protection.
    pub reentrancy_protection: bool,
    /// Enable integer overflow detection.
    pub overflow_detection: bool,
    /// Enable access control verification.
    pub access_control_verification: bool,
    /// Maximum call depth.
    pub max_call_depth: u32,
    /// Maximum number of external calls per transaction.
    pub max_external_calls: u32,
    /// Enable gas limit enforcement.
    pub gas_limit_enforcement: bool,
    /// Maximum gas limit.
    pub max_gas_limit: u64,
    /// Enable memory limit enforcement.
    pub memory_limit_enforcement: bool,
    /// Maximum memory usage in bytes.
    pub max_memory_bytes: u64,
}

impl SecurityConfig {
    /// Every numeric limit is positive.
    pub open spec fn limits_positive(&self) -> bool {
        &&& self.max_call_depth > 0
        &&& self.max_external_calls > 0
        &&& self.max_gas_limit > 0
        &&& self.max_memory_bytes > 0
    }

    /// The given protection flags with every limit at its default, enforced.
    pub open spec fn spec_new(
        sandbox_enabled: bool,
        reentrancy_protection: bool,
        overflow_detection: bool,
        access_control_verification: bool,
    ) -> SecurityConfig {
        SecurityConfig {
            sandbox_enabled,
            reentrancy_protection,
            overflow_detection,
            access_control_verification,
            max_call_depth: DEFAULT_MAX_CALL_DEPTH,
            max_external_calls: DEFAULT_MAX_EXTERNAL_CALLS,
            gas_limit_enforcement: true,
            max_gas_limit: DEFAULT_MAX_GAS_LIMIT,
            memory_limit_enforcement: true,
            max_memory_bytes: DEFAULT_MAX_MEMORY_BYTES,
        }
    }

    /// A configuration with the given protection flags and the default limits.
    pub fn new(
        sandbox_enabled: bool,
        reentrancy_protection: bool,
        overflow_detection: bool,
        access_control_verification: bool,
    ) -> (r: SecurityConfig)
        ensures
            r == SecurityConfig::spec_new(
                sandbox_enabled,
                reentrancy_protection,
                overflow_detection,
                access_control_verification,
            ),
    {
        SecurityConfig {
            sandbox_enabled,
            reentrancy_protection,
            overflow_detection,
            access_control_verification,
            max_call_depth: DEFAULT_MAX_CALL_DEPTH,
            max_external_calls: DEFAULT_MAX_EXTERNAL_CALLS,
            gas_limit_enforcement: true,
            max_gas_limit: DEFAULT_MAX_GAS_LIMIT,
            memory_limit_enforcement: true,
            max_memory_bytes: DEFAULT_MAX_MEMORY_BYTES,
        }
    }

    /// Every protection off; gas and memory unbounded.
    pub open spec fn spec_permissive() -> SecurityConfig {
        SecurityConfig {
            sandbox_enabled: false,
            reentrancy_protection: false,
            overflow_detection: false,
            access_control_verification: false,
            max_call_depth: DEFAULT_MAX_CALL_DEPTH,
            max_external_calls: DEFAULT_MAX_EXTERNAL_CALLS,
            gas_limit_enforcement: false,
            max_gas_limit: u64::MAX,
            memory_limit_enforcement: false,
            max_memory_bytes: u64::MAX,
        }
    }

    /// A permissive configuration: no protection is active.
    pub fn permissive() -> (r: SecurityConfig)
        ensures
            r == SecurityConfig::spec_permissive(),
    {
        SecurityConfig {
            sandbox_enabled: false,
            reentrancy_protection: false,
            overflow_detection: false,
            access_control_verification: false,
            max_call_depth: DEFAULT_MAX_CALL_DEPTH,
            max_external_calls: DEFAULT_MAX_EXTERNAL_CALLS,
            gas_limit_enforcement: false,
            max_gas_limit: u64::MAX,
            memory_limit_enforcement: false,
            max_memory_bytes: u64::MAX,
        }
    }

    /// Every protection on, with tight limits.
    pub open spec fn spec_strict() -> SecurityConfig {
        SecurityConfig {
            sandbox_enabled: true,
            reentrancy_protection: true,
            overflow_detection: true,
            access_control_verification: true,
            max_call_depth: 100,
            max_external_calls: 10,
            gas_limit_enforcement: true,
            max_gas_limit: 1_000_000,
            memory_limit_enforcement: true,
            max_memory_bytes: 10_485_760,
        }
    }

    /// A strict configuration: every protection on, tighter limits
    /// (depth 100, 10 external calls, 1,000,000 gas, 10 MB).
    pub fn strict() -> (r: SecurityConfig)
        ensures
            r == SecurityConfig::spec_strict(),
    {
        SecurityConfig {
            sandbox_enabled: true,
            reentrancy_protection: true,
            overflow_detection: true,
            access_control_verification: true,
            max_call_depth: 100,
            max_external_calls: 10,
            gas_limit_enforcement: true,
            max_gas_limit: 1_000_000,
            memory_limit_enforcement: true,
            max_memory_bytes: 10_485_760,
        }
    }
}

impl Default for SecurityConfig {
    fn default() -> (r: SecurityConfig)
        ensures
            r == SecurityConfig::spec_new(true, true, true, true),
    {
        SecurityConfig::new(true, true, true, true)
    }
}

/// `label` followed by `value`, " exceeds maximum " and `max`.
pub open spec fn exceeds_text(label: Seq<char>, value: nat, max: nat) -> Seq<char> {
    label + decimal(value) + " exceeds maximum "@ + decimal(max)
}

/// Text of a reentrancy finding.
pub open spec fn reentrancy_text(function_name: Seq<char>, caller: Seq<char>) -> Seq<char> {
    "Potential reentrancy attack in function "@ + function_name + " called by "@ + caller
}

/// Text of an overflow finding: `prefix`, then the operands joined by `symbol`.
pub open spec fn overflow_text(prefix: Seq<char>, a: i64, symbol: Seq<char>, b: i64) -> Seq<char> {
    prefix + signed_decimal(a as int) + symbol + signed_decimal(b as int)
}

/// Text of an access-control finding.
pub open spec fn access_denied_text(
    caller: Seq<char>,
    role: Seq<char>,
    function_name: Seq<char>,
) -> Seq<char> {
    "Access denied: "@ + caller + " does not have "@ + role + " role for function "@
        + function_name
}

/// The operation names that denote addition.
pub open spec fn is_addition(op: Seq<char>) -> bool {
    op == "add"@ || op == "+"@
}

/// The operation names that denote multiplication.
pub open spec fn is_multiplication(op: Seq<char>) -> bool {
    op == "multiply"@ || op == "*"@
}

/// Whether an integer lies in the signed 64-bit range.
pub open spec fn fits_i64(x: int) -> bool {
    i64::MIN <= x <= i64::MAX
}

/// Whether `op` applied to the first two of `operands` leaves the signed
/// 64-bit range. Operations other than addition and multiplication, and
/// fewer than two operands, never overflow.
pub open spec fn overflows(op: Seq<char>, operands: Seq<i64>) -> bool {
    &&& operands.len() >= 2
    &&& {
        ||| is_addition(op) && !fits_i64(operands[0] + operands[1])
        ||| is_multiplication(op) && !fits_i64(operands[0] * operands[1])
    }
}

/// Number of entries of `stack` equal to `name`.
pub open spec fn occurrences(stack: Seq<String>, name: Seq<char>) -> nat
    decreases stack.len(),
{
    if stack.len() == 0 {
        0
    } else {
        occurrences(stack.drop_last(), name) + if stack.last()@ == name {
            1nat
        } else {
            0nat
        }
    }
}

/// The placeholder authorization rule: the role "admin" is held only by
/// callers whose identifier ends with "admin"; every other role is granted.
pub open spec fn role_granted(caller: Seq<char>, role: Seq<char>) -> bool {
    role == "admin"@ ==> ends_with(caller, "admin"@)
}

/// `v` is a violation of kind `kind` and severity `sev`, described by
/// `text`, with no structured context.
pub open spec fn is_violation(
    v: SecurityViolation,
    kind: SecurityViolationType,
    sev: SecuritySeverity,
    text: Seq<char>,
) -> bool {
    &&& v.violation_type == kind
    &&& v.severity == sev
    &&& v.description@ == text
    &&& v.context@ == Map::<String, serde_json::Value>::empty()
}

/// A point in time (`std::time::SystemTime`), opaque to the library.
#[verifier::external_type_specification]
#[verifier::external_body]
pub struct ExSystemTime(std::time::SystemTime);

/// The error of `SystemTime::duration_since` (`std::time::SystemTimeError`).
#[verifier::external_type_specification]
#[verifier::external_body]
pub struct ExSystemTimeError(std::time::SystemTimeError);

/// Relies on `std::time::SystemTime::now`: reads the system clock. Nothing
/// is stated of the value.
pub assume_specification[ std::time::SystemTime::now ]() -> std::time::SystemTime;

/// Relies on `std::time::SystemTime::duration_since`: the time elapsed since
/// `earlier`, or an error when `earlier` is later. Depends on the clock:
/// nothing is stated of the value.
pub assume_specification[ std::time::SystemTime::duration_since ](
    this: &std::time::SystemTime,
    earlier: std::time::SystemTime,
) -> Result<core::time::Duration, std::time::SystemTimeError>;

/// Relies on `core::time::Duration::as_secs`: the whole seconds of a duration.
pub assume_specification[ core::time::Duration::as_secs ](d: &core::time::Duration) -> u64;

/// Relies on `std::time::UNIX_EPOCH`: the Unix epoch as a point in time.
#[verifier::external_body]
fn unix_epoch() -> std::time::SystemTime {
    std::time::UNIX_EPOCH
}

/// Whole seconds since the Unix epoch by the system clock, or 0 when the
/// clock reads earlier than the epoch.
fn unix_seconds_now() -> u64 {
    match std::time::SystemTime::now().duration_since(unix_epoch()) {
        Ok(elapsed) => elapsed.as_secs(),
        Err(_) => 0,
    }
}

/// Decides whether a runtime measurement breaches the policy.
pub struct SecurityValidator {
    config: SecurityConfig,
}

impl View for SecurityValidator {
    type V = SecurityConfig;

    closed spec fn view(&self) -> SecurityConfig {
        self.config
    }
}

impl SecurityValidator {
    /// A validator for the given policy.
    pub fn new(config: SecurityConfig) -> (r: SecurityValidator)
        ensures
            r@ == config,
    {
        SecurityValidator { config }
    }

    /// Call depth `call_depth` breaches the policy iff it exceeds the
    /// maximum call depth.
    pub fn validate_call_depth(&self, call_depth: u32) -> (r: Result<(), SecurityViolation>)
        ensures
            r.is_err() <==> call_depth > self@.max_call_depth,
            r matches Err(v) ==> is_violation(
                v,
                SecurityViolationType::CallDepthExceeded,
                SecuritySeverity::High,
                exceeds_text("Call depth "@, call_depth as nat, self@.max_call_depth as nat),
            ),
    {
        if call_depth > self.config.max_call_depth {
            let mut text = String::from_str("Call depth ");
            push_exceeds(&mut text, call_depth as u64, self.config.max_call_depth as u64);
            Err(self.create_violation(SecurityViolationType::CallDepthExceeded, text, SecuritySeverity::High))
        } else {
            Ok(())
        }
    }

    /// An external-call count breaches the policy iff it exceeds the maximum.
    pub fn validate_external_calls(&self, call_count: u32) -> (r: Result<(), SecurityViolation>)
        ensures
            r.is_err() <==> call_count > self@.max_external_calls,
            r matches Err(v) ==> is_violation(
                v,
                SecurityViolationType::ExternalCallLimitExceeded,
                SecuritySeverity::High,
                exceeds_text(
                    "External call count "@,
                    call_count as nat,
                    self@.max_external_calls as nat,
                ),
            ),
    {
        if call_count > self.config.max_external_calls {
            let mut text = String::from_str("External call count ");
            push_exceeds(&mut text, call_count as u64, self.config.max_external_calls as u64);
            Err(self.create_violation(SecurityViolationType::ExternalCallLimitExceeded, text, SecuritySeverity::High))
        } else {
            Ok(())
        }
    }

    /// Gas usage breaches the policy iff gas enforcement is on and it
    /// exceeds the maximum gas limit.
    pub fn validate_gas_usage(&self, gas_used: u64) -> (r: Result<(), SecurityViolation>)
        ensures
            r.is_err() <==> self@.gas_limit_enforcement && gas_used > self@.max_gas_limit,
            r matches Err(v) ==> is_violation(
                v,
                SecurityViolationType::GasLimitExceeded,
                SecuritySeverity::High,
                exceeds_text("Gas usage "@, gas_used as nat, self@.max_gas_limit as nat),
            ),
    {
        if self.config.gas_limit_enforcement && gas_used > self.config.max_gas_limit {
            let mut text = String::from_str("Gas usage ");
            push_exceeds(&mut text, gas_used, self.config.max_gas_limit);
            Err(self.create_violation(SecurityViolationType::GasLimitExceeded, text, SecuritySeverity::High))
        } else {
            Ok(())
        }
    }

    /// Memory usage breaches the policy iff memory enforcement is on and it
    /// exceeds the maximum memory bytes.
    pub fn validate_memory_usage(&self, memory_used: u64) -> (r: Result<(), SecurityViolation>)
        ensures
            r.is_err() <==> self@.memory_limit_enforcement && memory_used > self@.max_memory_bytes,
            r matches Err(v) ==> is_violation(
                v,
                SecurityViolationType::MemoryLimitExceeded,
                SecuritySeverity::High,
                exceeds_text("Memory usage "@, memory_used as nat, self@.max_memory_bytes as nat),
            ),
    {
        if self.config.memory_limit_enforcement && memory_used > self.config.max_memory_bytes {
            let mut text = String::from_str("Memory usage ");
            push_exceeds(&mut text, memory_used, self.config.max_memory_bytes);
            Err(self.create_violation(SecurityViolationType::MemoryLimitExceeded, text, SecuritySeverity::High))
        } else {
            Ok(())
        }
    }

    /// With reentrancy protection on, entering `function_name` is a
    /// reentrancy attack iff the name occurs more than once in `call_stack`
    /// (which holds the current entry): the function was already active.
    /// With protection off it never is.
    pub fn check_reentrancy(&self, function_name: &str, caller: &str, call_stack: &[String]) -> (r: Result<bool, SecurityViolation>)
        ensures
            r.is_err() <==> self@.reentrancy_protection && occurrences(call_stack@, function_name@) > 1,
            r matches Ok(b) ==> !b,
            r matches Err(v) ==> is_violation(
                v,
                SecurityViolationType::ReentrancyAttack,
                SecuritySeverity::Critical,
                reentrancy_text(function_name@, caller@),
            ),
    {
        if !self.config.reentrancy_protection {
            return Ok(false);
        }
        let mut count: usize = 0;
        let mut i: usize = 0;
        while i < call_stack.len()
            invariant
                i <= call_stack@.len(),
                count == occurrences(call_stack@.take(i as int), function_name@),
                count <= i,
            decreases call_stack@.len() - i,
        {
            assert(call_stack@.take(i + 1).drop_last() =~= call_stack@.take(i as int));
            if same_text(call_stack[i].as_str(), function_name) {
                count = count + 1;
            }
            i = i + 1;
        }
        assert(call_stack@.take(i as int) =~= call_stack@);
        if count > 1 {
            let mut text = String::from_str("Potential reentrancy attack in function ");
            text.append(function_name);
            text.append(" called by ");
            text.append(caller);
            Err(self.create_violation(SecurityViolationType::ReentrancyAttack, text, SecuritySeverity::Critical))
        } else {
            Ok(false)
        }
    }

    /// With overflow detection on, reports an integer overflow iff the
    /// operation is addition ("add" or "+") or multiplication ("multiply" or
    /// "*") and its result on the first two operands leaves the signed
    /// 64-bit range. Other operations are not checked.
    pub fn detect_overflow(&self, operation: &str, operands: &[i64]) -> (r: Result<bool, SecurityViolation>)
        ensures
            r.is_err() <==> self@.overflow_detection && overflows(operation@, operands@),
            r matches Ok(b) ==> !b,
            r matches Err(v) ==> v.violation_type == SecurityViolationType::IntegerOverflow
                && v.severity == SecuritySeverity::High
                && v.context@ == Map::<String, serde_json::Value>::empty()
                && v.description@ == if is_addition(operation@) {
                    overflow_text("Integer overflow detected in addition: "@, operands@[0], " + "@, operands@[1])
                } else {
                    overflow_text("Integer overflow detected in multiplication: "@, operands@[0], " * "@, operands@[1])
                },
    {
        if !self.config.overflow_detection {
            return Ok(false);
        }
        let is_add = same_text(operation, "add") || same_text(operation, "+");
        let is_mul = same_text(operation, "multiply") || same_text(operation, "*");
        proof {
            reveal_strlit("add");
            reveal_strlit("+");
            reveal_strlit("multiply");
            reveal_strlit("*");
        }
        assert(!(is_addition(operation@) && is_multiplication(operation@))) by {
            assert("add"@.len() == 3);
            assert("multiply"@.len() == 8);
            assert("+"@[0] == '+');
            assert("*"@[0] == '*');
        }
        if operands.len() < 2 {
            return Ok(false);
        }
        let a = operands[0];
        let b = operands[1];
        if is_add {
            if a.checked_add(b).is_none() {
                let mut text = String::from_str("Integer overflow detected in addition: ");
                push_signed_decimal(&mut text, a);
                text.append(" + ");
                push_signed_decimal(&mut text, b);
                return Err(self.create_violation(SecurityViolationType::IntegerOverflow, text, SecuritySeverity::High));
            }
        } else if is_mul {
            if a.checked_mul(b).is_none() {
                let mut text = String::from_str("Integer overflow detected in multiplication: ");
                push_signed_decimal(&mut text, a);
                text.append(" * ");
                push_signed_decimal(&mut text, b);
                return Err(self.create_violation(SecurityViolationType::IntegerOverflow, text, SecuritySeverity::High));
            }
        }
        Ok(false)
    }

    /// With access-control verification on and a role required, the call is
    /// denied iff the placeholder rule does not grant the role (see
    /// `role_granted`). Otherwise it is permitted.
    pub fn verify_access_control(&self, function_name: &str, caller: &str, required_role: Option<&str>) -> (r: Result<bool, SecurityViolation>)
        ensures
            r.is_err() <==> self@.access_control_verification && (required_role matches Some(role)
                && !role_granted(caller@, role@)),
            r matches Ok(b) ==> b,
            r matches Err(v) ==> required_role matches Some(role) && is_violation(
                v,
                SecurityViolationType::AccessControlViolation,
                SecuritySeverity::Medium,
                access_denied_text(caller@, role@, function_name@),
            ),
    {
        if !self.config.access_control_verification {
            return Ok(true);
        }
        if let Some(role) = required_role {
            if same_text(role, "admin") && !has_suffix(caller, "admin") {
                let mut text = String::from_str("Access denied: ");
                text.append(caller);
                text.append(" does not have ");
                text.append(role);
                text.append(" role for function ");
                text.append(function_name);
                return Err(self.create_violation(SecurityViolationType::AccessControlViolation, text, SecuritySeverity::Medium));
            }
        }
        Ok(true)
    }

    /// A violation stamped with the current time and no structured context.
    fn create_violation(&self, violation_type: SecurityViolationType, description: String, severity: SecuritySeverity) -> (r: SecurityViolation)
        ensures
            is_violation(r, violation_type, severity, description@),
    {
        let timestamp = unix_seconds_now();
        SecurityViolation {
            violation_type,
            description,
            severity,
            timestamp,
            context: HashMap::new(),
        }
    }
}

/// Appends `value`, " exceeds maximum " and `max` to `text`.
fn push_exceeds(text: &mut String, value: u64, max: u64)
    ensures
        final(text)@ == old(text)@ + decimal(value as nat) + " exceeds maximum "@ + decimal(max as nat),
{
    push_decimal(text, value);
    text.append(" exceeds maximum ");
    push_decimal(text, max);
}

/// Tracks the violations found during one execution, under one policy.
pub struct SecurityContext {
    validator: SecurityValidator,
    violations: Vec<SecurityViolation>,
}

impl SecurityContext {
    /// The policy the context checks against.
    pub closed spec fn policy(&self) -> SecurityConfig {
        self.validator@
    }

    /// The violations recorded so far, oldest first.
    pub closed spec fn recorded(&self) -> Seq<SecurityViolation> {
        self.violations@
    }

    /// A context with no violations recorded.
    pub fn new(config: SecurityConfig) -> (r: SecurityContext)
        ensures
            r.policy() == config,
            r.recorded().len() == 0,
    {
        SecurityContext { validator: SecurityValidator::new(config), violations: Vec::new() }
    }

    /// The validator for the context's policy.
    pub fn validator(&self) -> (r: &SecurityValidator)
        ensures
            r@ == self.policy(),
    {
        &self.validator
    }

    /// Appends a violation.
    pub fn add_violation(&mut self, violation: SecurityViolation)
        ensures
            final(self).recorded() == old(self).recorded().push(violation),
            final(self).policy() == old(self).policy(),
    {
        self.violations.push(violation);
    }

    /// The violations recorded so far, oldest first.
    pub fn violations(&self) -> (r: &[SecurityViolation])
        ensures
            r@ == self.recorded(),
    {
        self.violations.as_slice()
    }

    /// Forgets every recorded violation.
    pub fn clear_violations(&mut self)
        ensures
            final(self).recorded().len() == 0,
            final(self).policy() == old(self).policy(),
    {
        self.violations.clear();
    }

    /// Whether some recorded violation is critical.
    pub fn has_critical_violations(&self) -> (r: bool)
        ensures
            r == has_severity(self.recorded(), SecuritySeverity::Critical),
    {
        any_with_severity(&self.violations, SecuritySeverity::Critical)
    }

    /// Number of recorded violations of each severity, as
    /// `(critical, high, medium, low)`.
    pub fn violation_count_by_severity(&self) -> (r: (usize, usize, usize, usize))
        ensures
            r.0 == severity_count(self.recorded(), SecuritySeverity::Critical),
            r.1 == severity_count(self.recorded(), SecuritySeverity::High),
            r.2 == severity_count(self.recorded(), SecuritySeverity::Medium),
            r.3 == severity_count(self.recorded(), SecuritySeverity::Low),
    {
        count_by_severity(&self.violations)
    }
}

/// The kinds of the violations that entering a function finds: call depth
/// first, then reentrancy.
pub open spec fn entry_findings(
    c: SecurityConfig,
    depth: int,
    stack: Seq<String>,
    name: Seq<char>,
) -> Seq<SecurityViolationType> {
    (if depth > c.max_call_depth {
        seq![SecurityViolationType::CallDepthExceeded]
    } else {
        Seq::empty()
    }) + (if c.reentrancy_protection && occurrences(stack, name) > 1 {
        seq![SecurityViolationType::ReentrancyAttack]
    } else {
        Seq::empty()
    })
}

/// The kinds of the violations in `s`, in order.
pub open spec fn kinds(s: Seq<SecurityViolation>) -> Seq<SecurityViolationType> {
    s.map_values(|v: SecurityViolation| v.violation_type)
}

impl SecureExecutionContext {
    /// Records entry into `function_name` from `caller`: pushes it on the
    /// call stack, increments the call depth, then runs the call-depth and
    /// reentrancy checks of `validator` and appends what they find.
    pub fn enter_function(&mut self, validator: &SecurityValidator, function_name: String, caller: &str)
        requires
            old(self).call_depth < u32::MAX,
        ensures
            final(self).call_stack@ == old(self).call_stack@.push(function_name),
            final(self).call_depth == old(self).call_depth + 1,
            final(self).external_call_count == old(self).external_call_count,
            final(self).gas_used == old(self).gas_used,
            final(self).memory_used == old(self).memory_used,
            final(self).security_violations@.take(old(self).security_violations@.len() as int)
                == old(self).security_violations@,
            kinds(final(self).security_violations@) == kinds(old(self).security_violations@)
                + entry_findings(
                validator@,
                old(self).call_depth + 1,
                final(self).call_stack@,
                function_name@,
            ),
    {
        let ghost before = self.security_violations@;
        self.call_depth = self.call_depth + 1;
        self.call_stack.push(function_name);
        let ghost stack = self.call_stack@;
        let ghost name = self.call_stack@.last()@;
        if let Err(v) = validator.validate_call_depth(self.call_depth) {
            self.security_violations.push(v);
        }
        let ghost mid = self.security_violations@;
        let last: usize = self.call_stack.len() - 1;
        if let Err(v) = validator.check_reentrancy(self.call_stack[last].as_str(), caller, self.call_stack.as_slice()) {
            self.security_violations.push(v);
        }
        assert(self.security_violations@.take(before.len() as int) =~= before);
        assert(kinds(self.security_violations@) =~= kinds(before) + entry_findings(
            validator@,
            self.call_depth as int,
            stack,
            name,
        ));
    }

    /// Records return from the innermost function: pops the call stack and
    /// decrements the call depth, if any function is active.
    pub fn exit_function(&mut self) -> (r: Option<String>)
        ensures
            old(self).call_stack@.len() == 0 ==> r.is_none() && final(self).call_stack@ == old(
                self,
            ).call_stack@,
            old(self).call_stack@.len() > 0 ==> r == Some(old(self).call_stack@.last())
                && final(self).call_stack@ == old(self).call_stack@.drop_last(),
            final(self).call_depth == if old(self).call_depth > 0 {
                old(self).call_depth - 1
            } else {
                0
            },
            final(self).security_violations@ == old(self).security_violations@,
            final(self).external_call_count == old(self).external_call_count,
    {
        if self.call_depth > 0 {
            self.call_depth = self.call_depth - 1;
        }
        self.call_stack.pop()
    }

    /// Records one external call, then runs the external-call check of
    /// `validator` on the new count and appends what it finds.
    pub fn record_external_call(&mut self, validator: &SecurityValidator)
        requires
            old(self).external_call_count < u32::MAX,
        ensures
            final(self).external_call_count == old(self).external_call_count + 1,
            final(self).call_depth == old(self).call_depth,
            final(self).call_stack@ == old(self).call_stack@,
            final(self).security_violations@.take(old(self).security_violations@.len() as int)
                == old(self).security_violations@,
            kinds(final(self).security_violations@) == kinds(old(self).security_violations@)
                + if final(self).external_call_count > validator@.max_external_calls {
                seq![SecurityViolationType::ExternalCallLimitExceeded]
            } else {
                Seq::empty()
            },
    {
        let ghost before = self.security_violations@;
        self.external_call_count = self.external_call_count + 1;
        if let Err(v) = validator.validate_external_calls(self.external_call_count) {
            self.security_violations.push(v);
        }
        assert(self.security_violations@.take(before.len() as int) =~= before);
        assert(kinds(self.security_violations@) =~= kinds(before) + if self.external_call_count
            > validator@.max_external_calls {
            seq![SecurityViolationType::ExternalCallLimitExceeded]
        } else {
            Seq::empty()
        });
    }
}

/// A name occurs in a stack iff some entry of the stack equals it.
pub proof fn lemma_occurs_iff_present(stack: Seq<String>, name: Seq<char>)
    ensures
        occurrences(stack, name) > 0 <==> exists|i: int| 0 <= i < stack.len() && #[trigger] stack[i]@ == name,
    decreases stack.len(),
{
    if stack.len() > 0 {
        let rest = stack.drop_last();
        lemma_occurs_iff_present(rest, name);
        if occurrences(rest, name) > 0 {
            let i = choose|i: int| 0 <= i < rest.len() && #[trigger] rest[i]@ == name;
            assert(stack[i]@ == name);
        }
        if exists|i: int| 0 <= i < stack.len() && #[trigger] stack[i]@ == name {
            let i = choose|i: int| 0 <= i < stack.len() && #[trigger] stack[i]@ == name;
            if i < rest.len() {
                assert(rest[i]@ == name);
            }
        }
    }
}

/// Entering `function_name` with `stack` as the call stack before the entry
/// is flagged as reentrancy (the name occurs more than once after the push)
/// iff the function already occurs in `stack`.
pub proof fn lemma_reentry_iff_already_active(stack: Seq<String>, function_name: String)
    ensures
        occurrences(stack.push(function_name), function_name@) > 1 <==> exists|i: int|
            0 <= i < stack.len() && #[trigger] stack[i]@ == function_name@,
{
    assert(stack.push(function_name).drop_last() =~= stack);
    lemma_occurs_iff_present(stack, function_name@);
}

/// The four per-severity counts of any sequence of violations add up to its
/// length: every violation is counted exactly once.
pub proof fn lemma_severity_counts_sum(s: Seq<SecurityViolation>)
    ensures
        severity_count(s, SecuritySeverity::Critical) + severity_count(s, SecuritySeverity::High)
            + severity_count(s, SecuritySeverity::Medium) + severity_count(s, SecuritySeverity::Low)
            == s.len(),
    decreases s.len(),
{
    if s.len() > 0 {
        lemma_severity_counts_sum(s.drop_last());
    }
}

} // verus!
