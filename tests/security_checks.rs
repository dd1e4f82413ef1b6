use blockchain_runtime::{
    DefaultBlockchainRuntime, ExecutionResult, SecureExecutionContext, SecurityConfig,
    SecurityContext, SecuritySeverity,
    SecurityValidator, SecurityViolation, SecurityViolationType,
};
use std::collections::HashMap;

fn with_depth(max_call_depth: u32) -> SecurityConfig {
    let mut c = SecurityConfig::default();
    c.max_call_depth = max_call_depth;
    c
}

fn violation(severity: SecuritySeverity) -> SecurityViolation {
    SecurityViolation {
        violation_type: SecurityViolationType::SandboxViolation,
        description: "x".to_string(),
        severity,
        timestamp: 0,
        context: HashMap::new(),
    }
}

#[test]
fn call_depth_sequence_violates_only_past_the_limit() {
    let v = SecurityValidator::new(with_depth(3));
    assert!(v.validate_call_depth(1).is_ok());
    assert!(v.validate_call_depth(2).is_ok());
    assert!(v.validate_call_depth(3).is_ok());
    let e = v.validate_call_depth(4).unwrap_err();
    assert_eq!(e.violation_type, SecurityViolationType::CallDepthExceeded);
    assert_eq!(e.severity, SecuritySeverity::High);
    assert_eq!(e.description, "Call depth 4 exceeds maximum 3");
    assert!(e.context.is_empty());
}

#[test]
fn call_depth_at_largest_values() {
    let v = SecurityValidator::new(with_depth(u32::MAX));
    assert!(v.validate_call_depth(u32::MAX).is_ok());
    let v = SecurityValidator::new(with_depth(0));
    assert!(v.validate_call_depth(0).is_ok());
    assert!(v.validate_call_depth(1).is_err());
}

#[test]
fn external_calls_limit() {
    let v = SecurityValidator::new(SecurityConfig::strict());
    assert!(v.validate_external_calls(10).is_ok());
    let e = v.validate_external_calls(11).unwrap_err();
    assert_eq!(e.violation_type, SecurityViolationType::ExternalCallLimitExceeded);
    assert_eq!(e.severity, SecuritySeverity::High);
    assert_eq!(e.description, "External call count 11 exceeds maximum 10");
}

#[test]
fn gas_presets_against_the_same_usage() {
    let strict = SecurityValidator::new(SecurityConfig::strict());
    assert!(strict.validate_gas_usage(500_000).is_ok());
    let permissive = SecurityValidator::new(SecurityConfig::permissive());
    assert!(permissive.validate_gas_usage(500_000).is_ok());
    let mut custom = SecurityConfig::default();
    custom.max_gas_limit = 100_000;
    let e = SecurityValidator::new(custom).validate_gas_usage(500_000).unwrap_err();
    assert_eq!(e.violation_type, SecurityViolationType::GasLimitExceeded);
    assert_eq!(e.severity, SecuritySeverity::High);
    assert_eq!(e.description, "Gas usage 500000 exceeds maximum 100000");
}

#[test]
fn gas_check_is_inactive_without_enforcement() {
    let mut c = SecurityConfig::default();
    c.max_gas_limit = 1;
    c.gas_limit_enforcement = false;
    assert!(SecurityValidator::new(c).validate_gas_usage(u64::MAX).is_ok());
}

#[test]
fn memory_limit() {
    let v = SecurityValidator::new(SecurityConfig::strict());
    assert!(v.validate_memory_usage(10 * 1024 * 1024).is_ok());
    let e = v.validate_memory_usage(10 * 1024 * 1024 + 1).unwrap_err();
    assert_eq!(e.violation_type, SecurityViolationType::MemoryLimitExceeded);
    assert_eq!(e.description, "Memory usage 10485761 exceeds maximum 10485760");
    let mut c = SecurityConfig::strict();
    c.memory_limit_enforcement = false;
    assert!(SecurityValidator::new(c).validate_memory_usage(u64::MAX).is_ok());
}

#[test]
fn reentrancy_on_repeated_stack_entry() {
    let stack = vec!["a".to_string(), "b".to_string(), "a".to_string()];
    let on = SecurityValidator::new(SecurityConfig::default());
    let e = on.check_reentrancy("a", "user", &stack).unwrap_err();
    assert_eq!(e.violation_type, SecurityViolationType::ReentrancyAttack);
    assert_eq!(e.severity, SecuritySeverity::Critical);
    assert_eq!(e.description, "Potential reentrancy attack in function a called by user");
    assert_eq!(on.check_reentrancy("b", "user", &stack).unwrap(), false);
    assert_eq!(on.check_reentrancy("c", "user", &[]).unwrap(), false);
    let off = SecurityValidator::new(SecurityConfig::new(true, false, true, true));
    assert_eq!(off.check_reentrancy("a", "user", &stack).unwrap(), false);
}

#[test]
fn overflow_on_addition() {
    let v = SecurityValidator::new(SecurityConfig::default());
    let e = v.detect_overflow("add", &[i64::MAX, 1]).unwrap_err();
    assert_eq!(e.violation_type, SecurityViolationType::IntegerOverflow);
    assert_eq!(e.severity, SecuritySeverity::High);
    assert_eq!(e.description, "Integer overflow detected in addition: 9223372036854775807 + 1");
    assert_eq!(v.detect_overflow("add", &[10, 20]).unwrap(), false);
    let e = v.detect_overflow("+", &[i64::MIN, -1]).unwrap_err();
    assert_eq!(e.description, "Integer overflow detected in addition: -9223372036854775808 + -1");
}

#[test]
fn overflow_on_multiplication() {
    let v = SecurityValidator::new(SecurityConfig::default());
    let e = v.detect_overflow("multiply", &[i64::MAX, 2]).unwrap_err();
    assert_eq!(e.description, "Integer overflow detected in multiplication: 9223372036854775807 * 2");
    assert!(v.detect_overflow("*", &[i64::MIN, -1]).is_err());
    assert_eq!(v.detect_overflow("*", &[3_000_000_000, 3]).unwrap(), false);
}

#[test]
fn overflow_not_checked_elsewhere() {
    let v = SecurityValidator::new(SecurityConfig::default());
    assert_eq!(v.detect_overflow("sub", &[i64::MIN, i64::MAX]).unwrap(), false);
    assert_eq!(v.detect_overflow("add", &[i64::MAX]).unwrap(), false);
    assert_eq!(v.detect_overflow("add", &[]).unwrap(), false);
    let off = SecurityValidator::new(SecurityConfig::permissive());
    assert_eq!(off.detect_overflow("add", &[i64::MAX, 1]).unwrap(), false);
}

#[test]
fn access_control_for_admin_role() {
    let v = SecurityValidator::new(SecurityConfig::default());
    assert!(v.verify_access_control("withdraw", "root_admin", Some("admin")).unwrap());
    let e = v.verify_access_control("withdraw", "alice", Some("admin")).unwrap_err();
    assert_eq!(e.violation_type, SecurityViolationType::AccessControlViolation);
    assert_eq!(e.severity, SecuritySeverity::Medium);
    assert_eq!(e.description, "Access denied: alice does not have admin role for function withdraw");
    assert!(v.verify_access_control("withdraw", "alice", Some("user")).unwrap());
    assert!(v.verify_access_control("withdraw", "alice", None).unwrap());
    let off = SecurityValidator::new(SecurityConfig::permissive());
    assert!(off.verify_access_control("withdraw", "alice", Some("admin")).unwrap());
}

#[test]
fn resource_limits_report_every_breach() {
    let rt = DefaultBlockchainRuntime::new("ethereum".to_string());
    let strict = SecurityConfig::strict();
    let all = rt.enforce_resource_limits(2_000_000, 20 * 1024 * 1024, 101, 11, &strict);
    let kinds: Vec<SecurityViolationType> = all.iter().map(|v| v.violation_type).collect();
    assert_eq!(
        kinds,
        vec![
            SecurityViolationType::GasLimitExceeded,
            SecurityViolationType::MemoryLimitExceeded,
            SecurityViolationType::CallDepthExceeded,
            SecurityViolationType::ExternalCallLimitExceeded,
        ]
    );
    assert!(rt.enforce_resource_limits(500_000, 1024, 100, 10, &strict).is_empty());
    let two = rt.enforce_resource_limits(500_000, 1024, 101, 11, &strict);
    assert_eq!(two.len(), 2);
    assert_eq!(two[0].violation_type, SecurityViolationType::CallDepthExceeded);
    let none = rt.enforce_resource_limits(u64::MAX, u64::MAX, 5, 5, &SecurityConfig::permissive());
    assert!(none.is_empty());
}

#[test]
fn severity_counts_add_up() {
    let mut ctx = SecurityContext::new(SecurityConfig::default());
    assert_eq!(ctx.violation_count_by_severity(), (0, 0, 0, 0));
    assert!(!ctx.has_critical_violations());
    ctx.add_violation(violation(SecuritySeverity::High));
    ctx.add_violation(violation(SecuritySeverity::Low));
    ctx.add_violation(violation(SecuritySeverity::High));
    ctx.add_violation(violation(SecuritySeverity::Medium));
    assert!(!ctx.has_critical_violations());
    ctx.add_violation(violation(SecuritySeverity::Critical));
    let (c, h, m, l) = ctx.violation_count_by_severity();
    assert_eq!((c, h, m, l), (1, 2, 1, 1));
    assert_eq!(c + h + m + l, ctx.violations().len());
    assert!(ctx.has_critical_violations());
    ctx.clear_violations();
    assert!(ctx.violations().is_empty());
    assert_eq!(ctx.validator().validate_call_depth(1025).is_err(), true);
}

#[test]
fn highest_severity_of_a_result() {
    let mut r = ExecutionResult::new("exec-1".to_string(), true);
    assert_eq!(r.get_highest_severity(), None);
    assert!(!r.has_security_violations());
    r.add_security_violation(violation(SecuritySeverity::Medium));
    r.add_security_violation(violation(SecuritySeverity::High));
    r.add_security_violation(violation(SecuritySeverity::Low));
    assert!(r.has_security_violations());
    assert_eq!(r.get_highest_severity(), Some(SecuritySeverity::High));
    r.add_security_violation(violation(SecuritySeverity::Critical));
    assert_eq!(r.get_highest_severity(), Some(SecuritySeverity::Critical));
}

#[test]
fn entering_functions_records_depth_and_reentrancy() {
    let mut config = SecurityConfig::default();
    config.max_call_depth = 2;
    let v = SecurityValidator::new(config);
    let mut ctx = SecureExecutionContext::default();
    ctx.enter_function(&v, "a".to_string(), "user");
    ctx.enter_function(&v, "b".to_string(), "a");
    assert!(ctx.security_violations.is_empty());
    ctx.enter_function(&v, "a".to_string(), "b");
    assert_eq!(ctx.call_depth, 3);
    assert_eq!(ctx.call_stack, vec!["a".to_string(), "b".to_string(), "a".to_string()]);
    let kinds: Vec<SecurityViolationType> = ctx.security_violations.iter().map(|x| x.violation_type).collect();
    assert_eq!(kinds, vec![SecurityViolationType::CallDepthExceeded, SecurityViolationType::ReentrancyAttack]);
    assert_eq!(ctx.exit_function(), Some("a".to_string()));
    assert_eq!(ctx.call_depth, 2);
    assert_eq!(ctx.exit_function(), Some("b".to_string()));
    assert_eq!(ctx.exit_function(), Some("a".to_string()));
    assert_eq!(ctx.exit_function(), None);
    assert_eq!(ctx.call_depth, 0);
    assert_eq!(ctx.security_violations.len(), 2);
}

#[test]
fn external_calls_are_counted_and_checked() {
    let mut config = SecurityConfig::default();
    config.max_external_calls = 1;
    let v = SecurityValidator::new(config);
    let mut ctx = SecureExecutionContext::default();
    ctx.record_external_call(&v);
    assert!(ctx.security_violations.is_empty());
    ctx.record_external_call(&v);
    assert_eq!(ctx.external_call_count, 2);
    assert_eq!(ctx.security_violations.len(), 1);
    assert_eq!(ctx.security_violations[0].violation_type, SecurityViolationType::ExternalCallLimitExceeded);
    assert_eq!(ctx.security_violations[0].description, "External call count 2 exceeds maximum 1");
}

#[test]
fn violations_are_stamped_with_the_current_time() {
    let v = SecurityValidator::new(SecurityConfig::strict());
    let e = v.validate_call_depth(101).unwrap_err();
    assert!(e.timestamp > 1_600_000_000);
}
