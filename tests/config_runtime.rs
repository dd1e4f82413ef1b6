use blockchain_runtime::{
    DefaultBlockchainRuntime, EnvironmentState, ExecutionResult, MetricType, NetworkMode,
    RuntimeCapabilities, RuntimeConfig, RuntimeConfigBuilder, RuntimeType, SecureExecutionContext,
    SecurityConfig, SecuritySeverity, SecurityViolation, SecurityViolationType,
};
use std::collections::HashMap;

#[test]
fn presets() {
    let dev = RuntimeConfig::local_development();
    assert!(dev.is_development());
    assert!(!dev.is_production());
    assert_eq!(dev.security_config.max_gas_limit, u64::MAX);
    let prod = RuntimeConfig::production();
    assert!(prod.is_production());
    assert_eq!(prod.network_mode, NetworkMode::MainnetFork);
    assert_eq!(prod.security_config.max_gas_limit, 1_000_000);
    let test = RuntimeConfig::testing();
    assert!(test.is_test());
    assert_eq!(test.timeout_seconds, 60);
    assert_eq!(test.memory_limit_mb, 256);
    assert!(!RuntimeConfig::default().is_test());
}

#[test]
fn validate_names_the_first_zero_limit() {
    assert!(RuntimeConfig::default().validate().is_ok());
    let c = RuntimeConfig::new(0, 0, NetworkMode::Testnet);
    assert_eq!(c.validate().unwrap_err(), "Timeout cannot be zero");
    let c = RuntimeConfig::new(1, 0, NetworkMode::Testnet);
    assert_eq!(c.validate().unwrap_err(), "Memory limit cannot be zero");
    let mut s = SecurityConfig::default();
    s.max_call_depth = 0;
    let c = RuntimeConfig::default().with_security_config(s);
    assert_eq!(c.validate().unwrap_err(), "Maximum call depth cannot be zero");
    let mut s = SecurityConfig::default();
    s.max_external_calls = 0;
    let c = RuntimeConfig::default().with_security_config(s);
    assert_eq!(c.validate().unwrap_err(), "Maximum external calls cannot be zero");
    let mut s = SecurityConfig::default();
    s.max_gas_limit = 0;
    let c = RuntimeConfig::default().with_security_config(s);
    assert_eq!(c.validate().unwrap_err(), "Maximum gas limit cannot be zero");
    let mut s = SecurityConfig::default();
    s.max_memory_bytes = 0;
    let c = RuntimeConfig::default().with_security_config(s);
    assert_eq!(c.validate().unwrap_err(), "Maximum memory bytes cannot be zero");
}

#[test]
fn describe_configuration() {
    assert_eq!(
        RuntimeConfig::production().describe(),
        "RuntimeConfig: timeout=300s, memory=1024MB, network=MainnetFork, monitoring=true, security=strict"
    );
    assert_eq!(
        RuntimeConfig::testing().describe(),
        "RuntimeConfig: timeout=60s, memory=256MB, network=Local, monitoring=false, security=permissive"
    );
}

#[test]
fn builder_sets_and_validates() {
    let c = RuntimeConfigBuilder::new()
        .timeout_seconds(30)
        .memory_limit_mb(512)
        .network_mode(NetworkMode::Testnet)
        .monitoring(false)
        .security_config(SecurityConfig::strict())
        .blockchain_config("chain_id".to_string(), serde_json::Value::from(1))
        .build()
        .unwrap();
    assert_eq!(c.timeout_seconds, 30);
    assert_eq!(c.memory_limit_mb, 512);
    assert_eq!(c.network_mode, NetworkMode::Testnet);
    assert!(!c.enable_monitoring);
    assert_eq!(c.security_config, SecurityConfig::strict());
    assert_eq!(c.blockchain_config.get("chain_id"), Some(&serde_json::Value::from(1)));
    let e = RuntimeConfigBuilder::default().timeout_seconds(0).build().unwrap_err();
    assert_eq!(e, "Timeout cannot be zero");
}

#[test]
fn config_modifiers() {
    let c = RuntimeConfig::default()
        .with_monitoring(false)
        .with_blockchain_config("fork_block".to_string(), serde_json::Value::from(17));
    assert!(!c.enable_monitoring);
    assert_eq!(c.blockchain_config.len(), 1);
}

#[test]
fn runtime_identity_and_capabilities() {
    let rt = DefaultBlockchainRuntime::new("ethereum".to_string());
    assert_eq!(rt.blockchain_id(), "ethereum");
    assert_eq!(rt.capabilities(), RuntimeCapabilities::default());
    let mut caps = RuntimeCapabilities::default();
    caps.supports_time_travel = true;
    let rt = DefaultBlockchainRuntime::with_capabilities("solana".to_string(), caps);
    assert!(rt.capabilities().supports_time_travel);
    let metrics = rt.metrics_definition();
    assert_eq!(metrics.len(), 2);
    assert_eq!(metrics[0].name, "gas_used");
    assert_eq!(metrics[0].metric_type, MetricType::Gas);
    assert_eq!(metrics[1].name, "execution_time");
    assert_eq!(metrics[1].metric_type, MetricType::Time);
}

#[test]
fn environment_creation() {
    let rt = DefaultBlockchainRuntime::new("ethereum".to_string());
    let env = rt.create_environment(1_700_000_000_123);
    assert_eq!(env.environment_id, "env_1700000000123");
    assert_eq!(env.blockchain_id, "ethereum");
    assert_eq!(env.runtime_type, RuntimeType::LocalProcess);
    assert_eq!(env.endpoint_url, "http://localhost:8545");
    assert_eq!(env.state, EnvironmentState::Ready);
}

#[test]
fn secure_results_carry_the_context_list() {
    let v = SecurityViolation {
        violation_type: SecurityViolationType::ReentrancyAttack,
        description: "r".to_string(),
        severity: SecuritySeverity::Critical,
        timestamp: 7,
        context: HashMap::new(),
    };
    let mut ctx = SecureExecutionContext::default();
    ctx.security_violations.push(v);
    let r = ExecutionResult::new("exec-2".to_string(), true).with_security_context(ctx);
    assert!(r.success);
    assert_eq!(r.security_violations.len(), 1);
    assert_eq!(r.security_violations[0].description, "r");
    assert_eq!(r.security_violations[0].timestamp, 7);
    assert_eq!(r.get_highest_severity(), Some(SecuritySeverity::Critical));

    let rt = DefaultBlockchainRuntime::new("ethereum".to_string());
    let fresh = rt.execute_secure(r);
    assert!(fresh.security_violations.is_empty());
    assert_eq!(fresh.security_context.call_depth, 0);
    assert_eq!(fresh.execution_id, "exec-2");
}
