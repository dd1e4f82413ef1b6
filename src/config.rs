//! Runtime configuration: presets, validation and a builder.
use std::collections::HashMap;
use vstd::prelude::*;
use vstd::std_specs::hash::obeys_key_model;
use vstd::string::*;

use crate::constants::{DEFAULT_MEMORY_LIMIT_MB, DEFAULT_TIMEOUT_SECONDS};
use crate::security::SecurityConfig;
use crate::text::{decimal, push_decimal};
use crate::types::NetworkMode;

verus! {

/// Runtime configuration with its security policy.
#[derive(Debug, Clone)]
pub struct RuntimeConfig {
    pub timeout_seconds: u64,
    pub memory_limit_mb: u64,
    pub network_mode: NetworkMode,
    pub enable_monitoring: bool,
    pub blockchain_config: HashMap<String, serde_json::Value>,
    /// Security configuration.
    pub security_config: SecurityConfig,
}

/// The first reason, in checking order, why a configuration is invalid:
/// a zero timeout, memory limit, or security limit.
pub open spec fn validation_error(c: RuntimeConfig) -> Option<Seq<char>> {
    if c.timeout_seconds == 0 {
        Some("Timeout cannot be zero"@)
    } else if c.memory_limit_mb == 0 {
        Some("Memory limit cannot be zero"@)
    } else if c.security_config.max_call_depth == 0 {
        Some("Maximum call depth cannot be zero"@)
    } else if c.security_config.max_external_calls == 0 {
        Some("Maximum external calls cannot be zero"@)
    } else if c.security_config.max_gas_limit == 0 {
        Some("Maximum gas limit cannot be zero"@)
    } else if c.security_config.max_memory_bytes == 0 {
        Some("Maximum memory bytes cannot be zero"@)
    } else {
        None
    }
}

/// Name of a network mode.
pub open spec fn network_name(m: NetworkMode) -> Seq<char> {
    match m {
        NetworkMode::Local => "Local"@,
        NetworkMode::Testnet => "Testnet"@,
        NetworkMode::MainnetFork => "MainnetFork"@,
    }
}

/// "true" or "false".
pub open spec fn bool_text(b: bool) -> Seq<char> {
    if b {
        "true"@
    } else {
        "false"@
    }
}

/// One-line description of a configuration.
pub open spec fn description(c: RuntimeConfig) -> Seq<char> {
    "RuntimeConfig: timeout="@ + decimal(c.timeout_seconds as nat) + "s, memory="@ + decimal(
        c.memory_limit_mb as nat,
    ) + "MB, network="@ + network_name(c.network_mode) + ", monitoring="@ + bool_text(
        c.enable_monitoring,
    ) + ", security="@ + if c.security_config.sandbox_enabled {
        "strict"@
    } else {
        "permissive"@
    }
}

fn network_text(m: NetworkMode) -> (r: &'static str)
    ensures
        r@ == network_name(m),
{
    match m {
        NetworkMode::Local => "Local",
        NetworkMode::Testnet => "Testnet",
        NetworkMode::MainnetFork => "MainnetFork",
    }
}

fn bool_str(b: bool) -> (r: &'static str)
    ensures
        r@ == bool_text(b),
{
    if b {
        "true"
    } else {
        "false"
    }
}

impl RuntimeConfig {
    /// The settings of a configuration, without its chain-specific entries.
    pub open spec fn settings(&self) -> (u64, u64, NetworkMode, bool, SecurityConfig) {
        (
            self.timeout_seconds,
            self.memory_limit_mb,
            self.network_mode,
            self.enable_monitoring,
            self.security_config,
        )
    }

    /// A configuration with the given settings and no chain-specific entries.
    pub open spec fn has(
        &self,
        timeout_seconds: u64,
        memory_limit_mb: u64,
        network_mode: NetworkMode,
        enable_monitoring: bool,
        security_config: SecurityConfig,
    ) -> bool {
        &&& self.settings() == (
            timeout_seconds,
            memory_limit_mb,
            network_mode,
            enable_monitoring,
            security_config,
        )
        &&& self.blockchain_config@ == Map::<String, serde_json::Value>::empty()
    }

    /// A configuration with the given timeout, memory limit and network,
    /// monitoring on and the default security policy.
    pub fn new(timeout_seconds: u64, memory_limit_mb: u64, network_mode: NetworkMode) -> (r: RuntimeConfig)
        ensures
            r.has(
                timeout_seconds,
                memory_limit_mb,
                network_mode,
                true,
                SecurityConfig::spec_new(true, true, true, true),
            ),
    {
        RuntimeConfig {
            timeout_seconds,
            memory_limit_mb,
            network_mode,
            enable_monitoring: true,
            blockchain_config: HashMap::new(),
            security_config: SecurityConfig::default(),
        }
    }

    /// Local network, default limits, permissive security.
    pub fn local_development() -> (r: RuntimeConfig)
        ensures
            r.has(
                DEFAULT_TIMEOUT_SECONDS,
                DEFAULT_MEMORY_LIMIT_MB,
                NetworkMode::Local,
                true,
                SecurityConfig::spec_permissive(),
            ),
    {
        RuntimeConfig {
            timeout_seconds: DEFAULT_TIMEOUT_SECONDS,
            memory_limit_mb: DEFAULT_MEMORY_LIMIT_MB,
            network_mode: NetworkMode::Local,
            enable_monitoring: true,
            blockchain_config: HashMap::new(),
            security_config: SecurityConfig::permissive(),
        }
    }

    /// Forked mainnet, default limits, strict security.
    pub fn production() -> (r: RuntimeConfig)
        ensures
            r.has(
                DEFAULT_TIMEOUT_SECONDS,
                DEFAULT_MEMORY_LIMIT_MB,
                NetworkMode::MainnetFork,
                true,
                SecurityConfig::spec_strict(),
            ),
    {
        RuntimeConfig {
            timeout_seconds: DEFAULT_TIMEOUT_SECONDS,
            memory_limit_mb: DEFAULT_MEMORY_LIMIT_MB,
            network_mode: NetworkMode::MainnetFork,
            enable_monitoring: true,
            blockchain_config: HashMap::new(),
            security_config: SecurityConfig::strict(),
        }
    }

    /// Local network, 60 s timeout, 256 MB, no monitoring, permissive security.
    pub fn testing() -> (r: RuntimeConfig)
        ensures
            r.has(60, 256, NetworkMode::Local, false, SecurityConfig::spec_permissive()),
    {
        RuntimeConfig {
            timeout_seconds: 60,
            memory_limit_mb: 256,
            network_mode: NetworkMode::Local,
            enable_monitoring: false,
            blockchain_config: HashMap::new(),
            security_config: SecurityConfig::permissive(),
        }
    }

    /// The same configuration with another security policy.
    pub fn with_security_config(self, security_config: SecurityConfig) -> (r: RuntimeConfig)
        ensures
            r.settings() == (
                self.timeout_seconds,
                self.memory_limit_mb,
                self.network_mode,
                self.enable_monitoring,
                security_config,
            ),
            r.blockchain_config == self.blockchain_config,
    {
        let mut c = self;
        c.security_config = security_config;
        c
    }

    /// The same configuration with `key` set to `value` among the
    /// chain-specific entries.
    pub fn with_blockchain_config(self, key: String, value: serde_json::Value) -> (r: RuntimeConfig)
        ensures
            r.settings() == self.settings(),
            obeys_key_model::<String>() ==> r.blockchain_config@ == self.blockchain_config@.insert(
                key,
                value,
            ),
    {
        let mut c = self;
        c.blockchain_config.insert(key, value);
        c
    }

    /// The same configuration with monitoring switched on or off.
    pub fn with_monitoring(self, enabled: bool) -> (r: RuntimeConfig)
        ensures
            r.settings() == (
                self.timeout_seconds,
                self.memory_limit_mb,
                self.network_mode,
                enabled,
                self.security_config,
            ),
            r.blockchain_config == self.blockchain_config,
    {
        let mut c = self;
        c.enable_monitoring = enabled;
        c
    }

    /// Accepts a configuration iff every limit is positive; otherwise names
    /// the first zero limit.
    pub fn validate(&self) -> (r: Result<(), String>)
        ensures
            r.is_ok() <==> validation_error(*self).is_none(),
            r.is_ok() <==> self.timeout_seconds > 0 && self.memory_limit_mb > 0
                && self.security_config.limits_positive(),
            r matches Err(m) ==> validation_error(*self) == Some(m@),
    {
        if self.timeout_seconds == 0 {
            return Err(String::from_str("Timeout cannot be zero"));
        }
        if self.memory_limit_mb == 0 {
            return Err(String::from_str("Memory limit cannot be zero"));
        }
        if self.security_config.max_call_depth == 0 {
            return Err(String::from_str("Maximum call depth cannot be zero"));
        }
        if self.security_config.max_external_calls == 0 {
            return Err(String::from_str("Maximum external calls cannot be zero"));
        }
        if self.security_config.max_gas_limit == 0 {
            return Err(String::from_str("Maximum gas limit cannot be zero"));
        }
        if self.security_config.max_memory_bytes == 0 {
            return Err(String::from_str("Maximum memory bytes cannot be zero"));
        }
        Ok(())
    }

    /// A one-line description of the configuration.
    pub fn describe(&self) -> (r: String)
        ensures
            r@ == description(*self),
    {
        let mut s = String::from_str("RuntimeConfig: timeout=");
        push_decimal(&mut s, self.timeout_seconds);
        s.append("s, memory=");
        push_decimal(&mut s, self.memory_limit_mb);
        s.append("MB, network=");
        s.append(network_text(self.network_mode));
        s.append(", monitoring=");
        s.append(bool_str(self.enable_monitoring));
        s.append(", security=");
        if self.security_config.sandbox_enabled {
            s.append("strict");
        } else {
            s.append("permissive");
        }
        s
    }

    /// Local network without sandboxing.
    pub fn is_development(&self) -> (r: bool)
        ensures
            r == (self.network_mode == NetworkMode::Local && !self.security_config.sandbox_enabled),
    {
        self.network_mode == NetworkMode::Local && !self.security_config.sandbox_enabled
    }

    /// Forked mainnet with sandboxing.
    pub fn is_production(&self) -> (r: bool)
        ensures
            r == (self.network_mode == NetworkMode::MainnetFork
                && self.security_config.sandbox_enabled),
    {
        self.network_mode == NetworkMode::MainnetFork && self.security_config.sandbox_enabled
    }

    /// At most 60 s timeout, at most 256 MB, and no monitoring.
    pub fn is_test(&self) -> (r: bool)
        ensures
            r == (self.timeout_seconds <= 60 && self.memory_limit_mb <= 256
                && !self.enable_monitoring),
    {
        self.timeout_seconds <= 60 && self.memory_limit_mb <= 256 && !self.enable_monitoring
    }
}

impl Default for RuntimeConfig {
    fn default() -> (r: RuntimeConfig)
        ensures
            r.has(
                DEFAULT_TIMEOUT_SECONDS,
                DEFAULT_MEMORY_LIMIT_MB,
                NetworkMode::Local,
                true,
                SecurityConfig::spec_new(true, true, true, true),
            ),
    {
        RuntimeConfig::new(DEFAULT_TIMEOUT_SECONDS, DEFAULT_MEMORY_LIMIT_MB, NetworkMode::Local)
    }
}

/// Builds a configuration step by step; `build` validates it.
pub struct RuntimeConfigBuilder {
    config: RuntimeConfig,
}

impl RuntimeConfigBuilder {
    /// The configuration built so far.
    pub closed spec fn pending(&self) -> RuntimeConfig {
        self.config
    }

    /// A builder that starts from the default configuration.
    pub fn new() -> (r: RuntimeConfigBuilder)
        ensures
            r.pending().has(
                DEFAULT_TIMEOUT_SECONDS,
                DEFAULT_MEMORY_LIMIT_MB,
                NetworkMode::Local,
                true,
                SecurityConfig::spec_new(true, true, true, true),
            ),
    {
        RuntimeConfigBuilder { config: RuntimeConfig::default() }
    }

    /// Sets the timeout, in seconds.
    pub fn timeout_seconds(self, seconds: u64) -> (r: RuntimeConfigBuilder)
        ensures
            r.pending() == (RuntimeConfig { timeout_seconds: seconds, ..self.pending() }),
    {
        let mut b = self;
        b.config.timeout_seconds = seconds;
        b
    }

    /// Sets the memory limit, in megabytes.
    pub fn memory_limit_mb(self, mb: u64) -> (r: RuntimeConfigBuilder)
        ensures
            r.pending() == (RuntimeConfig { memory_limit_mb: mb, ..self.pending() }),
    {
        let mut b = self;
        b.config.memory_limit_mb = mb;
        b
    }

    /// Sets the network mode.
    pub fn network_mode(self, mode: NetworkMode) -> (r: RuntimeConfigBuilder)
        ensures
            r.pending() == (RuntimeConfig { network_mode: mode, ..self.pending() }),
    {
        let mut b = self;
        b.config.network_mode = mode;
        b
    }

    /// Switches monitoring on or off.
    pub fn monitoring(self, enabled: bool) -> (r: RuntimeConfigBuilder)
        ensures
            r.pending() == (RuntimeConfig { enable_monitoring: enabled, ..self.pending() }),
    {
        let mut b = self;
        b.config.enable_monitoring = enabled;
        b
    }

    /// Sets the security policy.
    pub fn security_config(self, config: SecurityConfig) -> (r: RuntimeConfigBuilder)
        ensures
            r.pending() == (RuntimeConfig { security_config: config, ..self.pending() }),
    {
        let mut b = self;
        b.config.security_config = config;
        b
    }

    /// Sets a chain-specific entry.
    pub fn blockchain_config(self, key: String, value: serde_json::Value) -> (r: RuntimeConfigBuilder)
        ensures
            r.pending().settings() == self.pending().settings(),
            obeys_key_model::<String>() ==> r.pending().blockchain_config@
                == self.pending().blockchain_config@.insert(key, value),
    {
        let mut b = self;
        b.config.blockchain_config.insert(key, value);
        b
    }

    /// The configuration, if it is valid; otherwise the first reason it is not.
    pub fn build(self) -> (r: Result<RuntimeConfig, String>)
        ensures
            r.is_ok() <==> validation_error(self.pending()).is_none(),
            r matches Ok(c) ==> c == self.pending(),
            r matches Err(m) ==> validation_error(self.pending()) == Some(m@),
    {
        match self.config.validate() {
            Ok(()) => Ok(self.config),
            Err(m) => Err(m),
        }
    }
}

impl Default for RuntimeConfigBuilder {
    fn default() -> (r: RuntimeConfigBuilder)
        ensures
            r.pending().has(
                DEFAULT_TIMEOUT_SECONDS,
                DEFAULT_MEMORY_LIMIT_MB,
                NetworkMode::Local,
                true,
                SecurityConfig::spec_new(true, true, true, true),
            ),
    {
        RuntimeConfigBuilder::new()
    }
}

} // verus!
