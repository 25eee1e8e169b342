//! The configuration of a pool of secure channels, and the builder that
//! assembles it.

use vstd::prelude::*;
use vstd::string::StringExecFns;

verus! {

/// How a pool of channels is set up.
#[derive(Debug, Clone)]
pub struct PoolConfig {
    pub max_connections: usize,
    pub min_idle: usize,
    pub max_lifetime_secs: u64,
    pub max_latency_ms: u64,
    pub cleanup_interval_secs: u64,
    pub metrics_port: u16,
    pub namespace: String,
    pub circuit_breaker_failure_threshold: u64,
    pub circuit_breaker_cooldown_secs: u64,
    pub enterprise_features_enabled: bool,
    pub audit_logging_enabled: bool,
    pub compliance_mode: bool,
}

/// What a configuration says.
pub struct PoolSettings {
    pub max_connections: usize,
    pub min_idle: usize,
    pub max_lifetime_secs: u64,
    pub max_latency_ms: u64,
    pub cleanup_interval_secs: u64,
    pub metrics_port: u16,
    pub namespace: Seq<char>,
    pub circuit_breaker_failure_threshold: u64,
    pub circuit_breaker_cooldown_secs: u64,
    pub enterprise_features_enabled: bool,
    pub audit_logging_enabled: bool,
    pub compliance_mode: bool,
}

impl View for PoolConfig {
    type V = PoolSettings;

    open spec fn view(&self) -> PoolSettings {
        PoolSettings {
            max_connections: self.max_connections,
            min_idle: self.min_idle,
            max_lifetime_secs: self.max_lifetime_secs,
            max_latency_ms: self.max_latency_ms,
            cleanup_interval_secs: self.cleanup_interval_secs,
            metrics_port: self.metrics_port,
            namespace: self.namespace@,
            circuit_breaker_failure_threshold: self.circuit_breaker_failure_threshold,
            circuit_breaker_cooldown_secs: self.circuit_breaker_cooldown_secs,
            enterprise_features_enabled: self.enterprise_features_enabled,
            audit_logging_enabled: self.audit_logging_enabled,
            compliance_mode: self.compliance_mode,
        }
    }
}

/// The settings of a pool that nothing was said about: a hundred connections
/// of which ten stay idle, half an hour of lifetime, a second of latency, a
/// cleanup every thirty seconds, metrics on port 9090 under the namespace
/// `default`, a circuit breaker that opens after ten failures for a minute,
/// and enterprise features without audit logging or compliance mode.
pub open spec fn default_settings() -> PoolSettings {
    PoolSettings {
        max_connections: 100,
        min_idle: 10,
        max_lifetime_secs: 1800,
        max_latency_ms: 1000,
        cleanup_interval_secs: 30,
        metrics_port: 9090,
        namespace: "default"@,
        circuit_breaker_failure_threshold: 10,
        circuit_breaker_cooldown_secs: 60,
        enterprise_features_enabled: true,
        audit_logging_enabled: false,
        compliance_mode: false,
    }
}

impl PoolConfig {
    /// The settings of a pool that nothing was said about.
    pub fn standard() -> (config: Self)
        ensures
            config@ == default_settings(),
    {
        PoolConfig {
            max_connections: 100,
            min_idle: 10,
            max_lifetime_secs: 1800,
            max_latency_ms: 1000,
            cleanup_interval_secs: 30,
            metrics_port: 9090,
            namespace: String::from_str("default"),
            circuit_breaker_failure_threshold: 10,
            circuit_breaker_cooldown_secs: 60,
            enterprise_features_enabled: true,
            audit_logging_enabled: false,
            compliance_mode: false,
        }
    }
}

/// The state of a circuit breaker.
#[derive(Debug, Clone, Copy, PartialEq, Eq, Structural)]
pub enum CircuitBreakerState {
    Closed,
    HalfOpen,
    Open,
}

/// A circuit breaker.
#[derive(Debug, Clone, Copy, PartialEq, Eq, Structural)]
pub struct CircuitBreaker {
    pub state: CircuitBreakerState,
    pub failure_count: u64,
    pub failure_threshold: u64,
    pub success_threshold: u64,
    pub timeout_secs: u64,
    /// When the latest failure happened, in seconds since the Unix epoch.
    pub last_failure_time: Option<u64>,
}

/// The circuit breaker of a new pool: closed, without failures, opening after
/// ten failures, closing after five successes, with a timeout of thirty
/// seconds.
pub open spec fn fresh_breaker() -> CircuitBreaker {
    CircuitBreaker {
        state: CircuitBreakerState::Closed,
        failure_count: 0,
        failure_threshold: 10,
        success_threshold: 5,
        timeout_secs: 30,
        last_failure_time: None,
    }
}

/// A pool of secure channels to one endpoint.
#[derive(Debug, Clone)]
pub struct SecureChannelPool {
    pub config: PoolConfig,
    pub endpoint: String,
    pub circuit_breaker: CircuitBreaker,
    /// The health of the pool in tenths of a percent.
    pub health_score_tenths: u32,
    pub is_running: bool,
}

/// Whether `pool` is the pool that is built for `endpoint` from `settings`:
/// not yet running, in full health, with a fresh circuit breaker.
pub open spec fn is_built(pool: SecureChannelPool, endpoint: Seq<char>, settings: PoolSettings) -> bool {
    &&& pool.config@ == settings
    &&& pool.endpoint@ == endpoint
    &&& pool.circuit_breaker == fresh_breaker()
    &&& pool.health_score_tenths == 1000
    &&& !pool.is_running
}

/// Assembles the configuration of a pool step by step.
#[derive(Debug, Clone)]
pub struct PoolBuilder {
    endpoint: String,
    config: PoolConfig,
}

impl PoolBuilder {
    /// The endpoint of the pool that is being built.
    pub closed spec fn endpoint(&self) -> Seq<char> {
        self.endpoint@
    }

    /// The settings that were made so far.
    pub closed spec fn settings(&self) -> PoolSettings {
        self.config@
    }

    /// Sets the namespace of the metrics.
    pub fn with_namespace(self, namespace: &str) -> (builder: Self)
        ensures
            builder.endpoint() == self.endpoint(),
            builder.settings() == (PoolSettings { namespace: namespace@, ..self.settings() }),
    {
        let mut builder = self;
        builder.config.namespace = String::from_str(namespace);
        builder
    }

    /// Sets the largest number of connections.
    pub fn with_max_connections(self, max: usize) -> (builder: Self)
        ensures
            builder.endpoint() == self.endpoint(),
            builder.settings() == (PoolSettings { max_connections: max, ..self.settings() }),
    {
        let mut builder = self;
        builder.config.max_connections = max;
        builder
    }

    /// Sets the port on which metrics are served.
    pub fn with_metrics_port(self, port: u16) -> (builder: Self)
        ensures
            builder.endpoint() == self.endpoint(),
            builder.settings() == (PoolSettings { metrics_port: port, ..self.settings() }),
    {
        let mut builder = self;
        builder.config.metrics_port = port;
        builder
    }

    /// Sets the time between cleanups, in seconds.
    pub fn with_cleanup_interval(self, seconds: u64) -> (builder: Self)
        ensures
            builder.endpoint() == self.endpoint(),
            builder.settings() == (PoolSettings {
                cleanup_interval_secs: seconds,
                ..self.settings()
            }),
    {
        let mut builder = self;
        builder.config.cleanup_interval_secs = seconds;
        builder
    }

    /// Sets the latency above which a connection counts as degraded, in
    /// milliseconds.
    pub fn with_latency_threshold(self, millis: u64) -> (builder: Self)
        ensures
            builder.endpoint() == self.endpoint(),
            builder.settings() == (PoolSettings { max_latency_ms: millis, ..self.settings() }),
    {
        let mut builder = self;
        builder.config.max_latency_ms = millis;
        builder
    }

    /// Switches the enterprise features on or off.
    pub fn with_enterprise_features(self, enabled: bool) -> (builder: Self)
        ensures
            builder.endpoint() == self.endpoint(),
            builder.settings() == (PoolSettings {
                enterprise_features_enabled: enabled,
                ..self.settings()
            }),
    {
        let mut builder = self;
        builder.config.enterprise_features_enabled = enabled;
        builder
    }

    /// Switches audit logging on or off.
    pub fn with_audit_logging(self, enabled: bool) -> (builder: Self)
        ensures
            builder.endpoint() == self.endpoint(),
            builder.settings() == (PoolSettings {
                audit_logging_enabled: enabled,
                ..self.settings()
            }),
    {
        let mut builder = self;
        builder.config.audit_logging_enabled = enabled;
        builder
    }

    /// Switches compliance mode on or off.
    pub fn with_compliance_mode(self, enabled: bool) -> (builder: Self)
        ensures
            builder.endpoint() == self.endpoint(),
            builder.settings() == (PoolSettings { compliance_mode: enabled, ..self.settings() }),
    {
        let mut builder = self;
        builder.config.compliance_mode = enabled;
        builder
    }

    /// The pool for the endpoint with the settings that were made.
    pub fn build(self) -> (pool: SecureChannelPool)
        ensures
            is_built(pool, self.endpoint(), self.settings()),
    {
        SecureChannelPool {
            config: self.config,
            endpoint: self.endpoint,
            circuit_breaker: CircuitBreaker {
                state: CircuitBreakerState::Closed,
                failure_count: 0,
                failure_threshold: 10,
                success_threshold: 5,
                timeout_secs: 30,
                last_failure_time: None,
            },
            health_score_tenths: 1000,
            is_running: false,
        }
    }
}

impl SecureChannelPool {
    /// The pool for `endpoint` with the default settings.
    pub fn new(endpoint: &str) -> (pool: Self)
        ensures
            is_built(pool, endpoint@, default_settings()),
    {
        Self::builder(endpoint).build()
    }

    /// A builder for the pool for `endpoint`, starting from the default
    /// settings.
    pub fn builder(endpoint: &str) -> (builder: PoolBuilder)
        ensures
            builder.endpoint() == endpoint@,
            builder.settings() == default_settings(),
    {
        PoolBuilder { endpoint: String::from_str(endpoint), config: PoolConfig::standard() }
    }
}

} // verus!
