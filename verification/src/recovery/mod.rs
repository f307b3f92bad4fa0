//! Error recovery patterns for handling transient failures: backoff
//! strategies that control retry timing, a circuit breaker that fails fast
//! once a resource looks unhealthy, and retry policies that tie them
//! together.

pub mod backoff;
pub mod circuit_breaker;
pub mod clock;
pub mod forge_extensions;
pub mod retry;

pub use backoff::Backoff;
pub use backoff::ExponentialBackoff;
pub use backoff::FixedBackoff;
pub use backoff::LinearBackoff;
pub use circuit_breaker::CircuitBreaker;
pub use circuit_breaker::CircuitBreakerConfig;
pub use circuit_breaker::CircuitOpenError;
pub use circuit_breaker::CircuitState;
pub use circuit_breaker::RecoveryError;
pub use forge_extensions::ForgeErrorRecovery;
pub use retry::BackoffStrategy;
pub use retry::BackoffType;
pub use retry::RetryExecutor;
pub use retry::RetryPolicy;
