//! A toolkit for defining, decorating and recovering from rich application
//! errors: classified error values, contextual wrapping, error collection,
//! a code registry, console theming, and a recovery engine built from
//! backoff strategies, a circuit breaker and a retry executor.

pub mod collector;
pub mod console_theme;
pub mod context;
pub mod error;
pub mod level;
pub mod recovery;
pub mod registry;
pub mod text;

pub use crate::collector::CollectError;
pub use crate::collector::ErrorCollector;
pub use crate::console_theme::ConsoleTheme;
pub use crate::context::ContextError;
pub use crate::context::ResultExt;
pub use crate::error::AppError;
pub use crate::error::ErrorMeta;
pub use crate::error::ForgeError;
pub use crate::level::ErrorContext;
pub use crate::level::ErrorLevel;
pub use crate::recovery::Backoff;
pub use crate::recovery::BackoffStrategy;
pub use crate::recovery::BackoffType;
pub use crate::recovery::CircuitBreaker;
pub use crate::recovery::CircuitBreakerConfig;
pub use crate::recovery::CircuitOpenError;
pub use crate::recovery::CircuitState;
pub use crate::recovery::ExponentialBackoff;
pub use crate::recovery::FixedBackoff;
pub use crate::recovery::ForgeErrorRecovery;
pub use crate::recovery::LinearBackoff;
pub use crate::recovery::RecoveryError;
pub use crate::recovery::RetryExecutor;
pub use crate::recovery::RetryPolicy;
pub use crate::registry::CodedError;
pub use crate::registry::ErrorCodeInfo;
pub use crate::registry::ErrorRegistry;
pub use crate::registry::WithErrorCode;
pub use crate::registry::register_error_code;
pub use crate::text::u64_to_string;
