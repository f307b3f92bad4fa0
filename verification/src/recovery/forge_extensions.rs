//! Recovery helpers for classified error types: any error that reports
//! its own retryability can hand out retry policies, classification-aware
//! retries, and circuit breakers.

use vstd::prelude::*;
use crate::error::ForgeError;
use crate::recovery::circuit_breaker::CircuitBreaker;
use crate::recovery::circuit_breaker::CircuitState;
use crate::recovery::retry::BackoffType;
use crate::recovery::retry::RetryPolicy;

verus! {

/// Extension trait that adds recovery capabilities to classified error
/// types.
pub trait ForgeErrorRecovery: ForgeError {
    /// A retry policy suited to this error type: exponential backoff
    /// with the given budget.
    fn create_retry_policy(&self, max_retries: usize) -> (r: RetryPolicy)
        ensures
            r.spec_max_retries() == max_retries,
            r.spec_backoff_type() == BackoffType::Exponential,
    ;

    /// Run `operation` with retries under an exponential policy,
    /// retrying only failures that classify themselves as retryable. The
    /// result is an outcome of the operation itself.
    fn retry<R, E: ForgeError, F: Fn() -> Result<R, E>>(
        &self,
        max_retries: usize,
        operation: F,
    ) -> (r: Result<R, E>)
        requires
            call_requires(operation, ()),
        ensures
            call_ensures(operation, (), r),
    ;

    /// A fresh circuit breaker for operations that might yield this
    /// error type.
    fn create_circuit_breaker(&self, name: &str) -> (r: CircuitBreaker)
        ensures
            r.spec_name() == name@,
            r.spec_state() == CircuitState::Closed,
    ;
}

impl<T: ForgeError> ForgeErrorRecovery for T {
    fn create_retry_policy(&self, max_retries: usize) -> (r: RetryPolicy) {
        RetryPolicy::new_exponential().with_max_retries(max_retries)
    }

    fn retry<R, E: ForgeError, F: Fn() -> Result<R, E>>(
        &self,
        max_retries: usize,
        operation: F,
    ) -> (r: Result<R, E>) {
        let policy = self.create_retry_policy(max_retries);
        let pred = |e: &E| -> bool { e.is_retryable() };
        let ex = policy.executor().with_retry_if(pred);
        ex.retry(operation)
    }

    fn create_circuit_breaker(&self, name: &str) -> (r: CircuitBreaker) {
        CircuitBreaker::new(name)
    }
}

} // verus!
