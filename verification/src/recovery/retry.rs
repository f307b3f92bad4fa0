//! Retry executor and policy: repeated invocation of a fallible
//! operation, with a backoff strategy deciding the wait between attempts
//! and an optional predicate deciding which failures are worth retrying.

use core::marker::PhantomData;
use vstd::prelude::*;
use crate::error::ForgeError;
use crate::recovery::backoff::Backoff;
use crate::recovery::backoff::ExponentialBackoff;
use crate::recovery::backoff::FixedBackoff;
use crate::recovery::backoff::LinearBackoff;
use crate::recovery::backoff::spec_jittered;
use crate::recovery::clock::wait_millis;

verus! {

/// One of the backoff strategy types.
#[derive(Clone, Copy, Debug)]
pub enum BackoffStrategy {
    Exponential(ExponentialBackoff),
    Linear(LinearBackoff),
    Fixed(FixedBackoff),
}

impl BackoffStrategy {
    /// The nominal delay of the underlying strategy.
    pub open spec fn spec_delay(&self, attempt: nat) -> nat {
        match *self {
            BackoffStrategy::Exponential(b) => b.spec_delay(attempt),
            BackoffStrategy::Linear(b) => b.spec_delay(attempt),
            BackoffStrategy::Fixed(b) => b.spec_delay(attempt),
        }
    }

    /// Whether the underlying strategy applies jitter at this attempt.
    pub open spec fn spec_jitter_at(&self, attempt: nat) -> bool {
        match *self {
            BackoffStrategy::Exponential(b) => b.spec_jitter_at(attempt),
            BackoffStrategy::Linear(b) => b.spec_jitter_at(attempt),
            BackoffStrategy::Fixed(b) => b.spec_jitter_at(attempt),
        }
    }

    /// The delay for the given attempt, in milliseconds.
    pub fn next_delay(&self, attempt: usize) -> (r: u64)
        ensures
            !self.spec_jitter_at(attempt as nat) ==> r as nat == self.spec_delay(attempt as nat),
            self.spec_jitter_at(attempt as nat) ==> spec_jittered(
                self.spec_delay(attempt as nat),
                r,
            ),
    {
        match self {
            BackoffStrategy::Exponential(b) => b.next_delay(attempt),
            BackoffStrategy::Linear(b) => b.next_delay(attempt),
            BackoffStrategy::Fixed(b) => b.next_delay(attempt),
        }
    }
}

/// Executor for retry operations over error type `E`, with retryability
/// decided by an optional predicate of type `P`.
///
/// The executor carries no mutable state: each `retry` call counts its
/// own attempts.
pub struct RetryExecutor<E, P: Fn(&E) -> bool> {
    max_retries: usize,
    backoff: BackoffStrategy,
    retry_if: Option<P>,
    _marker: PhantomData<E>,
}

impl<E, P: Fn(&E) -> bool> RetryExecutor<E, P> {
    /// The retry budget: attempts beyond the first.
    pub closed spec fn spec_max_retries(&self) -> nat {
        self.max_retries as nat
    }

    /// The backoff strategy consulted between attempts.
    pub closed spec fn spec_backoff(&self) -> BackoffStrategy {
        self.backoff
    }

    /// The stored retryability predicate, if any.
    pub closed spec fn spec_retry_if(&self) -> Option<P> {
        self.retry_if
    }

    /// Whether a retryability predicate is set.
    pub open spec fn spec_has_predicate(&self) -> bool {
        self.spec_retry_if() is Some
    }

    /// The stored predicate, if any, can be called on every error.
    pub open spec fn spec_pred_callable(&self) -> bool {
        match self.spec_retry_if() {
            Some(p) => forall|e: &E| call_requires(p, (e,)),
            None => true,
        }
    }

    /// Whether a retry is permitted after a failure at the given attempt
    /// index, given the predicate's verdict on the error: the budget must
    /// not be spent and the failure must be retryable.
    pub open spec fn spec_should_retry(&self, attempt: nat, retryable: bool) -> bool {
        attempt < self.spec_max_retries() && retryable
    }

    /// The decision `retry` takes after a failure: retry exactly when the
    /// budget is not spent and the failure is retryable.
    pub fn should_retry(&self, attempt: usize, retryable: bool) -> (r: bool)
        ensures
            r == self.spec_should_retry(attempt as nat, retryable),
    {
        attempt < self.max_retries && retryable
    }

    /// Create a new retry executor with an exponential backoff strategy
    /// and a budget of three retries.
    pub fn new_exponential() -> (r: Self)
        ensures
            r.spec_max_retries() == 3,
            r.spec_backoff() == BackoffStrategy::Exponential(ExponentialBackoff::spec_default()),
            !r.spec_has_predicate(),
            r.spec_pred_callable(),
    {
        RetryExecutor {
            max_retries: 3,
            backoff: BackoffStrategy::Exponential(ExponentialBackoff::default()),
            retry_if: None,
            _marker: PhantomData,
        }
    }

    /// Create a new retry executor with a linear backoff strategy and a
    /// budget of three retries.
    pub fn new_linear() -> (r: Self)
        ensures
            r.spec_max_retries() == 3,
            r.spec_backoff() == BackoffStrategy::Linear(LinearBackoff::spec_default()),
            !r.spec_has_predicate(),
            r.spec_pred_callable(),
    {
        RetryExecutor {
            max_retries: 3,
            backoff: BackoffStrategy::Linear(LinearBackoff::default()),
            retry_if: None,
            _marker: PhantomData,
        }
    }

    /// Create a new retry executor with a fixed backoff strategy and a
    /// budget of three retries.
    pub fn new_fixed(delay_ms: u64) -> (r: Self)
        ensures
            r.spec_max_retries() == 3,
            r.spec_backoff() == BackoffStrategy::Fixed(FixedBackoff::spec_with(delay_ms)),
            !r.spec_has_predicate(),
            r.spec_pred_callable(),
    {
        RetryExecutor {
            max_retries: 3,
            backoff: BackoffStrategy::Fixed(FixedBackoff::new(delay_ms)),
            retry_if: None,
            _marker: PhantomData,
        }
    }

    /// Set the maximum number of retries.
    pub fn with_max_retries(self, max_retries: usize) -> (r: Self)
        ensures
            r.spec_max_retries() == max_retries,
            r.spec_backoff() == self.spec_backoff(),
            r.spec_retry_if() == self.spec_retry_if(),
    {
        RetryExecutor { max_retries, ..self }
    }

    /// Set a predicate deciding whether an error should be retried.
    pub fn with_retry_if(self, predicate: P) -> (r: Self)
        requires
            forall|e: &E| call_requires(predicate, (e,)),
        ensures
            r.spec_max_retries() == self.spec_max_retries(),
            r.spec_backoff() == self.spec_backoff(),
            r.spec_retry_if() == Some(predicate),
            r.spec_pred_callable(),
    {
        RetryExecutor { retry_if: Some(predicate), ..self }
    }

    /// Run `operation`, retrying failures the predicate approves (every
    /// failure, when no predicate is set) until the retry budget is
    /// spent, waiting out the backoff delay between attempts. The result
    /// is an outcome of the operation itself: its success value, or the
    /// last error observed.
    pub fn retry<T, F: Fn() -> Result<T, E>>(&self, operation: F) -> (r: Result<T, E>)
        requires
            call_requires(operation, ()),
            self.spec_pred_callable(),
        ensures
            call_ensures(operation, (), r),
    {
        let mut attempt: usize = 0;
        loop
            invariant
                call_requires(operation, ()),
                self.spec_pred_callable(),
                attempt <= self.spec_max_retries(),
            decreases self.spec_max_retries() - attempt,
        {
            match operation() {
                Ok(value) => {
                    return Ok(value);
                },
                Err(err) => {
                    let retryable = match &self.retry_if {
                        Some(predicate) => predicate(&err),
                        None => true,
                    };
                    if !self.should_retry(attempt, retryable) {
                        return Err(err);
                    }
                    let delay = self.backoff.next_delay(attempt);
                    wait_millis(delay);
                    attempt = attempt + 1;
                },
            }
        }
    }

    /// Like `retry`, but invokes `on_error` with the error, the attempt
    /// index and the computed delay before each wait — an observation
    /// hook that does not alter control flow.
    pub fn retry_with_handler<T, F: Fn() -> Result<T, E>, H: Fn(&E, usize, u64)>(
        &self,
        operation: F,
        on_error: H,
    ) -> (r: Result<T, E>)
        requires
            call_requires(operation, ()),
            self.spec_pred_callable(),
            forall|e: &E, a: usize, d: u64| call_requires(on_error, (e, a, d)),
        ensures
            call_ensures(operation, (), r),
    {
        let mut attempt: usize = 0;
        loop
            invariant
                call_requires(operation, ()),
                self.spec_pred_callable(),
                forall|e: &E, a: usize, d: u64| call_requires(on_error, (e, a, d)),
                attempt <= self.spec_max_retries(),
            decreases self.spec_max_retries() - attempt,
        {
            match operation() {
                Ok(value) => {
                    return Ok(value);
                },
                Err(err) => {
                    let retryable = match &self.retry_if {
                        Some(predicate) => predicate(&err),
                        None => true,
                    };
                    if !self.should_retry(attempt, retryable) {
                        return Err(err);
                    }
                    let delay = self.backoff.next_delay(attempt);
                    on_error(&err, attempt, delay);
                    wait_millis(delay);
                    attempt = attempt + 1;
                },
            }
        }
    }
}

/// Available backoff types for a retry policy.
#[derive(Clone, Copy, Debug, PartialEq, Eq, Structural)]
pub enum BackoffType {
    Exponential,
    Linear,
    Fixed(u64),
}

/// The backoff strategy an executor built for the given type carries: a
/// pure function of the backoff type.
pub open spec fn spec_strategy_for(t: BackoffType) -> BackoffStrategy {
    match t {
        BackoffType::Exponential => BackoffStrategy::Exponential(
            ExponentialBackoff::spec_default(),
        ),
        BackoffType::Linear => BackoffStrategy::Linear(LinearBackoff::spec_default()),
        BackoffType::Fixed(delay_ms) => BackoffStrategy::Fixed(FixedBackoff::spec_with(delay_ms)),
    }
}

/// Policy for retrying operations: a backoff selection and a retry
/// budget, from which bound executors are built.
pub struct RetryPolicy {
    max_retries: usize,
    backoff_type: BackoffType,
}

impl RetryPolicy {
    /// The retry budget executors built from this policy carry.
    pub closed spec fn spec_max_retries(&self) -> nat {
        self.max_retries as nat
    }

    /// The selected backoff type.
    pub closed spec fn spec_backoff_type(&self) -> BackoffType {
        self.backoff_type
    }

    /// The strategy executors built from this policy carry.
    pub open spec fn spec_strategy(&self) -> BackoffStrategy {
        spec_strategy_for(self.spec_backoff_type())
    }

    /// Create a new retry policy with exponential backoff and a budget
    /// of three retries.
    pub fn new_exponential() -> (r: Self)
        ensures
            r.spec_max_retries() == 3,
            r.spec_backoff_type() == BackoffType::Exponential,
    {
        RetryPolicy { max_retries: 3, backoff_type: BackoffType::Exponential }
    }

    /// Create a new retry policy with linear backoff and a budget of
    /// three retries.
    pub fn new_linear() -> (r: Self)
        ensures
            r.spec_max_retries() == 3,
            r.spec_backoff_type() == BackoffType::Linear,
    {
        RetryPolicy { max_retries: 3, backoff_type: BackoffType::Linear }
    }

    /// Create a new retry policy with fixed backoff and a budget of
    /// three retries.
    pub fn new_fixed(delay_ms: u64) -> (r: Self)
        ensures
            r.spec_max_retries() == 3,
            r.spec_backoff_type() == BackoffType::Fixed(delay_ms),
    {
        RetryPolicy { max_retries: 3, backoff_type: BackoffType::Fixed(delay_ms) }
    }

    /// Set the maximum number of retries.
    pub fn with_max_retries(self, max_retries: usize) -> (r: Self)
        ensures
            r.spec_max_retries() == max_retries,
            r.spec_backoff_type() == self.spec_backoff_type(),
    {
        RetryPolicy { max_retries, ..self }
    }

    /// Create a retry executor for the given error type. The executor is
    /// determined by the policy alone: its budget and strategy are pure
    /// functions of the policy's configuration.
    pub fn executor<E, P: Fn(&E) -> bool>(&self) -> (r: RetryExecutor<E, P>)
        ensures
            r.spec_max_retries() == self.spec_max_retries(),
            r.spec_backoff() == self.spec_strategy(),
            !r.spec_has_predicate(),
            r.spec_pred_callable(),
    {
        let executor: RetryExecutor<E, P> = match self.backoff_type {
            BackoffType::Exponential => RetryExecutor::new_exponential(),
            BackoffType::Linear => RetryExecutor::new_linear(),
            BackoffType::Fixed(delay_ms) => RetryExecutor::new_fixed(delay_ms),
        };
        executor.with_max_retries(self.max_retries)
    }

    /// Run `operation` with retries under this policy, treating every
    /// failure as retryable.
    pub fn retry<T, E, F: Fn() -> Result<T, E>>(&self, operation: F) -> (r: Result<T, E>)
        requires
            call_requires(operation, ()),
        ensures
            call_ensures(operation, (), r),
    {
        let pred = |_e: &E| -> bool { true };
        let ex = self.executor().with_retry_if(pred);
        ex.retry(operation)
    }
}

impl Default for RetryPolicy {
    /// The default policy: exponential backoff, three retries.
    fn default() -> (r: Self)
        ensures
            r.spec_max_retries() == 3,
            r.spec_backoff_type() == BackoffType::Exponential,
    {
        RetryPolicy::new_exponential()
    }
}

/// Law: a failure the predicate rejects is never retried, whatever the
/// remaining budget; the executor returns it at once.
pub proof fn lemma_rejected_error_not_retried<E, P: Fn(&E) -> bool>(
    ex: RetryExecutor<E, P>,
    attempt: nat,
)
    ensures
        !ex.spec_should_retry(attempt, false),
{
}

/// Law: once the budget is spent no retry is permitted, so a `retry`
/// call invokes its operation at most `max_retries + 1` times.
pub proof fn lemma_budget_exhausted<E, P: Fn(&E) -> bool>(
    ex: RetryExecutor<E, P>,
    attempt: nat,
    retryable: bool,
)
    requires
        attempt >= ex.spec_max_retries(),
    ensures
        !ex.spec_should_retry(attempt, retryable),
{
}

/// Law (idempotent construction): executors built from policies with
/// equal configuration show the same observable behavior — the same
/// retry budget, the same delay for every attempt, and the same retry
/// decisions.
pub proof fn lemma_policy_determines_executor<E, P: Fn(&E) -> bool, Q: Fn(&E) -> bool>(
    p1: RetryPolicy,
    p2: RetryPolicy,
    e1: RetryExecutor<E, P>,
    e2: RetryExecutor<E, Q>,
    attempt: nat,
)
    requires
        p1.spec_max_retries() == p2.spec_max_retries(),
        p1.spec_backoff_type() == p2.spec_backoff_type(),
        e1.spec_max_retries() == p1.spec_max_retries(),
        e1.spec_backoff() == p1.spec_strategy(),
        e2.spec_max_retries() == p2.spec_max_retries(),
        e2.spec_backoff() == p2.spec_strategy(),
    ensures
        e1.spec_max_retries() == e2.spec_max_retries(),
        e1.spec_backoff().spec_delay(attempt) == e2.spec_backoff().spec_delay(attempt),
        forall|retryable: bool|
            e1.spec_should_retry(attempt, retryable) == e2.spec_should_retry(attempt, retryable),
{
}

} // verus!
