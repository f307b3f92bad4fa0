use std::sync::Arc;
use std::sync::Mutex;
use std::sync::atomic::AtomicUsize;
use std::sync::atomic::Ordering;

use error_forge::AppError;
use error_forge::Backoff;
use error_forge::BackoffStrategy;
use error_forge::CircuitBreaker;
use error_forge::CircuitBreakerConfig;
use error_forge::CircuitOpenError;
use error_forge::CircuitState;
use error_forge::ExponentialBackoff;
use error_forge::FixedBackoff;
use error_forge::ForgeErrorRecovery;
use error_forge::LinearBackoff;
use error_forge::RecoveryError;
use error_forge::RetryPolicy;

// Simple error type for testing
#[derive(Debug)]
struct TestError(&'static str);

#[derive(Debug)]
struct NumberedError(usize);

#[test]
fn test_exponential_backoff() {
    let backoff = ExponentialBackoff::new()
        .with_initial_delay(100)
        .with_max_delay(10000)
        .with_factor(200);

    // Test increasing delay pattern
    let delay1 = backoff.next_delay(0);
    let delay2 = backoff.next_delay(1);
    let delay3 = backoff.next_delay(2);

    assert_eq!(delay1, 100);
    assert_eq!(delay2, 200);
    assert_eq!(delay3, 400);

    // Test max delay cap
    let delay_max = backoff.next_delay(10);
    assert!(delay_max <= 10000);
}

#[test]
fn test_linear_backoff() {
    let backoff = LinearBackoff::new()
        .with_initial_delay(100)
        .with_increment(50)
        .with_max_delay(500);

    // Test increasing delay pattern
    let delay1 = backoff.next_delay(0);
    let delay2 = backoff.next_delay(1);
    let delay3 = backoff.next_delay(2);

    assert_eq!(delay1, 100);
    assert_eq!(delay2, 150);
    assert_eq!(delay3, 200);

    // Test max delay cap
    let delay_max = backoff.next_delay(10);
    assert_eq!(delay_max, 500);
}

#[test]
fn test_fixed_backoff() {
    let backoff = FixedBackoff::new(200);

    // All delays should be the same
    assert_eq!(backoff.next_delay(0), 200);
    assert_eq!(backoff.next_delay(1), 200);
    assert_eq!(backoff.next_delay(10), 200);
}

#[test]
fn test_exponential_jitter_range() {
    let backoff = ExponentialBackoff::new()
        .with_initial_delay(100)
        .with_max_delay(10000)
        .with_factor(200)
        .with_jitter(true);

    // The first retry delay is returned exactly, jitter or not
    assert_eq!(backoff.next_delay(0), 100);

    // Later delays are the nominal value perturbed by at most 20%
    for _ in 0..50 {
        let d = backoff.next_delay(3);
        assert!(d >= 640 && d <= 960, "jittered delay {} out of range", d);
    }
}

#[test]
fn test_exponential_fractional_factor() {
    // A factor of 1.5 in hundredths, rounding down at each step
    let backoff = ExponentialBackoff::new()
        .with_initial_delay(100)
        .with_max_delay(10000)
        .with_factor(150);
    assert_eq!(backoff.next_delay(0), 100);
    assert_eq!(backoff.next_delay(1), 150);
    assert_eq!(backoff.next_delay(2), 225);
    assert_eq!(backoff.next_delay(3), 337);
}

#[test]
fn test_backoff_strategy_dispatch() {
    let s = BackoffStrategy::Fixed(FixedBackoff::new(5));
    assert_eq!(s.next_delay(0), 5);
    assert_eq!(s.next_delay(9), 5);

    let s = BackoffStrategy::Linear(LinearBackoff::new());
    assert_eq!(s.next_delay(0), 100);
    assert_eq!(s.next_delay(1), 200);

    let s = BackoffStrategy::Exponential(ExponentialBackoff::new());
    assert_eq!(s.next_delay(1), 200);
}

#[test]
fn test_circuit_breaker() {
    let mut circuit = CircuitBreaker::with_config(
        "test-circuit",
        CircuitBreakerConfig { failure_threshold: 2, failure_window_ms: 1000, reset_timeout_ms: 100 },
    );

    // Initially closed
    assert_eq!(circuit.state(), CircuitState::Closed);
    assert_eq!(circuit.name(), "test-circuit");

    // First failure
    let result = circuit.execute_at(10, || -> Result<(), TestError> { Err(TestError("error")) });
    assert!(result.is_err());
    assert_eq!(circuit.state(), CircuitState::Closed);

    // Second failure should trip the circuit
    let result = circuit.execute_at(20, || -> Result<(), TestError> { Err(TestError("error")) });
    assert!(result.is_err());
    assert_eq!(circuit.state(), CircuitState::Open);

    // Circuit is open: the call is rejected without running the operation
    let result = circuit.execute_at(30, || -> Result<(), TestError> {
        unreachable!();
    });
    assert!(matches!(result, Err(RecoveryError::CircuitOpen(_))));

    // After the reset timeout, the next call runs as a probe; its success
    // closes the circuit again
    let result = circuit.execute_at(130, || -> Result<(), TestError> { Ok(()) });
    assert!(result.is_ok());
    assert_eq!(circuit.state(), CircuitState::Closed);

    // Successful execution keeps the circuit closed
    let result = circuit.execute_at(140, || -> Result<(), TestError> { Ok(()) });
    assert!(result.is_ok());
    assert_eq!(circuit.state(), CircuitState::Closed);
}

#[test]
fn test_circuit_probe_failure_reopens() {
    let mut circuit = CircuitBreaker::with_config(
        "probe-circuit",
        CircuitBreakerConfig { failure_threshold: 1, failure_window_ms: 1000, reset_timeout_ms: 50 },
    );

    // Trip the circuit with a single failure
    let _ = circuit.execute_at(0, || -> Result<(), TestError> { Err(TestError("down")) });
    assert_eq!(circuit.state(), CircuitState::Open);

    // After the timeout, a failing probe reopens the circuit
    let result = circuit.execute_at(60, || -> Result<(), TestError> { Err(TestError("still down")) });
    assert!(matches!(result, Err(RecoveryError::Operation(_))));
    assert_eq!(circuit.state(), CircuitState::Open);

    // The timer restarted at the failed probe: a call made before the
    // timeout elapses again is rejected without running
    let result = circuit.execute_at(80, || -> Result<(), TestError> {
        unreachable!();
    });
    assert!(matches!(result, Err(RecoveryError::CircuitOpen(_))));
}

#[test]
fn test_circuit_window_pruning() {
    let mut circuit = CircuitBreaker::with_config(
        "window-circuit",
        CircuitBreakerConfig { failure_threshold: 2, failure_window_ms: 100, reset_timeout_ms: 1000 },
    );

    // Two failures far apart: the first has left the window by the time
    // the second is recorded, so the circuit stays closed
    circuit.on_failure(0);
    circuit.on_failure(1000);
    assert_eq!(circuit.state(), CircuitState::Closed);

    // A second failure within the window trips it
    circuit.on_failure(1050);
    assert_eq!(circuit.state(), CircuitState::Open);
}

#[test]
fn test_circuit_reset() {
    let mut circuit = CircuitBreaker::with_config(
        "reset-circuit",
        CircuitBreakerConfig { failure_threshold: 1, failure_window_ms: 1000, reset_timeout_ms: 1000 },
    );
    circuit.on_failure(10);
    assert_eq!(circuit.state(), CircuitState::Open);

    circuit.reset_at(20);
    assert_eq!(circuit.state(), CircuitState::Closed);

    // A reset breaker admits calls again
    let result = circuit.execute_at(30, || -> Result<i32, TestError> { Ok(1) });
    assert_eq!(result.unwrap(), 1);
}

#[test]
fn test_circuit_open_error_message() {
    let err = CircuitOpenError::new("db");
    assert_eq!(err.circuit_name(), "db");
    assert_eq!(err.message(), "Circuit 'db' is open, failing fast");
}

#[test]
fn test_circuit_breaker_defaults() {
    let circuit = CircuitBreaker::new("defaults");
    assert_eq!(circuit.state(), CircuitState::Closed);
    assert_eq!(circuit.name(), "defaults");
}

#[test]
fn test_retry_policy() {
    let counter = Arc::new(AtomicUsize::new(0));
    let counter_clone = Arc::clone(&counter);

    let policy = RetryPolicy::new_fixed(10).with_max_retries(3);

    // Should succeed on the third attempt
    let result: Result<(), TestError> = policy.retry(|| {
        let current = counter_clone.fetch_add(1, Ordering::SeqCst);
        if current < 2 {
            Err(TestError("not ready"))
        } else {
            Ok(())
        }
    });

    assert!(result.is_ok());
    assert_eq!(counter.load(Ordering::SeqCst), 3);
}

#[test]
fn test_retry_with_predicate() {
    let counter = Arc::new(AtomicUsize::new(0));
    let counter_clone = Arc::clone(&counter);

    // Create a retry executor with a predicate
    let executor = RetryPolicy::new_fixed(10)
        .with_max_retries(5)
        .executor::<TestError, _>()
        .with_retry_if(|err: &TestError| err.0 == "retry");

    // Should not retry on "stop" error
    let result: Result<(), TestError> = executor.retry(|| {
        counter_clone.fetch_add(1, Ordering::SeqCst);
        Err(TestError("stop"))
    });

    assert!(result.is_err());
    assert_eq!(counter.load(Ordering::SeqCst), 1); // Only one attempt

    // Reset counter
    counter.store(0, Ordering::SeqCst);

    // Should retry on "retry" error but eventually fail
    let result: Result<(), TestError> = executor.retry(|| {
        counter_clone.fetch_add(1, Ordering::SeqCst);
        Err(TestError("retry"))
    });

    assert!(result.is_err());
    assert_eq!(counter.load(Ordering::SeqCst), 6); // Initial + 5 retries
}

#[test]
fn test_retry_budget_exhausted() {
    let counter = Arc::new(AtomicUsize::new(0));
    let counter_clone = Arc::clone(&counter);

    let executor = RetryPolicy::new_fixed(1)
        .with_max_retries(3)
        .executor::<NumberedError, _>()
        .with_retry_if(|_e: &NumberedError| true);

    // An operation that always fails is invoked exactly four times, and
    // the error returned is the last one observed
    let result: Result<(), NumberedError> = executor.retry(|| {
        let current = counter_clone.fetch_add(1, Ordering::SeqCst);
        Err(NumberedError(current))
    });

    assert_eq!(counter.load(Ordering::SeqCst), 4);
    assert_eq!(result.unwrap_err().0, 3);
}

#[test]
fn test_retry_with_handler_observes() {
    let counter = Arc::new(AtomicUsize::new(0));
    let counter_clone = Arc::clone(&counter);
    let observed: Arc<Mutex<Vec<(usize, u64)>>> = Arc::new(Mutex::new(Vec::new()));
    let observed_clone = Arc::clone(&observed);

    let executor = RetryPolicy::new_fixed(5)
        .with_max_retries(2)
        .executor::<TestError, _>()
        .with_retry_if(|_e: &TestError| true);

    let result: Result<(), TestError> = executor.retry_with_handler(
        || {
            counter_clone.fetch_add(1, Ordering::SeqCst);
            Err(TestError("fail"))
        },
        |_err: &TestError, attempt: usize, delay: u64| {
            observed_clone.lock().unwrap().push((attempt, delay));
        },
    );

    assert!(result.is_err());
    assert_eq!(counter.load(Ordering::SeqCst), 3);
    // The handler saw each wait: attempts 0 and 1, each with the fixed delay
    let seen = observed.lock().unwrap();
    assert_eq!(*seen, vec![(0, 5), (1, 5)]);
}

#[test]
fn test_policy_idempotent_construction() {
    let policy = RetryPolicy::new_fixed(1).with_max_retries(2);

    let c1 = Arc::new(AtomicUsize::new(0));
    let c1_clone = Arc::clone(&c1);
    let ex1 = policy.executor::<TestError, _>().with_retry_if(|_e: &TestError| true);
    let r1: Result<(), TestError> = ex1.retry(|| {
        c1_clone.fetch_add(1, Ordering::SeqCst);
        Err(TestError("fail"))
    });

    let c2 = Arc::new(AtomicUsize::new(0));
    let c2_clone = Arc::clone(&c2);
    let ex2 = policy.executor::<TestError, _>().with_retry_if(|_e: &TestError| true);
    let r2: Result<(), TestError> = ex2.retry(|| {
        c2_clone.fetch_add(1, Ordering::SeqCst);
        Err(TestError("fail"))
    });

    // Two executors built from the same policy behave identically
    assert!(r1.is_err() && r2.is_err());
    assert_eq!(c1.load(Ordering::SeqCst), c2.load(Ordering::SeqCst));
    assert_eq!(c1.load(Ordering::SeqCst), 3);
}

#[test]
fn test_should_retry_decision() {
    let executor = RetryPolicy::new_fixed(1)
        .with_max_retries(3)
        .executor::<TestError, _>()
        .with_retry_if(|_e: &TestError| true);

    // A rejected failure is never retried, whatever the remaining budget
    assert!(!executor.should_retry(0, false));
    assert!(!executor.should_retry(2, false));

    // A retryable failure is retried only while the budget lasts
    assert!(executor.should_retry(0, true));
    assert!(executor.should_retry(2, true));
    assert!(!executor.should_retry(3, true));
    assert!(!executor.should_retry(10, true));
}

#[test]
fn test_policy_retry_succeeds_immediately() {
    let policy = RetryPolicy::new_exponential();
    let result: Result<i32, TestError> = policy.retry(|| Ok(99));
    assert_eq!(result.unwrap(), 99);
}

#[test]
fn test_forge_error_recovery() {
    let sample = AppError::network("probe", None);

    let policy = sample.create_retry_policy(2);
    let counter = Arc::new(AtomicUsize::new(0));
    let counter_clone = Arc::clone(&counter);
    let result: Result<(), TestError> = policy.retry(|| {
        counter_clone.fetch_add(1, Ordering::SeqCst);
        Err(TestError("fail"))
    });
    assert!(result.is_err());
    assert_eq!(counter.load(Ordering::SeqCst), 3);

    // Classification-aware retry: retryable errors are retried...
    let counter = Arc::new(AtomicUsize::new(0));
    let counter_clone = Arc::clone(&counter);
    let result: Result<(), AppError> = sample.retry(2, || {
        counter_clone.fetch_add(1, Ordering::SeqCst);
        Err(AppError::network("flaky", None))
    });
    assert!(result.is_err());
    assert_eq!(counter.load(Ordering::SeqCst), 3);

    // ...while errors marked permanent stop the loop at once
    let counter = Arc::new(AtomicUsize::new(0));
    let counter_clone = Arc::clone(&counter);
    let result: Result<(), AppError> = sample.retry(2, || {
        counter_clone.fetch_add(1, Ordering::SeqCst);
        Err(AppError::config("broken"))
    });
    assert!(result.is_err());
    assert_eq!(counter.load(Ordering::SeqCst), 1);

    let breaker = sample.create_circuit_breaker("resource");
    assert_eq!(breaker.state(), CircuitState::Closed);
    assert_eq!(breaker.name(), "resource");
}

#[test]
fn test_backoff_defaults() {
    let e = ExponentialBackoff::default();
    assert_eq!(e.next_delay(0), 100);
    assert_eq!(e.next_delay(1), 200);

    let l = LinearBackoff::default();
    assert_eq!(l.next_delay(0), 100);
    assert_eq!(l.next_delay(1), 200);

    let p = RetryPolicy::default();
    let result: Result<i32, TestError> = p.retry(|| Ok(1));
    assert_eq!(result.unwrap(), 1);
}
