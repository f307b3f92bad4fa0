//! Circuit breaker: a state machine that fails fast once a protected
//! resource has failed too often, and probes for recovery after a
//! cooldown.
//!
//! All times are wall-clock milliseconds. Every transition function takes
//! the current time explicitly, so the whole state machine is verified;
//! the clock-reading convenience methods delegate to them.

use vstd::prelude::*;
use vstd::string::StringExecFns;
use crate::recovery::clock::now_millis;

verus! {

/// The current state of a circuit breaker.
#[derive(Debug, Clone, Copy, PartialEq, Eq, Structural)]
pub enum CircuitState {
    /// Operations are allowed to execute.
    Closed,
    /// Operations fail fast without executing.
    Open,
    /// One test operation is allowed through as a probe.
    HalfOpen,
}

/// Configuration for a circuit breaker.
#[derive(Clone, Copy, Debug)]
pub struct CircuitBreakerConfig {
    /// Number of failures required to open the circuit.
    pub failure_threshold: usize,
    /// Time window in milliseconds within which failures are counted.
    pub failure_window_ms: u64,
    /// Time in milliseconds that the circuit stays open before a probe.
    pub reset_timeout_ms: u64,
}

impl Default for CircuitBreakerConfig {
    /// The default configuration: five failures within one minute trip
    /// the breaker, which then stays open for thirty seconds.
    fn default() -> (r: Self)
        ensures
            r.failure_threshold == 5,
            r.failure_window_ms == 60000,
            r.reset_timeout_ms == 30000,
    {
        CircuitBreakerConfig {
            failure_threshold: 5,
            failure_window_ms: 60000,
            reset_timeout_ms: 30000,
        }
    }
}

/// Milliseconds elapsed from `last` to `now`; zero when the clock moved
/// backwards.
pub open spec fn spec_elapsed(last: u64, now: u64) -> nat {
    if now >= last {
        (now - last) as nat
    } else {
        0
    }
}

/// The start of the failure window that ends at `now`.
pub open spec fn spec_window_start(now: u64, window: u64) -> u64 {
    if now >= window {
        (now - window) as u64
    } else {
        0
    }
}

/// The state the pre-check moves a breaker to when it is inspected at
/// `now`: an open breaker becomes half-open once the reset timeout has
/// elapsed; every other state is left alone.
pub open spec fn spec_checked_state(
    state: CircuitState,
    last_change: u64,
    reset_timeout: u64,
    now: u64,
) -> CircuitState {
    if state is Open && spec_elapsed(last_change, now) >= reset_timeout {
        CircuitState::HalfOpen
    } else {
        state
    }
}

/// Error returned when a call is rejected because the circuit is open.
#[derive(Debug)]
pub struct CircuitOpenError {
    circuit_name: String,
}

impl CircuitOpenError {
    pub closed spec fn spec_circuit_name(&self) -> Seq<char> {
        self.circuit_name@
    }

    /// An open-circuit failure for the breaker with the given name.
    pub fn new(circuit_name: &str) -> (r: Self)
        ensures
            r.spec_circuit_name() == circuit_name@,
    {
        CircuitOpenError { circuit_name: circuit_name.to_owned() }
    }

    /// The name of the breaker that rejected the call.
    pub fn circuit_name(&self) -> (r: &str)
        ensures
            r@ == self.spec_circuit_name(),
    {
        self.circuit_name.as_str()
    }

    /// The rendered failure message.
    pub fn message(&self) -> (r: String)
        ensures
            r@ == "Circuit '"@ + self.spec_circuit_name() + "' is open, failing fast"@,
    {
        let mut s = String::from_str("Circuit '");
        s.append(self.circuit_name.as_str());
        s.append("' is open, failing fast");
        proof {
            assert(s@ =~= "Circuit '"@ + self.spec_circuit_name() + "' is open, failing fast"@);
        }
        s
    }
}

/// The failure surfaced by a breaker-protected call.
#[derive(Debug)]
pub enum RecoveryError<E> {
    /// The circuit was open: the operation was not run.
    CircuitOpen(CircuitOpenError),
    /// The operation ran and failed with its own error.
    Operation(E),
}

/// Circuit breaker for a named protected resource.
///
/// The breaker counts recent failures within a sliding window and trips
/// once they reach the configured threshold; calls then fail fast until
/// the reset timeout has elapsed, at which point one probe call decides
/// whether the breaker closes again.
pub struct CircuitBreaker {
    name: String,
    config: CircuitBreakerConfig,
    state: CircuitState,
    failures: Vec<u64>,
    last_state_change: u64,
}

impl CircuitBreaker {
    pub closed spec fn spec_name(&self) -> Seq<char> {
        self.name@
    }

    pub closed spec fn spec_config(&self) -> CircuitBreakerConfig {
        self.config
    }

    pub closed spec fn spec_state(&self) -> CircuitState {
        self.state
    }

    pub closed spec fn spec_failures(&self) -> Seq<u64> {
        self.failures@
    }

    pub closed spec fn spec_last_change(&self) -> u64 {
        self.last_state_change
    }

    /// `other` is the same breaker: same name, same configuration.
    pub open spec fn spec_same_identity(&self, other: &Self) -> bool {
        self.spec_name() == other.spec_name() && self.spec_config() == other.spec_config()
    }

    /// The state the pre-check yields when this breaker is inspected at
    /// `now`.
    pub open spec fn spec_checked(self, now: u64) -> CircuitState {
        spec_checked_state(
            self.spec_state(),
            self.spec_last_change(),
            self.spec_config().reset_timeout_ms,
            now,
        )
    }

    /// The failure timestamps kept after recording a failure at `now`:
    /// the new entry appended, then entries before the window dropped.
    pub open spec fn spec_recorded_failures(failures: Seq<u64>, now: u64, window: u64) -> Seq<u64> {
        failures.push(now).filter(|t: u64| t >= spec_window_start(now, window))
    }

    /// Create a new circuit breaker with the given name and the default
    /// configuration.
    pub fn new(name: &str) -> (r: Self)
        ensures
            r.spec_name() == name@,
            r.spec_state() == CircuitState::Closed,
            r.spec_failures() == Seq::<u64>::empty(),
            r.spec_config().failure_threshold == 5,
            r.spec_config().failure_window_ms == 60000,
            r.spec_config().reset_timeout_ms == 30000,
    {
        Self::with_config(name, CircuitBreakerConfig::default())
    }

    /// Create a new circuit breaker with a custom configuration.
    pub fn with_config(name: &str, config: CircuitBreakerConfig) -> (r: Self)
        ensures
            r.spec_name() == name@,
            r.spec_config() == config,
            r.spec_state() == CircuitState::Closed,
            r.spec_failures() == Seq::<u64>::empty(),
    {
        CircuitBreaker {
            name: name.to_owned(),
            config,
            state: CircuitState::Closed,
            failures: Vec::new(),
            last_state_change: now_millis(),
        }
    }

    /// A snapshot of the current state. Reading does not itself trigger
    /// the lazy open-to-half-open transition; only a call's pre-check
    /// does.
    pub fn state(&self) -> (r: CircuitState)
        ensures
            r == self.spec_state(),
    {
        self.state
    }

    /// The name of the circuit breaker.
    pub fn name(&self) -> (r: &str)
        ensures
            r@ == self.spec_name(),
    {
        self.name.as_str()
    }

    /// The pre-check at `now`: an open breaker becomes half-open once the
    /// reset timeout has elapsed; otherwise nothing changes.
    pub fn update_state(&mut self, now_ms: u64)
        ensures
            final(self).spec_state() == old(self).spec_checked(now_ms),
            final(self).spec_failures() == old(self).spec_failures(),
            final(self).spec_same_identity(old(self)),
            old(self).spec_checked(now_ms) == old(self).spec_state() ==> *final(self) == *old(
                self,
            ),
            old(self).spec_checked(now_ms) != old(self).spec_state() ==> final(self).spec_last_change() == now_ms,
    {
        if matches!(self.state, CircuitState::Open) {
            let elapsed = if now_ms >= self.last_state_change {
                now_ms - self.last_state_change
            } else {
                0
            };
            if elapsed >= self.config.reset_timeout_ms {
                self.state = CircuitState::HalfOpen;
                self.last_state_change = now_ms;
            }
        }
    }

    /// Record a successful call at `now`: a half-open probe closes the
    /// breaker and clears the failure history; in any other state nothing
    /// changes.
    pub fn on_success(&mut self, now_ms: u64)
        ensures
            final(self).spec_same_identity(old(self)),
            old(self).spec_state() == CircuitState::HalfOpen ==> final(self).spec_state()
                == CircuitState::Closed && final(self).spec_failures() == Seq::<u64>::empty()
                && final(self).spec_last_change() == now_ms,
            old(self).spec_state() != CircuitState::HalfOpen ==> *final(self) == *old(self),
    {
        if matches!(self.state, CircuitState::HalfOpen) {
            self.state = CircuitState::Closed;
            self.failures = Vec::new();
            self.last_state_change = now_ms;
        }
    }

    /// Record a failed call at `now`. A failed half-open probe reopens
    /// the breaker. Otherwise the failure is recorded, entries older than
    /// the window are dropped, and a closed breaker trips once the kept
    /// failures reach the threshold.
    pub fn on_failure(&mut self, now_ms: u64)
        ensures
            final(self).spec_same_identity(old(self)),
            old(self).spec_state() == CircuitState::HalfOpen ==> final(self).spec_state()
                == CircuitState::Open && final(self).spec_failures() == old(self).spec_failures()
                && final(self).spec_last_change() == now_ms,
            old(self).spec_state() != CircuitState::HalfOpen ==> final(self).spec_failures()
                == Self::spec_recorded_failures(
                old(self).spec_failures(),
                now_ms,
                old(self).spec_config().failure_window_ms,
            ),
            old(self).spec_state() == CircuitState::Closed && final(self).spec_failures().len()
                >= old(self).spec_config().failure_threshold ==> final(self).spec_state()
                == CircuitState::Open && final(self).spec_last_change() == now_ms,
            old(self).spec_state() == CircuitState::Closed && final(self).spec_failures().len()
                < old(self).spec_config().failure_threshold ==> final(self).spec_state()
                == CircuitState::Closed && final(self).spec_last_change() == old(
                self,
            ).spec_last_change(),
            old(self).spec_state() == CircuitState::Open ==> final(self).spec_state()
                == CircuitState::Open && final(self).spec_last_change() == old(
                self,
            ).spec_last_change(),
    {
        if matches!(self.state, CircuitState::HalfOpen) {
            self.state = CircuitState::Open;
            self.last_state_change = now_ms;
            return ;
        }
        self.failures.push(now_ms);
        let ws = if now_ms >= self.config.failure_window_ms {
            now_ms - self.config.failure_window_ms
        } else {
            0
        };
        prune_before(&mut self.failures, ws);
        if matches!(self.state, CircuitState::Closed) && self.failures.len()
            >= self.config.failure_threshold {
            self.state = CircuitState::Open;
            self.last_state_change = now_ms;
        }
    }

    /// Force the breaker closed at `now`, clearing its failure history.
    pub fn reset_at(&mut self, now_ms: u64)
        ensures
            final(self).spec_same_identity(old(self)),
            final(self).spec_state() == CircuitState::Closed,
            final(self).spec_failures() == Seq::<u64>::empty(),
            final(self).spec_last_change() == now_ms,
    {
        self.state = CircuitState::Closed;
        self.failures = Vec::new();
        self.last_state_change = now_ms;
    }

    /// Force the breaker closed, clearing its failure history; an
    /// administrative override.
    pub fn reset(&mut self)
        ensures
            final(self).spec_same_identity(old(self)),
            final(self).spec_state() == CircuitState::Closed,
            final(self).spec_failures() == Seq::<u64>::empty(),
    {
        let now = now_millis();
        self.reset_at(now);
    }

    /// Run `operation` under the breaker, with `now_ms` as the current
    /// time for both the pre-check and the outcome bookkeeping.
    ///
    /// The pre-check runs first; when it leaves the breaker open, the
    /// operation is not invoked and a circuit-open failure carrying the
    /// breaker's name is returned. Otherwise the operation runs exactly
    /// once and its outcome drives the state machine.
    pub fn execute_at<T, E, F: FnOnce() -> Result<T, E>>(
        &mut self,
        now_ms: u64,
        operation: F,
    ) -> (r: Result<T, RecoveryError<E>>)
        requires
            call_requires(operation, ()),
        ensures
            final(self).spec_same_identity(old(self)),
            old(self).spec_checked(now_ms) is Open <==> r matches Err(
                RecoveryError::CircuitOpen(_),
            ),
            r matches Err(RecoveryError::CircuitOpen(ce)) ==> ce.spec_circuit_name() == old(
                self,
            ).spec_name() && *final(self) == *old(self),
            r matches Ok(v) ==> call_ensures(operation, (), Ok(v)),
            r matches Err(RecoveryError::Operation(e)) ==> call_ensures(operation, (), Err(e)),
            old(self).spec_checked(now_ms) is HalfOpen && r is Ok ==> final(self).spec_state()
                == CircuitState::Closed && final(self).spec_failures() == Seq::<u64>::empty(),
            (old(self).spec_checked(now_ms) is HalfOpen && r matches Err(
                RecoveryError::Operation(_),
            )) ==> final(self).spec_state() == CircuitState::Open && final(self).spec_last_change()
                == now_ms,
            old(self).spec_checked(now_ms) is Closed && r is Ok ==> *final(self) == *old(self),
            (old(self).spec_checked(now_ms) is Closed && r matches Err(
                RecoveryError::Operation(_),
            )) ==> final(self).spec_failures() == Self::spec_recorded_failures(
                old(self).spec_failures(),
                now_ms,
                old(self).spec_config().failure_window_ms,
            ) && (final(self).spec_state() == CircuitState::Open <==> final(self).spec_failures().len() >= old(self).spec_config().failure_threshold),
    {
        self.update_state(now_ms);
        if matches!(self.state, CircuitState::Open) {
            return Err(RecoveryError::CircuitOpen(CircuitOpenError::new(self.name.as_str())));
        }
        match operation() {
            Ok(value) => {
                self.on_success(now_ms);
                Ok(value)
            },
            Err(err) => {
                self.on_failure(now_ms);
                Err(RecoveryError::Operation(err))
            },
        }
    }

    /// Run `operation` under the breaker, reading the clock for the
    /// current time.
    pub fn execute<T, E, F: FnOnce() -> Result<T, E>>(&mut self, operation: F) -> (r: Result<
        T,
        RecoveryError<E>,
    >)
        requires
            call_requires(operation, ()),
        ensures
            final(self).spec_same_identity(old(self)),
            r matches Ok(v) ==> call_ensures(operation, (), Ok(v)),
            r matches Err(RecoveryError::Operation(e)) ==> call_ensures(operation, (), Err(e)),
            r matches Err(RecoveryError::CircuitOpen(ce)) ==> ce.spec_circuit_name() == old(
                self,
            ).spec_name() && *final(self) == *old(self),
    {
        let now = now_millis();
        self.execute_at(now, operation)
    }
}

/// Law: a breaker that has been open for at least its reset timeout
/// admits a probe: the pre-check of the next call finds it half-open
/// (and the probe's outcome then decides between closed and open, as
/// `execute_at` states).
pub proof fn lemma_circuit_recovery_probe(b: CircuitBreaker, now: u64)
    requires
        b.spec_state() is Open,
        spec_elapsed(b.spec_last_change(), now) >= b.spec_config().reset_timeout_ms,
    ensures
        b.spec_checked(now) is HalfOpen,
{
}

/// Law: a breaker that has been open for less than its reset timeout
/// stays open under the pre-check, so the call fails fast.
pub proof fn lemma_circuit_still_open(b: CircuitBreaker, now: u64)
    requires
        b.spec_state() is Open,
        spec_elapsed(b.spec_last_change(), now) < b.spec_config().reset_timeout_ms,
    ensures
        b.spec_checked(now) is Open,
{
}

/// Drops every entry smaller than `window_start`, keeping order.
fn prune_before(failures: &mut Vec<u64>, window_start: u64)
    ensures
        final(failures)@ == old(failures)@.filter(|t: u64| t >= window_start),
{
    let n = failures.len();
    let mut kept: Vec<u64> = Vec::new();
    let mut i: usize = 0;
    proof {
        reveal(Seq::filter);
        assert(failures@.take(0).filter(|t: u64| t >= window_start) =~= Seq::<u64>::empty());
    }
    while i < n
        invariant
            failures@ == old(failures)@,
            n == failures@.len(),
            i <= n,
            kept@ == failures@.take(i as int).filter(|t: u64| t >= window_start),
        decreases n - i,
    {
        let t = failures[i];
        if t >= window_start {
            kept.push(t);
        }
        i = i + 1;
        proof {
            reveal(Seq::filter);
            assert(failures@.take(i as int).drop_last() =~= failures@.take(i as int - 1));
            assert(failures@.take(i as int).last() == failures@[i as int - 1]);
            assert(kept@ =~= failures@.take(i as int).filter(|t: u64| t >= window_start));
        }
    }
    proof {
        assert(failures@.take(n as int) =~= failures@);
    }
    *failures = kept;
}

} // verus!
