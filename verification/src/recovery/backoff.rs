//! Backoff strategies: pure functions from attempt index to wait duration.
//!
//! All durations are in milliseconds. The exponential strategy's growth
//! factor is held in hundredths, so a factor of 200 doubles the delay with
//! each attempt.

use vstd::prelude::*;
use vstd::arithmetic::div_mod::lemma_div_is_ordered;

verus! {

/// `x`, capped at `max`.
pub open spec fn spec_capped(x: nat, max: nat) -> nat {
    if x <= max {
        x
    } else {
        max
    }
}

/// The exponential delay curve: the initial delay, scaled by
/// `factor_hundredths / 100` once per attempt, rounding down each step.
pub open spec fn spec_exp_curve(initial: nat, factor_hundredths: nat, attempt: nat) -> nat
    decreases attempt,
{
    if attempt == 0 {
        initial
    } else {
        spec_exp_curve(initial, factor_hundredths, (attempt - 1) as nat) * factor_hundredths / 100
    }
}

/// The delay that results from scaling `nominal` by `j` hundredths,
/// saturating at the largest representable duration.
pub open spec fn spec_jitter_value(nominal: nat, j: nat) -> nat {
    spec_capped(nominal * j / 100, u64::MAX as nat)
}

/// `r` is `nominal` perturbed by some jitter factor between 0.8 and 1.2.
pub open spec fn spec_jittered(nominal: nat, r: u64) -> bool {
    exists|j: nat| 80 <= j <= 120 && r as nat == #[trigger] spec_jitter_value(nominal, j)
}

/// Trait for backoff strategies used in retry mechanisms.
pub trait Backoff: Sized {
    /// The nominal delay for the given attempt, in milliseconds.
    spec fn spec_delay(&self, attempt: nat) -> nat;

    /// Whether jitter perturbs the nominal delay at the given attempt.
    spec fn spec_jitter_at(&self, attempt: nat) -> bool;

    /// The delay to wait before the retry with the given attempt index,
    /// in milliseconds.
    fn next_delay(&self, attempt: usize) -> (r: u64)
        ensures
            !self.spec_jitter_at(attempt as nat) ==> r as nat == self.spec_delay(attempt as nat),
            self.spec_jitter_at(attempt as nat) ==> spec_jittered(
                self.spec_delay(attempt as nat),
                r,
            ),
    ;
}

/// Exponential backoff strategy with optional jitter.
///
/// The delay grows by the configured factor with each attempt, capped at
/// the configured maximum; jitter, when enabled, perturbs every delay
/// after the first by a random factor between 0.8 and 1.2.
#[derive(Clone, Copy, Debug)]
pub struct ExponentialBackoff {
    initial_delay_ms: u64,
    max_delay_ms: u64,
    factor_hundredths: u64,
    jitter: bool,
}

impl ExponentialBackoff {
    /// The default exponential backoff value.
    pub closed spec fn spec_default() -> ExponentialBackoff {
        ExponentialBackoff {
            initial_delay_ms: 100,
            max_delay_ms: 30000,
            factor_hundredths: 200,
            jitter: false,
        }
    }

    pub closed spec fn spec_initial(&self) -> u64 {
        self.initial_delay_ms
    }

    pub closed spec fn spec_max(&self) -> u64 {
        self.max_delay_ms
    }

    pub closed spec fn spec_factor(&self) -> u64 {
        self.factor_hundredths
    }

    pub closed spec fn spec_jitter(&self) -> bool {
        self.jitter
    }

    /// Create a new exponential backoff with default settings: an initial
    /// delay of 100ms, a maximum of 30000ms, a factor of 2, and no jitter.
    pub fn new() -> (r: Self)
        ensures
            r == ExponentialBackoff::spec_default(),
            r.spec_initial() == 100,
            r.spec_max() == 30000,
            r.spec_factor() == 200,
            !r.spec_jitter(),
    {
        ExponentialBackoff {
            initial_delay_ms: 100,
            max_delay_ms: 30000,
            factor_hundredths: 200,
            jitter: false,
        }
    }

    /// Set the initial delay in milliseconds.
    pub fn with_initial_delay(self, delay_ms: u64) -> (r: Self)
        ensures
            r.spec_initial() == delay_ms,
            r.spec_max() == self.spec_max(),
            r.spec_factor() == self.spec_factor(),
            r.spec_jitter() == self.spec_jitter(),
    {
        ExponentialBackoff { initial_delay_ms: delay_ms, ..self }
    }

    /// Set the maximum delay in milliseconds.
    pub fn with_max_delay(self, delay_ms: u64) -> (r: Self)
        ensures
            r.spec_initial() == self.spec_initial(),
            r.spec_max() == delay_ms,
            r.spec_factor() == self.spec_factor(),
            r.spec_jitter() == self.spec_jitter(),
    {
        ExponentialBackoff { max_delay_ms: delay_ms, ..self }
    }

    /// Set the multiplication factor applied per attempt, in hundredths:
    /// 200 doubles the delay each attempt, 150 grows it by half.
    pub fn with_factor(self, factor_hundredths: u64) -> (r: Self)
        ensures
            r.spec_initial() == self.spec_initial(),
            r.spec_max() == self.spec_max(),
            r.spec_factor() == factor_hundredths,
            r.spec_jitter() == self.spec_jitter(),
    {
        ExponentialBackoff { factor_hundredths, ..self }
    }

    /// Enable or disable jitter.
    pub fn with_jitter(self, jitter: bool) -> (r: Self)
        ensures
            r.spec_initial() == self.spec_initial(),
            r.spec_max() == self.spec_max(),
            r.spec_factor() == self.spec_factor(),
            r.spec_jitter() == jitter,
    {
        ExponentialBackoff { jitter, ..self }
    }

    /// The capped nominal delay for an attempt past the first.
    fn nominal_capped(&self, attempt: usize) -> (r: u64)
        requires
            attempt >= 1,
        ensures
            r as nat == spec_capped(
                spec_exp_curve(
                    self.spec_initial() as nat,
                    self.spec_factor() as nat,
                    attempt as nat,
                ),
                self.spec_max() as nat,
            ),
    {
        let ghost initial = self.spec_initial() as nat;
        let f = self.factor_hundredths;
        let max = self.max_delay_ms;
        if f >= 100 {
            let mut d: u64 = self.initial_delay_ms;
            if d >= max {
                proof {
                    lemma_exp_curve_mono(initial, f as nat, 0, attempt as nat);
                }
                return max;
            }
            let mut i: usize = 0;
            while i < attempt
                invariant
                    initial == self.spec_initial() as nat,
                    f == self.spec_factor(),
                    max == self.spec_max(),
                    f >= 100,
                    i <= attempt,
                    d as nat == spec_exp_curve(initial, f as nat, i as nat),
                    d < max,
                decreases attempt - i,
            {
                proof {
                    assert((d as nat) * (f as nat) <= (u64::MAX as nat) * (u64::MAX as nat) && (
                    u64::MAX as nat) * (u64::MAX as nat) < u128::MAX as nat) by (nonlinear_arith)
                        requires
                            d as nat <= u64::MAX as nat,
                            f as nat <= u64::MAX as nat,
                    ;
                }
                let prod: u128 = (d as u128) * (f as u128);
                let nd: u128 = prod / 100;
                proof {
                    assert(nd as nat == spec_exp_curve(initial, f as nat, (i + 1) as nat));
                }
                if nd >= (max as u128) {
                    proof {
                        lemma_exp_curve_mono(initial, f as nat, (i + 1) as nat, attempt as nat);
                    }
                    return max;
                }
                d = nd as u64;
                i = i + 1;
            }
            d
        } else {
            let mut d: u64 = self.initial_delay_ms;
            let mut i: usize = 0;
            while i < attempt
                invariant
                    initial == self.spec_initial() as nat,
                    f == self.spec_factor(),
                    max == self.spec_max(),
                    f < 100,
                    i <= attempt,
                    d as nat == spec_exp_curve(initial, f as nat, i as nat),
                decreases attempt - i,
            {
                proof {
                    assert((d as nat) * (f as nat) <= (u64::MAX as nat) * (u64::MAX as nat) && (
                    u64::MAX as nat) * (u64::MAX as nat) < u128::MAX as nat) by (nonlinear_arith)
                        requires
                            d as nat <= u64::MAX as nat,
                            f as nat <= u64::MAX as nat,
                    ;
                }
                let prod: u128 = (d as u128) * (f as u128);
                let nd: u128 = prod / 100;
                proof {
                    lemma_exp_step_le(d as nat, f as nat);
                    assert(nd as nat == spec_exp_curve(initial, f as nat, (i + 1) as nat));
                }
                d = nd as u64;
                i = i + 1;
            }
            if d >= max {
                max
            } else {
                d
            }
        }
    }
}

impl Backoff for ExponentialBackoff {
    open spec fn spec_delay(&self, attempt: nat) -> nat {
        if attempt == 0 {
            self.spec_initial() as nat
        } else {
            spec_capped(
                spec_exp_curve(self.spec_initial() as nat, self.spec_factor() as nat, attempt),
                self.spec_max() as nat,
            )
        }
    }

    open spec fn spec_jitter_at(&self, attempt: nat) -> bool {
        self.spec_jitter() && attempt > 0
    }

    fn next_delay(&self, attempt: usize) -> (r: u64) {
        if attempt == 0 {
            return self.initial_delay_ms;
        }
        let nominal = self.nominal_capped(attempt);
        if self.jitter {
            let j = jitter_hundredths();
            proof {
                assert((nominal as nat) * (j as nat) <= (u64::MAX as nat) * (u64::MAX as nat) && (
                u64::MAX as nat) * (u64::MAX as nat) < u128::MAX as nat) by (nonlinear_arith)
                    requires
                        nominal as nat <= u64::MAX as nat,
                        j as nat <= u64::MAX as nat,
                ;
            }
            let prod: u128 = (nominal as u128) * (j as u128);
            let jittered: u128 = prod / 100;
            let r = if jittered > (u64::MAX as u128) {
                u64::MAX
            } else {
                jittered as u64
            };
            proof {
                assert(r as nat == spec_jitter_value(self.spec_delay(attempt as nat), j as nat));
            }
            r
        } else {
            nominal
        }
    }
}

/// One scaling step cannot shrink the value when the factor is at least 1.
proof fn lemma_exp_step_ge(c: nat, f: nat)
    requires
        f >= 100,
    ensures
        c * f / 100 >= c,
{
    assert(c * f >= c * 100) by (nonlinear_arith)
        requires
            f >= 100,
    ;
    assert(c * 100 / 100 == c) by (nonlinear_arith);
    lemma_div_is_ordered((c * 100) as int, (c * f) as int, 100);
}

/// One scaling step cannot grow the value when the factor is at most 1.
proof fn lemma_exp_step_le(c: nat, f: nat)
    requires
        f <= 100,
    ensures
        c * f / 100 <= c,
{
    assert(c * f <= c * 100) by (nonlinear_arith)
        requires
            f <= 100,
    ;
    assert(c * 100 / 100 == c) by (nonlinear_arith);
    lemma_div_is_ordered((c * f) as int, (c * 100) as int, 100);
}

/// The exponential curve is nondecreasing in the attempt index when the
/// factor is at least 1.
proof fn lemma_exp_curve_mono(initial: nat, f: nat, k1: nat, k2: nat)
    requires
        f >= 100,
        k1 <= k2,
    ensures
        spec_exp_curve(initial, f, k1) <= spec_exp_curve(initial, f, k2),
    decreases k2,
{
    if k1 < k2 {
        lemma_exp_curve_mono(initial, f, k1, (k2 - 1) as nat);
        lemma_exp_step_ge(spec_exp_curve(initial, f, (k2 - 1) as nat), f);
    }
}

/// Relies on rand's Rng::gen_range: a sample from the given range, which
/// panics only when the range is empty. The range here is the fixed,
/// non-empty 80..=120, so the result lies between 80 and 120; being a
/// random draw, nothing more is promised of it.
#[verifier::external_body]
fn jitter_hundredths() -> (r: u64)
    ensures
        80 <= r <= 120,
{
    rand::Rng::gen_range(&mut rand::thread_rng(), 80u64..=120u64)
}

/// Linear backoff strategy: the delay grows by a fixed increment with
/// each attempt, capped at the configured maximum.
#[derive(Clone, Copy, Debug)]
pub struct LinearBackoff {
    initial_delay_ms: u64,
    increment_ms: u64,
    max_delay_ms: u64,
}

impl LinearBackoff {
    /// The default linear backoff value.
    pub closed spec fn spec_default() -> LinearBackoff {
        LinearBackoff { initial_delay_ms: 100, increment_ms: 100, max_delay_ms: 10000 }
    }

    pub closed spec fn spec_initial(&self) -> u64 {
        self.initial_delay_ms
    }

    pub closed spec fn spec_increment(&self) -> u64 {
        self.increment_ms
    }

    pub closed spec fn spec_max(&self) -> u64 {
        self.max_delay_ms
    }

    /// Create a new linear backoff with default settings: an initial
    /// delay of 100ms, an increment of 100ms, and a maximum of 10000ms.
    pub fn new() -> (r: Self)
        ensures
            r == LinearBackoff::spec_default(),
            r.spec_initial() == 100,
            r.spec_increment() == 100,
            r.spec_max() == 10000,
    {
        LinearBackoff { initial_delay_ms: 100, increment_ms: 100, max_delay_ms: 10000 }
    }

    /// Set the initial delay in milliseconds.
    pub fn with_initial_delay(self, delay_ms: u64) -> (r: Self)
        ensures
            r.spec_initial() == delay_ms,
            r.spec_increment() == self.spec_increment(),
            r.spec_max() == self.spec_max(),
    {
        LinearBackoff { initial_delay_ms: delay_ms, ..self }
    }

    /// Set the increment in milliseconds.
    pub fn with_increment(self, increment_ms: u64) -> (r: Self)
        ensures
            r.spec_initial() == self.spec_initial(),
            r.spec_increment() == increment_ms,
            r.spec_max() == self.spec_max(),
    {
        LinearBackoff { increment_ms, ..self }
    }

    /// Set the maximum delay in milliseconds.
    pub fn with_max_delay(self, delay_ms: u64) -> (r: Self)
        ensures
            r.spec_initial() == self.spec_initial(),
            r.spec_increment() == self.spec_increment(),
            r.spec_max() == delay_ms,
    {
        LinearBackoff { max_delay_ms: delay_ms, ..self }
    }
}

impl Backoff for LinearBackoff {
    open spec fn spec_delay(&self, attempt: nat) -> nat {
        spec_capped(
            self.spec_initial() as nat + attempt * self.spec_increment() as nat,
            self.spec_max() as nat,
        )
    }

    open spec fn spec_jitter_at(&self, attempt: nat) -> bool {
        false
    }

    fn next_delay(&self, attempt: usize) -> (r: u64) {
        proof {
            assert((attempt as nat) * (self.increment_ms as nat) + (self.initial_delay_ms as nat)
                < u128::MAX as nat) by (nonlinear_arith)
                requires
                    attempt as nat <= u64::MAX as nat,
                    self.increment_ms as nat <= u64::MAX as nat,
                    self.initial_delay_ms as nat <= u64::MAX as nat,
            ;
        }
        let total: u128 = (self.initial_delay_ms as u128) + (attempt as u128) * (self.increment_ms
            as u128);
        if total >= (self.max_delay_ms as u128) {
            self.max_delay_ms
        } else {
            total as u64
        }
    }
}

/// Fixed backoff strategy: the same delay for every retry attempt.
#[derive(Clone, Copy, Debug)]
pub struct FixedBackoff {
    delay_ms: u64,
}

impl FixedBackoff {
    /// The fixed backoff with the given delay.
    pub closed spec fn spec_with(delay_ms: u64) -> FixedBackoff {
        FixedBackoff { delay_ms }
    }

    pub closed spec fn spec_fixed(&self) -> u64 {
        self.delay_ms
    }

    /// Create a new fixed backoff with the given delay.
    pub fn new(delay_ms: u64) -> (r: Self)
        ensures
            r == FixedBackoff::spec_with(delay_ms),
            r.spec_fixed() == delay_ms,
    {
        FixedBackoff { delay_ms }
    }
}

impl Backoff for FixedBackoff {
    open spec fn spec_delay(&self, attempt: nat) -> nat {
        self.spec_fixed() as nat
    }

    open spec fn spec_jitter_at(&self, attempt: nat) -> bool {
        false
    }

    fn next_delay(&self, attempt: usize) -> (r: u64) {
        self.delay_ms
    }
}

impl Default for ExponentialBackoff {
    /// The default exponential backoff: 100ms initial, 30000ms maximum,
    /// factor 2, no jitter.
    fn default() -> (r: Self)
        ensures
            r == ExponentialBackoff::spec_default(),
    {
        ExponentialBackoff::new()
    }
}

impl Default for LinearBackoff {
    /// The default linear backoff: 100ms initial, 100ms increment,
    /// 10000ms maximum.
    fn default() -> (r: Self)
        ensures
            r == LinearBackoff::spec_default(),
    {
        LinearBackoff::new()
    }
}

/// Law: a fixed backoff yields the same delay for every attempt.
pub proof fn lemma_fixed_delay_constant(b: FixedBackoff, n: nat, m: nat)
    ensures
        b.spec_delay(n) == b.spec_delay(m),
{
}

/// Law: a linear backoff's delay never exceeds its configured maximum.
pub proof fn lemma_linear_delay_capped(b: LinearBackoff, n: nat)
    ensures
        b.spec_delay(n) <= b.spec_max(),
{
}

/// Law: for every attempt after the first, the nominal exponential delay
/// never exceeds the configured maximum. (At attempt 0 the configured
/// initial delay is returned exactly, with no cap and no jitter.)
pub proof fn lemma_exponential_delay_capped(b: ExponentialBackoff, n: nat)
    requires
        n >= 1,
    ensures
        b.spec_delay(n) <= b.spec_max(),
{
}

} // verus!
