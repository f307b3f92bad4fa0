//! Wall-clock access for the recovery engine.

use vstd::prelude::*;

verus! {

/// Relies on std::time::SystemTime::now: the current time, read as whole
/// milliseconds since the Unix epoch (zero when the clock reads earlier
/// than the epoch). The value depends on the machine's clock, so nothing
/// is promised of it.
#[verifier::external_body]
pub fn now_millis() -> u64 {
    match std::time::SystemTime::now().duration_since(std::time::UNIX_EPOCH) {
        Ok(d) => d.as_millis() as u64,
        Err(_) => 0,
    }
}

/// Blocks the caller until the wall clock has advanced by at least `ms`
/// milliseconds, by polling it. The poll count is bounded so that the
/// loop is provably finite; the bound is far beyond any real delay.
pub fn wait_millis(ms: u64) {
    let start = now_millis();
    let mut budget: u64 = u64::MAX;
    while budget > 0
        decreases budget,
    {
        let now = now_millis();
        if now >= start && now - start >= ms {
            return ;
        }
        budget = budget - 1;
    }
}

} // verus!
