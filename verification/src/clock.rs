//! Wall-clock reading for telemetry. Timing never influences which
//! nonce is found; it only feeds elapsed-time and hashrate reporting.

use vstd::prelude::*;

verus! {

/// Relies on std::time::SystemTime::now and duration_since: the
/// microseconds elapsed since the UNIX epoch, saturated to `u64` and
/// zero if the clock sits before the epoch. The value depends on the
/// machine's clock, so nothing is promised of it.
#[verifier::external_body]
pub fn now_micros() -> (r: u64) {
    match std::time::SystemTime::now().duration_since(std::time::UNIX_EPOCH) {
        Ok(d) => {
            let m = d.as_micros();
            if m > u64::MAX as u128 {
                u64::MAX
            } else {
                m as u64
            }
        },
        Err(_) => 0,
    }
}

/// Microseconds from `t0` to `t1`, zero when the clock stepped back.
pub fn micros_between(t0: u64, t1: u64) -> (r: u64)
    ensures
        r == if t1 >= t0 {
            t1 - t0
        } else {
            0
        },
{
    if t1 >= t0 {
        t1 - t0
    } else {
        0
    }
}

} // verus!
