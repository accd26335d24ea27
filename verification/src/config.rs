use vstd::prelude::*;

verus! {

/// Timing derived from the two duration-style configuration inputs: the total
/// idle timeout and the requested countdown length, both in milliseconds.
pub struct TimerConfig {
    /// Length of the warning countdown, in whole seconds.
    pub countdown_secs: u64,
    /// Per-device inactivity threshold handed to the idle-notification
    /// subscription, in milliseconds.
    pub wait_millis: u32,
}

/// The countdown runs for `min(countdown, timeout)`, floored to whole seconds.
pub open spec fn countdown_len_secs(timeout_ms: u64, countdown_ms: u64) -> int {
    (if countdown_ms <= timeout_ms {
        countdown_ms as int
    } else {
        timeout_ms as int
    }) / 1000
}

/// A device counts as idle once it has been inactive for the total timeout
/// minus the countdown length, so that the warning ends exactly when the
/// timeout elapses.
pub open spec fn idle_wait_millis(timeout_ms: u64, countdown_ms: u64) -> int {
    timeout_ms - countdown_len_secs(timeout_ms, countdown_ms) * 1000
}

/// Derives the countdown length and the idle threshold from the two
/// configured durations. The threshold must fit the subscription interface's
/// 32-bit millisecond field; a timeout too large for it is rejected.
pub fn derive_config(timeout_ms: u64, countdown_ms: u64) -> (r: Option<TimerConfig>)
    ensures
        r is Some <==> idle_wait_millis(timeout_ms, countdown_ms) <= u32::MAX,
        r matches Some(c) ==> {
            &&& c.countdown_secs == countdown_len_secs(timeout_ms, countdown_ms)
            &&& c.wait_millis == idle_wait_millis(timeout_ms, countdown_ms)
        },
{
    let capped_ms: u64 = if countdown_ms <= timeout_ms {
        countdown_ms
    } else {
        timeout_ms
    };
    let countdown_secs: u64 = capped_ms / 1000;
    proof {
        assert(countdown_secs * 1000 <= capped_ms) by (nonlinear_arith)
            requires countdown_secs == capped_ms as int / 1000;
    }
    let wait_ms: u64 = timeout_ms - countdown_secs * 1000;
    if wait_ms <= u32::MAX as u64 {
        Some(TimerConfig { countdown_secs, wait_millis: wait_ms as u32 })
    } else {
        None
    }
}

} // verus!
