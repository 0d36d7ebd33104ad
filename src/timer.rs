//! Re-arming of the periodic timer.
use vstd::prelude::*;

verus! {

/// Period of the sequencer's timer, in milliseconds.
pub const TIMER_INTERVAL: u64 = 1000;

/// The next deadline after a tick that started at `start` and whose work
/// ended at `finish`: the time left in the current period is subtracted,
/// so ticks stay on the period's grid instead of drifting by the time the
/// work took.
pub fn next_deadline(start: u64, finish: u64, interval: u64) -> (r: u64)
    requires
        start <= finish,
        interval > 0,
        finish + interval <= u64::MAX,
    ensures
        r == finish + interval - (finish - start) % (interval as int),
        finish < r <= finish + interval,
        (r - start) % (interval as int) == 0,
{
    let delta = finish - start;
    proof {
        let d = delta as int;
        let n = interval as int;
        assert(0 <= d % n < n) by (nonlinear_arith)
            requires
                n > 0,
        ;
        assert((d + n - d % n) % n == 0) by (nonlinear_arith)
            requires
                n > 0,
                d >= 0,
        ;
    }
    finish + interval - (delta % interval)
}

/// Period of the transceivers' timer, in milliseconds.
pub const POLL_INTERVAL: u64 = 500;

/// The deadline to arm at time `now`: once `deadline` has passed, the next
/// one is a full interval from now; before that it stays.
pub fn advance_deadline(now: u64, deadline: u64, interval: u64) -> (r: u64)
    requires
        now + interval <= u64::MAX,
    ensures
        r == if now >= deadline {
            now + interval
        } else {
            deadline as int
        },
{
    if now >= deadline {
        now + interval
    } else {
        deadline
    }
}

} // verus!
