//! Pacing of the progress indications emitted while the remote node is
//! still syncing: polls happen at the call frequency, but an indication is
//! emitted only once enough polls have accumulated to span the coarser log
//! frequency.

use vstd::prelude::*;

verus! {

/// Sum saturating at the largest representable value.
pub open spec fn saturating_add_spec(a: u64, b: u64) -> u64 {
    if a + b > u64::MAX {
        u64::MAX
    } else {
        (a + b) as u64
    }
}

/// Time accumulated towards the next progress indication after one more
/// poll interval.
pub open spec fn accumulated_spec(since_last_log: u64, call_frequency: u64) -> u64 {
    saturating_add_spec(since_last_log, call_frequency)
}

/// Whether one more poll interval pushes the accumulated wait over the log
/// frequency, so a progress indication is due.
pub open spec fn progress_due_spec(
    since_last_log: u64,
    call_frequency: u64,
    log_frequency: u64,
) -> bool {
    accumulated_spec(since_last_log, call_frequency) >= log_frequency
}

/// Account one gate poll: returns the new time accumulated since the last
/// progress indication (restarting once one is due) and whether to emit the
/// indication now.
pub fn progress_log_step(since_last_log: u64, call_frequency: u64, log_frequency: u64) -> (r: (
    u64,
    bool,
))
    ensures
        r.1 == progress_due_spec(since_last_log, call_frequency, log_frequency),
        r.0 == if r.1 {
            0u64
        } else {
            accumulated_spec(since_last_log, call_frequency)
        },
{
    let accumulated = if since_last_log > u64::MAX - call_frequency {
        u64::MAX
    } else {
        since_last_log + call_frequency
    };
    if accumulated >= log_frequency {
        (0, true)
    } else {
        (accumulated, false)
    }
}

} // verus!
