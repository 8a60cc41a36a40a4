//! The fixed-interval scheduling decision.
//!
//! The process around this crate runs the actual loop: it executes one
//! measurement cycle, clocks how long the cycle took, and asks [`next_action`]
//! what to do. The decision itself — sleep for the rest of the interval,
//! start over immediately after an overrun, or stop on a failed cycle — is
//! made and proved here.

use vstd::prelude::*;
use crate::error::SwError;

verus! {

/// Milliseconds in one minute: the configured interval is expressed in whole
/// minutes, so a fraction of a minute is not representable at the interface.
pub const MILLIS_PER_MINUTE: u64 = 60000;

/// What the scheduler learns from one measurement cycle.
#[derive(Debug, Clone, PartialEq, Eq)]
pub enum CycleOutcome {
    /// The cycle succeeded and consumed this much wall-clock time.
    Completed { elapsed_millis: u64 },
    /// The cycle failed. No part of a cycle is retried.
    Failed(SwError),
}

/// What the scheduler does after a cycle.
#[derive(Debug, Clone, PartialEq, Eq)]
pub enum Action {
    /// Suspend for this many milliseconds, then run the next cycle. Zero
    /// means the cycle overran the interval and the next one starts at once.
    Sleep(u64),
    /// Stop scheduling and propagate this error to the caller.
    Terminate(SwError),
}

/// The configured interval, in milliseconds.
pub open spec fn interval_millis(interval_minutes: u64) -> int {
    interval_minutes * MILLIS_PER_MINUTE
}

/// How long to suspend after a completed cycle: the part of the interval the
/// cycle did not consume, and nothing at all once the cycle overran it. An
/// overrun is tolerated silently; no later sleep is shortened to make up for
/// it.
pub open spec fn remaining_sleep(interval: int, elapsed: int) -> int {
    if elapsed < interval {
        interval - elapsed
    } else {
        0
    }
}

/// One scheduling decision. A failed cycle terminates the scheduler with that
/// very error, before any sleep; a completed one is followed by a sleep of
/// exactly the unconsumed part of the interval.
pub fn next_action(interval_minutes: u64, outcome: CycleOutcome) -> (r: Action)
    requires
        interval_millis(interval_minutes) <= u64::MAX,
    ensures
        outcome matches CycleOutcome::Failed(e) ==> r == Action::Terminate(e),
        outcome matches CycleOutcome::Completed { elapsed_millis } ==> r == Action::Sleep(
            remaining_sleep(interval_millis(interval_minutes), elapsed_millis as int) as u64,
        ),
{
    match outcome {
        CycleOutcome::Failed(e) => Action::Terminate(e),
        CycleOutcome::Completed { elapsed_millis } => {
            let interval: u64 = interval_minutes * MILLIS_PER_MINUTE;
            if elapsed_millis < interval {
                Action::Sleep(interval - elapsed_millis)
            } else {
                Action::Sleep(0)
            }
        },
    }
}

} // verus!
