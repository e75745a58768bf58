//! Reading the result of the composite wait, and choosing its timeout.

use vstd::prelude::*;

verus! {

/// The composite wait's result for the first handle of the wait set; handle
/// `i` is reported as `WAIT_OBJECT_0 + i`.
pub const WAIT_OBJECT_0: u32 = 0;

/// The composite wait's result when the timeout elapsed with nothing signaled.
pub const WAIT_TIMEOUT: u32 = 258;

/// The composite wait's result when the wait itself failed.
pub const WAIT_FAILED: u32 = 0xFFFF_FFFF;

/// The most handles one wait can watch; the message queue takes one of them.
pub const MAXIMUM_WAIT_OBJECTS: u32 = 64;

/// The timeout, in milliseconds, that makes the wait block indefinitely.
pub const INFINITE: u32 = 0xFFFF_FFFF;

/// What the composite wait reported.
#[derive(Clone, Copy, Debug, PartialEq, Eq, Structural)]
pub enum WaitOutcome {
    /// The handle at this position of the wait set became signaled.
    Signaled(usize),
    /// Nothing was signaled before the timeout elapsed.
    TimedOut,
    /// The wait itself failed.
    Failed,
    /// Anything else: a message arrived, or an abandoned mutex was reported.
    Woken,
}

/// The outcome that the raw result `res` of a wait over `count` handles stands for.
/// A position inside the wait set takes precedence over the other readings.
pub open spec fn outcome_of(res: u32, count: nat) -> WaitOutcome {
    if WAIT_OBJECT_0 <= res && res - WAIT_OBJECT_0 < count {
        WaitOutcome::Signaled((res - WAIT_OBJECT_0) as usize)
    } else if res == WAIT_TIMEOUT {
        WaitOutcome::TimedOut
    } else if res == WAIT_FAILED {
        WaitOutcome::Failed
    } else {
        WaitOutcome::Woken
    }
}

/// The wait's timeout: poll when idle work is pending, otherwise block.
pub open spec fn timeout_for(has_idle: bool) -> u32 {
    if has_idle {
        0
    } else {
        INFINITE
    }
}

/// Reads the raw result of a wait over `count` handles.
pub fn classify_wait(res: u32, count: usize) -> (o: WaitOutcome)
    ensures
        o == outcome_of(res, count as nat),
{
    if WAIT_OBJECT_0 <= res && ((res - WAIT_OBJECT_0) as usize) < count {
        WaitOutcome::Signaled((res - WAIT_OBJECT_0) as usize)
    } else if res == WAIT_TIMEOUT {
        WaitOutcome::TimedOut
    } else if res == WAIT_FAILED {
        WaitOutcome::Failed
    } else {
        WaitOutcome::Woken
    }
}

/// The timeout to wait with, given whether idle work is pending.
pub fn wait_timeout(has_idle: bool) -> (t: u32)
    ensures
        t == timeout_for(has_idle),
{
    if has_idle {
        0
    } else {
        INFINITE
    }
}

} // verus!
