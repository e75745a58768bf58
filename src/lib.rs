//! Platform-independent core of a single-threaded run loop that multiplexes
//! waitable handles, a UI message queue and idle work.
//!
//! The registration record (`state`) and the decisions taken in each turn of
//! the loop (`wait`, `cycle`) are verified here, together with the guarantees
//! that hold across turns (`laws`). The platform's blocking wait, its message
//! queue and the invocation of callbacks are driven by the caller, which
//! performs the work that a turn decides on.

pub mod cycle;
pub mod laws;
pub mod state;
pub mod wait;

pub use cycle::{Action, Cycle, Decision, Phase};
pub use state::{Listener, RunLoopState};
pub use wait::{classify_wait, wait_timeout, WaitOutcome};
