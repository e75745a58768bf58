//! One turn of the run loop as a state machine.
//!
//! A turn snapshots the listeners' handles and picks the wait's timeout
//! (`Cycle::begin`), records what the composite wait reported
//! (`Cycle::waited`), records each message taken from the queue while it is
//! drained (`Cycle::message`), and finally decides the single unit of work
//! that the turn dispatches (`Cycle::finish`).

use crate::state::RunLoopState;
use crate::wait::{classify_wait, outcome_of, timeout_for, wait_timeout, WaitOutcome};
use vstd::prelude::*;

verus! {

/// Where a turn of the loop stands.
#[derive(Clone, Copy, Debug, PartialEq, Eq, Structural)]
pub enum Phase {
    /// The wait has not reported yet.
    Waiting,
    /// The wait reported this outcome; the message queue is being drained.
    Draining(WaitOutcome),
    /// The message queue delivered the quit notification, or could not be read.
    Quit,
}

/// The unit of work a turn ends with, without its payload.
#[derive(Clone, Copy, Debug, PartialEq, Eq, Structural)]
pub enum Decision {
    /// Invoke the callback of the listener at this position.
    Call(usize),
    /// Run the whole idle queue, in order.
    DrainIdle,
    /// Dispatch nothing; start the next turn.
    Nothing,
    /// Leave the loop.
    Stop,
}

/// The unit of work a turn ends with.
#[derive(Debug, PartialEq, Eq)]
pub enum Action<I> {
    /// Invoke the callback of the listener at this position, once.
    CallListener(usize),
    /// Run each of these idle callbacks once, in this order.
    RunIdle(Vec<I>),
    /// Dispatch nothing; start the next turn.
    Nothing,
    /// Leave the loop.
    Stop,
}

impl<I> Action<I> {
    pub open spec fn decision(&self) -> Decision {
        match self {
            Action::CallListener(ix) => Decision::Call(*ix),
            Action::RunIdle(_) => Decision::DrainIdle,
            Action::Nothing => Decision::Nothing,
            Action::Stop => Decision::Stop,
        }
    }

    /// The idle callbacks that the action runs.
    pub open spec fn batch(&self) -> Seq<I> {
        match self {
            Action::RunIdle(b) => b@,
            _ => Seq::empty(),
        }
    }
}

/// The phase once the wait over `count` handles returned `res`.
pub open spec fn after_wait(phase: Phase, res: u32, count: nat) -> Phase {
    match phase {
        Phase::Waiting => Phase::Draining(outcome_of(res, count)),
        _ => phase,
    }
}

/// The phase once a message fetch returned `res`: zero is the quit
/// notification and a negative value a failure to read the queue.
pub open spec fn after_message(phase: Phase, res: i32) -> Phase {
    if res <= 0 {
        Phase::Quit
    } else {
        phase
    }
}

/// The phase once the fetches in `fetched` were made, in order.
pub open spec fn after_messages(phase: Phase, fetched: Seq<i32>) -> Phase
    decreases fetched.len(),
{
    if fetched.len() == 0 {
        phase
    } else {
        after_messages(after_message(phase, fetched[0]), fetched.drop_first())
    }
}

/// The work a turn ends with, given its phase and how many listeners are
/// registered when it ends.
pub open spec fn decide(phase: Phase, n_listeners: nat) -> Decision {
    match phase {
        Phase::Draining(WaitOutcome::Signaled(ix)) => {
            if ix < n_listeners {
                Decision::Call(ix)
            } else {
                Decision::Nothing
            }
        },
        Phase::Draining(WaitOutcome::TimedOut) => Decision::DrainIdle,
        Phase::Draining(WaitOutcome::Failed) => Decision::Stop,
        Phase::Quit => Decision::Stop,
        _ => Decision::Nothing,
    }
}

/// The idle callbacks that a turn ending with `d` runs, out of the queue `q`.
pub open spec fn idle_batch<I>(d: Decision, q: Seq<I>) -> Seq<I> {
    if d == Decision::DrainIdle {
        q
    } else {
        Seq::empty()
    }
}

/// The idle queue left behind by a turn ending with `d`, out of the queue `q`.
pub open spec fn idle_left<I>(d: Decision, q: Seq<I>) -> Seq<I> {
    if d == Decision::DrainIdle {
        Seq::empty()
    } else {
        q
    }
}

/// What a turn knows: the handles it waits on, the timeout, its phase.
pub struct CycleView {
    pub handles: Seq<usize>,
    pub timeout: u32,
    pub phase: Phase,
}

/// One turn of the loop.
pub struct Cycle {
    handles: Vec<usize>,
    timeout: u32,
    phase: Phase,
}

impl View for Cycle {
    type V = CycleView;

    closed spec fn view(&self) -> CycleView {
        CycleView { handles: self.handles@, timeout: self.timeout, phase: self.phase }
    }
}

impl Cycle {
    /// Starts a turn: snapshots the listeners' handles, and polls rather than
    /// blocks when idle work is pending.
    pub fn begin<L, I>(state: &RunLoopState<L, I>) -> (c: Cycle)
        ensures
            c@.handles == state.handles(),
            c@.timeout == timeout_for(state.idle().len() > 0),
            c@.phase == Phase::Waiting,
    {
        let handles = state.handles_snapshot();
        let timeout = wait_timeout(state.has_idle());
        Cycle { handles, timeout, phase: Phase::Waiting }
    }

    /// The handles to wait on, in registration order.
    pub fn handles(&self) -> (hs: &Vec<usize>)
        ensures
            hs@ == self@.handles,
    {
        &self.handles
    }

    /// The wait's timeout, in milliseconds.
    pub fn timeout(&self) -> (t: u32)
        ensures
            t == self@.timeout,
    {
        self.timeout
    }

    pub fn phase(&self) -> (p: Phase)
        ensures
            p == self@.phase,
    {
        self.phase
    }

    /// Records the raw result `res` of the composite wait.
    pub fn waited(&mut self, res: u32)
        ensures
            final(self)@.phase == after_wait(old(self)@.phase, res, old(self)@.handles.len()),
            final(self)@.handles == old(self)@.handles,
            final(self)@.timeout == old(self)@.timeout,
    {
        if let Phase::Waiting = self.phase {
            self.phase = Phase::Draining(classify_wait(res, self.handles.len()));
        }
    }

    /// Records the result `res` of fetching a message while the queue is
    /// drained; returns whether the message is to be delivered and the
    /// draining to go on.
    pub fn message(&mut self, res: i32) -> (deliver: bool)
        ensures
            final(self)@.phase == after_message(old(self)@.phase, res),
            final(self)@.handles == old(self)@.handles,
            final(self)@.timeout == old(self)@.timeout,
            deliver == (final(self)@.phase != Phase::Quit),
    {
        if res <= 0 {
            self.phase = Phase::Quit;
        }
        !matches!(self.phase, Phase::Quit)
    }

    /// Ends the turn with its single unit of work. A drain of idle work takes
    /// the whole queue out of `state`; nothing else changes it.
    pub fn finish<L, I>(self, state: &mut RunLoopState<L, I>) -> (a: Action<I>)
        ensures
            a.decision() == decide(self@.phase, old(state).listeners().len()),
            a.batch() == idle_batch(a.decision(), old(state).idle()),
            final(state).idle() == idle_left(a.decision(), old(state).idle()),
            final(state).listeners() == old(state).listeners(),
    {
        match self.phase {
            Phase::Draining(WaitOutcome::Signaled(ix)) => {
                if ix < state.num_listeners() {
                    Action::CallListener(ix)
                } else {
                    Action::Nothing
                }
            },
            Phase::Draining(WaitOutcome::TimedOut) => Action::RunIdle(state.take_idle()),
            Phase::Draining(WaitOutcome::Failed) => Action::Stop,
            Phase::Quit => Action::Stop,
            _ => Action::Nothing,
        }
    }
}

} // verus!
