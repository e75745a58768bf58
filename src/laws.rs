//! What the loop guarantees across the steps of a turn and from one turn to
//! the next, stated over the models that the operations' contracts use.

use crate::cycle::{
    after_message, after_messages, after_wait, decide, idle_batch, idle_left, Decision, Phase,
};
use crate::state::Listener;
use crate::wait::{
    outcome_of, timeout_for, WaitOutcome, MAXIMUM_WAIT_OBJECTS, WAIT_OBJECT_0, WAIT_TIMEOUT,
};
use vstd::prelude::*;

verus! {

/// `listeners` holds the listeners whose handles `snapshot` recorded, at the
/// same positions, possibly followed by more: registration only appends.
pub open spec fn extends_snapshot<L>(listeners: Seq<Listener<L>>, snapshot: Seq<usize>) -> bool {
    &&& snapshot.len() <= listeners.len()
    &&& forall|i: int| 0 <= i < snapshot.len() ==> #[trigger] listeners[i].h == snapshot[i]
}

/// A snapshot of the handles stays extended by the listeners as more are
/// registered.
pub proof fn lemma_registration_extends_snapshot<L>(listeners: Seq<Listener<L>>, snapshot: Seq<usize>, l: Listener<L>)
    requires
        extends_snapshot(listeners, snapshot),
    ensures
        extends_snapshot(listeners.push(l), snapshot),
{
    assert forall|i: int| 0 <= i < snapshot.len() implies #[trigger] listeners.push(l)[i].h == snapshot[i] by {
        assert(listeners.push(l)[i] == listeners[i]);
    }
}

/// Delivering messages leaves a turn's phase as it was.
pub proof fn lemma_delivered_messages_keep_phase(phase: Phase, fetched: Seq<i32>)
    requires
        forall|i: int| 0 <= i < fetched.len() ==> #[trigger] fetched[i] > 0,
    ensures
        after_messages(phase, fetched) == phase,
    decreases fetched.len(),
{
    if fetched.len() > 0 {
        assert(fetched[0] > 0);
        let rest = fetched.drop_first();
        assert forall|i: int| 0 <= i < rest.len() implies #[trigger] rest[i] > 0 by {
            assert(rest[i] == fetched[i + 1]);
        }
        lemma_delivered_messages_keep_phase(after_message(phase, fetched[0]), rest);
    }
}

/// Once the queue reports quit, later fetches leave the turn quitting.
pub proof fn lemma_quit_is_final(fetched: Seq<i32>)
    ensures
        after_messages(Phase::Quit, fetched) == Phase::Quit,
    decreases fetched.len(),
{
    if fetched.len() > 0 {
        lemma_quit_is_final(fetched.drop_first());
    }
}

/// Listener dispatch: in a turn whose wait reports a position of the handle
/// snapshot, and whose drain delivers messages without a quit, the turn ends
/// by invoking exactly the listener at that position, the one registered on
/// the signaled handle, even if more listeners were registered meanwhile.
/// This holds in every turn, so each signal is answered by one invocation.
pub proof fn law_signal_invokes_its_listener<L>(
    snapshot: Seq<usize>,
    listeners: Seq<Listener<L>>,
    res: u32,
    fetched: Seq<i32>,
)
    requires
        extends_snapshot(listeners, snapshot),
        WAIT_OBJECT_0 <= res,
        res - WAIT_OBJECT_0 < snapshot.len(),
        forall|i: int| 0 <= i < fetched.len() ==> #[trigger] fetched[i] > 0,
    ensures
        ({
            let ix = (res - WAIT_OBJECT_0) as usize;
            &&& decide(after_messages(after_wait(Phase::Waiting, res, snapshot.len()), fetched), listeners.len())
                == Decision::Call(ix)
            &&& listeners[ix as int].h == snapshot[ix as int]
        }),
{
    let p = after_wait(Phase::Waiting, res, snapshot.len());
    lemma_delivered_messages_keep_phase(p, fetched);
}

/// Idle draining: while idle work is pending the wait polls instead of
/// blocking; when it then times out over a wait set within the platform's
/// limit, and the drain delivers messages without a quit, the turn runs the
/// whole queue in insertion order and leaves it empty.
pub proof fn law_pending_idle_runs_in_order<I>(q: Seq<I>, count: nat, n_listeners: nat, fetched: Seq<i32>)
    requires
        q.len() > 0,
        count < MAXIMUM_WAIT_OBJECTS,
        forall|i: int| 0 <= i < fetched.len() ==> #[trigger] fetched[i] > 0,
    ensures
        timeout_for(q.len() > 0) == 0,
        ({
            let d = decide(after_messages(after_wait(Phase::Waiting, WAIT_TIMEOUT, count), fetched), n_listeners);
            &&& d == Decision::DrainIdle
            &&& idle_batch(d, q) == q
            &&& idle_left(d, q) == Seq::<I>::empty()
        }),
{
    let p = after_wait(Phase::Waiting, WAIT_TIMEOUT, count);
    assert(outcome_of(WAIT_TIMEOUT, count) == WaitOutcome::TimedOut);
    lemma_delivered_messages_keep_phase(p, fetched);
}

/// Idle work registered during a listener dispatch: a turn that invokes a
/// listener runs no idle callback, so a callback queued by that listener is
/// not run in the same step; it stays at the end of the queue, and the next
/// turn polls so that it runs at the next idle drain.
pub proof fn law_idle_added_by_listener_waits<I>(ix: usize, n_listeners: nat, q: Seq<I>, c: I)
    requires
        ix < n_listeners,
    ensures
        ({
            let d = decide(Phase::Draining(WaitOutcome::Signaled(ix)), n_listeners);
            let next = idle_left(d, q).push(c);
            &&& d == Decision::Call(ix)
            &&& idle_batch(d, q) == Seq::<I>::empty()
            &&& next == q.push(c)
            &&& timeout_for(next.len() > 0) == 0
        }),
{
}

/// Quit: when a fetch made while draining reports quit or a read failure,
/// whatever the wait reported and whatever came before or after it in the
/// drain, the turn ends by leaving the loop, with nothing dispatched.
pub proof fn law_quit_stops_the_loop(res: u32, count: nat, n_listeners: nat, fetched: Seq<i32>, k: int)
    requires
        0 <= k < fetched.len(),
        fetched[k] <= 0,
    ensures
        decide(after_messages(after_wait(Phase::Waiting, res, count), fetched), n_listeners)
            == Decision::Stop,
{
    lemma_quit_reached(after_wait(Phase::Waiting, res, count), fetched, k);
}

proof fn lemma_quit_reached(phase: Phase, fetched: Seq<i32>, k: int)
    requires
        0 <= k < fetched.len(),
        fetched[k] <= 0,
    ensures
        after_messages(phase, fetched) == Phase::Quit,
    decreases fetched.len(),
{
    let rest = fetched.drop_first();
    if k == 0 {
        lemma_quit_is_final(rest);
    } else {
        assert(rest[k - 1] == fetched[k]);
        lemma_quit_reached(after_message(phase, fetched[0]), rest, k - 1);
    }
}

} // verus!
