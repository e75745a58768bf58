//! The registration record shared by every handle of a run loop: the
//! listeners on waitable handles and the queue of pending idle callbacks.

use vstd::prelude::*;

verus! {

/// A waitable handle paired with the callback invoked each time it is signaled.
/// The handle is an opaque, pointer-sized identifier; it is never dereferenced.
pub struct Listener<L> {
    pub h: usize,
    pub callback: L,
}

/// Listeners in registration order and idle callbacks in insertion order.
/// Listeners are only ever appended; the idle queue is appended to and taken
/// out whole.
pub struct RunLoopState<L, I> {
    listeners: Vec<Listener<L>>,
    idle: Vec<I>,
}

impl<L, I> RunLoopState<L, I> {
    /// The registered listeners, oldest first.
    pub closed spec fn listeners(&self) -> Seq<Listener<L>> {
        self.listeners@
    }

    /// The pending idle callbacks, oldest first.
    pub closed spec fn idle(&self) -> Seq<I> {
        self.idle@
    }

    /// The handles of the registered listeners, in registration order.
    pub open spec fn handles(&self) -> Seq<usize> {
        self.listeners().map_values(|l: Listener<L>| l.h)
    }

    /// A record with no listeners and no idle work.
    pub fn new() -> (s: Self)
        ensures
            s.listeners() == Seq::<Listener<L>>::empty(),
            s.idle() == Seq::<I>::empty(),
    {
        RunLoopState { listeners: Vec::new(), idle: Vec::new() }
    }

    /// Registers `callback` to be invoked whenever `h` is signaled.
    pub fn add_handler(&mut self, h: usize, callback: L)
        ensures
            final(self).listeners() == old(self).listeners().push(Listener { h, callback }),
            final(self).idle() == old(self).idle(),
    {
        self.listeners.push(Listener { h, callback });
    }

    /// Queues `callback` to run once, at the next idle drain.
    pub fn add_idle(&mut self, callback: I)
        ensures
            final(self).idle() == old(self).idle().push(callback),
            final(self).listeners() == old(self).listeners(),
    {
        self.idle.push(callback);
    }

    pub fn num_listeners(&self) -> (n: usize)
        ensures
            n == self.listeners().len(),
    {
        self.listeners.len()
    }

    pub fn has_idle(&self) -> (b: bool)
        ensures
            b == (self.idle().len() > 0),
    {
        self.idle.len() > 0
    }

    /// The callback of the listener registered at position `ix`.
    pub fn callback(&self, ix: usize) -> (c: &L)
        requires
            ix < self.listeners().len(),
        ensures
            *c == self.listeners()[ix as int].callback,
    {
        &self.listeners[ix].callback
    }

    /// A copy of the listeners' handles, in registration order.
    pub fn handles_snapshot(&self) -> (hs: Vec<usize>)
        ensures
            hs@ == self.handles(),
    {
        let mut hs: Vec<usize> = Vec::new();
        let mut i: usize = 0;
        while i < self.listeners.len()
            invariant
                i <= self.listeners@.len(),
                hs@ == self.handles().take(i as int),
            decreases self.listeners@.len() - i,
        {
            hs.push(self.listeners[i].h);
            i = i + 1;
            assert(hs@ =~= self.handles().take(i as int));
        }
        assert(hs@ =~= self.handles());
        hs
    }

    /// Takes the whole idle queue out, leaving it empty.
    pub fn take_idle(&mut self) -> (batch: Vec<I>)
        ensures
            batch@ == old(self).idle(),
            final(self).idle() == Seq::<I>::empty(),
            final(self).listeners() == old(self).listeners(),
    {
        let mut batch: Vec<I> = Vec::new();
        std::mem::swap(&mut self.idle, &mut batch);
        batch
    }
}

} // verus!
