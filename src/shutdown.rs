use vstd::prelude::*;

use crate::notify::{wake_action_spec, NotifyState, WakeAction};

verus! {

/// Why a listener was not registered.
#[derive(Clone, Copy, Debug, PartialEq, Eq, Structural)]
pub enum StopError {
    /// A stop of everything is already under way: the callback would never run.
    Stopping,
}

/// A named stop callback.
pub struct Listener<F> {
    pub name: String,
    pub callback: F,
}

/// The process-wide registry of stop callbacks. Stopping hands out every
/// registered callback exactly once, so that each can be run.
pub struct StopRegistry<F> {
    listeners: Vec<Listener<F>>,
    stopping: bool,
}

impl<F> StopRegistry<F> {
    /// The callbacks registered and not yet handed out, in registration order.
    pub closed spec fn listeners_seq(&self) -> Seq<Listener<F>> {
        self.listeners@
    }

    /// Whether a stop of everything has begun.
    pub closed spec fn stopping_spec(&self) -> bool {
        self.stopping
    }

    /// Callbacks that were handed out are gone from the registry.
    pub open spec fn wf(&self) -> bool {
        self.stopping_spec() ==> self.listeners_seq().len() == 0
    }

    pub fn new() -> (r: Self)
        ensures
            r.wf(),
            r.listeners_seq() == Seq::<Listener<F>>::empty(),
            !r.stopping_spec(),
    {
        StopRegistry { listeners: Vec::new(), stopping: false }
    }

    /// Registers `callback` under `name`, to run when everything stops. Fails,
    /// leaving the registry as it was, once a stop has begun.
    pub fn add_listener(&mut self, name: String, callback: F) -> (r: Result<usize, StopError>)
        requires
            old(self).wf(),
        ensures
            final(self).wf(),
            old(self).stopping_spec() ==> r == Err::<usize, StopError>(StopError::Stopping)
                && final(self).listeners_seq() == old(self).listeners_seq(),
            !old(self).stopping_spec() ==> r == Ok::<usize, StopError>(
                old(self).listeners_seq().len() as usize,
            ) && final(self).listeners_seq() == old(self).listeners_seq().push(
                Listener { name, callback },
            ),
            final(self).stopping_spec() == old(self).stopping_spec(),
    {
        if self.stopping {
            return Err(StopError::Stopping);
        }
        let n = self.listeners.len();
        self.listeners.push(Listener { name, callback });
        Ok(n)
    }

    /// Begins the stop of everything: the first call hands out every
    /// registered callback, in registration order, for the caller to run;
    /// later calls hand out none, so no callback is handed out twice.
    pub fn stop_all(&mut self) -> (r: Vec<Listener<F>>)
        requires
            old(self).wf(),
        ensures
            final(self).wf(),
            final(self).stopping_spec(),
            final(self).listeners_seq() == Seq::<Listener<F>>::empty(),
            r@ == stop_all_spec(old(self).listeners_seq(), old(self).stopping_spec()),
    {
        if self.stopping {
            return Vec::new();
        }
        self.stopping = true;
        let mut taken: Vec<Listener<F>> = Vec::new();
        std::mem::swap(&mut taken, &mut self.listeners);
        taken
    }

    pub fn is_stopping(&self) -> (r: bool)
        ensures
            r == self.stopping_spec(),
    {
        self.stopping
    }

    pub fn len(&self) -> (r: usize)
        ensures
            r == self.listeners_seq().len(),
    {
        self.listeners.len()
    }
}

/// The callbacks that a stop of everything hands out.
pub open spec fn stop_all_spec<F>(listeners: Seq<Listener<F>>, stopping: bool) -> Seq<Listener<F>> {
    if stopping {
        Seq::empty()
    } else {
        listeners
    }
}

/// One reactor's failure tears the other down: the first stop of everything
/// hands out every registered callback, the other reactor's among them, and
/// once that callback records a stop on the other reactor's notifier, its next
/// wake-up ends it, whatever updates are pending.
pub proof fn lemma_cascade_shutdown<F>(listeners: Seq<Listener<F>>, i: int, other: NotifyState)
    requires
        0 <= i < listeners.len(),
    ensures
        stop_all_spec(listeners, false).contains(listeners[i]),
        wake_action_spec(NotifyState { stop: true, ..other }) == WakeAction::Exit,
{
    assert(stop_all_spec(listeners, false)[i] == listeners[i]);
}

} // verus!
