use vstd::prelude::*;

verus! {

/// The intents recorded beside a reactor's wake primitive. Producers set a
/// flag and then fire the primitive; the reactor reads the flags on waking.
#[derive(Clone, Copy, Debug, PartialEq, Eq, Structural)]
pub struct NotifyState {
    /// A stop was requested.
    pub stop: bool,
    /// Socket-set updates wait in the control queue.
    pub add_socket: bool,
}

/// What a reactor does when its notifier token fires.
#[derive(Clone, Copy, Debug, PartialEq, Eq, Structural)]
pub enum WakeAction {
    /// End the reactor thread.
    Exit,
    /// Take every queued control message, without blocking, and apply each in order.
    DrainControl,
    /// A plain wake: go back to waiting.
    Ignore,
}

/// The action taken on waking in state `s`: stop comes before any update.
pub open spec fn wake_action_spec(s: NotifyState) -> WakeAction {
    if s.stop {
        WakeAction::Exit
    } else if s.add_socket {
        WakeAction::DrainControl
    } else {
        WakeAction::Ignore
    }
}

/// The state left after waking in state `s`: a pending update is consumed by
/// the drain it triggers; a stop stays set.
pub open spec fn after_wake_spec(s: NotifyState) -> NotifyState {
    if !s.stop && s.add_socket {
        NotifyState { stop: false, add_socket: false }
    } else {
        s
    }
}

impl NotifyState {
    /// No intent recorded.
    pub fn new() -> (r: NotifyState)
        ensures
            !r.stop,
            !r.add_socket,
    {
        NotifyState { stop: false, add_socket: false }
    }

    /// Records a stop request; the caller fires the wake primitive next.
    pub fn request_stop(&mut self)
        ensures
            final(self).stop,
            final(self).add_socket == old(self).add_socket,
    {
        self.stop = true;
    }

    /// Records that socket-set updates were queued; the caller fires the wake
    /// primitive next.
    pub fn request_add_socket(&mut self)
        ensures
            final(self).add_socket,
            final(self).stop == old(self).stop,
    {
        self.add_socket = true;
    }

    pub fn is_stop(&self) -> (r: bool)
        ensures
            r == self.stop,
    {
        self.stop
    }

    pub fn is_add_socket(&self) -> (r: bool)
        ensures
            r == self.add_socket,
    {
        self.add_socket
    }

    /// Decides what the reactor does now that its notifier fired. Taking the
    /// update intent clears it before the queue is drained, so an update queued
    /// during the drain raises it again and brings another wake-up.
    pub fn on_wake(&mut self) -> (r: WakeAction)
        ensures
            r == wake_action_spec(*old(self)),
            *final(self) == after_wake_spec(*old(self)),
    {
        if self.stop {
            WakeAction::Exit
        } else if self.add_socket {
            self.add_socket = false;
            WakeAction::DrainControl
        } else {
            WakeAction::Ignore
        }
    }
}

/// Stop wins: once a stop is requested, whatever updates are pending, every
/// wake-up ends the reactor and none drains the control queue.
pub proof fn lemma_stop_precedence(s: NotifyState)
    requires
        s.stop,
    ensures
        wake_action_spec(s) == WakeAction::Exit,
        after_wake_spec(s) == s,
        wake_action_spec(after_wake_spec(s)) == WakeAction::Exit,
        wake_action_spec(NotifyState { add_socket: true, ..s }) == WakeAction::Exit,
{
}

} // verus!
