//! Orderly, idempotent shutdown of the engine's threads.
use vstd::prelude::*;

verus! {

/// A part of the engine that a shutdown signals.
#[derive(Clone, Copy, Debug, PartialEq, Eq, Structural)]
pub enum ShutdownSignal {
    /// The shared shutdown channel of the event processor and the keyboard matcher.
    EventLoop,
    /// The sequence executor: it goes inactive and interrupts pending delays.
    Executor,
    /// The configuration watchdog.
    Watchdog,
    /// The macro queue.
    Queue,
}

/// Whether shutdown was signalled and whether the threads were joined.
#[derive(Debug)]
pub struct LifecycleManager {
    signalled: bool,
    joined: bool,
}

pub struct LifecycleView {
    pub signalled: bool,
    pub joined: bool,
}

impl View for LifecycleManager {
    type V = LifecycleView;

    closed spec fn view(&self) -> LifecycleView {
        LifecycleView { signalled: self.signalled, joined: self.joined }
    }
}

/// The signals that a shutdown sends, in order: none once they have been sent.
pub open spec fn signals_for(s: LifecycleView) -> Seq<ShutdownSignal> {
    if s.signalled {
        Seq::empty()
    } else {
        seq![
            ShutdownSignal::EventLoop,
            ShutdownSignal::Executor,
            ShutdownSignal::Watchdog,
            ShutdownSignal::Queue,
        ]
    }
}

/// The state after a shutdown.
pub open spec fn after_shutdown(s: LifecycleView) -> LifecycleView {
    LifecycleView { signalled: true, ..s }
}

impl LifecycleManager {
    /// Nothing signalled, nothing joined.
    pub fn new() -> (r: LifecycleManager)
        ensures
            !r@.signalled,
            !r@.joined,
    {
        LifecycleManager { signalled: false, joined: false }
    }

    /// The signals to send now: every part, the first time; nothing after that, so
    /// that a second shutdown neither sends again nor waits on a full channel.
    pub fn shutdown(&mut self) -> (r: Vec<ShutdownSignal>)
        ensures
            r@ == signals_for(old(self)@),
            final(self)@ == after_shutdown(old(self)@),
    {
        let mut r: Vec<ShutdownSignal> = Vec::new();
        if !self.signalled {
            r.push(ShutdownSignal::EventLoop);
            r.push(ShutdownSignal::Executor);
            r.push(ShutdownSignal::Watchdog);
            r.push(ShutdownSignal::Queue);
            self.signalled = true;
        }
        assert(r@ =~= signals_for(old(self)@));
        r
    }

    /// Whether the threads are to be joined now: once, and only after shutdown was
    /// signalled, so that no join waits on a thread that was never told to stop.
    pub fn wait_for_completion(&mut self) -> (r: bool)
        ensures
            r == (old(self)@.signalled && !old(self)@.joined),
            final(self)@ == (LifecycleView {
                joined: old(self)@.joined || old(self)@.signalled,
                ..old(self)@
            }),
    {
        if self.signalled && !self.joined {
            self.joined = true;
            true
        } else {
            false
        }
    }
}

/// Shutting down twice ends in the same state as shutting down once, and the
/// second shutdown sends nothing.
pub proof fn lemma_shutdown_idempotent(s: LifecycleView)
    ensures
        after_shutdown(after_shutdown(s)) == after_shutdown(s),
        signals_for(after_shutdown(s)) == Seq::<ShutdownSignal>::empty(),
{
}

} // verus!
