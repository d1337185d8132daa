//! The readiness latch: a one-shot barrier that starts not ready and moves
//! to ready at most once, with two interchangeable wait strategies.

use vstd::prelude::*;

verus! {

/// Which wait semantics the latch uses, selected once at construction.
///
/// `Deferred` means real wait semantics: a consumer truly suspends until the
/// latch is marked ready. `Immediate` means always-ready semantics, for an
/// execution context where the value is already materialized before any
/// consumer observes it, so waiting would only stall the context.
#[derive(Clone, Copy, Debug, PartialEq, Eq, Structural)]
pub enum Strategy {
    Deferred,
    Immediate,
}

/// A one-shot readiness latch. It starts not ready; `mark_ready` flips it to
/// ready at most once (idempotently). A waiter suspends exactly while
/// `suspends` holds: under the `Immediate` strategy it never does.
///
/// The latch here is the decision core alone. The surrounding runtime holds
/// it behind shared ownership and a lock, registers waiters, and broadcasts a
/// wake whenever a transition reports that one is due.
#[derive(Clone, Copy, Debug, PartialEq, Eq, Structural)]
pub struct AsyncState {
    /// The wait strategy fixed at construction.
    pub strategy: Strategy,
    /// Whether the latch has been marked ready.
    pub ready: bool,
}

impl AsyncState {
    /// A latch in its initial, not-yet-marked state.
    pub open spec fn init(strategy: Strategy) -> AsyncState {
        AsyncState { strategy, ready: false }
    }

    /// A wait on this latch completes: either it was marked ready, or the
    /// strategy never waits at all.
    pub open spec fn resolved(self) -> bool {
        self.ready || self.strategy is Immediate
    }

    /// A wait on this latch must suspend.
    pub open spec fn suspends(self) -> bool {
        !self.resolved()
    }

    /// The latch after a `mark_ready` transition: under `Deferred` it
    /// becomes ready; under `Immediate` marking is a no-op.
    pub open spec fn marked(self) -> AsyncState {
        match self.strategy {
            Strategy::Deferred => AsyncState { strategy: self.strategy, ready: true },
            Strategy::Immediate => self,
        }
    }

    /// Creates a latch with the given strategy, initially not ready.
    pub fn new(strategy: Strategy) -> (s: AsyncState)
        ensures
            s == AsyncState::init(strategy),
            s.resolved() <==> strategy is Immediate,
    {
        AsyncState { strategy, ready: false }
    }

    /// Marks the latch ready. Idempotent and infallible: calling it on an
    /// already-ready latch changes nothing. Returns whether this call made
    /// the not-ready-to-ready transition, i.e. whether waiters are now owed
    /// a broadcast wake; a repeated call never reports a second wake.
    pub fn mark_ready(&mut self) -> (wake: bool)
        ensures
            *final(self) == old(self).marked(),
            final(self).resolved(),
            wake == (old(self).strategy is Deferred && !old(self).ready),
    {
        match self.strategy {
            Strategy::Deferred => {
                let was_ready = self.ready;
                self.ready = true;
                !was_ready
            },
            Strategy::Immediate => false,
        }
    }

    /// The check a waiter makes before registering: true exactly when a wait
    /// on the latch would have to suspend. Under the `Immediate` strategy the
    /// answer is always false, whatever was or was not marked before.
    pub fn should_suspend(&self) -> (r: bool)
        ensures
            r == self.suspends(),
    {
        match self.strategy {
            Strategy::Deferred => !self.ready,
            Strategy::Immediate => false,
        }
    }
}

} // verus!
