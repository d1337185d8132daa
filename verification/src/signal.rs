//! The shared state of one producer/consumer pair: the value cell, the
//! readiness latch, and the explicit count of live producer handles.

use vstd::prelude::*;

use crate::async_state::AsyncState;
use crate::async_state::Strategy;

verus! {

/// The shared state behind one async signal: a value cell holding the current
/// value (initially a caller-supplied placeholder), the readiness latch the
/// consumer waits on, and an explicit reference count of live producer
/// handles.
///
/// The surrounding runtime owns one of these behind shared ownership and a
/// lock; every producer-handle clone and the consumer binding drive it
/// through the transitions below. The state machine of the pair: it starts
/// unset (latch not ready, cell holding the placeholder); `set` moves it to
/// set (latch ready, cell holding the written value); destruction of the last
/// live producer handle with no prior write moves it to abandoned (latch
/// ready, cell still holding the placeholder), so the consumer is never left
/// waiting forever. Readiness is sticky: both outcomes are terminal for the
/// latch, though a later `set` may still overwrite the cell for subsequent
/// reads.
pub struct AsyncSignal<T> {
    /// The value cell: the current value, read by snapshot, written by
    /// replacement.
    pub value: T,
    /// The readiness latch shared by the producer side and the consumer.
    pub state: AsyncState,
    /// How many producer handles are live. Zero means the producer side is
    /// gone for good; the well-formedness invariant then has the latch
    /// resolved.
    pub producers: u64,
}

impl<T> AsyncSignal<T> {
    /// Well-formedness of a reachable pair state: once no producer handle is
    /// left, the latch has resolved (either a write or the abandonment
    /// fallback marked it), so no consumer can be stranded.
    pub open spec fn wf(self) -> bool {
        self.producers == 0 ==> self.state.resolved()
    }

    /// The state of a freshly constructed pair: the placeholder in the cell,
    /// a fresh latch, and a single live producer handle.
    pub open spec fn init(default: T, strategy: Strategy) -> AsyncSignal<T> {
        AsyncSignal { value: default, state: AsyncState::init(strategy), producers: 1 }
    }

    /// The pair after a write: the cell holds the written value
    /// (last-write-wins) and the latch has been marked.
    pub open spec fn set_t(self, value: T) -> AsyncSignal<T> {
        AsyncSignal { value, state: self.state.marked(), producers: self.producers }
    }

    /// The pair after one more producer handle is cloned.
    pub open spec fn clone_t(self) -> AsyncSignal<T> {
        if self.producers == u64::MAX {
            self
        } else {
            AsyncSignal {
                value: self.value,
                state: self.state,
                producers: (self.producers + 1) as u64,
            }
        }
    }

    /// The pair after one producer handle is destroyed. Destroying one of
    /// several live handles only decrements the count; destroying the last
    /// one also fires the abandonment fallback, marking the latch so the
    /// consumer resolves with whatever the cell currently holds. The
    /// fallback marking is idempotent, so a drop after an explicit write
    /// neither re-triggers nor corrupts anything.
    pub open spec fn drop_t(self) -> AsyncSignal<T> {
        if self.producers == 0 {
            self
        } else if self.producers == 1 {
            AsyncSignal { value: self.value, state: self.state.marked(), producers: 0 }
        } else {
            AsyncSignal {
                value: self.value,
                state: self.state,
                producers: (self.producers - 1) as u64,
            }
        }
    }

    /// Writes a value: replaces the cell's contents and immediately marks the
    /// latch, so every consumer resolution from this point on — a waiter
    /// about to be woken or a later re-invocation — reads this value, unless
    /// a later write replaces it first.
    pub fn set(&mut self, value: T)
        requires
            old(self).producers >= 1,
        ensures
            *final(self) == old(self).set_t(value),
            final(self).state.resolved(),
            final(self).wf(),
    {
        self.value = value;
        let _ = self.state.mark_ready();
    }

    /// Like `set`, but also hands back the previous value from the cell, for
    /// callers that want the old value for comparison. The cell always holds
    /// a value (at worst the placeholder), so there always is a previous one;
    /// the latch is marked regardless.
    pub fn try_set(&mut self, value: T) -> (previous: Option<T>)
        requires
            old(self).producers >= 1,
        ensures
            *final(self) == old(self).set_t(value),
            final(self).state.resolved(),
            final(self).wf(),
            previous == Some(old(self).value),
    {
        let mut swapped = value;
        core::mem::swap(&mut self.value, &mut swapped);
        let _ = self.state.mark_ready();
        Some(swapped)
    }

    /// Records the cloning of a producer handle: one more live handle shares
    /// the pair. Cloning alone never touches the cell or the latch.
    pub fn clone_producer(&mut self)
        requires
            old(self).producers >= 1,
            old(self).producers < u64::MAX,
        ensures
            *final(self) == old(self).clone_t(),
            final(self).producers == old(self).producers + 1,
            final(self).wf(),
    {
        self.producers = self.producers + 1;
    }

    /// Records the destruction of a producer handle. Only the destruction of
    /// the last live handle marks the latch (the abandonment fallback);
    /// destroying one of several clones has no observable effect beyond the
    /// count. Returns whether this destruction made the not-ready-to-ready
    /// transition, i.e. whether waiters are now owed a broadcast wake.
    pub fn drop_producer(&mut self) -> (wake: bool)
        requires
            old(self).producers >= 1,
        ensures
            *final(self) == old(self).drop_t(),
            final(self).producers == old(self).producers - 1,
            final(self).wf(),
            wake == (old(self).producers == 1 && old(self).state.suspends()),
    {
        self.producers = self.producers - 1;
        if self.producers == 0 {
            self.state.mark_ready()
        } else {
            false
        }
    }

    /// A point-in-time snapshot of the cell: the consumer's optimistic read,
    /// decoupled from later writes. It never blocks and never registers a
    /// waiter.
    pub fn snapshot(&self) -> (r: &T)
        ensures
            r == &self.value,
    {
        &self.value
    }

    /// The consumer's resolving read, coupling the readiness check and the
    /// snapshot: returns the cell's current value exactly when the latch has
    /// resolved, and nothing otherwise — the cell is never read before
    /// readiness. The runtime around the pair retries after a wake whenever
    /// this returns nothing, having registered as a waiter before the check
    /// so that a marking between check and registration cannot be missed.
    pub fn try_resolve(&self) -> (r: Option<&T>)
        ensures
            r is Some <==> self.state.resolved(),
            self.state.resolved() ==> r == Some(&self.value),
    {
        if self.state.should_suspend() {
            None
        } else {
            Some(&self.value)
        }
    }
}

/// Creates a new async signal pair state with the given placeholder value and
/// wait strategy (the strategy is chosen once per execution context, not per
/// call). The placeholder is what the consumer resolves with if the producer
/// side is abandoned without ever writing.
pub fn async_signal<T>(default: T, strategy: Strategy) -> (s: AsyncSignal<T>)
    ensures
        s == AsyncSignal::init(default, strategy),
        s.wf(),
{
    AsyncSignal { value: default, state: AsyncState::new(strategy), producers: 1 }
}

} // verus!
