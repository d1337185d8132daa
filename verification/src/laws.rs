//! The laws of the pair as a state machine: an event semantics over the
//! shared state, and proofs of the lifecycle guarantees — broadcast
//! visibility of a write, the abandonment fallback, silence of non-last
//! drops, idempotence of marking, and the never-suspending strategy.

use vstd::prelude::*;

use crate::async_state::AsyncState;
use crate::async_state::Strategy;
use crate::signal::AsyncSignal;

verus! {

/// One event in the life of a producer/consumer pair, as seen by the shared
/// state. Consumer reads are absent on purpose: `snapshot` and `try_resolve`
/// take `&self` and change nothing, so any number of concurrent resolutions
/// interleave with these events without appearing in the trace.
pub enum Event<T> {
    /// A write of a value through some live producer handle (`set` or
    /// `try_set`; both change the state the same way).
    Write(T),
    /// A producer handle is cloned.
    CloneProducer,
    /// A producer handle is destroyed.
    DropProducer,
}

/// The state after one event.
pub open spec fn step<T>(s: AsyncSignal<T>, e: Event<T>) -> AsyncSignal<T> {
    match e {
        Event::Write(v) => s.set_t(v),
        Event::CloneProducer => s.clone_t(),
        Event::DropProducer => s.drop_t(),
    }
}

/// The state after a whole trace of events, first event first.
pub open spec fn run<T>(s: AsyncSignal<T>, t: Seq<Event<T>>) -> AsyncSignal<T>
    decreases t.len(),
{
    if t.len() == 0 {
        s
    } else {
        run(step(s, t[0]), t.subrange(1, t.len() as int))
    }
}

/// No event of the trace is a write.
pub open spec fn no_writes<T>(t: Seq<Event<T>>) -> bool {
    forall|i: int| 0 <= i < t.len() ==> !((#[trigger] t[i]) is Write)
}

/// Law: every event preserves well-formedness — a pair whose producer side
/// is gone always has a resolved latch, whichever transition got it there.
pub proof fn lemma_step_preserves_wf<T>(s: AsyncSignal<T>, e: Event<T>)
    requires
        s.wf(),
    ensures
        step(s, e).wf(),
{
}

/// Law: a whole trace of events preserves well-formedness.
pub proof fn lemma_run_preserves_wf<T>(s: AsyncSignal<T>, t: Seq<Event<T>>)
    requires
        s.wf(),
    ensures
        run(s, t).wf(),
    decreases t.len(),
{
    if t.len() > 0 {
        lemma_step_preserves_wf(s, t[0]);
        lemma_run_preserves_wf(step(s, t[0]), t.subrange(1, t.len() as int));
    }
}

/// Law: readiness is sticky. Once the latch has resolved, no later event —
/// another write, a clone, any drop — ever takes it back.
pub proof fn lemma_resolved_sticky<T>(s: AsyncSignal<T>, e: Event<T>)
    requires
        s.state.resolved(),
    ensures
        step(s, e).state.resolved(),
{
}

/// Law: readiness stays resolved across a whole trace of events.
pub proof fn lemma_run_resolved_sticky<T>(s: AsyncSignal<T>, t: Seq<Event<T>>)
    requires
        s.state.resolved(),
    ensures
        run(s, t).state.resolved(),
    decreases t.len(),
{
    if t.len() > 0 {
        lemma_resolved_sticky(s, t[0]);
        lemma_run_resolved_sticky(step(s, t[0]), t.subrange(1, t.len() as int));
    }
}

/// Law: a trace without writes leaves the cell untouched — clones and drops
/// never change the held value.
pub proof fn lemma_no_write_preserves_value<T>(s: AsyncSignal<T>, t: Seq<Event<T>>)
    requires
        no_writes(t),
    ensures
        run(s, t).value == s.value,
    decreases t.len(),
{
    if t.len() > 0 {
        let rest = t.subrange(1, t.len() as int);
        assert forall|i: int| 0 <= i < rest.len() implies !((#[trigger] rest[i]) is Write) by {
            assert(rest[i] == t[i + 1]);
        }
        lemma_no_write_preserves_value(step(s, t[0]), rest);
    }
}

/// Law (broadcast visibility of a write): after a value is written, the latch
/// is resolved at every later point, and as long as no further write occurs
/// the cell holds that value at every later point. So every resolution of the
/// consumer — a waiter woken by this write or a later re-invocation, however
/// many run concurrently — returns the written value: resolutions read the
/// state without changing it, at some point after the write, and each such
/// point is covered by the quantifier over prefixes.
pub proof fn lemma_write_broadcast<T>(s: AsyncSignal<T>, v: T, t: Seq<Event<T>>)
    requires
        no_writes(t),
    ensures
        forall|i: int|
            0 <= i <= t.len() ==> (#[trigger] run(s.set_t(v), t.take(i))).value == v,
        forall|i: int|
            0 <= i <= t.len() ==> (#[trigger] run(s.set_t(v), t.take(i))).state.resolved(),
{
    assert forall|i: int| 0 <= i <= t.len() implies (#[trigger] run(s.set_t(v), t.take(i))).value
        == v && run(s.set_t(v), t.take(i)).state.resolved() by {
        let prefix = t.take(i);
        assert forall|j: int| 0 <= j < prefix.len() implies !((#[trigger] prefix[j]) is Write) by {
            assert(prefix[j] == t[j]);
        }
        lemma_no_write_preserves_value(s.set_t(v), prefix);
        lemma_run_resolved_sticky(s.set_t(v), prefix);
    }
}

/// Law (abandonment): if, starting from a fresh pair, a trace without any
/// write destroys every producer handle, the pair ends resolved with the
/// original placeholder still in the cell — the consumer is never left
/// waiting on an abandoned producer, and it resolves with the default.
pub proof fn lemma_abandonment_yields_placeholder<T>(
    default: T,
    strategy: Strategy,
    t: Seq<Event<T>>,
)
    requires
        no_writes(t),
        run(AsyncSignal::init(default, strategy), t).producers == 0,
    ensures
        run(AsyncSignal::init(default, strategy), t).value == default,
        run(AsyncSignal::init(default, strategy), t).state.resolved(),
{
    let s0 = AsyncSignal::init(default, strategy);
    lemma_no_write_preserves_value(s0, t);
    lemma_run_preserves_wf(s0, t);
}

/// Law: destroying one of two or more live producer handles is silent — it
/// decrements the count and leaves both the latch and the cell exactly as
/// they were; readiness is triggered only by the destruction of the last
/// live handle.
pub proof fn lemma_drop_of_non_last_clone_is_silent<T>(s: AsyncSignal<T>)
    requires
        s.producers >= 2,
    ensures
        s.drop_t().state == s.state,
        s.drop_t().value == s.value,
        s.drop_t().producers == s.producers - 1,
{
}

/// Law: marking the latch ready is idempotent. A second marking — a second
/// write, or the abandonment fallback firing after a write — changes nothing,
/// and a marked latch is resolved for good.
pub proof fn lemma_mark_ready_idempotent(st: AsyncState)
    ensures
        st.marked().marked() == st.marked(),
        st.marked().resolved(),
{
}

/// Law (last-write-wins): two writes in a row end exactly as the second
/// write alone would — the cell holds the later value and the latch state is
/// the same, with no corruption from the repeated marking.
pub proof fn lemma_last_write_wins<T>(s: AsyncSignal<T>, u: T, v: T)
    ensures
        s.set_t(u).set_t(v) == s.set_t(v),
{
}

/// Law: under the `Immediate` strategy a wait never suspends, whether or not
/// `mark_ready` was ever called.
pub proof fn lemma_immediate_never_suspends(st: AsyncState)
    requires
        st.strategy is Immediate,
    ensures
        !st.suspends(),
{
}

} // verus!
