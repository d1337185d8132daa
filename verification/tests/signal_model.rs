//! Sequential tests of the pair state machine: scenarios from construction
//! through writes, clones, drops, and resolutions.

use async_signal::async_state::AsyncState;
use async_signal::async_state::Strategy;
use async_signal::signal::async_signal;

#[test]
fn write_resolves_written_value() {
    let mut s = async_signal("default".to_string(), Strategy::Deferred);
    // Before any write, a resolution would suspend.
    assert!(s.try_resolve().is_none());
    assert!(s.state.should_suspend());
    // A write from the (only) producer handle flips the latch.
    s.set("hello".to_string());
    assert_eq!(s.try_resolve(), Some(&"hello".to_string()));
}

#[test]
fn abandoned_producer_resolves_placeholder() {
    let mut s = async_signal("default".to_string(), Strategy::Deferred);
    assert!(s.try_resolve().is_none());
    // The only producer handle is destroyed without ever writing.
    let wake = s.drop_producer();
    assert!(wake);
    assert_eq!(s.producers, 0);
    assert_eq!(s.try_resolve(), Some(&"default".to_string()));
}

#[test]
fn clone_drop_order_is_irrelevant() {
    let mut s = async_signal("default".to_string(), Strategy::Deferred);
    // Two extra clones of the producer handle exist.
    s.clone_producer();
    s.clone_producer();
    assert_eq!(s.producers, 3);
    // Dropping one clone is silent.
    let wake = s.drop_producer();
    assert!(!wake);
    assert!(s.try_resolve().is_none());
    // A write from one of the remaining clones resolves with the written
    // value.
    s.set("written".to_string());
    assert_eq!(s.try_resolve(), Some(&"written".to_string()));
    // The remaining drops change nothing observable.
    assert!(!s.drop_producer());
    assert!(!s.drop_producer());
    assert_eq!(s.try_resolve(), Some(&"written".to_string()));
}

#[test]
fn drop_of_non_last_clone_does_not_trigger_readiness() {
    let mut s = async_signal(0u64, Strategy::Deferred);
    s.clone_producer();
    assert_eq!(s.producers, 2);
    let wake = s.drop_producer();
    assert!(!wake);
    assert!(s.try_resolve().is_none());
    // Only the destruction of the last live clone triggers readiness.
    let wake = s.drop_producer();
    assert!(wake);
    assert_eq!(s.try_resolve(), Some(&0u64));
}

#[test]
fn mark_ready_twice_is_safe() {
    let mut latch = AsyncState::new(Strategy::Deferred);
    assert!(latch.should_suspend());
    let first = latch.mark_ready();
    assert!(first);
    assert!(latch.ready);
    // The second call is a no-op: no second wake, state remains ready.
    let second = latch.mark_ready();
    assert!(!second);
    assert!(latch.ready);
    assert!(!latch.should_suspend());
}

#[test]
fn double_write_keeps_ready_and_last_value() {
    let mut s = async_signal("default".to_string(), Strategy::Deferred);
    s.set("first".to_string());
    s.set("second".to_string());
    assert_eq!(s.try_resolve(), Some(&"second".to_string()));
    // Dropping the last handle after an explicit write neither re-triggers
    // a wake nor disturbs the value.
    let wake = s.drop_producer();
    assert!(!wake);
    assert_eq!(s.try_resolve(), Some(&"second".to_string()));
}

#[test]
fn immediate_strategy_never_suspends() {
    let mut latch = AsyncState::new(Strategy::Immediate);
    assert!(!latch.should_suspend());
    // Marking is a no-op under the immediate strategy, and still no wait
    // would suspend afterwards.
    let wake = latch.mark_ready();
    assert!(!wake);
    assert!(!latch.should_suspend());

    // A pair under the immediate strategy resolves at once, before any write.
    let s = async_signal("default".to_string(), Strategy::Immediate);
    assert_eq!(s.try_resolve(), Some(&"default".to_string()));
}

#[test]
fn every_resolution_after_write_returns_written_value() {
    let mut s = async_signal(0u64, Strategy::Deferred);
    s.set(42);
    // Repeated resolutions, interleaved with clones and non-write drops, all
    // return the written value.
    assert_eq!(s.try_resolve(), Some(&42));
    s.clone_producer();
    assert_eq!(s.try_resolve(), Some(&42));
    assert_eq!(s.snapshot(), &42);
    s.drop_producer();
    s.drop_producer();
    assert_eq!(s.try_resolve(), Some(&42));
}

#[test]
fn try_set_returns_previous_value() {
    let mut s = async_signal("default".to_string(), Strategy::Deferred);
    let prev = s.try_set("hello".to_string());
    assert_eq!(prev, Some("default".to_string()));
    // try_set marks readiness just as set does.
    assert_eq!(s.try_resolve(), Some(&"hello".to_string()));
    let prev = s.try_set("again".to_string());
    assert_eq!(prev, Some("hello".to_string()));
    assert_eq!(s.try_resolve(), Some(&"again".to_string()));
}

#[test]
fn snapshot_reads_placeholder_before_readiness() {
    let s = async_signal("default".to_string(), Strategy::Deferred);
    // The optimistic read never blocks and sees the current (placeholder)
    // value even while a resolution would still suspend.
    assert_eq!(s.snapshot(), &"default".to_string());
    assert!(s.try_resolve().is_none());
}

#[test]
fn late_resolution_after_ready_is_immediate() {
    let mut s = async_signal(1u64, Strategy::Deferred);
    s.set(2);
    // A re-invocation after readiness does not suspend and sees the latest
    // value, including one written after an earlier resolution.
    assert!(!s.state.should_suspend());
    assert_eq!(s.try_resolve(), Some(&2));
    s.set(3);
    assert!(!s.state.should_suspend());
    assert_eq!(s.try_resolve(), Some(&3));
}
