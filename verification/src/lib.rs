//! A one-shot readiness-coordination primitive paired with a shared value
//! cell: an asynchronous consumer blocks until a paired producer supplies a
//! value, or until the producer side is permanently abandoned — whichever
//! happens first — exactly once.
//!
//! This crate verifies the part with real lifecycle invariants: the readiness
//! latch, the value cell, and the reference-counted producer lifecycle, as a
//! state machine over plain values. The surrounding async plumbing (locking,
//! waiter registration, wake broadcast, awaiting) drives these verified
//! transitions from outside the crate.

pub mod async_state;
pub mod laws;
pub mod model;
pub mod signal;
