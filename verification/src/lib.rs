//! Communication middleware core for safety-critical, embedded, real-time
//! systems.
//!
//! The crate provides three messaging primitives — a level-triggered signal
//! latch, a typed publish/subscribe topic with loan-based samples, and a
//! request/response remote procedure with correlated transactions — together
//! with the transport adapters that mint them.  Every queue, latch and
//! transaction state machine is verified: the contracts below state exactly
//! how each operation moves the state and when each error is returned.

pub mod adapter;
pub mod api;
pub mod base;
pub mod concepts;
pub mod crypto;
pub mod hash;
pub mod id;
pub mod latch;
pub mod queue;
pub mod text;
pub mod transact;
