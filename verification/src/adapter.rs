//! Transport adapter implementations.
//!
//! Every adapter mints builders for the three messaging primitives and
//! carries a static identity record.  The in-process adapters here back
//! the primitives with the verified state machines of this crate.

pub mod dynamic;
pub mod local;
pub mod localheap;
