//! Basic definitions shared by all communication primitives: the closed
//! error taxonomy, the queue overflow policy, and the adapter version record.

use vstd::prelude::*;

verus! {

/// The closed set of error kinds every operation of the crate reports.
///
/// No error carries a dynamic message; kind-level granularity lets callers
/// pattern-match without allocation.
#[derive(Debug, Clone, Copy, PartialEq, Eq, Structural)]
pub enum ComError {
    /// Internal mutex failure; fatal to the caller.
    LockError,
    /// A timed operation reached its deadline.
    Timeout,
    /// A non-blocking receive found nothing.
    QueueEmpty,
    /// A bounded queue rejected an element under `ErrorOnFull`.
    QueueFull,
    /// Too many publishers, subscribers or invokers were requested.
    FanError,
    /// An operation was issued against a detached or closed peer.
    StateError,
    /// A remote procedure result was read twice.
    ResponseConsumed,
}

/// Result type used throughout the communication primitives.
pub type ComResult<T> = Result<T, ComError>;

/// The rule applied when a bounded queue would exceed its capacity.
#[derive(Debug, Clone, Copy, PartialEq, Eq, Structural)]
pub enum QueuePolicy {
    /// Evict the front (oldest) element and accept the new one.
    OverwriteOldest,
    /// Drop the incoming element and report success.
    OverwriteNewest,
    /// Reject the incoming element with `QueueFull`.
    ErrorOnFull,
}

/// A semantic version triple carried by an adapter's static configuration.
#[derive(Debug, Clone, Copy, PartialEq, Eq, Structural)]
pub struct Version {
    pub major: u32,
    pub minor: u32,
    pub patch: u32,
}

impl Version {
    /// Create a version from its three components.
    pub fn new(major: u32, minor: u32, patch: u32) -> (r: Version)
        ensures
            r == (Version { major, minor, patch }),
    {
        Version { major, minor, patch }
    }
}

/// Marker contract for values that may cross address-space boundaries:
/// the byte image contains no addresses, so copying it elsewhere yields an
/// equivalent value.
pub trait Reloc {}

/// Marker contract for values without tearing hazards under the memory
/// ordering the transport provides.
pub trait Coherent {}

/// Marker for argument tuples accepted by a remote procedure.
pub trait ParameterPack {}

/// Marker for values a remote procedure may return.
pub trait ReturnValue {}

impl Reloc for bool {}

impl Reloc for u32 {}

impl Reloc for u64 {}

impl Coherent for bool {}

impl Coherent for u32 {}

impl Coherent for u64 {}

impl ParameterPack for u32 {}

impl ParameterPack for u64 {}

impl ReturnValue for bool {}

impl ReturnValue for u32 {}

impl ReturnValue for u64 {}

} // verus!
