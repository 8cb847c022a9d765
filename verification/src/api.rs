//! The runtime facade: builder-pattern entry points above the
//! communication primitives.
//!
//! The facade ties a runtime, instances of interfaces and their
//! producers and consumers together.  Only the runtime root is provided
//! here; interfaces and instances are built above the primitives of
//! this crate.

use vstd::prelude::*;

verus! {

/// The error kinds of the runtime facade.
#[derive(Debug, Clone, Copy, PartialEq, Eq, Structural)]
pub enum Error {
    /// Something went wrong while building or communicating.
    Fail,
    /// A timed operation reached its deadline.
    Timeout,
}

/// Result type of the runtime facade.
pub type ApiResult<T> = core::result::Result<T, Error>;

/// A factory that terminates in `build`.
pub trait Builder: Sized {
    type Output;

    /// Validate the accumulated configuration and build the output.
    fn build(self) -> ApiResult<Self::Output>;
}

/// The communication implementation root: the origin of all types and
/// objects the implementation provides.
pub trait Runtime {
    type InstanceSpecifier;
}

/// A versioned collection of named communication elements that forms a
/// contract between communication partners.
pub trait Interface {}

/// Names one instance of an interface within a runtime.
pub struct InstanceSpecifier {}

/// The in-process runtime.
pub struct RuntimeImpl {}

impl Runtime for RuntimeImpl {
    type InstanceSpecifier = InstanceSpecifier;
}

/// The builder for the in-process runtime.
pub struct RuntimeBuilderImpl {}

impl RuntimeBuilderImpl {
    /// Create a runtime builder.
    pub fn new() -> (r: RuntimeBuilderImpl) {
        RuntimeBuilderImpl {}
    }
}

impl Builder for RuntimeBuilderImpl {
    type Output = RuntimeImpl;

    /// Build the runtime.  The in-process runtime has no configuration
    /// to validate.
    fn build(self) -> (r: ApiResult<RuntimeImpl>) {
        Ok(RuntimeImpl {})
    }
}

} // verus!
