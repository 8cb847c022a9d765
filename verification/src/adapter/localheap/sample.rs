//! Heap-backed samples for typed payloads.

use vstd::prelude::*;

verus! {

/// A sample holding one initialized payload on the heap.
#[derive(Debug)]
pub struct HeapSample<T> {
    value: Box<T>,
}

impl<T> HeapSample<T> {
    /// The payload held by this sample.
    pub closed spec fn spec_value(&self) -> T {
        *self.value
    }

    /// Create a sample holding `value`.
    pub fn new(value: T) -> (r: HeapSample<T>)
        ensures
            r.spec_value() == value,
    {
        HeapSample { value: Box::new(value) }
    }

    /// Read the payload.
    pub fn value(&self) -> (r: &T)
        ensures
            r == self.spec_value(),
    {
        &self.value
    }

    /// Move the payload out of the sample.
    pub fn into_inner(self) -> (r: T)
        ensures
            r == self.spec_value(),
    {
        *self.value
    }
}

/// A reserved sample whose payload is not yet written.
#[derive(Debug)]
pub struct HeapSampleMaybeUninit<T> {
    marker: core::marker::PhantomData<T>,
}

impl<T> HeapSampleMaybeUninit<T> {
    /// Reserve a sample.
    pub fn new() -> (r: HeapSampleMaybeUninit<T>) {
        HeapSampleMaybeUninit { marker: core::marker::PhantomData }
    }

    /// Write a payload into the sample and mark it initialized.
    pub fn write(self, value: T) -> (r: HeapSample<T>)
        ensures
            r.spec_value() == value,
    {
        HeapSample::new(value)
    }
}

} // verus!
