//! Heap-backed data buffers.

use vstd::prelude::*;

verus! {

/// An owned buffer holding one initialized value on the heap.
#[derive(Debug)]
pub struct HeapBuffer<T> {
    value: Box<T>,
}

impl<T> HeapBuffer<T> {
    /// The value held by this buffer.
    pub closed spec fn spec_value(&self) -> T {
        *self.value
    }

    /// Create a buffer holding `value`.
    pub fn new(value: T) -> (r: HeapBuffer<T>)
        ensures
            r.spec_value() == value,
    {
        HeapBuffer { value: Box::new(value) }
    }

    /// Read the value.
    pub fn value(&self) -> (r: &T)
        ensures
            r == self.spec_value(),
    {
        &self.value
    }

    /// Replace the value in place.
    pub fn write(&mut self, value: T)
        ensures
            final(self).spec_value() == value,
    {
        *self.value = value;
    }

    /// Move the value out of the buffer.
    pub fn into_inner(self) -> (r: T)
        ensures
            r == self.spec_value(),
    {
        *self.value
    }
}

/// A reserved buffer whose value is not yet written.
///
/// Only writing a full value turns it into a usable buffer.
#[derive(Debug)]
pub struct HeapBufferMaybeUninit<T> {
    marker: core::marker::PhantomData<T>,
}

impl<T> HeapBufferMaybeUninit<T> {
    /// Reserve a buffer.
    pub fn new() -> (r: HeapBufferMaybeUninit<T>) {
        HeapBufferMaybeUninit { marker: core::marker::PhantomData }
    }

    /// Write a value into the buffer and mark it initialized.
    pub fn write(self, value: T) -> (r: HeapBuffer<T>)
        ensures
            r.spec_value() == value,
    {
        HeapBuffer::new(value)
    }
}

} // verus!
