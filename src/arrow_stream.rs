//! Handles to Arrow objects that live outside this library: a stream, a schema and an
//! array. Each kind is its own type, so that one cannot stand where another is expected.
//! A handle is only an address: it owns nothing, frees nothing and reads nothing; copying
//! one copies the address. That the address names a live object of the right kind, for as
//! long as the engine uses it, is up to whoever made the handle.
use vstd::prelude::*;

verus! {

/// A handle to an Arrow stream, by address.
#[derive(Debug, Clone, Copy)]
pub struct ArrowStream {
    inner: usize,
}

impl View for ArrowStream {
    type V = usize;

    closed spec fn view(&self) -> usize {
        self.inner
    }
}

impl ArrowStream {
    /// Wraps the address of an Arrow stream. Any address is taken, the null address too;
    /// none is checked.
    pub fn from_raw(stream: usize) -> (r: ArrowStream)
        ensures
            r@ == stream,
    {
        ArrowStream { inner: stream }
    }

    /// The wrapped address, unchanged.
    pub fn as_raw(&self) -> (r: usize)
        ensures
            r == self@,
    {
        self.inner
    }
}

/// A handle to an Arrow schema, by address.
#[derive(Debug, Clone, Copy)]
pub struct ArrowSchema {
    inner: usize,
}

impl View for ArrowSchema {
    type V = usize;

    closed spec fn view(&self) -> usize {
        self.inner
    }
}

impl ArrowSchema {
    /// Wraps the address of an Arrow schema. Any address is taken, the null address too;
    /// none is checked.
    pub fn from_raw(schema: usize) -> (r: ArrowSchema)
        ensures
            r@ == schema,
    {
        ArrowSchema { inner: schema }
    }

    /// The wrapped address, unchanged.
    pub fn as_raw(&self) -> (r: usize)
        ensures
            r == self@,
    {
        self.inner
    }
}

/// A handle to an Arrow array, by address.
#[derive(Debug, Clone, Copy)]
pub struct ArrowArray {
    inner: usize,
}

impl View for ArrowArray {
    type V = usize;

    closed spec fn view(&self) -> usize {
        self.inner
    }
}

impl ArrowArray {
    /// Wraps the address of an Arrow array. Any address is taken, the null address too;
    /// none is checked.
    pub fn from_raw(array: usize) -> (r: ArrowArray)
        ensures
            r@ == array,
    {
        ArrowArray { inner: array }
    }

    /// The wrapped address, unchanged.
    pub fn as_raw(&self) -> (r: usize)
        ensures
            r == self@,
    {
        self.inner
    }
}

} // verus!
