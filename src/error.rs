use vstd::prelude::*;

verus! {

/// What can go wrong between a caller and the engine.
#[derive(Debug)]
pub enum Error {
    /// A text argument holds a nul byte, at the given byte position, and cannot be passed
    /// as a C string. Reported before any engine call.
    Nul(usize),
    /// The engine gave no session when asked to connect.
    ConnectionFailed,
    /// The engine gave no result object for a query.
    NoResult,
    /// The engine reported a failed query, registration or unregistration.
    QueryError(String),
}

} // verus!
