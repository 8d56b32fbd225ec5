//! The error type of the library.

use vstd::prelude::*;

verus! {

/// Errors reported by the library, by kind.
#[derive(Debug)]
pub enum IcebergError {
    /// A general error with a message.
    Message(String),
    /// A document or a text form is malformed or of an unsupported version.
    Format(String),
    /// A value is rejected at construction time.
    Validation(String),
    /// A record does not fit the schema it is encoded against.
    Encoding(String),
    /// Another writer advanced the table first.
    Conflict(String),
}

} // verus!
