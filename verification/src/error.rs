//! The library's error type: a tagged union with one variant per failure
//! origin, and a uniform way to read its message.

use vstd::prelude::*;

verus! {

/// Where a failure came from.
#[derive(Clone, Copy, PartialEq, Eq, Structural, Debug)]
pub enum ErrorKind {
    /// The input bytes could not be decoded as an image.
    Decode,
    /// A bitmap could not be serialized to PNG bytes.
    Encoding,
    /// The chat platform reported a communication failure.
    Transport,
}

/// An error carrying its origin and a human-readable message.
#[derive(Debug)]
pub struct ZimiriError {
    pub kind: ErrorKind,
    pub description: String,
}

impl ZimiriError {
    /// Builds an error of the given kind around a message.
    pub fn new(kind: ErrorKind, msg: &str) -> (e: ZimiriError)
        ensures
            e.kind == kind,
            e.description@ == msg@,
    {
        ZimiriError { kind, description: msg.to_owned() }
    }

    /// The message this error carries.
    pub fn describe(&self) -> (s: String)
        ensures
            s@ == self.description@,
    {
        self.description.clone()
    }
}

} // verus!
