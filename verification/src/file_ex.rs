//! Failures of reading, writing and decoding the shared files.
//!
//! The reads and writes themselves are the embedding program's business;
//! these are the outcomes the library's logic distinguishes.
use crate::lockfile::IoErrorKind;
use vstd::prelude::*;

verus! {

/// Failure of reading, writing or decoding a shared file.
#[derive(Debug, Clone)]
pub enum Error {
    /// The file could not be read.
    CannotReadFile(IoErrorKind, String),
    /// The file could not be written.
    CannotWriteFile(IoErrorKind, String),
    /// A whole-file record could not be decoded.
    CannotDeserializeJSON(String),
    /// A record of the file could not be encoded.
    CannotSerializeJSON(String),
    /// A line of a record-per-line file could not be decoded.
    CannotDeserializeJSONLines(String),
    /// A record-per-line file could not be encoded.
    CannotSerializeJSONLines(String),
}

impl Error {
    /// The failure of a read that found no file.
    pub fn file_not_found() -> (r: Error)
        ensures
            r matches Error::CannotReadFile(IoErrorKind::NotFound, m) && m@ == Seq::<char>::empty(),
    {
        Error::CannotReadFile(IoErrorKind::NotFound, String::new())
    }
}

} // verus!
