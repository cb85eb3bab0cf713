//! The errors that reading a cache can end in.

use vstd::prelude::*;

verus! {

/// What went wrong while reading the cache.
#[derive(Debug)]
pub enum CCPError {
    /// A file could not be opened or read.
    Io(String),
    /// The cache was written in a version this reader does not handle.
    UnsupportedVersion(String),
    /// A file's contents break the format: a wrong magic number, an unset address.
    InvalidData(String),
    /// A buffer is too short for the record laid over it.
    DataMisalignment(String),
    /// There is no index file where the cache should be.
    IndexDoesNotExist(String),
    /// No cache directory was given or found.
    CacheLocationCouldNotBeDetermined(),
    /// A raw timestamp is out of the range of a calendar instant.
    InvalidTimestamp(u64),
    /// An address of the wrong kind stands where another kind is expected.
    InvalidState(String),
}

pub type CCPResult<T> = Result<T, CCPError>;

} // verus!
