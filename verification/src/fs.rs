//! The read-file-bytes command.
//!
//! The filesystem read itself is performed outside the library; this module
//! holds the command's logic, which turns the read's outcome into the typed
//! response handed back to the caller. Every path, empty or not, is handed to
//! the filesystem as given: the command performs no path validation of its
//! own, so an unusable path surfaces as the filesystem's own error.

use vstd::prelude::*;

verus! {

/// The record produced by a successful file read: the file's entire contents.
#[derive(Debug, PartialEq, Eq)]
pub struct BytesResult {
    pub bytes: Vec<u8>,
}

/// What the read-file-bytes command returns for a given outcome of the
/// underlying filesystem read: on success, exactly the bytes that were read,
/// byte for byte; on failure, the failure's description, with no bytes.
pub open spec fn bytes_response_of(read_outcome: Result<Vec<u8>, String>) -> Result<
    BytesResult,
    String,
> {
    match read_outcome {
        Ok(bytes) => Ok(BytesResult { bytes }),
        Err(message) => Err(message),
    }
}

/// Completes the read-file-bytes command from the outcome of the underlying
/// filesystem read. A successful read returns the bytes unchanged and
/// complete; a failed read returns the failure's description and never any
/// partial bytes.
pub fn read_file_bytes(read_outcome: Result<Vec<u8>, String>) -> (r: Result<BytesResult, String>)
    ensures
        r == bytes_response_of(read_outcome),
{
    match read_outcome {
        Ok(bytes) => Ok(BytesResult { bytes }),
        Err(message) => Err(message),
    }
}

} // verus!
