//! The error taxonomy shared by every component of the pipeline.

use vstd::prelude::*;

verus! {

/// Why an operation of the pipeline did not succeed.
#[derive(Clone, Copy, Debug, PartialEq, Eq, Structural)]
pub enum PipelineError {
    /// Malformed or empty request (a caller error).
    InvalidInput,
    /// The key identifier is unknown to the registry.
    KeyNotFound,
    /// An envelope failed authentication or was malformed.
    DecryptionError,
    /// The network or the blob store failed.
    TransportError,
    /// The blob store reports that the blob does not exist.
    BlobNotFound,
}

} // verus!
