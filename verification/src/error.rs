use vstd::prelude::*;

verus! {

/// Identifies which native entry point of the hashing backend a failure
/// came from. One variant exists per entry point, so callers can log or
/// diagnose a failure without interpreting backend-specific codes.
#[derive(Clone, Copy, Debug, PartialEq, Eq)]
pub enum NativeOperation {
    /// The signature comparison primitive.
    Compare,
    /// The buffer hashing primitive.
    HashBuf,
    /// The file hashing primitive.
    HashFilename,
}

/// Error returned by the safe wrapper layer.
///
/// A `NativeCallFailed` value is created only at the translation boundary,
/// when a native call reports failure; it carries the operation identity
/// and the raw numeric code. The backend reports a single failure signal,
/// surfaced here as code `-1`.
///
/// `InvalidEncoding` reports a native contract violation: the backend
/// claimed success but the recovered buffer content was not ASCII text.
/// This library surfaces that breach as a dedicated error variant rather
/// than aborting.
#[derive(Clone, Copy, Debug, PartialEq, Eq)]
pub enum Error {
    /// A native call reported failure; carries which operation failed and
    /// the raw return code.
    NativeCallFailed { operation: NativeOperation, code: i32 },
    /// The backend reported success but handed back bytes that do not
    /// decode as ASCII text.
    InvalidEncoding,
}

/// The error value that a failed comparison produces.
pub open spec fn compare_failed() -> Error {
    Error::NativeCallFailed { operation: NativeOperation::Compare, code: -1i32 }
}

} // verus!
