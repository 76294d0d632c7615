//! The closed registry of integer outcomes returned by every operation.
//!
//! Hosts branch on the exact integer, not on a boolean: each nonzero code
//! asks for a different remediation.  The set is stable across versions.

use vstd::prelude::*;

verus! {

/// Outcome of one operation, as seen by the embedding host.
#[derive(Clone, Copy, Debug, PartialEq, Eq, Structural)]
pub enum Status {
    /// Code 0: the operation completed and its whole output was written.
    Success,
    /// Code 1: a required address was null while its declared length was
    /// nonzero.
    NullArgument,
    /// Code 2: a length or domain parameter was outside its allowed range,
    /// or a buffer did not lie inside the linear memory.
    InvalidArgument,
    /// Code 3: the cryptographic parameter object was rejected, or a key or
    /// nonce had the wrong size.
    BadParameters,
    /// Code 4: the underlying cryptographic primitive could not be
    /// constructed or run on these inputs.
    PrimitiveFailure,
    /// Code 5: the output buffer was too small for the produced result, or
    /// an internal length did not match.
    CapacityError,
    /// Code 6: the cryptographic operation itself failed; for decryption
    /// this is an authentication failure.
    OperationFailed,
}

impl Status {
    /// The stable integer behind each outcome.
    pub open spec fn as_code(self) -> int {
        match self {
            Status::Success => 0,
            Status::NullArgument => 1,
            Status::InvalidArgument => 2,
            Status::BadParameters => 3,
            Status::PrimitiveFailure => 4,
            Status::CapacityError => 5,
            Status::OperationFailed => 6,
        }
    }

    /// Integer form of the outcome, as returned across the call boundary.
    pub fn code(self) -> (c: i32)
        ensures
            c == self.as_code(),
    {
        match self {
            Status::Success => 0,
            Status::NullArgument => 1,
            Status::InvalidArgument => 2,
            Status::BadParameters => 3,
            Status::PrimitiveFailure => 4,
            Status::CapacityError => 5,
            Status::OperationFailed => 6,
        }
    }
}

} // verus!
