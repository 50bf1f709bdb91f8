//! Error taxonomy and the mapping from failures to the exit codes that a
//! client observes. Success is reported as zero; each failure class has a
//! distinct non-zero code.

use vstd::prelude::*;

verus! {

/// Every way an instruction can fail.
#[derive(Clone, Copy, Debug, PartialEq, Eq, Structural)]
pub enum LedgerError {
    /// A declarative account constraint (signer, mutability, address, seed
    /// derivation, cross-reference) did not hold.
    ConstraintFailure,
    /// An initialization instruction found its record already present.
    AlreadyInitialized,
    /// A handler required a present record that was absent.
    NotInitialized,
    /// The host transfer primitive reported failure.
    TransferFailure,
    /// An argument was rejected before any transfer was attempted.
    InvalidArgument,
    /// An append would exceed the allocated account space.
    SerializationOverflow,
}

/// The exit code of each failure class.
pub open spec fn spec_error_code(e: LedgerError) -> u64 {
    match e {
        LedgerError::ConstraintFailure => 1u64,
        LedgerError::AlreadyInitialized => 2u64,
        LedgerError::NotInitialized => 3u64,
        LedgerError::TransferFailure => 4u64,
        LedgerError::InvalidArgument => 5u64,
        LedgerError::SerializationOverflow => 6u64,
    }
}

/// The exit code of a whole instruction: zero on success, the error's own
/// code otherwise.
pub open spec fn spec_exit_code(r: Result<(), LedgerError>) -> u64 {
    match r {
        Ok(()) => 0u64,
        Err(e) => spec_error_code(e),
    }
}

impl LedgerError {
    pub fn code(&self) -> (c: u64)
        ensures
            c == spec_error_code(*self),
            c != 0,
    {
        match self {
            LedgerError::ConstraintFailure => 1,
            LedgerError::AlreadyInitialized => 2,
            LedgerError::NotInitialized => 3,
            LedgerError::TransferFailure => 4,
            LedgerError::InvalidArgument => 5,
            LedgerError::SerializationOverflow => 6,
        }
    }

    /// A short human-readable name for logs.
    pub fn name(&self) -> (s: String)
        ensures
            s@ == spec_error_name(*self),
    {
        match self {
            LedgerError::ConstraintFailure => "constraint failure".to_string(),
            LedgerError::AlreadyInitialized => "already initialized".to_string(),
            LedgerError::NotInitialized => "not initialized".to_string(),
            LedgerError::TransferFailure => "transfer failure".to_string(),
            LedgerError::InvalidArgument => "invalid argument".to_string(),
            LedgerError::SerializationOverflow => "serialization overflow".to_string(),
        }
    }
}

pub open spec fn spec_error_name(e: LedgerError) -> Seq<char> {
    match e {
        LedgerError::ConstraintFailure => "constraint failure"@,
        LedgerError::AlreadyInitialized => "already initialized"@,
        LedgerError::NotInitialized => "not initialized"@,
        LedgerError::TransferFailure => "transfer failure"@,
        LedgerError::InvalidArgument => "invalid argument"@,
        LedgerError::SerializationOverflow => "serialization overflow"@,
    }
}

/// The code a client sees for a finished instruction.
pub fn exit_code(r: &Result<(), LedgerError>) -> (c: u64)
    ensures
        c == spec_exit_code(*r),
        c == 0 <==> r is Ok,
{
    match r {
        Ok(()) => 0,
        Err(e) => e.code(),
    }
}

} // verus!
