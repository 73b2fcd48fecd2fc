//! The ways a transfer instruction can fail.
use vstd::prelude::*;

verus! {

/// Why an instruction was rejected. Every rejection leaves the record as it was.
#[derive(Debug, Clone, Copy, PartialEq, Eq, Structural)]
pub enum FileTransferError {
    /// The payload is not the encoding of any instruction.
    MalformedInstruction,
    /// The party that must authorize the instruction did not sign it.
    MissingAuthorization,
    /// The proof lacks one of its components, or the commitment does not match.
    InvalidProof,
    /// The record's current state does not allow the instruction.
    IllegalState,
    /// The confirming party is not the recorded recipient.
    RecipientMismatch,
    /// The record could not be read from, or written to, its buffer.
    StorageFault,
    /// Fewer accounts were supplied than the instruction requires.
    NotEnoughAccountKeys,
}

impl FileTransferError {
    /// The numeric code under which the error is reported to the host.
    pub open spec fn spec_code(self) -> u32 {
        match self {
            FileTransferError::MalformedInstruction => 0,
            FileTransferError::MissingAuthorization => 1,
            FileTransferError::InvalidProof => 2,
            FileTransferError::IllegalState => 3,
            FileTransferError::RecipientMismatch => 4,
            FileTransferError::StorageFault => 5,
            FileTransferError::NotEnoughAccountKeys => 6,
        }
    }

    /// The numeric code under which the error is reported to the host.
    pub fn code(&self) -> (r: u32)
        ensures
            r == self.spec_code(),
    {
        match self {
            FileTransferError::MalformedInstruction => 0,
            FileTransferError::MissingAuthorization => 1,
            FileTransferError::InvalidProof => 2,
            FileTransferError::IllegalState => 3,
            FileTransferError::RecipientMismatch => 4,
            FileTransferError::StorageFault => 5,
            FileTransferError::NotEnoughAccountKeys => 6,
        }
    }
}

} // verus!
