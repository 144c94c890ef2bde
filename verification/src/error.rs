//! The operation error taxonomy. Every check in a validation chain is local
//! and terminal: the first failing check aborts the whole operation with one
//! of these kinds, and no record or balance changes on any failure path.

use vstd::prelude::*;

verus! {

/// Why an operation was refused.
#[derive(Clone, Copy, Debug, PartialEq, Eq, Structural)]
pub enum ReviewError {
    /// A supplied address differs from the recomputed derivation.
    InvalidDerivedAddress,
    /// A mint, mint-authority, associated-token-account or token-program
    /// identity differs from its canonical or expected value.
    IncorrectCollaboratorIdentity,
    /// A required signer is not present.
    MissingSignature,
    /// An existing cell is not owned by this program.
    NotOwnedByProgram,
    /// A record was read before its initialized flag was set, or the cell
    /// holds no well-formed record of the expected kind.
    Uninitialized,
    /// An attempt to re-initialize an existing record.
    AlreadyInitialized,
    /// A serialized record exceeds the byte budget of its cell.
    DataTooLarge,
    /// The payer cannot cover the storage deposit, the deposit could not be
    /// determined, or no further cell can be allocated.
    AllocationFailure,
    /// The reward mint call was rejected by the token subsystem.
    MintInvocationFailure,
    /// No valid bump was found within the derivation search space.
    AddressDerivationExhausted,
}

impl ReviewError {
    /// A stable numeric code for hosts that report errors as integers.
    pub fn code(&self) -> (r: u32)
        ensures
            r == self.spec_code(),
    {
        match self {
            ReviewError::InvalidDerivedAddress => 0,
            ReviewError::IncorrectCollaboratorIdentity => 1,
            ReviewError::MissingSignature => 2,
            ReviewError::NotOwnedByProgram => 3,
            ReviewError::Uninitialized => 4,
            ReviewError::AlreadyInitialized => 5,
            ReviewError::DataTooLarge => 6,
            ReviewError::AllocationFailure => 7,
            ReviewError::MintInvocationFailure => 8,
            ReviewError::AddressDerivationExhausted => 9,
        }
    }

    pub open spec fn spec_code(&self) -> u32 {
        match self {
            ReviewError::InvalidDerivedAddress => 0,
            ReviewError::IncorrectCollaboratorIdentity => 1,
            ReviewError::MissingSignature => 2,
            ReviewError::NotOwnedByProgram => 3,
            ReviewError::Uninitialized => 4,
            ReviewError::AlreadyInitialized => 5,
            ReviewError::DataTooLarge => 6,
            ReviewError::AllocationFailure => 7,
            ReviewError::MintInvocationFailure => 8,
            ReviewError::AddressDerivationExhausted => 9,
        }
    }
}

} // verus!
