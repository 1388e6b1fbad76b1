//! The ways an operation can fail.

use vstd::prelude::*;

verus! {

/// Why an operation was refused. The whole call fails with it: nothing that the
/// operation would have changed is changed.
#[derive(Clone, Copy, Debug, PartialEq, Eq, Structural)]
pub enum ErrorCode {
    /// The call was addressed to another program.
    DeclaredProgramIdMismatch,
    /// The call names no operation of this program.
    InstructionFallbackNotFound,
    /// Fewer accounts were supplied than the operation takes.
    AccountNotEnoughKeys,
    /// The payer did not authorize the call.
    AccountNotSigner,
    /// The account given as the system allocator is another program.
    InvalidProgramId,
    /// The account given as the system allocator cannot be invoked.
    InvalidProgramExecutable,
    /// An account that the operation writes to was supplied read-only.
    ConstraintMut,
    /// The account to be created did not authorize the call.
    ConstraintSigner,
    /// The payer is the very account that is to be created.
    TryingToInitPayerAsProgramAccount,
    /// The account to be created already holds data or belongs to a program.
    AccountAlreadyInUse,
    /// The payer cannot fund the allocation.
    InsufficientFunds,
    /// The account was never created.
    AccountNotInitialized,
    /// The account belongs to another program.
    AccountOwnedByWrongProgram,
    /// The account's data is too short to hold a record header.
    AccountDiscriminatorNotFound,
    /// The account's data starts with the header of another record type.
    AccountDiscriminatorMismatch,
    /// The account's data ends before the record's payload does.
    AccountDidNotDeserialize,
}

/// The three families of failure.
#[derive(Clone, Copy, Debug, PartialEq, Eq, Structural)]
pub enum ErrorKind {
    /// Wrong account count, wrong account shape, or an account that exists already.
    PreconditionViolation,
    /// A missing signature or a payer without the funds.
    AuthorizationFailure,
    /// A required account that does not exist.
    AccountNotFound,
}

impl ErrorCode {
    /// The family that this failure belongs to.
    pub open spec fn spec_kind(self) -> ErrorKind {
        match self {
            ErrorCode::AccountNotSigner
            | ErrorCode::ConstraintSigner
            | ErrorCode::InsufficientFunds => ErrorKind::AuthorizationFailure,
            ErrorCode::AccountNotInitialized => ErrorKind::AccountNotFound,
            _ => ErrorKind::PreconditionViolation,
        }
    }

    /// The family that this failure belongs to.
    #[verifier::when_used_as_spec(spec_kind)]
    pub fn kind(self) -> (kind: ErrorKind)
        ensures
            kind == self.spec_kind(),
    {
        match self {
            ErrorCode::AccountNotSigner
            | ErrorCode::ConstraintSigner
            | ErrorCode::InsufficientFunds => ErrorKind::AuthorizationFailure,
            ErrorCode::AccountNotInitialized => ErrorKind::AccountNotFound,
            _ => ErrorKind::PreconditionViolation,
        }
    }
}

} // verus!
