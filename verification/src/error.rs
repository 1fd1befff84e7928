//! Why an invocation fails.

use crate::instruction::DecodeError;
use crate::token::RecordError;
use vstd::prelude::*;

verus! {

/// The host's error type, carried through as it comes and never looked into.
#[verifier::external_type_specification]
#[verifier::external_body]
pub struct ExProgramError(solana_program::program_error::ProgramError);

/// The ways in which an invocation fails. Each check fails closed: the first one
/// that does not hold ends the invocation with its kind, and nothing is dispatched.
#[derive(Debug, PartialEq, Eq)]
pub enum FailureKind {
    /// The operation bytes are not an operation.
    Decode(DecodeError),
    /// Fewer accounts were supplied than the operation consumes.
    MissingAccount,
    /// The buffer of a holding or of a mint definition holds no such record.
    MalformedRecord(RecordError),
    /// The source holding is not owned by the supplied owner account.
    IllegalOwner,
    /// The source holding has less than the requested amount.
    InsufficientFunds,
    /// A mint definition has no issuing authority.
    MissingAuthority,
    /// The supplied authority is not the issuing authority of both value types.
    AuthorityMismatch,
    /// The token ledger refused the delegated call; its error is handed on unchanged.
    External(solana_program::program_error::ProgramError),
}

/// The code under which the host reports a failure.
#[derive(Debug, PartialEq, Eq)]
pub enum ResultCode {
    /// The arguments of the invocation were invalid.
    InvalidArgument,
    /// The operation bytes were invalid.
    InvalidInstructionData,
    /// The contents of an account were invalid.
    InvalidAccountData,
    /// An account was never initialised.
    UninitializedAccount,
    /// The invocation expected more accounts.
    NotEnoughAccountKeys,
    /// The supplied owner is not allowed.
    IllegalOwner,
    /// An account's balance was too small.
    InsufficientFunds,
    /// The ledger's own error, as it came.
    Ledger(solana_program::program_error::ProgramError),
}

impl FailureKind {
    /// The code of each kind of failure. An empty buffer, an unknown tag and a
    /// missing authority all count as invalid arguments; a mismatch of authorities
    /// counts as invalid account data.
    pub open spec fn code(self) -> ResultCode {
        match self {
            FailureKind::Decode(DecodeError::EmptyInput) => ResultCode::InvalidArgument,
            FailureKind::Decode(DecodeError::Truncated) => ResultCode::InvalidInstructionData,
            FailureKind::Decode(DecodeError::UnknownTag) => ResultCode::InvalidArgument,
            FailureKind::MissingAccount => ResultCode::NotEnoughAccountKeys,
            FailureKind::MalformedRecord(RecordError::Invalid) => ResultCode::InvalidAccountData,
            FailureKind::MalformedRecord(
                RecordError::Uninitialized,
            ) => ResultCode::UninitializedAccount,
            FailureKind::IllegalOwner => ResultCode::IllegalOwner,
            FailureKind::InsufficientFunds => ResultCode::InsufficientFunds,
            FailureKind::MissingAuthority => ResultCode::InvalidArgument,
            FailureKind::AuthorityMismatch => ResultCode::InvalidAccountData,
            FailureKind::External(error) => ResultCode::Ledger(error),
        }
    }

    /// The code under which this failure is reported.
    pub fn result_code(self) -> (code: ResultCode)
        ensures
            code == self.code(),
    {
        match self {
            FailureKind::Decode(DecodeError::EmptyInput) => ResultCode::InvalidArgument,
            FailureKind::Decode(DecodeError::Truncated) => ResultCode::InvalidInstructionData,
            FailureKind::Decode(DecodeError::UnknownTag) => ResultCode::InvalidArgument,
            FailureKind::MissingAccount => ResultCode::NotEnoughAccountKeys,
            FailureKind::MalformedRecord(RecordError::Invalid) => ResultCode::InvalidAccountData,
            FailureKind::MalformedRecord(
                RecordError::Uninitialized,
            ) => ResultCode::UninitializedAccount,
            FailureKind::IllegalOwner => ResultCode::IllegalOwner,
            FailureKind::InsufficientFunds => ResultCode::InsufficientFunds,
            FailureKind::MissingAuthority => ResultCode::InvalidArgument,
            FailureKind::AuthorityMismatch => ResultCode::InvalidAccountData,
            FailureKind::External(error) => ResultCode::Ledger(error),
        }
    }
}

} // verus!
