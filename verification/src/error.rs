//! The error taxonomy of the provisioning protocol.
//!
//! Every failure of a provisioning call maps to exactly one of these named
//! errors, and each error to a stable small numeric code that the invoking
//! environment reports across process boundaries.

use vstd::prelude::*;

verus! {

/// A named failure of the provisioning protocol.
///
/// The variants are ordered; an error's numeric code is its position in this
/// list, starting at zero.
#[derive(Clone, Copy, Debug, PartialEq, Eq, Structural)]
pub enum EchoError {
    AccountMustBeWritable,
    AccountNotInitialized,
    AccountHasNonZeroData,
    MissingRequiredSignature,
    InvalidProgramAddress,
    InvalidAccountAddress,
    InvalidInstructionInput,
    InvalidAccountData,
    DefaultError,
    NotImplemented,
    InsufficientFunds,
}

impl EchoError {
    /// The stable numeric code of this error.
    pub open spec fn spec_code(self) -> u32 {
        match self {
            EchoError::AccountMustBeWritable => 0,
            EchoError::AccountNotInitialized => 1,
            EchoError::AccountHasNonZeroData => 2,
            EchoError::MissingRequiredSignature => 3,
            EchoError::InvalidProgramAddress => 4,
            EchoError::InvalidAccountAddress => 5,
            EchoError::InvalidInstructionInput => 6,
            EchoError::InvalidAccountData => 7,
            EchoError::DefaultError => 8,
            EchoError::NotImplemented => 9,
            EchoError::InsufficientFunds => 10,
        }
    }

    /// The small non-negative integer under which this error is surfaced to
    /// the invoking environment as a custom error code.
    pub fn code(&self) -> (c: u32)
        ensures
            c == self.spec_code(),
    {
        match self {
            EchoError::AccountMustBeWritable => 0,
            EchoError::AccountNotInitialized => 1,
            EchoError::AccountHasNonZeroData => 2,
            EchoError::MissingRequiredSignature => 3,
            EchoError::InvalidProgramAddress => 4,
            EchoError::InvalidAccountAddress => 5,
            EchoError::InvalidInstructionInput => 6,
            EchoError::InvalidAccountData => 7,
            EchoError::DefaultError => 8,
            EchoError::NotImplemented => 9,
            EchoError::InsufficientFunds => 10,
        }
    }
}

} // verus!
