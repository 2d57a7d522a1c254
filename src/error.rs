use vstd::prelude::*;

verus! {

/// The escrow program's own failure kinds.
#[derive(Debug, Clone, Copy, PartialEq, Eq, Structural)]
pub enum EscrowError {
    /// The instruction buffer cannot be decoded.
    InvalidInstruction,
    /// The escrow storage account holds less than the rent-exempt minimum.
    NotRentExempt,
    /// The taker's expected amount differs from the custody account's balance.
    ExpectedAmountMismatch,
    /// Returning the storage account's balance would overflow.
    AmountOverflow,
}

/// The stable numeric code that the host reports for each escrow error.
pub open spec fn escrow_error_code(e: EscrowError) -> u32 {
    match e {
        EscrowError::InvalidInstruction => 0,
        EscrowError::NotRentExempt => 1,
        EscrowError::ExpectedAmountMismatch => 2,
        EscrowError::AmountOverflow => 3,
    }
}

impl EscrowError {
    /// The custom error code under which the host reports this error.
    pub fn code(&self) -> (r: u32)
        ensures
            r == escrow_error_code(*self),
    {
        match self {
            EscrowError::InvalidInstruction => 0,
            EscrowError::NotRentExempt => 1,
            EscrowError::ExpectedAmountMismatch => 2,
            EscrowError::AmountOverflow => 3,
        }
    }
}

/// Distinct escrow errors are reported under distinct codes.
pub proof fn lemma_error_codes_distinct(a: EscrowError, b: EscrowError)
    ensures
        escrow_error_code(a) == escrow_error_code(b) <==> a == b,
{
}

/// Every way processing can fail: the host's generic failures that the
/// processor raises, and the escrow program's own errors.
#[derive(Debug, Clone, Copy, PartialEq, Eq, Structural)]
pub enum ProcessError {
    /// One of the escrow program's own errors, reported as a custom code.
    Custom(EscrowError),
    /// A party that must sign did not.
    MissingRequiredSignature,
    /// An account is not owned by the expected program.
    IncorrectProgramId,
    /// The escrow storage account already holds an open escrow.
    AccountAlreadyInitialized,
    /// An account's data is malformed or does not match the escrow record.
    InvalidAccountData,
    /// An account's data has not been initialized.
    UninitializedAccount,
    /// Fewer accounts were supplied than the instruction needs.
    NotEnoughAccountKeys,
    /// The rent account does not hold the rent parameters.
    InvalidArgument,
    /// No program-derived address exists for the seed.
    InvalidSeeds,
}

} // verus!
