//! The errors that the program's instructions report.

use vstd::prelude::*;

verus! {

/// The number that the first error is reported under. Each further error
/// has the next number, in the order of declaration.
pub const ERROR_CODE_OFFSET: u32 = 6000;

/// Why an instruction was rejected.
#[derive(Clone, Copy, Debug, PartialEq, Eq, Structural)]
pub enum AirdropError {
    /// Invalid Merkle proof.
    InvalidProof,
    /// Drop already claimed.
    DropAlreadyClaimed,
    /// Account is not authorized to execute this instruction.
    Unauthorized,
    /// Token account owner did not match intended owner.
    OwnerMismatch,
    /// Temporal signer did not match distributor.
    TemporalMismatch,
    /// Numerical overflow.
    NumericalOverflow,
    /// Invalid claim bump.
    InvalidClaimBump,
    /// Airdrop only supports the official Metaplex Candy machine contracts.
    MustUseOfficialCandyMachine,
    /// Bump seed not in hash map.
    BumpSeedNotInHashMap,
    /// The message's emitter is not the one registered for its chain.
    InvalidForeignEmitter,
    /// The message is malformed, or attests another item than the one named.
    InvalidMessage,
    /// The message names another claimant than the caller.
    VerificationFailed,
    /// The custody account holds less than one payout.
    InsufficientCustody,
    /// The depositor's account holds less than the deposit.
    InsufficientFunds,
}

impl AirdropError {
    /// The position of the error in the order of declaration.
    pub open spec fn index(self) -> nat {
        match self {
            AirdropError::InvalidProof => 0,
            AirdropError::DropAlreadyClaimed => 1,
            AirdropError::Unauthorized => 2,
            AirdropError::OwnerMismatch => 3,
            AirdropError::TemporalMismatch => 4,
            AirdropError::NumericalOverflow => 5,
            AirdropError::InvalidClaimBump => 6,
            AirdropError::MustUseOfficialCandyMachine => 7,
            AirdropError::BumpSeedNotInHashMap => 8,
            AirdropError::InvalidForeignEmitter => 9,
            AirdropError::InvalidMessage => 10,
            AirdropError::VerificationFailed => 11,
            AirdropError::InsufficientCustody => 12,
            AirdropError::InsufficientFunds => 13,
        }
    }

    /// The words that say what went wrong.
    pub open spec fn spec_message(self) -> Seq<char> {
        match self {
            AirdropError::InvalidProof => "Invalid Merkle proof."@,
            AirdropError::DropAlreadyClaimed => "Drop already claimed."@,
            AirdropError::Unauthorized => "Account is not authorized to execute this instruction"@,
            AirdropError::OwnerMismatch => "Token account owner did not match intended owner"@,
            AirdropError::TemporalMismatch => "Temporal signer did not match distributor"@,
            AirdropError::NumericalOverflow => "Numerical Overflow"@,
            AirdropError::InvalidClaimBump => "Invalid Claim Bump"@,
            AirdropError::MustUseOfficialCandyMachine => "Airdrop only supports the official Metaplex Candy machine contracts"@,
            AirdropError::BumpSeedNotInHashMap => "Bump seed not in hash map"@,
            AirdropError::InvalidForeignEmitter => "InvalidForeignEmitter"@,
            AirdropError::InvalidMessage => "InvalidMessage"@,
            AirdropError::VerificationFailed => "VerificationFailed"@,
            AirdropError::InsufficientCustody => "InsufficientCustody"@,
            AirdropError::InsufficientFunds => "InsufficientFunds"@,
        }
    }

    /// The words that say what went wrong.
    pub fn message(&self) -> (text: &'static str)
        ensures
            text@ == self.spec_message(),
    {
        match self {
            AirdropError::InvalidProof => "Invalid Merkle proof.",
            AirdropError::DropAlreadyClaimed => "Drop already claimed.",
            AirdropError::Unauthorized => "Account is not authorized to execute this instruction",
            AirdropError::OwnerMismatch => "Token account owner did not match intended owner",
            AirdropError::TemporalMismatch => "Temporal signer did not match distributor",
            AirdropError::NumericalOverflow => "Numerical Overflow",
            AirdropError::InvalidClaimBump => "Invalid Claim Bump",
            AirdropError::MustUseOfficialCandyMachine => "Airdrop only supports the official Metaplex Candy machine contracts",
            AirdropError::BumpSeedNotInHashMap => "Bump seed not in hash map",
            AirdropError::InvalidForeignEmitter => "InvalidForeignEmitter",
            AirdropError::InvalidMessage => "InvalidMessage",
            AirdropError::VerificationFailed => "VerificationFailed",
            AirdropError::InsufficientCustody => "InsufficientCustody",
            AirdropError::InsufficientFunds => "InsufficientFunds",
        }
    }

    /// The number under which the error is reported to the submitter.
    pub fn code(&self) -> (code: u32)
        ensures
            code == ERROR_CODE_OFFSET + self.index(),
    {
        let index: u32 = match self {
            AirdropError::InvalidProof => 0,
            AirdropError::DropAlreadyClaimed => 1,
            AirdropError::Unauthorized => 2,
            AirdropError::OwnerMismatch => 3,
            AirdropError::TemporalMismatch => 4,
            AirdropError::NumericalOverflow => 5,
            AirdropError::InvalidClaimBump => 6,
            AirdropError::MustUseOfficialCandyMachine => 7,
            AirdropError::BumpSeedNotInHashMap => 8,
            AirdropError::InvalidForeignEmitter => 9,
            AirdropError::InvalidMessage => 10,
            AirdropError::VerificationFailed => 11,
            AirdropError::InsufficientCustody => 12,
            AirdropError::InsufficientFunds => 13,
        };
        ERROR_CODE_OFFSET + index
    }
}

/// Two errors are reported under one number only if they are one error.
pub proof fn lemma_code_is_injective(a: AirdropError, b: AirdropError)
    requires
        a.index() == b.index(),
    ensures
        a == b,
{
}

} // verus!
