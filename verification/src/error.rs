use vstd::prelude::*;

verus! {

/// Reasons a validation, cast, or lifecycle operation can fail.
///
/// Authorization failures (`MissingRequiredSignature`, `InvalidAccountOwner`,
/// `IllegalOwner`, `InvalidSeeds`) and structural failures
/// (`InvalidAccountData`, `InvalidInstructionData`) are deterministic in the
/// inputs; `InsufficientFunds` and `ArithmeticOverflow` surface conditions the
/// host runtime would refuse.
#[derive(Clone, Copy, Debug, PartialEq, Eq, Structural)]
pub enum ProgramError {
    /// A required signer flag was absent.
    MissingRequiredSignature,
    /// The account's bytes fail a structural requirement
    /// (writability, executability, length, tag byte, or alignment).
    InvalidAccountData,
    /// The account is owned by an unexpected program.
    InvalidAccountOwner,
    /// The account was required to be empty but already carries data.
    AccountAlreadyInitialized,
    /// A seed-derived address does not match, or the seed list is too long.
    InvalidSeeds,
    /// A resize was attempted on an account this program does not own.
    IllegalOwner,
    /// An instruction payload is empty or oversized.
    InvalidInstructionData,
    /// The funding account cannot cover a required transfer.
    InsufficientFunds,
    /// A balance addition would exceed the representable range.
    ArithmeticOverflow,
}

} // verus!
