use vstd::prelude::*;

verus! {

/// Every way an escrow instruction can fail.
#[derive(Clone, Copy, Debug, PartialEq, Eq, Structural)]
pub enum EscrowError {
    /// The instruction bytes do not decode to a command.
    InvalidInstruction,
    /// A record or token account holds malformed bytes.
    InvalidAccountData,
    /// A token account is not initialized on the token ledger.
    UninitializedAccount,
    /// The vault balance differs from the declared amount.
    ExpectedAmountMismatch,
    /// The fee exceeds the amount or the vault balance.
    FeeOverflow,
    /// A balance computation would overflow or underflow.
    AmountOverflow,
    /// The escrow record is already initialized.
    AccountAlreadyInitialized,
    /// The escrow was already settled.
    AccountAlreadySettled,
    /// The escrow was already canceled.
    AccountAlreadyCanceled,
    /// Close was requested on an open escrow.
    AccountNotSettledOrCanceled,
    /// A token account that must be initialized is not.
    AccountNotInitialized,
    /// The claimed authority is not this program.
    InvalidAuthorityId,
    /// A required signature is missing.
    MissingRequiredSignature,
    /// An account has the wrong owner.
    IllegalOwner,
    /// An account has the wrong key.
    InvalidArgument,
    /// An account does not hold enough lamports to be rent exempt.
    AccountNotRentExempt,
    /// The account list is shorter than the instruction needs.
    NotEnoughAccountKeys,
    /// No program address could be derived for the authority.
    InvalidSeeds,
}

} // verus!
