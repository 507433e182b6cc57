use vstd::prelude::*;

use crate::address::Address;
use crate::error::EscrowError;
use crate::state::Escrow;
use crate::token::{decode_token_unchecked, token_unpack_unchecked, TokenAccount};

verus! {

/// A ledger account as an instruction sees it.
#[derive(Clone, Debug)]
pub struct LedgerAccount {
    /// The account's address.
    pub key: Address,
    /// The program that owns the account.
    pub owner: Address,
    /// Whether the account signed the transaction.
    pub is_signer: bool,
    /// The account's balance in the native currency.
    pub lamports: u64,
    /// The account's data.
    pub data: Vec<u8>,
}

/// Fails with `MissingRequiredSignature` unless the account signed.
pub open spec fn signer_check(a: LedgerAccount) -> Result<(), EscrowError> {
    if a.is_signer {
        Ok(())
    } else {
        Err(EscrowError::MissingRequiredSignature)
    }
}

/// Fails with `IllegalOwner` unless the account is owned by `owner`.
pub open spec fn owner_check(a: LedgerAccount, owner: Seq<u8>) -> Result<(), EscrowError> {
    if a.owner@ == owner {
        Ok(())
    } else {
        Err(EscrowError::IllegalOwner)
    }
}

/// Fails with `InvalidArgument` unless the account's address is `key`.
pub open spec fn key_check(a: LedgerAccount, key: Seq<u8>) -> Result<(), EscrowError> {
    if a.key@ == key {
        Ok(())
    } else {
        Err(EscrowError::InvalidArgument)
    }
}

/// Fails with `AccountNotRentExempt` when the balance is under the minimum.
pub open spec fn rent_check(minimum_balance: u64, a: LedgerAccount) -> Result<(), EscrowError> {
    if a.lamports >= minimum_balance {
        Ok(())
    } else {
        Err(EscrowError::AccountNotRentExempt)
    }
}

/// Reads a token account and fails with `AccountNotInitialized` when it is not initialized.
pub open spec fn token_initialized_check(a: LedgerAccount) -> Result<TokenAccount, EscrowError> {
    match decode_token_unchecked(a.data@) {
        Ok(t) => if t.state != 0 {
            Ok(t)
        } else {
            Err(EscrowError::AccountNotInitialized)
        },
        Err(e) => Err(e),
    }
}

/// Fails with `AccountAlreadyInitialized` when the record is initialized.
pub fn assert_uninitialized(account: &Escrow) -> (r: Result<(), EscrowError>)
    ensures
        account.is_initialized ==> r == Err::<(), EscrowError>(EscrowError::AccountAlreadyInitialized),
        !account.is_initialized ==> r is Ok,
{
    if account.is_initialized() {
        Err(EscrowError::AccountAlreadyInitialized)
    } else {
        Ok(())
    }
}

/// Fails unless the account signed.
pub fn assert_signer(account: &LedgerAccount) -> (r: Result<(), EscrowError>)
    ensures
        r == signer_check(*account),
{
    if account.is_signer {
        return Ok(());
    }
    Err(EscrowError::MissingRequiredSignature)
}

/// Fails unless the account is owned by `owner`.
pub fn assert_owned_by(account: &LedgerAccount, owner: &Address) -> (r: Result<(), EscrowError>)
    ensures
        r == owner_check(*account, owner@),
{
    if !account.owner.same(owner) {
        Err(EscrowError::IllegalOwner)
    } else {
        Ok(())
    }
}

/// Fails unless the account's address is `key`.
pub fn assert_account_key(account_info: &LedgerAccount, key: &Address) -> (r: Result<(), EscrowError>)
    ensures
        r == key_check(*account_info, key@),
{
    if !account_info.key.same(key) {
        Err(EscrowError::InvalidArgument)
    } else {
        Ok(())
    }
}

/// Fails unless the account holds at least `minimum_balance`, the rent-exempt minimum for
/// its data length.
pub fn assert_rent_exempt(minimum_balance: u64, account_info: &LedgerAccount) -> (r: Result<(), EscrowError>)
    ensures
        r == rent_check(minimum_balance, *account_info),
{
    if account_info.lamports < minimum_balance {
        Err(EscrowError::AccountNotRentExempt)
    } else {
        Ok(())
    }
}

/// Reads the account as a token account and fails unless it is initialized.
pub fn assert_initialized(account_info: &LedgerAccount) -> (r: Result<TokenAccount, EscrowError>)
    ensures
        r == token_initialized_check(*account_info),
{
    let account = token_unpack_unchecked(account_info.data.as_slice())?;
    if !account.is_initialized() {
        Err(EscrowError::AccountNotInitialized)
    } else {
        Ok(account)
    }
}

} // verus!
