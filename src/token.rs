use vstd::prelude::*;
use vstd::bytes::spec_u64_from_le_bytes;

use crate::error::EscrowError;

verus! {

/// Size of a token ledger account's data in bytes.
pub const TOKEN_ACCOUNT_LEN: usize = 165;

/// What the escrow reads from a token ledger account.
#[derive(Clone, Copy, Debug)]
pub struct TokenAccount {
    /// The balance held.
    pub amount: u64,
    /// 0: uninitialized, 1: initialized, 2: frozen.
    pub state: u8,
    /// For an account of the native currency, the reserve kept for rent.
    pub is_native: Option<u64>,
}

impl TokenAccount {
    /// Whether the account was initialized on the token ledger.
    pub fn is_initialized(&self) -> (r: bool)
        ensures
            r == (self.state != 0),
    {
        self.state != 0
    }

    /// Whether the account holds the native currency.
    pub fn is_native(&self) -> (r: bool)
        ensures
            r == self.is_native is Some,
    {
        self.is_native.is_some()
    }
}

/// An optional-value tag at `start`: four bytes, little-endian 0 or 1.
pub open spec fn option_tag_valid(s: Seq<u8>, start: int) -> bool {
    &&& s[start] <= 1
    &&& s[start + 1] == 0
    &&& s[start + 2] == 0
    &&& s[start + 3] == 0
}

/// The token ledger's account layout: mint (0..32), owner (32..64), amount (64..72),
/// delegate option (72..108), state (108), native option (109..121), delegated amount
/// (121..129), close authority option (129..165).
pub open spec fn token_layout_valid(s: Seq<u8>) -> bool {
    &&& s.len() == TOKEN_ACCOUNT_LEN
    &&& option_tag_valid(s, 72)
    &&& s[108] <= 2
    &&& option_tag_valid(s, 109)
    &&& option_tag_valid(s, 129)
}

/// The fields read from a token account's data.
pub open spec fn token_fields(s: Seq<u8>) -> TokenAccount {
    TokenAccount {
        amount: spec_u64_from_le_bytes(s.subrange(64, 72)),
        state: s[108],
        is_native: if s[109] == 1 {
            Some(spec_u64_from_le_bytes(s.subrange(113, 121)))
        } else {
            None
        },
    }
}

/// Decoding of token account data, initialized or not.
pub open spec fn decode_token_unchecked(s: Seq<u8>) -> Result<TokenAccount, EscrowError> {
    if token_layout_valid(s) {
        Ok(token_fields(s))
    } else {
        Err(EscrowError::InvalidAccountData)
    }
}

/// Decoding of token account data that must be initialized.
pub open spec fn decode_token(s: Seq<u8>) -> Result<TokenAccount, EscrowError> {
    match decode_token_unchecked(s) {
        Ok(t) => if t.state != 0 {
            Ok(t)
        } else {
            Err(EscrowError::UninitializedAccount)
        },
        Err(e) => Err(e),
    }
}

/// Relies on `spl_token::state::Account::unpack_unchecked` (the `Pack` default): the data
/// must be 165 bytes with valid option tags and state byte, and the fields are read at
/// fixed offsets.
#[verifier::external_body]
pub(crate) fn token_unpack_unchecked(data: &[u8]) -> (r: Result<TokenAccount, EscrowError>)
    ensures
        r == decode_token_unchecked(data@),
{
    match <spl_token::state::Account as solana_program::program_pack::Pack>::unpack_unchecked(data) {
        Ok(a) => Ok(TokenAccount { amount: a.amount, state: a.state as u8, is_native: a.is_native.into() }),
        Err(_) => Err(EscrowError::InvalidAccountData),
    }
}

/// Relies on `spl_token::state::Account::unpack` (the `Pack` default): as the unchecked
/// form, then `UninitializedAccount` when the state byte is 0.
#[verifier::external_body]
pub(crate) fn token_unpack(data: &[u8]) -> (r: Result<TokenAccount, EscrowError>)
    ensures
        r == decode_token(data@),
{
    match <spl_token::state::Account as solana_program::program_pack::Pack>::unpack(data) {
        Ok(a) => Ok(TokenAccount { amount: a.amount, state: a.state as u8, is_native: a.is_native.into() }),
        Err(solana_program::program_error::ProgramError::UninitializedAccount) => Err(EscrowError::UninitializedAccount),
        Err(_) => Err(EscrowError::InvalidAccountData),
    }
}

} // verus!
