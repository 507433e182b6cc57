use vstd::prelude::*;
use vstd::bytes::{spec_u64_from_le_bytes, u64_from_le_bytes};
use vstd::slice::slice_subrange;

use crate::error::EscrowError;

verus! {

/// The four commands that the escrow program accepts.
#[derive(Clone, Copy, Debug, PartialEq, Eq, Structural)]
pub enum EscrowInstruction {
    /// Creates the escrow record and hands the vault to the program authority.
    ///
    /// Accounts: payer (signer), vault token account, escrow authority (signer),
    /// escrow record, payer token account, payee token account, fee token account,
    /// rent sysvar, token program.
    InitEscrow {
        /// The total amount held in the vault.
        amount: u64,
        /// The part of the amount that goes to the fee recipient on settlement.
        fee: u64,
    },
    /// Pays the vault out to the payee, less the fee.
    ///
    /// Accounts: authority (signer), payee token account, fee token account, vault token
    /// account, escrow record, rent recipient, token program, program authority.
    Settle,
    /// Returns the whole vault to the payer.
    ///
    /// Accounts: authority (signer), escrow record, payer token account, rent recipient,
    /// vault token account, token program, program authority.
    Cancel,
    /// Destroys a settled or canceled record.
    ///
    /// Accounts: authority (signer), escrow record, rent recipient.
    Close,
}

/// The 8-byte little-endian field that starts at `start`, if the bytes reach that far.
pub open spec fn le_u64_field(s: Seq<u8>, start: int) -> Option<u64> {
    if start + 8 <= s.len() {
        Some(spec_u64_from_le_bytes(s.subrange(start, start + 8)))
    } else {
        None
    }
}

/// What a byte buffer decodes to: a tag byte, then for `InitEscrow` the amount and the fee.
pub open spec fn decode_instruction(s: Seq<u8>) -> Result<EscrowInstruction, EscrowError> {
    if s.len() == 0 {
        Err(EscrowError::InvalidInstruction)
    } else if s[0] == 0 {
        if s.len() >= 17 {
            Ok(
                EscrowInstruction::InitEscrow {
                    amount: le_u64_field(s, 1).unwrap(),
                    fee: le_u64_field(s, 9).unwrap(),
                },
            )
        } else {
            Err(EscrowError::InvalidInstruction)
        }
    } else if s[0] == 1 {
        Ok(EscrowInstruction::Settle)
    } else if s[0] == 2 {
        Ok(EscrowInstruction::Cancel)
    } else if s[0] == 3 {
        Ok(EscrowInstruction::Close)
    } else {
        Err(EscrowError::InvalidInstruction)
    }
}

impl EscrowInstruction {
    /// Decodes a byte buffer into a command.
    pub fn unpack(input: &[u8]) -> (r: Result<Self, EscrowError>)
        ensures
            r == decode_instruction(input@),
    {
        if input.len() == 0 {
            return Err(EscrowError::InvalidInstruction);
        }
        let tag = input[0];
        let rest = slice_subrange(input, 1, input.len());
        if tag == 0 {
            let amount = Self::unpack_amount(rest)?;
            let fee = Self::unpack_fee(rest)?;
            assert(input@.subrange(1, 9) =~= rest@.subrange(0, 8));
            assert(input@.subrange(9, 17) =~= rest@.subrange(8, 16));
            Ok(EscrowInstruction::InitEscrow { amount, fee })
        } else if tag == 1 {
            Ok(EscrowInstruction::Settle)
        } else if tag == 2 {
            Ok(EscrowInstruction::Cancel)
        } else if tag == 3 {
            Ok(EscrowInstruction::Close)
        } else {
            Err(EscrowError::InvalidInstruction)
        }
    }

    /// Reads the amount from the first 8 bytes of the payload that follows the tag, little-endian.
    pub fn unpack_amount(input: &[u8]) -> (r: Result<u64, EscrowError>)
        ensures
            r == match le_u64_field(input@, 0) {
                Some(v) => Ok(v),
                None => Err(EscrowError::InvalidInstruction),
            },
    {
        if input.len() < 8 {
            return Err(EscrowError::InvalidInstruction);
        }
        Ok(u64_from_le_bytes(slice_subrange(input, 0, 8)))
    }

    /// Reads the fee from payload bytes 8 to 16, little-endian.
    pub fn unpack_fee(input: &[u8]) -> (r: Result<u64, EscrowError>)
        ensures
            r == match le_u64_field(input@, 8) {
                Some(v) => Ok(v),
                None => Err(EscrowError::InvalidInstruction),
            },
    {
        if input.len() < 16 {
            return Err(EscrowError::InvalidInstruction);
        }
        Ok(u64_from_le_bytes(slice_subrange(input, 8, 16)))
    }
}

} // verus!
