use vstd::prelude::*;

pub mod address;
pub mod error;
pub mod instruction;
pub mod lifecycle;
pub mod processor;
pub mod state;
pub mod token;
pub mod utils;

use crate::address::Address;
use crate::error::EscrowError;

verus! {

/// The seed prefix from which the program authority is derived: the bytes of "escrow".
pub open spec fn spec_prefix_seed() -> Seq<u8> {
    seq![101u8, 115u8, 99u8, 114u8, 111u8, 119u8]
}

/// The identity of this program on the ledger.
pub open spec fn spec_program_id() -> Seq<u8> {
    seq![
        9u8, 179u8, 182u8, 146u8, 143u8, 184u8, 119u8, 252u8, 5u8, 104u8, 197u8, 58u8, 161u8,
        11u8, 174u8, 34u8, 167u8, 163u8, 175u8, 250u8, 94u8, 222u8, 211u8, 160u8, 141u8, 93u8,
        183u8, 55u8, 191u8, 94u8, 138u8, 82u8,
    ]
}

/// The identity of the token ledger program.
pub open spec fn spec_token_program_id() -> Seq<u8> {
    seq![
        6u8, 221u8, 246u8, 225u8, 215u8, 101u8, 161u8, 147u8, 217u8, 203u8, 225u8, 70u8, 206u8,
        235u8, 121u8, 172u8, 28u8, 180u8, 133u8, 237u8, 95u8, 91u8, 55u8, 145u8, 58u8, 140u8,
        245u8, 133u8, 126u8, 255u8, 0u8, 169u8,
    ]
}

/// The program-derived address (and its bump byte) for the given seeds and program,
/// or `None` when no bump byte yields an address off the curve.
pub uninterp spec fn program_address_of(seed0: Seq<u8>, seed1: Seq<u8>, program_id: Seq<u8>) -> Option<(Seq<u8>, u8)>;

/// The authority derived for a program: seeds are the prefix and the program's identity.
pub open spec fn spec_program_authority(program_id: Seq<u8>) -> Option<(Seq<u8>, u8)> {
    program_address_of(spec_prefix_seed(), program_id, program_id)
}

/// The seed prefix as bytes.
pub fn prefix_seed() -> (r: Vec<u8>)
    ensures
        r@ == spec_prefix_seed(),
{
    let r: Vec<u8> = vec![101u8, 115u8, 99u8, 114u8, 111u8, 119u8];
    assert(r@ =~= spec_prefix_seed());
    r
}

/// The identity of this program.
pub fn id() -> (r: Address)
    ensures
        r@ == spec_program_id(),
{
    let r = Address {
        bytes: [
            9u8, 179u8, 182u8, 146u8, 143u8, 184u8, 119u8, 252u8, 5u8, 104u8, 197u8, 58u8, 161u8,
            11u8, 174u8, 34u8, 167u8, 163u8, 175u8, 250u8, 94u8, 222u8, 211u8, 160u8, 141u8, 93u8,
            183u8, 55u8, 191u8, 94u8, 138u8, 82u8,
        ],
    };
    assert(r@ =~= spec_program_id());
    r
}

/// The identity of the token ledger program.
pub fn token_program_id() -> (r: Address)
    ensures
        r@ == spec_token_program_id(),
{
    let r = Address {
        bytes: [
            6u8, 221u8, 246u8, 225u8, 215u8, 101u8, 161u8, 147u8, 217u8, 203u8, 225u8, 70u8, 206u8,
            235u8, 121u8, 172u8, 28u8, 180u8, 133u8, 237u8, 95u8, 91u8, 55u8, 145u8, 58u8, 140u8,
            245u8, 133u8, 126u8, 255u8, 0u8, 169u8,
        ],
    };
    assert(r@ =~= spec_token_program_id());
    r
}

/// Relies on `Pubkey::try_find_program_address`: the derived address and bump byte depend
/// on the two seeds and the program identity alone.
#[verifier::external_body]
fn try_find_program_address(seed0: &[u8], seed1: &[u8], program_id: &Address) -> (r: Option<(Address, u8)>)
    ensures
        r matches Some(p) ==> program_address_of(seed0@, seed1@, program_id@) == Some((p.0@, p.1)),
        r is None ==> program_address_of(seed0@, seed1@, program_id@) is None,
{
    let program = solana_program::pubkey::Pubkey::new_from_array(program_id.bytes);
    match solana_program::pubkey::Pubkey::try_find_program_address(&[seed0, seed1], &program) {
        Some((key, bump)) => Some((Address::new_from_array(key.to_bytes()), bump)),
        None => None,
    }
}

/// Derives the authority that holds custody of escrowed funds for `program_id`.
pub fn find_program_authority(program_id: &Address) -> (r: Option<(Address, u8)>)
    ensures
        r matches Some(p) ==> spec_program_authority(program_id@) == Some((p.0@, p.1)),
        r is None ==> spec_program_authority(program_id@) is None,
{
    let prefix = prefix_seed();
    try_find_program_address(prefix.as_slice(), program_id.bytes.as_slice(), program_id)
}

/// Checks that a claimed authority identity is this program's own identity.
pub fn check_authority_account(escrow_authority_id: &Address) -> (r: Result<(), EscrowError>)
    ensures
        r is Ok <==> escrow_authority_id@ == spec_program_id(),
        r is Err ==> r == Err::<(), EscrowError>(EscrowError::InvalidAuthorityId),
{
    if !escrow_authority_id.same(&id()) {
        return Err(EscrowError::InvalidAuthorityId);
    }
    Ok(())
}

} // verus!
