use vstd::prelude::*;
use vstd::bytes::{
    lemma_auto_spec_u64_to_from_le_bytes, spec_u64_from_le_bytes, spec_u64_to_le_bytes,
    u64_from_le_bytes, u64_to_le_bytes,
};
use vstd::slice::slice_subrange;

use crate::address::{ADDRESS_LEN, Address};
use crate::error::EscrowError;

verus! {

/// Size of a stored escrow record in bytes.
pub const ESCROW_LEN: usize = 211;

/// Byte offsets of the record's fields.
pub const INITIALIZED_AT: usize = 0;
pub const SETTLED_AT: usize = 1;
pub const CANCELED_AT: usize = 2;
pub const PAYER_AT: usize = 3;
pub const PAYER_TOKEN_AT: usize = 35;
pub const PAYEE_TOKEN_AT: usize = 67;
pub const VAULT_TOKEN_AT: usize = 99;
pub const AUTHORITY_AT: usize = 131;
pub const FEE_TOKEN_AT: usize = 163;
pub const AMOUNT_AT: usize = 195;
pub const FEE_AT: usize = 203;

/// The persistent state of one escrow.
#[derive(Clone, Copy, Debug)]
pub struct Escrow {
    pub is_initialized: bool,
    pub is_settled: bool,
    pub is_canceled: bool,
    pub payer: Address,
    pub payer_token: Address,
    pub payee_token: Address,
    pub vault_token: Address,
    pub fee_token: Address,
    pub authority: Address,
    pub amount: u64,
    pub fee: u64,
}

/// An escrow record with its addresses seen as byte sequences.
pub struct EscrowView {
    pub is_initialized: bool,
    pub is_settled: bool,
    pub is_canceled: bool,
    pub payer: Seq<u8>,
    pub payer_token: Seq<u8>,
    pub payee_token: Seq<u8>,
    pub vault_token: Seq<u8>,
    pub fee_token: Seq<u8>,
    pub authority: Seq<u8>,
    pub amount: u64,
    pub fee: u64,
}

impl EscrowView {
    /// Every address holds exactly 32 bytes.
    pub open spec fn wf(self) -> bool {
        &&& self.payer.len() == ADDRESS_LEN
        &&& self.payer_token.len() == ADDRESS_LEN
        &&& self.payee_token.len() == ADDRESS_LEN
        &&& self.vault_token.len() == ADDRESS_LEN
        &&& self.fee_token.len() == ADDRESS_LEN
        &&& self.authority.len() == ADDRESS_LEN
    }
}

impl View for Escrow {
    type V = EscrowView;

    open spec fn view(&self) -> EscrowView {
        EscrowView {
            is_initialized: self.is_initialized,
            is_settled: self.is_settled,
            is_canceled: self.is_canceled,
            payer: self.payer@,
            payer_token: self.payer_token@,
            payee_token: self.payee_token@,
            vault_token: self.vault_token@,
            fee_token: self.fee_token@,
            authority: self.authority@,
            amount: self.amount,
            fee: self.fee,
        }
    }
}

/// The stored byte of a flag.
pub open spec fn flag_byte(b: bool) -> u8 {
    if b {
        1
    } else {
        0
    }
}

/// The stored form of a record: three flag bytes, six addresses, then amount and fee
/// little-endian.
pub open spec fn encode_escrow(v: EscrowView) -> Seq<u8> {
    seq![flag_byte(v.is_initialized), flag_byte(v.is_settled), flag_byte(v.is_canceled)]
        + v.payer + v.payer_token + v.payee_token + v.vault_token + v.authority + v.fee_token
        + spec_u64_to_le_bytes(v.amount) + spec_u64_to_le_bytes(v.fee)
}

/// The address stored at `start`.
pub open spec fn address_at(s: Seq<u8>, start: int) -> Seq<u8> {
    s.subrange(start, start + ADDRESS_LEN)
}

/// The record read from the first `ESCROW_LEN` bytes, flags taken as set when their byte is 1.
pub open spec fn escrow_fields(s: Seq<u8>) -> EscrowView {
    EscrowView {
        is_initialized: s[INITIALIZED_AT as int] == 1,
        is_settled: s[SETTLED_AT as int] == 1,
        is_canceled: s[CANCELED_AT as int] == 1,
        payer: address_at(s, PAYER_AT as int),
        payer_token: address_at(s, PAYER_TOKEN_AT as int),
        payee_token: address_at(s, PAYEE_TOKEN_AT as int),
        vault_token: address_at(s, VAULT_TOKEN_AT as int),
        authority: address_at(s, AUTHORITY_AT as int),
        fee_token: address_at(s, FEE_TOKEN_AT as int),
        amount: spec_u64_from_le_bytes(s.subrange(AMOUNT_AT as int, FEE_AT as int)),
        fee: spec_u64_from_le_bytes(s.subrange(FEE_AT as int, ESCROW_LEN as int)),
    }
}

/// The three flag bytes are each 0 or 1.
pub open spec fn flags_valid(s: Seq<u8>) -> bool {
    &&& s[INITIALIZED_AT as int] <= 1
    &&& s[SETTLED_AT as int] <= 1
    &&& s[CANCELED_AT as int] <= 1
}

/// Decoding of a region that holds at least `ESCROW_LEN` bytes.
pub open spec fn decode_escrow_prefix(s: Seq<u8>) -> Result<EscrowView, EscrowError> {
    if flags_valid(s) {
        Ok(escrow_fields(s))
    } else {
        Err(EscrowError::InvalidAccountData)
    }
}

/// Decoding of a region that must hold exactly `ESCROW_LEN` bytes.
pub open spec fn decode_escrow(s: Seq<u8>) -> Result<EscrowView, EscrowError> {
    if s.len() != ESCROW_LEN {
        Err(EscrowError::InvalidAccountData)
    } else {
        decode_escrow_prefix(s)
    }
}

/// Decoding that also asks for a record that is already initialized.
pub open spec fn decode_initialized_escrow(s: Seq<u8>) -> Result<EscrowView, EscrowError> {
    match decode_escrow(s) {
        Ok(v) => if v.is_initialized {
            Ok(v)
        } else {
            Err(EscrowError::UninitializedAccount)
        },
        Err(e) => Err(e),
    }
}

/// The view of a decoding result.
pub open spec fn escrow_result_view(r: Result<Escrow, EscrowError>) -> Result<EscrowView, EscrowError> {
    match r {
        Ok(e) => Ok(e@),
        Err(e) => Err(e),
    }
}

fn read_flag(b: u8) -> (r: Result<bool, EscrowError>)
    ensures
        b <= 1 ==> r == Ok::<bool, EscrowError>(b == 1),
        b > 1 ==> r == Err::<bool, EscrowError>(EscrowError::InvalidAccountData),
{
    if b == 0 {
        Ok(false)
    } else if b == 1 {
        Ok(true)
    } else {
        Err(EscrowError::InvalidAccountData)
    }
}

/// Reads the 32 bytes at `start` as an address.
pub fn read_address(src: &[u8], start: usize) -> (r: Address)
    requires
        start + ADDRESS_LEN <= src@.len(),
    ensures
        r@ == address_at(src@, start as int),
{
    let mut bytes = [0u8; 32];
    let mut i: usize = 0;
    while i < ADDRESS_LEN
        invariant
            0 <= i <= ADDRESS_LEN,
            start + ADDRESS_LEN <= src.len(),
            bytes@.len() == ADDRESS_LEN,
            forall|j: int| 0 <= j < i ==> bytes@[j] == src@[start + j],
        decreases ADDRESS_LEN - i,
    {
        bytes[i] = src[start + i];
        i = i + 1;
    }
    let r = Address { bytes };
    assert(r@ =~= address_at(src@, start as int));
    r
}

/// The bytes of an address, in order.
pub fn address_bytes(a: &Address) -> (r: Vec<u8>)
    ensures
        r@ == a@,
{
    let mut r: Vec<u8> = Vec::new();
    let mut i: usize = 0;
    while i < ADDRESS_LEN
        invariant
            0 <= i <= ADDRESS_LEN,
            a@.len() == ADDRESS_LEN,
            r@ == a@.subrange(0, i as int),
        decreases ADDRESS_LEN - i,
    {
        r.push(a.bytes[i]);
        i = i + 1;
        assert(r@ =~= a@.subrange(0, i as int));
    }
    assert(a@.subrange(0, ADDRESS_LEN as int) =~= a@);
    r
}

impl Escrow {
    /// Whether the escrow was settled.
    pub fn is_settled(&self) -> (r: bool)
        ensures
            r == self.is_settled,
    {
        self.is_settled
    }

    /// Whether the escrow was canceled.
    pub fn is_canceled(&self) -> (r: bool)
        ensures
            r == self.is_canceled,
    {
        self.is_canceled
    }

    /// Whether the record was populated.
    pub fn is_initialized(&self) -> (r: bool)
        ensures
            r == self.is_initialized,
    {
        self.is_initialized
    }

    /// Decodes a record from the first `ESCROW_LEN` bytes of `src`.
    pub fn unpack_from_slice(src: &[u8]) -> (r: Result<Escrow, EscrowError>)
        requires
            src@.len() >= ESCROW_LEN,
        ensures
            escrow_result_view(r) == decode_escrow_prefix(src@),
    {
        let is_initialized = read_flag(src[INITIALIZED_AT])?;
        let is_settled = read_flag(src[SETTLED_AT])?;
        let is_canceled = read_flag(src[CANCELED_AT])?;
        let payer = read_address(src, PAYER_AT);
        let payer_token = read_address(src, PAYER_TOKEN_AT);
        let payee_token = read_address(src, PAYEE_TOKEN_AT);
        let vault_token = read_address(src, VAULT_TOKEN_AT);
        let authority = read_address(src, AUTHORITY_AT);
        let fee_token = read_address(src, FEE_TOKEN_AT);
        let amount = u64_from_le_bytes(slice_subrange(src, AMOUNT_AT, FEE_AT));
        let fee = u64_from_le_bytes(slice_subrange(src, FEE_AT, ESCROW_LEN));
        Ok(Escrow {
            is_initialized,
            is_settled,
            is_canceled,
            payer,
            payer_token,
            payee_token,
            vault_token,
            fee_token,
            authority,
            amount,
            fee,
        })
    }

    /// The stored form of this record.
    pub fn to_bytes(&self) -> (r: Vec<u8>)
        ensures
            r@ == encode_escrow(self@),
    {
        let mut r: Vec<u8> = Vec::new();
        r.push(if self.is_initialized { 1u8 } else { 0u8 });
        r.push(if self.is_settled { 1u8 } else { 0u8 });
        r.push(if self.is_canceled { 1u8 } else { 0u8 });
        let mut piece = address_bytes(&self.payer);
        r.append(&mut piece);
        let mut piece = address_bytes(&self.payer_token);
        r.append(&mut piece);
        let mut piece = address_bytes(&self.payee_token);
        r.append(&mut piece);
        let mut piece = address_bytes(&self.vault_token);
        r.append(&mut piece);
        let mut piece = address_bytes(&self.authority);
        r.append(&mut piece);
        let mut piece = address_bytes(&self.fee_token);
        r.append(&mut piece);
        let mut piece = u64_to_le_bytes(self.amount);
        r.append(&mut piece);
        let mut piece = u64_to_le_bytes(self.fee);
        r.append(&mut piece);
        assert(r@ =~= encode_escrow(self@));
        r
    }

    /// Writes this record into the first `ESCROW_LEN` bytes of `dst`.
    pub fn pack_into_slice(&self, dst: &mut [u8])
        requires
            old(dst)@.len() >= ESCROW_LEN,
        ensures
            final(dst)@.len() == old(dst)@.len(),
            final(dst)@.subrange(0, ESCROW_LEN as int) == encode_escrow(self@),
            final(dst)@.subrange(ESCROW_LEN as int, old(dst)@.len() as int)
                == old(dst)@.subrange(ESCROW_LEN as int, old(dst)@.len() as int),
    {
        let bytes = self.to_bytes();
        proof {
            lemma_encode_len(self@);
        }
        let mut i: usize = 0;
        while i < ESCROW_LEN
            invariant
                0 <= i <= ESCROW_LEN,
                bytes@.len() == ESCROW_LEN,
                bytes@ == encode_escrow(self@),
                dst@.len() == old(dst)@.len(),
                dst@.len() >= ESCROW_LEN,
                forall|j: int| 0 <= j < i ==> dst@[j] == bytes@[j],
                forall|j: int| i <= j < dst@.len() ==> dst@[j] == old(dst)@[j],
            decreases ESCROW_LEN - i,
        {
            dst[i] = bytes[i];
            i = i + 1;
        }
        assert(dst@.subrange(0, ESCROW_LEN as int) =~= encode_escrow(self@));
        assert(dst@.subrange(ESCROW_LEN as int, old(dst)@.len() as int)
            =~= old(dst)@.subrange(ESCROW_LEN as int, old(dst)@.len() as int));
    }

    /// Decodes a region of exactly `ESCROW_LEN` bytes, initialized or not.
    pub fn unpack_unchecked(input: &[u8]) -> (r: Result<Escrow, EscrowError>)
        ensures
            escrow_result_view(r) == decode_escrow(input@),
    {
        if input.len() != ESCROW_LEN {
            return Err(EscrowError::InvalidAccountData);
        }
        Self::unpack_from_slice(input)
    }

    /// Decodes a region of exactly `ESCROW_LEN` bytes that holds an initialized record.
    pub fn unpack(input: &[u8]) -> (r: Result<Escrow, EscrowError>)
        ensures
            escrow_result_view(r) == decode_initialized_escrow(input@),
    {
        let value = Self::unpack_unchecked(input)?;
        if value.is_initialized() {
            Ok(value)
        } else {
            Err(EscrowError::UninitializedAccount)
        }
    }

    /// Stores `src` into `dst`, which must hold exactly `ESCROW_LEN` bytes.
    pub fn pack(src: Escrow, dst: &mut [u8]) -> (r: Result<(), EscrowError>)
        ensures
            old(dst)@.len() != ESCROW_LEN ==> r == Err::<(), EscrowError>(
                EscrowError::InvalidAccountData,
            ) && final(dst)@ == old(dst)@,
            old(dst)@.len() == ESCROW_LEN ==> r is Ok && final(dst)@ == encode_escrow(src@),
    {
        if dst.len() != ESCROW_LEN {
            return Err(EscrowError::InvalidAccountData);
        }
        src.pack_into_slice(dst);
        assert(dst@ =~= dst@.subrange(0, ESCROW_LEN as int));
        Ok(())
    }
}

/// The stored form of a record is `ESCROW_LEN` bytes long.
pub proof fn lemma_encode_len(v: EscrowView)
    requires
        v.wf(),
    ensures
        encode_escrow(v).len() == ESCROW_LEN,
{
    lemma_auto_spec_u64_to_from_le_bytes();
}

/// Decoding the stored form of a record gives the record back.
pub proof fn lemma_decode_encode(v: EscrowView)
    requires
        v.wf(),
    ensures
        decode_escrow(encode_escrow(v)) == Ok::<EscrowView, EscrowError>(v),
{
    lemma_auto_spec_u64_to_from_le_bytes();
    let s = encode_escrow(v);
    assert(address_at(s, PAYER_AT as int) =~= v.payer);
    assert(address_at(s, PAYER_TOKEN_AT as int) =~= v.payer_token);
    assert(address_at(s, PAYEE_TOKEN_AT as int) =~= v.payee_token);
    assert(address_at(s, VAULT_TOKEN_AT as int) =~= v.vault_token);
    assert(address_at(s, AUTHORITY_AT as int) =~= v.authority);
    assert(address_at(s, FEE_TOKEN_AT as int) =~= v.fee_token);
    assert(s.subrange(AMOUNT_AT as int, FEE_AT as int) =~= spec_u64_to_le_bytes(v.amount));
    assert(s.subrange(FEE_AT as int, ESCROW_LEN as int) =~= spec_u64_to_le_bytes(v.fee));
}

/// Encoding a well-formed stored record gives its bytes back.
pub proof fn lemma_encode_decode(s: Seq<u8>)
    requires
        s.len() == ESCROW_LEN,
        flags_valid(s),
    ensures
        decode_escrow(s) is Ok,
        encode_escrow(decode_escrow(s)->Ok_0) == s,
{
    lemma_auto_spec_u64_to_from_le_bytes();
    let v = escrow_fields(s);
    let amount_bytes = s.subrange(AMOUNT_AT as int, FEE_AT as int);
    let fee_bytes = s.subrange(FEE_AT as int, ESCROW_LEN as int);
    assert(spec_u64_to_le_bytes(spec_u64_from_le_bytes(amount_bytes)) == amount_bytes);
    assert(spec_u64_to_le_bytes(spec_u64_from_le_bytes(fee_bytes)) == fee_bytes);
    assert(encode_escrow(v) =~= s);
}

} // verus!
