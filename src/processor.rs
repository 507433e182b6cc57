use vstd::prelude::*;

use crate::address::Address;
use crate::instruction::{decode_instruction, EscrowInstruction};
use crate::error::EscrowError;
use crate::state::{decode_escrow, decode_initialized_escrow, Escrow, EscrowView};
use crate::token::{decode_token, token_unpack};
use crate::utils::{
    assert_account_key, assert_initialized, assert_owned_by, assert_rent_exempt, assert_signer,
    token_initialized_check, LedgerAccount,
};
use crate::{find_program_authority, spec_program_authority, spec_token_program_id, token_program_id};

verus! {

/// One step of fund movement that an instruction asks the host to carry out, in order.
/// Account positions are indices into the instruction's account list.
#[derive(Clone, Copy, Debug)]
pub enum Op {
    /// The token ledger hands `account` to `new_owner`; `owner` signs.
    SetOwner { account: usize, new_owner: Address, owner: usize },
    /// The token ledger moves `amount` from `source` to `destination`; `authority` signs.
    Transfer { source: usize, destination: usize, authority: usize, amount: u64 },
    /// The token ledger closes `account`, its balance going to `destination`; `authority` signs.
    CloseAccount { account: usize, destination: usize, authority: usize },
    /// `amount` lamports leave `source` and reach `destination`, both balances checked.
    MoveLamports { source: usize, destination: usize, amount: u64 },
}

/// An `Op` with positions as integers and the new owner seen as bytes.
pub enum OpView {
    SetOwner { account: int, new_owner: Seq<u8>, owner: int },
    Transfer { source: int, destination: int, authority: int, amount: u64 },
    CloseAccount { account: int, destination: int, authority: int },
    MoveLamports { source: int, destination: int, amount: u64 },
}

impl View for Op {
    type V = OpView;

    open spec fn view(&self) -> OpView {
        match *self {
            Op::SetOwner { account, new_owner, owner } => OpView::SetOwner {
                account: account as int,
                new_owner: new_owner@,
                owner: owner as int,
            },
            Op::Transfer { source, destination, authority, amount } => OpView::Transfer {
                source: source as int,
                destination: destination as int,
                authority: authority as int,
                amount,
            },
            Op::CloseAccount { account, destination, authority } => OpView::CloseAccount {
                account: account as int,
                destination: destination as int,
                authority: authority as int,
            },
            Op::MoveLamports { source, destination, amount } => OpView::MoveLamports {
                source: source as int,
                destination: destination as int,
                amount,
            },
        }
    }
}

/// What happens to the escrow record once every op succeeded.
#[derive(Clone, Copy, Debug)]
pub enum RecordUpdate {
    /// The record's data is replaced by the stored form of this record.
    Write(Escrow),
    /// The record's data is emptied and its balance set to zero.
    Erase,
}

/// A `RecordUpdate` with the record seen through its view.
pub enum RecordUpdateView {
    Write(EscrowView),
    Erase,
}

impl View for RecordUpdate {
    type V = RecordUpdateView;

    open spec fn view(&self) -> RecordUpdateView {
        match *self {
            RecordUpdate::Write(e) => RecordUpdateView::Write(e@),
            RecordUpdate::Erase => RecordUpdateView::Erase,
        }
    }
}

/// The effect of an accepted instruction.
#[derive(Clone, Debug)]
pub struct Plan {
    /// Fund movements, carried out in order.
    pub ops: Vec<Op>,
    /// Position of the token ledger program, when ops go through it.
    pub token_program: Option<usize>,
    /// Bump byte with which the program authority signs, when it signs.
    pub authority_bump: Option<u8>,
    /// Position of the escrow record.
    pub escrow: usize,
    /// The record's new state, stored last.
    pub update: RecordUpdate,
}

/// A `Plan` with its ops and record seen through their views.
pub struct PlanView {
    pub ops: Seq<OpView>,
    pub token_program: Option<int>,
    pub authority_bump: Option<u8>,
    pub escrow: int,
    pub update: RecordUpdateView,
}

impl View for Plan {
    type V = PlanView;

    open spec fn view(&self) -> PlanView {
        PlanView {
            ops: self.ops@.map_values(|o: Op| o@),
            token_program: match self.token_program {
                Some(i) => Some(i as int),
                None => None,
            },
            authority_bump: self.authority_bump,
            escrow: self.escrow as int,
            update: self.update@,
        }
    }
}

/// The view of a handler's result.
pub open spec fn plan_result_view(r: Result<Plan, EscrowError>) -> Result<PlanView, EscrowError> {
    match r {
        Ok(p) => Ok(p@),
        Err(e) => Err(e),
    }
}

/// The account at position `i`, failing with `NotEnoughAccountKeys` past the end.
fn next_account(accounts: &[LedgerAccount], i: usize) -> (r: Result<&LedgerAccount, EscrowError>)
    ensures
        i < accounts@.len() ==> r is Ok && *r->Ok_0 == accounts@[i as int],
        i >= accounts@.len() ==> r == Err::<&LedgerAccount, EscrowError>(EscrowError::NotEnoughAccountKeys),
{
    if i < accounts.len() {
        Ok(&accounts[i])
    } else {
        Err(EscrowError::NotEnoughAccountKeys)
    }
}

/// Close: authority (0), escrow record (1), rent recipient (2).
pub open spec fn close_spec(accs: Seq<LedgerAccount>, program_id: Seq<u8>) -> Result<PlanView, EscrowError> {
    if accs.len() < 1 {
        Err(EscrowError::NotEnoughAccountKeys)
    } else if !accs[0].is_signer {
        Err(EscrowError::MissingRequiredSignature)
    } else if accs.len() < 2 {
        Err(EscrowError::NotEnoughAccountKeys)
    } else if accs[1].owner@ != program_id {
        Err(EscrowError::IllegalOwner)
    } else if decode_initialized_escrow(accs[1].data@) is Err {
        Err(decode_initialized_escrow(accs[1].data@)->Err_0)
    } else if decode_initialized_escrow(accs[1].data@)->Ok_0.authority != accs[0].key@ {
        Err(EscrowError::InvalidAccountData)
    } else if !(decode_initialized_escrow(accs[1].data@)->Ok_0.is_settled
        || decode_initialized_escrow(accs[1].data@)->Ok_0.is_canceled) {
        Err(EscrowError::AccountNotSettledOrCanceled)
    } else if accs.len() < 3 {
        Err(EscrowError::NotEnoughAccountKeys)
    } else if accs[2].lamports + accs[1].lamports > u64::MAX {
        Err(EscrowError::AmountOverflow)
    } else {
        Ok(
            PlanView {
                ops: seq![OpView::MoveLamports { source: 1, destination: 2, amount: accs[1].lamports }],
                token_program: None,
                authority_bump: None,
                escrow: 1,
                update: RecordUpdateView::Erase,
            },
        )
    }
}

/// The ops that pay out a vault: `payout` to the payee, then `fee` to the fee recipient when
/// it is positive. A native vault is first closed into the escrow record, whose lamports
/// then move; a token vault pays by transfers and is then closed into the rent recipient.
pub open spec fn settle_ops(native: bool, payout: u64, fee: u64) -> Seq<OpView> {
    if native {
        seq![
            OpView::CloseAccount { account: 3, destination: 4, authority: 7 },
            OpView::MoveLamports { source: 4, destination: 1, amount: payout },
        ] + if fee > 0 {
            seq![OpView::MoveLamports { source: 4, destination: 2, amount: fee }]
        } else {
            Seq::empty()
        }
    } else {
        seq![OpView::Transfer { source: 3, destination: 1, authority: 7, amount: payout }]
            + if fee > 0 {
            seq![OpView::Transfer { source: 3, destination: 2, authority: 7, amount: fee }]
        } else {
            Seq::empty()
        } + seq![OpView::CloseAccount { account: 3, destination: 5, authority: 7 }]
    }
}

/// Settle: authority (0), payee token account (1), fee token account (2), vault token
/// account (3), escrow record (4), rent recipient (5), token program (6), program
/// authority (7).
pub open spec fn settle_spec(accs: Seq<LedgerAccount>, program_id: Seq<u8>) -> Result<PlanView, EscrowError> {
    let vault = decode_token(accs[3].data@)->Ok_0;
    let rec = decode_initialized_escrow(accs[4].data@)->Ok_0;
    let pda = spec_program_authority(program_id)->Some_0;
    if accs.len() < 1 {
        Err(EscrowError::NotEnoughAccountKeys)
    } else if !accs[0].is_signer {
        Err(EscrowError::MissingRequiredSignature)
    } else if accs.len() < 5 {
        Err(EscrowError::NotEnoughAccountKeys)
    } else if decode_initialized_escrow(accs[4].data@) is Err {
        Err(decode_initialized_escrow(accs[4].data@)->Err_0)
    } else if rec.is_canceled {
        Err(EscrowError::AccountAlreadyCanceled)
    } else if rec.is_settled {
        Err(EscrowError::AccountAlreadySettled)
    } else if accs[3].owner@ != spec_token_program_id() {
        Err(EscrowError::IllegalOwner)
    } else if decode_token(accs[3].data@) is Err {
        Err(decode_token(accs[3].data@)->Err_0)
    } else if accs[0].key@ != rec.authority || accs[1].key@ != rec.payee_token
        || accs[2].key@ != rec.fee_token || accs[3].key@ != rec.vault_token {
        Err(EscrowError::InvalidArgument)
    } else if accs.len() < 7 {
        Err(EscrowError::NotEnoughAccountKeys)
    } else if accs[6].key@ != spec_token_program_id() {
        Err(EscrowError::InvalidArgument)
    } else if spec_program_authority(program_id) is None {
        Err(EscrowError::InvalidSeeds)
    } else if accs.len() < 8 {
        Err(EscrowError::NotEnoughAccountKeys)
    } else if accs[7].key@ != pda.0 {
        Err(EscrowError::InvalidArgument)
    } else if rec.fee > vault.amount {
        Err(EscrowError::FeeOverflow)
    } else {
        Ok(
            PlanView {
                ops: settle_ops(vault.is_native is Some, (vault.amount - rec.fee) as u64, rec.fee),
                token_program: Some(6),
                authority_bump: Some(pda.1),
                escrow: 4,
                update: RecordUpdateView::Write(EscrowView { is_settled: true, ..rec }),
            },
        )
    }
}

/// The ops that return a whole vault to the payer: a native vault is closed into the escrow
/// record, whose lamports then move; a token vault pays by transfer and is then closed into
/// the rent recipient.
pub open spec fn cancel_ops(native: bool, amount: u64) -> Seq<OpView> {
    if native {
        seq![
            OpView::CloseAccount { account: 4, destination: 1, authority: 6 },
            OpView::MoveLamports { source: 1, destination: 2, amount },
        ]
    } else {
        seq![
            OpView::Transfer { source: 4, destination: 2, authority: 6, amount },
            OpView::CloseAccount { account: 4, destination: 3, authority: 6 },
        ]
    }
}

/// Cancel: authority (0), escrow record (1), payer token account (2), rent recipient (3),
/// vault token account (4), token program (5), program authority (6).
pub open spec fn cancel_spec(accs: Seq<LedgerAccount>, program_id: Seq<u8>) -> Result<PlanView, EscrowError> {
    let vault = decode_token(accs[4].data@)->Ok_0;
    let rec = decode_initialized_escrow(accs[1].data@)->Ok_0;
    let pda = spec_program_authority(program_id)->Some_0;
    if accs.len() < 1 {
        Err(EscrowError::NotEnoughAccountKeys)
    } else if !accs[0].is_signer {
        Err(EscrowError::MissingRequiredSignature)
    } else if accs.len() < 5 {
        Err(EscrowError::NotEnoughAccountKeys)
    } else if decode_initialized_escrow(accs[1].data@) is Err {
        Err(decode_initialized_escrow(accs[1].data@)->Err_0)
    } else if rec.is_canceled {
        Err(EscrowError::AccountAlreadyCanceled)
    } else if rec.is_settled {
        Err(EscrowError::AccountAlreadySettled)
    } else if decode_token(accs[4].data@) is Err {
        Err(decode_token(accs[4].data@)->Err_0)
    } else if accs[2].key@ != rec.payer_token || accs[0].key@ != rec.authority
        || accs[4].key@ != rec.vault_token {
        Err(EscrowError::InvalidArgument)
    } else if accs.len() < 6 {
        Err(EscrowError::NotEnoughAccountKeys)
    } else if spec_program_authority(program_id) is None {
        Err(EscrowError::InvalidSeeds)
    } else if accs.len() < 7 {
        Err(EscrowError::NotEnoughAccountKeys)
    } else if accs[6].key@ != pda.0 {
        Err(EscrowError::InvalidArgument)
    } else {
        Ok(
            PlanView {
                ops: cancel_ops(vault.is_native is Some, vault.amount),
                token_program: Some(5),
                authority_bump: Some(pda.1),
                escrow: 1,
                update: RecordUpdateView::Write(EscrowView { is_canceled: true, ..rec }),
            },
        )
    }
}

/// For a token vault, the payer, payee and fee token accounts (4, 5, 6) must be owned by the
/// token ledger, and then initialized on it.
pub open spec fn token_accounts_check(accs: Seq<LedgerAccount>) -> Result<(), EscrowError> {
    if accs[4].owner@ != spec_token_program_id() || accs[5].owner@ != spec_token_program_id()
        || accs[6].owner@ != spec_token_program_id() {
        Err(EscrowError::IllegalOwner)
    } else if token_initialized_check(accs[4]) is Err {
        Err(token_initialized_check(accs[4])->Err_0)
    } else if token_initialized_check(accs[5]) is Err {
        Err(token_initialized_check(accs[5])->Err_0)
    } else if token_initialized_check(accs[6]) is Err {
        Err(token_initialized_check(accs[6])->Err_0)
    } else {
        Ok(())
    }
}

/// The record that Init stores.
pub open spec fn init_record(accs: Seq<LedgerAccount>, amount: u64, fee: u64) -> EscrowView {
    EscrowView {
        is_initialized: true,
        is_settled: false,
        is_canceled: false,
        payer: accs[0].key@,
        payer_token: accs[4].key@,
        payee_token: accs[5].key@,
        vault_token: accs[1].key@,
        fee_token: accs[6].key@,
        authority: accs[2].key@,
        amount,
        fee,
    }
}

/// Init: payer (0), vault token account (1), escrow authority (2), escrow record (3), payer
/// token account (4), payee token account (5), fee token account (6), rent sysvar (7), token
/// program (8). `rent_minimum` is the rent-exempt minimum for the record's data length as
/// read from the rent sysvar, or the error that reading it gave.
pub open spec fn init_spec(
    accs: Seq<LedgerAccount>,
    amount: u64,
    fee: u64,
    program_id: Seq<u8>,
    rent_minimum: Result<u64, EscrowError>,
) -> Result<PlanView, EscrowError> {
    let vault = decode_token(accs[1].data@)->Ok_0;
    let pda = spec_program_authority(program_id)->Some_0;
    if accs.len() < 1 {
        Err(EscrowError::NotEnoughAccountKeys)
    } else if !accs[0].is_signer {
        Err(EscrowError::MissingRequiredSignature)
    } else if accs.len() < 2 {
        Err(EscrowError::NotEnoughAccountKeys)
    } else if accs[1].owner@ != spec_token_program_id() {
        Err(EscrowError::IllegalOwner)
    } else if decode_token(accs[1].data@) is Err {
        Err(decode_token(accs[1].data@)->Err_0)
    } else if vault.amount != amount {
        Err(EscrowError::ExpectedAmountMismatch)
    } else if accs.len() < 3 {
        Err(EscrowError::NotEnoughAccountKeys)
    } else if !accs[2].is_signer {
        Err(EscrowError::MissingRequiredSignature)
    } else if accs.len() < 7 {
        Err(EscrowError::NotEnoughAccountKeys)
    } else if vault.is_native is Some && accs[4].key@ != accs[0].key@ {
        Err(EscrowError::InvalidArgument)
    } else if vault.is_native is None && token_accounts_check(accs) is Err {
        Err(token_accounts_check(accs)->Err_0)
    } else if accs.len() < 8 {
        Err(EscrowError::NotEnoughAccountKeys)
    } else if rent_minimum is Err {
        Err(rent_minimum->Err_0)
    } else if accs[3].lamports < rent_minimum->Ok_0 {
        Err(EscrowError::AccountNotRentExempt)
    } else if decode_escrow(accs[3].data@) is Err {
        Err(decode_escrow(accs[3].data@)->Err_0)
    } else if decode_escrow(accs[3].data@)->Ok_0.is_initialized {
        Err(EscrowError::AccountAlreadyInitialized)
    } else if fee > amount {
        Err(EscrowError::FeeOverflow)
    } else if spec_program_authority(program_id) is None {
        Err(EscrowError::InvalidSeeds)
    } else if accs.len() < 9 {
        Err(EscrowError::NotEnoughAccountKeys)
    } else if accs[8].key@ != spec_token_program_id() {
        Err(EscrowError::InvalidArgument)
    } else {
        Ok(
            PlanView {
                ops: seq![OpView::SetOwner { account: 1, new_owner: pda.0, owner: 0 }],
                token_program: Some(8),
                authority_bump: None,
                escrow: 3,
                update: RecordUpdateView::Write(init_record(accs, amount, fee)),
            },
        )
    }
}

/// The effect of an instruction: decode it, then run its handler.
pub open spec fn process_spec(
    program_id: Seq<u8>,
    accs: Seq<LedgerAccount>,
    data: Seq<u8>,
    rent_minimum: Result<u64, EscrowError>,
) -> Result<PlanView, EscrowError> {
    match decode_instruction(data) {
        Err(e) => Err(e),
        Ok(EscrowInstruction::InitEscrow { amount, fee }) => init_spec(accs, amount, fee, program_id, rent_minimum),
        Ok(EscrowInstruction::Settle) => settle_spec(accs, program_id),
        Ok(EscrowInstruction::Cancel) => cancel_spec(accs, program_id),
        Ok(EscrowInstruction::Close) => close_spec(accs, program_id),
    }
}

/// Moves `amount` lamports between two balances, failing with `AmountOverflow` when the
/// source holds less or the destination would pass `u64::MAX`.
pub fn move_lamports(source_balance: u64, destination_balance: u64, amount: u64) -> (r: Result<(u64, u64), EscrowError>)
    ensures
        (source_balance < amount || destination_balance + amount > u64::MAX) ==> r == Err::<(u64, u64), EscrowError>(EscrowError::AmountOverflow),
        (source_balance >= amount && destination_balance + amount <= u64::MAX) ==> r == Ok::<(u64, u64), EscrowError>(
            ((source_balance - amount) as u64, (destination_balance + amount) as u64),
        ),
{
    let source = match source_balance.checked_sub(amount) {
        Some(v) => v,
        None => return Err(EscrowError::AmountOverflow),
    };
    let destination = match destination_balance.checked_add(amount) {
        Some(v) => v,
        None => return Err(EscrowError::AmountOverflow),
    };
    Ok((source, destination))
}

/// The four instruction handlers and their dispatcher.
pub struct Processor;

impl Processor {
    /// Decodes an instruction and runs its handler. `rent_minimum` is used by Init only.
    pub fn process(
        program_id: &Address,
        accounts: &[LedgerAccount],
        instruction_data: &[u8],
        rent_minimum: Result<u64, EscrowError>,
    ) -> (r: Result<Plan, EscrowError>)
        ensures
            plan_result_view(r) == process_spec(program_id@, accounts@, instruction_data@, rent_minimum),
    {
        let instruction = EscrowInstruction::unpack(instruction_data)?;
        match instruction {
            EscrowInstruction::InitEscrow { amount, fee } => {
                Self::process_init_escrow(accounts, amount, fee, program_id, rent_minimum)
            },
            EscrowInstruction::Settle => Self::process_settlement(accounts, program_id),
            EscrowInstruction::Cancel => Self::process_cancel(accounts, program_id),
            EscrowInstruction::Close => Self::process_close(accounts, program_id),
        }
    }
    /// Populates the escrow record and hands the vault to the program authority.
    pub fn process_init_escrow(
        accounts: &[LedgerAccount],
        amount: u64,
        fee: u64,
        program_id: &Address,
        rent_minimum: Result<u64, EscrowError>,
    ) -> (r: Result<Plan, EscrowError>)
        ensures
            plan_result_view(r) == init_spec(accounts@, amount, fee, program_id@, rent_minimum),
    {
        let token_id = token_program_id();
        let payer_info = next_account(accounts, 0)?;
        assert_signer(payer_info)?;
        let vault_token_info = next_account(accounts, 1)?;
        assert_owned_by(vault_token_info, &token_id)?;
        let vault_token = token_unpack(vault_token_info.data.as_slice())?;
        if vault_token.amount != amount {
            return Err(EscrowError::ExpectedAmountMismatch);
        }
        let authority_info = next_account(accounts, 2)?;
        assert_signer(authority_info)?;
        let escrow_info = next_account(accounts, 3)?;
        let payer_token_info = next_account(accounts, 4)?;
        let payee_token_info = next_account(accounts, 5)?;
        let fee_token_info = next_account(accounts, 6)?;
        if vault_token.is_native() {
            assert_account_key(payer_token_info, &payer_info.key)?;
        } else {
            assert_owned_by(payer_token_info, &token_id)?;
            assert_owned_by(payee_token_info, &token_id)?;
            assert_owned_by(fee_token_info, &token_id)?;
            assert_initialized(payer_token_info)?;
            assert_initialized(payee_token_info)?;
            assert_initialized(fee_token_info)?;
        }
        let _rent_info = next_account(accounts, 7)?;
        let minimum_balance = rent_minimum?;
        assert_rent_exempt(minimum_balance, escrow_info)?;
        let mut escrow = Escrow::unpack_unchecked(escrow_info.data.as_slice())?;
        if escrow.is_initialized() {
            return Err(EscrowError::AccountAlreadyInitialized);
        }
        if fee > amount {
            return Err(EscrowError::FeeOverflow);
        }
        escrow.is_initialized = true;
        escrow.is_settled = false;
        escrow.is_canceled = false;
        escrow.fee = fee;
        escrow.payer = payer_info.key;
        escrow.payer_token = payer_token_info.key;
        escrow.payee_token = payee_token_info.key;
        escrow.vault_token = vault_token_info.key;
        escrow.fee_token = fee_token_info.key;
        escrow.authority = authority_info.key;
        escrow.amount = amount;
        let (pda, _bump_seed) = match find_program_authority(program_id) {
            Some(found) => found,
            None => return Err(EscrowError::InvalidSeeds),
        };
        let token_program_info = next_account(accounts, 8)?;
        assert_account_key(token_program_info, &token_id)?;
        let mut ops: Vec<Op> = Vec::new();
        ops.push(Op::SetOwner { account: 1, new_owner: pda, owner: 0 });
        let plan = Plan {
            ops,
            token_program: Some(8),
            authority_bump: None,
            escrow: 3,
            update: RecordUpdate::Write(escrow),
        };
        assert(plan@.ops =~= seq![OpView::SetOwner { account: 1, new_owner: pda@, owner: 0 }]);
        Ok(plan)
    }
    /// Pays the vault out to the payee, less the fee, which goes to the fee recipient, and
    /// marks the record settled.
    pub fn process_settlement(accounts: &[LedgerAccount], program_id: &Address) -> (r: Result<Plan, EscrowError>)
        ensures
            plan_result_view(r) == settle_spec(accounts@, program_id@),
    {
        let authority_info = next_account(accounts, 0)?;
        assert_signer(authority_info)?;
        let payee_token_info = next_account(accounts, 1)?;
        let fee_token_info = next_account(accounts, 2)?;
        let vault_token_info = next_account(accounts, 3)?;
        let escrow_info = next_account(accounts, 4)?;
        let mut escrow = Escrow::unpack(escrow_info.data.as_slice())?;
        if escrow.is_canceled() {
            return Err(EscrowError::AccountAlreadyCanceled);
        }
        if escrow.is_settled() {
            return Err(EscrowError::AccountAlreadySettled);
        }
        assert_owned_by(vault_token_info, &token_program_id())?;
        let vault_token = token_unpack(vault_token_info.data.as_slice())?;
        assert_account_key(authority_info, &escrow.authority)?;
        assert_account_key(payee_token_info, &escrow.payee_token)?;
        assert_account_key(fee_token_info, &escrow.fee_token)?;
        assert_account_key(vault_token_info, &escrow.vault_token)?;
        let _fee_payer_info = next_account(accounts, 5)?;
        let token_program_info = next_account(accounts, 6)?;
        assert_account_key(token_program_info, &token_program_id())?;
        let (vault, bump_seed) = match find_program_authority(program_id) {
            Some(found) => found,
            None => return Err(EscrowError::InvalidSeeds),
        };
        let vault_info = next_account(accounts, 7)?;
        assert_account_key(vault_info, &vault)?;
        let fee = escrow.fee;
        if fee > vault_token.amount {
            return Err(EscrowError::FeeOverflow);
        }
        let amount = vault_token.amount - fee;
        let mut ops: Vec<Op> = Vec::new();
        if vault_token.is_native() {
            ops.push(Op::CloseAccount { account: 3, destination: 4, authority: 7 });
            ops.push(Op::MoveLamports { source: 4, destination: 1, amount });
            if fee > 0 {
                ops.push(Op::MoveLamports { source: 4, destination: 2, amount: fee });
            }
        } else {
            ops.push(Op::Transfer { source: 3, destination: 1, authority: 7, amount });
            if fee > 0 {
                ops.push(Op::Transfer { source: 3, destination: 2, authority: 7, amount: fee });
            }
            ops.push(Op::CloseAccount { account: 3, destination: 5, authority: 7 });
        }
        escrow.is_settled = true;
        let plan = Plan {
            ops,
            token_program: Some(6),
            authority_bump: Some(bump_seed),
            escrow: 4,
            update: RecordUpdate::Write(escrow),
        };
        assert(plan@.ops =~= settle_ops(vault_token.is_native is Some, amount, fee));
        Ok(plan)
    }

    /// Returns the whole vault to the payer and marks the record canceled. The token
    /// program's key is not checked here: the token ledger's instruction builder refuses
    /// any other program.
    pub fn process_cancel(accounts: &[LedgerAccount], program_id: &Address) -> (r: Result<Plan, EscrowError>)
        ensures
            plan_result_view(r) == cancel_spec(accounts@, program_id@),
    {
        let authority_info = next_account(accounts, 0)?;
        assert_signer(authority_info)?;
        let escrow_info = next_account(accounts, 1)?;
        let payer_token_info = next_account(accounts, 2)?;
        let _fee_payer_info = next_account(accounts, 3)?;
        let vault_token_info = next_account(accounts, 4)?;
        let mut escrow = Escrow::unpack(escrow_info.data.as_slice())?;
        if escrow.is_canceled() {
            return Err(EscrowError::AccountAlreadyCanceled);
        }
        if escrow.is_settled() {
            return Err(EscrowError::AccountAlreadySettled);
        }
        let vault_token = token_unpack(vault_token_info.data.as_slice())?;
        assert_account_key(payer_token_info, &escrow.payer_token)?;
        assert_account_key(authority_info, &escrow.authority)?;
        assert_account_key(vault_token_info, &escrow.vault_token)?;
        let _token_program_info = next_account(accounts, 5)?;
        let (vault_key, bump_seed) = match find_program_authority(program_id) {
            Some(found) => found,
            None => return Err(EscrowError::InvalidSeeds),
        };
        let vault_info = next_account(accounts, 6)?;
        assert_account_key(vault_info, &vault_key)?;
        let amount = vault_token.amount;
        let mut ops: Vec<Op> = Vec::new();
        if vault_token.is_native() {
            ops.push(Op::CloseAccount { account: 4, destination: 1, authority: 6 });
            ops.push(Op::MoveLamports { source: 1, destination: 2, amount });
        } else {
            ops.push(Op::Transfer { source: 4, destination: 2, authority: 6, amount });
            ops.push(Op::CloseAccount { account: 4, destination: 3, authority: 6 });
        }
        escrow.is_canceled = true;
        let plan = Plan {
            ops,
            token_program: Some(5),
            authority_bump: Some(bump_seed),
            escrow: 1,
            update: RecordUpdate::Write(escrow),
        };
        assert(plan@.ops =~= cancel_ops(vault_token.is_native is Some, amount));
        Ok(plan)
    }

    /// Destroys a settled or canceled record, its balance going to the rent recipient.
    pub fn process_close(accounts: &[LedgerAccount], program_id: &Address) -> (r: Result<Plan, EscrowError>)
        ensures
            plan_result_view(r) == close_spec(accounts@, program_id@),
    {
        let authority_info = next_account(accounts, 0)?;
        assert_signer(authority_info)?;
        let escrow_info = next_account(accounts, 1)?;
        assert_owned_by(escrow_info, program_id)?;
        let escrow = Escrow::unpack(escrow_info.data.as_slice())?;
        if !escrow.authority.same(&authority_info.key) {
            return Err(EscrowError::InvalidAccountData);
        }
        if !(escrow.is_settled() || escrow.is_canceled()) {
            return Err(EscrowError::AccountNotSettledOrCanceled);
        }
        let fee_payer_info = next_account(accounts, 2)?;
        if fee_payer_info.lamports.checked_add(escrow_info.lamports).is_none() {
            return Err(EscrowError::AmountOverflow);
        }
        let mut ops: Vec<Op> = Vec::new();
        ops.push(Op::MoveLamports { source: 1, destination: 2, amount: escrow_info.lamports });
        let plan = Plan {
            ops,
            token_program: None,
            authority_bump: None,
            escrow: 1,
            update: RecordUpdate::Erase,
        };
        assert(plan@.ops =~= seq![OpView::MoveLamports { source: 1, destination: 2, amount: accounts@[1].lamports }]);
        Ok(plan)
    }
}

} // verus!
