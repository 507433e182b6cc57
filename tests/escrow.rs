use std::str::FromStr;

use escrow::address::Address;
use escrow::error::EscrowError;
use escrow::instruction::EscrowInstruction;
use escrow::processor::{move_lamports, Op, Plan, Processor, RecordUpdate};
use escrow::state::{Escrow, ESCROW_LEN};
use escrow::utils::{
    assert_account_key, assert_initialized, assert_owned_by, assert_rent_exempt, assert_signer,
    assert_uninitialized, LedgerAccount,
};
use escrow::{check_authority_account, find_program_authority, id, token_program_id};

use solana_program::program_option::COption;
use solana_program::program_pack::Pack;
use solana_program::pubkey::Pubkey;
use spl_token::state::{Account as SplAccount, AccountState};

const PAYER: u8 = 1;
const VAULT: u8 = 2;
const AUTHORITY: u8 = 3;
const RECORD: u8 = 4;
const PAYER_TOKEN: u8 = 5;
const PAYEE_TOKEN: u8 = 6;
const FEE_TOKEN: u8 = 7;
const RENT: u8 = 8;
const RENT_RECIPIENT: u8 = 9;

fn addr(n: u8) -> Address {
    Address::new_from_array([n; 32])
}

fn token_data(amount: u64, native: bool, state: AccountState) -> Vec<u8> {
    let account = SplAccount {
        mint: Pubkey::new_from_array([20; 32]),
        owner: Pubkey::new_from_array([21; 32]),
        amount,
        delegate: COption::None,
        state,
        is_native: if native { COption::Some(2_039_280) } else { COption::None },
        delegated_amount: 0,
        close_authority: COption::None,
    };
    let mut data = vec![0u8; SplAccount::LEN];
    SplAccount::pack(account, &mut data).unwrap();
    data
}

fn account(key: Address, owner: Address, is_signer: bool, lamports: u64, data: Vec<u8>) -> LedgerAccount {
    LedgerAccount { key, owner, is_signer, lamports, data }
}

fn token_account(n: u8, amount: u64, native: bool) -> LedgerAccount {
    account(addr(n), token_program_id(), false, 2_039_280, token_data(amount, native, AccountState::Initialized))
}

fn authority_of(program: &Address) -> Address {
    find_program_authority(program).unwrap().0
}

fn init_accounts(vault_amount: u64, native: bool) -> Vec<LedgerAccount> {
    let payer = account(addr(PAYER), addr(0), true, 10_000_000, vec![]);
    let payer_token = if native {
        account(addr(PAYER), addr(0), false, 10_000_000, vec![])
    } else {
        token_account(PAYER_TOKEN, 0, false)
    };
    vec![
        payer,
        token_account(VAULT, vault_amount, native),
        account(addr(AUTHORITY), addr(0), true, 1_000, vec![]),
        account(addr(RECORD), id(), false, 2_000_000, vec![0u8; ESCROW_LEN]),
        payer_token,
        token_account(PAYEE_TOKEN, 0, native),
        token_account(FEE_TOKEN, 0, native),
        account(addr(RENT), addr(0), false, 1, vec![]),
        account(token_program_id(), addr(0), false, 1, vec![]),
    ]
}

fn written(plan: &Plan) -> Escrow {
    match plan.update {
        RecordUpdate::Write(e) => e,
        RecordUpdate::Erase => panic!("record erased"),
    }
}

fn init(amount: u64, fee: u64, vault_amount: u64) -> Result<Plan, EscrowError> {
    Processor::process_init_escrow(&init_accounts(vault_amount, false), amount, fee, &id(), Ok(1_500_000))
}

fn settle_accounts(record: &Escrow, vault_amount: u64, native: bool) -> Vec<LedgerAccount> {
    let program = id();
    vec![
        account(record.authority, addr(0), true, 1_000, vec![]),
        token_account(PAYEE_TOKEN, 0, native),
        token_account(FEE_TOKEN, 0, native),
        token_account(VAULT, vault_amount, native),
        account(addr(RECORD), program, false, 2_000_000, record.to_bytes()),
        account(addr(RENT_RECIPIENT), addr(0), false, 0, vec![]),
        account(token_program_id(), addr(0), false, 1, vec![]),
        account(authority_of(&program), addr(0), false, 0, vec![]),
    ]
}

fn cancel_accounts(record: &Escrow, vault_amount: u64) -> Vec<LedgerAccount> {
    let program = id();
    vec![
        account(record.authority, addr(0), true, 1_000, vec![]),
        account(addr(RECORD), program, false, 2_000_000, record.to_bytes()),
        token_account(PAYER_TOKEN, 0, false),
        account(addr(RENT_RECIPIENT), addr(0), false, 0, vec![]),
        token_account(VAULT, vault_amount, false),
        account(token_program_id(), addr(0), false, 1, vec![]),
        account(authority_of(&program), addr(0), false, 0, vec![]),
    ]
}

/// A vault as the token program leaves it once closed: handed back to the system
/// program, with no data and no balance.
fn close_vault(accs: &mut [LedgerAccount], at: usize) {
    accs[at].owner = addr(0);
    accs[at].lamports = 0;
    accs[at].data = vec![];
}

fn close_accounts(record: &Escrow, signer: Address) -> Vec<LedgerAccount> {
    vec![
        account(signer, addr(0), true, 1_000, vec![]),
        account(addr(RECORD), id(), false, 2_000_000, record.to_bytes()),
        account(addr(RENT_RECIPIENT), addr(0), false, 5, vec![]),
    ]
}

fn transfer(op: &Op) -> (usize, usize, u64) {
    match *op {
        Op::Transfer { source, destination, amount, .. } => (source, destination, amount),
        Op::MoveLamports { source, destination, amount } => (source, destination, amount),
        _ => panic!("not a transfer"),
    }
}

#[test]
fn program_ids_match_ledger() {
    assert_eq!(token_program_id().to_bytes(), spl_token::id().to_bytes());
    let declared = Pubkey::from_str("escJ4uwy5ndByWNK2UpmHptAYCQahfKLXBbRVBR17fX").unwrap();
    assert_eq!(id().to_bytes(), declared.to_bytes());
}

#[test]
fn authority_is_derived_from_prefix_and_program() {
    let program = id();
    let key = Pubkey::new_from_array(program.to_bytes());
    let (expected, bump) = Pubkey::find_program_address(&[b"escrow", key.as_ref()], &key);
    let (found, found_bump) = find_program_authority(&program).unwrap();
    assert_eq!(found.to_bytes(), expected.to_bytes());
    assert_eq!(found_bump, bump);
    assert_ne!(found.to_bytes(), program.to_bytes());
}

#[test]
fn check_authority_account_accepts_only_program() {
    assert!(check_authority_account(&id()).is_ok());
    assert_eq!(check_authority_account(&addr(3)), Err(EscrowError::InvalidAuthorityId));
}

#[test]
fn unpack_decodes_each_command() {
    let mut data = vec![0u8];
    data.extend_from_slice(&1000u64.to_le_bytes());
    data.extend_from_slice(&50u64.to_le_bytes());
    assert_eq!(EscrowInstruction::unpack(&data), Ok(EscrowInstruction::InitEscrow { amount: 1000, fee: 50 }));
    assert_eq!(EscrowInstruction::unpack(&[1]), Ok(EscrowInstruction::Settle));
    assert_eq!(EscrowInstruction::unpack(&[2, 9]), Ok(EscrowInstruction::Cancel));
    assert_eq!(EscrowInstruction::unpack(&[3]), Ok(EscrowInstruction::Close));
}

#[test]
fn unpack_rejects_malformed_bytes() {
    assert_eq!(EscrowInstruction::unpack(&[]), Err(EscrowError::InvalidInstruction));
    assert_eq!(EscrowInstruction::unpack(&[4]), Err(EscrowError::InvalidInstruction));
    assert_eq!(EscrowInstruction::unpack(&[0, 1, 2, 3]), Err(EscrowError::InvalidInstruction));
    let mut data = vec![0u8];
    data.extend_from_slice(&7u64.to_le_bytes());
    data.extend_from_slice(&[1, 2, 3]);
    assert_eq!(EscrowInstruction::unpack(&data), Err(EscrowError::InvalidInstruction));
}

#[test]
fn record_round_trips() {
    let record = Escrow {
        is_initialized: true,
        is_settled: false,
        is_canceled: true,
        payer: addr(1),
        payer_token: addr(2),
        payee_token: addr(3),
        vault_token: addr(4),
        fee_token: addr(5),
        authority: addr(6),
        amount: 0x0102030405060708,
        fee: 77,
    };
    let bytes = record.to_bytes();
    assert_eq!(bytes.len(), 211);
    assert_eq!(&bytes[0..3], &[1, 0, 1]);
    assert_eq!(bytes[3], 1);
    assert_eq!(bytes[131], 6);
    assert_eq!(bytes[163], 5);
    assert_eq!(&bytes[195..203], &[8, 7, 6, 5, 4, 3, 2, 1]);
    let back = Escrow::unpack(&bytes).unwrap();
    assert_eq!(back.to_bytes(), bytes);
    assert_eq!(back.fee_token.to_bytes(), [5; 32]);
    assert_eq!(back.authority.to_bytes(), [6; 32]);
    let mut dst = vec![9u8; 211];
    Escrow::pack(back, &mut dst).unwrap();
    assert_eq!(dst, bytes);
}

#[test]
fn record_decoding_rejects_bad_bytes() {
    let mut bytes = vec![0u8; 211];
    bytes[1] = 2;
    assert_eq!(Escrow::unpack_unchecked(&bytes).err(), Some(EscrowError::InvalidAccountData));
    assert_eq!(Escrow::unpack_unchecked(&[0u8; 210]).err(), Some(EscrowError::InvalidAccountData));
    assert_eq!(Escrow::unpack(&[0u8; 211]).err(), Some(EscrowError::UninitializedAccount));
    let blank = Escrow::unpack_unchecked(&[0u8; 211]).unwrap();
    assert!(!blank.is_initialized());
    assert_eq!(assert_uninitialized(&blank), Ok(()));
    let mut short = vec![0u8; 10];
    assert_eq!(Escrow::pack(blank, &mut short), Err(EscrowError::InvalidAccountData));
    assert_eq!(short, vec![0u8; 10]);
}

#[test]
fn init_stores_record_and_hands_vault_to_authority() {
    let plan = init(1000, 50, 1000).unwrap();
    let record = written(&plan);
    assert!(record.is_initialized && !record.is_settled && !record.is_canceled);
    assert_eq!((record.amount, record.fee), (1000, 50));
    assert_eq!(record.payer.to_bytes(), [PAYER; 32]);
    assert_eq!(record.vault_token.to_bytes(), [VAULT; 32]);
    assert_eq!(record.authority.to_bytes(), [AUTHORITY; 32]);
    assert_eq!(record.payee_token.to_bytes(), [PAYEE_TOKEN; 32]);
    assert_eq!(record.fee_token.to_bytes(), [FEE_TOKEN; 32]);
    assert_eq!(plan.escrow, 3);
    assert_eq!(plan.token_program, Some(8));
    assert_eq!(plan.ops.len(), 1);
    match plan.ops[0] {
        Op::SetOwner { account, new_owner, owner } => {
            assert_eq!((account, owner), (1, 0));
            assert_eq!(new_owner.to_bytes(), authority_of(&id()).to_bytes());
        }
        _ => panic!("expected an owner change"),
    }
}

#[test]
fn init_with_fee_above_amount_fails() {
    assert_eq!(init(1000, 1001, 1000).err(), Some(EscrowError::FeeOverflow));
    assert_eq!(init(0, 1, 0).err(), Some(EscrowError::FeeOverflow));
}

#[test]
fn init_with_vault_mismatch_fails() {
    assert_eq!(init(1000, 50, 999).err(), Some(EscrowError::ExpectedAmountMismatch));
    assert_eq!(init(1000, 5000, 1001).err(), Some(EscrowError::ExpectedAmountMismatch));
}

#[test]
fn init_guard_failures() {
    let program = id();
    let mut accs = init_accounts(10, false);
    accs[0].is_signer = false;
    assert_eq!(Processor::process_init_escrow(&accs, 10, 0, &program, Ok(0)).err(), Some(EscrowError::MissingRequiredSignature));
    let mut accs = init_accounts(10, false);
    accs[1].owner = addr(0);
    assert_eq!(Processor::process_init_escrow(&accs, 10, 0, &program, Ok(0)).err(), Some(EscrowError::IllegalOwner));
    let mut accs = init_accounts(10, false);
    accs[5].data = token_data(0, false, AccountState::Uninitialized);
    assert_eq!(Processor::process_init_escrow(&accs, 10, 0, &program, Ok(0)).err(), Some(EscrowError::AccountNotInitialized));
    let mut accs = init_accounts(10, false);
    accs[1].data = token_data(10, false, AccountState::Uninitialized);
    assert_eq!(Processor::process_init_escrow(&accs, 10, 0, &program, Ok(0)).err(), Some(EscrowError::UninitializedAccount));
    let accs = init_accounts(10, false);
    assert_eq!(Processor::process_init_escrow(&accs, 10, 0, &program, Ok(2_000_001)).err(), Some(EscrowError::AccountNotRentExempt));
    assert_eq!(Processor::process_init_escrow(&accs[..7], 10, 0, &program, Ok(0)).err(), Some(EscrowError::NotEnoughAccountKeys));
    let mut accs = init_accounts(10, true);
    accs[4].key = addr(PAYER_TOKEN);
    assert_eq!(Processor::process_init_escrow(&accs, 10, 0, &program, Ok(0)).err(), Some(EscrowError::InvalidArgument));
    let mut accs = init_accounts(10, false);
    let record = written(&Processor::process_init_escrow(&accs, 10, 0, &program, Ok(0)).unwrap());
    accs[3].data = record.to_bytes();
    assert_eq!(Processor::process_init_escrow(&accs, 10, 0, &program, Ok(0)).err(), Some(EscrowError::AccountAlreadyInitialized));
}

#[test]
fn settle_pays_payee_and_fee_recipient() {
    let record = written(&init(1000, 50, 1000).unwrap());
    let plan = Processor::process_settlement(&settle_accounts(&record, 1000, false), &id()).unwrap();
    assert_eq!(plan.ops.len(), 3);
    assert_eq!(transfer(&plan.ops[0]), (3, 1, 950));
    assert_eq!(transfer(&plan.ops[1]), (3, 2, 50));
    assert!(matches!(plan.ops[2], Op::CloseAccount { account: 3, destination: 5, authority: 7 }));
    assert_eq!(plan.authority_bump, Some(find_program_authority(&id()).unwrap().1));
    let after = written(&plan);
    assert!(after.is_settled);
    assert!(!after.is_canceled);
}

#[test]
fn settle_without_fee_makes_one_transfer() {
    let record = written(&init(700, 0, 700).unwrap());
    let plan = Processor::process_settlement(&settle_accounts(&record, 700, false), &id()).unwrap();
    assert_eq!(plan.ops.len(), 2);
    assert_eq!(transfer(&plan.ops[0]), (3, 1, 700));
}

#[test]
fn settle_native_moves_lamports() {
    let mut accs = init_accounts(1000, true);
    accs[4] = account(addr(PAYER), addr(0), false, 0, vec![]);
    let record = written(&Processor::process_init_escrow(&accs, 1000, 50, &id(), Ok(0)).unwrap());
    let plan = Processor::process_settlement(&settle_accounts(&record, 1000, true), &id()).unwrap();
    assert_eq!(plan.ops.len(), 3);
    assert!(matches!(plan.ops[0], Op::CloseAccount { account: 3, destination: 4, authority: 7 }));
    assert_eq!(transfer(&plan.ops[1]), (4, 1, 950));
    assert_eq!(transfer(&plan.ops[2]), (4, 2, 50));
}

#[test]
fn settle_fee_above_vault_fails() {
    let record = written(&init(1000, 50, 1000).unwrap());
    let result = Processor::process_settlement(&settle_accounts(&record, 40, false), &id());
    assert_eq!(result.err(), Some(EscrowError::FeeOverflow));
}

#[test]
fn settle_checks_keys_against_record() {
    let record = written(&init(1000, 50, 1000).unwrap());
    let mut accs = settle_accounts(&record, 1000, false);
    accs[1].key = addr(99);
    assert_eq!(Processor::process_settlement(&accs, &id()).err(), Some(EscrowError::InvalidArgument));
    let mut accs = settle_accounts(&record, 1000, false);
    accs[7].key = addr(99);
    assert_eq!(Processor::process_settlement(&accs, &id()).err(), Some(EscrowError::InvalidArgument));
    let mut accs = settle_accounts(&record, 1000, false);
    accs[0].is_signer = false;
    assert_eq!(Processor::process_settlement(&accs, &id()).err(), Some(EscrowError::MissingRequiredSignature));
}

#[test]
fn settle_twice_fails() {
    let record = written(&init(1000, 50, 1000).unwrap());
    let settled = written(&Processor::process_settlement(&settle_accounts(&record, 1000, false), &id()).unwrap());
    let mut accs = settle_accounts(&settled, 1000, false);
    close_vault(&mut accs, 3);
    let again = Processor::process_settlement(&accs, &id());
    assert_eq!(again.err(), Some(EscrowError::AccountAlreadySettled));
    let mut accs = cancel_accounts(&settled, 1000);
    close_vault(&mut accs, 4);
    let cancel = Processor::process_cancel(&accs, &id());
    assert_eq!(cancel.err(), Some(EscrowError::AccountAlreadySettled));
}

#[test]
fn cancel_refunds_payer_then_settle_fails() {
    let record = written(&init(500, 0, 500).unwrap());
    let plan = Processor::process_cancel(&cancel_accounts(&record, 500), &id()).unwrap();
    assert_eq!(plan.ops.len(), 2);
    assert_eq!(transfer(&plan.ops[0]), (4, 2, 500));
    assert!(matches!(plan.ops[1], Op::CloseAccount { account: 4, destination: 3, authority: 6 }));
    let canceled = written(&plan);
    assert!(canceled.is_canceled);
    assert!(!canceled.is_settled);
    let mut accs = settle_accounts(&canceled, 500, false);
    close_vault(&mut accs, 3);
    let settle = Processor::process_settlement(&accs, &id());
    assert_eq!(settle.err(), Some(EscrowError::AccountAlreadyCanceled));
    let mut accs = cancel_accounts(&canceled, 500);
    close_vault(&mut accs, 4);
    let again = Processor::process_cancel(&accs, &id());
    assert_eq!(again.err(), Some(EscrowError::AccountAlreadyCanceled));
}

#[test]
fn cancel_ignores_fee() {
    let record = written(&init(800, 300, 800).unwrap());
    let plan = Processor::process_cancel(&cancel_accounts(&record, 800), &id()).unwrap();
    assert_eq!(transfer(&plan.ops[0]), (4, 2, 800));
}

#[test]
fn close_after_init_fails() {
    let record = written(&init(1000, 50, 1000).unwrap());
    let result = Processor::process_close(&close_accounts(&record, record.authority), &id());
    assert_eq!(result.err(), Some(EscrowError::AccountNotSettledOrCanceled));
}

#[test]
fn close_after_settle_drains_record() {
    let record = written(&init(1000, 50, 1000).unwrap());
    let settled = written(&Processor::process_settlement(&settle_accounts(&record, 1000, false), &id()).unwrap());
    let plan = Processor::process_close(&close_accounts(&settled, settled.authority), &id()).unwrap();
    assert_eq!(plan.ops.len(), 1);
    assert_eq!(transfer(&plan.ops[0]), (1, 2, 2_000_000));
    assert!(matches!(plan.update, RecordUpdate::Erase));
    let wrong = Processor::process_close(&close_accounts(&settled, addr(42)), &id());
    assert_eq!(wrong.err(), Some(EscrowError::InvalidAccountData));
    let mut accs = close_accounts(&settled, settled.authority);
    accs[1].owner = addr(0);
    assert_eq!(Processor::process_close(&accs, &id()).err(), Some(EscrowError::IllegalOwner));
    let mut accs = close_accounts(&settled, settled.authority);
    accs[2].lamports = u64::MAX;
    assert_eq!(Processor::process_close(&accs, &id()).err(), Some(EscrowError::AmountOverflow));
}

#[test]
fn process_dispatches_on_tag() {
    let mut data = vec![0u8];
    data.extend_from_slice(&1000u64.to_le_bytes());
    data.extend_from_slice(&50u64.to_le_bytes());
    let plan = Processor::process(&id(), &init_accounts(1000, false), &data, Ok(0)).unwrap();
    let record = written(&plan);
    assert_eq!((record.amount, record.fee), (1000, 50));
    let settled = Processor::process(&id(), &settle_accounts(&record, 1000, false), &[1], Ok(0)).unwrap();
    assert!(written(&settled).is_settled);
    assert_eq!(Processor::process(&id(), &[], &[9], Ok(0)).err(), Some(EscrowError::InvalidInstruction));
    assert_eq!(Processor::process(&id(), &[], &[3], Ok(0)).err(), Some(EscrowError::NotEnoughAccountKeys));
}

#[test]
fn move_lamports_checks_both_balances() {
    assert_eq!(move_lamports(1000, 5, 950), Ok((50, 955)));
    assert_eq!(move_lamports(10, 0, 11), Err(EscrowError::AmountOverflow));
    assert_eq!(move_lamports(10, u64::MAX, 1), Err(EscrowError::AmountOverflow));
    assert_eq!(move_lamports(10, u64::MAX - 10, 10), Ok((0, u64::MAX)));
}

#[test]
fn guards_report_their_errors() {
    let acc = account(addr(1), addr(2), false, 100, vec![]);
    assert_eq!(assert_signer(&acc), Err(EscrowError::MissingRequiredSignature));
    assert_eq!(assert_owned_by(&acc, &addr(2)), Ok(()));
    assert_eq!(assert_owned_by(&acc, &addr(3)), Err(EscrowError::IllegalOwner));
    assert_eq!(assert_account_key(&acc, &addr(1)), Ok(()));
    assert_eq!(assert_account_key(&acc, &addr(2)), Err(EscrowError::InvalidArgument));
    assert_eq!(assert_rent_exempt(100, &acc), Ok(()));
    assert_eq!(assert_rent_exempt(101, &acc), Err(EscrowError::AccountNotRentExempt));
    let token = token_account(9, 321, false);
    let read = assert_initialized(&token).unwrap();
    assert_eq!(read.amount, 321);
    assert!(!read.is_native());
    let frozen = account(addr(9), token_program_id(), false, 0, token_data(5, true, AccountState::Frozen));
    let read = assert_initialized(&frozen).unwrap();
    assert_eq!(read.state, 2);
    assert_eq!(read.is_native, Some(2_039_280));
    let blank = account(addr(9), token_program_id(), false, 0, token_data(5, false, AccountState::Uninitialized));
    assert_eq!(assert_initialized(&blank).err(), Some(EscrowError::AccountNotInitialized));
    let short = account(addr(9), token_program_id(), false, 0, vec![0u8; 10]);
    assert_eq!(assert_initialized(&short).err(), Some(EscrowError::InvalidAccountData));
}

#[test]
fn unpack_fields_read_little_endian() {
    let mut rest = 0x1122334455667788u64.to_le_bytes().to_vec();
    rest.extend_from_slice(&9u64.to_le_bytes());
    assert_eq!(EscrowInstruction::unpack_amount(&rest), Ok(0x1122334455667788));
    assert_eq!(EscrowInstruction::unpack_fee(&rest), Ok(9));
    assert_eq!(EscrowInstruction::unpack_fee(&rest[..15]), Err(EscrowError::InvalidInstruction));
    assert_eq!(EscrowInstruction::unpack_amount(&rest[..7]), Err(EscrowError::InvalidInstruction));
}

#[test]
fn largest_amounts_settle_without_overflow() {
    let record = written(&init(u64::MAX, u64::MAX, u64::MAX).unwrap());
    assert_eq!((record.amount, record.fee), (u64::MAX, u64::MAX));
    let plan = Processor::process_settlement(&settle_accounts(&record, u64::MAX, false), &id()).unwrap();
    assert_eq!(transfer(&plan.ops[0]), (3, 1, 0));
    assert_eq!(transfer(&plan.ops[1]), (3, 2, u64::MAX));
}

#[test]
fn settle_and_cancel_still_check_an_open_vault() {
    let record = written(&init(1000, 50, 1000).unwrap());
    let mut accs = settle_accounts(&record, 1000, false);
    close_vault(&mut accs, 3);
    assert_eq!(Processor::process_settlement(&accs, &id()).err(), Some(EscrowError::IllegalOwner));
    let mut accs = cancel_accounts(&record, 1000);
    close_vault(&mut accs, 4);
    assert_eq!(Processor::process_cancel(&accs, &id()).err(), Some(EscrowError::InvalidAccountData));
}
