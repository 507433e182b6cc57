use vstd::prelude::*;

use crate::error::EscrowError;
use crate::processor::{
    cancel_spec, close_spec, init_record, init_spec, settle_spec, OpView, PlanView, RecordUpdateView,
};
use crate::spec_token_program_id;
use crate::state::{decode_initialized_escrow, encode_escrow, lemma_decode_encode, EscrowView};
use crate::token::decode_token;
use crate::utils::LedgerAccount;

verus! {

/// What one op moves into the account at position `idx` by transfer or lamport move.
pub open spec fn op_credit(op: OpView, idx: int) -> int {
    match op {
        OpView::Transfer { destination, amount, .. } => if destination == idx {
            amount as int
        } else {
            0
        },
        OpView::MoveLamports { destination, amount, .. } => if destination == idx {
            amount as int
        } else {
            0
        },
        _ => 0,
    }
}

/// What one op takes out of the account at position `idx` by transfer or lamport move.
pub open spec fn op_debit(op: OpView, idx: int) -> int {
    match op {
        OpView::Transfer { source, amount, .. } => if source == idx {
            amount as int
        } else {
            0
        },
        OpView::MoveLamports { source, amount, .. } => if source == idx {
            amount as int
        } else {
            0
        },
        _ => 0,
    }
}

/// Whether one op closes an account into the account at position `idx`.
pub open spec fn op_closes_into(op: OpView, idx: int) -> bool {
    op matches OpView::CloseAccount { destination, .. } && destination == idx
}

/// Total that a list of ops moves into position `idx`.
pub open spec fn credited(ops: Seq<OpView>, idx: int) -> int
    decreases ops.len(),
{
    if ops.len() == 0 {
        0
    } else {
        credited(ops.drop_last(), idx) + op_credit(ops.last(), idx)
    }
}

/// Total that a list of ops takes out of position `idx`.
pub open spec fn debited(ops: Seq<OpView>, idx: int) -> int
    decreases ops.len(),
{
    if ops.len() == 0 {
        0
    } else {
        debited(ops.drop_last(), idx) + op_debit(ops.last(), idx)
    }
}

/// Whether some op of the list closes an account into position `idx`.
pub open spec fn closes_into(ops: Seq<OpView>, idx: int) -> bool {
    exists|i: int| 0 <= i < ops.len() && op_closes_into(#[trigger] ops[i], idx)
}

/// The record that an accepted instruction stores.
pub open spec fn written_record(p: PlanView) -> EscrowView {
    p.update->Write_0
}

/// Init followed by Close on the record it stored, before any Settle or Cancel, fails;
/// with the authority signing for a record owned by the program, it fails with
/// `AccountNotSettledOrCanceled`.
pub proof fn lemma_close_after_init_fails(
    init_accounts: Seq<LedgerAccount>,
    amount: u64,
    fee: u64,
    program_id: Seq<u8>,
    rent_minimum: Result<u64, EscrowError>,
    close_accounts: Seq<LedgerAccount>,
)
    requires
        init_spec(init_accounts, amount, fee, program_id, rent_minimum) is Ok,
        close_accounts.len() >= 2,
        close_accounts[1].data@ == encode_escrow(init_record(init_accounts, amount, fee)),
    ensures
        fee <= amount,
        init_spec(init_accounts, amount, fee, program_id, rent_minimum)->Ok_0.update
            == RecordUpdateView::Write(init_record(init_accounts, amount, fee)),
        close_spec(close_accounts, program_id) is Err,
        (close_accounts[0].is_signer && close_accounts[1].owner@ == program_id
            && close_accounts[0].key@ == init_accounts[2].key@) ==> close_spec(close_accounts, program_id)
            == Err::<PlanView, EscrowError>(EscrowError::AccountNotSettledOrCanceled),
{
    let r = init_record(init_accounts, amount, fee);
    lemma_decode_encode(r);
}

/// Init with a fee above the amount never succeeds; where the same accounts accept some fee
/// that fits, it fails with `FeeOverflow`.
pub proof fn lemma_init_fee_overflow(
    accs: Seq<LedgerAccount>,
    amount: u64,
    fee: u64,
    program_id: Seq<u8>,
    rent_minimum: Result<u64, EscrowError>,
    fitting_fee: u64,
)
    requires
        fee > amount,
    ensures
        init_spec(accs, amount, fee, program_id, rent_minimum) is Err,
        init_spec(accs, amount, fitting_fee, program_id, rent_minimum) is Ok ==> init_spec(
            accs,
            amount,
            fee,
            program_id,
            rent_minimum,
        ) == Err::<PlanView, EscrowError>(EscrowError::FeeOverflow),
{
}

/// Init against a readable vault, signed by the payer, whose balance differs from the
/// declared amount fails with `ExpectedAmountMismatch`.
pub proof fn lemma_init_amount_mismatch(
    accs: Seq<LedgerAccount>,
    amount: u64,
    fee: u64,
    program_id: Seq<u8>,
    rent_minimum: Result<u64, EscrowError>,
)
    requires
        accs.len() >= 2,
        accs[0].is_signer,
        accs[1].owner@ == spec_token_program_id(),
        decode_token(accs[1].data@) is Ok,
        decode_token(accs[1].data@)->Ok_0.amount != amount,
    ensures
        init_spec(accs, amount, fee, program_id, rent_minimum) == Err::<PlanView, EscrowError>(
            EscrowError::ExpectedAmountMismatch,
        ),
{
}

proof fn lemma_credit_debit_append(ops: Seq<OpView>, tail: Seq<OpView>, idx: int)
    ensures
        credited(ops + tail, idx) == credited(ops, idx) + credited(tail, idx),
        debited(ops + tail, idx) == debited(ops, idx) + debited(tail, idx),
    decreases tail.len(),
{
    if tail.len() == 0 {
        assert(ops + tail =~= ops);
    } else {
        lemma_credit_debit_append(ops, tail.drop_last(), idx);
        assert((ops + tail).drop_last() =~= ops + tail.drop_last());
    }
}

/// A successful Settle moves exactly the vault balance less the fee into the payee account
/// (position 1) and exactly the fee into the fee account (position 2), takes nothing out of
/// either and closes nothing into them. When the vault still holds the recorded amount, the
/// payee receives the amount less the fee.
pub proof fn lemma_settle_pays_exactly(accs: Seq<LedgerAccount>, program_id: Seq<u8>)
    requires
        settle_spec(accs, program_id) is Ok,
    ensures
        ({
            let ops = settle_spec(accs, program_id)->Ok_0.ops;
            let vault = decode_token(accs[3].data@)->Ok_0;
            let rec = decode_initialized_escrow(accs[4].data@)->Ok_0;
            &&& rec.fee <= vault.amount
            &&& credited(ops, 1) == vault.amount - rec.fee
            &&& credited(ops, 2) == rec.fee
            &&& debited(ops, 1) == 0
            &&& debited(ops, 2) == 0
            &&& !closes_into(ops, 1)
            &&& !closes_into(ops, 2)
            &&& vault.amount == rec.amount ==> credited(ops, 1) == rec.amount - rec.fee
        }),
{
    let ops = settle_spec(accs, program_id)->Ok_0.ops;
    let vault = decode_token(accs[3].data@)->Ok_0;
    let rec = decode_initialized_escrow(accs[4].data@)->Ok_0;
    let payout = (vault.amount - rec.fee) as u64;
    let fee_ops: Seq<OpView> = if vault.is_native is Some {
        if rec.fee > 0 {
            seq![OpView::MoveLamports { source: 4, destination: 2, amount: rec.fee }]
        } else {
            Seq::empty()
        }
    } else {
        if rec.fee > 0 {
            seq![OpView::Transfer { source: 3, destination: 2, authority: 7, amount: rec.fee }]
        } else {
            Seq::empty()
        }
    };
    reveal_with_fuel(credited, 4);
    reveal_with_fuel(debited, 4);
    if vault.is_native is Some {
        let head = seq![
            OpView::CloseAccount { account: 3, destination: 4, authority: 7 },
            OpView::MoveLamports { source: 4, destination: 1, amount: payout },
        ];
        assert(ops == head + fee_ops);
        lemma_credit_debit_append(head, fee_ops, 1);
        lemma_credit_debit_append(head, fee_ops, 2);
        assert(head.drop_last() =~= seq![head[0]]);
        assert(seq![head[0]].drop_last() =~= Seq::<OpView>::empty());
        if rec.fee > 0 {
            assert(fee_ops.drop_last() =~= Seq::<OpView>::empty());
        }
    } else {
        let head = seq![OpView::Transfer { source: 3, destination: 1, authority: 7, amount: payout }];
        let tail = seq![OpView::CloseAccount { account: 3, destination: 5, authority: 7 }];
        assert(ops == head + fee_ops + tail);
        lemma_credit_debit_append(head + fee_ops, tail, 1);
        lemma_credit_debit_append(head + fee_ops, tail, 2);
        lemma_credit_debit_append(head, fee_ops, 1);
        lemma_credit_debit_append(head, fee_ops, 2);
        assert(head.drop_last() =~= Seq::<OpView>::empty());
        assert(tail.drop_last() =~= Seq::<OpView>::empty());
        if rec.fee > 0 {
            assert(fee_ops.drop_last() =~= Seq::<OpView>::empty());
        }
    }
}

/// A successful Settle stores the record settled and not canceled. Settle or Cancel
/// invoked again on that record fails; signed, it fails with `AccountAlreadySettled`,
/// whatever became of the vault. A failing call stores nothing.
pub proof fn lemma_settle_is_single_shot(
    accs: Seq<LedgerAccount>,
    program_id: Seq<u8>,
    again: Seq<LedgerAccount>,
    again_program_id: Seq<u8>,
)
    requires
        settle_spec(accs, program_id) is Ok,
    ensures
        ({
            let r = written_record(settle_spec(accs, program_id)->Ok_0);
            &&& settle_spec(accs, program_id)->Ok_0.update is Write
            &&& r.is_initialized && r.is_settled && !r.is_canceled
            &&& (again.len() >= 5 && again[4].data@ == encode_escrow(r)) ==> {
                &&& settle_spec(again, again_program_id) is Err
                &&& again[0].is_signer ==> settle_spec(again, again_program_id)
                    == Err::<PlanView, EscrowError>(EscrowError::AccountAlreadySettled)
            }
            &&& (again.len() >= 5 && again[1].data@ == encode_escrow(r)) ==> {
                &&& cancel_spec(again, again_program_id) is Err
                &&& again[0].is_signer ==> cancel_spec(
                    again,
                    again_program_id,
                ) == Err::<PlanView, EscrowError>(EscrowError::AccountAlreadySettled)
            }
        }),
{
    let r = written_record(settle_spec(accs, program_id)->Ok_0);
    lemma_decode_encode(r);
}

/// A successful Cancel stores the record canceled and not settled. Cancel or Settle
/// invoked again on that record fails; signed, it fails with `AccountAlreadyCanceled`,
/// whatever became of the vault. A failing call stores nothing.
pub proof fn lemma_cancel_is_single_shot(
    accs: Seq<LedgerAccount>,
    program_id: Seq<u8>,
    again: Seq<LedgerAccount>,
    again_program_id: Seq<u8>,
)
    requires
        cancel_spec(accs, program_id) is Ok,
    ensures
        ({
            let r = written_record(cancel_spec(accs, program_id)->Ok_0);
            &&& cancel_spec(accs, program_id)->Ok_0.update is Write
            &&& r.is_initialized && r.is_canceled && !r.is_settled
            &&& (again.len() >= 5 && again[1].data@ == encode_escrow(r)) ==> {
                &&& cancel_spec(again, again_program_id) is Err
                &&& again[0].is_signer ==> cancel_spec(
                    again,
                    again_program_id,
                ) == Err::<PlanView, EscrowError>(EscrowError::AccountAlreadyCanceled)
            }
            &&& (again.len() >= 5 && again[4].data@ == encode_escrow(r)) ==> {
                &&& settle_spec(again, again_program_id) is Err
                &&& again[0].is_signer ==> settle_spec(again, again_program_id)
                    == Err::<PlanView, EscrowError>(EscrowError::AccountAlreadyCanceled)
            }
        }),
{
    let r = written_record(cancel_spec(accs, program_id)->Ok_0);
    lemma_decode_encode(r);
}

/// A successful Cancel moves the whole vault balance into the payer account (position 2),
/// which holds the recorded payer token account, takes nothing out of it, and moves
/// nothing into any other account: the fee account is never paid.
pub proof fn lemma_cancel_refunds_payer(accs: Seq<LedgerAccount>, program_id: Seq<u8>, idx: int)
    requires
        cancel_spec(accs, program_id) is Ok,
    ensures
        ({
            let ops = cancel_spec(accs, program_id)->Ok_0.ops;
            let vault = decode_token(accs[4].data@)->Ok_0;
            let rec = decode_initialized_escrow(accs[1].data@)->Ok_0;
            &&& accs[2].key@ == rec.payer_token
            &&& credited(ops, 2) == vault.amount
            &&& debited(ops, 2) == 0
            &&& idx != 2 ==> credited(ops, idx) == 0
        }),
{
    let ops = cancel_spec(accs, program_id)->Ok_0.ops;
    reveal_with_fuel(credited, 3);
    reveal_with_fuel(debited, 3);
    assert(ops.drop_last().drop_last() =~= Seq::<OpView>::empty());
}

/// Close succeeds only when the authority signs, its key is the record's authority, and
/// the record is settled or canceled; otherwise it fails and stores nothing.
pub proof fn lemma_close_needs_terminal_record(accs: Seq<LedgerAccount>, program_id: Seq<u8>)
    requires
        close_spec(accs, program_id) is Ok,
    ensures
        ({
            let rec = decode_initialized_escrow(accs[1].data@)->Ok_0;
            &&& decode_initialized_escrow(accs[1].data@) is Ok
            &&& accs[0].is_signer
            &&& accs[0].key@ == rec.authority
            &&& rec.is_settled || rec.is_canceled
            &&& close_spec(accs, program_id)->Ok_0.update == RecordUpdateView::Erase
        }),
{
}

} // verus!
