//! Properties that hold across calls of the instructions, stated over the
//! functions that their contracts use.
use vstd::prelude::*;
use crate::error::PresaleError;
use crate::instructions::{
    claim_spec, purchase_spec, spent_so_far, tokens_owed, withdraw_spec, ClaimTokens, Purchase,
    Transfer, WithdrawSol,
};
use crate::state::Sale;

verus! {

/// One contribution in a sequence: the accounts (whose sale is replaced by
/// the running one), the time and the amount.
pub type PurchaseCall = (Purchase, i64, u64);

/// The outcome of `call` made on `sale`.
pub open spec fn call_on(sale: Sale, call: PurchaseCall) -> (Purchase, Result<Transfer, PresaleError>) {
    purchase_spec(Purchase { sale, ..call.0 }, call.1, call.2)
}

/// The sale after each of `calls` has been made on it in turn.
pub open spec fn sale_after_purchases(sale: Sale, calls: Seq<PurchaseCall>) -> Sale
    decreases calls.len(),
{
    if calls.len() == 0 {
        sale
    } else {
        call_on(sale_after_purchases(sale, calls.drop_last()), calls.last()).0.sale
    }
}

/// The sum of the amounts of those of `calls` that were accepted.
pub open spec fn accepted_sum(sale: Sale, calls: Seq<PurchaseCall>) -> int
    decreases calls.len(),
{
    if calls.len() == 0 {
        0
    } else {
        let before = sale_after_purchases(sale, calls.drop_last());
        accepted_sum(sale, calls.drop_last()) + if call_on(before, calls.last()).1 is Ok {
            calls.last().2 as int
        } else {
            0
        }
    }
}

/// After any sequence of contributions the sale's total is its initial total
/// plus the sum of the accepted amounts, and never passes the hard cap: a
/// call that would push the total past the cap is refused.
pub proof fn lemma_total_is_sum_of_accepted(sale: Sale, calls: Seq<PurchaseCall>)
    requires
        sale.wf(),
    ensures
        sale_after_purchases(sale, calls).total_raised == sale.total_raised + accepted_sum(sale, calls),
        sale_after_purchases(sale, calls).hard_cap_lamports == sale.hard_cap_lamports,
        sale_after_purchases(sale, calls).wf(),
        forall|i: int|
            #![trigger calls[i]]
            0 <= i < calls.len() && sale_after_purchases(sale, calls.take(i)).total_raised
                + calls[i].2 > sale.hard_cap_lamports ==> call_on(
                sale_after_purchases(sale, calls.take(i)),
                calls[i],
            ).1 is Err,
    decreases calls.len(),
{
    if calls.len() > 0 {
        let rest = calls.drop_last();
        lemma_total_is_sum_of_accepted(sale, rest);
        assert forall|i: int|
            #![trigger calls[i]]
            0 <= i < calls.len() && sale_after_purchases(sale, calls.take(i)).total_raised
                + calls[i].2 > sale.hard_cap_lamports implies call_on(
                sale_after_purchases(sale, calls.take(i)),
                calls[i],
            ).1 is Err by {
            if i < calls.len() - 1 {
                assert(calls.take(i) =~= rest.take(i));
                assert(calls[i] == rest[i]);
            } else {
                assert(calls.take(i) =~= rest);
            }
        }
    }
}

/// A contribution outside `[start_time, end_time)` is refused; one inside is
/// accepted when the accounts match, the sale is active, the amount is
/// positive and the total stays within the hard cap (for a record that, as
/// every record of the sale does, holds no more than the sale's total).
pub proof fn lemma_purchase_window(ctx: Purchase, now: i64, amount: u64)
    ensures
        !ctx.sale.is_open_at(now) ==> purchase_spec(ctx, now, amount).1 is Err,
        ctx.sale.is_open_at(now) && ctx.vault@ == ctx.sale.vault@ && (ctx.purchase_record is Some
            ==> ctx.purchase_record->0.purchaser@ == ctx.purchaser@) && ctx.sale.is_active && amount
            > 0 && ctx.sale.total_raised + amount <= ctx.sale.hard_cap_lamports && spent_so_far(
            ctx.purchase_record,
        ) <= ctx.sale.total_raised ==> purchase_spec(ctx, now, amount).1 is Ok,
{
}

/// A purchaser's record never holds more than the sale's total, before or
/// after a contribution.
pub proof fn lemma_record_within_total(ctx: Purchase, now: i64, amount: u64)
    requires
        spent_so_far(ctx.purchase_record) <= ctx.sale.total_raised,
    ensures
        spent_so_far(purchase_spec(ctx, now, amount).0.purchase_record) <= purchase_spec(
            ctx,
            now,
            amount,
        ).0.sale.total_raised,
{
}

/// The tokens paid out by a claim are the whole number of units that the
/// purchaser's contribution buys at the sale's price; the remainder, less than
/// one price, is kept by the sale.
pub proof fn lemma_claim_amount(ctx: ClaimTokens, now: i64)
    requires
        ctx.sale.price_lamports > 0,
        claim_spec(ctx, now).1 is Ok,
    ensures
        ({
            let tokens = claim_spec(ctx, now).1->Ok_0.amount as int;
            let spent = ctx.purchase_record.amount_spent as int;
            let price = ctx.sale.price_lamports as int;
            &&& tokens == spent / price
            &&& tokens * price <= spent < (tokens + 1) * price
        }),
{
    let spent = ctx.purchase_record.amount_spent as int;
    let price = ctx.sale.price_lamports as int;
    assert(0 <= spent / price <= spent) by (nonlinear_arith)
        requires
            spent >= 0,
            price > 0,
    ;
    assert((spent / price) * price <= spent < (spent / price + 1) * price) by (nonlinear_arith)
        requires
            spent >= 0,
            price > 0,
    ;
    assert(tokens_owed(ctx.purchase_record.amount_spent, ctx.sale.price_lamports) == spent / price);
}

/// A successful claim leaves the record claimed, and a second claim on what
/// it leaves is refused as already claimed, at any time.
pub proof fn lemma_claim_once(ctx: ClaimTokens, now: i64, later: i64)
    requires
        claim_spec(ctx, now).1 is Ok,
    ensures
        claim_spec(ctx, now).0.purchase_record.claimed,
        claim_spec(claim_spec(ctx, now).0, later).1 == Err::<Transfer, PresaleError>(
            PresaleError::AlreadyClaimed,
        ),
{
}

/// A contribution never clears a record's claimed flag.
pub proof fn lemma_purchase_keeps_claimed(ctx: Purchase, now: i64, amount: u64)
    requires
        ctx.purchase_record is Some,
        ctx.purchase_record->0.claimed,
    ensures
        purchase_spec(ctx, now, amount).0.purchase_record is Some,
        purchase_spec(ctx, now, amount).0.purchase_record->0.claimed,
{
}

/// A claim on a record already claimed is refused, whatever else has changed
/// since: as already claimed when its accounts match, else as unauthorized.
pub proof fn lemma_claimed_record_refused(ctx: ClaimTokens, now: i64)
    requires
        ctx.purchase_record.claimed,
    ensures
        claim_spec(ctx, now).1 is Err,
        ctx.purchase_record.purchaser@ == ctx.purchaser@ && ctx.token_mint@ == ctx.sale.token_mint@
            && ctx.sale_token_account@ == ctx.sale.sale_token_account@ ==> claim_spec(ctx, now).1
            == Err::<Transfer, PresaleError>(PresaleError::AlreadyClaimed),
{
}

/// A withdrawal before the end of the sale is refused. One after it, with
/// matching accounts and a nonempty vault, empties the vault into the
/// treasury; a second one right after is refused, the vault being empty.
pub proof fn lemma_withdraw(ctx: WithdrawSol, now: i64, later: i64)
    ensures
        now < ctx.sale.end_time ==> withdraw_spec(ctx, now).1 is Err,
        now >= ctx.sale.end_time && ctx.authority@ == ctx.sale.authority@ && ctx.treasury@
            == ctx.sale.treasury@ && ctx.vault@ == ctx.sale.vault@ && ctx.vault_lamports > 0
            && ctx.treasury_lamports + ctx.vault_lamports <= u64::MAX ==> {
            let after = withdraw_spec(ctx, now).0;
            &&& withdraw_spec(ctx, now).1 is Ok
            &&& after.vault_lamports == 0
            &&& after.treasury_lamports == ctx.treasury_lamports + ctx.vault_lamports
            &&& withdraw_spec(after, later).1 is Err
            &&& later >= ctx.sale.end_time ==> withdraw_spec(after, later).1 == Err::<
                Transfer,
                PresaleError,
            >(PresaleError::InsufficientVaultBalance)
        },
{
}

} // verus!
