//! The four instructions of a sale, each with the accounts it sees and a
//! function that states its whole effect.
use vstd::prelude::*;
use crate::address::Address;
use crate::error::PresaleError;
use crate::state::{PurchaseRecord, Sale};

verus! {

/// A movement of lamports or of token units that the host carries out when
/// the instruction that returned it succeeds.
#[derive(Clone, Copy, Debug, PartialEq, Eq)]
pub struct Transfer {
    pub from: Address,
    pub to: Address,
    pub amount: u64,
}

/// The accounts that the creation of a sale records.
#[derive(Clone, Copy, Debug)]
pub struct Initialize {
    pub vault: Address,
    pub token_mint: Address,
    pub sale_token_account: Address,
    /// The signer, who becomes the sale's authority.
    pub authority: Address,
    pub treasury: Address,
}

/// Creates an active sale with nothing raised yet.
pub fn initialize(
    ctx: &Initialize,
    presale_id: String,
    price_lamports: u64,
    soft_cap_lamports: u64,
    hard_cap_lamports: u64,
    start_time: i64,
    end_time: i64,
) -> (sale: Sale)
    ensures
        sale.authority == ctx.authority,
        sale.treasury == ctx.treasury,
        sale.vault == ctx.vault,
        sale.token_mint == ctx.token_mint,
        sale.sale_token_account == ctx.sale_token_account,
        sale.presale_id == presale_id,
        sale.price_lamports == price_lamports,
        sale.soft_cap_lamports == soft_cap_lamports,
        sale.hard_cap_lamports == hard_cap_lamports,
        sale.start_time == start_time,
        sale.end_time == end_time,
        sale.total_raised == 0,
        sale.is_active,
        sale.wf(),
{
    Sale {
        authority: ctx.authority,
        treasury: ctx.treasury,
        vault: ctx.vault,
        token_mint: ctx.token_mint,
        sale_token_account: ctx.sale_token_account,
        presale_id,
        price_lamports,
        start_time,
        end_time,
        soft_cap_lamports,
        hard_cap_lamports,
        total_raised: 0,
        is_active: true,
    }
}

/// The accounts that a contribution sees.
#[derive(Clone, Debug)]
pub struct Purchase {
    pub sale: Sale,
    /// The escrow account that receives the contribution.
    pub vault: Address,
    /// The purchaser's record for this sale; `None` before the first
    /// accepted contribution.
    pub purchase_record: Option<PurchaseRecord>,
    /// The signer of the contribution.
    pub purchaser: Address,
}

/// Lamports that a purchaser with this record has contributed so far.
pub open spec fn spent_so_far(record: Option<PurchaseRecord>) -> int {
    match record {
        Some(r) => r.amount_spent as int,
        None => 0,
    }
}

/// Whether a purchaser with this record has claimed.
pub open spec fn claimed_so_far(record: Option<PurchaseRecord>) -> bool {
    match record {
        Some(r) => r.claimed,
        None => false,
    }
}

/// The condition on which a contribution of `amount` lamports at time `now`
/// is refused, checked in order.
pub open spec fn purchase_error(ctx: Purchase, now: i64, amount: u64) -> Option<PresaleError> {
    if ctx.vault@ != ctx.sale.vault@ || (ctx.purchase_record is Some
        && ctx.purchase_record->0.purchaser@ != ctx.purchaser@) {
        Some(PresaleError::Unauthorized)
    } else if !ctx.sale.is_active {
        Some(PresaleError::SaleNotActive)
    } else if now < ctx.sale.start_time {
        Some(PresaleError::SaleNotStarted)
    } else if now >= ctx.sale.end_time {
        Some(PresaleError::SaleEnded)
    } else if amount == 0 {
        Some(PresaleError::ZeroAmount)
    } else if ctx.sale.total_raised + amount > ctx.sale.hard_cap_lamports {
        Some(PresaleError::HardCapExceeded)
    } else if spent_so_far(ctx.purchase_record) + amount > u64::MAX {
        Some(PresaleError::ArithmeticOverflow)
    } else {
        None
    }
}

/// The accounts after a contribution of `amount` lamports at time `now`, and
/// its outcome.
pub open spec fn purchase_spec(ctx: Purchase, now: i64, amount: u64) -> (Purchase, Result<Transfer, PresaleError>) {
    match purchase_error(ctx, now, amount) {
        Some(e) => (ctx, Err(e)),
        None => (
            Purchase {
                sale: Sale { total_raised: (ctx.sale.total_raised + amount) as u64, ..ctx.sale },
                purchase_record: Some(
                    PurchaseRecord {
                        purchaser: ctx.purchaser,
                        amount_spent: (spent_so_far(ctx.purchase_record) + amount) as u64,
                        claimed: claimed_so_far(ctx.purchase_record),
                    },
                ),
                ..ctx
            },
            Ok(Transfer { from: ctx.purchaser, to: ctx.vault, amount }),
        ),
    }
}

/// Contributes `amount_lamports` to the sale: adds it to the sale's total and
/// to the purchaser's record (created on the first contribution), and returns
/// the transfer from the purchaser to the vault.
pub fn purchase(ctx: &mut Purchase, now: i64, amount_lamports: u64) -> (r: Result<Transfer, PresaleError>)
    ensures
        (*final(ctx), r) == purchase_spec(*old(ctx), now, amount_lamports),
        old(ctx).sale.wf() ==> final(ctx).sale.wf(),
{
    if ctx.vault != ctx.sale.vault {
        return Err(PresaleError::Unauthorized);
    }
    let (spent, claimed): (u64, bool) = match &ctx.purchase_record {
        Some(record) => {
            if record.purchaser != ctx.purchaser {
                return Err(PresaleError::Unauthorized);
            }
            (record.amount_spent, record.claimed)
        },
        None => (0, false),
    };
    if !ctx.sale.is_active {
        return Err(PresaleError::SaleNotActive);
    }
    if now < ctx.sale.start_time {
        return Err(PresaleError::SaleNotStarted);
    }
    if now >= ctx.sale.end_time {
        return Err(PresaleError::SaleEnded);
    }
    if amount_lamports == 0 {
        return Err(PresaleError::ZeroAmount);
    }
    let total: u64 = match ctx.sale.total_raised.checked_add(amount_lamports) {
        Some(t) => t,
        None => return Err(PresaleError::HardCapExceeded),
    };
    if total > ctx.sale.hard_cap_lamports {
        return Err(PresaleError::HardCapExceeded);
    }
    let new_spent: u64 = match spent.checked_add(amount_lamports) {
        Some(t) => t,
        None => return Err(PresaleError::ArithmeticOverflow),
    };
    ctx.sale.total_raised = total;
    ctx.purchase_record = Some(
        PurchaseRecord { purchaser: ctx.purchaser, amount_spent: new_spent, claimed },
    );
    Ok(Transfer { from: ctx.purchaser, to: ctx.vault, amount: amount_lamports })
}

/// The accounts that a withdrawal of the proceeds sees.
#[derive(Clone, Debug)]
pub struct WithdrawSol {
    pub sale: Sale,
    pub vault: Address,
    /// The vault's balance.
    pub vault_lamports: u64,
    /// The signer of the withdrawal.
    pub authority: Address,
    pub treasury: Address,
    /// The treasury's balance.
    pub treasury_lamports: u64,
}

/// The condition on which a withdrawal at time `now` is refused, checked in
/// order.
pub open spec fn withdraw_error(ctx: WithdrawSol, now: i64) -> Option<PresaleError> {
    if ctx.authority@ != ctx.sale.authority@ || ctx.treasury@ != ctx.sale.treasury@
        || ctx.vault@ != ctx.sale.vault@ {
        Some(PresaleError::Unauthorized)
    } else if now < ctx.sale.end_time {
        Some(PresaleError::SaleNotEndedYet)
    } else if ctx.vault_lamports == 0 {
        Some(PresaleError::InsufficientVaultBalance)
    } else if ctx.treasury_lamports + ctx.vault_lamports > u64::MAX {
        Some(PresaleError::ArithmeticOverflow)
    } else {
        None
    }
}

/// The accounts after a withdrawal at time `now`, and its outcome.
pub open spec fn withdraw_spec(ctx: WithdrawSol, now: i64) -> (WithdrawSol, Result<Transfer, PresaleError>) {
    match withdraw_error(ctx, now) {
        Some(e) => (ctx, Err(e)),
        None => (
            WithdrawSol {
                vault_lamports: 0,
                treasury_lamports: (ctx.treasury_lamports + ctx.vault_lamports) as u64,
                ..ctx
            },
            Ok(Transfer { from: ctx.vault, to: ctx.treasury, amount: ctx.vault_lamports }),
        ),
    }
}

/// Moves the vault's whole balance to the treasury once the sale is over.
pub fn withdraw_sol(ctx: &mut WithdrawSol, now: i64) -> (r: Result<Transfer, PresaleError>)
    ensures
        (*final(ctx), r) == withdraw_spec(*old(ctx), now),
{
    if ctx.authority != ctx.sale.authority || ctx.treasury != ctx.sale.treasury
        || ctx.vault != ctx.sale.vault {
        return Err(PresaleError::Unauthorized);
    }
    if now < ctx.sale.end_time {
        return Err(PresaleError::SaleNotEndedYet);
    }
    let amount_to_withdraw: u64 = ctx.vault_lamports;
    if amount_to_withdraw == 0 {
        return Err(PresaleError::InsufficientVaultBalance);
    }
    let credited: u64 = match ctx.treasury_lamports.checked_add(amount_to_withdraw) {
        Some(t) => t,
        None => return Err(PresaleError::ArithmeticOverflow),
    };
    ctx.vault_lamports = 0;
    ctx.treasury_lamports = credited;
    Ok(Transfer { from: ctx.vault, to: ctx.treasury, amount: amount_to_withdraw })
}

/// The accounts that a purchaser's claim of the tokens bought sees.
#[derive(Clone, Debug)]
pub struct ClaimTokens {
    pub sale: Sale,
    pub purchase_record: PurchaseRecord,
    /// The signer of the claim.
    pub purchaser: Address,
    pub token_mint: Address,
    /// Receives the tokens.
    pub purchaser_token_account: Address,
    /// Pays out the tokens.
    pub sale_token_account: Address,
}

/// Token units that `amount_spent` lamports buy at `price_lamports` each;
/// the remainder of the division is not refunded.
pub open spec fn tokens_owed(amount_spent: u64, price_lamports: u64) -> int
    recommends
        price_lamports > 0,
{
    amount_spent as int / price_lamports as int
}

/// The condition on which a claim at time `now` is refused, checked in order.
pub open spec fn claim_error(ctx: ClaimTokens, now: i64) -> Option<PresaleError> {
    if ctx.purchase_record.purchaser@ != ctx.purchaser@ || ctx.token_mint@ != ctx.sale.token_mint@
        || ctx.sale_token_account@ != ctx.sale.sale_token_account@ {
        Some(PresaleError::Unauthorized)
    } else if ctx.purchase_record.claimed {
        Some(PresaleError::AlreadyClaimed)
    } else if now < ctx.sale.end_time {
        Some(PresaleError::SaleNotEndedYet)
    } else if ctx.purchase_record.amount_spent == 0 {
        Some(PresaleError::NoTokensToClaim)
    } else {
        None
    }
}

/// The accounts after a claim at time `now`, and its outcome.
pub open spec fn claim_spec(ctx: ClaimTokens, now: i64) -> (ClaimTokens, Result<Transfer, PresaleError>) {
    match claim_error(ctx, now) {
        Some(e) => (ctx, Err(e)),
        None => (
            ClaimTokens {
                purchase_record: PurchaseRecord { claimed: true, ..ctx.purchase_record },
                ..ctx
            },
            Ok(
                Transfer {
                    from: ctx.sale_token_account,
                    to: ctx.purchaser_token_account,
                    amount: tokens_owed(ctx.purchase_record.amount_spent, ctx.sale.price_lamports) as u64,
                },
            ),
        ),
    }
}

/// Claims, once, the tokens that the purchaser's whole contribution buys:
/// marks the record claimed and returns the token transfer from the sale's
/// escrow to the purchaser.
pub fn claim_tokens(ctx: &mut ClaimTokens, now: i64) -> (r: Result<Transfer, PresaleError>)
    requires
        old(ctx).sale.price_lamports > 0,
    ensures
        (*final(ctx), r) == claim_spec(*old(ctx), now),
{
    if ctx.purchase_record.purchaser != ctx.purchaser || ctx.token_mint != ctx.sale.token_mint
        || ctx.sale_token_account != ctx.sale.sale_token_account {
        return Err(PresaleError::Unauthorized);
    }
    if ctx.purchase_record.claimed {
        return Err(PresaleError::AlreadyClaimed);
    }
    if now < ctx.sale.end_time {
        return Err(PresaleError::SaleNotEndedYet);
    }
    if ctx.purchase_record.amount_spent == 0 {
        return Err(PresaleError::NoTokensToClaim);
    }
    let tokens: u64 = ctx.purchase_record.amount_spent / ctx.sale.price_lamports;
    ctx.purchase_record.claimed = true;
    Ok(Transfer { from: ctx.sale_token_account, to: ctx.purchaser_token_account, amount: tokens })
}

} // verus!
