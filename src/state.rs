//! The records that a sale keeps.
use vstd::prelude::*;
use crate::address::Address;

verus! {

/// The configuration and running total of one presale.
#[derive(Clone, Debug, PartialEq, Eq)]
pub struct Sale {
    /// May withdraw the proceeds.
    pub authority: Address,
    /// Receives the withdrawn proceeds.
    pub treasury: Address,
    /// Holds the contributions in escrow until withdrawal.
    pub vault: Address,
    /// The token being sold.
    pub token_mint: Address,
    /// Holds the escrowed supply of the token being sold.
    pub sale_token_account: Address,
    pub presale_id: String,
    /// Price of one token unit, in lamports.
    pub price_lamports: u64,
    /// First second of the sale window (inclusive).
    pub start_time: i64,
    /// End of the sale window (exclusive).
    pub end_time: i64,
    /// Advisory funding target.
    pub soft_cap_lamports: u64,
    /// Enforced funding limit.
    pub hard_cap_lamports: u64,
    /// Sum of all accepted contributions.
    pub total_raised: u64,
    pub is_active: bool,
}

impl Sale {
    /// The sale never holds more than its hard cap.
    pub open spec fn wf(&self) -> bool {
        self.total_raised <= self.hard_cap_lamports
    }

    /// Whether `now` lies in the window `[start_time, end_time)`.
    pub open spec fn is_open_at(&self, now: i64) -> bool {
        self.start_time <= now < self.end_time
    }
}

/// What one purchaser has contributed to one sale, and whether the tokens
/// bought have been claimed.
#[derive(Clone, Copy, Debug, PartialEq, Eq)]
pub struct PurchaseRecord {
    pub purchaser: Address,
    /// Lamports contributed so far.
    pub amount_spent: u64,
    pub claimed: bool,
}

} // verus!
