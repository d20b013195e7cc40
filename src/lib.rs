//! Ledger of a token presale: contributions of the native currency during a
//! fixed window up to a hard cap, withdrawal of the proceeds once the sale is
//! over, and a one-time claim of the purchased tokens.
//!
//! Each instruction is a function from the accounts it sees (and the clock)
//! to their new contents and the transfer that the host must carry out.
mod address;
mod error;
mod instructions;
pub mod laws;
mod state;

pub use address::Address;
pub use error::PresaleError;
pub use state::{PurchaseRecord, Sale};
pub use instructions::{
    claim_tokens, initialize, purchase, withdraw_sol, ClaimTokens, Initialize, Purchase, Transfer,
    WithdrawSol,
};
