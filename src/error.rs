//! Why an instruction is refused.
use vstd::prelude::*;

verus! {

/// The named conditions on which an instruction is refused.
#[derive(Clone, Copy, Debug, PartialEq, Eq, Structural)]
pub enum PresaleError {
    SaleNotStarted,
    SaleEnded,
    SaleNotActive,
    HardCapExceeded,
    InsufficientVaultBalance,
    SaleNotEndedYet,
    ZeroAmount,
    NoTokensToClaim,
    AlreadyClaimed,
    /// An account is not the one that the sale or the purchase record names.
    Unauthorized,
    /// A balance or a running sum would leave the range of `u64`.
    ArithmeticOverflow,
}

pub open spec fn message_of(e: PresaleError) -> &'static str {
    match e {
        PresaleError::SaleNotStarted => "The sale has not started yet.",
        PresaleError::SaleEnded => "The sale has already ended.",
        PresaleError::SaleNotActive => "The sale is currently not active.",
        PresaleError::HardCapExceeded => "The hard cap for this sale has been reached.",
        PresaleError::InsufficientVaultBalance => "The vault has an insufficient balance for withdrawal.",
        PresaleError::SaleNotEndedYet => "The sale has not ended yet, you cannot withdraw.",
        PresaleError::ZeroAmount => "Amount must be greater than zero.",
        PresaleError::NoTokensToClaim => "You have no tokens to claim.",
        PresaleError::AlreadyClaimed => "Tokens have already been claimed.",
        PresaleError::Unauthorized => "The account does not match the one recorded for this sale.",
        PresaleError::ArithmeticOverflow => "The amount does not fit in a 64-bit balance.",
    }
}

impl PresaleError {
    /// The text shown to a user for this condition.
    pub fn message(&self) -> (r: &'static str)
        ensures
            r == message_of(*self),
    {
        match self {
            PresaleError::SaleNotStarted => "The sale has not started yet.",
            PresaleError::SaleEnded => "The sale has already ended.",
            PresaleError::SaleNotActive => "The sale is currently not active.",
            PresaleError::HardCapExceeded => "The hard cap for this sale has been reached.",
            PresaleError::InsufficientVaultBalance => "The vault has an insufficient balance for withdrawal.",
            PresaleError::SaleNotEndedYet => "The sale has not ended yet, you cannot withdraw.",
            PresaleError::ZeroAmount => "Amount must be greater than zero.",
            PresaleError::NoTokensToClaim => "You have no tokens to claim.",
            PresaleError::AlreadyClaimed => "Tokens have already been claimed.",
            PresaleError::Unauthorized => "The account does not match the one recorded for this sale.",
            PresaleError::ArithmeticOverflow => "The amount does not fit in a 64-bit balance.",
        }
    }
}

} // verus!
