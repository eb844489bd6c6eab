use vstd::prelude::*;

use crate::state::Pubkey;

verus! {

/// A listing was created.
#[derive(Debug)]
pub struct ListingCreatedEvent {
    pub listing_id: u64,
    pub authority: Pubkey,
    pub name: String,
    pub raise_target: u64,
}

/// An investor bought `tokens_bought` tokens for `usdc_invested` USDC, which
/// move from the investor into the listing's escrow vault.
#[derive(Clone, Copy, Debug, PartialEq, Eq, Structural)]
pub struct InvestmentMadeEvent {
    pub listing_id: u64,
    pub investor: Pubkey,
    pub tokens_bought: u64,
    pub usdc_invested: u64,
}

/// The escrow vault's `amount` moved to the sponsor.
#[derive(Clone, Copy, Debug, PartialEq, Eq, Structural)]
pub struct EscrowReleasedEvent {
    pub listing_id: u64,
    pub amount: u64,
}

/// An investor was refunded `usdc_refunded` USDC from the escrow vault.
#[derive(Clone, Copy, Debug, PartialEq, Eq, Structural)]
pub struct RefundClaimedEvent {
    pub listing_id: u64,
    pub investor: Pubkey,
    pub usdc_refunded: u64,
}

/// The sponsor paid `amount` USDC into the rental vault.
#[derive(Clone, Copy, Debug, PartialEq, Eq, Structural)]
pub struct RentalVaultFundedEvent {
    pub listing_id: u64,
    pub amount: u64,
    pub new_reward_accumulator: u128,
}

/// An investor was paid `amount` USDC of rental income from the rental vault.
#[derive(Clone, Copy, Debug, PartialEq, Eq, Structural)]
pub struct RentalIncomeClaimedEvent {
    pub listing_id: u64,
    pub investor: Pubkey,
    pub amount: u64,
}

/// An investor asked to redeem a position of `tokens` tokens.
#[derive(Clone, Copy, Debug, PartialEq, Eq, Structural)]
pub struct RedemptionRequestedEvent {
    pub listing_id: u64,
    pub investor: Pubkey,
    pub tokens: u64,
}

/// The sponsor approved a redemption, burning `tokens_burned` tokens.
#[derive(Clone, Copy, Debug, PartialEq, Eq, Structural)]
pub struct RedemptionApprovedEvent {
    pub listing_id: u64,
    pub investor: Pubkey,
    pub tokens_burned: u64,
}

/// A listing was cancelled.
#[derive(Clone, Copy, Debug, PartialEq, Eq, Structural)]
pub struct ListingCancelledEvent {
    pub listing_id: u64,
}

/// A listing's metadata URI changed.
#[derive(Debug)]
pub struct MetadataUpdatedEvent {
    pub listing_id: u64,
    pub new_uri: String,
}

} // verus!
