use vstd::prelude::*;

use crate::state::{InvestorPosition, PropertyListing, Pubkey};

verus! {

/// What an instruction reads of a token account.
#[derive(Clone, Copy, Debug, PartialEq, Eq, Structural)]
pub struct TokenAccountState {
    pub key: Pubkey,
    pub owner: Pubkey,
    pub mint: Pubkey,
    pub amount: u64,
}

/// The accounts of `create_listing`: the sponsor and the addresses that the
/// new listing records.
#[derive(Clone, Copy, Debug, PartialEq, Eq, Structural)]
pub struct CreateListing {
    pub authority: Pubkey,
    pub property_mint: Pubkey,
    pub escrow_vault: Pubkey,
    pub rental_vault: Pubkey,
    pub usdc_mint: Pubkey,
    pub listing_bump: u8,
}

/// The accounts of `invest`.
#[derive(Debug)]
pub struct Invest {
    pub investor: Pubkey,
    pub listing_key: Pubkey,
    pub listing: PropertyListing,
    pub investor_usdc_account: TokenAccountState,
    pub escrow_vault: Pubkey,
    pub property_mint: Pubkey,
    pub investor_position: InvestorPosition,
    pub investor_position_bump: u8,
    pub usdc_mint: Pubkey,
}

/// The accounts of `release_escrow`.
#[derive(Debug)]
pub struct ReleaseEscrow {
    pub authority: Pubkey,
    pub listing: PropertyListing,
    pub escrow_vault: TokenAccountState,
    pub authority_usdc_account: TokenAccountState,
}

/// The accounts of `claim_refund`.
#[derive(Debug)]
pub struct ClaimRefund {
    pub investor: Pubkey,
    pub listing: PropertyListing,
    pub escrow_vault: Pubkey,
    pub investor_usdc_account: TokenAccountState,
    pub investor_property_token_account: TokenAccountState,
    pub property_mint: Pubkey,
    pub investor_position: InvestorPosition,
}

/// The accounts of `fund_rental_vault`.
#[derive(Debug)]
pub struct FundRentalVault {
    pub authority: Pubkey,
    pub listing: PropertyListing,
    pub authority_usdc_account: TokenAccountState,
    pub rental_vault: Pubkey,
}

/// The accounts of `claim_rental_income`.
#[derive(Debug)]
pub struct ClaimRentalIncome {
    pub investor: Pubkey,
    pub listing: PropertyListing,
    pub rental_vault: TokenAccountState,
    pub investor_usdc_account: TokenAccountState,
    pub investor_position: InvestorPosition,
}

/// The accounts of `request_redemption`.
#[derive(Debug)]
pub struct RequestRedemption {
    pub investor: Pubkey,
    pub listing: PropertyListing,
    pub investor_position: InvestorPosition,
}

/// The accounts of `approve_redemption`.
#[derive(Debug)]
pub struct ApproveRedemption {
    pub authority: Pubkey,
    pub listing: PropertyListing,
    pub investor: Pubkey,
    pub investor_position: InvestorPosition,
    pub investor_property_token_account: TokenAccountState,
    pub property_mint: Pubkey,
}

/// The accounts of `cancel_listing`.
#[derive(Debug)]
pub struct CancelListing {
    pub authority: Pubkey,
    pub listing: PropertyListing,
}

/// The accounts of `update_metadata_uri`.
#[derive(Debug)]
pub struct UpdateMetadataUri {
    pub authority: Pubkey,
    pub listing: PropertyListing,
}

} // verus!
