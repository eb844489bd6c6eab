use vstd::prelude::*;

use crate::constants::{MAX_NAME_LEN, MAX_RENTAL_YIELD_BPS, MAX_SYMBOL_LEN, MAX_URI_LEN};
use crate::validation::{name_is_valid, symbol_is_valid, uri_is_valid};

verus! {

/// A 32-byte account address, held as four little-endian 64-bit words.
#[derive(Clone, Copy, Debug, PartialEq, Eq, Structural)]
pub struct Pubkey {
    pub w0: u64,
    pub w1: u64,
    pub w2: u64,
    pub w3: u64,
}

impl Pubkey {
    /// The all-zero address.
    pub fn zero() -> (k: Pubkey)
        ensures
            k == Pubkey::zero_spec(),
    {
        Pubkey { w0: 0, w1: 0, w2: 0, w3: 0 }
    }
}

/// Where a listing stands in its lifecycle.
#[derive(Clone, Copy, Debug, PartialEq, Eq, Structural)]
pub enum PropertyStatus {
    Draft,
    Fundraising,
    Funded,
    Active,
    Completed,
    Cancelled,
}

impl Default for PropertyStatus {
    fn default() -> (s: Self)
        ensures
            s == PropertyStatus::Draft,
    {
        PropertyStatus::Draft
    }
}

/// A property offering: its configuration, its fundraising progress and its
/// rental reward accumulator.
#[derive(Debug)]
pub struct PropertyListing {
    pub authority: Pubkey,
    pub listing_id: u64,
    pub name: String,
    pub symbol: String,
    pub uri: String,
    pub property_mint: Pubkey,
    pub escrow_vault: Pubkey,
    pub rental_vault: Pubkey,
    pub usdc_mint: Pubkey,
    pub total_tokens: u64,
    pub tokens_sold: u64,
    pub total_raised: u64,
    pub token_price_usdc: u64,
    pub min_investment_tokens: u64,
    pub raise_target: u64,
    pub raise_deadline: i64,
    pub unit_threshold_tokens: u64,
    pub rental_yield_bps: u16,
    pub is_off_plan: bool,
    pub show_exact_amounts: bool,
    pub status: PropertyStatus,
    pub is_visible: bool,
    pub reward_per_token_stored: u128,
    pub last_update_time: i64,
    pub bump: u8,
}

impl PropertyListing {
    /// Bytes that a stored listing occupies, after its 8-byte discriminator.
    pub const SPACE: usize = 32 + 8 + (4 + MAX_NAME_LEN) + (4 + MAX_SYMBOL_LEN) + (4 + MAX_URI_LEN) + 32 + 32 + 32 + 32 + 8 + 8
        + 8 + 8 + 8 + 8 + 8 + 8 + 2 + 1 + 1 + 1 + 1 + 16 + 8 + 1;

    /// The invariant of every listing that `create_listing` makes: its
    /// economics are consistent, its text fields are valid, and no more
    /// tokens are out than the listing offers.
    pub open spec fn wf(&self) -> bool {
        &&& self.status != PropertyStatus::Draft
        &&& self.total_tokens > 0
        &&& self.token_price_usdc > 0
        &&& self.raise_target == self.total_tokens * self.token_price_usdc
        &&& 0 < self.min_investment_tokens <= self.total_tokens
        &&& self.unit_threshold_tokens <= self.total_tokens
        &&& self.tokens_sold <= self.total_tokens
        &&& self.rental_yield_bps <= MAX_RENTAL_YIELD_BPS
        &&& name_is_valid(vstd::utf8::encode_utf8(self.name@))
        &&& symbol_is_valid(vstd::utf8::encode_utf8(self.symbol@))
        &&& uri_is_valid(vstd::utf8::encode_utf8(self.uri@))
    }
}

/// One investor's stake in one listing.
#[derive(Clone, Copy, Debug)]
pub struct InvestorPosition {
    pub investor: Pubkey,
    pub listing: Pubkey,
    pub tokens_held: u64,
    pub usdc_invested: u64,
    pub reward_per_token_paid: u128,
    pub pending_rental_income: u64,
    pub redemption_requested: bool,
    pub redemption_approved: bool,
    pub bump: u8,
}

impl InvestorPosition {
    /// Bytes that a stored position occupies, after its 8-byte discriminator.
    pub const SPACE: usize = 32 + 32 + 8 + 8 + 16 + 8 + 1 + 1 + 1;

    /// A position that holds nothing and owes nothing.
    pub open spec fn is_empty(&self) -> bool {
        &&& self.tokens_held == 0
        &&& self.usdc_invested == 0
        &&& self.reward_per_token_paid == 0
        &&& self.pending_rental_income == 0
        &&& !self.redemption_requested
    }

    /// The position agrees with its listing: it paid the listing's price for
    /// every token it holds, it holds no more than the listing has sold, and
    /// its reward checkpoint is not ahead of the listing's accumulator.
    pub open spec fn consistent_with(&self, listing: &PropertyListing) -> bool {
        &&& self.usdc_invested == self.tokens_held * listing.token_price_usdc
        &&& self.tokens_held <= listing.tokens_sold
        &&& self.reward_per_token_paid <= listing.reward_per_token_stored
    }
}

impl Default for InvestorPosition {
    fn default() -> (p: Self)
        ensures
            p.investor == Pubkey::zero_spec(),
            p.listing == Pubkey::zero_spec(),
            p.is_empty(),
            !p.redemption_approved,
            p.bump == 0,
    {
        InvestorPosition {
            investor: Pubkey::zero(),
            listing: Pubkey::zero(),
            tokens_held: 0,
            usdc_invested: 0,
            reward_per_token_paid: 0,
            pending_rental_income: 0,
            redemption_requested: false,
            redemption_approved: false,
            bump: 0,
        }
    }
}

impl Pubkey {
    /// The all-zero address.
    pub open spec fn zero_spec() -> Pubkey {
        Pubkey { w0: 0, w1: 0, w2: 0, w3: 0 }
    }
}

/// A position with everything taken out of it and no redemption open.
pub open spec fn cleared_position(p: InvestorPosition, approved: bool) -> InvestorPosition {
    InvestorPosition {
        tokens_held: 0,
        usdc_invested: 0,
        pending_rental_income: 0,
        reward_per_token_paid: 0,
        redemption_requested: false,
        redemption_approved: approved,
        ..p
    }
}

/// The listing once `tokens` of its sold tokens are burned at time `now`.
pub open spec fn listing_after_burn(l: PropertyListing, tokens: u64, now: i64) -> PropertyListing {
    PropertyListing { tokens_sold: (l.tokens_sold - tokens) as u64, last_update_time: now, ..l }
}

/// The lifecycle moves only forward: a fundraising listing becomes funded
/// or cancelled, a funded one becomes active; every other operation keeps
/// the status.
pub open spec fn lifecycle_step(from: PropertyStatus, to: PropertyStatus) -> bool {
    ||| from == to
    ||| from == PropertyStatus::Fundraising && (to == PropertyStatus::Funded || to == PropertyStatus::Cancelled)
    ||| from == PropertyStatus::Funded && to == PropertyStatus::Active
}

} // verus!
