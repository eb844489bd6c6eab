use real_estate::admin_instructions::{
    approve_redemption, cancel_listing, create_listing, fund_rental_vault, release_escrow,
    update_metadata_uri,
};
use real_estate::constants::PRECISION;
use real_estate::contexts::{
    ApproveRedemption, CancelListing, ClaimRefund, ClaimRentalIncome, CreateListing, FundRentalVault,
    Invest, ReleaseEscrow, RequestRedemption, TokenAccountState, UpdateMetadataUri,
};
use real_estate::errors::ErrorCode;
use real_estate::investor_instructions::{claim_refund, claim_rental_income, invest, request_redemption};
use real_estate::state::{InvestorPosition, PropertyListing, PropertyStatus, Pubkey};

const AUTHORITY: u64 = 1;
const INVESTOR: u64 = 2;
const LISTING: u64 = 3;
const PROPERTY_MINT: u64 = 4;
const ESCROW: u64 = 5;
const RENTAL_VAULT: u64 = 6;
const USDC_MINT: u64 = 7;
const INVESTOR_USDC: u64 = 8;
const INVESTOR_PROPERTY: u64 = 9;
const AUTHORITY_USDC: u64 = 10;
const STRANGER: u64 = 99;

fn key(n: u64) -> Pubkey {
    Pubkey { w0: n, w1: 0, w2: 0, w3: 0 }
}

fn create_ctx() -> CreateListing {
    CreateListing {
        authority: key(AUTHORITY),
        property_mint: key(PROPERTY_MINT),
        escrow_vault: key(ESCROW),
        rental_vault: key(RENTAL_VAULT),
        usdc_mint: key(USDC_MINT),
        listing_bump: 255,
    }
}

/// 1000 tokens at 50 USDC, raising 50_000 by time 2000; minimum purchase 10,
/// redemption threshold 100; created at time 1000.
fn create(
    name: &str,
    symbol: &str,
    uri: &str,
    total_tokens: u64,
    price: u64,
    raise_target: u64,
    deadline: i64,
    bps: u16,
) -> Result<PropertyListing, ErrorCode> {
    create_listing(
        &create_ctx(),
        42,
        name.to_string(),
        symbol.to_string(),
        uri.to_string(),
        total_tokens,
        price,
        10,
        raise_target,
        deadline,
        100,
        bps,
        true,
        false,
        1000,
    )
    .map(|(listing, _)| listing)
}

fn listing() -> PropertyListing {
    create("Palm Tower", "PALM", "https://example.com/palm.json", 1000, 50, 50_000, 2000, 500).unwrap()
}

fn token_account(key_id: u64, owner: u64, mint: u64, amount: u64) -> TokenAccountState {
    TokenAccountState { key: key(key_id), owner: key(owner), mint: key(mint), amount }
}

fn invest_ctx(listing: PropertyListing, position: InvestorPosition) -> Invest {
    Invest {
        investor: key(INVESTOR),
        listing_key: key(LISTING),
        listing,
        investor_usdc_account: token_account(INVESTOR_USDC, INVESTOR, USDC_MINT, 1_000_000),
        escrow_vault: key(ESCROW),
        property_mint: key(PROPERTY_MINT),
        investor_position: position,
        investor_position_bump: 254,
        usdc_mint: key(USDC_MINT),
    }
}

fn held_position(tokens: u64, price: u64, paid: u128) -> InvestorPosition {
    InvestorPosition {
        investor: key(INVESTOR),
        listing: key(LISTING),
        tokens_held: tokens,
        usdc_invested: tokens * price,
        reward_per_token_paid: paid,
        pending_rental_income: 0,
        redemption_requested: false,
        redemption_approved: false,
        bump: 254,
    }
}

fn with_status(mut l: PropertyListing, status: PropertyStatus, sold: u64) -> PropertyListing {
    l.status = status;
    l.tokens_sold = sold;
    l
}

// ------------------------------------------------------------ create_listing

#[test]
fn create_listing_records_terms() {
    let (l, event) = create_listing(
        &create_ctx(),
        42,
        "Palm Tower".to_string(),
        "PALM".to_string(),
        "ipfs://bafybeigdyr".to_string(),
        1000,
        50,
        10,
        50_000,
        2000,
        100,
        500,
        true,
        false,
        1000,
    )
    .unwrap();
    assert_eq!(l.authority, key(AUTHORITY));
    assert_eq!(l.listing_id, 42);
    assert_eq!(l.name, "Palm Tower");
    assert_eq!(l.symbol, "PALM");
    assert_eq!(l.uri, "ipfs://bafybeigdyr");
    assert_eq!(l.property_mint, key(PROPERTY_MINT));
    assert_eq!(l.escrow_vault, key(ESCROW));
    assert_eq!(l.rental_vault, key(RENTAL_VAULT));
    assert_eq!(l.usdc_mint, key(USDC_MINT));
    assert_eq!((l.total_tokens, l.tokens_sold, l.total_raised), (1000, 0, 0));
    assert_eq!((l.token_price_usdc, l.min_investment_tokens, l.raise_target), (50, 10, 50_000));
    assert_eq!((l.raise_deadline, l.unit_threshold_tokens, l.rental_yield_bps), (2000, 100, 500));
    assert!(l.is_off_plan && !l.show_exact_amounts);
    assert_eq!(l.status, PropertyStatus::Fundraising);
    assert!(l.is_visible);
    assert_eq!(l.reward_per_token_stored, 0);
    assert_eq!(l.last_update_time, 1000);
    assert_eq!(l.bump, 255);
    assert_eq!(event.listing_id, 42);
    assert_eq!(event.authority, key(AUTHORITY));
    assert_eq!(event.name, "Palm Tower");
    assert_eq!(event.raise_target, 50_000);
}

#[test]
fn create_listing_checks_economics() {
    let uri = "https://example.com/palm.json";
    assert_eq!(create("P", "P", uri, u64::MAX, 2, 0, 2000, 0).unwrap_err(), ErrorCode::Overflow);
    assert_eq!(create("P", "P", uri, 1000, 50, 49_999, 2000, 0).unwrap_err(), ErrorCode::InvalidAmount);
    assert_eq!(create("P", "P", uri, 0, 50, 0, 2000, 0).unwrap_err(), ErrorCode::InvalidAmount);
    assert_eq!(create("P", "P", uri, 1000, 0, 0, 2000, 0).unwrap_err(), ErrorCode::InvalidAmount);
    // minimum purchase of 10 exceeds a supply of 5
    assert_eq!(create("P", "P", uri, 5, 50, 250, 2000, 0).unwrap_err(), ErrorCode::InvalidAmount);
    assert_eq!(create("P", "P", uri, 1000, 50, 50_000, 2000, 10_001).unwrap_err(), ErrorCode::InvalidAmount);
    assert!(create("P", "P", uri, 1000, 50, 50_000, 2000, 10_000).is_ok());
}

#[test]
fn create_listing_checks_deadline_and_text() {
    let uri = "https://example.com/palm.json";
    assert_eq!(create("P", "P", uri, 1000, 50, 50_000, 1000, 0).unwrap_err(), ErrorCode::InvalidTimestamp);
    assert!(create("P", "P", uri, 1000, 50, 50_000, 1001, 0).is_ok());
    assert_eq!(create("", "P", uri, 1000, 50, 50_000, 2000, 0).unwrap_err(), ErrorCode::NameTooLong);
    assert_eq!(create(&"n".repeat(51), "P", uri, 1000, 50, 50_000, 2000, 0).unwrap_err(), ErrorCode::NameTooLong);
    assert_eq!(create("P", "TOOLONGSYMB", uri, 1000, 50, 50_000, 2000, 0).unwrap_err(), ErrorCode::SymbolTooLong);
    assert_eq!(create("P", "P", "http://example.com", 1000, 50, 50_000, 2000, 0).unwrap_err(), ErrorCode::InvalidUri);
    assert_eq!(create("P", "P", "ipfs://abc", 1000, 50, 50_000, 2000, 0).unwrap_err(), ErrorCode::InvalidUri);
    // the amount checks come before the deadline check
    assert_eq!(create("P", "P", uri, 1000, 50, 1, 0, 0).unwrap_err(), ErrorCode::InvalidAmount);
}

// ------------------------------------------------------------ invest

#[test]
fn invest_buys_tokens_into_escrow() {
    let mut ctx = invest_ctx(listing(), InvestorPosition::default());
    let event = invest(&mut ctx, 100, 1500).unwrap();
    assert_eq!(event.listing_id, 42);
    assert_eq!(event.investor, key(INVESTOR));
    assert_eq!(event.tokens_bought, 100);
    assert_eq!(event.usdc_invested, 5_000);
    assert_eq!(ctx.listing.tokens_sold, 100);
    assert_eq!(ctx.listing.total_raised, 5_000);
    assert_eq!(ctx.listing.status, PropertyStatus::Fundraising);
    assert_eq!(ctx.listing.last_update_time, 1500);
    let p = ctx.investor_position;
    assert_eq!(p.investor, key(INVESTOR));
    assert_eq!(p.listing, key(LISTING));
    assert_eq!((p.tokens_held, p.usdc_invested), (100, 5_000));
    assert_eq!(p.bump, 254);
}

#[test]
fn invest_reaching_target_funds_listing() {
    let mut ctx = invest_ctx(listing(), InvestorPosition::default());
    invest(&mut ctx, 600, 1500).unwrap();
    assert_eq!(ctx.listing.status, PropertyStatus::Fundraising);
    invest(&mut ctx, 400, 1600).unwrap();
    assert_eq!(ctx.listing.status, PropertyStatus::Funded);
    assert_eq!(ctx.listing.tokens_sold, 1000);
    assert_eq!(ctx.listing.total_raised, 50_000);
    assert_eq!(ctx.investor_position.tokens_held, 1000);
    assert_eq!(ctx.investor_position.usdc_invested, 50_000);
    // a funded listing takes no more money
    assert_eq!(invest(&mut ctx, 10, 1700).unwrap_err(), ErrorCode::NotFundraising);
}

#[test]
fn invest_settles_income_of_existing_holding() {
    let mut l = listing();
    l.tokens_sold = 100;
    l.reward_per_token_stored = 3 * PRECISION;
    let mut ctx = invest_ctx(l, held_position(100, 50, PRECISION));
    invest(&mut ctx, 10, 1500).unwrap();
    assert_eq!(ctx.investor_position.pending_rental_income, 200);
    assert_eq!(ctx.investor_position.reward_per_token_paid, 3 * PRECISION);
    assert_eq!(ctx.investor_position.tokens_held, 110);
    assert_eq!(ctx.investor_position.usdc_invested, 5_500);
}

#[test]
fn invest_refusals_leave_accounts_unchanged() {
    let mut ctx = invest_ctx(listing(), InvestorPosition::default());
    ctx.usdc_mint = key(STRANGER);
    assert_eq!(invest(&mut ctx, 100, 1500).unwrap_err(), ErrorCode::Unauthorized);
    assert_eq!(ctx.listing.tokens_sold, 0);
    assert_eq!(ctx.investor_position.tokens_held, 0);

    let mut ctx = invest_ctx(listing(), InvestorPosition::default());
    ctx.investor_usdc_account.owner = key(STRANGER);
    assert_eq!(invest(&mut ctx, 100, 1500).unwrap_err(), ErrorCode::Unauthorized);
    let mut ctx = invest_ctx(listing(), InvestorPosition::default());
    ctx.escrow_vault = key(STRANGER);
    assert_eq!(invest(&mut ctx, 100, 1500).unwrap_err(), ErrorCode::Unauthorized);
    let mut ctx = invest_ctx(listing(), InvestorPosition::default());
    ctx.property_mint = key(STRANGER);
    assert_eq!(invest(&mut ctx, 100, 1500).unwrap_err(), ErrorCode::Unauthorized);
}

#[test]
fn invest_refusals() {
    let mut hidden = listing();
    hidden.is_visible = false;
    let mut ctx = invest_ctx(hidden, InvestorPosition::default());
    assert_eq!(invest(&mut ctx, 100, 1500).unwrap_err(), ErrorCode::ListingNotVisible);

    let mut ctx = invest_ctx(with_status(listing(), PropertyStatus::Cancelled, 0), InvestorPosition::default());
    assert_eq!(invest(&mut ctx, 100, 1500).unwrap_err(), ErrorCode::NotFundraising);

    let mut ctx = invest_ctx(listing(), InvestorPosition::default());
    assert_eq!(invest(&mut ctx, 100, 2000).unwrap_err(), ErrorCode::RaiseClosed);
    assert_eq!(invest(&mut ctx, 9, 1500).unwrap_err(), ErrorCode::BelowMinimum);
    assert_eq!(invest(&mut ctx, 1001, 1500).unwrap_err(), ErrorCode::InsufficientTokens);
    assert_eq!(ctx.listing.tokens_sold, 0);
    ctx.listing.tokens_sold = 1;
    assert_eq!(invest(&mut ctx, u64::MAX, 1500).unwrap_err(), ErrorCode::Overflow);
}

#[test]
fn invest_overflowing_cost_and_underflowing_checkpoint() {
    let mut l = listing();
    l.total_tokens = u64::MAX;
    l.token_price_usdc = u64::MAX;
    let mut ctx = invest_ctx(l, InvestorPosition::default());
    assert_eq!(invest(&mut ctx, 10, 1500).unwrap_err(), ErrorCode::Overflow);

    let mut l = listing();
    l.tokens_sold = 100;
    let mut ctx = invest_ctx(l, held_position(100, 50, 5));
    assert_eq!(invest(&mut ctx, 10, 1500).unwrap_err(), ErrorCode::Underflow);
}

// ------------------------------------------------------------ release_escrow

fn release_ctx(l: PropertyListing, escrow_amount: u64) -> ReleaseEscrow {
    ReleaseEscrow {
        authority: key(AUTHORITY),
        listing: l,
        escrow_vault: token_account(ESCROW, LISTING, USDC_MINT, escrow_amount),
        authority_usdc_account: token_account(AUTHORITY_USDC, AUTHORITY, USDC_MINT, 0),
    }
}

#[test]
fn release_escrow_activates_funded_listing() {
    let mut ctx = release_ctx(with_status(listing(), PropertyStatus::Funded, 1000), 50_000);
    let event = release_escrow(&mut ctx, 2500).unwrap();
    assert_eq!(event.listing_id, 42);
    assert_eq!(event.amount, 50_000);
    assert_eq!(ctx.listing.status, PropertyStatus::Active);
    assert_eq!(ctx.listing.last_update_time, 2500);
    assert_eq!(release_escrow(&mut ctx, 2600).unwrap_err(), ErrorCode::RaiseTargetNotMet);
}

#[test]
fn release_escrow_refusals() {
    let mut ctx = release_ctx(listing(), 50_000);
    assert_eq!(release_escrow(&mut ctx, 2500).unwrap_err(), ErrorCode::RaiseTargetNotMet);
    let mut ctx = release_ctx(with_status(listing(), PropertyStatus::Funded, 1000), 0);
    assert_eq!(release_escrow(&mut ctx, 2500).unwrap_err(), ErrorCode::InvalidAmount);
    let mut ctx = release_ctx(with_status(listing(), PropertyStatus::Funded, 1000), 50_000);
    ctx.authority = key(STRANGER);
    assert_eq!(release_escrow(&mut ctx, 2500).unwrap_err(), ErrorCode::Unauthorized);
    assert_eq!(ctx.listing.status, PropertyStatus::Funded);
}

// ------------------------------------------------------------ fund_rental_vault

fn fund_ctx(l: PropertyListing) -> FundRentalVault {
    FundRentalVault {
        authority: key(AUTHORITY),
        listing: l,
        authority_usdc_account: token_account(AUTHORITY_USDC, AUTHORITY, USDC_MINT, 1_000_000),
        rental_vault: key(RENTAL_VAULT),
    }
}

#[test]
fn fund_rental_vault_grows_accumulator() {
    let mut ctx = fund_ctx(with_status(listing(), PropertyStatus::Active, 300));
    let event = fund_rental_vault(&mut ctx, 900, 3000).unwrap();
    assert_eq!(event.amount, 900);
    assert_eq!(event.new_reward_accumulator, 3 * PRECISION);
    assert_eq!(ctx.listing.reward_per_token_stored, 3 * PRECISION);
    assert_eq!(ctx.listing.last_update_time, 3000);
    fund_rental_vault(&mut ctx, 100, 3100).unwrap();
    assert_eq!(ctx.listing.reward_per_token_stored, 3 * PRECISION + 100 * PRECISION / 300);
}

#[test]
fn fund_rental_vault_refusals() {
    let mut ctx = fund_ctx(with_status(listing(), PropertyStatus::Funded, 300));
    assert_eq!(fund_rental_vault(&mut ctx, 900, 3000).unwrap_err(), ErrorCode::PropertyNotActive);
    let mut ctx = fund_ctx(with_status(listing(), PropertyStatus::Active, 300));
    assert_eq!(fund_rental_vault(&mut ctx, 0, 3000).unwrap_err(), ErrorCode::InvalidAmount);
    let mut ctx = fund_ctx(with_status(listing(), PropertyStatus::Active, 0));
    assert_eq!(fund_rental_vault(&mut ctx, 900, 3000).unwrap_err(), ErrorCode::InvalidAmount);
    let mut ctx = fund_ctx(with_status(listing(), PropertyStatus::Active, 1));
    ctx.listing.reward_per_token_stored = u128::MAX;
    assert_eq!(fund_rental_vault(&mut ctx, 1, 3000).unwrap_err(), ErrorCode::Overflow);
    let mut ctx = fund_ctx(with_status(listing(), PropertyStatus::Active, 300));
    ctx.rental_vault = key(STRANGER);
    assert_eq!(fund_rental_vault(&mut ctx, 900, 3000).unwrap_err(), ErrorCode::Unauthorized);
    assert_eq!(ctx.listing.reward_per_token_stored, 0);
}

// ------------------------------------------------------------ claim_rental_income

fn claim_ctx(l: PropertyListing, position: InvestorPosition, vault: u64) -> ClaimRentalIncome {
    ClaimRentalIncome {
        investor: key(INVESTOR),
        listing: l,
        rental_vault: token_account(RENTAL_VAULT, LISTING, USDC_MINT, vault),
        investor_usdc_account: token_account(INVESTOR_USDC, INVESTOR, USDC_MINT, 0),
        investor_position: position,
    }
}

#[test]
fn claim_rental_income_pays_accrued_share_once() {
    let mut l = with_status(listing(), PropertyStatus::Active, 300);
    l.reward_per_token_stored = 3 * PRECISION;
    let mut position = held_position(100, 50, PRECISION);
    position.pending_rental_income = 5;
    let mut ctx = claim_ctx(l, position, 1_000);
    let event = claim_rental_income(&mut ctx).unwrap();
    assert_eq!(event.amount, 205);
    assert_eq!(event.investor, key(INVESTOR));
    assert_eq!(ctx.investor_position.pending_rental_income, 0);
    assert_eq!(ctx.investor_position.reward_per_token_paid, 3 * PRECISION);
    assert_eq!(claim_rental_income(&mut ctx).unwrap_err(), ErrorCode::NoPendingIncome);
}

#[test]
fn claim_rental_income_refusals() {
    let mut l = with_status(listing(), PropertyStatus::Active, 300);
    l.reward_per_token_stored = 3 * PRECISION;
    let mut ctx = claim_ctx(l, held_position(100, 50, 0), 299);
    assert_eq!(claim_rental_income(&mut ctx).unwrap_err(), ErrorCode::InvalidAmount);
    assert_eq!(ctx.investor_position.reward_per_token_paid, 0);

    let mut ctx = claim_ctx(with_status(listing(), PropertyStatus::Funded, 300), held_position(100, 50, 0), 1_000);
    assert_eq!(claim_rental_income(&mut ctx).unwrap_err(), ErrorCode::PropertyNotActive);

    let mut ctx = claim_ctx(with_status(listing(), PropertyStatus::Active, 300), held_position(0, 50, 0), 1_000);
    assert_eq!(claim_rental_income(&mut ctx).unwrap_err(), ErrorCode::NoPendingIncome);

    let mut ctx = claim_ctx(with_status(listing(), PropertyStatus::Active, 300), held_position(100, 50, 1), 1_000);
    assert_eq!(claim_rental_income(&mut ctx).unwrap_err(), ErrorCode::Underflow);

    let mut position = held_position(100, 50, 0);
    position.investor = key(STRANGER);
    let mut ctx = claim_ctx(with_status(listing(), PropertyStatus::Active, 300), position, 1_000);
    assert_eq!(claim_rental_income(&mut ctx).unwrap_err(), ErrorCode::Unauthorized);
}

#[test]
fn rental_income_is_not_over_distributed() {
    // three holders of one token each share a deposit of 100
    let mut fund = fund_ctx(with_status(listing(), PropertyStatus::Active, 3));
    fund_rental_vault(&mut fund, 100, 3000).unwrap();
    let mut paid_out = 0;
    for _ in 0..3 {
        let l = PropertyListing { name: fund.listing.name.clone(), symbol: fund.listing.symbol.clone(), uri: fund.listing.uri.clone(), ..fund.listing };
        let mut ctx = claim_ctx(l, held_position(1, 50, 0), 100);
        paid_out += claim_rental_income(&mut ctx).unwrap().amount;
    }
    assert_eq!(paid_out, 99);
    assert!(paid_out <= 100);
}

// ------------------------------------------------------------ redemption

fn request_ctx(l: PropertyListing, position: InvestorPosition) -> RequestRedemption {
    RequestRedemption { investor: key(INVESTOR), listing: l, investor_position: position }
}

fn approve_ctx(l: PropertyListing, position: InvestorPosition) -> ApproveRedemption {
    ApproveRedemption {
        authority: key(AUTHORITY),
        listing: l,
        investor: key(INVESTOR),
        investor_position: position,
        investor_property_token_account: token_account(INVESTOR_PROPERTY, INVESTOR, PROPERTY_MINT, 0),
        property_mint: key(PROPERTY_MINT),
    }
}

#[test]
fn request_redemption_once() {
    let mut ctx = request_ctx(with_status(listing(), PropertyStatus::Active, 300), held_position(150, 50, 0));
    let event = request_redemption(&mut ctx).unwrap();
    assert_eq!(event.tokens, 150);
    assert!(ctx.investor_position.redemption_requested);
    assert_eq!(request_redemption(&mut ctx).unwrap_err(), ErrorCode::RedemptionAlreadyRequested);
    let mut ctx = request_ctx(with_status(listing(), PropertyStatus::Completed, 300), held_position(150, 50, 0));
    assert!(request_redemption(&mut ctx).is_ok());
}

#[test]
fn request_redemption_refusals() {
    let mut ctx = request_ctx(with_status(listing(), PropertyStatus::Funded, 300), held_position(150, 50, 0));
    assert_eq!(request_redemption(&mut ctx).unwrap_err(), ErrorCode::PropertyNotActive);
    let mut ctx = request_ctx(with_status(listing(), PropertyStatus::Active, 300), held_position(99, 50, 0));
    assert_eq!(request_redemption(&mut ctx).unwrap_err(), ErrorCode::RedemptionThresholdNotMet);
    assert!(!ctx.investor_position.redemption_requested);
    let mut ctx = request_ctx(with_status(listing(), PropertyStatus::Active, 300), held_position(150, 50, 0));
    ctx.investor = key(STRANGER);
    assert_eq!(request_redemption(&mut ctx).unwrap_err(), ErrorCode::Unauthorized);
}

#[test]
fn approve_redemption_burns_position_once() {
    let mut position = held_position(150, 50, 7);
    position.redemption_requested = true;
    position.pending_rental_income = 3;
    let mut ctx = approve_ctx(with_status(listing(), PropertyStatus::Active, 300), position);
    let event = approve_redemption(&mut ctx, 4000).unwrap();
    assert_eq!(event.tokens_burned, 150);
    assert_eq!(event.investor, key(INVESTOR));
    assert_eq!(ctx.listing.tokens_sold, 150);
    assert_eq!(ctx.listing.last_update_time, 4000);
    let p = ctx.investor_position;
    assert_eq!((p.tokens_held, p.usdc_invested, p.pending_rental_income, p.reward_per_token_paid), (0, 0, 0, 0));
    assert!(!p.redemption_requested && p.redemption_approved);
    assert_eq!(approve_redemption(&mut ctx, 4100).unwrap_err(), ErrorCode::InvalidStatus);
}

#[test]
fn approve_redemption_refusals() {
    let mut ctx = approve_ctx(with_status(listing(), PropertyStatus::Active, 300), held_position(150, 50, 0));
    assert_eq!(approve_redemption(&mut ctx, 4000).unwrap_err(), ErrorCode::InvalidStatus);

    let mut position = held_position(150, 50, 0);
    position.redemption_requested = true;
    let mut ctx = approve_ctx(with_status(listing(), PropertyStatus::Active, 100), position);
    assert_eq!(approve_redemption(&mut ctx, 4000).unwrap_err(), ErrorCode::Underflow);

    let mut ctx = approve_ctx(with_status(listing(), PropertyStatus::Active, 300), position);
    ctx.listing.unit_threshold_tokens = 151;
    assert_eq!(approve_redemption(&mut ctx, 4000).unwrap_err(), ErrorCode::RedemptionThresholdNotMet);

    let mut ctx = approve_ctx(with_status(listing(), PropertyStatus::Active, 300), position);
    ctx.authority = key(STRANGER);
    assert_eq!(approve_redemption(&mut ctx, 4000).unwrap_err(), ErrorCode::Unauthorized);
    assert_eq!(ctx.investor_position.tokens_held, 150);
}

// ------------------------------------------------------------ cancel / refund

#[test]
fn cancel_listing_only_while_fundraising() {
    let mut ctx = CancelListing { authority: key(AUTHORITY), listing: listing() };
    let event = cancel_listing(&mut ctx, 1200).unwrap();
    assert_eq!(event.listing_id, 42);
    assert_eq!(ctx.listing.status, PropertyStatus::Cancelled);
    assert_eq!(ctx.listing.last_update_time, 1200);
    assert_eq!(cancel_listing(&mut ctx, 1300).unwrap_err(), ErrorCode::InvalidStatus);
    let mut ctx = CancelListing { authority: key(STRANGER), listing: listing() };
    assert_eq!(cancel_listing(&mut ctx, 1200).unwrap_err(), ErrorCode::Unauthorized);
    assert_eq!(ctx.listing.status, PropertyStatus::Fundraising);
}

fn refund_ctx(l: PropertyListing, position: InvestorPosition) -> ClaimRefund {
    ClaimRefund {
        investor: key(INVESTOR),
        listing: l,
        escrow_vault: key(ESCROW),
        investor_usdc_account: token_account(INVESTOR_USDC, INVESTOR, USDC_MINT, 0),
        investor_property_token_account: token_account(INVESTOR_PROPERTY, INVESTOR, PROPERTY_MINT, 100),
        property_mint: key(PROPERTY_MINT),
        investor_position: position,
    }
}

#[test]
fn refund_after_cancellation_pays_back_once() {
    let mut ctx = refund_ctx(with_status(listing(), PropertyStatus::Cancelled, 300), held_position(100, 50, 0));
    let settlement = claim_refund(&mut ctx, 1200).unwrap();
    assert_eq!(settlement.event.usdc_refunded, 5_000);
    assert_eq!(settlement.event.investor, key(INVESTOR));
    assert_eq!(settlement.tokens_to_burn, 100);
    assert_eq!(ctx.listing.tokens_sold, 200);
    assert_eq!(ctx.listing.last_update_time, 1200);
    assert_eq!(ctx.investor_position.usdc_invested, 0);
    assert_eq!(ctx.investor_position.tokens_held, 0);
    assert_eq!(claim_refund(&mut ctx, 1300).unwrap_err(), ErrorCode::InvalidAmount);
}

#[test]
fn refund_of_failed_raise_waits_for_deadline() {
    let mut ctx = refund_ctx(with_status(listing(), PropertyStatus::Fundraising, 300), held_position(100, 50, 0));
    assert_eq!(claim_refund(&mut ctx, 1999).unwrap_err(), ErrorCode::RaiseStillActive);
    assert_eq!(ctx.investor_position.usdc_invested, 5_000);
    assert_eq!(claim_refund(&mut ctx, 2000).unwrap().event.usdc_refunded, 5_000);
}

#[test]
fn refund_refusals() {
    let mut ctx = refund_ctx(with_status(listing(), PropertyStatus::Active, 300), held_position(100, 50, 0));
    assert_eq!(claim_refund(&mut ctx, 3000).unwrap_err(), ErrorCode::InvalidStatus);
    let mut ctx = refund_ctx(with_status(listing(), PropertyStatus::Cancelled, 50), held_position(100, 50, 0));
    assert_eq!(claim_refund(&mut ctx, 3000).unwrap_err(), ErrorCode::Underflow);
    let mut ctx = refund_ctx(with_status(listing(), PropertyStatus::Cancelled, 300), held_position(100, 50, 0));
    ctx.investor_property_token_account.mint = key(USDC_MINT);
    assert_eq!(claim_refund(&mut ctx, 3000).unwrap_err(), ErrorCode::Unauthorized);
}

// ------------------------------------------------------------ update_metadata_uri

#[test]
fn update_metadata_uri_replaces_valid_uri() {
    let mut ctx = UpdateMetadataUri { authority: key(AUTHORITY), listing: listing() };
    let event = update_metadata_uri(&mut ctx, "ipfs://newmetadata".to_string()).unwrap();
    assert_eq!(event.listing_id, 42);
    assert_eq!(event.new_uri, "ipfs://newmetadata");
    assert_eq!(ctx.listing.uri, "ipfs://newmetadata");
    assert_eq!(ctx.listing.last_update_time, 1000);
    assert_eq!(
        update_metadata_uri(&mut ctx, "ftp://example.com/x".to_string()).unwrap_err(),
        ErrorCode::InvalidUri
    );
    assert_eq!(ctx.listing.uri, "ipfs://newmetadata");
    let mut ctx = UpdateMetadataUri { authority: key(STRANGER), listing: listing() };
    assert_eq!(
        update_metadata_uri(&mut ctx, "https://example.com/x".to_string()).unwrap_err(),
        ErrorCode::Unauthorized
    );
}

// ------------------------------------------------------------ whole lifecycle

#[test]
fn lifecycle_from_listing_to_redemption() {
    let mut inv = invest_ctx(listing(), InvestorPosition::default());
    invest(&mut inv, 1000, 1500).unwrap();
    assert_eq!(inv.listing.status, PropertyStatus::Funded);
    let position = inv.investor_position;

    let mut rel = release_ctx(inv.listing, 50_000);
    assert_eq!(release_escrow(&mut rel, 2100).unwrap().amount, 50_000);

    let mut fund = fund_ctx(rel.listing);
    fund_rental_vault(&mut fund, 2_000, 2200).unwrap();

    let mut claim = claim_ctx(fund.listing, position, 2_000);
    assert_eq!(claim_rental_income(&mut claim).unwrap().amount, 2_000);

    let mut req = request_ctx(claim.listing, claim.investor_position);
    request_redemption(&mut req).unwrap();

    let mut approve = approve_ctx(req.listing, req.investor_position);
    assert_eq!(approve_redemption(&mut approve, 2300).unwrap().tokens_burned, 1000);
    assert_eq!(approve.listing.tokens_sold, 0);
    assert_eq!(approve.listing.status, PropertyStatus::Active);
}

// ------------------------------------------------------------ runs of several instructions

#[test]
fn refund_stays_paid_across_later_instructions() {
    let mut refund = refund_ctx(with_status(listing(), PropertyStatus::Cancelled, 300), held_position(100, 50, 0));
    claim_refund(&mut refund, 1200).unwrap();
    let mut req = request_ctx(refund.listing, refund.investor_position);
    assert_eq!(request_redemption(&mut req).unwrap_err(), ErrorCode::PropertyNotActive);
    let mut inv = invest_ctx(req.listing, req.investor_position);
    assert_eq!(invest(&mut inv, 100, 1300).unwrap_err(), ErrorCode::NotFundraising);
    let mut again = refund_ctx(inv.listing, inv.investor_position);
    assert_eq!(claim_refund(&mut again, 5000).unwrap_err(), ErrorCode::InvalidAmount);
}

#[test]
fn income_is_not_claimed_twice_without_deposit() {
    let mut l = with_status(listing(), PropertyStatus::Active, 300);
    l.reward_per_token_stored = 3 * PRECISION;
    let mut claim = claim_ctx(l, held_position(150, 50, PRECISION), 1_000);
    assert_eq!(claim_rental_income(&mut claim).unwrap().amount, 300);
    let mut req = request_ctx(claim.listing, claim.investor_position);
    request_redemption(&mut req).unwrap();
    let mut again = claim_ctx(req.listing, req.investor_position, 1_000);
    assert_eq!(claim_rental_income(&mut again).unwrap_err(), ErrorCode::NoPendingIncome);
    // a new deposit makes income claimable again
    let mut fund = fund_ctx(again.listing);
    fund_rental_vault(&mut fund, 300, 3000).unwrap();
    let mut after_deposit = claim_ctx(fund.listing, again.investor_position, 1_000);
    assert_eq!(claim_rental_income(&mut after_deposit).unwrap().amount, 150);
}

#[test]
fn escrow_is_released_once() {
    let mut rel = release_ctx(with_status(listing(), PropertyStatus::Funded, 1000), 50_000);
    release_escrow(&mut rel, 2100).unwrap();
    let mut cancel = CancelListing { authority: key(AUTHORITY), listing: rel.listing };
    assert_eq!(cancel_listing(&mut cancel, 2200).unwrap_err(), ErrorCode::InvalidStatus);
    let mut fund = fund_ctx(cancel.listing);
    fund_rental_vault(&mut fund, 1_000, 2300).unwrap();
    let mut again = release_ctx(fund.listing, 1_000);
    assert_eq!(release_escrow(&mut again, 2400).unwrap_err(), ErrorCode::RaiseTargetNotMet);
    assert_eq!(again.listing.status, PropertyStatus::Active);
}

#[test]
fn redemption_is_approved_once() {
    let mut l = with_status(listing(), PropertyStatus::Active, 300);
    l.unit_threshold_tokens = 0;
    let mut req = request_ctx(l, held_position(150, 50, 0));
    request_redemption(&mut req).unwrap();
    let mut approve = approve_ctx(req.listing, req.investor_position);
    approve_redemption(&mut approve, 4000).unwrap();
    // with a zero threshold the emptied position may ask again
    let mut req_again = request_ctx(approve.listing, approve.investor_position);
    request_redemption(&mut req_again).unwrap();
    let mut approve_again = approve_ctx(req_again.listing, req_again.investor_position);
    assert_eq!(approve_redemption(&mut approve_again, 4100).unwrap_err(), ErrorCode::InvalidStatus);
    assert!(approve_again.investor_position.redemption_approved);
}

#[test]
fn cancelled_listing_refunds_before_deadline() {
    let mut cancel = CancelListing { authority: key(AUTHORITY), listing: with_status(listing(), PropertyStatus::Fundraising, 300) };
    cancel_listing(&mut cancel, 1200).unwrap();
    let mut refund = refund_ctx(cancel.listing, held_position(100, 50, 0));
    let settlement = claim_refund(&mut refund, 1300).unwrap();
    assert!(1300 < refund.listing.raise_deadline);
    assert_eq!(settlement.event.usdc_refunded, 5_000);
}

#[test]
fn rental_income_stays_within_deposits_as_holders_leave() {
    // three holders of one token each; a deposit of 100, then one holder
    // redeems, then a second deposit of 100 over the two left
    let mut l = with_status(listing(), PropertyStatus::Active, 3);
    l.unit_threshold_tokens = 0;
    let mut fund = fund_ctx(l);
    fund_rental_vault(&mut fund, 100, 3000).unwrap();
    let mut paid_out = 0;
    let mut listing_now = fund.listing;
    let mut positions = Vec::new();
    for _ in 0..3 {
        let mut ctx = claim_ctx(listing_now, held_position(1, 50, 0), 1_000);
        paid_out += claim_rental_income(&mut ctx).unwrap().amount;
        listing_now = ctx.listing;
        positions.push(ctx.investor_position);
    }
    let mut leaving = positions.pop().unwrap();
    leaving.redemption_requested = true;
    let mut approve = approve_ctx(listing_now, leaving);
    approve_redemption(&mut approve, 3100).unwrap();
    assert_eq!(approve.listing.tokens_sold, 2);
    let mut fund = fund_ctx(approve.listing);
    fund_rental_vault(&mut fund, 100, 3200).unwrap();
    listing_now = fund.listing;
    for p in positions {
        let mut ctx = claim_ctx(listing_now, p, 1_000);
        paid_out += claim_rental_income(&mut ctx).unwrap().amount;
        listing_now = ctx.listing;
    }
    assert_eq!(paid_out, 33 * 3 + 50 * 2);
    assert!(paid_out <= 200);
}
