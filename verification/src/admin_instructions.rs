use vstd::prelude::*;

use crate::constants::MAX_RENTAL_YIELD_BPS;
use crate::contexts::{
    ApproveRedemption, CancelListing, CreateListing, FundRentalVault, ReleaseEscrow, UpdateMetadataUri,
};
use crate::errors::ErrorCode;
use crate::steps::{listing_effect, system_step};
use crate::events::{
    EscrowReleasedEvent, ListingCancelledEvent, ListingCreatedEvent, MetadataUpdatedEvent,
    RedemptionApprovedEvent, RentalVaultFundedEvent,
};
use crate::math::{calculate_reward_delta, checked_mul_u64, reward_delta};
use crate::state::{
    cleared_position, listing_after_burn, PropertyListing, PropertyStatus,
};
use crate::validation::{
    name_is_valid, symbol_is_valid, uri_is_valid, validate_name, validate_symbol, validate_uri,
};

verus! {

// ---------------------------------------------------------------- create_listing

/// The error with which `create_listing` refuses, checked in this order;
/// `None` when it succeeds. Text fields are taken by their UTF-8 bytes.
pub open spec fn create_listing_failure(
    name: Seq<u8>,
    symbol: Seq<u8>,
    uri: Seq<u8>,
    total_tokens: u64,
    token_price_usdc: u64,
    min_investment_tokens: u64,
    raise_target: u64,
    raise_deadline: i64,
    unit_threshold_tokens: u64,
    rental_yield_bps: u16,
    now: i64,
) -> Option<ErrorCode> {
    if total_tokens * token_price_usdc > u64::MAX {
        Some(ErrorCode::Overflow)
    } else if raise_target != total_tokens * token_price_usdc || total_tokens == 0 || raise_target == 0
        || token_price_usdc == 0 || min_investment_tokens == 0 || min_investment_tokens > total_tokens
        || unit_threshold_tokens > total_tokens {
        Some(ErrorCode::InvalidAmount)
    } else if raise_deadline <= now {
        Some(ErrorCode::InvalidTimestamp)
    } else if !name_is_valid(name) {
        Some(ErrorCode::NameTooLong)
    } else if !symbol_is_valid(symbol) {
        Some(ErrorCode::SymbolTooLong)
    } else if !uri_is_valid(uri) {
        Some(ErrorCode::InvalidUri)
    } else if rental_yield_bps > MAX_RENTAL_YIELD_BPS {
        Some(ErrorCode::InvalidAmount)
    } else {
        None
    }
}

/// Opens a fundraising listing. On success the returned listing records the
/// sponsor, the accounts that `ctx` names and the given terms, has sold
/// nothing, raised nothing and accrued no rental income, and is visible.
pub fn create_listing(
    ctx: &CreateListing,
    listing_id: u64,
    name: String,
    symbol: String,
    uri: String,
    total_tokens: u64,
    token_price_usdc: u64,
    min_investment_tokens: u64,
    raise_target: u64,
    raise_deadline: i64,
    unit_threshold_tokens: u64,
    rental_yield_bps: u16,
    is_off_plan: bool,
    show_exact_amounts: bool,
    now: i64,
) -> (r: Result<(PropertyListing, ListingCreatedEvent), ErrorCode>)
    ensures
        create_listing_failure(
            vstd::utf8::encode_utf8(name@),
            vstd::utf8::encode_utf8(symbol@),
            vstd::utf8::encode_utf8(uri@),
            total_tokens,
            token_price_usdc,
            min_investment_tokens,
            raise_target,
            raise_deadline,
            unit_threshold_tokens,
            rental_yield_bps,
            now,
        ) matches Some(e) ==> r == Err::<(PropertyListing, ListingCreatedEvent), ErrorCode>(e),
        create_listing_failure(
            vstd::utf8::encode_utf8(name@),
            vstd::utf8::encode_utf8(symbol@),
            vstd::utf8::encode_utf8(uri@),
            total_tokens,
            token_price_usdc,
            min_investment_tokens,
            raise_target,
            raise_deadline,
            unit_threshold_tokens,
            rental_yield_bps,
            now,
        ) is None ==> (r matches Ok((listing, event)) && {
            &&& listing == (PropertyListing {
                authority: ctx.authority,
                listing_id,
                name,
                symbol,
                uri,
                property_mint: ctx.property_mint,
                escrow_vault: ctx.escrow_vault,
                rental_vault: ctx.rental_vault,
                usdc_mint: ctx.usdc_mint,
                total_tokens,
                tokens_sold: 0,
                total_raised: 0,
                token_price_usdc,
                min_investment_tokens,
                raise_target,
                raise_deadline,
                unit_threshold_tokens,
                rental_yield_bps,
                is_off_plan,
                show_exact_amounts,
                status: PropertyStatus::Fundraising,
                is_visible: true,
                reward_per_token_stored: 0,
                last_update_time: now,
                bump: ctx.listing_bump,
            })
            &&& event == (ListingCreatedEvent { listing_id, authority: ctx.authority, name, raise_target })
        }),
        r matches Ok((listing, _)) ==> listing.wf(),
{
    let expected_raise = match checked_mul_u64(total_tokens, token_price_usdc) {
        Ok(v) => v,
        Err(e) => return Err(e),
    };
    if !(raise_target == expected_raise && total_tokens > 0 && raise_target > 0 && token_price_usdc > 0
        && min_investment_tokens > 0 && min_investment_tokens <= total_tokens
        && unit_threshold_tokens <= total_tokens) {
        return Err(ErrorCode::InvalidAmount);
    }
    if !(raise_deadline > now) {
        return Err(ErrorCode::InvalidTimestamp);
    }
    match validate_name(name.as_str()) {
        Ok(()) => {},
        Err(e) => return Err(e),
    }
    match validate_symbol(symbol.as_str()) {
        Ok(()) => {},
        Err(e) => return Err(e),
    }
    match validate_uri(uri.as_str()) {
        Ok(()) => {},
        Err(e) => return Err(e),
    }
    if rental_yield_bps > MAX_RENTAL_YIELD_BPS {
        return Err(ErrorCode::InvalidAmount);
    }

    let event = ListingCreatedEvent {
        listing_id,
        authority: ctx.authority,
        name: name.clone(),
        raise_target,
    };
    let listing = PropertyListing {
        authority: ctx.authority,
        listing_id,
        name,
        symbol,
        uri,
        property_mint: ctx.property_mint,
        escrow_vault: ctx.escrow_vault,
        rental_vault: ctx.rental_vault,
        usdc_mint: ctx.usdc_mint,
        total_tokens,
        tokens_sold: 0,
        total_raised: 0,
        token_price_usdc,
        min_investment_tokens,
        raise_target,
        raise_deadline,
        unit_threshold_tokens,
        rental_yield_bps,
        is_off_plan,
        show_exact_amounts,
        status: PropertyStatus::Fundraising,
        is_visible: true,
        reward_per_token_stored: 0,
        last_update_time: now,
        bump: ctx.listing_bump,
    };
    Ok((listing, event))
}

// ---------------------------------------------------------------- release_escrow

/// The accounts of an escrow release belong together: the signer is the
/// listing's sponsor, the escrow vault is the listing's, and the receiving
/// account is the sponsor's and of the listing's USDC mint.
pub open spec fn release_escrow_accounts_valid(ctx: ReleaseEscrow) -> bool {
    &&& ctx.listing.authority == ctx.authority
    &&& ctx.escrow_vault.key == ctx.listing.escrow_vault
    &&& ctx.authority_usdc_account.owner == ctx.authority
    &&& ctx.authority_usdc_account.mint == ctx.listing.usdc_mint
}

/// The error with which `release_escrow` refuses, checked in this order;
/// `None` when it succeeds.
pub open spec fn release_escrow_failure(ctx: ReleaseEscrow) -> Option<ErrorCode> {
    if !release_escrow_accounts_valid(ctx) {
        Some(ErrorCode::Unauthorized)
    } else if ctx.listing.status != PropertyStatus::Funded {
        Some(ErrorCode::RaiseTargetNotMet)
    } else if ctx.escrow_vault.amount == 0 {
        Some(ErrorCode::InvalidAmount)
    } else {
        None
    }
}

/// Hands a funded listing's escrow to its sponsor and makes the listing
/// active. On success the returned event names the whole escrow balance,
/// to move from the escrow vault to the sponsor.
pub fn release_escrow(ctx: &mut ReleaseEscrow, now: i64) -> (r: Result<EscrowReleasedEvent, ErrorCode>)
    ensures
        release_escrow_failure(*old(ctx)) matches Some(e) ==> r == Err::<EscrowReleasedEvent, ErrorCode>(e)
            && *final(ctx) == *old(ctx),
        release_escrow_failure(*old(ctx)) is None ==> {
            &&& r == Ok::<EscrowReleasedEvent, ErrorCode>(EscrowReleasedEvent {
                listing_id: old(ctx).listing.listing_id,
                amount: old(ctx).escrow_vault.amount,
            })
            &&& *final(ctx) == (ReleaseEscrow {
                listing: PropertyListing {
                    status: PropertyStatus::Active,
                    last_update_time: now,
                    ..old(ctx).listing
                },
                ..*old(ctx)
            })
        },
        listing_effect(old(ctx).listing, now, final(ctx).listing),
        old(ctx).listing.wf() ==> final(ctx).listing.wf(),
{
    if !(ctx.listing.authority == ctx.authority && ctx.escrow_vault.key == ctx.listing.escrow_vault
        && ctx.authority_usdc_account.owner == ctx.authority
        && ctx.authority_usdc_account.mint == ctx.listing.usdc_mint) {
        return Err(ErrorCode::Unauthorized);
    }
    if ctx.listing.status != PropertyStatus::Funded {
        return Err(ErrorCode::RaiseTargetNotMet);
    }
    let amount = ctx.escrow_vault.amount;
    if amount == 0 {
        return Err(ErrorCode::InvalidAmount);
    }
    ctx.listing.status = PropertyStatus::Active;
    ctx.listing.last_update_time = now;
    Ok(EscrowReleasedEvent { listing_id: ctx.listing.listing_id, amount })
}

// ---------------------------------------------------------------- fund_rental_vault

/// The accounts of a rental deposit belong together: the signer is the
/// listing's sponsor, paying from its own account of the listing's USDC
/// mint into the listing's rental vault.
pub open spec fn fund_rental_vault_accounts_valid(ctx: FundRentalVault) -> bool {
    &&& ctx.listing.authority == ctx.authority
    &&& ctx.authority_usdc_account.owner == ctx.authority
    &&& ctx.authority_usdc_account.mint == ctx.listing.usdc_mint
    &&& ctx.rental_vault == ctx.listing.rental_vault
}

/// The error with which `fund_rental_vault` refuses, checked in this order;
/// `None` when it succeeds.
pub open spec fn fund_rental_vault_failure(ctx: FundRentalVault, amount: u64) -> Option<ErrorCode> {
    let l = ctx.listing;
    if !fund_rental_vault_accounts_valid(ctx) {
        Some(ErrorCode::Unauthorized)
    } else if l.status != PropertyStatus::Active {
        Some(ErrorCode::PropertyNotActive)
    } else if amount == 0 {
        Some(ErrorCode::InvalidAmount)
    } else if l.tokens_sold == 0 {
        Some(ErrorCode::InvalidAmount)
    } else if l.reward_per_token_stored + reward_delta(amount as int, l.tokens_sold as int) > u128::MAX {
        Some(ErrorCode::Overflow)
    } else {
        None
    }
}

/// Deposits `amount` of rental income for the holders of an active listing.
/// On success the listing's reward-per-token accumulator grows by `amount`
/// spread over the tokens in circulation, and the returned event names the
/// USDC to move from the sponsor into the rental vault.
pub fn fund_rental_vault(ctx: &mut FundRentalVault, amount: u64, now: i64) -> (r: Result<RentalVaultFundedEvent, ErrorCode>)
    ensures
        fund_rental_vault_failure(*old(ctx), amount) matches Some(e) ==> r == Err::<RentalVaultFundedEvent, ErrorCode>(e)
            && *final(ctx) == *old(ctx),
        fund_rental_vault_failure(*old(ctx), amount) is None ==> {
            let stored = (old(ctx).listing.reward_per_token_stored + reward_delta(
                amount as int,
                old(ctx).listing.tokens_sold as int,
            )) as u128;
            &&& r == Ok::<RentalVaultFundedEvent, ErrorCode>(RentalVaultFundedEvent {
                listing_id: old(ctx).listing.listing_id,
                amount,
                new_reward_accumulator: stored,
            })
            &&& *final(ctx) == (FundRentalVault {
                listing: PropertyListing {
                    reward_per_token_stored: stored,
                    last_update_time: now,
                    ..old(ctx).listing
                },
                ..*old(ctx)
            })
        },
        listing_effect(old(ctx).listing, now, final(ctx).listing),
        old(ctx).listing.wf() ==> final(ctx).listing.wf(),
{
    if !(ctx.listing.authority == ctx.authority && ctx.authority_usdc_account.owner == ctx.authority
        && ctx.authority_usdc_account.mint == ctx.listing.usdc_mint
        && ctx.rental_vault == ctx.listing.rental_vault) {
        return Err(ErrorCode::Unauthorized);
    }
    if ctx.listing.status != PropertyStatus::Active {
        return Err(ErrorCode::PropertyNotActive);
    }
    if amount == 0 {
        return Err(ErrorCode::InvalidAmount);
    }
    let delta = match calculate_reward_delta(amount, ctx.listing.tokens_sold) {
        Ok(d) => d,
        Err(e) => return Err(e),
    };
    let stored = match ctx.listing.reward_per_token_stored.checked_add(delta) {
        Some(s) => s,
        None => return Err(ErrorCode::Overflow),
    };
    ctx.listing.reward_per_token_stored = stored;
    ctx.listing.last_update_time = now;
    Ok(RentalVaultFundedEvent {
        listing_id: ctx.listing.listing_id,
        amount,
        new_reward_accumulator: stored,
    })
}

// ---------------------------------------------------------------- approve_redemption

/// The accounts of a redemption approval belong together: the signer is the
/// listing's sponsor, the position is the investor's, and the token account
/// is the investor's and of the listing's property mint.
pub open spec fn approve_redemption_accounts_valid(ctx: ApproveRedemption) -> bool {
    &&& ctx.listing.authority == ctx.authority
    &&& ctx.investor_position.investor == ctx.investor
    &&& ctx.investor_property_token_account.owner == ctx.investor
    &&& ctx.investor_property_token_account.mint == ctx.listing.property_mint
    &&& ctx.property_mint == ctx.listing.property_mint
}

/// The error with which `approve_redemption` refuses, checked in this order;
/// `None` when it succeeds.
pub open spec fn approve_redemption_failure(ctx: ApproveRedemption) -> Option<ErrorCode> {
    let l = ctx.listing;
    let p = ctx.investor_position;
    if !approve_redemption_accounts_valid(ctx) {
        Some(ErrorCode::Unauthorized)
    } else if !p.redemption_requested {
        Some(ErrorCode::InvalidStatus)
    } else if p.redemption_approved {
        Some(ErrorCode::InvalidStatus)
    } else if p.tokens_held < l.unit_threshold_tokens {
        Some(ErrorCode::RedemptionThresholdNotMet)
    } else if l.tokens_sold < p.tokens_held {
        Some(ErrorCode::Underflow)
    } else {
        None
    }
}

/// Approves a requested redemption. On success the returned event names
/// the investor's whole holding, to be burned, the listing's sold tokens
/// shrink by it, and the position is cleared and marked approved.
pub fn approve_redemption(ctx: &mut ApproveRedemption, now: i64) -> (r: Result<RedemptionApprovedEvent, ErrorCode>)
    ensures
        approve_redemption_failure(*old(ctx)) matches Some(e) ==> r == Err::<RedemptionApprovedEvent, ErrorCode>(e)
            && *final(ctx) == *old(ctx),
        approve_redemption_failure(*old(ctx)) is None ==> {
            &&& r == Ok::<RedemptionApprovedEvent, ErrorCode>(RedemptionApprovedEvent {
                listing_id: old(ctx).listing.listing_id,
                investor: old(ctx).investor,
                tokens_burned: old(ctx).investor_position.tokens_held,
            })
            &&& *final(ctx) == (ApproveRedemption {
                listing: listing_after_burn(old(ctx).listing, old(ctx).investor_position.tokens_held, now),
                investor_position: cleared_position(old(ctx).investor_position, true),
                ..*old(ctx)
            })
        },
        system_step(old(ctx).listing, old(ctx).investor_position, now, final(ctx).listing, final(ctx).investor_position),
        old(ctx).listing.wf() ==> final(ctx).listing.wf(),
        old(ctx).investor_position.consistent_with(&old(ctx).listing)
            ==> final(ctx).investor_position.consistent_with(&final(ctx).listing),
        r is Ok ==> final(ctx).listing.tokens_sold - old(ctx).listing.tokens_sold
            == final(ctx).investor_position.tokens_held - old(ctx).investor_position.tokens_held,
{
    if !(ctx.listing.authority == ctx.authority && ctx.investor_position.investor == ctx.investor
        && ctx.investor_property_token_account.owner == ctx.investor
        && ctx.investor_property_token_account.mint == ctx.listing.property_mint
        && ctx.property_mint == ctx.listing.property_mint) {
        return Err(ErrorCode::Unauthorized);
    }
    if !ctx.investor_position.redemption_requested {
        return Err(ErrorCode::InvalidStatus);
    }
    if ctx.investor_position.redemption_approved {
        return Err(ErrorCode::InvalidStatus);
    }
    if ctx.investor_position.tokens_held < ctx.listing.unit_threshold_tokens {
        return Err(ErrorCode::RedemptionThresholdNotMet);
    }
    let tokens_to_burn = ctx.investor_position.tokens_held;
    let sold_after = match ctx.listing.tokens_sold.checked_sub(tokens_to_burn) {
        Some(v) => v,
        None => return Err(ErrorCode::Underflow),
    };
    ctx.listing.tokens_sold = sold_after;
    ctx.listing.last_update_time = now;

    ctx.investor_position.tokens_held = 0;
    ctx.investor_position.usdc_invested = 0;
    ctx.investor_position.pending_rental_income = 0;
    ctx.investor_position.reward_per_token_paid = 0;
    ctx.investor_position.redemption_requested = false;
    ctx.investor_position.redemption_approved = true;

    Ok(RedemptionApprovedEvent {
        listing_id: ctx.listing.listing_id,
        investor: ctx.investor,
        tokens_burned: tokens_to_burn,
    })
}

// ---------------------------------------------------------------- cancel_listing

/// The error with which `cancel_listing` refuses, checked in this order;
/// `None` when it succeeds.
pub open spec fn cancel_listing_failure(ctx: CancelListing) -> Option<ErrorCode> {
    if ctx.listing.authority != ctx.authority {
        Some(ErrorCode::Unauthorized)
    } else if ctx.listing.status != PropertyStatus::Fundraising {
        Some(ErrorCode::InvalidStatus)
    } else {
        None
    }
}

/// Cancels a listing that is still fundraising, which opens refunds.
pub fn cancel_listing(ctx: &mut CancelListing, now: i64) -> (r: Result<ListingCancelledEvent, ErrorCode>)
    ensures
        cancel_listing_failure(*old(ctx)) matches Some(e) ==> r == Err::<ListingCancelledEvent, ErrorCode>(e)
            && *final(ctx) == *old(ctx),
        cancel_listing_failure(*old(ctx)) is None ==> {
            &&& r == Ok::<ListingCancelledEvent, ErrorCode>(ListingCancelledEvent {
                listing_id: old(ctx).listing.listing_id,
            })
            &&& *final(ctx) == (CancelListing {
                listing: PropertyListing {
                    status: PropertyStatus::Cancelled,
                    last_update_time: now,
                    ..old(ctx).listing
                },
                ..*old(ctx)
            })
        },
        listing_effect(old(ctx).listing, now, final(ctx).listing),
        old(ctx).listing.wf() ==> final(ctx).listing.wf(),
{
    if ctx.listing.authority != ctx.authority {
        return Err(ErrorCode::Unauthorized);
    }
    if ctx.listing.status != PropertyStatus::Fundraising {
        return Err(ErrorCode::InvalidStatus);
    }
    ctx.listing.status = PropertyStatus::Cancelled;
    ctx.listing.last_update_time = now;
    Ok(ListingCancelledEvent { listing_id: ctx.listing.listing_id })
}

// ---------------------------------------------------------------- update_metadata_uri

/// The error with which `update_metadata_uri` refuses, checked in this
/// order; `None` when it succeeds.
pub open spec fn update_metadata_uri_failure(ctx: UpdateMetadataUri, new_uri: Seq<u8>) -> Option<ErrorCode> {
    if ctx.listing.authority != ctx.authority {
        Some(ErrorCode::Unauthorized)
    } else if !uri_is_valid(new_uri) {
        Some(ErrorCode::InvalidUri)
    } else {
        None
    }
}

/// Points a listing's metadata at `new_uri`, which must be a valid URI.
pub fn update_metadata_uri(ctx: &mut UpdateMetadataUri, new_uri: String) -> (r: Result<MetadataUpdatedEvent, ErrorCode>)
    ensures
        update_metadata_uri_failure(*old(ctx), vstd::utf8::encode_utf8(new_uri@)) matches Some(e)
            ==> r == Err::<MetadataUpdatedEvent, ErrorCode>(e) && *final(ctx) == *old(ctx),
        update_metadata_uri_failure(*old(ctx), vstd::utf8::encode_utf8(new_uri@)) is None ==> {
            &&& r matches Ok(event) && event == (MetadataUpdatedEvent {
                listing_id: old(ctx).listing.listing_id,
                new_uri,
            })
            &&& *final(ctx) == (UpdateMetadataUri {
                listing: PropertyListing { uri: new_uri, ..old(ctx).listing },
                ..*old(ctx)
            })
        },
        forall|now: i64| #[trigger] listing_effect(old(ctx).listing, now, final(ctx).listing),
        old(ctx).listing.wf() ==> final(ctx).listing.wf(),
{
    if ctx.listing.authority != ctx.authority {
        return Err(ErrorCode::Unauthorized);
    }
    match validate_uri(new_uri.as_str()) {
        Ok(()) => {},
        Err(e) => return Err(e),
    }
    let event_uri = new_uri.clone();
    ctx.listing.uri = new_uri;
    Ok(MetadataUpdatedEvent { listing_id: ctx.listing.listing_id, new_uri: event_uri })
}

} // verus!
