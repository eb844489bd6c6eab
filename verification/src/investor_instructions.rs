use vstd::prelude::*;

use crate::contexts::{ClaimRefund, ClaimRentalIncome, Invest, RequestRedemption};
use crate::errors::ErrorCode;
use crate::steps::system_step;
use crate::events::{
    InvestmentMadeEvent, RedemptionRequestedEvent, RefundClaimedEvent, RentalIncomeClaimedEvent,
};
use crate::math::{checked_mul_u64, settle_income, spec_settle_income};
use crate::state::{
    cleared_position, listing_after_burn, InvestorPosition, PropertyListing, PropertyStatus,
};

verus! {

// ---------------------------------------------------------------- invest

/// The accounts of an investment belong together: the investor pays from
/// its own USDC account of the listing's USDC mint, into the listing's
/// escrow vault, for the listing's property mint.
pub open spec fn invest_accounts_valid(ctx: Invest) -> bool {
    &&& ctx.listing.usdc_mint == ctx.usdc_mint
    &&& ctx.investor_usdc_account.owner == ctx.investor
    &&& ctx.investor_usdc_account.mint == ctx.usdc_mint
    &&& ctx.escrow_vault == ctx.listing.escrow_vault
    &&& ctx.property_mint == ctx.listing.property_mint
}

/// The USDC price of `token_amount` tokens of the listing.
pub open spec fn invest_cost(ctx: Invest, token_amount: u64) -> int {
    token_amount * ctx.listing.token_price_usdc
}

/// The position's pending income once its existing holding is settled
/// against the listing's accumulator; an empty holding settles to what was
/// already pending.
pub open spec fn invest_settled_income(ctx: Invest) -> Result<u64, ErrorCode> {
    let p = ctx.investor_position;
    if p.tokens_held > 0 {
        spec_settle_income(
            p.tokens_held,
            p.reward_per_token_paid,
            p.pending_rental_income,
            ctx.listing.reward_per_token_stored,
        )
    } else {
        Ok(p.pending_rental_income)
    }
}

/// The error with which `invest` refuses, checked in this order; `None`
/// when it succeeds.
pub open spec fn invest_failure(ctx: Invest, token_amount: u64, now: i64) -> Option<ErrorCode> {
    let l = ctx.listing;
    let p = ctx.investor_position;
    let cost = invest_cost(ctx, token_amount);
    if !invest_accounts_valid(ctx) {
        Some(ErrorCode::Unauthorized)
    } else if !l.is_visible {
        Some(ErrorCode::ListingNotVisible)
    } else if l.status != PropertyStatus::Fundraising {
        Some(ErrorCode::NotFundraising)
    } else if now >= l.raise_deadline {
        Some(ErrorCode::RaiseClosed)
    } else if token_amount < l.min_investment_tokens {
        Some(ErrorCode::BelowMinimum)
    } else if l.tokens_sold + token_amount > u64::MAX {
        Some(ErrorCode::Overflow)
    } else if l.tokens_sold + token_amount > l.total_tokens {
        Some(ErrorCode::InsufficientTokens)
    } else if cost > u64::MAX {
        Some(ErrorCode::Overflow)
    } else if invest_settled_income(ctx) is Err {
        match invest_settled_income(ctx) {
            Err(e) => Some(e),
            Ok(_) => None,
        }
    } else if p.tokens_held + token_amount > u64::MAX || p.usdc_invested + cost > u64::MAX
        || l.total_raised + cost > u64::MAX {
        Some(ErrorCode::Overflow)
    } else {
        None
    }
}

/// The listing after a successful investment: the tokens are sold, the
/// cost is raised, and the listing is funded once the raise reaches its
/// target.
pub open spec fn invested_listing(ctx: Invest, token_amount: u64, now: i64) -> PropertyListing {
    let l = ctx.listing;
    let raised = l.total_raised + invest_cost(ctx, token_amount);
    PropertyListing {
        tokens_sold: (l.tokens_sold + token_amount) as u64,
        total_raised: raised as u64,
        last_update_time: now,
        status: if raised >= l.raise_target {
            PropertyStatus::Funded
        } else {
            l.status
        },
        ..l
    }
}

/// The position after a successful investment: it holds the new tokens,
/// has paid their cost, and its reward checkpoint is the listing's
/// accumulator, the income accrued before being kept as pending.
pub open spec fn invested_position(ctx: Invest, token_amount: u64) -> InvestorPosition {
    let p = ctx.investor_position;
    InvestorPosition {
        investor: ctx.investor,
        listing: ctx.listing_key,
        tokens_held: (p.tokens_held + token_amount) as u64,
        usdc_invested: (p.usdc_invested + invest_cost(ctx, token_amount)) as u64,
        reward_per_token_paid: ctx.listing.reward_per_token_stored,
        pending_rental_income: match invest_settled_income(ctx) {
            Ok(v) => v,
            Err(_) => p.pending_rental_income,
        },
        bump: ctx.investor_position_bump,
        ..p
    }
}

/// Buys `token_amount` tokens of a fundraising listing at the listing's
/// price. On success the returned event names the USDC to move from the
/// investor into escrow and the tokens to mint to the investor.
pub fn invest(ctx: &mut Invest, token_amount: u64, now: i64) -> (r: Result<InvestmentMadeEvent, ErrorCode>)
    ensures
        invest_failure(*old(ctx), token_amount, now) matches Some(e) ==> r == Err::<InvestmentMadeEvent, ErrorCode>(e)
            && *final(ctx) == *old(ctx),
        invest_failure(*old(ctx), token_amount, now) is None ==> {
            &&& r == Ok::<InvestmentMadeEvent, ErrorCode>(InvestmentMadeEvent {
                listing_id: old(ctx).listing.listing_id,
                investor: old(ctx).investor,
                tokens_bought: token_amount,
                usdc_invested: invest_cost(*old(ctx), token_amount) as u64,
            })
            &&& *final(ctx) == (Invest {
                listing: invested_listing(*old(ctx), token_amount, now),
                investor_position: invested_position(*old(ctx), token_amount),
                ..*old(ctx)
            })
        },
        system_step(old(ctx).listing, old(ctx).investor_position, now, final(ctx).listing, final(ctx).investor_position),
        old(ctx).listing.wf() ==> final(ctx).listing.wf(),
        old(ctx).investor_position.consistent_with(&old(ctx).listing)
            ==> final(ctx).investor_position.consistent_with(&final(ctx).listing),
        r is Ok ==> final(ctx).listing.tokens_sold - old(ctx).listing.tokens_sold
            == final(ctx).investor_position.tokens_held - old(ctx).investor_position.tokens_held,
        r matches Ok(event) ==> {
            &&& final(ctx).listing.total_raised - old(ctx).listing.total_raised == event.usdc_invested
            &&& final(ctx).investor_position.usdc_invested - old(ctx).investor_position.usdc_invested
                == event.usdc_invested
            &&& event.usdc_invested == event.tokens_bought * old(ctx).listing.token_price_usdc
            &&& (final(ctx).listing.status == PropertyStatus::Funded <==> final(ctx).listing.total_raised
                >= final(ctx).listing.raise_target)
        },
{
    if !(ctx.listing.usdc_mint == ctx.usdc_mint && ctx.investor_usdc_account.owner == ctx.investor
        && ctx.investor_usdc_account.mint == ctx.usdc_mint && ctx.escrow_vault == ctx.listing.escrow_vault
        && ctx.property_mint == ctx.listing.property_mint) {
        return Err(ErrorCode::Unauthorized);
    }
    if !ctx.listing.is_visible {
        return Err(ErrorCode::ListingNotVisible);
    }
    if ctx.listing.status != PropertyStatus::Fundraising {
        return Err(ErrorCode::NotFundraising);
    }
    if now >= ctx.listing.raise_deadline {
        return Err(ErrorCode::RaiseClosed);
    }
    if token_amount < ctx.listing.min_investment_tokens {
        return Err(ErrorCode::BelowMinimum);
    }
    let sold_after = match ctx.listing.tokens_sold.checked_add(token_amount) {
        Some(v) => v,
        None => return Err(ErrorCode::Overflow),
    };
    if sold_after > ctx.listing.total_tokens {
        return Err(ErrorCode::InsufficientTokens);
    }
    let usdc_cost = match checked_mul_u64(token_amount, ctx.listing.token_price_usdc) {
        Ok(c) => c,
        Err(e) => return Err(e),
    };
    let pending = if ctx.investor_position.tokens_held > 0 {
        match settle_income(
            ctx.investor_position.tokens_held,
            ctx.investor_position.reward_per_token_paid,
            ctx.investor_position.pending_rental_income,
            ctx.listing.reward_per_token_stored,
        ) {
            Ok(v) => v,
            Err(e) => return Err(e),
        }
    } else {
        ctx.investor_position.pending_rental_income
    };
    let held_after = match ctx.investor_position.tokens_held.checked_add(token_amount) {
        Some(v) => v,
        None => return Err(ErrorCode::Overflow),
    };
    let invested_after = match ctx.investor_position.usdc_invested.checked_add(usdc_cost) {
        Some(v) => v,
        None => return Err(ErrorCode::Overflow),
    };
    let raised_after = match ctx.listing.total_raised.checked_add(usdc_cost) {
        Some(v) => v,
        None => return Err(ErrorCode::Overflow),
    };

    proof {
        vstd::arithmetic::mul::lemma_mul_is_distributive_add_other_way(
            ctx.listing.token_price_usdc as int,
            ctx.investor_position.tokens_held as int,
            token_amount as int,
        );
    }
    ctx.investor_position.pending_rental_income = pending;
    ctx.investor_position.reward_per_token_paid = ctx.listing.reward_per_token_stored;
    ctx.investor_position.investor = ctx.investor;
    ctx.investor_position.listing = ctx.listing_key;
    ctx.investor_position.tokens_held = held_after;
    ctx.investor_position.usdc_invested = invested_after;
    ctx.investor_position.bump = ctx.investor_position_bump;

    ctx.listing.tokens_sold = sold_after;
    ctx.listing.total_raised = raised_after;
    ctx.listing.last_update_time = now;
    if raised_after >= ctx.listing.raise_target {
        ctx.listing.status = PropertyStatus::Funded;
    }

    Ok(InvestmentMadeEvent {
        listing_id: ctx.listing.listing_id,
        investor: ctx.investor,
        tokens_bought: token_amount,
        usdc_invested: usdc_cost,
    })
}

// ---------------------------------------------------------------- claim_refund

/// What a successful refund settles: the USDC returned from escrow, named
/// in the event, and the investor's tokens to burn.
#[derive(Clone, Copy, Debug, PartialEq, Eq, Structural)]
pub struct RefundSettlement {
    pub event: RefundClaimedEvent,
    pub tokens_to_burn: u64,
}

/// The accounts of a refund belong together: the escrow vault is the
/// listing's, both token accounts are the investor's and of the listing's
/// mints, and the position is the investor's.
pub open spec fn claim_refund_accounts_valid(ctx: ClaimRefund) -> bool {
    &&& ctx.escrow_vault == ctx.listing.escrow_vault
    &&& ctx.investor_usdc_account.owner == ctx.investor
    &&& ctx.investor_usdc_account.mint == ctx.listing.usdc_mint
    &&& ctx.investor_property_token_account.owner == ctx.investor
    &&& ctx.investor_property_token_account.mint == ctx.listing.property_mint
    &&& ctx.property_mint == ctx.listing.property_mint
    &&& ctx.investor_position.investor == ctx.investor
}

/// A refund is open on a cancelled listing, and on a fundraising listing
/// once its deadline has passed.
pub open spec fn refund_window_open(listing: PropertyListing, now: i64) -> bool {
    listing.status == PropertyStatus::Cancelled || (listing.status == PropertyStatus::Fundraising
        && now >= listing.raise_deadline)
}

/// The error with which `claim_refund` refuses, checked in this order;
/// `None` when it succeeds.
pub open spec fn claim_refund_failure(ctx: ClaimRefund, now: i64) -> Option<ErrorCode> {
    let l = ctx.listing;
    let p = ctx.investor_position;
    if !claim_refund_accounts_valid(ctx) {
        Some(ErrorCode::Unauthorized)
    } else if l.status != PropertyStatus::Fundraising && l.status != PropertyStatus::Cancelled {
        Some(ErrorCode::InvalidStatus)
    } else if l.status == PropertyStatus::Fundraising && now < l.raise_deadline {
        Some(ErrorCode::RaiseStillActive)
    } else if p.usdc_invested == 0 {
        Some(ErrorCode::InvalidAmount)
    } else if l.tokens_sold < p.tokens_held {
        Some(ErrorCode::Underflow)
    } else {
        None
    }
}

/// Returns an investor's USDC from escrow when the raise failed or the
/// listing was cancelled. On success the investor's USDC is refunded in
/// full, the investor's tokens are to be burned, and the position is
/// cleared.
pub fn claim_refund(ctx: &mut ClaimRefund, now: i64) -> (r: Result<RefundSettlement, ErrorCode>)
    ensures
        claim_refund_failure(*old(ctx), now) matches Some(e) ==> r == Err::<RefundSettlement, ErrorCode>(e)
            && *final(ctx) == *old(ctx),
        claim_refund_failure(*old(ctx), now) is None ==> {
            &&& r == Ok::<RefundSettlement, ErrorCode>(RefundSettlement {
                event: RefundClaimedEvent {
                    listing_id: old(ctx).listing.listing_id,
                    investor: old(ctx).investor,
                    usdc_refunded: old(ctx).investor_position.usdc_invested,
                },
                tokens_to_burn: old(ctx).investor_position.tokens_held,
            })
            &&& *final(ctx) == (ClaimRefund {
                listing: listing_after_burn(old(ctx).listing, old(ctx).investor_position.tokens_held, now),
                investor_position: cleared_position(old(ctx).investor_position, false),
                ..*old(ctx)
            })
        },
        system_step(old(ctx).listing, old(ctx).investor_position, now, final(ctx).listing, final(ctx).investor_position),
        old(ctx).listing.wf() ==> final(ctx).listing.wf(),
        old(ctx).investor_position.consistent_with(&old(ctx).listing)
            ==> final(ctx).investor_position.consistent_with(&final(ctx).listing),
        r is Ok ==> final(ctx).listing.tokens_sold - old(ctx).listing.tokens_sold
            == final(ctx).investor_position.tokens_held - old(ctx).investor_position.tokens_held,
        old(ctx).investor_position.consistent_with(&old(ctx).listing) ==> (r matches Ok(s)
            ==> s.event.usdc_refunded == s.tokens_to_burn * old(ctx).listing.token_price_usdc),
{
    if !(ctx.escrow_vault == ctx.listing.escrow_vault && ctx.investor_usdc_account.owner == ctx.investor
        && ctx.investor_usdc_account.mint == ctx.listing.usdc_mint
        && ctx.investor_property_token_account.owner == ctx.investor
        && ctx.investor_property_token_account.mint == ctx.listing.property_mint
        && ctx.property_mint == ctx.listing.property_mint && ctx.investor_position.investor == ctx.investor) {
        return Err(ErrorCode::Unauthorized);
    }
    if !(ctx.listing.status == PropertyStatus::Fundraising || ctx.listing.status == PropertyStatus::Cancelled) {
        return Err(ErrorCode::InvalidStatus);
    }
    if ctx.listing.status == PropertyStatus::Fundraising && now < ctx.listing.raise_deadline {
        return Err(ErrorCode::RaiseStillActive);
    }
    if ctx.investor_position.usdc_invested == 0 {
        return Err(ErrorCode::InvalidAmount);
    }
    let refund_amount = ctx.investor_position.usdc_invested;
    let tokens_to_burn = ctx.investor_position.tokens_held;
    let sold_after = match ctx.listing.tokens_sold.checked_sub(tokens_to_burn) {
        Some(v) => v,
        None => return Err(ErrorCode::Underflow),
    };

    ctx.listing.tokens_sold = sold_after;
    ctx.listing.last_update_time = now;

    ctx.investor_position.usdc_invested = 0;
    ctx.investor_position.tokens_held = 0;
    ctx.investor_position.pending_rental_income = 0;
    ctx.investor_position.reward_per_token_paid = 0;
    ctx.investor_position.redemption_requested = false;
    ctx.investor_position.redemption_approved = false;

    Ok(RefundSettlement {
        event: RefundClaimedEvent {
            listing_id: ctx.listing.listing_id,
            investor: ctx.investor,
            usdc_refunded: refund_amount,
        },
        tokens_to_burn,
    })
}

// ---------------------------------------------------------------- claim_rental_income

/// The accounts of a rental claim belong together: the rental vault is the
/// listing's, the USDC account is the investor's and of the listing's USDC
/// mint, and the position is the investor's.
pub open spec fn claim_rental_income_accounts_valid(ctx: ClaimRentalIncome) -> bool {
    &&& ctx.rental_vault.key == ctx.listing.rental_vault
    &&& ctx.investor_usdc_account.owner == ctx.investor
    &&& ctx.investor_usdc_account.mint == ctx.listing.usdc_mint
    &&& ctx.investor_position.investor == ctx.investor
}

/// What the position can claim: its pending income plus what its tokens
/// accrued since its reward checkpoint.
pub open spec fn claimable_income(ctx: ClaimRentalIncome) -> Result<u64, ErrorCode> {
    let p = ctx.investor_position;
    spec_settle_income(
        p.tokens_held,
        p.reward_per_token_paid,
        p.pending_rental_income,
        ctx.listing.reward_per_token_stored,
    )
}

/// The error with which `claim_rental_income` refuses, checked in this
/// order; `None` when it succeeds.
pub open spec fn claim_rental_income_failure(ctx: ClaimRentalIncome) -> Option<ErrorCode> {
    if !claim_rental_income_accounts_valid(ctx) {
        Some(ErrorCode::Unauthorized)
    } else if ctx.listing.status != PropertyStatus::Active {
        Some(ErrorCode::PropertyNotActive)
    } else if ctx.investor_position.tokens_held == 0 {
        Some(ErrorCode::NoPendingIncome)
    } else {
        match claimable_income(ctx) {
            Err(e) => Some(e),
            Ok(total) => if total == 0 {
                Some(ErrorCode::NoPendingIncome)
            } else if ctx.rental_vault.amount < total {
                Some(ErrorCode::InvalidAmount)
            } else {
                None
            },
        }
    }
}

/// Pays an investor the rental income its tokens have earned. On success the
/// returned event names the USDC to move from the rental vault to the
/// investor, and the position's checkpoint catches up with the listing's
/// accumulator with nothing left pending.
pub fn claim_rental_income(ctx: &mut ClaimRentalIncome) -> (r: Result<RentalIncomeClaimedEvent, ErrorCode>)
    ensures
        claim_rental_income_failure(*old(ctx)) matches Some(e) ==> r == Err::<RentalIncomeClaimedEvent, ErrorCode>(e)
            && *final(ctx) == *old(ctx),
        claim_rental_income_failure(*old(ctx)) is None ==> {
            &&& claimable_income(*old(ctx)) matches Ok(total)
            &&& r == Ok::<RentalIncomeClaimedEvent, ErrorCode>(RentalIncomeClaimedEvent {
                listing_id: old(ctx).listing.listing_id,
                investor: old(ctx).investor,
                amount: total,
            })
            &&& *final(ctx) == (ClaimRentalIncome {
                investor_position: InvestorPosition {
                    reward_per_token_paid: old(ctx).listing.reward_per_token_stored,
                    pending_rental_income: 0,
                    ..old(ctx).investor_position
                },
                ..*old(ctx)
            })
        },
        forall|now: i64|
            #[trigger] system_step(old(ctx).listing, old(ctx).investor_position, now, final(ctx).listing, final(ctx).investor_position),
        old(ctx).listing.wf() ==> final(ctx).listing.wf(),
        old(ctx).investor_position.consistent_with(&old(ctx).listing)
            ==> final(ctx).investor_position.consistent_with(&final(ctx).listing),
{
    if !(ctx.rental_vault.key == ctx.listing.rental_vault && ctx.investor_usdc_account.owner == ctx.investor
        && ctx.investor_usdc_account.mint == ctx.listing.usdc_mint
        && ctx.investor_position.investor == ctx.investor) {
        return Err(ErrorCode::Unauthorized);
    }
    if ctx.listing.status != PropertyStatus::Active {
        return Err(ErrorCode::PropertyNotActive);
    }
    if ctx.investor_position.tokens_held == 0 {
        return Err(ErrorCode::NoPendingIncome);
    }
    let total_claimable = match settle_income(
        ctx.investor_position.tokens_held,
        ctx.investor_position.reward_per_token_paid,
        ctx.investor_position.pending_rental_income,
        ctx.listing.reward_per_token_stored,
    ) {
        Ok(v) => v,
        Err(e) => return Err(e),
    };
    if total_claimable == 0 {
        return Err(ErrorCode::NoPendingIncome);
    }
    if ctx.rental_vault.amount < total_claimable {
        return Err(ErrorCode::InvalidAmount);
    }

    ctx.investor_position.reward_per_token_paid = ctx.listing.reward_per_token_stored;
    ctx.investor_position.pending_rental_income = 0;

    Ok(RentalIncomeClaimedEvent {
        listing_id: ctx.listing.listing_id,
        investor: ctx.investor,
        amount: total_claimable,
    })
}

// ---------------------------------------------------------------- request_redemption

/// The error with which `request_redemption` refuses, checked in this
/// order; `None` when it succeeds.
pub open spec fn request_redemption_failure(ctx: RequestRedemption) -> Option<ErrorCode> {
    let l = ctx.listing;
    let p = ctx.investor_position;
    if p.investor != ctx.investor {
        Some(ErrorCode::Unauthorized)
    } else if l.status != PropertyStatus::Active && l.status != PropertyStatus::Completed {
        Some(ErrorCode::PropertyNotActive)
    } else if p.redemption_requested {
        Some(ErrorCode::RedemptionAlreadyRequested)
    } else if p.tokens_held < l.unit_threshold_tokens {
        Some(ErrorCode::RedemptionThresholdNotMet)
    } else {
        None
    }
}

/// Asks the sponsor to redeem an investor's position; open on active and
/// completed listings, once per position, to holders of at least the
/// listing's unit threshold.
pub fn request_redemption(ctx: &mut RequestRedemption) -> (r: Result<RedemptionRequestedEvent, ErrorCode>)
    ensures
        request_redemption_failure(*old(ctx)) matches Some(e) ==> r == Err::<RedemptionRequestedEvent, ErrorCode>(e)
            && *final(ctx) == *old(ctx),
        request_redemption_failure(*old(ctx)) is None ==> {
            &&& r == Ok::<RedemptionRequestedEvent, ErrorCode>(RedemptionRequestedEvent {
                listing_id: old(ctx).listing.listing_id,
                investor: old(ctx).investor,
                tokens: old(ctx).investor_position.tokens_held,
            })
            &&& *final(ctx) == (RequestRedemption {
                investor_position: InvestorPosition {
                    redemption_requested: true,
                    ..old(ctx).investor_position
                },
                ..*old(ctx)
            })
        },
        forall|now: i64|
            #[trigger] system_step(old(ctx).listing, old(ctx).investor_position, now, final(ctx).listing, final(ctx).investor_position),
        old(ctx).listing.wf() ==> final(ctx).listing.wf(),
        old(ctx).investor_position.consistent_with(&old(ctx).listing)
            ==> final(ctx).investor_position.consistent_with(&final(ctx).listing),
{
    if ctx.investor_position.investor != ctx.investor {
        return Err(ErrorCode::Unauthorized);
    }
    if !(ctx.listing.status == PropertyStatus::Active || ctx.listing.status == PropertyStatus::Completed) {
        return Err(ErrorCode::PropertyNotActive);
    }
    if ctx.investor_position.redemption_requested {
        return Err(ErrorCode::RedemptionAlreadyRequested);
    }
    if ctx.investor_position.tokens_held < ctx.listing.unit_threshold_tokens {
        return Err(ErrorCode::RedemptionThresholdNotMet);
    }
    ctx.investor_position.redemption_requested = true;
    Ok(RedemptionRequestedEvent {
        listing_id: ctx.listing.listing_id,
        investor: ctx.investor,
        tokens: ctx.investor_position.tokens_held,
    })
}

} // verus!
