use vstd::prelude::*;

use crate::admin_instructions::{
    approve_redemption_accounts_valid, approve_redemption_failure, cancel_listing_failure,
    release_escrow_accounts_valid, release_escrow_failure,
};
use crate::contexts::{ApproveRedemption, CancelListing, ClaimRefund, ClaimRentalIncome, Invest, ReleaseEscrow};
use crate::errors::ErrorCode;
use crate::investor_instructions::{
    claim_refund_accounts_valid, claim_refund_failure, claim_rental_income_accounts_valid,
    claim_rental_income_failure, invest_accounts_valid, invest_failure,
};
use crate::state::{cleared_position, listing_after_burn, InvestorPosition, PropertyListing, PropertyStatus};
use crate::steps::{is_trace, system_step};

verus! {

/// The step of a trace that leads to its `j`-th state.
proof fn lemma_step_into(
    listings: Seq<PropertyListing>,
    positions: Seq<InvestorPosition>,
    times: Seq<i64>,
    j: int,
)
    requires
        is_trace(listings, positions, times),
        0 < j < listings.len(),
    ensures
        system_step(listings[j - 1], positions[j - 1], times[j - 1], listings[j], positions[j]),
{
    let _ = times[j - 1];
}

/// Along any run of instructions, a listing that has left fundraising never
/// returns to it, an active listing stays active, and visibility never
/// changes.
pub proof fn lemma_trace_status(
    listings: Seq<PropertyListing>,
    positions: Seq<InvestorPosition>,
    times: Seq<i64>,
    i: int,
    j: int,
)
    requires
        is_trace(listings, positions, times),
        0 <= i <= j < listings.len(),
    ensures
        listings[i].status != PropertyStatus::Fundraising ==> listings[j].status != PropertyStatus::Fundraising,
        listings[i].status == PropertyStatus::Active ==> listings[j].status == PropertyStatus::Active,
        listings[j].is_visible == listings[i].is_visible,
    decreases j - i,
{
    if i < j {
        lemma_trace_status(listings, positions, times, i, j - 1);
        lemma_step_into(listings, positions, times, j);
    }
}

/// Once a listing has left fundraising (it was funded, or cancelled), no
/// investment in it succeeds, whatever instructions follow: with its
/// accounts in order on a visible listing, it is refused with
/// `NotFundraising`.
pub proof fn lemma_no_investment_after_fundraising(
    listings: Seq<PropertyListing>,
    positions: Seq<InvestorPosition>,
    times: Seq<i64>,
    i: int,
    j: int,
    ctx: Invest,
    token_amount: u64,
    now: i64,
)
    requires
        is_trace(listings, positions, times),
        0 <= i <= j < listings.len(),
        listings[i].status != PropertyStatus::Fundraising,
        ctx.listing == listings[j],
    ensures
        invest_failure(ctx, token_amount, now) is Some,
        invest_accounts_valid(ctx) && ctx.listing.is_visible ==> invest_failure(ctx, token_amount, now)
            == Some(ErrorCode::NotFundraising),
{
    lemma_trace_status(listings, positions, times, i, j);
}

/// Escrow is released at most once: after a successful release, whatever
/// instructions follow, releasing the escrow of that listing again is
/// refused with `RaiseTargetNotMet` (with its accounts in order).
pub proof fn lemma_escrow_released_once(
    first: ReleaseEscrow,
    now: i64,
    listings: Seq<PropertyListing>,
    positions: Seq<InvestorPosition>,
    times: Seq<i64>,
    j: int,
    later: ReleaseEscrow,
)
    requires
        release_escrow_failure(first) is None,
        is_trace(listings, positions, times),
        listings[0] == (PropertyListing { status: PropertyStatus::Active, last_update_time: now, ..first.listing }),
        0 <= j < listings.len(),
        later.listing == listings[j],
        release_escrow_accounts_valid(later),
    ensures
        release_escrow_failure(later) == Some(ErrorCode::RaiseTargetNotMet),
{
    lemma_trace_status(listings, positions, times, 0, j);
}

/// After a refund at time `now`: the position holds no USDC, and the listing
/// stays in its refund window for every time from `now` on.
pub open spec fn refunded(l: PropertyListing, p: InvestorPosition, now: i64) -> bool {
    &&& p.usdc_invested == 0
    &&& (l.status == PropertyStatus::Cancelled || (l.status == PropertyStatus::Fundraising && now
        >= l.raise_deadline))
}

proof fn lemma_refunded_persists(
    listings: Seq<PropertyListing>,
    positions: Seq<InvestorPosition>,
    times: Seq<i64>,
    now: i64,
    j: int,
)
    requires
        is_trace(listings, positions, times),
        forall|k: int| 0 <= k < times.len() ==> times[k] >= now,
        refunded(listings[0], positions[0], now),
        0 <= j < listings.len(),
    ensures
        refunded(listings[j], positions[j], now),
    decreases j,
{
    if j > 0 {
        lemma_refunded_persists(listings, positions, times, now, j - 1);
        lemma_step_into(listings, positions, times, j);
        assert(times[j - 1] >= now);
    }
}

/// An investment is refunded at most once: after a successful refund at time
/// `now`, whatever instructions follow at times from `now` on, claiming a
/// refund of that position again, at any time from `now` on, is refused
/// with `InvalidAmount` (with its accounts in order).
pub proof fn lemma_refund_paid_once(
    first: ClaimRefund,
    now: i64,
    listings: Seq<PropertyListing>,
    positions: Seq<InvestorPosition>,
    times: Seq<i64>,
    j: int,
    later: ClaimRefund,
    later_now: i64,
)
    requires
        claim_refund_failure(first, now) is None,
        is_trace(listings, positions, times),
        listings[0] == listing_after_burn(first.listing, first.investor_position.tokens_held, now),
        positions[0] == cleared_position(first.investor_position, false),
        forall|k: int| 0 <= k < times.len() ==> times[k] >= now,
        0 <= j < listings.len(),
        later.listing == listings[j],
        later.investor_position == positions[j],
        claim_refund_accounts_valid(later),
        later_now >= now,
    ensures
        claim_refund_failure(later, later_now) == Some(ErrorCode::InvalidAmount),
{
    lemma_refunded_persists(listings, positions, times, now, j);
}

/// Cancelling opens refunds at once: after a successful cancellation, a
/// position with USDC invested and its accounts in order is refunded at any
/// time, before the raise deadline too, and in full (see `claim_refund`).
pub proof fn lemma_cancel_then_refund(cancel: CancelListing, now: i64, refund: ClaimRefund, refund_now: i64)
    requires
        cancel_listing_failure(cancel) is None,
        refund.listing == (PropertyListing {
            status: PropertyStatus::Cancelled,
            last_update_time: now,
            ..cancel.listing
        }),
        claim_refund_accounts_valid(refund),
        refund.investor_position.usdc_invested > 0,
        refund.investor_position.tokens_held <= refund.listing.tokens_sold,
    ensures
        claim_refund_failure(refund, refund_now) is None,
{
}

/// After a rental claim, with the accumulator at `stored`: the listing is
/// active, nothing is pending, and the position is either caught up with
/// the accumulator or holds no tokens.
pub open spec fn claimed(l: PropertyListing, p: InvestorPosition, stored: u128) -> bool {
    &&& l.status == PropertyStatus::Active
    &&& l.reward_per_token_stored == stored
    &&& p.pending_rental_income == 0
    &&& (p.reward_per_token_paid == stored || p.tokens_held == 0)
}

proof fn lemma_claimed_persists(
    listings: Seq<PropertyListing>,
    positions: Seq<InvestorPosition>,
    times: Seq<i64>,
    stored: u128,
    j: int,
)
    requires
        is_trace(listings, positions, times),
        forall|k: int| 0 <= k < listings.len() ==> (#[trigger] listings[k]).reward_per_token_stored == stored,
        claimed(listings[0], positions[0], stored),
        0 <= j < listings.len(),
    ensures
        claimed(listings[j], positions[j], stored),
    decreases j,
{
    if j > 0 {
        lemma_claimed_persists(listings, positions, times, stored, j - 1);
        lemma_step_into(listings, positions, times, j);
        assert(listings[j].reward_per_token_stored == stored);
    }
}

/// Rental income is never paid twice: after a successful claim, as long as
/// no new rental income is deposited (the accumulator stays where it was),
/// whatever instructions follow, claiming again for that position is
/// refused with `NoPendingIncome` (with its accounts in order).
pub proof fn lemma_income_claimed_once(
    first: ClaimRentalIncome,
    listings: Seq<PropertyListing>,
    positions: Seq<InvestorPosition>,
    times: Seq<i64>,
    j: int,
    later: ClaimRentalIncome,
)
    requires
        claim_rental_income_failure(first) is None,
        is_trace(listings, positions, times),
        listings[0] == first.listing,
        positions[0] == (InvestorPosition {
            reward_per_token_paid: first.listing.reward_per_token_stored,
            pending_rental_income: 0,
            ..first.investor_position
        }),
        forall|k: int|
            0 <= k < listings.len() ==> (#[trigger] listings[k]).reward_per_token_stored
                == first.listing.reward_per_token_stored,
        0 <= j < listings.len(),
        later.listing == listings[j],
        later.investor_position == positions[j],
        claim_rental_income_accounts_valid(later),
    ensures
        claim_rental_income_failure(later) == Some(ErrorCode::NoPendingIncome),
{
    lemma_claimed_persists(listings, positions, times, first.listing.reward_per_token_stored, j);
    let p = positions[j];
    let stored = listings[j].reward_per_token_stored;
    if p.tokens_held > 0 {
        assert(((stored - p.reward_per_token_paid) as u128) == 0);
        assert(p.tokens_held * ((stored - p.reward_per_token_paid) as u128) == 0);
    }
}

/// A position's redemption request is open only on an active or completed
/// listing. A fresh position has none open, and every instruction keeps
/// this so (`lemma_request_only_when_active`).
pub open spec fn request_only_when_active(l: PropertyListing, p: InvestorPosition) -> bool {
    p.redemption_requested ==> (l.status == PropertyStatus::Active || l.status == PropertyStatus::Completed)
}

/// Along any run of instructions, a redemption request is open only while
/// the listing is active or completed.
pub proof fn lemma_request_only_when_active(
    listings: Seq<PropertyListing>,
    positions: Seq<InvestorPosition>,
    times: Seq<i64>,
    j: int,
)
    requires
        is_trace(listings, positions, times),
        request_only_when_active(listings[0], positions[0]),
        0 <= j < listings.len(),
    ensures
        request_only_when_active(listings[j], positions[j]),
    decreases j,
{
    if j > 0 {
        lemma_request_only_when_active(listings, positions, times, j - 1);
        lemma_step_into(listings, positions, times, j);
    }
}

/// After an approval: the position is marked approved and the listing is
/// active or completed.
pub open spec fn approved(l: PropertyListing, p: InvestorPosition) -> bool {
    &&& p.redemption_approved
    &&& (l.status == PropertyStatus::Active || l.status == PropertyStatus::Completed)
}

proof fn lemma_approved_persists(
    listings: Seq<PropertyListing>,
    positions: Seq<InvestorPosition>,
    times: Seq<i64>,
    i: int,
    j: int,
)
    requires
        is_trace(listings, positions, times),
        0 <= i <= j < listings.len(),
        approved(listings[i], positions[i]),
    ensures
        approved(listings[j], positions[j]),
    decreases j - i,
{
    if i < j {
        lemma_approved_persists(listings, positions, times, i, j - 1);
        lemma_step_into(listings, positions, times, j);
    }
}

/// A redemption is approved at most once: in any run of instructions on a
/// position that starts with no redemption request open (as every new
/// position does), once an approval succeeds (the `k`-th instruction of the
/// run, leaving what `approve_redemption` leaves), the position stays
/// approved whatever instructions follow, and approving it again is refused
/// with `InvalidStatus` (with its accounts in order).
pub proof fn lemma_redemption_approved_once(
    listings: Seq<PropertyListing>,
    positions: Seq<InvestorPosition>,
    times: Seq<i64>,
    k: int,
    first: ApproveRedemption,
    j: int,
    later: ApproveRedemption,
)
    requires
        is_trace(listings, positions, times),
        !positions[0].redemption_requested,
        0 <= k < j < listings.len(),
        approve_redemption_failure(first) is None,
        listings[k] == first.listing,
        positions[k] == first.investor_position,
        listings[k + 1] == listing_after_burn(first.listing, first.investor_position.tokens_held, times[k]),
        positions[k + 1] == cleared_position(first.investor_position, true),
        later.listing == listings[j],
        later.investor_position == positions[j],
        approve_redemption_accounts_valid(later),
    ensures
        positions[j].redemption_approved,
        approve_redemption_failure(later) == Some(ErrorCode::InvalidStatus),
{
    lemma_request_only_when_active(listings, positions, times, k);
    lemma_approved_persists(listings, positions, times, k + 1, j);
}

} // verus!
