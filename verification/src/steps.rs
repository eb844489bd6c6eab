use vstd::prelude::*;

use crate::investor_instructions::refund_window_open;
use crate::state::{cleared_position, lifecycle_step, InvestorPosition, PropertyListing, PropertyStatus};

verus! {

/// What any instruction, called at time `now`, may do to a listing `l`,
/// leaving `l2`: the status moves only along the lifecycle, the deadline
/// and the visibility never change, the reward accumulator only grows and
/// only on an active listing, and a listing becomes funded only before its
/// deadline.
pub open spec fn listing_effect(l: PropertyListing, now: i64, l2: PropertyListing) -> bool {
    &&& lifecycle_step(l.status, l2.status)
    &&& l2.raise_deadline == l.raise_deadline
    &&& l2.is_visible == l.is_visible
    &&& l2.reward_per_token_stored >= l.reward_per_token_stored
    &&& (l2.reward_per_token_stored != l.reward_per_token_stored ==> l.status == PropertyStatus::Active)
    &&& (l.status == PropertyStatus::Fundraising && l2.status == PropertyStatus::Funded ==> now
        < l.raise_deadline)
}

/// What any instruction, called at time `now` on a listing `l`, may do to a
/// position `p` of that listing, leaving `p2`: nothing, or one of
/// - a purchase, only while the listing is fundraising and before its
///   deadline, leaving the redemption flags alone;
/// - a refund, only while the refund window is open, clearing the position;
/// - a rental claim, only on an active listing, catching the checkpoint up
///   with the accumulator and emptying the pending income;
/// - a redemption request, only on an active or completed listing and only
///   when none is open;
/// - a redemption approval, only of an open, unapproved request, clearing
///   the position and marking it approved.
pub open spec fn position_effect(l: PropertyListing, p: InvestorPosition, now: i64, p2: InvestorPosition) -> bool {
    ||| p2 == p
    ||| {
        &&& l.status == PropertyStatus::Fundraising
        &&& now < l.raise_deadline
        &&& p2.redemption_requested == p.redemption_requested
        &&& p2.redemption_approved == p.redemption_approved
    }
    ||| refund_window_open(l, now) && p2 == cleared_position(p, false)
    ||| l.status == PropertyStatus::Active && p2 == (InvestorPosition {
        reward_per_token_paid: l.reward_per_token_stored,
        pending_rental_income: 0,
        ..p
    })
    ||| {
        &&& (l.status == PropertyStatus::Active || l.status == PropertyStatus::Completed)
        &&& !p.redemption_requested
        &&& p2 == (InvestorPosition { redemption_requested: true, ..p })
    }
    ||| p.redemption_requested && !p.redemption_approved && p2 == cleared_position(p, true)
}

/// One instruction, called at time `now`, takes a listing and one of its
/// positions from `(l, p)` to `(l2, p2)`. An instruction that acts on
/// another position of the listing leaves `p` as it is.
pub open spec fn system_step(
    l: PropertyListing,
    p: InvestorPosition,
    now: i64,
    l2: PropertyListing,
    p2: InvestorPosition,
) -> bool {
    listing_effect(l, now, l2) && position_effect(l, p, now, p2)
}

/// A run of instructions: `listings[i + 1]` and `positions[i + 1]` are what
/// the instruction called at `times[i]` left of `listings[i]` and
/// `positions[i]`.
pub open spec fn is_trace(listings: Seq<PropertyListing>, positions: Seq<InvestorPosition>, times: Seq<i64>) -> bool {
    &&& listings.len() == positions.len()
    &&& times.len() + 1 == listings.len()
    &&& forall|i: int|
        #![trigger times[i]]
        0 <= i < times.len() ==> system_step(listings[i], positions[i], times[i], listings[i + 1], positions[i + 1])
}

} // verus!
