use vstd::prelude::*;

use crate::constants::PRECISION;
use crate::errors::ErrorCode;
use crate::math::{
    pending_income, reward_delta, spec_calculate_pending_income, spec_calculate_reward_delta,
    spec_checked_mul_u64, spec_settle_income,
};
use crate::validation::{has_prefix, name_is_valid, symbol_is_valid, uri_is_valid};
use crate::admin_instructions::{
    approve_redemption_failure, cancel_listing_failure, create_listing_failure, fund_rental_vault_failure,
    release_escrow_failure, update_metadata_uri_failure,
};
use crate::contexts::{
    ApproveRedemption, CancelListing, ClaimRefund, ClaimRentalIncome, FundRentalVault, Invest, ReleaseEscrow,
    RequestRedemption, UpdateMetadataUri,
};
use crate::investor_instructions::{
    claim_refund_failure, claim_rental_income_failure, claimable_income, invest_failure, invested_listing,
    invested_position, request_redemption_failure,
};
use crate::state::{cleared_position, listing_after_burn, InvestorPosition, PropertyListing, PropertyStatus};

verus! {

// What each operation computes, stated by the arithmetic and the byte
// conditions themselves.

/// `bytes` starts with `"https://"`.
pub open spec fn starts_https(bytes: Seq<u8>) -> bool {
    &&& bytes.len() >= 8
    &&& bytes[0] == 104u8 && bytes[1] == 116u8 && bytes[2] == 116u8 && bytes[3] == 112u8
    &&& bytes[4] == 115u8 && bytes[5] == 58u8 && bytes[6] == 47u8 && bytes[7] == 47u8
}

/// `bytes` starts with `"ipfs://"`.
pub open spec fn starts_ipfs(bytes: Seq<u8>) -> bool {
    &&& bytes.len() >= 7
    &&& bytes[0] == 105u8 && bytes[1] == 112u8 && bytes[2] == 102u8 && bytes[3] == 115u8
    &&& bytes[4] == 58u8 && bytes[5] == 47u8 && bytes[6] == 47u8
}

/// A metadata URI is accepted exactly when it is 11 to 200 bytes long and
/// starts with `https://` or `ipfs://`.
pub proof fn law_uri_accepted(bytes: Seq<u8>)
    ensures
        uri_is_valid(bytes) <==> (10 < bytes.len() <= 200 && (starts_https(bytes) || starts_ipfs(bytes))),
{
    if bytes.len() >= 8 {
        let s = bytes.subrange(0, 8);
        assert(starts_https(bytes) ==> s =~= crate::validation::https_scheme());
        assert(s =~= crate::validation::https_scheme() ==> starts_https(bytes)) by {
            if s =~= crate::validation::https_scheme() {
                assert(s[0] == bytes[0] && s[7] == bytes[7]);
            }
        }
    }
    if bytes.len() >= 7 {
        let s = bytes.subrange(0, 7);
        assert(starts_ipfs(bytes) ==> s =~= crate::validation::ipfs_scheme());
        assert(s =~= crate::validation::ipfs_scheme() ==> starts_ipfs(bytes)) by {
            if s =~= crate::validation::ipfs_scheme() {
                assert(s[0] == bytes[0] && s[6] == bytes[6]);
            }
        }
    }
}

/// A name is accepted exactly when it is 1 to 50 bytes long, a symbol
/// exactly when it is 1 to 10 bytes long.
pub proof fn law_name_and_symbol_accepted(bytes: Seq<u8>)
    ensures
        name_is_valid(bytes) <==> 1 <= bytes.len() <= 50,
        symbol_is_valid(bytes) <==> 1 <= bytes.len() <= 10,
{
}

/// A prefix test holds exactly when every byte of the prefix is matched.
pub proof fn law_prefix(bytes: Seq<u8>, prefix: Seq<u8>)
    ensures
        has_prefix(bytes, prefix) <==> (prefix.len() <= bytes.len() && forall|i: int|
            0 <= i < prefix.len() ==> bytes[i] == prefix[i]),
{
    if prefix.len() <= bytes.len() {
        if forall|i: int| 0 <= i < prefix.len() ==> bytes[i] == prefix[i] {
            assert(bytes.subrange(0, prefix.len() as int) =~= prefix);
        }
        if bytes.subrange(0, prefix.len() as int) == prefix {
            assert forall|i: int| 0 <= i < prefix.len() implies bytes[i] == prefix[i] by {
                assert(bytes.subrange(0, prefix.len() as int)[i] == bytes[i]);
            }
        }
    }
}

/// `checked_mul_u64` gives the product when it fits in a `u64` and
/// `Overflow` when it does not.
pub proof fn law_checked_mul_u64(a: u64, b: u64)
    ensures
        spec_checked_mul_u64(a, b) is Ok <==> a * b <= u64::MAX,
        spec_checked_mul_u64(a, b) matches Ok(v) ==> v == a * b,
        spec_checked_mul_u64(a, b) matches Err(e) ==> e == ErrorCode::Overflow,
{
}

/// `d` is `x / y` rounded down.
pub open spec fn is_floor_quotient(d: int, x: int, y: int) -> bool {
    d * y <= x < d * y + y
}

proof fn lemma_floor_quotient(x: int, y: int)
    requires
        x >= 0,
        y > 0,
    ensures
        is_floor_quotient(x / y, x, y),
        x / y >= 0,
{
    vstd::arithmetic::div_mod::lemma_fundamental_div_mod(x, y);
    vstd::arithmetic::div_mod::lemma_mod_bound(x, y);
    vstd::arithmetic::mul::lemma_mul_is_commutative(y, x / y);
    vstd::arithmetic::div_mod::lemma_div_pos_is_pos(x, y);
}

/// The accumulator growth of a deposit is `amount * PRECISION` divided by
/// the tokens in circulation, rounded down once; with no token in
/// circulation the deposit is refused with `InvalidAmount`.
pub proof fn law_reward_delta(amount: u64, tokens_in_circulation: u64)
    ensures
        spec_calculate_reward_delta(amount, tokens_in_circulation) is Err <==> tokens_in_circulation == 0,
        spec_calculate_reward_delta(amount, tokens_in_circulation) matches Err(e) ==> e == ErrorCode::InvalidAmount,
        spec_calculate_reward_delta(amount, tokens_in_circulation) matches Ok(d) ==> is_floor_quotient(
            d as int,
            amount * PRECISION,
            tokens_in_circulation as int,
        ),
        tokens_in_circulation > 0 ==> is_floor_quotient(
            reward_delta(amount as int, tokens_in_circulation as int),
            amount * PRECISION,
            tokens_in_circulation as int,
        ),
{
    if tokens_in_circulation > 0 {
        vstd::arithmetic::mul::lemma_mul_nonnegative(amount as int, PRECISION as int);
        lemma_floor_quotient(amount * PRECISION, tokens_in_circulation as int);
        vstd::arithmetic::mul::lemma_mul_upper_bound(
            amount as int,
            u64::MAX as int,
            PRECISION as int,
            PRECISION as int,
        );
        vstd::arithmetic::div_mod::lemma_div_is_ordered_by_denominator(
            amount * PRECISION,
            1,
            tokens_in_circulation as int,
        );
    }
}

/// The income on a holding is `tokens_held * delta` divided by `PRECISION`,
/// the full product divided once and rounded down; it is `Overflow`
/// exactly when the product does not fit in a `u128` or the income does
/// not fit in a `u64`.
pub proof fn law_pending_income(tokens_held: u64, delta: u128)
    ensures
        spec_calculate_pending_income(tokens_held, delta) is Ok <==> (tokens_held * delta <= u128::MAX
            && tokens_held * delta < (u64::MAX + 1) * PRECISION),
        spec_calculate_pending_income(tokens_held, delta) matches Ok(v) ==> is_floor_quotient(
            v as int,
            tokens_held * delta,
            PRECISION as int,
        ),
        spec_calculate_pending_income(tokens_held, delta) matches Err(e) ==> e == ErrorCode::Overflow,
        is_floor_quotient(pending_income(tokens_held as int, delta as int), tokens_held * delta, PRECISION as int),
{
    vstd::arithmetic::mul::lemma_mul_nonnegative(tokens_held as int, delta as int);
    lemma_floor_quotient(tokens_held * delta, PRECISION as int);
}

/// Settling a position pays what was pending plus the income on its
/// holding for the accumulator's growth since its checkpoint; a checkpoint
/// ahead of the accumulator is `Underflow`, a sum that does not fit is
/// `Overflow`.
pub proof fn law_settle_income(tokens_held: u64, paid: u128, pending: u64, stored: u128)
    ensures
        spec_settle_income(tokens_held, paid, pending, stored) == Err::<u64, ErrorCode>(ErrorCode::Underflow)
            <==> stored < paid,
        spec_settle_income(tokens_held, paid, pending, stored) is Ok <==> ({
            let accrued = tokens_held * (stored - paid);
            &&& paid <= stored
            &&& accrued <= u128::MAX
            &&& accrued < (u64::MAX + 1) * PRECISION
            &&& pending + accrued / (PRECISION as int) <= u64::MAX
        }),
        spec_settle_income(tokens_held, paid, pending, stored) matches Ok(total) ==> total >= pending
            && is_floor_quotient(total - pending, tokens_held * (stored - paid), PRECISION as int),
        spec_settle_income(tokens_held, paid, pending, stored) matches Err(e) ==> (e == ErrorCode::Underflow
            || e == ErrorCode::Overflow),
{
    if paid <= stored {
        let d = (stored - paid) as u128;
        law_pending_income(tokens_held, d);
        assert(d as int == stored - paid);
    }
}

/// A position's accrued income since its checkpoint can be settled: the
/// checkpoint is not ahead of the accumulator and every amount fits.
pub open spec fn settles(tokens_held: u64, paid: u128, pending: u64, stored: u128) -> bool {
    let accrued = tokens_held * (stored - paid);
    &&& paid <= stored
    &&& accrued <= u128::MAX
    &&& accrued < (u64::MAX + 1) * PRECISION
    &&& pending + accrued / (PRECISION as int) <= u64::MAX
}

/// The economic terms of a new listing are consistent: the raise target is
/// the supply times the price, everything is positive, the minimum purchase
/// and the redemption threshold are within the supply.
pub open spec fn terms_consistent(
    total_tokens: u64,
    token_price_usdc: u64,
    min_investment_tokens: u64,
    raise_target: u64,
    unit_threshold_tokens: u64,
) -> bool {
    &&& total_tokens * token_price_usdc <= u64::MAX
    &&& raise_target == total_tokens * token_price_usdc
    &&& total_tokens > 0
    &&& token_price_usdc > 0
    &&& raise_target > 0
    &&& 0 < min_investment_tokens <= total_tokens
    &&& unit_threshold_tokens <= total_tokens
}

/// A listing is created exactly when its terms are consistent, its deadline
/// is in the future, its name is 1 to 50 bytes, its symbol 1 to 10 bytes,
/// its URI valid and its yield at most 10 000 basis points; each refusal
/// names the first condition that fails.
pub proof fn law_create_listing(
    name: Seq<u8>,
    symbol: Seq<u8>,
    uri: Seq<u8>,
    total_tokens: u64,
    token_price_usdc: u64,
    min_investment_tokens: u64,
    raise_target: u64,
    raise_deadline: i64,
    unit_threshold_tokens: u64,
    rental_yield_bps: u16,
    now: i64,
)
    ensures
        ({
            let f = create_listing_failure(
                name,
                symbol,
                uri,
                total_tokens,
                token_price_usdc,
                min_investment_tokens,
                raise_target,
                raise_deadline,
                unit_threshold_tokens,
                rental_yield_bps,
                now,
            );
            let terms = terms_consistent(
                total_tokens,
                token_price_usdc,
                min_investment_tokens,
                raise_target,
                unit_threshold_tokens,
            );
            let name_ok = 1 <= name.len() <= 50;
            let symbol_ok = 1 <= symbol.len() <= 10;
            let uri_ok = 10 < uri.len() <= 200 && (starts_https(uri) || starts_ipfs(uri));
            &&& (f is None <==> terms && raise_deadline > now && name_ok && symbol_ok && uri_ok
                && rental_yield_bps <= 10_000)
            &&& (f == Some(ErrorCode::Overflow) <==> total_tokens * token_price_usdc > u64::MAX)
            &&& (f == Some(ErrorCode::InvalidTimestamp) <==> terms && raise_deadline <= now)
            &&& (f == Some(ErrorCode::NameTooLong) <==> terms && raise_deadline > now && !name_ok)
            &&& (f == Some(ErrorCode::SymbolTooLong) <==> terms && raise_deadline > now && name_ok && !symbol_ok)
            &&& (f == Some(ErrorCode::InvalidUri) <==> terms && raise_deadline > now && name_ok && symbol_ok
                && !uri_ok)
        }),
{
    law_uri_accepted(uri);
}

/// An investment succeeds exactly when its accounts belong together, the
/// listing is visible and fundraising, the deadline has not passed, the
/// purchase is at least the minimum and within the unsold supply, and the
/// cost, the existing holding's income and the new totals fit.
pub proof fn law_invest_accepted(ctx: Invest, token_amount: u64, now: i64)
    ensures
        invest_failure(ctx, token_amount, now) is None <==> ({
            let l = ctx.listing;
            let p = ctx.investor_position;
            let cost = token_amount * l.token_price_usdc;
            &&& l.usdc_mint == ctx.usdc_mint
            &&& ctx.investor_usdc_account.owner == ctx.investor
            &&& ctx.investor_usdc_account.mint == ctx.usdc_mint
            &&& ctx.escrow_vault == l.escrow_vault
            &&& ctx.property_mint == l.property_mint
            &&& l.is_visible
            &&& l.status == PropertyStatus::Fundraising
            &&& now < l.raise_deadline
            &&& token_amount >= l.min_investment_tokens
            &&& l.tokens_sold + token_amount <= l.total_tokens
            &&& cost <= u64::MAX
            &&& (p.tokens_held > 0 ==> settles(
                p.tokens_held,
                p.reward_per_token_paid,
                p.pending_rental_income,
                l.reward_per_token_stored,
            ))
            &&& p.tokens_held + token_amount <= u64::MAX
            &&& p.usdc_invested + cost <= u64::MAX
            &&& l.total_raised + cost <= u64::MAX
        }),
        ctx.investor_usdc_account.owner == ctx.investor && ctx.listing.usdc_mint == ctx.usdc_mint
            && ctx.investor_usdc_account.mint == ctx.usdc_mint && ctx.escrow_vault == ctx.listing.escrow_vault
            && ctx.property_mint == ctx.listing.property_mint && ctx.listing.is_visible
            && ctx.listing.status != PropertyStatus::Fundraising ==> invest_failure(ctx, token_amount, now)
            == Some(ErrorCode::NotFundraising),
{
    let p = ctx.investor_position;
    law_settle_income(p.tokens_held, p.reward_per_token_paid, p.pending_rental_income, ctx.listing.reward_per_token_stored);
}

/// A successful investment sells the tokens and raises their cost, funds the
/// listing exactly when the raise reaches its target, and gives the
/// position the tokens and their cost, its checkpoint at the accumulator,
/// and as pending income what was pending plus the income its existing
/// holding accrued since its checkpoint.
pub proof fn law_invest_result(ctx: Invest, token_amount: u64, now: i64)
    requires
        invest_failure(ctx, token_amount, now) is None,
    ensures
        ({
            let l = ctx.listing;
            let p = ctx.investor_position;
            let cost = token_amount * l.token_price_usdc;
            let l2 = invested_listing(ctx, token_amount, now);
            let p2 = invested_position(ctx, token_amount);
            &&& l2 == (PropertyListing {
                tokens_sold: l2.tokens_sold,
                total_raised: l2.total_raised,
                status: l2.status,
                last_update_time: l2.last_update_time,
                ..l
            })
            &&& l2.tokens_sold == l.tokens_sold + token_amount
            &&& l2.total_raised == l.total_raised + cost
            &&& l2.last_update_time == now
            &&& (l2.status == PropertyStatus::Funded <==> l.total_raised + cost >= l.raise_target)
            &&& (l2.status != PropertyStatus::Funded ==> l2.status == PropertyStatus::Fundraising)
            &&& p2 == (InvestorPosition { pending_rental_income: p2.pending_rental_income, ..p2 })
            &&& p2.investor == ctx.investor
            &&& p2.listing == ctx.listing_key
            &&& p2.bump == ctx.investor_position_bump
            &&& p2.tokens_held == p.tokens_held + token_amount
            &&& p2.usdc_invested == p.usdc_invested + cost
            &&& p2.reward_per_token_paid == l.reward_per_token_stored
            &&& p2.redemption_requested == p.redemption_requested
            &&& p2.redemption_approved == p.redemption_approved
            &&& (p.tokens_held == 0 ==> p2.pending_rental_income == p.pending_rental_income)
            &&& (p.tokens_held > 0 ==> p2.pending_rental_income >= p.pending_rental_income
                && is_floor_quotient(
                p2.pending_rental_income - p.pending_rental_income,
                p.tokens_held * (l.reward_per_token_stored - p.reward_per_token_paid),
                PRECISION as int,
            ))
        }),
{
    let p = ctx.investor_position;
    law_settle_income(p.tokens_held, p.reward_per_token_paid, p.pending_rental_income, ctx.listing.reward_per_token_stored);
}

/// Burning `tokens` of a listing's sold tokens at time `now` takes them off
/// `tokens_sold`, stamps the time and changes nothing else; clearing a
/// position empties it and closes its redemption, marking it approved or
/// not, and changes nothing else.
pub proof fn law_burn_and_clear(l: PropertyListing, tokens: u64, now: i64, p: InvestorPosition, approved: bool)
    requires
        tokens <= l.tokens_sold,
    ensures
        listing_after_burn(l, tokens, now).tokens_sold == l.tokens_sold - tokens,
        listing_after_burn(l, tokens, now) == (PropertyListing {
            tokens_sold: listing_after_burn(l, tokens, now).tokens_sold,
            last_update_time: now,
            ..l
        }),
        cleared_position(p, approved) == (InvestorPosition {
            tokens_held: 0,
            usdc_invested: 0,
            pending_rental_income: 0,
            reward_per_token_paid: 0,
            redemption_requested: false,
            redemption_approved: approved,
            investor: p.investor,
            listing: p.listing,
            bump: p.bump,
        }),
{
}

/// A refund is paid exactly when its accounts belong together, the listing
/// is cancelled or still fundraising past its deadline, the position has
/// USDC invested and the listing has sold at least the position's tokens.
pub proof fn law_claim_refund_accepted(ctx: ClaimRefund, now: i64)
    ensures
        claim_refund_failure(ctx, now) is None <==> ({
            let l = ctx.listing;
            let p = ctx.investor_position;
            &&& ctx.escrow_vault == l.escrow_vault
            &&& ctx.investor_usdc_account.owner == ctx.investor
            &&& ctx.investor_usdc_account.mint == l.usdc_mint
            &&& ctx.investor_property_token_account.owner == ctx.investor
            &&& ctx.investor_property_token_account.mint == l.property_mint
            &&& ctx.property_mint == l.property_mint
            &&& p.investor == ctx.investor
            &&& (l.status == PropertyStatus::Cancelled || (l.status == PropertyStatus::Fundraising && now
                >= l.raise_deadline))
            &&& p.usdc_invested > 0
            &&& p.tokens_held <= l.tokens_sold
        }),
{
}

/// A rental claim is paid exactly when its accounts belong together, the
/// listing is active, the position holds tokens, its income settles, is
/// positive and the rental vault holds it; what it is paid is what was
/// pending plus `tokens_held * (accumulator - checkpoint) / PRECISION`, the
/// full product divided once and rounded down.
pub proof fn law_claim_rental_income(ctx: ClaimRentalIncome)
    ensures
        ({
            let l = ctx.listing;
            let p = ctx.investor_position;
            let owed = p.pending_rental_income + p.tokens_held * (l.reward_per_token_stored
                - p.reward_per_token_paid) / (PRECISION as int);
            &&& (claim_rental_income_failure(ctx) is None <==> {
                &&& ctx.rental_vault.key == l.rental_vault
                &&& ctx.investor_usdc_account.owner == ctx.investor
                &&& ctx.investor_usdc_account.mint == l.usdc_mint
                &&& p.investor == ctx.investor
                &&& l.status == PropertyStatus::Active
                &&& p.tokens_held > 0
                &&& settles(p.tokens_held, p.reward_per_token_paid, p.pending_rental_income, l.reward_per_token_stored)
                &&& owed > 0
                &&& ctx.rental_vault.amount >= owed
            })
            &&& (claimable_income(ctx) matches Ok(total) ==> total == owed)
            &&& (claimable_income(ctx) matches Ok(total) ==> total >= p.pending_rental_income
                && is_floor_quotient(
                total - p.pending_rental_income,
                p.tokens_held * (l.reward_per_token_stored - p.reward_per_token_paid),
                PRECISION as int,
            ))
        }),
{
    let p = ctx.investor_position;
    let l = ctx.listing;
    law_settle_income(p.tokens_held, p.reward_per_token_paid, p.pending_rental_income, l.reward_per_token_stored);
    if p.reward_per_token_paid <= l.reward_per_token_stored {
        vstd::arithmetic::mul::lemma_mul_nonnegative(
            p.tokens_held as int,
            l.reward_per_token_stored - p.reward_per_token_paid,
        );
        lemma_floor_quotient(p.tokens_held * (l.reward_per_token_stored - p.reward_per_token_paid), PRECISION as int);
    }
}

/// A redemption request is taken exactly when the position is the caller's,
/// the listing is active or completed, no request is open and the holding
/// reaches the listing's threshold, whatever the position's rental income.
pub proof fn law_request_redemption_accepted(ctx: RequestRedemption)
    ensures
        request_redemption_failure(ctx) is None <==> ({
            &&& ctx.investor_position.investor == ctx.investor
            &&& (ctx.listing.status == PropertyStatus::Active || ctx.listing.status == PropertyStatus::Completed)
            &&& !ctx.investor_position.redemption_requested
            &&& ctx.investor_position.tokens_held >= ctx.listing.unit_threshold_tokens
        }),
{
}

/// A redemption is approved exactly when the signer is the sponsor, the
/// position and its token account are the investor's and of the listing's
/// property mint, a request is open and not yet approved, the holding
/// reaches the threshold and is within the tokens sold.
pub proof fn law_approve_redemption_accepted(ctx: ApproveRedemption)
    ensures
        approve_redemption_failure(ctx) is None <==> ({
            let l = ctx.listing;
            let p = ctx.investor_position;
            &&& l.authority == ctx.authority
            &&& p.investor == ctx.investor
            &&& ctx.investor_property_token_account.owner == ctx.investor
            &&& ctx.investor_property_token_account.mint == l.property_mint
            &&& ctx.property_mint == l.property_mint
            &&& p.redemption_requested
            &&& !p.redemption_approved
            &&& p.tokens_held >= l.unit_threshold_tokens
            &&& p.tokens_held <= l.tokens_sold
        }),
{
}

/// Escrow is released exactly when the signer is the sponsor, the vaults
/// are the listing's and the sponsor's, the listing is funded and the
/// escrow holds something.
pub proof fn law_release_escrow_accepted(ctx: ReleaseEscrow)
    ensures
        release_escrow_failure(ctx) is None <==> ({
            &&& ctx.listing.authority == ctx.authority
            &&& ctx.escrow_vault.key == ctx.listing.escrow_vault
            &&& ctx.authority_usdc_account.owner == ctx.authority
            &&& ctx.authority_usdc_account.mint == ctx.listing.usdc_mint
            &&& ctx.listing.status == PropertyStatus::Funded
            &&& ctx.escrow_vault.amount > 0
        }),
{
}

/// A rental deposit is taken exactly when the signer is the sponsor paying
/// from its own USDC account into the listing's rental vault, the listing
/// is active, the amount is positive, tokens circulate and the grown
/// accumulator fits.
pub proof fn law_fund_rental_vault_accepted(ctx: FundRentalVault, amount: u64)
    ensures
        fund_rental_vault_failure(ctx, amount) is None <==> ({
            let l = ctx.listing;
            &&& l.authority == ctx.authority
            &&& ctx.authority_usdc_account.owner == ctx.authority
            &&& ctx.authority_usdc_account.mint == l.usdc_mint
            &&& ctx.rental_vault == l.rental_vault
            &&& l.status == PropertyStatus::Active
            &&& amount > 0
            &&& l.tokens_sold > 0
            &&& l.reward_per_token_stored + amount * PRECISION / (l.tokens_sold as int) <= u128::MAX
        }),
{
}

/// A listing is cancelled exactly when the signer is its sponsor and it is
/// fundraising, however much it has already raised.
pub proof fn law_cancel_listing_accepted(ctx: CancelListing)
    ensures
        cancel_listing_failure(ctx) is None <==> (ctx.listing.authority == ctx.authority && ctx.listing.status
            == PropertyStatus::Fundraising),
{
}

/// A metadata URI is replaced exactly when the signer is the sponsor and the
/// new URI is 11 to 200 bytes and starts with `https://` or `ipfs://`.
pub proof fn law_update_metadata_uri_accepted(ctx: UpdateMetadataUri, new_uri: Seq<u8>)
    ensures
        update_metadata_uri_failure(ctx, new_uri) is None <==> (ctx.listing.authority == ctx.authority && 10
            < new_uri.len() <= 200 && (starts_https(new_uri) || starts_ipfs(new_uri))),
{
    law_uri_accepted(new_uri);
}

} // verus!
