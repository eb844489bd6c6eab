use vstd::prelude::*;

use crate::admin_instructions::approve_redemption_failure;
use crate::constants::PRECISION;
use crate::contexts::{ApproveRedemption, ClaimRefund, ClaimRentalIncome, RequestRedemption};
use crate::errors::ErrorCode;
use crate::investor_instructions::{
    claim_refund_accounts_valid, claim_refund_failure, claim_rental_income_failure,
    refund_window_open, request_redemption_failure,
};
use crate::math::{pending_income, reward_delta};
use crate::state::InvestorPosition;

verus! {

/// The tokens held across a sequence of positions.
pub open spec fn total_held(holdings: Seq<u64>) -> int
    decreases holdings.len(),
{
    if holdings.len() == 0 {
        0
    } else {
        total_held(holdings.drop_last()) + holdings.last()
    }
}

/// The rental income owed across a sequence of positions for an
/// accumulator growth of `delta`.
pub open spec fn total_payout(holdings: Seq<u64>, delta: int) -> int
    decreases holdings.len(),
{
    if holdings.len() == 0 {
        0
    } else {
        total_payout(holdings.drop_last(), delta) + pending_income(holdings.last() as int, delta)
    }
}

/// Rounding down never pays more than the exact quotient: `(x / d) * d <= x`.
proof fn lemma_floor_times_divisor(x: int, d: int)
    requires
        x >= 0,
        d > 0,
    ensures
        (x / d) * d <= x,
        x < (x / d) * d + d,
        0 <= x / d,
{
    vstd::arithmetic::div_mod::lemma_fundamental_div_mod(x, d);
    vstd::arithmetic::div_mod::lemma_mod_bound(x, d);
    vstd::arithmetic::mul::lemma_mul_is_commutative(d, x / d);
    vstd::arithmetic::div_mod::lemma_div_pos_is_pos(x, d);
}

/// Scaled by `PRECISION`, what a sequence of positions is owed is at most
/// its tokens times the accumulator growth.
proof fn lemma_total_payout_scaled(holdings: Seq<u64>, delta: int)
    requires
        delta >= 0,
    ensures
        total_payout(holdings, delta) * PRECISION <= total_held(holdings) * delta,
        total_held(holdings) >= 0,
    decreases holdings.len(),
{
    if holdings.len() > 0 {
        let init = holdings.drop_last();
        let h = holdings.last() as int;
        lemma_total_payout_scaled(init, delta);
        vstd::arithmetic::mul::lemma_mul_nonnegative(h, delta);
        lemma_floor_times_divisor(h * delta, PRECISION as int);
        vstd::arithmetic::mul::lemma_mul_is_distributive_add_other_way(
            PRECISION as int,
            total_payout(init, delta),
            pending_income(h, delta),
        );
        vstd::arithmetic::mul::lemma_mul_is_distributive_add_other_way(delta, total_held(init), h);
    }
}

/// Rental income is never over-distributed: when `amount` is deposited for
/// the holders of all `total_held(holdings)` tokens in circulation, what
/// those holders can claim for it adds up to at most `amount`.
pub proof fn lemma_rental_payouts_bounded(holdings: Seq<u64>, amount: u64)
    requires
        total_held(holdings) > 0,
    ensures
        total_payout(holdings, reward_delta(amount as int, total_held(holdings))) <= amount,
{
    let c = total_held(holdings);
    let scaled = amount * PRECISION;
    vstd::arithmetic::mul::lemma_mul_nonnegative(amount as int, PRECISION as int);
    lemma_floor_times_divisor(scaled, c);
    let delta = reward_delta(amount as int, c);
    lemma_total_payout_scaled(holdings, delta);
    vstd::arithmetic::mul::lemma_mul_is_commutative(c, delta);
    let paid = total_payout(holdings, delta);
    if paid > amount {
        vstd::arithmetic::mul::lemma_mul_strict_inequality(amount as int, paid, PRECISION as int);
        assert(false);
    }
}

/// The rental income deposited by a sequence of deposits.
pub open spec fn total_deposited(deposits: Seq<u64>) -> int
    decreases deposits.len(),
{
    if deposits.len() == 0 {
        0
    } else {
        total_deposited(deposits.drop_last()) + deposits.last()
    }
}

/// The tokens of the first `m` positions still held at the `k`-th deposit:
/// position `i` holds `holdings[i]` tokens for the deposits before
/// `exits[i]`, and none after it leaves (a refund or a redemption burns the
/// whole holding).
pub open spec fn live_tokens(holdings: Seq<u64>, exits: Seq<int>, k: int, m: int) -> int
    decreases m,
{
    if m <= 0 {
        0
    } else {
        live_tokens(holdings, exits, k, m - 1) + if k < exits[m - 1] {
            holdings[m - 1] as int
        } else {
            0
        }
    }
}

/// The tokens in circulation at the `k`-th deposit.
pub open spec fn circulating(holdings: Seq<u64>, exits: Seq<int>, k: int) -> int {
    live_tokens(holdings, exits, k, holdings.len() as int)
}

/// The number of the first `n` deposits made while a position with exit
/// `exit` is held.
pub open spec fn held_for(exit: int, n: int) -> int {
    if exit < 0 {
        0
    } else if exit < n {
        exit
    } else {
        n
    }
}

/// The growth of the reward accumulator over the first `n` deposits, each
/// spread over the tokens circulating when it is made.
pub open spec fn growth_over(deposits: Seq<u64>, holdings: Seq<u64>, exits: Seq<int>, n: int) -> int
    decreases n,
{
    if n <= 0 {
        0
    } else {
        growth_over(deposits, holdings, exits, n - 1) + reward_delta(
            deposits[n - 1] as int,
            circulating(holdings, exits, n - 1),
        )
    }
}

/// What the first `m` positions can claim: each the income on its holding
/// for the accumulator's growth over the deposits made while it is held.
pub open spec fn claimable_over(deposits: Seq<u64>, holdings: Seq<u64>, exits: Seq<int>, m: int) -> int
    decreases m,
{
    if m <= 0 {
        0
    } else {
        claimable_over(deposits, holdings, exits, m - 1) + pending_income(
            holdings[m - 1] as int,
            growth_over(deposits, holdings, exits, held_for(exits[m - 1], deposits.len() as int)),
        )
    }
}

/// The first `m` holdings weighted by the accumulator growth each saw over
/// the first `n` deposits.
spec fn weighted_growth(deposits: Seq<u64>, holdings: Seq<u64>, exits: Seq<int>, m: int, n: int) -> int
    decreases m,
{
    if m <= 0 {
        0
    } else {
        weighted_growth(deposits, holdings, exits, m - 1, n) + holdings[m - 1] * growth_over(
            deposits,
            holdings,
            exits,
            held_for(exits[m - 1], n),
        )
    }
}

/// Every deposit is made while tokens circulate, as `fund_rental_vault`
/// requires.
pub open spec fn deposits_funded(deposits: Seq<u64>, holdings: Seq<u64>, exits: Seq<int>) -> bool {
    forall|k: int| 0 <= k < deposits.len() ==> #[trigger] circulating(holdings, exits, k) > 0
}

proof fn lemma_live_tokens_nonneg(holdings: Seq<u64>, exits: Seq<int>, k: int, m: int)
    requires
        0 <= m <= holdings.len(),
        exits.len() == holdings.len(),
    ensures
        live_tokens(holdings, exits, k, m) >= 0,
    decreases m,
{
    if m > 0 {
        lemma_live_tokens_nonneg(holdings, exits, k, m - 1);
    }
}

proof fn lemma_growth_nonneg(deposits: Seq<u64>, holdings: Seq<u64>, exits: Seq<int>, n: int)
    requires
        0 <= n <= deposits.len(),
        exits.len() == holdings.len(),
        deposits_funded(deposits, holdings, exits),
    ensures
        growth_over(deposits, holdings, exits, n) >= 0,
    decreases n,
{
    if n > 0 {
        lemma_growth_nonneg(deposits, holdings, exits, n - 1);
        let c = circulating(holdings, exits, n - 1);
        vstd::arithmetic::mul::lemma_mul_nonnegative(deposits[n - 1] as int, PRECISION as int);
        lemma_floor_times_divisor(deposits[n - 1] * PRECISION, c);
    }
}

proof fn lemma_weighted_growth_start(deposits: Seq<u64>, holdings: Seq<u64>, exits: Seq<int>, m: int)
    requires
        0 <= m <= holdings.len(),
        exits.len() == holdings.len(),
    ensures
        weighted_growth(deposits, holdings, exits, m, 0) == 0,
    decreases m,
{
    if m > 0 {
        lemma_weighted_growth_start(deposits, holdings, exits, m - 1);
        assert(holdings[m - 1] * growth_over(deposits, holdings, exits, 0) == 0);
    }
}

/// One more deposit adds its growth times the tokens then held.
proof fn lemma_weighted_growth_step(deposits: Seq<u64>, holdings: Seq<u64>, exits: Seq<int>, m: int, n: int)
    requires
        0 <= m <= holdings.len(),
        exits.len() == holdings.len(),
        0 <= n < deposits.len(),
    ensures
        weighted_growth(deposits, holdings, exits, m, n + 1) == weighted_growth(deposits, holdings, exits, m, n)
            + reward_delta(deposits[n] as int, circulating(holdings, exits, n)) * live_tokens(
            holdings,
            exits,
            n,
            m,
        ),
    decreases m,
{
    let d = reward_delta(deposits[n] as int, circulating(holdings, exits, n));
    if m == 0 {
        assert(d * live_tokens(holdings, exits, n, 0) == 0);
    } else {
        lemma_weighted_growth_step(deposits, holdings, exits, m - 1, n);
        let e = exits[m - 1];
        let h = holdings[m - 1] as int;
        let before = live_tokens(holdings, exits, n, m - 1);
        if n < e {
            assert(held_for(e, n) == n);
            assert(held_for(e, n + 1) == n + 1);
            let g = growth_over(deposits, holdings, exits, n);
            assert(growth_over(deposits, holdings, exits, n + 1) == g + d);
            vstd::arithmetic::mul::lemma_mul_is_distributive_add(h, g, d);
            vstd::arithmetic::mul::lemma_mul_is_distributive_add(d, before, h);
            vstd::arithmetic::mul::lemma_mul_is_commutative(h, d);
        } else {
            assert(held_for(e, n) == held_for(e, n + 1));
        }
    }
}

proof fn lemma_weighted_growth_bounded(deposits: Seq<u64>, holdings: Seq<u64>, exits: Seq<int>, n: int)
    requires
        0 <= n <= deposits.len(),
        exits.len() == holdings.len(),
        deposits_funded(deposits, holdings, exits),
    ensures
        weighted_growth(deposits, holdings, exits, holdings.len() as int, n) <= total_deposited(deposits.take(n))
            * PRECISION,
    decreases n,
{
    let m = holdings.len() as int;
    if n == 0 {
        lemma_weighted_growth_start(deposits, holdings, exits, m);
        assert(deposits.take(0).len() == 0);
    } else {
        lemma_weighted_growth_bounded(deposits, holdings, exits, n - 1);
        lemma_weighted_growth_step(deposits, holdings, exits, m, n - 1);
        let c = circulating(holdings, exits, n - 1);
        assert(c > 0);
        let a = deposits[n - 1] as int;
        vstd::arithmetic::mul::lemma_mul_nonnegative(a, PRECISION as int);
        lemma_floor_times_divisor(a * PRECISION, c);
        assert(deposits.take(n).drop_last() =~= deposits.take(n - 1));
        vstd::arithmetic::mul::lemma_mul_is_distributive_add_other_way(
            PRECISION as int,
            total_deposited(deposits.take(n - 1)),
            a,
        );
    }
}

proof fn lemma_claimable_scaled(deposits: Seq<u64>, holdings: Seq<u64>, exits: Seq<int>, m: int)
    requires
        0 <= m <= holdings.len(),
        exits.len() == holdings.len(),
        deposits_funded(deposits, holdings, exits),
    ensures
        claimable_over(deposits, holdings, exits, m) * PRECISION <= weighted_growth(
            deposits,
            holdings,
            exits,
            m,
            deposits.len() as int,
        ),
    decreases m,
{
    if m > 0 {
        lemma_claimable_scaled(deposits, holdings, exits, m - 1);
        let h = holdings[m - 1] as int;
        let n = held_for(exits[m - 1], deposits.len() as int);
        lemma_growth_nonneg(deposits, holdings, exits, n);
        let g = growth_over(deposits, holdings, exits, n);
        vstd::arithmetic::mul::lemma_mul_nonnegative(h, g);
        lemma_floor_times_divisor(h * g, PRECISION as int);
        vstd::arithmetic::mul::lemma_mul_is_distributive_add_other_way(
            PRECISION as int,
            claimable_over(deposits, holdings, exits, m - 1),
            pending_income(h, g),
        );
    }
}

/// Rental income is never over-distributed, over any number of deposits
/// and while holders leave: when each position holds its tokens for the
/// deposits before its exit and every deposit is spread over the tokens
/// circulating when it is made, what all positions can claim for the
/// deposits made while they hold adds up to at most what was deposited.
pub proof fn lemma_rental_payouts_bounded_over_deposits(
    deposits: Seq<u64>,
    holdings: Seq<u64>,
    exits: Seq<int>,
)
    requires
        exits.len() == holdings.len(),
        deposits_funded(deposits, holdings, exits),
    ensures
        claimable_over(deposits, holdings, exits, holdings.len() as int) <= total_deposited(deposits),
{
    let m = holdings.len() as int;
    lemma_claimable_scaled(deposits, holdings, exits, m);
    lemma_weighted_growth_bounded(deposits, holdings, exits, deposits.len() as int);
    assert(deposits.take(deposits.len() as int) =~= deposits);
    let paid = claimable_over(deposits, holdings, exits, m);
    if paid > total_deposited(deposits) {
        vstd::arithmetic::mul::lemma_mul_strict_inequality(total_deposited(deposits), paid, PRECISION as int);
        assert(false);
    }
}

/// Settling in pieces pays no more than settling once: the income on a
/// holding for two successive accumulator growths is at most the income for
/// their sum.
pub proof fn lemma_settling_in_pieces(tokens_held: u64, first: int, second: int)
    requires
        first >= 0,
        second >= 0,
    ensures
        pending_income(tokens_held as int, first) + pending_income(tokens_held as int, second)
            <= pending_income(tokens_held as int, first + second),
{
    let h = tokens_held as int;
    let p = PRECISION as int;
    vstd::arithmetic::mul::lemma_mul_nonnegative(h, first);
    vstd::arithmetic::mul::lemma_mul_nonnegative(h, second);
    lemma_floor_times_divisor(h * first, p);
    lemma_floor_times_divisor(h * second, p);
    vstd::arithmetic::mul::lemma_mul_is_distributive_add(h, first, second);
    lemma_floor_times_divisor(h * (first + second), p);
    let a = pending_income(h, first);
    let b = pending_income(h, second);
    let total = pending_income(h, first + second);
    vstd::arithmetic::mul::lemma_mul_is_distributive_add_other_way(p, a, b);
    if a + b > total {
        vstd::arithmetic::mul::lemma_mul_inequality(total + 1, a + b, p);
        vstd::arithmetic::mul::lemma_mul_is_distributive_add_other_way(p, total, 1);
        assert(false);
    }
}

/// Each holder's claim on a deposit is its pro-rata share, rounded down:
/// holding `tokens_held` of `tokens_in_circulation` tokens, it is owed at
/// most `amount * tokens_held / tokens_in_circulation`, and less than that
/// by under one unit plus `tokens_held / PRECISION`.
pub proof fn lemma_rental_payout_pro_rata(tokens_held: u64, tokens_in_circulation: u64, amount: u64)
    requires
        tokens_in_circulation > 0,
    ensures
        pending_income(tokens_held as int, reward_delta(amount as int, tokens_in_circulation as int))
            * tokens_in_circulation <= amount * tokens_held,
        amount * tokens_held * PRECISION < (pending_income(
            tokens_held as int,
            reward_delta(amount as int, tokens_in_circulation as int),
        ) + 1) * tokens_in_circulation * PRECISION + tokens_held * tokens_in_circulation,
{
    let c = tokens_in_circulation as int;
    let h = tokens_held as int;
    let a = amount as int;
    let p = PRECISION as int;
    vstd::arithmetic::mul::lemma_mul_nonnegative(a, p);
    lemma_floor_times_divisor(a * p, c);
    let delta = reward_delta(a, c);
    vstd::arithmetic::mul::lemma_mul_nonnegative(h, delta);
    lemma_floor_times_divisor(h * delta, p);
    let share = pending_income(h, delta);
    assert(share * c <= a * h) by (nonlinear_arith)
        requires
            share * p <= h * delta,
            delta * c <= a * p,
            h >= 0,
            c > 0,
            p > 0,
            share >= 0,
    {
        assert(share * p * c <= h * delta * c);
        assert(h * delta * c <= h * a * p);
    }
    assert(a * h * p < (share + 1) * c * p + h * c) by (nonlinear_arith)
        requires
            h * delta < share * p + p,
            a * p < delta * c + c,
            h >= 0,
            c > 0,
            p > 0,
    {
        assert(h * delta * c <= share * p * c + p * c);
        assert(a * p * h <= delta * c * h + c * h);
    }
}

/// A redemption is requested once: right after a successful request,
/// requesting again is refused with `RedemptionAlreadyRequested`.
pub proof fn lemma_redemption_requested_once(ctx: RequestRedemption)
    requires
        request_redemption_failure(ctx) is None,
    ensures
        request_redemption_failure(
            RequestRedemption {
                investor_position: InvestorPosition { redemption_requested: true, ..ctx.investor_position },
                ..ctx
            },
        ) == Some(ErrorCode::RedemptionAlreadyRequested),
{
}

/// Refunds are open exactly on cancelled listings and on fundraising
/// listings past their deadline: with its accounts in order and USDC
/// invested, a position is refunded if and only if the window is open.
pub proof fn lemma_refund_window(ctx: ClaimRefund, now: i64)
    requires
        claim_refund_accounts_valid(ctx),
        ctx.investor_position.usdc_invested > 0,
        ctx.investor_position.tokens_held <= ctx.listing.tokens_sold,
    ensures
        claim_refund_failure(ctx, now) is None <==> refund_window_open(ctx.listing, now),
{
}

/// A refund of a position that agrees with its listing is never refused
/// with `Underflow`: the check is defensive.
pub proof fn lemma_consistent_refund_never_underflows(ctx: ClaimRefund, now: i64)
    requires
        ctx.investor_position.consistent_with(&ctx.listing),
    ensures
        claim_refund_failure(ctx, now) != Some(ErrorCode::Underflow),
{
}

/// Approving the redemption of a position that agrees with its listing is
/// never refused with `Underflow`: the check is defensive.
pub proof fn lemma_consistent_approval_never_underflows(ctx: ApproveRedemption)
    requires
        ctx.investor_position.consistent_with(&ctx.listing),
    ensures
        approve_redemption_failure(ctx) != Some(ErrorCode::Underflow),
{
}

/// A rental claim of a position that agrees with its listing is never
/// refused with `Underflow`: the check is defensive.
pub proof fn lemma_consistent_claim_never_underflows(ctx: ClaimRentalIncome)
    requires
        ctx.investor_position.consistent_with(&ctx.listing),
    ensures
        claim_rental_income_failure(ctx) != Some(ErrorCode::Underflow),
{
}

} // verus!
