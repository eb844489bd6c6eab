use vstd::prelude::*;

use crate::constants::PRECISION;
use crate::errors::ErrorCode;

verus! {

/// `a * b` when it fits in a `u64`.
pub open spec fn spec_checked_mul_u64(a: u64, b: u64) -> Result<u64, ErrorCode> {
    if a * b <= u64::MAX {
        Ok((a * b) as u64)
    } else {
        Err(ErrorCode::Overflow)
    }
}

/// Growth of the reward-per-token accumulator when `amount` of income is
/// spread over `tokens_in_circulation` tokens, scaled by `PRECISION` and
/// rounded down.
pub open spec fn reward_delta(amount: int, tokens_in_circulation: int) -> int {
    amount * (PRECISION as int) / tokens_in_circulation
}

/// Income owed to `tokens_held` tokens for an accumulator growth of `delta`,
/// rounded down.
pub open spec fn pending_income(tokens_held: int, delta: int) -> int {
    tokens_held * delta / (PRECISION as int)
}

/// What `calculate_reward_delta` gives back.
pub open spec fn spec_calculate_reward_delta(amount: u64, tokens_in_circulation: u64) -> Result<u128, ErrorCode> {
    if tokens_in_circulation == 0 {
        Err(ErrorCode::InvalidAmount)
    } else {
        Ok(reward_delta(amount as int, tokens_in_circulation as int) as u128)
    }
}

/// What `calculate_pending_income` gives back.
pub open spec fn spec_calculate_pending_income(tokens_held: u64, delta: u128) -> Result<u64, ErrorCode> {
    if tokens_held * delta > u128::MAX || pending_income(tokens_held as int, delta as int) > u64::MAX {
        Err(ErrorCode::Overflow)
    } else {
        Ok(pending_income(tokens_held as int, delta as int) as u64)
    }
}

/// Multiplies two `u64`s, failing with `Overflow` when the product does not
/// fit in a `u64`.
pub fn checked_mul_u64(a: u64, b: u64) -> (r: Result<u64, ErrorCode>)
    ensures
        r == spec_checked_mul_u64(a, b),
{
    proof {
        vstd::arithmetic::mul::lemma_mul_upper_bound(a as int, u64::MAX as int, b as int, u64::MAX as int);
    }
    let product = (a as u128).checked_mul(b as u128);
    match product {
        Some(p) => {
            if p <= u64::MAX as u128 {
                Ok(p as u64)
            } else {
                Err(ErrorCode::Overflow)
            }
        },
        None => Err(ErrorCode::Overflow),
    }
}

/// Accumulator growth when `amount` of rental income is spread over
/// `tokens_in_circulation` tokens; `InvalidAmount` when no token circulates.
pub fn calculate_reward_delta(amount: u64, tokens_in_circulation: u64) -> (r: Result<u128, ErrorCode>)
    ensures
        r == spec_calculate_reward_delta(amount, tokens_in_circulation),
{
    if tokens_in_circulation == 0 {
        return Err(ErrorCode::InvalidAmount);
    }
    proof {
        vstd::arithmetic::mul::lemma_mul_upper_bound(amount as int, u64::MAX as int, PRECISION as int, PRECISION as int);
    }
    let product = match (amount as u128).checked_mul(PRECISION) {
        Some(p) => p,
        None => return Err(ErrorCode::Overflow),
    };
    match product.checked_div(tokens_in_circulation as u128) {
        Some(q) => Ok(q),
        None => Err(ErrorCode::Overflow),
    }
}

/// Income owed to `tokens_held` tokens for an accumulator growth of
/// `reward_per_token_delta`; `Overflow` when an intermediate value or the
/// result does not fit.
pub fn calculate_pending_income(tokens_held: u64, reward_per_token_delta: u128) -> (r: Result<u64, ErrorCode>)
    ensures
        r == spec_calculate_pending_income(tokens_held, reward_per_token_delta),
{
    let product = match (tokens_held as u128).checked_mul(reward_per_token_delta) {
        Some(p) => p,
        None => return Err(ErrorCode::Overflow),
    };
    let quotient = match product.checked_div(PRECISION) {
        Some(q) => q,
        None => return Err(ErrorCode::Overflow),
    };
    if quotient <= u64::MAX as u128 {
        Ok(quotient as u64)
    } else {
        Err(ErrorCode::Overflow)
    }
}

/// The income a position is owed once its reward checkpoint `paid` catches
/// up with the listing's accumulator `stored`: what was already pending plus
/// what accrued on `tokens_held` tokens since the checkpoint.
pub open spec fn spec_settle_income(tokens_held: u64, paid: u128, pending: u64, stored: u128) -> Result<u64, ErrorCode> {
    if stored < paid {
        Err(ErrorCode::Underflow)
    } else {
        match spec_calculate_pending_income(tokens_held, (stored - paid) as u128) {
            Err(e) => Err(e),
            Ok(accrued) => if pending + accrued > u64::MAX {
                Err(ErrorCode::Overflow)
            } else {
                Ok((pending + accrued) as u64)
            },
        }
    }
}

/// The income a position is owed once its reward checkpoint catches up with
/// the accumulator: `Underflow` when the checkpoint is ahead of the
/// accumulator, `Overflow` when a sum does not fit.
pub fn settle_income(tokens_held: u64, paid: u128, pending: u64, stored: u128) -> (r: Result<u64, ErrorCode>)
    ensures
        r == spec_settle_income(tokens_held, paid, pending, stored),
{
    let delta = match stored.checked_sub(paid) {
        Some(d) => d,
        None => return Err(ErrorCode::Underflow),
    };
    let accrued = match calculate_pending_income(tokens_held, delta) {
        Ok(a) => a,
        Err(e) => return Err(e),
    };
    match pending.checked_add(accrued) {
        Some(total) => Ok(total),
        None => Err(ErrorCode::Overflow),
    }
}

} // verus!
