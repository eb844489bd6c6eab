use vstd::prelude::*;

verus! {

/// Longest listing name, in bytes.
pub const MAX_NAME_LEN: usize = 50;

/// Longest listing symbol, in bytes.
pub const MAX_SYMBOL_LEN: usize = 10;

/// Longest metadata URI, in bytes.
pub const MAX_URI_LEN: usize = 200;

/// Fixed-point scale of the rental reward accumulator.
pub const PRECISION: u128 = 1_000_000_000_000;

/// Largest rental yield, in basis points (100%).
pub const MAX_RENTAL_YIELD_BPS: u16 = 10_000;

} // verus!
