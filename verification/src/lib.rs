//! Verified core of a tokenized real-estate fundraising program: listing
//! lifecycle, investment escrow, pro-rata rental income and redemption.
//!
//! Every instruction is a function from the accounts it reads (held as plain
//! values), its arguments and the current time to the accounts' new values
//! and the event that the instruction reports. Moving tokens between
//! accounts is left to the caller, which performs the transfers, mints and
//! burns that the returned event names.

pub mod constants;
pub mod errors;
pub mod math;
pub mod state;
pub mod validation;
pub mod events;
pub mod contexts;
pub mod investor_instructions;
pub mod admin_instructions;
pub mod steps;
pub mod laws;
pub mod sequence_laws;
pub mod operation_laws;
