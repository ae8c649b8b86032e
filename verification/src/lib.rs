//! Verified core of a monthly payout plan: funding, activation, growing
//! monthly payouts converted at a given price, and an emergency exit.

pub mod key;
pub mod error;
pub mod plan;
pub mod events;
pub mod payout_plan;
pub mod laws;
