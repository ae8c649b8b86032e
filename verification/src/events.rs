use vstd::prelude::*;

use crate::key::Pubkey;

verus! {

/// Reported when a plan is created.
#[derive(Debug, Clone)]
pub struct PlanInitialized {
    pub plan: Pubkey,
    pub owner: Pubkey,
    pub monthly_usdt_payout: u128,
    pub metadata_uri: String,
}

/// Reported when a plan receives a deposit.
#[derive(Debug, Clone, Copy)]
pub struct PlanFunded {
    pub plan: Pubkey,
    pub amount_usdt: u128,
    pub total_deposited_usdt: u128,
    pub is_active: bool,
}

/// Reported when a monthly payout is made.
#[derive(Debug, Clone, Copy)]
pub struct PayoutExecuted {
    pub plan: Pubkey,
    pub payout_usdt: u128,
    pub payout_tbtc: u64,
    pub price_usdt_per_tbtc: u128,
    pub next_payout_usdt: u128,
}

/// Reported when a plan enters emergency mode.
#[derive(Debug, Clone, Copy)]
pub struct EmergencyTriggered {
    pub plan: Pubkey,
}

/// Reported when the balance of a plan in emergency mode is withdrawn.
#[derive(Debug, Clone, Copy)]
pub struct EmergencyWithdrawal {
    pub plan: Pubkey,
    pub amount_usdt: u128,
    pub amount_tbtc: u64,
    pub price_usdt_per_tbtc: u128,
}

} // verus!
