use vstd::prelude::*;

use crate::error::ErrorCode;
use crate::key::Pubkey;

verus! {

/// A plan becomes active once its deposits reach this many monthly payouts.
pub const START_THRESHOLD_MULTIPLIER: u64 = 100;
/// Numerator of the factor by which the monthly payout grows after each payout.
pub const GROWTH_FACTOR_NUMERATOR: u128 = 1_003_726;
/// Denominator of the factor by which the monthly payout grows after each payout.
pub const GROWTH_FACTOR_DENOMINATOR: u128 = 1_000_000;
/// Base units in one tBTC.
pub const TBTC_DECIMALS: u128 = 100_000_000;
/// Base units in one USDT.
pub const USDT_DECIMALS: u64 = 1_000_000;

/// The state of one payout plan.
#[derive(Debug, Clone)]
pub struct PayoutPlan {
    pub owner: Pubkey,
    pub monthly_usdt_payout: u64,
    pub current_payout_usdt: u128,
    pub total_deposited_usdt: u128,
    pub total_withdrawn_usdt: u128,
    pub metadata_uri: String,
    pub nft_mint: Option<Pubkey>,
    pub is_active: bool,
    pub emergency_triggered: bool,
}

/// Deposits that a plan with this monthly payout needs before it becomes active.
pub open spec fn threshold_of(monthly_usdt_payout: u64) -> int {
    monthly_usdt_payout * START_THRESHOLD_MULTIPLIER
}

/// What is left of the deposits after the withdrawals, never below zero.
pub open spec fn available_of(p: PayoutPlan) -> int {
    if p.total_deposited_usdt >= p.total_withdrawn_usdt {
        p.total_deposited_usdt - p.total_withdrawn_usdt
    } else {
        0
    }
}

/// The monthly payout that follows a payout of `cur`: `cur` grown by the growth factor, rounded down.
pub open spec fn grown_payout(cur: int) -> int {
    cur * GROWTH_FACTOR_NUMERATOR / (GROWTH_FACTOR_DENOMINATOR as int)
}

/// The tBTC amount, in base units, worth `amount_usdt` at `price_usdt_per_tbtc`, or why it cannot be given.
pub open spec fn conversion(amount_usdt: u128, price_usdt_per_tbtc: u128) -> Result<u64, ErrorCode> {
    if price_usdt_per_tbtc == 0 {
        Err(ErrorCode::PriceCannotBeZero)
    } else if amount_usdt * TBTC_DECIMALS > u128::MAX {
        Err(ErrorCode::MathOverflow)
    } else if amount_usdt * TBTC_DECIMALS / (price_usdt_per_tbtc as int) > u64::MAX {
        Err(ErrorCode::TbtcConversionOverflow)
    } else {
        Ok((amount_usdt * TBTC_DECIMALS / (price_usdt_per_tbtc as int)) as u64)
    }
}

/// The plan after a funding attempt of `amount_usdt` with `nft_mint`, and the attempt's outcome.
pub open spec fn funding_step(p: PayoutPlan, amount_usdt: u64, nft_mint: Option<Pubkey>) -> (
    PayoutPlan,
    Result<(), ErrorCode>,
) {
    if amount_usdt == 0 {
        (p, Err(ErrorCode::ZeroFundingAmount))
    } else if p.emergency_triggered {
        (p, Err(ErrorCode::EmergencyModeActive))
    } else if p.nft_mint is None && nft_mint is None {
        (p, Err(ErrorCode::NftMintRequired))
    } else if p.nft_mint is Some && nft_mint is Some && p.nft_mint != nft_mint {
        (p, Err(ErrorCode::NftMintMismatch))
    } else {
        let bound = PayoutPlan { nft_mint: if p.nft_mint is None { nft_mint } else { p.nft_mint }, ..p };
        let total = p.total_deposited_usdt + amount_usdt;
        if total > u128::MAX {
            (bound, Err(ErrorCode::MathOverflow))
        } else {
            (
                PayoutPlan {
                    total_deposited_usdt: total as u128,
                    is_active: p.is_active || total >= threshold_of(p.monthly_usdt_payout),
                    ..bound
                },
                Ok(()),
            )
        }
    }
}

/// The plan after a payout attempt at `price_usdt_per_tbtc`, and the attempt's outcome:
/// the USDT amount paid and its tBTC worth.
pub open spec fn payout_step(p: PayoutPlan, price_usdt_per_tbtc: u128) -> (
    PayoutPlan,
    Result<(u128, u64), ErrorCode>,
) {
    let cur = p.current_payout_usdt;
    if !p.is_active {
        (p, Err(ErrorCode::PlanInactive))
    } else if p.emergency_triggered {
        (p, Err(ErrorCode::EmergencyModeActive))
    } else if cur == 0 {
        (p, Err(ErrorCode::NothingToPayout))
    } else if available_of(p) < cur {
        (p, Err(ErrorCode::InsufficientBalance))
    } else {
        match conversion(cur, price_usdt_per_tbtc) {
            Err(e) => (p, Err(e)),
            Ok(tbtc) => {
                let paid = PayoutPlan {
                    total_withdrawn_usdt: (p.total_withdrawn_usdt + cur) as u128,
                    ..p
                };
                if cur * GROWTH_FACTOR_NUMERATOR > u128::MAX {
                    (paid, Err(ErrorCode::MathOverflow))
                } else {
                    (
                        PayoutPlan { current_payout_usdt: grown_payout(cur as int) as u128, ..paid },
                        Ok((cur, tbtc)),
                    )
                }
            },
        }
    }
}

/// The plan after an attempt to enter emergency mode, and the attempt's outcome.
pub open spec fn emergency_step(p: PayoutPlan) -> (PayoutPlan, Result<(), ErrorCode>) {
    if p.emergency_triggered {
        (p, Err(ErrorCode::EmergencyAlreadyTriggered))
    } else {
        (PayoutPlan { emergency_triggered: true, is_active: false, ..p }, Ok(()))
    }
}

/// The plan after an emergency withdrawal attempt at `price_usdt_per_tbtc`, and the attempt's
/// outcome: the USDT amount withdrawn and its tBTC worth.
pub open spec fn withdrawal_step(p: PayoutPlan, price_usdt_per_tbtc: u128) -> (
    PayoutPlan,
    Result<(u128, u64), ErrorCode>,
) {
    let amount = available_of(p);
    if !p.emergency_triggered {
        (p, Err(ErrorCode::EmergencyNotTriggered))
    } else if amount == 0 {
        (p, Ok((0, 0)))
    } else {
        match conversion(amount as u128, price_usdt_per_tbtc) {
            Err(e) => (p, Err(e)),
            Ok(tbtc) => (
                PayoutPlan {
                    total_withdrawn_usdt: (p.total_withdrawn_usdt + amount) as u128,
                    is_active: false,
                    ..p
                },
                Ok((amount as u128, tbtc)),
            ),
        }
    }
}

/// `u128::saturating_mul`: the product, or `u128::MAX` where it would not fit.
#[verifier::external_body]
fn u128_saturating_mul(x: u128, y: u128) -> (r: u128)
    ensures
        r == (if x * y > u128::MAX { u128::MAX as int } else { x * y }),
{
    x.saturating_mul(y)
}

impl PayoutPlan {
    /// Longest metadata URI, in bytes, that a plan accepts.
    pub const MAX_METADATA_LEN: usize = 128;
    /// Bytes that the plan's fields take on chain, besides the metadata URI's own bytes.
    pub const BASE_SIZE: usize = 32 + 8 + 16 + 16 + 16 + 4 + 33 + 1 + 1;

    /// Deposits needed before the plan becomes active.
    pub fn activation_threshold(&self) -> (t: u128)
        ensures
            t == threshold_of(self.monthly_usdt_payout),
    {
        u128_saturating_mul(self.monthly_usdt_payout as u128, START_THRESHOLD_MULTIPLIER as u128)
    }

    /// Deposits not yet paid out.
    pub fn available_balance(&self) -> (a: u128)
        ensures
            a == available_of(*self),
    {
        self.total_deposited_usdt.saturating_sub(self.total_withdrawn_usdt)
    }

    /// Records a deposit of `amount_usdt`, binding the plan to `nft_mint` on its first deposit.
    pub fn record_funding(&mut self, amount_usdt: u64, nft_mint: Option<Pubkey>) -> (r: Result<(), ErrorCode>)
        ensures
            (*final(self), r) == funding_step(*old(self), amount_usdt, nft_mint),
    {
        if amount_usdt == 0 {
            return Err(ErrorCode::ZeroFundingAmount);
        }
        if self.emergency_triggered {
            return Err(ErrorCode::EmergencyModeActive);
        }
        match (self.nft_mint, nft_mint) {
            (None, Some(mint)) => {
                self.nft_mint = Some(mint);
            },
            (None, None) => {
                return Err(ErrorCode::NftMintRequired);
            },
            (Some(existing), Some(mint)) => {
                if existing != mint {
                    return Err(ErrorCode::NftMintMismatch);
                }
            },
            (Some(_), None) => {},
        }
        let amount = amount_usdt as u128;
        match self.total_deposited_usdt.checked_add(amount) {
            Some(total) => {
                self.total_deposited_usdt = total;
            },
            None => {
                return Err(ErrorCode::MathOverflow);
            },
        }
        if !self.is_active && self.total_deposited_usdt >= self.activation_threshold() {
            self.is_active = true;
        }
        Ok(())
    }

    /// Pays out the current monthly payout at `price_usdt_per_tbtc` and grows the next one.
    /// Returns the USDT amount paid and its tBTC worth.
    pub fn execute_payout_internal(&mut self, price_usdt_per_tbtc: u128) -> (r: Result<(u128, u64), ErrorCode>)
        ensures
            (*final(self), r) == payout_step(*old(self), price_usdt_per_tbtc),
    {
        if !self.is_active {
            return Err(ErrorCode::PlanInactive);
        }
        if self.emergency_triggered {
            return Err(ErrorCode::EmergencyModeActive);
        }
        if self.current_payout_usdt == 0 {
            return Err(ErrorCode::NothingToPayout);
        }
        let available = self.available_balance();
        if available < self.current_payout_usdt {
            return Err(ErrorCode::InsufficientBalance);
        }
        let payout_usdt = self.current_payout_usdt;
        let payout_tbtc = match convert_usdt_to_tbtc(payout_usdt, price_usdt_per_tbtc) {
            Ok(t) => t,
            Err(e) => {
                return Err(e);
            },
        };
        match self.total_withdrawn_usdt.checked_add(payout_usdt) {
            Some(total) => {
                self.total_withdrawn_usdt = total;
            },
            None => {
                return Err(ErrorCode::MathOverflow);
            },
        }
        match self.current_payout_usdt.checked_mul(GROWTH_FACTOR_NUMERATOR) {
            Some(scaled) => {
                self.current_payout_usdt = scaled / GROWTH_FACTOR_DENOMINATOR;
            },
            None => {
                return Err(ErrorCode::MathOverflow);
            },
        }
        Ok((payout_usdt, payout_tbtc))
    }

    /// Puts the plan into emergency mode, which also deactivates it.
    pub fn trigger_emergency(&mut self) -> (r: Result<(), ErrorCode>)
        ensures
            (*final(self), r) == emergency_step(*old(self)),
    {
        if self.emergency_triggered {
            return Err(ErrorCode::EmergencyAlreadyTriggered);
        }
        self.emergency_triggered = true;
        self.is_active = false;
        Ok(())
    }

    /// In emergency mode, withdraws the whole available balance at `price_usdt_per_tbtc`.
    /// Returns the USDT amount withdrawn and its tBTC worth.
    pub fn emergency_withdraw_internal(&mut self, price_usdt_per_tbtc: u128) -> (r: Result<(u128, u64), ErrorCode>)
        ensures
            (*final(self), r) == withdrawal_step(*old(self), price_usdt_per_tbtc),
    {
        if !self.emergency_triggered {
            return Err(ErrorCode::EmergencyNotTriggered);
        }
        let amount_usdt = self.available_balance();
        if amount_usdt == 0 {
            return Ok((0, 0));
        }
        let amount_tbtc = match convert_usdt_to_tbtc(amount_usdt, price_usdt_per_tbtc) {
            Ok(t) => t,
            Err(e) => {
                return Err(e);
            },
        };
        match self.total_withdrawn_usdt.checked_add(amount_usdt) {
            Some(total) => {
                self.total_withdrawn_usdt = total;
            },
            None => {
                return Err(ErrorCode::MathOverflow);
            },
        }
        self.is_active = false;
        Ok((amount_usdt, amount_tbtc))
    }
}

/// The tBTC amount, in base units, worth `amount_usdt` at `price_usdt_per_tbtc` (USDT base units
/// per whole tBTC), rounded down.
pub fn convert_usdt_to_tbtc(amount_usdt: u128, price_usdt_per_tbtc: u128) -> (r: Result<u64, ErrorCode>)
    ensures
        r == conversion(amount_usdt, price_usdt_per_tbtc),
{
    if price_usdt_per_tbtc == 0 {
        return Err(ErrorCode::PriceCannotBeZero);
    }
    let numerator = match amount_usdt.checked_mul(TBTC_DECIMALS) {
        Some(n) => n,
        None => {
            return Err(ErrorCode::MathOverflow);
        },
    };
    let amount_tbtc = numerator / price_usdt_per_tbtc;
    if amount_tbtc > u64::MAX as u128 {
        return Err(ErrorCode::TbtcConversionOverflow);
    }
    Ok(amount_tbtc as u64)
}

} // verus!
