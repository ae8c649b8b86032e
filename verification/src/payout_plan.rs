//! The plan's instructions: each checks who may call it, updates the plan and
//! returns the event that reports what happened.
use vstd::prelude::*;
use vstd::utf8::encode_utf8;

use crate::error::ErrorCode;
use crate::events::{
    EmergencyTriggered, EmergencyWithdrawal, PayoutExecuted, PlanFunded, PlanInitialized,
};
use crate::key::Pubkey;
use crate::plan::{emergency_step, funding_step, payout_step, withdrawal_step, PayoutPlan};

verus! {

/// A freshly created plan of `owner` with the given monthly payout and metadata URI.
pub open spec fn fresh_plan(owner: Pubkey, monthly_usdt_payout: u64, metadata_uri: String) -> PayoutPlan {
    PayoutPlan {
        owner,
        monthly_usdt_payout,
        current_payout_usdt: monthly_usdt_payout as u128,
        total_deposited_usdt: 0,
        total_withdrawn_usdt: 0,
        metadata_uri,
        nft_mint: None,
        is_active: false,
        emergency_triggered: false,
    }
}

/// Creates the plan stored at `plan_key`, owned by `authority`.
pub fn initialize_plan(
    plan_key: Pubkey,
    authority: Pubkey,
    monthly_usdt_payout: u64,
    metadata_uri: String,
) -> (r: Result<(PayoutPlan, PlanInitialized), ErrorCode>)
    requires
        encode_utf8(metadata_uri@).len() <= usize::MAX,
    ensures
        monthly_usdt_payout == 0 ==> r == Err::<(PayoutPlan, PlanInitialized), ErrorCode>(
            ErrorCode::InvalidMonthlyPayout,
        ),
        monthly_usdt_payout != 0 && encode_utf8(metadata_uri@).len() > PayoutPlan::MAX_METADATA_LEN
            ==> r == Err::<(PayoutPlan, PlanInitialized), ErrorCode>(
            ErrorCode::InvalidMetadataLength,
        ),
        monthly_usdt_payout != 0 && encode_utf8(metadata_uri@).len() <= PayoutPlan::MAX_METADATA_LEN
            ==> r == Ok::<(PayoutPlan, PlanInitialized), ErrorCode>(
            (
                fresh_plan(authority, monthly_usdt_payout, metadata_uri),
                PlanInitialized {
                    plan: plan_key,
                    owner: authority,
                    monthly_usdt_payout: monthly_usdt_payout as u128,
                    metadata_uri,
                },
            ),
        ),
{
    if monthly_usdt_payout == 0 {
        return Err(ErrorCode::InvalidMonthlyPayout);
    }
    if metadata_uri.as_str().len() > PayoutPlan::MAX_METADATA_LEN {
        return Err(ErrorCode::InvalidMetadataLength);
    }
    let plan = PayoutPlan {
        owner: authority,
        monthly_usdt_payout,
        current_payout_usdt: monthly_usdt_payout as u128,
        total_deposited_usdt: 0,
        total_withdrawn_usdt: 0,
        metadata_uri: metadata_uri.clone(),
        nft_mint: None,
        is_active: false,
        emergency_triggered: false,
    };
    let event = PlanInitialized {
        plan: plan_key,
        owner: plan.owner,
        monthly_usdt_payout: plan.monthly_usdt_payout as u128,
        metadata_uri,
    };
    Ok((plan, event))
}

/// The plan after the funding instruction, and the instruction's outcome: a refused deposit
/// leaves the plan as it was.
pub open spec fn fund_instruction(p: PayoutPlan, amount_usdt: u64, nft_mint: Option<Pubkey>) -> (
    PayoutPlan,
    Result<(), ErrorCode>,
) {
    let step = funding_step(p, amount_usdt, nft_mint);
    if step.1 is Ok {
        step
    } else {
        (p, step.1)
    }
}

/// An instruction that only the plan's owner may run: for any other `authority` it is refused
/// with `Unauthorized` and the plan stays as it was; for the owner it is `step`.
pub open spec fn owner_only<T>(p: PayoutPlan, authority: Pubkey, step: (PayoutPlan, Result<T, ErrorCode>)) -> (
    PayoutPlan,
    Result<T, ErrorCode>,
) {
    if authority != p.owner {
        (p, Err(ErrorCode::Unauthorized))
    } else {
        step
    }
}

/// The plan after the payout instruction, and the instruction's outcome.
pub open spec fn payout_instruction(p: PayoutPlan, authority: Pubkey, price_usdt_per_tbtc: u64) -> (
    PayoutPlan,
    Result<(u128, u64), ErrorCode>,
) {
    owner_only(p, authority, payout_step(p, price_usdt_per_tbtc as u128))
}

/// The plan after the emergency instruction, and the instruction's outcome.
pub open spec fn emergency_instruction(p: PayoutPlan, authority: Pubkey) -> (
    PayoutPlan,
    Result<(), ErrorCode>,
) {
    owner_only(p, authority, emergency_step(p))
}

/// The plan after the emergency withdrawal instruction, and the instruction's outcome.
pub open spec fn withdrawal_instruction(p: PayoutPlan, authority: Pubkey, price_usdt_per_tbtc: u64) -> (
    PayoutPlan,
    Result<(u128, u64), ErrorCode>,
) {
    owner_only(p, authority, withdrawal_step(p, price_usdt_per_tbtc as u128))
}

/// Deposits `amount_usdt` into the plan stored at `plan_key`; anyone may fund a plan.
/// A refused deposit leaves the plan as it was.
pub fn fund_plan(plan: &mut PayoutPlan, plan_key: Pubkey, amount_usdt: u64, nft_mint: Option<Pubkey>) -> (r:
    Result<PlanFunded, ErrorCode>)
    ensures
        *final(plan) == fund_instruction(*old(plan), amount_usdt, nft_mint).0,
        r == (match fund_instruction(*old(plan), amount_usdt, nft_mint).1 {
            Ok(_) => Ok(
                PlanFunded {
                    plan: plan_key,
                    amount_usdt: amount_usdt as u128,
                    total_deposited_usdt: final(plan).total_deposited_usdt,
                    is_active: final(plan).is_active,
                },
            ),
            Err(e) => Err(e),
        }),
        r is Err ==> *final(plan) == *old(plan),
{
    let bound_mint = plan.nft_mint;
    match plan.record_funding(amount_usdt, nft_mint) {
        Ok(()) => {},
        Err(e) => {
            plan.nft_mint = bound_mint;
            return Err(e);
        },
    }
    Ok(
        PlanFunded {
            plan: plan_key,
            amount_usdt: amount_usdt as u128,
            total_deposited_usdt: plan.total_deposited_usdt,
            is_active: plan.is_active,
        },
    )
}

/// Pays out the monthly payout of the plan stored at `plan_key`; only its owner may.
pub fn execute_payout(plan: &mut PayoutPlan, plan_key: Pubkey, authority: Pubkey, price_usdt_per_tbtc: u64) -> (r:
    Result<PayoutExecuted, ErrorCode>)
    ensures
        *final(plan) == payout_instruction(*old(plan), authority, price_usdt_per_tbtc).0,
        r == (match payout_instruction(*old(plan), authority, price_usdt_per_tbtc).1 {
            Ok((usdt, tbtc)) => Ok(
                PayoutExecuted {
                    plan: plan_key,
                    payout_usdt: usdt,
                    payout_tbtc: tbtc,
                    price_usdt_per_tbtc: price_usdt_per_tbtc as u128,
                    next_payout_usdt: final(plan).current_payout_usdt,
                },
            ),
            Err(e) => Err(e),
        }),
{
    if authority != plan.owner {
        return Err(ErrorCode::Unauthorized);
    }
    let (payout_usdt, payout_tbtc) = match plan.execute_payout_internal(price_usdt_per_tbtc as u128) {
        Ok(paid) => paid,
        Err(e) => {
            return Err(e);
        },
    };
    Ok(
        PayoutExecuted {
            plan: plan_key,
            payout_usdt,
            payout_tbtc,
            price_usdt_per_tbtc: price_usdt_per_tbtc as u128,
            next_payout_usdt: plan.current_payout_usdt,
        },
    )
}

/// Puts the plan stored at `plan_key` into emergency mode; only its owner may.
pub fn trigger_emergency(plan: &mut PayoutPlan, plan_key: Pubkey, authority: Pubkey) -> (r: Result<
    EmergencyTriggered,
    ErrorCode,
>)
    ensures
        *final(plan) == emergency_instruction(*old(plan), authority).0,
        r == (match emergency_instruction(*old(plan), authority).1 {
            Ok(_) => Ok(EmergencyTriggered { plan: plan_key }),
            Err(e) => Err(e),
        }),
{
    if authority != plan.owner {
        return Err(ErrorCode::Unauthorized);
    }
    match plan.trigger_emergency() {
        Ok(()) => {},
        Err(e) => {
            return Err(e);
        },
    }
    Ok(EmergencyTriggered { plan: plan_key })
}

/// Withdraws the balance of the plan stored at `plan_key`, which must be in emergency mode;
/// only its owner may.
pub fn emergency_withdraw(plan: &mut PayoutPlan, plan_key: Pubkey, authority: Pubkey, price_usdt_per_tbtc: u64) -> (r:
    Result<EmergencyWithdrawal, ErrorCode>)
    ensures
        *final(plan) == withdrawal_instruction(*old(plan), authority, price_usdt_per_tbtc).0,
        r == (match withdrawal_instruction(*old(plan), authority, price_usdt_per_tbtc).1 {
            Ok((usdt, tbtc)) => Ok(
                EmergencyWithdrawal {
                    plan: plan_key,
                    amount_usdt: usdt,
                    amount_tbtc: tbtc,
                    price_usdt_per_tbtc: price_usdt_per_tbtc as u128,
                },
            ),
            Err(e) => Err(e),
        }),
{
    if authority != plan.owner {
        return Err(ErrorCode::Unauthorized);
    }
    let (amount_usdt, amount_tbtc) = match plan.emergency_withdraw_internal(price_usdt_per_tbtc as u128) {
        Ok(done) => done,
        Err(e) => {
            return Err(e);
        },
    };
    Ok(
        EmergencyWithdrawal {
            plan: plan_key,
            amount_usdt,
            amount_tbtc,
            price_usdt_per_tbtc: price_usdt_per_tbtc as u128,
        },
    )
}

} // verus!
