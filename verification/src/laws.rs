//! Properties of the plan that hold across its operations.
use vstd::prelude::*;
use vstd::std_specs::cmp::PartialEqSpec;

use crate::error::ErrorCode;
use crate::key::Pubkey;
use crate::payout_plan::{
    emergency_instruction, fresh_plan, fund_instruction, payout_instruction, withdrawal_instruction,
};
use crate::plan::{
    available_of, conversion, emergency_step, funding_step, grown_payout, payout_step, threshold_of,
    withdrawal_step, PayoutPlan, GROWTH_FACTOR_DENOMINATOR, GROWTH_FACTOR_NUMERATOR, TBTC_DECIMALS,
};

verus! {

/// Withdrawals never exceed deposits: a fresh plan has withdrawn nothing, and every operation,
/// whether it succeeds or fails, keeps the withdrawn total at or below the deposited total.
pub proof fn law_withdrawals_never_exceed_deposits(
    p: PayoutPlan,
    amount_usdt: u64,
    nft_mint: Option<Pubkey>,
    price_usdt_per_tbtc: u128,
    owner: Pubkey,
    monthly_usdt_payout: u64,
    metadata_uri: String,
)
    requires
        p.total_withdrawn_usdt <= p.total_deposited_usdt,
    ensures
        fresh_plan(owner, monthly_usdt_payout, metadata_uri).total_withdrawn_usdt
            <= fresh_plan(owner, monthly_usdt_payout, metadata_uri).total_deposited_usdt,
        funding_step(p, amount_usdt, nft_mint).0.total_withdrawn_usdt <= funding_step(
            p,
            amount_usdt,
            nft_mint,
        ).0.total_deposited_usdt,
        payout_step(p, price_usdt_per_tbtc).0.total_withdrawn_usdt <= payout_step(
            p,
            price_usdt_per_tbtc,
        ).0.total_deposited_usdt,
        emergency_step(p).0.total_withdrawn_usdt <= emergency_step(p).0.total_deposited_usdt,
        withdrawal_step(p, price_usdt_per_tbtc).0.total_withdrawn_usdt <= withdrawal_step(
            p,
            price_usdt_per_tbtc,
        ).0.total_deposited_usdt,
{
}

/// The deposited and withdrawn totals never go down, whatever operation runs.
pub proof fn law_totals_never_decrease(
    p: PayoutPlan,
    amount_usdt: u64,
    nft_mint: Option<Pubkey>,
    price_usdt_per_tbtc: u128,
)
    ensures
        funding_step(p, amount_usdt, nft_mint).0.total_deposited_usdt >= p.total_deposited_usdt,
        funding_step(p, amount_usdt, nft_mint).0.total_withdrawn_usdt == p.total_withdrawn_usdt,
        payout_step(p, price_usdt_per_tbtc).0.total_deposited_usdt == p.total_deposited_usdt,
        payout_step(p, price_usdt_per_tbtc).0.total_withdrawn_usdt >= p.total_withdrawn_usdt,
        emergency_step(p).0.total_deposited_usdt == p.total_deposited_usdt,
        emergency_step(p).0.total_withdrawn_usdt == p.total_withdrawn_usdt,
        withdrawal_step(p, price_usdt_per_tbtc).0.total_deposited_usdt == p.total_deposited_usdt,
        withdrawal_step(p, price_usdt_per_tbtc).0.total_withdrawn_usdt >= p.total_withdrawn_usdt,
{
}

/// Emergency mode is for good: entering it deactivates the plan, no operation leaves it, an
/// inactive plan in emergency mode never becomes active again, and it accepts neither
/// deposits nor payouts.
pub proof fn law_emergency_is_final(
    p: PayoutPlan,
    amount_usdt: u64,
    nft_mint: Option<Pubkey>,
    price_usdt_per_tbtc: u128,
)
    ensures
        emergency_step(p).1 is Ok ==> emergency_step(p).0.emergency_triggered
            && !emergency_step(p).0.is_active,
        p.emergency_triggered ==> {
            &&& funding_step(p, amount_usdt, nft_mint).0.emergency_triggered
            &&& payout_step(p, price_usdt_per_tbtc).0.emergency_triggered
            &&& emergency_step(p).0.emergency_triggered
            &&& withdrawal_step(p, price_usdt_per_tbtc).0.emergency_triggered
            &&& funding_step(p, amount_usdt, nft_mint).1 is Err
            &&& payout_step(p, price_usdt_per_tbtc).1 is Err
        },
        p.emergency_triggered && !p.is_active ==> {
            &&& !funding_step(p, amount_usdt, nft_mint).0.is_active
            &&& !payout_step(p, price_usdt_per_tbtc).0.is_active
            &&& !emergency_step(p).0.is_active
            &&& !withdrawal_step(p, price_usdt_per_tbtc).0.is_active
        },
{
}

/// Once a deposit pushes the plan's deposits to its threshold it is active, and only
/// emergency mode deactivates it: deposits and payouts never do.
pub proof fn law_activation(
    p: PayoutPlan,
    amount_usdt: u64,
    nft_mint: Option<Pubkey>,
    price_usdt_per_tbtc: u128,
)
    ensures
        funding_step(p, amount_usdt, nft_mint).1 is Ok ==> (funding_step(
            p,
            amount_usdt,
            nft_mint,
        ).0.is_active <==> (p.is_active || funding_step(
            p,
            amount_usdt,
            nft_mint,
        ).0.total_deposited_usdt >= threshold_of(p.monthly_usdt_payout))),
        p.is_active ==> funding_step(p, amount_usdt, nft_mint).0.is_active,
        payout_step(p, price_usdt_per_tbtc).0.is_active == p.is_active,
        payout_step(p, price_usdt_per_tbtc).1 is Ok ==> p.is_active && !p.emergency_triggered,
{
}

/// A payout pays exactly the current monthly payout, takes exactly that much from the
/// available balance, gives its tBTC worth at the price, and the next payout is the paid one
/// grown by the growth factor, rounded down, so it never shrinks.
pub proof fn law_payout_accounting(p: PayoutPlan, price_usdt_per_tbtc: u128)
    ensures
        payout_step(p, price_usdt_per_tbtc).1 matches Ok((usdt, tbtc)) ==> {
            &&& usdt == p.current_payout_usdt
            &&& available_of(payout_step(p, price_usdt_per_tbtc).0) == available_of(p) - usdt
            &&& conversion(usdt, price_usdt_per_tbtc) == Ok::<u64, ErrorCode>(tbtc)
            &&& payout_step(p, price_usdt_per_tbtc).0.current_payout_usdt == grown_payout(
                usdt as int,
            )
            &&& payout_step(p, price_usdt_per_tbtc).0.current_payout_usdt >= usdt
        },
        p.current_payout_usdt <= payout_step(p, price_usdt_per_tbtc).0.current_payout_usdt,
{
    law_growth_never_shrinks(p.current_payout_usdt as int);
}

/// Growing a payout never makes it smaller; from 269 base units on it makes it strictly larger.
pub proof fn law_growth_never_shrinks(cur: int)
    requires
        cur >= 0,
    ensures
        cur <= grown_payout(cur),
        cur >= 269 ==> cur < grown_payout(cur),
{
    assert(cur * GROWTH_FACTOR_NUMERATOR == cur * (GROWTH_FACTOR_DENOMINATOR as int) + cur * 3726)
        by (nonlinear_arith);
    assert(cur * GROWTH_FACTOR_NUMERATOR / (GROWTH_FACTOR_DENOMINATOR as int) >= cur)
        by (nonlinear_arith)
        requires
            cur >= 0,
            cur * GROWTH_FACTOR_NUMERATOR >= cur * (GROWTH_FACTOR_DENOMINATOR as int),
    ;
    if cur >= 269 {
        assert(cur * GROWTH_FACTOR_NUMERATOR / (GROWTH_FACTOR_DENOMINATOR as int) >= cur + 1)
            by (nonlinear_arith)
            requires
                cur >= 269,
                cur * GROWTH_FACTOR_NUMERATOR == cur * (GROWTH_FACTOR_DENOMINATOR as int) + cur
                    * 3726,
        ;
    }
}

/// The tBTC amount is the USDT amount's worth at the price, rounded down.
pub proof fn law_conversion_rounds_down(amount_usdt: u128, price_usdt_per_tbtc: u128)
    ensures
        conversion(amount_usdt, price_usdt_per_tbtc) matches Ok(tbtc) ==> tbtc
            * price_usdt_per_tbtc <= amount_usdt * TBTC_DECIMALS < (tbtc + 1)
            * price_usdt_per_tbtc,
{
    if price_usdt_per_tbtc > 0 {
        let n = amount_usdt * TBTC_DECIMALS;
        let q = n / (price_usdt_per_tbtc as int);
        assert(q * price_usdt_per_tbtc <= n < (q + 1) * price_usdt_per_tbtc) by (nonlinear_arith)
            requires
                price_usdt_per_tbtc > 0,
                n >= 0,
                q == n / (price_usdt_per_tbtc as int),
        ;
    }
}

/// An emergency withdrawal hands out the whole available balance, leaving nothing available
/// and the plan inactive.
pub proof fn law_emergency_withdrawal_drains(p: PayoutPlan, price_usdt_per_tbtc: u128)
    ensures
        withdrawal_step(p, price_usdt_per_tbtc).1 matches Ok((usdt, tbtc)) ==> {
            &&& usdt == available_of(p)
            &&& available_of(withdrawal_step(p, price_usdt_per_tbtc).0) == 0
            &&& (usdt > 0 ==> conversion(usdt, price_usdt_per_tbtc) == Ok::<u64, ErrorCode>(tbtc)
                && !withdrawal_step(p, price_usdt_per_tbtc).0.is_active)
        },
{
}

/// Once bound, a plan's NFT mint never changes, and a deposit succeeds only with the bound
/// mint or, on the first deposit, a mint to bind.
pub proof fn law_mint_binding(
    p: PayoutPlan,
    amount_usdt: u64,
    nft_mint: Option<Pubkey>,
    price_usdt_per_tbtc: u128,
)
    ensures
        p.nft_mint is Some ==> {
            &&& funding_step(p, amount_usdt, nft_mint).0.nft_mint == p.nft_mint
            &&& payout_step(p, price_usdt_per_tbtc).0.nft_mint == p.nft_mint
            &&& emergency_step(p).0.nft_mint == p.nft_mint
            &&& withdrawal_step(p, price_usdt_per_tbtc).0.nft_mint == p.nft_mint
        },
        funding_step(p, amount_usdt, nft_mint).1 is Ok ==> {
            &&& funding_step(p, amount_usdt, nft_mint).0.nft_mint is Some
            &&& (nft_mint is Some ==> funding_step(p, amount_usdt, nft_mint).0.nft_mint == nft_mint)
        },
{
}

/// A refused update of the plan's state leaves it as it was, with one exception that the
/// funding instruction undoes: a deposit refused for overflowing the deposited total has
/// already bound the NFT mint given on the plan's first deposit.
pub proof fn law_refused_step_keeps_state(
    p: PayoutPlan,
    amount_usdt: u64,
    nft_mint: Option<Pubkey>,
    price_usdt_per_tbtc: u128,
)
    ensures
        funding_step(p, amount_usdt, nft_mint).1 matches Err(e) ==> (e != ErrorCode::MathOverflow
            ==> funding_step(p, amount_usdt, nft_mint).0 == p),
        funding_step(p, amount_usdt, nft_mint).1 is Err ==> funding_step(
            p,
            amount_usdt,
            nft_mint,
        ).0 == (PayoutPlan { nft_mint: funding_step(p, amount_usdt, nft_mint).0.nft_mint, ..p }),
        payout_step(p, price_usdt_per_tbtc).1 is Err ==> payout_step(p, price_usdt_per_tbtc).0 == p,
        emergency_step(p).1 is Err ==> emergency_step(p).0 == p,
        withdrawal_step(p, price_usdt_per_tbtc).1 is Err ==> withdrawal_step(
            p,
            price_usdt_per_tbtc,
        ).0 == p,
{
    let cur = p.current_payout_usdt as int;
    if cur * TBTC_DECIMALS <= u128::MAX {
        assert(cur * GROWTH_FACTOR_NUMERATOR <= cur * TBTC_DECIMALS) by (nonlinear_arith)
            requires
                cur >= 0,
        ;
    }
}

/// A refused instruction changes nothing: whichever instruction is refused, and for whatever
/// reason (the caller is not the owner, or the plan's rules refuse it), the stored plan is
/// left exactly as it was.
pub proof fn law_refused_instruction_changes_nothing(
    p: PayoutPlan,
    authority: Pubkey,
    amount_usdt: u64,
    nft_mint: Option<Pubkey>,
    price_usdt_per_tbtc: u64,
)
    ensures
        fund_instruction(p, amount_usdt, nft_mint).1 is Err ==> fund_instruction(
            p,
            amount_usdt,
            nft_mint,
        ).0 == p,
        payout_instruction(p, authority, price_usdt_per_tbtc).1 is Err ==> payout_instruction(
            p,
            authority,
            price_usdt_per_tbtc,
        ).0 == p,
        emergency_instruction(p, authority).1 is Err ==> emergency_instruction(p, authority).0 == p,
        withdrawal_instruction(p, authority, price_usdt_per_tbtc).1 is Err ==> withdrawal_instruction(
            p,
            authority,
            price_usdt_per_tbtc,
        ).0 == p,
{
    law_refused_step_keeps_state(p, amount_usdt, nft_mint, price_usdt_per_tbtc as u128);
}

/// Only the plan's owner can pay out, enter emergency mode or withdraw: for any other caller
/// these instructions are refused with `Unauthorized` and change nothing, and for the owner
/// they do exactly what the plan's operation does. A deposit is open to everyone: when it is
/// accepted the instruction does what the plan's operation does.
pub proof fn law_owner_only(
    p: PayoutPlan,
    authority: Pubkey,
    price_usdt_per_tbtc: u64,
    amount_usdt: u64,
    nft_mint: Option<Pubkey>,
)
    ensures
        authority != p.owner ==> {
            &&& payout_instruction(p, authority, price_usdt_per_tbtc) == (p, Err::<(u128, u64), ErrorCode>(
                ErrorCode::Unauthorized,
            ))
            &&& emergency_instruction(p, authority) == (p, Err::<(), ErrorCode>(ErrorCode::Unauthorized))
            &&& withdrawal_instruction(p, authority, price_usdt_per_tbtc) == (p, Err::<(u128, u64), ErrorCode>(
                ErrorCode::Unauthorized,
            ))
        },
        authority == p.owner ==> {
            &&& payout_instruction(p, authority, price_usdt_per_tbtc) == payout_step(
                p,
                price_usdt_per_tbtc as u128,
            )
            &&& emergency_instruction(p, authority) == emergency_step(p)
            &&& withdrawal_instruction(p, authority, price_usdt_per_tbtc) == withdrawal_step(
                p,
                price_usdt_per_tbtc as u128,
            )
        },
        funding_step(p, amount_usdt, nft_mint).1 is Ok ==> fund_instruction(p, amount_usdt, nft_mint)
            == funding_step(p, amount_usdt, nft_mint),
        fund_instruction(p, amount_usdt, nft_mint).1 == funding_step(p, amount_usdt, nft_mint).1,
{
}

/// One operation on a plan's state, as the plan's methods perform it.
pub enum PlanOperation {
    Fund { amount_usdt: u64, nft_mint: Option<Pubkey> },
    Payout { price_usdt_per_tbtc: u128 },
    TriggerEmergency,
    EmergencyWithdraw { price_usdt_per_tbtc: u128 },
}

/// The plan after `op`, whether `op` succeeds or is refused.
pub open spec fn apply(p: PayoutPlan, op: PlanOperation) -> PayoutPlan {
    match op {
        PlanOperation::Fund { amount_usdt, nft_mint } => funding_step(p, amount_usdt, nft_mint).0,
        PlanOperation::Payout { price_usdt_per_tbtc } => payout_step(p, price_usdt_per_tbtc).0,
        PlanOperation::TriggerEmergency => emergency_step(p).0,
        PlanOperation::EmergencyWithdraw { price_usdt_per_tbtc } => withdrawal_step(
            p,
            price_usdt_per_tbtc,
        ).0,
    }
}

/// The deposit that `op` has accepted: its amount when it is a deposit that succeeded, else 0.
pub open spec fn accepted_deposit(p: PayoutPlan, op: PlanOperation) -> int {
    match op {
        PlanOperation::Fund { amount_usdt, nft_mint } => if funding_step(
            p,
            amount_usdt,
            nft_mint,
        ).1 is Ok {
            amount_usdt as int
        } else {
            0
        },
        _ => 0,
    }
}

/// The USDT amount that `op` has handed out: what a successful payout or emergency withdrawal
/// returns as paid, else 0.
pub open spec fn handed_out(p: PayoutPlan, op: PlanOperation) -> int {
    match op {
        PlanOperation::Payout { price_usdt_per_tbtc } => match payout_step(p, price_usdt_per_tbtc).1 {
            Ok((usdt, _)) => usdt as int,
            Err(_) => 0,
        },
        PlanOperation::EmergencyWithdraw { price_usdt_per_tbtc } => match withdrawal_step(
            p,
            price_usdt_per_tbtc,
        ).1 {
            Ok((usdt, _)) => usdt as int,
            Err(_) => 0,
        },
        _ => 0,
    }
}

/// The plan after running `ops` in order, starting from `p`.
pub open spec fn run(p: PayoutPlan, ops: Seq<PlanOperation>) -> PayoutPlan
    decreases ops.len(),
{
    if ops.len() == 0 {
        p
    } else {
        run(apply(p, ops[0]), ops.drop_first())
    }
}

/// The sum of the deposits accepted while running `ops` from `p`.
pub open spec fn total_accepted_deposits(p: PayoutPlan, ops: Seq<PlanOperation>) -> int
    decreases ops.len(),
{
    if ops.len() == 0 {
        0
    } else {
        accepted_deposit(p, ops[0]) + total_accepted_deposits(apply(p, ops[0]), ops.drop_first())
    }
}

/// The sum of the amounts paid out or withdrawn while running `ops` from `p`.
pub open spec fn total_handed_out(p: PayoutPlan, ops: Seq<PlanOperation>) -> int
    decreases ops.len(),
{
    if ops.len() == 0 {
        0
    } else {
        handed_out(p, ops[0]) + total_handed_out(apply(p, ops[0]), ops.drop_first())
    }
}

/// One operation moves the totals by exactly what it accepted and handed out, and keeps the
/// withdrawn total at or below the deposited total.
proof fn lemma_operation_accounting(p: PayoutPlan, op: PlanOperation)
    requires
        p.total_withdrawn_usdt <= p.total_deposited_usdt,
    ensures
        apply(p, op).total_deposited_usdt == p.total_deposited_usdt + accepted_deposit(p, op),
        apply(p, op).total_withdrawn_usdt == p.total_withdrawn_usdt + handed_out(p, op),
        apply(p, op).total_withdrawn_usdt <= apply(p, op).total_deposited_usdt,
{
    match op {
        PlanOperation::Fund { amount_usdt, nft_mint } => {
            law_refused_step_keeps_state(p, amount_usdt, nft_mint, 0);
        },
        PlanOperation::Payout { price_usdt_per_tbtc } => {
            law_refused_step_keeps_state(p, 1, None, price_usdt_per_tbtc);
        },
        PlanOperation::TriggerEmergency => {},
        PlanOperation::EmergencyWithdraw { price_usdt_per_tbtc } => {
            law_refused_step_keeps_state(p, 1, None, price_usdt_per_tbtc);
        },
    }
}

/// Running operations from any plan whose withdrawals do not exceed its deposits adds exactly
/// the accepted deposits to the deposited total and exactly the handed-out amounts to the
/// withdrawn total, which stays at or below the deposited total.
pub proof fn law_totals_account_for_every_operation(p: PayoutPlan, ops: Seq<PlanOperation>)
    requires
        p.total_withdrawn_usdt <= p.total_deposited_usdt,
    ensures
        run(p, ops).total_deposited_usdt == p.total_deposited_usdt + total_accepted_deposits(p, ops),
        run(p, ops).total_withdrawn_usdt == p.total_withdrawn_usdt + total_handed_out(p, ops),
        run(p, ops).total_withdrawn_usdt <= run(p, ops).total_deposited_usdt,
    decreases ops.len(),
{
    if ops.len() > 0 {
        lemma_operation_accounting(p, ops[0]);
        law_totals_account_for_every_operation(apply(p, ops[0]), ops.drop_first());
    }
}

/// Over any run of operations on a freshly created plan, the withdrawn total is the sum of
/// everything paid out or withdrawn, the deposited total is the sum of the accepted deposits,
/// and the former never exceeds the latter.
pub proof fn law_plan_accounting(
    owner: Pubkey,
    monthly_usdt_payout: u64,
    metadata_uri: String,
    ops: Seq<PlanOperation>,
)
    ensures
        run(fresh_plan(owner, monthly_usdt_payout, metadata_uri), ops).total_withdrawn_usdt
            == total_handed_out(fresh_plan(owner, monthly_usdt_payout, metadata_uri), ops),
        run(fresh_plan(owner, monthly_usdt_payout, metadata_uri), ops).total_deposited_usdt
            == total_accepted_deposits(fresh_plan(owner, monthly_usdt_payout, metadata_uri), ops),
        total_handed_out(fresh_plan(owner, monthly_usdt_payout, metadata_uri), ops)
            <= total_accepted_deposits(fresh_plan(owner, monthly_usdt_payout, metadata_uri), ops),
{
    law_totals_account_for_every_operation(fresh_plan(owner, monthly_usdt_payout, metadata_uri), ops);
}

/// Converting `amount_usdt` at `price_usdt_per_tbtc` is refused for a zero price, then for an
/// `amount_usdt * 10^8` that does not fit in a `u128`, then for a tBTC amount that does not fit
/// in a `u64`; in every other case it succeeds, with the amount's worth rounded down. Only the
/// quotient is held to the `u64` range, never the scaled amount itself.
pub proof fn law_conversion_outcome(amount_usdt: u128, price_usdt_per_tbtc: u128)
    ensures
        conversion(amount_usdt, price_usdt_per_tbtc) == Err::<u64, ErrorCode>(ErrorCode::PriceCannotBeZero)
            <==> price_usdt_per_tbtc == 0,
        conversion(amount_usdt, price_usdt_per_tbtc) == Err::<u64, ErrorCode>(ErrorCode::MathOverflow)
            <==> price_usdt_per_tbtc > 0 && amount_usdt * 100_000_000 > u128::MAX,
        conversion(amount_usdt, price_usdt_per_tbtc) == Err::<u64, ErrorCode>(
            ErrorCode::TbtcConversionOverflow,
        ) <==> price_usdt_per_tbtc > 0 && amount_usdt * 100_000_000 <= u128::MAX && amount_usdt
            * 100_000_000 / (price_usdt_per_tbtc as int) > u64::MAX,
        conversion(amount_usdt, price_usdt_per_tbtc) is Ok <==> price_usdt_per_tbtc > 0 && amount_usdt
            * 100_000_000 <= u128::MAX && amount_usdt * 100_000_000 / (price_usdt_per_tbtc as int)
            <= u64::MAX,
        conversion(amount_usdt, price_usdt_per_tbtc) matches Ok(tbtc) ==> tbtc * price_usdt_per_tbtc
            <= amount_usdt * 100_000_000 < (tbtc + 1) * price_usdt_per_tbtc,
{
    law_conversion_rounds_down(amount_usdt, price_usdt_per_tbtc);
}

/// A deposit is refused for a zero amount, then in emergency mode, then when no NFT mint is
/// bound or given, then when the given mint differs from the bound one, then when the
/// deposited total would overflow. Every other deposit is accepted, also on an already active
/// plan: it adds its amount to the deposited total, binds the given mint if none was bound,
/// activates the plan once the deposits reach one hundred monthly payouts, and changes nothing
/// else.
pub proof fn law_deposit_outcome(p: PayoutPlan, amount_usdt: u64, nft_mint: Option<Pubkey>)
    ensures
        ({
            let (q, r) = funding_step(p, amount_usdt, nft_mint);
            let mint_ok = (p.nft_mint is Some || nft_mint is Some) && (p.nft_mint is Some && nft_mint is Some
                ==> p.nft_mint == nft_mint);
            &&& (r == Err::<(), ErrorCode>(ErrorCode::ZeroFundingAmount) <==> amount_usdt == 0)
            &&& (r == Err::<(), ErrorCode>(ErrorCode::EmergencyModeActive) <==> amount_usdt > 0
                && p.emergency_triggered)
            &&& (r == Err::<(), ErrorCode>(ErrorCode::NftMintRequired) <==> amount_usdt > 0
                && !p.emergency_triggered && p.nft_mint is None && nft_mint is None)
            &&& (r == Err::<(), ErrorCode>(ErrorCode::NftMintMismatch) <==> amount_usdt > 0
                && !p.emergency_triggered && p.nft_mint is Some && nft_mint is Some && p.nft_mint
                != nft_mint)
            &&& (r == Err::<(), ErrorCode>(ErrorCode::MathOverflow) <==> amount_usdt > 0
                && !p.emergency_triggered && mint_ok && p.total_deposited_usdt + amount_usdt > u128::MAX)
            &&& (r is Ok <==> amount_usdt > 0 && !p.emergency_triggered && mint_ok
                && p.total_deposited_usdt + amount_usdt <= u128::MAX)
            &&& (r is Ok ==> {
                &&& q.total_deposited_usdt == p.total_deposited_usdt + amount_usdt
                &&& q.nft_mint == (if p.nft_mint is Some { p.nft_mint } else { nft_mint })
                &&& q.is_active == (p.is_active || q.total_deposited_usdt >= p.monthly_usdt_payout * 100)
                &&& q.total_withdrawn_usdt == p.total_withdrawn_usdt
                &&& q.current_payout_usdt == p.current_payout_usdt
                &&& q.monthly_usdt_payout == p.monthly_usdt_payout
                &&& q.owner == p.owner
                &&& q.metadata_uri == p.metadata_uri
                &&& q.emergency_triggered == p.emergency_triggered
            })
        }),
{
}

/// A payout is refused on an inactive plan, then in emergency mode, then when the current
/// payout is zero, then when the available balance is below the current payout; past those
/// checks it fails only where converting the current payout at the price fails. Otherwise it
/// pays exactly the current payout and its tBTC worth, even when that leaves nothing available,
/// adds the payout to the withdrawn total, sets the next payout to the paid one times
/// 1.003726 rounded down, and changes nothing else.
pub proof fn law_payout_outcome(p: PayoutPlan, price_usdt_per_tbtc: u128)
    ensures
        ({
            let (q, r) = payout_step(p, price_usdt_per_tbtc);
            let cur = p.current_payout_usdt;
            let avail = if p.total_deposited_usdt >= p.total_withdrawn_usdt {
                p.total_deposited_usdt - p.total_withdrawn_usdt
            } else {
                0
            };
            &&& (r == Err::<(u128, u64), ErrorCode>(ErrorCode::PlanInactive) <==> !p.is_active)
            &&& (r == Err::<(u128, u64), ErrorCode>(ErrorCode::EmergencyModeActive) <==> p.is_active
                && p.emergency_triggered)
            &&& (r == Err::<(u128, u64), ErrorCode>(ErrorCode::NothingToPayout) <==> p.is_active
                && !p.emergency_triggered && cur == 0)
            &&& (r == Err::<(u128, u64), ErrorCode>(ErrorCode::InsufficientBalance) <==> p.is_active
                && !p.emergency_triggered && cur > 0 && avail < cur)
            &&& (p.is_active && !p.emergency_triggered && cur > 0 && avail >= cur ==> r == (match conversion(
                cur,
                price_usdt_per_tbtc,
            ) {
                Ok(tbtc) => Ok((cur, tbtc)),
                Err(e) => Err(e),
            }))
            &&& (r is Ok ==> {
                &&& q.total_withdrawn_usdt == p.total_withdrawn_usdt + cur
                &&& q.current_payout_usdt * 1_000_000 <= cur * 1_003_726 < (q.current_payout_usdt + 1)
                    * 1_000_000
                &&& q.total_deposited_usdt == p.total_deposited_usdt
                &&& q.is_active == p.is_active
                &&& q.emergency_triggered == p.emergency_triggered
                &&& q.nft_mint == p.nft_mint
                &&& q.monthly_usdt_payout == p.monthly_usdt_payout
                &&& q.owner == p.owner
                &&& q.metadata_uri == p.metadata_uri
            })
        }),
{
    let cur = p.current_payout_usdt as int;
    if cur * 100_000_000 <= u128::MAX {
        assert(cur * 1_003_726 <= cur * 100_000_000) by (nonlinear_arith)
            requires
                cur >= 0,
        ;
    }
    let n = cur * 1_003_726;
    let g = n / 1_000_000;
    assert(g * 1_000_000 <= n < (g + 1) * 1_000_000) by (nonlinear_arith)
        requires
            n >= 0,
            g == n / 1_000_000,
    ;
}

/// Entering emergency mode is refused only when the plan is already in it, whatever its
/// deposits; otherwise it sets emergency mode, deactivates the plan and changes nothing else.
pub proof fn law_emergency_outcome(p: PayoutPlan)
    ensures
        emergency_step(p).1 is Ok <==> !p.emergency_triggered,
        p.emergency_triggered ==> emergency_step(p).1 == Err::<(), ErrorCode>(
            ErrorCode::EmergencyAlreadyTriggered,
        ),
        !p.emergency_triggered ==> emergency_step(p).0 == (PayoutPlan {
            emergency_triggered: true,
            is_active: false,
            ..p
        }),
{
}

/// An emergency withdrawal is refused outside emergency mode. In emergency mode it hands out
/// the whole available balance, whether or not the plan ever reached its threshold: nothing
/// when nothing is available, and otherwise the balance and its tBTC worth, failing only where
/// that conversion fails. A withdrawal of a positive balance makes the withdrawn total equal the
/// deposited total, deactivates the plan and changes nothing else.
pub proof fn law_withdrawal_outcome(p: PayoutPlan, price_usdt_per_tbtc: u128)
    ensures
        ({
            let (q, r) = withdrawal_step(p, price_usdt_per_tbtc);
            let avail = if p.total_deposited_usdt >= p.total_withdrawn_usdt {
                p.total_deposited_usdt - p.total_withdrawn_usdt
            } else {
                0
            };
            &&& (r == Err::<(u128, u64), ErrorCode>(ErrorCode::EmergencyNotTriggered)
                <==> !p.emergency_triggered)
            &&& (p.emergency_triggered && avail == 0 ==> r == Ok::<(u128, u64), ErrorCode>((0, 0))
                && q == p)
            &&& (p.emergency_triggered && avail > 0 ==> r == (match conversion(
                avail as u128,
                price_usdt_per_tbtc,
            ) {
                Ok(tbtc) => Ok((avail as u128, tbtc)),
                Err(e) => Err(e),
            }))
            &&& (r matches Ok((usdt, _)) && usdt > 0 ==> q == (PayoutPlan {
                total_withdrawn_usdt: p.total_deposited_usdt,
                is_active: false,
                ..p
            }))
        }),
{
}

/// A new plan belongs to its creator, pays its monthly payout first, has neither deposits
/// nor withdrawals, keeps its metadata URI, has no NFT mint bound, and is neither active nor in
/// emergency mode.
pub proof fn law_new_plan(owner: Pubkey, monthly_usdt_payout: u64, metadata_uri: String)
    ensures
        ({
            let p = fresh_plan(owner, monthly_usdt_payout, metadata_uri);
            &&& p.owner == owner
            &&& p.monthly_usdt_payout == monthly_usdt_payout
            &&& p.current_payout_usdt == monthly_usdt_payout
            &&& p.total_deposited_usdt == 0
            &&& p.total_withdrawn_usdt == 0
            &&& p.metadata_uri == metadata_uri
            &&& p.nft_mint is None
            &&& !p.is_active
            &&& !p.emergency_triggered
        }),
{
}

/// The activation threshold is one hundred monthly payouts; the available balance is what the
/// deposits exceed the withdrawals by, or zero; growing a payout multiplies it by 1.003726 and
/// rounds down.
pub proof fn law_plan_quantities(p: PayoutPlan, cur: int)
    requires
        cur >= 0,
    ensures
        threshold_of(p.monthly_usdt_payout) == p.monthly_usdt_payout * 100,
        p.total_deposited_usdt >= p.total_withdrawn_usdt ==> available_of(p) == p.total_deposited_usdt
            - p.total_withdrawn_usdt,
        p.total_deposited_usdt < p.total_withdrawn_usdt ==> available_of(p) == 0,
        grown_payout(cur) * 1_000_000 <= cur * 1_003_726 < (grown_payout(cur) + 1) * 1_000_000,
{
    let n = cur * 1_003_726;
    let g = n / 1_000_000;
    assert(g * 1_000_000 <= n < (g + 1) * 1_000_000) by (nonlinear_arith)
        requires
            n >= 0,
            g == n / 1_000_000,
    ;
}

/// Two addresses compare equal exactly when all 32 of their bytes agree.
pub proof fn law_keys_equal_by_bytes(a: Pubkey, b: Pubkey)
    ensures
        a.eq_spec(&b) <==> (forall|i: int| 0 <= i < 32 ==> a.bytes[i] == b.bytes[i]),
{
    broadcast use vstd::array::group_array_axioms;

    if forall|i: int| 0 <= i < 32 ==> a.bytes[i] == b.bytes[i] {
        assert(a.bytes =~= b.bytes);
    }
}

} // verus!
