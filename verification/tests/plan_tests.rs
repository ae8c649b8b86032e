use payout_plan::error::ErrorCode;
use payout_plan::key::Pubkey;
use payout_plan::plan::{
    convert_usdt_to_tbtc, PayoutPlan, GROWTH_FACTOR_DENOMINATOR, GROWTH_FACTOR_NUMERATOR,
    USDT_DECIMALS,
};

fn key(n: u8) -> Pubkey {
    let mut bytes = [0u8; 32];
    bytes[0] = 0x5a;
    bytes[31] = n;
    Pubkey::new_from_array(bytes)
}

fn sample_plan() -> PayoutPlan {
    PayoutPlan {
        owner: key(200),
        monthly_usdt_payout: 1_000 * USDT_DECIMALS,
        current_payout_usdt: (1_000 * USDT_DECIMALS) as u128,
        total_deposited_usdt: 0,
        total_withdrawn_usdt: 0,
        metadata_uri: "https://example.com/metadata.json".to_string(),
        nft_mint: None,
        is_active: false,
        emergency_triggered: false,
    }
}

fn funded_plan() -> PayoutPlan {
    let mut plan = sample_plan();
    let threshold = plan.activation_threshold() as u64;
    plan.record_funding(threshold, Some(key(1))).unwrap();
    plan
}

#[test]
fn test_activation_threshold() {
    let mut plan = sample_plan();
    let mint = key(1);

    assert!(plan.record_funding(10 * USDT_DECIMALS, Some(mint)).is_ok());
    assert!(!plan.is_active);

    let additional = plan.activation_threshold() as u64 - 10 * USDT_DECIMALS;
    assert!(plan.record_funding(additional, Some(mint)).is_ok());
    assert!(plan.is_active);
    assert_eq!(plan.nft_mint, Some(mint));
}

#[test]
fn test_payout_growth_and_conversion() {
    let mut plan = sample_plan();
    let mint = key(2);

    let threshold = plan.activation_threshold() as u64;
    plan.record_funding(threshold, Some(mint)).unwrap();
    assert!(plan.is_active);

    let price = 30_000u64 * USDT_DECIMALS;
    let (payout_usdt, payout_tbtc) = plan.execute_payout_internal(price as u128).expect("payout");

    assert_eq!(payout_usdt, 1_000 * USDT_DECIMALS as u128);
    assert_eq!(payout_tbtc, 3_333_333);
    assert_eq!(
        plan.current_payout_usdt,
        (1_000 * USDT_DECIMALS as u128 * GROWTH_FACTOR_NUMERATOR) / GROWTH_FACTOR_DENOMINATOR
    );
}

#[test]
fn test_emergency_flow() {
    let mut plan = sample_plan();
    let mint = key(3);
    let threshold = plan.activation_threshold() as u64;
    plan.record_funding(threshold, Some(mint)).unwrap();
    assert!(plan.is_active);

    plan.trigger_emergency().unwrap();
    assert!(plan.emergency_triggered);
    assert!(!plan.is_active);

    let price = 25_000u64 * USDT_DECIMALS;
    let (amount_usdt, amount_tbtc) = plan.emergency_withdraw_internal(price as u128).expect("withdraw");
    assert!(amount_usdt > 0);
    assert!(amount_tbtc > 0);
    assert_eq!(plan.available_balance(), 0);
}

#[test]
fn test_price_zero_error() {
    let mut plan = sample_plan();
    let mint = key(4);
    let threshold = plan.activation_threshold() as u64;
    plan.record_funding(threshold, Some(mint)).unwrap();
    assert!(plan.is_active);

    let err = plan.execute_payout_internal(0).err().expect("expected error");
    assert_eq!(err, ErrorCode::PriceCannotBeZero);
}

#[test]
fn activation_threshold_is_one_hundred_monthly_payouts() {
    let plan = sample_plan();
    assert_eq!(plan.activation_threshold(), 100_000_000_000);
    let mut big = sample_plan();
    big.monthly_usdt_payout = u64::MAX;
    assert_eq!(big.activation_threshold(), u64::MAX as u128 * 100);
}

#[test]
fn available_balance_never_goes_below_zero() {
    let mut plan = sample_plan();
    plan.total_deposited_usdt = 5;
    plan.total_withdrawn_usdt = 7;
    assert_eq!(plan.available_balance(), 0);
    plan.total_withdrawn_usdt = 2;
    assert_eq!(plan.available_balance(), 3);
}

#[test]
fn conversion_rounds_down() {
    assert_eq!(convert_usdt_to_tbtc(1_000_000_000, 30_000_000_000), Ok(3_333_333));
    assert_eq!(convert_usdt_to_tbtc(30_000_000_000, 30_000_000_000), Ok(100_000_000));
    assert_eq!(convert_usdt_to_tbtc(0, 7), Ok(0));
    assert_eq!(convert_usdt_to_tbtc(1, 100_000_001), Ok(0));
}

#[test]
fn conversion_errors() {
    assert_eq!(convert_usdt_to_tbtc(5, 0), Err(ErrorCode::PriceCannotBeZero));
    assert_eq!(convert_usdt_to_tbtc(u128::MAX / 10, 1), Err(ErrorCode::MathOverflow));
    assert_eq!(convert_usdt_to_tbtc(200_000_000_000, 1), Err(ErrorCode::TbtcConversionOverflow));
    assert_eq!(convert_usdt_to_tbtc(184_467_440_737, 1), Ok(18_446_744_073_700_000_000));
}

#[test]
fn funding_refusals() {
    let mut plan = sample_plan();
    assert_eq!(plan.record_funding(0, Some(key(1))), Err(ErrorCode::ZeroFundingAmount));
    assert_eq!(plan.record_funding(5, None), Err(ErrorCode::NftMintRequired));
    assert_eq!(plan.nft_mint, None);
    assert_eq!(plan.total_deposited_usdt, 0);

    assert_eq!(plan.record_funding(5, Some(key(1))), Ok(()));
    assert_eq!(plan.record_funding(5, Some(key(2))), Err(ErrorCode::NftMintMismatch));
    assert_eq!(plan.total_deposited_usdt, 5);
    assert_eq!(plan.record_funding(5, None), Ok(()));
    assert_eq!(plan.total_deposited_usdt, 10);
    assert_eq!(plan.nft_mint, Some(key(1)));

    plan.trigger_emergency().unwrap();
    assert_eq!(plan.record_funding(5, Some(key(1))), Err(ErrorCode::EmergencyModeActive));
    assert_eq!(plan.total_deposited_usdt, 10);
}

#[test]
fn funding_overflow_still_binds_the_mint() {
    let mut plan = sample_plan();
    plan.total_deposited_usdt = u128::MAX;
    assert_eq!(plan.record_funding(1, Some(key(9))), Err(ErrorCode::MathOverflow));
    assert_eq!(plan.nft_mint, Some(key(9)));
    assert_eq!(plan.total_deposited_usdt, u128::MAX);
    assert!(!plan.is_active);
}

#[test]
fn payout_refusals() {
    let mut plan = sample_plan();
    assert_eq!(plan.execute_payout_internal(1), Err(ErrorCode::PlanInactive));

    let mut plan = funded_plan();
    plan.emergency_triggered = true;
    assert_eq!(plan.execute_payout_internal(1), Err(ErrorCode::EmergencyModeActive));

    let mut plan = funded_plan();
    plan.current_payout_usdt = 0;
    assert_eq!(plan.execute_payout_internal(1), Err(ErrorCode::NothingToPayout));

    let mut plan = funded_plan();
    plan.total_withdrawn_usdt = plan.total_deposited_usdt - 1;
    let before = plan.clone();
    assert_eq!(plan.execute_payout_internal(1), Err(ErrorCode::InsufficientBalance));
    assert_eq!(plan.total_withdrawn_usdt, before.total_withdrawn_usdt);
    assert_eq!(plan.current_payout_usdt, before.current_payout_usdt);
}

#[test]
fn payout_moves_exactly_one_monthly_payout() {
    let mut plan = funded_plan();
    let before = plan.available_balance();
    let (usdt, tbtc) = plan.execute_payout_internal(50_000 * USDT_DECIMALS as u128).unwrap();
    assert_eq!(usdt, 1_000_000_000);
    assert_eq!(tbtc, 2_000_000);
    assert_eq!(plan.available_balance(), before - usdt);
    assert_eq!(plan.total_withdrawn_usdt, 1_000_000_000);
    assert_eq!(plan.current_payout_usdt, 1_003_726_000);
    let (second, _) = plan.execute_payout_internal(50_000 * USDT_DECIMALS as u128).unwrap();
    assert_eq!(second, 1_003_726_000);
    assert_eq!(plan.current_payout_usdt, 1_007_465_883);
    assert!(plan.total_withdrawn_usdt <= plan.total_deposited_usdt);
}

#[test]
fn small_payouts_stop_growing() {
    let mut plan = funded_plan();
    plan.current_payout_usdt = 268;
    plan.execute_payout_internal(1_000_000).unwrap();
    assert_eq!(plan.current_payout_usdt, 268);
    plan.current_payout_usdt = 269;
    plan.execute_payout_internal(1_000_000).unwrap();
    assert_eq!(plan.current_payout_usdt, 270);
}

#[test]
fn emergency_refusals_and_empty_withdrawal() {
    let mut plan = sample_plan();
    assert_eq!(plan.emergency_withdraw_internal(1), Err(ErrorCode::EmergencyNotTriggered));
    assert_eq!(plan.trigger_emergency(), Ok(()));
    assert_eq!(plan.trigger_emergency(), Err(ErrorCode::EmergencyAlreadyTriggered));
    assert_eq!(plan.emergency_withdraw_internal(0), Ok((0, 0)));
}

#[test]
fn emergency_withdrawal_drains_and_stays_final() {
    let mut plan = funded_plan();
    plan.execute_payout_internal(25_000 * USDT_DECIMALS as u128).unwrap();
    plan.trigger_emergency().unwrap();
    assert_eq!(plan.emergency_withdraw_internal(0), Err(ErrorCode::PriceCannotBeZero));
    assert_eq!(plan.available_balance(), 99_000_000_000);
    let (usdt, tbtc) = plan.emergency_withdraw_internal(25_000 * USDT_DECIMALS as u128).unwrap();
    assert_eq!(usdt, 99_000_000_000);
    assert_eq!(tbtc, 396_000_000);
    assert_eq!(plan.available_balance(), 0);
    assert_eq!(plan.total_withdrawn_usdt, plan.total_deposited_usdt);
    assert!(!plan.is_active);
    assert!(plan.emergency_triggered);
    assert_eq!(plan.record_funding(1, Some(key(1))), Err(ErrorCode::EmergencyModeActive));
    assert_eq!(plan.execute_payout_internal(1), Err(ErrorCode::PlanInactive));
    assert!(!plan.is_active);
}

#[test]
fn keys_compare_by_all_bytes() {
    assert_eq!(key(1), key(1));
    assert_ne!(key(1), key(2));
    let mut bytes = key(1).to_bytes();
    bytes[0] = 0;
    assert_ne!(Pubkey::new_from_array(bytes), key(1));
}

#[test]
fn totals_are_the_sums_of_accepted_deposits_and_amounts_handed_out() {
    let mut plan = sample_plan();
    let mut deposited: u128 = 0;
    let mut handed_out: u128 = 0;
    for amount in [60_000_000_000u64, 0, 40_000_000_000] {
        if plan.record_funding(amount, Some(key(1))).is_ok() {
            deposited += amount as u128;
        }
    }
    assert!(plan.record_funding(5, Some(key(2))).is_err());
    for price in [30_000_000_000u128, 0, 25_000_000_000] {
        if let Ok((usdt, _)) = plan.execute_payout_internal(price) {
            handed_out += usdt;
        }
    }
    plan.trigger_emergency().unwrap();
    if let Ok((usdt, _)) = plan.emergency_withdraw_internal(25_000_000_000) {
        handed_out += usdt;
    }
    assert_eq!(plan.total_deposited_usdt, deposited);
    assert_eq!(deposited, 100_000_000_000);
    assert_eq!(plan.total_withdrawn_usdt, handed_out);
    assert_eq!(handed_out, deposited);
    assert!(plan.total_withdrawn_usdt <= plan.total_deposited_usdt);
}
