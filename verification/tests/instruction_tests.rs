use payout_plan::error::ErrorCode;
use payout_plan::key::Pubkey;
use payout_plan::payout_plan::{
    emergency_withdraw, execute_payout, fund_plan, initialize_plan, trigger_emergency,
};
use payout_plan::plan::PayoutPlan;

fn key(n: u8) -> Pubkey {
    Pubkey::new_from_array([n; 32])
}

fn new_plan() -> PayoutPlan {
    let (plan, _) = initialize_plan(key(7), key(1), 1_000_000_000, "ipfs://plan".to_string()).unwrap();
    plan
}

#[test]
fn initialize_sets_up_an_inactive_plan() {
    let (plan, event) = initialize_plan(key(7), key(1), 1_000_000_000, "ipfs://plan".to_string()).unwrap();
    assert_eq!(plan.owner, key(1));
    assert_eq!(plan.monthly_usdt_payout, 1_000_000_000);
    assert_eq!(plan.current_payout_usdt, 1_000_000_000);
    assert_eq!(plan.total_deposited_usdt, 0);
    assert_eq!(plan.total_withdrawn_usdt, 0);
    assert_eq!(plan.metadata_uri, "ipfs://plan");
    assert_eq!(plan.nft_mint, None);
    assert!(!plan.is_active);
    assert!(!plan.emergency_triggered);
    assert_eq!(event.plan, key(7));
    assert_eq!(event.owner, key(1));
    assert_eq!(event.monthly_usdt_payout, 1_000_000_000);
    assert_eq!(event.metadata_uri, "ipfs://plan");
}

#[test]
fn initialize_refusals() {
    assert_eq!(
        initialize_plan(key(7), key(1), 0, String::new()).err(),
        Some(ErrorCode::InvalidMonthlyPayout)
    );
    assert!(initialize_plan(key(7), key(1), 1, "a".repeat(128)).is_ok());
    assert_eq!(
        initialize_plan(key(7), key(1), 1, "a".repeat(129)).err(),
        Some(ErrorCode::InvalidMetadataLength)
    );
    assert!(initialize_plan(key(7), key(1), 1, "é".repeat(64)).is_ok());
    assert_eq!(
        initialize_plan(key(7), key(1), 1, "é".repeat(65)).err(),
        Some(ErrorCode::InvalidMetadataLength)
    );
}

#[test]
fn anyone_may_fund_and_the_event_reports_the_totals() {
    let mut plan = new_plan();
    let event = fund_plan(&mut plan, key(7), 40_000_000_000, Some(key(9))).unwrap();
    assert_eq!(event.plan, key(7));
    assert_eq!(event.amount_usdt, 40_000_000_000);
    assert_eq!(event.total_deposited_usdt, 40_000_000_000);
    assert!(!event.is_active);
    let event = fund_plan(&mut plan, key(7), 60_000_000_000, None).unwrap();
    assert_eq!(event.total_deposited_usdt, 100_000_000_000);
    assert!(event.is_active);
    assert_eq!(fund_plan(&mut plan, key(7), 0, None).err(), Some(ErrorCode::ZeroFundingAmount));
}

#[test]
fn only_the_owner_may_pay_out() {
    let mut plan = new_plan();
    fund_plan(&mut plan, key(7), 100_000_000_000, Some(key(9))).unwrap();
    assert_eq!(execute_payout(&mut plan, key(7), key(2), 30_000_000_000).err(), Some(ErrorCode::Unauthorized));
    assert_eq!(plan.total_withdrawn_usdt, 0);
    let event = execute_payout(&mut plan, key(7), key(1), 30_000_000_000).unwrap();
    assert_eq!(event.plan, key(7));
    assert_eq!(event.payout_usdt, 1_000_000_000);
    assert_eq!(event.payout_tbtc, 3_333_333);
    assert_eq!(event.price_usdt_per_tbtc, 30_000_000_000);
    assert_eq!(event.next_payout_usdt, 1_003_726_000);
    assert_eq!(plan.current_payout_usdt, 1_003_726_000);
}

#[test]
fn only_the_owner_may_trigger_the_emergency() {
    let mut plan = new_plan();
    assert_eq!(trigger_emergency(&mut plan, key(7), key(3)).err(), Some(ErrorCode::Unauthorized));
    assert!(!plan.emergency_triggered);
    let event = trigger_emergency(&mut plan, key(7), key(1)).unwrap();
    assert_eq!(event.plan, key(7));
    assert!(plan.emergency_triggered);
    assert_eq!(
        trigger_emergency(&mut plan, key(7), key(1)).err(),
        Some(ErrorCode::EmergencyAlreadyTriggered)
    );
}

#[test]
fn only_the_owner_may_withdraw_in_an_emergency() {
    let mut plan = new_plan();
    fund_plan(&mut plan, key(7), 100_000_000_000, Some(key(9))).unwrap();
    assert_eq!(
        emergency_withdraw(&mut plan, key(7), key(1), 25_000_000_000).err(),
        Some(ErrorCode::EmergencyNotTriggered)
    );
    trigger_emergency(&mut plan, key(7), key(1)).unwrap();
    assert_eq!(
        emergency_withdraw(&mut plan, key(7), key(4), 25_000_000_000).err(),
        Some(ErrorCode::Unauthorized)
    );
    assert_eq!(plan.total_withdrawn_usdt, 0);
    let event = emergency_withdraw(&mut plan, key(7), key(1), 25_000_000_000).unwrap();
    assert_eq!(event.plan, key(7));
    assert_eq!(event.amount_usdt, 100_000_000_000);
    assert_eq!(event.amount_tbtc, 400_000_000);
    assert_eq!(event.price_usdt_per_tbtc, 25_000_000_000);
    assert_eq!(plan.available_balance(), 0);
}

#[test]
fn a_refused_deposit_leaves_the_plan_as_it_was() {
    let mut plan = new_plan();
    plan.total_deposited_usdt = u128::MAX;
    assert_eq!(fund_plan(&mut plan, key(7), 1, Some(key(9))).err(), Some(ErrorCode::MathOverflow));
    assert_eq!(plan.nft_mint, None);
    assert_eq!(plan.total_deposited_usdt, u128::MAX);
    assert!(!plan.is_active);

    let mut plan = new_plan();
    fund_plan(&mut plan, key(7), 5, Some(key(9))).unwrap();
    assert_eq!(fund_plan(&mut plan, key(7), 5, Some(key(8))).err(), Some(ErrorCode::NftMintMismatch));
    assert_eq!(plan.nft_mint, Some(key(9)));
    assert_eq!(plan.total_deposited_usdt, 5);
}
