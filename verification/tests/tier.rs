use orai_tier::contract::instantiate;
use orai_tier::error::ContractError;
use orai_tier::msg::{ContractStatus, InstantiateMsg, OraiswapContract, ValidatorWithWeight};

fn swap_contract() -> OraiswapContract {
    OraiswapContract {
        orai_swap_router_contract: "router".to_string(),
        usdt_contract: "usdt".to_string(),
    }
}

fn msg_with_deposits(deposits: Vec<u128>) -> InstantiateMsg {
    InstantiateMsg {
        admin: Some("admin".to_string()),
        validators: vec![ValidatorWithWeight { address: "val-a".to_string(), weight: 100 }],
        deposits,
        oraiswap_contract: swap_contract(),
    }
}

#[test]
fn instantiate_builds_the_config() {
    let cfg = instantiate(msg_with_deposits(vec![500, 200, 50])).unwrap();
    assert_eq!(cfg.status, ContractStatus::Active);
    assert_eq!(cfg.admin, "admin");
    assert_eq!(cfg.usd_deposits, vec![500, 200, 50]);
    assert_eq!(cfg.validators.len(), 1);
}

#[test]
fn instantiate_without_admin_uses_the_empty_identity() {
    let mut msg = msg_with_deposits(vec![10]);
    msg.admin = None;
    let cfg = instantiate(msg).unwrap();
    assert_eq!(cfg.admin, "");
}

#[test]
fn instantiate_rejects_an_empty_table() {
    assert_eq!(
        instantiate(msg_with_deposits(vec![])).unwrap_err(),
        ContractError::EmptyDeposits
    );
}

#[test]
fn instantiate_rejects_an_increasing_table() {
    assert_eq!(
        instantiate(msg_with_deposits(vec![100, 200])).unwrap_err(),
        ContractError::DepositsNotDecreasing
    );
}

#[test]
fn instantiate_rejects_equal_neighbours() {
    assert_eq!(
        instantiate(msg_with_deposits(vec![100, 100])).unwrap_err(),
        ContractError::DepositsNotDecreasing
    );
}

#[test]
fn tiers_follow_the_descending_table() {
    let cfg = instantiate(msg_with_deposits(vec![500, 200, 50])).unwrap();
    assert_eq!(cfg.max_tier(), 1);
    assert_eq!(cfg.min_tier(), 3);
    assert_eq!(cfg.tier_by_deposit(700), 1);
    assert_eq!(cfg.tier_by_deposit(500), 1);
    assert_eq!(cfg.tier_by_deposit(499), 2);
    assert_eq!(cfg.tier_by_deposit(200), 2);
    assert_eq!(cfg.tier_by_deposit(60), 3);
    assert_eq!(cfg.tier_by_deposit(50), 3);
    // below every threshold: the lowest tier
    assert_eq!(cfg.tier_by_deposit(30), 3);
    assert_eq!(cfg.tier_by_deposit(0), 3);
    // larger values never earn a larger tier number
    for usd in [0u128, 49, 50, 199, 200, 499, 500, 1000] {
        assert!(cfg.tier_by_deposit(usd + 1) <= cfg.tier_by_deposit(usd));
    }
    assert_eq!(cfg.deposit_by_tier(1), 500);
    assert_eq!(cfg.deposit_by_tier(2), 200);
    assert_eq!(cfg.deposit_by_tier(3), 50);
}

#[test]
fn status_bytes_round_trip_and_reject_unknown_values() {
    assert_eq!(ContractStatus::parse(0), Ok(ContractStatus::Active));
    assert_eq!(ContractStatus::parse(1), Ok(ContractStatus::Stopped));
    assert_eq!(ContractStatus::parse(2), Err(ContractError::InvalidStatus));
    assert_eq!(ContractStatus::Active.to_byte(), 0);
    assert_eq!(ContractStatus::Stopped.to_byte(), 1);
}
