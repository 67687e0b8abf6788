use orai_tier::contract::{try_claim, try_withdraw, query_withdrawals, Effect, UNBOUND_TIME};
use orai_tier::error::ContractError;
use orai_tier::msg::{ContractStatus, OraiswapContract, SerializedWithdrawals, ValidatorWithWeight};
use orai_tier::state::{Config, UserInfo, UserState, UserWithdrawal};

fn test_config() -> Config {
    Config {
        status: ContractStatus::Active,
        admin: "admin".to_string(),
        validators: vec![
            ValidatorWithWeight { address: "val-a".to_string(), weight: 60 },
            ValidatorWithWeight { address: "val-b".to_string(), weight: 40 },
        ],
        usd_deposits: vec![500, 200, 50],
        oraiswap_contract: OraiswapContract {
            orai_swap_router_contract: "router".to_string(),
            usdt_contract: "usdt".to_string(),
        },
    }
}

fn sender() -> String {
    "alice".to_string()
}

fn entry(amount: u128, timestamp: u64, claim_time: u64) -> UserWithdrawal {
    UserWithdrawal { amount, timestamp, claim_time }
}

#[test]
fn withdraw_clears_the_record_and_appends_one_entry() {
    let cfg = test_config();
    let mut state = UserState {
        info: Some(UserInfo { tier: 2, timestamp: 0, usd_deposit: 201, orai_deposit: 1000 }),
        withdrawals: vec![],
    };
    let msgs = try_withdraw(&cfg, &mut state, 100).unwrap();
    assert!(state.info.is_none());
    assert_eq!(state.withdrawals.len(), 1);
    // the entry unlocks exactly one unbonding delay after the request
    assert_eq!(state.withdrawals[0], entry(1000, 100, 100 + UNBOUND_TIME));
    // the undelegations split the net amount (four units reserved) by weight
    assert_eq!(msgs.len(), 2);
    assert_eq!(
        msgs[0],
        Effect::Undelegate { validator: "val-a".to_string(), amount: 996 * 60 / 100 }
    );
    assert_eq!(
        msgs[1],
        Effect::Undelegate { validator: "val-b".to_string(), amount: 996 * 40 / 100 }
    );
}

#[test]
fn withdraw_without_a_record_is_an_arithmetic_error() {
    let cfg = test_config();
    let mut state = UserState { info: None, withdrawals: vec![] };
    assert_eq!(
        try_withdraw(&cfg, &mut state, 100).unwrap_err(),
        ContractError::Arithmetic
    );
    assert!(state.withdrawals.is_empty());
}

#[test]
fn withdraw_fails_while_stopped() {
    let mut cfg = test_config();
    cfg.status = ContractStatus::Stopped;
    let mut state = UserState {
        info: Some(UserInfo { tier: 2, timestamp: 0, usd_deposit: 201, orai_deposit: 1000 }),
        withdrawals: vec![],
    };
    assert_eq!(
        try_withdraw(&cfg, &mut state, 100).unwrap_err(),
        ContractError::ContractStopped
    );
    assert!(state.info.is_some());
}

#[test]
fn claim_settles_only_unlocked_entries_and_keeps_the_rest_in_order() {
    let cfg = test_config();
    let mut state = UserState {
        info: None,
        withdrawals: vec![entry(10, 0, 50), entry(20, 0, 1000), entry(30, 0, 60)],
    };
    let out = try_claim(&cfg, &mut state, &sender(), None, None, None, 100).unwrap();
    assert_eq!(out.amount, 40);
    assert_eq!(out.messages.len(), 1);
    assert_eq!(
        out.messages[0],
        Effect::Send { to_address: "alice".to_string(), amount: 40 }
    );
    assert_eq!(state.withdrawals, vec![entry(20, 0, 1000)]);
}

#[test]
fn claim_before_anything_unlocks_fails() {
    let cfg = test_config();
    let mut state = UserState {
        info: None,
        withdrawals: vec![entry(10, 0, 50), entry(20, 0, 1000)],
    };
    assert_eq!(
        try_claim(&cfg, &mut state, &sender(), None, None, None, 10).unwrap_err(),
        ContractError::NothingToClaim
    );
    assert_eq!(state.withdrawals.len(), 2);
}

#[test]
fn claim_with_an_empty_queue_fails() {
    let cfg = test_config();
    let mut state = UserState { info: None, withdrawals: vec![] };
    assert_eq!(
        try_claim(&cfg, &mut state, &sender(), None, None, None, 10).unwrap_err(),
        ContractError::NothingToClaim
    );
}

#[test]
fn claim_honours_the_window() {
    let cfg = test_config();
    let mut state = UserState {
        info: None,
        withdrawals: vec![entry(10, 0, 50), entry(20, 0, 60), entry(30, 0, 70)],
    };
    // everything is unlocked, but the window covers only index 1
    let out = try_claim(&cfg, &mut state, &sender(), None, Some(1), Some(1), 2000).unwrap();
    assert_eq!(out.amount, 20);
    assert_eq!(state.withdrawals, vec![entry(10, 0, 50), entry(30, 0, 70)]);
}

#[test]
fn claim_pays_the_named_recipient() {
    let cfg = test_config();
    let mut state = UserState { info: None, withdrawals: vec![entry(10, 0, 50)] };
    let out = try_claim(
        &cfg,
        &mut state,
        &sender(),
        Some("bob".to_string()),
        None,
        None,
        100,
    )
    .unwrap();
    assert_eq!(
        out.messages[0],
        Effect::Send { to_address: "bob".to_string(), amount: 10 }
    );
    assert!(state.withdrawals.is_empty());
}

#[test]
fn claim_fails_while_stopped() {
    let mut cfg = test_config();
    cfg.status = ContractStatus::Stopped;
    let mut state = UserState { info: None, withdrawals: vec![entry(10, 0, 50)] };
    assert_eq!(
        try_claim(&cfg, &mut state, &sender(), None, None, None, 100).unwrap_err(),
        ContractError::ContractStopped
    );
}

#[test]
fn withdrawals_query_pages_the_queue() {
    let queue = vec![entry(10, 1, 50), entry(20, 2, 60), entry(30, 3, 70)];
    let (count, page) = query_withdrawals(&queue, None, None).unwrap();
    assert_eq!(count, 3);
    assert_eq!(page.len(), 3);
    assert_eq!(
        page[0],
        SerializedWithdrawals { amount: 10, claim_time: 50, timestamp: 1 }
    );

    let (count, page) = query_withdrawals(&queue, Some(1), Some(1)).unwrap();
    assert_eq!(count, 3);
    assert_eq!(
        page,
        vec![SerializedWithdrawals { amount: 20, claim_time: 60, timestamp: 2 }]
    );

    // a window past the end is empty
    let (count, page) = query_withdrawals(&queue, Some(7), Some(5)).unwrap();
    assert_eq!(count, 3);
    assert!(page.is_empty());
}

#[test]
fn claim_total_overflow_is_an_arithmetic_error() {
    let cfg = test_config();
    let mut state = UserState {
        info: None,
        withdrawals: vec![entry(u128::MAX, 0, 50), entry(1, 0, 50)],
    };
    assert_eq!(
        try_claim(&cfg, &mut state, &sender(), None, None, None, 100).unwrap_err(),
        ContractError::Arithmetic
    );
    // the failed call left the queue alone
    assert_eq!(state.withdrawals.len(), 2);
}

#[test]
fn withdraw_of_exactly_the_reserve_undelegates_nothing() {
    let cfg = test_config();
    let mut state = UserState {
        info: Some(UserInfo { tier: 3, timestamp: 0, usd_deposit: 5, orai_deposit: 4 }),
        withdrawals: vec![],
    };
    let msgs = try_withdraw(&cfg, &mut state, 9).unwrap();
    assert_eq!(state.withdrawals[0], entry(4, 9, 9 + UNBOUND_TIME));
    assert_eq!(
        msgs[0],
        Effect::Undelegate { validator: "val-a".to_string(), amount: 0 }
    );
}
