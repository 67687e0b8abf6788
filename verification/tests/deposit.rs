use orai_tier::band::{OraiPriceOracle, ONE_USD};
use orai_tier::contract::{
    get_received_funds, get_staked_amount, try_deposit, Coin, Effect, StakedAmount,
};
use orai_tier::error::ContractError;
use orai_tier::msg::{ContractStatus, OraiswapContract, ValidatorWithWeight};
use orai_tier::state::{Config, UserInfo, UserState};

/// A snapshot under which one base-asset unit is exactly one USD unit.
fn identity_oracle() -> OraiPriceOracle {
    OraiPriceOracle { value: ONE_USD, flag: true }
}

fn test_config() -> Config {
    Config {
        status: ContractStatus::Active,
        admin: "admin".to_string(),
        validators: vec![
            ValidatorWithWeight { address: "val-a".to_string(), weight: 60 },
            ValidatorWithWeight { address: "val-b".to_string(), weight: 40 },
        ],
        usd_deposits: vec![500, 200, 50],
        oraiswap_contract: OraiswapContract {
            orai_swap_router_contract: "router".to_string(),
            usdt_contract: "usdt".to_string(),
        },
    }
}

fn orai(amount: u128) -> Vec<Coin> {
    vec![Coin { denom: "orai".to_string(), amount }]
}

fn no_stake() -> StakedAmount {
    StakedAmount { staked_usd_amount: 0, staked_orai_amount: 0 }
}

fn empty_state() -> UserState {
    UserState { info: None, withdrawals: vec![] }
}

fn sender() -> String {
    "alice".to_string()
}

#[test]
fn funds_validation_reports_each_error() {
    assert_eq!(get_received_funds(&vec![]), Err(ContractError::NoFunds));
    assert_eq!(get_received_funds(&orai(0)), Err(ContractError::ZeroAmount));
    assert_eq!(
        get_received_funds(&vec![Coin { denom: "atom".to_string(), amount: 5 }]),
        Err(ContractError::UnsupportedToken)
    );
    let two = vec![
        Coin { denom: "orai".to_string(), amount: 5 },
        Coin { denom: "orai".to_string(), amount: 6 },
    ];
    assert_eq!(get_received_funds(&two), Err(ContractError::MultipleFunds));
    assert_eq!(
        get_received_funds(&orai(5)),
        Ok(Coin { denom: "orai".to_string(), amount: 5 })
    );
}

#[test]
fn deposit_fails_while_stopped() {
    let mut cfg = test_config();
    cfg.status = ContractStatus::Stopped;
    let mut state = empty_state();
    let r = try_deposit(&cfg, &mut state, &sender(), &orai(600), &no_stake(), &identity_oracle(), 7);
    assert_eq!(r.unwrap_err(), ContractError::ContractStopped);
    assert!(state.info.is_none());
}

#[test]
fn deposit_crossing_a_threshold_stakes_it_exactly_and_refunds_the_excess() {
    let cfg = test_config();
    let mut state = empty_state();
    let out = try_deposit(
        &cfg,
        &mut state,
        &sender(),
        &orai(250),
        &no_stake(),
        &identity_oracle(),
        7,
    )
    .unwrap();
    // crossing 200 reaches tier 2; everything above exactly 200 is refunded
    assert_eq!(out.tier, 2);
    assert_eq!(out.orai_deposit, 200);
    // the recorded USD value is re-derived from the held amount plus one
    assert_eq!(out.usd_deposit, 201);
    assert_eq!(
        state.info,
        Some(UserInfo { tier: 2, timestamp: 7, usd_deposit: 201, orai_deposit: 200 })
    );
    assert_eq!(out.messages.len(), 3);
    assert_eq!(
        out.messages[0],
        Effect::Send { to_address: "alice".to_string(), amount: 50 }
    );
    assert_eq!(
        out.messages[1],
        Effect::Delegate { validator: "val-a".to_string(), amount: 120 }
    );
    assert_eq!(
        out.messages[2],
        Effect::Delegate { validator: "val-b".to_string(), amount: 80 }
    );
}

#[test]
fn deposit_with_no_excess_emits_no_refund() {
    let cfg = test_config();
    let mut state = empty_state();
    let out = try_deposit(
        &cfg,
        &mut state,
        &sender(),
        &orai(200),
        &no_stake(),
        &identity_oracle(),
        7,
    )
    .unwrap();
    assert_eq!(out.tier, 2);
    assert_eq!(out.messages.len(), 2);
    assert!(matches!(out.messages[0], Effect::Delegate { .. }));
}

#[test]
fn deposit_within_the_same_tier_reports_the_shortfall_to_the_next() {
    let cfg = test_config();
    let mut state = empty_state();
    // 60 stays within the lowest tier (which a new user already holds), so
    // the request fails and reports what would reach tier 2
    let r = try_deposit(&cfg, &mut state, &sender(), &orai(60), &no_stake(), &identity_oracle(), 7);
    assert_eq!(
        r.unwrap_err(),
        ContractError::InsufficientDeposit { expected_usd: 200, expected_orai: 200 }
    );
    assert!(state.info.is_none());
    // adding the reported shortfall to the user's recorded value reaches tier 2
    assert_eq!(cfg.tier_by_deposit(200), 2);
}

#[test]
fn deposit_crossing_the_max_tier_fails_when_repeated() {
    let cfg = test_config();
    let mut state = empty_state();
    let out = try_deposit(
        &cfg,
        &mut state,
        &sender(),
        &orai(600),
        &no_stake(),
        &identity_oracle(),
        7,
    )
    .unwrap();
    assert_eq!(out.tier, 1);
    assert_eq!(out.orai_deposit, 500);
    assert_eq!(
        out.messages[0],
        Effect::Send { to_address: "alice".to_string(), amount: 100 }
    );
    // the same deposit again: already at the max tier
    let again = try_deposit(
        &cfg,
        &mut state,
        &sender(),
        &orai(600),
        &no_stake(),
        &identity_oracle(),
        8,
    );
    assert_eq!(again.unwrap_err(), ContractError::ReachedMaxTier);
    // the failed call changed nothing
    assert_eq!(
        state.info,
        Some(UserInfo { tier: 1, timestamp: 7, usd_deposit: 501, orai_deposit: 500 })
    );
}

#[test]
fn externally_staked_value_counts_toward_the_tier() {
    let cfg = test_config();
    let oracle = identity_oracle();
    let staked = get_staked_amount(&vec![100, 60], &oracle).unwrap();
    assert_eq!(staked, StakedAmount { staked_usd_amount: 160, staked_orai_amount: 160 });
    let mut state = empty_state();
    // 160 staked outside plus 90 transferred crosses 200
    let out = try_deposit(&cfg, &mut state, &sender(), &orai(90), &staked, &oracle, 7).unwrap();
    assert_eq!(out.tier, 2);
    // the program holds only the on-program part: 200 - 160
    assert_eq!(out.orai_deposit, 40);
    // the excess above the exact threshold comes back
    assert_eq!(
        out.messages[0],
        Effect::Send { to_address: "alice".to_string(), amount: 50 }
    );
}

#[test]
fn staked_reader_returns_zero_for_no_delegations() {
    assert_eq!(
        get_staked_amount(&vec![], &identity_oracle()).unwrap(),
        StakedAmount { staked_usd_amount: 0, staked_orai_amount: 0 }
    );
}

#[test]
fn any_tier_change_restakes_the_new_threshold() {
    // only tier equality blocks a deposit: a stored top-tier record with no
    // recorded value moves to whatever tier the new total earns
    let cfg = test_config();
    let mut state = UserState {
        info: Some(UserInfo { tier: 1, timestamp: 0, usd_deposit: 0, orai_deposit: 0 }),
        withdrawals: vec![],
    };
    let out = try_deposit(
        &cfg,
        &mut state,
        &sender(),
        &orai(250),
        &no_stake(),
        &identity_oracle(),
        7,
    )
    .unwrap();
    assert_eq!(out.tier, 2);
    assert_eq!(out.orai_deposit, 200);
}
