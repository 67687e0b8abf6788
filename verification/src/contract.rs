//! The request handlers: every state transition of the program as a pure,
//! verified function from the stored state and the request's inputs to the
//! new state and the effects the host must execute.
//!
//! Each handler is all-or-nothing: on any error the state it was handed is
//! unchanged. Synchronous queries the handlers depend on (the live exchange
//! rate, the caller's external delegations, per-validator rewards) are made
//! by the caller and handed in as plain values.

use vstd::prelude::*;

use crate::band::OraiPriceOracle;
use crate::error::ContractError;
use crate::msg::{ContractStatus, InstantiateMsg, SerializedWithdrawals, ValidatorWithWeight};
use crate::state::{
    lemma_tier_range, strictly_decreasing, tier_of, Config, UserInfo, UserState, UserWithdrawal,
};

verus! {

/// The unbonding delay in seconds: three weeks between a withdraw request
/// and its entry becoming claimable.
pub const UNBOUND_TIME: u64 = 21 * 24 * 60 * 60;

/// The base asset's native denomination.
pub open spec fn orai_denom() -> Seq<char> {
    "orai"@
}

/// An attached fund: a denomination and an amount of it.
#[derive(Debug, PartialEq, Eq)]
pub struct Coin {
    pub denom: String,
    pub amount: u128,
}

impl Clone for Coin {
    fn clone(&self) -> (r: Coin)
        ensures
            r == *self,
    {
        Coin { denom: self.denom.clone(), amount: self.amount }
    }
}

/// One effect the host must execute on the program's behalf. Every amount is
/// in the base asset's denomination.
#[derive(Debug, PartialEq, Eq)]
pub enum Effect {
    /// Transfer funds out of the program to an address.
    Send { to_address: String, amount: u128 },
    /// Delegate funds to a validator.
    Delegate { validator: String, amount: u128 },
    /// Start undelegating funds from a validator.
    Undelegate { validator: String, amount: u128 },
    /// Move a whole delegation from one validator to another.
    Redelegate { src_validator: String, dst_validator: String, amount: u128 },
    /// Collect the accumulated reward from a validator.
    WithdrawReward { validator: String },
    /// Set the address rewards are paid to.
    SetWithdrawAddress { address: String },
}

/// The caller's value already staked outside the program, in both units.
#[derive(Clone, Copy, Debug, PartialEq, Eq, Structural)]
pub struct StakedAmount {
    pub staked_usd_amount: u128,
    pub staked_orai_amount: u128,
}

/// What a delegation query reports about the first validator: the claimable
/// reward, the amount that may be redelegated now, and the delegated amount.
#[derive(Clone, Copy, Debug, PartialEq, Eq, Structural)]
pub struct DelegationInfo {
    pub accumulated_reward: u128,
    pub can_redelegate: u128,
    pub delegated_amount: u128,
}

/// A successful deposit: the new record's amounts and tier, and the effects
/// (at most one refund, then one delegation per validator).
#[derive(Debug)]
pub struct DepositOutcome {
    pub usd_deposit: u128,
    pub orai_deposit: u128,
    pub tier: u8,
    pub messages: Vec<Effect>,
}

/// A successful claim: the settled total and the single transfer of it.
#[derive(Debug)]
pub struct ClaimOutcome {
    pub amount: u128,
    pub messages: Vec<Effect>,
}

/// A successful reward withdrawal or redelegation: the observed amount and
/// the effects to execute.
#[derive(Debug)]
pub struct AdminOutcome {
    pub amount: u128,
    pub messages: Vec<Effect>,
}

/// Relies on cosmwasm_std::Uint128::checked_multiply_ratio: computes
/// `amount * numerator / denominator` with the multiply at full width and
/// the division floored, reporting a zero denominator or a quotient above
/// `u128::MAX` as an error value.
#[verifier::external_body]
fn mul_ratio(amount: u128, numerator: u128, denominator: u128) -> (r: Option<u128>)
    ensures
        denominator == 0 ==> r is None,
        denominator >= 1 && amount * numerator / (denominator as int) > u128::MAX ==> r is None,
        denominator >= 1 && amount * numerator / (denominator as int) <= u128::MAX ==> r
            == Some((amount * numerator / (denominator as int)) as u128),
{
    cosmwasm_std::Uint128::new(amount)
        .checked_multiply_ratio(numerator, denominator)
        .ok()
        .map(|v| v.u128())
}

/// What validating the attached funds yields: the single nonzero base-asset
/// fund, or the exact error, checked in this order.
pub open spec fn received_funds_spec(funds: Seq<Coin>) -> Result<Coin, ContractError> {
    if funds.len() == 0 {
        Err(ContractError::NoFunds)
    } else if funds[0].amount == 0 {
        Err(ContractError::ZeroAmount)
    } else if funds[0].denom@ != orai_denom() {
        Err(ContractError::UnsupportedToken)
    } else if funds.len() > 1 {
        Err(ContractError::MultipleFunds)
    } else {
        Ok(funds[0])
    }
}

/// Validate the funds attached to a deposit: exactly one fund, of the base
/// asset, with a nonzero amount.
pub fn get_received_funds(funds: &Vec<Coin>) -> (r: Result<Coin, ContractError>)
    ensures
        r == received_funds_spec(funds@),
{
    if funds.len() == 0 {
        return Err(ContractError::NoFunds);
    }
    let received = &funds[0];
    if received.amount == 0 {
        Err(ContractError::ZeroAmount)
    } else if !(received.denom == "orai".to_owned()) {
        Err(ContractError::UnsupportedToken)
    } else if funds.len() > 1 {
        Err(ContractError::MultipleFunds)
    } else {
        Ok(received.clone())
    }
}

/// Pairwise-adjacent decrease extends to every pair.
proof fn lemma_adjacent_strictly_decreasing(s: Seq<u128>, i: int, j: int)
    requires
        forall|k: int| 1 <= k < s.len() ==> #[trigger] s[k] < s[k - 1],
        0 <= i < j < s.len(),
    ensures
        s[i] > s[j],
    decreases j - i,
{
    if j > i + 1 {
        lemma_adjacent_strictly_decreasing(s, i, j - 1);
    }
}

/// Initialize the program: validate the threshold table and build the
/// configuration. The table must be non-empty and strictly decreasing;
/// the admin defaults to the empty identity; the status starts active.
pub fn instantiate(msg: InstantiateMsg) -> (r: Result<Config, ContractError>)
    requires
        msg.deposits@.len() <= 255,
    ensures
        msg.deposits@.len() == 0 ==> r == Err::<Config, ContractError>(
            ContractError::EmptyDeposits,
        ),
        msg.deposits@.len() >= 1 && !strictly_decreasing(msg.deposits@) ==> r == Err::<
            Config,
            ContractError,
        >(ContractError::DepositsNotDecreasing),
        msg.deposits@.len() >= 1 && strictly_decreasing(msg.deposits@) ==> (r matches Ok(cfg)
            && cfg.status == ContractStatus::Active && (match msg.admin {
            Some(a) => cfg.admin == a,
            None => cfg.admin@ == Seq::<char>::empty(),
        }) && cfg.validators == msg.validators && cfg.usd_deposits == msg.deposits
            && cfg.oraiswap_contract == msg.oraiswap_contract && cfg.wf()),
{
    let deposits_len = msg.deposits.len();
    if deposits_len == 0 {
        return Err(ContractError::EmptyDeposits);
    }
    let ghost s = msg.deposits@;
    let mut k: usize = 1;
    while k < deposits_len
        invariant
            1 <= k <= deposits_len,
            deposits_len == s.len(),
            msg.deposits@ == s,
            forall|j: int| 1 <= j < k ==> #[trigger] s[j] < s[j - 1],
        decreases deposits_len - k,
    {
        if msg.deposits[k - 1] <= msg.deposits[k] {
            return Err(ContractError::DepositsNotDecreasing);
        }
        k = k + 1;
    }
    proof {
        assert forall|i: int, j: int| 0 <= i < j < s.len() implies s[i] > s[j] by {
            lemma_adjacent_strictly_decreasing(s, i, j);
        }
    }
    let admin = match msg.admin {
        Some(a) => a,
        None => String::new(),
    };
    Ok(
        Config {
            status: ContractStatus::Active,
            admin,
            validators: msg.validators,
            usd_deposits: msg.deposits,
            oraiswap_contract: msg.oraiswap_contract,
        },
    )
}

/// Hand the admin role to another identity. Admin-only.
pub fn try_change_admin(cfg: &mut Config, sender: &String, new_admin: String) -> (r: Result<
    (),
    ContractError,
>)
    ensures
        sender@ != old(cfg).admin@ ==> r == Err::<(), ContractError>(ContractError::Unauthorized)
            && *final(cfg) == *old(cfg),
        sender@ == old(cfg).admin@ ==> r == Ok::<(), ContractError>(()) && final(cfg).admin
            == new_admin && final(cfg).status == old(cfg).status && final(cfg).validators == old(cfg).validators && final(cfg).usd_deposits == old(cfg).usd_deposits && final(cfg).oraiswap_contract == old(cfg).oraiswap_contract,
{
    if !(*sender == cfg.admin) {
        return Err(ContractError::Unauthorized);
    }
    cfg.admin = new_admin;
    Ok(())
}

/// Switch the program between active and stopped. Admin-only.
pub fn try_change_status(cfg: &mut Config, sender: &String, status: ContractStatus) -> (r: Result<
    (),
    ContractError,
>)
    ensures
        sender@ != old(cfg).admin@ ==> r == Err::<(), ContractError>(ContractError::Unauthorized)
            && *final(cfg) == *old(cfg),
        sender@ == old(cfg).admin@ ==> r == Ok::<(), ContractError>(()) && final(cfg).status
            == status && final(cfg).admin == old(cfg).admin && final(cfg).validators == old(cfg).validators && final(cfg).usd_deposits == old(cfg).usd_deposits && final(cfg).oraiswap_contract == old(cfg).oraiswap_contract,
{
    if !(*sender == cfg.admin) {
        return Err(ContractError::Unauthorized);
    }
    cfg.status = status;
    Ok(())
}

/// The sum of the first `i` entries.
pub open spec fn sum_prefix(s: Seq<u128>, i: int) -> int
    decreases i,
{
    if i <= 0 {
        0
    } else {
        sum_prefix(s, i - 1) + s[i - 1]
    }
}

/// Prefix sums of nonnegative entries only grow.
pub proof fn lemma_sum_prefix_monotone(s: Seq<u128>, i: int, j: int)
    requires
        0 <= i <= j <= s.len(),
    ensures
        sum_prefix(s, i) <= sum_prefix(s, j),
    decreases j - i,
{
    if i < j {
        lemma_sum_prefix_monotone(s, i, j - 1);
    }
}

/// Sum the caller's external delegations and convert the total to USD at
/// the snapshot, to fold already-staked value into the tier computation.
/// With no delegations both amounts are zero and the oracle is not used.
pub fn get_staked_amount(delegations: &Vec<u128>, oracle: &OraiPriceOracle) -> (r: Result<
    StakedAmount,
    ContractError,
>)
    requires
        oracle.wf(),
    ensures
        delegations@.len() == 0 ==> r == Ok::<StakedAmount, ContractError>(
            StakedAmount { staked_usd_amount: 0, staked_orai_amount: 0 },
        ),
        delegations@.len() >= 1 && sum_prefix(delegations@, delegations@.len() as int) > u128::MAX
            ==> r == Err::<StakedAmount, ContractError>(ContractError::Arithmetic),
        delegations@.len() >= 1 && sum_prefix(delegations@, delegations@.len() as int) <= u128::MAX
            && oracle.usd_overflows(
            sum_prefix(delegations@, delegations@.len() as int) as u128,
        ) ==> r == Err::<StakedAmount, ContractError>(ContractError::Arithmetic),
        delegations@.len() >= 1 && sum_prefix(delegations@, delegations@.len() as int) <= u128::MAX
            && !oracle.usd_overflows(sum_prefix(delegations@, delegations@.len() as int) as u128)
            ==> r == Ok::<StakedAmount, ContractError>(
            StakedAmount {
                staked_usd_amount: oracle.usd_of(
                    sum_prefix(delegations@, delegations@.len() as int) as u128,
                ) as u128,
                staked_orai_amount: sum_prefix(delegations@, delegations@.len() as int) as u128,
            },
        ),
{
    let n = delegations.len();
    if n == 0 {
        return Ok(StakedAmount { staked_usd_amount: 0, staked_orai_amount: 0 });
    }
    let ghost s = delegations@;
    let mut total: u128 = 0;
    let mut i: usize = 0;
    while i < n
        invariant
            0 <= i <= n,
            n == s.len(),
            delegations@ == s,
            total == sum_prefix(s, i as int),
        decreases n - i,
    {
        match total.checked_add(delegations[i]) {
            Some(t) => {
                total = t;
            },
            None => {
                proof {
                    lemma_sum_prefix_monotone(s, i as int + 1, s.len() as int);
                }
                return Err(ContractError::Arithmetic);
            },
        }
        i = i + 1;
    }
    match oracle.usd_amount_checked(total) {
        Some(usd) => Ok(StakedAmount { staked_usd_amount: usd, staked_orai_amount: total }),
        None => Err(ContractError::Arithmetic),
    }
}

/// The recorded USD value before a deposit: the stored record's, or zero.
pub open spec fn old_usd_of(info: Option<UserInfo>) -> u128 {
    match info {
        Some(u) => u.usd_deposit,
        None => 0,
    }
}

/// The held base-asset amount before a deposit: the stored record's, or zero.
pub open spec fn old_orai_of(info: Option<UserInfo>) -> u128 {
    match info {
        Some(u) => u.orai_deposit,
        None => 0,
    }
}

/// The tier a deposit starts from: the stored record's, or the tier the
/// caller's externally staked value alone earns.
pub open spec fn current_tier_of(cfg: Config, info: Option<UserInfo>, staked_usd: u128) -> int {
    match info {
        Some(u) => u.tier as int,
        None => tier_of(cfg.usd_deposits@, staked_usd),
    }
}

/// What a deposit decides, step by step in the order the checks run: the
/// new record and the refund on success, or the exact error. Every failed
/// checked operation is an arithmetic error.
pub open spec fn deposit_plan(
    cfg: Config,
    funds: Seq<Coin>,
    info: Option<UserInfo>,
    staked_usd: u128,
    staked_orai: u128,
    o: OraiPriceOracle,
    now: u64,
) -> Result<(UserInfo, u128), ContractError> {
    if !cfg.is_active() {
        Err(ContractError::ContractStopped)
    } else {
        match received_funds_spec(funds) {
            Err(e) => Err(e),
            Ok(coin) => {
                if old_usd_of(info) + staked_usd > u128::MAX {
                    Err(ContractError::Arithmetic)
                } else {
                    let total_usd = (old_usd_of(info) + staked_usd) as u128;
                    let cur = current_tier_of(cfg, info, total_usd);
                    if coin.amount + staked_orai > u128::MAX {
                        Err(ContractError::Arithmetic)
                    } else {
                        let orai_total = (coin.amount + staked_orai) as u128;
                        if o.usd_overflows(orai_total) {
                            Err(ContractError::Arithmetic)
                        } else if old_usd_of(info) + o.usd_of(orai_total) > u128::MAX {
                            Err(ContractError::Arithmetic)
                        } else {
                            let new_usd = (old_usd_of(info) + o.usd_of(orai_total)) as u128;
                            let new_tier = tier_of(cfg.usd_deposits@, new_usd);
                            if new_tier == cur {
                                deposit_same_tier_plan(cfg, total_usd, cur, o)
                            } else {
                                deposit_upgrade_plan(
                                    cfg,
                                    info,
                                    staked_orai,
                                    orai_total,
                                    new_tier,
                                    o,
                                    now,
                                )
                            }
                        }
                    }
                }
            },
        }
    }
}

/// The failing branch of a deposit that does not move the tier: at the top
/// it is the reached-max-tier error; otherwise the insufficient-deposit
/// error reporting the shortfall to the next tier, in both units.
pub open spec fn deposit_same_tier_plan(
    cfg: Config,
    total_usd: u128,
    cur: int,
    o: OraiPriceOracle,
) -> Result<(UserInfo, u128), ContractError> {
    if cur == 1 {
        Err(ContractError::ReachedMaxTier)
    } else {
        let next_deposit = cfg.usd_deposits@[cur - 2];
        if next_deposit - total_usd < 0 {
            Err(ContractError::Arithmetic)
        } else {
            let expected_usd = (next_deposit - total_usd) as u128;
            if o.orai_overflows(expected_usd) {
                Err(ContractError::Arithmetic)
            } else {
                Err(
                    ContractError::InsufficientDeposit {
                        expected_usd,
                        expected_orai: o.orai_of(expected_usd) as u128,
                    },
                )
            }
        }
    }
}

/// The tier-raising branch of a deposit: stake exactly the new tier's
/// threshold (in base-asset terms at the snapshot), refund the excess, and
/// re-derive the recorded USD value from the held amount plus one unit of
/// rounding headroom.
pub open spec fn deposit_upgrade_plan(
    cfg: Config,
    info: Option<UserInfo>,
    staked_orai: u128,
    orai_total: u128,
    new_tier: int,
    o: OraiPriceOracle,
    now: u64,
) -> Result<(UserInfo, u128), ContractError> {
    let threshold_usd = cfg.usd_deposits@[new_tier - 1];
    if o.orai_overflows(threshold_usd) {
        Err(ContractError::Arithmetic)
    } else {
        let threshold_orai = o.orai_of(threshold_usd);
        if orai_total - threshold_orai < 0 {
            Err(ContractError::Arithmetic)
        } else {
            let refund = (orai_total - threshold_orai) as u128;
            if threshold_orai - staked_orai < 0 {
                Err(ContractError::Arithmetic)
            } else {
                let new_orai = (threshold_orai - staked_orai) as u128;
                if o.usd_overflows(new_orai) {
                    Err(ContractError::Arithmetic)
                } else if o.usd_of(new_orai) + 1 > u128::MAX {
                    Err(ContractError::Arithmetic)
                } else if new_orai - old_orai_of(info) < 0 {
                    Err(ContractError::Arithmetic)
                } else if exists|j: int|
                    0 <= j < cfg.validators@.len() && (new_orai - old_orai_of(info))
                        * cfg.validators@[j].weight > u128::MAX {
                    Err(ContractError::Arithmetic)
                } else {
                    Ok(
                        (
                            UserInfo {
                                tier: new_tier as u8,
                                timestamp: now,
                                usd_deposit: (o.usd_of(new_orai) + 1) as u128,
                                orai_deposit: new_orai,
                            },
                            refund,
                        ),
                    )
                }
            }
        }
    }
}

/// The effects of a successful deposit: the refund, if any, then one
/// delegation per validator of the newly held amount's weighted share.
pub open spec fn deposit_effects(
    cfg: Config,
    sender: String,
    refund: u128,
    delta_orai: u128,
) -> Seq<Effect> {
    (if refund != 0 {
        seq![Effect::Send { to_address: sender, amount: refund }]
    } else {
        Seq::<Effect>::empty()
    }) + Seq::new(
        cfg.validators@.len(),
        |j: int|
            Effect::Delegate {
                validator: cfg.validators@[j].address,
                amount: (delta_orai * cfg.validators@[j].weight / 100) as u128,
            },
    )
}

/// Deposit the attached funds: fold in the externally staked value, convert
/// to USD at the snapshot, resolve the tier transition, stake exactly the
/// new tier's threshold, refund the excess, and record the new position.
/// A deposit that does not raise the tier fails.
#[verifier::loop_isolation(false)]
pub fn try_deposit(
    cfg: &Config,
    state: &mut UserState,
    sender: &String,
    funds: &Vec<Coin>,
    staked: &StakedAmount,
    oracle: &OraiPriceOracle,
    now: u64,
) -> (r: Result<DepositOutcome, ContractError>)
    requires
        cfg.wf(),
        oracle.wf(),
        old(state).wf(*cfg),
    ensures
        deposit_plan(
            *cfg,
            funds@,
            old(state).info,
            staked.staked_usd_amount,
            staked.staked_orai_amount,
            *oracle,
            now,
        ) matches Err(e) ==> r == Err::<DepositOutcome, ContractError>(e) && *final(state) == *old(state),
        deposit_plan(
            *cfg,
            funds@,
            old(state).info,
            staked.staked_usd_amount,
            staked.staked_orai_amount,
            *oracle,
            now,
        ) matches Ok(pair) ==> (r matches Ok(out) && final(state).info == Some(pair.0) && final(state).withdrawals == old(state).withdrawals && out.usd_deposit == pair.0.usd_deposit
            && out.orai_deposit == pair.0.orai_deposit && out.tier == pair.0.tier && out.messages@
            == deposit_effects(
            *cfg,
            *sender,
            pair.1,
            (pair.0.orai_deposit - old_orai_of(old(state).info)) as u128,
        )),
{
    let ghost plan = deposit_plan(
        *cfg,
        funds@,
        old(state).info,
        staked.staked_usd_amount,
        staked.staked_orai_amount,
        *oracle,
        now,
    );
    if let Err(e) = cfg.assert_contract_active() {
        return Err(e);
    }
    let received = match get_received_funds(funds) {
        Ok(c) => c,
        Err(e) => {
            return Err(e);
        },
    };
    let old_usd = match &state.info {
        Some(u) => u.usd_deposit,
        None => 0,
    };
    let old_orai = match &state.info {
        Some(u) => u.orai_deposit,
        None => 0,
    };
    let total_usd = match old_usd.checked_add(staked.staked_usd_amount) {
        Some(v) => v,
        None => {
            return Err(ContractError::Arithmetic);
        },
    };
    let current_tier = match &state.info {
        Some(u) => u.tier,
        None => cfg.tier_by_deposit(total_usd),
    };
    let orai_total = match received.amount.checked_add(staked.staked_orai_amount) {
        Some(v) => v,
        None => {
            return Err(ContractError::Arithmetic);
        },
    };
    let usd_delta = match oracle.usd_amount_checked(orai_total) {
        Some(v) => v,
        None => {
            return Err(ContractError::Arithmetic);
        },
    };
    let new_usd = match old_usd.checked_add(usd_delta) {
        Some(v) => v,
        None => {
            return Err(ContractError::Arithmetic);
        },
    };
    let new_tier = cfg.tier_by_deposit(new_usd);
    proof {
        lemma_tier_range(cfg.usd_deposits@, new_usd);
    }
    if new_tier == current_tier {
        if current_tier == cfg.max_tier() {
            return Err(ContractError::ReachedMaxTier);
        }
        let next_tier = current_tier - 1;
        let next_tier_deposit = cfg.deposit_by_tier(next_tier);
        let expected_usd = match next_tier_deposit.checked_sub(total_usd) {
            Some(v) => v,
            None => {
                return Err(ContractError::Arithmetic);
            },
        };
        let expected_orai = match oracle.orai_amount_checked(expected_usd) {
            Some(v) => v,
            None => {
                return Err(ContractError::Arithmetic);
            },
        };
        return Err(ContractError::InsufficientDeposit { expected_usd, expected_orai });
    }
    // the tier moves: stake exactly the new tier's threshold
    let new_tier_deposit = cfg.deposit_by_tier(new_tier);
    let threshold_orai = match oracle.orai_amount_checked(new_tier_deposit) {
        Some(v) => v,
        None => {
            return Err(ContractError::Arithmetic);
        },
    };
    let refund = match orai_total.checked_sub(threshold_orai) {
        Some(v) => v,
        None => {
            return Err(ContractError::Arithmetic);
        },
    };
    let new_orai = match threshold_orai.checked_sub(staked.staked_orai_amount) {
        Some(v) => v,
        None => {
            return Err(ContractError::Arithmetic);
        },
    };
    let usd_base = match oracle.usd_amount_checked(new_orai) {
        Some(v) => v,
        None => {
            return Err(ContractError::Arithmetic);
        },
    };
    let new_usd_deposit = match usd_base.checked_add(1) {
        Some(v) => v,
        None => {
            return Err(ContractError::Arithmetic);
        },
    };
    let delta_orai = match new_orai.checked_sub(old_orai) {
        Some(v) => v,
        None => {
            return Err(ContractError::Arithmetic);
        },
    };
    let ghost pre: Seq<Effect> = if refund != 0 {
        seq![Effect::Send { to_address: *sender, amount: refund }]
    } else {
        Seq::<Effect>::empty()
    };
    let mut messages: Vec<Effect> = Vec::new();
    if refund != 0 {
        messages.push(Effect::Send { to_address: sender.clone(), amount: refund });
    }
    proof {
        assert(messages@ =~= pre);
    }
    let n = cfg.validators.len();
    let mut i: usize = 0;
    while i < n
        invariant
            0 <= i <= n,
            n == cfg.validators@.len(),
            forall|j: int| 0 <= j < i ==> delta_orai * cfg.validators@[j].weight <= u128::MAX,
            messages@ == pre + Seq::new(
                i as nat,
                |j: int|
                    Effect::Delegate {
                        validator: cfg.validators@[j].address,
                        amount: (delta_orai * cfg.validators@[j].weight / 100) as u128,
                    },
            ),
        decreases n - i,
    {
        let w = cfg.validators[i].weight;
        match delta_orai.checked_mul(w) {
            Some(p) => {
                messages.push(
                    Effect::Delegate { validator: cfg.validators[i].address.clone(), amount: p / 100 },
                );
            },
            None => {
                proof {
                    assert(0 <= i < cfg.validators@.len() && delta_orai * cfg.validators@[
                        i as int
                    ].weight > u128::MAX);
                }
                return Err(ContractError::Arithmetic);
            },
        }
        i = i + 1;
        proof {
            assert(messages@ =~= pre + Seq::new(
                i as nat,
                |j: int|
                    Effect::Delegate {
                        validator: cfg.validators@[j].address,
                        amount: (delta_orai * cfg.validators@[j].weight / 100) as u128,
                    },
            ));
        }
    }
    let new_user = UserInfo {
        tier: new_tier,
        timestamp: now,
        usd_deposit: new_usd_deposit,
        orai_deposit: new_orai,
    };
    state.info = Some(new_user);
    proof {
        assert(plan == Ok::<(UserInfo, u128), ContractError>((new_user, refund)));
        assert(messages@ =~= deposit_effects(*cfg, *sender, refund, delta_orai));
    }
    Ok(
        DepositOutcome {
            usd_deposit: new_usd_deposit,
            orai_deposit: new_orai,
            tier: new_tier,
            messages,
        },
    )
}

/// What a withdraw decides: the queue entry to append and the amount to
/// undelegate (the held amount minus a fixed four-unit rounding reserve),
/// or the exact error.
pub open spec fn withdraw_plan(cfg: Config, info: Option<UserInfo>, now: u64) -> Result<
    (UserWithdrawal, u128),
    ContractError,
> {
    if !cfg.is_active() {
        Err(ContractError::ContractStopped)
    } else {
        let amount = old_orai_of(info);
        if amount < 4 {
            Err(ContractError::Arithmetic)
        } else if now + UNBOUND_TIME > u64::MAX {
            Err(ContractError::Arithmetic)
        } else {
            Ok(
                (
                    UserWithdrawal {
                        amount,
                        timestamp: now,
                        claim_time: (now + UNBOUND_TIME) as u64,
                    },
                    (amount - 4) as u128,
                ),
            )
        }
    }
}

/// The effects of a successful withdraw: one undelegation per validator of
/// the net amount's weighted share.
pub open spec fn withdraw_effects(cfg: Config, net: u128) -> Seq<Effect> {
    Seq::new(
        cfg.validators@.len(),
        |j: int|
            Effect::Undelegate {
                validator: cfg.validators@[j].address,
                amount: (net * cfg.validators@[j].weight / 100) as u128,
            },
    )
}

/// Whether some validator's share of the net amount overflows the
/// full-width multiply-ratio.
pub open spec fn withdraw_split_overflows(cfg: Config, net: u128) -> bool {
    exists|j: int|
        0 <= j < cfg.validators@.len() && net * cfg.validators@[j].weight / 100 > u128::MAX
}

/// Exit the program: clear the caller's record entirely, append one queue
/// entry unlocking after the unbonding delay, and undelegate the weighted
/// shares of the held amount (net of the fixed rounding reserve).
#[verifier::loop_isolation(false)]
pub fn try_withdraw(cfg: &Config, state: &mut UserState, now: u64) -> (r: Result<
    Vec<Effect>,
    ContractError,
>)
    ensures
        withdraw_plan(*cfg, old(state).info, now) matches Err(e) ==> r == Err::<
            Vec<Effect>,
            ContractError,
        >(e) && *final(state) == *old(state),
        withdraw_plan(*cfg, old(state).info, now) matches Ok(pair) ==> ((withdraw_split_overflows(
            *cfg,
            pair.1,
        ) ==> r == Err::<Vec<Effect>, ContractError>(ContractError::Arithmetic) && *final(state)
            == *old(state)) && (!withdraw_split_overflows(*cfg, pair.1) ==> (r matches Ok(msgs)
            && msgs@ == withdraw_effects(*cfg, pair.1) && final(state).info is None
            && final(state).withdrawals@ == old(state).withdrawals@.push(pair.0)))),
{
    if let Err(e) = cfg.assert_contract_active() {
        return Err(e);
    }
    let amount = match &state.info {
        Some(u) => u.orai_deposit,
        None => 0,
    };
    if amount < 4 {
        return Err(ContractError::Arithmetic);
    }
    let claim_time = match now.checked_add(UNBOUND_TIME) {
        Some(v) => v,
        None => {
            return Err(ContractError::Arithmetic);
        },
    };
    let net = amount - 4;
    let n = cfg.validators.len();
    let mut messages: Vec<Effect> = Vec::new();
    let mut i: usize = 0;
    while i < n
        invariant
            0 <= i <= n,
            n == cfg.validators@.len(),
            forall|j: int| 0 <= j < i ==> net * cfg.validators@[j].weight / 100 <= u128::MAX,
            messages@ == Seq::new(
                i as nat,
                |j: int|
                    Effect::Undelegate {
                        validator: cfg.validators@[j].address,
                        amount: (net * cfg.validators@[j].weight / 100) as u128,
                    },
            ),
        decreases n - i,
    {
        let w = cfg.validators[i].weight;
        match mul_ratio(net, w, 100) {
            Some(individual) => {
                messages.push(
                    Effect::Undelegate {
                        validator: cfg.validators[i].address.clone(),
                        amount: individual,
                    },
                );
            },
            None => {
                proof {
                    assert(0 <= i < cfg.validators@.len() && net * cfg.validators@[
                        i as int
                    ].weight / 100 > u128::MAX);
                }
                return Err(ContractError::Arithmetic);
            },
        }
        i = i + 1;
        proof {
            assert(messages@ =~= Seq::new(
                i as nat,
                |j: int|
                    Effect::Undelegate {
                        validator: cfg.validators@[j].address,
                        amount: (net * cfg.validators@[j].weight / 100) as u128,
                    },
            ));
        }
    }
    let entry = UserWithdrawal { amount, timestamp: now, claim_time };
    state.info = None;
    state.withdrawals.push(entry);
    Ok(messages)
}

/// The explicitly named recipient, or the fallback identity.
pub open spec fn resolve_recipient(recipient: Option<String>, fallback: String) -> String {
    match recipient {
        Some(r) => r,
        None => fallback,
    }
}

/// The start of the claim window: the given index, or zero.
pub open spec fn window_lo(start: Option<u32>) -> int {
    match start {
        Some(v) => v as int,
        None => 0,
    }
}

/// The end of the claim window: its start plus the given length, or plus
/// the default page length of fifty.
pub open spec fn window_hi(start: Option<u32>, limit: Option<u32>) -> int {
    window_lo(start) + (match limit {
        Some(v) => v as int,
        None => 50,
    })
}

/// Whether the entry at index `i` is settled by this claim: it lies in the
/// window and its unlock time has passed.
pub open spec fn claimed_at(s: Seq<UserWithdrawal>, now: u64, lo: int, hi: int, i: int) -> bool {
    lo <= i < hi && 0 <= i < s.len() && s[i].claim_time <= now
}

/// The claimed total over the first `i` entries.
pub open spec fn claim_total_upto(
    s: Seq<UserWithdrawal>,
    now: u64,
    lo: int,
    hi: int,
    i: int,
) -> int
    decreases i,
{
    if i <= 0 {
        0
    } else {
        claim_total_upto(s, now, lo, hi, i - 1) + (if claimed_at(s, now, lo, hi, i - 1) {
            s[i - 1].amount as int
        } else {
            0
        })
    }
}

/// The entries among the first `i` that the claim leaves in place, in their
/// original order.
pub open spec fn kept_upto(s: Seq<UserWithdrawal>, now: u64, lo: int, hi: int, i: int) -> Seq<
    UserWithdrawal,
>
    decreases i,
{
    if i <= 0 {
        Seq::<UserWithdrawal>::empty()
    } else {
        kept_upto(s, now, lo, hi, i - 1) + (if claimed_at(s, now, lo, hi, i - 1) {
            Seq::<UserWithdrawal>::empty()
        } else {
            seq![s[i - 1]]
        })
    }
}

/// Claimed totals only grow with the prefix.
pub proof fn lemma_claim_total_monotone(
    s: Seq<UserWithdrawal>,
    now: u64,
    lo: int,
    hi: int,
    i: int,
    j: int,
)
    requires
        0 <= i <= j,
    ensures
        claim_total_upto(s, now, lo, hi, i) <= claim_total_upto(s, now, lo, hi, j),
    decreases j - i,
{
    if i < j {
        lemma_claim_total_monotone(s, now, lo, hi, i, j - 1);
    }
}

/// What a claim decides: the settled total, or the exact error. An empty
/// queue and a window with nothing unlocked both report nothing to claim;
/// a total too large for the checked accumulation is an arithmetic error.
pub open spec fn claim_plan(
    cfg: Config,
    s: Seq<UserWithdrawal>,
    now: u64,
    lo: int,
    hi: int,
) -> Result<u128, ContractError> {
    if !cfg.is_active() {
        Err(ContractError::ContractStopped)
    } else if s.len() == 0 {
        Err(ContractError::NothingToClaim)
    } else if claim_total_upto(s, now, lo, hi, s.len() as int) > u128::MAX {
        Err(ContractError::Arithmetic)
    } else if claim_total_upto(s, now, lo, hi, s.len() as int) == 0 {
        Err(ContractError::NothingToClaim)
    } else {
        Ok(claim_total_upto(s, now, lo, hi, s.len() as int) as u128)
    }
}

/// Settle every unlocked entry in the window `[start, start + limit)` of the
/// caller's queue (by default the first fifty): remove exactly those
/// entries, keep the rest in order, and transfer the total to the resolved
/// recipient.
#[verifier::loop_isolation(false)]
pub fn try_claim(
    cfg: &Config,
    state: &mut UserState,
    sender: &String,
    recipient: Option<String>,
    start: Option<u32>,
    limit: Option<u32>,
    now: u64,
) -> (r: Result<ClaimOutcome, ContractError>)
    ensures
        claim_plan(
            *cfg,
            old(state).withdrawals@,
            now,
            window_lo(start),
            window_hi(start, limit),
        ) matches Err(e) ==> r == Err::<ClaimOutcome, ContractError>(e) && *final(state) == *old(state),
        claim_plan(
            *cfg,
            old(state).withdrawals@,
            now,
            window_lo(start),
            window_hi(start, limit),
        ) matches Ok(total) ==> (r matches Ok(out) && out.amount == total && out.messages@
            == seq![
            Effect::Send { to_address: resolve_recipient(recipient, *sender), amount: total },
        ] && final(state).info == old(state).info && final(state).withdrawals@ == kept_upto(
            old(state).withdrawals@,
            now,
            window_lo(start),
            window_hi(start, limit),
            old(state).withdrawals@.len() as int,
        )),
{
    let ghost s = state.withdrawals@;
    let ghost lo = window_lo(start);
    let ghost hi = window_hi(start, limit);
    if let Err(e) = cfg.assert_contract_active() {
        return Err(e);
    }
    let n = state.withdrawals.len();
    if n == 0 {
        return Err(ContractError::NothingToClaim);
    }
    let lo64: u64 = match start {
        Some(v) => v as u64,
        None => 0,
    };
    let hi64: u64 = lo64 + (match limit {
        Some(v) => v as u64,
        None => 50,
    });
    let mut kept: Vec<UserWithdrawal> = Vec::new();
    let mut total: u128 = 0;
    let mut i: usize = 0;
    while i < n
        invariant
            0 <= i <= n,
            total == claim_total_upto(s, now, lo, hi, i as int),
            kept@ == kept_upto(s, now, lo, hi, i as int),
        decreases n - i,
    {
        let entry = state.withdrawals[i];
        let in_window = (i as u64) >= lo64 && (i as u64) < hi64;
        if in_window && now >= entry.claim_time {
            match total.checked_add(entry.amount) {
                Some(t) => {
                    total = t;
                },
                None => {
                    proof {
                        lemma_claim_total_monotone(s, now, lo, hi, i as int + 1, s.len() as int);
                    }
                    return Err(ContractError::Arithmetic);
                },
            }
        } else {
            kept.push(entry);
        }
        i = i + 1;
    }
    if total == 0 {
        return Err(ContractError::NothingToClaim);
    }
    let recipient_resolved = match recipient {
        Some(r) => r,
        None => sender.clone(),
    };
    let mut messages: Vec<Effect> = Vec::new();
    messages.push(Effect::Send { to_address: recipient_resolved, amount: total });
    state.withdrawals = kept;
    proof {
        assert(messages@ =~= seq![
            Effect::Send { to_address: resolve_recipient(recipient, *sender), amount: total },
        ]);
    }
    Ok(ClaimOutcome { amount: total, messages })
}

/// What a reward withdrawal decides: the summed observed rewards, or the
/// exact error.
pub open spec fn rewards_plan(cfg: Config, sender: String, rewards: Seq<u128>) -> Result<
    u128,
    ContractError,
> {
    if sender@ != cfg.admin@ {
        Err(ContractError::Unauthorized)
    } else if sum_prefix(rewards, rewards.len() as int) > u128::MAX {
        Err(ContractError::Arithmetic)
    } else if sum_prefix(rewards, rewards.len() as int) == 0 {
        Err(ContractError::NothingToWithdraw)
    } else {
        Ok(sum_prefix(rewards, rewards.len() as int) as u128)
    }
}

/// The effects of a successful reward withdrawal: first point the payout
/// address at the resolved recipient, then collect from every validator.
pub open spec fn rewards_effects(cfg: Config, recipient_resolved: String) -> Seq<Effect> {
    seq![Effect::SetWithdrawAddress { address: recipient_resolved }] + Seq::new(
        cfg.validators@.len(),
        |j: int| Effect::WithdrawReward { validator: cfg.validators@[j].address },
    )
}

/// Collect the accumulated rewards of every configured validator and pay
/// them to the resolved recipient (the admin by default). Admin-only; the
/// reported total is the sum of the observed per-validator rewards, handed
/// in by the caller in validator order, and must be nonzero.
#[verifier::loop_isolation(false)]
pub fn try_withdraw_rewards(
    cfg: &Config,
    sender: &String,
    recipient: Option<String>,
    rewards: &Vec<u128>,
) -> (r: Result<AdminOutcome, ContractError>)
    requires
        rewards@.len() == cfg.validators@.len(),
    ensures
        rewards_plan(*cfg, *sender, rewards@) matches Err(e) ==> r == Err::<
            AdminOutcome,
            ContractError,
        >(e),
        rewards_plan(*cfg, *sender, rewards@) matches Ok(total) ==> (r matches Ok(out)
            && out.amount == total && out.messages@ == rewards_effects(
            *cfg,
            resolve_recipient(recipient, cfg.admin),
        )),
{
    if !(*sender == cfg.admin) {
        return Err(ContractError::Unauthorized);
    }
    let ghost s = rewards@;
    let n = rewards.len();
    let mut total: u128 = 0;
    let mut i: usize = 0;
    while i < n
        invariant
            0 <= i <= n,
            total == sum_prefix(s, i as int),
        decreases n - i,
    {
        match total.checked_add(rewards[i]) {
            Some(t) => {
                total = t;
            },
            None => {
                proof {
                    lemma_sum_prefix_monotone(s, i as int + 1, s.len() as int);
                }
                return Err(ContractError::Arithmetic);
            },
        }
        i = i + 1;
    }
    if total == 0 {
        return Err(ContractError::NothingToWithdraw);
    }
    let recipient_resolved = match recipient {
        Some(r) => r,
        None => cfg.admin.clone(),
    };
    let ghost pre = seq![
        Effect::SetWithdrawAddress { address: resolve_recipient(recipient, cfg.admin) },
    ];
    let mut messages: Vec<Effect> = Vec::new();
    messages.push(Effect::SetWithdrawAddress { address: recipient_resolved });
    proof {
        assert(messages@ =~= pre);
    }
    let mut k: usize = 0;
    let vn = cfg.validators.len();
    while k < vn
        invariant
            0 <= k <= vn,
            messages@ == pre + Seq::new(
                k as nat,
                |j: int| Effect::WithdrawReward { validator: cfg.validators@[j].address },
            ),
        decreases vn - k,
    {
        messages.push(Effect::WithdrawReward { validator: cfg.validators[k].address.clone() });
        k = k + 1;
        proof {
            assert(messages@ =~= pre + Seq::new(
                k as nat,
                |j: int| Effect::WithdrawReward { validator: cfg.validators@[j].address },
            ));
        }
    }
    proof {
        assert(messages@ =~= rewards_effects(*cfg, resolve_recipient(recipient, cfg.admin)));
    }
    Ok(AdminOutcome { amount: total, messages })
}

/// Replace the first validator slot, moving its whole delegation to the new
/// validator. Admin-only; redelegating to the already-configured validator
/// always fails; an unreadable delegation only rewrites the slot, with no
/// fund movement; a delegation that cannot move in full is rejected.
pub fn try_redelegate(
    cfg: &mut Config,
    sender: &String,
    validator_address: String,
    delegation: Option<DelegationInfo>,
) -> (r: Result<AdminOutcome, ContractError>)
    requires
        old(cfg).validators@.len() >= 1,
    ensures
        sender@ != old(cfg).admin@ ==> (r matches Err(e) && e == ContractError::Unauthorized
            && *final(cfg) == *old(cfg)),
        sender@ == old(cfg).admin@ && validator_address@ == old(cfg).validators@[0].address@ ==> (
        r matches Err(e) && e == ContractError::SameValidator && *final(cfg) == *old(cfg)),
        delegation matches Some(d) ==> (sender@ == old(cfg).admin@ && validator_address@ != old(
            cfg,
        ).validators@[0].address@ && d.can_redelegate != d.delegated_amount ==> (r matches Err(e)
            && e == ContractError::PartialRedelegation && *final(cfg) == *old(cfg))),
        sender@ == old(cfg).admin@ && validator_address@ != old(cfg).validators@[0].address@ && (
        delegation is None || (delegation matches Some(d) && d.can_redelegate
            == d.delegated_amount)) ==> (final(cfg).validators@ == old(cfg).validators@.update(
            0,
            ValidatorWithWeight {
                address: validator_address,
                weight: old(cfg).validators@[0].weight,
            },
        ) && final(cfg).admin == old(cfg).admin && final(cfg).status == old(cfg).status && final(cfg).usd_deposits == old(cfg).usd_deposits && final(cfg).oraiswap_contract == old(cfg).oraiswap_contract),
        sender@ == old(cfg).admin@ && validator_address@ != old(cfg).validators@[0].address@
            && delegation is None ==> (r matches Ok(out) && out.amount == 0 && out.messages@
            =~= Seq::<Effect>::empty()),
        delegation matches Some(d) ==> (sender@ == old(cfg).admin@ && validator_address@ != old(
            cfg,
        ).validators@[0].address@ && d.can_redelegate == d.delegated_amount ==> (r matches
            Ok(out) && out.amount == d.can_redelegate && out.messages@ == (if d.accumulated_reward
            != 0 {
            seq![
                Effect::WithdrawReward { validator: old(cfg).validators@[0].address },
                Effect::Redelegate {
                    src_validator: old(cfg).validators@[0].address,
                    dst_validator: validator_address,
                    amount: d.can_redelegate,
                },
            ]
        } else {
            seq![
                Effect::Redelegate {
                    src_validator: old(cfg).validators@[0].address,
                    dst_validator: validator_address,
                    amount: d.can_redelegate,
                },
            ]
        }))),
{
    if !(*sender == cfg.admin) {
        return Err(ContractError::Unauthorized);
    }
    let old_validator = cfg.validators[0].address.clone();
    let old_weight = cfg.validators[0].weight;
    if old_validator == validator_address {
        return Err(ContractError::SameValidator);
    }
    match delegation {
        None => {
            // the delegation could not be read: only rewrite the slot
            cfg.validators.set(
                0,
                ValidatorWithWeight { address: validator_address, weight: old_weight },
            );
            let messages: Vec<Effect> = Vec::new();
            Ok(AdminOutcome { amount: 0, messages })
        },
        Some(d) => {
            if d.can_redelegate != d.delegated_amount {
                return Err(ContractError::PartialRedelegation);
            }
            cfg.validators.set(
                0,
                ValidatorWithWeight { address: validator_address.clone(), weight: old_weight },
            );
            let mut messages: Vec<Effect> = Vec::new();
            if d.accumulated_reward != 0 {
                messages.push(Effect::WithdrawReward { validator: old_validator.clone() });
            }
            messages.push(
                Effect::Redelegate {
                    src_validator: old_validator,
                    dst_validator: validator_address,
                    amount: d.can_redelegate,
                },
            );
            Ok(AdminOutcome { amount: d.can_redelegate, messages })
        },
    }
}

/// Answer a user-info query: the stored record, or the default an address
/// without one would be created with, its tier derived from the externally
/// staked value alone.
pub fn query_user_info(cfg: &Config, info: &Option<UserInfo>, staked: &StakedAmount) -> (r: Result<
    UserInfo,
    ContractError,
>)
    requires
        cfg.wf(),
    ensures
        info matches Some(u) ==> ((u.usd_deposit + staked.staked_usd_amount > u128::MAX ==> r
            == Err::<UserInfo, ContractError>(ContractError::Arithmetic)) && (u.usd_deposit
            + staked.staked_usd_amount <= u128::MAX ==> r == Ok::<UserInfo, ContractError>(*u))),
        info is None ==> r == Ok::<UserInfo, ContractError>(
            UserInfo {
                tier: tier_of(cfg.usd_deposits@, staked.staked_usd_amount) as u8,
                timestamp: 0,
                usd_deposit: 0,
                orai_deposit: 0,
            },
        ),
{
    let old_usd = match info {
        Some(u) => u.usd_deposit,
        None => 0,
    };
    let total_usd = match old_usd.checked_add(staked.staked_usd_amount) {
        Some(v) => v,
        None => {
            return Err(ContractError::Arithmetic);
        },
    };
    let tier = cfg.tier_by_deposit(total_usd);
    proof {
        lemma_tier_range(cfg.usd_deposits@, total_usd);
    }
    match info {
        Some(u) => Ok(*u),
        None => Ok(UserInfo { tier, timestamp: 0, usd_deposit: 0, orai_deposit: 0 }),
    }
}

/// The report form of one queue entry.
pub open spec fn serialized_of(w: UserWithdrawal) -> SerializedWithdrawals {
    SerializedWithdrawals { amount: w.amount, claim_time: w.claim_time, timestamp: w.timestamp }
}

/// The page of entries a withdrawals query reports: the window
/// `[start, start + limit)` clipped to the queue.
pub open spec fn page_of(s: Seq<UserWithdrawal>, start: int, limit: int) -> Seq<
    SerializedWithdrawals,
> {
    let lo = if start > s.len() {
        s.len() as int
    } else {
        start
    };
    let hi = if start + limit > s.len() {
        s.len() as int
    } else {
        start + limit
    };
    if hi <= lo {
        Seq::<SerializedWithdrawals>::empty()
    } else {
        Seq::new((hi - lo) as nat, |k: int| serialized_of(s[lo + k]))
    }
}

/// Answer a withdrawals query: the queue's total length and one page of
/// entries, by default the first fifty.
#[verifier::loop_isolation(false)]
pub fn query_withdrawals(
    withdrawals: &Vec<UserWithdrawal>,
    start: Option<u32>,
    limit: Option<u32>,
) -> (r: Result<(u32, Vec<SerializedWithdrawals>), ContractError>)
    ensures
        withdrawals@.len() > u32::MAX ==> r == Err::<
            (u32, Vec<SerializedWithdrawals>),
            ContractError,
        >(ContractError::Arithmetic),
        withdrawals@.len() <= u32::MAX ==> (r matches Ok(pair) && pair.0 == withdrawals@.len()
            && pair.1@ == page_of(withdrawals@, window_lo(start), window_hi(start, limit)
            - window_lo(start))),
{
    let ghost s = withdrawals@;
    let n = withdrawals.len();
    if n > u32::MAX as usize {
        return Err(ContractError::Arithmetic);
    }
    let lo64: u64 = match start {
        Some(v) => v as u64,
        None => 0,
    };
    let hi64: u64 = lo64 + (match limit {
        Some(v) => v as u64,
        None => 50,
    });
    let lo: usize = if lo64 > n as u64 {
        n
    } else {
        lo64 as usize
    };
    let hi: usize = if hi64 > n as u64 {
        n
    } else {
        hi64 as usize
    };
    let mut page: Vec<SerializedWithdrawals> = Vec::new();
    let mut k: usize = lo;
    while k < hi
        invariant
            lo <= k <= hi || (hi < lo && k == lo),
            page@ == Seq::new(
                (k - lo) as nat,
                |j: int| serialized_of(s[lo + j]),
            ),
        decreases hi - k,
    {
        let w = withdrawals[k];
        page.push(
            SerializedWithdrawals {
                amount: w.amount,
                claim_time: w.claim_time,
                timestamp: w.timestamp,
            },
        );
        k = k + 1;
        proof {
            assert(page@ =~= Seq::new((k - lo) as nat, |j: int| serialized_of(s[lo + j])));
        }
    }
    proof {
        assert(page@ =~= page_of(s, window_lo(start), window_hi(start, limit) - window_lo(start)));
    }
    Ok((n as u32, page))
}

} // verus!
