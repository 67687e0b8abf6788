//! Laws that relate several operations, stated and proved over the same
//! spec functions the handlers' contracts use.

use vstd::prelude::*;

use crate::band::OraiPriceOracle;
use crate::contract::{
    claim_plan, claim_total_upto, claimed_at, current_tier_of, deposit_plan, kept_upto,
    old_usd_of, Coin,
};
use crate::error::ContractError;
use crate::state::{
    lemma_tier_at_threshold, lemma_tier_from_range, lemma_tier_range, tier_of, Config, UserInfo,
    UserWithdrawal,
};

verus! {

/// A deposit that leaves the cumulative USD value inside the current tier
/// fails with an insufficient-deposit error whose reported USD shortfall,
/// once added to the user's cumulative value, reaches exactly the next
/// tier's threshold and so earns exactly the next (better) tier.
pub proof fn lemma_insufficient_deposit_reaches_next_tier(
    cfg: Config,
    funds: Seq<Coin>,
    info: Option<UserInfo>,
    staked_usd: u128,
    staked_orai: u128,
    o: OraiPriceOracle,
    now: u64,
    expected_usd: u128,
    expected_orai: u128,
)
    requires
        cfg.wf(),
        deposit_plan(cfg, funds, info, staked_usd, staked_orai, o, now) == Err::<
            (UserInfo, u128),
            ContractError,
        >(ContractError::InsufficientDeposit { expected_usd, expected_orai }),
    ensures
        old_usd_of(info) + staked_usd + expected_usd <= u128::MAX,
        tier_of(cfg.usd_deposits@, (old_usd_of(info) + staked_usd + expected_usd) as u128)
            == current_tier_of(cfg, info, (old_usd_of(info) + staked_usd) as u128) - 1,
{
    let s = cfg.usd_deposits@;
    let total_usd = (old_usd_of(info) + staked_usd) as u128;
    let cur = current_tier_of(cfg, info, total_usd);
    lemma_tier_range(s, total_usd);
    let orai_total = (funds[0].amount + staked_orai) as u128;
    let new_usd = (old_usd_of(info) + o.usd_of(orai_total)) as u128;
    lemma_tier_range(s, new_usd);
    assert(cur == tier_of(s, new_usd));
    assert(total_usd + expected_usd == s[cur - 2]);
    lemma_tier_at_threshold(s, cur - 1);
}

/// A deposit that crosses into the max tier, when repeated by the same user
/// with the same funds at the same exchange-rate snapshot and no external
/// delegations, fails with a reached-max-tier error the second time.
pub proof fn lemma_repeat_deposit_at_max_tier(
    cfg: Config,
    funds: Seq<Coin>,
    o: OraiPriceOracle,
    now1: u64,
    now2: u64,
    user1: UserInfo,
    refund1: u128,
)
    requires
        cfg.wf(),
        o.wf(),
        deposit_plan(cfg, funds, None, 0, 0, o, now1) == Ok::<(UserInfo, u128), ContractError>(
            (user1, refund1),
        ),
        user1.tier == 1,
        user1.usd_deposit + o.usd_of((funds[0].amount) as u128) <= u128::MAX,
    ensures
        deposit_plan(cfg, funds, Some(user1), 0, 0, o, now2) == Err::<
            (UserInfo, u128),
            ContractError,
        >(ContractError::ReachedMaxTier),
{
    let s = cfg.usd_deposits@;
    let orai_total = (funds[0].amount + 0) as u128;
    // the first call succeeded, so the whole converted deposit earned tier 1
    let delta = o.usd_of(orai_total);
    let new_usd1 = (0 + delta) as u128;
    let new_tier1 = tier_of(s, new_usd1);
    lemma_tier_range(s, new_usd1);
    assert(new_tier1 == user1.tier as int);
    // tier 1 means the value reached the top threshold: with more than one
    // threshold a smaller value lands strictly below tier 1, and with a
    // single threshold every user already starts at tier 1, so the first
    // deposit could not have succeeded
    if new_usd1 < s[0] {
        if s.len() == 1 {
            assert(crate::state::tier_from(s, (0 + 0) as u128, 1) == 1);
            assert(current_tier_of(cfg, None::<UserInfo>, (0 + 0) as u128) == 1);
            assert(false);
        } else {
            lemma_tier_from_range(s, new_usd1, 1);
            assert(tier_of(s, new_usd1) >= 2);
            assert(false);
        }
    }
    assert(new_usd1 >= s[0]);
    // the repeated deposit starts at tier 1 and lands at tier 1 again
    let new_usd2 = (user1.usd_deposit + delta) as u128;
    assert(new_usd2 >= s[0]);
    lemma_tier_range(s, new_usd2);
    assert(tier_of(s, new_usd2) == 1);
}

/// The claimed total over a prefix is zero while nothing in it is unlocked.
proof fn lemma_claim_total_zero(s: Seq<UserWithdrawal>, now: u64, lo: int, hi: int, i: int)
    requires
        forall|k: int| 0 <= k < s.len() ==> #[trigger] s[k].claim_time > now,
        i <= s.len(),
    ensures
        claim_total_upto(s, now, lo, hi, i) == 0,
    decreases i,
{
    if i > 0 {
        lemma_claim_total_zero(s, now, lo, hi, i - 1);
    }
}

/// The entries a claim must leave alone: those whose unlock time is still
/// in the future.
pub open spec fn locked_after(now: u64) -> spec_fn(UserWithdrawal) -> bool {
    |w: UserWithdrawal| w.claim_time > now
}

/// Over a window that covers a whole prefix, a claim keeps exactly the
/// still-locked entries of that prefix, as a filter does: in their original
/// relative order, none skipped, none doubled.
proof fn lemma_kept_is_filter_upto(s: Seq<UserWithdrawal>, now: u64, lo: int, hi: int, i: int)
    requires
        lo <= 0,
        hi >= s.len(),
        0 <= i <= s.len(),
    ensures
        kept_upto(s, now, lo, hi, i) == s.take(i).filter(locked_after(now)),
    decreases i,
{
    reveal_with_fuel(Seq::<UserWithdrawal>::filter, 2);
    if i > 0 {
        lemma_kept_is_filter_upto(s, now, lo, hi, i - 1);
        let p = locked_after(now);
        let prefix = s.take(i);
        assert(prefix.len() == i);
        assert(prefix.drop_last() =~= s.take(i - 1));
        assert(prefix.last() == s[i - 1]);
        assert(p(s[i - 1]) == (s[i - 1].claim_time > now));
        if claimed_at(s, now, lo, hi, i - 1) {
            assert(prefix.filter(p) == prefix.drop_last().filter(p));
            assert(kept_upto(s, now, lo, hi, i) =~= kept_upto(s, now, lo, hi, i - 1));
        } else {
            assert(prefix.filter(p) == prefix.drop_last().filter(p).push(prefix.last()));
            assert(kept_upto(s, now, lo, hi, i) =~= kept_upto(s, now, lo, hi, i - 1).push(
                s[i - 1],
            ));
        }
    }
}

/// A claim over a window covering the whole queue leaves exactly the
/// still-locked entries, in their original order.
pub proof fn lemma_claim_keeps_locked_in_order(
    s: Seq<UserWithdrawal>,
    now: u64,
    lo: int,
    hi: int,
)
    requires
        lo <= 0,
        hi >= s.len(),
    ensures
        kept_upto(s, now, lo, hi, s.len() as int) == s.filter(locked_after(now)),
{
    lemma_kept_is_filter_upto(s, now, lo, hi, s.len() as int);
    assert(s.take(s.len() as int) =~= s);
}

/// Claiming while no entry of the queue is unlocked fails with a
/// nothing-to-claim error, whatever the window.
pub proof fn lemma_claim_all_locked(
    cfg: Config,
    s: Seq<UserWithdrawal>,
    now: u64,
    lo: int,
    hi: int,
)
    requires
        cfg.is_active(),
        forall|k: int| 0 <= k < s.len() ==> #[trigger] s[k].claim_time > now,
    ensures
        claim_plan(cfg, s, now, lo, hi) == Err::<u128, ContractError>(
            ContractError::NothingToClaim,
        ),
{
    lemma_claim_total_zero(s, now, lo, hi, s.len() as int);
}

} // verus!
