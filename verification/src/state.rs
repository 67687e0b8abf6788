//! Persistent state: the singleton `Config` with its descending tier table,
//! and the per-address `UserInfo` record and withdrawal queue.

use vstd::prelude::*;

use crate::error::ContractError;
use crate::msg::{ContractStatus, OraiswapContract, ValidatorWithWeight};

verus! {

/// A threshold table: every entry is strictly greater than the next.
pub open spec fn strictly_decreasing(s: Seq<u128>) -> bool {
    forall|i: int, j: int| 0 <= i < j < s.len() ==> s[i] > s[j]
}

/// The tier reached once the search has ruled out all thresholds before
/// index `i`: the first index at or after `i` whose threshold is at or below
/// `usd`, plus one; the lowest tier (the table's length) when every remaining
/// threshold is above `usd`.
pub open spec fn tier_from(s: Seq<u128>, usd: u128, i: int) -> int
    decreases s.len() - i,
{
    if i < 0 || i >= s.len() {
        s.len() as int
    } else if usd >= s[i] {
        i + 1
    } else {
        tier_from(s, usd, i + 1)
    }
}

/// The tier a cumulative USD value earns against a descending threshold
/// table: tier 1 is the highest (index 0), the table's length is the lowest.
pub open spec fn tier_of(s: Seq<u128>, usd: u128) -> int {
    tier_from(s, usd, 0)
}

/// Searching from `i` never lands before `i + 1` and never past the table.
pub proof fn lemma_tier_from_range(s: Seq<u128>, usd: u128, i: int)
    requires
        0 <= i <= s.len(),
        s.len() >= 1,
    ensures
        i < tier_from(s, usd, i) || (i == s.len() && tier_from(s, usd, i) == s.len()),
        tier_from(s, usd, i) <= s.len(),
    decreases s.len() - i,
{
    if i < s.len() && usd < s[i] {
        lemma_tier_from_range(s, usd, i + 1);
    }
}

/// A non-empty table always yields a tier between 1 and its length.
pub proof fn lemma_tier_range(s: Seq<u128>, usd: u128)
    requires
        s.len() >= 1,
    ensures
        1 <= tier_of(s, usd) <= s.len(),
{
    lemma_tier_from_range(s, usd, 0);
}

proof fn lemma_tier_from_antitone(s: Seq<u128>, lo: u128, hi: u128, i: int)
    requires
        lo <= hi,
        0 <= i,
    ensures
        tier_from(s, hi, i) <= tier_from(s, lo, i),
    decreases s.len() - i,
{
    if i < s.len() {
        if lo >= s[i] {
            // both stop here
        } else if hi >= s[i] {
            lemma_tier_from_range(s, lo, i + 1);
        } else {
            lemma_tier_from_antitone(s, lo, hi, i + 1);
        }
    }
}

/// A larger cumulative value never earns a larger (worse) tier number.
pub proof fn lemma_tier_antitone(s: Seq<u128>, lo: u128, hi: u128)
    requires
        lo <= hi,
    ensures
        tier_of(s, hi) <= tier_of(s, lo),
{
    lemma_tier_from_antitone(s, lo, hi, 0);
}

proof fn lemma_tier_from_at_threshold(s: Seq<u128>, t: int, i: int)
    requires
        strictly_decreasing(s),
        1 <= t <= s.len(),
        0 <= i <= t - 1,
    ensures
        tier_from(s, s[t - 1], i) == t,
    decreases s.len() - i,
{
    if i < t - 1 {
        assert(s[i] > s[t - 1]);
        lemma_tier_from_at_threshold(s, t, i + 1);
    }
}

/// A value exactly at a tier's threshold earns exactly that tier.
pub proof fn lemma_tier_at_threshold(s: Seq<u128>, t: int)
    requires
        strictly_decreasing(s),
        1 <= t <= s.len(),
    ensures
        tier_of(s, s[t - 1]) == t,
{
    lemma_tier_from_at_threshold(s, t, 0);
}

proof fn lemma_tier_from_below_min(s: Seq<u128>, usd: u128, i: int)
    requires
        strictly_decreasing(s),
        s.len() >= 1,
        usd < s[s.len() - 1],
        0 <= i,
    ensures
        tier_from(s, usd, i) == s.len(),
    decreases s.len() - i,
{
    if i < s.len() {
        assert(i < s.len() - 1 ==> s[i] > s[s.len() - 1]);
        lemma_tier_from_below_min(s, usd, i + 1);
    }
}

/// A value below every threshold earns the lowest tier, the table's length.
pub proof fn lemma_tier_below_min(s: Seq<u128>, usd: u128)
    requires
        strictly_decreasing(s),
        s.len() >= 1,
        usd < s[s.len() - 1],
    ensures
        tier_of(s, usd) == s.len(),
{
    lemma_tier_from_below_min(s, usd, 0);
}

/// The singleton configuration: admin identity, weighted validator set,
/// descending USD tier thresholds, operational status, and the identities of
/// the price-discovery contracts.
#[derive(Debug)]
pub struct Config {
    pub status: ContractStatus,
    pub admin: String,
    pub validators: Vec<ValidatorWithWeight>,
    pub usd_deposits: Vec<u128>,
    pub oraiswap_contract: OraiswapContract,
}

impl Config {
    /// The configuration invariant, established at initialization: the
    /// threshold table is non-empty and strictly decreasing, and short
    /// enough that every tier number fits in a byte.
    pub open spec fn wf(self) -> bool {
        &&& 1 <= self.usd_deposits@.len() <= 255
        &&& strictly_decreasing(self.usd_deposits@)
    }

    /// The tier a cumulative USD-equivalent deposit earns.
    pub fn tier_by_deposit(&self, usd_deposit: u128) -> (tier: u8)
        requires
            self.wf(),
        ensures
            tier == tier_of(self.usd_deposits@, usd_deposit),
    {
        let ghost s = self.usd_deposits@;
        let n = self.usd_deposits.len();
        let mut i: usize = 0;
        while i < n
            invariant
                0 <= i <= n,
                n == s.len(),
                n <= 255,
                self.usd_deposits@ == s,
                tier_of(s, usd_deposit) == tier_from(s, usd_deposit, i as int),
            decreases n - i,
        {
            if usd_deposit >= self.usd_deposits[i] {
                return (i + 1) as u8;
            }
            i = i + 1;
        }
        n as u8
    }

    /// The USD threshold of a tier.
    pub fn deposit_by_tier(&self, tier: u8) -> (r: u128)
        requires
            self.wf(),
            1 <= tier <= self.usd_deposits@.len(),
        ensures
            r == self.usd_deposits@[tier - 1],
    {
        self.usd_deposits[(tier - 1) as usize]
    }

    /// The lowest tier: the table's length.
    pub fn min_tier(&self) -> (r: u8)
        requires
            self.wf(),
        ensures
            r == self.usd_deposits@.len(),
    {
        self.usd_deposits.len() as u8
    }

    /// The highest tier is always tier 1, the table's first entry.
    pub fn max_tier(&self) -> (r: u8)
        ensures
            r == 1,
    {
        1
    }

    /// Whether the program currently accepts state-mutating user actions.
    pub open spec fn is_active(self) -> bool {
        self.status == ContractStatus::Active
    }

    /// Reject the request unless the program is active.
    pub fn assert_contract_active(&self) -> (r: Result<(), ContractError>)
        ensures
            r == (if self.is_active() {
                Ok::<(), ContractError>(())
            } else {
                Err::<(), ContractError>(ContractError::ContractStopped)
            }),
    {
        match self.status {
            ContractStatus::Active => Ok(()),
            ContractStatus::Stopped => Err(ContractError::ContractStopped),
        }
    }
}

/// One depositor's record: the tier reached, the last-update time, the
/// cumulative USD-equivalent value recorded, and the base-asset amount the
/// program holds staked for the depositor. Absent until the first deposit;
/// removed entirely on withdraw.
#[derive(Clone, Copy, Debug, PartialEq, Eq, Structural)]
pub struct UserInfo {
    pub tier: u8,
    pub timestamp: u64,
    pub usd_deposit: u128,
    pub orai_deposit: u128,
}

impl Default for UserInfo {
    /// The record of an address that has never deposited.
    fn default() -> (r: UserInfo)
        ensures
            r.tier == 0,
            r.timestamp == 0,
            r.usd_deposit == 0,
            r.orai_deposit == 0,
    {
        UserInfo { tier: 0, timestamp: 0, usd_deposit: 0, orai_deposit: 0 }
    }
}

impl UserInfo {
    /// A stored record's tier lies within the configured table.
    pub open spec fn wf(self, cfg: Config) -> bool {
        1 <= self.tier <= cfg.usd_deposits@.len()
    }
}

/// One pending withdrawal: the base-asset amount, the request time, and the
/// unlock time after which a claim settles it.
#[derive(Clone, Copy, Debug, PartialEq, Eq, Structural)]
pub struct UserWithdrawal {
    pub amount: u128,
    pub timestamp: u64,
    pub claim_time: u64,
}

/// Everything stored for one address: the depositor record, if any, and the
/// append-only pending-withdrawal queue.
pub struct UserState {
    pub info: Option<UserInfo>,
    pub withdrawals: Vec<UserWithdrawal>,
}

impl UserState {
    /// A stored record's tier lies within the configured table.
    pub open spec fn wf(self, cfg: Config) -> bool {
        match self.info {
            Some(u) => u.wf(cfg),
            None => true,
        }
    }
}

} // verus!
