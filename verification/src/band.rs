//! The price-oracle adapter: one exchange-rate snapshot and the bidirectional
//! conversion between the base asset and the USD reference currency.
//!
//! A snapshot is taken per call by asking the swap router how much of the
//! reference token a fixed probe amount (`PROBE_AMOUNT`) of the base asset
//! buys; the query itself happens outside this crate and hands in the raw
//! quoted amount. Two regimes are handled symmetrically by an explicit
//! branch (`flag`): when the quote is below the probe's unit scale the
//! reciprocal ratio is stored and the conversion directions swap. All
//! conversions are a single multiply followed by a single floored divide,
//! never divide-then-multiply; a failed checked operation fails the request.

use vstd::arithmetic::div_mod::{
    lemma_div_basics, lemma_div_is_ordered, lemma_div_is_ordered_by_denominator,
    lemma_div_multiples_vanish, lemma_div_pos_is_pos, lemma_fundamental_div_mod, lemma_mod_bound,
};
use vstd::arithmetic::mul::{
    lemma_mul_inequality, lemma_mul_is_commutative, lemma_mul_nonnegative,
};
use vstd::prelude::*;

use crate::error::ContractError;

verus! {

/// Number of decimal digits in the reference currency's atomic unit.
pub const DECIMALS: u8 = 18;

/// One unit of the reference currency, in atomic units.
pub const ONE_USD: u128 = 1_000_000_000_000_000_000;

/// The fixed probe amount of base asset offered to the swap router when a
/// snapshot is taken; also the unit scale the quote is measured against.
pub const PROBE_AMOUNT: u128 = 1_000_000;

/// One exchange-rate snapshot: a fixed-point ratio and the direction flag.
/// With `flag` set (the quote was below the probe scale), converting to USD
/// multiplies by `value` and divides by `ONE_USD`; with it clear, the two
/// factors swap roles. Not persisted: recomputed from a live quote per call.
#[derive(Clone, Copy, Debug, PartialEq, Eq, Structural)]
pub struct OraiPriceOracle {
    pub value: u128,
    pub flag: bool,
}

impl OraiPriceOracle {
    /// Every snapshot built by `from_rate` has a nonzero ratio.
    pub open spec fn wf(self) -> bool {
        self.value >= 1
    }

    /// The USD amount a base-asset amount converts to: multiply by one
    /// fixed-point factor, floor-divide by the other.
    pub open spec fn usd_of(self, orai: u128) -> int {
        if self.flag {
            (orai * self.value) / (ONE_USD as int)
        } else {
            (orai * ONE_USD) / (self.value as int)
        }
    }

    /// The base-asset amount a USD amount converts to: the exact inverse
    /// factors of `usd_of`, up to floor truncation.
    pub open spec fn orai_of(self, usd: u128) -> int {
        if self.flag {
            (usd * ONE_USD) / (self.value as int)
        } else {
            (usd * self.value) / (ONE_USD as int)
        }
    }

    /// Whether converting `orai` to USD overflows the checked multiply.
    pub open spec fn usd_overflows(self, orai: u128) -> bool {
        if self.flag {
            orai * self.value > u128::MAX
        } else {
            orai * ONE_USD > u128::MAX
        }
    }

    /// Whether converting `usd` to base asset overflows the checked multiply.
    pub open spec fn orai_overflows(self, usd: u128) -> bool {
        if self.flag {
            usd * ONE_USD > u128::MAX
        } else {
            usd * self.value > u128::MAX
        }
    }

    /// The worst-case loss of a USD-to-base-to-USD or base-to-USD-to-base
    /// round trip: one floored quotient of the two fixed-point factors, plus
    /// one for the final truncation.
    pub open spec fn trunc_unit(self) -> int {
        if self.flag {
            (ONE_USD as int) / (self.value as int) + 1
        } else {
            (self.value as int) / (ONE_USD as int) + 1
        }
    }

    /// Build a snapshot from the raw quote: the reference amount the router
    /// returned for `PROBE_AMOUNT` of base asset. A quote below the probe
    /// scale stores the reciprocal ratio and sets the flag (the documented
    /// branching policy: invert exactly when the base asset is worth less
    /// than one reference unit); otherwise the direct ratio is stored. A
    /// zero quote or an unrepresentable ratio fails the request.
    pub fn from_rate(exchange_rate: u128) -> (r: Result<OraiPriceOracle, ContractError>)
        ensures
            exchange_rate == 0 ==> r == Err::<OraiPriceOracle, ContractError>(
                ContractError::Arithmetic,
            ),
            1 <= exchange_rate < PROBE_AMOUNT ==> r == Ok::<OraiPriceOracle, ContractError>(
                OraiPriceOracle { value: (PROBE_AMOUNT / exchange_rate) as u128, flag: true },
            ),
            exchange_rate >= PROBE_AMOUNT && exchange_rate > u128::MAX / 1_000_000_000_000 ==> r
                == Err::<OraiPriceOracle, ContractError>(ContractError::Arithmetic),
            exchange_rate >= PROBE_AMOUNT && exchange_rate <= u128::MAX / 1_000_000_000_000 ==> r
                == Ok::<OraiPriceOracle, ContractError>(
                OraiPriceOracle { value: (exchange_rate / PROBE_AMOUNT) as u128, flag: false },
            ),
            r matches Ok(o) ==> o.wf(),
    {
        if exchange_rate == 0 {
            Err(ContractError::Arithmetic)
        } else if exchange_rate < PROBE_AMOUNT {
            proof {
                lemma_div_is_ordered_by_denominator(
                    PROBE_AMOUNT as int,
                    exchange_rate as int,
                    PROBE_AMOUNT as int,
                );
                lemma_div_basics(PROBE_AMOUNT as int);
            }
            Ok(OraiPriceOracle { value: PROBE_AMOUNT / exchange_rate, flag: true })
        } else if exchange_rate > u128::MAX / 1_000_000_000_000 {
            // the fixed-point quotient rate / PROBE_AMOUNT has no
            // 18-decimal representation in 128 bits
            Err(ContractError::Arithmetic)
        } else {
            assert(exchange_rate / PROBE_AMOUNT >= 1) by (nonlinear_arith)
                requires
                    exchange_rate >= PROBE_AMOUNT == 1_000_000,
            ;
            Ok(OraiPriceOracle { value: exchange_rate / PROBE_AMOUNT, flag: false })
        }
    }

    /// Convert a base-asset amount to USD at this snapshot. The caller rules
    /// out the checked-multiply overflow; `usd_amount_checked` reports it as
    /// a value instead.
    pub fn usd_amount(&self, orai: u128) -> (r: u128)
        requires
            self.wf(),
            !self.usd_overflows(orai),
        ensures
            r == self.usd_of(orai),
    {
        if self.flag {
            (orai * self.value) / ONE_USD
        } else {
            (orai * ONE_USD) / self.value
        }
    }

    /// Convert a USD amount to base asset at this snapshot. The caller rules
    /// out the checked-multiply overflow; `orai_amount_checked` reports it
    /// as a value instead.
    pub fn orai_amount(&self, usd: u128) -> (r: u128)
        requires
            self.wf(),
            !self.orai_overflows(usd),
        ensures
            r == self.orai_of(usd),
    {
        if self.flag {
            (usd * ONE_USD) / self.value
        } else {
            (usd * self.value) / ONE_USD
        }
    }

    /// `usd_amount` with the overflow reported as `None`.
    pub fn usd_amount_checked(&self, orai: u128) -> (r: Option<u128>)
        requires
            self.wf(),
        ensures
            r == (if self.usd_overflows(orai) {
                Option::<u128>::None
            } else {
                Option::<u128>::Some(self.usd_of(orai) as u128)
            }),
    {
        let factor = if self.flag {
            self.value
        } else {
            ONE_USD
        };
        let divisor = if self.flag {
            ONE_USD
        } else {
            self.value
        };
        match orai.checked_mul(factor) {
            Some(p) => Some(p / divisor),
            None => None,
        }
    }

    /// `orai_amount` with the overflow reported as `None`.
    pub fn orai_amount_checked(&self, usd: u128) -> (r: Option<u128>)
        requires
            self.wf(),
        ensures
            r == (if self.orai_overflows(usd) {
                Option::<u128>::None
            } else {
                Option::<u128>::Some(self.orai_of(usd) as u128)
            }),
    {
        let factor = if self.flag {
            ONE_USD
        } else {
            self.value
        };
        let divisor = if self.flag {
            self.value
        } else {
            ONE_USD
        };
        match usd.checked_mul(factor) {
            Some(p) => Some(p / divisor),
            None => None,
        }
    }
}

/// Multiply-then-floor-divide is monotone in the amount.
pub proof fn lemma_mul_div_monotone(x: int, y: int, a: int, b: int)
    requires
        0 <= x <= y,
        a >= 0,
        b >= 1,
    ensures
        x * a / b <= y * a / b,
{
    lemma_mul_inequality(x, y, a);
    lemma_div_is_ordered(x * a, y * a, b);
}

/// Ring identity behind the round-trip bound: subtracting almost a full
/// divisor from `x * v` still leaves at least `v * (x - k - 1)`.
proof fn lemma_round_trip_identity(x: int, v: int, d: int, k: int, s: int)
    requires
        d == v * k + s,
    ensures
        x * v - (d - 1) == v * (x - k - 1) + (v - s + 1),
{
    assert(x * v - (v * k + s - 1) == v * (x - k - 1) + (v - s + 1)) by (nonlinear_arith);
}

/// Scaling by `v / d` and back by `d / v`, each a multiply then a floored
/// divide, returns at most the original amount and loses at most `d / v + 1`.
pub proof fn lemma_mul_div_round_trip(x: int, v: int, d: int)
    requires
        x >= 0,
        v >= 1,
        d >= 1,
    ensures
        ((x * v / d) * d) / v <= x,
        ((x * v / d) * d) / v >= x - d / v - 1,
{
    let p = x * v;
    let q = p / d;
    let m = p % d;
    lemma_fundamental_div_mod(p, d);
    lemma_mod_bound(p, d);
    lemma_mul_is_commutative(q, d);
    assert(q * d == p - m);
    // upper bound: (q * d) / v == (p - m) / v <= p / v == x
    lemma_div_is_ordered(p - m, p, v);
    lemma_div_multiples_vanish(x, v);
    lemma_mul_is_commutative(x, v);
    assert(p == v * x);
    // lower bound: (p - m) / v >= (p - (d - 1)) / v >= x - d / v - 1
    lemma_div_is_ordered(p - (d - 1), p - m, v);
    let k = d / v;
    let s = d % v;
    lemma_fundamental_div_mod(d, v);
    lemma_mod_bound(d, v);
    lemma_round_trip_identity(x, v, d, k, s);
    assert(p - (d - 1) == v * (x - k - 1) + (v - s + 1));
    lemma_div_is_ordered(v * (x - k - 1), p - (d - 1), v);
    lemma_div_multiples_vanish(x - k - 1, v);
}

/// Both conversion directions are order-preserving at any one snapshot.
pub proof fn lemma_conversions_monotone(o: OraiPriceOracle, x: u128, y: u128)
    requires
        o.wf(),
        x <= y,
    ensures
        o.usd_of(x) <= o.usd_of(y),
        o.orai_of(x) <= o.orai_of(y),
{
    if o.flag {
        lemma_mul_div_monotone(x as int, y as int, o.value as int, ONE_USD as int);
        lemma_mul_div_monotone(x as int, y as int, ONE_USD as int, o.value as int);
    } else {
        lemma_mul_div_monotone(x as int, y as int, ONE_USD as int, o.value as int);
        lemma_mul_div_monotone(x as int, y as int, o.value as int, ONE_USD as int);
    }
}

/// A nonnegative value no larger than `u128::MAX`, floor-divided by a
/// positive divisor, stays in that range.
pub proof fn lemma_div_stays_in_range(p: int, d: int)
    requires
        0 <= p <= u128::MAX,
        d >= 1,
    ensures
        0 <= p / d <= u128::MAX,
{
    lemma_div_pos_is_pos(p, d);
    lemma_div_is_ordered_by_denominator(p, 1, d);
    lemma_div_basics(p);
}

/// Converting a base-asset amount to USD and back at the same snapshot never
/// gains, and loses at most one truncation unit of the snapshot.
pub proof fn lemma_round_trip(o: OraiPriceOracle, x: u128)
    requires
        o.wf(),
        !o.usd_overflows(x),
    ensures
        0 <= o.usd_of(x) <= u128::MAX,
        o.orai_of(o.usd_of(x) as u128) <= x,
        x - o.orai_of(o.usd_of(x) as u128) <= o.trunc_unit(),
{
    if o.flag {
        lemma_mul_nonnegative(x as int, o.value as int);
        lemma_div_stays_in_range(x * o.value, ONE_USD as int);
        lemma_mul_div_round_trip(x as int, o.value as int, ONE_USD as int);
    } else {
        lemma_mul_nonnegative(x as int, ONE_USD as int);
        lemma_div_stays_in_range(x * ONE_USD, o.value as int);
        lemma_mul_div_round_trip(x as int, ONE_USD as int, o.value as int);
    }
}

/// The innermost description of the probe offer: the base asset named by its
/// native denomination.
pub struct NativeToken {
    pub denom: String,
}

impl NativeToken {
    pub fn new(native_token_denom: String) -> (r: NativeToken)
        ensures
            r.denom == native_token_denom,
    {
        NativeToken { denom: native_token_denom }
    }
}

/// The asset offered to the swap router: the native base asset.
pub struct OfferAssetInfo {
    pub native_token: NativeToken,
}

impl OfferAssetInfo {
    pub fn new(native_token: NativeToken) -> (r: OfferAssetInfo)
        ensures
            r.native_token == native_token,
    {
        OfferAssetInfo { native_token }
    }
}

/// The reference token's contract address.
pub struct UsdtContractAddr {
    pub contract_addr: String,
}

/// The asset asked for from the swap router: the reference token.
pub struct AskAssetInfo {
    pub token: UsdtContractAddr,
}

/// One swap hop from the offered asset to the asked asset.
pub struct OraiSwap {
    pub offer_asset_info: OfferAssetInfo,
    pub ask_asset_info: AskAssetInfo,
}

/// One simulated swap operation.
pub struct Operation {
    pub orai_swap: OraiSwap,
}

/// The body of the simulation request: the probe amount and the hops.
pub struct SwapContractMessageContent {
    pub offer_amount: u128,
    pub operations: Vec<Operation>,
}

/// The simulation request sent to the swap router to read the live rate.
pub struct SwapContractMessage {
    pub simulate_swap_operations: SwapContractMessageContent,
}

/// A bare amount, as some queries wrap their result.
pub struct Amount {
    pub amount: u128,
}

/// The router's answer: the reference-token amount the probe would buy.
pub struct ExchangeRateResponse {
    pub amount: u128,
}

} // verus!
