use vstd::prelude::*;

use crate::error::AmmError;

verus! {

/// Fees are expressed in basis points of this denominator.
pub const FEE_DENOMINATOR: u64 = 10_000;

/// Which of the two assets of a pool is being sold.
#[derive(Clone, Copy, Debug, PartialEq, Eq, Structural)]
pub enum LiquidityPair {
    X,
    Y,
}

/// A snapshot of a pool handed to the curve: both reserves, the share supply,
/// the fee rate and the decimal precision the caller asked for.
///
/// The precision is kept as configured; the integer formulas below do not
/// scale by it.
#[derive(Clone, Copy, Debug)]
pub struct ConstantProduct {
    pub x: u64,
    pub y: u64,
    pub l: u64,
    pub fee: u16,
    pub precision: u8,
}

/// The two legs of a swap: what the user pays in, and what the pool pays out.
#[derive(Clone, Copy, Debug, PartialEq, Eq, Structural)]
pub struct SwapResult {
    pub deposit: u64,
    pub withdraw: u64,
}

/// The amounts of both assets that a redemption of shares pays out.
#[derive(Clone, Copy, Debug, PartialEq, Eq, Structural)]
pub struct XYAmounts {
    pub x: u64,
    pub y: u64,
}

/// Integer division rounded up; `d` must be positive.
pub open spec fn ceil_div(n: int, d: int) -> int {
    (n + d - 1) / d
}

/// The input that is left once the fee is taken, rounded down.
pub open spec fn amount_after_fee(amount: int, fee: int) -> int {
    amount * (FEE_DENOMINATOR - fee) / (FEE_DENOMINATOR as int)
}

/// The reserve of the bought asset once `a` (net of fee) has come in: the
/// constant product divided by the new input reserve, rounded up so that the
/// pool never gives away a fraction of a unit.
pub open spec fn reserve_after_swap(reserve_in: int, reserve_out: int, a: int) -> int {
    if reserve_in + a == 0 {
        reserve_out
    } else {
        ceil_div(reserve_in * reserve_out, reserve_in + a)
    }
}

/// What a swap pays out: the drop of the bought reserve, which is the exact
/// constant-product output rounded down.
pub open spec fn swap_output(reserve_in: int, reserve_out: int, a: int) -> int {
    reserve_out - reserve_after_swap(reserve_in, reserve_out, a)
}

/// The reserves in the order (sold asset, bought asset).
pub open spec fn oriented(c: ConstantProduct, p: LiquidityPair) -> (int, int) {
    match p {
        LiquidityPair::X => (c.x as int, c.y as int),
        LiquidityPair::Y => (c.y as int, c.x as int),
    }
}

/// What `init` accepts: a fee below the denominator, and both reserves
/// positive whenever shares are outstanding.
pub open spec fn curve_state_valid(x: u64, y: u64, l: u64, fee: u16) -> bool {
    fee < FEE_DENOMINATOR && (l > 0 ==> x > 0 && y > 0)
}

/// The output of selling `amount_in` on side `p`.
pub open spec fn curve_swap_output(c: ConstantProduct, p: LiquidityPair, amount_in: u64) -> int {
    let (rin, rout) = oriented(c, p);
    swap_output(rin, rout, amount_after_fee(amount_in as int, c.fee as int))
}

/// The outcome of a swap on the curve.
pub open spec fn curve_swap(
    c: ConstantProduct,
    p: LiquidityPair,
    amount_in: u64,
    min_amount_out: u64,
) -> Result<SwapResult, AmmError> {
    let out = curve_swap_output(c, p, amount_in);
    if out < min_amount_out {
        Err(AmmError::SlippageExceeded)
    } else if amount_in == 0 || out == 0 {
        Err(AmmError::InvalidAmount)
    } else {
        Ok(SwapResult { deposit: amount_in, withdraw: out as u64 })
    }
}

/// The pro-rata share of one reserve, rounded down.
pub open spec fn share_of(reserve: int, shares: int, supply: int) -> int {
    reserve * shares / supply
}

/// The outcome of redeeming `shares` out of `supply`.
pub open spec fn withdraw_amounts(x: u64, y: u64, supply: u64, shares: u64) -> Result<XYAmounts, AmmError> {
    if supply == 0 {
        Err(AmmError::NoLiquidityInPool)
    } else if share_of(x as int, shares as int, supply as int) > u64::MAX
        || share_of(y as int, shares as int, supply as int) > u64::MAX {
        Err(AmmError::Overflow)
    } else {
        Ok(XYAmounts {
            x: share_of(x as int, shares as int, supply as int) as u64,
            y: share_of(y as int, shares as int, supply as int) as u64,
        })
    }
}

/// The rounded-up new reserve never exceeds the old one, and never falls
/// below what keeps the product of the reserves.
pub proof fn lemma_reserve_after_swap_bounds(reserve_in: int, reserve_out: int, a: int)
    requires
        reserve_in >= 0,
        reserve_out >= 0,
        a >= 0,
    ensures
        0 <= reserve_after_swap(reserve_in, reserve_out, a) <= reserve_out,
        (reserve_in + a) * reserve_after_swap(reserve_in, reserve_out, a) >= reserve_in * reserve_out,
{
    let d = reserve_in + a;
    if d != 0 {
        let k = reserve_in * reserve_out;
        let c = ceil_div(k, d);
        assert(0 <= k <= reserve_out * d) by (nonlinear_arith)
            requires k == reserve_in * reserve_out, d == reserve_in + a, reserve_in >= 0, reserve_out >= 0, a >= 0;
        assert(0 <= c <= reserve_out) by (nonlinear_arith)
            requires c == (k + d - 1) / d, 0 <= k <= reserve_out * d, d > 0, reserve_out >= 0;
        assert(d * c >= k) by (nonlinear_arith)
            requires c == (k + d - 1) / d, k >= 0, d > 0;
    }
}

/// Redeeming no more than the whole supply pays out no more than the
/// reserve, and strictly less when fewer than all shares are redeemed.
pub proof fn lemma_share_within_reserve(reserve: int, shares: int, supply: int)
    requires
        reserve >= 0,
        0 <= shares <= supply,
        supply > 0,
    ensures
        0 <= share_of(reserve, shares, supply) <= reserve,
        reserve > 0 && shares < supply ==> share_of(reserve, shares, supply) < reserve,
{
    assert(0 <= reserve * shares <= reserve * supply) by (nonlinear_arith)
        requires reserve >= 0, 0 <= shares <= supply;
    assert(0 <= reserve * shares / supply <= reserve) by (nonlinear_arith)
        requires 0 <= reserve * shares <= reserve * supply, supply > 0;
    if reserve > 0 && shares < supply {
        assert(reserve * shares / supply < reserve) by (nonlinear_arith)
            requires reserve > 0, 0 <= shares < supply;
    }
}

/// Redeeming every outstanding share pays out both reserves exactly.
pub proof fn lemma_full_redemption(x: u64, y: u64, supply: u64)
    requires
        supply > 0,
    ensures
        withdraw_amounts(x, y, supply, supply) == Ok::<XYAmounts, AmmError>(XYAmounts { x, y }),
{
    assert(x as int * supply as int / supply as int == x) by (nonlinear_arith)
        requires supply > 0;
    assert(y as int * supply as int / supply as int == y) by (nonlinear_arith)
        requires supply > 0;
}

/// The drop of the bought reserve is the exact constant-product output
/// `reserve_out * a / (reserve_in + a)`, rounded down.
pub proof fn lemma_swap_output_rounds_down(reserve_in: int, reserve_out: int, a: int)
    requires
        reserve_in >= 0,
        reserve_out >= 0,
        a >= 0,
        reserve_in + a > 0,
    ensures
        swap_output(reserve_in, reserve_out, a) == reserve_out * a / (reserve_in + a),
{
    let d = reserve_in + a;
    let q = reserve_out * a / d;
    let r = reserve_out * a % d;
    assert(reserve_out * a == q * d + r && 0 <= r < d) by (nonlinear_arith)
        requires q == reserve_out * a / d, r == reserve_out * a % d, d > 0;
    assert(reserve_in * reserve_out == (reserve_out - q) * d - r) by (nonlinear_arith)
        requires reserve_out * a == q * d + r, d == reserve_in + a;
    let n = (reserve_out - q) * d - r;
    assert((n + d - 1) / d == reserve_out - q) by (nonlinear_arith)
        requires n == (reserve_out - q) * d - r, 0 <= r < d;
}

impl ConstantProduct {
    /// The snapshot is one that `init` accepts.
    pub open spec fn wf(&self) -> bool {
        curve_state_valid(self.x, self.y, self.l, self.fee)
    }

    /// Builds a curve over the given reserves and share supply.
    pub fn init(x: u64, y: u64, l: u64, fee: u16, precision: u8) -> (r: Result<ConstantProduct, AmmError>)
        ensures
            curve_state_valid(x, y, l, fee) <==> r.is_ok(),
            !curve_state_valid(x, y, l, fee) ==> r == Err::<ConstantProduct, AmmError>(AmmError::InvalidCurveState),
            r matches Ok(c) ==> c.x == x && c.y == y && c.l == l && c.fee == fee && c.precision == precision,
    {
        if fee as u64 >= FEE_DENOMINATOR || (l > 0 && (x == 0 || y == 0)) {
            Err(AmmError::InvalidCurveState)
        } else {
            Ok(ConstantProduct { x, y, l, fee, precision })
        }
    }

    /// Sells `amount_in` of the asset `p` against the other reserve. The
    /// whole `amount_in` is charged; the fee stays in the pool.
    pub fn swap(&self, p: LiquidityPair, amount_in: u64, min_amount_out: u64) -> (r: Result<SwapResult, AmmError>)
        requires
            self.wf(),
        ensures
            r == curve_swap(*self, p, amount_in, min_amount_out),
    {
        let (rin, rout): (u64, u64) = match p {
            LiquidityPair::X => (self.x, self.y),
            LiquidityPair::Y => (self.y, self.x),
        };
        let fee_keep: u128 = (FEE_DENOMINATOR - self.fee as u64) as u128;
        assert(amount_in as u128 * fee_keep <= u64::MAX as int * 10000) by (nonlinear_arith)
            requires fee_keep <= 10000;
        let a: u128 = (amount_in as u128 * fee_keep) / (FEE_DENOMINATOR as u128);
        assert(a <= amount_in) by (nonlinear_arith)
            requires a == (amount_in as u128 * fee_keep) / 10000, fee_keep <= 10000;
        let d: u128 = rin as u128 + a;
        proof {
            lemma_reserve_after_swap_bounds(rin as int, rout as int, a as int);
        }
        let new_out: u64 = if d == 0 {
            rout
        } else {
            assert(rin as u128 * rout as u128 <= u64::MAX as int * u64::MAX as int) by (nonlinear_arith);
            let k: u128 = rin as u128 * rout as u128;
            ((k + (d - 1)) / d) as u64
        };
        let out: u64 = rout - new_out;
        if out < min_amount_out {
            Err(AmmError::SlippageExceeded)
        } else if amount_in == 0 || out == 0 {
            Err(AmmError::InvalidAmount)
        } else {
            Ok(SwapResult { deposit: amount_in, withdraw: out })
        }
    }

    /// The amounts of both reserves owed for burning `shares` of `supply`,
    /// each rounded down.
    pub fn withdraw_amounts_from_shares(x: u64, y: u64, supply: u64, shares: u64) -> (r: Result<XYAmounts, AmmError>)
        ensures
            r == withdraw_amounts(x, y, supply, shares),
    {
        if supply == 0 {
            return Err(AmmError::NoLiquidityInPool);
        }
        assert(x as u128 * shares as u128 <= u64::MAX as int * u64::MAX as int) by (nonlinear_arith);
        assert(y as u128 * shares as u128 <= u64::MAX as int * u64::MAX as int) by (nonlinear_arith);
        let wx: u128 = (x as u128 * shares as u128) / supply as u128;
        let wy: u128 = (y as u128 * shares as u128) / supply as u128;
        if wx > u64::MAX as u128 || wy > u64::MAX as u128 {
            Err(AmmError::Overflow)
        } else {
            Ok(XYAmounts { x: wx as u64, y: wy as u64 })
        }
    }
}

} // verus!
