use vstd::prelude::*;

use crate::curve::{
    amount_after_fee, curve_state_valid, curve_swap, curve_swap_output, lemma_reserve_after_swap_bounds,
    oriented, reserve_after_swap, ConstantProduct, LiquidityPair, SwapResult,
};
use crate::error::AmmError;
use crate::pool::{Config, PRECISION};

verus! {

/// The records a swap reads and moves: the pool, its share supply, both
/// reserves and the caller's balances of both assets.
#[derive(Clone, Copy, Debug)]
pub struct Swap {
    pub config: Config,
    pub lp_supply: u64,
    pub vault_x: u64,
    pub vault_y: u64,
    pub user_x: u64,
    pub user_y: u64,
}

/// The side of the curve that selling X (or Y) stands for.
pub open spec fn pair_of(is_x: bool) -> LiquidityPair {
    if is_x {
        LiquidityPair::X
    } else {
        LiquidityPair::Y
    }
}

/// The curve over the reserves and share supply of `s`.
pub open spec fn curve_of(s: Swap) -> ConstantProduct {
    ConstantProduct {
        x: s.vault_x,
        y: s.vault_y,
        l: s.lp_supply,
        fee: s.config.fee,
        precision: PRECISION,
    }
}

/// The caller's balance of the asset being sold.
pub open spec fn sold_balance(s: Swap, is_x: bool) -> u64 {
    if is_x {
        s.user_x
    } else {
        s.user_y
    }
}

/// The validation of a swap, then the curve: the amounts to move, or the
/// first check that fails.
pub open spec fn swap_quote(s: Swap, is_x: bool, amount_in: u64, min_amount_out: u64) -> Result<SwapResult, AmmError> {
    if s.config.locked {
        Err(AmmError::PoolLocked)
    } else if amount_in == 0 {
        Err(AmmError::InvalidAmount)
    } else if s.vault_x == 0 || s.vault_y == 0 {
        Err(AmmError::NoLiquidityInPool)
    } else if sold_balance(s, is_x) < amount_in {
        Err(AmmError::InsufficientBalance)
    } else if !curve_state_valid(s.vault_x, s.vault_y, s.lp_supply, s.config.fee) {
        Err(AmmError::InvalidCurveState)
    } else {
        curve_swap(curve_of(s), pair_of(is_x), amount_in, min_amount_out)
    }
}

/// Moving `amount` of one asset from the caller into its reserve.
pub open spec fn deposit_leg(s: Swap, is_x: bool, amount: u64) -> Result<Swap, AmmError> {
    if is_x {
        if s.user_x < amount {
            Err(AmmError::InsufficientBalance)
        } else if s.vault_x + amount > u64::MAX {
            Err(AmmError::Overflow)
        } else {
            Ok(Swap { user_x: (s.user_x - amount) as u64, vault_x: (s.vault_x + amount) as u64, ..s })
        }
    } else {
        if s.user_y < amount {
            Err(AmmError::InsufficientBalance)
        } else if s.vault_y + amount > u64::MAX {
            Err(AmmError::Overflow)
        } else {
            Ok(Swap { user_y: (s.user_y - amount) as u64, vault_y: (s.vault_y + amount) as u64, ..s })
        }
    }
}

/// Moving `amount` of one asset from its reserve to the caller.
pub open spec fn payout_leg(s: Swap, is_x: bool, amount: u64) -> Result<Swap, AmmError> {
    if is_x {
        if s.vault_x < amount {
            Err(AmmError::InsufficientBalance)
        } else if s.user_x + amount > u64::MAX {
            Err(AmmError::Overflow)
        } else {
            Ok(Swap { vault_x: (s.vault_x - amount) as u64, user_x: (s.user_x + amount) as u64, ..s })
        }
    } else {
        if s.vault_y < amount {
            Err(AmmError::InsufficientBalance)
        } else if s.user_y + amount > u64::MAX {
            Err(AmmError::Overflow)
        } else {
            Ok(Swap { vault_y: (s.vault_y - amount) as u64, user_y: (s.user_y + amount) as u64, ..s })
        }
    }
}

/// The records after a whole swap: the sold asset comes in, the other goes
/// out, or nothing changes and the first failure is reported.
pub open spec fn swap_outcome(s: Swap, is_x: bool, amount_in: u64, min_amount_out: u64) -> Result<Swap, AmmError> {
    match swap_quote(s, is_x, amount_in, min_amount_out) {
        Err(e) => Err(e),
        Ok(q) => match deposit_leg(s, is_x, q.deposit) {
            Err(e) => Err(e),
            Ok(s1) => payout_leg(s1, !is_x, q.withdraw),
        },
    }
}

/// A completed swap never lowers the product of the two reserves, and leaves
/// both reserves positive: the fee and the rounding stay in the pool.
pub proof fn lemma_swap_keeps_product(s: Swap, is_x: bool, amount_in: u64, min_amount_out: u64)
    requires
        swap_outcome(s, is_x, amount_in, min_amount_out) is Ok,
    ensures
        ({
            let t = swap_outcome(s, is_x, amount_in, min_amount_out)->Ok_0;
            &&& t.vault_x as int * t.vault_y as int >= s.vault_x as int * s.vault_y as int
            &&& t.vault_x > 0
            &&& t.vault_y > 0
        }),
{
    assert(s.vault_x > 0 && s.vault_y > 0 && s.config.fee < 10000);
    let fee = s.config.fee as int;
    let a = amount_after_fee(amount_in as int, fee);
    assert(0 <= a <= amount_in) by (nonlinear_arith)
        requires
            a == amount_in * (10000 - fee) / 10000,
            0 <= fee < 10000,
    ;
    let (rin, rout) = oriented(curve_of(s), pair_of(is_x));
    assert(rin > 0 && rout > 0);
    lemma_reserve_after_swap_bounds(rin, rout, a);
    let r = reserve_after_swap(rin, rout, a);
    let m = amount_in as int;
    assert((rin + m) * r >= rin * rout) by (nonlinear_arith)
        requires
            (rin + a) * r >= rin * rout,
            a <= m,
            r >= 0,
    ;
    assert(r > 0) by (nonlinear_arith)
        requires
            (rin + m) * r >= rin * rout,
            rin > 0,
            rout > 0,
            m >= 0,
            r >= 0,
    ;
    if !is_x {
        assert(r * (rin + m) == (rin + m) * r) by (nonlinear_arith);
    }
}

/// A swap of nothing is refused as an invalid amount on any open pool.
pub proof fn lemma_zero_input_rejected(s: Swap, is_x: bool, min_amount_out: u64)
    requires
        !s.config.locked,
    ensures
        swap_outcome(s, is_x, 0, min_amount_out) == Err::<Swap, AmmError>(AmmError::InvalidAmount),
{
}

/// A swap that passes validation but whose output falls short of the
/// caller's floor is refused for slippage.
pub proof fn lemma_slippage_rejected(s: Swap, is_x: bool, amount_in: u64, min_amount_out: u64)
    requires
        !s.config.locked,
        amount_in > 0,
        s.vault_x > 0,
        s.vault_y > 0,
        sold_balance(s, is_x) >= amount_in,
        curve_state_valid(s.vault_x, s.vault_y, s.lp_supply, s.config.fee),
        curve_swap_output(curve_of(s), pair_of(is_x), amount_in) < min_amount_out,
    ensures
        swap_outcome(s, is_x, amount_in, min_amount_out) == Err::<Swap, AmmError>(AmmError::SlippageExceeded),
{
}

impl Swap {
    /// Sells `amount_in` of X (or of Y when `is_x` is false) for at least
    /// `min_amount_out` of the other asset. On success both transfers are
    /// applied and their amounts returned; on failure nothing changes.
    pub fn swap(&mut self, is_x: bool, amount_in: u64, min_amount_out: u64) -> (r: Result<SwapResult, AmmError>)
        ensures
            match swap_outcome(*old(self), is_x, amount_in, min_amount_out) {
                Ok(s) => *final(self) == s && r == swap_quote(*old(self), is_x, amount_in, min_amount_out),
                Err(e) => r == Err::<SwapResult, AmmError>(e) && *final(self) == *old(self),
            },
    {
        if self.config.locked {
            return Err(AmmError::PoolLocked);
        }
        if amount_in == 0 {
            return Err(AmmError::InvalidAmount);
        }
        if self.vault_x == 0 || self.vault_y == 0 {
            return Err(AmmError::NoLiquidityInPool);
        }
        let balance: u64 = if is_x { self.user_x } else { self.user_y };
        if balance < amount_in {
            return Err(AmmError::InsufficientBalance);
        }
        let curve = ConstantProduct::init(self.vault_x, self.vault_y, self.lp_supply, self.config.fee, PRECISION)?;
        let pair = if is_x { LiquidityPair::X } else { LiquidityPair::Y };
        let res = curve.swap(pair, amount_in, min_amount_out)?;
        if res.deposit == 0 || res.withdraw == 0 {
            return Err(AmmError::InvalidAmount);
        }
        // Both legs are checked before either is applied, so a failure leaves
        // every balance as it was.
        let vault_in: u64 = if is_x { self.vault_x } else { self.vault_y };
        if vault_in > u64::MAX - res.deposit {
            return Err(AmmError::Overflow);
        }
        let vault_out: u64 = if is_x { self.vault_y } else { self.vault_x };
        let user_out: u64 = if is_x { self.user_y } else { self.user_x };
        if vault_out < res.withdraw {
            return Err(AmmError::InsufficientBalance);
        }
        if user_out > u64::MAX - res.withdraw {
            return Err(AmmError::Overflow);
        }
        self.deposit_tokens(is_x, res.deposit)?;
        self.withdraw_tokens(!is_x, res.withdraw)?;
        Ok(res)
    }

    /// Moves `amount` of X (or Y) from the caller into the reserve.
    pub fn deposit_tokens(&mut self, is_x: bool, amount: u64) -> (r: Result<(), AmmError>)
        ensures
            match deposit_leg(*old(self), is_x, amount) {
                Ok(s) => r is Ok && *final(self) == s,
                Err(e) => r == Err::<(), AmmError>(e) && *final(self) == *old(self),
            },
    {
        if is_x {
            if self.user_x < amount {
                return Err(AmmError::InsufficientBalance);
            }
            if self.vault_x > u64::MAX - amount {
                return Err(AmmError::Overflow);
            }
            self.user_x = self.user_x - amount;
            self.vault_x = self.vault_x + amount;
        } else {
            if self.user_y < amount {
                return Err(AmmError::InsufficientBalance);
            }
            if self.vault_y > u64::MAX - amount {
                return Err(AmmError::Overflow);
            }
            self.user_y = self.user_y - amount;
            self.vault_y = self.vault_y + amount;
        }
        Ok(())
    }

    /// Moves `amount` of X (or Y) from the reserve to the caller, under the
    /// pool's derived authority.
    pub fn withdraw_tokens(&mut self, is_x: bool, amount: u64) -> (r: Result<(), AmmError>)
        ensures
            match payout_leg(*old(self), is_x, amount) {
                Ok(s) => r is Ok && *final(self) == s,
                Err(e) => r == Err::<(), AmmError>(e) && *final(self) == *old(self),
            },
    {
        if is_x {
            if self.vault_x < amount {
                return Err(AmmError::InsufficientBalance);
            }
            if self.user_x > u64::MAX - amount {
                return Err(AmmError::Overflow);
            }
            self.vault_x = self.vault_x - amount;
            self.user_x = self.user_x + amount;
        } else {
            if self.vault_y < amount {
                return Err(AmmError::InsufficientBalance);
            }
            if self.user_y > u64::MAX - amount {
                return Err(AmmError::Overflow);
            }
            self.vault_y = self.vault_y - amount;
            self.user_y = self.user_y + amount;
        }
        Ok(())
    }
}

} // verus!
