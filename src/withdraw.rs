use vstd::prelude::*;

use crate::curve::{lemma_share_within_reserve, share_of, withdraw_amounts, ConstantProduct, XYAmounts};
use crate::error::AmmError;
use crate::pool::Config;
use crate::swap::{swap_outcome, Swap};

verus! {

/// The records a withdrawal reads and moves: the pool, its share supply, both
/// reserves, and the caller's balances of both assets and of shares.
#[derive(Clone, Copy, Debug)]
pub struct Withdraw {
    pub config: Config,
    pub lp_supply: u64,
    pub vault_x: u64,
    pub vault_y: u64,
    pub user_x: u64,
    pub user_y: u64,
    pub user_lp: u64,
}

/// The validation of a redemption and its amounts, or the first check that
/// fails.
pub open spec fn withdraw_quote(s: Withdraw, amount: u64, min_x: u64, min_y: u64) -> Result<XYAmounts, AmmError> {
    if s.config.locked {
        Err(AmmError::PoolLocked)
    } else if amount == 0 {
        Err(AmmError::InvalidAmount)
    } else if s.user_lp < amount {
        Err(AmmError::InsufficientBalance)
    } else if s.lp_supply == 0 || s.vault_x == 0 || s.vault_y == 0 {
        Err(AmmError::NoLiquidityInPool)
    } else {
        match withdraw_amounts(s.vault_x, s.vault_y, s.lp_supply, amount) {
            Err(e) => Err(e),
            Ok(xy) => if xy.x < min_x || xy.y < min_y {
                Err(AmmError::SlippageExceeded)
            } else if s.vault_x < xy.x || s.vault_y < xy.y {
                Err(AmmError::NoLiquidityInPool)
            } else {
                Ok(xy)
            },
        }
    }
}

/// Moving `amount` of one asset from its reserve to the caller.
pub open spec fn redeem_leg(s: Withdraw, is_x: bool, amount: u64) -> Result<Withdraw, AmmError> {
    if is_x {
        if s.vault_x < amount {
            Err(AmmError::InsufficientBalance)
        } else if s.user_x + amount > u64::MAX {
            Err(AmmError::Overflow)
        } else {
            Ok(Withdraw { vault_x: (s.vault_x - amount) as u64, user_x: (s.user_x + amount) as u64, ..s })
        }
    } else {
        if s.vault_y < amount {
            Err(AmmError::InsufficientBalance)
        } else if s.user_y + amount > u64::MAX {
            Err(AmmError::Overflow)
        } else {
            Ok(Withdraw { vault_y: (s.vault_y - amount) as u64, user_y: (s.user_y + amount) as u64, ..s })
        }
    }
}

/// Destroying `amount` of the caller's shares.
pub open spec fn burn_leg(s: Withdraw, amount: u64) -> Result<Withdraw, AmmError> {
    if s.user_lp < amount {
        Err(AmmError::InsufficientBalance)
    } else if s.lp_supply < amount {
        Err(AmmError::Overflow)
    } else {
        Ok(Withdraw { user_lp: (s.user_lp - amount) as u64, lp_supply: (s.lp_supply - amount) as u64, ..s })
    }
}

/// The records after a whole withdrawal: X out, Y out, shares burned, in
/// that order, or nothing changes and the first failure is reported.
pub open spec fn withdraw_outcome(s: Withdraw, amount: u64, min_x: u64, min_y: u64) -> Result<Withdraw, AmmError> {
    match withdraw_quote(s, amount, min_x, min_y) {
        Err(e) => Err(e),
        Ok(xy) => match redeem_leg(s, true, xy.x) {
            Err(e) => Err(e),
            Ok(s1) => match redeem_leg(s1, false, xy.y) {
                Err(e) => Err(e),
                Ok(s2) => burn_leg(s2, amount),
            },
        },
    }
}

/// A completed withdrawal pays out each reserve's pro-rata share, rounded
/// down, never more than the reserve held; and when shares remain
/// outstanding, both reserves stay positive.
pub proof fn lemma_withdraw_pro_rata(s: Withdraw, amount: u64, min_x: u64, min_y: u64)
    requires
        withdraw_outcome(s, amount, min_x, min_y) is Ok,
    ensures
        ({
            let xy = withdraw_quote(s, amount, min_x, min_y)->Ok_0;
            let t = withdraw_outcome(s, amount, min_x, min_y)->Ok_0;
            &&& xy.x == share_of(s.vault_x as int, amount as int, s.lp_supply as int)
            &&& xy.y == share_of(s.vault_y as int, amount as int, s.lp_supply as int)
            &&& xy.x <= s.vault_x
            &&& xy.y <= s.vault_y
            &&& t.vault_x == s.vault_x - xy.x
            &&& t.vault_y == s.vault_y - xy.y
            &&& t.lp_supply == s.lp_supply - amount
            &&& t.lp_supply > 0 ==> t.vault_x > 0 && t.vault_y > 0
        }),
{
    lemma_share_within_reserve(s.vault_x as int, amount as int, s.lp_supply as int);
    lemma_share_within_reserve(s.vault_y as int, amount as int, s.lp_supply as int);
}

/// While a pool is locked, every swap and every withdrawal on it is refused
/// as locked, whatever the other inputs.
pub proof fn lemma_locked_pool_rejects(
    s: Swap,
    is_x: bool,
    amount_in: u64,
    min_amount_out: u64,
    w: Withdraw,
    amount: u64,
    min_x: u64,
    min_y: u64,
)
    requires
        s.config.locked,
        w.config.locked,
    ensures
        swap_outcome(s, is_x, amount_in, min_amount_out) == Err::<Swap, AmmError>(AmmError::PoolLocked),
        withdraw_outcome(w, amount, min_x, min_y) == Err::<Withdraw, AmmError>(AmmError::PoolLocked),
{
}

impl Withdraw {
    /// Burns `amount` shares for at least `min_x` of X and `min_y` of Y. On
    /// success the three movements are applied and the amounts paid out are
    /// returned; on failure nothing changes.
    pub fn withdraw(&mut self, amount: u64, min_x: u64, min_y: u64) -> (r: Result<XYAmounts, AmmError>)
        ensures
            match withdraw_outcome(*old(self), amount, min_x, min_y) {
                Ok(s) => *final(self) == s && r == withdraw_quote(*old(self), amount, min_x, min_y),
                Err(e) => r == Err::<XYAmounts, AmmError>(e) && *final(self) == *old(self),
            },
    {
        if self.config.locked {
            return Err(AmmError::PoolLocked);
        }
        if amount == 0 {
            return Err(AmmError::InvalidAmount);
        }
        if self.user_lp < amount {
            return Err(AmmError::InsufficientBalance);
        }
        if self.lp_supply == 0 || self.vault_x == 0 || self.vault_y == 0 {
            return Err(AmmError::NoLiquidityInPool);
        }
        let xy = ConstantProduct::withdraw_amounts_from_shares(self.vault_x, self.vault_y, self.lp_supply, amount)?;
        if xy.x < min_x || xy.y < min_y {
            return Err(AmmError::SlippageExceeded);
        }
        if self.vault_x < xy.x || self.vault_y < xy.y {
            return Err(AmmError::NoLiquidityInPool);
        }
        // Every movement is checked before the first is applied, so a
        // failure leaves every balance as it was.
        if self.user_x > u64::MAX - xy.x || self.user_y > u64::MAX - xy.y {
            return Err(AmmError::Overflow);
        }
        if self.lp_supply < amount {
            return Err(AmmError::Overflow);
        }
        self.withdraw_tokens(true, xy.x)?;
        self.withdraw_tokens(false, xy.y)?;
        self.burn_lp_tokens(amount)?;
        Ok(xy)
    }

    /// Moves `amount` of X (or Y) from the reserve to the caller, under the
    /// pool's derived authority.
    pub fn withdraw_tokens(&mut self, is_x: bool, amount: u64) -> (r: Result<(), AmmError>)
        ensures
            match redeem_leg(*old(self), is_x, amount) {
                Ok(s) => r is Ok && *final(self) == s,
                Err(e) => r == Err::<(), AmmError>(e) && *final(self) == *old(self),
            },
    {
        if is_x {
            if self.vault_x < amount {
                return Err(AmmError::InsufficientBalance);
            }
            if self.user_x > u64::MAX - amount {
                return Err(AmmError::Overflow);
            }
            self.vault_x = self.vault_x - amount;
            self.user_x = self.user_x + amount;
        } else {
            if self.vault_y < amount {
                return Err(AmmError::InsufficientBalance);
            }
            if self.user_y > u64::MAX - amount {
                return Err(AmmError::Overflow);
            }
            self.vault_y = self.vault_y - amount;
            self.user_y = self.user_y + amount;
        }
        Ok(())
    }

    /// Destroys `amount` of the caller's shares, lowering the share supply.
    pub fn burn_lp_tokens(&mut self, amount: u64) -> (r: Result<(), AmmError>)
        ensures
            match burn_leg(*old(self), amount) {
                Ok(s) => r is Ok && *final(self) == s,
                Err(e) => r == Err::<(), AmmError>(e) && *final(self) == *old(self),
            },
    {
        if self.user_lp < amount {
            return Err(AmmError::InsufficientBalance);
        }
        if self.lp_supply < amount {
            return Err(AmmError::Overflow);
        }
        self.user_lp = self.user_lp - amount;
        self.lp_supply = self.lp_supply - amount;
        Ok(())
    }
}

} // verus!
