//! Removing liquidity: shares burned, both reserve assets out.
use vstd::prelude::*;
use crate::curve::{
    lemma_bootstrap_then_withdraw,
    lemma_deposit_then_withdraw,
    lemma_share_within_reserve,
    share_of,
    shares_fit,
    withdraw_amounts_for_shares,
    XYAmounts,
};
use crate::deposit::Deposit;
use crate::error::AmmError;
use crate::ledger::{burn, can_burn, can_transfer, transfer};
use crate::state::Config;

verus! {

/// What a withdrawal reads and moves: the pool record, its two vaults and
/// share supply, and the withdrawer's balances of both assets and of shares.
#[derive(Debug, Clone, Copy)]
pub struct Withdraw {
    pub config: Config,
    pub vault_x: u64,
    pub vault_y: u64,
    pub lp_supply: u64,
    pub user_x: u64,
    pub user_y: u64,
    pub user_lp: u64,
}

impl Withdraw {
    /// Balances that a token ledger can hold: the holder's shares are part
    /// of the supply, and each asset's two balances fit its total range.
    pub open spec fn wf(&self) -> bool {
        &&& self.config.wf()
        &&& self.user_lp <= self.lp_supply
        &&& self.user_x + self.vault_x <= u64::MAX
        &&& self.user_y + self.vault_y <= u64::MAX
    }

    /// The amounts that burning `shares` pays out, where the curve can size them.
    pub open spec fn amounts_for(&self, shares: u64) -> XYAmounts {
        XYAmounts {
            x: share_of(shares as int, self.vault_x as int, self.lp_supply as int) as u64,
            y: share_of(shares as int, self.vault_y as int, self.lp_supply as int) as u64,
        }
    }

    /// The outcome of burning `shares` shares for at least `(min_x, min_y)`.
    pub open spec fn withdraw_result(&self, shares: u64, min_x: u64, min_y: u64) -> Result<XYAmounts, AmmError> {
        let a = self.amounts_for(shares);
        if self.config.locked {
            Err(AmmError::PoolLocked)
        } else if shares == 0 {
            Err(AmmError::InvalidAmount)
        } else if self.lp_supply == 0 {
            Err(AmmError::DivisionByZero)
        } else if !shares_fit(
            self.vault_x as int,
            self.vault_y as int,
            self.lp_supply as int,
            shares as int,
        ) {
            Err(AmmError::ArithmeticOverflow)
        } else if min_x > a.x || min_y > a.y {
            Err(AmmError::SlippageExceeded)
        } else if !can_transfer(self.vault_x, self.user_x, a.x) || !can_transfer(
            self.vault_y,
            self.user_y,
            a.y,
        ) {
            Err(AmmError::TransferFailed)
        } else if !can_burn(self.lp_supply, self.user_lp, shares) {
            Err(AmmError::BurnFailed)
        } else {
            Ok(a)
        }
    }

    /// The balances after `a` left the vaults and `shares` were burned.
    pub open spec fn after_withdraw(&self, a: XYAmounts, shares: u64) -> Withdraw {
        Withdraw {
            vault_x: (self.vault_x - a.x) as u64,
            vault_y: (self.vault_y - a.y) as u64,
            lp_supply: (self.lp_supply - shares) as u64,
            user_x: (self.user_x + a.x) as u64,
            user_y: (self.user_y + a.y) as u64,
            user_lp: (self.user_lp - shares) as u64,
            ..*self
        }
    }

    /// Burns `amount` shares for at least `min_x` and `min_y`; returns what
    /// was paid out. On any error nothing has moved.
    pub fn withdraw(&mut self, amount: u64, min_x: u64, min_y: u64) -> (r: Result<XYAmounts, AmmError>)
        ensures
            r == old(self).withdraw_result(amount, min_x, min_y),
            r is Ok ==> *final(self) == old(self).after_withdraw(r->Ok_0, amount),
            r is Err ==> *final(self) == *old(self),
            old(self).wf() ==> final(self).wf(),
    {
        if self.config.locked {
            return Err(AmmError::PoolLocked);
        }
        if amount == 0 {
            return Err(AmmError::InvalidAmount);
        }
        let a = withdraw_amounts_for_shares(self.vault_x, self.vault_y, self.lp_supply, amount)?;
        if min_x > a.x || min_y > a.y {
            return Err(AmmError::SlippageExceeded);
        }
        let mut next = *self;
        next.withdraw_token(true, a.x)?;
        next.withdraw_token(false, a.y)?;
        next.burn_lp_tokens(amount)?;
        *self = next;
        Ok(a)
    }

    /// Moves `amount` of asset X (or Y) from its vault to the withdrawer.
    pub fn withdraw_token(&mut self, is_x: bool, amount: u64) -> (r: Result<(), AmmError>)
        ensures
            is_x ==> (r is Ok <==> can_transfer(old(self).vault_x, old(self).user_x, amount)),
            !is_x ==> (r is Ok <==> can_transfer(old(self).vault_y, old(self).user_y, amount)),
            r is Err ==> r->Err_0 == AmmError::TransferFailed && *final(self) == *old(self),
            r is Ok && is_x ==> *final(self) == (Withdraw {
                vault_x: (old(self).vault_x - amount) as u64,
                user_x: (old(self).user_x + amount) as u64,
                ..*old(self)
            }),
            r is Ok && !is_x ==> *final(self) == (Withdraw {
                vault_y: (old(self).vault_y - amount) as u64,
                user_y: (old(self).user_y + amount) as u64,
                ..*old(self)
            }),
    {
        if is_x {
            transfer(&mut self.vault_x, &mut self.user_x, amount)
        } else {
            transfer(&mut self.vault_y, &mut self.user_y, amount)
        }
    }

    /// Burns `amount` of the withdrawer's shares.
    pub fn burn_lp_tokens(&mut self, amount: u64) -> (r: Result<(), AmmError>)
        ensures
            r is Ok <==> can_burn(old(self).lp_supply, old(self).user_lp, amount),
            r is Err ==> r->Err_0 == AmmError::BurnFailed && *final(self) == *old(self),
            r is Ok ==> *final(self) == (Withdraw {
                lp_supply: (old(self).lp_supply - amount) as u64,
                user_lp: (old(self).user_lp - amount) as u64,
                ..*old(self)
            }),
    {
        burn(&mut self.lp_supply, &mut self.user_lp, amount)
    }
}

/// The same balances, seen by a withdrawal.
pub open spec fn withdraw_view(d: Deposit) -> Withdraw {
    Withdraw {
        config: d.config,
        vault_x: d.vault_x,
        vault_y: d.vault_y,
        lp_supply: d.lp_supply,
        user_x: d.user_x,
        user_y: d.user_y,
        user_lp: d.user_lp,
    }
}

/// Burning the shares that a deposit just minted pays back exactly what the
/// deposit took, never more.
pub proof fn lemma_deposit_then_withdraw_pays_back(d: Deposit, shares: u64, max_x: u64, max_y: u64)
    requires
        d.deposit_result(shares, max_x, max_y) is Ok,
    ensures
        ({
            let a = d.deposit_result(shares, max_x, max_y)->Ok_0;
            let w = withdraw_view(d.after_deposit(a, shares));
            &&& w.amounts_for(shares) == a
            &&& w.withdraw_result(shares, 0, 0) == Ok::<XYAmounts, AmmError>(a)
        }),
{
    let a = d.deposit_result(shares, max_x, max_y)->Ok_0;
    if d.is_empty() {
        lemma_bootstrap_then_withdraw(max_x as int, shares as int);
        lemma_bootstrap_then_withdraw(max_y as int, shares as int);
    } else {
        lemma_deposit_then_withdraw(d.vault_x as int, d.lp_supply as int, shares as int);
        lemma_deposit_then_withdraw(d.vault_y as int, d.lp_supply as int, shares as int);
    }
}

/// Asking to burn more shares than the caller holds fails at the ledger's
/// burn, not in the curve math: with the pool unlocked, the request within
/// the supply and the bounds met, the sizing and both transfers go through
/// and the burn refuses, so nothing moves.
pub proof fn lemma_withdraw_beyond_holding(w: Withdraw, shares: u64, min_x: u64, min_y: u64)
    requires
        w.wf(),
        w.user_lp < shares <= w.lp_supply,
        !w.config.locked,
        min_x <= w.amounts_for(shares).x,
        min_y <= w.amounts_for(shares).y,
    ensures
        w.withdraw_result(shares, min_x, min_y) == Err::<XYAmounts, AmmError>(AmmError::BurnFailed),
{
    lemma_share_within_reserve(shares as int, w.vault_x as int, w.lp_supply as int);
    lemma_share_within_reserve(shares as int, w.vault_y as int, w.lp_supply as int);
}

} // verus!
