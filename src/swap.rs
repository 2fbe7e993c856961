//! Trading one reserve asset for the other along the constant-product curve.
use vstd::prelude::*;
use crate::curve::{
    lemma_reserve_out_after_bounds,
    lemma_swap_keeps_product,
    lemma_effective_input_bounds,
    swap_out,
    swap_output,
};
use crate::error::AmmError;
use crate::ledger::{can_transfer, transfer};
use crate::state::Config;

verus! {

/// What a swap reads and moves: the pool record, its two vaults, and the
/// trader's balances of both assets.
#[derive(Debug, Clone, Copy)]
pub struct Swap {
    pub config: Config,
    pub vault_x: u64,
    pub vault_y: u64,
    pub user_x: u64,
    pub user_y: u64,
}

impl Swap {
    /// Balances that a token ledger can hold: each asset's two balances fit
    /// its total range.
    pub open spec fn wf(&self) -> bool {
        &&& self.config.wf()
        &&& self.user_x + self.vault_x <= u64::MAX
        &&& self.user_y + self.vault_y <= u64::MAX
    }

    /// The reserve that the trade pays into.
    pub open spec fn reserve_in(&self, is_x: bool) -> u64 {
        if is_x { self.vault_x } else { self.vault_y }
    }

    /// The reserve that the trade pays out of.
    pub open spec fn reserve_out(&self, is_x: bool) -> u64 {
        if is_x { self.vault_y } else { self.vault_x }
    }

    /// The trader's balance of the asset paid in.
    pub open spec fn user_in(&self, is_x: bool) -> u64 {
        if is_x { self.user_x } else { self.user_y }
    }

    /// The trader's balance of the asset paid out.
    pub open spec fn user_out(&self, is_x: bool) -> u64 {
        if is_x { self.user_y } else { self.user_x }
    }

    /// What the curve pays for `amount` of the input asset.
    pub open spec fn output_for(&self, is_x: bool, amount: u64) -> u64 {
        swap_out(
            self.reserve_in(is_x) as int,
            self.reserve_out(is_x) as int,
            amount as int,
            self.config.fee as int,
        ) as u64
    }

    /// The outcome of trading `amount` of X (or Y) for at least `min` of the other.
    pub open spec fn swap_result(&self, is_x: bool, amount: u64, min: u64) -> Result<u64, AmmError> {
        let out = self.output_for(is_x, amount);
        if self.config.locked {
            Err(AmmError::PoolLocked)
        } else if amount == 0 {
            Err(AmmError::InvalidAmount)
        } else if self.config.fee > 10000 {
            Err(AmmError::InvalidFee)
        } else if self.reserve_in(is_x) == 0 || self.reserve_out(is_x) == 0 {
            Err(AmmError::EmptyReserve)
        } else if out < min {
            Err(AmmError::SlippageExceeded)
        } else if !can_transfer(self.user_in(is_x), self.reserve_in(is_x), amount) || !can_transfer(
            self.reserve_out(is_x),
            self.user_out(is_x),
            out,
        ) {
            Err(AmmError::TransferFailed)
        } else {
            Ok(out)
        }
    }

    /// The balances after `amount` went in and `out` came out.
    pub open spec fn after_swap(&self, is_x: bool, amount: u64, out: u64) -> Swap {
        if is_x {
            Swap {
                vault_x: (self.vault_x + amount) as u64,
                vault_y: (self.vault_y - out) as u64,
                user_x: (self.user_x - amount) as u64,
                user_y: (self.user_y + out) as u64,
                ..*self
            }
        } else {
            Swap {
                vault_y: (self.vault_y + amount) as u64,
                vault_x: (self.vault_x - out) as u64,
                user_y: (self.user_y - amount) as u64,
                user_x: (self.user_x + out) as u64,
                ..*self
            }
        }
    }

    /// Trades `amount` of X (or of Y when `is_x` is false) for at least `min`
    /// of the other asset; returns what was paid out. On any error nothing
    /// has moved.
    pub fn swap(&mut self, is_x: bool, amount: u64, min: u64) -> (r: Result<u64, AmmError>)
        ensures
            r == old(self).swap_result(is_x, amount, min),
            r is Ok ==> *final(self) == old(self).after_swap(is_x, amount, r->Ok_0),
            r is Ok ==> r->Ok_0 < old(self).reserve_out(is_x),
            r is Err ==> *final(self) == *old(self),
            old(self).wf() ==> final(self).wf(),
    {
        if self.config.locked {
            return Err(AmmError::PoolLocked);
        }
        let (reserve_in, reserve_out) = if is_x {
            (self.vault_x, self.vault_y)
        } else {
            (self.vault_y, self.vault_x)
        };
        let out = swap_output(reserve_in, reserve_out, amount, self.config.fee)?;
        if out < min {
            return Err(AmmError::SlippageExceeded);
        }
        let mut next = *self;
        if is_x {
            transfer(&mut next.user_x, &mut next.vault_x, amount)?;
            transfer(&mut next.vault_y, &mut next.user_y, out)?;
        } else {
            transfer(&mut next.user_y, &mut next.vault_y, amount)?;
            transfer(&mut next.vault_x, &mut next.user_x, out)?;
        }
        *self = next;
        Ok(out)
    }
}

/// A successful trade never lowers the product of the two vaults.
pub proof fn lemma_swap_product_never_falls(s: Swap, is_x: bool, amount: u64, min: u64)
    requires
        s.swap_result(is_x, amount, min) is Ok,
    ensures
        ({
            let t = s.after_swap(is_x, amount, s.swap_result(is_x, amount, min)->Ok_0);
            t.vault_x * t.vault_y >= s.vault_x * s.vault_y
        }),
{
    let rin = s.reserve_in(is_x) as int;
    let rout = s.reserve_out(is_x) as int;
    lemma_effective_input_bounds(amount as int, s.config.fee as int);
    lemma_reserve_out_after_bounds(rin, rout, amount as int, s.config.fee as int);
    lemma_swap_keeps_product(rin, rout, amount as int, s.config.fee as int);
    let out = s.output_for(is_x, amount) as int;
    assert(rin * rout == rout * rin) by (nonlinear_arith);
    assert((rin + amount) * (rout - out) == (rout - out) * (rin + amount)) by (nonlinear_arith);
}

} // verus!
