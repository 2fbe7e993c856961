//! Adding liquidity: both reserve assets in, new shares out.
use vstd::prelude::*;
use crate::curve::{deposit_amounts_for_shares, lemma_deposit_price_neutral, share_of, shares_fit, XYAmounts};
use crate::error::AmmError;
use crate::ledger::{can_mint, can_transfer, mint, transfer};
use crate::state::Config;

verus! {

/// What a deposit reads and moves: the pool record, its two vaults and share
/// supply, and the depositor's balances of both assets and of shares.
#[derive(Debug, Clone, Copy)]
pub struct Deposit {
    pub config: Config,
    pub vault_x: u64,
    pub vault_y: u64,
    pub lp_supply: u64,
    pub user_x: u64,
    pub user_y: u64,
    pub user_lp: u64,
}

impl Deposit {
    /// Balances that a token ledger can hold: the holder's shares are part
    /// of the supply, and each asset's two balances fit its total range.
    pub open spec fn wf(&self) -> bool {
        &&& self.config.wf()
        &&& self.user_lp <= self.lp_supply
        &&& self.user_x + self.vault_x <= u64::MAX
        &&& self.user_y + self.vault_y <= u64::MAX
    }

    /// No shares and no reserves: the next deposit sets the price.
    pub open spec fn is_empty(&self) -> bool {
        self.lp_supply == 0 && self.vault_x == 0 && self.vault_y == 0
    }

    /// The amounts that minting `shares` costs, where the curve can size them.
    pub open spec fn amounts_for(&self, shares: u64, max_x: u64, max_y: u64) -> XYAmounts {
        if self.is_empty() {
            XYAmounts { x: max_x, y: max_y }
        } else {
            XYAmounts {
                x: share_of(shares as int, self.vault_x as int, self.lp_supply as int) as u64,
                y: share_of(shares as int, self.vault_y as int, self.lp_supply as int) as u64,
            }
        }
    }

    /// The outcome of depositing for `shares` new shares within `(max_x, max_y)`.
    pub open spec fn deposit_result(&self, shares: u64, max_x: u64, max_y: u64) -> Result<XYAmounts, AmmError> {
        let a = self.amounts_for(shares, max_x, max_y);
        if self.config.locked {
            Err(AmmError::PoolLocked)
        } else if shares == 0 {
            Err(AmmError::InvalidAmount)
        } else if !self.is_empty() && self.lp_supply == 0 {
            Err(AmmError::InvalidComputation)
        } else if !self.is_empty() && !shares_fit(
            self.vault_x as int,
            self.vault_y as int,
            self.lp_supply as int,
            shares as int,
        ) {
            Err(AmmError::ArithmeticOverflow)
        } else if a.x > max_x || a.y > max_y {
            Err(AmmError::SlippageExceeded)
        } else if !can_transfer(self.user_x, self.vault_x, a.x) || !can_transfer(
            self.user_y,
            self.vault_y,
            a.y,
        ) {
            Err(AmmError::TransferFailed)
        } else if !can_mint(self.lp_supply, self.user_lp, shares) {
            Err(AmmError::MintFailed)
        } else {
            Ok(a)
        }
    }

    /// The balances after `a` went into the vaults and `shares` were minted.
    pub open spec fn after_deposit(&self, a: XYAmounts, shares: u64) -> Deposit {
        Deposit {
            vault_x: (self.vault_x + a.x) as u64,
            vault_y: (self.vault_y + a.y) as u64,
            lp_supply: (self.lp_supply + shares) as u64,
            user_x: (self.user_x - a.x) as u64,
            user_y: (self.user_y - a.y) as u64,
            user_lp: (self.user_lp + shares) as u64,
            ..*self
        }
    }

    /// Deposits for `amount` new shares, paying at most `max_x` and `max_y`;
    /// returns what was paid. On any error nothing has moved.
    pub fn deposit(&mut self, amount: u64, max_x: u64, max_y: u64) -> (r: Result<XYAmounts, AmmError>)
        ensures
            r == old(self).deposit_result(amount, max_x, max_y),
            r is Ok ==> *final(self) == old(self).after_deposit(r->Ok_0, amount),
            r is Err ==> *final(self) == *old(self),
            old(self).wf() ==> final(self).wf(),
    {
        if self.config.locked {
            return Err(AmmError::PoolLocked);
        }
        if amount == 0 {
            return Err(AmmError::InvalidAmount);
        }
        let a = if self.lp_supply == 0 && self.vault_x == 0 && self.vault_y == 0 {
            XYAmounts { x: max_x, y: max_y }
        } else {
            deposit_amounts_for_shares(self.vault_x, self.vault_y, self.lp_supply, amount)?
        };
        if a.x > max_x || a.y > max_y {
            return Err(AmmError::SlippageExceeded);
        }
        let mut next = *self;
        next.deposit_tokens(true, a.x)?;
        next.deposit_tokens(false, a.y)?;
        next.mint_lp_tokens(amount)?;
        *self = next;
        Ok(a)
    }

    /// Moves `amount` of asset X (or Y) from the depositor to its vault.
    pub fn deposit_tokens(&mut self, is_x: bool, amount: u64) -> (r: Result<(), AmmError>)
        ensures
            is_x ==> (r is Ok <==> can_transfer(old(self).user_x, old(self).vault_x, amount)),
            !is_x ==> (r is Ok <==> can_transfer(old(self).user_y, old(self).vault_y, amount)),
            r is Err ==> r->Err_0 == AmmError::TransferFailed && *final(self) == *old(self),
            r is Ok && is_x ==> *final(self) == (Deposit {
                user_x: (old(self).user_x - amount) as u64,
                vault_x: (old(self).vault_x + amount) as u64,
                ..*old(self)
            }),
            r is Ok && !is_x ==> *final(self) == (Deposit {
                user_y: (old(self).user_y - amount) as u64,
                vault_y: (old(self).vault_y + amount) as u64,
                ..*old(self)
            }),
    {
        if is_x {
            transfer(&mut self.user_x, &mut self.vault_x, amount)
        } else {
            transfer(&mut self.user_y, &mut self.vault_y, amount)
        }
    }

    /// Mints `amount` new shares to the depositor.
    pub fn mint_lp_tokens(&mut self, amount: u64) -> (r: Result<(), AmmError>)
        ensures
            r is Ok <==> can_mint(old(self).lp_supply, old(self).user_lp, amount),
            r is Err ==> r->Err_0 == AmmError::MintFailed && *final(self) == *old(self),
            r is Ok ==> *final(self) == (Deposit {
                lp_supply: (old(self).lp_supply + amount) as u64,
                user_lp: (old(self).user_lp + amount) as u64,
                ..*old(self)
            }),
    {
        mint(&mut self.lp_supply, &mut self.user_lp, amount)
    }
}

/// A deposit into a pool that already has shares keeps the reserve per
/// share of each asset: it does not rise, and falls by less than one unit of
/// reserve per unit of the old supply.
pub proof fn lemma_deposit_keeps_price(d: Deposit, shares: u64, max_x: u64, max_y: u64)
    requires
        d.deposit_result(shares, max_x, max_y) is Ok,
        !d.is_empty(),
    ensures
        ({
            let t = d.after_deposit(d.deposit_result(shares, max_x, max_y)->Ok_0, shares);
            &&& t.vault_x * d.lp_supply <= d.vault_x * t.lp_supply
            &&& d.vault_x * t.lp_supply < (t.vault_x + 1) * d.lp_supply
            &&& t.vault_y * d.lp_supply <= d.vault_y * t.lp_supply
            &&& d.vault_y * t.lp_supply < (t.vault_y + 1) * d.lp_supply
        }),
{
    lemma_deposit_price_neutral(d.vault_x as int, d.lp_supply as int, shares as int);
    lemma_deposit_price_neutral(d.vault_y as int, d.lp_supply as int, shares as int);
}

/// The first deposit into an empty pool takes exactly the amounts offered
/// and mints exactly the shares asked for, when the depositor holds them.
pub proof fn lemma_bootstrap_deposit(d: Deposit, shares: u64, max_x: u64, max_y: u64)
    requires
        d.wf(),
        d.is_empty(),
        !d.config.locked,
        shares > 0,
        max_x <= d.user_x,
        max_y <= d.user_y,
    ensures
        d.deposit_result(shares, max_x, max_y) == Ok::<XYAmounts, AmmError>(
            (XYAmounts { x: max_x, y: max_y }),
        ),
        ({
            let t = d.after_deposit(XYAmounts { x: max_x, y: max_y }, shares);
            &&& t.vault_x == max_x
            &&& t.vault_y == max_y
            &&& t.lp_supply == shares
            &&& t.user_lp == d.user_lp + shares
        }),
{
}

/// The balances after the deposit requests `(shares, max_x, max_y)` in
/// `reqs` ran one after another; a refused request leaves them as they were.
pub open spec fn deposit_run(d: Deposit, reqs: Seq<(u64, u64, u64)>) -> Deposit
    decreases reqs.len(),
{
    if reqs.len() == 0 {
        d
    } else {
        let prev = deposit_run(d, reqs.drop_last());
        let (shares, max_x, max_y) = reqs.last();
        match prev.deposit_result(shares, max_x, max_y) {
            Ok(a) => prev.after_deposit(a, shares),
            Err(_) => prev,
        }
    }
}

/// After any sequence of deposits into a pool that already holds something,
/// the reserve per share of each asset is at most what it was; each single
/// deposit lowers it by less than one unit per unit of supply.
pub proof fn lemma_deposit_run_keeps_price(d: Deposit, reqs: Seq<(u64, u64, u64)>)
    requires
        !d.is_empty(),
    ensures
        ({
            let t = deposit_run(d, reqs);
            &&& !t.is_empty()
            &&& t.lp_supply >= d.lp_supply
            &&& t.vault_x * d.lp_supply <= d.vault_x * t.lp_supply
            &&& t.vault_y * d.lp_supply <= d.vault_y * t.lp_supply
        }),
    decreases reqs.len(),
{
    if reqs.len() > 0 {
        let prev = deposit_run(d, reqs.drop_last());
        lemma_deposit_run_keeps_price(d, reqs.drop_last());
        let (shares, max_x, max_y) = reqs.last();
        let t = deposit_run(d, reqs);
        if prev.deposit_result(shares, max_x, max_y) is Ok {
            lemma_deposit_keeps_price(prev, shares, max_x, max_y);
            let (l0, l1, l2) = (d.lp_supply as int, prev.lp_supply as int, t.lp_supply as int);
            assert(t.vault_x * l0 <= d.vault_x * l2) by (nonlinear_arith)
                requires
                    l1 > 0,
                    l0 >= 0,
                    l2 >= 0,
                    t.vault_x * l1 <= prev.vault_x * l2,
                    prev.vault_x * l0 <= d.vault_x * l1,
            ;
            assert(t.vault_y * l0 <= d.vault_y * l2) by (nonlinear_arith)
                requires
                    l1 > 0,
                    l0 >= 0,
                    l2 >= 0,
                    t.vault_y * l1 <= prev.vault_y * l2,
                    prev.vault_y * l0 <= d.vault_y * l1,
            ;
        }
    }
}

/// Over any run of `n` deposit requests into a pool with shares, the reserve
/// per share of each asset never rises and falls by less than `n` units per
/// unit of the starting supply.
pub proof fn lemma_deposit_run_drift(d: Deposit, reqs: Seq<(u64, u64, u64)>)
    requires
        d.lp_supply > 0,
    ensures
        ({
            let t = deposit_run(d, reqs);
            &&& t.vault_x * d.lp_supply <= d.vault_x * t.lp_supply
            &&& t.vault_y * d.lp_supply <= d.vault_y * t.lp_supply
            &&& d.vault_x * t.lp_supply <= t.vault_x * d.lp_supply + reqs.len() * t.lp_supply
            &&& d.vault_y * t.lp_supply <= t.vault_y * d.lp_supply + reqs.len() * t.lp_supply
            &&& reqs.len() > 0 ==> d.vault_x * t.lp_supply < t.vault_x * d.lp_supply + reqs.len()
                * t.lp_supply
            &&& reqs.len() > 0 ==> d.vault_y * t.lp_supply < t.vault_y * d.lp_supply + reqs.len()
                * t.lp_supply
        }),
    decreases reqs.len(),
{
    lemma_deposit_run_keeps_price(d, reqs);
    if reqs.len() > 0 {
        let prev = deposit_run(d, reqs.drop_last());
        lemma_deposit_run_keeps_price(d, reqs.drop_last());
        lemma_deposit_run_drift(d, reqs.drop_last());
        let (shares, max_x, max_y) = reqs.last();
        let t = deposit_run(d, reqs);
        let n = reqs.len() as int;
        let (l0, lp, lt) = (d.lp_supply as int, prev.lp_supply as int, t.lp_supply as int);
        if prev.deposit_result(shares, max_x, max_y) is Ok {
            lemma_deposit_keeps_price(prev, shares, max_x, max_y);
            lemma_drift_step(d.vault_x as int, prev.vault_x as int, t.vault_x as int, l0, lp, lt, n);
            lemma_drift_step(d.vault_y as int, prev.vault_y as int, t.vault_y as int, l0, lp, lt, n);
        } else {
            assert(d.vault_x * lt < t.vault_x * l0 + n * lt) by (nonlinear_arith)
                requires
                    d.vault_x * lt <= t.vault_x * l0 + (n - 1) * lt,
                    lt > 0,
            ;
            assert(d.vault_y * lt < t.vault_y * l0 + n * lt) by (nonlinear_arith)
                requires
                    d.vault_y * lt <= t.vault_y * l0 + (n - 1) * lt,
                    lt > 0,
            ;
        }
    }
}

proof fn lemma_drift_step(x0: int, xp: int, xt: int, l0: int, lp: int, lt: int, n: int)
    requires
        0 < l0 <= lp <= lt,
        x0 * lp <= xp * l0 + (n - 1) * lp,
        xp * lt < (xt + 1) * lp,
    ensures
        x0 * lt < xt * l0 + n * lt,
{
    assert(x0 * lp * lt <= xp * l0 * lt + (n - 1) * lp * lt) by (nonlinear_arith)
        requires
            x0 * lp <= xp * l0 + (n - 1) * lp,
            lt > 0,
    ;
    assert(xp * lt * l0 < xt * lp * l0 + lp * l0) by (nonlinear_arith)
        requires
            xp * lt < (xt + 1) * lp,
            l0 > 0,
    ;
    assert(lp * l0 <= lp * lt) by (nonlinear_arith)
        requires
            0 < l0 <= lt,
            lp > 0,
    ;
    assert(x0 * lt * lp < (xt * l0 + n * lt) * lp) by (nonlinear_arith)
        requires
            x0 * lp * lt <= xp * l0 * lt + (n - 1) * lp * lt,
            xp * lt * l0 < xt * lp * l0 + lp * l0,
            lp * l0 <= lp * lt,
    ;
    assert(x0 * lt < xt * l0 + n * lt) by (nonlinear_arith)
        requires
            x0 * lt * lp < (xt * l0 + n * lt) * lp,
            lp > 0,
    ;
}

} // verus!
