use amm::curve::{
    deposit_amounts_for_shares, swap_output, withdraw_amounts_for_shares, XYAmounts,
};
use amm::deposit::Deposit;
use amm::error::AmmError;
use amm::program;
use amm::state::{Config, Initialize, InitializeBumps, Pubkey, Update};
use amm::swap::Swap;
use amm::withdraw::Withdraw;

fn key(b: u8) -> Pubkey {
    Pubkey::new([b; 32])
}

fn config(fee: u16, authority: Option<Pubkey>) -> Config {
    Config::create(7, fee, authority, key(1), key(2), 254, 253).unwrap()
}

fn empty_deposit(user_x: u64, user_y: u64) -> Deposit {
    Deposit {
        config: config(30, Some(key(9))),
        vault_x: 0,
        vault_y: 0,
        lp_supply: 0,
        user_x,
        user_y,
        user_lp: 0,
    }
}

fn withdraw_of(d: &Deposit) -> Withdraw {
    Withdraw {
        config: d.config,
        vault_x: d.vault_x,
        vault_y: d.vault_y,
        lp_supply: d.lp_supply,
        user_x: d.user_x,
        user_y: d.user_y,
        user_lp: d.user_lp,
    }
}

fn pool_swap(vault_x: u64, vault_y: u64, fee: u16) -> Swap {
    Swap {
        config: config(fee, Some(key(9))),
        vault_x,
        vault_y,
        user_x: 10_000,
        user_y: 10_000,
    }
}

#[test]
fn bootstrap_then_proportional_deposit() {
    let mut d = empty_deposit(10_000, 10_000);
    let a = d.deposit(700, 1000, 2000).unwrap();
    assert_eq!(a, XYAmounts { x: 1000, y: 2000 });
    assert_eq!((d.vault_x, d.vault_y, d.lp_supply, d.user_lp), (1000, 2000, 700, 700));
    assert_eq!((d.user_x, d.user_y), (9000, 8000));

    let b = d.deposit(333, u64::MAX, u64::MAX).unwrap();
    assert_eq!(b, XYAmounts { x: 333 * 1000 / 700, y: 333 * 2000 / 700 });
    assert_eq!(b, XYAmounts { x: 475, y: 951 });
    assert_eq!((d.vault_x, d.vault_y, d.lp_supply), (1475, 2951, 1033));
}

#[test]
fn deposit_keeps_price_up_to_rounding() {
    let mut d = empty_deposit(100_000, 100_000);
    d.deposit(700, 1000, 2000).unwrap();
    for s in [333u64, 1, 999, 57] {
        let (x0, y0, l0) = (d.vault_x as u128, d.vault_y as u128, d.lp_supply as u128);
        d.deposit(s, u64::MAX, u64::MAX).unwrap();
        let (x1, y1, l1) = (d.vault_x as u128, d.vault_y as u128, d.lp_supply as u128);
        assert!(x1 * l0 <= x0 * l1 && x0 * l1 < (x1 + 1) * l0);
        assert!(y1 * l0 <= y0 * l1 && y0 * l1 < (y1 + 1) * l0);
    }
}

#[test]
fn deposit_then_withdraw_pays_back_no_more() {
    let mut d = empty_deposit(100_000, 100_000);
    d.deposit(700, 1000, 2000).unwrap();
    let before = d;
    let paid = d.deposit(333, u64::MAX, u64::MAX).unwrap();
    let mut w = withdraw_of(&d);
    let got = w.withdraw(333, 0, 0).unwrap();
    assert!(got.x <= paid.x && got.y <= paid.y);
    assert_eq!(got, paid);
    assert_eq!((w.vault_x, w.vault_y, w.lp_supply), (before.vault_x, before.vault_y, before.lp_supply));
}

#[test]
fn swap_scenario_with_fee() {
    assert_eq!(swap_output(1000, 2000, 100, 30), Ok(180));
    let mut s = pool_swap(1000, 2000, 30);
    assert_eq!(s.swap(true, 100, 180), Ok(180));
    assert_eq!((s.vault_x, s.vault_y, s.user_x, s.user_y), (1100, 1820, 9900, 10_180));
}

#[test]
fn swap_of_y_for_x() {
    let mut s = pool_swap(1000, 2000, 30);
    assert_eq!(s.swap(false, 100, 0), Ok(47));
    assert_eq!((s.vault_x, s.vault_y, s.user_x, s.user_y), (953, 2100, 10_047, 9900));
}

#[test]
fn swap_keeps_product() {
    for (a, is_x) in [(100u64, true), (1, true), (7777, false), (3, false)] {
        let mut s = pool_swap(1000, 2000, 30);
        s.user_x = 100_000;
        s.user_y = 100_000;
        let k0 = s.vault_x as u128 * s.vault_y as u128;
        s.swap(is_x, a, 0).unwrap();
        assert!(s.vault_x as u128 * s.vault_y as u128 >= k0);
    }
}

#[test]
fn swap_output_monotonic_and_below_reserve() {
    let mut last = 0u64;
    for a in [1u64, 2, 50, 100, 200, 10_000, 1 << 40, u64::MAX] {
        let out = swap_output(1000, 2000, a, 30).unwrap();
        assert!(out >= last);
        assert!(out < 2000);
        last = out;
    }
    assert_eq!(swap_output(1000, 2000, 50, 30), Ok(93));
    assert_eq!(swap_output(1000, 2000, 200, 30), Ok(331));
    assert_eq!(swap_output(1000, 2000, u64::MAX, 30), Ok(1999));
    assert_eq!(swap_output(1000, 2000, 1, 30), Ok(0));
    assert_eq!(swap_output(1000, 2000, 100, 0), Ok(181));
}

#[test]
fn swap_output_errors() {
    assert_eq!(swap_output(1000, 2000, 0, 30), Err(AmmError::InvalidAmount));
    assert_eq!(swap_output(1000, 2000, 5, 10_001), Err(AmmError::InvalidFee));
    assert_eq!(swap_output(0, 2000, 5, 10_000), Err(AmmError::EmptyReserve));
    assert_eq!(swap_output(0, 2000, 100, 30), Err(AmmError::EmptyReserve));
    assert_eq!(swap_output(1000, 0, 100, 30), Err(AmmError::EmptyReserve));
    assert_eq!(swap_output(1, 1, 1000, 30), Ok(0));
}

#[test]
fn share_math_errors() {
    assert_eq!(deposit_amounts_for_shares(10, 20, 0, 5), Err(AmmError::InvalidComputation));
    assert_eq!(withdraw_amounts_for_shares(10, 20, 0, 5), Err(AmmError::DivisionByZero));
    assert_eq!(
        deposit_amounts_for_shares(u64::MAX, 1, 1, 2),
        Err(AmmError::ArithmeticOverflow)
    );
    assert_eq!(
        withdraw_amounts_for_shares(1, u64::MAX, 1, 2),
        Err(AmmError::ArithmeticOverflow)
    );
    assert_eq!(deposit_amounts_for_shares(1000, 2000, 700, 333), Ok(XYAmounts { x: 475, y: 951 }));
    assert_eq!(withdraw_amounts_for_shares(1000, 2000, 700, 700), Ok(XYAmounts { x: 1000, y: 2000 }));
}

#[test]
fn lock_blocks_operations_and_unlock_restores() {
    let mut d = empty_deposit(10_000, 10_000);
    d.deposit(700, 1000, 2000).unwrap();
    let mut u = Update { user: key(9), config: d.config };
    u.lock().unwrap();
    assert!(u.config.locked);
    d.config = u.config;
    let frozen = d;
    assert_eq!(d.deposit(10, u64::MAX, u64::MAX), Err(AmmError::PoolLocked));
    assert_eq!((d.vault_x, d.lp_supply), (frozen.vault_x, frozen.lp_supply));
    let mut w = withdraw_of(&d);
    assert_eq!(w.withdraw(10, 0, 0), Err(AmmError::PoolLocked));
    let mut s = Swap { config: d.config, vault_x: 1000, vault_y: 2000, user_x: 10, user_y: 10 };
    assert_eq!(s.swap(true, 5, 0), Err(AmmError::PoolLocked));

    u.unlock().unwrap();
    assert!(!u.config.locked);
    d.config = u.config;
    assert_eq!(d.deposit(7, u64::MAX, u64::MAX), Ok(XYAmounts { x: 10, y: 20 }));
    s.config = u.config;
    assert!(s.swap(true, 5, 0).is_ok());
}

#[test]
fn lock_by_non_authority_is_refused() {
    let mut u = Update { user: key(3), config: config(30, Some(key(9))) };
    assert_eq!(u.lock(), Err(AmmError::Unauthorized));
    assert!(!u.config.locked);
    let mut nobody = Update { user: key(9), config: config(30, None) };
    assert_eq!(program::update_lock(&mut nobody, true), Err(AmmError::Unauthorized));
    assert!(!nobody.config.locked);
    let mut owner = Update { user: key(9), config: config(30, Some(key(9))) };
    assert_eq!(program::update_lock(&mut owner, true), Ok(()));
    assert_eq!(program::update_lock(&mut owner, true), Ok(()));
    assert!(owner.config.locked);
}

#[test]
fn withdraw_beyond_holding_fails_at_burn() {
    let mut d = empty_deposit(10_000, 10_000);
    d.deposit(700, 1000, 2000).unwrap();
    let mut w = withdraw_of(&d);
    w.user_lp = 100;
    let before = w;
    assert_eq!(w.withdraw(200, 0, 0), Err(AmmError::BurnFailed));
    assert_eq!((w.vault_x, w.vault_y, w.user_x, w.user_lp), (before.vault_x, before.vault_y, before.user_x, before.user_lp));
}

#[test]
fn operation_errors() {
    let mut d = empty_deposit(10_000, 10_000);
    assert_eq!(d.deposit(0, 1, 1), Err(AmmError::InvalidAmount));
    assert_eq!(d.deposit(10, 20_000, 1), Err(AmmError::TransferFailed));
    d.deposit(700, 1000, 2000).unwrap();
    assert_eq!(d.deposit(70, 99, 1000), Err(AmmError::SlippageExceeded));
    let mut w = withdraw_of(&d);
    assert_eq!(w.withdraw(0, 0, 0), Err(AmmError::InvalidAmount));
    assert_eq!(w.withdraw(70, 101, 0), Err(AmmError::SlippageExceeded));
    assert_eq!(w.withdraw(70, 100, 200), Ok(XYAmounts { x: 100, y: 200 }));
    let mut s = pool_swap(1000, 2000, 30);
    assert_eq!(s.swap(true, 0, 0), Err(AmmError::InvalidAmount));
    assert_eq!(s.swap(true, 100, 181), Err(AmmError::SlippageExceeded));
    assert_eq!(s.swap(true, 20_000, 0), Err(AmmError::TransferFailed));
    assert_eq!((s.vault_x, s.user_x), (1000, 10_000));

    let mut odd = empty_deposit(10, 10);
    odd.vault_x = 5;
    assert_eq!(odd.deposit(3, 10, 10), Err(AmmError::InvalidComputation));

    let mut full = empty_deposit(10, 10);
    full.vault_x = 1;
    full.vault_y = 1;
    full.lp_supply = u64::MAX;
    assert_eq!(full.deposit(1, 10, 10), Err(AmmError::MintFailed));
    assert_eq!(full.lp_supply, u64::MAX);
}

#[test]
fn initialize_and_fee_bound() {
    let blank = config(0, None);
    let mut init = Initialize { initializer: key(5), mint_x: key(1), mint_y: key(2), config: blank };
    let bumps = InitializeBumps { config: 200, mint_lp: 201 };
    assert_eq!(program::initialize(&mut init, 42, 10_001, Some(key(5)), bumps), Err(AmmError::InvalidFee));
    assert_eq!(program::initialize(&mut init, 42, 10_000, Some(key(5)), bumps), Ok(()));
    assert_eq!(init.config.seed, 42);
    assert_eq!(init.config.fee, 10_000);
    assert!(!init.config.locked);
    assert_eq!((init.config.config_bump, init.config.lp_bump), (200, 201));
    assert!(init.config.mint_x.same(&key(1)) && init.config.mint_y.same(&key(2)));
    assert!(Config::create(1, 10_001, None, key(1), key(2), 0, 0).is_err());
}

#[test]
fn principals_compare_by_bytes() {
    let mut b = [4u8; 32];
    assert!(key(4).same(&Pubkey::new(b)));
    b[31] = 5;
    assert!(!key(4).same(&Pubkey::new(b)));
    assert_eq!(AmmError::PoolLocked.message(), "this pool is locked");
}

#[test]
fn identical_assets_are_refused() {
    assert_eq!(
        Config::create(1, 30, None, key(1), key(1), 0, 0).unwrap_err(),
        AmmError::IdenticalAssets
    );
    assert_eq!(
        Config::create(1, 10_001, None, key(1), key(1), 0, 0).unwrap_err(),
        AmmError::InvalidFee
    );
    let blank = config(0, None);
    let mut init = Initialize { initializer: key(5), mint_x: key(3), mint_y: key(3), config: blank };
    let bumps = InitializeBumps { config: 200, mint_lp: 201 };
    assert_eq!(program::initialize(&mut init, 42, 30, None, bumps), Err(AmmError::IdenticalAssets));
    assert_eq!(init.config.seed, 7);
    assert_eq!(init.config.fee, 0);
}

#[test]
fn swap_never_drains_a_one_sided_pool() {
    let mut d = empty_deposit(10_000, 10_000);
    assert_eq!(d.deposit(500, 0, 2000), Ok(XYAmounts { x: 0, y: 2000 }));
    let mut s = Swap { config: d.config, vault_x: d.vault_x, vault_y: d.vault_y, user_x: 100, user_y: 0 };
    assert_eq!(s.swap(true, 100, 0), Err(AmmError::EmptyReserve));
    assert_eq!((s.vault_x, s.vault_y, s.user_x, s.user_y), (0, 2000, 100, 0));
    let mut t = pool_swap(1000, 2000, 30);
    let out = t.swap(true, 9_999, 0).unwrap();
    assert!(out < 2000);
    assert!(t.vault_y > 0);
}

#[test]
fn deposit_run_drift_stays_within_count() {
    let mut d = empty_deposit(1_000_000, 1_000_000);
    d.deposit(7, 1000, 2000).unwrap();
    let (x0, y0, l0) = (d.vault_x as u128, d.vault_y as u128, d.lp_supply as u128);
    let mut n = 0u128;
    for s in [1u64, 3, 5, 2, 11, 1, 1] {
        d.deposit(s, u64::MAX, u64::MAX).unwrap();
        n += 1;
        let (xn, yn, ln) = (d.vault_x as u128, d.vault_y as u128, d.lp_supply as u128);
        assert!(xn * l0 <= x0 * ln && x0 * ln < xn * l0 + n * ln);
        assert!(yn * l0 <= y0 * ln && y0 * ln < yn * l0 + n * ln);
    }
}
