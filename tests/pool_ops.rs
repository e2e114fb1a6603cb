use amm::{
    u64_le_bytes, AmmError, Config, ConstantProduct, LiquidityPair, MPLXCoreError, Swap, SwapResult,
    Withdraw, XYAmounts, ERROR_CODE_OFFSET, PRECISION,
};

fn config(fee: u16) -> Config {
    Config {
        seed: 42,
        mint_x: [1u8; 32],
        mint_y: [2u8; 32],
        fee,
        locked: false,
        config_bump: 255,
        lp_bump: 254,
    }
}

fn swap_ctx(fee: u16, vault_x: u64, vault_y: u64, user_x: u64, user_y: u64) -> Swap {
    Swap { config: config(fee), lp_supply: 1000, vault_x, vault_y, user_x, user_y }
}

fn withdraw_ctx(vault_x: u64, vault_y: u64, lp_supply: u64, user_lp: u64) -> Withdraw {
    Withdraw { config: config(30), lp_supply, vault_x, vault_y, user_x: 0, user_y: 0, user_lp }
}

fn product(s: &Swap) -> u128 {
    s.vault_x as u128 * s.vault_y as u128
}

#[test]
fn swap_example_with_thirty_bps_fee() {
    let mut s = swap_ctx(30, 1000, 1000, 500, 0);
    let r = s.swap(true, 100, 90);
    assert_eq!(r, Ok(SwapResult { deposit: 100, withdraw: 90 }));
    assert_eq!((s.vault_x, s.vault_y, s.user_x, s.user_y), (1100, 910, 400, 90));
}

#[test]
fn swap_example_fails_above_ninety() {
    let mut s = swap_ctx(30, 1000, 1000, 500, 0);
    let before = s;
    assert_eq!(s.swap(true, 100, 91), Err(AmmError::SlippageExceeded));
    assert_eq!((s.vault_x, s.vault_y, s.user_x, s.user_y), (before.vault_x, before.vault_y, before.user_x, before.user_y));
}

#[test]
fn swap_example_any_floor_up_to_ninety() {
    for min in 0..=90u64 {
        let mut s = swap_ctx(30, 1000, 1000, 500, 0);
        assert_eq!(s.swap(true, 100, min), Ok(SwapResult { deposit: 100, withdraw: 90 }));
    }
}

#[test]
fn swap_selling_y() {
    let mut s = swap_ctx(0, 2000, 1000, 0, 100);
    // 2000 * 100 / 1100 = 181.8, rounded down
    assert_eq!(s.swap(false, 100, 0), Ok(SwapResult { deposit: 100, withdraw: 181 }));
    assert_eq!((s.vault_x, s.vault_y, s.user_x, s.user_y), (1819, 1100, 181, 0));
}

#[test]
fn swap_keeps_product_on_samples() {
    let cases: [(u16, u64, u64, u64, bool); 6] = [
        (30, 1000, 1000, 100, true),
        (0, 1000, 1000, 100, true),
        (0, 7, 13, 5, false),
        (100, 123_456, 789, 10_000, true),
        (9999, 50, 50, 1_000_000, true),
        (0, 3, 1_000_000_007, 2, true),
    ];
    for (fee, vx, vy, amount, is_x) in cases {
        let mut s = swap_ctx(fee, vx, vy, 2_000_000, 2_000_000);
        let before = product(&s);
        if s.swap(is_x, amount, 0).is_ok() {
            assert!(product(&s) >= before);
            assert!(s.vault_x > 0 && s.vault_y > 0);
        }
    }
}

#[test]
fn swap_of_zero_is_invalid_and_changes_nothing() {
    let mut s = swap_ctx(30, 1000, 1000, 500, 500);
    assert_eq!(s.swap(true, 0, 0), Err(AmmError::InvalidAmount));
    assert_eq!(s.swap(false, 0, 10), Err(AmmError::InvalidAmount));
    assert_eq!((s.vault_x, s.vault_y, s.user_x, s.user_y), (1000, 1000, 500, 500));
}

#[test]
fn swap_on_locked_pool_is_refused() {
    let mut s = swap_ctx(30, 1000, 1000, 500, 500);
    s.config.lock();
    assert!(s.config.locked);
    assert_eq!(s.swap(true, 100, 0), Err(AmmError::PoolLocked));
    assert_eq!(s.swap(false, 0, 0), Err(AmmError::PoolLocked));
    s.config.unlock();
    assert_eq!(s.swap(true, 100, 0), Ok(SwapResult { deposit: 100, withdraw: 90 }));
}

#[test]
fn swap_on_empty_reserve_is_refused() {
    let mut s = swap_ctx(30, 0, 1000, 500, 500);
    assert_eq!(s.swap(true, 100, 0), Err(AmmError::NoLiquidityInPool));
}

#[test]
fn swap_beyond_balance_is_refused() {
    let mut s = swap_ctx(30, 1000, 1000, 99, 500);
    assert_eq!(s.swap(true, 100, 0), Err(AmmError::InsufficientBalance));
    assert_eq!(s.swap(false, 501, 0), Err(AmmError::InsufficientBalance));
}

#[test]
fn swap_with_fee_at_denominator_is_refused() {
    let mut s = swap_ctx(10_000, 1000, 1000, 500, 500);
    assert_eq!(s.swap(true, 100, 0), Err(AmmError::InvalidCurveState));
}

#[test]
fn swap_with_zero_output_is_invalid() {
    // 1 * 9970 / 10000 rounds to nothing
    let mut s = swap_ctx(30, 1000, 1000, 500, 500);
    assert_eq!(s.swap(true, 1, 0), Err(AmmError::InvalidAmount));
    assert_eq!(s.swap(true, 1, 1), Err(AmmError::SlippageExceeded));
}

#[test]
fn swap_overflowing_the_reserve_is_refused() {
    let half: u64 = 1 << 63;
    let mut s = swap_ctx(0, half, 1000, half, 0);
    assert_eq!(s.swap(true, half, 0), Err(AmmError::Overflow));
    assert_eq!((s.vault_x, s.vault_y, s.user_x, s.user_y), (half, 1000, half, 0));
}

#[test]
fn deposit_and_withdraw_legs() {
    let mut s = swap_ctx(30, 10, 20, 5, u64::MAX);
    assert_eq!(s.deposit_tokens(true, 6), Err(AmmError::InsufficientBalance));
    assert_eq!(s.deposit_tokens(true, 5), Ok(()));
    assert_eq!((s.vault_x, s.user_x), (15, 0));
    assert_eq!(s.withdraw_tokens(false, 21), Err(AmmError::InsufficientBalance));
    assert_eq!(s.withdraw_tokens(false, 1), Err(AmmError::Overflow));
    assert_eq!(s.withdraw_tokens(true, 15), Ok(()));
    assert_eq!((s.vault_x, s.user_x), (0, 15));
}

#[test]
fn curve_init_rejects_malformed_state() {
    assert!(ConstantProduct::init(0, 10, 5, 30, PRECISION).is_err());
    assert!(matches!(ConstantProduct::init(10, 0, 5, 30, PRECISION), Err(AmmError::InvalidCurveState)));
    assert!(matches!(ConstantProduct::init(10, 10, 5, 10_000, PRECISION), Err(AmmError::InvalidCurveState)));
    let c = ConstantProduct::init(0, 0, 0, 9_999, PRECISION).unwrap();
    assert_eq!((c.x, c.y, c.l, c.fee, c.precision), (0, 0, 0, 9_999, 6));
}

#[test]
fn curve_swap_example() {
    let c = ConstantProduct::init(1000, 1000, 1, 30, PRECISION).unwrap();
    assert_eq!(c.swap(LiquidityPair::X, 100, 90), Ok(SwapResult { deposit: 100, withdraw: 90 }));
    assert_eq!(c.swap(LiquidityPair::Y, 100, 91), Err(AmmError::SlippageExceeded));
}

#[test]
fn withdraw_example_burning_fifty_of_five_hundred() {
    let mut w = withdraw_ctx(1000, 2000, 500, 50);
    assert_eq!(w.withdraw(50, 100, 200), Ok(XYAmounts { x: 100, y: 200 }));
    assert_eq!((w.vault_x, w.vault_y, w.user_x, w.user_y), (900, 1800, 100, 200));
    assert_eq!((w.user_lp, w.lp_supply), (0, 450));
}

#[test]
fn withdraw_example_fails_above_floors() {
    let mut w = withdraw_ctx(1000, 2000, 500, 50);
    assert_eq!(w.withdraw(50, 101, 200), Err(AmmError::SlippageExceeded));
    assert_eq!(w.withdraw(50, 100, 201), Err(AmmError::SlippageExceeded));
    assert_eq!((w.vault_x, w.vault_y, w.user_lp, w.lp_supply), (1000, 2000, 50, 500));
}

#[test]
fn withdraw_rounds_down() {
    let mut w = withdraw_ctx(10, 7, 3, 1);
    assert_eq!(w.withdraw(1, 0, 0), Ok(XYAmounts { x: 3, y: 2 }));
    assert_eq!(
        ConstantProduct::withdraw_amounts_from_shares(10, 7, 3, 2),
        Ok(XYAmounts { x: 6, y: 4 })
    );
}

#[test]
fn withdraw_of_every_share_empties_the_reserves() {
    let mut w = withdraw_ctx(999, 12_345, 7, 7);
    assert_eq!(w.withdraw(7, 0, 0), Ok(XYAmounts { x: 999, y: 12_345 }));
    assert_eq!((w.vault_x, w.vault_y, w.lp_supply, w.user_lp), (0, 0, 0, 0));
    assert_eq!(
        ConstantProduct::withdraw_amounts_from_shares(u64::MAX, 1, u64::MAX, u64::MAX),
        Ok(XYAmounts { x: u64::MAX, y: 1 })
    );
}

#[test]
fn withdraw_on_locked_pool_is_refused() {
    let mut w = withdraw_ctx(1000, 2000, 500, 50);
    w.config.lock();
    assert_eq!(w.withdraw(50, 0, 0), Err(AmmError::PoolLocked));
    assert_eq!(w.withdraw(0, 0, 0), Err(AmmError::PoolLocked));
}

#[test]
fn withdraw_error_kinds() {
    assert_eq!(withdraw_ctx(1000, 2000, 500, 50).withdraw(0, 0, 0), Err(AmmError::InvalidAmount));
    assert_eq!(withdraw_ctx(1000, 2000, 500, 49).withdraw(50, 0, 0), Err(AmmError::InsufficientBalance));
    assert_eq!(withdraw_ctx(1000, 2000, 0, 50).withdraw(50, 0, 0), Err(AmmError::NoLiquidityInPool));
    assert_eq!(withdraw_ctx(0, 2000, 500, 50).withdraw(50, 0, 0), Err(AmmError::NoLiquidityInPool));
    assert_eq!(ConstantProduct::withdraw_amounts_from_shares(1, 1, 0, 1), Err(AmmError::NoLiquidityInPool));
}

#[test]
fn withdraw_past_the_supply() {
    // more shares than were issued: the payout exceeds 64 bits
    assert_eq!(withdraw_ctx(u64::MAX, 1, 1, 2).withdraw(2, 0, 0), Err(AmmError::Overflow));
    // a payout larger than the reserve
    assert_eq!(withdraw_ctx(2, 2, 2, 4).withdraw(4, 0, 0), Err(AmmError::NoLiquidityInPool));
    // a payout that fits, but a burn the supply cannot cover
    let mut w = withdraw_ctx(1, 1, 2, 3);
    assert_eq!(w.withdraw(3, 0, 0), Err(AmmError::Overflow));
    assert_eq!((w.vault_x, w.vault_y, w.user_lp, w.lp_supply), (1, 1, 3, 2));
}

#[test]
fn withdraw_and_burn_legs() {
    let mut w = withdraw_ctx(10, 10, 5, 4);
    assert_eq!(w.withdraw_tokens(true, 11), Err(AmmError::InsufficientBalance));
    assert_eq!(w.withdraw_tokens(false, 4), Ok(()));
    assert_eq!((w.vault_y, w.user_y), (6, 4));
    assert_eq!(w.burn_lp_tokens(5), Err(AmmError::InsufficientBalance));
    assert_eq!(w.burn_lp_tokens(4), Ok(()));
    assert_eq!((w.user_lp, w.lp_supply), (0, 1));
}

#[test]
fn signer_seeds_of_a_pool() {
    let mut c = config(30);
    c.seed = 0x0102_0304_0506_0708;
    c.config_bump = 253;
    let seeds = c.signer_seeds();
    assert_eq!(seeds, vec![b"config".to_vec(), vec![8, 7, 6, 5, 4, 3, 2, 1], vec![253]]);
}

#[test]
fn le_bytes_match_std() {
    for n in [0u64, 1, 255, 256, 0xdead_beef, u64::MAX, 42] {
        assert_eq!(u64_le_bytes(n), n.to_le_bytes().to_vec());
    }
}

#[test]
fn asset_error_codes_and_messages() {
    assert_eq!(ERROR_CODE_OFFSET, 6000);
    assert_eq!(MPLXCoreError::CreatorListFull.code(), 6000);
    assert_eq!(MPLXCoreError::MintFailed.code(), 6015);
    assert_eq!(MPLXCoreError::NameTooLong.message(), "Name too long.");
    assert_eq!(
        MPLXCoreError::NotAuthorized.message(),
        "The payer is not the program's upgrade authority."
    );
}
