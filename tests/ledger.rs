use blink_tipping::error::ErrorCode;
use blink_tipping::fee::{compute_fee, split_amount, FeeSplit};
use blink_tipping::initialize_creator::InitializeCreator;
use blink_tipping::initialize_platform_config::InitializePlatformConfig;
use blink_tipping::send_tip::SendTip;
use blink_tipping::state::{CreatorAccount, Currency, PlatformConfig, Principal};
use blink_tipping::withdraw_tips::WithdrawTips;
use blink_tipping::{initialize_creator, initialize_platform_config, send_tip, withdraw_tips};

fn key(b: u8) -> Principal {
    Principal::new([b; 32])
}

fn platform() -> PlatformConfig {
    initialize_platform_config(&InitializePlatformConfig { authority: key(9), platform_config_bump: 254 })
}

fn creator_record(who: Principal) -> CreatorAccount {
    initialize_creator(&InitializeCreator {
        creator: who,
        sol_vault_bump: 253,
        usdc_vault_bump: 252,
        creator_account_bump: 251,
    })
}

fn withdraw_ctx(signer: Principal, account: CreatorAccount, sol: u64, usdc: u64, cfg: PlatformConfig) -> WithdrawTips {
    WithdrawTips {
        creator: signer,
        creator_account: account,
        sol_vault_lamports: sol,
        usdc_vault_amount: usdc,
        platform_config: cfg,
    }
}

fn same_records(a: &WithdrawTips, b: &WithdrawTips) -> bool {
    a.creator_account.total_tips_sol == b.creator_account.total_tips_sol
        && a.creator_account.total_tips_usdc == b.creator_account.total_tips_usdc
        && a.creator_account.tip_count == b.creator_account.tip_count
        && a.platform_config.total_fees_collected_sol == b.platform_config.total_fees_collected_sol
        && a.platform_config.total_fees_collected_usdc == b.platform_config.total_fees_collected_usdc
}

#[test]
fn new_records_start_empty() {
    let cfg = platform();
    assert_eq!(cfg.fee_basis_points, 25);
    assert_eq!(cfg.total_fees_collected_sol, 0);
    assert_eq!(cfg.total_fees_collected_usdc, 0);
    assert!(cfg.authority.same_as(&key(9)));
    assert_eq!(cfg.bump, 254);
    let acc = creator_record(key(1));
    assert!(acc.creator.same_as(&key(1)));
    assert_eq!(acc.total_tips_sol, 0);
    assert_eq!(acc.total_tips_usdc, 0);
    assert_eq!(acc.tip_count, 0);
    assert_eq!((acc.sol_vault_bump, acc.usdc_vault_bump, acc.bump), (253, 252, 251));
}

#[test]
fn principal_comparison() {
    let mut other = [7u8; 32];
    assert!(key(7).same_as(&Principal::new(other)));
    other[31] = 8;
    assert!(!key(7).same_as(&Principal::new(other)));
}

#[test]
fn deposit_then_full_withdrawal() {
    let cfg = platform();
    let mut tip = SendTip { creator_account: creator_record(key(1)) };
    assert_eq!(send_tip(&mut tip, 1_000_000, Currency::SOL), Ok(()));
    assert_eq!(tip.creator_account.total_tips_sol, 1_000_000);
    assert_eq!(tip.creator_account.total_tips_usdc, 0);
    assert_eq!(tip.creator_account.tip_count, 1);

    let mut w = withdraw_ctx(key(1), tip.creator_account, 1_000_000, 0, cfg);
    let split = withdraw_tips(&mut w, 1_000_000, Currency::SOL);
    assert_eq!(split, Ok(FeeSplit { fee: 2_500, creator_amount: 997_500 }));
    assert_eq!(w.platform_config.total_fees_collected_sol, 2_500);
    assert_eq!(w.platform_config.total_fees_collected_usdc, 0);
    assert_eq!(w.creator_account.total_tips_sol, 0);
    assert_eq!(w.creator_account.tip_count, 1);
}

#[test]
fn withdraw_from_empty_record_is_insufficient() {
    let mut w = withdraw_ctx(key(1), creator_record(key(1)), 0, 0, platform());
    let before = w;
    assert_eq!(withdraw_tips(&mut w, 1, Currency::SOL), Err(ErrorCode::InsufficientBalance));
    assert!(same_records(&w, &before));
}

#[test]
fn withdraw_by_other_identity_is_unauthorized() {
    let mut tip = SendTip { creator_account: creator_record(key(1)) };
    send_tip(&mut tip, 500, Currency::USDC).unwrap();
    for amount in [0u64, 1, 500, 501, u64::MAX] {
        let mut w = withdraw_ctx(key(2), tip.creator_account, 500, 500, platform());
        let before = w;
        assert_eq!(withdraw_tips(&mut w, amount, Currency::USDC), Err(ErrorCode::Unauthorized));
        assert!(same_records(&w, &before));
    }
}

#[test]
fn withdraw_beyond_vault_is_insufficient() {
    let mut tip = SendTip { creator_account: creator_record(key(1)) };
    send_tip(&mut tip, 1_000, Currency::USDC).unwrap();
    let mut w = withdraw_ctx(key(1), tip.creator_account, 0, 999, platform());
    let before = w;
    assert_eq!(withdraw_tips(&mut w, 1_000, Currency::USDC), Err(ErrorCode::InsufficientBalance));
    assert!(same_records(&w, &before));
    assert_eq!(
        withdraw_tips(&mut w, 999, Currency::USDC),
        Ok(FeeSplit { fee: 2, creator_amount: 997 })
    );
    assert_eq!(w.creator_account.total_tips_usdc, 1);
    assert_eq!(w.platform_config.total_fees_collected_usdc, 2);
}

#[test]
fn withdraw_zero_pays_nothing() {
    let mut w = withdraw_ctx(key(1), creator_record(key(1)), 0, 0, platform());
    assert_eq!(withdraw_tips(&mut w, 0, Currency::SOL), Ok(FeeSplit { fee: 0, creator_amount: 0 }));
    assert_eq!(w.creator_account.total_tips_sol, 0);
    assert_eq!(w.platform_config.total_fees_collected_sol, 0);
}

#[test]
fn withdraw_with_overflowing_fee_product() {
    let mut acc = creator_record(key(1));
    acc.total_tips_sol = u64::MAX;
    let mut w = withdraw_ctx(key(1), acc, u64::MAX, 0, platform());
    let before = w;
    assert_eq!(withdraw_tips(&mut w, u64::MAX, Currency::SOL), Err(ErrorCode::ArithmeticOverflow));
    assert!(same_records(&w, &before));
}

#[test]
fn withdraw_with_overflowing_fee_total() {
    let mut cfg = platform();
    cfg.total_fees_collected_usdc = u64::MAX - 1;
    let mut tip = SendTip { creator_account: creator_record(key(1)) };
    send_tip(&mut tip, 10_000, Currency::USDC).unwrap();
    let mut w = withdraw_ctx(key(1), tip.creator_account, 0, 10_000, cfg);
    let before = w;
    assert_eq!(withdraw_tips(&mut w, 10_000, Currency::USDC), Err(ErrorCode::ArithmeticOverflow));
    assert!(same_records(&w, &before));
    assert_eq!(withdraw_tips(&mut w, 400, Currency::USDC), Ok(FeeSplit { fee: 1, creator_amount: 399 }));
    assert_eq!(w.platform_config.total_fees_collected_usdc, u64::MAX);
}

#[test]
fn deposit_past_u64_max_overflows() {
    let mut tip = SendTip { creator_account: creator_record(key(1)) };
    send_tip(&mut tip, u64::MAX - 10, Currency::SOL).unwrap();
    let before = tip;
    assert_eq!(send_tip(&mut tip, 11, Currency::SOL), Err(ErrorCode::ArithmeticOverflow));
    assert_eq!(tip.creator_account.total_tips_sol, before.creator_account.total_tips_sol);
    assert_eq!(tip.creator_account.tip_count, 1);
    assert_eq!(send_tip(&mut tip, 10, Currency::SOL), Ok(()));
    assert_eq!(tip.creator_account.total_tips_sol, u64::MAX);
    assert_eq!(tip.creator_account.tip_count, 2);
}

#[test]
fn tip_count_overflow_refused() {
    let mut acc = creator_record(key(1));
    acc.tip_count = u64::MAX;
    let mut tip = SendTip { creator_account: acc };
    assert_eq!(send_tip(&mut tip, 5, Currency::USDC), Err(ErrorCode::ArithmeticOverflow));
    assert_eq!(tip.creator_account.total_tips_usdc, 0);
    assert_eq!(tip.creator_account.tip_count, u64::MAX);
}

#[test]
fn tip_count_moves_only_on_deposits() {
    let mut tip = SendTip { creator_account: creator_record(key(3)) };
    send_tip(&mut tip, 0, Currency::SOL).unwrap();
    assert_eq!(tip.creator_account.tip_count, 1);
    send_tip(&mut tip, 40_000, Currency::USDC).unwrap();
    assert_eq!(tip.creator_account.tip_count, 2);
    let mut w = withdraw_ctx(key(3), tip.creator_account, 0, 40_000, platform());
    withdraw_tips(&mut w, 40_000, Currency::USDC).unwrap();
    assert_eq!(w.creator_account.tip_count, 2);
    let _ = withdraw_tips(&mut w, 1, Currency::USDC);
    assert_eq!(w.creator_account.tip_count, 2);
}

#[test]
fn fee_formula_values() {
    assert_eq!(compute_fee(1_000_000, 25), Ok(2_500));
    assert_eq!(compute_fee(399, 25), Ok(0));
    assert_eq!(compute_fee(400, 25), Ok(1));
    assert_eq!(compute_fee(12_345, 10_000), Ok(12_345));
    assert_eq!(compute_fee(u64::MAX, 1), Ok(u64::MAX / 10_000));
    assert_eq!(compute_fee(u64::MAX, 2), Err(ErrorCode::ArithmeticOverflow));
}

#[test]
fn split_adds_up_to_amount() {
    for amount in [0u64, 1, 399, 400, 401, 7_777, 1_000_000, u64::MAX / 25] {
        let s = split_amount(amount, 25).unwrap();
        assert_eq!(s.fee + s.creator_amount, amount);
        assert_eq!(s.fee, amount / 400);
    }
    assert_eq!(split_amount(100, 0), Ok(FeeSplit { fee: 0, creator_amount: 100 }));
    assert_eq!(split_amount(100, 10_000), Ok(FeeSplit { fee: 100, creator_amount: 0 }));
    assert_eq!(split_amount(100, 20_000), Err(ErrorCode::ArithmeticOverflow));
}

#[test]
fn vaults_cover_totals_over_a_sequence() {
    let mut cfg = platform();
    let mut acc = creator_record(key(5));
    let mut sol_vault: u64 = 0;
    let mut usdc_vault: u64 = 0;
    let mut seed: u64 = 12345;
    for step in 0..200u64 {
        seed = seed.wrapping_mul(6364136223846793005).wrapping_add(1442695040888963407);
        let currency = if (seed >> 33) % 2 == 0 { Currency::SOL } else { Currency::USDC };
        let amount = (seed >> 40) % 50_000;
        if step % 3 != 2 {
            let mut tip = SendTip { creator_account: acc };
            if send_tip(&mut tip, amount, currency).is_ok() {
                match currency {
                    Currency::SOL => sol_vault += amount,
                    Currency::USDC => usdc_vault += amount,
                }
            }
            acc = tip.creator_account;
        } else {
            let mut w = withdraw_ctx(key(5), acc, sol_vault, usdc_vault, cfg);
            if let Ok(split) = withdraw_tips(&mut w, amount, currency) {
                assert_eq!(split.fee + split.creator_amount, amount);
                match currency {
                    Currency::SOL => sol_vault -= split.fee + split.creator_amount,
                    Currency::USDC => usdc_vault -= split.fee + split.creator_amount,
                }
            }
            acc = w.creator_account;
            cfg = w.platform_config;
        }
        assert!(acc.total_tips_sol <= sol_vault);
        assert!(acc.total_tips_usdc <= usdc_vault);
    }
}

#[test]
fn currency_totals_kept_apart() {
    let mut tip = SendTip { creator_account: creator_record(key(1)) };
    send_tip(&mut tip, 300, Currency::SOL).unwrap();
    send_tip(&mut tip, 700, Currency::USDC).unwrap();
    assert_eq!(tip.creator_account.total_tips(Currency::SOL), 300);
    assert_eq!(tip.creator_account.total_tips(Currency::USDC), 700);
    let mut w = withdraw_ctx(key(1), tip.creator_account, 300, 700, platform());
    assert_eq!(w.vault_balance(Currency::USDC), 700);
    withdraw_tips(&mut w, 700, Currency::USDC).unwrap();
    assert_eq!(w.creator_account.total_tips_sol, 300);
    assert_eq!(w.creator_account.total_tips_usdc, 0);
    assert_eq!(w.platform_config.fees_collected(Currency::USDC), 1);
    assert_eq!(w.platform_config.fees_collected(Currency::SOL), 0);
}
