//! Accounting core of a custodial tipping ledger.
//!
//! Creators register a record that collects tips in two currencies, held in
//! custody vaults; they later withdraw what was received, less a platform fee
//! measured in basis points. Value transfers and account storage belong to the
//! hosting ledger: the functions here decide, check and compute, and say in
//! their contracts exactly which transfers the host is to carry out.
use vstd::prelude::*;

pub mod error;
pub mod fee;
pub mod initialize_creator;
pub mod initialize_platform_config;
pub mod laws;
pub mod send_tip;
pub mod state;
pub mod withdraw_tips;

use crate::error::ErrorCode;
use crate::fee::FeeSplit;
use crate::initialize_creator::{process_initialize_creator, InitializeCreator};
use crate::initialize_platform_config::{process_initialize_platform_config, InitializePlatformConfig};
use crate::send_tip::{deposit_outcome, process_send_tip, SendTip};
use crate::state::{CreatorAccount, Currency, PlatformConfig};
use crate::withdraw_tips::{process_withdraw_tips, withdraw_outcome, withdrawn, WithdrawTips};

verus! {

/// Registers a creator: the new record, with nothing received yet.
pub fn initialize_creator(ctx: &InitializeCreator) -> (r: CreatorAccount)
    ensures
        r.creator == ctx.creator,
        r.total_tips_sol == 0,
        r.total_tips_usdc == 0,
        r.tip_count == 0,
        r.sol_vault_bump == ctx.sol_vault_bump,
        r.usdc_vault_bump == ctx.usdc_vault_bump,
        r.bump == ctx.creator_account_bump,
{
    process_initialize_creator(ctx)
}

/// Books a tip; see [`process_send_tip`].
pub fn send_tip(ctx: &mut SendTip, amount: u64, currency: Currency) -> (r: Result<(), ErrorCode>)
    ensures
        match deposit_outcome(old(ctx).creator_account, amount, currency) {
            Ok(account) => r is Ok && final(ctx).creator_account == account,
            Err(e) => r == Err::<(), ErrorCode>(e) && *final(ctx) == *old(ctx),
        },
{
    process_send_tip(ctx, amount, currency)
}

/// Creates the platform configuration, with a fee of 25 basis points.
pub fn initialize_platform_config(ctx: &InitializePlatformConfig) -> (r: PlatformConfig)
    ensures
        r.authority == ctx.authority,
        r.fee_basis_points == 25,
        r.total_fees_collected_sol == 0,
        r.total_fees_collected_usdc == 0,
        r.bump == ctx.platform_config_bump,
{
    process_initialize_platform_config(ctx)
}

/// Withdraws tips for the signer; see [`process_withdraw_tips`].
pub fn withdraw_tips(ctx: &mut WithdrawTips, amount: u64, currency: Currency) -> (r: Result<
    FeeSplit,
    ErrorCode,
>)
    ensures
        r == withdraw_outcome(*old(ctx), amount, currency),
        match r {
            Ok(split) => *final(ctx) == withdrawn(*old(ctx), amount, currency, split),
            Err(_) => *final(ctx) == *old(ctx),
        },
{
    process_withdraw_tips(ctx, amount, currency)
}

} // verus!
