use vstd::prelude::*;

use crate::error::ErrorCode;
use crate::fee::{fee_of, split_amount, split_fits, FeeSplit};
use crate::state::{CreatorAccount, Currency, PlatformConfig, Principal};

verus! {

/// The records that a withdrawal reads and writes, and the holdings of the
/// creator's two vaults as the host reported them.
#[derive(Clone, Copy, Debug)]
pub struct WithdrawTips {
    /// The identity that signed the withdrawal.
    pub creator: Principal,
    pub creator_account: CreatorAccount,
    /// What the creator's SOL vault holds, in lamports.
    pub sol_vault_lamports: u64,
    /// What the creator's USDC vault holds, in token units.
    pub usdc_vault_amount: u64,
    pub platform_config: PlatformConfig,
}

impl WithdrawTips {
    /// What the creator's vault for `currency` holds.
    pub open spec fn vault_of(self, currency: Currency) -> u64 {
        match currency {
            Currency::SOL => self.sol_vault_lamports,
            Currency::USDC => self.usdc_vault_amount,
        }
    }

    /// What the creator's vault for `currency` holds.
    pub fn vault_balance(&self, currency: Currency) -> (r: u64)
        ensures
            r == self.vault_of(currency),
    {
        match currency {
            Currency::SOL => self.sol_vault_lamports,
            Currency::USDC => self.usdc_vault_amount,
        }
    }
}

/// The outcome of a withdrawal of `amount` in `currency`: the first check that
/// fails, in the order in which they are made, or the split to pay out.
pub open spec fn withdraw_outcome(ctx: WithdrawTips, amount: u64, currency: Currency) -> Result<
    FeeSplit,
    ErrorCode,
> {
    let bps = ctx.platform_config.fee_basis_points;
    let fee = fee_of(amount as int, bps as int);
    if ctx.creator != ctx.creator_account.creator {
        Err(ErrorCode::Unauthorized)
    } else if amount > ctx.creator_account.total_of(currency) {
        Err(ErrorCode::InsufficientBalance)
    } else if amount > ctx.vault_of(currency) {
        Err(ErrorCode::InsufficientBalance)
    } else if !split_fits(amount, bps) {
        Err(ErrorCode::ArithmeticOverflow)
    } else if ctx.platform_config.fees_of(currency) + fee > u64::MAX {
        Err(ErrorCode::ArithmeticOverflow)
    } else {
        Ok(FeeSplit { fee: fee as u64, creator_amount: (amount - fee) as u64 })
    }
}

/// The records after a withdrawal of `amount` in `currency` that pays out
/// `split`: the creator's total falls by `amount`, the platform's fees grow
/// by the fee, and nothing else changes.
pub open spec fn withdrawn(ctx: WithdrawTips, amount: u64, currency: Currency, split: FeeSplit) -> WithdrawTips {
    let account = ctx.creator_account;
    let config = ctx.platform_config;
    WithdrawTips {
        creator_account: account.with_total(currency, (account.total_of(currency) - amount) as u64),
        platform_config: config.with_fees(currency, (config.fees_of(currency) + split.fee) as u64),
        ..ctx
    }
}

/// Withdraws `amount` in `currency` for the signer `ctx.creator`.
///
/// The checks, in order: the signer is the record's creator
/// (`Unauthorized`); `amount` is within the recorded total and within the
/// vault's holdings (`InsufficientBalance`); the fee
/// `floor(amount * fee_basis_points / 10000)`, the remainder and the
/// platform's new fee total are computed without overflow
/// (`ArithmeticOverflow`). On success the records are updated and the split
/// is returned: the host moves `fee` from the vault to the platform and
/// `creator_amount` from the vault to the creator, in the same transaction.
/// On failure nothing changes.
pub fn process_withdraw_tips(ctx: &mut WithdrawTips, amount: u64, currency: Currency) -> (r: Result<
    FeeSplit,
    ErrorCode,
>)
    ensures
        r == withdraw_outcome(*old(ctx), amount, currency),
        match r {
            Ok(split) => {
                &&& split.fee + split.creator_amount == amount
                &&& *final(ctx) == withdrawn(*old(ctx), amount, currency, split)
            },
            Err(_) => *final(ctx) == *old(ctx),
        },
{
    if !ctx.creator.same_as(&ctx.creator_account.creator) {
        return Err(ErrorCode::Unauthorized);
    }
    let total = ctx.creator_account.total_tips(currency);
    if amount > total {
        return Err(ErrorCode::InsufficientBalance);
    }
    if amount > ctx.vault_balance(currency) {
        return Err(ErrorCode::InsufficientBalance);
    }
    let split = match split_amount(amount, ctx.platform_config.fee_basis_points) {
        Ok(s) => s,
        Err(e) => return Err(e),
    };
    let fees = ctx.platform_config.fees_collected(currency);
    let new_fees = match fees.checked_add(split.fee) {
        Some(f) => f,
        None => return Err(ErrorCode::ArithmeticOverflow),
    };
    let new_total = match total.checked_sub(amount) {
        Some(t) => t,
        None => return Err(ErrorCode::ArithmeticOverflow),
    };
    ctx.creator_account.set_total_tips(currency, new_total);
    ctx.platform_config.set_fees_collected(currency, new_fees);
    Ok(split)
}

} // verus!
