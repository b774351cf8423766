//! Properties of the ledger that relate its operations to each other and to
//! the vaults that hold the value.
use vstd::prelude::*;

use crate::error::ErrorCode;
use crate::fee::{fee_of, lemma_fee_at_most_amount, split_of, FeeSplit};
use crate::send_tip::deposit_outcome;
use crate::state::{CreatorAccount, Currency};
use crate::withdraw_tips::{withdraw_outcome, withdrawn, WithdrawTips};

verus! {

/// Each running total of the record is covered by what its vault holds.
pub open spec fn backed(account: CreatorAccount, sol_vault: int, usdc_vault: int) -> bool {
    &&& account.total_tips_sol <= sol_vault
    &&& account.total_tips_usdc <= usdc_vault
}

/// The holdings of the two vaults, `(sol, usdc)`, after `delta` moved into the
/// vault for `currency` (out of it where `delta` is negative).
pub open spec fn moved(sol_vault: int, usdc_vault: int, currency: Currency, delta: int) -> (int, int) {
    match currency {
        Currency::SOL => (sol_vault + delta, usdc_vault),
        Currency::USDC => (sol_vault, usdc_vault + delta),
    }
}

/// A tip keeps every running total covered by its vault: a booked tip adds
/// to the total exactly what its transfer adds to the vault, and a refused
/// one changes neither.
pub proof fn law_deposit_keeps_vaults_backing(
    account: CreatorAccount,
    sol_vault: int,
    usdc_vault: int,
    amount: u64,
    currency: Currency,
)
    requires
        backed(account, sol_vault, usdc_vault),
    ensures
        match deposit_outcome(account, amount, currency) {
            Ok(next) => {
                let vaults = moved(sol_vault, usdc_vault, currency, amount as int);
                backed(next, vaults.0, vaults.1)
            },
            Err(_) => backed(account, sol_vault, usdc_vault),
        },
{
}

/// A withdrawal keeps every running total covered by its vault: the vault
/// pays out the fee and the creator's part, which together are the amount
/// taken off the total; a refused withdrawal changes neither.
pub proof fn law_withdraw_keeps_vaults_backing(ctx: WithdrawTips, amount: u64, currency: Currency)
    requires
        backed(ctx.creator_account, ctx.sol_vault_lamports as int, ctx.usdc_vault_amount as int),
    ensures
        match withdraw_outcome(ctx, amount, currency) {
            Ok(split) => {
                let vaults = moved(
                    ctx.sol_vault_lamports as int,
                    ctx.usdc_vault_amount as int,
                    currency,
                    -(split.fee + split.creator_amount),
                );
                &&& backed(withdrawn(ctx, amount, currency, split).creator_account, vaults.0, vaults.1)
                &&& vaults.0 >= 0
                &&& vaults.1 >= 0
            },
            Err(_) => backed(
                ctx.creator_account,
                ctx.sol_vault_lamports as int,
                ctx.usdc_vault_amount as int,
            ),
        },
{
}

/// At a rate of at most a whole, and where the product of amount and rate
/// fits in 64 bits, the split of any amount succeeds, and the fee and the
/// creator's part add up to the amount exactly.
pub proof fn law_split_conserves(amount: u64, fee_basis_points: u16)
    requires
        fee_basis_points <= 10000,
        amount * fee_basis_points <= u64::MAX,
    ensures
        split_of(amount, fee_basis_points) matches Ok(split) && split.fee + split.creator_amount
            == amount && split.fee == fee_of(amount as int, fee_basis_points as int),
{
    lemma_fee_at_most_amount(amount, fee_basis_points);
}

/// Every withdrawal that succeeds pays out exactly the amount asked for: the
/// fee and the creator's part add up to it.
pub proof fn law_withdraw_conserves(ctx: WithdrawTips, amount: u64, currency: Currency)
    ensures
        withdraw_outcome(ctx, amount, currency) matches Ok(split) ==> split.fee + split.creator_amount
            == amount,
{
}

/// A booked tip raises the tip count by exactly one; a withdrawal, whatever
/// its outcome, leaves the count as it was.
pub proof fn law_tip_count_counts_deposits(
    account: CreatorAccount,
    ctx: WithdrawTips,
    amount: u64,
    currency: Currency,
)
    ensures
        deposit_outcome(account, amount, currency) matches Ok(next) ==> next.tip_count
            == account.tip_count + 1,
        withdraw_outcome(ctx, amount, currency) matches Ok(split) ==> withdrawn(
            ctx,
            amount,
            currency,
            split,
        ).creator_account.tip_count == ctx.creator_account.tip_count,
{
}

/// A withdrawal signed by anyone but the record's creator fails with
/// `Unauthorized`, whatever the amount.
pub proof fn law_withdraw_needs_owner(ctx: WithdrawTips, amount: u64, currency: Currency)
    requires
        ctx.creator != ctx.creator_account.creator,
    ensures
        withdraw_outcome(ctx, amount, currency) == Err::<FeeSplit, ErrorCode>(ErrorCode::Unauthorized),
{
}

/// A tip that would carry the running total past the 64-bit maximum fails
/// with `ArithmeticOverflow`.
pub proof fn law_deposit_overflow_refused(account: CreatorAccount, amount: u64, currency: Currency)
    requires
        account.total_of(currency) + amount > u64::MAX,
    ensures
        deposit_outcome(account, amount, currency) == Err::<CreatorAccount, ErrorCode>(
            ErrorCode::ArithmeticOverflow,
        ),
{
}

} // verus!
