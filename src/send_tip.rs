use vstd::prelude::*;

use crate::error::ErrorCode;
use crate::state::{CreatorAccount, Currency};

verus! {

/// The records that a tip reads and writes: the receiving creator's record.
/// The tip's value itself moves by a transfer of the host, from the sender
/// into the creator's vault for the currency, outside this record.
#[derive(Clone, Copy, Debug)]
pub struct SendTip {
    pub creator_account: CreatorAccount,
}

/// A tip of `amount` in `currency` can be booked: neither the running total
/// nor the tip count would pass the 64-bit maximum.
pub open spec fn deposit_fits(account: CreatorAccount, amount: u64, currency: Currency) -> bool {
    &&& account.total_of(currency) + amount <= u64::MAX
    &&& account.tip_count + 1 <= u64::MAX
}

/// The record after a tip of `amount` in `currency` has been booked.
pub open spec fn deposited(account: CreatorAccount, amount: u64, currency: Currency) -> CreatorAccount {
    let booked = account.with_total(currency, (account.total_of(currency) + amount) as u64);
    CreatorAccount { tip_count: (account.tip_count + 1) as u64, ..booked }
}

/// What booking a tip makes of the record: the new record, or the error.
pub open spec fn deposit_outcome(account: CreatorAccount, amount: u64, currency: Currency) -> Result<
    CreatorAccount,
    ErrorCode,
> {
    if deposit_fits(account, amount, currency) {
        Ok(deposited(account, amount, currency))
    } else {
        Err(ErrorCode::ArithmeticOverflow)
    }
}

/// Books a tip of `amount` in `currency` on the creator's record: the running
/// total for that currency grows by `amount` and the tip count by one, both
/// checked. On overflow the record is left as it was. Anyone may tip anyone:
/// no identity is checked. The host transfers `amount` from the sender to the
/// creator's vault for `currency` in the same transaction.
pub fn process_send_tip(ctx: &mut SendTip, amount: u64, currency: Currency) -> (r: Result<(), ErrorCode>)
    ensures
        r is Ok <==> deposit_fits(old(ctx).creator_account, amount, currency),
        match deposit_outcome(old(ctx).creator_account, amount, currency) {
            Ok(account) => r is Ok && final(ctx).creator_account == account,
            Err(e) => r == Err::<(), ErrorCode>(e) && *final(ctx) == *old(ctx),
        },
{
    let total = ctx.creator_account.total_tips(currency);
    let new_total = match total.checked_add(amount) {
        Some(t) => t,
        None => return Err(ErrorCode::ArithmeticOverflow),
    };
    let new_count = match ctx.creator_account.tip_count.checked_add(1) {
        Some(c) => c,
        None => return Err(ErrorCode::ArithmeticOverflow),
    };
    ctx.creator_account.set_total_tips(currency, new_total);
    ctx.creator_account.tip_count = new_count;
    Ok(())
}

} // verus!
