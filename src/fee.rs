use vstd::prelude::*;

use crate::error::ErrorCode;

verus! {

/// Basis points in a whole: a rate of this many takes everything.
pub const BASIS_POINTS_DENOMINATOR: u64 = 10000;

/// The fee rate that a new platform configuration starts with (0.25%).
pub const DEFAULT_FEE_BASIS_POINTS: u16 = 25;

/// The fee on `amount` at `fee_basis_points`, rounded down.
pub open spec fn fee_of(amount: int, fee_basis_points: int) -> int {
    amount * fee_basis_points / 10000
}

/// The split of `amount` can be computed in 64 bits: the product of amount and
/// rate fits, and the fee leaves a remainder that is not negative.
pub open spec fn split_fits(amount: u64, fee_basis_points: u16) -> bool {
    &&& amount * fee_basis_points <= u64::MAX
    &&& fee_of(amount as int, fee_basis_points as int) <= amount
}

/// How a withdrawal divides between the platform and the creator.
#[derive(Clone, Copy, Debug, PartialEq, Eq, Structural)]
pub struct FeeSplit {
    /// What goes to the platform.
    pub fee: u64,
    /// What goes to the creator.
    pub creator_amount: u64,
}

/// The split of `amount` at `fee_basis_points`, when it can be computed.
pub open spec fn split_of(amount: u64, fee_basis_points: u16) -> Result<FeeSplit, ErrorCode> {
    if split_fits(amount, fee_basis_points) {
        let fee = fee_of(amount as int, fee_basis_points as int);
        Ok(FeeSplit { fee: fee as u64, creator_amount: (amount - fee) as u64 })
    } else {
        Err(ErrorCode::ArithmeticOverflow)
    }
}

/// A rate of at most a whole never takes more than the amount.
pub proof fn lemma_fee_at_most_amount(amount: u64, fee_basis_points: u16)
    requires
        fee_basis_points <= 10000,
    ensures
        0 <= fee_of(amount as int, fee_basis_points as int) <= amount,
{
    let a = amount as int;
    let b = fee_basis_points as int;
    assert(0 <= a * b <= a * 10000) by (nonlinear_arith)
        requires
            0 <= a,
            0 <= b <= 10000,
    ;
    assert(a * b / 10000 <= a * 10000 / 10000) by (nonlinear_arith)
        requires
            0 <= a * b <= a * 10000,
    ;
    assert(a * 10000 / 10000 == a) by (nonlinear_arith);
}

/// The fee on `amount`: `floor(amount * fee_basis_points / 10000)`, or
/// `ArithmeticOverflow` where the product does not fit in 64 bits.
pub fn compute_fee(amount: u64, fee_basis_points: u16) -> (r: Result<u64, ErrorCode>)
    ensures
        amount * fee_basis_points <= u64::MAX ==> r == Ok::<u64, ErrorCode>(
            fee_of(amount as int, fee_basis_points as int) as u64,
        ),
        amount * fee_basis_points > u64::MAX ==> r == Err::<u64, ErrorCode>(
            ErrorCode::ArithmeticOverflow,
        ),
{
    match amount.checked_mul(fee_basis_points as u64) {
        Some(product) => Ok(product / BASIS_POINTS_DENOMINATOR),
        None => Err(ErrorCode::ArithmeticOverflow),
    }
}

/// Divides `amount` into the platform's fee and the creator's remainder, with
/// checked operations throughout.
pub fn split_amount(amount: u64, fee_basis_points: u16) -> (r: Result<FeeSplit, ErrorCode>)
    ensures
        r == split_of(amount, fee_basis_points),
        r matches Ok(s) ==> s.fee + s.creator_amount == amount,
{
    let fee = match compute_fee(amount, fee_basis_points) {
        Ok(fee) => fee,
        Err(e) => return Err(e),
    };
    match amount.checked_sub(fee) {
        Some(creator_amount) => Ok(FeeSplit { fee, creator_amount }),
        None => Err(ErrorCode::ArithmeticOverflow),
    }
}

} // verus!
