use vstd::prelude::*;

verus! {

/// Every way in which an operation of the ledger can fail. A failed operation
/// changes no record.
#[derive(Clone, Copy, Debug, PartialEq, Eq, Structural)]
pub enum ErrorCode {
    /// The amount asked for exceeds the recorded total or the vault's holdings.
    InsufficientBalance,
    /// A fee rate outside `0..=10000` basis points.
    InvalidFeeBasisPoints,
    /// The signer is not the identity that the record names.
    Unauthorized,
    /// A currency tag that the ledger does not know.
    InvalidCurrency,
    /// A checked operation on an amount or a counter overflowed.
    ArithmeticOverflow,
    /// A value transfer of the host found too little in its source.
    InsufficientFunds,
}

} // verus!
