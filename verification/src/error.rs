//! Reasons for which a ledger operation refuses to run.
//!
//! Every fallible ledger operation returns one of these values instead of
//! mutating anything; the embedding contract is expected to abort the whole
//! invocation with the corresponding reason string.

use vstd::prelude::*;

verus! {

/// The reason a ledger operation was refused. An operation that returns one
/// of these leaves the ledger exactly as it was.
#[derive(Clone, Copy, Debug, PartialEq, Eq, Structural)]
pub enum Nep141Error {
    /// A deposit would push an account balance past `u128::MAX`.
    BalanceOverflow,
    /// A deposit would push the total supply past `u128::MAX`.
    TotalSupplyOverflow,
    /// A withdrawal asks for more than the account holds.
    BalanceUnderflow,
    /// A withdrawal asks for more than the total supply.
    TotalSupplyUnderflow,
    /// A transfer asks for more than the sender holds.
    SenderBalanceUnderflow,
    /// A transfer would push the receiver's balance past `u128::MAX`.
    ReceiverBalanceOverflow,
    /// A transfer-call was started with less gas than the protocol needs.
    MoreGasRequired,
    /// The gas left over for the remote notification could not be computed.
    PrepaidGasOverflow,
    /// The resolution step ran before the remote call had finished.
    PromiseNotReady,
}

impl Nep141Error {
    /// The reason string under which the embedding contract reports the abort.
    pub fn message(&self) -> (r: &'static str)
        ensures
            *self is BalanceOverflow ==> r@ == "Balance overflow"@,
            *self is TotalSupplyOverflow ==> r@ == "Total supply overflow"@,
            *self is BalanceUnderflow ==> r@ == "Balance underflow"@,
            *self is TotalSupplyUnderflow ==> r@ == "Total supply underflow"@,
            *self is SenderBalanceUnderflow ==> r@ == "Sender balance underflow"@,
            *self is ReceiverBalanceOverflow ==> r@ == "Receiver balance overflow"@,
            *self is MoreGasRequired ==> r@ == "More gas is required"@,
            *self is PrepaidGasOverflow ==> r@ == "Prepaid gas overflow"@,
            *self is PromiseNotReady ==> r@ == "Promise not ready"@,
    {
        match self {
            Nep141Error::BalanceOverflow => "Balance overflow",
            Nep141Error::TotalSupplyOverflow => "Total supply overflow",
            Nep141Error::BalanceUnderflow => "Balance underflow",
            Nep141Error::TotalSupplyUnderflow => "Total supply underflow",
            Nep141Error::SenderBalanceUnderflow => "Sender balance underflow",
            Nep141Error::ReceiverBalanceOverflow => "Receiver balance overflow",
            Nep141Error::MoreGasRequired => "More gas is required",
            Nep141Error::PrepaidGasOverflow => "Prepaid gas overflow",
            Nep141Error::PromiseNotReady => "Promise not ready",
        }
    }
}

} // verus!
