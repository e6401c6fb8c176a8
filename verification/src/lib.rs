//! A fungible-token ledger with an asynchronous transfer-call protocol.
//!
//! The ledger maps account identifiers to unsigned 128-bit balances and keeps
//! a total-supply counter equal to the sum of all balances. On top of the
//! ledger, a transfer-call hands tokens to a receiving contract, notifies it
//! remotely, and refunds whatever the receiver declares unused once the
//! remote call has resolved.

pub mod error;
pub mod event;
pub mod ledger;
pub mod migrate;
pub mod nep141;
pub mod payload;
