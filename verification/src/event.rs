//! Structured mint, transfer, and burn records.
//!
//! The ledger appends one of these records to its event log whenever a
//! balance mutation with event emission succeeds, and never before the
//! mutation has succeeded. Serializing and publishing the records is the
//! embedding contract's concern; the library only shapes them.

use vstd::prelude::*;

verus! {

/// One mint: `amount` new tokens were credited to `owner_id`.
#[derive(Clone, Debug, PartialEq, Eq)]
pub struct FtMintData {
    /// Account to which the new tokens were minted.
    pub owner_id: String,
    /// Amount of minted tokens.
    pub amount: u128,
    /// Optional note; it has no semantic effect.
    pub memo: Option<String>,
}

/// One transfer: `amount` tokens moved between two accounts.
#[derive(Clone, Debug, PartialEq, Eq)]
pub struct FtTransferData {
    /// Account that sent the tokens.
    pub old_owner_id: String,
    /// Account that received the tokens.
    pub new_owner_id: String,
    /// Amount of transferred tokens.
    pub amount: u128,
    /// Optional note; it has no semantic effect.
    pub memo: Option<String>,
}

/// One burn: `amount` tokens were removed from `owner_id` and from supply.
#[derive(Clone, Debug, PartialEq, Eq)]
pub struct FtBurnData {
    /// Account from which the tokens were burned.
    pub owner_id: String,
    /// Amount of burned tokens.
    pub amount: u128,
    /// Optional note; it has no semantic effect.
    pub memo: Option<String>,
}

/// A ledger event: exactly one record per successful mint, transfer, or burn.
#[derive(Clone, Debug, PartialEq, Eq)]
pub enum Nep141Event {
    /// Tokens were created and the total supply increased.
    FtMint(FtMintData),
    /// Tokens moved between two accounts; no change to the total supply.
    FtTransfer(FtTransferData),
    /// Tokens were destroyed and the total supply decreased.
    FtBurn(FtBurnData),
}

} // verus!
