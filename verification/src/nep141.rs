//! The fungible-token ledger and its transfer-call protocol.
//!
//! The ledger pairs a balance table with a total-supply counter and an event
//! log. Its well-formedness invariant — the total supply equals the sum of
//! all balances — is established by [`Nep141Controller::new`] and preserved
//! by every operation. Deposits and withdrawals change one balance and the
//! supply by the same amount; transfers move a balance without touching the
//! supply; every operation either completes in full or reports an error and
//! changes nothing.
//!
//! A transfer-call is a transfer followed by a remote notification of the
//! receiver and a resolution callback. The ledger is mutated up front; once
//! the remote call has terminated, the resolution step refunds whatever part
//! of the amount the receiver declined to keep, bounded by the receiver's
//! balance at that time. The remote call itself is the host environment's
//! work: `transfer_call` returns a description of the two calls to schedule,
//! and `resolve_transfer` takes the remote call's outcome as an argument.

use vstd::prelude::*;

use crate::error::Nep141Error;
use crate::event::{FtBurnData, FtMintData, FtTransferData, Nep141Event};
use crate::ledger::BalanceTable;
use crate::payload::declared_unused_of;
use crate::payload::parse_unused_amount;

verus! {

/// Resource budget reserved for the resolution callback.
pub const GAS_FOR_RESOLVE_TRANSFER: u64 = 5_000_000_000_000;

/// Minimum resource budget a transfer-call needs: the fixed cost of the
/// transfer itself plus the resolution callback's reserved budget.
pub const GAS_FOR_FT_TRANSFER_CALL: u64 = 25_000_000_000_000 + GAS_FOR_RESOLVE_TRANSFER;

/// Transfer metadata covering both a plain transfer and a transfer-call.
#[derive(Clone, Debug, PartialEq, Eq)]
pub struct Nep141Transfer {
    /// Sender's account ID.
    pub sender_id: String,
    /// Receiver's account ID.
    pub receiver_id: String,
    /// Transferred amount.
    pub amount: u128,
    /// Optional memo string.
    pub memo: Option<String>,
    /// Message passed to the contract at `receiver_id`.
    pub msg: Option<String>,
}

impl Nep141Transfer {
    /// Whether this transfer asks for a remote notification of the receiver.
    pub fn is_transfer_call(&self) -> (r: bool)
        ensures
            r == (self.msg is Some),
    {
        self.msg.is_some()
    }
}

/// The outcome of the remote notification call, as the host environment
/// delivers it to the resolution callback.
#[derive(Clone, Debug, PartialEq, Eq)]
pub enum PromiseResult {
    /// The remote call has not terminated yet.
    NotReady,
    /// The remote call completed and returned this payload.
    Successful(Vec<u8>),
    /// The remote call failed or exhausted its budget.
    Failed,
}

/// The two chained remote calls a successful `transfer_call` asks the host
/// environment to schedule: a notification of the receiver, then the
/// resolution callback on the ledger's own contract.
#[derive(Clone, Debug, PartialEq, Eq)]
pub struct PendingTransferCall {
    /// Account that sent the tokens.
    pub sender_id: String,
    /// Account to notify: the receiver of the tokens.
    pub receiver_id: String,
    /// The transferred amount, repeated to the resolution callback.
    pub amount: u128,
    /// Message handed to the receiver's notification entry point.
    pub msg: String,
    /// Resource budget for the notification call.
    pub receiver_gas: u64,
    /// Resource budget for the resolution callback.
    pub resolver_gas: u64,
}

/// What a terminated remote notification left unused: the whole amount when
/// it failed or answered with a malformed payload, otherwise the declared
/// figure clamped to the amount actually sent.
pub open spec fn spec_unused_amount(amount: u128, promise_result: PromiseResult) -> u128
    recommends
        !(promise_result is NotReady),
{
    match promise_result {
        PromiseResult::NotReady => amount,
        PromiseResult::Failed => amount,
        PromiseResult::Successful(value) => match declared_unused_of(value@) {
            Some(declared) => if declared < amount {
                declared
            } else {
                amount
            },
            None => amount,
        },
    }
}

/// How much of an unused amount is refunded: all of it, bounded by the
/// receiver's balance at resolution time; nothing when nothing is unused.
pub open spec fn spec_refund_amount(receiver_balance: u128, unused: u128) -> u128 {
    if unused == 0 {
        0u128
    } else if receiver_balance < unused {
        receiver_balance
    } else {
        unused
    }
}

/// The fungible-token ledger: account balances, the total supply, and the
/// log of emitted events.
pub struct Nep141Controller {
    balances: BalanceTable,
    total_supply: u128,
    event_log: Vec<Nep141Event>,
}

/// Whether a transfer of `amount` from `sender` to `receiver` can run on the
/// ledger `pre`: the sender covers the amount, and the receiver's balance
/// stays within 128 bits (a self-transfer leaves every balance unchanged, so
/// only the sender's cover matters there).
pub open spec fn transfer_ok(
    pre: Nep141Controller,
    sender: Seq<char>,
    receiver: Seq<char>,
    amount: u128,
) -> bool {
    &&& amount <= pre.balance(sender)
    &&& (sender == receiver || pre.balance(receiver) + amount <= u128::MAX)
}

/// How a transfer of `amount` from `sender` to `receiver` relates the ledger
/// `post` to the ledger `pre`: the supply is unchanged, the amount moved
/// from the sender's balance to the receiver's, and no other balance moved.
pub open spec fn transfer_effect(
    pre: Nep141Controller,
    post: Nep141Controller,
    sender: Seq<char>,
    receiver: Seq<char>,
    amount: u128,
) -> bool {
    &&& post.supply() == pre.supply()
    &&& (sender == receiver ==> forall|a: Seq<char>| post.balance(a) == pre.balance(a))
    &&& (sender != receiver ==> {
        &&& post.balance(sender) == pre.balance(sender) - amount
        &&& post.balance(receiver) == pre.balance(receiver) + amount
        &&& forall|a: Seq<char>|
            a != sender && a != receiver ==> post.balance(a) == pre.balance(a)
    })
}

/// How the two phases of a transfer-call compose: after the optimistic
/// credit of `amount` and the refund of `refund` back from the receiver,
/// the sender has paid exactly the kept amount, the receiver holds exactly
/// the kept amount more, and the supply never moved.
pub proof fn lemma_transfer_call_round_trip(
    pre: Nep141Controller,
    mid: Nep141Controller,
    post: Nep141Controller,
    sender: Seq<char>,
    receiver: Seq<char>,
    amount: u128,
    refund: u128,
)
    requires
        sender != receiver,
        refund <= amount,
        transfer_effect(pre, mid, sender, receiver, amount),
        transfer_effect(mid, post, receiver, sender, refund),
    ensures
        post.supply() == pre.supply(),
        post.balance(sender) == pre.balance(sender) - (amount - refund),
        post.balance(receiver) == pre.balance(receiver) + (amount - refund),
        forall|a: Seq<char>|
            a != sender && a != receiver ==> post.balance(a) == pre.balance(a),
{
}

impl Nep141Controller {
    /// The balance of `account`: 0 for an account never deposited to.
    pub closed spec fn balance(self, account: Seq<char>) -> u128 {
        self.balances.balance(account)
    }

    /// The total circulating supply.
    pub closed spec fn supply(self) -> u128 {
        self.total_supply
    }

    /// The events emitted so far, oldest first.
    pub closed spec fn events(self) -> Seq<Nep141Event> {
        self.event_log@
    }

    /// The sum of all account balances.
    pub closed spec fn balance_sum(self) -> int {
        self.balances.total()
    }

    /// Well-formedness: the total supply equals the sum of all balances.
    pub closed spec fn wf(self) -> bool {
        self.total_supply as int == self.balance_sum()
    }

    /// A fresh ledger: no balances, no supply, no events.
    pub fn new() -> (r: Self)
        ensures
            r.wf(),
            r.supply() == 0,
            r.events() == Seq::<Nep141Event>::empty(),
            forall|a: Seq<char>| r.balance(a) == 0,
    {
        Nep141Controller {
            balances: BalanceTable::new(),
            total_supply: 0,
            event_log: Vec::new(),
        }
    }

    /// The conservation law every operation preserves: the total supply is
    /// the sum of the balances of all accounts ever touched.
    pub proof fn lemma_supply_is_balance_sum(self)
        requires
            self.wf(),
        ensures
            self.supply() as int == self.balance_sum(),
    {
    }

    /// No balance exceeds the total supply.
    pub proof fn lemma_balance_le_supply(self, account: Seq<char>)
        requires
            self.wf(),
        ensures
            self.balance(account) <= self.supply(),
    {
        self.balances.lemma_balance_le_total(account);
    }

    /// The balances of two distinct accounts together never exceed the total
    /// supply.
    pub proof fn lemma_two_balances_le_supply(self, a: Seq<char>, b: Seq<char>)
        requires
            self.wf(),
            a != b,
        ensures
            self.balance(a) + self.balance(b) <= self.supply(),
    {
        self.balances.lemma_two_balances_le_total(a, b);
    }

    /// Get the balance of an account. Returns 0 if the account does not
    /// exist.
    pub fn balance_of(&self, account_id: &String) -> (r: u128)
        ensures
            r == self.balance(account_id@),
    {
        self.balances.get(account_id)
    }

    /// Get the total circulating supply of the token.
    pub fn total_supply(&self) -> (r: u128)
        ensures
            r == self.supply(),
    {
        self.total_supply
    }

    /// The events emitted so far, oldest first.
    pub fn event_log(&self) -> (r: &Vec<Nep141Event>)
        ensures
            r@ == self.events(),
    {
        &self.event_log
    }

    /// Increase the balance of an account and the total supply by `amount`.
    /// An amount of zero changes nothing. No event emission.
    ///
    /// All-or-nothing: when either sum would exceed 128 bits, the error says
    /// which, and the ledger is untouched.
    pub fn deposit_unchecked(&mut self, account_id: &String, amount: u128) -> (r: Result<
        (),
        Nep141Error,
    >)
        requires
            old(self).wf(),
        ensures
            final(self).wf(),
            final(self).events() == old(self).events(),
            (r is Ok <==> {
                &&& old(self).balance(account_id@) + amount <= u128::MAX
                &&& old(self).supply() + amount <= u128::MAX
            }),
            r is Ok ==> {
                &&& final(self).balance(account_id@) == old(self).balance(account_id@)
                    + amount
                &&& final(self).supply() == old(self).supply() + amount
                &&& forall|a: Seq<char>|
                    a != account_id@ ==> final(self).balance(a) == old(self).balance(a)
            },
            amount == 0 ==> *final(self) == *old(self),
            r is Err ==> *final(self) == *old(self),
            (r == Err::<(), Nep141Error>(Nep141Error::BalanceOverflow) <==> old(self).balance(account_id@)
                + amount > u128::MAX),
            (r == Err::<(), Nep141Error>(Nep141Error::TotalSupplyOverflow) <==> {
                &&& old(self).balance(account_id@) + amount <= u128::MAX
                &&& old(self).supply() + amount > u128::MAX
            }),
    {
        if amount == 0 {
            return Ok(());
        }
        let balance: u128 = self.balances.get(account_id);
        match balance.checked_add(amount) {
            None => Err(Nep141Error::BalanceOverflow),
            Some(new_balance) => match self.total_supply.checked_add(amount) {
                None => Err(Nep141Error::TotalSupplyOverflow),
                Some(new_total_supply) => {
                    self.balances.set(account_id, new_balance);
                    self.total_supply = new_total_supply;
                    Ok(())
                },
            },
        }
    }

    /// Decrease the balance of an account and the total supply by `amount`.
    /// An amount of zero changes nothing. No event emission.
    ///
    /// All-or-nothing: when the account cannot cover the amount, the ledger
    /// is untouched. The supply always covers what one account holds — that
    /// is the well-formedness invariant — so the supply subtraction cannot
    /// go negative once the balance check has passed.
    pub fn withdraw_unchecked(&mut self, account_id: &String, amount: u128) -> (r: Result<
        (),
        Nep141Error,
    >)
        requires
            old(self).wf(),
        ensures
            final(self).wf(),
            final(self).events() == old(self).events(),
            (r is Ok <==> amount <= old(self).balance(account_id@)),
            r is Ok ==> {
                &&& final(self).balance(account_id@) == old(self).balance(account_id@)
                    - amount
                &&& final(self).supply() == old(self).supply() - amount
                &&& forall|a: Seq<char>|
                    a != account_id@ ==> final(self).balance(a) == old(self).balance(a)
            },
            amount == 0 ==> *final(self) == *old(self),
            r is Err ==> *final(self) == *old(self) && r == Err::<(), Nep141Error>(
                Nep141Error::BalanceUnderflow,
            ),
    {
        if amount == 0 {
            return Ok(());
        }
        let balance: u128 = self.balances.get(account_id);
        match balance.checked_sub(amount) {
            None => Err(Nep141Error::BalanceUnderflow),
            Some(new_balance) => {
                proof {
                    self.balances.lemma_balance_le_total(account_id@);
                }
                let new_total_supply: u128 = self.total_supply - amount;
                self.balances.set(account_id, new_balance);
                self.total_supply = new_total_supply;
                Ok(())
            },
        }
    }

    /// Move `amount` from the sender's balance to the receiver's. No change
    /// to the total supply. No event emission. A self-transfer of a covered
    /// amount succeeds and changes nothing.
    ///
    /// All-or-nothing: when the sender cannot cover the amount or the
    /// receiver's balance would exceed 128 bits, the error says which, and
    /// the ledger is untouched.
    pub fn transfer_unchecked(
        &mut self,
        sender_account_id: &String,
        receiver_account_id: &String,
        amount: u128,
    ) -> (r: Result<(), Nep141Error>)
        requires
            old(self).wf(),
        ensures
            final(self).wf(),
            final(self).events() == old(self).events(),
            (r is Ok <==> transfer_ok(
                *old(self),
                sender_account_id@,
                receiver_account_id@,
                amount,
            )),
            r is Ok ==> transfer_effect(
                *old(self),
                *final(self),
                sender_account_id@,
                receiver_account_id@,
                amount,
            ),
            r is Err ==> *final(self) == *old(self),
            (r == Err::<(), Nep141Error>(Nep141Error::SenderBalanceUnderflow) <==> amount > old(self).balance(
                sender_account_id@,
            )),
            (r == Err::<(), Nep141Error>(Nep141Error::ReceiverBalanceOverflow) <==> {
                &&& amount <= old(self).balance(sender_account_id@)
                &&& sender_account_id@ != receiver_account_id@
                &&& old(self).balance(receiver_account_id@) + amount > u128::MAX
            }),
    {
        let sender_balance: u128 = self.balances.get(sender_account_id);
        match sender_balance.checked_sub(amount) {
            None => Err(Nep141Error::SenderBalanceUnderflow),
            Some(new_sender_balance) => {
                if *sender_account_id == *receiver_account_id {
                    Ok(())
                } else {
                    let receiver_balance: u128 = self.balances.get(receiver_account_id);
                    match receiver_balance.checked_add(amount) {
                        None => Err(Nep141Error::ReceiverBalanceOverflow),
                        Some(new_receiver_balance) => {
                            self.balances.set(sender_account_id, new_sender_balance);
                            self.balances.set(receiver_account_id, new_receiver_balance);
                            Ok(())
                        },
                    }
                }
            },
        }
    }

    /// Mint `amount` new tokens for an account, then log a mint event. The
    /// event is logged whenever the deposit succeeds, also for amount zero.
    pub fn mint(&mut self, account_id: String, amount: u128, memo: Option<String>) -> (r:
        Result<(), Nep141Error>)
        requires
            old(self).wf(),
        ensures
            final(self).wf(),
            (r is Ok <==> {
                &&& old(self).balance(account_id@) + amount <= u128::MAX
                &&& old(self).supply() + amount <= u128::MAX
            }),
            r is Ok ==> {
                &&& final(self).balance(account_id@) == old(self).balance(account_id@)
                    + amount
                &&& final(self).supply() == old(self).supply() + amount
                &&& forall|a: Seq<char>|
                    a != account_id@ ==> final(self).balance(a) == old(self).balance(a)
                &&& final(self).events() == old(self).events().push(
                    Nep141Event::FtMint(FtMintData { owner_id: account_id, amount, memo }),
                )
            },
            r is Err ==> *final(self) == *old(self),
            (r == Err::<(), Nep141Error>(Nep141Error::BalanceOverflow) <==> old(self).balance(account_id@)
                + amount > u128::MAX),
            (r == Err::<(), Nep141Error>(Nep141Error::TotalSupplyOverflow) <==> {
                &&& old(self).balance(account_id@) + amount <= u128::MAX
                &&& old(self).supply() + amount > u128::MAX
            }),
    {
        match self.deposit_unchecked(&account_id, amount) {
            Err(e) => Err(e),
            Ok(()) => {
                self.event_log.push(
                    Nep141Event::FtMint(FtMintData { owner_id: account_id, amount, memo }),
                );
                Ok(())
            },
        }
    }

    /// Burn `amount` tokens of an account, then log a burn event. The event
    /// is logged whenever the withdrawal succeeds, also for amount zero.
    pub fn burn(&mut self, account_id: String, amount: u128, memo: Option<String>) -> (r:
        Result<(), Nep141Error>)
        requires
            old(self).wf(),
        ensures
            final(self).wf(),
            (r is Ok <==> amount <= old(self).balance(account_id@)),
            r is Ok ==> {
                &&& final(self).balance(account_id@) == old(self).balance(account_id@)
                    - amount
                &&& final(self).supply() == old(self).supply() - amount
                &&& forall|a: Seq<char>|
                    a != account_id@ ==> final(self).balance(a) == old(self).balance(a)
                &&& final(self).events() == old(self).events().push(
                    Nep141Event::FtBurn(FtBurnData { owner_id: account_id, amount, memo }),
                )
            },
            r is Err ==> *final(self) == *old(self) && r == Err::<(), Nep141Error>(
                Nep141Error::BalanceUnderflow,
            ),
    {
        match self.withdraw_unchecked(&account_id, amount) {
            Err(e) => Err(e),
            Ok(()) => {
                self.event_log.push(
                    Nep141Event::FtBurn(FtBurnData { owner_id: account_id, amount, memo }),
                );
                Ok(())
            },
        }
    }

    /// Move `amount` from sender to receiver, then log a transfer event. The
    /// event is logged whenever the move succeeds, also for amount zero.
    pub fn transfer(
        &mut self,
        sender_account_id: String,
        receiver_account_id: String,
        amount: u128,
        memo: Option<String>,
    ) -> (r: Result<(), Nep141Error>)
        requires
            old(self).wf(),
        ensures
            final(self).wf(),
            (r is Ok <==> transfer_ok(
                *old(self),
                sender_account_id@,
                receiver_account_id@,
                amount,
            )),
            r is Ok ==> transfer_effect(
                *old(self),
                *final(self),
                sender_account_id@,
                receiver_account_id@,
                amount,
            ),
            r is Ok ==> final(self).events() == old(self).events().push(
                Nep141Event::FtTransfer(
                    FtTransferData {
                        old_owner_id: sender_account_id,
                        new_owner_id: receiver_account_id,
                        amount,
                        memo,
                    },
                ),
            ),
            r is Err ==> *final(self) == *old(self),
            (r == Err::<(), Nep141Error>(Nep141Error::SenderBalanceUnderflow) <==> amount > old(self).balance(
                sender_account_id@,
            )),
            (r == Err::<(), Nep141Error>(Nep141Error::ReceiverBalanceOverflow) <==> {
                &&& amount <= old(self).balance(sender_account_id@)
                &&& sender_account_id@ != receiver_account_id@
                &&& old(self).balance(receiver_account_id@) + amount > u128::MAX
            }),
    {
        match self.transfer_unchecked(&sender_account_id, &receiver_account_id, amount) {
            Err(e) => Err(e),
            Ok(()) => {
                self.event_log.push(
                    Nep141Event::FtTransfer(
                        FtTransferData {
                            old_owner_id: sender_account_id,
                            new_owner_id: receiver_account_id,
                            amount,
                            memo,
                        },
                    ),
                );
                Ok(())
            },
        }
    }

    /// Start a transfer-call: check the resource budget, run the transfer
    /// with its event, and describe the remote notification and resolution
    /// calls for the host environment to schedule.
    ///
    /// The budget check comes first: a transfer-call refused for want of
    /// budget has not touched the ledger.
    pub fn transfer_call(
        &mut self,
        sender_account_id: String,
        receiver_account_id: String,
        amount: u128,
        memo: Option<String>,
        msg: String,
        gas_allowance: u64,
    ) -> (r: Result<PendingTransferCall, Nep141Error>)
        requires
            old(self).wf(),
        ensures
            final(self).wf(),
            (r is Ok <==> {
                &&& gas_allowance >= GAS_FOR_FT_TRANSFER_CALL
                &&& transfer_ok(*old(self), sender_account_id@, receiver_account_id@, amount)
            }),
            r is Err ==> *final(self) == *old(self),
            (r == Err::<PendingTransferCall, Nep141Error>(Nep141Error::MoreGasRequired)
                <==> gas_allowance < GAS_FOR_FT_TRANSFER_CALL),
            (r == Err::<PendingTransferCall, Nep141Error>(
                Nep141Error::SenderBalanceUnderflow,
            ) <==> {
                &&& gas_allowance >= GAS_FOR_FT_TRANSFER_CALL
                &&& amount > old(self).balance(sender_account_id@)
            }),
            (r == Err::<PendingTransferCall, Nep141Error>(
                Nep141Error::ReceiverBalanceOverflow,
            ) <==> {
                &&& gas_allowance >= GAS_FOR_FT_TRANSFER_CALL
                &&& amount <= old(self).balance(sender_account_id@)
                &&& sender_account_id@ != receiver_account_id@
                &&& old(self).balance(receiver_account_id@) + amount > u128::MAX
            }),
            r matches Ok(p) ==> {
                &&& transfer_effect(
                    *old(self),
                    *final(self),
                    sender_account_id@,
                    receiver_account_id@,
                    amount,
                )
                &&& final(self).events() == old(self).events().push(
                    Nep141Event::FtTransfer(
                        FtTransferData {
                            old_owner_id: sender_account_id,
                            new_owner_id: receiver_account_id,
                            amount,
                            memo,
                        },
                    ),
                )
                &&& p.sender_id == sender_account_id
                &&& p.receiver_id == receiver_account_id
                &&& p.amount == amount
                &&& p.msg == msg
                &&& p.receiver_gas == gas_allowance - GAS_FOR_FT_TRANSFER_CALL
                &&& p.resolver_gas == GAS_FOR_RESOLVE_TRANSFER
            },
    {
        if gas_allowance < GAS_FOR_FT_TRANSFER_CALL {
            return Err(Nep141Error::MoreGasRequired);
        }
        match self.transfer(
            sender_account_id.clone(),
            receiver_account_id.clone(),
            amount,
            memo,
        ) {
            Err(e) => Err(e),
            Ok(()) => {
                // The budget check above already rules this underflow out,
                // but the subtraction is checked all the same.
                match gas_allowance.checked_sub(GAS_FOR_FT_TRANSFER_CALL) {
                    None => Err(Nep141Error::PrepaidGasOverflow),
                    Some(receiver_gas) => Ok(
                        PendingTransferCall {
                            sender_id: sender_account_id,
                            receiver_id: receiver_account_id,
                            amount,
                            msg,
                            receiver_gas,
                            resolver_gas: GAS_FOR_RESOLVE_TRANSFER,
                        },
                    ),
                }
            },
        }
    }

    /// Resolve a transfer-call once the remote notification has terminated:
    /// refund what the receiver left unused, bounded by the receiver's
    /// current balance, and return the amount the receiver kept.
    ///
    /// A failed remote call, and a malformed payload, both count as the
    /// whole amount left unused. A receiver that spent the tokens in the
    /// interim keeps what its balance no longer covers. The refund, when
    /// there is one, is a transfer back to the sender and logs its event.
    pub fn resolve_transfer(
        &mut self,
        sender_id: String,
        receiver_id: String,
        amount: u128,
        promise_result: PromiseResult,
    ) -> (r: Result<u128, Nep141Error>)
        requires
            old(self).wf(),
        ensures
            final(self).wf(),
            promise_result is NotReady ==> r == Err::<u128, Nep141Error>(
                Nep141Error::PromiseNotReady,
            ) && *final(self) == *old(self),
            !(promise_result is NotReady) ==> ({
                let unused = spec_unused_amount(amount, promise_result);
                let refund = spec_refund_amount(old(self).balance(receiver_id@), unused);
                &&& r == Ok::<u128, Nep141Error>((amount - refund) as u128)
                &&& transfer_effect(
                    *old(self),
                    *final(self),
                    receiver_id@,
                    sender_id@,
                    refund,
                )
                &&& (refund == 0 ==> *final(self) == *old(self))
                &&& (refund > 0 ==> final(self).events() == old(self).events().push(
                    Nep141Event::FtTransfer(
                        FtTransferData {
                            old_owner_id: receiver_id,
                            new_owner_id: sender_id,
                            amount: refund,
                            memo: None,
                        },
                    ),
                ))
            }),
    {
        let unused_amount: u128 = match promise_result {
            PromiseResult::NotReady => {
                return Err(Nep141Error::PromiseNotReady);
            },
            PromiseResult::Successful(value) => match parse_unused_amount(value.as_slice()) {
                Some(declared) => if declared < amount {
                    declared
                } else {
                    amount
                },
                None => amount,
            },
            PromiseResult::Failed => amount,
        };
        let refunded_amount: u128 = if unused_amount > 0 {
            let receiver_balance: u128 = self.balance_of(&receiver_id);
            if receiver_balance > 0 {
                let refund_amount: u128 = if receiver_balance < unused_amount {
                    receiver_balance
                } else {
                    unused_amount
                };
                proof {
                    if receiver_id@ != sender_id@ {
                        self.lemma_two_balances_le_supply(receiver_id@, sender_id@);
                    }
                }
                // The refund never exceeds the receiver's balance, and two
                // balances never exceed the supply, so this transfer cannot
                // be refused.
                let refund_transfer = self.transfer(receiver_id, sender_id, refund_amount, None);
                proof {
                    assert(refund_transfer is Ok);
                }
                refund_amount
            } else {
                0
            }
        } else {
            0
        };
        Ok(amount - refunded_amount)
    }
}

} // verus!
