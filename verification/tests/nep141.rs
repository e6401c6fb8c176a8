//! Ledger operations, event emission, and the transfer-call protocol,
//! exercised end to end on concrete values.

use nep141_ledger::error::Nep141Error;
use nep141_ledger::event::{FtBurnData, FtMintData, FtTransferData, Nep141Event};
use nep141_ledger::nep141::{
    Nep141Controller, Nep141Transfer, PromiseResult, GAS_FOR_FT_TRANSFER_CALL,
    GAS_FOR_RESOLVE_TRANSFER,
};

fn acct(s: &str) -> String {
    s.to_string()
}

#[test]
fn mint_then_query() {
    let mut token = Nep141Controller::new();
    token.mint(acct("alice"), 500, None).unwrap();
    assert_eq!(token.balance_of(&acct("alice")), 500);
    assert_eq!(token.total_supply(), 500);
    assert_eq!(token.event_log().len(), 1);
    assert_eq!(
        token.event_log()[0],
        Nep141Event::FtMint(FtMintData {
            owner_id: acct("alice"),
            amount: 500,
            memo: None,
        })
    );
}

#[test]
fn balance_of_unknown_account_is_zero() {
    let token = Nep141Controller::new();
    assert_eq!(token.balance_of(&acct("nobody")), 0);
    assert_eq!(token.total_supply(), 0);
    assert!(token.event_log().is_empty());
}

#[test]
fn deposit_zero_changes_nothing() {
    let mut token = Nep141Controller::new();
    token.mint(acct("alice"), 100, None).unwrap();
    let events_before = token.event_log().len();
    token.deposit_unchecked(&acct("alice"), 0).unwrap();
    assert_eq!(token.balance_of(&acct("alice")), 100);
    assert_eq!(token.total_supply(), 100);
    assert_eq!(token.event_log().len(), events_before);
}

#[test]
fn withdraw_zero_changes_nothing() {
    let mut token = Nep141Controller::new();
    token.mint(acct("alice"), 100, None).unwrap();
    let events_before = token.event_log().len();
    token.withdraw_unchecked(&acct("alice"), 0).unwrap();
    assert_eq!(token.balance_of(&acct("alice")), 100);
    assert_eq!(token.total_supply(), 100);
    assert_eq!(token.event_log().len(), events_before);
}

#[test]
fn deposit_balance_overflow_leaves_state_unchanged() {
    let mut token = Nep141Controller::new();
    token.mint(acct("alice"), u128::MAX, None).unwrap();
    let r = token.deposit_unchecked(&acct("alice"), 1);
    assert_eq!(r, Err(Nep141Error::BalanceOverflow));
    assert_eq!(r.unwrap_err().message(), "Balance overflow");
    assert_eq!(token.balance_of(&acct("alice")), u128::MAX);
    assert_eq!(token.total_supply(), u128::MAX);
    assert_eq!(token.event_log().len(), 1);
}

#[test]
fn deposit_total_supply_overflow_leaves_state_unchanged() {
    let mut token = Nep141Controller::new();
    token.mint(acct("alice"), u128::MAX, None).unwrap();
    let r = token.deposit_unchecked(&acct("bob"), 1);
    assert_eq!(r, Err(Nep141Error::TotalSupplyOverflow));
    assert_eq!(r.unwrap_err().message(), "Total supply overflow");
    assert_eq!(token.balance_of(&acct("alice")), u128::MAX);
    assert_eq!(token.balance_of(&acct("bob")), 0);
    assert_eq!(token.total_supply(), u128::MAX);
}

#[test]
fn withdraw_underflow_leaves_state_unchanged() {
    let mut token = Nep141Controller::new();
    token.mint(acct("alice"), 100, None).unwrap();
    let r = token.withdraw_unchecked(&acct("alice"), 101);
    assert_eq!(r, Err(Nep141Error::BalanceUnderflow));
    assert_eq!(r.unwrap_err().message(), "Balance underflow");
    assert_eq!(token.balance_of(&acct("alice")), 100);
    assert_eq!(token.total_supply(), 100);
    assert_eq!(token.event_log().len(), 1);
}

#[test]
fn transfer_conserves_supply() {
    let mut token = Nep141Controller::new();
    token.mint(acct("alice"), 1000, None).unwrap();
    token
        .transfer(acct("alice"), acct("bob"), 300, Some(acct("rent")))
        .unwrap();
    assert_eq!(token.balance_of(&acct("alice")), 700);
    assert_eq!(token.balance_of(&acct("bob")), 300);
    assert_eq!(token.total_supply(), 1000);
    assert_eq!(
        token.event_log()[1],
        Nep141Event::FtTransfer(FtTransferData {
            old_owner_id: acct("alice"),
            new_owner_id: acct("bob"),
            amount: 300,
            memo: Some(acct("rent")),
        })
    );
}

#[test]
fn transfer_underfunded_sender_is_refused() {
    let mut token = Nep141Controller::new();
    token.mint(acct("alice"), 100, None).unwrap();
    let r = token.transfer(acct("alice"), acct("bob"), 101, None);
    assert_eq!(r, Err(Nep141Error::SenderBalanceUnderflow));
    assert_eq!(r.unwrap_err().message(), "Sender balance underflow");
    assert_eq!(token.balance_of(&acct("alice")), 100);
    assert_eq!(token.balance_of(&acct("bob")), 0);
    assert_eq!(token.event_log().len(), 1);
}

#[test]
fn self_transfer_changes_no_balance() {
    let mut token = Nep141Controller::new();
    token.mint(acct("alice"), 100, None).unwrap();
    token.transfer(acct("alice"), acct("alice"), 60, None).unwrap();
    assert_eq!(token.balance_of(&acct("alice")), 100);
    assert_eq!(token.total_supply(), 100);
    assert_eq!(token.event_log().len(), 2);
}

#[test]
fn burn_reduces_balance_and_supply() {
    let mut token = Nep141Controller::new();
    token.mint(acct("alice"), 100, None).unwrap();
    token.burn(acct("alice"), 40, Some(acct("fee"))).unwrap();
    assert_eq!(token.balance_of(&acct("alice")), 60);
    assert_eq!(token.total_supply(), 60);
    assert_eq!(
        token.event_log()[1],
        Nep141Event::FtBurn(FtBurnData {
            owner_id: acct("alice"),
            amount: 40,
            memo: Some(acct("fee")),
        })
    );
}

#[test]
fn mint_of_zero_logs_a_zero_amount_event() {
    let mut token = Nep141Controller::new();
    token.mint(acct("alice"), 0, None).unwrap();
    assert_eq!(token.balance_of(&acct("alice")), 0);
    assert_eq!(token.total_supply(), 0);
    assert_eq!(
        token.event_log()[0],
        Nep141Event::FtMint(FtMintData {
            owner_id: acct("alice"),
            amount: 0,
            memo: None,
        })
    );
}

#[test]
fn transfer_call_describes_both_remote_calls() {
    let mut token = Nep141Controller::new();
    token.mint(acct("sender"), 1000, None).unwrap();
    let pending = token
        .transfer_call(
            acct("sender"),
            acct("receiver"),
            100,
            None,
            acct("msg"),
            GAS_FOR_FT_TRANSFER_CALL + 7,
        )
        .unwrap();
    assert_eq!(pending.sender_id, acct("sender"));
    assert_eq!(pending.receiver_id, acct("receiver"));
    assert_eq!(pending.amount, 100);
    assert_eq!(pending.msg, acct("msg"));
    assert_eq!(pending.receiver_gas, 7);
    assert_eq!(pending.resolver_gas, GAS_FOR_RESOLVE_TRANSFER);
    assert_eq!(token.balance_of(&acct("sender")), 900);
    assert_eq!(token.balance_of(&acct("receiver")), 100);
    assert_eq!(token.total_supply(), 1000);
}

#[test]
fn transfer_call_fully_accepted() {
    let mut token = Nep141Controller::new();
    token.mint(acct("sender"), 1000, None).unwrap();
    token
        .transfer_call(
            acct("sender"),
            acct("receiver"),
            100,
            None,
            acct("msg"),
            GAS_FOR_FT_TRANSFER_CALL,
        )
        .unwrap();
    let events_before = token.event_log().len();
    let kept = token
        .resolve_transfer(
            acct("sender"),
            acct("receiver"),
            100,
            PromiseResult::Successful(b"\"0\"".to_vec()),
        )
        .unwrap();
    assert_eq!(kept, 100);
    assert_eq!(token.balance_of(&acct("sender")), 900);
    assert_eq!(token.balance_of(&acct("receiver")), 100);
    assert_eq!(token.event_log().len(), events_before);
}

#[test]
fn transfer_call_remote_failure_refunds_what_the_receiver_still_holds() {
    let mut token = Nep141Controller::new();
    token.mint(acct("sender"), 1000, None).unwrap();
    token
        .transfer_call(
            acct("sender"),
            acct("receiver"),
            100,
            None,
            acct("msg"),
            GAS_FOR_FT_TRANSFER_CALL,
        )
        .unwrap();
    // The receiver spends part of the credit before resolution.
    token
        .transfer(acct("receiver"), acct("shop"), 40, None)
        .unwrap();
    let kept = token
        .resolve_transfer(acct("sender"), acct("receiver"), 100, PromiseResult::Failed)
        .unwrap();
    assert_eq!(kept, 40);
    assert_eq!(token.balance_of(&acct("sender")), 960);
    assert_eq!(token.balance_of(&acct("receiver")), 0);
    assert_eq!(token.balance_of(&acct("shop")), 40);
    assert_eq!(token.total_supply(), 1000);
}

#[test]
fn malformed_payload_counts_as_fully_unused() {
    let mut token = Nep141Controller::new();
    token.mint(acct("sender"), 1000, None).unwrap();
    token
        .transfer_call(
            acct("sender"),
            acct("receiver"),
            100,
            None,
            acct("msg"),
            GAS_FOR_FT_TRANSFER_CALL,
        )
        .unwrap();
    let kept = token
        .resolve_transfer(
            acct("sender"),
            acct("receiver"),
            100,
            PromiseResult::Successful(b"not an amount".to_vec()),
        )
        .unwrap();
    assert_eq!(kept, 0);
    assert_eq!(token.balance_of(&acct("sender")), 1000);
    assert_eq!(token.balance_of(&acct("receiver")), 0);
    // The refund is itself a transfer and logs its event.
    assert_eq!(
        token.event_log().last().unwrap(),
        &Nep141Event::FtTransfer(FtTransferData {
            old_owner_id: acct("receiver"),
            new_owner_id: acct("sender"),
            amount: 100,
            memo: None,
        })
    );
}

#[test]
fn declared_unused_amount_is_clamped() {
    let mut token = Nep141Controller::new();
    token.mint(acct("sender"), 1000, None).unwrap();
    token
        .transfer_call(
            acct("sender"),
            acct("receiver"),
            100,
            None,
            acct("msg"),
            GAS_FOR_FT_TRANSFER_CALL,
        )
        .unwrap();
    let kept = token
        .resolve_transfer(
            acct("sender"),
            acct("receiver"),
            100,
            PromiseResult::Successful(b"\"250\"".to_vec()),
        )
        .unwrap();
    assert_eq!(kept, 0);
    assert_eq!(token.balance_of(&acct("sender")), 1000);
    assert_eq!(token.balance_of(&acct("receiver")), 0);
}

#[test]
fn partially_declined_amount_is_refunded() {
    let mut token = Nep141Controller::new();
    token.mint(acct("sender"), 1000, None).unwrap();
    token
        .transfer_call(
            acct("sender"),
            acct("receiver"),
            100,
            None,
            acct("msg"),
            GAS_FOR_FT_TRANSFER_CALL,
        )
        .unwrap();
    let kept = token
        .resolve_transfer(
            acct("sender"),
            acct("receiver"),
            100,
            PromiseResult::Successful(b"\"30\"".to_vec()),
        )
        .unwrap();
    assert_eq!(kept, 70);
    assert_eq!(token.balance_of(&acct("sender")), 930);
    assert_eq!(token.balance_of(&acct("receiver")), 70);
}

#[test]
fn emptied_receiver_yields_no_refund() {
    let mut token = Nep141Controller::new();
    token.mint(acct("sender"), 1000, None).unwrap();
    token
        .transfer_call(
            acct("sender"),
            acct("receiver"),
            100,
            None,
            acct("msg"),
            GAS_FOR_FT_TRANSFER_CALL,
        )
        .unwrap();
    token
        .transfer(acct("receiver"), acct("shop"), 100, None)
        .unwrap();
    let events_before = token.event_log().len();
    let kept = token
        .resolve_transfer(acct("sender"), acct("receiver"), 100, PromiseResult::Failed)
        .unwrap();
    assert_eq!(kept, 100);
    assert_eq!(token.balance_of(&acct("sender")), 900);
    assert_eq!(token.balance_of(&acct("receiver")), 0);
    assert_eq!(token.event_log().len(), events_before);
}

#[test]
fn insufficient_budget_fails_before_any_mutation() {
    let mut token = Nep141Controller::new();
    token.mint(acct("sender"), 1000, None).unwrap();
    let r = token.transfer_call(
        acct("sender"),
        acct("receiver"),
        100,
        None,
        acct("msg"),
        GAS_FOR_FT_TRANSFER_CALL - 1,
    );
    assert_eq!(r, Err(Nep141Error::MoreGasRequired));
    assert_eq!(r.unwrap_err().message(), "More gas is required");
    assert_eq!(token.balance_of(&acct("sender")), 1000);
    assert_eq!(token.balance_of(&acct("receiver")), 0);
    assert_eq!(token.event_log().len(), 1);
}

#[test]
fn resolution_before_remote_termination_is_refused() {
    let mut token = Nep141Controller::new();
    token.mint(acct("sender"), 1000, None).unwrap();
    let r = token.resolve_transfer(
        acct("sender"),
        acct("receiver"),
        100,
        PromiseResult::NotReady,
    );
    assert_eq!(r, Err(Nep141Error::PromiseNotReady));
    assert_eq!(token.balance_of(&acct("sender")), 1000);
    assert_eq!(token.total_supply(), 1000);
}

#[test]
fn transfer_metadata_marks_transfer_calls() {
    let plain = Nep141Transfer {
        sender_id: acct("a"),
        receiver_id: acct("b"),
        amount: 5,
        memo: None,
        msg: None,
    };
    assert!(!plain.is_transfer_call());
    let call = Nep141Transfer {
        sender_id: acct("a"),
        receiver_id: acct("b"),
        amount: 5,
        memo: None,
        msg: Some(acct("hello")),
    };
    assert!(call.is_transfer_call());
}

#[test]
fn gas_constants_are_chained() {
    assert_eq!(GAS_FOR_RESOLVE_TRANSFER, 5_000_000_000_000);
    assert_eq!(
        GAS_FOR_FT_TRANSFER_CALL,
        25_000_000_000_000 + GAS_FOR_RESOLVE_TRANSFER
    );
}

#[test]
fn supply_tracks_every_balance_change() {
    let mut token = Nep141Controller::new();
    token.mint(acct("alice"), 700, None).unwrap();
    token.mint(acct("bob"), 300, None).unwrap();
    token.transfer(acct("alice"), acct("carol"), 250, None).unwrap();
    token.burn(acct("bob"), 100, None).unwrap();
    token.deposit_unchecked(&acct("carol"), 50).unwrap();
    token.withdraw_unchecked(&acct("alice"), 20).unwrap();
    let touched = ["alice", "bob", "carol"];
    let sum: u128 = touched.iter().map(|a| token.balance_of(&acct(a))).sum();
    assert_eq!(token.total_supply(), sum);
    assert_eq!(sum, 930);
}
