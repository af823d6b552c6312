use psp22_chain_ext::account::AccountId;
use psp22_chain_ext::codec::{
    encode_asset, Psp22AllowanceInput, Psp22ApproveInput, Psp22BalanceOfInput,
    Psp22TransferFromInput, Psp22TransferInput,
};
use psp22_chain_ext::dispatch::{
    dispatch, Psp22Extension, ALLOWANCE_SELECTOR, APPROVE_SELECTOR, BALANCE_OF_SELECTOR,
    DECREASE_ALLOWANCE_SELECTOR, INCREASE_ALLOWANCE_SELECTOR, TOKEN_DECIMALS_SELECTOR,
    TOKEN_NAME_SELECTOR, TOKEN_SYMBOL_SELECTOR, TOTAL_SUPPLY_SELECTOR, TRANSFER_FROM_SELECTOR,
    TRANSFER_SELECTOR,
};
use psp22_chain_ext::error::{DispatchCause, DispatchError, Operation};
use psp22_chain_ext::ledger::{Ledger, LedgerError};
use psp22_chain_ext::memory::{
    MemoryLedger, BALANCE_OVERFLOW_CODE, SHORT_ALLOWANCE_CODE, SHORT_BALANCE_CODE,
};
use psp22_chain_ext::weight::{WeightMeter, WeightSchedule};

fn account(fill: u8) -> AccountId {
    AccountId::new(vec![fill; 32]).expect("32 bytes is a well-formed account id")
}

fn schedule() -> WeightSchedule {
    WeightSchedule { transfer: 100, approve: 60 }
}

const CAPACITY: usize = 1024;

#[test]
fn balance_of_returns_current_balance_and_mutates_nothing() {
    let mut ledger = MemoryLedger::new();
    let alice = account(0x01);
    let caller = account(0xca);
    ledger.set_balance(5, &alice, 500);
    let mut meter = WeightMeter::new(1_000);
    let input = Psp22BalanceOfInput { asset_id: 5, owner: alice.clone() }.encode();

    let r = dispatch(
        BALANCE_OF_SELECTOR,
        &input,
        CAPACITY,
        &caller,
        &schedule(),
        &mut meter,
        &mut ledger,
    )
    .unwrap();

    assert_eq!(r.status, 0);
    assert_eq!(r.output, 500u128.to_le_bytes().to_vec());
    // read-only: nothing charged, nothing moved
    assert_eq!(meter.remaining(), 1_000);
    assert_eq!(ledger.balance(5, &alice), 500);
}

#[test]
fn allowance_query_returns_current_allowance() {
    let mut ledger = MemoryLedger::new();
    let owner = account(0x01);
    let spender = account(0x02);
    let caller = account(0xca);
    ledger.set_allowance(5, &owner, &spender, 321);
    let mut meter = WeightMeter::new(1_000);
    let input = Psp22AllowanceInput {
        asset_id: 5,
        owner: owner.clone(),
        spender: spender.clone(),
    }
    .encode();

    let r = dispatch(
        ALLOWANCE_SELECTOR,
        &input,
        CAPACITY,
        &caller,
        &schedule(),
        &mut meter,
        &mut ledger,
    )
    .unwrap();

    assert_eq!(r.output, 321u128.to_le_bytes().to_vec());
}

#[test]
fn transfer_out_of_weight_leaves_balances_and_budget_unchanged() {
    let mut ledger = MemoryLedger::new();
    let caller = account(0x01);
    let bob = account(0x02);
    ledger.set_balance(5, &caller, 500);
    // estimated cost is 100 + 10 == 110; a budget of 109 is short
    let mut meter = WeightMeter::new(109);
    let input = Psp22TransferInput { asset_id: 5, to: bob.clone(), value: 50 }.encode();

    let r = dispatch(
        TRANSFER_SELECTOR,
        &input,
        CAPACITY,
        &caller,
        &schedule(),
        &mut meter,
        &mut ledger,
    );

    assert_eq!(
        r.unwrap_err(),
        DispatchCause::OutOfWeight { op: Operation::Transfer, estimate: 110 }
    );
    assert_eq!(meter.remaining(), 109);
    assert_eq!(ledger.balance(5, &caller), 500);
    assert_eq!(ledger.balance(5, &bob), 0);
}

#[test]
fn unknown_selector_is_refused_with_no_output_and_no_effect() {
    let mut ledger = MemoryLedger::new();
    let caller = account(0x01);
    ledger.set_balance(5, &caller, 500);
    let mut meter = WeightMeter::new(1_000);

    let r = Psp22Extension::call(
        0xdead_beef,
        &[1, 2, 3],
        CAPACITY,
        &caller,
        &schedule(),
        &mut meter,
        &mut ledger,
    );

    assert_eq!(r.unwrap_err(), DispatchError::UnknownSelector);
    assert_eq!(meter.remaining(), 1_000);
    assert_eq!(ledger.balance(5, &caller), 500);
}

#[test]
fn decrease_allowance_is_unimplemented_not_unknown() {
    let mut ledger = MemoryLedger::new();
    let caller = account(0x01);
    let mut meter = WeightMeter::new(1_000);

    let r = Psp22Extension::call(
        DECREASE_ALLOWANCE_SELECTOR,
        &[],
        CAPACITY,
        &caller,
        &schedule(),
        &mut meter,
        &mut ledger,
    );

    let e = r.unwrap_err();
    assert_eq!(e, DispatchError::Unimplemented);
    assert_ne!(e, DispatchError::UnknownSelector);
}

#[test]
fn approve_aliases_produce_identical_allowances() {
    let caller = account(0x01);
    let spender = account(0x02);
    let input = Psp22ApproveInput { asset_id: 5, spender: spender.clone(), value: 777 }.encode();

    let mut first = MemoryLedger::new();
    let mut first_meter = WeightMeter::new(1_000);
    let r1 = dispatch(
        APPROVE_SELECTOR,
        &input,
        CAPACITY,
        &caller,
        &schedule(),
        &mut first_meter,
        &mut first,
    );

    let mut second = MemoryLedger::new();
    let mut second_meter = WeightMeter::new(1_000);
    let r2 = dispatch(
        INCREASE_ALLOWANCE_SELECTOR,
        &input,
        CAPACITY,
        &caller,
        &schedule(),
        &mut second_meter,
        &mut second,
    );

    assert_eq!(r1.unwrap().output, r2.unwrap().output);
    assert_eq!(
        first.allowance(5, &caller, &spender),
        second.allowance(5, &caller, &spender)
    );
    assert_eq!(first.allowance(5, &caller, &spender), 777);
    assert_eq!(first_meter.remaining(), second_meter.remaining());
    // approve estimate is 60 + 6 == 66
    assert_eq!(first_meter.remaining(), 934);
}

#[test]
fn malformed_transfer_still_consumes_the_charged_weight() {
    let mut ledger = MemoryLedger::new();
    let caller = account(0x01);
    ledger.set_balance(5, &caller, 500);
    let mut meter = WeightMeter::new(1_000);
    // one byte short of a transfer request
    let input = vec![0u8; 51];

    let r = dispatch(
        TRANSFER_SELECTOR,
        &input,
        CAPACITY,
        &caller,
        &schedule(),
        &mut meter,
        &mut ledger,
    );

    assert_eq!(r.unwrap_err(), DispatchCause::DecodeFailed { op: Operation::Transfer });
    // the transfer estimate of 110 is gone even though nothing was decoded
    assert_eq!(meter.remaining(), 890);
    assert_eq!(ledger.balance(5, &caller), 500);
}

#[test]
fn transfer_moves_funds_and_charges_once() {
    let mut ledger = MemoryLedger::new();
    let caller = account(0x01);
    let bob = account(0x02);
    ledger.set_balance(5, &caller, 500);
    let mut meter = WeightMeter::new(1_000);
    let input = Psp22TransferInput { asset_id: 5, to: bob.clone(), value: 120 }.encode();

    let r = dispatch(
        TRANSFER_SELECTOR,
        &input,
        CAPACITY,
        &caller,
        &schedule(),
        &mut meter,
        &mut ledger,
    )
    .unwrap();

    assert_eq!(r.status, 0);
    assert!(r.output.is_empty());
    assert_eq!(meter.remaining(), 890);
    assert_eq!(ledger.balance(5, &caller), 380);
    assert_eq!(ledger.balance(5, &bob), 120);
}

#[test]
fn transfer_to_oneself_changes_nothing() {
    let mut ledger = MemoryLedger::new();
    let caller = account(0x01);
    ledger.set_balance(5, &caller, 500);
    let mut meter = WeightMeter::new(1_000);
    let input = Psp22TransferInput { asset_id: 5, to: caller.clone(), value: 120 }.encode();

    let r = dispatch(
        TRANSFER_SELECTOR,
        &input,
        CAPACITY,
        &caller,
        &schedule(),
        &mut meter,
        &mut ledger,
    );

    assert!(r.is_ok());
    assert_eq!(ledger.balance(5, &caller), 500);
}

#[test]
fn transfer_from_draws_on_the_allowance() {
    let mut ledger = MemoryLedger::new();
    let caller = account(0x01);
    let owner = account(0x02);
    let dest = account(0x03);
    ledger.set_balance(5, &owner, 400);
    ledger.set_allowance(5, &owner, &caller, 300);
    let mut meter = WeightMeter::new(1_000);
    let input = Psp22TransferFromInput {
        asset_id: 5,
        from: owner.clone(),
        to: dest.clone(),
        value: 250,
    }
    .encode();

    let r = dispatch(
        TRANSFER_FROM_SELECTOR,
        &input,
        CAPACITY,
        &caller,
        &schedule(),
        &mut meter,
        &mut ledger,
    )
    .unwrap();

    assert!(r.output.is_empty());
    // transfer-from is charged at the transfer estimate
    assert_eq!(meter.remaining(), 890);
    assert_eq!(ledger.balance(5, &owner), 150);
    assert_eq!(ledger.balance(5, &dest), 250);
    assert_eq!(ledger.allowance(5, &owner, &caller), 50);
}

#[test]
fn transfer_from_without_allowance_is_a_ledger_failure() {
    let mut ledger = MemoryLedger::new();
    let caller = account(0x01);
    let owner = account(0x02);
    let dest = account(0x03);
    ledger.set_balance(5, &owner, 400);
    let mut meter = WeightMeter::new(1_000);
    let input = Psp22TransferFromInput {
        asset_id: 5,
        from: owner.clone(),
        to: dest.clone(),
        value: 250,
    }
    .encode();

    let r = dispatch(
        TRANSFER_FROM_SELECTOR,
        &input,
        CAPACITY,
        &caller,
        &schedule(),
        &mut meter,
        &mut ledger,
    );

    assert_eq!(
        r.unwrap_err(),
        DispatchCause::Ledger {
            op: Operation::TransferFrom,
            error: LedgerError { code: SHORT_ALLOWANCE_CODE },
        }
    );
    assert_eq!(ledger.balance(5, &owner), 400);
    assert_eq!(ledger.balance(5, &dest), 0);
}

#[test]
fn ledger_refusal_surfaces_as_ledger_failure_and_keeps_the_charge() {
    let mut ledger = MemoryLedger::new();
    let caller = account(0x01);
    let bob = account(0x02);
    // the caller has nothing to move
    let mut meter = WeightMeter::new(1_000);
    let input = Psp22TransferInput { asset_id: 5, to: bob.clone(), value: 10 }.encode();

    let rich = dispatch(
        TRANSFER_SELECTOR,
        &input,
        CAPACITY,
        &caller,
        &schedule(),
        &mut meter,
        &mut ledger,
    );
    assert_eq!(
        rich.unwrap_err(),
        DispatchCause::Ledger {
            op: Operation::Transfer,
            error: LedgerError { code: SHORT_BALANCE_CODE },
        }
    );
    assert_eq!(meter.remaining(), 890);

    let mut meter2 = WeightMeter::new(1_000);
    let narrow = Psp22Extension::call(
        TRANSFER_SELECTOR,
        &input,
        CAPACITY,
        &caller,
        &schedule(),
        &mut meter2,
        &mut ledger,
    );
    assert_eq!(narrow.unwrap_err(), DispatchError::LedgerFailure);
}

#[test]
fn transfer_overflowing_the_beneficiary_fails_whole() {
    let mut ledger = MemoryLedger::new();
    let caller = account(0x01);
    let bob = account(0x02);
    ledger.set_balance(5, &caller, 10);
    ledger.set_balance(5, &bob, u128::MAX);
    let mut meter = WeightMeter::new(1_000);
    let input = Psp22TransferInput { asset_id: 5, to: bob.clone(), value: 1 }.encode();

    let r = dispatch(
        TRANSFER_SELECTOR,
        &input,
        CAPACITY,
        &caller,
        &schedule(),
        &mut meter,
        &mut ledger,
    );

    assert_eq!(
        r.unwrap_err(),
        DispatchCause::Ledger {
            op: Operation::Transfer,
            error: LedgerError { code: BALANCE_OVERFLOW_CODE },
        }
    );
    assert_eq!(ledger.balance(5, &caller), 10);
    assert_eq!(ledger.balance(5, &bob), u128::MAX);
}

#[test]
fn oversized_result_is_refused_not_truncated() {
    let mut ledger = MemoryLedger::new();
    let alice = account(0x01);
    let caller = account(0xca);
    ledger.set_balance(5, &alice, 500);
    let mut meter = WeightMeter::new(1_000);
    let input = Psp22BalanceOfInput { asset_id: 5, owner: alice.clone() }.encode();

    let r = dispatch(
        BALANCE_OF_SELECTOR,
        &input,
        8,  // an encoded balance needs 16 bytes
        &caller,
        &schedule(),
        &mut meter,
        &mut ledger,
    );

    assert_eq!(
        r.unwrap_err(),
        DispatchCause::OutputTooLarge { op: Operation::BalanceOf, needed: 16, capacity: 8 }
    );
}

#[test]
fn metadata_queries_report_the_ledger() {
    let mut ledger = MemoryLedger::new();
    ledger.set_name(5, b"Example".to_vec());
    ledger.set_symbol(5, b"TST".to_vec());
    ledger.set_decimals(5, 12);
    ledger.set_total_supply(5, 1_000_000);
    let caller = account(0xca);
    let input = encode_asset(5);

    let mut meter = WeightMeter::new(1_000);
    let name = dispatch(
        TOKEN_NAME_SELECTOR,
        &input,
        CAPACITY,
        &caller,
        &schedule(),
        &mut meter,
        &mut ledger,
    )
    .unwrap();
    // compact length prefix (7 << 2 == 28), then the bytes
    assert_eq!(name.output, b"\x1cExample".to_vec());

    let symbol = dispatch(
        TOKEN_SYMBOL_SELECTOR,
        &input,
        CAPACITY,
        &caller,
        &schedule(),
        &mut meter,
        &mut ledger,
    )
    .unwrap();
    assert_eq!(symbol.output, b"\x0cTST".to_vec());

    let decimals = dispatch(
        TOKEN_DECIMALS_SELECTOR,
        &input,
        CAPACITY,
        &caller,
        &schedule(),
        &mut meter,
        &mut ledger,
    )
    .unwrap();
    assert_eq!(decimals.output, vec![12]);

    let supply = dispatch(
        TOTAL_SUPPLY_SELECTOR,
        &input,
        CAPACITY,
        &caller,
        &schedule(),
        &mut meter,
        &mut ledger,
    )
    .unwrap();
    assert_eq!(supply.output, 1_000_000u128.to_le_bytes().to_vec());

    // an asset that was never configured reads as empty metadata
    let other = encode_asset(9);
    let empty_name = dispatch(
        TOKEN_NAME_SELECTOR,
        &other,
        CAPACITY,
        &caller,
        &schedule(),
        &mut meter,
        &mut ledger,
    )
    .unwrap();
    assert_eq!(empty_name.output, vec![0]);

    // none of the queries touched the meter
    assert_eq!(meter.remaining(), 1_000);
}

#[test]
fn query_with_short_buffer_fails_to_decode_without_charge() {
    let mut ledger = MemoryLedger::new();
    let caller = account(0xca);
    let mut meter = WeightMeter::new(1_000);

    let r = dispatch(
        BALANCE_OF_SELECTOR,
        &[0u8; 35],
        CAPACITY,
        &caller,
        &schedule(),
        &mut meter,
        &mut ledger,
    );

    assert_eq!(r.unwrap_err(), DispatchCause::DecodeFailed { op: Operation::BalanceOf });
    assert_eq!(meter.remaining(), 1_000);
}

#[test]
fn newest_ledger_entry_wins() {
    let mut ledger = MemoryLedger::new();
    let alice = account(0x01);
    ledger.set_balance(5, &alice, 100);
    ledger.set_balance(5, &alice, 250);
    assert_eq!(ledger.balance(5, &alice), 250);
    ledger.set_name(5, b"Old".to_vec());
    ledger.set_name(5, b"New".to_vec());
    assert_eq!(ledger.name(5), b"New".to_vec());
}

#[test]
fn call_reports_success_like_dispatch() {
    let mut ledger = MemoryLedger::new();
    let alice = account(0x01);
    let caller = account(0xca);
    ledger.set_balance(5, &alice, 42);
    let mut meter = WeightMeter::new(1_000);
    let input = Psp22BalanceOfInput { asset_id: 5, owner: alice.clone() }.encode();

    let r = Psp22Extension::call(
        BALANCE_OF_SELECTOR,
        &input,
        CAPACITY,
        &caller,
        &schedule(),
        &mut meter,
        &mut ledger,
    )
    .unwrap();

    assert_eq!(r.status, 0);
    assert_eq!(r.output, 42u128.to_le_bytes().to_vec());
}

#[test]
fn extension_is_enabled() {
    assert!(Psp22Extension::enabled());
}
