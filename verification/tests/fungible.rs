//! Scenario tests of the fungible issuance and transfer routines.

use issuers::fungible::{fungible_issue, fungible_transfer};
use issuers::state::{
    GlobalField, OwnedRecord, StateValue, TransitionContext, G_NAME, G_PRECISION, G_SUPPLY,
    G_TICKER, O_AMOUNT,
};

fn amount_record(value: u64) -> OwnedRecord {
    OwnedRecord::new(StateValue::pair(O_AMOUNT, value), 0)
}

fn issue_context(globals: Vec<GlobalField>, produced: Vec<u64>) -> TransitionContext {
    TransitionContext {
        consumed: Vec::new(),
        consumed_globals: Vec::new(),
        produced: produced.into_iter().map(amount_record).collect(),
        produced_globals: globals,
    }
}

#[test]
fn genesis_empty() {
    let context = TransitionContext::empty();
    assert!(!fungible_issue(&context));
}

#[test]
fn genesis_missing_globals() {
    let globals: Vec<Vec<GlobalField>> = vec![
        vec![
            GlobalField::new(G_TICKER, 0),
            GlobalField::new(G_PRECISION, 18),
            GlobalField::new(G_SUPPLY, 1000),
        ],
        vec![
            GlobalField::new(G_NAME, 0),
            GlobalField::new(G_PRECISION, 18),
            GlobalField::new(G_SUPPLY, 1000),
        ],
        vec![
            GlobalField::new(G_NAME, 0),
            GlobalField::new(G_TICKER, 0),
            GlobalField::new(G_SUPPLY, 1000),
        ],
        vec![
            GlobalField::new(G_NAME, 0),
            GlobalField::new(G_TICKER, 0),
            GlobalField::new(G_PRECISION, 18),
        ],
        vec![GlobalField::new(G_NAME, 0), GlobalField::new(G_TICKER, 0)],
    ];
    for global in globals {
        let context = issue_context(global, vec![1000]);
        assert!(!fungible_issue(&context));
    }
}

#[test]
fn genesis_missing_owned() {
    let context = issue_context(
        vec![
            GlobalField::new(G_NAME, 0),
            GlobalField::new(G_TICKER, 0),
            GlobalField::new(G_PRECISION, 18),
            GlobalField::new(G_SUPPLY, 1000),
        ],
        vec![],
    );
    assert!(!fungible_issue(&context));
}

#[test]
fn genesis_supply_mismatch() {
    let context = issue_context(
        vec![
            GlobalField::new(G_NAME, 0),
            GlobalField::new(G_TICKER, 0),
            GlobalField::new(G_PRECISION, 18),
            GlobalField::new(G_SUPPLY, 1000),
        ],
        vec![1001],
    );
    assert!(!fungible_issue(&context));
}

#[test]
fn genesis_correct() {
    let context = issue_context(
        vec![
            GlobalField::new(G_TICKER, 0),
            GlobalField::new(G_NAME, 0),
            GlobalField::new(G_PRECISION, 18),
            GlobalField::new(G_SUPPLY, 1000),
        ],
        vec![1000],
    );
    assert!(fungible_issue(&context));
}

fn transfer_harness(inp: &[&[u64]], out: &[&[u64]], should_success: bool) {
    for input in inp {
        for output in out {
            let context = TransitionContext {
                consumed: input
                    .iter()
                    .map(|v| StateValue::pair(O_AMOUNT, *v))
                    .collect(),
                consumed_globals: Vec::new(),
                produced: output.iter().map(|v| amount_record(*v)).collect(),
                produced_globals: Vec::new(),
            };
            let res = fungible_transfer(&context);
            if should_success {
                assert!(res);
            } else {
                assert!(!res);
            }
        }
    }
}

#[test]
fn transfer_deflation() {
    transfer_harness(&[&[1001], &[99, 900]], &[&[1000], &[100, 900]], false);
}

#[test]
fn transfer_inflation() {
    transfer_harness(&[&[999], &[101, 900]], &[&[1000], &[100, 900]], false);
}

#[test]
fn transfer_overflow() {
    transfer_harness(&[&[1]], &[&[u64::MAX - 1, 2]], false);
}

#[test]
fn transfer_correct() {
    transfer_harness(&[&[1000], &[100, 900]], &[&[1000], &[100, 900]], true);
}

#[test]
fn genesis_precision_too_wide() {
    let context = issue_context(
        vec![
            GlobalField::new(G_NAME, 0),
            GlobalField::new(G_TICKER, 0),
            GlobalField::new(G_PRECISION, 256),
            GlobalField::new(G_SUPPLY, 1000),
        ],
        vec![1000],
    );
    assert!(!fungible_issue(&context));
}

#[test]
fn genesis_extra_global_field() {
    let context = issue_context(
        vec![
            GlobalField::new(G_NAME, 0),
            GlobalField::new(G_TICKER, 0),
            GlobalField::new(G_PRECISION, 18),
            GlobalField::new(G_SUPPLY, 1000),
            GlobalField::new(G_SUPPLY, 1),
        ],
        vec![1000],
    );
    assert!(!fungible_issue(&context));
}

#[test]
fn genesis_supply_field_mistyped() {
    let context = issue_context(
        vec![
            GlobalField::new(G_NAME, 0),
            GlobalField::new(G_TICKER, 0),
            GlobalField::new(G_PRECISION, 18),
            GlobalField::new(G_NAME, 1000),
        ],
        vec![1000],
    );
    assert!(!fungible_issue(&context));
}

#[test]
fn genesis_split_supply_accepts() {
    let context = issue_context(
        vec![
            GlobalField::new(G_NAME, 0),
            GlobalField::new(G_TICKER, 0),
            GlobalField::new(G_PRECISION, 18),
            GlobalField::new(G_SUPPLY, 1000),
        ],
        vec![250, 250, 500],
    );
    assert!(fungible_issue(&context));
}

#[test]
fn genesis_overflowing_outputs() {
    let context = issue_context(
        vec![
            GlobalField::new(G_NAME, 0),
            GlobalField::new(G_TICKER, 0),
            GlobalField::new(G_PRECISION, 18),
            GlobalField::new(G_SUPPLY, 1),
        ],
        vec![u64::MAX, 2],
    );
    assert!(!fungible_issue(&context));
}

#[test]
fn transfer_rejects_global_state() {
    let with_produced_global = TransitionContext {
        consumed: vec![StateValue::pair(O_AMOUNT, 5)],
        consumed_globals: Vec::new(),
        produced: vec![amount_record(5)],
        produced_globals: vec![GlobalField::new(G_NAME, 0)],
    };
    assert!(!fungible_transfer(&with_produced_global));
    let with_consumed_global = TransitionContext {
        consumed: vec![StateValue::pair(O_AMOUNT, 5)],
        consumed_globals: vec![GlobalField::new(G_NAME, 0)],
        produced: vec![amount_record(5)],
        produced_globals: Vec::new(),
    };
    assert!(!fungible_transfer(&with_consumed_global));
}

#[test]
fn transfer_rejects_mistyped_record() {
    let context = TransitionContext {
        consumed: vec![StateValue::pair(G_NAME, 5)],
        consumed_globals: Vec::new(),
        produced: vec![amount_record(5)],
        produced_globals: Vec::new(),
    };
    assert!(!fungible_transfer(&context));
}

#[test]
fn transfer_rejects_three_element_record() {
    let context = TransitionContext {
        consumed: vec![StateValue::triple(O_AMOUNT, 5, 7)],
        consumed_globals: Vec::new(),
        produced: vec![amount_record(5)],
        produced_globals: Vec::new(),
    };
    assert!(!fungible_transfer(&context));
}

#[test]
fn transfer_empty_balances() {
    let context = TransitionContext::empty();
    assert!(fungible_transfer(&context));
}
