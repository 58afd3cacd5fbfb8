//! Scenario tests of the fractional-collection routines: issuance with
//! the uniqueness constraint, transfer, and the blank transition.

use issuers::fractional::{fractional_blank, fractional_issue, fractional_transfer};
use issuers::state::{
    GlobalField, OwnedRecord, StateValue, TransitionContext, G_NAME, G_PRECISION, G_SUPPLY,
    G_TICKER, O_TOKEN,
};

fn token_record(fraction: u64, token: u64) -> OwnedRecord {
    OwnedRecord::new(StateValue::triple(O_TOKEN, fraction, token), 0)
}

fn collection_globals(supply: u64) -> Vec<GlobalField> {
    vec![
        GlobalField::new(G_NAME, 0),
        GlobalField::new(G_TICKER, 0),
        GlobalField::new(G_PRECISION, 2),
        GlobalField::new(G_SUPPLY, supply),
    ]
}

#[test]
fn fractional_genesis_correct() {
    let context = TransitionContext {
        consumed: Vec::new(),
        consumed_globals: Vec::new(),
        produced: vec![token_record(100, 1), token_record(200, 2)],
        produced_globals: collection_globals(300),
    };
    assert!(fractional_issue(&context));
}

#[test]
fn fractional_genesis_duplicate_token() {
    let context = TransitionContext {
        consumed: Vec::new(),
        consumed_globals: Vec::new(),
        produced: vec![token_record(100, 1), token_record(200, 1)],
        produced_globals: collection_globals(300),
    };
    assert!(!fractional_issue(&context));
}

#[test]
fn fractional_genesis_supply_mismatch() {
    let context = TransitionContext {
        consumed: Vec::new(),
        consumed_globals: Vec::new(),
        produced: vec![token_record(100, 1), token_record(200, 2)],
        produced_globals: collection_globals(301),
    };
    assert!(!fractional_issue(&context));
}

#[test]
fn fractional_genesis_two_element_record() {
    let context = TransitionContext {
        consumed: Vec::new(),
        consumed_globals: Vec::new(),
        produced: vec![OwnedRecord::new(StateValue::pair(O_TOKEN, 300), 0)],
        produced_globals: collection_globals(300),
    };
    assert!(!fractional_issue(&context));
}

#[test]
fn fractional_transfer_correct() {
    let context = TransitionContext {
        consumed: vec![StateValue::triple(O_TOKEN, 60, 1), StateValue::triple(O_TOKEN, 40, 1)],
        consumed_globals: Vec::new(),
        produced: vec![token_record(100, 1)],
        produced_globals: Vec::new(),
    };
    assert!(fractional_transfer(&context));
}

#[test]
fn fractional_transfer_inflation() {
    let context = TransitionContext {
        consumed: vec![StateValue::triple(O_TOKEN, 99, 1)],
        consumed_globals: Vec::new(),
        produced: vec![token_record(100, 1)],
        produced_globals: Vec::new(),
    };
    assert!(!fractional_transfer(&context));
}

#[test]
fn blank_matches_transfer() {
    let balanced = TransitionContext {
        consumed: vec![StateValue::triple(O_TOKEN, 100, 1)],
        consumed_globals: Vec::new(),
        produced: vec![token_record(100, 1)],
        produced_globals: Vec::new(),
    };
    assert_eq!(fractional_blank(&balanced), fractional_transfer(&balanced));
    assert!(fractional_blank(&balanced));
    let unbalanced = TransitionContext {
        consumed: vec![StateValue::triple(O_TOKEN, 100, 1)],
        consumed_globals: Vec::new(),
        produced: vec![token_record(101, 1)],
        produced_globals: Vec::new(),
    };
    assert_eq!(fractional_blank(&unbalanced), fractional_transfer(&unbalanced));
    assert!(!fractional_blank(&unbalanced));
}
