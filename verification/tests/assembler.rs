//! Tests of the contract assembler: dispatch, resolution, packaging and
//! the content-derived identifier.

use issuers::codex::{
    execute_routine, fractional_codex, fungible_codex, lookup_verifier, package_new, resolve,
    run_transition, ProgramUnit, RoutineId, RoutineRef, FN_FAC_TRANSFER, FN_RGB21_ISSUE,
    FRACTIONAL_LIB_ID, KEY_BLANK, KEY_ISSUE, KEY_TRANSFER,
};
use issuers::content::codex_id;
use issuers::fractional::fractionable;
use issuers::fungible::fungible;
use issuers::state::{OwnedRecord, StateValue, TransitionContext, O_TOKEN};

fn token_record(fraction: u64, token: u64) -> OwnedRecord {
    OwnedRecord::new(StateValue::triple(O_TOKEN, fraction, token), 0)
}

fn balanced_transfer_context() -> TransitionContext {
    TransitionContext {
        consumed: vec![StateValue::triple(O_TOKEN, 100, 1)],
        consumed_globals: Vec::new(),
        produced: vec![token_record(100, 1)],
        produced_globals: Vec::new(),
    }
}

#[test]
fn fungible_unit_entries() {
    let unit = fungible();
    assert_eq!(unit.routines.len(), 2);
    assert_eq!(unit.routines[0], (0, RoutineId::FungibleIssue));
    assert_eq!(unit.routines[1], (1, RoutineId::FungibleTransfer));
}

#[test]
fn fractionable_unit_entries() {
    let unit = fractionable();
    assert_eq!(unit.id, FRACTIONAL_LIB_ID);
    assert_eq!(unit.routines[0], (FN_RGB21_ISSUE, RoutineId::FractionalIssue));
    assert_eq!(unit.routines[1], (FN_FAC_TRANSFER, RoutineId::FractionalTransfer));
}

#[test]
fn dispatch_blank_routes_to_transfer() {
    let codex = fractional_codex(String::from("pandora"));
    let blank = lookup_verifier(&codex, KEY_BLANK).unwrap();
    let transfer = lookup_verifier(&codex, KEY_TRANSFER).unwrap();
    assert_eq!(blank, transfer);
    let issue = lookup_verifier(&codex, KEY_ISSUE).unwrap();
    assert_eq!(issue, RoutineRef { unit: FRACTIONAL_LIB_ID, entry: FN_RGB21_ISSUE });
    assert!(lookup_verifier(&codex, 7).is_none());
}

#[test]
fn run_transition_blank_equals_transfer() {
    let units = vec![fractionable()];
    let codex = fractional_codex(String::from("pandora"));
    let context = balanced_transfer_context();
    let via_transfer = run_transition(&units, &codex, KEY_TRANSFER, &context);
    let via_blank = run_transition(&units, &codex, KEY_BLANK, &context);
    assert_eq!(via_transfer, Some(true));
    assert_eq!(via_blank, via_transfer);
}

#[test]
fn run_transition_unknown_key() {
    let units = vec![fractionable()];
    let codex = fractional_codex(String::from("pandora"));
    let context = balanced_transfer_context();
    assert_eq!(run_transition(&units, &codex, 7, &context), None);
}

#[test]
fn run_transition_unresolvable_routine() {
    let units = vec![fungible()];
    let codex = fractional_codex(String::from("pandora"));
    let context = balanced_transfer_context();
    assert_eq!(run_transition(&units, &codex, KEY_TRANSFER, &context), None);
}

#[test]
fn resolve_finds_entry() {
    let units = vec![fungible(), fractionable()];
    let site = RoutineRef { unit: FRACTIONAL_LIB_ID, entry: FN_FAC_TRANSFER };
    assert_eq!(resolve(&units, site), Some(RoutineId::FractionalTransfer));
    let missing = RoutineRef { unit: FRACTIONAL_LIB_ID, entry: 9 };
    assert_eq!(resolve(&units, missing), None);
}

#[test]
fn execute_routine_dispatches() {
    let context = balanced_transfer_context();
    assert!(execute_routine(RoutineId::FractionalTransfer, &context));
    assert!(!execute_routine(RoutineId::FractionalIssue, &context));
    let empty = TransitionContext::empty();
    assert!(!execute_routine(RoutineId::FungibleIssue, &empty));
    assert!(execute_routine(RoutineId::FungibleTransfer, &empty));
}

#[test]
fn package_build_succeeds() {
    let codex = fractional_codex(String::from("pandora"));
    let expected_id = codex_id(&codex);
    let package = package_new(
        codex,
        String::from("collection interface"),
        vec![fungible(), fractionable()],
        String::from("strict types"),
    );
    let package = package.unwrap();
    assert_eq!(package.codex_id, expected_id);
    assert_eq!(package.interface, "collection interface");
    assert_eq!(package.units.len(), 2);
}

#[test]
fn package_build_fails_on_missing_unit() {
    let codex = fractional_codex(String::from("pandora"));
    let package = package_new(
        codex,
        String::from("collection interface"),
        vec![fungible()],
        String::from("strict types"),
    );
    assert!(package.is_none());
}

#[test]
fn content_id_deterministic() {
    let one = fractional_codex(String::from("pandora"));
    let two = fractional_codex(String::from("pandora"));
    assert_eq!(codex_id(&one), codex_id(&two));
}

#[test]
fn content_id_separates_contracts() {
    let fungible_def = fungible_codex(String::from("pandora"));
    let fractional_def = fractional_codex(String::from("pandora"));
    assert_ne!(codex_id(&fungible_def), codex_id(&fractional_def));
    let other_developer = fractional_codex(String::from("prime"));
    assert_ne!(codex_id(&fractional_def), codex_id(&other_developer));
}
