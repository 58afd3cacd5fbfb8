//! Issuance and transfer validation for a single-supply fungible token.
//!
//! Both routines run a short-circuiting chain of checks: the first unmet
//! check is terminal and no further check executes. Acceptance is the
//! conjunction stated by [`fungible_issue_ok`] and [`fungible_transfer_ok`].

use vstd::prelude::*;

use crate::codex::{
    unit_wf, ProgramUnit, RoutineId, FN_FUNGIBLE_ISSUE, FN_FUNGIBLE_TRANSFER, FUNGIBLE_LIB_ID,
};
use crate::shared::{
    all_match, asset_spec_ok, spec_precision, spec_supply, sum_of, sum_values, supply_field_ok,
    validate_asset_spec,
};
use crate::state::{record_values, owned_data, TransitionContext, G_SUPPLY, O_AMOUNT};

verus! {

/// Whether a fungible issuance context is valid: the asset-spec fields are
/// present and well-typed, the precision fits into a byte, the declared
/// supply is present with no further global state, every produced record
/// is a two-element amount record, and the produced amounts sum exactly to
/// the declared supply.
pub open spec fn fungible_issue_ok(ctx: TransitionContext) -> bool {
    &&& asset_spec_ok(ctx.produced_globals@)
    &&& spec_precision(ctx.produced_globals@) <= 255
    &&& supply_field_ok(ctx.produced_globals@)
    &&& all_match(record_values(ctx.produced@), O_AMOUNT, false)
    &&& sum_of(record_values(ctx.produced@)) == spec_supply(ctx.produced_globals@)
}

/// Whether a fungible transfer context is valid: no global state on either
/// side, every owned-state value a two-element amount record, neither sum
/// overflowing, and the consumed and produced amounts summing exactly
/// equal.
pub open spec fn fungible_transfer_ok(ctx: TransitionContext) -> bool {
    &&& ctx.consumed_globals@.len() == 0
    &&& ctx.produced_globals@.len() == 0
    &&& all_match(ctx.consumed@, O_AMOUNT, false)
    &&& all_match(record_values(ctx.produced@), O_AMOUNT, false)
    &&& sum_of(ctx.consumed@) <= u64::MAX
    &&& sum_of(record_values(ctx.produced@)) <= u64::MAX
    &&& sum_of(ctx.consumed@) == sum_of(record_values(ctx.produced@))
}

/// Validates a fungible issuance. Accepts exactly the contexts
/// [`fungible_issue_ok`] describes; the first failing check rejects and no
/// further check runs.
pub fn fungible_issue(ctx: &TransitionContext) -> (accept: bool)
    ensures
        accept == fungible_issue_ok(*ctx),
{
    // Asset check: name, ticker and precision fields.
    let precision = match validate_asset_spec(&ctx.produced_globals) {
        Some(p) => p,
        None => return false,
    };
    // The precision must fit into a byte.
    if precision > 255 {
        return false;
    }
    // The circulating supply must be the one remaining global field.
    if ctx.produced_globals.len() != 4 {
        return false;
    }
    let supply_field = ctx.produced_globals[3];
    if supply_field.ty != G_SUPPLY {
        return false;
    }
    let supply = match supply_field.val.fst {
        Some(s) => s,
        None => return false,
    };
    if supply_field.val.snd.is_some() || supply_field.val.thd.is_some() {
        return false;
    }
    // The produced amounts must sum exactly to the declared supply.
    let vals = owned_data(&ctx.produced);
    let total = match sum_values(O_AMOUNT, &vals, false) {
        Some(t) => t,
        None => return false,
    };
    total == supply
}

/// Validates a fungible transfer. Accepts exactly the contexts
/// [`fungible_transfer_ok`] describes: transfers carry no global state,
/// and the consumed and produced sums must balance exactly, with overflow
/// in either sum a rejection.
pub fn fungible_transfer(ctx: &TransitionContext) -> (accept: bool)
    ensures
        accept == fungible_transfer_ok(*ctx),
{
    // Transfers carry no global state on either side.
    if ctx.consumed_globals.len() != 0 || ctx.produced_globals.len() != 0 {
        return false;
    }
    // Sum of inputs.
    let consumed_total = match sum_values(O_AMOUNT, &ctx.consumed, false) {
        Some(t) => t,
        None => return false,
    };
    // Sum of outputs.
    let vals = owned_data(&ctx.produced);
    let produced_total = match sum_values(O_AMOUNT, &vals, false) {
        Some(t) => t,
        None => return false,
    };
    consumed_total == produced_total
}

/// The fungible program unit: the issuance and transfer routines under
/// their entry offsets.
pub fn fungible() -> (u: ProgramUnit)
    ensures
        u.id == FUNGIBLE_LIB_ID,
        u.routines@ =~= seq![
            (FN_FUNGIBLE_ISSUE, RoutineId::FungibleIssue),
            (FN_FUNGIBLE_TRANSFER, RoutineId::FungibleTransfer),
        ],
        unit_wf(u),
{
    let mut routines: Vec<(u16, RoutineId)> = Vec::new();
    routines.push((FN_FUNGIBLE_ISSUE, RoutineId::FungibleIssue));
    routines.push((FN_FUNGIBLE_TRANSFER, RoutineId::FungibleTransfer));
    ProgramUnit { id: FUNGIBLE_LIB_ID, routines }
}

} // verus!
