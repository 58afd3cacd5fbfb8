//! Issuance, transfer and blank-transition validation for a fractional
//! asset collection: discrete, individually unique tokens held in
//! fractional ownership units.
//!
//! The routines mirror the fungible validator's two-phase structure. An
//! owned-state record here carries three elements — the state-type tag,
//! the fraction amount, and the token identifier — and issuance
//! additionally guarantees that no duplicate token identifier is produced.
//! A blank transition restates ownership without economic transfer: it is
//! the transfer routine itself, not a distinct code path, so a
//! self-transfer obeys the same conservation law.

use vstd::prelude::*;

use crate::codex::{
    unit_wf, ProgramUnit, RoutineId, FN_FAC_TRANSFER, FN_RGB21_ISSUE, FRACTIONAL_LIB_ID,
};
use crate::shared::{
    all_match, asset_spec_ok, spec_precision, spec_supply, sum_of, sum_values, supply_field_ok,
    validate_asset_spec,
};
use crate::state::{record_values, owned_data, StateValue, TransitionContext, G_SUPPLY, O_TOKEN};

verus! {

/// The token identifier an owned-state value carries: its third element.
/// An absent element maps to no meaningful identifier; the shape check
/// rejects such a record before uniqueness is ever consulted.
pub open spec fn token_id_of(v: StateValue) -> int {
    match v.thd {
        Some(t) => t as int,
        None => -1,
    }
}

/// Whether no two values in the sequence carry the same token identifier.
pub open spec fn unique_token_ids(s: Seq<StateValue>) -> bool {
    forall|i: int, j: int|
        0 <= i < s.len() && 0 <= j < s.len() && i != j ==> token_id_of(s[i]) != token_id_of(s[j])
}

/// Checks that the produced token identifiers are pairwise distinct.
pub fn token_ids_unique(vals: &Vec<StateValue>) -> (r: bool)
    ensures
        r == unique_token_ids(vals@),
{
    let mut i: usize = 0;
    while i < vals.len()
        invariant
            i <= vals@.len(),
            forall|a: int, b: int|
                0 <= a < i && a < b < vals@.len() ==> token_id_of(vals@[a]) != token_id_of(
                    vals@[b],
                ),
        decreases vals@.len() - i,
    {
        let id_i = match vals[i].thd {
            Some(t) => t as i128,
            None => -1i128,
        };
        let mut j: usize = i + 1;
        while j < vals.len()
            invariant
                i < j <= vals@.len(),
                id_i == token_id_of(vals@[i as int]),
                forall|b: int| i < b < j ==> token_id_of(vals@[i as int]) != token_id_of(vals@[b]),
            decreases vals@.len() - j,
        {
            let id_j = match vals[j].thd {
                Some(t) => t as i128,
                None => -1i128,
            };
            if id_i == id_j {
                proof {
                    assert(token_id_of(vals@[i as int]) == token_id_of(vals@[j as int]));
                }
                return false;
            }
            j += 1;
        }
        i += 1;
    }
    proof {
        assert forall|a: int, b: int|
            0 <= a < vals@.len() && 0 <= b < vals@.len() && a != b implies token_id_of(vals@[a])
            != token_id_of(vals@[b]) by {
            if a < b {
                assert(token_id_of(vals@[a]) != token_id_of(vals@[b]));
            } else {
                assert(token_id_of(vals@[b]) != token_id_of(vals@[a]));
            }
        }
    }
    true
}

/// Whether a fractional issuance context is valid: the asset-spec fields
/// are present and well-typed, the precision fits into a byte, the
/// declared supply is present with no further global state, every
/// produced record is a three-element token record with pairwise-distinct
/// token identifiers, and the produced fractions sum exactly to the
/// declared supply.
pub open spec fn fractional_issue_ok(ctx: TransitionContext) -> bool {
    &&& asset_spec_ok(ctx.produced_globals@)
    &&& spec_precision(ctx.produced_globals@) <= 255
    &&& supply_field_ok(ctx.produced_globals@)
    &&& all_match(record_values(ctx.produced@), O_TOKEN, true)
    &&& unique_token_ids(record_values(ctx.produced@))
    &&& sum_of(record_values(ctx.produced@)) == spec_supply(ctx.produced_globals@)
}

/// Whether a fractional transfer context is valid: no global state on
/// either side, every owned-state value a three-element token record,
/// neither sum overflowing, and the consumed and produced fractions
/// summing exactly equal.
pub open spec fn fractional_transfer_ok(ctx: TransitionContext) -> bool {
    &&& ctx.consumed_globals@.len() == 0
    &&& ctx.produced_globals@.len() == 0
    &&& all_match(ctx.consumed@, O_TOKEN, true)
    &&& all_match(record_values(ctx.produced@), O_TOKEN, true)
    &&& sum_of(ctx.consumed@) <= u64::MAX
    &&& sum_of(record_values(ctx.produced@)) <= u64::MAX
    &&& sum_of(ctx.consumed@) == sum_of(record_values(ctx.produced@))
}

/// Validates a fractional issuance. Accepts exactly the contexts
/// [`fractional_issue_ok`] describes; the first failing check rejects and
/// no further check runs.
pub fn fractional_issue(ctx: &TransitionContext) -> (accept: bool)
    ensures
        accept == fractional_issue_ok(*ctx),
{
    // Asset check: name, ticker and precision fields.
    let precision = match validate_asset_spec(&ctx.produced_globals) {
        Some(p) => p,
        None => return false,
    };
    // The precision must fit into a byte.
    if precision > 255 {
        return false;
    }
    // The circulating supply must be the one remaining global field.
    if ctx.produced_globals.len() != 4 {
        return false;
    }
    let supply_field = ctx.produced_globals[3];
    if supply_field.ty != G_SUPPLY {
        return false;
    }
    let supply = match supply_field.val.fst {
        Some(s) => s,
        None => return false,
    };
    if supply_field.val.snd.is_some() || supply_field.val.thd.is_some() {
        return false;
    }
    // The produced fractions must sum exactly to the declared supply.
    let vals = owned_data(&ctx.produced);
    let total = match sum_values(O_TOKEN, &vals, true) {
        Some(t) => t,
        None => return false,
    };
    // No duplicate token identifier may be produced within one issuance.
    if !token_ids_unique(&vals) {
        return false;
    }
    total == supply
}

/// Validates a fractional transfer. Accepts exactly the contexts
/// [`fractional_transfer_ok`] describes: transfers carry no global state,
/// and the consumed and produced sums must balance exactly, with overflow
/// in either sum a rejection.
pub fn fractional_transfer(ctx: &TransitionContext) -> (accept: bool)
    ensures
        accept == fractional_transfer_ok(*ctx),
{
    // Transfers carry no global state on either side.
    if ctx.consumed_globals.len() != 0 || ctx.produced_globals.len() != 0 {
        return false;
    }
    // Sum of inputs.
    let consumed_total = match sum_values(O_TOKEN, &ctx.consumed, true) {
        Some(t) => t,
        None => return false,
    };
    // Sum of outputs.
    let vals = owned_data(&ctx.produced);
    let produced_total = match sum_values(O_TOKEN, &vals, true) {
        Some(t) => t,
        None => return false,
    };
    consumed_total == produced_total
}

/// Validates a blank transition: a restatement of ownership without
/// economic transfer. It is exactly the transfer routine — the same
/// conservation law binds a self-transfer.
pub fn fractional_blank(ctx: &TransitionContext) -> (accept: bool)
    ensures
        accept == fractional_transfer_ok(*ctx),
{
    fractional_transfer(ctx)
}

/// The fractional-collection program unit: the issuance and transfer
/// routines under their entry offsets. The blank transition has no entry
/// of its own: the dispatch table routes it to the transfer routine.
pub fn fractionable() -> (u: ProgramUnit)
    ensures
        u.id == FRACTIONAL_LIB_ID,
        u.routines@ =~= seq![
            (FN_RGB21_ISSUE, RoutineId::FractionalIssue),
            (FN_FAC_TRANSFER, RoutineId::FractionalTransfer),
        ],
        unit_wf(u),
{
    let mut routines: Vec<(u16, RoutineId)> = Vec::new();
    routines.push((FN_RGB21_ISSUE, RoutineId::FractionalIssue));
    routines.push((FN_FAC_TRANSFER, RoutineId::FractionalTransfer));
    ProgramUnit { id: FRACTIONAL_LIB_ID, routines }
}

} // verus!
