//! The laws the validators obey, stated and proved once for every
//! context: acceptance and rejection conditions of issuance and transfer,
//! and the equivalence of blank transitions and transfers.

use vstd::prelude::*;

use crate::codex::{has_verifier, spec_outcome, verifier_at, ContractDef, ProgramUnit};
use crate::fractional::{
    fractional_issue_ok, fractional_transfer_ok, token_id_of, unique_token_ids,
};
use crate::fungible::{fungible_issue_ok, fungible_transfer_ok};
use crate::shared::{all_match, asset_spec_ok, spec_precision, spec_supply, sum_of, supply_field_ok};
use crate::state::{record_values, GlobalField, TransitionContext, O_AMOUNT, O_TOKEN};

verus! {

/// Whether a global field of the given type occurs anywhere in the
/// sequence.
pub open spec fn has_global(globals: Seq<GlobalField>, ty: u64) -> bool {
    exists|i: int| 0 <= i < globals.len() && (#[trigger] globals[i]).ty == ty
}

/// Every issuance context with the required global fields present and
/// well-typed, precision within a byte, and produced amounts summing
/// exactly to the declared supply, is accepted by fungible issuance.
pub proof fn lemma_fungible_issue_accepts(ctx: TransitionContext)
    requires
        asset_spec_ok(ctx.produced_globals@),
        spec_precision(ctx.produced_globals@) <= 255,
        supply_field_ok(ctx.produced_globals@),
        all_match(record_values(ctx.produced@), O_AMOUNT, false),
        sum_of(record_values(ctx.produced@)) == spec_supply(ctx.produced_globals@),
    ensures
        fungible_issue_ok(ctx),
{
}

/// Every issuance context whose produced amounts do not sum to the
/// declared supply is rejected, by fungible and fractional issuance
/// alike.
pub proof fn lemma_issue_rejects_supply_mismatch(ctx: TransitionContext)
    requires
        sum_of(record_values(ctx.produced@)) != spec_supply(ctx.produced_globals@),
    ensures
        !fungible_issue_ok(ctx),
        !fractional_issue_ok(ctx),
{
}

/// Every issuance context with the required global fields present and
/// well-typed, precision within a byte, pairwise-distinct produced token
/// identifiers, and produced fractions summing exactly to the declared
/// supply, is accepted by fractional issuance.
pub proof fn lemma_fractional_issue_accepts(ctx: TransitionContext)
    requires
        asset_spec_ok(ctx.produced_globals@),
        spec_precision(ctx.produced_globals@) <= 255,
        supply_field_ok(ctx.produced_globals@),
        all_match(record_values(ctx.produced@), O_TOKEN, true),
        unique_token_ids(record_values(ctx.produced@)),
        sum_of(record_values(ctx.produced@)) == spec_supply(ctx.produced_globals@),
    ensures
        fractional_issue_ok(ctx),
{
}

/// Every issuance context missing any one of the name, ticker, precision
/// or supply fields is rejected by fungible issuance, and equally by
/// fractional issuance.
pub proof fn lemma_issue_rejects_missing_global(ctx: TransitionContext, ty: u64)
    requires
        ty == crate::state::G_NAME || ty == crate::state::G_TICKER || ty
            == crate::state::G_PRECISION || ty == crate::state::G_SUPPLY,
        !has_global(ctx.produced_globals@, ty),
    ensures
        !fungible_issue_ok(ctx),
        !fractional_issue_ok(ctx),
{
    let globals = ctx.produced_globals@;
    if asset_spec_ok(globals) && supply_field_ok(globals) {
        if ty == crate::state::G_NAME {
            if globals[0].ty == ty {
                assert(has_global(globals, ty));
            } else {
                assert(globals[1].ty == ty);
                assert(has_global(globals, ty));
            }
        } else if ty == crate::state::G_TICKER {
            if globals[0].ty == ty {
                assert(has_global(globals, ty));
            } else {
                assert(globals[1].ty == ty);
                assert(has_global(globals, ty));
            }
        } else if ty == crate::state::G_PRECISION {
            assert(globals[2].ty == ty);
            assert(has_global(globals, ty));
        } else {
            assert(globals[3].ty == ty);
            assert(has_global(globals, ty));
        }
    }
}

/// Every transfer context with no global state attached and consumed and
/// produced amounts summing exactly equal, without overflow, is accepted
/// by fungible transfer.
pub proof fn lemma_fungible_transfer_accepts(ctx: TransitionContext)
    requires
        ctx.consumed_globals@.len() == 0,
        ctx.produced_globals@.len() == 0,
        all_match(ctx.consumed@, O_AMOUNT, false),
        all_match(record_values(ctx.produced@), O_AMOUNT, false),
        sum_of(ctx.consumed@) <= u64::MAX,
        sum_of(record_values(ctx.produced@)) <= u64::MAX,
        sum_of(ctx.consumed@) == sum_of(record_values(ctx.produced@)),
    ensures
        fungible_transfer_ok(ctx),
{
}

/// Every transfer context with no global state attached and consumed and
/// produced fractions summing exactly equal, without overflow, is
/// accepted by fractional transfer — and, being exactly the transfer
/// routine, by a blank transition too.
pub proof fn lemma_fractional_transfer_accepts(ctx: TransitionContext)
    requires
        ctx.consumed_globals@.len() == 0,
        ctx.produced_globals@.len() == 0,
        all_match(ctx.consumed@, O_TOKEN, true),
        all_match(record_values(ctx.produced@), O_TOKEN, true),
        sum_of(ctx.consumed@) <= u64::MAX,
        sum_of(record_values(ctx.produced@)) <= u64::MAX,
        sum_of(ctx.consumed@) == sum_of(record_values(ctx.produced@)),
    ensures
        fractional_transfer_ok(ctx),
{
}

/// Every transfer context whose sums differ — inflation or deflation —
/// or whose summation overflows the amount width is rejected, by the
/// fungible and the fractional transfer alike.
pub proof fn lemma_transfer_rejects(ctx: TransitionContext)
    requires
        sum_of(ctx.consumed@) != sum_of(record_values(ctx.produced@)) || sum_of(ctx.consumed@)
            > u64::MAX || sum_of(record_values(ctx.produced@)) > u64::MAX,
    ensures
        !fungible_transfer_ok(ctx),
        !fractional_transfer_ok(ctx),
{
}

/// Every issuance that produces two records carrying the same token
/// identifier is rejected by fractional issuance.
pub proof fn lemma_fractional_issue_rejects_duplicate(ctx: TransitionContext, i: int, j: int)
    requires
        0 <= i < record_values(ctx.produced@).len(),
        0 <= j < record_values(ctx.produced@).len(),
        i != j,
        token_id_of(record_values(ctx.produced@)[i]) == token_id_of(
            record_values(ctx.produced@)[j],
        ),
    ensures
        !fractional_issue_ok(ctx),
{
    assert(!unique_token_ids(record_values(ctx.produced@)));
}

/// A blank transition behaves identically to a transfer: in any contract
/// whose dispatch table routes the blank key to the same routine entry as
/// the transfer key — as the assembled contracts here do — the outcome of
/// a verification call under either key is the same, on every context and
/// every set of program units.
pub proof fn lemma_blank_is_transfer(
    units: Seq<ProgramUnit>,
    c: ContractDef,
    blank_key: u16,
    transfer_key: u16,
    ctx: TransitionContext,
)
    requires
        has_verifier(c, blank_key),
        has_verifier(c, transfer_key),
        verifier_at(c, blank_key) == verifier_at(c, transfer_key),
    ensures
        spec_outcome(units, c, blank_key, ctx) == spec_outcome(units, c, transfer_key, ctx),
{
}

} // verus!
