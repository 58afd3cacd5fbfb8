//! The contract assembler: program units, the dispatch table from
//! transition-type keys to routine entry points, the contract definition
//! and its packaged, persistable form.
//!
//! A routine is a named, addressable entry point inside a compiled program
//! unit. A contract definition maps each transition-type key to such an
//! entry point; the invariant of a well-built package is that every key
//! resolves to a routine that exists in one of the packaged units. A
//! failure to resolve at verification time is a contract-configuration
//! defect — the executor halts rather than returning a rejection — which
//! the dispatch here models as the absent outcome.

use vstd::prelude::*;

use vstd::string::StringExecFns;

use crate::content::{codex_id, spec_codex_id};
use crate::fractional::{
    fractional_issue, fractional_issue_ok, fractional_transfer, fractional_transfer_ok,
};
use crate::fungible::{fungible_issue, fungible_issue_ok, fungible_transfer, fungible_transfer_ok};
use crate::state::TransitionContext;

verus! {

/// Entry point of the fungible issuance routine inside its program unit.
pub const FN_FUNGIBLE_ISSUE: u16 = 0;
/// Entry point of the fungible transfer routine inside its program unit.
pub const FN_FUNGIBLE_TRANSFER: u16 = 1;
/// Entry point of the fractional-collection issuance routine.
pub const FN_RGB21_ISSUE: u16 = 0;
/// Entry point of the fractional-collection transfer routine.
pub const FN_FAC_TRANSFER: u16 = 1;

/// Identifier of the program unit holding the fungible routines.
pub const FUNGIBLE_LIB_ID: u64 = 1;
/// Identifier of the program unit holding the fractional routines.
pub const FRACTIONAL_LIB_ID: u64 = 2;

/// Transition-type key of an issuance in a contract's dispatch table.
pub const KEY_ISSUE: u16 = 0;
/// Transition-type key of a transfer in a contract's dispatch table.
pub const KEY_TRANSFER: u16 = 1;
/// Transition-type key of a blank transition, routed to the transfer
/// routine.
pub const KEY_BLANK: u16 = 255;

/// The validation routines this crate defines.
#[derive(Clone, Copy, PartialEq, Eq, Structural, Debug)]
pub enum RoutineId {
    FungibleIssue,
    FungibleTransfer,
    FractionalIssue,
    FractionalTransfer,
}

/// An addressable routine entry point: a program-unit identifier and an
/// entry offset inside that unit.
#[derive(Clone, Copy, PartialEq, Eq, Structural, Debug)]
pub struct RoutineRef {
    pub unit: u64,
    pub entry: u16,
}

/// A compiled program unit: an identifier and the routines it exposes,
/// each under an entry offset.
pub struct ProgramUnit {
    pub id: u64,
    pub routines: Vec<(u16, RoutineId)>,
}

/// Whether a unit's entry offsets are pairwise distinct, so that an entry
/// offset names at most one routine.
pub open spec fn unit_wf(u: ProgramUnit) -> bool {
    forall|a: int, b: int|
        #![trigger u.routines@[a], u.routines@[b]]
        0 <= a < u.routines@.len() && 0 <= b < u.routines@.len() && a != b
            ==> u.routines@[a].0 != u.routines@[b].0
}

/// Whether a resolver's unit identifiers are pairwise distinct and every
/// unit is itself well-formed.
pub open spec fn units_wf(units: Seq<ProgramUnit>) -> bool {
    &&& forall|i: int, j: int|
        #![trigger units[i].id, units[j].id]
        0 <= i < units.len() && 0 <= j < units.len() && i != j ==> units[i].id != units[j].id
    &&& forall|i: int| 0 <= i < units.len() ==> unit_wf(#[trigger] units[i])
}

/// Whether a unit exposes a routine under the given entry offset.
pub open spec fn unit_resolves(u: ProgramUnit, entry: u16) -> bool {
    exists|k: int| 0 <= k < u.routines@.len() && u.routines@[k].0 == entry
}

/// Whether a routine reference resolves inside a set of program units.
pub open spec fn resolvable(units: Seq<ProgramUnit>, site: RoutineRef) -> bool {
    exists|i: int|
        0 <= i < units.len() && units[i].id == site.unit && unit_resolves(units[i], site.entry)
}

/// The routine a reference resolves to, where it resolves at all. With
/// well-formed units the value is unique.
pub open spec fn resolved_routine(units: Seq<ProgramUnit>, site: RoutineRef) -> RoutineId {
    let i = choose|i: int|
        0 <= i < units.len() && units[i].id == site.unit && unit_resolves(units[i], site.entry);
    let k = choose|k: int|
        0 <= k < units[i].routines@.len() && units[i].routines@[k].0 == site.entry;
    units[i].routines@[k].1
}

/// Looks a routine reference up in the program units: the model of the
/// executor's read-only program-unit resolver. Returns nothing exactly
/// where no packaged unit carries the referenced entry point.
pub fn resolve(units: &Vec<ProgramUnit>, site: RoutineRef) -> (r: Option<RoutineId>)
    requires
        units_wf(units@),
    ensures
        r is Some <==> resolvable(units@, site),
        r is Some ==> r.unwrap() == resolved_routine(units@, site),
{
    let mut i: usize = 0;
    while i < units.len()
        invariant
            i <= units@.len(),
            units_wf(units@),
            forall|a: int|
                0 <= a < i ==> !(units@[a].id == site.unit && unit_resolves(
                    #[trigger] units@[a],
                    site.entry,
                )),
        decreases units@.len() - i,
    {
        if units[i].id == site.unit {
            let unit = &units[i];
            let mut k: usize = 0;
            while k < unit.routines.len()
                invariant
                    units_wf(units@),
                    i < units@.len(),
                    *unit == units@[i as int],
                    units@[i as int].id == site.unit,
                    k <= unit.routines@.len(),
                    forall|b: int| 0 <= b < k ==> (#[trigger] unit.routines@[b]).0 != site.entry,
                decreases unit.routines@.len() - k,
            {
                let (entry, rid) = unit.routines[k];
                if entry == site.entry {
                    proof {
                        assert(0 <= i < units@.len() && units@[i as int].id == site.unit
                            && unit_resolves(units@[i as int], site.entry));
                        lemma_resolution_unique(units@, site, i as int, k as int);
                    }
                    return Some(rid);
                }
                k += 1;
            }
            proof {
                assert(!unit_resolves(units@[i as int], site.entry));
            }
        }
        i += 1;
    }
    proof {
        assert(!resolvable(units@, site));
    }
    None
}

/// With well-formed units a reference resolves to the routine at any
/// matching unit and entry: distinct unit identifiers and distinct entry
/// offsets leave no second candidate.
proof fn lemma_resolution_unique(units: Seq<ProgramUnit>, site: RoutineRef, i: int, k: int)
    requires
        units_wf(units),
        0 <= i < units.len(),
        units[i].id == site.unit,
        0 <= k < units[i].routines@.len(),
        units[i].routines@[k].0 == site.entry,
    ensures
        resolvable(units, site),
        resolved_routine(units, site) == units[i].routines@[k].1,
{
    assert(unit_resolves(units[i], site.entry));
    let i0 = choose|a: int|
        0 <= a < units.len() && units[a].id == site.unit && unit_resolves(units[a], site.entry);
    if i0 != i {
        assert(units[i0].id != units[i].id);
    }
    assert(i0 == i);
    let k0 = choose|b: int|
        0 <= b < units[i0].routines@.len() && units[i0].routines@[b].0 == site.entry;
    assert(0 <= k0 < units[i0].routines@.len() && units[i0].routines@[k0].0 == site.entry);
    if k0 != k {
        assert(unit_wf(units[i]));
        assert(units[i].routines@[k0].0 != units[i].routines@[k].0);
    }
    assert(k0 == k);
}

/// What a routine accepts: the validation predicate it decides.
pub open spec fn routine_ok(r: RoutineId, ctx: TransitionContext) -> bool {
    match r {
        RoutineId::FungibleIssue => fungible_issue_ok(ctx),
        RoutineId::FungibleTransfer => fungible_transfer_ok(ctx),
        RoutineId::FractionalIssue => fractional_issue_ok(ctx),
        RoutineId::FractionalTransfer => fractional_transfer_ok(ctx),
    }
}

/// Runs one validation routine on a transition context: single-pass,
/// call-local, to a terminal accept/reject outcome.
pub fn execute_routine(r: RoutineId, ctx: &TransitionContext) -> (accept: bool)
    ensures
        accept == routine_ok(r, *ctx),
{
    match r {
        RoutineId::FungibleIssue => fungible_issue(ctx),
        RoutineId::FungibleTransfer => fungible_transfer(ctx),
        RoutineId::FractionalIssue => fractional_issue(ctx),
        RoutineId::FractionalTransfer => fractional_transfer(ctx),
    }
}

/// An execution-complexity budget: whether the executor halts on
/// exhaustion, and the budget itself where one is configured.
#[derive(Clone, Copy, PartialEq, Eq, Structural, Debug)]
pub struct CoreLimits {
    pub halt: bool,
    pub complexity_limit: Option<u64>,
}

impl Default for CoreLimits {
    /// The deployment default: halt on exhaustion, no explicit budget.
    fn default() -> (r: CoreLimits)
        ensures
            r.halt == true,
            r.complexity_limit is None,
    {
        CoreLimits { halt: true, complexity_limit: None }
    }
}

/// A 256-bit field modulus as four little-endian limbs: the
/// numeric-domain parameter shared by all contracts of a deployment
/// profile.
#[derive(Clone, Copy, PartialEq, Eq, Structural, Debug)]
pub struct FieldOrder {
    pub l0: u64,
    pub l1: u64,
    pub l2: u64,
    pub l3: u64,
}

/// Lowest limb of the order of the field the curve secp256k1 is built on.
pub const FIELD_ORDER_SECP_L0: u64 = 0xFFFFFFFEFFFFFC2F;
/// Each of the three high limbs of that field order.
pub const FIELD_ORDER_SECP_HI: u64 = 0xFFFFFFFFFFFFFFFF;

/// The order of the field the curve secp256k1 is built on.
pub fn field_order_secp() -> (f: FieldOrder)
    ensures
        f.l0 == FIELD_ORDER_SECP_L0,
        f.l1 == FIELD_ORDER_SECP_HI,
        f.l2 == FIELD_ORDER_SECP_HI,
        f.l3 == FIELD_ORDER_SECP_HI,
{
    FieldOrder {
        l0: FIELD_ORDER_SECP_L0,
        l1: FIELD_ORDER_SECP_HI,
        l2: FIELD_ORDER_SECP_HI,
        l3: FIELD_ORDER_SECP_HI,
    }
}

/// A contract definition: the dispatch table from transition-type keys to
/// routine entry points, plus the schema metadata. Created once at
/// contract-design time and immutable thereafter; its identifier is
/// derived deterministically from its content.
pub struct ContractDef {
    pub name: String,
    pub developer: String,
    pub version: u16,
    pub timestamp: i64,
    pub field_order: FieldOrder,
    pub input_limits: CoreLimits,
    pub verification_limits: CoreLimits,
    pub verifiers: Vec<(u16, RoutineRef)>,
}

/// Whether a contract's transition-type keys are pairwise distinct, so
/// that a key selects at most one routine.
pub open spec fn codex_wf(c: ContractDef) -> bool {
    forall|a: int, b: int|
        #![trigger c.verifiers@[a], c.verifiers@[b]]
        0 <= a < c.verifiers@.len() && 0 <= b < c.verifiers@.len() && a != b
            ==> c.verifiers@[a].0 != c.verifiers@[b].0
}

/// Whether the contract's dispatch table carries the transition-type key.
pub open spec fn has_verifier(c: ContractDef, key: u16) -> bool {
    exists|i: int| 0 <= i < c.verifiers@.len() && c.verifiers@[i].0 == key
}

/// The routine reference the dispatch table binds to a key it carries.
/// With a well-formed contract the value is unique.
pub open spec fn verifier_at(c: ContractDef, key: u16) -> RoutineRef {
    let i = choose|i: int| 0 <= i < c.verifiers@.len() && c.verifiers@[i].0 == key;
    c.verifiers@[i].1
}

/// Looks a transition-type key up in the contract's dispatch table.
/// Returns nothing exactly where the table does not carry the key.
pub fn lookup_verifier(c: &ContractDef, key: u16) -> (r: Option<RoutineRef>)
    requires
        codex_wf(*c),
    ensures
        r is Some <==> has_verifier(*c, key),
        r is Some ==> r.unwrap() == verifier_at(*c, key),
{
    let mut i: usize = 0;
    while i < c.verifiers.len()
        invariant
            codex_wf(*c),
            i <= c.verifiers@.len(),
            forall|a: int| 0 <= a < i ==> (#[trigger] c.verifiers@[a]).0 != key,
        decreases c.verifiers@.len() - i,
    {
        let (k, site) = c.verifiers[i];
        if k == key {
            proof {
                assert(0 <= i < c.verifiers@.len() && c.verifiers@[i as int].0 == key);
                let i0 = choose|a: int| 0 <= a < c.verifiers@.len() && c.verifiers@[a].0 == key;
                if i0 != i {
                    assert(c.verifiers@[i0].0 != c.verifiers@[i as int].0);
                }
            }
            return Some(site);
        }
        i += 1;
    }
    proof {
        assert(!has_verifier(*c, key));
    }
    None
}

/// The outcome of one verification call: absent where the key is not in
/// the dispatch table or its routine reference does not resolve (a
/// contract-configuration defect, not a validation result), and otherwise
/// the selected routine's verdict on the context.
pub open spec fn spec_outcome(
    units: Seq<ProgramUnit>,
    c: ContractDef,
    key: u16,
    ctx: TransitionContext,
) -> Option<bool> {
    if has_verifier(c, key) && resolvable(units, verifier_at(c, key)) {
        Some(routine_ok(resolved_routine(units, verifier_at(c, key)), ctx))
    } else {
        None
    }
}

/// One verification call: selects the routine the dispatch table binds to
/// the transition-type key, resolves it among the program units, and runs
/// it on the context.
pub fn run_transition(
    units: &Vec<ProgramUnit>,
    c: &ContractDef,
    key: u16,
    ctx: &TransitionContext,
) -> (r: Option<bool>)
    requires
        units_wf(units@),
        codex_wf(*c),
    ensures
        r == spec_outcome(units@, *c, key, *ctx),
{
    let site = match lookup_verifier(c, key) {
        Some(s) => s,
        None => return None,
    };
    let rid = match resolve(units, site) {
        Some(r) => r,
        None => return None,
    };
    Some(execute_routine(rid, ctx))
}

/// The contract definition of the fungible asset: issuance under the
/// issue key, transfer under the transfer key, and the blank transition
/// routed to the same transfer routine.
pub fn fungible_codex(developer: String) -> (c: ContractDef)
    ensures
        c.name@ == "Fungible asset"@,
        c.developer == developer,
        c.version == 0,
        c.timestamp == 1732529307,
        c.field_order == field_order_secp_spec(),
        c.input_limits == (CoreLimits { halt: true, complexity_limit: None }),
        c.verification_limits == (CoreLimits { halt: true, complexity_limit: None }),
        c.verifiers@ =~= seq![
            (KEY_ISSUE, (RoutineRef { unit: FUNGIBLE_LIB_ID, entry: FN_FUNGIBLE_ISSUE })),
            (KEY_TRANSFER, (RoutineRef { unit: FUNGIBLE_LIB_ID, entry: FN_FUNGIBLE_TRANSFER })),
            (KEY_BLANK, (RoutineRef { unit: FUNGIBLE_LIB_ID, entry: FN_FUNGIBLE_TRANSFER })),
        ],
        codex_wf(c),
{
    let mut verifiers: Vec<(u16, RoutineRef)> = Vec::new();
    verifiers.push((KEY_ISSUE, RoutineRef { unit: FUNGIBLE_LIB_ID, entry: FN_FUNGIBLE_ISSUE }));
    verifiers.push(
        (KEY_TRANSFER, RoutineRef { unit: FUNGIBLE_LIB_ID, entry: FN_FUNGIBLE_TRANSFER }),
    );
    verifiers.push((KEY_BLANK, RoutineRef { unit: FUNGIBLE_LIB_ID, entry: FN_FUNGIBLE_TRANSFER }));
    ContractDef {
        name: String::from_str("Fungible asset"),
        developer,
        version: 0,
        timestamp: 1732529307,
        field_order: field_order_secp(),
        input_limits: CoreLimits { halt: true, complexity_limit: None },
        verification_limits: CoreLimits { halt: true, complexity_limit: None },
        verifiers,
    }
}

/// The contract definition of the fractional asset collection: issuance
/// under the issue key, transfer under the transfer key, and the blank
/// transition — an ordinary self-transfer — routed to the same transfer
/// routine.
pub fn fractional_codex(developer: String) -> (c: ContractDef)
    ensures
        c.name@ == "Fractional asset collection"@,
        c.developer == developer,
        c.version == 0,
        c.timestamp == 1732529307,
        c.field_order == field_order_secp_spec(),
        c.input_limits == (CoreLimits { halt: true, complexity_limit: None }),
        c.verification_limits == (CoreLimits { halt: true, complexity_limit: None }),
        c.verifiers@ =~= seq![
            (KEY_ISSUE, (RoutineRef { unit: FRACTIONAL_LIB_ID, entry: FN_RGB21_ISSUE })),
            (KEY_TRANSFER, (RoutineRef { unit: FRACTIONAL_LIB_ID, entry: FN_FAC_TRANSFER })),
            (KEY_BLANK, (RoutineRef { unit: FRACTIONAL_LIB_ID, entry: FN_FAC_TRANSFER })),
        ],
        codex_wf(c),
{
    let mut verifiers: Vec<(u16, RoutineRef)> = Vec::new();
    verifiers.push((KEY_ISSUE, RoutineRef { unit: FRACTIONAL_LIB_ID, entry: FN_RGB21_ISSUE }));
    verifiers.push((KEY_TRANSFER, RoutineRef { unit: FRACTIONAL_LIB_ID, entry: FN_FAC_TRANSFER }));
    verifiers.push((KEY_BLANK, RoutineRef { unit: FRACTIONAL_LIB_ID, entry: FN_FAC_TRANSFER }));
    ContractDef {
        name: String::from_str("Fractional asset collection"),
        developer,
        version: 0,
        timestamp: 1732529307,
        field_order: field_order_secp(),
        input_limits: CoreLimits { halt: true, complexity_limit: None },
        verification_limits: CoreLimits { halt: true, complexity_limit: None },
        verifiers,
    }
}

/// The field order of secp256k1 as a spec value.
pub open spec fn field_order_secp_spec() -> FieldOrder {
    FieldOrder {
        l0: FIELD_ORDER_SECP_L0,
        l1: FIELD_ORDER_SECP_HI,
        l2: FIELD_ORDER_SECP_HI,
        l3: FIELD_ORDER_SECP_HI,
    }
}

/// A contract package: the definition with its derived identifier, its
/// external interface description, the program units that supply its
/// routines, and the type-system description needed to interpret state
/// values. This is the unit that gets persisted; it is immutable once
/// built.
pub struct ContractPackage {
    pub codex: ContractDef,
    pub codex_id: u64,
    pub interface: String,
    pub units: Vec<ProgramUnit>,
    pub type_system: String,
}

/// Whether every transition-type key of the contract's dispatch table
/// resolves to a routine that exists in one of the packaged program
/// units: the invariant of a well-built package.
pub open spec fn all_verifiers_resolve(units: Seq<ProgramUnit>, c: ContractDef) -> bool {
    forall|i: int|
        0 <= i < c.verifiers@.len() ==> resolvable(units, (#[trigger] c.verifiers@[i]).1)
}

/// Builds a contract package. A dispatch-table key whose routine is
/// absent from the supplied program units is a build-time fatal defect —
/// the build yields nothing — never a runtime rejection. On success the
/// package carries the definition under its content-derived identifier.
pub fn package_new(
    codex: ContractDef,
    interface: String,
    units: Vec<ProgramUnit>,
    type_system: String,
) -> (r: Option<ContractPackage>)
    requires
        units_wf(units@),
        codex_wf(codex),
    ensures
        r is Some <==> all_verifiers_resolve(units@, codex),
        r is Some ==> r.unwrap().codex == codex,
        r is Some ==> r.unwrap().codex_id == spec_codex_id(codex),
        r is Some ==> r.unwrap().interface@ == interface@,
        r is Some ==> r.unwrap().units@ == units@,
        r is Some ==> r.unwrap().type_system@ == type_system@,
{
    let mut i: usize = 0;
    while i < codex.verifiers.len()
        invariant
            units_wf(units@),
            i <= codex.verifiers@.len(),
            forall|a: int|
                0 <= a < i ==> resolvable(units@, (#[trigger] codex.verifiers@[a]).1),
        decreases codex.verifiers@.len() - i,
    {
        let (_, site) = codex.verifiers[i];
        if resolve(&units, site).is_none() {
            proof {
                assert(!resolvable(units@, codex.verifiers@[i as int].1));
            }
            return None;
        }
        i += 1;
    }
    let id = codex_id(&codex);
    Some(ContractPackage { codex, codex_id: id, interface, units, type_system })
}

} // verus!
