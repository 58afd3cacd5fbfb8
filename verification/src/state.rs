//! The data a validation routine reads: state values, global fields,
//! owned-state records, and the per-call transition context.

use vstd::prelude::*;

verus! {

/// Global-state type tag: the asset's human-readable name.
pub const G_NAME: u64 = 0;
/// Global-state type tag: the asset's ticker symbol.
pub const G_TICKER: u64 = 1;
/// Global-state type tag: the number of decimal digits of the asset.
pub const G_PRECISION: u64 = 2;
/// Global-state type tag: the declared circulating supply.
pub const G_SUPPLY: u64 = 3;
/// Owned-state type tag: a fungible amount record.
pub const O_AMOUNT: u64 = 4;
/// Owned-state type tag: a fractional ownership record of a unique token.
pub const O_TOKEN: u64 = 5;

/// A state value: up to three ordered field elements, each present or
/// absent. Amounts are fixed-width unsigned integers; accumulation that
/// would exceed the width is a defined failure, never a wraparound.
///
/// For an owned-state record the first element is the state-type tag, the
/// second the amount, and the third (where the schema uses it) a token
/// identifier. For a global field the elements carry the field's value
/// alone; the type tag lives beside them in [`GlobalField`].
#[derive(Clone, Copy)]
pub struct StateValue {
    pub fst: Option<u64>,
    pub snd: Option<u64>,
    pub thd: Option<u64>,
}

impl StateValue {
    /// A two-element value: a state-type tag and an amount.
    pub fn pair(ty: u64, amount: u64) -> (v: StateValue)
        ensures
            v.fst == Some(ty),
            v.snd == Some(amount),
            v.thd is None,
    {
        StateValue { fst: Some(ty), snd: Some(amount), thd: None }
    }

    /// A three-element value: a state-type tag, an amount, and a token id.
    pub fn triple(ty: u64, amount: u64, token: u64) -> (v: StateValue)
        ensures
            v.fst == Some(ty),
            v.snd == Some(amount),
            v.thd == Some(token),
    {
        StateValue { fst: Some(ty), snd: Some(amount), thd: Some(token) }
    }

    /// A one-element value, as a global field carries.
    pub fn single(value: u64) -> (v: StateValue)
        ensures
            v.fst == Some(value),
            v.snd is None,
            v.thd is None,
    {
        StateValue { fst: Some(value), snd: None, thd: None }
    }
}

/// A named, typed, single-slot-or-absent datum describing the asset,
/// attached to the produced side of an issuance.
#[derive(Clone, Copy)]
pub struct GlobalField {
    /// The global-state type tag (one of `G_NAME`, `G_TICKER`, ...).
    pub ty: u64,
    /// The field's value.
    pub val: StateValue,
}

impl GlobalField {
    /// A global field of type `ty` holding the single-slot value `value`.
    pub fn new(ty: u64, value: u64) -> (g: GlobalField)
        ensures
            g.ty == ty,
            g.val.fst == Some(value),
            g.val.snd is None,
            g.val.thd is None,
    {
        GlobalField { ty, val: StateValue::single(value) }
    }
}

/// An owned-state record on the produced side of a transition: a state
/// value bound to an authorization token and an optional spending
/// condition. Validators read and aggregate the value; the token and the
/// condition are opaque to them.
#[derive(Clone, Copy)]
pub struct OwnedRecord {
    pub data: StateValue,
    pub auth: u64,
    pub lock: Option<u64>,
}

impl OwnedRecord {
    /// A produced record holding `data` under authorization token `auth`,
    /// with no spending condition.
    pub fn new(data: StateValue, auth: u64) -> (r: OwnedRecord)
        ensures
            r.data == data,
            r.auth == auth,
            r.lock is None,
    {
        OwnedRecord { data, auth, lock: None }
    }
}

/// Everything one validation call sees: the consumed owned-state values,
/// the produced owned-state records, and the global fields attached to the
/// consumed and produced sides. Built fresh per verification call and
/// immutable for its duration.
pub struct TransitionContext {
    /// Owned-state values being spent by this transition.
    pub consumed: Vec<StateValue>,
    /// Global fields attached to the consumed side.
    pub consumed_globals: Vec<GlobalField>,
    /// Owned-state records being created by this transition.
    pub produced: Vec<OwnedRecord>,
    /// Global fields attached to the produced side.
    pub produced_globals: Vec<GlobalField>,
}

impl TransitionContext {
    /// A context with nothing consumed, nothing produced and no globals.
    pub fn empty() -> (ctx: TransitionContext)
        ensures
            ctx.consumed@ =~= Seq::<StateValue>::empty(),
            ctx.consumed_globals@ =~= Seq::<GlobalField>::empty(),
            ctx.produced@ =~= Seq::<OwnedRecord>::empty(),
            ctx.produced_globals@ =~= Seq::<GlobalField>::empty(),
    {
        TransitionContext {
            consumed: Vec::new(),
            consumed_globals: Vec::new(),
            produced: Vec::new(),
            produced_globals: Vec::new(),
        }
    }
}

/// The state values carried by a sequence of produced records.
pub open spec fn record_values(records: Seq<OwnedRecord>) -> Seq<StateValue> {
    records.map(|i: int, r: OwnedRecord| r.data)
}

/// Extracts the state values of the produced records, in order.
pub fn owned_data(records: &Vec<OwnedRecord>) -> (vals: Vec<StateValue>)
    ensures
        vals@ == record_values(records@),
{
    let mut vals: Vec<StateValue> = Vec::new();
    let mut i: usize = 0;
    while i < records.len()
        invariant
            0 <= i <= records@.len(),
            vals@ =~= record_values(records@.take(i as int)),
        decreases records@.len() - i,
    {
        vals.push(records[i].data);
        i += 1;
    }
    proof {
        assert(records@.take(records@.len() as int) =~= records@);
    }
    vals
}

} // verus!
