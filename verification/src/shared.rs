//! Subroutines shared by every asset schema: the asset-spec check over the
//! descriptive global fields, and the typed accumulation of owned-state
//! amounts with overflow detection.

use vstd::prelude::*;

use crate::state::{GlobalField, StateValue, G_NAME, G_PRECISION, G_SUPPLY, G_TICKER};

verus! {

/// Whether a state value occupies exactly one slot, as every descriptive
/// global field must.
pub open spec fn single_slot(v: StateValue) -> bool {
    &&& v.fst is Some
    &&& v.snd is None
    &&& v.thd is None
}

/// Whether an owned-state value has the shape the schema declares: its
/// first element is the state-type tag, its second the amount, and its
/// third a token identifier where `with_token` holds and empty otherwise.
pub open spec fn value_matches(v: StateValue, ty: u64, with_token: bool) -> bool {
    &&& v.fst == Some(ty)
    &&& v.snd is Some
    &&& if with_token {
        v.thd is Some
    } else {
        v.thd is None
    }
}

/// Whether every value in the sequence matches the declared shape.
pub open spec fn all_match(s: Seq<StateValue>, ty: u64, with_token: bool) -> bool {
    forall|i: int| 0 <= i < s.len() ==> value_matches(s[i], ty, with_token)
}

/// The amount an owned-state value carries: its second element, or zero
/// where that element is absent (an absent element never passes the shape
/// check, so the zero is never summed by an accepting routine).
pub open spec fn amount_of(v: StateValue) -> int {
    match v.snd {
        Some(a) => a as int,
        None => 0,
    }
}

/// The mathematical sum of the amounts in a sequence of values.
pub open spec fn sum_of(s: Seq<StateValue>) -> int
    decreases s.len(),
{
    if s.len() == 0 {
        0
    } else {
        sum_of(s.drop_last()) + amount_of(s.last())
    }
}

/// A prefix never sums to more than the whole sequence: every amount is
/// non-negative.
pub proof fn lemma_sum_take_le(s: Seq<StateValue>, i: int)
    requires
        0 <= i <= s.len(),
    ensures
        sum_of(s.take(i)) <= sum_of(s),
    decreases s.len() - i,
{
    if i < s.len() {
        assert(s.take(i + 1).drop_last() =~= s.take(i));
        assert(s.take(i + 1).last() == s[i]);
        lemma_sum_take_le(s, i + 1);
    } else {
        assert(s.take(i) =~= s);
    }
}

/// Extending a prefix by one element adds that element's amount to its sum.
pub proof fn lemma_sum_take_step(s: Seq<StateValue>, i: int)
    requires
        0 <= i < s.len(),
    ensures
        sum_of(s.take(i + 1)) == sum_of(s.take(i)) + amount_of(s[i]),
{
    assert(s.take(i + 1).drop_last() =~= s.take(i));
    assert(s.take(i + 1).last() == s[i]);
}

/// Whether the global fields attached to a produced-side context describe
/// an asset: the first two are the name and the ticker (in either order),
/// the third is the precision, and each occupies exactly one slot.
pub open spec fn asset_spec_ok(globals: Seq<GlobalField>) -> bool {
    &&& globals.len() >= 3
    &&& ((globals[0].ty == G_NAME && globals[1].ty == G_TICKER) || (globals[0].ty == G_TICKER
        && globals[1].ty == G_NAME))
    &&& globals[2].ty == G_PRECISION
    &&& single_slot(globals[0].val)
    &&& single_slot(globals[1].val)
    &&& single_slot(globals[2].val)
}

/// The declared precision of an asset whose global fields pass the
/// asset-spec check: the value of the third field.
pub open spec fn spec_precision(globals: Seq<GlobalField>) -> int {
    match globals[2].val.fst {
        Some(p) => p as int,
        None => 0,
    }
}

/// Checks that the fields required to describe an asset — name, ticker and
/// precision — are each present at the head of the produced global state,
/// of the declared type, and single-slot. Returns the precision value on
/// success; absence or wrong typing of any one field is rejection.
pub fn validate_asset_spec(globals: &Vec<GlobalField>) -> (r: Option<u64>)
    ensures
        r is Some <==> asset_spec_ok(globals@),
        r is Some ==> r.unwrap() as int == spec_precision(globals@),
{
    if globals.len() < 3 {
        return None;
    }
    let first = globals[0];
    let second = globals[1];
    let third = globals[2];
    let naming_ok = (first.ty == G_NAME && second.ty == G_TICKER) || (first.ty == G_TICKER
        && second.ty == G_NAME);
    if !naming_ok {
        return None;
    }
    if third.ty != G_PRECISION {
        return None;
    }
    if !(slot_ok(&first.val) && slot_ok(&second.val) && slot_ok(&third.val)) {
        return None;
    }
    match third.val.fst {
        Some(p) => Some(p),
        None => None,
    }
}

/// Whether the produced global state carries the declared-supply field:
/// exactly one, right after the three descriptive fields, of the supply
/// type and single-slot, with no unexpected field populated alongside.
pub open spec fn supply_field_ok(globals: Seq<GlobalField>) -> bool {
    &&& globals.len() == 4
    &&& globals[3].ty == G_SUPPLY
    &&& single_slot(globals[3].val)
}

/// The declared circulating supply: the value of the fourth global field.
pub open spec fn spec_supply(globals: Seq<GlobalField>) -> int {
    match globals[3].val.fst {
        Some(s) => s as int,
        None => 0,
    }
}

/// Checks that a value occupies exactly one slot.
fn slot_ok(v: &StateValue) -> (r: bool)
    ensures
        r == single_slot(*v),
{
    v.fst.is_some() && v.snd.is_none() && v.thd.is_none()
}

/// Accumulates the amounts of all owned-state values of the given type and
/// shape. Returns the total, or nothing where a value has the wrong type
/// tag or shape, or where the accumulation overflows the amount width —
/// a defined failure, never a silent wraparound.
pub fn sum_values(ty: u64, vals: &Vec<StateValue>, with_token: bool) -> (r: Option<u64>)
    ensures
        r is Some <==> all_match(vals@, ty, with_token) && sum_of(vals@) <= u64::MAX,
        r is Some ==> r.unwrap() as int == sum_of(vals@),
{
    let mut total: u64 = 0;
    let mut i: usize = 0;
    while i < vals.len()
        invariant
            i <= vals@.len(),
            forall|j: int| 0 <= j < i ==> value_matches(vals@[j], ty, with_token),
            total as int == sum_of(vals@.take(i as int)),
        decreases vals@.len() - i,
    {
        let v = vals[i];
        let ty_ok = match v.fst {
            Some(t) => t == ty,
            None => false,
        };
        let third_ok = if with_token {
            v.thd.is_some()
        } else {
            v.thd.is_none()
        };
        if !(ty_ok && v.snd.is_some() && third_ok) {
            proof {
                assert(!value_matches(vals@[i as int], ty, with_token));
            }
            return None;
        }
        let amt = match v.snd {
            Some(a) => a,
            None => 0,
        };
        proof {
            lemma_sum_take_step(vals@, i as int);
        }
        total = match total.checked_add(amt) {
            Some(t) => t,
            None => {
                proof {
                    lemma_sum_take_le(vals@, i as int + 1);
                }
                return None;
            },
        };
        i += 1;
    }
    proof {
        assert(vals@.take(vals@.len() as int) =~= vals@);
        assert(all_match(vals@, ty, with_token));
    }
    Some(total)
}

} // verus!
