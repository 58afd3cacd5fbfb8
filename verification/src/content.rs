//! The content-derived contract identifier.
//!
//! A contract definition's identifier is a deterministic digest of its
//! full content — metadata and dispatch table alike — so two contracts
//! with identical logic and metadata are indistinguishable and share an
//! id. The definition is first flattened to a word stream (strings as
//! their character codes with separators between fields) and the stream
//! folded through a multiply-and-add mix.

use vstd::prelude::*;

use vstd::string::StrSliceExecFns;

use crate::codex::{ContractDef, CoreLimits, RoutineRef};

verus! {

/// Seed of the content digest.
pub const DIGEST_SEED: u64 = 0xcbf29ce484222325;
/// Multiplier of the content digest's mixing step.
pub const DIGEST_MULT: u64 = 0x100000001b3;
/// Separator word between variable-length fields of the word stream; no
/// character code reaches it.
pub const FIELD_SEP: u64 = 0xFFFFFFFFFFFFFFFF;

/// One mixing step of the digest: multiply and add, wrapping at the word
/// width.
pub open spec fn mix(h: u64, w: u64) -> u64 {
    vstd::wrapping::u64_specs::wrapping_add(
        vstd::wrapping::u64_specs::wrapping_mul(h, DIGEST_MULT),
        w,
    )
}

/// The digest of a word stream: the mix folded over it from the seed.
pub open spec fn digest_words(s: Seq<u64>) -> u64
    decreases s.len(),
{
    if s.len() == 0 {
        DIGEST_SEED
    } else {
        mix(digest_words(s.drop_last()), s.last())
    }
}

/// A string's contribution to the word stream: its character codes.
pub open spec fn chars_words(s: Seq<char>) -> Seq<u64> {
    s.map(|i: int, c: char| c as u64)
}

/// A complexity budget's contribution to the word stream.
pub open spec fn limits_words(l: CoreLimits) -> Seq<u64> {
    seq![
        if l.halt {
            1u64
        } else {
            0u64
        },
        if l.complexity_limit is Some {
            1u64
        } else {
            0u64
        },
        l.complexity_limit.unwrap_or(0u64),
    ]
}

/// A dispatch-table entry's contribution to the word stream: the
/// transition-type key, the unit identifier and the entry offset.
pub open spec fn verifier_words(v: (u16, RoutineRef)) -> Seq<u64> {
    seq![v.0 as u64, v.1.unit, v.1.entry as u64]
}

/// The whole dispatch table's contribution, in table order.
pub open spec fn verifiers_words(s: Seq<(u16, RoutineRef)>) -> Seq<u64>
    decreases s.len(),
{
    if s.len() == 0 {
        Seq::<u64>::empty()
    } else {
        verifiers_words(s.drop_last()) + verifier_words(s.last())
    }
}

/// The full word stream of a contract definition: every metadata field
/// and every dispatch-table entry, in a fixed order.
pub open spec fn def_words(c: ContractDef) -> Seq<u64> {
    chars_words(c.name@) + seq![FIELD_SEP] + chars_words(c.developer@) + seq![
        FIELD_SEP,
        c.version as u64,
        c.timestamp as u64,
        c.field_order.l0,
        c.field_order.l1,
        c.field_order.l2,
        c.field_order.l3,
    ] + limits_words(c.input_limits) + limits_words(c.verification_limits) + verifiers_words(
        c.verifiers@,
    )
}

/// The content-derived identifier of a contract definition.
pub open spec fn spec_codex_id(c: ContractDef) -> u64 {
    digest_words(def_words(c))
}

/// Extending a prefix of the dispatch table extends its word stream by
/// the next entry's words.
proof fn lemma_verifiers_words_take_step(s: Seq<(u16, RoutineRef)>, i: int)
    requires
        0 <= i < s.len(),
    ensures
        verifiers_words(s.take(i + 1)) == verifiers_words(s.take(i)) + verifier_words(s[i]),
{
    assert(s.take(i + 1).drop_last() =~= s.take(i));
    assert(s.take(i + 1).last() == s[i]);
}

/// Extending a prefix of the word stream mixes the next word into its
/// digest.
proof fn lemma_digest_take_step(s: Seq<u64>, i: int)
    requires
        0 <= i < s.len(),
    ensures
        digest_words(s.take(i + 1)) == mix(digest_words(s.take(i)), s[i]),
{
    assert(s.take(i + 1).drop_last() =~= s.take(i));
    assert(s.take(i + 1).last() == s[i]);
}

/// Appends a string's character codes to the word stream.
fn push_chars(words: &mut Vec<u64>, s: &str)
    ensures
        final(words)@ == old(words)@ + chars_words(s@),
{
    let n = s.unicode_len();
    let mut i: usize = 0;
    while i < n
        invariant
            n == s@.len(),
            i <= n,
            words@ =~= old(words)@ + chars_words(s@.take(i as int)),
        decreases n - i,
    {
        let c = s.get_char(i);
        words.push(c as u64);
        i += 1;
    }
    proof {
        assert(s@.take(n as int) =~= s@);
        assert(words@ =~= old(words)@ + chars_words(s@));
    }
}

/// Appends a complexity budget's words to the word stream.
fn push_limits(words: &mut Vec<u64>, l: &CoreLimits)
    ensures
        final(words)@ == old(words)@ + limits_words(*l),
{
    words.push(if l.halt {
        1u64
    } else {
        0u64
    });
    words.push(match l.complexity_limit {
        Some(_) => 1u64,
        None => 0u64,
    });
    words.push(match l.complexity_limit {
        Some(v) => v,
        None => 0u64,
    });
    proof {
        assert(words@ =~= old(words)@ + limits_words(*l));
    }
}

/// Derives the content identifier of a contract definition. Two
/// definitions of identical content share the identifier.
pub fn codex_id(c: &ContractDef) -> (id: u64)
    ensures
        id == spec_codex_id(*c),
{
    let mut words: Vec<u64> = Vec::new();
    push_chars(&mut words, c.name.as_str());
    let ghost w_name: Seq<u64> = words@;
    proof {
        assert(w_name =~= chars_words(c.name@));
    }
    words.push(FIELD_SEP);
    push_chars(&mut words, c.developer.as_str());
    let ghost w_dev: Seq<u64> = words@;
    proof {
        assert(w_dev =~= chars_words(c.name@) + seq![FIELD_SEP] + chars_words(c.developer@));
    }
    words.push(FIELD_SEP);
    words.push(c.version as u64);
    words.push(c.timestamp as u64);
    words.push(c.field_order.l0);
    words.push(c.field_order.l1);
    words.push(c.field_order.l2);
    words.push(c.field_order.l3);
    let ghost w_fixed: Seq<u64> = words@;
    proof {
        assert(w_fixed =~= chars_words(c.name@) + seq![FIELD_SEP] + chars_words(c.developer@)
            + seq![
            FIELD_SEP,
            c.version as u64,
            c.timestamp as u64,
            c.field_order.l0,
            c.field_order.l1,
            c.field_order.l2,
            c.field_order.l3,
        ]);
    }
    push_limits(&mut words, &c.input_limits);
    push_limits(&mut words, &c.verification_limits);
    let ghost w_limits: Seq<u64> = words@;
    proof {
        assert(w_limits =~= w_fixed + limits_words(c.input_limits) + limits_words(
            c.verification_limits,
        ));
    }
    let mut k: usize = 0;
    while k < c.verifiers.len()
        invariant
            k <= c.verifiers@.len(),
            words@ =~= w_limits + verifiers_words(c.verifiers@.take(k as int)),
        decreases c.verifiers@.len() - k,
    {
        let (key, site) = c.verifiers[k];
        proof {
            lemma_verifiers_words_take_step(c.verifiers@, k as int);
        }
        words.push(key as u64);
        words.push(site.unit);
        words.push(site.entry as u64);
        k += 1;
    }
    proof {
        assert(c.verifiers@.take(c.verifiers@.len() as int) =~= c.verifiers@);
        assert(words@ =~= def_words(*c));
    }
    let mut h: u64 = DIGEST_SEED;
    let mut i: usize = 0;
    proof {
        assert(words@.take(0) =~= Seq::<u64>::empty());
    }
    while i < words.len()
        invariant
            i <= words@.len(),
            h == digest_words(words@.take(i as int)),
        decreases words@.len() - i,
    {
        proof {
            lemma_digest_take_step(words@, i as int);
        }
        h = h.wrapping_mul(DIGEST_MULT).wrapping_add(words[i]);
        i += 1;
    }
    proof {
        assert(words@.take(words@.len() as int) =~= words@);
    }
    h
}

/// The content identity law: two contract definitions of identical
/// content — same name, developer, version, timestamp, numeric-domain
/// parameter, complexity budgets and dispatch table — share one
/// identifier.
pub proof fn lemma_codex_id_deterministic(c1: ContractDef, c2: ContractDef)
    requires
        c1.name@ == c2.name@,
        c1.developer@ == c2.developer@,
        c1.version == c2.version,
        c1.timestamp == c2.timestamp,
        c1.field_order == c2.field_order,
        c1.input_limits == c2.input_limits,
        c1.verification_limits == c2.verification_limits,
        c1.verifiers@ == c2.verifiers@,
    ensures
        spec_codex_id(c1) == spec_codex_id(c2),
{
    assert(def_words(c1) == def_words(c2));
}

} // verus!
