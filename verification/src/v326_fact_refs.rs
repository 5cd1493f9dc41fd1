//! The fact and evidence references that each lifecycle feature is derived from.

use vstd::prelude::*;

use crate::lifecycle_v326::{
    V326ContractRetention, V326EvidenceKind, V326LifecycleContractRecord, V326LifecycleEvidenceRecord,
    V326LifecycleFactKind, V326LifecycleFactRecord,
};
use crate::text::{trim_text, trimmed, owned, concat2, concat3, lower_contains, lowercase_contains, ascii_lower, char_ascii_lower, chars_of, sorted_unique_texts, text_views, texts_strictly_sorted};
use crate::v326_source_api::{source_api_symbol_tails, symbol_tail};
use crate::v326_graph_build::{refs_for, refs_of_kind};
use crate::v326_release_pairs::{
    fact_user_data_object_ids, is_authoritative_binding, lower_has_prefix, lower_starts_with, is_authoritative_object_binding_fact, user_data_ids,
};

verus! {

/// The ids of the facts that meet a condition, in order.
pub open spec fn ids_where(
    facts: Seq<V326LifecycleFactRecord>,
    p: spec_fn(V326LifecycleFactRecord) -> bool,
) -> Seq<Seq<char>>
    decreases facts.len(),
{
    if facts.len() == 0 {
        Seq::empty()
    } else if p(facts.last()) {
        ids_where(facts.drop_last(), p).push(facts.last().fact_id@)
    } else {
        ids_where(facts.drop_last(), p)
    }
}

/// The ids of the facts that `keep` accepts, in order; `keep` decides as `p` says.
pub fn fact_ids_where<F: Fn(&V326LifecycleFactRecord) -> bool>(
    facts: &[V326LifecycleFactRecord],
    keep: F,
    Ghost(p): Ghost<spec_fn(V326LifecycleFactRecord) -> bool>,
) -> (r: Vec<String>)
    requires
        forall|f: &V326LifecycleFactRecord| #[trigger] keep.requires((f,)),
        forall|f: &V326LifecycleFactRecord, b: bool| #[trigger] keep.ensures((f,), b) ==> b == p(*f),
    ensures
        text_views(r@) == ids_where(facts@, p),
{
    let mut r: Vec<String> = Vec::new();
    let mut i: usize = 0;
    assert(facts@.take(0) =~= Seq::<V326LifecycleFactRecord>::empty());
    while i < facts.len()
        invariant
            0 <= i <= facts@.len(),
            forall|f: &V326LifecycleFactRecord| #[trigger] keep.requires((f,)),
            forall|f: &V326LifecycleFactRecord, b: bool| #[trigger] keep.ensures((f,), b) ==> b == p(*f),
            text_views(r@) == ids_where(facts@.take(i as int), p),
        decreases facts.len() - i,
    {
        assert(facts@.take(i + 1).drop_last() =~= facts@.take(i as int));
        if keep(&facts[i]) {
            let ghost before = text_views(r@);
            r.push(facts[i].fact_id.clone());
            assert(text_views(r@) =~= before.push(facts@[i as int].fact_id@));
        }
        i = i + 1;
    }
    assert(facts@.take(facts@.len() as int) =~= facts@);
    r
}

/// Some contract says that the foreign side may retain the callback.
pub open spec fn contracts_may_retain(contracts: Seq<V326LifecycleContractRecord>) -> bool {
    exists|i: int| 0 <= i < contracts.len() && #[trigger] contracts[i].retention == V326ContractRetention::MayRetainCallback
}

/// Whether some contract says that the foreign side may retain the callback.
pub fn has_contract_retention(contracts: &[V326LifecycleContractRecord]) -> (b: bool)
    ensures
        b == contracts_may_retain(contracts@),
{
    let mut i: usize = 0;
    while i < contracts.len()
        invariant
            0 <= i <= contracts@.len(),
            forall|k: int| 0 <= k < i ==> contracts@[k].retention != V326ContractRetention::MayRetainCallback,
        decreases contracts.len() - i,
    {
        if contracts[i].retention == V326ContractRetention::MayRetainCallback {
            return true;
        }
        i = i + 1;
    }
    false
}

/// The ids of the contracts that say that the callback may be retained, in order.
pub open spec fn retaining_contract_ids(contracts: Seq<V326LifecycleContractRecord>) -> Seq<Seq<char>>
    decreases contracts.len(),
{
    if contracts.len() == 0 {
        Seq::empty()
    } else if contracts.last().retention == V326ContractRetention::MayRetainCallback {
        retaining_contract_ids(contracts.drop_last()).push(contracts.last().contract_id@)
    } else {
        retaining_contract_ids(contracts.drop_last())
    }
}

/// The references behind retention: the retention hints and the retaining contracts.
pub open spec fn retention_ref_set(
    evidence: Seq<V326LifecycleEvidenceRecord>,
    contracts: Seq<V326LifecycleContractRecord>,
) -> Set<Seq<char>> {
    (refs_of_kind(evidence, V326EvidenceKind::ForeignRetentionHint) + retaining_contract_ids(contracts)).to_set()
}

/// The references behind retention, in increasing order, each once.
pub fn retention_refs(evidence: &Vec<V326LifecycleEvidenceRecord>, contracts: &[V326LifecycleContractRecord]) -> (r: Vec<
    String,
>)
    ensures
        texts_strictly_sorted(text_views(r@)),
        text_views(r@).to_set() == retention_ref_set(evidence@, contracts@),
{
    let mut refs = refs_for(evidence, V326EvidenceKind::ForeignRetentionHint);
    let ghost hints = text_views(refs@);
    let mut i: usize = 0;
    assert(contracts@.take(0) =~= Seq::<V326LifecycleContractRecord>::empty());
    while i < contracts.len()
        invariant
            0 <= i <= contracts@.len(),
            text_views(refs@) == hints + retaining_contract_ids(contracts@.take(i as int)),
        decreases contracts.len() - i,
    {
        assert(contracts@.take(i + 1).drop_last() =~= contracts@.take(i as int));
        if contracts[i].retention == V326ContractRetention::MayRetainCallback {
            let ghost before = text_views(refs@);
            refs.push(contracts[i].contract_id.clone());
            assert(text_views(refs@) =~= before.push(contracts@[i as int].contract_id@));
            assert(hints + retaining_contract_ids(contracts@.take(i + 1)) =~= (hints + retaining_contract_ids(
                contracts@.take(i as int),
            )).push(contracts@[i as int].contract_id@));
        }
        i = i + 1;
    }
    assert(contracts@.take(contracts@.len() as int) =~= contracts@);
    sorted_unique_texts(refs)
}


/// The text ends with the suffix.
pub open spec fn has_suffix(s: Seq<char>, suffix: Seq<char>) -> bool {
    suffix.len() <= s.len() && s.subrange(s.len() - suffix.len(), s.len() as int) == suffix
}

/// The text ends with the suffix once its ASCII letters are lower-cased.
pub open spec fn lower_has_suffix(s: Seq<char>, suffix: Seq<char>) -> bool {
    &&& suffix.len() <= s.len()
    &&& forall|k: int| 0 <= k < suffix.len() ==> ascii_lower(#[trigger] s[s.len() - suffix.len() + k]) == suffix[k]
}

/// Whether `s` ends with `suffix`.
pub fn text_ends_with(s: &str, suffix: &str) -> (b: bool)
    ensures
        b == has_suffix(s@, suffix@),
{
    let x = chars_of(s);
    let p = chars_of(suffix);
    if p.len() > x.len() {
        return false;
    }
    let off = x.len() - p.len();
    let mut i: usize = 0;
    while i < p.len()
        invariant
            x@ == s@,
            p@ == suffix@,
            off + p.len() == x.len(),
            0 <= i <= p.len(),
            forall|k: int| 0 <= k < i ==> x@[off + k] == p@[k],
        decreases p.len() - i,
    {
        if x[off + i] != p[i] {
            assert(s@.subrange(off as int, s@.len() as int)[i as int] != suffix@[i as int]);
            return false;
        }
        i = i + 1;
    }
    assert(s@.subrange(off as int, s@.len() as int) =~= suffix@);
    true
}

/// Whether `s`, with its ASCII letters lower-cased, ends with `suffix`.
pub fn text_lower_ends_with(s: &str, suffix: &str) -> (b: bool)
    ensures
        b == lower_has_suffix(s@, suffix@),
{
    let x = chars_of(s);
    let p = chars_of(suffix);
    if p.len() > x.len() {
        return false;
    }
    let off = x.len() - p.len();
    let mut i: usize = 0;
    while i < p.len()
        invariant
            x@ == s@,
            p@ == suffix@,
            off + p.len() == x.len(),
            0 <= i <= p.len(),
            forall|k: int| 0 <= k < i ==> ascii_lower(#[trigger] x@[off + k]) == p@[k],
        decreases p.len() - i,
    {
        if char_ascii_lower(x[off + i]) != p[i] {
            assert(ascii_lower(s@[s@.len() - suffix@.len() + i]) != suffix@[i as int]);
            return false;
        }
        i = i + 1;
    }
    true
}

/// The symbol path is present and ends with the suffix.
pub open spec fn symbol_has_suffix(symbol: Option<String>, suffix: Seq<char>) -> bool {
    symbol matches Some(s) && has_suffix(s@, suffix)
}

/// Whether the symbol path is present and ends with the suffix.
fn symbol_ends_with(symbol: &Option<String>, suffix: &str) -> (b: bool)
    ensures
        b == symbol_has_suffix(*symbol, suffix@),
{
    match symbol {
        Some(s) => text_ends_with(s.as_str(), suffix),
        None => false,
    }
}

/// The list holds the id.
pub open spec fn ids_hold(ids: Seq<String>, id: Seq<char>) -> bool {
    exists|i: int| 0 <= i < ids.len() && #[trigger] ids[i]@ == id
}

/// Whether the list holds the id.
pub fn object_ids_hold(ids: &Vec<String>, id: &str) -> (b: bool)
    ensures
        b == ids_hold(ids@, id@),
{
    let key = owned(id);
    let mut i: usize = 0;
    while i < ids.len()
        invariant
            0 <= i <= ids@.len(),
            key@ == id@,
            forall|k: int| 0 <= k < i ==> ids@[k]@ != id@,
        decreases ids.len() - i,
    {
        if ids[i] == key {
            return true;
        }
        i = i + 1;
    }
    false
}

/// An authoritative fact of one of the kinds.
pub open spec fn authoritative_of_kinds(f: V326LifecycleFactRecord, kinds: Seq<V326LifecycleFactKind>) -> bool {
    is_authoritative_binding(f) && kinds.contains(f.fact_kind)
}

fn kinds_hold(kinds: &Vec<V326LifecycleFactKind>, k: V326LifecycleFactKind) -> (b: bool)
    ensures
        b == kinds@.contains(k),
{
    let mut i: usize = 0;
    while i < kinds.len()
        invariant
            0 <= i <= kinds@.len(),
            forall|j: int| 0 <= j < i ==> kinds@[j] != k,
        decreases kinds.len() - i,
    {
        if kinds[i] == k {
            assert(kinds@[i as int] == k);
            return true;
        }
        i = i + 1;
    }
    false
}

/// The ids of the authoritative facts of the kinds, in order.
pub fn authoritative_fact_refs(facts: &[V326LifecycleFactRecord], kinds: &Vec<V326LifecycleFactKind>) -> (r: Vec<
    String,
>)
    ensures
        text_views(r@) == ids_where(facts@, |f: V326LifecycleFactRecord| authoritative_of_kinds(f, kinds@)),
{
    let ghost p = |f: V326LifecycleFactRecord| authoritative_of_kinds(f, kinds@);
    fact_ids_where(
        facts,
        (|f: &V326LifecycleFactRecord| -> (b: bool)
            ensures
                b == authoritative_of_kinds(*f, kinds@),
            { is_authoritative_object_binding_fact(f) && kinds_hold(kinds, f.fact_kind) }),
        Ghost(p),
    )
}

/// An authoritative raw-pointer escape or registration call.
pub open spec fn is_raw_pointer_binding(f: V326LifecycleFactRecord) -> bool {
    (f.fact_kind == V326LifecycleFactKind::RawPointerEscape || f.fact_kind == V326LifecycleFactKind::RegisterCall)
        && is_authoritative_binding(f)
}

/// The ids of the authoritative raw-pointer escapes and registration calls, in order.
pub fn raw_pointer_binding_fact_refs(facts: &[V326LifecycleFactRecord]) -> (r: Vec<String>)
    ensures
        text_views(r@) == ids_where(facts@, |f: V326LifecycleFactRecord| is_raw_pointer_binding(f)),
{
    let ghost p = |f: V326LifecycleFactRecord| is_raw_pointer_binding(f);
    fact_ids_where(
        facts,
        (|f: &V326LifecycleFactRecord| -> (b: bool)
            ensures
                b == is_raw_pointer_binding(*f),
            {
                (f.fact_kind == V326LifecycleFactKind::RawPointerEscape || f.fact_kind
                    == V326LifecycleFactKind::RegisterCall) && is_authoritative_object_binding_fact(f)
            }),
        Ghost(p),
    )
}

/// A raw pointer that escapes is the user data of a registration: some user-data id of an
/// authoritative raw-pointer escape is also one of an authoritative registration call.
pub open spec fn raw_pointer_escape_bound(facts: Seq<V326LifecycleFactRecord>) -> bool {
    exists|i: int, j: int, a: int, b: int|
        0 <= i < facts.len() && 0 <= j < facts.len() && facts[i].fact_kind == V326LifecycleFactKind::RawPointerEscape
            && is_authoritative_binding(facts[i]) && facts[j].fact_kind == V326LifecycleFactKind::RegisterCall
            && is_authoritative_binding(facts[j]) && 0 <= a < user_data_ids(text_views(facts[i].object_ids@)).len()
            && 0 <= b < user_data_ids(text_views(facts[j].object_ids@)).len() && #[trigger] user_data_ids(
            text_views(facts[i].object_ids@),
        )[a] == #[trigger] user_data_ids(text_views(facts[j].object_ids@))[b]
}

/// Whether a raw pointer that escapes is the user data of a registration.
pub fn raw_pointer_escape_is_bound_to_register(facts: &[V326LifecycleFactRecord]) -> (b: bool)
    ensures
        b == raw_pointer_escape_bound(facts@),
{
    let mut i: usize = 0;
    while i < facts.len()
        invariant
            0 <= i <= facts@.len(),
            forall|i0: int, j: int, a: int, b: int|
                0 <= i0 < i && 0 <= j < facts@.len() && facts@[i0].fact_kind
                    == V326LifecycleFactKind::RawPointerEscape && is_authoritative_binding(facts@[i0])
                    && facts@[j].fact_kind == V326LifecycleFactKind::RegisterCall && is_authoritative_binding(
                    facts@[j],
                ) && 0 <= a < user_data_ids(text_views(facts@[i0].object_ids@)).len() && 0 <= b < user_data_ids(
                    text_views(facts@[j].object_ids@),
                ).len() ==> #[trigger] user_data_ids(text_views(facts@[i0].object_ids@))[a] != #[trigger] user_data_ids(
                    text_views(facts@[j].object_ids@),
                )[b],
        decreases facts.len() - i,
    {
        if facts[i].fact_kind == V326LifecycleFactKind::RawPointerEscape && is_authoritative_object_binding_fact(
            &facts[i],
        ) {
            let escaped = fact_user_data_object_ids(&facts[i]);
            let mut j: usize = 0;
            while j < facts.len()
                invariant
                    0 <= i < facts@.len(),
                    0 <= j <= facts@.len(),
                    facts@[i as int].fact_kind == V326LifecycleFactKind::RawPointerEscape && is_authoritative_binding(facts@[i as int]),
                    text_views(escaped@) == user_data_ids(text_views(facts@[i as int].object_ids@)),
                    forall|j0: int, a: int, b: int|
                        0 <= j0 < j && facts@[j0].fact_kind == V326LifecycleFactKind::RegisterCall
                            && is_authoritative_binding(facts@[j0]) && 0 <= a < escaped@.len() && 0 <= b
                            < user_data_ids(text_views(facts@[j0].object_ids@)).len() ==> #[trigger] escaped@[a]@
                            != #[trigger] user_data_ids(text_views(facts@[j0].object_ids@))[b],
                decreases facts.len() - j,
            {
                if facts[j].fact_kind == V326LifecycleFactKind::RegisterCall && is_authoritative_object_binding_fact(
                    &facts[j],
                ) {
                    let registered = fact_user_data_object_ids(&facts[j]);
                    let mut a: usize = 0;
                    while a < escaped.len()
                        invariant
                            0 <= i < facts@.len(),
                            0 <= j < facts@.len(),
                            0 <= a <= escaped@.len(),
                            facts@[i as int].fact_kind == V326LifecycleFactKind::RawPointerEscape && is_authoritative_binding(facts@[i as int]),
                            facts@[j as int].fact_kind == V326LifecycleFactKind::RegisterCall && is_authoritative_binding(facts@[j as int]),
                            text_views(escaped@) == user_data_ids(text_views(facts@[i as int].object_ids@)),
                            text_views(registered@) == user_data_ids(text_views(facts@[j as int].object_ids@)),
                            forall|a0: int, b: int|
                                0 <= a0 < a && 0 <= b < registered@.len() ==> #[trigger] escaped@[a0]@ != #[trigger] registered@[b]@,
                        decreases escaped.len() - a,
                    {
                        let mut k: usize = 0;
                        while k < registered.len()
                            invariant
                                0 <= i < facts@.len(),
                                0 <= j < facts@.len(),
                                0 <= a < escaped@.len(),
                                facts@[i as int].fact_kind == V326LifecycleFactKind::RawPointerEscape && is_authoritative_binding(facts@[i as int]),
                                facts@[j as int].fact_kind == V326LifecycleFactKind::RegisterCall && is_authoritative_binding(facts@[j as int]),
                                0 <= k <= registered@.len(),
                                text_views(escaped@) == user_data_ids(text_views(facts@[i as int].object_ids@)),
                                text_views(registered@) == user_data_ids(text_views(facts@[j as int].object_ids@)),
                                forall|b: int| 0 <= b < k ==> escaped@[a as int]@ != #[trigger] registered@[b]@,
                            decreases registered.len() - k,
                        {
                            if escaped[a] == registered[k] {
                                proof {
                                    assert(text_views(escaped@)[a as int] == escaped@[a as int]@);
                                    assert(text_views(registered@)[k as int] == registered@[k as int]@);
                                    assert(user_data_ids(text_views(facts@[i as int].object_ids@))[a as int]
                                        == user_data_ids(text_views(facts@[j as int].object_ids@))[k as int]);
                                    assert(raw_pointer_escape_bound(facts@));
                                }
                                return true;
                            }
                            k = k + 1;
                        }
                        a = a + 1;
                    }
                    proof {
                        assert forall|a0: int, b: int|
                            0 <= a0 < escaped@.len() && 0 <= b < user_data_ids(
                                text_views(facts@[j as int].object_ids@),
                            ).len() implies #[trigger] escaped@[a0]@ != #[trigger] user_data_ids(
                            text_views(facts@[j as int].object_ids@),
                        )[b] by {
                            assert(registered@[b]@ == text_views(registered@)[b]);
                        }
                    }
                }
                j = j + 1;
            }
            proof {
                assert forall|j0: int, a: int, b: int|
                    0 <= j0 < facts@.len() && facts@[j0].fact_kind == V326LifecycleFactKind::RegisterCall
                        && is_authoritative_binding(facts@[j0]) && 0 <= a < user_data_ids(
                        text_views(facts@[i as int].object_ids@),
                    ).len() && 0 <= b < user_data_ids(text_views(facts@[j0].object_ids@)).len() implies #[trigger] user_data_ids(
                    text_views(facts@[i as int].object_ids@),
                )[a] != #[trigger] user_data_ids(text_views(facts@[j0].object_ids@))[b] by {
                    assert(escaped@[a]@ == text_views(escaped@)[a]);
                }
            }
        }
        i = i + 1;
    }
    false
}


/// An authoritative raw-pointer escape made by a `from_raw_parts` call.
pub open spec fn is_raw_parts_transfer(f: V326LifecycleFactRecord) -> bool {
    is_authoritative_binding(f) && f.fact_kind == V326LifecycleFactKind::RawPointerEscape && symbol_has_suffix(
        f.symbol_path,
        "from_raw_parts"@,
    )
}

/// The ids of the authoritative raw-pointer escapes made by `from_raw_parts`, in order.
pub fn authoritative_raw_parts_transfer_refs(facts: &[V326LifecycleFactRecord]) -> (r: Vec<String>)
    ensures
        text_views(r@) == ids_where(facts@, |f: V326LifecycleFactRecord| is_raw_parts_transfer(f)),
{
    let ghost p = |f: V326LifecycleFactRecord| is_raw_parts_transfer(f);
    fact_ids_where(
        facts,
        (|f: &V326LifecycleFactRecord| -> (b: bool)
            ensures
                b == is_raw_parts_transfer(*f),
            {
                is_authoritative_object_binding_fact(f) && f.fact_kind == V326LifecycleFactKind::RawPointerEscape
                    && symbol_ends_with(&f.symbol_path, "from_raw_parts")
            }),
        Ghost(p),
    )
}

/// The text names a shared owner (`Arc` or `Rc`), in any ASCII case.
pub open spec fn mentions_shared_owner(t: Seq<char>) -> bool {
    lower_contains(t, "sync::arc"@) || lower_contains(t, "std::sync::arc"@) || lower_contains(t, "alloc::sync::arc"@)
        || lower_contains(t, "arc<"@) || lower_contains(t, "rc::rc"@) || lower_contains(t, "std::rc::rc"@)
        || lower_contains(t, "alloc::rc::rc"@) || lower_contains(t, "rc<"@)
}

/// Whether the text names a shared owner (`Arc` or `Rc`).
pub fn text_mentions_shared_owner_anchor(text: &str) -> (b: bool)
    ensures
        b == mentions_shared_owner(text@),
{
    lowercase_contains(text, "sync::arc") || lowercase_contains(text, "std::sync::arc") || lowercase_contains(
        text,
        "alloc::sync::arc",
    ) || lowercase_contains(text, "arc<") || lowercase_contains(text, "rc::rc") || lowercase_contains(
        text,
        "std::rc::rc",
    ) || lowercase_contains(text, "alloc::rc::rc") || lowercase_contains(text, "rc<")
}

/// An authoritative owned move capture of a shared owner.
pub open spec fn is_shared_owner_anchor(f: V326LifecycleFactRecord) -> bool {
    is_authoritative_binding(f) && f.fact_kind == V326LifecycleFactKind::OwnedMoveCapture && (f.symbol_path matches Some(
        s,
    ) && mentions_shared_owner(s@))
}

/// The ids of the authoritative owned move captures of a shared owner, in order.
pub fn authoritative_shared_owner_anchor_refs(facts: &[V326LifecycleFactRecord]) -> (r: Vec<String>)
    ensures
        text_views(r@) == ids_where(facts@, |f: V326LifecycleFactRecord| is_shared_owner_anchor(f)),
{
    let ghost p = |f: V326LifecycleFactRecord| is_shared_owner_anchor(f);
    fact_ids_where(
        facts,
        (|f: &V326LifecycleFactRecord| -> (b: bool)
            ensures
                b == is_shared_owner_anchor(*f),
            {
                is_authoritative_object_binding_fact(f) && f.fact_kind == V326LifecycleFactKind::OwnedMoveCapture
                    && match &f.symbol_path {
                    Some(s) => text_mentions_shared_owner_anchor(s.as_str()),
                    None => false,
                }
            }),
        Ghost(p),
    )
}

/// An authoritative callback user-data reconstruction whose symbol ends, in lower case, with
/// the token.
pub open spec fn is_user_data_reconstruction(f: V326LifecycleFactRecord, token: Seq<char>) -> bool {
    is_authoritative_binding(f) && f.fact_kind == V326LifecycleFactKind::CallbackUserDataReconstruction && (
    f.symbol_path matches Some(s) && lower_has_suffix(s@, token))
}

/// The ids of the authoritative callback user-data reconstructions of a kind, in order.
pub fn authoritative_callback_user_data_reconstruction_refs(facts: &[V326LifecycleFactRecord], token: &str) -> (r: Vec<
    String,
>)
    ensures
        text_views(r@) == ids_where(facts@, |f: V326LifecycleFactRecord| is_user_data_reconstruction(f, token@)),
{
    let ghost p = |f: V326LifecycleFactRecord| is_user_data_reconstruction(f, token@);
    fact_ids_where(
        facts,
        (|f: &V326LifecycleFactRecord| -> (b: bool)
            ensures
                b == is_user_data_reconstruction(*f, token@),
            {
                is_authoritative_object_binding_fact(f) && f.fact_kind
                    == V326LifecycleFactKind::CallbackUserDataReconstruction && match &f.symbol_path {
                    Some(s) => text_lower_ends_with(s.as_str(), token),
                    None => false,
                }
            }),
        Ghost(p),
    )
}

/// An authoritative order between a returned borrow's invalidation and its use, of the kind
/// the token names.
pub open spec fn is_returned_borrow_order(f: V326LifecycleFactRecord, token: Seq<char>) -> bool {
    is_authoritative_binding(f) && f.fact_kind == V326LifecycleFactKind::ReturnedBorrowInvalidationOrder && ids_hold(
        f.object_ids@,
        "returned_borrow_order:"@ + token,
    )
}

/// The ids of the authoritative returned-borrow orders of a kind, in order.
pub fn authoritative_returned_borrow_order_refs(facts: &[V326LifecycleFactRecord], token: &str) -> (r: Vec<String>)
    ensures
        text_views(r@) == ids_where(facts@, |f: V326LifecycleFactRecord| is_returned_borrow_order(f, token@)),
{
    let id = concat2("returned_borrow_order:", token);
    let ghost p = |f: V326LifecycleFactRecord| is_returned_borrow_order(f, token@);
    fact_ids_where(
        facts,
        (|f: &V326LifecycleFactRecord| -> (b: bool)
            ensures
                b == is_returned_borrow_order(*f, token@),
            {
                is_authoritative_object_binding_fact(f) && f.fact_kind
                    == V326LifecycleFactKind::ReturnedBorrowInvalidationOrder && object_ids_hold(&f.object_ids, id.as_str())
            }),
        Ghost(p),
    )
}

/// An authoritative returned borrow whose return lifetime is unconstrained.
pub open spec fn is_unconstrained_return(f: V326LifecycleFactRecord) -> bool {
    is_authoritative_binding(f) && f.fact_kind == V326LifecycleFactKind::ReturnedBorrowRelation && ids_hold(
        f.object_ids@,
        "static_site:returned_borrow_relation_kind:unconstrained_return_lifetime"@,
    )
}

/// The ids of the authoritative returned borrows with an unconstrained return lifetime.
pub fn authoritative_unconstrained_return_lifetime_refs(facts: &[V326LifecycleFactRecord]) -> (r: Vec<String>)
    ensures
        text_views(r@) == ids_where(facts@, |f: V326LifecycleFactRecord| is_unconstrained_return(f)),
{
    let ghost p = |f: V326LifecycleFactRecord| is_unconstrained_return(f);
    fact_ids_where(
        facts,
        (|f: &V326LifecycleFactRecord| -> (b: bool)
            ensures
                b == is_unconstrained_return(*f),
            {
                is_authoritative_object_binding_fact(f) && f.fact_kind == V326LifecycleFactKind::ReturnedBorrowRelation
                    && object_ids_hold(&f.object_ids, "static_site:returned_borrow_relation_kind:unconstrained_return_lifetime")
            }),
        Ghost(p),
    )
}

/// The identity of an atomic access: its symbol paths that are present, joined by `::`.
pub open spec fn atomic_identity(f: V326LifecycleFactRecord) -> Seq<char> {
    match (f.symbol_path, f.source_ref.symbol_path) {
        (Some(a), Some(b)) => a@ + "::"@ + b@,
        (Some(a), None) => a@,
        (None, Some(b)) => b@,
        (None, None) => Seq::empty(),
    }
}

/// The atomic access sits in an iterator, an iterator step or a thread-local getter.
pub open spec fn atomic_iterator_scoped(f: V326LifecycleFactRecord) -> bool {
    let id = atomic_identity(f);
    id.len() > 0 && (lower_contains(id, "iterator"@) || lower_contains(id, "intoiter"@) || lower_contains(
        id,
        "rawiter"@,
    ) || lower_contains(id, "thread_local"@) || lower_contains(id, "get_or_try"@) || lower_has_suffix(id, "::next"@)
        || lower_contains(id, "::next::"@))
}

fn atomic_identity_text(f: &V326LifecycleFactRecord) -> (r: String)
    ensures
        r@ == atomic_identity(*f),
{
    match (&f.symbol_path, &f.source_ref.symbol_path) {
        (Some(a), Some(b)) => concat3(a.as_str(), "::", b.as_str()),
        (Some(a), None) => owned(a.as_str()),
        (None, Some(b)) => owned(b.as_str()),
        (None, None) => String::new(),
    }
}

/// Whether the atomic access sits in an iterator, an iterator step or a thread-local getter.
pub fn lifecycle_static_atomic_symbol_is_iterator_scoped(f: &V326LifecycleFactRecord) -> (b: bool)
    ensures
        b == atomic_iterator_scoped(*f),
{
    let id = atomic_identity_text(f);
    let t = id.as_str();
    id.unicode_len() > 0 && (lowercase_contains(t, "iterator") || lowercase_contains(t, "intoiter")
        || lowercase_contains(t, "rawiter") || lowercase_contains(t, "thread_local") || lowercase_contains(
        t,
        "get_or_try",
    ) || text_lower_ends_with(t, "::next") || lowercase_contains(t, "::next::"))
}

/// An authoritative atomic load, in an iterator scope, with the ordering the token names.
pub open spec fn is_atomic_load_ordering(f: V326LifecycleFactRecord, token: Seq<char>) -> bool {
    is_authoritative_binding(f) && f.fact_kind == V326LifecycleFactKind::AtomicOrdering && ids_hold(
        f.object_ids@,
        "atomic_operation:load"@,
    ) && ids_hold(f.object_ids@, "atomic_ordering:"@ + token) && atomic_iterator_scoped(f)
}

/// The ids of the authoritative iterator-scoped atomic loads of an ordering, in order.
pub fn authoritative_atomic_ordering_refs(facts: &[V326LifecycleFactRecord], token: &str) -> (r: Vec<String>)
    ensures
        text_views(r@) == ids_where(facts@, |f: V326LifecycleFactRecord| is_atomic_load_ordering(f, token@)),
{
    let id = concat2("atomic_ordering:", token);
    let ghost p = |f: V326LifecycleFactRecord| is_atomic_load_ordering(f, token@);
    fact_ids_where(
        facts,
        (|f: &V326LifecycleFactRecord| -> (b: bool)
            ensures
                b == is_atomic_load_ordering(*f, token@),
            {
                is_authoritative_object_binding_fact(f) && f.fact_kind == V326LifecycleFactKind::AtomicOrdering
                    && object_ids_hold(&f.object_ids, "atomic_operation:load") && object_ids_hold(
                    &f.object_ids,
                    id.as_str(),
                ) && lifecycle_static_atomic_symbol_is_iterator_scoped(f)
            }),
        Ghost(p),
    )
}


/// The two facts name a common object id.
pub open spec fn share_object(a: V326LifecycleFactRecord, b: V326LifecycleFactRecord) -> bool {
    exists|i: int, j: int|
        0 <= i < a.object_ids@.len() && 0 <= j < b.object_ids@.len() && #[trigger] a.object_ids@[i]@
            == #[trigger] b.object_ids@[j]@
}

/// Whether the two facts name a common object id.
pub fn facts_share_lifecycle_object(a: &V326LifecycleFactRecord, b: &V326LifecycleFactRecord) -> (r: bool)
    ensures
        r == share_object(*a, *b),
{
    let mut i: usize = 0;
    while i < a.object_ids.len()
        invariant
            0 <= i <= a.object_ids@.len(),
            forall|i0: int, j: int|
                0 <= i0 < i && 0 <= j < b.object_ids@.len() ==> #[trigger] a.object_ids@[i0]@
                    != #[trigger] b.object_ids@[j]@,
        decreases a.object_ids.len() - i,
    {
        let mut j: usize = 0;
        while j < b.object_ids.len()
            invariant
                0 <= i < a.object_ids@.len(),
                0 <= j <= b.object_ids@.len(),
                forall|j0: int| 0 <= j0 < j ==> a.object_ids@[i as int]@ != #[trigger] b.object_ids@[j0]@,
            decreases b.object_ids.len() - j,
        {
            if a.object_ids[i] == b.object_ids[j] {
                return true;
            }
            j = j + 1;
        }
        i = i + 1;
    }
    false
}

/// The type is a wrapper that owns what it holds: a generic type that is not an `Option`, a
/// `Result` or the unit type.
pub open spec fn is_wrapper_owned_anchor(ty_name: Seq<char>) -> bool {
    let t = trimmed(ty_name);
    &&& t.len() > 0
    &&& !lower_has_prefix(t, "core::option::option<"@)
    &&& !lower_has_prefix(t, "std::option::option<"@)
    &&& !lower_has_prefix(t, "core::result::result<"@)
    &&& !lower_has_prefix(t, "std::result::result<"@)
    &&& !(lower_has_prefix(t, "()"@) && t.len() == 2)
    &&& t.contains('<')
    &&& t.contains('>')
}

fn has_char(s: &str, c: char) -> (b: bool)
    ensures
        b == s@.contains(c),
{
    let x = chars_of(s);
    let mut i: usize = 0;
    while i < x.len()
        invariant
            x@ == s@,
            0 <= i <= x@.len(),
            forall|k: int| 0 <= k < i ==> x@[k] != c,
        decreases x.len() - i,
    {
        if x[i] == c {
            assert(s@[i as int] == c);
            return true;
        }
        i = i + 1;
    }
    false
}

/// Whether the type is a wrapper that owns what it holds.
pub fn wrapper_owned_anchor_type(ty_name: &str) -> (b: bool)
    ensures
        b == is_wrapper_owned_anchor(ty_name@),
{
    let t = trim_text(ty_name);
    let ts = t.as_str();
    if t.unicode_len() == 0 {
        return false;
    }
    if lower_starts_with(ts, "core::option::option<") || lower_starts_with(ts, "std::option::option<")
        || lower_starts_with(ts, "core::result::result<") || lower_starts_with(ts, "std::result::result<") || (
    lower_starts_with(ts, "()") && t.unicode_len() == 2) {
        return false;
    }
    has_char(ts, '<') && has_char(ts, '>')
}

/// An authoritative drop site that shares an object with the fact.
pub open spec fn has_matching_drop_guard(f: V326LifecycleFactRecord, facts: Seq<V326LifecycleFactRecord>) -> bool {
    exists|i: int|
        0 <= i < facts.len() && is_authoritative_binding(facts[i]) && facts[i].fact_kind
            == V326LifecycleFactKind::DropSite && #[trigger] share_object(f, facts[i])
}

/// Whether an authoritative drop site shares an object with the fact.
pub fn matching_drop_guard_fact(f: &V326LifecycleFactRecord, facts: &[V326LifecycleFactRecord]) -> (b: bool)
    ensures
        b == has_matching_drop_guard(*f, facts@),
{
    let mut i: usize = 0;
    while i < facts.len()
        invariant
            0 <= i <= facts@.len(),
            forall|k: int|
                0 <= k < i && is_authoritative_binding(facts@[k]) && facts@[k].fact_kind
                    == V326LifecycleFactKind::DropSite ==> !#[trigger] share_object(*f, facts@[k]),
        decreases facts.len() - i,
    {
        if is_authoritative_object_binding_fact(&facts[i]) && facts[i].fact_kind == V326LifecycleFactKind::DropSite
            && facts_share_lifecycle_object(f, &facts[i]) {
            return true;
        }
        i = i + 1;
    }
    false
}

/// The method tail names a destructuring of a wrapper.
pub open spec fn is_destructure_tail(t: Seq<char>) -> bool {
    t == "into_inner"@ || t == "into_parts"@ || t == "take_inner"@
}

/// The source symbol of the fact ends in a wrapper destructuring method.
pub open spec fn tail_destructures(f: V326LifecycleFactRecord) -> bool {
    f.source_ref.symbol_path matches Some(sp) && symbol_tail(sp@) matches Some(t) && is_destructure_tail(t)
}

fn source_tail_destructures(f: &V326LifecycleFactRecord) -> (b: bool)
    ensures
        b == tail_destructures(*f),
{
    match &f.source_ref.symbol_path {
        Some(sp) => match source_api_symbol_tails(sp.as_str()) {
            Some(t) => {
                let a = owned("into_inner");
                let b = owned("into_parts");
                let c = owned("take_inner");
                t == a || t == b || t == c
            },
            None => false,
        },
        None => false,
    }
}

/// The drop prevention follows a wrapper destructuring: the source symbol ends in
/// `into_inner`, `into_parts` or `take_inner`, and an authoritative owned move capture of a
/// wrapper type shares an object with it.
pub open spec fn destructures_wrapper(f: V326LifecycleFactRecord, facts: Seq<V326LifecycleFactRecord>) -> bool {
    &&& tail_destructures(f)
    &&& exists|i: int|
        0 <= i < facts.len() && is_authoritative_binding(facts[i]) && facts[i].fact_kind
            == V326LifecycleFactKind::OwnedMoveCapture && #[trigger] share_object(f, facts[i]) && (
        facts[i].symbol_path matches Some(ty) && is_wrapper_owned_anchor(ty@))
}

/// Whether the drop prevention follows a wrapper destructuring.
pub fn wrapper_destructure_drop_prevention_fact(f: &V326LifecycleFactRecord, facts: &[V326LifecycleFactRecord]) -> (b:
    bool)
    ensures
        b == destructures_wrapper(*f, facts@),
{
    let tail_ok = source_tail_destructures(f);
    if !tail_ok {
        return false;
    }
    let mut i: usize = 0;
    while i < facts.len()
        invariant
            0 <= i <= facts@.len(),
            tail_destructures(*f),
            forall|k: int|
                0 <= k < i && is_authoritative_binding(facts@[k]) && facts@[k].fact_kind
                    == V326LifecycleFactKind::OwnedMoveCapture && #[trigger] share_object(*f, facts@[k])
                    ==> !(facts@[k].symbol_path matches Some(ty) && is_wrapper_owned_anchor(ty@)),
        decreases facts.len() - i,
    {
        if is_authoritative_object_binding_fact(&facts[i]) && facts[i].fact_kind
            == V326LifecycleFactKind::OwnedMoveCapture && facts_share_lifecycle_object(f, &facts[i]) {
            let wrapper = match &facts[i].symbol_path {
                Some(ty) => wrapper_owned_anchor_type(ty.as_str()),
                None => false,
            };
            if wrapper {
                assert(share_object(*f, facts@[i as int]));
                assert(destructures_wrapper(*f, facts@));
                return true;
            }
        }
        i = i + 1;
    }
    false
}

/// An authoritative `mem::forget` drop prevention after a wrapper destructuring, with no drop
/// site of the same object.
pub open spec fn is_manual_drop_prevention(f: V326LifecycleFactRecord, facts: Seq<V326LifecycleFactRecord>) -> bool {
    is_authoritative_binding(f) && f.fact_kind == V326LifecycleFactKind::DropPrevention && symbol_has_suffix(
        f.symbol_path,
        "memforget"@,
    ) && destructures_wrapper(f, facts) && !has_matching_drop_guard(f, facts)
}

/// The ids of the manual drop preventions that no drop guard covers, in order.
pub fn manual_drop_prevention_without_drop_guard_refs(facts: &[V326LifecycleFactRecord]) -> (r: Vec<String>)
    ensures
        text_views(r@) == ids_where(facts@, |f: V326LifecycleFactRecord| is_manual_drop_prevention(f, facts@)),
{
    let ghost p = |f: V326LifecycleFactRecord| is_manual_drop_prevention(f, facts@);
    fact_ids_where(
        facts,
        (|f: &V326LifecycleFactRecord| -> (b: bool)
            ensures
                b == is_manual_drop_prevention(*f, facts@),
            {
                is_authoritative_object_binding_fact(f) && f.fact_kind == V326LifecycleFactKind::DropPrevention
                    && symbol_ends_with(&f.symbol_path, "memforget") && wrapper_destructure_drop_prevention_fact(
                    f,
                    facts,
                ) && !matching_drop_guard_fact(f, facts)
            }),
        Ghost(p),
    )
}

} // verus!
