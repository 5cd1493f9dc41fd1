//! The derivation of a candidate's lifecycle features from its evidence, facts and contracts:
//! each feature with the references it rests on, and the evidence found missing.

use vstd::prelude::*;

use crate::candidate::V32CandidateRecord;
use crate::lifecycle_v326::{
    V326EvidenceConfidence, V326EvidenceKind, V326FeatureSet, V326LifecycleContractRecord, V326LifecycleEvidenceRecord,
    V326LifecycleFactKind, V326LifecycleFactRecord, V326LifecycleFeatureRecord, V326LifecycleGraphRecord,
    V3_2_6_EXTERNAL_BUFFER_RETURN_LIFETIME_SIGNAL, V3_2_6_LIFECYCLE_FEATURE_SCHEMA_V1,
};
use crate::text::{clone_texts, lower_contains, lowercase_contains, owned, sorted_unique_texts, text_views, texts_strictly_sorted};
use crate::v326_chain_refs::{
    callback_chain_ref, callback_release_use_chain_refs, callback_release_use_same_object_support_exists,
    persisted_invalidation_use_chain_refs, persisted_ref, release_order_chain_refs, release_order_ref, same_object_support,
    verified_chain_ref, verified_object_chain_refs,
};
use crate::v326_chain_summary::{contains_text, text_contains};
use crate::v326_contract_scope::{contract_applies, lifecycle_contract_applies_to_candidate};
use crate::v326_details::{detail_signal, details_mention, details_signal, details_text_mentions};
use crate::v326_fact_refs::{
    object_ids_hold, text_lower_ends_with,
    authoritative_atomic_ordering_refs, authoritative_callback_user_data_reconstruction_refs, authoritative_fact_refs,
    authoritative_raw_parts_transfer_refs, authoritative_returned_borrow_order_refs, authoritative_shared_owner_anchor_refs,
    authoritative_unconstrained_return_lifetime_refs, authoritative_of_kinds, contracts_may_retain, fact_ids_where,
    has_contract_retention, ids_where, is_atomic_load_ordering, is_manual_drop_prevention, is_raw_parts_transfer,
    is_raw_pointer_binding, is_returned_borrow_order, is_shared_owner_anchor, is_unconstrained_return,
    is_user_data_reconstruction, manual_drop_prevention_without_drop_guard_refs, raw_pointer_binding_fact_refs,
    raw_pointer_escape_bound, raw_pointer_escape_is_bound_to_register, retention_ref_set, retention_refs,
};
use crate::v326_flow_components::{
    has_incomplete_authoritative_object_flow_component, has_incomplete_authoritative_object_flow_pair,
    has_incomplete_closure_capture_component, has_unverified_authoritative_object_flow_pair, incomplete_closure_capture,
    incomplete_component, incomplete_pair, unverified_pair,
};
use crate::v326_graph_build::{has_evidence, has_kind, refs_for, refs_of_kind};
use crate::v326_object_flow::{any_ambiguous_flow, ends, has_ambiguous_object_flow_binding, ids_of};
use crate::v326_release_pairs::{is_authoritative_binding, is_authoritative_object_binding_fact, release_covers_object, release_covers_same_lifecycle_object};
use crate::v326_chain_refs::is_auxiliary_id;

verus! {

/// The record ids of the evidence that meets a condition, in order.
pub open spec fn ev_ids_where(ev: Seq<V326LifecycleEvidenceRecord>, p: spec_fn(V326LifecycleEvidenceRecord) -> bool) -> Seq<
    Seq<char>,
>
    decreases ev.len(),
{
    if ev.len() == 0 {
        Seq::empty()
    } else if p(ev.last()) {
        ev_ids_where(ev.drop_last(), p).push(ev.last().record_id@)
    } else {
        ev_ids_where(ev.drop_last(), p)
    }
}

fn evidence_ids_where<F: Fn(&V326LifecycleEvidenceRecord) -> bool>(
    ev: &Vec<V326LifecycleEvidenceRecord>,
    keep: F,
    Ghost(p): Ghost<spec_fn(V326LifecycleEvidenceRecord) -> bool>,
) -> (r: Vec<String>)
    requires
        forall|e: &V326LifecycleEvidenceRecord| #[trigger] keep.requires((e,)),
        forall|e: &V326LifecycleEvidenceRecord, b: bool| #[trigger] keep.ensures((e,), b) ==> b == p(*e),
    ensures
        text_views(r@) == ev_ids_where(ev@, p),
{
    let mut r: Vec<String> = Vec::new();
    let mut i: usize = 0;
    assert(ev@.take(0) =~= Seq::<V326LifecycleEvidenceRecord>::empty());
    while i < ev.len()
        invariant
            0 <= i <= ev@.len(),
            forall|e: &V326LifecycleEvidenceRecord| #[trigger] keep.requires((e,)),
            forall|e: &V326LifecycleEvidenceRecord, b: bool| #[trigger] keep.ensures((e,), b) ==> b == p(*e),
            text_views(r@) == ev_ids_where(ev@.take(i as int), p),
        decreases ev.len() - i,
    {
        assert(ev@.take(i + 1).drop_last() =~= ev@.take(i as int));
        if keep(&ev[i]) {
            let ghost before = text_views(r@);
            r.push(ev[i].record_id.clone());
            assert(text_views(r@) =~= before.push(ev@[i as int].record_id@));
        }
        i = i + 1;
    }
    assert(ev@.take(ev@.len() as int) =~= ev@);
    r
}

/// Lifetime-bound evidence whose signal says that the return lifetime covers external buffer
/// inputs.
pub open spec fn is_external_buffer_bound(e: V326LifecycleEvidenceRecord) -> bool {
    e.evidence_kind == V326EvidenceKind::LifetimeBound && detail_signal(e.details)
        == Some(V3_2_6_EXTERNAL_BUFFER_RETURN_LIFETIME_SIGNAL@)
}

/// Lifetime-bound evidence of another kind: a static bound.
pub open spec fn is_static_bound(e: V326LifecycleEvidenceRecord) -> bool {
    e.evidence_kind == V326EvidenceKind::LifetimeBound && detail_signal(e.details)
        != Some(V3_2_6_EXTERNAL_BUFFER_RETURN_LIFETIME_SIGNAL@)
}

fn external_signal(e: &V326LifecycleEvidenceRecord) -> (b: bool)
    ensures
        b == (detail_signal(e.details) == Some(V3_2_6_EXTERNAL_BUFFER_RETURN_LIFETIME_SIGNAL@)),
{
    match details_signal(&e.details) {
        Some(t) => *t == owned(V3_2_6_EXTERNAL_BUFFER_RETURN_LIFETIME_SIGNAL),
        None => false,
    }
}

/// Owned-anchor evidence whose details say `box into raw` in their signal or mention
/// `into_raw`.
pub open spec fn is_box_into_raw(e: V326LifecycleEvidenceRecord) -> bool {
    e.evidence_kind == V326EvidenceKind::OwnedAnchor && ((detail_signal(e.details) matches Some(s) && contains_text(
        s,
        "box into raw"@,
    )) || details_mention(e.details, "into_raw"@))
}

/// Release-site evidence whose details mention `from_raw`.
pub open spec fn is_box_from_raw(e: V326LifecycleEvidenceRecord) -> bool {
    e.evidence_kind == V326EvidenceKind::ReleaseSite && details_mention(e.details, "from_raw"@)
}

fn any_evidence<F: Fn(&V326LifecycleEvidenceRecord) -> bool>(
    ev: &Vec<V326LifecycleEvidenceRecord>,
    keep: F,
    Ghost(p): Ghost<spec_fn(V326LifecycleEvidenceRecord) -> bool>,
) -> (r: bool)
    requires
        forall|e: &V326LifecycleEvidenceRecord| #[trigger] keep.requires((e,)),
        forall|e: &V326LifecycleEvidenceRecord, b: bool| #[trigger] keep.ensures((e,), b) ==> b == p(*e),
    ensures
        r == exists|i: int| 0 <= i < ev@.len() && #[trigger] p(ev@[i]),
{
    let mut i: usize = 0;
    while i < ev.len()
        invariant
            0 <= i <= ev@.len(),
            forall|e: &V326LifecycleEvidenceRecord| #[trigger] keep.requires((e,)),
            forall|e: &V326LifecycleEvidenceRecord, b: bool| #[trigger] keep.ensures((e,), b) ==> b == p(*e),
            forall|k: int| 0 <= k < i ==> !#[trigger] p(ev@[k]),
        decreases ev.len() - i,
    {
        if keep(&ev[i]) {
            return true;
        }
        i = i + 1;
    }
    false
}

/// The references behind release coverage: registration, unregistration, release, drop-guard
/// and drop-site evidence, and the registration calls and release-path proofs.
pub open spec fn coverage_ref_set(ev: Seq<V326LifecycleEvidenceRecord>, facts: Seq<V326LifecycleFactRecord>) -> Set<Seq<char>> {
    (refs_of_kind(ev, V326EvidenceKind::ForeignRegister) + refs_of_kind(ev, V326EvidenceKind::ForeignUnregister)
        + refs_of_kind(ev, V326EvidenceKind::ReleaseSite) + refs_of_kind(ev, V326EvidenceKind::DropGuard) + refs_of_kind(
        ev,
        V326EvidenceKind::DropSite,
    ) + ids_where(
        facts,
        |f: V326LifecycleFactRecord|
            f.fact_kind == V326LifecycleFactKind::RegisterCall || f.fact_kind == V326LifecycleFactKind::ReleasePathProof,
    )).to_set()
}

fn extend(acc: &mut Vec<String>, more: Vec<String>)
    ensures
        text_views(final(acc)@) == text_views(old(acc)@) + text_views(more@),
{
    let ghost a0 = text_views(acc@);
    let mut i: usize = 0;
    while i < more.len()
        invariant
            0 <= i <= more@.len(),
            text_views(acc@) == a0 + text_views(more@).take(i as int),
        decreases more.len() - i,
    {
        let ghost b = text_views(acc@);
        acc.push(more[i].clone());
        assert(text_views(acc@) =~= b.push(more@[i as int]@));
        assert(text_views(more@).take(i + 1) =~= text_views(more@).take(i as int).push(more@[i as int]@));
        i = i + 1;
    }
    assert(text_views(more@).take(more@.len() as int) =~= text_views(more@));
}

/// The references behind release coverage, in increasing order and each once.
pub fn release_coverage_refs(ev: &Vec<V326LifecycleEvidenceRecord>, facts: &[V326LifecycleFactRecord]) -> (r: Vec<String>)
    ensures
        texts_strictly_sorted(text_views(r@)),
        text_views(r@).to_set() == coverage_ref_set(ev@, facts@),
{
    let mut refs = refs_for(ev, V326EvidenceKind::ForeignRegister);
    extend(&mut refs, refs_for(ev, V326EvidenceKind::ForeignUnregister));
    extend(&mut refs, refs_for(ev, V326EvidenceKind::ReleaseSite));
    extend(&mut refs, refs_for(ev, V326EvidenceKind::DropGuard));
    extend(&mut refs, refs_for(ev, V326EvidenceKind::DropSite));
    let ghost p = |f: V326LifecycleFactRecord|
        f.fact_kind == V326LifecycleFactKind::RegisterCall || f.fact_kind == V326LifecycleFactKind::ReleasePathProof;
    let fr = fact_ids_where(
        facts,
        (|f: &V326LifecycleFactRecord| -> (b: bool)
            ensures
                b == (f.fact_kind == V326LifecycleFactKind::RegisterCall || f.fact_kind
                    == V326LifecycleFactKind::ReleasePathProof),
            { f.fact_kind == V326LifecycleFactKind::RegisterCall || f.fact_kind == V326LifecycleFactKind::ReleasePathProof }),
        Ghost(p),
    );
    extend(&mut refs, fr);
    sorted_unique_texts(refs)
}

fn contains_id(v: &Vec<String>, x: &String) -> (b: bool)
    ensures
        b == text_views(v@).contains(x@),
{
    let mut i: usize = 0;
    while i < v.len()
        invariant
            0 <= i <= v@.len(),
            forall|k: int| 0 <= k < i ==> v@[k]@ != x@,
        decreases v.len() - i,
    {
        if v[i] == *x {
            assert(text_views(v@)[i as int] == x@);
            return true;
        }
        i = i + 1;
    }
    proof {
        if text_views(v@).contains(x@) {
            let k = choose|k: int| 0 <= k < text_views(v@).len() && text_views(v@)[k] == x@;
            assert(v@[k]@ == x@);
        }
    }
    false
}



/// The list with the text added at its end unless it already holds it.
pub open spec fn push_absent(m: Seq<Seq<char>>, x: Seq<char>) -> Seq<Seq<char>> {
    if m.contains(x) {
        m
    } else {
        m.push(x)
    }
}

/// The list with the text added when the condition holds and the list lacks it.
pub open spec fn push_if(m: Seq<Seq<char>>, c: bool, x: Seq<char>) -> Seq<Seq<char>> {
    if c {
        push_absent(m, x)
    } else {
        m
    }
}

fn push_absent_text(m: &mut Vec<String>, x: &str)
    ensures
        text_views(final(m)@) == push_absent(text_views(old(m)@), x@),
{
    let xs = owned(x);
    if !contains_id(m, &xs) {
        let ghost b = text_views(m@);
        m.push(xs);
        assert(text_views(m@) =~= b.push(x@));
    }
}

/// The reason that an object-binding gap token stands for.
pub open spec fn gap_reason(token: Seq<char>) -> Option<Seq<char>> {
    if token == "selection_predicate"@ {
        Some("selection_predicate_binding_missing"@)
    } else if token == "mapped_value"@ {
        Some("mapped_value_binding_missing"@)
    } else if token == "merged_sources"@ {
        Some("merged_source_binding_missing"@)
    } else if token == "tuple_projection"@ {
        Some("tuple_projection_binding_missing"@)
    } else if token == "cardinality_transform"@ {
        Some("cardinality_transform_binding_missing"@)
    } else if token == "dynamic_index"@ {
        Some("dynamic_index_binding_missing"@)
    } else if token == "range_or_slice"@ {
        Some("range_or_slice_binding_missing"@)
    } else if token == "sequence_length_unknown"@ {
        Some("sequence_length_binding_missing"@)
    } else if token == "key_contract"@ {
        Some("key_contract_binding_missing"@)
    } else if token == "reassignment_barrier"@ {
        Some("object_reassignment_barrier"@)
    } else if token == "mutation_barrier"@ {
        Some("storage_mutation_barrier"@)
    } else if token == "call_boundary"@ {
        Some("call_boundary_binding_missing"@)
    } else {
        None
    }
}

fn gap_reason_of(token: &String) -> (r: Option<&'static str>)
    ensures
        match r {
            Some(x) => gap_reason(token@) == Some(x@),
            None => gap_reason(token@) is None,
        },
{
    let t = token.clone();
    if t == owned("selection_predicate") {
        Some("selection_predicate_binding_missing")
    } else if t == owned("mapped_value") {
        Some("mapped_value_binding_missing")
    } else if t == owned("merged_sources") {
        Some("merged_source_binding_missing")
    } else if t == owned("tuple_projection") {
        Some("tuple_projection_binding_missing")
    } else if t == owned("cardinality_transform") {
        Some("cardinality_transform_binding_missing")
    } else if t == owned("dynamic_index") {
        Some("dynamic_index_binding_missing")
    } else if t == owned("range_or_slice") {
        Some("range_or_slice_binding_missing")
    } else if t == owned("sequence_length_unknown") {
        Some("sequence_length_binding_missing")
    } else if t == owned("key_contract") {
        Some("key_contract_binding_missing")
    } else if t == owned("reassignment_barrier") {
        Some("object_reassignment_barrier")
    } else if t == owned("mutation_barrier") {
        Some("storage_mutation_barrier")
    } else if t == owned("call_boundary") {
        Some("call_boundary_binding_missing")
    } else {
        None
    }
}

/// The list after the reasons of the gap tokens among the ids.
pub open spec fn gap_over_ids(m: Seq<Seq<char>>, ids: Seq<Seq<char>>) -> Seq<Seq<char>>
    decreases ids.len(),
{
    if ids.len() == 0 {
        m
    } else {
        let m1 = gap_over_ids(m, ids.drop_last());
        let x = ids.last();
        if crate::v326_facts::has_prefix(x, "object_binding_gap:"@) && gap_reason(x.skip(19)) is Some {
            push_absent(m1, gap_reason(x.skip(19))->0)
        } else {
            m1
        }
    }
}

/// The list after the reasons of the object-binding gaps among the facts.
pub open spec fn gap_over_facts(m: Seq<Seq<char>>, facts: Seq<V326LifecycleFactRecord>) -> Seq<Seq<char>>
    decreases facts.len(),
{
    if facts.len() == 0 {
        m
    } else {
        let m1 = gap_over_facts(m, facts.drop_last());
        if facts.last().fact_kind == V326LifecycleFactKind::ObjectBindingGap {
            gap_over_ids(m1, ids_of(facts.last()))
        } else {
            m1
        }
    }
}

fn append_object_binding_gap_reasons(facts: &[V326LifecycleFactRecord], m: &mut Vec<String>)
    ensures
        text_views(final(m)@) == gap_over_facts(text_views(old(m)@), facts@),
{
    let ghost m0 = text_views(m@);
    let mut i: usize = 0;
    assert(facts@.take(0) =~= Seq::<V326LifecycleFactRecord>::empty());
    while i < facts.len()
        invariant
            0 <= i <= facts@.len(),
            text_views(m@) == gap_over_facts(m0, facts@.take(i as int)),
        decreases facts.len() - i,
    {
        assert(facts@.take(i + 1).drop_last() =~= facts@.take(i as int));
        if facts[i].fact_kind == V326LifecycleFactKind::ObjectBindingGap {
            let ids = &facts[i].object_ids;
            let ghost mi = text_views(m@);
            let mut k: usize = 0;
            assert(ids_of(facts@[i as int]).take(0) =~= Seq::<Seq<char>>::empty());
            while k < ids.len()
                invariant
                    0 <= i < facts@.len(),
                    *ids == facts@[i as int].object_ids,
                    0 <= k <= ids@.len(),
                    text_views(m@) == gap_over_ids(mi, ids_of(facts@[i as int]).take(k as int)),
                decreases ids.len() - k,
            {
                assert(ids_of(facts@[i as int]).take(k + 1).drop_last() =~= ids_of(facts@[i as int]).take(k as int));
                assert(ids_of(facts@[i as int]).take(k + 1).last() == ids@[k as int]@);
                proof {
                    reveal_strlit("object_binding_gap:");
                }
                if crate::text::starts_with(ids[k].as_str(), "object_binding_gap:") {
                    assert("object_binding_gap:"@.len() == 19);
                    let token = crate::text::skip_chars(ids[k].as_str(), 19);
                    match gap_reason_of(&token) {
                        Some(reason) => push_absent_text(m, reason),
                        None => {},
                    }
                }
                k = k + 1;
            }
            assert(ids_of(facts@[i as int]).take(ids@.len() as int) =~= ids_of(facts@[i as int]));
        }
        i = i + 1;
    }
    assert(facts@.take(facts@.len() as int) =~= facts@);
}

/// Some authoritative fact of a partial chain kind names two lifecycle objects.
pub open spec fn partial_chain_evidence(facts: Seq<V326LifecycleFactRecord>) -> bool {
    exists|k: int|
        0 <= k < facts.len() && is_authoritative_binding(facts[k]) && #[trigger] two_lifecycle_objects(facts[k])
}

/// A fact of a returned borrow, a persisted borrow, an external buffer binding or an object flow
/// that names two different lifecycle objects.
pub open spec fn two_lifecycle_objects(f: V326LifecycleFactRecord) -> bool {
    if f.fact_kind == V326LifecycleFactKind::ObjectFlow {
        ends(f).len() == 2 && ends(f)[0] != ends(f)[1]
    } else {
        (f.fact_kind == V326LifecycleFactKind::ReturnedBorrowRelation || f.fact_kind
            == V326LifecycleFactKind::PersistedReturnedBorrow || f.fact_kind == V326LifecycleFactKind::ExternalBufferBinding)
            && exists|a: int, b: int|
            0 <= a < ids_of(f).len() && 0 <= b < ids_of(f).len() && !is_auxiliary_id(#[trigger] ids_of(f)[a])
                && !is_auxiliary_id(#[trigger] ids_of(f)[b]) && ids_of(f)[a] != ids_of(f)[b]
    }
}

fn names_two_objects(f: &V326LifecycleFactRecord) -> (r: bool)
    ensures
        r == two_lifecycle_objects(*f),
{
    if f.fact_kind == V326LifecycleFactKind::ObjectFlow {
        let e = crate::v326_fact_edges::object_flow_endpoint_object_ids_in_order(f);
        if e.len() == 2 {
            assert(text_views(e@)[0] == e@[0]@ && text_views(e@)[1] == e@[1]@);
            return e[0] != e[1];
        }
        return false;
    }
    if !(f.fact_kind == V326LifecycleFactKind::ReturnedBorrowRelation || f.fact_kind
        == V326LifecycleFactKind::PersistedReturnedBorrow || f.fact_kind == V326LifecycleFactKind::ExternalBufferBinding) {
        return false;
    }
    let mut first: Option<usize> = None;
    let mut a: usize = 0;
    while a < f.object_ids.len()
        invariant
            0 <= a <= f.object_ids@.len(),
            f.fact_kind == V326LifecycleFactKind::ReturnedBorrowRelation || f.fact_kind
                == V326LifecycleFactKind::PersistedReturnedBorrow || f.fact_kind == V326LifecycleFactKind::ExternalBufferBinding,
            match first {
                Some(x) => x < a && !is_auxiliary_id(ids_of(*f)[x as int]) && forall|k: int|
                    0 <= k < a && !is_auxiliary_id(#[trigger] ids_of(*f)[k]) ==> ids_of(*f)[k] == ids_of(*f)[x as int],
                None => forall|k: int| 0 <= k < a ==> is_auxiliary_id(#[trigger] ids_of(*f)[k]),
            },
        decreases f.object_ids.len() - a,
    {
        if !crate::v326_chain_refs::auxiliary_id_of(f.object_ids[a].as_str()) {
            match first {
                None => {
                    first = Some(a);
                },
                Some(x) => {
                    if f.object_ids[a] != f.object_ids[x] {
                        assert(ids_of(*f)[a as int] != ids_of(*f)[x as int]);
                        assert(!is_auxiliary_id(ids_of(*f)[a as int]));
                        assert(two_lifecycle_objects(*f));
                        return true;
                    }
                },
            }
        }
        a = a + 1;
    }
    false
}

fn has_partial_chain_evidence(facts: &[V326LifecycleFactRecord]) -> (r: bool)
    ensures
        r == partial_chain_evidence(facts@),
{
    let mut k: usize = 0;
    while k < facts.len()
        invariant
            0 <= k <= facts@.len(),
            forall|j: int| 0 <= j < k && is_authoritative_binding(facts@[j]) ==> !#[trigger] two_lifecycle_objects(facts@[j]),
        decreases facts.len() - k,
    {
        if is_authoritative_object_binding_fact(&facts[k]) && names_two_objects(&facts[k]) {
            return true;
        }
        k = k + 1;
    }
    false
}

/// Some fact is an authoritative binding.
pub open spec fn any_authoritative(facts: Seq<V326LifecycleFactRecord>) -> bool {
    exists|k: int| 0 <= k < facts.len() && #[trigger] is_authoritative_binding(facts[k])
}

/// Some fact is an authoritative callback user-data reconstruction.
pub open spec fn any_user_data_use(facts: Seq<V326LifecycleFactRecord>) -> bool {
    exists|k: int|
        0 <= k < facts.len() && #[trigger] is_authoritative_binding(facts[k]) && facts[k].fact_kind
            == V326LifecycleFactKind::CallbackUserDataReconstruction
}

fn any_fact<F: Fn(&V326LifecycleFactRecord) -> bool>(
    facts: &[V326LifecycleFactRecord],
    keep: F,
    Ghost(p): Ghost<spec_fn(V326LifecycleFactRecord) -> bool>,
) -> (r: bool)
    requires
        forall|f: &V326LifecycleFactRecord| #[trigger] keep.requires((f,)),
        forall|f: &V326LifecycleFactRecord, b: bool| #[trigger] keep.ensures((f,), b) ==> b == p(*f),
    ensures
        r == exists|i: int| 0 <= i < facts@.len() && #[trigger] p(facts@[i]),
{
    let mut i: usize = 0;
    while i < facts.len()
        invariant
            0 <= i <= facts@.len(),
            forall|f: &V326LifecycleFactRecord| #[trigger] keep.requires((f,)),
            forall|f: &V326LifecycleFactRecord, b: bool| #[trigger] keep.ensures((f,), b) ==> b == p(*f),
            forall|k: int| 0 <= k < i ==> !#[trigger] p(facts@[k]),
        decreases facts.len() - i,
    {
        if keep(&facts[i]) {
            return true;
        }
        i = i + 1;
    }
    false
}

/// One of the reasons a feature set leaves an object chain incomplete, when it holds.
pub open spec fn reason_part(f: V326FeatureSet, facts: Seq<V326LifecycleFactRecord>, i: int) -> Seq<Seq<char>> {
    let (c, x) = if i == 0 {
        (!f.has_verified_object_chain && !partial_chain_evidence(facts) && any_authoritative(facts), "object_flow_missing"@)
    } else if i == 1 {
        ((f.has_foreign_register || f.has_foreign_unregister) && !f.has_release_order_chain, "release_order_proof_missing"@)
    } else if i == 2 {
        ((f.has_returned_borrow_relation || f.has_persisted_returned_borrow) && !f.has_persisted_invalidation_use_chain,
        "use_ordering_proof_missing"@)
    } else if i == 3 {
        (f.has_external_buffer_binding && !f.has_verified_object_chain, "complete_risk_chain_missing"@)
    } else if i == 4 {
        (any_user_data_use(facts) && f.has_release_order_chain && !f.has_callback_release_use_chain, if same_object_support(
            facts,
        ) {
            "use_ordering_proof_missing"@
        } else {
            "callback_release_use_object_flow_missing"@
        })
    } else if i == 5 {
        (any_ambiguous_flow(facts), "object_binding_ambiguous"@)
    } else if i == 6 {
        (incomplete_component(facts), "object_flow_counterpart_missing"@)
    } else if i == 7 {
        (incomplete_pair(facts, "argument"@, "return_value"@), "call_boundary_binding_missing"@)
    } else if i == 8 {
        (incomplete_pair(facts, "field_store"@, "field_load"@) || unverified_pair(facts, "field_store"@, "field_load"@),
        "field_binding_missing"@)
    } else if i == 9 {
        ((incomplete_pair(facts, "wrapper_move"@, "wrapper_destructure"@) || unverified_pair(
            facts,
            "wrapper_move"@,
            "wrapper_destructure"@,
        )) && !f.has_release_order_chain, "wrapper_binding_missing"@)
    } else if i == 10 {
        (incomplete_pair(facts, "collection_store"@, "collection_load"@) || unverified_pair(
            facts,
            "collection_store"@,
            "collection_load"@,
        ), "collection_binding_missing"@)
    } else {
        (incomplete_closure_capture(facts), "closure_binding_missing"@)
    };
    if c {
        seq![x]
    } else {
        seq![]
    }
}

/// The first `n` of the reasons, in the order they are found.
pub open spec fn reasons_upto(f: V326FeatureSet, facts: Seq<V326LifecycleFactRecord>, n: int) -> Seq<Seq<char>>
    decreases n,
{
    if n <= 0 {
        Seq::empty()
    } else {
        reasons_upto(f, facts, n - 1) + reason_part(f, facts, n - 1)
    }
}

/// The reasons a feature set leaves an object chain incomplete, in the order they are found.
pub open spec fn feature_reasons(f: V326FeatureSet, facts: Seq<V326LifecycleFactRecord>) -> Seq<Seq<char>> {
    reasons_upto(f, facts, 12)
}

/// The list after each reason is added unless it is already there.
pub open spec fn add_reasons(m: Seq<Seq<char>>, reasons: Seq<Seq<char>>) -> Seq<Seq<char>>
    decreases reasons.len(),
{
    if reasons.len() == 0 {
        m
    } else {
        push_absent(add_reasons(m, reasons.drop_last()), reasons.last())
    }
}

fn push_reason(reasons: &mut Vec<&'static str>, c: bool, x: &'static str)
    ensures
        final(reasons)@.map_values(|s: &str| s@) == old(reasons)@.map_values(|s: &str| s@) + (if c { seq![x@] } else { seq![] }),
{
    let ghost b = reasons@.map_values(|s: &str| s@);
    if c {
        reasons.push(x);
        assert(reasons@.map_values(|s: &str| s@) =~= b + seq![x@]);
    } else {
        assert(reasons@.map_values(|s: &str| s@) =~= b + Seq::<Seq<char>>::empty());
    }
}

/// Adds to the missing evidence the reasons that the features leave an object chain incomplete:
/// first the reasons of the object-binding gaps, then the others, each once.
fn incomplete_reasons(f: &V326FeatureSet, facts: &[V326LifecycleFactRecord]) -> (reasons: Vec<&'static str>)
    ensures
        reasons@.map_values(|s: &str| s@) == feature_reasons(*f, facts@),
{
    let mut reasons: Vec<&'static str> = Vec::new();
    assert(reasons@.map_values(|s: &str| s@) =~= reasons_upto(*f, facts@, 0));
    let any_auth = any_fact(
        facts,
        (|x: &V326LifecycleFactRecord| -> (b: bool)
            ensures
                b == is_authoritative_binding(*x),
            { is_authoritative_object_binding_fact(x) }),
        Ghost(|x: V326LifecycleFactRecord| is_authoritative_binding(x)),
    );
    proof {
        if any_authoritative(facts@) {
            let k = choose|k: int| 0 <= k < facts@.len() && #[trigger] is_authoritative_binding(facts@[k]);
            assert((|x: V326LifecycleFactRecord| is_authoritative_binding(x))(facts@[k]));
        }
    }
    assert(any_auth == any_authoritative(facts@));
    push_reason(&mut reasons, !f.has_verified_object_chain && !has_partial_chain_evidence(facts) && any_auth, "object_flow_missing");
    assert(reasons@.map_values(|s: &str| s@) == reasons_upto(*f, facts@, 1));
    push_reason(&mut reasons, (f.has_foreign_register || f.has_foreign_unregister) && !f.has_release_order_chain, "release_order_proof_missing");
    assert(reasons@.map_values(|s: &str| s@) == reasons_upto(*f, facts@, 2));
    push_reason(&mut reasons, (f.has_returned_borrow_relation || f.has_persisted_returned_borrow) && !f.has_persisted_invalidation_use_chain, "use_ordering_proof_missing");
    assert(reasons@.map_values(|s: &str| s@) == reasons_upto(*f, facts@, 3));
    push_reason(&mut reasons, f.has_external_buffer_binding && !f.has_verified_object_chain, "complete_risk_chain_missing");
    assert(reasons@.map_values(|s: &str| s@) == reasons_upto(*f, facts@, 4));
    let uses = any_fact(
        facts,
        (|x: &V326LifecycleFactRecord| -> (b: bool)
            ensures
                b == (is_authoritative_binding(*x) && x.fact_kind == V326LifecycleFactKind::CallbackUserDataReconstruction),
            { is_authoritative_object_binding_fact(x) && x.fact_kind == V326LifecycleFactKind::CallbackUserDataReconstruction }),
        Ghost(|x: V326LifecycleFactRecord| is_authoritative_binding(x) && x.fact_kind == V326LifecycleFactKind::CallbackUserDataReconstruction),
    );
    proof {
        if any_user_data_use(facts@) {
            let k = choose|k: int| 0 <= k < facts@.len() && #[trigger] is_authoritative_binding(facts@[k]) && facts@[k].fact_kind
                == V326LifecycleFactKind::CallbackUserDataReconstruction;
            assert((|x: V326LifecycleFactRecord| is_authoritative_binding(x) && x.fact_kind == V326LifecycleFactKind::CallbackUserDataReconstruction)(facts@[k]));
        }
    }
    assert(uses == any_user_data_use(facts@));
    let cb = uses && f.has_release_order_chain && !f.has_callback_release_use_chain;
    let same = callback_release_use_same_object_support_exists(facts);
    let cb_reason = if same {
        "use_ordering_proof_missing"
    } else {
        "callback_release_use_object_flow_missing"
    };
    push_reason(&mut reasons, cb, cb_reason);
    assert(reasons@.map_values(|s: &str| s@) == reasons_upto(*f, facts@, 5));
    push_reason(&mut reasons, has_ambiguous_object_flow_binding(facts), "object_binding_ambiguous");
    assert(reasons@.map_values(|s: &str| s@) == reasons_upto(*f, facts@, 6));
    push_reason(&mut reasons, has_incomplete_authoritative_object_flow_component(facts), "object_flow_counterpart_missing");
    assert(reasons@.map_values(|s: &str| s@) == reasons_upto(*f, facts@, 7));
    push_reason(&mut reasons, has_incomplete_authoritative_object_flow_pair(facts, "argument", "return_value"), "call_boundary_binding_missing");
    assert(reasons@.map_values(|s: &str| s@) == reasons_upto(*f, facts@, 8));
    let field = has_incomplete_authoritative_object_flow_pair(facts, "field_store", "field_load")
        || has_unverified_authoritative_object_flow_pair(facts, "field_store", "field_load");
    push_reason(&mut reasons, field, "field_binding_missing");
    assert(reasons@.map_values(|s: &str| s@) == reasons_upto(*f, facts@, 9));
    let wrapper = (has_incomplete_authoritative_object_flow_pair(facts, "wrapper_move", "wrapper_destructure")
        || has_unverified_authoritative_object_flow_pair(facts, "wrapper_move", "wrapper_destructure")) && !f.has_release_order_chain;
    push_reason(&mut reasons, wrapper, "wrapper_binding_missing");
    assert(reasons@.map_values(|s: &str| s@) == reasons_upto(*f, facts@, 10));
    let collection = has_incomplete_authoritative_object_flow_pair(facts, "collection_store", "collection_load")
        || has_unverified_authoritative_object_flow_pair(facts, "collection_store", "collection_load");
    push_reason(&mut reasons, collection, "collection_binding_missing");
    assert(reasons@.map_values(|s: &str| s@) == reasons_upto(*f, facts@, 11));
    push_reason(&mut reasons, has_incomplete_closure_capture_component(facts), "closure_binding_missing");
    assert(reasons@.map_values(|s: &str| s@) == reasons_upto(*f, facts@, 12));
    reasons
}

/// Adds to the missing evidence the reasons that the features leave an object chain incomplete:
/// first the reasons of the object-binding gaps, then the others, each once.
pub fn append_feature_incomplete_reasons(f: &V326FeatureSet, facts: &[V326LifecycleFactRecord], m: &mut Vec<String>)
    ensures
        text_views(final(m)@) == add_reasons(gap_over_facts(text_views(old(m)@), facts@), feature_reasons(*f, facts@)),
{
    let reasons = incomplete_reasons(f, facts);
    let ghost rs = reasons@.map_values(|s: &str| s@);
    append_object_binding_gap_reasons(facts, m);
    let ghost m1 = text_views(m@);
    let mut i: usize = 0;
    assert(rs.take(0) =~= Seq::<Seq<char>>::empty());
    while i < reasons.len()
        invariant
            0 <= i <= reasons@.len(),
            rs == reasons@.map_values(|s: &str| s@),
            text_views(m@) == add_reasons(m1, rs.take(i as int)),
        decreases reasons.len() - i,
    {
        assert(rs.take(i + 1).drop_last() =~= rs.take(i as int));
        push_absent_text(m, reasons[i]);
        i = i + 1;
    }
    assert(rs.take(rs.len() as int) =~= rs);
}


/// The ids of the authoritative facts of one kind, in order.
pub open spec fn auth_ids(facts: Seq<V326LifecycleFactRecord>, k: V326LifecycleFactKind) -> Seq<Seq<char>> {
    ids_where(facts, |f: V326LifecycleFactRecord| authoritative_of_kinds(f, seq![k]))
}

/// The callback user-data reconstructions of a kind that a verified chain holds, in order.
pub open spec fn verified_reconstructions(facts: Seq<V326LifecycleFactRecord>, token: Seq<char>) -> Seq<Seq<char>> {
    ids_where(facts, |f: V326LifecycleFactRecord| is_user_data_reconstruction(f, token) && verified_chain_ref(facts, f.fact_id@))
}

/// The returned-borrow orders of a kind that a persisted-borrow chain holds, in order.
pub open spec fn verified_orders(facts: Seq<V326LifecycleFactRecord>, token: Seq<char>) -> Seq<Seq<char>> {
    ids_where(facts, |f: V326LifecycleFactRecord| is_returned_borrow_order(f, token) && persisted_ref(facts, f.fact_id@))
}

/// All the evidence has low confidence.
pub open spec fn all_low(ev: Seq<V326LifecycleEvidenceRecord>) -> bool {
    forall|i: int| 0 <= i < ev.len() ==> (#[trigger] ev[i]).confidence == V326EvidenceConfidence::Low
}

/// Some evidence meets the condition.
pub open spec fn any_ev(ev: Seq<V326LifecycleEvidenceRecord>, p: spec_fn(V326LifecycleEvidenceRecord) -> bool) -> bool {
    exists|i: int| 0 <= i < ev.len() && #[trigger] p(ev[i])
}

/// The lifecycle features of a candidate, from its evidence, facts and applicable contracts.
#[verifier::opaque]
pub open spec fn derived_set(
    ev: Seq<V326LifecycleEvidenceRecord>,
    facts: Seq<V326LifecycleFactRecord>,
    cs: Seq<V326LifecycleContractRecord>,
) -> V326FeatureSet {
    let fr = has_kind(ev, V326EvidenceKind::ForeignRegister);
    let retains = has_kind(ev, V326EvidenceKind::ForeignRetentionHint) || contracts_may_retain(cs);
    let retain_cb = retains;
    let retain_ud = retains && (has_kind(ev, V326EvidenceKind::RawPointerEscape) || has_kind(ev, V326EvidenceKind::BorrowEdge));
    let borrowed = has_kind(ev, V326EvidenceKind::BorrowEdge);
    let raw_escape = raw_pointer_escape_bound(facts);
    let raw_parts = ids_where(facts, |f: V326LifecycleFactRecord| is_raw_parts_transfer(f)).len() > 0;
    let drop_prev = auth_ids(facts, V326LifecycleFactKind::DropPrevention).len() > 0;
    let owner_wo_guard = verified_reconstructions(facts, "owner_from_transmute"@).len() > 0 && verified_reconstructions(
        facts,
        "leak_from_raw"@,
    ).len() == 0;
    let callback_chain = exists|x: Seq<char>| #[trigger] callback_chain_ref(facts, x);
    let opaque = has_kind(ev, V326EvidenceKind::OpaqueHandleTransfer) && !has_kind(ev, V326EvidenceKind::OwnedAnchor);
    let static_bound = ev_ids_where(ev, |e: V326LifecycleEvidenceRecord| is_static_bound(e)).len() > 0;
    let owned = has_kind(ev, V326EvidenceKind::OwnedAnchor) || auth_ids(facts, V326LifecycleFactKind::OwnedMoveCapture).len() > 0;
    let unregister = has_kind(ev, V326EvidenceKind::ForeignUnregister) || has_kind(ev, V326EvidenceKind::ReleaseSite)
        || ids_where(
        facts,
        |f: V326LifecycleFactRecord|
            authoritative_of_kinds(f, seq![V326LifecycleFactKind::UnregisterCall, V326LifecycleFactKind::ReleaseCall]),
    ).len() > 0;
    let covers = release_covers_object(facts);
    let risk = retain_cb || retain_ud || borrowed || raw_escape || owner_wo_guard || callback_chain || opaque;
    let protected = static_bound && owned && !borrowed;
    let missing_unreg = fr && risk && !protected && !unregister && !covers;
    let retained_wo_bound = fr && (retain_cb || retain_ud) && raw_escape && owned && !static_bound;
    let borrowed_wo_guard = borrowed && !unregister && !covers && !owned;
    let may_drop = borrowed_wo_guard || retained_wo_bound;
    let unknown = fr && (risk || unregister) && !covers;
    V326FeatureSet {
        has_foreign_register: fr,
        foreign_may_retain_callback: retain_cb,
        foreign_may_retain_user_data: retain_ud,
        has_borrowed_capture: borrowed,
        has_raw_pointer_escape: raw_escape,
        raw_parts_transfer_without_drop_prevention: raw_parts && !drop_prev,
        has_drop_prevention: drop_prev,
        manual_drop_prevention_without_drop_guard: ids_where(
            facts,
            |f: V326LifecycleFactRecord| is_manual_drop_prevention(f, facts),
        ).len() > 0,
        callback_user_data_owner_reconstruction_without_leak_guard: owner_wo_guard,
        has_returned_borrow_relation: auth_ids(facts, V326LifecycleFactKind::ReturnedBorrowRelation).len() > 0,
        has_unconstrained_return_lifetime: ids_where(facts, |f: V326LifecycleFactRecord| is_unconstrained_return(f)).len() > 0,
        has_persisted_returned_borrow: auth_ids(facts, V326LifecycleFactKind::PersistedReturnedBorrow).len() > 0,
        returned_borrow_persistence_before_invalidation: verified_orders(facts, "persistence_before_invalidation_use"@).len() > 0,
        returned_borrow_persistence_after_invalidation: verified_orders(facts, "invalidation_before_persistence_use"@).len() > 0,
        has_external_buffer_binding: auth_ids(facts, V326LifecycleFactKind::ExternalBufferBinding).len() > 0,
        has_external_buffer_lifetime_bound: ev_ids_where(ev, |e: V326LifecycleEvidenceRecord| is_external_buffer_bound(e)).len() > 0,
        relaxed_atomic_load_in_iterator: ids_where(facts, |f: V326LifecycleFactRecord| is_atomic_load_ordering(f, "relaxed"@)).len() > 0,
        acquire_atomic_load_in_iterator: ids_where(facts, |f: V326LifecycleFactRecord| is_atomic_load_ordering(f, "acquire"@)).len() > 0,
        has_verified_object_chain: exists|x: Seq<char>| #[trigger] verified_chain_ref(facts, x),
        has_release_order_chain: exists|x: Seq<char>| #[trigger] release_order_ref(facts, x),
        has_persisted_invalidation_use_chain: exists|x: Seq<char>| #[trigger] persisted_ref(facts, x),
        has_callback_release_use_chain: callback_chain,
        rust_object_may_drop_before_foreign_release: may_drop,
        missing_unregister_before_drop: missing_unreg,
        release_order_unknown: unknown,
        opaque_handle_without_owner: opaque,
        needs_dynamic_witness: fr && (missing_unreg || unknown || may_drop || all_low(ev)),
        has_foreign_unregister: unregister,
        registration_release_pair_found: covers,
        has_drop_guard: has_kind(ev, V326EvidenceKind::DropGuard) || auth_ids(facts, V326LifecycleFactKind::DropSite).len() > 0,
        has_owned_anchor: owned,
        has_static_bound: static_bound,
        has_box_into_raw: any_ev(ev, |e: V326LifecycleEvidenceRecord| is_box_into_raw(e)),
        has_box_from_raw: any_ev(ev, |e: V326LifecycleEvidenceRecord| is_box_from_raw(e)),
        has_arc_anchor: has_kind(ev, V326EvidenceKind::OwnedAnchor) || ids_where(
            facts,
            |f: V326LifecycleFactRecord| is_shared_owner_anchor(f),
        ).len() > 0,
        release_covers_callback: covers,
    }
}

/// The references of a feature: in increasing order, each once, when `sorted`, and then they
/// form `set`; else exactly `refs`.
pub struct FeatureRefs {
    pub sorted: bool,
    pub refs: Seq<Seq<char>>,
    pub set: Set<Seq<char>>,
}

/// Exact references, in the order they are found.
pub open spec fn exact(refs: Seq<Seq<char>>) -> FeatureRefs {
    FeatureRefs { sorted: false, refs, set: Set::empty() }
}

/// References in increasing order, each once, that form the set.
pub open spec fn sorted(set: Set<Seq<char>>) -> FeatureRefs {
    FeatureRefs { sorted: true, refs: Seq::empty(), set }
}

/// Whether a list of references is what the feature's references say.
pub open spec fn refs_match(v: Seq<Seq<char>>, r: FeatureRefs) -> bool {
    if r.sorted {
        texts_strictly_sorted(v) && v.to_set() == r.set
    } else {
        v == r.refs
    }
}

/// The references of the feature at position `i`, in declaration order.
#[verifier::opaque]
pub open spec fn feature_refs(
    ev: Seq<V326LifecycleEvidenceRecord>,
    facts: Seq<V326LifecycleFactRecord>,
    cs: Seq<V326LifecycleContractRecord>,
    i: int,
) -> FeatureRefs {
    let k = |kind: V326EvidenceKind| refs_of_kind(ev, kind);
    if i == 0 {
        exact(k(V326EvidenceKind::ForeignRegister))
    } else if i == 1 || i == 2 {
        sorted(retention_ref_set(ev, cs))
    } else if i == 3 {
        exact(k(V326EvidenceKind::BorrowEdge))
    } else if i == 4 {
        sorted((k(V326EvidenceKind::RawPointerEscape) + k(V326EvidenceKind::ForeignRegister) + ids_where(
            facts,
            |f: V326LifecycleFactRecord| is_raw_pointer_binding(f),
        )).to_set())
    } else if i == 5 {
        exact(ids_where(facts, |f: V326LifecycleFactRecord| is_raw_parts_transfer(f)))
    } else if i == 6 {
        exact(auth_ids(facts, V326LifecycleFactKind::DropPrevention))
    } else if i == 7 {
        exact(ids_where(facts, |f: V326LifecycleFactRecord| is_manual_drop_prevention(f, facts)))
    } else if i == 8 {
        exact(verified_reconstructions(facts, "owner_from_transmute"@))
    } else if i == 9 {
        exact(auth_ids(facts, V326LifecycleFactKind::ReturnedBorrowRelation))
    } else if i == 10 {
        exact(ids_where(facts, |f: V326LifecycleFactRecord| is_unconstrained_return(f)))
    } else if i == 11 {
        exact(auth_ids(facts, V326LifecycleFactKind::PersistedReturnedBorrow))
    } else if i == 12 {
        exact(verified_orders(facts, "persistence_before_invalidation_use"@))
    } else if i == 13 {
        exact(verified_orders(facts, "invalidation_before_persistence_use"@))
    } else if i == 14 {
        exact(auth_ids(facts, V326LifecycleFactKind::ExternalBufferBinding))
    } else if i == 15 {
        exact(ev_ids_where(ev, |e: V326LifecycleEvidenceRecord| is_external_buffer_bound(e)))
    } else if i == 16 {
        exact(ids_where(facts, |f: V326LifecycleFactRecord| is_atomic_load_ordering(f, "relaxed"@)))
    } else if i == 17 {
        exact(ids_where(facts, |f: V326LifecycleFactRecord| is_atomic_load_ordering(f, "acquire"@)))
    } else if i == 18 {
        sorted(Set::new(|x: Seq<char>| verified_chain_ref(facts, x)))
    } else if i == 19 {
        sorted(Set::new(|x: Seq<char>| release_order_ref(facts, x)))
    } else if i == 20 {
        sorted(Set::new(|x: Seq<char>| persisted_ref(facts, x)))
    } else if i == 21 {
        sorted(Set::new(|x: Seq<char>| callback_chain_ref(facts, x)))
    } else if i == 22 {
        sorted((k(V326EvidenceKind::BorrowEdge) + k(V326EvidenceKind::ForeignRegister) + k(V326EvidenceKind::RawPointerEscape)
            + k(V326EvidenceKind::OwnedAnchor) + ids_where(facts, |f: V326LifecycleFactRecord| is_raw_pointer_binding(f))).to_set().union(
            retention_ref_set(ev, cs),
        ))
    } else if i == 23 {
        exact(k(V326EvidenceKind::ForeignRegister))
    } else if i == 24 || i == 28 || i == 35 {
        sorted(coverage_ref_set(ev, facts))
    } else if i == 25 {
        exact(k(V326EvidenceKind::OpaqueHandleTransfer))
    } else if i == 26 {
        exact(crate::v326_graph_build::evidence_ids(ev))
    } else if i == 27 {
        exact(k(V326EvidenceKind::ForeignUnregister) + k(V326EvidenceKind::ReleaseSite) + ids_where(
            facts,
            |f: V326LifecycleFactRecord|
                authoritative_of_kinds(f, seq![V326LifecycleFactKind::UnregisterCall, V326LifecycleFactKind::ReleaseCall]),
        ))
    } else if i == 29 {
        sorted((k(V326EvidenceKind::DropGuard) + auth_ids(facts, V326LifecycleFactKind::DropSite)).to_set())
    } else if i == 30 {
        sorted((k(V326EvidenceKind::OwnedAnchor) + auth_ids(facts, V326LifecycleFactKind::OwnedMoveCapture)).to_set())
    } else if i == 31 {
        exact(ev_ids_where(ev, |e: V326LifecycleEvidenceRecord| is_static_bound(e)))
    } else if i == 32 {
        exact(k(V326EvidenceKind::OwnedAnchor))
    } else if i == 33 {
        exact(k(V326EvidenceKind::ReleaseSite))
    } else {
        sorted((k(V326EvidenceKind::OwnedAnchor) + ids_where(facts, |f: V326LifecycleFactRecord| is_shared_owner_anchor(f))).to_set())
    }
}

/// The feature positions in increasing order of their names.
pub open spec fn name_order() -> Seq<int> {
    seq![17, 8, 1, 2, 34, 3, 33, 32, 21, 29, 6, 14, 15, 0, 27, 30, 20, 11, 4, 19, 9, 31, 10, 18, 7, 23, 26, 25, 5, 28, 16, 35, 24, 13, 12, 22]
}

/// The positions of the active features among the first `n` in name order.
pub open spec fn active_in_name_order(f: V326FeatureSet, n: int) -> Seq<int>
    decreases n,
{
    if n <= 0 {
        Seq::empty()
    } else if crate::lifecycle_v326::feature_values(f)[name_order()[n - 1]] {
        active_in_name_order(f, n - 1).push(name_order()[n - 1])
    } else {
        active_in_name_order(f, n - 1)
    }
}

/// The evidence of the features: one entry per active feature, in increasing order of names,
/// with its name and references.
pub open spec fn evidence_entries_match(
    entries: Seq<(String, Vec<String>)>,
    f: V326FeatureSet,
    ev: Seq<V326LifecycleEvidenceRecord>,
    facts: Seq<V326LifecycleFactRecord>,
    cs: Seq<V326LifecycleContractRecord>,
) -> bool {
    let idx = active_in_name_order(f, 36);
    &&& entries.len() == idx.len()
    &&& forall|j: int|
        0 <= j < entries.len() ==> (#[trigger] entries[j]).0@ == crate::lifecycle_v326::feature_names()[idx[j]] && refs_match(
            text_views(entries[j].1@),
            feature_refs(ev, facts, cs, idx[j]),
        )
}


/// Some item, ASCII lower-cased, holds the pattern.
pub open spec fn any_lower_mentions(m: Seq<Seq<char>>, pat: Seq<char>) -> bool {
    exists|i: int| 0 <= i < m.len() && #[trigger] lower_contains(m[i], pat)
}

/// Some item holds the pattern.
pub open spec fn any_mentions(m: Seq<Seq<char>>, pat: Seq<char>) -> bool {
    exists|i: int| 0 <= i < m.len() && #[trigger] contains_text(m[i], pat)
}

/// The evidence found missing: the graph's incomplete evidence, then, each once, the gaps the
/// features reveal, in the order they are found.
#[verifier::opaque]
pub open spec fn derived_missing(
    g: Seq<Seq<char>>,
    ev: Seq<V326LifecycleEvidenceRecord>,
    facts: Seq<V326LifecycleFactRecord>,
    cs: Seq<V326LifecycleContractRecord>,
) -> Seq<Seq<char>> {
    let f = derived_set(ev, facts, cs);
    let m1 = push_if(g, f.raw_parts_transfer_without_drop_prevention, "raw_parts_transfer_without_drop_prevention"@);
    let m2 = push_if(
        m1,
        f.callback_user_data_owner_reconstruction_without_leak_guard,
        "callback_user_data_leak_guard_missing"@,
    );
    let m3 = push_if(
        m2,
        ids_where(facts, |x: V326LifecycleFactRecord| is_user_data_reconstruction(x, "owner_from_transmute"@)).len() > 0
            && verified_reconstructions(facts, "owner_from_transmute"@).len() == 0,
        "callback_user_data_object_flow_missing"@,
    );
    let m4 = push_if(
        m3,
        has_kind(ev, V326EvidenceKind::RawPointerEscape) && !f.has_raw_pointer_escape,
        "raw_pointer_escape_without_registered_object_binding"@,
    );
    let m5 = if f.missing_unregister_before_drop && !any_lower_mentions(m4, "unregister"@) {
        m4.push("no unregister evidence found near candidate"@)
    } else {
        m4
    };
    let retained = f.has_foreign_register && (f.foreign_may_retain_callback || f.foreign_may_retain_user_data)
        && f.has_raw_pointer_escape && f.has_owned_anchor && !f.has_static_bound;
    let m6 = if retained && !any_mentions(m5, "lifetime bound"@) {
        m5.push("retained callback lacks static lifetime bound evidence"@)
    } else {
        m5
    };
    let m7 = push_if(
        m6,
        f.has_foreign_register && f.has_foreign_unregister && !f.release_covers_callback,
        "release_coverage_object_mismatch"@,
    );
    let m8 = push_if(m7, f.release_order_unknown, "release_order_unknown"@);
    add_reasons(gap_over_facts(m8, facts), feature_reasons(f, facts))
}

fn push_if_text(m: &mut Vec<String>, c: bool, x: &str)
    ensures
        text_views(final(m)@) == push_if(text_views(old(m)@), c, x@),
{
    if c {
        push_absent_text(m, x);
    }
}

fn any_item_lower_mentions(m: &Vec<String>, pat: &str) -> (b: bool)
    ensures
        b == any_lower_mentions(text_views(m@), pat@),
{
    let mut i: usize = 0;
    while i < m.len()
        invariant
            0 <= i <= m@.len(),
            forall|k: int| 0 <= k < i ==> !#[trigger] lower_contains(text_views(m@)[k], pat@),
        decreases m.len() - i,
    {
        if lowercase_contains(m[i].as_str(), pat) {
            assert(lower_contains(text_views(m@)[i as int], pat@));
            return true;
        }
        i = i + 1;
    }
    false
}

fn any_item_mentions(m: &Vec<String>, pat: &str) -> (b: bool)
    ensures
        b == any_mentions(text_views(m@), pat@),
{
    let mut i: usize = 0;
    while i < m.len()
        invariant
            0 <= i <= m@.len(),
            forall|k: int| 0 <= k < i ==> !#[trigger] contains_text(text_views(m@)[k], pat@),
        decreases m.len() - i,
    {
        if text_contains(m[i].as_str(), pat) {
            assert(contains_text(text_views(m@)[i as int], pat@));
            return true;
        }
        i = i + 1;
    }
    false
}

fn one_kind(k: V326LifecycleFactKind) -> (v: Vec<V326LifecycleFactKind>)
    ensures
        v@ == seq![k],
{
    let mut v: Vec<V326LifecycleFactKind> = Vec::new();
    v.push(k);
    assert(v@ =~= seq![k]);
    v
}

fn auth_refs(facts: &[V326LifecycleFactRecord], k: V326LifecycleFactKind) -> (r: Vec<String>)
    ensures
        text_views(r@) == auth_ids(facts@, k),
{
    let kinds = one_kind(k);
    authoritative_fact_refs(facts, &kinds)
}

fn sorted_of(v: Vec<String>) -> (r: Vec<String>)
    ensures
        texts_strictly_sorted(text_views(r@)),
        text_views(r@).to_set() == text_views(v@).to_set(),
{
    sorted_unique_texts(v)
}

fn nonempty_iff_some(v: &Vec<String>, Ghost(p): Ghost<spec_fn(Seq<char>) -> bool>) -> (b: bool)
    requires
        forall|x: Seq<char>| text_views(v@).contains(x) <==> p(x),
    ensures
        b == exists|x: Seq<char>| #[trigger] p(x),
{
    proof {
        if v@.len() > 0 {
            assert(text_views(v@).contains(text_views(v@)[0]));
        }
        if exists|x: Seq<char>| #[trigger] p(x) {
            let x = choose|x: Seq<char>| #[trigger] p(x);
            assert(text_views(v@).contains(x));
        }
    }
    v.len() > 0
}


fn verified_reconstruction_refs(facts: &[V326LifecycleFactRecord], token: &str, vchain: &Vec<String>) -> (r: Vec<String>)
    requires
        forall|x: Seq<char>| text_views(vchain@).contains(x) <==> verified_chain_ref(facts@, x),
    ensures
        text_views(r@) == verified_reconstructions(facts@, token@),
{
    let ghost p = |f: V326LifecycleFactRecord| is_user_data_reconstruction(f, token@) && verified_chain_ref(facts@, f.fact_id@);
    fact_ids_where(
        facts,
        (|f: &V326LifecycleFactRecord| -> (b: bool)
            ensures
                b == (is_user_data_reconstruction(*f, token@) && verified_chain_ref(facts@, f.fact_id@)),
            {
                is_authoritative_object_binding_fact(f) && f.fact_kind == V326LifecycleFactKind::CallbackUserDataReconstruction
                    && match &f.symbol_path {
                    Some(x) => text_lower_ends_with(x.as_str(), token),
                    None => false,
                } && contains_id(vchain, &f.fact_id)
            }),
        Ghost(p),
    )
}

fn verified_order_refs(facts: &[V326LifecycleFactRecord], token: &str, pchain: &Vec<String>) -> (r: Vec<String>)
    requires
        forall|x: Seq<char>| text_views(pchain@).contains(x) <==> persisted_ref(facts@, x),
    ensures
        text_views(r@) == verified_orders(facts@, token@),
{
    let id = crate::text::concat2("returned_borrow_order:", token);
    let ghost p = |f: V326LifecycleFactRecord| is_returned_borrow_order(f, token@) && persisted_ref(facts@, f.fact_id@);
    fact_ids_where(
        facts,
        (|f: &V326LifecycleFactRecord| -> (b: bool)
            ensures
                b == (is_returned_borrow_order(*f, token@) && persisted_ref(facts@, f.fact_id@)),
            {
                is_authoritative_object_binding_fact(f) && f.fact_kind == V326LifecycleFactKind::ReturnedBorrowInvalidationOrder
                    && object_ids_hold(&f.object_ids, id.as_str()) && contains_id(pchain, &f.fact_id)
            }),
        Ghost(p),
    )
}

fn all_low_evidence(ev: &Vec<V326LifecycleEvidenceRecord>) -> (b: bool)
    ensures
        b == all_low(ev@),
{
    let mut i: usize = 0;
    while i < ev.len()
        invariant
            0 <= i <= ev@.len(),
            forall|k: int| 0 <= k < i ==> (#[trigger] ev@[k]).confidence == V326EvidenceConfidence::Low,
        decreases ev.len() - i,
    {
        if ev[i].confidence != V326EvidenceConfidence::Low {
            return false;
        }
        i = i + 1;
    }
    true
}

fn all_record_ids(ev: &Vec<V326LifecycleEvidenceRecord>) -> (r: Vec<String>)
    ensures
        text_views(r@) == crate::v326_graph_build::evidence_ids(ev@),
{
    let mut r: Vec<String> = Vec::new();
    let mut i: usize = 0;
    while i < ev.len()
        invariant
            0 <= i <= ev@.len(),
            text_views(r@) == crate::v326_graph_build::evidence_ids(ev@.take(i as int)),
        decreases ev.len() - i,
    {
        let ghost b = text_views(r@);
        r.push(ev[i].record_id.clone());
        assert(text_views(r@) =~= b.push(ev@[i as int].record_id@));
        assert(crate::v326_graph_build::evidence_ids(ev@.take(i + 1)) =~= crate::v326_graph_build::evidence_ids(ev@.take(i as int)).push(ev@[i as int].record_id@));
        i = i + 1;
    }
    assert(ev@.take(ev@.len() as int) =~= ev@);
    r
}

/// The notes of a derived feature record.
pub open spec fn feature_notes_view() -> Seq<Seq<char>> {
    seq!["candidate ranking is not a defect conclusion"@, "features are evidence-derived and not pattern-template defaults"@]
}

fn feature_notes() -> (r: Vec<String>)
    ensures
        text_views(r@) == feature_notes_view(),
{
    let mut r: Vec<String> = Vec::new();
    r.push(owned("candidate ranking is not a defect conclusion"));
    r.push(owned("features are evidence-derived and not pattern-template defaults"));
    assert(text_views(r@) =~= feature_notes_view());
    r
}

fn name_position(j: usize) -> (i: usize)
    requires
        j < 36,
    ensures
        i as int == name_order()[j as int],
        i < 36,
{
    let order: [usize; 36] = [17, 8, 1, 2, 34, 3, 33, 32, 21, 29, 6, 14, 15, 0, 27, 30, 20, 11, 4, 19, 9, 31, 10, 18, 7, 23, 26, 25, 5, 28, 16, 35, 24, 13, 12, 22];
    proof {
        assert(order@ =~= name_order().map_values(|x: int| x as usize));
    }
    order[j]
}

fn push_row(rows: &mut Vec<Vec<String>>, r: Vec<String>, Ghost(fr): Ghost<FeatureRefs>)
    requires
        refs_match(text_views(r@), fr),
    ensures
        final(rows)@ == old(rows)@.push(r),
{
    rows.push(r);
}


fn rows_lead(ev: &Vec<V326LifecycleEvidenceRecord>, facts: &Vec<V326LifecycleFactRecord>, cs: &Vec<V326LifecycleContractRecord>) -> (rows: Vec<Vec<String>>)
    ensures
        rows@.len() == 12,
        forall|i: int| 0 <= i < 12 ==> refs_match(text_views(#[trigger] rows@[i]@), feature_refs(ev@, facts@, cs@, i)),
{
    reveal(feature_refs);
    let fs = facts.as_slice();
    let mut rows: Vec<Vec<String>> = Vec::new();
    push_row(&mut rows, refs_for(ev, V326EvidenceKind::ForeignRegister), Ghost(feature_refs(ev@, facts@, cs@, 0)));
    push_row(&mut rows, retention_refs(ev, cs.as_slice()), Ghost(feature_refs(ev@, facts@, cs@, 1)));
    push_row(&mut rows, retention_refs(ev, cs.as_slice()), Ghost(feature_refs(ev@, facts@, cs@, 2)));
    push_row(&mut rows, refs_for(ev, V326EvidenceKind::BorrowEdge), Ghost(feature_refs(ev@, facts@, cs@, 3)));
    let mut raw_refs = refs_for(ev, V326EvidenceKind::RawPointerEscape);
    extend(&mut raw_refs, refs_for(ev, V326EvidenceKind::ForeignRegister));
    extend(&mut raw_refs, raw_pointer_binding_fact_refs(fs));
    push_row(&mut rows, sorted_of(raw_refs), Ghost(feature_refs(ev@, facts@, cs@, 4)));
    push_row(&mut rows, authoritative_raw_parts_transfer_refs(fs), Ghost(feature_refs(ev@, facts@, cs@, 5)));
    push_row(&mut rows, auth_refs(fs, V326LifecycleFactKind::DropPrevention), Ghost(feature_refs(ev@, facts@, cs@, 6)));
    push_row(&mut rows, manual_drop_prevention_without_drop_guard_refs(fs), Ghost(feature_refs(ev@, facts@, cs@, 7)));
    let vchain = verified_object_chain_refs(fs);
    push_row(&mut rows, verified_reconstruction_refs(fs, "owner_from_transmute", &vchain), Ghost(feature_refs(ev@, facts@, cs@, 8)));
    push_row(&mut rows, auth_refs(fs, V326LifecycleFactKind::ReturnedBorrowRelation), Ghost(feature_refs(ev@, facts@, cs@, 9)));
    push_row(&mut rows, authoritative_unconstrained_return_lifetime_refs(fs), Ghost(feature_refs(ev@, facts@, cs@, 10)));
    push_row(&mut rows, auth_refs(fs, V326LifecycleFactKind::PersistedReturnedBorrow), Ghost(feature_refs(ev@, facts@, cs@, 11)));
    rows
}

fn rows_middle(ev: &Vec<V326LifecycleEvidenceRecord>, facts: &Vec<V326LifecycleFactRecord>, cs: &Vec<V326LifecycleContractRecord>) -> (rows: Vec<Vec<String>>)
    ensures
        rows@.len() == 12,
        forall|i: int| 0 <= i < 12 ==> refs_match(text_views(#[trigger] rows@[i]@), feature_refs(ev@, facts@, cs@, i + 12)),
{
    reveal(feature_refs);
    let fs = facts.as_slice();
    let mut rows: Vec<Vec<String>> = Vec::new();
    let pchain = persisted_invalidation_use_chain_refs(fs);
    push_row(&mut rows, verified_order_refs(fs, "persistence_before_invalidation_use", &pchain), Ghost(feature_refs(ev@, facts@, cs@, 12)));
    push_row(&mut rows, verified_order_refs(fs, "invalidation_before_persistence_use", &pchain), Ghost(feature_refs(ev@, facts@, cs@, 13)));
    push_row(&mut rows, auth_refs(fs, V326LifecycleFactKind::ExternalBufferBinding), Ghost(feature_refs(ev@, facts@, cs@, 14)));
    push_row(&mut rows, external_bound_refs(ev), Ghost(feature_refs(ev@, facts@, cs@, 15)));
    push_row(&mut rows, authoritative_atomic_ordering_refs(fs, "relaxed"), Ghost(feature_refs(ev@, facts@, cs@, 16)));
    push_row(&mut rows, authoritative_atomic_ordering_refs(fs, "acquire"), Ghost(feature_refs(ev@, facts@, cs@, 17)));
    let vchain = verified_object_chain_refs(fs);
    assert(text_views(vchain@).to_set() =~= Set::new(|x: Seq<char>| verified_chain_ref(facts@, x)));
    push_row(&mut rows, vchain, Ghost(feature_refs(ev@, facts@, cs@, 18)));
    let rchain = release_order_chain_refs(fs);
    assert(text_views(rchain@).to_set() =~= Set::new(|x: Seq<char>| release_order_ref(facts@, x)));
    push_row(&mut rows, rchain, Ghost(feature_refs(ev@, facts@, cs@, 19)));
    assert(text_views(pchain@).to_set() =~= Set::new(|x: Seq<char>| persisted_ref(facts@, x)));
    push_row(&mut rows, pchain, Ghost(feature_refs(ev@, facts@, cs@, 20)));
    let cchain = callback_release_use_chain_refs(fs);
    assert(text_views(cchain@).to_set() =~= Set::new(|x: Seq<char>| callback_chain_ref(facts@, x)));
    push_row(&mut rows, cchain, Ghost(feature_refs(ev@, facts@, cs@, 21)));
    let mut drop_refs = refs_for(ev, V326EvidenceKind::BorrowEdge);
    extend(&mut drop_refs, refs_for(ev, V326EvidenceKind::ForeignRegister));
    extend(&mut drop_refs, refs_for(ev, V326EvidenceKind::RawPointerEscape));
    extend(&mut drop_refs, refs_for(ev, V326EvidenceKind::OwnedAnchor));
    extend(&mut drop_refs, raw_pointer_binding_fact_refs(fs));
    let ghost drop_seq = text_views(drop_refs@);
    let retention = retention_refs(ev, cs.as_slice());
    let ghost ret_seq = text_views(retention@);
    extend(&mut drop_refs, retention);
    proof {
        assert forall|x: Seq<char>| text_views(drop_refs@).to_set().contains(x) <==> drop_seq.to_set().union(ret_seq.to_set()).contains(x) by {
            crate::v326_chain_refs::lemma_concat_contains(drop_seq, ret_seq, x);
        }
        assert(text_views(drop_refs@).to_set() =~= drop_seq.to_set().union(ret_seq.to_set()));
    }
    push_row(&mut rows, sorted_of(drop_refs), Ghost(feature_refs(ev@, facts@, cs@, 22)));
    push_row(&mut rows, refs_for(ev, V326EvidenceKind::ForeignRegister), Ghost(feature_refs(ev@, facts@, cs@, 23)));
    rows
}

fn rows_trail(ev: &Vec<V326LifecycleEvidenceRecord>, facts: &Vec<V326LifecycleFactRecord>, cs: &Vec<V326LifecycleContractRecord>) -> (rows: Vec<Vec<String>>)
    ensures
        rows@.len() == 12,
        forall|i: int| 0 <= i < 12 ==> refs_match(text_views(#[trigger] rows@[i]@), feature_refs(ev@, facts@, cs@, i + 24)),
{
    reveal(feature_refs);
    let fs = facts.as_slice();
    let mut rows: Vec<Vec<String>> = Vec::new();
    let coverage = release_coverage_refs(ev, fs);
    push_row(&mut rows, clone_texts(&coverage), Ghost(feature_refs(ev@, facts@, cs@, 24)));
    push_row(&mut rows, refs_for(ev, V326EvidenceKind::OpaqueHandleTransfer), Ghost(feature_refs(ev@, facts@, cs@, 25)));
    push_row(&mut rows, all_record_ids(ev), Ghost(feature_refs(ev@, facts@, cs@, 26)));
    let mut unreg_kinds: Vec<V326LifecycleFactKind> = Vec::new();
    unreg_kinds.push(V326LifecycleFactKind::UnregisterCall);
    unreg_kinds.push(V326LifecycleFactKind::ReleaseCall);
    assert(unreg_kinds@ =~= seq![V326LifecycleFactKind::UnregisterCall, V326LifecycleFactKind::ReleaseCall]);
    let mut unreg_refs = refs_for(ev, V326EvidenceKind::ForeignUnregister);
    extend(&mut unreg_refs, refs_for(ev, V326EvidenceKind::ReleaseSite));
    extend(&mut unreg_refs, authoritative_fact_refs(fs, &unreg_kinds));
    push_row(&mut rows, unreg_refs, Ghost(feature_refs(ev@, facts@, cs@, 27)));
    push_row(&mut rows, clone_texts(&coverage), Ghost(feature_refs(ev@, facts@, cs@, 28)));
    let mut guard_refs = refs_for(ev, V326EvidenceKind::DropGuard);
    extend(&mut guard_refs, auth_refs(fs, V326LifecycleFactKind::DropSite));
    push_row(&mut rows, sorted_of(guard_refs), Ghost(feature_refs(ev@, facts@, cs@, 29)));
    let mut owned_refs = refs_for(ev, V326EvidenceKind::OwnedAnchor);
    extend(&mut owned_refs, auth_refs(fs, V326LifecycleFactKind::OwnedMoveCapture));
    push_row(&mut rows, sorted_of(owned_refs), Ghost(feature_refs(ev@, facts@, cs@, 30)));
    push_row(&mut rows, static_bound_refs(ev), Ghost(feature_refs(ev@, facts@, cs@, 31)));
    push_row(&mut rows, refs_for(ev, V326EvidenceKind::OwnedAnchor), Ghost(feature_refs(ev@, facts@, cs@, 32)));
    push_row(&mut rows, refs_for(ev, V326EvidenceKind::ReleaseSite), Ghost(feature_refs(ev@, facts@, cs@, 33)));
    let mut arc_refs = refs_for(ev, V326EvidenceKind::OwnedAnchor);
    extend(&mut arc_refs, authoritative_shared_owner_anchor_refs(fs));
    push_row(&mut rows, sorted_of(arc_refs), Ghost(feature_refs(ev@, facts@, cs@, 34)));
    push_row(&mut rows, coverage, Ghost(feature_refs(ev@, facts@, cs@, 35)));
    rows
}

fn external_bound_refs(ev: &Vec<V326LifecycleEvidenceRecord>) -> (r: Vec<String>)
    ensures
        text_views(r@) == ev_ids_where(ev@, |e: V326LifecycleEvidenceRecord| is_external_buffer_bound(e)),
{
    evidence_ids_where(
        ev,
        (|e: &V326LifecycleEvidenceRecord| -> (b: bool)
            ensures
                b == is_external_buffer_bound(*e),
            { e.evidence_kind == V326EvidenceKind::LifetimeBound && external_signal(e) }),
        Ghost(|e: V326LifecycleEvidenceRecord| is_external_buffer_bound(e)),
    )
}

fn static_bound_refs(ev: &Vec<V326LifecycleEvidenceRecord>) -> (r: Vec<String>)
    ensures
        text_views(r@) == ev_ids_where(ev@, |e: V326LifecycleEvidenceRecord| is_static_bound(e)),
{
    evidence_ids_where(
        ev,
        (|e: &V326LifecycleEvidenceRecord| -> (b: bool)
            ensures
                b == is_static_bound(*e),
            { e.evidence_kind == V326EvidenceKind::LifetimeBound && !external_signal(e) }),
        Ghost(|e: V326LifecycleEvidenceRecord| is_static_bound(e)),
    )
}


fn any_ref(v: &Vec<String>) -> (b: bool)
    ensures
        b == (text_views(v@).len() > 0),
{
    v.len() > 0
}

fn has_chain_v(fs: &[V326LifecycleFactRecord]) -> (b: bool)
    ensures
        b == exists|x: Seq<char>| #[trigger] verified_chain_ref(fs@, x),
{
    let v = verified_object_chain_refs(fs);
    proof {
        assert(text_views(v@).len() == v@.len());
        if v.len() > 0 {
            let y = text_views(v@)[0];
            assert(text_views(v@).contains(y));
            assert(verified_chain_ref(fs@, y));
            assert(exists|x: Seq<char>| #[trigger] verified_chain_ref(fs@, x));
        }
        if exists|x: Seq<char>| #[trigger] verified_chain_ref(fs@, x) {
            let x = choose|x: Seq<char>| #[trigger] verified_chain_ref(fs@, x);
            assert(text_views(v@).contains(x));
            assert(v@.len() > 0);
        }
    }
    v.len() > 0
}

fn has_chain_r(fs: &[V326LifecycleFactRecord]) -> (b: bool)
    ensures
        b == exists|x: Seq<char>| #[trigger] release_order_ref(fs@, x),
{
    let v = release_order_chain_refs(fs);
    proof {
        assert(text_views(v@).len() == v@.len());
        if v.len() > 0 {
            let y = text_views(v@)[0];
            assert(text_views(v@).contains(y));
            assert(release_order_ref(fs@, y));
            assert(exists|x: Seq<char>| #[trigger] release_order_ref(fs@, x));
        }
        if exists|x: Seq<char>| #[trigger] release_order_ref(fs@, x) {
            let x = choose|x: Seq<char>| #[trigger] release_order_ref(fs@, x);
            assert(text_views(v@).contains(x));
            assert(v@.len() > 0);
        }
    }
    v.len() > 0
}

fn has_chain_p(fs: &[V326LifecycleFactRecord]) -> (b: bool)
    ensures
        b == exists|x: Seq<char>| #[trigger] persisted_ref(fs@, x),
{
    let v = persisted_invalidation_use_chain_refs(fs);
    proof {
        assert(text_views(v@).len() == v@.len());
        if v.len() > 0 {
            let y = text_views(v@)[0];
            assert(text_views(v@).contains(y));
            assert(persisted_ref(fs@, y));
            assert(exists|x: Seq<char>| #[trigger] persisted_ref(fs@, x));
        }
        if exists|x: Seq<char>| #[trigger] persisted_ref(fs@, x) {
            let x = choose|x: Seq<char>| #[trigger] persisted_ref(fs@, x);
            assert(text_views(v@).contains(x));
            assert(v@.len() > 0);
        }
    }
    v.len() > 0
}

fn has_chain_c(fs: &[V326LifecycleFactRecord]) -> (b: bool)
    ensures
        b == exists|x: Seq<char>| #[trigger] callback_chain_ref(fs@, x),
{
    let v = callback_release_use_chain_refs(fs);
    proof {
        assert(text_views(v@).len() == v@.len());
        if v.len() > 0 {
            let y = text_views(v@)[0];
            assert(text_views(v@).contains(y));
            assert(callback_chain_ref(fs@, y));
            assert(exists|x: Seq<char>| #[trigger] callback_chain_ref(fs@, x));
        }
        if exists|x: Seq<char>| #[trigger] callback_chain_ref(fs@, x) {
            let x = choose|x: Seq<char>| #[trigger] callback_chain_ref(fs@, x);
            assert(text_views(v@).contains(x));
            assert(v@.len() > 0);
        }
    }
    v.len() > 0
}

fn chain_flags(fs: &[V326LifecycleFactRecord]) -> (r: (bool, bool, bool, bool))
    ensures
        r.0 == exists|x: Seq<char>| #[trigger] verified_chain_ref(fs@, x),
        r.1 == exists|x: Seq<char>| #[trigger] release_order_ref(fs@, x),
        r.2 == exists|x: Seq<char>| #[trigger] persisted_ref(fs@, x),
        r.3 == exists|x: Seq<char>| #[trigger] callback_chain_ref(fs@, x),
{
    (has_chain_v(fs), has_chain_r(fs), has_chain_p(fs), has_chain_c(fs))
}

fn owner_without_guard(fs: &[V326LifecycleFactRecord]) -> (b: bool)
    ensures
        b == (verified_reconstructions(fs@, "owner_from_transmute"@).len() > 0 && verified_reconstructions(fs@, "leak_from_raw"@).len() == 0),
{
    let vchain = verified_object_chain_refs(fs);
    let owner = verified_reconstruction_refs(fs, "owner_from_transmute", &vchain);
    let leak = verified_reconstruction_refs(fs, "leak_from_raw", &vchain);
    assert(text_views(owner@).len() == owner@.len() && text_views(leak@).len() == leak@.len());
    owner.len() > 0 && leak.len() == 0
}

fn order_flags(fs: &[V326LifecycleFactRecord]) -> (r: (bool, bool))
    ensures
        r.0 == (verified_orders(fs@, "persistence_before_invalidation_use"@).len() > 0),
        r.1 == (verified_orders(fs@, "invalidation_before_persistence_use"@).len() > 0),
{
    let pchain = persisted_invalidation_use_chain_refs(fs);
    let before = verified_order_refs(fs, "persistence_before_invalidation_use", &pchain);
    let after = verified_order_refs(fs, "invalidation_before_persistence_use", &pchain);
    assert(text_views(before@).len() == before@.len() && text_views(after@).len() == after@.len());
    (before.len() > 0, after.len() > 0)
}

fn evidence_flags(ev: &Vec<V326LifecycleEvidenceRecord>, cs: &Vec<V326LifecycleContractRecord>) -> (r: (bool, bool, bool, bool, bool, bool, bool, bool))
    ensures
        r.0 == has_kind(ev@, V326EvidenceKind::ForeignRegister),
        r.1 == (has_kind(ev@, V326EvidenceKind::ForeignRetentionHint) || contracts_may_retain(cs@)),
        r.2 == has_kind(ev@, V326EvidenceKind::BorrowEdge),
        r.3 == has_kind(ev@, V326EvidenceKind::RawPointerEscape),
        r.4 == (has_kind(ev@, V326EvidenceKind::OpaqueHandleTransfer) && !has_kind(ev@, V326EvidenceKind::OwnedAnchor)),
        r.5 == (ev_ids_where(ev@, |e: V326LifecycleEvidenceRecord| is_static_bound(e)).len() > 0),
        r.6 == has_kind(ev@, V326EvidenceKind::OwnedAnchor),
        r.7 == (has_kind(ev@, V326EvidenceKind::ForeignUnregister) || has_kind(ev@, V326EvidenceKind::ReleaseSite)),
{
    let st = static_bound_refs(ev);
    assert(text_views(st@).len() == st@.len());
    (
        has_evidence(ev, V326EvidenceKind::ForeignRegister),
        has_evidence(ev, V326EvidenceKind::ForeignRetentionHint) || has_contract_retention(cs.as_slice()),
        has_evidence(ev, V326EvidenceKind::BorrowEdge),
        has_evidence(ev, V326EvidenceKind::RawPointerEscape),
        has_evidence(ev, V326EvidenceKind::OpaqueHandleTransfer) && !has_evidence(ev, V326EvidenceKind::OwnedAnchor),
        st.len() > 0,
        has_evidence(ev, V326EvidenceKind::OwnedAnchor),
        has_evidence(ev, V326EvidenceKind::ForeignUnregister) || has_evidence(ev, V326EvidenceKind::ReleaseSite),
    )
}

fn detail_flags(ev: &Vec<V326LifecycleEvidenceRecord>) -> (r: (bool, bool, bool, bool, bool))
    ensures
        r.0 == any_ev(ev@, |e: V326LifecycleEvidenceRecord| is_box_into_raw(e)),
        r.1 == any_ev(ev@, |e: V326LifecycleEvidenceRecord| is_box_from_raw(e)),
        r.2 == (ev_ids_where(ev@, |e: V326LifecycleEvidenceRecord| is_external_buffer_bound(e)).len() > 0),
        r.3 == all_low(ev@),
        r.4 == has_kind(ev@, V326EvidenceKind::DropGuard),
{
    let box_into = any_evidence(
        ev,
        (|e: &V326LifecycleEvidenceRecord| -> (b: bool)
            ensures
                b == is_box_into_raw(*e),
            {
                e.evidence_kind == V326EvidenceKind::OwnedAnchor && (match details_signal(&e.details) {
                    Some(t) => text_contains(t.as_str(), "box into raw"),
                    None => false,
                } || details_text_mentions(&e.details, "into_raw"))
            }),
        Ghost(|e: V326LifecycleEvidenceRecord| is_box_into_raw(e)),
    );
    let box_from = any_evidence(
        ev,
        (|e: &V326LifecycleEvidenceRecord| -> (b: bool)
            ensures
                b == is_box_from_raw(*e),
            { e.evidence_kind == V326EvidenceKind::ReleaseSite && details_text_mentions(&e.details, "from_raw") }),
        Ghost(|e: V326LifecycleEvidenceRecord| is_box_from_raw(e)),
    );
    let ext = external_bound_refs(ev);
    assert(text_views(ext@).len() == ext@.len());
    (box_into, box_from, ext.len() > 0, all_low_evidence(ev), has_evidence(ev, V326EvidenceKind::DropGuard))
}

fn fact_flags(fs: &[V326LifecycleFactRecord]) -> (r: (bool, bool, bool, bool, bool, bool, bool, bool, bool, bool, bool, bool, bool))
    ensures
        r.0 == (ids_where(fs@, |f: V326LifecycleFactRecord| is_raw_parts_transfer(f)).len() > 0),
        r.1 == (auth_ids(fs@, V326LifecycleFactKind::DropPrevention).len() > 0),
        r.2 == (ids_where(fs@, |f: V326LifecycleFactRecord| is_manual_drop_prevention(f, fs@)).len() > 0),
        r.3 == (auth_ids(fs@, V326LifecycleFactKind::ReturnedBorrowRelation).len() > 0),
        r.4 == (ids_where(fs@, |f: V326LifecycleFactRecord| is_unconstrained_return(f)).len() > 0),
        r.5 == (auth_ids(fs@, V326LifecycleFactKind::PersistedReturnedBorrow).len() > 0),
        r.6 == (auth_ids(fs@, V326LifecycleFactKind::ExternalBufferBinding).len() > 0),
        r.7 == (ids_where(fs@, |f: V326LifecycleFactRecord| is_atomic_load_ordering(f, "relaxed"@)).len() > 0),
        r.8 == (ids_where(fs@, |f: V326LifecycleFactRecord| is_atomic_load_ordering(f, "acquire"@)).len() > 0),
        r.9 == (auth_ids(fs@, V326LifecycleFactKind::OwnedMoveCapture).len() > 0),
        r.10 == (ids_where(fs@, |f: V326LifecycleFactRecord| authoritative_of_kinds(f, seq![V326LifecycleFactKind::UnregisterCall, V326LifecycleFactKind::ReleaseCall])).len() > 0),
        r.11 == (auth_ids(fs@, V326LifecycleFactKind::DropSite).len() > 0),
        r.12 == (ids_where(fs@, |f: V326LifecycleFactRecord| is_shared_owner_anchor(f)).len() > 0),
{
    let mut unreg_kinds: Vec<V326LifecycleFactKind> = Vec::new();
    unreg_kinds.push(V326LifecycleFactKind::UnregisterCall);
    unreg_kinds.push(V326LifecycleFactKind::ReleaseCall);
    assert(unreg_kinds@ =~= seq![V326LifecycleFactKind::UnregisterCall, V326LifecycleFactKind::ReleaseCall]);
    (
        any_ref(&authoritative_raw_parts_transfer_refs(fs)),
        any_ref(&auth_refs(fs, V326LifecycleFactKind::DropPrevention)),
        any_ref(&manual_drop_prevention_without_drop_guard_refs(fs)),
        any_ref(&auth_refs(fs, V326LifecycleFactKind::ReturnedBorrowRelation)),
        any_ref(&authoritative_unconstrained_return_lifetime_refs(fs)),
        any_ref(&auth_refs(fs, V326LifecycleFactKind::PersistedReturnedBorrow)),
        any_ref(&auth_refs(fs, V326LifecycleFactKind::ExternalBufferBinding)),
        any_ref(&authoritative_atomic_ordering_refs(fs, "relaxed")),
        any_ref(&authoritative_atomic_ordering_refs(fs, "acquire")),
        any_ref(&auth_refs(fs, V326LifecycleFactKind::OwnedMoveCapture)),
        any_ref(&authoritative_fact_refs(fs, &unreg_kinds)),
        any_ref(&auth_refs(fs, V326LifecycleFactKind::DropSite)),
        any_ref(&authoritative_shared_owner_anchor_refs(fs)),
    )
}

fn feature_set(ev: &Vec<V326LifecycleEvidenceRecord>, facts: &Vec<V326LifecycleFactRecord>, cs: &Vec<V326LifecycleContractRecord>) -> (f: V326FeatureSet)
    ensures
        f == derived_set(ev@, facts@, cs@),
{
    reveal(derived_set);
    let fs = facts.as_slice();
    let (fr, retains, borrowed, rpe, opaque, static_bound, owned_ev, unreg_ev) = evidence_flags(ev, cs);
    let (box_into, box_from, ext_bound, low, guard_ev) = detail_flags(ev);
    let (raw_parts, drop_prev, manual, rel, unc, pers, ext, relaxed, acquire, owned_f, unreg_f, guard_f, shared) = fact_flags(fs);
    let (has_vchain, has_rchain, has_pchain, has_cchain) = chain_flags(fs);
    let owner_wo = owner_without_guard(fs);
    let (before, after) = order_flags(fs);
    let bound = raw_pointer_escape_is_bound_to_register(fs);
    let covers = release_covers_same_lifecycle_object(&Vec::new(), fs);
    let retain_ud = retains && (rpe || borrowed);
    let owned_anchor = owned_ev || owned_f;
    let unregister = unreg_ev || unreg_f;
    let risk = retains || retain_ud || borrowed || bound || owner_wo || has_cchain || opaque;
    let protected = static_bound && owned_anchor && !borrowed;
    let missing_unreg = fr && risk && !protected && !unregister && !covers;
    let retained = fr && (retains || retain_ud) && bound && owned_anchor && !static_bound;
    let borrowed_wo = borrowed && !unregister && !covers && !owned_anchor;
    let may_drop = borrowed_wo || retained;
    let unknown = fr && (risk || unregister) && !covers;
    V326FeatureSet {
        has_foreign_register: fr,
        foreign_may_retain_callback: retains,
        foreign_may_retain_user_data: retain_ud,
        has_borrowed_capture: borrowed,
        has_raw_pointer_escape: bound,
        raw_parts_transfer_without_drop_prevention: raw_parts && !drop_prev,
        has_drop_prevention: drop_prev,
        manual_drop_prevention_without_drop_guard: manual,
        callback_user_data_owner_reconstruction_without_leak_guard: owner_wo,
        has_returned_borrow_relation: rel,
        has_unconstrained_return_lifetime: unc,
        has_persisted_returned_borrow: pers,
        returned_borrow_persistence_before_invalidation: before,
        returned_borrow_persistence_after_invalidation: after,
        has_external_buffer_binding: ext,
        has_external_buffer_lifetime_bound: ext_bound,
        relaxed_atomic_load_in_iterator: relaxed,
        acquire_atomic_load_in_iterator: acquire,
        has_verified_object_chain: has_vchain,
        has_release_order_chain: has_rchain,
        has_persisted_invalidation_use_chain: has_pchain,
        has_callback_release_use_chain: has_cchain,
        rust_object_may_drop_before_foreign_release: may_drop,
        missing_unregister_before_drop: missing_unreg,
        release_order_unknown: unknown,
        opaque_handle_without_owner: opaque,
        needs_dynamic_witness: fr && (missing_unreg || unknown || may_drop || low),
        has_foreign_unregister: unregister,
        registration_release_pair_found: covers,
        has_drop_guard: guard_ev || guard_f,
        has_owned_anchor: owned_anchor,
        has_static_bound: static_bound,
        has_box_into_raw: box_into,
        has_box_from_raw: box_from,
        has_arc_anchor: owned_ev || shared,
        release_covers_callback: covers,
    }
}


fn missing_evidence_of(
    graph: &V326LifecycleGraphRecord,
    ev: &Vec<V326LifecycleEvidenceRecord>,
    facts: &Vec<V326LifecycleFactRecord>,
    cs: &Vec<V326LifecycleContractRecord>,
    f: &V326FeatureSet,
) -> (m: Vec<String>)
    requires
        *f == derived_set(ev@, facts@, cs@),
    ensures
        text_views(m@) == derived_missing(text_views(graph.incomplete_evidence@), ev@, facts@, cs@),
{
    reveal(derived_missing);
    let fs = facts.as_slice();
    let mut m = clone_texts(&graph.incomplete_evidence);
    push_if_text(&mut m, f.raw_parts_transfer_without_drop_prevention, "raw_parts_transfer_without_drop_prevention");
    push_if_text(&mut m, f.callback_user_data_owner_reconstruction_without_leak_guard, "callback_user_data_leak_guard_missing");
    let unverified_owner = authoritative_callback_user_data_reconstruction_refs(fs, "owner_from_transmute");
    let vchain = verified_object_chain_refs(fs);
    let owner = verified_reconstruction_refs(fs, "owner_from_transmute", &vchain);
    assert(text_views(unverified_owner@).len() == unverified_owner@.len() && text_views(owner@).len() == owner@.len());
    push_if_text(&mut m, unverified_owner.len() > 0 && owner.len() == 0, "callback_user_data_object_flow_missing");
    push_if_text(&mut m, has_evidence(ev, V326EvidenceKind::RawPointerEscape) && !f.has_raw_pointer_escape, "raw_pointer_escape_without_registered_object_binding");
    if f.missing_unregister_before_drop && !any_item_lower_mentions(&m, "unregister") {
        let ghost b = text_views(m@);
        m.push(owned("no unregister evidence found near candidate"));
        assert(text_views(m@) =~= b.push("no unregister evidence found near candidate"@));
    }
    let retained = f.has_foreign_register && (f.foreign_may_retain_callback || f.foreign_may_retain_user_data)
        && f.has_raw_pointer_escape && f.has_owned_anchor && !f.has_static_bound;
    if retained && !any_item_mentions(&m, "lifetime bound") {
        let ghost b = text_views(m@);
        m.push(owned("retained callback lacks static lifetime bound evidence"));
        assert(text_views(m@) =~= b.push("retained callback lacks static lifetime bound evidence"@));
    }
    push_if_text(&mut m, f.has_foreign_register && f.has_foreign_unregister && !f.release_covers_callback, "release_coverage_object_mismatch");
    push_if_text(&mut m, f.release_order_unknown, "release_order_unknown");
    append_feature_incomplete_reasons(f, fs, &mut m);
    m
}

fn evidence_entries(
    f: &V326FeatureSet,
    rows: &Vec<Vec<String>>,
    Ghost(ev): Ghost<Seq<V326LifecycleEvidenceRecord>>,
    Ghost(facts): Ghost<Seq<V326LifecycleFactRecord>>,
    Ghost(cs): Ghost<Seq<V326LifecycleContractRecord>>,
) -> (entries: Vec<(String, Vec<String>)>)
    requires
        rows@.len() == 36,
        forall|i: int| 0 <= i < 36 ==> refs_match(text_views(#[trigger] rows@[i]@), feature_refs(ev, facts, cs, i)),
    ensures
        evidence_entries_match(entries@, *f, ev, facts, cs),
{
    let mut entries: Vec<(String, Vec<String>)> = Vec::new();
    let mut j: usize = 0;
    while j < 36
        invariant
            0 <= j <= 36,
            rows@.len() == 36,
            forall|i: int| 0 <= i < 36 ==> refs_match(text_views(#[trigger] rows@[i]@), feature_refs(ev, facts, cs, i)),
            entries@.len() == active_in_name_order(*f, j as int).len(),
            forall|k: int|
                0 <= k < entries@.len() ==> (#[trigger] entries@[k]).0@ == crate::lifecycle_v326::feature_names()[active_in_name_order(
                    *f,
                    j as int,
                )[k]] && refs_match(text_views(entries@[k].1@), feature_refs(ev, facts, cs, active_in_name_order(*f, j as int)[k])),
        decreases 36 - j,
    {
        let i = name_position(j);
        let (name, active) = f.flag_at(i);
        let ghost before = entries@;
        if active {
            entries.push((owned(name), clone_texts(&rows[i])));
            proof {
                assert(active_in_name_order(*f, j + 1) == active_in_name_order(*f, j as int).push(i as int));
                assert forall|k: int| 0 <= k < entries@.len() implies (#[trigger] entries@[k]).0@ == crate::lifecycle_v326::feature_names()[active_in_name_order(
                    *f,
                    j + 1,
                )[k]] && refs_match(text_views(entries@[k].1@), feature_refs(ev, facts, cs, active_in_name_order(*f, j + 1)[k])) by {
                    if k < before.len() {
                        assert(entries@[k] == before[k]);
                    } else {
                        assert(text_views(entries@[k].1@) == text_views(rows@[i as int]@));
                    }
                }
            }
        } else {
            assert(active_in_name_order(*f, j + 1) == active_in_name_order(*f, j as int));
        }
        j = j + 1;
    }
    entries
}

fn append_rows(acc: &mut Vec<Vec<String>>, more: Vec<Vec<String>>)
    ensures
        final(acc)@ == old(acc)@ + more@,
{
    let ghost a0 = acc@;
    let mut more = more;
    let mut taken: Vec<Vec<String>> = Vec::new();
    let ghost m0 = more@;
    while more.len() > 0
        invariant
            more@ == m0.take(more@.len() as int),
            taken@ == m0.skip(more@.len() as int).reverse(),
            more@.len() <= m0.len(),
        decreases more.len(),
    {
        let ghost t0 = taken@;
        let ghost n = more@.len();
        let x = more.pop().unwrap();
        taken.push(x);
        assert(more@ =~= m0.take(more@.len() as int));
        assert(taken@ =~= m0.skip(more@.len() as int).reverse());
    }
    let ghost t1 = taken@;
    while taken.len() > 0
        invariant
            acc@ == a0 + m0.take(m0.len() - taken@.len()),
            taken@ == m0.skip(m0.len() - taken@.len()).reverse(),
            taken@.len() <= m0.len(),
        decreases taken.len(),
    {
        let x = taken.pop().unwrap();
        acc.push(x);
        assert(acc@ =~= a0 + m0.take(m0.len() - taken@.len()));
        assert(taken@ =~= m0.skip(m0.len() - taken@.len()).reverse());
    }
    assert(m0.take(m0.len() as int) =~= m0);
}

/// The lifecycle features of a candidate from its own evidence, facts and applicable contracts.
pub(crate) fn derive_scoped(
    candidate: &V32CandidateRecord,
    graph: &V326LifecycleGraphRecord,
    ev: &Vec<V326LifecycleEvidenceRecord>,
    facts: &Vec<V326LifecycleFactRecord>,
    cs: &Vec<V326LifecycleContractRecord>,
) -> (r: V326LifecycleFeatureRecord)
    ensures
        r.features == derived_set(ev@, facts@, cs@),
        evidence_entries_match(r.feature_evidence@, r.features, ev@, facts@, cs@),
        text_views(r.missing_evidence@) == derived_missing(text_views(graph.incomplete_evidence@), ev@, facts@, cs@),
        r.schema_version@ == V3_2_6_LIFECYCLE_FEATURE_SCHEMA_V1@,
        r.run_id@ == candidate.run_id@,
        r.candidate_id@ == candidate.candidate_id@,
        r.crate_id@ == candidate.crate_id@,
        r.pattern_family == candidate.pattern_family,
        text_views(r.notes@) == feature_notes_view(),
{
    let features = feature_set(ev, facts, cs);
    let missing = missing_evidence_of(graph, ev, facts, cs, &features);
    let mut rows = rows_lead(ev, facts, cs);
    append_rows(&mut rows, rows_middle(ev, facts, cs));
    append_rows(&mut rows, rows_trail(ev, facts, cs));
    proof {
        assert forall|i: int| 0 <= i < 36 implies refs_match(text_views(#[trigger] rows@[i]@), feature_refs(ev@, facts@, cs@, i)) by {
            if i >= 24 {
                assert(rows@[i] == rows@.subrange(24, 36)[i - 24]);
            }
        }
    }
    let entries = evidence_entries(&features, &rows, Ghost(ev@), Ghost(facts@), Ghost(cs@));
    V326LifecycleFeatureRecord {
        schema_version: owned(V3_2_6_LIFECYCLE_FEATURE_SCHEMA_V1),
        run_id: candidate.run_id.clone(),
        candidate_id: candidate.candidate_id.clone(),
        crate_id: candidate.crate_id.clone(),
        pattern_family: candidate.pattern_family,
        features,
        feature_evidence: entries,
        missing_evidence: missing,
        notes: feature_notes(),
    }
}

} // verus!
