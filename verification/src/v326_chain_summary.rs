//! The summary of the object chains of a ranked candidate's lifecycle graph.

use vstd::prelude::*;

use crate::candidate::V32PatternFamily;
use crate::lifecycle_v326::{
    V326LifecycleGraphV3Record, V326LifecycleObjectKind, V326LifecycleRelation, V326ObjectChain,
    V326ObjectChainLayer, V326ObjectChainStatus, V326RankedCandidateRecord, V326RankedChainSummary, V326WitnessRoute,
};
use crate::static_fact::present;
use crate::text::{
    lemma_text_lt_asymmetric, lemma_text_lt_irreflexive, lemma_text_lt_total, lemma_text_lt_transitive, owned,
    sorted_unique_texts, starts_with, str_is_blank, text_less, text_lt, text_views, texts_strictly_sorted,
};
use crate::v326_facts::has_prefix;
use crate::v326_static_fields::{find_first, first_occurrence};

verus! {

/// The text occurs inside `s`.
pub open spec fn contains_text(s: Seq<char>, m: Seq<char>) -> bool {
    first_occurrence(s, m) is Some
}

pub(crate) fn text_contains(s: &str, m: &str) -> (b: bool)
    ensures
        b == contains_text(s@, m@),
{
    find_first(s, m).is_some()
}

/// The chain has verified the layer.
pub open spec fn has_layer(c: V326ObjectChain, layer: V326ObjectChainLayer) -> bool {
    c.verified_layers@.contains(layer)
}

fn chain_has_layer(c: &V326ObjectChain, layer: V326ObjectChainLayer) -> (b: bool)
    ensures
        b == has_layer(*c, layer),
{
    let mut i: usize = 0;
    while i < c.verified_layers.len()
        invariant
            0 <= i <= c.verified_layers@.len(),
            forall|k: int| 0 <= k < i ==> c.verified_layers@[k] != layer,
        decreases c.verified_layers.len() - i,
    {
        if c.verified_layers[i] == layer {
            return true;
        }
        i = i + 1;
    }
    false
}

/// How far a chain's verified layers reach: a complete risk chain, lifecycle ordering, identity
/// transport, or none of these.
pub open spec fn layer_priority(c: V326ObjectChain) -> int {
    if has_layer(c, V326ObjectChainLayer::CompleteRiskChain) {
        4
    } else if has_layer(c, V326ObjectChainLayer::LifecycleOrdering) {
        3
    } else if has_layer(c, V326ObjectChainLayer::IdentityTransport) {
        2
    } else {
        1
    }
}

fn chain_layer_priority(c: &V326ObjectChain) -> (p: u8)
    ensures
        p == layer_priority(*c),
{
    if chain_has_layer(c, V326ObjectChainLayer::CompleteRiskChain) {
        4
    } else if chain_has_layer(c, V326ObjectChainLayer::LifecycleOrdering) {
        3
    } else if chain_has_layer(c, V326ObjectChainLayer::IdentityTransport) {
        2
    } else {
        1
    }
}

/// How complete a chain's status is.
pub open spec fn status_priority(s: V326ObjectChainStatus) -> int {
    match s {
        V326ObjectChainStatus::VerifiedStaticChain => 4,
        V326ObjectChainStatus::PartialChain => 3,
        V326ObjectChainStatus::AmbiguousChain => 2,
        V326ObjectChainStatus::ObservationOnly => 1,
    }
}

fn chain_status_priority(s: V326ObjectChainStatus) -> (p: u8)
    ensures
        p == status_priority(s),
{
    match s {
        V326ObjectChainStatus::VerifiedStaticChain => 4,
        V326ObjectChainStatus::PartialChain => 3,
        V326ObjectChainStatus::AmbiguousChain => 2,
        V326ObjectChainStatus::ObservationOnly => 1,
    }
}

/// `a` ranks below `b` as a top chain: by layer priority, status priority, number of edges,
/// number of facts, and then the greater chain id ranks lower.
pub open spec fn chain_below(a: V326ObjectChain, b: V326ObjectChain) -> bool {
    let (la, lb) = (layer_priority(a), layer_priority(b));
    let (sa, sb) = (status_priority(a.chain_status), status_priority(b.chain_status));
    let (ea, eb) = (a.edge_ids@.len(), b.edge_ids@.len());
    let (fa, fb) = (a.fact_refs@.len(), b.fact_refs@.len());
    ||| la < lb
    ||| la == lb && sa < sb
    ||| la == lb && sa == sb && ea < eb
    ||| la == lb && sa == sb && ea == eb && fa < fb
    ||| la == lb && sa == sb && ea == eb && fa == fb && text_lt(b.chain_id@, a.chain_id@)
}

proof fn lemma_chain_below_order(a: V326ObjectChain, b: V326ObjectChain, c: V326ObjectChain)
    ensures
        chain_below(a, b) ==> !chain_below(b, a),
        chain_below(a, b) && chain_below(b, c) ==> chain_below(a, c),
        !chain_below(a, b) && !chain_below(b, c) ==> !chain_below(a, c),
{
    let (x, y, z) = (a.chain_id@, b.chain_id@, c.chain_id@);
    lemma_text_lt_asymmetric(x, y);
    lemma_text_lt_asymmetric(y, x);
    lemma_text_lt_total(x, y);
    lemma_text_lt_total(y, z);
    lemma_text_lt_total(x, z);
    lemma_text_lt_irreflexive(x);
    lemma_text_lt_irreflexive(y);
    lemma_text_lt_irreflexive(z);
    if text_lt(x, y) && text_lt(y, z) {
        lemma_text_lt_transitive(x, y, z);
    }
    if text_lt(x, z) && text_lt(z, y) {
        lemma_text_lt_transitive(x, z, y);
    }
    if text_lt(y, x) && text_lt(x, z) {
        lemma_text_lt_transitive(y, x, z);
    }
    if text_lt(y, z) && text_lt(z, x) {
        lemma_text_lt_transitive(y, z, x);
    }
    if text_lt(z, x) && text_lt(x, y) {
        lemma_text_lt_transitive(z, x, y);
    }
    if text_lt(z, y) && text_lt(y, x) {
        lemma_text_lt_transitive(z, y, x);
    }
}

fn chain_is_below(a: &V326ObjectChain, b: &V326ObjectChain) -> (r: bool)
    ensures
        r == chain_below(*a, *b),
{
    let (la, lb) = (chain_layer_priority(a), chain_layer_priority(b));
    let (sa, sb) = (chain_status_priority(a.chain_status), chain_status_priority(b.chain_status));
    let (ea, eb) = (a.edge_ids.len(), b.edge_ids.len());
    let (fa, fb) = (a.fact_refs.len(), b.fact_refs.len());
    la < lb || (la == lb && sa < sb) || (la == lb && sa == sb && ea < eb) || (la == lb && sa == sb && ea == eb
        && fa < fb) || (la == lb && sa == sb && ea == eb && fa == fb && text_less(
        b.chain_id.as_str(),
        a.chain_id.as_str(),
    ))
}

/// The chain at `t` is the top chain: none ranks above it, and every later chain ranks below
/// it.
pub open spec fn is_top_chain(chains: Seq<V326ObjectChain>, t: int) -> bool {
    &&& 0 <= t < chains.len()
    &&& forall|u: int| 0 <= u < chains.len() ==> !chain_below(chains[t], #[trigger] chains[u])
    &&& forall|u: int| t < u < chains.len() ==> chain_below(#[trigger] chains[u], chains[t])
}

fn top_ranked_object_chain(chains: &Vec<V326ObjectChain>) -> (r: Option<usize>)
    ensures
        match r {
            Some(t) => is_top_chain(chains@, t as int),
            None => chains@.len() == 0,
        },
{
    if chains.len() == 0 {
        return None;
    }
    let mut best: usize = 0;
    let mut i: usize = 1;
    proof {
        lemma_chain_below_order(chains@[0], chains@[0], chains@[0]);
    }
    while i < chains.len()
        invariant
            1 <= i <= chains@.len(),
            0 <= best < i,
            forall|u: int| 0 <= u < i ==> !chain_below(chains@[best as int], #[trigger] chains@[u]),
            forall|u: int| best < u < i ==> chain_below(#[trigger] chains@[u], chains@[best as int]),
        decreases chains.len() - i,
    {
        if !chain_is_below(&chains[i], &chains[best]) {
            proof {
                assert forall|u: int| 0 <= u < i + 1 implies !chain_below(chains@[i as int], #[trigger] chains@[u]) by {
                    lemma_chain_below_order(chains@[i as int], chains@[best as int], chains@[u]);
                    lemma_chain_below_order(chains@[best as int], chains@[i as int], chains@[u]);
                    lemma_chain_below_order(chains@[u], chains@[i as int], chains@[best as int]);
                    lemma_chain_below_order(chains@[i as int], chains@[i as int], chains@[i as int]);
                }
            }
            best = i;
        } else {
            proof {
                lemma_chain_below_order(chains@[i as int], chains@[best as int], chains@[i as int]);
            }
        }
        i = i + 1;
    }
    Some(best)
}

} // verus!

verus! {

/// The chain holds a returned view or its storage.
pub open spec fn has_view_object(c: V326ObjectChain) -> bool {
    exists|i: int|
        0 <= i < c.object_ids@.len() && (has_prefix((#[trigger] c.object_ids@[i])@, "returned_ref:"@)
            || has_prefix(c.object_ids@[i]@, "storage:"@))
}

/// Why a partial chain is incomplete, by what it is about.
pub open spec fn partial_reason(c: V326ObjectChain) -> Seq<char> {
    if contains_text(c.chain_id@, "returned_view"@) || has_view_object(c) {
        "use_ordering_proof_missing"@
    } else if contains_text(c.chain_id@, "object_flow"@) {
        "object_flow_counterpart_missing"@
    } else if contains_text(c.chain_id@, "external_buffer_binding"@) {
        "complete_risk_chain_missing"@
    } else {
        "partial_chain"@
    }
}

/// Why a chain is incomplete, by its status.
pub open spec fn status_reason(c: V326ObjectChain) -> Seq<char> {
    match c.chain_status {
        V326ObjectChainStatus::VerifiedStaticChain => "verified_static_chain"@,
        V326ObjectChainStatus::PartialChain => partial_reason(c),
        V326ObjectChainStatus::AmbiguousChain => "object_binding_ambiguous"@,
        V326ObjectChainStatus::ObservationOnly => "object_binding_missing"@,
    }
}

fn view_object(c: &V326ObjectChain) -> (b: bool)
    ensures
        b == has_view_object(*c),
{
    let mut i: usize = 0;
    while i < c.object_ids.len()
        invariant
            0 <= i <= c.object_ids@.len(),
            forall|k: int|
                0 <= k < i ==> !(has_prefix((#[trigger] c.object_ids@[k])@, "returned_ref:"@) || has_prefix(
                    c.object_ids@[k]@,
                    "storage:"@,
                )),
        decreases c.object_ids.len() - i,
    {
        if starts_with(c.object_ids[i].as_str(), "returned_ref:") || starts_with(c.object_ids[i].as_str(), "storage:") {
            return true;
        }
        i = i + 1;
    }
    false
}

fn chain_status_reason(c: &V326ObjectChain) -> (r: String)
    ensures
        r@ == status_reason(*c),
{
    match c.chain_status {
        V326ObjectChainStatus::VerifiedStaticChain => owned("verified_static_chain"),
        V326ObjectChainStatus::PartialChain => {
            if text_contains(c.chain_id.as_str(), "returned_view") || view_object(c) {
                owned("use_ordering_proof_missing")
            } else if text_contains(c.chain_id.as_str(), "object_flow") {
                owned("object_flow_counterpart_missing")
            } else if text_contains(c.chain_id.as_str(), "external_buffer_binding") {
                owned("complete_risk_chain_missing")
            } else {
                owned("partial_chain")
            }
        },
        V326ObjectChainStatus::AmbiguousChain => owned("object_binding_ambiguous"),
        V326ObjectChainStatus::ObservationOnly => owned("object_binding_missing"),
    }
}

/// One of the names occurs in the list.
pub open spec fn list_has_any(list: Seq<String>, names: Seq<Seq<char>>) -> bool {
    exists|i: int, k: int| 0 <= i < list.len() && 0 <= k < names.len() && (#[trigger] list[i])@ == #[trigger] names[k]
}

/// One of the names occurs among the risk or protective features.
pub open spec fn has_feature_among(r: V326RankedCandidateRecord, names: Seq<Seq<char>>) -> bool {
    list_has_any(r.risk_features@, names) || list_has_any(r.protective_features@, names)
}

fn feature_among(list: &Vec<String>, names: &Vec<String>) -> (b: bool)
    ensures
        b == list_has_any(list@, names@.map_values(|s: String| s@)),
{
    let ghost ns = names@.map_values(|s: String| s@);
    let mut i: usize = 0;
    while i < list.len()
        invariant
            ns == names@.map_values(|s: String| s@),
            0 <= i <= list@.len(),
            forall|a: int, k: int| 0 <= a < i && 0 <= k < names@.len() ==> (#[trigger] list@[a])@ != (#[trigger] names@[k])@,
        decreases list.len() - i,
    {
        let mut k: usize = 0;
        while k < names.len()
            invariant
                ns == names@.map_values(|s: String| s@),
                0 <= i < list@.len(),
                0 <= k <= names@.len(),
                forall|a: int, q: int| 0 <= a < i && 0 <= q < names@.len() ==> (#[trigger] list@[a])@ != (#[trigger] names@[q])@,
                forall|q: int| 0 <= q < k ==> list@[i as int]@ != (#[trigger] names@[q])@,
            decreases names.len() - k,
        {
            if list[i] == names[k] {
                assert(ns[k as int] == names@[k as int]@);
                return true;
            }
            k = k + 1;
        }
        i = i + 1;
    }
    assert forall|a: int, q: int| 0 <= a < list@.len() && 0 <= q < ns.len() implies (#[trigger] list@[a])@ != #[trigger] ns[q] by {
        assert(ns[q] == names@[q]@);
    }
    false
}

pub open spec fn returned_view_names() -> Seq<Seq<char>> {
    seq![
        "has_returned_borrow_relation"@,
        "has_persisted_returned_borrow"@,
        "returned_borrow_persistence_before_invalidation"@,
        "returned_borrow_persistence_after_invalidation"@,
        "has_persisted_invalidation_use_chain"@,
    ]
}

pub open spec fn external_buffer_names() -> Seq<Seq<char>> {
    seq!["has_external_buffer_binding"@, "has_external_buffer_lifetime_bound"@]
}

fn names_vec(which: bool) -> (v: Vec<String>)
    ensures
        v@.map_values(|s: String| s@) == if which { returned_view_names() } else { external_buffer_names() },
{
    let mut v: Vec<String> = Vec::new();
    if which {
        v.push(owned("has_returned_borrow_relation"));
        v.push(owned("has_persisted_returned_borrow"));
        v.push(owned("returned_borrow_persistence_before_invalidation"));
        v.push(owned("returned_borrow_persistence_after_invalidation"));
        v.push(owned("has_persisted_invalidation_use_chain"));
    } else {
        v.push(owned("has_external_buffer_binding"));
        v.push(owned("has_external_buffer_lifetime_bound"));
    }
    assert(v@.map_values(|s: String| s@) =~= if which { returned_view_names() } else { external_buffer_names() });
    v
}

fn candidate_has_feature(r: &V326RankedCandidateRecord, which: bool) -> (b: bool)
    ensures
        b == has_feature_among(*r, if which { returned_view_names() } else { external_buffer_names() }),
{
    let names = names_vec(which);
    let a = feature_among(&r.risk_features, &names);
    let b = feature_among(&r.protective_features, &names);
    a || b
}

/// Returned-view relations between objects that touch a returned view or its storage.
pub open spec fn graph_has_returned_view_signal(g: V326LifecycleGraphV3Record) -> bool {
    ||| exists|i: int| 0 <= i < g.objects@.len() && (#[trigger] g.objects@[i]).object_kind == V326LifecycleObjectKind::ReturnedRef
    ||| exists|i: int|
        0 <= i < g.edges@.len() && {
            let e = #[trigger] g.edges@[i];
            &&& (e.relation == V326LifecycleRelation::Borrow || e.relation == V326LifecycleRelation::Persist
                || e.relation == V326LifecycleRelation::Invalidate || e.relation == V326LifecycleRelation::Use)
            &&& (has_prefix(e.from_object_id@, "returned_ref:"@) || has_prefix(e.to_object_id@, "returned_ref:"@)
                || has_prefix(e.from_object_id@, "storage:"@) || has_prefix(e.to_object_id@, "storage:"@))
        }
}

/// Callback objects or callback lifecycle relations.
pub open spec fn graph_has_callback_signal(g: V326LifecycleGraphV3Record) -> bool {
    ||| exists|i: int|
        0 <= i < g.objects@.len() && {
            let k = (#[trigger] g.objects@[i]).object_kind;
            k == V326LifecycleObjectKind::Callback || k == V326LifecycleObjectKind::UserData || k
                == V326LifecycleObjectKind::ForeignOwner || k == V326LifecycleObjectKind::OpaqueHandle
        }
    ||| exists|i: int|
        0 <= i < g.edges@.len() && {
            let r = (#[trigger] g.edges@[i]).relation;
            r == V326LifecycleRelation::Register || r == V326LifecycleRelation::Retain || r
                == V326LifecycleRelation::Replace || r == V326LifecycleRelation::Release || r
                == V326LifecycleRelation::CallbackTrigger
        }
}

fn graph_returned_view_signal(g: &V326LifecycleGraphV3Record) -> (b: bool)
    ensures
        b == graph_has_returned_view_signal(*g),
{
    let mut i: usize = 0;
    while i < g.objects.len()
        invariant
            0 <= i <= g.objects@.len(),
            forall|k: int| 0 <= k < i ==> (#[trigger] g.objects@[k]).object_kind != V326LifecycleObjectKind::ReturnedRef,
        decreases g.objects.len() - i,
    {
        if g.objects[i].object_kind == V326LifecycleObjectKind::ReturnedRef {
            return true;
        }
        i = i + 1;
    }
    let mut j: usize = 0;
    while j < g.edges.len()
        invariant
            0 <= j <= g.edges@.len(),
            forall|k: int| 0 <= k < g.objects@.len() ==> (#[trigger] g.objects@[k]).object_kind != V326LifecycleObjectKind::ReturnedRef,
            forall|k: int|
                0 <= k < j ==> !({
                    let e = #[trigger] g.edges@[k];
                    &&& (e.relation == V326LifecycleRelation::Borrow || e.relation == V326LifecycleRelation::Persist
                        || e.relation == V326LifecycleRelation::Invalidate || e.relation == V326LifecycleRelation::Use)
                    &&& (has_prefix(e.from_object_id@, "returned_ref:"@) || has_prefix(
                        e.to_object_id@,
                        "returned_ref:"@,
                    ) || has_prefix(e.from_object_id@, "storage:"@) || has_prefix(e.to_object_id@, "storage:"@))
                }),
        decreases g.edges.len() - j,
    {
        let e = &g.edges[j];
        let relation = match e.relation {
            V326LifecycleRelation::Borrow | V326LifecycleRelation::Persist | V326LifecycleRelation::Invalidate
            | V326LifecycleRelation::Use => true,
            _ => false,
        };
        if relation && (starts_with(e.from_object_id.as_str(), "returned_ref:") || starts_with(
            e.to_object_id.as_str(),
            "returned_ref:",
        ) || starts_with(e.from_object_id.as_str(), "storage:") || starts_with(e.to_object_id.as_str(), "storage:")) {
            return true;
        }
        j = j + 1;
    }
    false
}

fn graph_callback_signal(g: &V326LifecycleGraphV3Record) -> (b: bool)
    ensures
        b == graph_has_callback_signal(*g),
{
    let mut i: usize = 0;
    while i < g.objects.len()
        invariant
            0 <= i <= g.objects@.len(),
            forall|q: int|
                0 <= q < i ==> {
                    let k = (#[trigger] g.objects@[q]).object_kind;
                    !(k == V326LifecycleObjectKind::Callback || k == V326LifecycleObjectKind::UserData || k
                        == V326LifecycleObjectKind::ForeignOwner || k == V326LifecycleObjectKind::OpaqueHandle)
                },
        decreases g.objects.len() - i,
    {
        match g.objects[i].object_kind {
            V326LifecycleObjectKind::Callback | V326LifecycleObjectKind::UserData | V326LifecycleObjectKind::ForeignOwner
            | V326LifecycleObjectKind::OpaqueHandle => {
                return true;
            },
            _ => {},
        }
        i = i + 1;
    }
    let mut j: usize = 0;
    while j < g.edges.len()
        invariant
            0 <= j <= g.edges@.len(),
            forall|q: int|
                0 <= q < g.objects@.len() ==> {
                    let k = (#[trigger] g.objects@[q]).object_kind;
                    !(k == V326LifecycleObjectKind::Callback || k == V326LifecycleObjectKind::UserData || k
                        == V326LifecycleObjectKind::ForeignOwner || k == V326LifecycleObjectKind::OpaqueHandle)
                },
            forall|q: int|
                0 <= q < j ==> {
                    let r = (#[trigger] g.edges@[q]).relation;
                    !(r == V326LifecycleRelation::Register || r == V326LifecycleRelation::Retain || r
                        == V326LifecycleRelation::Replace || r == V326LifecycleRelation::Release || r
                        == V326LifecycleRelation::CallbackTrigger)
                },
        decreases g.edges.len() - j,
    {
        match g.edges[j].relation {
            V326LifecycleRelation::Register | V326LifecycleRelation::Retain | V326LifecycleRelation::Replace
            | V326LifecycleRelation::Release | V326LifecycleRelation::CallbackTrigger => {
                return true;
            },
            _ => {},
        }
        j = j + 1;
    }
    false
}

/// The witness route recommended for a ranked candidate and its graph: a Miri check of returned
/// views, a check of external buffer lifetimes, a callback lifecycle harness, or manual review.
pub open spec fn spec_witness_route(r: V326RankedCandidateRecord, g: V326LifecycleGraphV3Record) -> V326WitnessRoute {
    if r.pattern_family == V32PatternFamily::ReturnedBorrowView || has_feature_among(r, returned_view_names())
        || graph_has_returned_view_signal(g) {
        V326WitnessRoute::ReturnedViewMiri
    } else if r.pattern_family == V32PatternFamily::ExternalBufferView || has_feature_among(
        r,
        external_buffer_names(),
    ) {
        V326WitnessRoute::ExternalBufferLifetime
    } else if r.pattern_family == V32PatternFamily::RetainedBorrowedCallback || r.pattern_family
        == V32PatternFamily::CallbackLifecycleRelease || r.pattern_family == V32PatternFamily::ForeignRetainedPointer
        || r.pattern_family == V32PatternFamily::OpaqueHandleTransfer || graph_has_callback_signal(g) {
        V326WitnessRoute::CallbackLifecycle
    } else {
        V326WitnessRoute::ManualReviewOnly
    }
}

fn recommended_witness_route(r: &V326RankedCandidateRecord, g: &V326LifecycleGraphV3Record) -> (w: V326WitnessRoute)
    ensures
        w == spec_witness_route(*r, *g),
{
    let returned_family = match r.pattern_family {
        V32PatternFamily::ReturnedBorrowView => true,
        _ => false,
    };
    if returned_family || candidate_has_feature(r, true) || graph_returned_view_signal(g) {
        return V326WitnessRoute::ReturnedViewMiri;
    }
    let external_family = match r.pattern_family {
        V32PatternFamily::ExternalBufferView => true,
        _ => false,
    };
    if external_family || candidate_has_feature(r, false) {
        return V326WitnessRoute::ExternalBufferLifetime;
    }
    let callback_family = match r.pattern_family {
        V32PatternFamily::RetainedBorrowedCallback | V32PatternFamily::CallbackLifecycleRelease
        | V32PatternFamily::ForeignRetainedPointer | V32PatternFamily::OpaqueHandleTransfer => true,
        _ => false,
    };
    if callback_family || graph_callback_signal(g) {
        V326WitnessRoute::CallbackLifecycle
    } else {
        V326WitnessRoute::ManualReviewOnly
    }
}

} // verus!

verus! {

/// The number of chains with the status.
pub open spec fn status_count(chains: Seq<V326ObjectChain>, s: V326ObjectChainStatus) -> nat
    decreases chains.len(),
{
    if chains.len() == 0 {
        0
    } else {
        status_count(chains.drop_last(), s) + if chains.last().chain_status == s { 1nat } else { 0nat }
    }
}

/// The number of chains that have verified the layer.
pub open spec fn layer_count(chains: Seq<V326ObjectChain>, layer: V326ObjectChainLayer) -> nat
    decreases chains.len(),
{
    if chains.len() == 0 {
        0
    } else {
        layer_count(chains.drop_last(), layer) + if has_layer(chains.last(), layer) { 1nat } else { 0nat }
    }
}

/// The fact references of all chains, chain after chain.
pub open spec fn all_fact_refs(chains: Seq<V326ObjectChain>) -> Seq<Seq<char>>
    decreases chains.len(),
{
    if chains.len() == 0 {
        seq![]
    } else {
        all_fact_refs(chains.drop_last()) + text_views(chains.last().fact_refs@)
    }
}

/// The reasons why the chains that are not verified are incomplete, chain after chain.
pub open spec fn chain_reasons(chains: Seq<V326ObjectChain>) -> Seq<Seq<char>>
    decreases chains.len(),
{
    if chains.len() == 0 {
        seq![]
    } else if chains.last().chain_status == V326ObjectChainStatus::VerifiedStaticChain {
        chain_reasons(chains.drop_last())
    } else {
        chain_reasons(chains.drop_last()).push(status_reason(chains.last()))
    }
}

/// The texts that are not blank, in order.
pub open spec fn present_only(s: Seq<Seq<char>>) -> Seq<Seq<char>>
    decreases s.len(),
{
    if s.len() == 0 {
        seq![]
    } else if present(s.last()) {
        present_only(s.drop_last()).push(s.last())
    } else {
        present_only(s.drop_last())
    }
}

/// All reasons why a ranked candidate's chains are incomplete: the graph's own reasons and the
/// candidate's missing evidence that are not blank, and the status reason of each chain that
/// is not verified.
pub open spec fn all_incomplete_reasons(r: V326RankedCandidateRecord, g: V326LifecycleGraphV3Record) -> Seq<
    Seq<char>,
> {
    present_only(text_views(g.incomplete_reasons@)) + present_only(text_views(r.missing_evidence@))
        + chain_reasons(g.object_chains@)
}

fn push_present(out: &mut Vec<String>, items: &Vec<String>)
    ensures
        text_views(final(out)@) == text_views(old(out)@) + present_only(text_views(items@)),
{
    let ghost start = text_views(out@);
    let mut i: usize = 0;
    while i < items.len()
        invariant
            0 <= i <= items@.len(),
            text_views(out@) == start + present_only(text_views(items@.take(i as int))),
        decreases items.len() - i,
    {
        let ghost before = text_views(out@);
        assert(text_views(items@.take(i + 1)).drop_last() =~= text_views(items@.take(i as int)));
        assert(text_views(items@.take(i + 1)).last() == items@[i as int]@);
        if !str_is_blank(items[i].as_str()) {
            out.push(items[i].clone());
            assert(text_views(out@) =~= before.push(items@[i as int]@));
        }
        i = i + 1;
    }
    assert(items@.take(items@.len() as int) =~= items@);
}

fn push_texts(out: &mut Vec<String>, items: &Vec<String>)
    ensures
        text_views(final(out)@) == text_views(old(out)@) + text_views(items@),
{
    let ghost start = text_views(out@);
    let mut i: usize = 0;
    while i < items.len()
        invariant
            0 <= i <= items@.len(),
            text_views(out@) == start + text_views(items@.take(i as int)),
        decreases items.len() - i,
    {
        let ghost before = text_views(out@);
        out.push(items[i].clone());
        assert(text_views(out@) =~= before.push(items@[i as int]@));
        assert(text_views(items@.take(i + 1)) =~= text_views(items@.take(i as int)).push(items@[i as int]@));
        i = i + 1;
    }
    assert(items@.take(items@.len() as int) =~= items@);
}

/// Summarizes the object chains of a ranked candidate's lifecycle graph: how many chains have
/// each status and each verified layer, the top chain, the distinct fact references of all
/// chains and the distinct reasons why they are incomplete, each in increasing order, and the
/// recommended witness route.
pub fn summarize_v3_2_6_ranked_object_chains(
    candidate: &V326RankedCandidateRecord,
    graph: &V326LifecycleGraphV3Record,
) -> (s: V326RankedChainSummary)
    requires
        graph.object_chains@.len() <= u32::MAX,
    ensures
        ({
            let chains = graph.object_chains@;
            &&& s.verified_chain_count == status_count(chains, V326ObjectChainStatus::VerifiedStaticChain)
            &&& s.partial_chain_count == status_count(chains, V326ObjectChainStatus::PartialChain)
            &&& s.ambiguous_chain_count == status_count(chains, V326ObjectChainStatus::AmbiguousChain)
            &&& s.observation_only_chain_count == status_count(chains, V326ObjectChainStatus::ObservationOnly)
            &&& s.identity_transport_chain_count == layer_count(chains, V326ObjectChainLayer::IdentityTransport)
            &&& s.release_ordering_chain_count == layer_count(chains, V326ObjectChainLayer::ReleaseOrdering)
            &&& s.use_ordering_chain_count == layer_count(chains, V326ObjectChainLayer::UseOrdering)
            &&& s.lifecycle_ordering_chain_count == layer_count(chains, V326ObjectChainLayer::LifecycleOrdering)
            &&& s.complete_risk_chain_count == layer_count(chains, V326ObjectChainLayer::CompleteRiskChain)
            &&& chains.len() == 0 ==> s.top_chain_id is None && s.top_chain_status is None
            &&& chains.len() > 0 ==> exists|t: int|
                is_top_chain(chains, t) && s.top_chain_id == Some(chains[t].chain_id) && s.top_chain_status
                    == Some(chains[t].chain_status)
            &&& texts_strictly_sorted(text_views(s.chain_fact_refs@))
            &&& text_views(s.chain_fact_refs@).to_set() == all_fact_refs(chains).to_set()
            &&& texts_strictly_sorted(text_views(s.chain_incomplete_reasons@))
            &&& text_views(s.chain_incomplete_reasons@).to_set() == all_incomplete_reasons(*candidate, *graph).to_set()
            &&& s.recommended_witness_route == spec_witness_route(*candidate, *graph)
        }),
{
    let chains = &graph.object_chains;
    let mut reasons: Vec<String> = Vec::new();
    push_present(&mut reasons, &graph.incomplete_reasons);
    push_present(&mut reasons, &candidate.missing_evidence);
    let ghost base = text_views(reasons@);
    let mut facts: Vec<String> = Vec::new();
    let mut verified: u32 = 0;
    let mut partial: u32 = 0;
    let mut ambiguous: u32 = 0;
    let mut observation: u32 = 0;
    let mut identity: u32 = 0;
    let mut release: u32 = 0;
    let mut use_ordering: u32 = 0;
    let mut lifecycle: u32 = 0;
    let mut complete: u32 = 0;
    let mut i: usize = 0;
    while i < chains.len()
        invariant
            chains@.len() <= u32::MAX,
            0 <= i <= chains@.len(),
            verified == status_count(chains@.take(i as int), V326ObjectChainStatus::VerifiedStaticChain),
            partial == status_count(chains@.take(i as int), V326ObjectChainStatus::PartialChain),
            ambiguous == status_count(chains@.take(i as int), V326ObjectChainStatus::AmbiguousChain),
            observation == status_count(chains@.take(i as int), V326ObjectChainStatus::ObservationOnly),
            identity == layer_count(chains@.take(i as int), V326ObjectChainLayer::IdentityTransport),
            release == layer_count(chains@.take(i as int), V326ObjectChainLayer::ReleaseOrdering),
            use_ordering == layer_count(chains@.take(i as int), V326ObjectChainLayer::UseOrdering),
            lifecycle == layer_count(chains@.take(i as int), V326ObjectChainLayer::LifecycleOrdering),
            complete == layer_count(chains@.take(i as int), V326ObjectChainLayer::CompleteRiskChain),
            text_views(facts@) == all_fact_refs(chains@.take(i as int)),
            text_views(reasons@) == base + chain_reasons(chains@.take(i as int)),
        decreases chains.len() - i,
    {
        let ghost pre = chains@.take(i as int);
        let ghost cur = chains@.take(i + 1);
        assert(cur.drop_last() =~= pre);
        assert(cur.last() == chains@[i as int]);
        proof {
            lemma_counts_bounded(pre);
        }
        let c = &chains[i];
        match c.chain_status {
            V326ObjectChainStatus::VerifiedStaticChain => verified = verified + 1,
            V326ObjectChainStatus::PartialChain => partial = partial + 1,
            V326ObjectChainStatus::AmbiguousChain => ambiguous = ambiguous + 1,
            V326ObjectChainStatus::ObservationOnly => observation = observation + 1,
        }
        if chain_has_layer(c, V326ObjectChainLayer::IdentityTransport) {
            identity = identity + 1;
        }
        if chain_has_layer(c, V326ObjectChainLayer::ReleaseOrdering) {
            release = release + 1;
        }
        if chain_has_layer(c, V326ObjectChainLayer::UseOrdering) {
            use_ordering = use_ordering + 1;
        }
        if chain_has_layer(c, V326ObjectChainLayer::LifecycleOrdering) {
            lifecycle = lifecycle + 1;
        }
        if chain_has_layer(c, V326ObjectChainLayer::CompleteRiskChain) {
            complete = complete + 1;
        }
        push_texts(&mut facts, &c.fact_refs);
        let is_verified = match c.chain_status {
            V326ObjectChainStatus::VerifiedStaticChain => true,
            _ => false,
        };
        if !is_verified {
            let ghost before = text_views(reasons@);
            reasons.push(chain_status_reason(c));
            assert(text_views(reasons@) =~= before.push(status_reason(chains@[i as int])));
        }
        i = i + 1;
    }
    assert(chains@.take(chains@.len() as int) =~= chains@);
    let (top_chain_id, top_chain_status) = match top_ranked_object_chain(chains) {
        Some(t) => (Some(chains[t].chain_id.clone()), Some(chains[t].chain_status)),
        None => (None, None),
    };
    let chain_fact_refs = sorted_unique_texts(facts);
    let chain_incomplete_reasons = sorted_unique_texts(reasons);
    let recommended_witness_route = recommended_witness_route(candidate, graph);
    V326RankedChainSummary {
        top_chain_id,
        top_chain_status,
        verified_chain_count: verified,
        partial_chain_count: partial,
        ambiguous_chain_count: ambiguous,
        observation_only_chain_count: observation,
        identity_transport_chain_count: identity,
        release_ordering_chain_count: release,
        use_ordering_chain_count: use_ordering,
        lifecycle_ordering_chain_count: lifecycle,
        complete_risk_chain_count: complete,
        chain_fact_refs,
        chain_incomplete_reasons,
        recommended_witness_route,
    }
}

proof fn lemma_counts_bounded(chains: Seq<V326ObjectChain>)
    ensures
        status_count(chains, V326ObjectChainStatus::VerifiedStaticChain) <= chains.len(),
        status_count(chains, V326ObjectChainStatus::PartialChain) <= chains.len(),
        status_count(chains, V326ObjectChainStatus::AmbiguousChain) <= chains.len(),
        status_count(chains, V326ObjectChainStatus::ObservationOnly) <= chains.len(),
        layer_count(chains, V326ObjectChainLayer::IdentityTransport) <= chains.len(),
        layer_count(chains, V326ObjectChainLayer::ReleaseOrdering) <= chains.len(),
        layer_count(chains, V326ObjectChainLayer::UseOrdering) <= chains.len(),
        layer_count(chains, V326ObjectChainLayer::LifecycleOrdering) <= chains.len(),
        layer_count(chains, V326ObjectChainLayer::CompleteRiskChain) <= chains.len(),
    decreases chains.len(),
{
    if chains.len() > 0 {
        lemma_counts_bounded(chains.drop_last());
    }
}

} // verus!

verus! {

/// Every chain has exactly one status, so the four status counts of a summary add up to the
/// number of chains.
pub proof fn law_status_counts_cover_all_chains(chains: Seq<V326ObjectChain>)
    ensures
        status_count(chains, V326ObjectChainStatus::VerifiedStaticChain) + status_count(
            chains,
            V326ObjectChainStatus::PartialChain,
        ) + status_count(chains, V326ObjectChainStatus::AmbiguousChain) + status_count(
            chains,
            V326ObjectChainStatus::ObservationOnly,
        ) == chains.len(),
    decreases chains.len(),
{
    if chains.len() > 0 {
        law_status_counts_cover_all_chains(chains.drop_last());
    }
}

} // verus!
