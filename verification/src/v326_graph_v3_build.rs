//! The object-bound lifecycle graph (v3) of a candidate: its objects and edges from the
//! candidate's evidence, authoritative facts and applicable contracts, its object chains, and
//! what keeps it incomplete.

use vstd::prelude::*;

use crate::candidate::{V32CandidateRecord, V32PatternFamily};
use crate::lifecycle_v326::{
    V326EvidenceConfidence, V326EvidenceKind, V326LifecycleContractRecord, V326LifecycleEvidenceRecord,
    V326LifecycleFactKind, V326LifecycleFactRecord, V326LifecycleGraphV3Record,
    V326LifecycleObject, V326LifecycleObjectKind, V326ObjectChain, V326ObjectChainLayer, V326ObjectChainStatus, V3_2_6_LIFECYCLE_GRAPH_V3_SCHEMA_V1,
};
use crate::text::{chars_of, concat2, owned, starts_with, text_views};
use crate::v326_chain_sets::{ordered_set, sorted_of};
use crate::v326_contract_scope::{contract_applies, lifecycle_contract_applies_to_candidate};
use crate::v326_derive::{keep_owned, kept, scoped_contracts, scoped_evidence, scoped_facts};
use crate::v326_flow_components::{
    has_incomplete_authoritative_object_flow_pair as flow_pair_incomplete, has_incomplete_closure_capture_component,
    has_unverified_authoritative_object_flow_pair as flow_pair_unverified, incomplete_closure_capture, incomplete_pair,
    unverified_pair,
};
use crate::v326_fact_edges::{
    add_object, append_fact_edges_of, authoritative_facts, edge3_views, fact_edges_state, object_views,
    ids_strictly_sorted, ObjectView,
};
use crate::v326_graph_build::{evidence_ids, has_evidence, has_kind};
use crate::v326_facts::has_prefix;
use crate::v326_chain_layers::{has_release_ordering, law_unknown_orders_light_no_ordering, ref_has_kind, ref_is_proven_use_order, refs_have_kind};
use crate::v326_graph_v3_chains::chain_layers_hold;
use crate::v326_chain_refs::{callback_chain_ref, persisted_ref};
use crate::v326_object_flow::is_neutral_alias;
use crate::v326_release_pairs::release_covers_object;
use crate::v326_graph_v3_chains::{
    build_v3_2_6_object_chains, chain_views, chains_in_id_order, chains_layers_hold, object_chains,
};
use crate::v326_graph_v3_objects::{
    add_contract_edges, add_evidence_edges, add_fact_objects, contract_state, evidence_state, fact_objects,
};
use crate::v326_release_pairs::{is_authoritative_binding, is_authoritative_object_binding_fact, release_covers_same_lifecycle_object};
use crate::v326_scoring::{sanitize_id_for_path, sanitized};

verus! {

/// A fact that the object chains rest on: an authoritative binding, or an object binding gap of
/// high confidence from a verified static artifact.
pub open spec fn is_chain_fact(f: V326LifecycleFactRecord) -> bool {
    is_authoritative_binding(f) || (f.fact_kind == V326LifecycleFactKind::ObjectBindingGap && f.confidence
        == V326EvidenceConfidence::High && f.provenance.is_verified_static_artifact())
}

/// The chain facts of the candidate.
pub open spec fn chain_facts(c: V32CandidateRecord, facts: Seq<V326LifecycleFactRecord>) -> Seq<V326LifecycleFactRecord> {
    kept(scoped_facts(c, facts), |f: V326LifecycleFactRecord| is_chain_fact(f))
}

/// The id of the candidate's foreign owner: `foreign_owner:` and its sanitized API path, or its
/// sanitized candidate id when it has none.
pub open spec fn owner_id(c: V32CandidateRecord) -> Seq<char> {
    "foreign_owner:"@ + sanitized(
        match c.api_path {
            Some(p) => p@,
            None => c.candidate_id@,
        },
    )
}

/// The foreign owner object alone.
pub open spec fn owner_objects(c: V32CandidateRecord) -> Seq<ObjectView> {
    seq![
        (
            owner_id(c),
            V326LifecycleObjectKind::ForeignOwner,
            match c.api_path {
                Some(p) => p@,
                None => "unknown foreign owner"@,
            },
            None,
            Seq::empty(),
        ),
    ]
}

/// The objects and edges of the graph: the foreign owner, the objects the authoritative facts
/// name, what the evidence binds and its edges, the edges of the authoritative facts and the
/// objects they bring, and the retention edges of the contracts that may retain the callback.
pub open spec fn graph_v3_objects_edges(
    c: V32CandidateRecord,
    ev: Seq<V326LifecycleEvidenceRecord>,
    facts: Seq<V326LifecycleFactRecord>,
    cs: Seq<V326LifecycleContractRecord>,
) -> (Seq<ObjectView>, Seq<crate::v326_fact_edges::EdgeView>) {
    let sev = scoped_evidence(c, ev);
    let cf = chain_facts(c, facts);
    let scs = scoped_contracts(c, facts, cs);
    let owner = owner_id(c);
    let o1 = fact_objects(cf, owner_objects(c));
    let s2 = evidence_state(sev, cf, owner, o1);
    let s3 = fact_edges_state(authoritative_facts(cf), owner, s2.0, s2.1);
    contract_state(scs, owner, s3.0, s3.1)
}

/// The reason, in the list, when the condition holds.
pub open spec fn piece(c: bool, r: Seq<char>) -> Seq<Seq<char>> {
    if c {
        seq![r]
    } else {
        Seq::empty()
    }
}

/// Some fact is authoritative.
pub open spec fn has_authoritative(facts: Seq<V326LifecycleFactRecord>) -> bool {
    exists|i: int| 0 <= i < facts.len() && is_authoritative_binding(#[trigger] facts[i])
}

/// The candidate needs a foreign contract: its evidence registers with or hints at retention by
/// the foreign side, or its pattern is a retained borrowed callback, a callback lifecycle
/// release or an external buffer view.
pub open spec fn needs_foreign_contract(c: V32CandidateRecord, ev: Seq<V326LifecycleEvidenceRecord>) -> bool {
    has_kind(ev, V326EvidenceKind::ForeignRegister) || has_kind(ev, V326EvidenceKind::ForeignRetentionHint) || c.pattern_family
        == V32PatternFamily::RetainedBorrowedCallback || c.pattern_family == V32PatternFamily::CallbackLifecycleRelease
        || c.pattern_family == V32PatternFamily::ExternalBufferView
}

/// Some object id has the prefix.
pub open spec fn object_with_prefix(objs: Seq<ObjectView>, p: Seq<char>) -> bool {
    exists|i: int| 0 <= i < objs.len() && has_prefix((#[trigger] objs[i]).0, p)
}

/// Some chain has the status.
pub open spec fn chain_with_status(chains: Seq<V326ObjectChain>, s: V326ObjectChainStatus) -> bool {
    exists|i: int| 0 <= i < chains.len() && (#[trigger] chains[i]).chain_status == s
}

/// Some chain other than an observation-only one refers to a fact.
pub open spec fn static_chain_attempt(chains: Seq<V326ObjectChain>) -> bool {
    exists|i: int|
        0 <= i < chains.len() && (#[trigger] chains[i]).chain_status != V326ObjectChainStatus::ObservationOnly
            && chains[i].fact_refs@.len() > 0
}

/// The facts an object flow reference list names are object flows, there is one, and each is a
/// neutral alias (a wrapper move between two Rust owners).
pub open spec fn only_neutral_aliases(facts: Seq<V326LifecycleFactRecord>, refs: Seq<Seq<char>>) -> bool {
    &&& exists|i: int|
        0 <= i < facts.len() && (#[trigger] facts[i]).fact_kind == V326LifecycleFactKind::ObjectFlow && refs.contains(
            facts[i].fact_id@,
        )
    &&& forall|i: int|
        0 <= i < facts.len() && (#[trigger] facts[i]).fact_kind == V326LifecycleFactKind::ObjectFlow && refs.contains(
            facts[i].fact_id@,
        ) ==> is_neutral_alias(facts[i])
}

/// A partial chain refers to an object flow that is not a mere neutral alias.
pub open spec fn counterpart_missing(c: V326ObjectChain, facts: Seq<V326LifecycleFactRecord>) -> bool {
    c.chain_status == V326ObjectChainStatus::PartialChain && refs_have_kind(
        text_views(c.fact_refs@),
        facts,
        seq![V326LifecycleFactKind::ObjectFlow],
    ) && !only_neutral_aliases(facts, text_views(c.fact_refs@))
}

/// A verified chain refers to a release-path proof.
pub open spec fn release_order_chain(c: V326ObjectChain, facts: Seq<V326LifecycleFactRecord>) -> bool {
    c.chain_status == V326ObjectChainStatus::VerifiedStaticChain && refs_have_kind(
        text_views(c.fact_refs@),
        facts,
        seq![V326LifecycleFactKind::ReleasePathProof],
    )
}

/// Some fact has one of the kinds (and is authoritative, where asked).
pub open spec fn fact_of_kinds(facts: Seq<V326LifecycleFactRecord>, kinds: Seq<V326LifecycleFactKind>, auth_only: bool) -> bool {
    exists|i: int|
        0 <= i < facts.len() && kinds.contains((#[trigger] facts[i]).fact_kind) && (!auth_only || is_authoritative_binding(
            facts[i],
        ))
}

/// The reasons the chains and chain facts leave the graph incomplete, in the order they are
/// found.
/// An argument flows into a call without its return value coming back, in a component.
#[verifier::opaque]
pub open spec fn call_boundary_open(facts: Seq<V326LifecycleFactRecord>) -> bool {
    incomplete_pair(facts, "argument"@, "return_value"@)
}

/// A field store and load, a wrapper move and destructure, or a collection store and load, are
/// left incomplete or unverified.
#[verifier::opaque]
pub open spec fn pair_open(facts: Seq<V326LifecycleFactRecord>, t1: Seq<char>, t2: Seq<char>) -> bool {
    incomplete_pair(facts, t1, t2) || unverified_pair(facts, t1, t2)
}

/// A closure capture component is left incomplete.
#[verifier::opaque]
pub open spec fn closure_open(facts: Seq<V326LifecycleFactRecord>) -> bool {
    incomplete_closure_capture(facts)
}

/// The reasons after `r0` once the object flows are looked at: an observation-only chain, a
/// partial chain missing a flow's counterpart, an ambiguous chain, and call, field, wrapper
/// (unless a release-order chain stands), collection and closure bindings left open.
pub open spec fn flow_reasons_onto(
    r0: Seq<Seq<char>>,
    chains: Seq<V326ObjectChain>,
    facts: Seq<V326LifecycleFactRecord>,
) -> Seq<Seq<char>> {
    r0 + piece(chain_with_status(chains, V326ObjectChainStatus::ObservationOnly), "object_flow_missing"@) + piece(
        any_counterpart_missing(chains, facts),
        "object_flow_counterpart_missing"@,
    ) + piece(chain_with_status(chains, V326ObjectChainStatus::AmbiguousChain), "object_binding_unproven"@) + piece(
        chain_with_status(chains, V326ObjectChainStatus::AmbiguousChain),
        "object_binding_ambiguous"@,
    ) + piece(call_boundary_open(facts), "call_boundary_binding_missing"@) + piece(
        pair_open(facts, "field_store"@, "field_load"@),
        "field_binding_missing"@,
    ) + piece(
        pair_open(facts, "wrapper_move"@, "wrapper_destructure"@) && !any_release_order_chain(chains, facts),
        "wrapper_binding_missing"@,
    ) + piece(pair_open(facts, "collection_store"@, "collection_load"@), "collection_binding_missing"@) + piece(
        closure_open(facts),
        "closure_binding_missing"@,
    )
}

/// Some partial chain misses a flow's counterpart.
pub open spec fn any_counterpart_missing(chains: Seq<V326ObjectChain>, facts: Seq<V326LifecycleFactRecord>) -> bool {
    exists|i: int| 0 <= i < chains.len() && counterpart_missing(#[trigger] chains[i], facts)
}

/// Some verified chain refers to a release-path proof.
pub open spec fn any_release_order_chain(chains: Seq<V326ObjectChain>, facts: Seq<V326LifecycleFactRecord>) -> bool {
    exists|i: int| 0 <= i < chains.len() && release_order_chain(#[trigger] chains[i], facts)
}

fn call_boundary_is_open(facts: &[V326LifecycleFactRecord]) -> (b: bool)
    ensures
        b == call_boundary_open(facts@),
{
    reveal(call_boundary_open);
    flow_pair_incomplete(facts, "argument", "return_value")
}

fn pair_is_open(facts: &[V326LifecycleFactRecord], t1: &str, t2: &str) -> (b: bool)
    ensures
        b == pair_open(facts@, t1@, t2@),
{
    reveal(pair_open);
    flow_pair_incomplete(facts, t1, t2) || flow_pair_unverified(facts, t1, t2)
}

fn closure_is_open(facts: &[V326LifecycleFactRecord]) -> (b: bool)
    ensures
        b == closure_open(facts@),
{
    reveal(closure_open);
    has_incomplete_closure_capture_component(facts)
}

/// The reasons after `r0` once ordering proofs are looked at: registration or release facts
/// without a release-order chain, returned borrows without a persisted invalidation chain, and
/// callback user data uses of a registered release without a callback release/use chain.
pub open spec fn order_reasons_onto(
    r0: Seq<Seq<char>>,
    chains: Seq<V326ObjectChain>,
    facts: Seq<V326LifecycleFactRecord>,
) -> Seq<Seq<char>> {
    r0 + piece(
        fact_of_kinds(
            facts,
            seq![V326LifecycleFactKind::RegisterCall, V326LifecycleFactKind::UnregisterCall, V326LifecycleFactKind::ReleaseCall],
            false,
        ) && !any_release_order_chain(chains, facts),
        "release_order_proof_missing"@,
    ) + piece(
        fact_of_kinds(
            facts,
            seq![V326LifecycleFactKind::ReturnedBorrowRelation, V326LifecycleFactKind::PersistedReturnedBorrow],
            false,
        ) && !(exists|x: Seq<char>| #[trigger] persisted_ref(facts, x)),
        "use_ordering_proof_missing"@,
    ) + piece(
        fact_of_kinds(facts, seq![V326LifecycleFactKind::CallbackUserDataReconstruction], true) && release_covers_object(facts)
            && !(exists|x: Seq<char>| #[trigger] callback_chain_ref(facts, x)),
        "callback_release_use_object_flow_missing"@,
    )
}

/// The reasons after `r0` once the chains and chain facts are looked at.
pub open spec fn chain_reasons_onto(
    r0: Seq<Seq<char>>,
    chains: Seq<V326ObjectChain>,
    facts: Seq<V326LifecycleFactRecord>,
) -> Seq<Seq<char>> {
    order_reasons_onto(flow_reasons_onto(r0, chains, facts), chains, facts)
}

/// The reason an object binding gap token stands for.
pub open spec fn gap_reason(token: Seq<char>) -> Option<Seq<char>> {
    if token == "selection_predicate"@ {
        Some("selection_predicate_binding_missing"@)
    } else if token == "mapped_value"@ {
        Some("mapped_value_binding_missing"@)
    } else if token == "merged_sources"@ {
        Some("merged_source_binding_missing"@)
    } else if token == "tuple_projection"@ {
        Some("tuple_projection_binding_missing"@)
    } else if token == "cardinality_transform"@ {
        Some("cardinality_transform_binding_missing"@)
    } else if token == "dynamic_index"@ {
        Some("dynamic_index_binding_missing"@)
    } else if token == "range_or_slice"@ {
        Some("range_or_slice_binding_missing"@)
    } else if token == "sequence_length_unknown"@ {
        Some("sequence_length_binding_missing"@)
    } else if token == "key_contract"@ {
        Some("key_contract_binding_missing"@)
    } else if token == "reassignment_barrier"@ {
        Some("object_reassignment_barrier"@)
    } else if token == "mutation_barrier"@ {
        Some("storage_mutation_barrier"@)
    } else if token == "call_boundary"@ {
        Some("call_boundary_binding_missing"@)
    } else {
        None
    }
}

/// The reasons the `object_binding_gap:` ids of a gap give, in order.
pub open spec fn gap_id_reasons(ids: Seq<Seq<char>>) -> Seq<Seq<char>>
    decreases ids.len(),
{
    if ids.len() == 0 {
        Seq::empty()
    } else {
        let x = ids.last();
        gap_id_reasons(ids.drop_last()) + if has_prefix(x, "object_binding_gap:"@) && gap_reason(x.skip(19)) is Some {
            seq![gap_reason(x.skip(19))->0]
        } else {
            Seq::empty()
        }
    }
}

/// The reasons the object binding gaps among the facts give, in order.
pub open spec fn gap_reasons(facts: Seq<V326LifecycleFactRecord>) -> Seq<Seq<char>>
    decreases facts.len(),
{
    if facts.len() == 0 {
        Seq::empty()
    } else if facts.last().fact_kind == V326LifecycleFactKind::ObjectBindingGap {
        gap_reasons(facts.drop_last()) + gap_id_reasons(text_views(facts.last().object_ids@))
    } else {
        gap_reasons(facts.drop_last())
    }
}

/// Why a v3 graph is incomplete, in the order the reasons are found: no authoritative fact; no
/// contract where one is needed; a registration without unregistration or release site; a
/// release that covers another object than the registration; observation objects, and among
/// them observed callbacks; no chain that is verified or rests on facts while there are facts
/// or evidence; what the chains leave open; and the object binding gaps.
pub open spec fn graph_v3_reasons(
    c: V32CandidateRecord,
    ev: Seq<V326LifecycleEvidenceRecord>,
    facts: Seq<V326LifecycleFactRecord>,
    cf: Seq<V326LifecycleFactRecord>,
    cs: Seq<V326LifecycleContractRecord>,
    objs: Seq<ObjectView>,
    chains: Seq<V326ObjectChain>,
) -> Seq<Seq<char>> {
    let fr = has_kind(ev, V326EvidenceKind::ForeignRegister);
    let fu = has_kind(ev, V326EvidenceKind::ForeignUnregister);
    let rs = has_kind(ev, V326EvidenceKind::ReleaseSite);
    let head = Seq::<Seq<char>>::empty() + piece(!has_authoritative(cf), "mir_hir_fact_missing"@) + piece(
        cs.len() == 0 && needs_foreign_contract(c, ev),
        "foreign_contract_missing"@,
    ) + piece(fr && !fu && !rs, "release_endpoint_missing"@) + piece(
        !release_covers_object(facts) && fr && (fu || rs),
        "release_coverage_object_mismatch"@,
    ) + piece(object_with_prefix(objs, "observation:"@), "object_binding_unproven"@) + piece(
        object_with_prefix(objs, "observation:callback:"@),
        "callback_object_identity_unavailable"@,
    ) + piece(
        !chain_with_status(chains, V326ObjectChainStatus::VerifiedStaticChain) && !static_chain_attempt(chains) && (
        has_authoritative(cf) || ev.len() > 0),
        "object_flow_missing"@,
    );
    chain_reasons_onto(head, chains, cf) + gap_reasons(facts)
}

fn push_if(reasons: &mut Vec<String>, c: bool, r: &str)
    ensures
        text_views(final(reasons)@) == text_views(old(reasons)@) + piece(c, r@),
{
    let ghost before = text_views(reasons@);
    if c {
        reasons.push(owned(r));
        assert(text_views(reasons@) =~= before + seq![r@]);
    } else {
        assert(before + Seq::<Seq<char>>::empty() =~= before);
    }
}

fn candidate_requires_foreign_contract(c: &V32CandidateRecord, evidence: &Vec<V326LifecycleEvidenceRecord>) -> (b: bool)
    ensures
        b == needs_foreign_contract(*c, evidence@),
{
    has_evidence(evidence, V326EvidenceKind::ForeignRegister) || has_evidence(evidence, V326EvidenceKind::ForeignRetentionHint)
        || match c.pattern_family {
        V32PatternFamily::RetainedBorrowedCallback | V32PatternFamily::CallbackLifecycleRelease
        | V32PatternFamily::ExternalBufferView => true,
        _ => false,
    }
}

fn any_object_with_prefix(objects: &Vec<V326LifecycleObject>, p: &str) -> (b: bool)
    ensures
        b == object_with_prefix(object_views(objects@), p@),
{
    let ghost ov = object_views(objects@);
    let mut i: usize = 0;
    while i < objects.len()
        invariant
            0 <= i <= objects@.len(),
            ov == object_views(objects@),
            forall|k: int| 0 <= k < i ==> !has_prefix(#[trigger] ov[k].0, p@),
        decreases objects.len() - i,
    {
        assert(ov[i as int].0 == objects@[i as int].object_id@);
        if starts_with(objects[i].object_id.as_str(), p) {
            assert(has_prefix(ov[i as int].0, p@));
            return true;
        }
        i = i + 1;
    }
    false
}

fn any_chain_with_status(chains: &Vec<V326ObjectChain>, s: V326ObjectChainStatus) -> (b: bool)
    ensures
        b == chain_with_status(chains@, s),
{
    let mut i: usize = 0;
    while i < chains.len()
        invariant
            0 <= i <= chains@.len(),
            forall|k: int| 0 <= k < i ==> (#[trigger] chains@[k]).chain_status != s,
        decreases chains.len() - i,
    {
        if chains[i].chain_status == s {
            assert(chains@[i as int].chain_status == s);
            return true;
        }
        i = i + 1;
    }
    false
}

fn any_ref_of_kind(facts: &[V326LifecycleFactRecord], refs: &Vec<String>, k: V326LifecycleFactKind) -> (b: bool)
    ensures
        b == refs_have_kind(text_views(refs@), facts@, seq![k]),
{
    let mut kinds: Vec<V326LifecycleFactKind> = Vec::new();
    kinds.push(k);
    assert(kinds@ =~= seq![k]);
    let ghost rv = text_views(refs@);
    let mut i: usize = 0;
    while i < refs.len()
        invariant
            0 <= i <= refs@.len(),
            rv == text_views(refs@),
            kinds@ == seq![k],
            forall|j: int| 0 <= j < i ==> !ref_has_kind(facts@, #[trigger] rv[j], seq![k]),
        decreases refs.len() - i,
    {
        if crate::v326_chain_layers::fact_ref_contains_kind(facts, refs[i].as_str(), &kinds) {
            assert(ref_has_kind(facts@, rv[i as int], seq![k]));
            return true;
        }
        i = i + 1;
    }
    false
}

fn refs_only_neutral_aliases(facts: &[V326LifecycleFactRecord], refs: &Vec<String>) -> (b: bool)
    ensures
        b == only_neutral_aliases(facts@, text_views(refs@)),
{
    let ghost rv = text_views(refs@);
    let mut seen = false;
    let mut i: usize = 0;
    while i < facts.len()
        invariant
            0 <= i <= facts@.len(),
            rv == text_views(refs@),
            seen == exists|j: int|
                0 <= j < i && (#[trigger] facts@[j]).fact_kind == V326LifecycleFactKind::ObjectFlow && rv.contains(
                    facts@[j].fact_id@,
                ),
            forall|j: int|
                0 <= j < i && (#[trigger] facts@[j]).fact_kind == V326LifecycleFactKind::ObjectFlow && rv.contains(
                    facts@[j].fact_id@,
                ) ==> is_neutral_alias(facts@[j]),
        decreases facts.len() - i,
    {
        let held = crate::v326_chain_sets::holds_text(refs, &facts[i].fact_id);
        if facts[i].fact_kind == V326LifecycleFactKind::ObjectFlow && held {
            seen = true;
            if !crate::v326_object_flow::object_flow_fact_is_neutral_alias(&facts[i]) {
                return false;
            }
        }
        i = i + 1;
    }
    seen
}

fn any_fact_of_kinds(facts: &[V326LifecycleFactRecord], kinds: &Vec<V326LifecycleFactKind>, auth_only: bool) -> (r: bool)
    ensures
        r == fact_of_kinds(facts@, kinds@, auth_only),
{
    let mut i: usize = 0;
    while i < facts.len()
        invariant
            0 <= i <= facts@.len(),
            forall|j: int|
                0 <= j < i ==> !(kinds@.contains((#[trigger] facts@[j]).fact_kind) && (!auth_only || is_authoritative_binding(
                    facts@[j],
                ))),
        decreases facts.len() - i,
    {
        let mut has = false;
        let mut q: usize = 0;
        while q < kinds.len()
            invariant
                0 <= q <= kinds@.len(),
                i < facts@.len(),
                has == exists|w: int| 0 <= w < q && kinds@[w] == facts@[i as int].fact_kind,
            decreases kinds.len() - q,
        {
            if kinds[q] == facts[i].fact_kind {
                has = true;
            }
            q = q + 1;
        }
        if has && (!auth_only || is_authoritative_object_binding_fact(&facts[i])) {
            return true;
        }
        i = i + 1;
    }
    false
}

fn kinds3(a: V326LifecycleFactKind, b: V326LifecycleFactKind, c: V326LifecycleFactKind) -> (v: Vec<V326LifecycleFactKind>)
    ensures
        v@ == seq![a, b, c],
{
    let mut v: Vec<V326LifecycleFactKind> = Vec::new();
    v.push(a);
    v.push(b);
    v.push(c);
    assert(v@ =~= seq![a, b, c]);
    v
}

proof fn lemma_empty_refs(r: Seq<Seq<char>>, p: spec_fn(Seq<char>) -> bool)
    requires
        forall|x: Seq<char>| r.contains(x) <==> #[trigger] p(x),
    ensures
        (r.len() == 0) <==> !(exists|x: Seq<char>| #[trigger] p(x)),
{
    if r.len() > 0 {
        assert(r.contains(r[0]));
        assert(p(r[0]));
    }
    if exists|x: Seq<char>| #[trigger] p(x) {
        let x = choose|x: Seq<char>| #[trigger] p(x);
        assert(r.contains(x));
    }
}

fn scan_chains(chains: &Vec<V326ObjectChain>, facts: &[V326LifecycleFactRecord]) -> (r: (bool, bool))
    ensures
        r.0 == any_counterpart_missing(chains@, facts@),
        r.1 == any_release_order_chain(chains@, facts@),
{
    let mut counterpart = false;
    let mut roc = false;
    let mut i: usize = 0;
    while i < chains.len()
        invariant
            0 <= i <= chains@.len(),
            counterpart == exists|k: int| 0 <= k < i && counterpart_missing(#[trigger] chains@[k], facts@),
            roc == exists|k: int| 0 <= k < i && release_order_chain(#[trigger] chains@[k], facts@),
        decreases chains.len() - i,
    {
        let c = &chains[i];
        if c.chain_status == V326ObjectChainStatus::PartialChain && any_ref_of_kind(facts, &c.fact_refs, V326LifecycleFactKind::ObjectFlow)
            && !refs_only_neutral_aliases(facts, &c.fact_refs) {
            assert(counterpart_missing(chains@[i as int], facts@));
            counterpart = true;
        }
        if c.chain_status == V326ObjectChainStatus::VerifiedStaticChain && any_ref_of_kind(
            facts,
            &c.fact_refs,
            V326LifecycleFactKind::ReleasePathProof,
        ) {
            assert(release_order_chain(chains@[i as int], facts@));
            roc = true;
        }
        i = i + 1;
    }
    (counterpart, roc)
}

fn append_flow_reasons(
    chains: &Vec<V326ObjectChain>,
    facts: &[V326LifecycleFactRecord],
    reasons: &mut Vec<String>,
) -> (roc: bool)
    ensures
        text_views(final(reasons)@) == flow_reasons_onto(text_views(old(reasons)@), chains@, facts@),
        roc == any_release_order_chain(chains@, facts@),
{
    let ghost r0 = text_views(reasons@);
    let obs = any_chain_with_status(chains, V326ObjectChainStatus::ObservationOnly);
    push_if(reasons, obs, "object_flow_missing");
    let (counterpart, roc) = scan_chains(chains, facts);
    push_if(reasons, counterpart, "object_flow_counterpart_missing");
    let amb = any_chain_with_status(chains, V326ObjectChainStatus::AmbiguousChain);
    push_if(reasons, amb, "object_binding_unproven");
    push_if(reasons, amb, "object_binding_ambiguous");
    push_if(reasons, call_boundary_is_open(facts), "call_boundary_binding_missing");
    push_if(reasons, pair_is_open(facts, "field_store", "field_load"), "field_binding_missing");
    let wrapper = pair_is_open(facts, "wrapper_move", "wrapper_destructure") && !roc;
    push_if(reasons, wrapper, "wrapper_binding_missing");
    push_if(reasons, pair_is_open(facts, "collection_store", "collection_load"), "collection_binding_missing");
    push_if(reasons, closure_is_open(facts), "closure_binding_missing");
    roc
}

fn append_order_reasons(
    chains: &Vec<V326ObjectChain>,
    facts: &[V326LifecycleFactRecord],
    reasons: &mut Vec<String>,
    roc: bool,
)
    requires
        roc == any_release_order_chain(chains@, facts@),
    ensures
        text_views(final(reasons)@) == order_reasons_onto(text_views(old(reasons)@), chains@, facts@),
{
    let ghost r0 = text_views(reasons@);
    let rk = kinds3(V326LifecycleFactKind::RegisterCall, V326LifecycleFactKind::UnregisterCall, V326LifecycleFactKind::ReleaseCall);
    let release_fact = any_fact_of_kinds(facts, &rk, false);
    push_if(reasons, release_fact && !roc, "release_order_proof_missing");
    let bk = kinds3(
        V326LifecycleFactKind::ReturnedBorrowRelation,
        V326LifecycleFactKind::PersistedReturnedBorrow,
        V326LifecycleFactKind::PersistedReturnedBorrow,
    );
    let borrow_fact = any_fact_of_kinds(facts, &bk, false);
    let persisted = crate::v326_chain_refs::persisted_invalidation_use_chain_refs(facts);
    proof {
        lemma_empty_refs(text_views(persisted@), |x: Seq<char>| persisted_ref(facts@, x));
        assert(fact_of_kinds(facts@, bk@, false) == fact_of_kinds(
            facts@,
            seq![V326LifecycleFactKind::ReturnedBorrowRelation, V326LifecycleFactKind::PersistedReturnedBorrow],
            false,
        )) by {
            let s2 = seq![V326LifecycleFactKind::ReturnedBorrowRelation, V326LifecycleFactKind::PersistedReturnedBorrow];
            assert forall|k: V326LifecycleFactKind| bk@.contains(k) == s2.contains(k) by {
                if bk@.contains(k) {
                    let w = choose|w: int| 0 <= w < bk@.len() && bk@[w] == k;
                    if w == 0 {
                        assert(s2[0] == k);
                    } else {
                        assert(s2[1] == k);
                    }
                }
                if s2.contains(k) {
                    let w = choose|w: int| 0 <= w < s2.len() && s2[w] == k;
                    assert(bk@[w] == k);
                }
            }
        }
    }
    push_if(reasons, borrow_fact && persisted.len() == 0, "use_ordering_proof_missing");
    let ck = kinds3(
        V326LifecycleFactKind::CallbackUserDataReconstruction,
        V326LifecycleFactKind::CallbackUserDataReconstruction,
        V326LifecycleFactKind::CallbackUserDataReconstruction,
    );
    let use_fact = any_fact_of_kinds(facts, &ck, true);
    let none: Vec<V326LifecycleEvidenceRecord> = Vec::new();
    let pair = release_covers_same_lifecycle_object(none.as_slice(), facts);
    let cb = crate::v326_chain_refs::callback_release_use_chain_refs(facts);
    proof {
        lemma_empty_refs(text_views(cb@), |x: Seq<char>| callback_chain_ref(facts@, x));
        let s1 = seq![V326LifecycleFactKind::CallbackUserDataReconstruction];
        assert forall|k: V326LifecycleFactKind| ck@.contains(k) == s1.contains(k) by {
            if ck@.contains(k) {
                let w = choose|w: int| 0 <= w < ck@.len() && ck@[w] == k;
                assert(s1[0] == k);
            }
            if s1.contains(k) {
                assert(ck@[0] == k);
            }
        }
        assert(fact_of_kinds(facts@, ck@, true) == fact_of_kinds(facts@, s1, true));
    }
    push_if(reasons, use_fact && pair && cb.len() == 0, "callback_release_use_object_flow_missing");
}

/// What the chains and chain facts leave open.
fn append_object_chain_incomplete_reasons(
    chains: &Vec<V326ObjectChain>,
    facts: &[V326LifecycleFactRecord],
    reasons: &mut Vec<String>,
)
    ensures
        text_views(final(reasons)@) == chain_reasons_onto(text_views(old(reasons)@), chains@, facts@),
{
    let roc = append_flow_reasons(chains, facts, reasons);
    append_order_reasons(chains, facts, reasons, roc);
}

fn text_equals(s: &str, lit: &str) -> (b: bool)
    ensures
        b == (s@ == lit@),
{
    let a = chars_of(s);
    let l = chars_of(lit);
    if a.len() != l.len() {
        return false;
    }
    let mut i: usize = 0;
    while i < a.len()
        invariant
            a@ == s@,
            l@ == lit@,
            a.len() == l.len(),
            0 <= i <= a.len(),
            forall|k: int| 0 <= k < i ==> a@[k] == l@[k],
        decreases a.len() - i,
    {
        if a[i] != l[i] {
            return false;
        }
        i = i + 1;
    }
    assert(s@ =~= lit@);
    true
}

/// The reason an object binding gap token stands for.
fn object_binding_gap_reason(token: &str) -> (r: Option<&'static str>)
    ensures
        match r {
            Some(x) => gap_reason(token@) == Some(x@),
            None => gap_reason(token@) is None,
        },
{
    if text_equals(token, "selection_predicate") {
        Some("selection_predicate_binding_missing")
    } else if text_equals(token, "mapped_value") {
        Some("mapped_value_binding_missing")
    } else if text_equals(token, "merged_sources") {
        Some("merged_source_binding_missing")
    } else if text_equals(token, "tuple_projection") {
        Some("tuple_projection_binding_missing")
    } else if text_equals(token, "cardinality_transform") {
        Some("cardinality_transform_binding_missing")
    } else if text_equals(token, "dynamic_index") {
        Some("dynamic_index_binding_missing")
    } else if text_equals(token, "range_or_slice") {
        Some("range_or_slice_binding_missing")
    } else if text_equals(token, "sequence_length_unknown") {
        Some("sequence_length_binding_missing")
    } else if text_equals(token, "key_contract") {
        Some("key_contract_binding_missing")
    } else if text_equals(token, "reassignment_barrier") {
        Some("object_reassignment_barrier")
    } else if text_equals(token, "mutation_barrier") {
        Some("storage_mutation_barrier")
    } else if text_equals(token, "call_boundary") {
        Some("call_boundary_binding_missing")
    } else {
        None
    }
}

/// The reasons that the object binding gaps among the facts give, in order.
fn append_object_binding_gap_reasons(facts: &[V326LifecycleFactRecord], reasons: &mut Vec<String>)
    ensures
        text_views(final(reasons)@) == text_views(old(reasons)@) + gap_reasons(facts@),
{
    let ghost r0 = text_views(reasons@);
    proof {
        reveal_strlit("object_binding_gap:");
    }
    let mut i: usize = 0;
    while i < facts.len()
        invariant
            0 <= i <= facts@.len(),
            text_views(reasons@) == r0 + gap_reasons(facts@.take(i as int)),
        decreases facts.len() - i,
    {
        assert(facts@.take(i + 1).drop_last() =~= facts@.take(i as int));
        assert(facts@.take(i + 1).last() == facts@[i as int]);
        if facts[i].fact_kind == V326LifecycleFactKind::ObjectBindingGap {
            let ids = &facts[i].object_ids;
            let ghost iv = text_views(ids@);
            let ghost r1 = text_views(reasons@);
            let mut k: usize = 0;
            while k < ids.len()
                invariant
                    0 <= k <= ids@.len(),
                    iv == text_views(ids@),
                    text_views(reasons@) == r1 + gap_id_reasons(iv.take(k as int)),
                decreases ids.len() - k,
            {
                assert(iv.take(k + 1).drop_last() =~= iv.take(k as int));
                assert(iv.take(k + 1).last() == ids@[k as int]@);
                let ghost before = text_views(reasons@);
                proof {
                    reveal_strlit("object_binding_gap:");
                }
                if starts_with(ids[k].as_str(), "object_binding_gap:") {
                    let token = crate::text::skip_chars(ids[k].as_str(), 19);
                    match object_binding_gap_reason(token.as_str()) {
                        Some(reason) => {
                            reasons.push(owned(reason));
                            assert(text_views(reasons@) =~= before + seq![reason@]);
                        },
                        None => {
                            assert(before + Seq::<Seq<char>>::empty() =~= before);
                        },
                    }
                } else {
                    assert(before + Seq::<Seq<char>>::empty() =~= before);
                }
                assert(r1 + gap_id_reasons(iv.take(k + 1)) =~= r1 + gap_id_reasons(iv.take(k as int)) + (
                gap_id_reasons(iv.take(k + 1)).skip(gap_id_reasons(iv.take(k as int)).len() as int)));
                k = k + 1;
            }
            assert(iv.take(iv.len() as int) =~= iv);
            assert(text_views(reasons@) =~= r0 + gap_reasons(facts@.take(i + 1)));
        } else {
            assert(gap_reasons(facts@.take(i + 1)) == gap_reasons(facts@.take(i as int)));
        }
        i = i + 1;
    }
    assert(facts@.take(facts@.len() as int) =~= facts@);
}

fn any_static_attempt(chains: &Vec<V326ObjectChain>) -> (b: bool)
    ensures
        b == static_chain_attempt(chains@),
{
    let mut i: usize = 0;
    while i < chains.len()
        invariant
            0 <= i <= chains@.len(),
            forall|k: int|
                0 <= k < i ==> !((#[trigger] chains@[k]).chain_status != V326ObjectChainStatus::ObservationOnly
                    && chains@[k].fact_refs@.len() > 0),
        decreases chains.len() - i,
    {
        if chains[i].chain_status != V326ObjectChainStatus::ObservationOnly && chains[i].fact_refs.len() > 0 {
            assert(chains@[i as int].chain_status != V326ObjectChainStatus::ObservationOnly);
            return true;
        }
        i = i + 1;
    }
    false
}

fn push_texts(out: &mut Vec<String>, items: &Vec<String>)
    ensures
        text_views(final(out)@) == text_views(old(out)@) + text_views(items@),
{
    let ghost start = text_views(out@);
    let mut k: usize = 0;
    while k < items.len()
        invariant
            0 <= k <= items@.len(),
            text_views(out@) == start + text_views(items@).take(k as int),
        decreases items.len() - k,
    {
        let ghost before = text_views(out@);
        out.push(items[k].clone());
        assert(text_views(out@) =~= before.push(items@[k as int]@));
        assert(start + text_views(items@).take(k + 1) =~= (start + text_views(items@).take(k as int)).push(items@[k as int]@));
        k = k + 1;
    }
    assert(text_views(items@).take(items@.len() as int) =~= text_views(items@));
}

fn record_ids(evidence: &Vec<V326LifecycleEvidenceRecord>) -> (r: Vec<String>)
    ensures
        text_views(r@) == evidence_ids(evidence@),
{
    let mut r: Vec<String> = Vec::new();
    let mut i: usize = 0;
    while i < evidence.len()
        invariant
            0 <= i <= evidence@.len(),
            text_views(r@) == evidence_ids(evidence@.take(i as int)),
        decreases evidence.len() - i,
    {
        let ghost before = text_views(r@);
        r.push(evidence[i].record_id.clone());
        assert(evidence_ids(evidence@.take(i + 1)) =~= evidence_ids(evidence@.take(i as int)).push(
            evidence@[i as int].record_id@,
        ));
        assert(text_views(r@) =~= before.push(evidence@[i as int].record_id@));
        i = i + 1;
    }
    assert(evidence@.take(evidence@.len() as int) =~= evidence@);
    r
}

/// The notes of a v3 graph.
pub open spec fn graph_v3_notes() -> Seq<Seq<char>> {
    seq![
        "graph v3 is object-bound and not a defect conclusion"@,
        "identity transport, lifecycle ordering, and complete risk-chain evidence are reported separately; candidates still need follow-up validation"@,
    ]
}

/// Builds the object-bound lifecycle graph (v3) of a candidate. Only the candidate's evidence
/// and facts count, and only the contracts that apply to it. The graph holds the foreign owner,
/// the objects that the authoritative facts name and that the evidence binds, the edges of the
/// evidence, of the authoritative facts and of the contracts that may retain the callback; its
/// object chains, each with the layers its facts verify and miss, in order of chain id; the ids
/// of the candidate's evidence; and the sorted reasons it is incomplete.
pub fn build_v3_2_6_lifecycle_graph_v3(
    candidate: &V32CandidateRecord,
    evidence: Vec<V326LifecycleEvidenceRecord>,
    facts: Vec<V326LifecycleFactRecord>,
    contracts: Vec<V326LifecycleContractRecord>,
) -> (g: V326LifecycleGraphV3Record)
    ensures
        g.schema_version@ == V3_2_6_LIFECYCLE_GRAPH_V3_SCHEMA_V1@,
        g.run_id@ == candidate.run_id@,
        g.candidate_id@ == candidate.candidate_id@,
        g.crate_id@ == candidate.crate_id@,
        g.pattern_family == candidate.pattern_family,
        ({
            let st = graph_v3_objects_edges(*candidate, evidence@, facts@, contracts@);
            object_views(g.objects@) == st.0 && edge3_views(g.edges@) == st.1
        }),
        ids_strictly_sorted(object_views(g.objects@)),
        chain_views(g.object_chains@) == object_chains(edge3_views(g.edges@), chain_facts(*candidate, facts@)),
        chains_layers_hold(g.object_chains@, chain_facts(*candidate, facts@)),
        chains_in_id_order(g.object_chains@),
        text_views(g.evidence_refs@) == evidence_ids(scoped_evidence(*candidate, evidence@)),
        text_views(g.incomplete_reasons@) == sorted_of(
            graph_v3_reasons(
                *candidate,
                scoped_evidence(*candidate, evidence@),
                scoped_facts(*candidate, facts@),
                chain_facts(*candidate, facts@),
                scoped_contracts(*candidate, facts@, contracts@),
                object_views(g.objects@),
                g.object_chains@,
            ).to_set(),
        ),
        text_views(g.notes@) == graph_v3_notes(),
{
    let ev = keep_owned(
        evidence,
        (|e: &V326LifecycleEvidenceRecord| -> (b: bool)
            ensures
                b == (e.candidate_id@ == candidate.candidate_id@ && e.crate_id@ == candidate.crate_id@),
            { e.candidate_id == candidate.candidate_id && e.crate_id == candidate.crate_id }),
        Ghost(|e: V326LifecycleEvidenceRecord| e.candidate_id@ == candidate.candidate_id@ && e.crate_id@ == candidate.crate_id@),
    );
    let fs = keep_owned(
        facts,
        (|f: &V326LifecycleFactRecord| -> (b: bool)
            ensures
                b == (f.candidate_id@ == candidate.candidate_id@ && f.crate_id@ == candidate.crate_id@),
            { f.candidate_id == candidate.candidate_id && f.crate_id == candidate.crate_id }),
        Ghost(|f: V326LifecycleFactRecord| f.candidate_id@ == candidate.candidate_id@ && f.crate_id@ == candidate.crate_id@),
    );
    let cs = keep_owned(
        contracts,
        (|k: &V326LifecycleContractRecord| -> (b: bool)
            ensures
                b == contract_applies(*candidate, fs@, *k),
            { lifecycle_contract_applies_to_candidate(candidate, fs.as_slice(), k) }),
        Ghost(|k: V326LifecycleContractRecord| contract_applies(*candidate, fs@, k)),
    );
    let mut reasons: Vec<String> = Vec::new();
    let covers = release_covers_same_lifecycle_object(ev.as_slice(), fs.as_slice());
    let mut gap_list: Vec<String> = Vec::new();
    append_object_binding_gap_reasons(fs.as_slice(), &mut gap_list);
    assert(text_views(gap_list@) =~= gap_reasons(fs@));
    let cf = keep_owned(
        fs,
        (|f: &V326LifecycleFactRecord| -> (b: bool)
            ensures
                b == is_chain_fact(*f),
            {
                is_authoritative_object_binding_fact(f) || (f.fact_kind == V326LifecycleFactKind::ObjectBindingGap
                    && f.confidence == V326EvidenceConfidence::High && f.provenance.is_verified())
            }),
        Ghost(|f: V326LifecycleFactRecord| is_chain_fact(f)),
    );
    proof {
        reveal_strlit("foreign_owner:");
    }
    let (owner, owner_label) = match &candidate.api_path {
        Some(p) => (concat2("foreign_owner:", sanitize_id_for_path(p.as_str()).as_str()), p.clone()),
        None => (
            concat2("foreign_owner:", sanitize_id_for_path(candidate.candidate_id.as_str()).as_str()),
            owned("unknown foreign owner"),
        ),
    };
    let mut objects: Vec<V326LifecycleObject> = Vec::new();
    let none: Vec<String> = Vec::new();
    assert(text_views(none@) =~= Seq::<Seq<char>>::empty());
    add_object(&mut objects, owner.clone(), V326LifecycleObjectKind::ForeignOwner, owner_label, None, none);
    proof {
        let ov = object_views(objects@);
        assert(ov =~= owner_objects(*candidate));
    }
    add_fact_objects(&mut objects, cf.as_slice());
    let mut edges = add_evidence_edges(&mut objects, ev.as_slice(), cf.as_slice(), &owner);
    append_fact_edges_of(&mut objects, &mut edges, owner.as_str(), cf.as_slice(), true);
    add_contract_edges(&mut objects, &mut edges, cs.as_slice(), &owner);
    let mut any_authoritative = false;
    let mut i: usize = 0;
    while i < cf.len()
        invariant
            0 <= i <= cf@.len(),
            any_authoritative == exists|j: int| 0 <= j < i && is_authoritative_binding(#[trigger] cf@[j]),
        decreases cf.len() - i,
    {
        if is_authoritative_object_binding_fact(&cf[i]) {
            any_authoritative = true;
        }
        i = i + 1;
    }
    assert(text_views(reasons@) =~= Seq::<Seq<char>>::empty());
    push_if(&mut reasons, !any_authoritative, "mir_hir_fact_missing");
    let needs = candidate_requires_foreign_contract(candidate, &ev);
    push_if(&mut reasons, cs.len() == 0 && needs, "foreign_contract_missing");
    let fr = has_evidence(&ev, V326EvidenceKind::ForeignRegister);
    let fu = has_evidence(&ev, V326EvidenceKind::ForeignUnregister);
    let rs = has_evidence(&ev, V326EvidenceKind::ReleaseSite);
    push_if(&mut reasons, fr && !fu && !rs, "release_endpoint_missing");
    push_if(&mut reasons, !covers && fr && (fu || rs), "release_coverage_object_mismatch");
    let observed = any_object_with_prefix(&objects, "observation:");
    push_if(&mut reasons, observed, "object_binding_unproven");
    let observed_callback = any_object_with_prefix(&objects, "observation:callback:");
    push_if(&mut reasons, observed_callback, "callback_object_identity_unavailable");
    let chains = build_v3_2_6_object_chains(&edges, cf.as_slice());
    let verified = any_chain_with_status(&chains, V326ObjectChainStatus::VerifiedStaticChain);
    let attempt = any_static_attempt(&chains);
    push_if(&mut reasons, !verified && !attempt && (any_authoritative || ev.len() > 0), "object_flow_missing");
    append_object_chain_incomplete_reasons(&chains, cf.as_slice(), &mut reasons);
    push_texts(&mut reasons, &gap_list);
    let incomplete_reasons = ordered_set(reasons);
    let mut notes: Vec<String> = Vec::new();
    notes.push(owned("graph v3 is object-bound and not a defect conclusion"));
    notes.push(
        owned(
            "identity transport, lifecycle ordering, and complete risk-chain evidence are reported separately; candidates still need follow-up validation",
        ),
    );
    assert(text_views(notes@) =~= graph_v3_notes());
    let evidence_refs = record_ids(&ev);
    V326LifecycleGraphV3Record {
        schema_version: owned(V3_2_6_LIFECYCLE_GRAPH_V3_SCHEMA_V1),
        run_id: candidate.run_id.clone(),
        candidate_id: candidate.candidate_id.clone(),
        crate_id: candidate.crate_id.clone(),
        pattern_family: candidate.pattern_family,
        objects,
        edges,
        object_chains: chains,
        evidence_refs,
        incomplete_reasons,
        notes,
    }
}

/// In a built v3 graph, a chain whose facts prove no order lights no ordering: where none of its
/// fact references names a release-path proof, a returned-borrow invalidation order or a
/// callback release/use order whose order was proven (an unknown order proves nothing), the
/// chain verifies neither release nor use ordering, nor lifecycle ordering, nor a complete risk
/// chain.
pub proof fn law_built_chains_with_unknown_orders_light_no_ordering(
    c: V32CandidateRecord,
    facts: Seq<V326LifecycleFactRecord>,
    g: V326LifecycleGraphV3Record,
    k: int,
)
    requires
        chains_layers_hold(g.object_chains@, chain_facts(c, facts)),
        0 <= k < g.object_chains@.len(),
        !has_release_ordering(text_views(g.object_chains@[k].fact_refs@), chain_facts(c, facts)),
        forall|j: int|
            0 <= j < g.object_chains@[k].fact_refs@.len() ==> !ref_is_proven_use_order(
                chain_facts(c, facts),
                #[trigger] text_views(g.object_chains@[k].fact_refs@)[j],
            ),
        !refs_have_kind(
            text_views(g.object_chains@[k].fact_refs@),
            chain_facts(c, facts),
            seq![V326LifecycleFactKind::ReturnedBorrowInvalidationOrder],
        ),
    ensures
        !g.object_chains@[k].verified_layers@.contains(V326ObjectChainLayer::ReleaseOrdering),
        !g.object_chains@[k].verified_layers@.contains(V326ObjectChainLayer::UseOrdering),
        !g.object_chains@[k].verified_layers@.contains(V326ObjectChainLayer::LifecycleOrdering),
        !g.object_chains@[k].verified_layers@.contains(V326ObjectChainLayer::CompleteRiskChain),
{
    let ch = g.object_chains@[k];
    assert(chain_layers_hold(ch, chain_facts(c, facts)));
    let refs = text_views(ch.fact_refs@);
    assert forall|j: int| 0 <= j < refs.len() implies !ref_is_proven_use_order(chain_facts(c, facts), #[trigger] refs[j]) by {
        assert(refs[j] == text_views(g.object_chains@[k].fact_refs@)[j]);
    }
    law_unknown_orders_light_no_ordering(ch.chain_status, ch.object_ids@.len() as int, refs, chain_facts(c, facts));
}

/// Records of other candidates change nothing in a v3 graph, wherever they stand: a piece of
/// evidence and a fact of another candidate or crate, inserted at any place (or, read backwards,
/// removed from it), leave the candidate's evidence, facts, chain facts and applicable
/// contracts, and so the graph's objects, edges and object chains, as they were.
pub proof fn law_graph_v3_ignores_other_candidates(
    c: V32CandidateRecord,
    ev: Seq<V326LifecycleEvidenceRecord>,
    i: int,
    e: V326LifecycleEvidenceRecord,
    facts: Seq<V326LifecycleFactRecord>,
    j: int,
    f: V326LifecycleFactRecord,
    cs: Seq<V326LifecycleContractRecord>,
)
    requires
        0 <= i <= ev.len(),
        0 <= j <= facts.len(),
        !(e.candidate_id@ == c.candidate_id@ && e.crate_id@ == c.crate_id@),
        !(f.candidate_id@ == c.candidate_id@ && f.crate_id@ == c.crate_id@),
    ensures
        scoped_evidence(c, ev.insert(i, e)) == scoped_evidence(c, ev),
        chain_facts(c, facts.insert(j, f)) == chain_facts(c, facts),
        scoped_contracts(c, facts.insert(j, f), cs) == scoped_contracts(c, facts, cs),
        graph_v3_objects_edges(c, ev.insert(i, e), facts.insert(j, f), cs) == graph_v3_objects_edges(c, ev, facts, cs),
        object_chains(graph_v3_objects_edges(c, ev.insert(i, e), facts.insert(j, f), cs).1, chain_facts(c, facts.insert(j, f)))
            == object_chains(graph_v3_objects_edges(c, ev, facts, cs).1, chain_facts(c, facts)),
{
    let pe = |x: V326LifecycleEvidenceRecord| x.candidate_id@ == c.candidate_id@ && x.crate_id@ == c.crate_id@;
    let pf = |x: V326LifecycleFactRecord| x.candidate_id@ == c.candidate_id@ && x.crate_id@ == c.crate_id@;
    crate::v326_derive::lemma_kept_insert(ev, i, e, pe);
    crate::v326_derive::lemma_kept_insert(facts, j, f, pf);
}

} // verus!
