//! Small V3.2.6 records for tests of the tools built on the model.

use vstd::prelude::*;

use crate::candidate::V32PatternFamily;
use crate::lifecycle_v326::{
    active_feature_names, active_names_upto, V326ContractRelease, V326ContractReplacement, V326ContractRetention,
    V326Details, V326EvidenceConfidence, V326EvidenceKind, V326FeatureSet, V326ForeignOwnerSemantics,
    V326LifecycleContractRecord, V326LifecycleEdge, V326LifecycleEdgeKind, V326LifecycleEvidenceRecord,
    V326LifecycleFeatureRecord, V326LifecycleGraphRecord, V326LifecycleNode, V326LifecycleNodeKind, V326SourceRef,
    FEATURE_COUNT, V3_2_6_LIFECYCLE_CONTRACT_SCHEMA_V1, V3_2_6_LIFECYCLE_EVIDENCE_SCHEMA_V1,
    V3_2_6_LIFECYCLE_FEATURE_SCHEMA_V1, V3_2_6_LIFECYCLE_GRAPH_SCHEMA_V1,
};
use crate::text::{concat2, owned, sort_texts, texts_sorted};

verus! {

fn one_text(s: &str) -> (v: Vec<String>)
    ensures
        v@.map_values(|x: String| x@) == seq![s@],
{
    let mut v: Vec<String> = Vec::new();
    v.push(owned(s));
    assert(v@.map_values(|x: String| x@) =~= seq![s@]);
    v
}

impl V326LifecycleContractRecord {
    /// A contract of a sample component whose registration API may retain the callback.
    pub fn sample_for_tests_retaining() -> (r: Self)
        ensures
            r.schema_version@ == V3_2_6_LIFECYCLE_CONTRACT_SCHEMA_V1@,
            r.run_id@ == "run:v326"@,
            r.contract_id@ == "contract:retaining-callback"@,
            r.component_id@ == "component:sample"@,
            r.api_id@ == "contract::register_callback"@,
            r.retention == V326ContractRetention::MayRetainCallback,
            r.replacement == V326ContractReplacement::Unknown,
            r.release == V326ContractRelease::Unknown,
            r.owner_semantics == V326ForeignOwnerSemantics::ForeignOwned,
            r.scope@ == "local_fixture"@,
            r.source@ == "manual_lifecycle_contract"@,
            r.evidence_refs@.map_values(|x: String| x@) == seq!["evidence:contract:0001"@],
            r.notes@.map_values(|x: String| x@) == seq!["neutral lifecycle contract"@],
    {
        V326LifecycleContractRecord {
            schema_version: owned(V3_2_6_LIFECYCLE_CONTRACT_SCHEMA_V1),
            run_id: owned("run:v326"),
            contract_id: owned("contract:retaining-callback"),
            component_id: owned("component:sample"),
            api_id: owned("contract::register_callback"),
            retention: V326ContractRetention::MayRetainCallback,
            replacement: V326ContractReplacement::Unknown,
            release: V326ContractRelease::Unknown,
            owner_semantics: V326ForeignOwnerSemantics::ForeignOwned,
            scope: owned("local_fixture"),
            source: owned("manual_lifecycle_contract"),
            evidence_refs: one_text("evidence:contract:0001"),
            notes: one_text("neutral lifecycle contract"),
        }
    }
}

impl V326LifecycleEvidenceRecord {
    /// A piece of medium-confidence evidence of a kind, for a candidate, at line 1 of
    /// `src/lib.rs`, with empty details.
    pub fn sample_for_tests(
        record_id: &str,
        crate_id: &str,
        candidate_id: &str,
        evidence_kind: V326EvidenceKind,
    ) -> (r: Self)
        ensures
            r.schema_version@ == V3_2_6_LIFECYCLE_EVIDENCE_SCHEMA_V1@,
            r.run_id@ == "run:v326"@,
            r.record_id@ == record_id@,
            r.crate_id@ == crate_id@,
            r.candidate_id@ == candidate_id@,
            r.evidence_kind == evidence_kind,
            r.source_ref.path@ == "src/lib.rs"@,
            r.source_ref.line_start == Some(1u64),
            r.source_ref.line_end == Some(1u64),
            r.source_ref.symbol_path is None,
            r.source_ref.text_sha256 is None,
            r.confidence == V326EvidenceConfidence::Medium,
            r.details matches V326Details::Object(entries) && entries@.len() == 0,
            r.notes@.map_values(|x: String| x@) == seq!["neutral lifecycle evidence"@],
    {
        V326LifecycleEvidenceRecord {
            schema_version: owned(V3_2_6_LIFECYCLE_EVIDENCE_SCHEMA_V1),
            run_id: owned("run:v326"),
            record_id: owned(record_id),
            crate_id: owned(crate_id),
            candidate_id: owned(candidate_id),
            evidence_kind,
            source_ref: V326SourceRef {
                path: owned("src/lib.rs"),
                line_start: Some(1),
                line_end: Some(1),
                symbol_path: None,
                text_sha256: None,
            },
            confidence: V326EvidenceConfidence::Medium,
            details: V326Details::Object(Vec::new()),
            notes: one_text("neutral lifecycle evidence"),
        }
    }
}

/// The sample evidence of every active feature: one entry per active feature, by name in
/// increasing order, each with the one reference `evidence:sample:` and the name.
pub open spec fn is_sample_evidence(f: V326FeatureSet, entries: Seq<(String, Vec<String>)>) -> bool {
    let names = entries.map_values(|e: (String, Vec<String>)| e.0@);
    &&& names.to_multiset() == active_names_upto(f, FEATURE_COUNT as int).to_multiset()
    &&& texts_sorted(names)
    &&& forall|i: int|
        0 <= i < entries.len() ==> (#[trigger] entries[i]).1@.map_values(|x: String| x@) == seq![
            "evidence:sample:"@ + entries[i].0@,
        ]
}

fn sample_evidence(features: &V326FeatureSet) -> (entries: Vec<(String, Vec<String>)>)
    ensures
        is_sample_evidence(*features, entries@),
{
    let names = sort_texts(active_feature_names(features));
    let ghost ns = names@.map_values(|x: String| x@);
    let mut entries: Vec<(String, Vec<String>)> = Vec::new();
    let mut i: usize = 0;
    while i < names.len()
        invariant
            ns == names@.map_values(|x: String| x@),
            0 <= i <= names@.len(),
            entries@.len() == i,
            forall|k: int| 0 <= k < i ==> (#[trigger] entries@[k]).0@ == ns[k],
            forall|k: int|
                0 <= k < i ==> (#[trigger] entries@[k]).1@.map_values(|x: String| x@) == seq![
                    "evidence:sample:"@ + entries@[k].0@,
                ],
        decreases names.len() - i,
    {
        let name = names[i].clone();
        let refs = one_text(concat2("evidence:sample:", name.as_str()).as_str());
        entries.push((name, refs));
        i = i + 1;
    }
    assert(entries@.map_values(|e: (String, Vec<String>)| e.0@) =~= ns);
    entries
}

/// The feature set with no active feature.
pub open spec fn spec_no_features() -> V326FeatureSet {
    V326FeatureSet {
        has_foreign_register: false,
        foreign_may_retain_callback: false,
        foreign_may_retain_user_data: false,
        has_borrowed_capture: false,
        has_raw_pointer_escape: false,
        raw_parts_transfer_without_drop_prevention: false,
        has_drop_prevention: false,
        manual_drop_prevention_without_drop_guard: false,
        callback_user_data_owner_reconstruction_without_leak_guard: false,
        has_returned_borrow_relation: false,
        has_unconstrained_return_lifetime: false,
        has_persisted_returned_borrow: false,
        returned_borrow_persistence_before_invalidation: false,
        returned_borrow_persistence_after_invalidation: false,
        has_external_buffer_binding: false,
        has_external_buffer_lifetime_bound: false,
        relaxed_atomic_load_in_iterator: false,
        acquire_atomic_load_in_iterator: false,
        has_verified_object_chain: false,
        has_release_order_chain: false,
        has_persisted_invalidation_use_chain: false,
        has_callback_release_use_chain: false,
        rust_object_may_drop_before_foreign_release: false,
        missing_unregister_before_drop: false,
        release_order_unknown: false,
        opaque_handle_without_owner: false,
        needs_dynamic_witness: false,
        has_foreign_unregister: false,
        registration_release_pair_found: false,
        has_drop_guard: false,
        has_owned_anchor: false,
        has_static_bound: false,
        has_box_into_raw: false,
        has_box_from_raw: false,
        has_arc_anchor: false,
        release_covers_callback: false,
    }
}

fn no_features() -> (f: V326FeatureSet)
    ensures
        f == spec_no_features(),
{
    V326FeatureSet {
        has_foreign_register: false,
        foreign_may_retain_callback: false,
        foreign_may_retain_user_data: false,
        has_borrowed_capture: false,
        has_raw_pointer_escape: false,
        raw_parts_transfer_without_drop_prevention: false,
        has_drop_prevention: false,
        manual_drop_prevention_without_drop_guard: false,
        callback_user_data_owner_reconstruction_without_leak_guard: false,
        has_returned_borrow_relation: false,
        has_unconstrained_return_lifetime: false,
        has_persisted_returned_borrow: false,
        returned_borrow_persistence_before_invalidation: false,
        returned_borrow_persistence_after_invalidation: false,
        has_external_buffer_binding: false,
        has_external_buffer_lifetime_bound: false,
        relaxed_atomic_load_in_iterator: false,
        acquire_atomic_load_in_iterator: false,
        has_verified_object_chain: false,
        has_release_order_chain: false,
        has_persisted_invalidation_use_chain: false,
        has_callback_release_use_chain: false,
        rust_object_may_drop_before_foreign_release: false,
        missing_unregister_before_drop: false,
        release_order_unknown: false,
        opaque_handle_without_owner: false,
        needs_dynamic_witness: false,
        has_foreign_unregister: false,
        registration_release_pair_found: false,
        has_drop_guard: false,
        has_owned_anchor: false,
        has_static_bound: false,
        has_box_into_raw: false,
        has_box_from_raw: false,
        has_arc_anchor: false,
        release_covers_callback: false,
    }
}

impl V326LifecycleFeatureRecord {
    /// A feature record whose only active feature, a foreign registration, has no evidence
    /// references.
    pub fn sample_for_tests_without_feature_refs() -> (r: Self)
        ensures
            r.schema_version@ == V3_2_6_LIFECYCLE_FEATURE_SCHEMA_V1@,
            r.run_id@ == "run:v326"@,
            r.candidate_id@ == "candidate:sample:001"@,
            r.crate_id@ == "crate:sample"@,
            r.pattern_family == V32PatternFamily::RetainedBorrowedCallback,
            r.features == (V326FeatureSet { has_foreign_register: true, ..spec_no_features() }),
            r.feature_evidence@.len() == 0,
            r.missing_evidence@.len() == 0,
            r.notes@.map_values(|x: String| x@) == seq!["active feature intentionally missing evidence refs"@],
    {
        let features = V326FeatureSet { has_foreign_register: true, ..no_features() };
        V326LifecycleFeatureRecord {
            schema_version: owned(V3_2_6_LIFECYCLE_FEATURE_SCHEMA_V1),
            run_id: owned("run:v326"),
            candidate_id: owned("candidate:sample:001"),
            crate_id: owned("crate:sample"),
            pattern_family: V32PatternFamily::RetainedBorrowedCallback,
            features,
            feature_evidence: Vec::new(),
            missing_evidence: Vec::new(),
            notes: one_text("active feature intentionally missing evidence refs"),
        }
    }

    /// A feature record with the given features, each active one with a sample evidence
    /// reference.
    pub fn sample_for_tests_with_features(features: V326FeatureSet) -> (r: Self)
        ensures
            r.schema_version@ == V3_2_6_LIFECYCLE_FEATURE_SCHEMA_V1@,
            r.run_id@ == "run:v326"@,
            r.candidate_id@ == "candidate:sample:001"@,
            r.crate_id@ == "crate:sample"@,
            r.pattern_family == V32PatternFamily::RetainedBorrowedCallback,
            r.features == features,
            is_sample_evidence(features, r.feature_evidence@),
            r.missing_evidence@.len() == 0,
            r.notes@.map_values(|x: String| x@) == seq!["candidate ranking is not a defect conclusion"@],
    {
        V326LifecycleFeatureRecord {
            schema_version: owned(V3_2_6_LIFECYCLE_FEATURE_SCHEMA_V1),
            run_id: owned("run:v326"),
            candidate_id: owned("candidate:sample:001"),
            crate_id: owned("crate:sample"),
            pattern_family: V32PatternFamily::RetainedBorrowedCallback,
            features,
            feature_evidence: sample_evidence(&features),
            missing_evidence: Vec::new(),
            notes: one_text("candidate ranking is not a defect conclusion"),
        }
    }

    /// The sample feature record of a crate: as `sample_for_tests_with_features`, with the crate
    /// id and a candidate id made from it.
    pub fn sample_for_tests_for_crate(crate_id: &str, features: V326FeatureSet) -> (r: Self)
        ensures
            r.schema_version@ == V3_2_6_LIFECYCLE_FEATURE_SCHEMA_V1@,
            r.run_id@ == "run:v326"@,
            r.candidate_id@ == "candidate:"@ + crate_id@ + ":001"@,
            r.crate_id@ == crate_id@,
            r.pattern_family == V32PatternFamily::RetainedBorrowedCallback,
            r.features == features,
            is_sample_evidence(features, r.feature_evidence@),
            r.missing_evidence@.len() == 0,
            r.notes@.map_values(|x: String| x@) == seq!["candidate ranking is not a defect conclusion"@],
    {
        let mut record = Self::sample_for_tests_with_features(features);
        record.crate_id = owned(crate_id);
        record.candidate_id = crate::text::concat3("candidate:", crate_id, ":001");
        record
    }
}

impl V326LifecycleGraphRecord {
    /// A graph whose only edge leads to a node that does not exist.
    pub fn sample_for_tests_with_broken_edge() -> (r: Self)
        ensures
            r.schema_version@ == V3_2_6_LIFECYCLE_GRAPH_SCHEMA_V1@,
            r.run_id@ == "run:v326"@,
            r.candidate_id@ == "candidate:sample:001"@,
            r.crate_id@ == "crate:sample"@,
            r.pattern_family == V32PatternFamily::RetainedBorrowedCallback,
            r.nodes@.len() == 1,
            r.nodes@[0].node_id@ == "candidate"@,
            r.nodes@[0].node_kind == V326LifecycleNodeKind::RustObject,
            r.nodes@[0].label@ == "candidate node"@,
            r.edges@.len() == 1,
            r.edges@[0].from@ == "candidate"@,
            r.edges@[0].to@ == "missing_node"@,
            r.edges@[0].edge_kind == V326LifecycleEdgeKind::RegisteredInto,
            r.edges@[0].evidence_refs@.map_values(|x: String| x@) == seq!["evidence:sample:0001"@],
            r.evidence_refs@.map_values(|x: String| x@) == seq!["evidence:sample:0001"@],
            r.incomplete_evidence@.len() == 0,
            r.notes@.map_values(|x: String| x@) == seq!["broken edge fixture"@],
    {
        let mut nodes: Vec<V326LifecycleNode> = Vec::new();
        nodes.push(
            V326LifecycleNode {
                node_id: owned("candidate"),
                node_kind: V326LifecycleNodeKind::RustObject,
                label: owned("candidate node"),
            },
        );
        let mut edges: Vec<V326LifecycleEdge> = Vec::new();
        edges.push(
            V326LifecycleEdge {
                from: owned("candidate"),
                to: owned("missing_node"),
                edge_kind: V326LifecycleEdgeKind::RegisteredInto,
                evidence_refs: one_text("evidence:sample:0001"),
            },
        );
        V326LifecycleGraphRecord {
            schema_version: owned(V3_2_6_LIFECYCLE_GRAPH_SCHEMA_V1),
            run_id: owned("run:v326"),
            candidate_id: owned("candidate:sample:001"),
            crate_id: owned("crate:sample"),
            pattern_family: V32PatternFamily::RetainedBorrowedCallback,
            nodes,
            edges,
            evidence_refs: one_text("evidence:sample:0001"),
            incomplete_evidence: Vec::new(),
            notes: one_text("broken edge fixture"),
        }
    }
}

} // verus!
