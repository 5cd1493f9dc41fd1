use bw_model::boundary_index::{V32BoundaryEvidenceKind, V32BoundaryEvidenceRef};
use bw_model::candidate::{
    V32CandidateConfidence, V32CandidateRecord, V32PatternFamily, V32RecommendedNextStep,
};
use bw_model::error::Located;
use bw_model::id::{BuildId, RecordId, SemanticSiteKey, SiteId};
use bw_model::lifecycle_v326::{
    V326EvidenceKind, V326LifecycleEvidenceRecord, V326LifecycleFactKind, V326LifecycleFactRecord,
    V326LifecycleObjectKind, V326LifecycleRelation, V326ObjectChainStatus, V326SourceRef,
};
use bw_model::static_fact::{ObjectSiteFact, StaticArtifactIdentity, StaticFact, StaticFactEnvelope, StaticSourceRef};
use bw_model::v326_provenance::verify_v3_2_6_lifecycle_fact_static_provenance;
use bw_model::v326_static_fields::lifecycle_fact_from_static_fact;
use bw_model::v326_graph_check::validate_v3_2_6_lifecycle_graph_v3;
use bw_model::v326_graph_v3_build::build_v3_2_6_lifecycle_graph_v3;

fn candidate(api_path: Option<&str>) -> V32CandidateRecord {
    V32CandidateRecord {
        schema_version: "v3.2.candidate.1".to_owned(),
        run_id: "run:1".to_owned(),
        candidate_id: "candidate:a:001".to_owned(),
        crate_id: "crate:a".to_owned(),
        boundary_id: "boundary:a:001".to_owned(),
        pattern_family: V32PatternFamily::RetainedBorrowedCallback,
        confidence: V32CandidateConfidence::NeedsDynamicValidation,
        evidence_refs: Vec::new(),
        api_path: api_path.map(|p| p.to_owned()),
        recommended_next_step: V32RecommendedNextStep::GenerateLifecycleSubgraph,
        notes: Vec::new(),
    }
}

fn ev(id: &str, candidate_id: &str, kind: V326EvidenceKind) -> V326LifecycleEvidenceRecord {
    V326LifecycleEvidenceRecord::sample_for_tests(id, "crate:a", candidate_id, kind)
}

#[test]
fn registration_without_facts_is_observation_only() {
    let c = candidate(Some("ffi::register"));
    let evidence = vec![ev("ev:reg", "candidate:a:001", V326EvidenceKind::ForeignRegister)];
    let g = build_v3_2_6_lifecycle_graph_v3(&c, evidence, Vec::new(), Vec::new());
    assert_eq!(g.run_id, "run:1");
    assert_eq!(g.candidate_id, "candidate:a:001");
    let ids: Vec<&str> = g.objects.iter().map(|o| o.object_id.as_str()).collect();
    assert_eq!(ids, vec!["foreign_owner:ffi__register", "observation:callback:ev_reg"]);
    assert_eq!(g.objects[0].object_kind, V326LifecycleObjectKind::ForeignOwner);
    assert_eq!(g.objects[1].label, "callback object binding unproven");
    assert_eq!(g.edges.len(), 1);
    assert_eq!(g.edges[0].edge_id, "edge:ev_reg:register");
    assert_eq!(g.edges[0].relation, V326LifecycleRelation::Register);
    assert_eq!(g.edges[0].from_object_id, "observation:callback:ev_reg");
    assert_eq!(g.edges[0].to_object_id, "foreign_owner:ffi__register");
    assert_eq!(g.object_chains.len(), 1);
    assert_eq!(g.object_chains[0].chain_id, "chain:observation_only");
    assert_eq!(g.object_chains[0].chain_status, V326ObjectChainStatus::ObservationOnly);
    assert!(g.object_chains[0].verified_layers.is_empty());
    assert_eq!(g.evidence_refs, vec!["ev:reg".to_owned()]);
    let reasons: Vec<&str> = g.incomplete_reasons.iter().map(|r| r.as_str()).collect();
    assert_eq!(
        reasons,
        vec![
            "callback_object_identity_unavailable",
            "foreign_contract_missing",
            "mir_hir_fact_missing",
            "object_binding_unproven",
            "object_flow_missing",
            "release_endpoint_missing",
        ]
    );
    let located = Located { path: "graphs.jsonl".to_owned(), line: 1, value: g };
    assert!(validate_v3_2_6_lifecycle_graph_v3(vec![located]).is_ok());
}

#[test]
fn graph_v3_ignores_evidence_of_other_candidates() {
    let c = candidate(None);
    let evidence = vec![
        ev("ev:mine", "candidate:a:001", V326EvidenceKind::ReleaseSite),
        ev("ev:other", "candidate:b:002", V326EvidenceKind::ForeignRegister),
    ];
    let g = build_v3_2_6_lifecycle_graph_v3(&c, evidence, Vec::new(), Vec::new());
    assert_eq!(g.evidence_refs, vec!["ev:mine".to_owned()]);
    let ids: Vec<&str> = g.objects.iter().map(|o| o.object_id.as_str()).collect();
    assert_eq!(
        ids,
        vec!["foreign_owner:candidate_a_001", "observation:callback:ev_mine", "release_endpoint:ev_mine"]
    );
    assert_eq!(g.objects[0].label, "unknown foreign owner");
    assert_eq!(g.edges.len(), 1);
    assert_eq!(g.edges[0].edge_id, "edge:ev_mine:release");
    assert!(!g.incomplete_reasons.iter().any(|r| r == "release_endpoint_missing"));
}

#[test]
fn graph_v3_without_evidence_or_facts() {
    let c = candidate(None);
    let g = build_v3_2_6_lifecycle_graph_v3(&c, Vec::new(), Vec::new(), Vec::new());
    assert_eq!(g.objects.len(), 1);
    assert!(g.edges.is_empty());
    assert!(g.object_chains.is_empty());
    let reasons: Vec<&str> = g.incomplete_reasons.iter().map(|r| r.as_str()).collect();
    assert_eq!(reasons, vec!["foreign_contract_missing", "mir_hir_fact_missing"]);
}

fn verified_fact(c: &V32CandidateRecord, fact_id: &str, objects: &[&str]) -> V326LifecycleFactRecord {
    let envelope = StaticFactEnvelope {
        schema_version: "bw.static/0.2".to_owned(),
        record_id: RecordId("rec:1".to_owned()),
        producer: "bw-static".to_owned(),
        build_id: BuildId("build:1".to_owned()),
        artifact: Some(StaticArtifactIdentity {
            crate_id: "crate:a".to_owned(),
            package_name: "a".to_owned(),
            package_version: "0.1.0".to_owned(),
            target: "lib".to_owned(),
        }),
        source_ref: Some(StaticSourceRef {
            path: "crates/a/src/lib.rs".to_owned(),
            line_start: 11,
            line_end: 11,
            symbol_path: Some("crate::Owner::make_owner<T>".to_owned()),
        }),
        payload: StaticFact::ObjectSite(ObjectSiteFact {
            site_id: SiteId("site:rec:1".to_owned()),
            semantic_site_key: SemanticSiteKey("key:owner".to_owned()),
            object_type_name: "Owner".to_owned(),
        }),
    };
    let source_ref = V326SourceRef {
        path: "crates/a/src/lib.rs".to_owned(),
        line_start: Some(11),
        line_end: Some(11),
        symbol_path: None,
        text_sha256: None,
    };
    let mut fact = lifecycle_fact_from_static_fact("run:1", c, &envelope, source_ref, Vec::new())
        .expect("object sites are lifecycle facts");
    fact.provenance.static_anchor_record_ids = vec!["rec:1".to_owned()];
    assert!(verify_v3_2_6_lifecycle_fact_static_provenance(&mut fact, c, &[envelope]));
    fact.fact_id = fact_id.to_owned();
    fact.fact_kind = V326LifecycleFactKind::ExternalBufferBinding;
    fact.object_ids = objects.iter().map(|s| (*s).to_owned()).collect();
    fact.evidence_refs = vec![format!("evidence:{fact_id}")];
    fact
}

fn spanned_candidate() -> V32CandidateRecord {
    let mut c = candidate(Some("ffi::register"));
    c.evidence_refs = vec![V32BoundaryEvidenceRef {
        kind: V32BoundaryEvidenceKind::SourceSpan,
        path: "crates\\a\\src\\lib.rs".to_owned(),
        line_start: Some(10),
        line_end: Some(12),
    }];
    c
}

#[test]
fn external_buffer_bindings_give_partial_chains_in_order_of_chain_id() {
    let c = spanned_candidate();
    let facts = vec![
        verified_fact(&c, "fact:z", &["buffer:b", "owner:a"]),
        verified_fact(&c, "fact:one", &["buffer:c"]),
        verified_fact(&c, "fact:a", &["owner:d", "buffer:e", "static_site:s"]),
    ];
    assert!(facts.iter().all(|f| f.provenance.is_verified()));
    let g = build_v3_2_6_lifecycle_graph_v3(&c, Vec::new(), facts, Vec::new());
    let ids: Vec<&str> = g.object_chains.iter().map(|ch| ch.chain_id.as_str()).collect();
    assert_eq!(
        ids,
        vec!["chain:fact_a:external_buffer_binding", "chain:fact_z:external_buffer_binding"]
    );
    assert_eq!(g.object_chains[0].object_ids, vec!["buffer:e".to_owned(), "owner:d".to_owned()]);
    assert_eq!(g.object_chains[0].fact_refs, vec!["fact:a".to_owned()]);
    assert_eq!(g.object_chains[0].evidence_refs, vec!["evidence:fact:a".to_owned()]);
    assert_eq!(g.object_chains[0].chain_status, V326ObjectChainStatus::PartialChain);
    assert_eq!(g.object_chains[1].object_ids, vec!["buffer:b".to_owned(), "owner:a".to_owned()]);
    assert_eq!(g.object_chains[1].fact_refs, vec!["fact:z".to_owned()]);
    assert_eq!(g.object_chains[1].chain_status, V326ObjectChainStatus::PartialChain);
    for ch in &g.object_chains {
        assert!(ch.edge_ids.iter().all(|e| g.edges.iter().any(|x| &x.edge_id == e)));
    }
}
