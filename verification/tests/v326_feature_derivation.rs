use bw_model::candidate::{
    V32CandidateConfidence, V32CandidateRecord, V32PatternFamily, V32RecommendedNextStep,
};
use bw_model::lifecycle_v326::{
    V326Details, V326EvidenceConfidence, V326EvidenceKind, V326LifecycleEvidenceRecord,
};
use bw_model::v326_derive::{
    derive_v3_2_6_lifecycle_features, derive_v3_2_6_lifecycle_features_with_context,
};
use bw_model::v326_graph_build::build_v3_2_6_lifecycle_graph;

fn candidate() -> V32CandidateRecord {
    V32CandidateRecord {
        schema_version: "v3.2.candidate.1".to_owned(),
        run_id: "run:1".to_owned(),
        candidate_id: "candidate:a:001".to_owned(),
        crate_id: "crate:a".to_owned(),
        boundary_id: "boundary:a:001".to_owned(),
        pattern_family: V32PatternFamily::RetainedBorrowedCallback,
        confidence: V32CandidateConfidence::NeedsDynamicValidation,
        evidence_refs: Vec::new(),
        api_path: None,
        recommended_next_step: V32RecommendedNextStep::GenerateLifecycleSubgraph,
        notes: Vec::new(),
    }
}

fn ev(id: &str, candidate_id: &str, kind: V326EvidenceKind) -> V326LifecycleEvidenceRecord {
    V326LifecycleEvidenceRecord::sample_for_tests(id, "crate:a", candidate_id, kind)
}

fn names(entries: &[(String, Vec<String>)]) -> Vec<&str> {
    entries.iter().map(|(n, _)| n.as_str()).collect()
}

#[test]
fn register_with_borrowed_capture_and_no_release_is_a_risk() {
    let c = candidate();
    let evidence = vec![
        ev("ev:register", "candidate:a:001", V326EvidenceKind::ForeignRegister),
        ev("ev:borrow", "candidate:a:001", V326EvidenceKind::BorrowEdge),
    ];
    let mut graph = build_v3_2_6_lifecycle_graph(&c, &evidence);
    graph.incomplete_evidence = Vec::new();
    let record = derive_v3_2_6_lifecycle_features(&c, &graph, evidence);
    assert_eq!(record.candidate_id, "candidate:a:001");
    assert_eq!(record.crate_id, "crate:a");
    assert!(record.features.has_foreign_register);
    assert!(record.features.has_borrowed_capture);
    assert!(record.features.missing_unregister_before_drop);
    assert!(record.features.rust_object_may_drop_before_foreign_release);
    assert!(record.features.release_order_unknown);
    assert!(record.features.needs_dynamic_witness);
    assert!(!record.features.has_foreign_unregister);
    assert_eq!(
        names(&record.feature_evidence),
        vec![
            "has_borrowed_capture",
            "has_foreign_register",
            "missing_unregister_before_drop",
            "needs_dynamic_witness",
            "release_order_unknown",
            "rust_object_may_drop_before_foreign_release",
        ]
    );
    assert_eq!(record.feature_evidence[3].1, vec!["ev:register", "ev:borrow"]);
    assert_eq!(record.feature_evidence[5].1, vec!["ev:borrow", "ev:register"]);
    assert_eq!(
        record.missing_evidence,
        vec![
            "no unregister evidence found near candidate",
            "release_order_unknown",
            "release_order_proof_missing",
        ]
    );
}

#[test]
fn evidence_of_other_candidates_changes_nothing() {
    let c = candidate();
    let own = vec![ev("ev:register", "candidate:a:001", V326EvidenceKind::ForeignRegister)];
    let mixed = vec![
        ev("ev:register", "candidate:a:001", V326EvidenceKind::ForeignRegister),
        ev("ev:other", "candidate:b:002", V326EvidenceKind::BorrowEdge),
    ];
    let mut graph = build_v3_2_6_lifecycle_graph(&c, &own);
    graph.incomplete_evidence = Vec::new();
    let alone = derive_v3_2_6_lifecycle_features_with_context(&c, &graph, own, Vec::new(), Vec::new());
    let with_other = derive_v3_2_6_lifecycle_features_with_context(&c, &graph, mixed, Vec::new(), Vec::new());
    assert_eq!(alone.features, with_other.features);
    assert_eq!(alone.feature_evidence, with_other.feature_evidence);
    assert!(!with_other.features.has_borrowed_capture);
}

#[test]
fn release_site_details_mentioning_from_raw_mark_box_from_raw() {
    let c = candidate();
    let mut release = ev("ev:release", "candidate:a:001", V326EvidenceKind::ReleaseSite);
    release.details = V326Details::Object(vec![(
        "call".to_owned(),
        V326Details::Text("Box::FROM_RAW(ptr)".to_owned()),
    )]);
    let mut anchor = ev("ev:anchor", "candidate:a:001", V326EvidenceKind::OwnedAnchor);
    anchor.details = V326Details::Object(vec![(
        "signal".to_owned(),
        V326Details::Text("box into raw".to_owned()),
    )]);
    anchor.confidence = V326EvidenceConfidence::High;
    let evidence = vec![release, anchor];
    let mut graph = build_v3_2_6_lifecycle_graph(&c, &evidence);
    graph.incomplete_evidence = Vec::new();
    let record = derive_v3_2_6_lifecycle_features(&c, &graph, evidence);
    assert!(record.features.has_box_from_raw);
    assert!(record.features.has_box_into_raw);
    assert!(record.features.has_owned_anchor);
    assert!(record.features.has_arc_anchor);
    assert!(record.features.has_foreign_unregister);
    assert!(!record.features.needs_dynamic_witness);
}
