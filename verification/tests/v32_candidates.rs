use bw_model::boundary_index::{V32BoundaryEvidenceKind, V32BoundaryEvidenceRef, V32BoundaryIndexRecord, V32BoundaryKind};
use bw_model::candidate::{
    candidate_from_boundary, validate_v3_2_candidates, V32CandidateConfidence, V32PatternFamily,
    V32RecommendedNextStep,
};
use bw_model::error::Located;
use bw_model::lifecycle::{lifecycle_graph_from_candidate, ranking_reason, score_lifecycle_graph};

fn boundary(id: &str, kind: V32BoundaryKind, confidence: &str) -> V32BoundaryIndexRecord {
    V32BoundaryIndexRecord {
        schema_version: "v3.2.boundary_index.1".to_owned(),
        run_id: "run:1".to_owned(),
        crate_id: "crate:a".to_owned(),
        boundary_id: id.to_owned(),
        boundary_kind: kind,
        api_path: Some("a::register".to_owned()),
        evidence_refs: vec![V32BoundaryEvidenceRef {
            kind: V32BoundaryEvidenceKind::SourceSpan,
            path: "src/lib.rs".to_owned(),
            line_start: Some(1),
            line_end: Some(2),
        }],
        confidence: confidence.to_owned(),
        notes: Vec::new(),
    }
}

#[test]
fn a_callback_registration_becomes_a_retained_callback_candidate() {
    let c = candidate_from_boundary(&boundary("boundary:a:1", V32BoundaryKind::CallbackRegistration, "high"), "run:2")
        .expect("registrations are candidates");
    assert_eq!(c.candidate_id, "candidate:a:1");
    assert_eq!(c.run_id, "run:2");
    assert_eq!(c.pattern_family, V32PatternFamily::RetainedBorrowedCallback);
    assert_eq!(c.confidence, V32CandidateConfidence::NeedsDynamicValidation);
    assert_eq!(c.recommended_next_step, V32RecommendedNextStep::GenerateLifecycleSubgraph);
    assert_eq!(
        c.notes,
        vec![
            "candidate is not a vulnerability conclusion".to_owned(),
            "source_boundary_kind=callback_registration".to_owned()
        ]
    );
}

#[test]
fn low_confidence_and_negative_summaries() {
    let c = candidate_from_boundary(&boundary("b2", V32BoundaryKind::NativeLibrary, "low"), "run:1").unwrap();
    assert_eq!(c.candidate_id, "candidate:b2");
    assert_eq!(c.confidence, V32CandidateConfidence::LowPriority);
    assert!(candidate_from_boundary(&boundary("b3", V32BoundaryKind::NegativeSummary, "high"), "run:1").is_none());
}

#[test]
fn candidates_are_counted_by_confidence_and_ids_are_unique() {
    let a = candidate_from_boundary(&boundary("boundary:a:1", V32BoundaryKind::CallbackRegistration, "high"), "run:1").unwrap();
    let b = candidate_from_boundary(&boundary("boundary:a:2", V32BoundaryKind::NativeLibrary, "high"), "run:1").unwrap();
    let records = vec![
        Located { path: "c.jsonl".to_owned(), line: 1, value: a.clone() },
        Located { path: "c.jsonl".to_owned(), line: 2, value: b },
    ];
    let s = validate_v3_2_candidates(records).expect("valid");
    assert_eq!((s.record_count, s.needs_dynamic_validation_count, s.static_only_count, s.low_priority_count), (2, 1, 1, 0));
    let records = vec![
        Located { path: "c.jsonl".to_owned(), line: 1, value: a.clone() },
        Located { path: "c.jsonl".to_owned(), line: 2, value: a },
    ];
    let err = validate_v3_2_candidates(records).unwrap_err();
    assert_eq!(err.code(), "BW-CANDIDATE-ID-DUPLICATE");
    assert_eq!(err.line(), Some(2));
}

#[test]
fn a_retained_callback_graph_scores_its_template_risks() {
    let c = candidate_from_boundary(&boundary("boundary:a:1", V32BoundaryKind::CallbackRegistration, "high"), "run:1").unwrap();
    let g = lifecycle_graph_from_candidate(&c, "run:1");
    assert_eq!(g.nodes.len(), 4);
    assert_eq!(g.nodes[1].label, "a::register");
    assert_eq!(g.edges[0].evidence_ref, "src/lib.rs:1-2");
    assert_eq!(g.notes[2], "source_confidence=needs_dynamic_validation");
    let (score, breakdown) = score_lifecycle_graph(&g, c.confidence);
    assert_eq!(score, 10 + 10 + 10 + 10 + 5);
    assert_eq!(breakdown.confidence_bonus, 5);
    assert_eq!(
        ranking_reason(score, &g.risk_features, breakdown.confidence_bonus),
        "score=45; active_risk_features=foreign_retention_without_owned_anchor,missing_unregister_before_drop,cross_language_alias,callback_retained_across_drop; confidence_bonus=5"
    );
}

#[test]
fn every_candidate_graph_has_distinct_nodes_and_edges_between_them() {
    let families = [
        V32PatternFamily::RetainedBorrowedCallback,
        V32PatternFamily::CallbackLifecycleRelease,
        V32PatternFamily::ForeignRetainedPointer,
        V32PatternFamily::OpaqueHandleTransfer,
        V32PatternFamily::NativeLibraryBoundary,
        V32PatternFamily::ReturnedBorrowView,
        V32PatternFamily::ExternalBufferView,
    ];
    let base = candidate_from_boundary(&boundary("boundary:a:1", V32BoundaryKind::CallbackRegistration, "high"), "run:1").unwrap();
    for family in families {
        let mut c = base.clone();
        c.pattern_family = family;
        let g = lifecycle_graph_from_candidate(&c, "run:7");
        assert_eq!(g.run_id, "run:7");
        assert_eq!(g.candidate_id, c.candidate_id);
        assert_eq!(g.pattern_family, family);
        assert!(!g.nodes.is_empty());
        assert!(!g.edges.is_empty());
        for (i, a) in g.nodes.iter().enumerate() {
            for b in &g.nodes[i + 1..] {
                assert_ne!(a.node_id, b.node_id);
            }
        }
        for e in &g.edges {
            assert!(g.nodes.iter().any(|n| n.node_id == e.from));
            assert!(g.nodes.iter().any(|n| n.node_id == e.to));
        }
        if family == V32PatternFamily::RetainedBorrowedCallback {
            assert_eq!((g.nodes.len(), g.edges.len()), (4, 4));
            assert_eq!(score_lifecycle_graph(&g, V32CandidateConfidence::NeedsDynamicValidation).0, 45);
        }
    }
}
