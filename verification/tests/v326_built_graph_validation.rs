use bw_model::candidate::{
    V32CandidateConfidence, V32CandidateRecord, V32PatternFamily, V32RecommendedNextStep,
};
use bw_model::error::Located;
use bw_model::lifecycle_v326::{V326EvidenceKind, V326LifecycleEvidenceRecord};
use bw_model::v326_graph_build::build_v3_2_6_lifecycle_graph;
use bw_model::v326_validate::validate_v3_2_6_lifecycle_graphs;

fn candidate(api_path: Option<&str>) -> V32CandidateRecord {
    V32CandidateRecord {
        schema_version: "v3.2.candidate.1".to_owned(),
        run_id: "run:1".to_owned(),
        candidate_id: "candidate:a:001".to_owned(),
        crate_id: "crate:a".to_owned(),
        boundary_id: "boundary:a:001".to_owned(),
        pattern_family: V32PatternFamily::RetainedBorrowedCallback,
        confidence: V32CandidateConfidence::NeedsDynamicValidation,
        evidence_refs: Vec::new(),
        api_path: api_path.map(|p| p.to_owned()),
        recommended_next_step: V32RecommendedNextStep::GenerateLifecycleSubgraph,
        notes: Vec::new(),
    }
}

fn ev(id: &str, kind: V326EvidenceKind) -> V326LifecycleEvidenceRecord {
    V326LifecycleEvidenceRecord::sample_for_tests(id, "crate:a", "candidate:a:001", kind)
}

fn accepted_alone(c: &V32CandidateRecord, evidence: &Vec<V326LifecycleEvidenceRecord>) -> bool {
    let graph = build_v3_2_6_lifecycle_graph(c, evidence);
    assert_eq!(graph.nodes[0].node_id, "candidate");
    assert_eq!(graph.nodes[1].node_id, "foreign_api");
    assert!(!graph.edges.is_empty());
    let located = Located { path: "graphs.jsonl".to_owned(), line: 1, value: graph };
    matches!(validate_v3_2_6_lifecycle_graphs(vec![located]), Ok(1))
}

#[test]
fn built_graph_with_every_evidence_kind_passes_validation() {
    let kinds = [
        V326EvidenceKind::ForeignRegister,
        V326EvidenceKind::BorrowEdge,
        V326EvidenceKind::RawPointerEscape,
        V326EvidenceKind::OwnedAnchor,
        V326EvidenceKind::DropGuard,
        V326EvidenceKind::ReleaseSite,
        V326EvidenceKind::ForeignUnregister,
        V326EvidenceKind::OpaqueHandleTransfer,
    ];
    let evidence: Vec<_> = kinds
        .iter()
        .enumerate()
        .map(|(i, k)| ev(&format!("ev:{i}"), *k))
        .collect();
    assert!(accepted_alone(&candidate(Some("ffi::register")), &evidence));
}

#[test]
fn built_graph_without_evidence_passes_validation() {
    assert!(accepted_alone(&candidate(None), &Vec::new()));
}

#[test]
fn built_graph_with_only_unordered_evidence_passes_validation() {
    let evidence = vec![ev("ev:hint", V326EvidenceKind::ForeignRetentionHint)];
    assert!(accepted_alone(&candidate(None), &evidence));
}
