use bw_model::candidate::V32PatternFamily;
use bw_model::lifecycle_v326::{
    V326LifecycleGraphV3Record, V326ObjectChain, V326ObjectChainLayer, V326ObjectChainStatus,
    V326RankedCandidateRecord, V326RankedChainSummary, V326ScoreBreakdown, V326WitnessRoute,
};
use bw_model::text::sorted_unique_texts;
use bw_model::v326_chain_summary::summarize_v3_2_6_ranked_object_chains;

fn ranked(family: V32PatternFamily, missing: &[&str]) -> V326RankedCandidateRecord {
    V326RankedCandidateRecord {
        schema_version: "v3.2.6.ranked_candidate.1".to_owned(),
        run_id: "run:1".to_owned(),
        rank: 1,
        score: 4,
        score_breakdown: V326ScoreBreakdown::default(),
        candidate_id: "candidate:a".to_owned(),
        crate_id: "crate:a".to_owned(),
        pattern_family: family,
        risk_features: Vec::new(),
        protective_features: Vec::new(),
        feature_evidence_refs: Vec::new(),
        missing_evidence: missing.iter().map(|s| (*s).to_owned()).collect(),
        lifecycle_graph_path: "graphs/candidate_a.json".to_owned(),
        chain_summary: V326RankedChainSummary::default(),
        ranking_reason: "score=4".to_owned(),
        notes: Vec::new(),
    }
}

fn chain(
    id: &str,
    status: V326ObjectChainStatus,
    layers: &[V326ObjectChainLayer],
    facts: &[&str],
) -> V326ObjectChain {
    V326ObjectChain {
        chain_id: id.to_owned(),
        object_ids: vec!["callback:c".to_owned()],
        edge_ids: Vec::new(),
        fact_refs: facts.iter().map(|s| (*s).to_owned()).collect(),
        evidence_refs: Vec::new(),
        verified_layers: layers.to_vec(),
        missing_layers: Vec::new(),
        chain_status: status,
    }
}

fn graph(chains: Vec<V326ObjectChain>, reasons: &[&str]) -> V326LifecycleGraphV3Record {
    V326LifecycleGraphV3Record {
        schema_version: "v3.2.6.lifecycle_graph_v3.1".to_owned(),
        run_id: "run:1".to_owned(),
        candidate_id: "candidate:a".to_owned(),
        crate_id: "crate:a".to_owned(),
        pattern_family: V32PatternFamily::NativeLibraryBoundary,
        objects: Vec::new(),
        edges: Vec::new(),
        object_chains: chains,
        evidence_refs: Vec::new(),
        incomplete_reasons: reasons.iter().map(|s| (*s).to_owned()).collect(),
        notes: Vec::new(),
    }
}

#[test]
fn distinct_texts_come_out_sorted_once() {
    let v = vec!["b".to_owned(), "a".to_owned(), "b".to_owned(), "".to_owned()];
    assert_eq!(sorted_unique_texts(v), vec!["".to_owned(), "a".to_owned(), "b".to_owned()]);
}

#[test]
fn an_empty_graph_has_no_top_chain() {
    let s = summarize_v3_2_6_ranked_object_chains(
        &ranked(V32PatternFamily::NativeLibraryBoundary, &[" ", "b"]),
        &graph(Vec::new(), &["a", "b"]),
    );
    assert_eq!(s.top_chain_id, None);
    assert_eq!(s.verified_chain_count, 0);
    assert_eq!(s.chain_incomplete_reasons, vec!["a".to_owned(), "b".to_owned()]);
    assert_eq!(s.recommended_witness_route, V326WitnessRoute::ManualReviewOnly);
}

#[test]
fn chains_are_counted_and_the_most_complete_is_on_top() {
    let chains = vec![
        chain("chain:object_flow:1", V326ObjectChainStatus::PartialChain, &[V326ObjectChainLayer::IdentityTransport], &["f2", "f1"]),
        chain(
            "chain:release:2",
            V326ObjectChainStatus::VerifiedStaticChain,
            &[V326ObjectChainLayer::IdentityTransport, V326ObjectChainLayer::ReleaseOrdering, V326ObjectChainLayer::LifecycleOrdering],
            &["f1", "f3"],
        ),
        chain("chain:ambiguous:3", V326ObjectChainStatus::AmbiguousChain, &[], &[]),
    ];
    let s = summarize_v3_2_6_ranked_object_chains(
        &ranked(V32PatternFamily::CallbackLifecycleRelease, &[]),
        &graph(chains, &[]),
    );
    assert_eq!(s.top_chain_id.as_deref(), Some("chain:release:2"));
    assert_eq!(s.top_chain_status, Some(V326ObjectChainStatus::VerifiedStaticChain));
    assert_eq!(
        (s.verified_chain_count, s.partial_chain_count, s.ambiguous_chain_count, s.observation_only_chain_count),
        (1, 1, 1, 0)
    );
    assert_eq!(s.identity_transport_chain_count, 2);
    assert_eq!(s.release_ordering_chain_count, 1);
    assert_eq!(s.lifecycle_ordering_chain_count, 1);
    assert_eq!(s.complete_risk_chain_count, 0);
    assert_eq!(s.chain_fact_refs, vec!["f1".to_owned(), "f2".to_owned(), "f3".to_owned()]);
    assert_eq!(
        s.chain_incomplete_reasons,
        vec!["object_binding_ambiguous".to_owned(), "object_flow_counterpart_missing".to_owned()]
    );
    assert_eq!(s.recommended_witness_route, V326WitnessRoute::CallbackLifecycle);
}

#[test]
fn among_equal_chains_the_smaller_id_wins() {
    let chains = vec![
        chain("chain:b", V326ObjectChainStatus::ObservationOnly, &[], &[]),
        chain("chain:a", V326ObjectChainStatus::ObservationOnly, &[], &[]),
    ];
    let s = summarize_v3_2_6_ranked_object_chains(
        &ranked(V32PatternFamily::ReturnedBorrowView, &[]),
        &graph(chains, &[]),
    );
    assert_eq!(s.top_chain_id.as_deref(), Some("chain:a"));
    assert_eq!(s.chain_incomplete_reasons, vec!["object_binding_missing".to_owned()]);
    assert_eq!(s.recommended_witness_route, V326WitnessRoute::ReturnedViewMiri);
}

#[test]
fn the_status_counts_add_up_to_the_chains() {
    let chains = vec![
        chain("c1", V326ObjectChainStatus::VerifiedStaticChain, &[], &[]),
        chain("c2", V326ObjectChainStatus::PartialChain, &[], &[]),
        chain("c3", V326ObjectChainStatus::PartialChain, &[], &[]),
        chain("c4", V326ObjectChainStatus::ObservationOnly, &[], &[]),
    ];
    let s = summarize_v3_2_6_ranked_object_chains(&ranked(V32PatternFamily::NativeLibraryBoundary, &[]), &graph(chains, &[]));
    assert_eq!(
        s.verified_chain_count + s.partial_chain_count + s.ambiguous_chain_count + s.observation_only_chain_count,
        4
    );
}
