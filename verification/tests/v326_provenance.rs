use sha2::{Digest, Sha256};

use bw_model::boundary_index::{V32BoundaryEvidenceKind, V32BoundaryEvidenceRef};
use bw_model::candidate::{
    V32CandidateConfidence, V32CandidateRecord, V32PatternFamily, V32RecommendedNextStep,
};
use bw_model::id::{BuildId, RecordId, SemanticSiteKey, SiteId};
use bw_model::lifecycle_v326::{V326LifecycleFactKind, V326SourceRef};
use bw_model::static_fact::{
    ObjectFlowFact, ObjectFlowKind, ObjectFlowObjectKind, ObjectSiteFact, StaticArtifactIdentity, StaticFact, StaticFactEnvelope, StaticSourceRef,
};
use bw_model::v326_provenance::{
    source_range_matches_candidate_span, static_fact_site_ids,
    verify_v3_2_6_lifecycle_fact_static_provenance,
};
use bw_model::v326_source_api::{
    normalize_static_path, source_api_alias, source_api_scope_from_path,
    source_api_symbol_from_segment, source_api_symbol_tails, text_eq_ignore_ascii_case,
};
use bw_model::v326_static_fields::lifecycle_fact_from_static_fact;

fn hex_sha256(text: &str) -> String {
    Sha256::digest(text.as_bytes())
        .iter()
        .map(|b| format!("{b:02x}"))
        .collect()
}

fn candidate(crate_id: &str, api_path: Option<&str>, span: bool) -> V32CandidateRecord {
    let evidence_refs = if span {
        vec![V32BoundaryEvidenceRef {
            kind: V32BoundaryEvidenceKind::SourceSpan,
            path: "crates\\a\\src\\lib.rs".to_owned(),
            line_start: Some(10),
            line_end: Some(12),
        }]
    } else {
        Vec::new()
    };
    V32CandidateRecord {
        schema_version: "v3.2.candidate.1".to_owned(),
        run_id: "run:1".to_owned(),
        candidate_id: "candidate:a:001".to_owned(),
        crate_id: crate_id.to_owned(),
        boundary_id: "boundary:a:001".to_owned(),
        pattern_family: V32PatternFamily::RetainedBorrowedCallback,
        confidence: V32CandidateConfidence::NeedsDynamicValidation,
        evidence_refs,
        api_path: api_path.map(str::to_owned),
        recommended_next_step: V32RecommendedNextStep::GenerateLifecycleSubgraph,
        notes: Vec::new(),
    }
}

fn owner_site(record_id: &str, line: u64) -> StaticFactEnvelope {
    StaticFactEnvelope {
        schema_version: "bw.static/0.2".to_owned(),
        record_id: RecordId(record_id.to_owned()),
        producer: "bw-static".to_owned(),
        build_id: BuildId("build:1".to_owned()),
        artifact: Some(StaticArtifactIdentity {
            crate_id: "crate:a".to_owned(),
            package_name: "a".to_owned(),
            package_version: "0.1.0".to_owned(),
            target: "lib".to_owned(),
        }),
        source_ref: Some(StaticSourceRef {
            path: "crates/a/src/lib.rs".to_owned(),
            line_start: line,
            line_end: line,
            symbol_path: Some("crate::Owner::make_owner<T>".to_owned()),
        }),
        payload: StaticFact::ObjectSite(ObjectSiteFact {
            site_id: SiteId(format!("site:{record_id}")),
            semantic_site_key: SemanticSiteKey("key:owner".to_owned()),
            object_type_name: "Owner".to_owned(),
        }),
    }
}

fn fact_for(c: &V32CandidateRecord, e: &StaticFactEnvelope, line: u64) -> bw_model::lifecycle_v326::V326LifecycleFactRecord {
    let source_ref = V326SourceRef {
        path: "crates/a/src/lib.rs".to_owned(),
        line_start: Some(line),
        line_end: Some(line),
        symbol_path: None,
        text_sha256: None,
    };
    lifecycle_fact_from_static_fact("run:1", c, e, source_ref, Vec::new()).expect("object sites are lifecycle facts")
}

#[test]
fn paths_are_normalized_and_scoped_from_their_src_directory() {
    assert_eq!(normalize_static_path("a\\b\\c.rs"), "a/b/c.rs");
    assert_eq!(source_api_scope_from_path("./crates/a/src/lib.rs").as_deref(), Some("src::lib"));
    assert_eq!(source_api_scope_from_path("src/a/b.rs.rs").as_deref(), Some("src::a::b"));
    assert_eq!(source_api_scope_from_path("./a//./b").as_deref(), Some("a::b"));
    assert_eq!(source_api_scope_from_path(".rs"), None);
}

#[test]
fn symbols_are_read_from_the_last_named_segment() {
    assert_eq!(source_api_symbol_from_segment(" make_owner<T> ").as_deref(), Some("make_owner"));
    assert_eq!(source_api_symbol_from_segment("9lives"), None);
    assert_eq!(source_api_symbol_tails("crate::Owner::make_owner<T>").as_deref(), Some("make_owner"));
    assert_eq!(source_api_symbol_tails("crate::run::{closure#0}").as_deref(), Some("run"));
    assert_eq!(source_api_symbol_tails(":: ::"), None);
}

#[test]
fn aliases_hash_the_scope_and_the_symbol() {
    assert_eq!(
        source_api_alias("src::lib", "make_owner"),
        format!("source_api::{}", hex_sha256("src::lib::make_owner"))
    );
    assert!(text_eq_ignore_ascii_case("Source_API::AbC", "source_api::abc"));
    assert!(!text_eq_ignore_ascii_case("abc", "abd"));
}

#[test]
fn source_spans_are_widened_by_three_lines() {
    assert!(source_range_matches_candidate_span(15, 15, 10, 12));
    assert!(!source_range_matches_candidate_span(16, 16, 10, 12));
    assert!(source_range_matches_candidate_span(1, 1, 3, 2));
    assert!(source_range_matches_candidate_span(u64::MAX, u64::MAX, u64::MAX - 1, u64::MAX));
}

#[test]
fn registration_sites_list_their_optional_sites_first() {
    let e = owner_site("rec:1", 11);
    assert_eq!(static_fact_site_ids(&e.payload), vec!["site:rec:1".to_owned()]);
}

#[test]
fn a_fact_anchored_by_the_candidate_span_is_verified() {
    let c = candidate("crate:a", None, true);
    let e = owner_site("rec:1", 11);
    let mut fact = fact_for(&c, &e, 11);
    assert_eq!(fact.fact_kind, V326LifecycleFactKind::OwnedMoveCapture);
    fact.provenance.static_anchor_record_ids = vec!["rec:1".to_owned()];
    let before = fact.clone();
    assert!(verify_v3_2_6_lifecycle_fact_static_provenance(&mut fact, &c, &[e]));
    assert!(fact.provenance.is_verified());
    assert_eq!(fact.fact_id, before.fact_id);
}

#[test]
fn a_fact_is_reached_from_its_anchor_through_a_shared_site() {
    let c = candidate("crate:a", None, true);
    let anchor = owner_site("rec:1", 11);
    let mut far = owner_site("rec:2", 40);
    if let StaticFact::ObjectSite(f) = &mut far.payload {
        f.site_id = SiteId("site:rec:1".to_owned());
    }
    let mut fact = fact_for(&c, &far, 40);
    fact.provenance.static_anchor_record_ids = vec!["rec:1".to_owned()];
    assert!(verify_v3_2_6_lifecycle_fact_static_provenance(&mut fact, &c, &[anchor, far]));
}

#[test]
fn a_fact_without_a_known_anchor_is_not_verified() {
    let c = candidate("crate:a", None, true);
    let e = owner_site("rec:1", 11);
    let mut fact = fact_for(&c, &e, 11);
    fact.provenance.static_anchor_record_ids = vec!["rec:missing".to_owned()];
    assert!(!verify_v3_2_6_lifecycle_fact_static_provenance(&mut fact, &c, &[e]));
    assert!(!fact.provenance.is_verified());
}

#[test]
fn a_fact_of_another_crate_is_not_verified() {
    let c = candidate("crate:a", None, true);
    let other = candidate("crate:b", None, true);
    let e = owner_site("rec:1", 11);
    let mut fact = fact_for(&other, &e, 11);
    fact.provenance.static_anchor_record_ids = vec!["rec:1".to_owned()];
    assert!(!verify_v3_2_6_lifecycle_fact_static_provenance(&mut fact, &c, &[e]));
}

#[test]
fn a_candidate_without_a_span_is_anchored_by_its_source_api_alias() {
    let alias = format!("source_api::{}", hex_sha256("src::lib::make_owner")).to_uppercase();
    let c = candidate("crate:a", Some(&format!("  {alias} ")), false);
    let e = owner_site("rec:1", 11);
    let mut fact = fact_for(&c, &e, 11);
    fact.provenance.static_anchor_record_ids = vec!["rec:1".to_owned()];
    assert!(!verify_v3_2_6_lifecycle_fact_static_provenance(&mut fact, &c, &[e.clone()]));
    let lower = format!("source_api::{}", hex_sha256("src::lib::make_owner"));
    let c = candidate("crate:a", Some(&lower), false);
    let mut fact = fact_for(&c, &e, 11);
    fact.provenance.static_anchor_record_ids = vec!["rec:1".to_owned()];
    assert!(verify_v3_2_6_lifecycle_fact_static_provenance(&mut fact, &c, &[e]));
}

#[test]
fn field_paths_become_sha256_bindings() {
    let c = candidate("crate:a", None, true);
    let mut e = owner_site("rec:flow", 11);
    e.payload = StaticFact::ObjectFlow(ObjectFlowFact {
        site_id: SiteId("s:flow".to_owned()),
        semantic_site_key: SemanticSiteKey("key:flow".to_owned()),
        from_site_id: SiteId("s:from".to_owned()),
        from_object_kind: ObjectFlowObjectKind::UserData,
        to_site_id: SiteId("s:to".to_owned()),
        to_object_kind: ObjectFlowObjectKind::Storage,
        flow_kind: ObjectFlowKind::FieldStore,
        api_id: "crate::Registry::store".to_owned(),
        field_path: Some("abc".to_owned()),
        container_type_name: None,
    });
    let fact = fact_for(&c, &e, 11);
    assert_eq!(fact.fact_kind, V326LifecycleFactKind::ObjectFlow);
    assert!(fact.object_ids.contains(
        &"object_flow_binding:field:ba7816bf8f01cfea414140de5dae2223b00361a396177a9cb410ff61f20015ad".to_owned()
    ));
    assert_eq!(fact.fact_id, "fact:candidate_a_001:rec_flow");
}
