use bw_model::boundary_index::V32BoundaryEvidenceRef;
use bw_model::candidate::{V32CandidateConfidence, V32CandidateRecord, V32PatternFamily, V32RecommendedNextStep};
use bw_model::id::{BuildId, RecordId, SemanticSiteKey, SiteId};
use bw_model::lifecycle_v326::{
    V326CoverageState, V326EvidenceConfidence, V326LifecycleContractRecord, V326LifecycleFactKind,
    V326LifecycleFactProvenance, V326LifecycleFactRecord, V326LifecycleObjectKind, V326SourceRef,
};
use bw_model::static_fact::{ObjectSiteFact, StaticArtifactIdentity, StaticFact, StaticFactEnvelope, StaticSourceRef};
use bw_model::v326_contract_scope::{
    is_exact_lifecycle_api_id, lifecycle_api_matches, lifecycle_contract_applies_to_candidate,
};
use bw_model::v326_release_pairs::{
    fact_user_data_object_ids, is_authoritative_object_binding_fact, object_kind_from_id,
    release_covers_same_lifecycle_object, release_path_proof_matches_register,
};

fn fact(id: &str, kind: V326LifecycleFactKind, object_ids: &[&str], verified: bool) -> V326LifecycleFactRecord {
    let mut provenance = V326LifecycleFactProvenance::source_observation();
    if verified {
        let envelope = StaticFactEnvelope {
            schema_version: "bw.static/0.2".to_owned(),
            record_id: RecordId("rec:1".to_owned()),
            producer: "bw-static".to_owned(),
            build_id: BuildId("build:1".to_owned()),
            artifact: Some(StaticArtifactIdentity {
                crate_id: "crate:a".to_owned(),
                package_name: "a".to_owned(),
                package_version: "0.1.0".to_owned(),
                target: "lib".to_owned(),
            }),
            source_ref: Some(StaticSourceRef {
                path: "src/lib.rs".to_owned(),
                line_start: 1,
                line_end: 1,
                symbol_path: None,
            }),
            payload: StaticFact::ObjectSite(ObjectSiteFact {
                site_id: SiteId("site:1".to_owned()),
                semantic_site_key: SemanticSiteKey("key:1".to_owned()),
                object_type_name: "Owner".to_owned(),
            }),
        };
        provenance = V326LifecycleFactProvenance::static_artifact(&envelope);
        provenance.set_static_artifact_verified(true);
    }
    V326LifecycleFactRecord {
        schema_version: "v3.2.6.lifecycle_fact.1".to_owned(),
        run_id: "run:1".to_owned(),
        candidate_id: "candidate:a".to_owned(),
        crate_id: "crate:a".to_owned(),
        fact_id: id.to_owned(),
        fact_kind: kind,
        source_ref: V326SourceRef {
            path: "src/lib.rs".to_owned(),
            line_start: Some(1),
            line_end: Some(1),
            symbol_path: None,
            text_sha256: None,
        },
        symbol_path: Some("lib::register_callback".to_owned()),
        confidence: V326EvidenceConfidence::High,
        coverage_state: V326CoverageState::Covered,
        provenance,
        object_ids: object_ids.iter().map(|s| (*s).to_owned()).collect(),
        evidence_refs: Vec::new(),
        notes: Vec::new(),
    }
}

#[test]
fn only_verified_high_confidence_bindings_are_authoritative() {
    assert!(is_authoritative_object_binding_fact(&fact("f", V326LifecycleFactKind::RegisterCall, &[], true)));
    assert!(!is_authoritative_object_binding_fact(&fact("f", V326LifecycleFactKind::RegisterCall, &[], false)));
    assert!(!is_authoritative_object_binding_fact(&fact("f", V326LifecycleFactKind::ObjectBindingGap, &[], true)));
}

#[test]
fn user_data_ids_are_found_in_any_case() {
    let f = fact("f", V326LifecycleFactKind::RegisterCall, &["User_Data:a", "callback:b", "userdata:c"], true);
    assert_eq!(fact_user_data_object_ids(&f), vec!["User_Data:a".to_owned(), "userdata:c".to_owned()]);
}

#[test]
fn a_proof_covers_the_registration_of_the_same_object_at_the_same_site() {
    let register = fact("reg", V326LifecycleFactKind::RegisterCall, &["static_site:s1", "user_data:u"], true);
    let proof = fact(
        "proof",
        V326LifecycleFactKind::ReleasePathProof,
        &["static_site:s1", "release_endpoint:r", "user_data:u"],
        true,
    );
    assert!(release_path_proof_matches_register(&proof, &register));
    assert!(release_covers_same_lifecycle_object(&[], &[register.clone(), proof.clone()]));
    let other_site = fact("reg2", V326LifecycleFactKind::RegisterCall, &["static_site:s2", "user_data:u"], true);
    assert!(!release_path_proof_matches_register(&proof, &other_site));
    let unverified = fact("proof2", V326LifecycleFactKind::ReleasePathProof, &["static_site:s1", "user_data:u"], false);
    assert!(!release_covers_same_lifecycle_object(&[], &[register, unverified]));
}

#[test]
fn object_kinds_follow_their_id_prefix() {
    assert_eq!(object_kind_from_id("Callback:x"), V326LifecycleObjectKind::Callback);
    assert_eq!(object_kind_from_id("owner:x"), V326LifecycleObjectKind::RustOwner);
    assert_eq!(object_kind_from_id("object_flow_binding_member:x"), V326LifecycleObjectKind::StaticSite);
    assert_eq!(object_kind_from_id("handle:x"), V326LifecycleObjectKind::OpaqueHandle);
    assert_eq!(object_kind_from_id("mystery"), V326LifecycleObjectKind::Unknown);
}

#[test]
fn exact_api_ids_are_paths_or_api_map_ids() {
    assert!(is_exact_lifecycle_api_id("  lib::register_callback "));
    assert!(is_exact_lifecycle_api_id("api:lib:register:callback"));
    assert!(is_exact_lifecycle_api_id("api:lib::register"));
    assert!(!is_exact_lifecycle_api_id("api:lib:register:"));
    assert!(!is_exact_lifecycle_api_id("api:lib:register"));
    assert!(!is_exact_lifecycle_api_id("lib::*"));
    assert!(!is_exact_lifecycle_api_id("lib:: register"));
    assert!(!is_exact_lifecycle_api_id("register_callback"));
    assert!(lifecycle_api_matches("Lib::Register_Callback", " lib::register_callback"));
    assert!(!lifecycle_api_matches("lib::register", "lib::register_callback"));
}

#[test]
fn a_contract_applies_through_the_candidate_api_or_an_authoritative_registration() {
    let mut contract = V326LifecycleContractRecord::sample_for_tests_retaining();
    contract.api_id = "lib::register_callback".to_owned();
    let mut candidate = V32CandidateRecord {
        schema_version: "v3.2.candidate.1".to_owned(),
        run_id: "run:1".to_owned(),
        candidate_id: "candidate:a".to_owned(),
        crate_id: "crate:a".to_owned(),
        boundary_id: "boundary:a".to_owned(),
        pattern_family: V32PatternFamily::RetainedBorrowedCallback,
        confidence: V32CandidateConfidence::NeedsDynamicValidation,
        evidence_refs: Vec::<V32BoundaryEvidenceRef>::new(),
        api_path: Some("LIB::REGISTER_CALLBACK".to_owned()),
        recommended_next_step: V32RecommendedNextStep::GenerateLifecycleSubgraph,
        notes: Vec::new(),
    };
    assert!(lifecycle_contract_applies_to_candidate(&candidate, &[], &contract));
    candidate.api_path = None;
    assert!(!lifecycle_contract_applies_to_candidate(&candidate, &[], &contract));
    let register = fact("reg", V326LifecycleFactKind::RegisterCall, &[], true);
    assert!(lifecycle_contract_applies_to_candidate(&candidate, &[register], &contract));
    let unverified = fact("reg", V326LifecycleFactKind::RegisterCall, &[], false);
    assert!(!lifecycle_contract_applies_to_candidate(&candidate, &[unverified], &contract));
}
