use std::collections::BTreeSet;

use bw_model::{
    join_hand_off, AllocationOwnership, EffectiveCaptureAdmission, EvidenceGrade,
    ForeignBehaviorFact, ForeignClear, ForeignHandOffKey, ForeignInvocation,
    ForeignPathCompatibility, ForeignRetention, JoinOutcome, JoinRejection,
    RegistrationGeneration, RegistrationGuard, RustContractFact, RustHandOffKey, SlotId,
    StaticVerdict, WitnessObligation,
};

fn rust_key() -> RustHandOffKey {
    RustHandOffKey {
        rust_artifact: "rust:abc".to_owned(),
        build_profile: "x86_64-unknown-linux-gnu/dev".to_owned(),
        safe_entry_instance: "Registry::register_borrowed".to_owned(),
        rust_def_instance: "Registry::register_borrowed::<F>".to_owned(),
        call_occurrence: "bb2[0]".to_owned(),
        foreign_symbol: "fixture_register".to_owned(),
        callback_arg_index: 0,
        userdata_arg_index: Some(1),
        registration_key: None,
        registration_generation: RegistrationGeneration::UniqueStaticSite,
    }
}

fn foreign_key() -> ForeignHandOffKey {
    ForeignHandOffKey {
        foreign_artifact: "foreign:def".to_owned(),
        build_profile: "x86_64-unknown-linux-gnu/dev".to_owned(),
        foreign_symbol: "fixture_register".to_owned(),
        callback_arg_index: 0,
        userdata_arg_index: Some(1),
        registration_key: None,
    }
}

fn rust_fact() -> RustContractFact {
    RustContractFact {
        hand_off: rust_key(),
        capture_admission: EffectiveCaptureAdmission::PermitsNonStaticCapture,
        guard: RegistrationGuard::NoGuard,
        allocation: AllocationOwnership::ForeignOwnedUntilUnregister,
        evidence: Vec::new(),
    }
}

fn foreign_fact() -> ForeignBehaviorFact {
    ForeignBehaviorFact {
        hand_off: foreign_key(),
        retention: ForeignRetention::MayRetain,
        invocation: ForeignInvocation::MayInvokeAfterReturn,
        clear: ForeignClear::Unresolved,
        path_compatibility: ForeignPathCompatibility::RetainOnEveryPath,
        invoke_evidence: Some(EvidenceGrade::PathSupportedLateInvoke),
        evidence: Vec::new(),
    }
}

fn slots() -> BTreeSet<SlotId> {
    BTreeSet::from([SlotId::global("g_callback")])
}

fn rejections(outcome: &JoinOutcome) -> Vec<JoinRejection> {
    match outcome {
        JoinOutcome::Rejected { reasons, .. } => reasons.clone(),
        JoinOutcome::Joined(_) => Vec::new(),
    }
}

#[test]
fn matching_identities_join() {
    let outcome = join_hand_off(&rust_fact(), &foreign_fact(), &slots());
    let JoinOutcome::Joined(trace) = outcome else {
        panic!("expected a join");
    };
    assert_eq!(trace.hand_off.rust_artifact, "rust:abc");
    assert_eq!(trace.hand_off.foreign_artifact, "foreign:def");
    assert_eq!(trace.slots, slots());
    assert_eq!(trace.verdicts.len(), 2);
}

#[test]
fn a_build_mismatch_is_rejected() {
    let mut foreign = foreign_fact();
    foreign.hand_off.build_profile = "x86_64-unknown-linux-gnu/release".to_owned();
    let outcome = join_hand_off(&rust_fact(), &foreign, &slots());
    assert_eq!(rejections(&outcome), [JoinRejection::BuildProfileMismatch]);
}

#[test]
fn a_crossed_user_data_role_is_rejected_even_when_the_callback_matches() {
    let mut foreign = foreign_fact();
    foreign.hand_off.userdata_arg_index = Some(2);
    let outcome = join_hand_off(&rust_fact(), &foreign, &slots());
    assert_eq!(rejections(&outcome), [JoinRejection::UserDataRoleMismatch]);
}

#[test]
fn multiple_static_sites_still_join_but_record_the_assumption() {
    let mut rust = rust_fact();
    rust.hand_off.registration_generation = RegistrationGeneration::MultipleStaticSites;
    let JoinOutcome::Joined(trace) = join_hand_off(&rust, &foreign_fact(), &slots()) else {
        panic!("多个静态注册点不应阻止联结");
    };
    assert!(
        trace.verdicts.iter().any(|verdict| verdict
            .assumptions
            .iter()
            .any(|note| note.contains("more than one static site"))),
        "放行必须留下假设记录：{:?}",
        trace.verdicts
    );
}

#[test]
fn an_unresolved_generation_is_rejected() {
    let mut rust = rust_fact();
    rust.hand_off.registration_generation = RegistrationGeneration::Unresolved;
    let outcome = join_hand_off(&rust, &foreign_fact(), &slots());
    assert_eq!(rejections(&outcome), [JoinRejection::GenerationUnresolved]);
}

#[test]
fn every_mismatched_layer_is_listed_at_once() {
    let mut foreign = foreign_fact();
    foreign.hand_off.build_profile = "other".to_owned();
    foreign.hand_off.foreign_symbol = "other_register".to_owned();
    foreign.hand_off.callback_arg_index = 3;
    let outcome = join_hand_off(&rust_fact(), &foreign, &slots());
    assert_eq!(
        rejections(&outcome),
        [
            JoinRejection::BuildProfileMismatch,
            JoinRejection::ForeignSymbolMismatch,
            JoinRejection::CallbackRoleMismatch,
        ]
    );
}

#[test]
fn missing_slot_evidence_is_rejected_when_retention_is_unresolved() {
    let mut foreign = foreign_fact();
    foreign.retention = ForeignRetention::Unresolved;
    let outcome = join_hand_off(&rust_fact(), &foreign, &BTreeSet::new());
    assert_eq!(rejections(&outcome), [JoinRejection::MissingSlotEvidence]);
}

#[test]
fn a_proven_absence_of_retention_joins_without_slots() {
    let mut foreign = foreign_fact();
    foreign.retention = ForeignRetention::NoRetain;
    foreign.invocation = ForeignInvocation::SynchronousInvokeOnly;
    let outcome = join_hand_off(&rust_fact(), &foreign, &BTreeSet::new());
    let JoinOutcome::Joined(trace) = outcome else {
        panic!("expected a join, got {outcome:?}");
    };
    assert!(trace.slots.is_empty());
    assert!(trace.verdicts.iter().all(
        |verdict| verdict.static_verdict == StaticVerdict::CompatibleWithinAnalyzedFragment
    ));
}

#[test]
fn an_unprovable_path_condition_attaches_a_joint_trace_obligation() {
    let mut foreign = foreign_fact();
    foreign.path_compatibility = ForeignPathCompatibility::RetainOnSomePaths;
    let JoinOutcome::Joined(trace) = join_hand_off(&rust_fact(), &foreign, &slots()) else {
        panic!("identity layers all match, so it must join");
    };
    let referent = &trace.verdicts[0];
    assert_eq!(referent.static_verdict, StaticVerdict::InsufficientEvidence);
    assert_eq!(
        referent.witness_obligation,
        Some(WitnessObligation::EstablishJointTrace)
    );
}

#[test]
fn a_registration_key_mismatch_is_rejected() {
    let mut foreign = foreign_fact();
    foreign.hand_off.registration_key = Some("commit_hook".to_owned());
    let outcome = join_hand_off(&rust_fact(), &foreign, &slots());
    assert_eq!(rejections(&outcome), [JoinRejection::RegistrationKeyMismatch]);
}
