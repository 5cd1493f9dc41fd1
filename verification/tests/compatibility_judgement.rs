use bw_model::{
    hand_off_is_incompatible, judge, judge_hand_off, AllocationOwnership, EffectiveCaptureAdmission,
    EvidenceGrade, ForeignBehaviorFact, ForeignClear, ForeignHandOffKey, ForeignInvocation,
    ForeignPathCompatibility, ForeignRetention, LifetimeSubject, RegistrationGeneration,
    RegistrationGuard, RustContractFact, RustHandOffKey, StaticVerdict, WitnessObligation,
    WitnessStatus,
};

fn rust_fact(guard: RegistrationGuard) -> RustContractFact {
    RustContractFact {
        hand_off: RustHandOffKey {
            rust_artifact: "rust:abc".to_owned(),
            build_profile: "dev".to_owned(),
            safe_entry_instance: "Registry::register".to_owned(),
            rust_def_instance: "Registry::register::<F>".to_owned(),
            call_occurrence: "bb1[0]".to_owned(),
            foreign_symbol: "lib_register".to_owned(),
            callback_arg_index: 0,
            userdata_arg_index: Some(1),
            registration_key: None,
            registration_generation: RegistrationGeneration::UniqueStaticSite,
        },
        capture_admission: EffectiveCaptureAdmission::PermitsNonStaticCapture,
        guard,
        allocation: AllocationOwnership::ForeignOwnedUntilUnregister,
        evidence: Vec::new(),
    }
}

fn foreign_fact(clear: ForeignClear, paths: ForeignPathCompatibility, grade: EvidenceGrade) -> ForeignBehaviorFact {
    ForeignBehaviorFact {
        hand_off: ForeignHandOffKey {
            foreign_artifact: "foreign:def".to_owned(),
            build_profile: "dev".to_owned(),
            foreign_symbol: "lib_register".to_owned(),
            callback_arg_index: 0,
            userdata_arg_index: Some(1),
            registration_key: None,
        },
        retention: ForeignRetention::MayRetain,
        invocation: ForeignInvocation::MayInvokeAfterReturn,
        clear,
        path_compatibility: paths,
        invoke_evidence: Some(grade),
        evidence: Vec::new(),
    }
}

#[test]
fn a_retained_borrow_invoked_after_return_on_every_path_is_incompatible() {
    let rust = rust_fact(RegistrationGuard::NoGuard);
    let foreign = foreign_fact(
        ForeignClear::Unresolved,
        ForeignPathCompatibility::RetainOnEveryPath,
        EvidenceGrade::PathSupportedLateInvoke,
    );
    let verdicts = judge_hand_off(&rust, Some(&foreign));
    assert_eq!(verdicts.len(), 2);
    assert_eq!(verdicts[0].subject, LifetimeSubject::CapturedReferent);
    assert_eq!(verdicts[0].static_verdict, StaticVerdict::SupportedIncompatibility);
    assert_eq!(verdicts[0].evidence_grade, Some(EvidenceGrade::PathSupportedLateInvoke));
    assert_eq!(verdicts[0].witness_status, WitnessStatus::NotAttempted);
    assert_eq!(verdicts[1].subject, LifetimeSubject::CallbackAllocation);
    assert_eq!(verdicts[1].static_verdict, StaticVerdict::CompatibleWithinAnalyzedFragment);
    assert_eq!(verdicts[1].evidence_grade, None);
    assert!(hand_off_is_incompatible(&verdicts));
}

#[test]
fn a_same_slot_invoke_candidate_asks_for_a_late_invoke_witness() {
    let rust = rust_fact(RegistrationGuard::NoGuard);
    let foreign = foreign_fact(
        ForeignClear::Unresolved,
        ForeignPathCompatibility::RetainOnEveryPath,
        EvidenceGrade::SameSlotInvokeCandidate,
    );
    let v = judge(&rust, Some(&foreign), LifetimeSubject::CapturedReferent);
    assert_eq!(v.static_verdict, StaticVerdict::InsufficientEvidence);
    assert_eq!(v.witness_obligation, Some(WitnessObligation::EstablishLateInvoke));
}

#[test]
fn retention_on_some_paths_asks_for_a_joint_trace() {
    let rust = rust_fact(RegistrationGuard::NoGuard);
    let foreign = foreign_fact(
        ForeignClear::Unresolved,
        ForeignPathCompatibility::RetainOnSomePaths,
        EvidenceGrade::PathSupportedLateInvoke,
    );
    let v = judge(&rust, Some(&foreign), LifetimeSubject::CapturedReferent);
    assert_eq!(v.static_verdict, StaticVerdict::InsufficientEvidence);
    assert_eq!(v.witness_obligation, Some(WitnessObligation::EstablishJointTrace));
}

#[test]
fn a_guard_that_clears_the_slot_makes_the_referent_compatible_but_rust_alone_cannot_tell() {
    let rust = rust_fact(RegistrationGuard::TiesSlotToSubject);
    let foreign = foreign_fact(
        ForeignClear::ClearsOnAllPaths,
        ForeignPathCompatibility::RetainOnEveryPath,
        EvidenceGrade::PathSupportedLateInvoke,
    );
    let v = judge(&rust, Some(&foreign), LifetimeSubject::CapturedReferent);
    assert_eq!(v.static_verdict, StaticVerdict::CompatibleWithinAnalyzedFragment);
    let v = judge(&rust, None, LifetimeSubject::CapturedReferent);
    assert_eq!(v.static_verdict, StaticVerdict::InsufficientEvidence);
}

#[test]
fn a_defeated_guard_is_graded_as_such() {
    let rust = rust_fact(RegistrationGuard::OwnerDropUnregisters);
    let foreign = foreign_fact(
        ForeignClear::MayLeaveSlotPopulated,
        ForeignPathCompatibility::RetainOnEveryPath,
        EvidenceGrade::PathSupportedLateInvoke,
    );
    let v = judge(&rust, Some(&foreign), LifetimeSubject::CapturedReferent);
    assert_eq!(v.static_verdict, StaticVerdict::SupportedIncompatibility);
    assert_eq!(v.evidence_grade, Some(EvidenceGrade::GuardDefeated));
}

#[test]
fn a_foreign_fact_of_another_hand_off_is_ignored() {
    let rust = rust_fact(RegistrationGuard::NoGuard);
    let mut foreign = foreign_fact(
        ForeignClear::Unresolved,
        ForeignPathCompatibility::RetainOnEveryPath,
        EvidenceGrade::PathSupportedLateInvoke,
    );
    foreign.hand_off.foreign_symbol = "other_register".to_owned();
    let v = judge(&rust, Some(&foreign), LifetimeSubject::CapturedReferent);
    assert_eq!(v.static_verdict, StaticVerdict::InsufficientEvidence);
    assert!(v.assumptions.iter().any(|a| a == "foreign fact hand-off identity does not match"));
}

#[test]
fn a_hand_off_judges_each_lifetime_as_judging_it_alone() {
    let rust = rust_fact(RegistrationGuard::NoGuard);
    let foreign = foreign_fact(
        ForeignClear::Unresolved,
        ForeignPathCompatibility::RetainOnEveryPath,
        EvidenceGrade::PathSupportedLateInvoke,
    );
    for f in [Some(&foreign), None] {
        let verdicts = judge_hand_off(&rust, f);
        assert_eq!(verdicts.len(), 2);
        let referent = judge(&rust, f, LifetimeSubject::CapturedReferent);
        let allocation = judge(&rust, f, LifetimeSubject::CallbackAllocation);
        assert_eq!(format!("{:?}", verdicts[0]), format!("{:?}", referent));
        assert_eq!(format!("{:?}", verdicts[1]), format!("{:?}", allocation));
    }
}
