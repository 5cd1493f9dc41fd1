//! Versioned fact and evidence model for cross-language callback lifetime analysis.

pub mod compatibility;
pub mod error;
pub mod id;
pub mod joint;
pub mod public_tokens;
pub mod slot;
pub mod static_fact;
pub mod text;

pub use compatibility::{
    hand_off_is_incompatible, judge, judge_hand_off, CompatibilityVerdict, EvidenceGrade,
    ForeignBehaviorFact, ForeignClear, ForeignHandOffKey, ForeignInvocation,
    ForeignPathCompatibility, ForeignRetention, HandOffId, LifetimeSubject,
    RegistrationGeneration, RustContractFact, RustHandOffBuildContext, RustHandOffKey,
    StaticVerdict, WitnessObligation, WitnessStatus,
};
pub use error::{Located, ModelError};
pub use id::{BuildId, RecordId, SemanticSiteKey, SiteId};
pub use joint::{join_hand_off, JoinOutcome, JoinRejection, JointTrace};
pub use public_tokens::reject_public_forbidden_token;
pub use slot::{SlotBase, SlotId};
pub use static_fact::{
    AllocationOwnership, AllocationOwnershipFact, AtomicOperationKind, AtomicOrderingFact, AtomicOrderingKind, CallbackCaptureFact, CallbackLifetimeBoundFact, CallbackLifetimeBoundScope, CallbackReleaseUseOrderFact, CallbackReleaseUseOrdering, CallbackSiteFact, CallbackUserDataReconstructionFact, CallbackUserDataReconstructionKind, CaptureMode, DropKind, DropPreventionFact, DropPreventionKind, DropSiteFact, EffectiveCaptureAdmission, ExternalBufferBindingFact, ExternalCallRole, ExternalCallSiteFact, ForeignSymbolBindingFact, ObjectBindingGapFact, ObjectBindingGapKind, ObjectFlowFact, ObjectFlowKind, ObjectFlowObjectKind, ObjectSiteFact, PersistedReturnedBorrowFact, RawPointerTransferFact, RawPointerTransferKind, RegistrationGuard, RegistrationGuardFact, RegistrationRole, RegistrationSiteFact, ReleasePathProofFact, ReturnedBorrowInvalidationOrderFact, ReturnedBorrowInvalidationOrdering, ReturnedBorrowRelationFact, ReturnedBorrowRelationKind, STATIC_SCHEMA_V01, STATIC_SCHEMA_V02, SafeEntryLineage, SafeEntryLineageFact, StaticArtifactIdentity, StaticFact, StaticFactEnvelope, StaticSourceRef,
};
pub mod checks;
pub mod boundary_index;
pub mod candidate;
pub mod buildability;
pub mod corpus;
pub mod lifecycle;
pub mod failure_taxonomy;
pub mod scanner_freeze;
pub mod contract;
pub mod schema;
pub mod static_ranking_reveal;
pub mod lifecycle_v326;
pub mod v326_checks;
pub mod record_checks;
pub mod v326_validate;
pub mod v326_graph_check;
pub mod v326_records;
pub mod v326_plans;
pub mod v326_facts;
pub mod v326_scoring;
pub mod v326_rank;
pub mod v326_ranked_check;
pub mod v326_compare;
pub mod v326_static_fields;
pub mod v326_graph_build;
pub mod v326_graph_law;
pub mod v326_graph_v3_objects;
pub mod v326_chain_sets;
pub mod v326_graph_v3_chains;
pub mod v326_graph_v3_build;

pub mod runtime_event;
pub mod runtime_validate;
pub mod finding;
pub mod run;
pub mod jsonl;
pub mod v326_samples;
pub mod v326_chain_summary;
pub mod v326_source_api;
pub mod v326_provenance;
pub mod v326_fact_edges;
pub mod v326_release_pairs;
pub mod v326_contract_scope;
pub mod v326_chain_layers;
pub mod v326_fact_refs;
pub mod v326_object_flow;
pub mod v326_flow_components;
pub mod v326_chain_refs;
pub mod v326_details;
pub mod v326_features;
pub mod v326_derive;
