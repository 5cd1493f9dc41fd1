//! V3.2.6 evidence-driven lifecycle analysis: the records of lifecycle evidence, facts,
//! coverage, contracts, graphs, features, rankings, anonymous pairs and witness plans.
//!
//! The model only describes neutral lifecycle evidence, features and whether an anonymous pair
//! can be told apart; a candidate is never stated as a real defect.

use vstd::prelude::*;

use crate::candidate::V32PatternFamily;
use crate::checks::{check_required, require};
use crate::error::{is_error_at, Located, ModelError};
use crate::static_fact::{present, StaticFactEnvelope};
use crate::text::owned;
use crate::v326_checks::{check_public_list, check_v326_tokens, has_v326_token, public_list_clean};
use crate::v326_facts::{all_distinct_texts, distinct_texts};

verus! {

pub const V3_2_6_LIFECYCLE_EVIDENCE_SCHEMA_V1: &'static str = "v3.2.6.lifecycle_evidence.1";

pub const V3_2_6_LIFECYCLE_FACT_SCHEMA_V1: &'static str = "v3.2.6.lifecycle_fact.1";

pub const V3_2_6_LIFECYCLE_COVERAGE_SCHEMA_V1: &'static str = "v3.2.6.lifecycle_coverage.1";

pub const V3_2_6_LIFECYCLE_FEATURE_SCHEMA_V1: &'static str = "v3.2.6.lifecycle_feature.1";

pub const V3_2_6_LIFECYCLE_GRAPH_SCHEMA_V1: &'static str = "v3.2.6.lifecycle_graph_v2.1";

pub const V3_2_6_LIFECYCLE_GRAPH_V3_SCHEMA_V1: &'static str = "v3.2.6.lifecycle_graph_v3.1";

pub const V3_2_6_RANKED_CANDIDATE_SCHEMA_V1: &'static str = "v3.2.6.ranked_candidate_v2.1";

pub const V3_2_6_ANONYMOUS_PAIR_SCHEMA_V1: &'static str = "v3.2.6.anonymous_pair.1";

pub const V3_2_6_PAIR_DELTA_SCHEMA_V1: &'static str = "v3.2.6.pair_delta.1";

pub const V3_2_7_PAIR_DELTA_SCHEMA_V1: &'static str = "v3.2.7.pair_delta.1";

pub const V3_2_6_LIFECYCLE_CONTRACT_SCHEMA_V1: &'static str = "v3.2.6.lifecycle_contract.1";

/// The signal of lifetime-bound evidence whose return lifetime covers external buffer inputs.
pub const V3_2_6_EXTERNAL_BUFFER_RETURN_LIFETIME_SIGNAL: &'static str = "return lifetime covers external buffer inputs";

pub const V3_2_6_WITNESS_PLAN_SCHEMA_V1: &'static str = "v3.2.6.witness_plan.1";

/// The free-form details of a piece of lifecycle evidence, as far as the model reads them:
/// texts, and the items of arrays and the keys and values of objects. Numbers, booleans and
/// null are scalars.
#[derive(Debug)]
pub enum V326Details {
    Scalar,
    Text(String),
    Array(Vec<V326Details>),
    Object(Vec<(String, V326Details)>),
}

#[derive(Debug)]
pub struct V326LifecycleEvidenceRecord {
    pub schema_version: String,
    pub run_id: String,
    pub record_id: String,
    pub crate_id: String,
    pub candidate_id: String,
    pub evidence_kind: V326EvidenceKind,
    pub source_ref: V326SourceRef,
    pub confidence: V326EvidenceConfidence,
    pub details: V326Details,
    pub notes: Vec<String>,
}

#[derive(Clone, Debug)]
pub struct V326SourceRef {
    pub path: String,
    pub line_start: Option<u64>,
    pub line_end: Option<u64>,
    pub symbol_path: Option<String>,
    pub text_sha256: Option<String>,
}

#[derive(Clone, Copy, Debug, PartialEq, Eq, Structural)]
pub enum V326EvidenceKind {
    CallbackCandidate,
    ObjectCandidate,
    CaptureEdge,
    BorrowEdge,
    MoveEdge,
    RawPointerEscape,
    ForeignRegister,
    ForeignUnregister,
    ForeignReplace,
    ForeignRetentionHint,
    DropSite,
    DropGuard,
    ReleaseSite,
    OwnedAnchor,
    LifetimeBound,
    OpaqueHandleTransfer,
}

#[derive(Clone, Copy, Debug, PartialEq, Eq, Structural)]
pub enum V326EvidenceConfidence {
    High,
    Medium,
    Low,
}

#[derive(Clone, Copy, Debug, Default, PartialEq, Eq, Structural)]
pub struct V326LifecycleEvidenceSummary {
    pub record_count: u64,
    pub high_confidence_count: u64,
    pub medium_confidence_count: u64,
    pub low_confidence_count: u64,
}

#[derive(Clone, Debug)]
pub struct V326LifecycleGraphRecord {
    pub schema_version: String,
    pub run_id: String,
    pub candidate_id: String,
    pub crate_id: String,
    pub pattern_family: V32PatternFamily,
    pub nodes: Vec<V326LifecycleNode>,
    pub edges: Vec<V326LifecycleEdge>,
    pub evidence_refs: Vec<String>,
    pub incomplete_evidence: Vec<String>,
    pub notes: Vec<String>,
}

#[derive(Clone, Debug)]
pub struct V326LifecycleNode {
    pub node_id: String,
    pub node_kind: V326LifecycleNodeKind,
    pub label: String,
}

#[derive(Clone, Copy, Debug, PartialEq, Eq, Structural)]
pub enum V326LifecycleNodeKind {
    RustObject,
    Callback,
    Borrow,
    RawPointer,
    ForeignApi,
    ForeignOwner,
    DropGuard,
    ReleaseApi,
    OpaqueHandle,
}

#[derive(Clone, Debug)]
pub struct V326LifecycleEdge {
    pub from: String,
    pub to: String,
    pub edge_kind: V326LifecycleEdgeKind,
    pub evidence_refs: Vec<String>,
}

#[derive(Clone, Copy, Debug, PartialEq, Eq, Structural)]
pub enum V326LifecycleEdgeKind {
    Captures,
    Borrows,
    MovesInto,
    RawPointerEscape,
    RegisteredInto,
    ForeignRetains,
    ReleasedBy,
    GuardedByDrop,
    DropsBeforeRelease,
    UnknownOrder,
}

#[derive(Clone, Debug)]
pub struct V326LifecycleFeatureRecord {
    pub schema_version: String,
    pub run_id: String,
    pub candidate_id: String,
    pub crate_id: String,
    pub pattern_family: V32PatternFamily,
    pub features: V326FeatureSet,
    /// The evidence refs of each feature, by feature name in increasing order, each name once.
    pub feature_evidence: Vec<(String, Vec<String>)>,
    pub missing_evidence: Vec<String>,
    pub notes: Vec<String>,
}

#[derive(Clone, Copy, Debug, Default, PartialEq, Eq, Structural)]
pub struct V326FeatureSet {
    pub has_foreign_register: bool,
    pub foreign_may_retain_callback: bool,
    pub foreign_may_retain_user_data: bool,
    pub has_borrowed_capture: bool,
    pub has_raw_pointer_escape: bool,
    pub raw_parts_transfer_without_drop_prevention: bool,
    pub has_drop_prevention: bool,
    pub manual_drop_prevention_without_drop_guard: bool,
    pub callback_user_data_owner_reconstruction_without_leak_guard: bool,
    pub has_returned_borrow_relation: bool,
    pub has_unconstrained_return_lifetime: bool,
    pub has_persisted_returned_borrow: bool,
    pub returned_borrow_persistence_before_invalidation: bool,
    pub returned_borrow_persistence_after_invalidation: bool,
    pub has_external_buffer_binding: bool,
    pub has_external_buffer_lifetime_bound: bool,
    pub relaxed_atomic_load_in_iterator: bool,
    pub acquire_atomic_load_in_iterator: bool,
    pub has_verified_object_chain: bool,
    pub has_release_order_chain: bool,
    pub has_persisted_invalidation_use_chain: bool,
    pub has_callback_release_use_chain: bool,
    pub rust_object_may_drop_before_foreign_release: bool,
    pub missing_unregister_before_drop: bool,
    pub release_order_unknown: bool,
    pub opaque_handle_without_owner: bool,
    pub needs_dynamic_witness: bool,
    pub has_foreign_unregister: bool,
    pub registration_release_pair_found: bool,
    pub has_drop_guard: bool,
    pub has_owned_anchor: bool,
    pub has_static_bound: bool,
    pub has_box_into_raw: bool,
    pub has_box_from_raw: bool,
    pub has_arc_anchor: bool,
    pub release_covers_callback: bool,
}

#[derive(Clone, Copy, Debug, Default, PartialEq, Eq, Structural)]
pub struct V326LifecycleFeatureSummary {
    pub record_count: u64,
}

#[derive(Clone, Debug)]
pub struct V326RankedCandidateRecord {
    pub schema_version: String,
    pub run_id: String,
    pub rank: u32,
    pub score: u32,
    pub score_breakdown: V326ScoreBreakdown,
    pub candidate_id: String,
    pub crate_id: String,
    pub pattern_family: V32PatternFamily,
    pub risk_features: Vec<String>,
    pub protective_features: Vec<String>,
    /// The evidence refs of each feature, by feature name in increasing order, each name once.
    pub feature_evidence_refs: Vec<(String, Vec<String>)>,
    pub missing_evidence: Vec<String>,
    pub lifecycle_graph_path: String,
    pub chain_summary: V326RankedChainSummary,
    pub ranking_reason: String,
    pub notes: Vec<String>,
}

#[derive(Clone, Debug)]
pub struct V326RankedChainSummary {
    pub top_chain_id: Option<String>,
    pub top_chain_status: Option<V326ObjectChainStatus>,
    pub verified_chain_count: u32,
    pub partial_chain_count: u32,
    pub ambiguous_chain_count: u32,
    pub observation_only_chain_count: u32,
    pub identity_transport_chain_count: u32,
    pub release_ordering_chain_count: u32,
    pub use_ordering_chain_count: u32,
    pub lifecycle_ordering_chain_count: u32,
    pub complete_risk_chain_count: u32,
    pub chain_fact_refs: Vec<String>,
    pub chain_incomplete_reasons: Vec<String>,
    pub recommended_witness_route: V326WitnessRoute,
}

#[derive(Clone, Copy, Debug, PartialEq, Eq, Structural)]
pub enum V326WitnessRoute {
    CallbackLifecycle,
    ReturnedViewMiri,
    ExternalBufferLifetime,
    ManualReviewOnly,
}

#[derive(Clone, Copy, Debug, Default, PartialEq, Eq, Structural)]
pub struct V326ScoreBreakdown {
    pub has_foreign_register: i32,
    pub foreign_may_retain_callback: i32,
    pub foreign_may_retain_user_data: i32,
    pub has_borrowed_capture: i32,
    pub has_raw_pointer_escape: i32,
    pub raw_parts_transfer_without_drop_prevention: i32,
    pub has_drop_prevention: i32,
    pub manual_drop_prevention_without_drop_guard: i32,
    pub callback_user_data_owner_reconstruction_without_leak_guard: i32,
    pub has_returned_borrow_relation: i32,
    pub has_unconstrained_return_lifetime: i32,
    pub has_persisted_returned_borrow: i32,
    pub returned_borrow_persistence_before_invalidation: i32,
    pub returned_borrow_persistence_after_invalidation: i32,
    pub has_external_buffer_binding: i32,
    pub has_external_buffer_lifetime_bound: i32,
    pub relaxed_atomic_load_in_iterator: i32,
    pub acquire_atomic_load_in_iterator: i32,
    pub has_verified_object_chain: i32,
    pub has_release_order_chain: i32,
    pub has_persisted_invalidation_use_chain: i32,
    pub has_callback_release_use_chain: i32,
    pub rust_object_may_drop_before_foreign_release: i32,
    pub missing_unregister_before_drop: i32,
    pub release_order_unknown: i32,
    pub opaque_handle_without_owner: i32,
    pub needs_dynamic_witness: i32,
    pub has_owned_anchor: i32,
    pub has_drop_guard: i32,
    pub registration_release_pair_found: i32,
    pub has_static_bound: i32,
    pub has_arc_anchor: i32,
    pub release_covers_callback: i32,
}

#[derive(Clone, Copy, Debug, Default, PartialEq, Eq, Structural)]
pub struct V326RankedCandidateSummary {
    pub ranked_count: u64,
    pub max_score: u32,
}

#[derive(Clone, Debug)]
pub struct V326AnonymousPairRecord {
    pub schema_version: String,
    pub run_id: String,
    pub pair_id: String,
    pub left_crate_id: String,
    pub right_crate_id: String,
    pub relation_hint: String,
    pub notes: Vec<String>,
}

#[derive(Clone, Copy, Debug, PartialEq, Eq, Structural)]
pub enum V326Distinguishability {
    SeparableStatic,
    IndistinguishableStaticOnly,
    InsufficientEvidence,
    Unpaired,
}

#[derive(Clone, Debug)]
pub struct V326PairDeltaRecord {
    pub schema_version: String,
    pub run_id: String,
    pub pair_id: String,
    pub comparison_key: String,
    pub pair_manifest_run_id: String,
    pub left_crate_id: String,
    pub right_crate_id: String,
    pub left_top_features: Vec<String>,
    pub right_top_features: Vec<String>,
    pub semantic_delta: Vec<String>,
    pub distinguishability: V326Distinguishability,
    pub notes: Vec<String>,
}

#[derive(Clone, Debug)]
pub struct V326LifecycleFactRecord {
    pub schema_version: String,
    pub run_id: String,
    pub candidate_id: String,
    pub crate_id: String,
    pub fact_id: String,
    pub fact_kind: V326LifecycleFactKind,
    pub source_ref: V326SourceRef,
    pub symbol_path: Option<String>,
    pub confidence: V326EvidenceConfidence,
    pub coverage_state: V326CoverageState,
    /// Required for `v3.2.6.lifecycle_fact.1`: a missing provenance is refused rather than
    /// read as `legacy`, which would accept unauthenticated facts silently.
    pub provenance: V326LifecycleFactProvenance,
    pub object_ids: Vec<String>,
    pub evidence_refs: Vec<String>,
    pub notes: Vec<String>,
}

#[derive(Clone, Copy, Debug, PartialEq, Eq, Structural)]
pub enum V326LifecycleFactOrigin {
    Legacy,
    SourceObservation,
    StaticArtifact,
}

#[derive(Clone, Debug)]
pub struct V326LifecycleFactProvenance {
    pub origin: V326LifecycleFactOrigin,
    pub static_fact_record_id: Option<String>,
    pub static_build_id: Option<String>,
    pub static_producer: Option<String>,
    pub static_anchor_record_ids: Vec<String>,
    static_artifact_verified: bool,
}


#[derive(Clone, Copy, Debug, PartialEq, Eq, Structural)]
pub enum V326LifecycleFactKind {
    CallbackDefinition,
    BorrowedCapture,
    OwnedMoveCapture,
    DropImpl,
    DropSite,
    DropPrevention,
    CallbackUserDataReconstruction,
    RawPointerEscape,
    UnsafeCast,
    TraitImpl,
    RegisterCall,
    UnregisterCall,
    ReplaceCall,
    ReleaseCall,
    ReleasePathProof,
    CallbackReleaseUseOrder,
    ContractRetention,
    ReturnedBorrowRelation,
    PersistedReturnedBorrow,
    ReturnedBorrowInvalidationOrder,
    ExternalBufferBinding,
    AtomicOrdering,
    ObjectBindingGap,
    ObjectFlow,
}

#[derive(Clone, Copy, Debug, PartialEq, Eq, Structural)]
pub enum V326CoverageState {
    Covered,
    Partial,
    Unavailable,
}

#[derive(Clone, Debug)]
pub struct V326LifecycleCoverageRecord {
    pub schema_version: String,
    pub run_id: String,
    pub candidate_id: String,
    pub crate_id: String,
    pub covered_function_bodies: Vec<String>,
    pub covered_trait_impls: Vec<String>,
    pub covered_drop_impls: Vec<String>,
    pub unavailable_paths: Vec<V326CoverageGap>,
    pub fact_refs: Vec<String>,
    pub notes: Vec<String>,
}

#[derive(Clone, Debug)]
pub struct V326CoverageGap {
    pub path: String,
    pub reason: V326CoverageGapReason,
    pub notes: Vec<String>,
}

#[derive(Clone, Copy, Debug, PartialEq, Eq, Structural)]
pub enum V326CoverageGapReason {
    MacroExpansion,
    MissingDependency,
    CompileCfg,
    InsufficientSpan,
    SourceOnlyFallback,
    StaticFactsMissing,
    DropImplUnavailable,
}

#[derive(Clone, Debug)]
pub struct V326LifecycleContractRecord {
    pub schema_version: String,
    pub run_id: String,
    pub contract_id: String,
    pub component_id: String,
    pub api_id: String,
    pub retention: V326ContractRetention,
    pub replacement: V326ContractReplacement,
    pub release: V326ContractRelease,
    pub owner_semantics: V326ForeignOwnerSemantics,
    pub scope: String,
    pub source: String,
    pub evidence_refs: Vec<String>,
    pub notes: Vec<String>,
}

#[derive(Clone, Copy, Debug, PartialEq, Eq, Structural)]
pub enum V326ContractRetention {
    MayRetainCallback,
    DoesNotRetainCallback,
    Unknown,
}

#[derive(Clone, Copy, Debug, PartialEq, Eq, Structural)]
pub enum V326ContractReplacement {
    ReplacesPriorRegistration,
    DoesNotReplacePriorRegistration,
    Unknown,
}

#[derive(Clone, Copy, Debug, PartialEq, Eq, Structural)]
pub enum V326ContractRelease {
    CoversCallbackAndUserData,
    CallbackOnly,
    UserDataOnly,
    Unknown,
}

#[derive(Clone, Copy, Debug, PartialEq, Eq, Structural)]
pub enum V326ForeignOwnerSemantics {
    ForeignOwned,
    RustOwned,
    Shared,
    Unknown,
}

#[derive(Clone, Debug)]
pub struct V326LifecycleGraphV3Record {
    pub schema_version: String,
    pub run_id: String,
    pub candidate_id: String,
    pub crate_id: String,
    pub pattern_family: V32PatternFamily,
    pub objects: Vec<V326LifecycleObject>,
    pub edges: Vec<V326LifecycleGraphV3Edge>,
    pub object_chains: Vec<V326ObjectChain>,
    pub evidence_refs: Vec<String>,
    pub incomplete_reasons: Vec<String>,
    pub notes: Vec<String>,
}

#[derive(Clone, Debug)]
pub struct V326LifecycleObject {
    pub object_id: String,
    pub object_kind: V326LifecycleObjectKind,
    pub label: String,
    pub source_ref: Option<V326SourceRef>,
    pub fact_refs: Vec<String>,
}

#[derive(Clone, Copy, Debug, PartialEq, Eq, Structural)]
pub enum V326LifecycleObjectKind {
    Callback,
    UserData,
    RustOwner,
    ReturnedRef,
    Storage,
    StaticSite,
    ForeignOwner,
    ReleaseEndpoint,
    OpaqueHandle,
    Unknown,
}

#[derive(Clone, Debug)]
pub struct V326LifecycleGraphV3Edge {
    pub edge_id: String,
    pub from_object_id: String,
    pub to_object_id: String,
    pub relation: V326LifecycleRelation,
    pub ordering: V326LifecycleOrdering,
    pub evidence_refs: Vec<String>,
    pub fact_refs: Vec<String>,
}

#[derive(Clone, Debug)]
pub struct V326ObjectChain {
    pub chain_id: String,
    pub object_ids: Vec<String>,
    pub edge_ids: Vec<String>,
    pub fact_refs: Vec<String>,
    pub evidence_refs: Vec<String>,
    pub verified_layers: Vec<V326ObjectChainLayer>,
    pub missing_layers: Vec<V326ObjectChainLayer>,
    pub chain_status: V326ObjectChainStatus,
}

#[derive(Clone, Copy, Debug, PartialEq, Eq, Structural)]
pub enum V326ObjectChainStatus {
    VerifiedStaticChain,
    PartialChain,
    AmbiguousChain,
    ObservationOnly,
}

#[derive(Clone, Copy, Debug, PartialEq, Eq, Structural)]
pub enum V326ObjectChainLayer {
    IdentityTransport,
    ReleaseOrdering,
    UseOrdering,
    LifecycleOrdering,
    CompleteRiskChain,
}

#[derive(Clone, Copy, Debug, PartialEq, Eq, Structural)]
pub enum V326LifecycleRelation {
    Register,
    Retain,
    Replace,
    Release,
    Drop,
    Borrow,
    Persist,
    Invalidate,
    Use,
    Move,
    RawEscape,
    CallbackTrigger,
}

#[derive(Clone, Copy, Debug, PartialEq, Eq, Structural)]
pub enum V326LifecycleOrdering {
    Before,
    After,
    SameSite,
    Unknown,
}

#[derive(Clone, Debug)]
pub struct V326WitnessPlanRecord {
    pub schema_version: String,
    pub run_id: String,
    pub plan_id: String,
    pub candidate_id: String,
    pub lifecycle_graph_ref: String,
    pub actions: Vec<V326WitnessAction>,
    pub runtime_observers: Vec<String>,
    pub oracle_assertions: Vec<String>,
    pub replay_evidence_refs: Vec<String>,
    pub notes: Vec<String>,
}

#[derive(Clone, Debug)]
pub struct V326WitnessAction {
    pub action_id: String,
    pub action_kind: V326WitnessActionKind,
    pub graph_refs: Vec<String>,
    pub notes: Vec<String>,
}

#[derive(Clone, Copy, Debug, PartialEq, Eq, Structural)]
pub enum V326WitnessActionKind {
    SetupControlledFixture,
    RegisterCallback,
    ReplaceOrUnregister,
    DropRustOwner,
    PersistReturnedView,
    InvalidateOwner,
    UseReturnedView,
    RunMiriCheck,
    TriggerCallbackInLocalHarness,
    CollectOracleEvidence,
}

#[derive(Clone, Copy, Debug, Default, PartialEq, Eq, Structural)]
pub struct V326AnonymousPairSummary {
    pub record_count: u64,
}

#[derive(Clone, Copy, Debug, Default, PartialEq, Eq, Structural)]
pub struct V326PairDeltaSummary {
    pub record_count: u64,
    pub separable_static_count: u64,
    pub indistinguishable_static_only_count: u64,
    pub insufficient_evidence_count: u64,
    pub unpaired_count: u64,
}

#[derive(Clone, Copy, Debug, Default, PartialEq, Eq, Structural)]
pub struct V326LifecycleFactSummary {
    pub record_count: u64,
    pub covered_count: u64,
    pub partial_count: u64,
    pub unavailable_count: u64,
}

#[derive(Clone, Copy, Debug, Default, PartialEq, Eq, Structural)]
pub struct V326LifecycleCoverageSummary {
    pub record_count: u64,
    pub unavailable_path_count: u64,
}

#[derive(Clone, Copy, Debug, Default, PartialEq, Eq, Structural)]
pub struct V326LifecycleContractSummary {
    pub record_count: u64,
    pub retention_contract_count: u64,
}

#[derive(Clone, Copy, Debug, Default, PartialEq, Eq, Structural)]
pub struct V326LifecycleGraphV3Summary {
    pub graph_count: u64,
    pub incomplete_graph_count: u64,
}

#[derive(Clone, Copy, Debug, Default, PartialEq, Eq, Structural)]
pub struct V326WitnessPlanSummary {
    pub record_count: u64,
}

} // verus!

verus! {

/// The number of lifecycle features.
pub const FEATURE_COUNT: usize = 36;

/// The names of the lifecycle features, in declaration order.
pub open spec fn feature_names() -> Seq<Seq<char>> {
    seq![

        "has_foreign_register"@,
        "foreign_may_retain_callback"@,
        "foreign_may_retain_user_data"@,
        "has_borrowed_capture"@,
        "has_raw_pointer_escape"@,
        "raw_parts_transfer_without_drop_prevention"@,
        "has_drop_prevention"@,
        "manual_drop_prevention_without_drop_guard"@,
        "callback_user_data_owner_reconstruction_without_leak_guard"@,
        "has_returned_borrow_relation"@,
        "has_unconstrained_return_lifetime"@,
        "has_persisted_returned_borrow"@,
        "returned_borrow_persistence_before_invalidation"@,
        "returned_borrow_persistence_after_invalidation"@,
        "has_external_buffer_binding"@,
        "has_external_buffer_lifetime_bound"@,
        "relaxed_atomic_load_in_iterator"@,
        "acquire_atomic_load_in_iterator"@,
        "has_verified_object_chain"@,
        "has_release_order_chain"@,
        "has_persisted_invalidation_use_chain"@,
        "has_callback_release_use_chain"@,
        "rust_object_may_drop_before_foreign_release"@,
        "missing_unregister_before_drop"@,
        "release_order_unknown"@,
        "opaque_handle_without_owner"@,
        "needs_dynamic_witness"@,
        "has_foreign_unregister"@,
        "registration_release_pair_found"@,
        "has_drop_guard"@,
        "has_owned_anchor"@,
        "has_static_bound"@,
        "has_box_into_raw"@,
        "has_box_from_raw"@,
        "has_arc_anchor"@,
        "release_covers_callback"@,
    ]
}

/// The values of the lifecycle features, in declaration order.
pub open spec fn feature_values(f: V326FeatureSet) -> Seq<bool> {
    seq![
        f.has_foreign_register,
        f.foreign_may_retain_callback,
        f.foreign_may_retain_user_data,
        f.has_borrowed_capture,
        f.has_raw_pointer_escape,
        f.raw_parts_transfer_without_drop_prevention,
        f.has_drop_prevention,
        f.manual_drop_prevention_without_drop_guard,
        f.callback_user_data_owner_reconstruction_without_leak_guard,
        f.has_returned_borrow_relation,
        f.has_unconstrained_return_lifetime,
        f.has_persisted_returned_borrow,
        f.returned_borrow_persistence_before_invalidation,
        f.returned_borrow_persistence_after_invalidation,
        f.has_external_buffer_binding,
        f.has_external_buffer_lifetime_bound,
        f.relaxed_atomic_load_in_iterator,
        f.acquire_atomic_load_in_iterator,
        f.has_verified_object_chain,
        f.has_release_order_chain,
        f.has_persisted_invalidation_use_chain,
        f.has_callback_release_use_chain,
        f.rust_object_may_drop_before_foreign_release,
        f.missing_unregister_before_drop,
        f.release_order_unknown,
        f.opaque_handle_without_owner,
        f.needs_dynamic_witness,
        f.has_foreign_unregister,
        f.registration_release_pair_found,
        f.has_drop_guard,
        f.has_owned_anchor,
        f.has_static_bound,
        f.has_box_into_raw,
        f.has_box_from_raw,
        f.has_arc_anchor,
        f.release_covers_callback,
    ]
}

/// The names of the active features among the first `n`, in declaration order.
pub open spec fn active_names_upto(f: V326FeatureSet, n: int) -> Seq<Seq<char>>
    decreases n,
{
    if n <= 0 {
        Seq::empty()
    } else if feature_values(f)[n - 1] {
        active_names_upto(f, n - 1).push(feature_names()[n - 1])
    } else {
        active_names_upto(f, n - 1)
    }
}

impl V326FeatureSet {
    /// The name of the feature at position `i`, and whether it is active.
    pub(crate) fn flag_at(&self, i: usize) -> (r: (&'static str, bool))
        requires
            i < FEATURE_COUNT,
        ensures
            r.0@ == feature_names()[i as int],
            r.1 == feature_values(*self)[i as int],
    {
        match i {
            0 => ("has_foreign_register", self.has_foreign_register),
            1 => ("foreign_may_retain_callback", self.foreign_may_retain_callback),
            2 => ("foreign_may_retain_user_data", self.foreign_may_retain_user_data),
            3 => ("has_borrowed_capture", self.has_borrowed_capture),
            4 => ("has_raw_pointer_escape", self.has_raw_pointer_escape),
            5 => ("raw_parts_transfer_without_drop_prevention", self.raw_parts_transfer_without_drop_prevention),
            6 => ("has_drop_prevention", self.has_drop_prevention),
            7 => ("manual_drop_prevention_without_drop_guard", self.manual_drop_prevention_without_drop_guard),
            8 => ("callback_user_data_owner_reconstruction_without_leak_guard", self.callback_user_data_owner_reconstruction_without_leak_guard),
            9 => ("has_returned_borrow_relation", self.has_returned_borrow_relation),
            10 => ("has_unconstrained_return_lifetime", self.has_unconstrained_return_lifetime),
            11 => ("has_persisted_returned_borrow", self.has_persisted_returned_borrow),
            12 => ("returned_borrow_persistence_before_invalidation", self.returned_borrow_persistence_before_invalidation),
            13 => ("returned_borrow_persistence_after_invalidation", self.returned_borrow_persistence_after_invalidation),
            14 => ("has_external_buffer_binding", self.has_external_buffer_binding),
            15 => ("has_external_buffer_lifetime_bound", self.has_external_buffer_lifetime_bound),
            16 => ("relaxed_atomic_load_in_iterator", self.relaxed_atomic_load_in_iterator),
            17 => ("acquire_atomic_load_in_iterator", self.acquire_atomic_load_in_iterator),
            18 => ("has_verified_object_chain", self.has_verified_object_chain),
            19 => ("has_release_order_chain", self.has_release_order_chain),
            20 => ("has_persisted_invalidation_use_chain", self.has_persisted_invalidation_use_chain),
            21 => ("has_callback_release_use_chain", self.has_callback_release_use_chain),
            22 => ("rust_object_may_drop_before_foreign_release", self.rust_object_may_drop_before_foreign_release),
            23 => ("missing_unregister_before_drop", self.missing_unregister_before_drop),
            24 => ("release_order_unknown", self.release_order_unknown),
            25 => ("opaque_handle_without_owner", self.opaque_handle_without_owner),
            26 => ("needs_dynamic_witness", self.needs_dynamic_witness),
            27 => ("has_foreign_unregister", self.has_foreign_unregister),
            28 => ("registration_release_pair_found", self.registration_release_pair_found),
            29 => ("has_drop_guard", self.has_drop_guard),
            30 => ("has_owned_anchor", self.has_owned_anchor),
            31 => ("has_static_bound", self.has_static_bound),
            32 => ("has_box_into_raw", self.has_box_into_raw),
            33 => ("has_box_from_raw", self.has_box_from_raw),
            34 => ("has_arc_anchor", self.has_arc_anchor),
            _ => ("release_covers_callback", self.release_covers_callback),
        }
    }

    /// Each feature's name and whether it is active, in declaration order.
    pub fn active_flags(&self) -> (r: Vec<(&'static str, bool)>)
        ensures
            r@.len() == FEATURE_COUNT,
            forall|i: int| 0 <= i < FEATURE_COUNT ==> (#[trigger] r@[i]).0@ == feature_names()[i] && r@[i].1
                == feature_values(*self)[i],
    {
        let mut r: Vec<(&'static str, bool)> = Vec::new();
        let mut i: usize = 0;
        while i < FEATURE_COUNT
            invariant
                0 <= i <= FEATURE_COUNT,
                r@.len() == i,
                forall|k: int| 0 <= k < i ==> (#[trigger] r@[k]).0@ == feature_names()[k] && r@[k].1
                    == feature_values(*self)[k],
            decreases FEATURE_COUNT - i,
        {
            r.push(self.flag_at(i));
            i = i + 1;
        }
        r
    }

    /// Whether any lifecycle feature is active.
    pub fn has_any_active(&self) -> (b: bool)
        ensures
            b == exists|i: int| 0 <= i < FEATURE_COUNT && #[trigger] feature_values(*self)[i],
    {
        let flags = self.active_flags();
        let mut i: usize = 0;
        while i < flags.len()
            invariant
                flags@.len() == FEATURE_COUNT,
                forall|k: int| 0 <= k < FEATURE_COUNT ==> (#[trigger] flags@[k]).1 == feature_values(*self)[k],
                0 <= i <= FEATURE_COUNT,
                forall|k: int| 0 <= k < i ==> !#[trigger] feature_values(*self)[k],
            decreases flags.len() - i,
        {
            if flags[i].1 {
                assert(feature_values(*self)[i as int]);
                return true;
            }
            i = i + 1;
        }
        false
    }
}


/// The feature set with no feature active, as the default set is.
pub open spec fn no_features() -> V326FeatureSet {
    V326FeatureSet {
        has_foreign_register: false,
        foreign_may_retain_callback: false,
        foreign_may_retain_user_data: false,
        has_borrowed_capture: false,
        has_raw_pointer_escape: false,
        raw_parts_transfer_without_drop_prevention: false,
        has_drop_prevention: false,
        manual_drop_prevention_without_drop_guard: false,
        callback_user_data_owner_reconstruction_without_leak_guard: false,
        has_returned_borrow_relation: false,
        has_unconstrained_return_lifetime: false,
        has_persisted_returned_borrow: false,
        returned_borrow_persistence_before_invalidation: false,
        returned_borrow_persistence_after_invalidation: false,
        has_external_buffer_binding: false,
        has_external_buffer_lifetime_bound: false,
        relaxed_atomic_load_in_iterator: false,
        acquire_atomic_load_in_iterator: false,
        has_verified_object_chain: false,
        has_release_order_chain: false,
        has_persisted_invalidation_use_chain: false,
        has_callback_release_use_chain: false,
        rust_object_may_drop_before_foreign_release: false,
        missing_unregister_before_drop: false,
        release_order_unknown: false,
        opaque_handle_without_owner: false,
        needs_dynamic_witness: false,
        has_foreign_unregister: false,
        registration_release_pair_found: false,
        has_drop_guard: false,
        has_owned_anchor: false,
        has_static_bound: false,
        has_box_into_raw: false,
        has_box_from_raw: false,
        has_arc_anchor: false,
        release_covers_callback: false,
    }
}

proof fn lemma_names_upto_nonempty(f: V326FeatureSet, n: int)
    requires
        0 <= n <= FEATURE_COUNT,
    ensures
        active_names_upto(f, n).len() > 0 <==> exists|i: int| 0 <= i < n && #[trigger] feature_values(f)[i],
    decreases n,
{
    if n > 0 {
        lemma_names_upto_nonempty(f, n - 1);
        if feature_values(f)[n - 1] {
            assert(active_names_upto(f, n) == active_names_upto(f, n - 1).push(feature_names()[n - 1]));
        }
        if exists|i: int| 0 <= i < n && #[trigger] feature_values(f)[i] {
            let i = choose|i: int| 0 <= i < n && #[trigger] feature_values(f)[i];
            if i < n - 1 {
                assert(exists|j: int| 0 <= j < n - 1 && #[trigger] feature_values(f)[j]);
            }
        }
    }
}

/// A feature set has an active feature exactly when its list of active feature names is not
/// empty, and exactly when it is not the set with no feature active.
pub proof fn law_any_active_iff_names_iff_not_empty(f: V326FeatureSet)
    ensures
        (exists|i: int| 0 <= i < FEATURE_COUNT && #[trigger] feature_values(f)[i]) <==> active_names_upto(
            f,
            FEATURE_COUNT as int,
        ).len() > 0,
        (exists|i: int| 0 <= i < FEATURE_COUNT && #[trigger] feature_values(f)[i]) <==> f != no_features(),
{
    lemma_names_upto_nonempty(f, FEATURE_COUNT as int);
    if f == no_features() {
        assert forall|i: int| 0 <= i < FEATURE_COUNT implies !#[trigger] feature_values(f)[i] by {
            assert(feature_values(f) =~= Seq::new(36, |k: int| false));
        }
    }
    if !(exists|i: int| 0 <= i < FEATURE_COUNT && #[trigger] feature_values(f)[i]) {
        assert(!feature_values(f)[0]);
        assert(!feature_values(f)[1]);
        assert(!feature_values(f)[2]);
        assert(!feature_values(f)[3]);
        assert(!feature_values(f)[4]);
        assert(!feature_values(f)[5]);
        assert(!feature_values(f)[6]);
        assert(!feature_values(f)[7]);
        assert(!feature_values(f)[8]);
        assert(!feature_values(f)[9]);
        assert(!feature_values(f)[10]);
        assert(!feature_values(f)[11]);
        assert(!feature_values(f)[12]);
        assert(!feature_values(f)[13]);
        assert(!feature_values(f)[14]);
        assert(!feature_values(f)[15]);
        assert(!feature_values(f)[16]);
        assert(!feature_values(f)[17]);
        assert(!feature_values(f)[18]);
        assert(!feature_values(f)[19]);
        assert(!feature_values(f)[20]);
        assert(!feature_values(f)[21]);
        assert(!feature_values(f)[22]);
        assert(!feature_values(f)[23]);
        assert(!feature_values(f)[24]);
        assert(!feature_values(f)[25]);
        assert(!feature_values(f)[26]);
        assert(!feature_values(f)[27]);
        assert(!feature_values(f)[28]);
        assert(!feature_values(f)[29]);
        assert(!feature_values(f)[30]);
        assert(!feature_values(f)[31]);
        assert(!feature_values(f)[32]);
        assert(!feature_values(f)[33]);
        assert(!feature_values(f)[34]);
        assert(!feature_values(f)[35]);
    }
}



/// The names of the active lifecycle features, in declaration order.
pub fn active_feature_names(features: &V326FeatureSet) -> (r: Vec<String>)
    ensures
        r@.map_values(|s: String| s@) == active_names_upto(*features, FEATURE_COUNT as int),
{
    let flags = features.active_flags();
    let mut r: Vec<String> = Vec::new();
    let mut i: usize = 0;
    while i < flags.len()
        invariant
            flags@.len() == FEATURE_COUNT,
            forall|k: int| 0 <= k < FEATURE_COUNT ==> (#[trigger] flags@[k]).0@ == feature_names()[k] && flags@[k].1
                == feature_values(*features)[k],
            0 <= i <= FEATURE_COUNT,
            r@.map_values(|s: String| s@) == active_names_upto(*features, i as int),
        decreases flags.len() - i,
    {
        if flags[i].1 {
            let ghost old_r = r@.map_values(|s: String| s@);
            r.push(owned(flags[i].0));
            assert(r@.map_values(|s: String| s@) =~= old_r.push(feature_names()[i as int]));
        }
        i = i + 1;
    }
    r
}

} // verus!

verus! {

impl V326LifecycleFactProvenance {
    /// A provenance observed in the source, with no static-artifact fields.
    pub fn source_observation() -> (p: Self)
        ensures
            p.origin_view() == V326LifecycleFactOrigin::SourceObservation,
            p.error_code() is None,
            !p.is_verified_static_artifact(),
    {
        V326LifecycleFactProvenance {
            origin: V326LifecycleFactOrigin::SourceObservation,
            static_fact_record_id: None,
            static_build_id: None,
            static_producer: None,
            static_anchor_record_ids: Vec::new(),
            static_artifact_verified: false,
        }
    }

    /// A provenance naming the static fact, its build and its producer, with no anchors yet and
    /// not verified.
    pub fn static_artifact(envelope: &StaticFactEnvelope) -> (p: Self)
        ensures
            p.origin_view() == V326LifecycleFactOrigin::StaticArtifact,
            p.record_id_view() == Some(envelope.record_id.0),
            p.build_id_view() == Some(envelope.build_id.0),
            p.producer_view() == Some(envelope.producer),
            p.anchors_view().len() == 0,
            !p.is_verified_static_artifact(),
    {
        V326LifecycleFactProvenance {
            origin: V326LifecycleFactOrigin::StaticArtifact,
            static_fact_record_id: Some(envelope.record_id.0.clone()),
            static_build_id: Some(envelope.build_id.0.clone()),
            static_producer: Some(envelope.producer.clone()),
            static_anchor_record_ids: Vec::new(),
            static_artifact_verified: false,
        }
    }

    /// Whether the provenance is a static artifact that was checked against the static facts.
    pub fn is_verified(&self) -> (b: bool)
        ensures
            b == self.is_verified_static_artifact(),
    {
        match self.origin {
            V326LifecycleFactOrigin::StaticArtifact => self.static_artifact_verified,
            _ => false,
        }
    }

    /// The record ids of the candidate anchors.
    pub fn anchor_record_ids(&self) -> (r: &Vec<String>)
        ensures
            r@ == self.anchors_view(),
    {
        &self.static_anchor_record_ids
    }

    /// The origin of the provenance.
    pub fn origin(&self) -> (r: V326LifecycleFactOrigin)
        ensures
            r == self.origin_view(),
    {
        self.origin
    }

    /// The record id, build id and producer of the static fact the provenance names.
    pub fn static_names(&self) -> (r: (&Option<String>, &Option<String>, &Option<String>))
        ensures
            r.0 == self.record_id_view(),
            r.1 == self.build_id_view(),
            r.2 == self.producer_view(),
    {
        (&self.static_fact_record_id, &self.static_build_id, &self.static_producer)
    }

    /// The provenance with its verification result set to `verified`.
    pub closed spec fn with_verified(self, verified: bool) -> Self {
        V326LifecycleFactProvenance { static_artifact_verified: verified, ..self }
    }

    /// Setting the verification result keeps every public field of the provenance, and the
    /// provenance is then a verified static artifact exactly when the result is true and its
    /// origin is a static artifact.
    pub proof fn lemma_with_verified(self, verified: bool)
        ensures
            self.with_verified(verified).origin_view() == self.origin_view(),
            self.with_verified(verified).record_id_view() == self.record_id_view(),
            self.with_verified(verified).build_id_view() == self.build_id_view(),
            self.with_verified(verified).producer_view() == self.producer_view(),
            self.with_verified(verified).anchors_view() == self.anchors_view(),
            self.with_verified(verified).error_code() == self.error_code(),
            self.with_verified(verified).is_verified_static_artifact() == (verified && self.origin_view()
                == V326LifecycleFactOrigin::StaticArtifact),
    {
    }

    /// Records whether the static artifact the provenance names was verified.
    pub fn set_static_artifact_verified(&mut self, verified: bool)
        ensures
            *final(self) == old(self).with_verified(verified),
            final(self).origin_view() == old(self).origin_view(),
            final(self).record_id_view() == old(self).record_id_view(),
            final(self).build_id_view() == old(self).build_id_view(),
            final(self).producer_view() == old(self).producer_view(),
            final(self).anchors_view() == old(self).anchors_view(),
            final(self).error_code() == old(self).error_code(),
            final(self).is_verified_static_artifact() == (verified && old(self).origin_view()
                == V326LifecycleFactOrigin::StaticArtifact),
    {
        self.static_artifact_verified = verified;
    }

    /// The origin of the provenance.
    pub closed spec fn origin_view(self) -> V326LifecycleFactOrigin {
        self.origin
    }

    /// The record id of the static fact the provenance names.
    pub closed spec fn record_id_view(self) -> Option<String> {
        self.static_fact_record_id
    }

    /// The build id of the static fact the provenance names.
    pub closed spec fn build_id_view(self) -> Option<String> {
        self.static_build_id
    }

    /// The producer of the static fact the provenance names.
    pub closed spec fn producer_view(self) -> Option<String> {
        self.static_producer
    }

    /// The record ids of the candidate anchors.
    pub closed spec fn anchors_view(self) -> Seq<String> {
        self.static_anchor_record_ids@
    }

    /// A static-artifact provenance that was checked against the static facts.
    pub closed spec fn is_verified_static_artifact(self) -> bool {
        self.origin == V326LifecycleFactOrigin::StaticArtifact && self.static_artifact_verified
    }

    /// The error code of the provenance: legacy origins are refused, source observations carry
    /// no static-artifact fields, and static artifacts carry all of them, present and free of
    /// forbidden tokens, and at least one candidate anchor, with no anchor twice.
    pub open spec fn error_code(self) -> Option<Seq<char>> {
        match self.origin_view() {
            V326LifecycleFactOrigin::Legacy => Some("BW-V326-FACT-PROVENANCE"@),
            V326LifecycleFactOrigin::SourceObservation => {
                if self.record_id_view() is Some || self.build_id_view() is Some
                    || self.producer_view() is Some || self.anchors_view().len() > 0 {
                    Some("BW-V326-FACT-PROVENANCE"@)
                } else {
                    None
                }
            },
            V326LifecycleFactOrigin::StaticArtifact => {
                if static_field_error(self.record_id_view()) is Some {
                    static_field_error(self.record_id_view())
                } else if static_field_error(self.build_id_view()) is Some {
                    static_field_error(self.build_id_view())
                } else if static_field_error(self.producer_view()) is Some {
                    static_field_error(self.producer_view())
                } else if self.anchors_view().len() == 0 {
                    Some("BW-V326-FACT-PROVENANCE"@)
                } else if !public_list_clean(self.anchors_view()) {
                    Some("BW-V326-FACT-PRIVATE-TOKEN"@)
                } else if !all_distinct_texts(self.anchors_view()) {
                    Some("BW-V326-FACT-PROVENANCE"@)
                } else {
                    None
                }
            },
        }
    }

    /// Whether the origin is a static artifact.
    pub fn is_static_origin(&self) -> (b: bool)
        ensures
            b == (self.origin_view() == V326LifecycleFactOrigin::StaticArtifact),
    {
        match self.origin {
            V326LifecycleFactOrigin::StaticArtifact => true,
            _ => false,
        }
    }

    /// Checks the provenance of the located fact, reporting the error of `error_code`.
    pub fn check<T>(&self, located: &Located<T>) -> (r: Result<(), ModelError>)
        ensures
            match self.error_code() {
                None => r is Ok,
                Some(code) => r matches Err(e) && is_error_at(e, *located, code),
            },
    {
        match self.origin {
            V326LifecycleFactOrigin::Legacy => require(
                located,
                false,
                "BW-V326-FACT-PROVENANCE",
                "v3.2.6.lifecycle_fact.1 不接受 provenance.origin=legacy；请使用 source_observation 或 static_artifact",
            ),
            V326LifecycleFactOrigin::SourceObservation => require(
                located,
                !(self.static_fact_record_id.is_some() || self.static_build_id.is_some()
                    || self.static_producer.is_some() || self.static_anchor_record_ids.len() > 0),
                "BW-V326-FACT-PROVENANCE",
                "source_observation provenance 不能携带 static artifact 字段",
            ),
            V326LifecycleFactOrigin::StaticArtifact => {
                check_static_field(located, "provenance.static_fact_record_id", &self.static_fact_record_id)?;
                check_static_field(located, "provenance.static_build_id", &self.static_build_id)?;
                check_static_field(located, "provenance.static_producer", &self.static_producer)?;
                require(
                    located,
                    self.static_anchor_record_ids.len() > 0,
                    "BW-V326-FACT-PROVENANCE",
                    "static_artifact provenance 必须包含候选锚点 static_anchor_record_ids",
                )?;
                check_public_list(
                    located,
                    "BW-V326-FACT-PRIVATE-TOKEN",
                    "provenance.static_anchor_record_ids",
                    &self.static_anchor_record_ids,
                )?;
                require(
                    located,
                    distinct_texts(&self.static_anchor_record_ids),
                    "BW-V326-FACT-PROVENANCE",
                    "provenance.static_anchor_record_ids 不能重复",
                )
            },
        }
    }
}

/// The error of one static-artifact provenance field: missing or blank, or carrying a forbidden
/// token.
pub open spec fn static_field_error(v: Option<String>) -> Option<Seq<char>> {
    match v {
        None => Some("BW-V326-FACT-PROVENANCE"@),
        Some(t) => if !present(t@) {
            Some("BW-V326-FACT-PROVENANCE"@)
        } else if has_v326_token(t@) {
            Some("BW-V326-FACT-PRIVATE-TOKEN"@)
        } else {
            None
        },
    }
}

fn check_static_field<T>(located: &Located<T>, field: &str, value: &Option<String>) -> (r: Result<
    (),
    ModelError,
>)
    ensures
        match static_field_error(*value) {
            None => r is Ok,
            Some(code) => r matches Err(e) && is_error_at(e, *located, code),
        },
{
    match value {
        None => require(located, false, "BW-V326-FACT-PROVENANCE", "static_artifact provenance 缺少必填字段"),
        Some(v) => {
            check_required(located, "BW-V326-FACT-PROVENANCE", field, v.as_str())?;
            check_v326_tokens(located, "BW-V326-FACT-PRIVATE-TOKEN", field, v.as_str())
        },
    }
}

} // verus!
