//! Static facts that the compiler side observes.

use vstd::prelude::*;

use crate::id::{BuildId, RecordId, SemanticSiteKey, SiteId};
use crate::text::{is_blank, str_is_blank};

verus! {

/// Schema version of the first static-fact stream.
pub const STATIC_SCHEMA_V01: &'static str = "bw.static/0.1";

/// Schema version of the static-fact stream with full identity and source anchors.
pub const STATIC_SCHEMA_V02: &'static str = "bw.static/0.2";

/// How a closure statically captures its target object.
#[derive(Clone, Copy, Debug, PartialEq, Eq)]
pub enum CaptureMode {
    Borrowed,
    Owned,
}

/// Where an object is created or becomes trackable.
#[derive(Clone, Debug)]
pub struct ObjectSiteFact {
    pub site_id: SiteId,
    pub semantic_site_key: SemanticSiteKey,
    pub object_type_name: String,
}

/// Where a callback or closure instance is defined.
#[derive(Clone, Debug)]
pub struct CallbackSiteFact {
    pub site_id: SiteId,
    pub semantic_site_key: SemanticSiteKey,
    pub def_path: String,
}

/// Static edge between a callback site and a captured object site.
#[derive(Clone, Debug)]
pub struct CallbackCaptureFact {
    pub site_id: SiteId,
    pub semantic_site_key: SemanticSiteKey,
    pub callback_site_id: SiteId,
    pub object_site_id: SiteId,
    pub capture_ordinal: u32,
    pub capture_mode: CaptureMode,
}

#[derive(Clone, Copy, Debug, PartialEq, Eq)]
pub enum DropKind {
    Explicit,
    ScopeEnd,
}

/// Where an object is dropped explicitly or at scope end.
#[derive(Clone, Debug)]
pub struct DropSiteFact {
    pub site_id: SiteId,
    pub semantic_site_key: SemanticSiteKey,
    pub object_site_id: SiteId,
    pub drop_kind: DropKind,
}

#[derive(Clone, Copy, Debug, PartialEq, Eq)]
pub enum DropPreventionKind {
    MemForget,
}

/// Where an object is explicitly kept from being dropped, such as `mem::forget(owner)`.
#[derive(Clone, Debug)]
pub struct DropPreventionFact {
    pub site_id: SiteId,
    pub semantic_site_key: SemanticSiteKey,
    pub object_site_id: SiteId,
    pub prevention_kind: DropPreventionKind,
}

#[derive(Clone, Copy, Debug, PartialEq, Eq)]
pub enum CallbackUserDataReconstructionKind {
    OwnerFromTransmute,
    OwnerFromRaw,
    LeakFromRaw,
}

/// Where an `extern` callback rebuilds a Rust owner or view from a foreign user-data pointer.
#[derive(Clone, Debug)]
pub struct CallbackUserDataReconstructionFact {
    pub site_id: SiteId,
    pub semantic_site_key: SemanticSiteKey,
    pub callback_site_id: SiteId,
    pub user_data_site_id: SiteId,
    pub object_site_id: SiteId,
    pub reconstruction_kind: CallbackUserDataReconstructionKind,
}

#[derive(Clone, Copy, Debug, PartialEq, Eq)]
pub enum RegistrationRole {
    Register,
    Unregister,
    Replace,
}

/// A call site that the API map classifies as callback registration, removal or replacement.
#[derive(Clone, Debug)]
pub struct RegistrationSiteFact {
    pub site_id: SiteId,
    pub semantic_site_key: SemanticSiteKey,
    pub callback_site_id: Option<SiteId>,
    pub user_data_site_id: Option<SiteId>,
    pub api_id: String,
    pub role: RegistrationRole,
}

/// Direction of a raw-pointer ownership transfer.
#[derive(Clone, Copy, Debug, PartialEq, Eq)]
pub enum RawPointerTransferKind {
    IntoRaw,
    FromRaw,
    FromRawParts,
}

/// Static relation between a `Box`/`Arc`/`Rc` raw-pointer transfer and a user-data object.
#[derive(Clone, Debug)]
pub struct RawPointerTransferFact {
    pub site_id: SiteId,
    pub semantic_site_key: SemanticSiteKey,
    pub user_data_site_id: SiteId,
    pub transfer_kind: RawPointerTransferKind,
}

/// Control-flow proof that a local release endpoint is unavoidable after registration.
#[derive(Clone, Debug)]
pub struct ReleasePathProofFact {
    pub site_id: SiteId,
    pub semantic_site_key: SemanticSiteKey,
    pub registration_site_id: SiteId,
    pub release_site_id: SiteId,
    pub object_site_id: SiteId,
}

/// Ordering between a user-data release and a later callback use. `UnknownOrdering` records
/// missing evidence, not a proof.
#[derive(Clone, Copy, Debug, PartialEq, Eq)]
pub enum CallbackReleaseUseOrdering {
    ReleaseBeforeCallbackUse,
    CallbackUseBeforeRelease,
    UnknownOrdering,
}

#[derive(Clone, Debug)]
pub struct CallbackReleaseUseOrderFact {
    pub site_id: SiteId,
    pub semantic_site_key: SemanticSiteKey,
    pub registration_site_id: SiteId,
    pub release_site_id: SiteId,
    pub use_site_id: SiteId,
    pub object_site_id: SiteId,
    pub api_id: String,
    pub ordering: CallbackReleaseUseOrdering,
}

#[derive(Clone, Copy, Debug, PartialEq, Eq)]
pub enum ExternalCallRole {
    Invoke,
    ExternalCall,
}

/// A foreign call site at the Rust boundary that the API map classifies.
#[derive(Clone, Debug)]
pub struct ExternalCallSiteFact {
    pub site_id: SiteId,
    pub semantic_site_key: SemanticSiteKey,
    pub callback_site_id: Option<SiteId>,
    pub api_id: String,
    pub role: ExternalCallRole,
}

/// What bounds the lifetime of a callback's generic parameter at its definition.
#[derive(Clone, Copy, Debug, PartialEq, Eq)]
pub enum CallbackLifetimeBoundScope {
    /// Bound by a lifetime parameter that also appears on the receiver.
    DeclaredReceiverLifetime,
    /// Bound by a declared lifetime that does not come from the receiver.
    DeclaredFreeLifetime,
    /// Bound by `'static`.
    StaticLifetime,
    /// An `Fn`-family bound without any outlives bound.
    NoLifetimeBound,
}

/// Whether the callback type admits capturing borrows of finite lifetime.
#[derive(Clone, Copy, Debug, PartialEq, Eq)]
pub enum EffectiveCaptureAdmission {
    RequiresStaticCapture,
    PermitsNonStaticCapture,
    ContextDependent,
    Unresolved,
}

/// Whether a registration guard ties the foreign slot to the captured subject.
#[derive(Clone, Copy, Debug, PartialEq, Eq)]
pub enum RegistrationGuard {
    NoGuard,
    TiesSlotToSubject,
    OwnerDropUnregisters,
    Unresolved,
}

/// Who owns the callback allocation itself.
#[derive(Clone, Copy, Debug, PartialEq, Eq)]
pub enum AllocationOwnership {
    ForeignOwnedUntilUnregister,
    RustRetainsAndMayFreeEarly,
    Unresolved,
}

/// Whether the hand-off is reachable from a public safe entry.
#[derive(Clone, Copy, Debug, PartialEq, Eq)]
pub enum SafeEntryLineage {
    DirectPublicSafeEntry,
    ReachableFromPublicSafeEntry,
    NoPublicSafeEntry,
    Unresolved,
}

impl CallbackLifetimeBoundScope {
    /// Whether the bound is shorter than `'static`, so that the signature lets the callback
    /// borrow data of finite lifetime.
    pub fn is_shorter_than_static(self) -> (b: bool)
        ensures
            b == (self == CallbackLifetimeBoundScope::DeclaredReceiverLifetime || self
                == CallbackLifetimeBoundScope::DeclaredFreeLifetime),
    {
        matches!(
            self,
            CallbackLifetimeBoundScope::DeclaredReceiverLifetime
                | CallbackLifetimeBoundScope::DeclaredFreeLifetime
        )
    }

    /// What the bound admits for captured borrows.
    pub fn effective_capture_admission(self) -> (a: EffectiveCaptureAdmission)
        ensures
            a == spec_effective_capture_admission(self),
    {
        match self {
            CallbackLifetimeBoundScope::StaticLifetime => EffectiveCaptureAdmission::RequiresStaticCapture,
            CallbackLifetimeBoundScope::DeclaredReceiverLifetime
            | CallbackLifetimeBoundScope::DeclaredFreeLifetime => EffectiveCaptureAdmission::PermitsNonStaticCapture,
            CallbackLifetimeBoundScope::NoLifetimeBound => EffectiveCaptureAdmission::ContextDependent,
        }
    }
}

pub open spec fn spec_effective_capture_admission(
    scope: CallbackLifetimeBoundScope,
) -> EffectiveCaptureAdmission {
    match scope {
        CallbackLifetimeBoundScope::StaticLifetime => EffectiveCaptureAdmission::RequiresStaticCapture,
        CallbackLifetimeBoundScope::DeclaredReceiverLifetime => EffectiveCaptureAdmission::PermitsNonStaticCapture,
        CallbackLifetimeBoundScope::DeclaredFreeLifetime => EffectiveCaptureAdmission::PermitsNonStaticCapture,
        CallbackLifetimeBoundScope::NoLifetimeBound => EffectiveCaptureAdmission::ContextDependent,
    }
}

/// The lifetime bound of a callback parameter at its definition.
#[derive(Clone, Debug)]
pub struct CallbackLifetimeBoundFact {
    pub site_id: SiteId,
    pub semantic_site_key: SemanticSiteKey,
    pub api_id: String,
    pub callback_param: String,
    pub bound_lifetime: Option<String>,
    pub bound_scope: CallbackLifetimeBoundScope,
}

/// The registration guard shape of one callback parameter.
#[derive(Clone, Debug)]
pub struct RegistrationGuardFact {
    pub site_id: SiteId,
    pub semantic_site_key: SemanticSiteKey,
    pub api_id: String,
    pub callback_param: String,
    pub guard: RegistrationGuard,
}

/// Ownership of the callback allocation of one callback parameter.
#[derive(Clone, Debug)]
pub struct AllocationOwnershipFact {
    pub site_id: SiteId,
    pub semantic_site_key: SemanticSiteKey,
    pub api_id: String,
    pub callback_param: String,
    pub ownership: AllocationOwnership,
}

/// Public safe-entry reachability of one callback parameter.
#[derive(Clone, Debug)]
pub struct SafeEntryLineageFact {
    pub site_id: SiteId,
    pub semantic_site_key: SemanticSiteKey,
    pub api_id: String,
    pub callback_param: String,
    pub lineage: SafeEntryLineage,
    pub entry_def_path: Option<String>,
}

/// The foreign symbol and argument roles that a callback parameter is handed to.
#[derive(Debug)]
pub struct ForeignSymbolBindingFact {
    pub site_id: SiteId,
    pub semantic_site_key: SemanticSiteKey,
    pub api_id: String,
    pub callback_param: String,
    pub symbol: Option<String>,
    pub callback_arg_index: Option<u32>,
    pub userdata_arg_index: Option<u32>,
}

impl Clone for ForeignSymbolBindingFact {
    fn clone(&self) -> (r: Self)
        ensures
            r == *self,
    {
        ForeignSymbolBindingFact {
            site_id: self.site_id.clone(),
            semantic_site_key: self.semantic_site_key.clone(),
            api_id: self.api_id.clone(),
            callback_param: self.callback_param.clone(),
            symbol: match &self.symbol {
                Some(s) => Some(s.clone()),
                None => None,
            },
            callback_arg_index: self.callback_arg_index,
            userdata_arg_index: self.userdata_arg_index,
        }
    }
}

/// Returned-borrow relation: the reference an API returns traces back to an input or owner.
#[derive(Clone, Copy, Debug, PartialEq, Eq)]
pub enum ReturnedBorrowRelationKind {
    DirectReturnBorrow,
    UnconstrainedReturnLifetime,
}

#[derive(Clone, Debug)]
pub struct ReturnedBorrowRelationFact {
    pub site_id: SiteId,
    pub semantic_site_key: SemanticSiteKey,
    pub source_site_id: SiteId,
    pub returned_site_id: SiteId,
    pub api_id: String,
    pub relation_kind: Option<ReturnedBorrowRelationKind>,
}

/// A returned borrow view stored into a collection, field or owner state.
#[derive(Clone, Debug)]
pub struct PersistedReturnedBorrowFact {
    pub site_id: SiteId,
    pub semantic_site_key: SemanticSiteKey,
    pub source_site_id: SiteId,
    pub returned_site_id: SiteId,
    pub storage_site_id: SiteId,
    pub api_id: String,
}

/// Ordering between persistence, invalidation and later use of a returned borrow view.
#[derive(Clone, Copy, Debug, PartialEq, Eq)]
pub enum ReturnedBorrowInvalidationOrdering {
    PersistenceBeforeInvalidationUse,
    InvalidationBeforePersistenceUse,
}

#[derive(Clone, Debug)]
pub struct ReturnedBorrowInvalidationOrderFact {
    pub site_id: SiteId,
    pub semantic_site_key: SemanticSiteKey,
    pub persisted_site_id: SiteId,
    pub invalidation_site_id: SiteId,
    pub use_site_id: SiteId,
    pub api_id: String,
    pub invalidation_api_id: String,
    pub ordering: ReturnedBorrowInvalidationOrdering,
}

/// Static binding between a foreign buffer or handle and a Rust borrow source.
#[derive(Clone, Debug)]
pub struct ExternalBufferBindingFact {
    pub site_id: SiteId,
    pub semantic_site_key: SemanticSiteKey,
    pub source_site_id: SiteId,
    pub buffer_site_id: SiteId,
    pub api_id: String,
}

/// Atomic operation observed at a lifecycle-sensitive iterator or container site.
#[derive(Clone, Copy, Debug, PartialEq, Eq)]
pub enum AtomicOperationKind {
    Load,
}

/// Memory ordering used by an observed atomic operation.
#[derive(Clone, Copy, Debug, PartialEq, Eq)]
pub enum AtomicOrderingKind {
    Relaxed,
    Acquire,
    Release,
    AcqRel,
    SeqCst,
}

/// Atomic ordering fact for iterator and container lifecycle visibility.
#[derive(Clone, Debug)]
pub struct AtomicOrderingFact {
    pub site_id: SiteId,
    pub semantic_site_key: SemanticSiteKey,
    pub api_id: String,
    pub operation: AtomicOperationKind,
    pub ordering: AtomicOrderingKind,
    pub target_type_name: String,
}

/// Neutral flow of one lifecycle object between static sites.
#[derive(Clone, Copy, Debug, PartialEq, Eq)]
pub enum ObjectFlowKind {
    Argument,
    ReturnValue,
    FieldStore,
    FieldLoad,
    WrapperMove,
    WrapperDestructure,
    CollectionStore,
    CollectionLoad,
    ClosureCapture,
}

/// Neutral object role of an object-flow endpoint.
#[derive(Clone, Copy, Debug, PartialEq, Eq)]
pub enum ObjectFlowObjectKind {
    Callback,
    UserData,
    RustOwner,
    ReturnedRef,
    Storage,
    OpaqueHandle,
    StaticSite,
}

/// Neutral cause of a conservative object-binding gap.
#[derive(Clone, Copy, Debug, PartialEq, Eq)]
pub enum ObjectBindingGapKind {
    SelectionPredicate,
    MappedValue,
    MergedSources,
    TupleProjection,
    CardinalityTransform,
    DynamicIndex,
    RangeOrSlice,
    SequenceLengthUnknown,
    KeyContract,
    ReassignmentBarrier,
    MutationBarrier,
    CallBoundary,
    UnresolvedCallee,
}

/// Diagnostic fact: the compiler refused to upgrade an observation to a same-object binding.
#[derive(Clone, Debug)]
pub struct ObjectBindingGapFact {
    pub site_id: SiteId,
    pub semantic_site_key: SemanticSiteKey,
    pub api_id: String,
    pub gap_kind: ObjectBindingGapKind,
    pub field_path: Option<String>,
    pub container_type_name: Option<String>,
    pub adapter: Option<String>,
}

/// Object-flow fact produced by a conservative method-effect summary.
#[derive(Clone, Debug)]
pub struct ObjectFlowFact {
    pub site_id: SiteId,
    pub semantic_site_key: SemanticSiteKey,
    pub from_site_id: SiteId,
    pub from_object_kind: ObjectFlowObjectKind,
    pub to_site_id: SiteId,
    pub to_object_kind: ObjectFlowObjectKind,
    pub flow_kind: ObjectFlowKind,
    pub api_id: String,
    pub field_path: Option<String>,
    pub container_type_name: Option<String>,
}

/// The kinds of static facts.
#[derive(Clone, Debug)]
pub enum StaticFact {
    ObjectSite(ObjectSiteFact),
    CallbackSite(CallbackSiteFact),
    CallbackCapture(CallbackCaptureFact),
    DropSite(DropSiteFact),
    DropPrevention(DropPreventionFact),
    CallbackUserDataReconstruction(CallbackUserDataReconstructionFact),
    RegistrationSite(RegistrationSiteFact),
    RawPointerTransfer(RawPointerTransferFact),
    ReleasePathProof(ReleasePathProofFact),
    CallbackReleaseUseOrder(CallbackReleaseUseOrderFact),
    ExternalCallSite(ExternalCallSiteFact),
    CallbackLifetimeBound(CallbackLifetimeBoundFact),
    RegistrationGuard(RegistrationGuardFact),
    AllocationOwnership(AllocationOwnershipFact),
    SafeEntryLineage(SafeEntryLineageFact),
    ForeignSymbolBinding(ForeignSymbolBindingFact),
    ReturnedBorrowRelation(ReturnedBorrowRelationFact),
    PersistedReturnedBorrow(PersistedReturnedBorrowFact),
    ReturnedBorrowInvalidationOrder(ReturnedBorrowInvalidationOrderFact),
    ExternalBufferBinding(ExternalBufferBindingFact),
    AtomicOrdering(AtomicOrderingFact),
    ObjectBindingGap(ObjectBindingGapFact),
    ObjectFlow(ObjectFlowFact),
}

/// Identity of the compiled artifact that produced a static fact.
#[derive(Clone, Debug)]
pub struct StaticArtifactIdentity {
    pub crate_id: String,
    pub package_name: String,
    pub package_version: String,
    pub target: String,
}

/// Source anchor of a static fact.
#[derive(Clone, Debug)]
pub struct StaticSourceRef {
    pub path: String,
    pub line_start: u64,
    pub line_end: u64,
    pub symbol_path: Option<String>,
}

/// The versioned envelope around every static fact.
#[derive(Clone, Debug)]
pub struct StaticFactEnvelope {
    pub schema_version: String,
    pub record_id: RecordId,
    pub producer: String,
    pub build_id: BuildId,
    pub artifact: Option<StaticArtifactIdentity>,
    pub source_ref: Option<StaticSourceRef>,
    pub payload: StaticFact,
}

/// A required text is present: something is left after trimming white space.
pub open spec fn present(s: Seq<char>) -> bool {
    !is_blank(s)
}

pub open spec fn present_opt(s: Option<String>) -> bool {
    match s {
        Some(v) => present(v@),
        None => true,
    }
}

pub open spec fn present_site_opt(s: Option<SiteId>) -> bool {
    match s {
        Some(v) => present(v.0@),
        None => true,
    }
}

fn has_required_text(s: &str) -> (b: bool)
    ensures
        b == present(s@),
{
    !str_is_blank(s)
}

fn has_optional_text(s: &Option<String>) -> (b: bool)
    ensures
        b == present_opt(*s),
{
    match s {
        Some(v) => has_required_text(v.as_str()),
        None => true,
    }
}

fn has_optional_site(s: &Option<SiteId>) -> (b: bool)
    ensures
        b == present_site_opt(*s),
{
    match s {
        Some(v) => has_required_text(v.as_str()),
        None => true,
    }
}

/// Every identifier that a fact of this kind needs is present.
pub open spec fn spec_has_required_identifiers(fact: StaticFact) -> bool {
    match fact {
        StaticFact::ObjectSite(f) => present(f.site_id.0@) && present(f.semantic_site_key.0@)
            && present(f.object_type_name@),
        StaticFact::CallbackSite(f) => present(f.site_id.0@) && present(f.semantic_site_key.0@)
            && present(f.def_path@),
        StaticFact::CallbackCapture(f) => present(f.site_id.0@) && present(
            f.semantic_site_key.0@,
        ) && present(f.callback_site_id.0@) && present(f.object_site_id.0@),
        StaticFact::DropSite(f) => present(f.site_id.0@) && present(f.semantic_site_key.0@)
            && present(f.object_site_id.0@),
        StaticFact::DropPrevention(f) => present(f.site_id.0@) && present(f.semantic_site_key.0@)
            && present(f.object_site_id.0@),
        StaticFact::CallbackUserDataReconstruction(f) => present(f.site_id.0@) && present(
            f.semantic_site_key.0@,
        ) && present(f.callback_site_id.0@) && present(f.user_data_site_id.0@) && present(
            f.object_site_id.0@,
        ),
        StaticFact::RegistrationSite(f) => present(f.site_id.0@) && present(
            f.semantic_site_key.0@,
        ) && present(f.api_id@) && present_site_opt(f.callback_site_id) && present_site_opt(
            f.user_data_site_id,
        ),
        StaticFact::RawPointerTransfer(f) => present(f.site_id.0@) && present(
            f.semantic_site_key.0@,
        ) && present(f.user_data_site_id.0@),
        StaticFact::ReleasePathProof(f) => present(f.site_id.0@) && present(
            f.semantic_site_key.0@,
        ) && present(f.registration_site_id.0@) && present(f.release_site_id.0@) && present(
            f.object_site_id.0@,
        ),
        StaticFact::CallbackReleaseUseOrder(f) => present(f.site_id.0@) && present(
            f.semantic_site_key.0@,
        ) && present(f.registration_site_id.0@) && present(f.release_site_id.0@) && present(
            f.use_site_id.0@,
        ) && present(f.object_site_id.0@) && present(f.api_id@),
        StaticFact::ExternalCallSite(f) => present(f.site_id.0@) && present(
            f.semantic_site_key.0@,
        ) && present(f.api_id@) && present_site_opt(f.callback_site_id),
        StaticFact::CallbackLifetimeBound(f) => present(f.site_id.0@) && present(
            f.semantic_site_key.0@,
        ) && present(f.api_id@) && present(f.callback_param@) && present_opt(f.bound_lifetime),
        StaticFact::RegistrationGuard(f) => present(f.site_id.0@) && present(
            f.semantic_site_key.0@,
        ) && present(f.api_id@) && present(f.callback_param@),
        StaticFact::AllocationOwnership(f) => present(f.site_id.0@) && present(
            f.semantic_site_key.0@,
        ) && present(f.api_id@) && present(f.callback_param@),
        StaticFact::SafeEntryLineage(f) => present(f.site_id.0@) && present(
            f.semantic_site_key.0@,
        ) && present(f.api_id@) && present(f.callback_param@) && present_opt(f.entry_def_path),
        StaticFact::ForeignSymbolBinding(f) => present(f.site_id.0@) && present(
            f.semantic_site_key.0@,
        ) && present(f.api_id@) && present(f.callback_param@) && present_opt(f.symbol),
        StaticFact::ReturnedBorrowRelation(f) => present(f.site_id.0@) && present(
            f.semantic_site_key.0@,
        ) && present(f.source_site_id.0@) && present(f.returned_site_id.0@) && present(
            f.api_id@,
        ),
        StaticFact::PersistedReturnedBorrow(f) => present(f.site_id.0@) && present(
            f.semantic_site_key.0@,
        ) && present(f.source_site_id.0@) && present(f.returned_site_id.0@) && present(
            f.storage_site_id.0@,
        ) && present(f.api_id@),
        StaticFact::ReturnedBorrowInvalidationOrder(f) => present(f.site_id.0@) && present(
            f.semantic_site_key.0@,
        ) && present(f.persisted_site_id.0@) && present(f.invalidation_site_id.0@) && present(
            f.use_site_id.0@,
        ) && present(f.api_id@) && present(f.invalidation_api_id@),
        StaticFact::ExternalBufferBinding(f) => present(f.site_id.0@) && present(
            f.semantic_site_key.0@,
        ) && present(f.source_site_id.0@) && present(f.buffer_site_id.0@) && present(f.api_id@),
        StaticFact::AtomicOrdering(f) => present(f.site_id.0@) && present(f.semantic_site_key.0@)
            && present(f.api_id@) && present(f.target_type_name@),
        StaticFact::ObjectBindingGap(f) => present(f.site_id.0@) && present(
            f.semantic_site_key.0@,
        ) && present(f.api_id@) && present_opt(f.field_path) && present_opt(
            f.container_type_name,
        ) && present_opt(f.adapter),
        StaticFact::ObjectFlow(f) => present(f.site_id.0@) && present(f.semantic_site_key.0@)
            && present(f.from_site_id.0@) && present(f.to_site_id.0@) && present(f.api_id@)
            && present_opt(f.field_path) && present_opt(f.container_type_name),
    }
}

impl StaticFact {
    pub fn has_required_identifiers(&self) -> (b: bool)
        ensures
            b == spec_has_required_identifiers(*self),
    {
        match self {
            StaticFact::ObjectSite(f) => has_required_text(f.site_id.as_str()) && has_required_text(
                f.semantic_site_key.as_str(),
            ) && has_required_text(f.object_type_name.as_str()),
            StaticFact::CallbackSite(f) => has_required_text(f.site_id.as_str())
                && has_required_text(f.semantic_site_key.as_str()) && has_required_text(
                f.def_path.as_str(),
            ),
            StaticFact::CallbackCapture(f) => has_required_text(f.site_id.as_str())
                && has_required_text(f.semantic_site_key.as_str()) && has_required_text(
                f.callback_site_id.as_str(),
            ) && has_required_text(f.object_site_id.as_str()),
            StaticFact::DropSite(f) => has_required_text(f.site_id.as_str()) && has_required_text(
                f.semantic_site_key.as_str(),
            ) && has_required_text(f.object_site_id.as_str()),
            StaticFact::DropPrevention(f) => has_required_text(f.site_id.as_str())
                && has_required_text(f.semantic_site_key.as_str()) && has_required_text(
                f.object_site_id.as_str(),
            ),
            StaticFact::CallbackUserDataReconstruction(f) => has_required_text(f.site_id.as_str())
                && has_required_text(f.semantic_site_key.as_str()) && has_required_text(
                f.callback_site_id.as_str(),
            ) && has_required_text(f.user_data_site_id.as_str()) && has_required_text(
                f.object_site_id.as_str(),
            ),
            StaticFact::RegistrationSite(f) => has_required_text(f.site_id.as_str())
                && has_required_text(f.semantic_site_key.as_str()) && has_required_text(
                f.api_id.as_str(),
            ) && has_optional_site(&f.callback_site_id) && has_optional_site(
                &f.user_data_site_id,
            ),
            StaticFact::RawPointerTransfer(f) => has_required_text(f.site_id.as_str())
                && has_required_text(f.semantic_site_key.as_str()) && has_required_text(
                f.user_data_site_id.as_str(),
            ),
            StaticFact::ReleasePathProof(f) => has_required_text(f.site_id.as_str())
                && has_required_text(f.semantic_site_key.as_str()) && has_required_text(
                f.registration_site_id.as_str(),
            ) && has_required_text(f.release_site_id.as_str()) && has_required_text(
                f.object_site_id.as_str(),
            ),
            StaticFact::CallbackReleaseUseOrder(f) => has_required_text(f.site_id.as_str())
                && has_required_text(f.semantic_site_key.as_str()) && has_required_text(
                f.registration_site_id.as_str(),
            ) && has_required_text(f.release_site_id.as_str()) && has_required_text(
                f.use_site_id.as_str(),
            ) && has_required_text(f.object_site_id.as_str()) && has_required_text(
                f.api_id.as_str(),
            ),
            StaticFact::ExternalCallSite(f) => has_required_text(f.site_id.as_str())
                && has_required_text(f.semantic_site_key.as_str()) && has_required_text(
                f.api_id.as_str(),
            ) && has_optional_site(&f.callback_site_id),
            StaticFact::CallbackLifetimeBound(f) => has_required_text(f.site_id.as_str())
                && has_required_text(f.semantic_site_key.as_str()) && has_required_text(
                f.api_id.as_str(),
            ) && has_required_text(f.callback_param.as_str()) && has_optional_text(
                &f.bound_lifetime,
            ),
            StaticFact::RegistrationGuard(f) => has_required_text(f.site_id.as_str())
                && has_required_text(f.semantic_site_key.as_str()) && has_required_text(
                f.api_id.as_str(),
            ) && has_required_text(f.callback_param.as_str()),
            StaticFact::AllocationOwnership(f) => has_required_text(f.site_id.as_str())
                && has_required_text(f.semantic_site_key.as_str()) && has_required_text(
                f.api_id.as_str(),
            ) && has_required_text(f.callback_param.as_str()),
            StaticFact::SafeEntryLineage(f) => has_required_text(f.site_id.as_str())
                && has_required_text(f.semantic_site_key.as_str()) && has_required_text(
                f.api_id.as_str(),
            ) && has_required_text(f.callback_param.as_str()) && has_optional_text(
                &f.entry_def_path,
            ),
            StaticFact::ForeignSymbolBinding(f) => has_required_text(f.site_id.as_str())
                && has_required_text(f.semantic_site_key.as_str()) && has_required_text(
                f.api_id.as_str(),
            ) && has_required_text(f.callback_param.as_str()) && has_optional_text(&f.symbol),
            StaticFact::ReturnedBorrowRelation(f) => has_required_text(f.site_id.as_str())
                && has_required_text(f.semantic_site_key.as_str()) && has_required_text(
                f.source_site_id.as_str(),
            ) && has_required_text(f.returned_site_id.as_str()) && has_required_text(
                f.api_id.as_str(),
            ),
            StaticFact::PersistedReturnedBorrow(f) => has_required_text(f.site_id.as_str())
                && has_required_text(f.semantic_site_key.as_str()) && has_required_text(
                f.source_site_id.as_str(),
            ) && has_required_text(f.returned_site_id.as_str()) && has_required_text(
                f.storage_site_id.as_str(),
            ) && has_required_text(f.api_id.as_str()),
            StaticFact::ReturnedBorrowInvalidationOrder(f) => has_required_text(f.site_id.as_str())
                && has_required_text(f.semantic_site_key.as_str()) && has_required_text(
                f.persisted_site_id.as_str(),
            ) && has_required_text(f.invalidation_site_id.as_str()) && has_required_text(
                f.use_site_id.as_str(),
            ) && has_required_text(f.api_id.as_str()) && has_required_text(
                f.invalidation_api_id.as_str(),
            ),
            StaticFact::ExternalBufferBinding(f) => has_required_text(f.site_id.as_str())
                && has_required_text(f.semantic_site_key.as_str()) && has_required_text(
                f.source_site_id.as_str(),
            ) && has_required_text(f.buffer_site_id.as_str()) && has_required_text(
                f.api_id.as_str(),
            ),
            StaticFact::AtomicOrdering(f) => has_required_text(f.site_id.as_str())
                && has_required_text(f.semantic_site_key.as_str()) && has_required_text(
                f.api_id.as_str(),
            ) && has_required_text(f.target_type_name.as_str()),
            StaticFact::ObjectBindingGap(f) => has_required_text(f.site_id.as_str())
                && has_required_text(f.semantic_site_key.as_str()) && has_required_text(
                f.api_id.as_str(),
            ) && has_optional_text(&f.field_path) && has_optional_text(&f.container_type_name)
                && has_optional_text(&f.adapter),
            StaticFact::ObjectFlow(f) => has_required_text(f.site_id.as_str()) && has_required_text(
                f.semantic_site_key.as_str(),
            ) && has_required_text(f.from_site_id.as_str()) && has_required_text(
                f.to_site_id.as_str(),
            ) && has_required_text(f.api_id.as_str()) && has_optional_text(&f.field_path)
                && has_optional_text(&f.container_type_name),
        }
    }
}

pub open spec fn spec_artifact_has_required_fields(a: StaticArtifactIdentity) -> bool {
    present(a.crate_id@) && present(a.package_name@) && present(a.package_version@) && present(
        a.target@,
    )
}

pub open spec fn spec_has_valid_source_span(r: StaticSourceRef) -> bool {
    present(r.path@) && r.line_start >= 1 && r.line_end >= r.line_start && present_opt(
        r.symbol_path,
    )
}

impl StaticArtifactIdentity {
    pub fn has_required_fields(&self) -> (b: bool)
        ensures
            b == spec_artifact_has_required_fields(*self),
    {
        has_required_text(self.crate_id.as_str()) && has_required_text(
            self.package_name.as_str(),
        ) && has_required_text(self.package_version.as_str()) && has_required_text(
            self.target.as_str(),
        )
    }
}

impl StaticSourceRef {
    pub fn has_valid_source_span(&self) -> (b: bool)
        ensures
            b == spec_has_valid_source_span(*self),
    {
        has_required_text(self.path.as_str()) && self.line_start >= 1 && self.line_end
            >= self.line_start && has_optional_text(&self.symbol_path)
    }
}

/// The envelope is an authoritative lifecycle binding: `bw.static/0.2` with full identity,
/// artifact, source anchor and payload identifiers.
pub open spec fn spec_is_authoritative_lifecycle_binding(e: StaticFactEnvelope) -> bool {
    &&& e.schema_version@ == STATIC_SCHEMA_V02@
    &&& present(e.record_id.0@)
    &&& present(e.producer@)
    &&& present(e.build_id.0@)
    &&& (e.artifact matches Some(a) && spec_artifact_has_required_fields(a))
    &&& (e.source_ref matches Some(r) && spec_has_valid_source_span(r))
    &&& spec_has_required_identifiers(e.payload)
}

impl StaticFactEnvelope {
    /// True only when the full `bw.static/0.2` identity and source anchor are present.
    pub fn is_authoritative_lifecycle_binding(&self) -> (b: bool)
        ensures
            b == spec_is_authoritative_lifecycle_binding(*self),
    {
        let schema = crate::text::owned(STATIC_SCHEMA_V02);
        self.schema_version == schema && has_required_text(self.record_id.as_str())
            && has_required_text(self.producer.as_str()) && has_required_text(
            self.build_id.as_str(),
        ) && match &self.artifact {
            Some(a) => a.has_required_fields(),
            None => false,
        } && match &self.source_ref {
            Some(r) => r.has_valid_source_span(),
            None => false,
        } && self.payload.has_required_identifiers()
    }
}

} // verus!
