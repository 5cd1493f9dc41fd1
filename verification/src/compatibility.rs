//! Compatibility judgement of callback lifetimes across the language boundary.
//!
//! The criterion is trace feasibility for safe clients:
//! `SupportedIncompatibility(X, Slot)` needs `SafeLifetimeSeparationPossible(X, Slot)`,
//! `ForeignLateUsePossible(Slot, X)` and the same artifact, slot and role, for
//! `X` in { captured referent, callback allocation }.

use vstd::prelude::*;

use crate::static_fact::{
    spec_effective_capture_admission, AllocationOwnership, EffectiveCaptureAdmission,
    ForeignSymbolBindingFact, RegistrationGuard, SafeEntryLineage, SafeEntryLineageFact,
    StaticFact, StaticFactEnvelope,
};
use crate::text::{lemma_text_lt_asymmetric, lemma_text_lt_total, owned, sort_texts, text_less, text_lt, texts_sorted};

verus! {

/// Registration instance identity within one build.
#[derive(Clone, Copy, Debug, PartialEq, Eq, PartialOrd, Ord, Hash)]
pub enum RegistrationGeneration {
    /// The symbol has exactly one static registration site in this build.
    UniqueStaticSite,
    /// The same symbol has other static registration sites. This is no reason to refuse a join.
    MultipleStaticSites,
    /// Not determined. A join must refuse it.
    Unresolved,
}

/// Identity of one hand-off: the call that crosses the language boundary.
#[derive(Debug)]
pub struct HandOffId {
    pub rust_artifact: String,
    pub foreign_artifact: String,
    pub build_profile: String,
    pub safe_entry_instance: String,
    pub rust_def_instance: String,
    pub call_occurrence: String,
    pub foreign_symbol: String,
    pub callback_arg_index: u32,
    pub userdata_arg_index: Option<u32>,
    pub registration_key: Option<String>,
    pub registration_generation: RegistrationGeneration,
}

/// The two items that only the build knows when the Rust half key is assembled.
#[derive(Clone, Debug)]
pub struct RustHandOffBuildContext {
    pub rust_artifact: String,
    pub build_profile: String,
}

/// The half of the identity that the Rust side can fill before the join.
#[derive(Debug)]
pub struct RustHandOffKey {
    pub rust_artifact: String,
    pub build_profile: String,
    pub safe_entry_instance: String,
    pub rust_def_instance: String,
    pub call_occurrence: String,
    pub foreign_symbol: String,
    pub callback_arg_index: u32,
    pub userdata_arg_index: Option<u32>,
    pub registration_key: Option<String>,
    pub registration_generation: RegistrationGeneration,
}

/// The half of the identity that the foreign side can fill before the join.
#[derive(Debug)]
pub struct ForeignHandOffKey {
    pub foreign_artifact: String,
    pub build_profile: String,
    pub foreign_symbol: String,
    pub callback_arg_index: u32,
    pub userdata_arg_index: Option<u32>,
    pub registration_key: Option<String>,
}

/// The two lifetimes that the judgement keeps apart.
#[derive(Clone, Copy, Debug, PartialEq, Eq, PartialOrd, Ord, Hash)]
pub enum LifetimeSubject {
    /// The borrowed object that the callback captures.
    CapturedReferent,
    /// The callback allocation itself and the trampoline user data.
    CallbackAllocation,
}

/// Rust-side contract fact: what the types allow, not what the foreign side does.
#[derive(Clone, Debug)]
pub struct RustContractFact {
    pub hand_off: RustHandOffKey,
    pub capture_admission: EffectiveCaptureAdmission,
    pub guard: RegistrationGuard,
    pub allocation: AllocationOwnership,
    pub evidence: Vec<String>,
}

/// Q1: whether the pointer reaches storage that outlives the call.
#[derive(Clone, Copy, Debug, PartialEq, Eq, PartialOrd, Ord, Hash)]
pub enum ForeignRetention {
    MayRetain,
    NoRetain,
    Unresolved,
}

/// Q3: synchronous invocation or possible invocation after return.
#[derive(Clone, Copy, Debug, PartialEq, Eq, PartialOrd, Ord, Hash)]
pub enum ForeignInvocation {
    MayInvokeAfterReturn,
    SynchronousInvokeOnly,
    Unresolved,
}

/// Q4': whether unregistration or replacement clears the slot on every relevant path.
#[derive(Clone, Copy, Debug, PartialEq, Eq, PartialOrd, Ord, Hash)]
pub enum ForeignClear {
    ClearsOnAllPaths,
    MayLeaveSlotPopulated,
    Unresolved,
}

/// On which paths of the registration entry the retention happens.
#[derive(Clone, Copy, Debug, PartialEq, Eq, PartialOrd, Ord, Hash)]
pub enum ForeignPathCompatibility {
    RetainOnEveryPath,
    RetainOnSomePaths,
    Unresolved,
}

/// Foreign-side behaviour fact. The four values are orthogonal.
#[derive(Clone, Debug)]
pub struct ForeignBehaviorFact {
    pub hand_off: ForeignHandOffKey,
    pub retention: ForeignRetention,
    pub invocation: ForeignInvocation,
    pub clear: ForeignClear,
    pub path_compatibility: ForeignPathCompatibility,
    pub invoke_evidence: Option<EvidenceGrade>,
    pub evidence: Vec<String>,
}

/// Static verdict. Exactly three states.
#[derive(Clone, Copy, Debug, PartialEq, Eq, PartialOrd, Ord, Hash)]
pub enum StaticVerdict {
    SupportedIncompatibility,
    CompatibleWithinAnalyzedFragment,
    InsufficientEvidence,
}

/// Strength of the foreign evidence behind a verdict.
#[derive(Clone, Copy, Debug, PartialEq, Eq, PartialOrd, Ord, Hash)]
pub enum EvidenceGrade {
    /// Degraded Q3: an indirect call on the same slot exists.
    SameSlotInvokeCandidate,
    ReachableMayInvoke,
    PathSupportedLateInvoke,
    GuardDefeated,
}

/// Witness status. Orthogonal to the static verdict.
#[derive(Clone, Copy, Debug, PartialEq, Eq, PartialOrd, Ord, Hash)]
pub enum WitnessStatus {
    NotAttempted,
    Generated,
    Executed,
    ConfirmedCounterexample,
    Inconclusive,
}

/// The step that a witness still has to supply.
#[derive(Clone, Copy, Debug, PartialEq, Eq, PartialOrd, Ord, Hash)]
pub enum WitnessObligation {
    EstablishLateInvoke,
    EstablishJointTrace,
}

/// The judgement for one hand-off and one lifetime.
#[derive(Clone, Debug)]
pub struct CompatibilityVerdict {
    pub hand_off: HandOffId,
    pub subject: LifetimeSubject,
    pub static_verdict: StaticVerdict,
    pub evidence_grade: Option<EvidenceGrade>,
    pub witness_status: WitnessStatus,
    pub witness_obligation: Option<WitnessObligation>,
    pub assumptions: Vec<String>,
}

/// Three-valued answer for one conjunct of the relation.
#[derive(Clone, Copy, Debug, PartialEq, Eq)]
pub enum Tri {
    Denied,
    Possible,
    Unresolved,
}

pub open spec fn opt_text(o: Option<String>) -> Option<Seq<char>> {
    match o {
        Some(s) => Some(s@),
        None => None,
    }
}

pub open spec fn texts(v: Seq<String>) -> Seq<Seq<char>> {
    v.map_values(|s: String| s@)
}

fn opt_text_eq(a: &Option<String>, b: &Option<String>) -> (r: bool)
    ensures
        r == (opt_text(*a) == opt_text(*b)),
{
    match (a, b) {
        (Some(x), Some(y)) => *x == *y,
        (None, None) => true,
        _ => false,
    }
}

/// Equality of two optional indices.
pub fn opt_u32_eq(a: Option<u32>, b: Option<u32>) -> (r: bool)
    ensures
        r == (a == b),
{
    match (a, b) {
        (Some(x), Some(y)) => x == y,
        (None, None) => true,
        _ => false,
    }
}

/// The overlapping parts of the two half keys agree.
pub open spec fn spec_joins_with(rust: RustHandOffKey, foreign: ForeignHandOffKey) -> bool {
    &&& rust.build_profile@ == foreign.build_profile@
    &&& rust.foreign_symbol@ == foreign.foreign_symbol@
    &&& rust.callback_arg_index == foreign.callback_arg_index
    &&& rust.userdata_arg_index == foreign.userdata_arg_index
    &&& opt_text(rust.registration_key) == opt_text(foreign.registration_key)
}

impl RustHandOffKey {
    /// Whether the overlapping parts of the two half keys agree: build profile, symbol and the
    /// three argument roles.
    pub fn joins_with(&self, foreign: &ForeignHandOffKey) -> (b: bool)
        ensures
            b == spec_joins_with(*self, *foreign),
    {
        self.build_profile == foreign.build_profile && self.foreign_symbol == foreign.foreign_symbol
            && self.callback_arg_index == foreign.callback_arg_index && opt_u32_eq(
            self.userdata_arg_index,
            foreign.userdata_arg_index,
        ) && opt_text_eq(
            &self.registration_key,
            &foreign.registration_key,
        )
    }
}

/// `id` is the identity composed from the two half keys; the foreign artifact is empty when
/// the foreign side is absent.
pub open spec fn spec_is_hand_off_from_keys(
    id: HandOffId,
    rust: RustHandOffKey,
    foreign: Option<ForeignHandOffKey>,
) -> bool {
    &&& id.rust_artifact@ == rust.rust_artifact@
    &&& id.foreign_artifact@ == (match foreign {
        Some(f) => f.foreign_artifact@,
        None => Seq::<char>::empty(),
    })
    &&& id.build_profile@ == rust.build_profile@
    &&& id.safe_entry_instance@ == rust.safe_entry_instance@
    &&& id.rust_def_instance@ == rust.rust_def_instance@
    &&& id.call_occurrence@ == rust.call_occurrence@
    &&& id.foreign_symbol@ == rust.foreign_symbol@
    &&& id.callback_arg_index == rust.callback_arg_index
    &&& id.userdata_arg_index == rust.userdata_arg_index
    &&& opt_text(id.registration_key) == opt_text(rust.registration_key)
    &&& id.registration_generation == rust.registration_generation
}

pub open spec fn foreign_key_of(foreign: Option<ForeignBehaviorFact>) -> Option<ForeignHandOffKey> {
    match foreign {
        Some(f) => Some(f.hand_off),
        None => None,
    }
}

/// A copy of an optional text that is equal to it.
pub fn clone_opt_string(o: &Option<String>) -> (r: Option<String>)
    ensures
        r == *o,
{
    match o {
        Some(s) => Some(s.clone()),
        None => None,
    }
}

fn clone_opt_text(o: &Option<String>) -> (r: Option<String>)
    ensures
        opt_text(r) == opt_text(*o),
{
    match o {
        Some(s) => Some(s.clone()),
        None => None,
    }
}

impl Clone for RustHandOffKey {
    fn clone(&self) -> (r: Self)
        ensures
            r == *self,
    {
        RustHandOffKey {
            rust_artifact: self.rust_artifact.clone(),
            build_profile: self.build_profile.clone(),
            safe_entry_instance: self.safe_entry_instance.clone(),
            rust_def_instance: self.rust_def_instance.clone(),
            call_occurrence: self.call_occurrence.clone(),
            foreign_symbol: self.foreign_symbol.clone(),
            callback_arg_index: self.callback_arg_index,
            userdata_arg_index: self.userdata_arg_index,
            registration_key: clone_opt_string(&self.registration_key),
            registration_generation: self.registration_generation,
        }
    }
}

impl Clone for ForeignHandOffKey {
    fn clone(&self) -> (r: Self)
        ensures
            r == *self,
    {
        ForeignHandOffKey {
            foreign_artifact: self.foreign_artifact.clone(),
            build_profile: self.build_profile.clone(),
            foreign_symbol: self.foreign_symbol.clone(),
            callback_arg_index: self.callback_arg_index,
            userdata_arg_index: self.userdata_arg_index,
            registration_key: clone_opt_string(&self.registration_key),
        }
    }
}

impl Clone for HandOffId {
    fn clone(&self) -> (r: Self)
        ensures
            r == *self,
    {
        HandOffId {
            rust_artifact: self.rust_artifact.clone(),
            foreign_artifact: self.foreign_artifact.clone(),
            build_profile: self.build_profile.clone(),
            safe_entry_instance: self.safe_entry_instance.clone(),
            rust_def_instance: self.rust_def_instance.clone(),
            call_occurrence: self.call_occurrence.clone(),
            foreign_symbol: self.foreign_symbol.clone(),
            callback_arg_index: self.callback_arg_index,
            userdata_arg_index: self.userdata_arg_index,
            registration_key: clone_opt_string(&self.registration_key),
            registration_generation: self.registration_generation,
        }
    }
}

impl HandOffId {
    /// Composes the full identity from the two half keys. Only meant after the join check
    /// passed; without a foreign side the foreign artifact is the empty string.
    pub fn from_keys(rust: &RustHandOffKey, foreign: Option<&ForeignHandOffKey>) -> (id: Self)
        ensures
            spec_is_hand_off_from_keys(
                id,
                *rust,
                match foreign {
                    Some(f) => Some(*f),
                    None => None,
                },
            ),
    {
        let foreign_artifact = match foreign {
            Some(key) => key.foreign_artifact.clone(),
            None => String::new(),
        };
        HandOffId {
            rust_artifact: rust.rust_artifact.clone(),
            foreign_artifact,
            build_profile: rust.build_profile.clone(),
            safe_entry_instance: rust.safe_entry_instance.clone(),
            rust_def_instance: rust.rust_def_instance.clone(),
            call_occurrence: rust.call_occurrence.clone(),
            foreign_symbol: rust.foreign_symbol.clone(),
            callback_arg_index: rust.callback_arg_index,
            userdata_arg_index: rust.userdata_arg_index,
            registration_key: clone_opt_text(&rust.registration_key),
            registration_generation: rust.registration_generation,
        }
    }
}

pub open spec fn note_capture_unresolved() -> Seq<char> {
    "capture admission unresolved"@
}

pub open spec fn note_allocation_unresolved() -> Seq<char> {
    "allocation ownership unresolved"@
}

pub open spec fn note_guard_unresolved() -> Seq<char> {
    "registration guard shape unresolved"@
}

pub open spec fn note_guard_defeated() -> Seq<char> {
    "registration guard defeated by foreign clear evidence"@
}

pub open spec fn note_clear_unresolved() -> Seq<char> {
    "foreign clear effect unresolved"@
}

pub open spec fn note_guard_without_foreign() -> Seq<char> {
    "registration guard present but no foreign clear evidence; guard validity is a foreign-side question"@
}

pub open spec fn note_no_foreign_fact() -> Seq<char> {
    "no foreign behavior fact for this hand-off"@
}

pub open spec fn note_retention_unresolved() -> Seq<char> {
    "foreign retention unresolved"@
}

pub open spec fn note_invocation_unresolved() -> Seq<char> {
    "foreign invocation unresolved"@
}

pub open spec fn note_identity_mismatch() -> Seq<char> {
    "foreign fact hand-off identity does not match"@
}

pub open spec fn note_multiple_sites() -> Seq<char> {
    "the same foreign symbol is registered from more than one static site; attributing a runtime registration to this one needs a witness"@
}

pub open spec fn note_same_slot_only() -> Seq<char> {
    "late invoke supported only by same-slot indirect call; reachability must be established by a witness"@
}

pub open spec fn note_some_paths() -> Seq<char> {
    "retention happens on only some returning paths; joint trace feasibility not established"@
}

pub open spec fn note_path_unresolved() -> Seq<char> {
    "path compatibility unresolved"@
}

/// Whether the type shape alone decides separation for this lifetime, with its note.
pub open spec fn spec_separation_by_shape(rust: RustContractFact, subject: LifetimeSubject) -> (
    Tri,
    Seq<Seq<char>>,
) {
    match subject {
        LifetimeSubject::CapturedReferent => match rust.capture_admission {
            EffectiveCaptureAdmission::RequiresStaticCapture => (Tri::Denied, seq![]),
            EffectiveCaptureAdmission::PermitsNonStaticCapture => (Tri::Possible, seq![]),
            _ => (Tri::Unresolved, seq![note_capture_unresolved()]),
        },
        LifetimeSubject::CallbackAllocation => match rust.allocation {
            AllocationOwnership::ForeignOwnedUntilUnregister => (Tri::Denied, seq![]),
            AllocationOwnership::RustRetainsAndMayFreeEarly => (Tri::Possible, seq![]),
            AllocationOwnership::Unresolved => (Tri::Unresolved, seq![note_allocation_unresolved()]),
        },
    }
}

/// `SafeLifetimeSeparationPossible(X, Slot)`: the answer, whether the foreign clear evidence
/// defeated a guard, and the notes recorded on the way.
#[verifier::opaque]
pub open spec fn spec_separation(
    rust: RustContractFact,
    subject: LifetimeSubject,
    foreign: Option<ForeignBehaviorFact>,
) -> (Tri, bool, Seq<Seq<char>>) {
    let (by_shape, notes) = spec_separation_by_shape(rust, subject);
    if by_shape == Tri::Denied {
        (Tri::Denied, false, notes)
    } else {
        match rust.guard {
            RegistrationGuard::NoGuard => (by_shape, false, notes),
            RegistrationGuard::Unresolved => (
                Tri::Unresolved,
                false,
                notes.push(note_guard_unresolved()),
            ),
            _ => match foreign {
                Some(f) => match f.clear {
                    ForeignClear::ClearsOnAllPaths => (Tri::Denied, false, notes),
                    ForeignClear::MayLeaveSlotPopulated => (
                        by_shape,
                        true,
                        notes.push(note_guard_defeated()),
                    ),
                    ForeignClear::Unresolved => (
                        Tri::Unresolved,
                        false,
                        notes.push(note_clear_unresolved()),
                    ),
                },
                None => (Tri::Unresolved, false, notes.push(note_guard_without_foreign())),
            },
        }
    }
}

/// `ForeignLateUsePossible(Slot, X)` and its note.
#[verifier::opaque]
pub open spec fn spec_late_use(foreign: Option<ForeignBehaviorFact>) -> (Tri, Seq<Seq<char>>) {
    match foreign {
        None => (Tri::Unresolved, seq![note_no_foreign_fact()]),
        Some(f) => if f.retention == ForeignRetention::NoRetain {
            (Tri::Denied, seq![])
        } else if f.invocation == ForeignInvocation::SynchronousInvokeOnly {
            (Tri::Denied, seq![])
        } else if f.retention == ForeignRetention::MayRetain && f.invocation
            == ForeignInvocation::MayInvokeAfterReturn {
            (Tri::Possible, seq![])
        } else if f.retention == ForeignRetention::Unresolved {
            (Tri::Unresolved, seq![note_retention_unresolved()])
        } else {
            (Tri::Unresolved, seq![note_invocation_unresolved()])
        },
    }
}

/// The foreign fact that a judgement may combine: dropped when the identities do not join.
pub open spec fn spec_effective_foreign(
    rust: RustContractFact,
    foreign: Option<ForeignBehaviorFact>,
) -> Option<ForeignBehaviorFact> {
    match foreign {
        Some(f) => if spec_joins_with(rust.hand_off, f.hand_off) {
            Some(f)
        } else {
            None
        },
        None => None,
    }
}

pub open spec fn invoke_evidence_of(foreign: Option<ForeignBehaviorFact>) -> Option<EvidenceGrade> {
    match foreign {
        Some(f) => f.invoke_evidence,
        None => None,
    }
}

/// The verdict, evidence grade, witness obligation and the notes that the combination step
/// itself adds, given the two conjuncts.
#[verifier::opaque]
pub open spec fn spec_combine(
    separation: Tri,
    guard_defeated: bool,
    late_use: Tri,
    foreign: Option<ForeignBehaviorFact>,
) -> (StaticVerdict, Option<EvidenceGrade>, Option<WitnessObligation>, Seq<Seq<char>>) {
    let grade = if guard_defeated {
        Some(EvidenceGrade::GuardDefeated)
    } else {
        invoke_evidence_of(foreign)
    };
    if separation == Tri::Denied || late_use == Tri::Denied {
        (
            StaticVerdict::CompatibleWithinAnalyzedFragment,
            if guard_defeated {
                grade
            } else {
                None
            },
            None,
            seq![],
        )
    } else if separation == Tri::Possible && late_use == Tri::Possible {
        if invoke_evidence_of(foreign) == Some(EvidenceGrade::SameSlotInvokeCandidate) {
            (
                StaticVerdict::InsufficientEvidence,
                grade,
                Some(WitnessObligation::EstablishLateInvoke),
                seq![note_same_slot_only()],
            )
        } else {
            match foreign {
                Some(f) => match f.path_compatibility {
                    ForeignPathCompatibility::RetainOnEveryPath => (
                        StaticVerdict::SupportedIncompatibility,
                        grade,
                        None,
                        seq![],
                    ),
                    ForeignPathCompatibility::RetainOnSomePaths => (
                        StaticVerdict::InsufficientEvidence,
                        grade,
                        Some(WitnessObligation::EstablishJointTrace),
                        seq![note_some_paths()],
                    ),
                    ForeignPathCompatibility::Unresolved => (
                        StaticVerdict::InsufficientEvidence,
                        grade,
                        Some(WitnessObligation::EstablishJointTrace),
                        seq![note_path_unresolved()],
                    ),
                },
                None => (
                    StaticVerdict::InsufficientEvidence,
                    grade,
                    Some(WitnessObligation::EstablishJointTrace),
                    seq![note_path_unresolved()],
                ),
            }
        }
    } else {
        (StaticVerdict::InsufficientEvidence, grade, None, seq![])
    }
}

/// The full judgement of one hand-off for one lifetime: verdict, grade, obligation and the
/// ordered list of assumptions.
pub open spec fn spec_judgement(
    rust: RustContractFact,
    foreign: Option<ForeignBehaviorFact>,
    subject: LifetimeSubject,
) -> (StaticVerdict, Option<EvidenceGrade>, Option<WitnessObligation>, Seq<Seq<char>>) {
    let eff = spec_effective_foreign(rust, foreign);
    let identity_notes: Seq<Seq<char>> = if foreign is Some && eff is None {
        seq![note_identity_mismatch()]
    } else {
        seq![]
    };
    let site_notes: Seq<Seq<char>> = if rust.hand_off.registration_generation
        == RegistrationGeneration::MultipleStaticSites {
        seq![note_multiple_sites()]
    } else {
        seq![]
    };
    let (separation, guard_defeated, separation_notes) = spec_separation(rust, subject, eff);
    let (late_use, late_notes) = spec_late_use(eff);
    let (verdict, grade, obligation, combine_notes) = spec_combine(
        separation,
        guard_defeated,
        late_use,
        eff,
    );
    (
        verdict,
        grade,
        obligation,
        identity_notes + site_notes + separation_notes + late_notes + combine_notes,
    )
}

/// `v` is the judgement of `rust` against `foreign` for `subject`.
pub open spec fn is_judgement(
    v: CompatibilityVerdict,
    rust: RustContractFact,
    foreign: Option<ForeignBehaviorFact>,
    subject: LifetimeSubject,
) -> bool {
    let (verdict, grade, obligation, notes) = spec_judgement(rust, foreign, subject);
    &&& spec_is_hand_off_from_keys(
        v.hand_off,
        rust.hand_off,
        foreign_key_of(spec_effective_foreign(rust, foreign)),
    )
    &&& v.subject == subject
    &&& v.static_verdict == verdict
    &&& v.evidence_grade == grade
    &&& v.witness_status == WitnessStatus::NotAttempted
    &&& v.witness_obligation == obligation
    &&& texts(v.assumptions@) == notes
}

fn note(s: &str) -> (r: String)
    ensures
        r@ == s@,
{
    owned(s)
}

fn push_note(assumptions: &mut Vec<String>, s: &str)
    ensures
        texts(final(assumptions)@) == texts(old(assumptions)@).push(s@),
{
    let ghost before = assumptions@;
    assumptions.push(note(s));
    assert(texts(assumptions@) =~= texts(before).push(s@));
}

fn safe_lifetime_separation_possible(
    rust: &RustContractFact,
    subject: LifetimeSubject,
    foreign: Option<&ForeignBehaviorFact>,
    assumptions: &mut Vec<String>,
) -> (r: (Tri, bool))
    ensures
        ({
            let foreign_value = match foreign {
                Some(f) => Some(*f),
                None => None,
            };
            let (t, g, notes) = spec_separation(*rust, subject, foreign_value);
            &&& r == (t, g)
            &&& texts(final(assumptions)@) == texts(old(assumptions)@) + notes
        }),
{
    reveal(spec_separation);
    let ghost before = texts(assumptions@);
    let mut guard_defeated = false;
    let by_shape = match subject {
        LifetimeSubject::CapturedReferent => match rust.capture_admission {
            EffectiveCaptureAdmission::RequiresStaticCapture => Tri::Denied,
            EffectiveCaptureAdmission::PermitsNonStaticCapture => Tri::Possible,
            EffectiveCaptureAdmission::ContextDependent | EffectiveCaptureAdmission::Unresolved => {
                push_note(assumptions, "capture admission unresolved");
                Tri::Unresolved
            },
        },
        LifetimeSubject::CallbackAllocation => match rust.allocation {
            AllocationOwnership::ForeignOwnedUntilUnregister => Tri::Denied,
            AllocationOwnership::RustRetainsAndMayFreeEarly => Tri::Possible,
            AllocationOwnership::Unresolved => {
                push_note(assumptions, "allocation ownership unresolved");
                Tri::Unresolved
            },
        },
    };
    assert(texts(assumptions@) =~= before + spec_separation_by_shape(*rust, subject).1);
    if matches!(by_shape, Tri::Denied) {
        return (Tri::Denied, guard_defeated);
    }
    let by_guard = match rust.guard {
        RegistrationGuard::NoGuard => by_shape,
        RegistrationGuard::Unresolved => {
            push_note(assumptions, "registration guard shape unresolved");
            Tri::Unresolved
        },
        RegistrationGuard::TiesSlotToSubject | RegistrationGuard::OwnerDropUnregisters => {
            match foreign {
                Some(fact) => match fact.clear {
                    ForeignClear::ClearsOnAllPaths => Tri::Denied,
                    ForeignClear::MayLeaveSlotPopulated => {
                        guard_defeated = true;
                        push_note(
                            assumptions,
                            "registration guard defeated by foreign clear evidence",
                        );
                        by_shape
                    },
                    ForeignClear::Unresolved => {
                        push_note(assumptions, "foreign clear effect unresolved");
                        Tri::Unresolved
                    },
                },
                None => {
                    push_note(
                        assumptions,
                        "registration guard present but no foreign clear evidence; guard validity is a foreign-side question",
                    );
                    Tri::Unresolved
                },
            }
        },
    };
    (by_guard, guard_defeated)
}

fn foreign_late_use_possible(
    foreign: Option<&ForeignBehaviorFact>,
    assumptions: &mut Vec<String>,
) -> (r: Tri)
    ensures
        ({
            let foreign_value = match foreign {
                Some(f) => Some(*f),
                None => None,
            };
            let (t, notes) = spec_late_use(foreign_value);
            &&& r == t
            &&& texts(final(assumptions)@) == texts(old(assumptions)@) + notes
        }),
{
    reveal(spec_late_use);
    let ghost before = texts(assumptions@);
    match foreign {
        None => {
            push_note(assumptions, "no foreign behavior fact for this hand-off");
            Tri::Unresolved
        },
        Some(fact) => match (fact.retention, fact.invocation) {
            (ForeignRetention::NoRetain, _) => {
                assert(texts(assumptions@) =~= before + seq![]);
                Tri::Denied
            },
            (_, ForeignInvocation::SynchronousInvokeOnly) => {
                assert(texts(assumptions@) =~= before + seq![]);
                Tri::Denied
            },
            (ForeignRetention::MayRetain, ForeignInvocation::MayInvokeAfterReturn) => {
                assert(texts(assumptions@) =~= before + seq![]);
                Tri::Possible
            },
            (ForeignRetention::Unresolved, _) => {
                push_note(assumptions, "foreign retention unresolved");
                Tri::Unresolved
            },
            (_, ForeignInvocation::Unresolved) => {
                push_note(assumptions, "foreign invocation unresolved");
                Tri::Unresolved
            },
        },
    }
}

fn combine_verdict(
    separation: Tri,
    guard_defeated: bool,
    late_use: Tri,
    foreign: Option<&ForeignBehaviorFact>,
    assumptions: &mut Vec<String>,
) -> (r: (StaticVerdict, Option<EvidenceGrade>, Option<WitnessObligation>))
    ensures
        ({
            let foreign_value = match foreign {
                Some(f) => Some(*f),
                None => None,
            };
            let (v, g, o, notes) = spec_combine(separation, guard_defeated, late_use, foreign_value);
            &&& r == (v, g, o)
            &&& texts(final(assumptions)@) == texts(old(assumptions)@) + notes
        }),
{
    reveal(spec_combine);
    let ghost before = texts(assumptions@);
    let foreign_invoke = match foreign {
        Some(fact) => fact.invoke_evidence,
        None => None,
    };
    let grade = if guard_defeated {
        Some(EvidenceGrade::GuardDefeated)
    } else {
        foreign_invoke
    };
    if matches!(separation, Tri::Denied) || matches!(late_use, Tri::Denied) {
        assert(texts(assumptions@) =~= before + seq![]);
        let kept = if guard_defeated {
            grade
        } else {
            None
        };
        (StaticVerdict::CompatibleWithinAnalyzedFragment, kept, None)
    } else if matches!(separation, Tri::Possible) && matches!(late_use, Tri::Possible) {
        if matches!(foreign_invoke, Some(EvidenceGrade::SameSlotInvokeCandidate)) {
            push_note(
                assumptions,
                "late invoke supported only by same-slot indirect call; reachability must be established by a witness",
            );
            (
                StaticVerdict::InsufficientEvidence,
                grade,
                Some(WitnessObligation::EstablishLateInvoke),
            )
        } else {
            match foreign {
                Some(fact) => match fact.path_compatibility {
                    ForeignPathCompatibility::RetainOnEveryPath => {
                        assert(texts(assumptions@) =~= before + seq![]);
                        (StaticVerdict::SupportedIncompatibility, grade, None)
                    },
                    ForeignPathCompatibility::RetainOnSomePaths => {
                        push_note(
                            assumptions,
                            "retention happens on only some returning paths; joint trace feasibility not established",
                        );
                        (
                            StaticVerdict::InsufficientEvidence,
                            grade,
                            Some(WitnessObligation::EstablishJointTrace),
                        )
                    },
                    ForeignPathCompatibility::Unresolved => {
                        push_note(assumptions, "path compatibility unresolved");
                        (
                            StaticVerdict::InsufficientEvidence,
                            grade,
                            Some(WitnessObligation::EstablishJointTrace),
                        )
                    },
                },
                None => {
                    push_note(assumptions, "path compatibility unresolved");
                    (
                        StaticVerdict::InsufficientEvidence,
                        grade,
                        Some(WitnessObligation::EstablishJointTrace),
                    )
                },
            }
        }
    } else {
        assert(texts(assumptions@) =~= before + seq![]);
        (StaticVerdict::InsufficientEvidence, grade, None)
    }
}

/// Judges one hand-off for one lifetime. Without a foreign fact (the Rust-only variant) a
/// guard-protected API is never judged compatible: guard validity is a foreign-side question.
#[verifier::rlimit(30)]
pub fn judge(
    rust: &RustContractFact,
    foreign: Option<&ForeignBehaviorFact>,
    subject: LifetimeSubject,
) -> (v: CompatibilityVerdict)
    ensures
        is_judgement(
            v,
            *rust,
            match foreign {
                Some(f) => Some(*f),
                None => None,
            },
            subject,
        ),
{
    let ghost foreign_value = match foreign {
        Some(f) => Some(*f),
        None => None,
    };
    let mut assumptions: Vec<String> = Vec::new();
    let foreign = match foreign {
        Some(fact) => if !rust.hand_off.joins_with(&fact.hand_off) {
            push_note(&mut assumptions, "foreign fact hand-off identity does not match");
            None
        } else {
            Some(fact)
        },
        None => None,
    };
    let ghost eff = spec_effective_foreign(*rust, foreign_value);
    assert(eff == match foreign {
        Some(f) => Some(*f),
        None => None,
    });
    let ghost after_identity = texts(assumptions@);
    if matches!(rust.hand_off.registration_generation, RegistrationGeneration::MultipleStaticSites) {
        push_note(
            &mut assumptions,
            "the same foreign symbol is registered from more than one static site; attributing a runtime registration to this one needs a witness",
        );
    }
    let ghost after_sites = texts(assumptions@);
    let (separation, guard_defeated) = safe_lifetime_separation_possible(
        rust,
        subject,
        foreign,
        &mut assumptions,
    );
    let late_use = foreign_late_use_possible(foreign, &mut assumptions);
    let ghost before_combine = texts(assumptions@);
    let (static_verdict, evidence_grade, witness_obligation) = combine_verdict(
        separation,
        guard_defeated,
        late_use,
        foreign,
        &mut assumptions,
    );
    let ghost (sv, sg, so, snotes) = spec_judgement(*rust, foreign_value, subject);
    let ghost (cv, cg, co, cnotes) = spec_combine(separation, guard_defeated, late_use, eff);
    assert(texts(assumptions@) =~= snotes);
    let hand_off = HandOffId::from_keys(
        &rust.hand_off,
        match foreign {
            Some(fact) => Some(&fact.hand_off),
            None => None,
        },
    );
    CompatibilityVerdict {
        hand_off,
        subject,
        static_verdict,
        evidence_grade,
        witness_status: WitnessStatus::NotAttempted,
        witness_obligation,
        assumptions,
    }
}

/// Judges the two lifetimes of one hand-off separately, captured referent first. The two
/// verdicts are never merged into one.
pub fn judge_hand_off(rust: &RustContractFact, foreign: Option<&ForeignBehaviorFact>) -> (v: Vec<
    CompatibilityVerdict,
>)
    ensures
        v@.len() == 2,
        is_judgement(
            v@[0],
            *rust,
            match foreign {
                Some(f) => Some(*f),
                None => None,
            },
            LifetimeSubject::CapturedReferent,
        ),
        is_judgement(
            v@[1],
            *rust,
            match foreign {
                Some(f) => Some(*f),
                None => None,
            },
            LifetimeSubject::CallbackAllocation,
        ),
{
    let mut v: Vec<CompatibilityVerdict> = Vec::new();
    v.push(judge(rust, foreign, LifetimeSubject::CapturedReferent));
    v.push(judge(rust, foreign, LifetimeSubject::CallbackAllocation));
    v
}

/// Whether any lifetime of the hand-off was judged incompatible.
pub fn hand_off_is_incompatible(verdicts: &[CompatibilityVerdict]) -> (b: bool)
    ensures
        b == exists|i: int|
            0 <= i < verdicts@.len() && #[trigger] verdicts@[i].static_verdict
                == StaticVerdict::SupportedIncompatibility,
{
    let mut i: usize = 0;
    while i < verdicts.len()
        invariant
            0 <= i <= verdicts@.len(),
            forall|k: int|
                0 <= k < i ==> #[trigger] verdicts@[k].static_verdict
                    != StaticVerdict::SupportedIncompatibility,
        decreases verdicts.len() - i,
    {
        if matches!(verdicts[i].static_verdict, StaticVerdict::SupportedIncompatibility) {
            return true;
        }
        i = i + 1;
    }
    false
}

/// Why the Rust contract fact of a hand-off could not be assembled.
#[derive(Clone, Copy, Debug, PartialEq, Eq)]
pub enum RustContractGap {
    MissingCaptureAdmission,
    MissingGuard,
    MissingAllocationOwnership,
    MissingSafeEntryLineage,
    /// A safe client cannot reach this hand-off.
    NotReachableFromSafeEntry,
    SafeEntryLineageUnresolved,
    /// Without a symbol there is no join key.
    MissingForeignSymbol,
    /// A binding fact exists but no symbol or callback index was resolved.
    ForeignSymbolUnresolved,
}

/// Result of the assembly at one hand-off: the full contract fact, or what is missing.
#[derive(Clone, Debug)]
pub enum RustContractAssembly {
    Assembled(Box<RustContractFact>),
    Gap { api_id: String, callback_param: String, gaps: Vec<RustContractGap> },
}

/// The `(api_id, callback_param)` key of a fact that takes part in the assembly.
pub open spec fn fact_key(e: StaticFactEnvelope) -> Option<(Seq<char>, Seq<char>)> {
    match e.payload {
        StaticFact::CallbackLifetimeBound(f) => Some((f.api_id@, f.callback_param@)),
        StaticFact::RegistrationGuard(f) => Some((f.api_id@, f.callback_param@)),
        StaticFact::AllocationOwnership(f) => Some((f.api_id@, f.callback_param@)),
        StaticFact::SafeEntryLineage(f) => Some((f.api_id@, f.callback_param@)),
        StaticFact::ForeignSymbolBinding(f) => Some((f.api_id@, f.callback_param@)),
        _ => None,
    }
}

/// The site id of a fact that takes part in the assembly.
pub open spec fn fact_site(e: StaticFactEnvelope) -> Seq<char> {
    match e.payload {
        StaticFact::CallbackLifetimeBound(f) => f.site_id.0@,
        StaticFact::RegistrationGuard(f) => f.site_id.0@,
        StaticFact::AllocationOwnership(f) => f.site_id.0@,
        StaticFact::SafeEntryLineage(f) => f.site_id.0@,
        StaticFact::ForeignSymbolBinding(f) => f.site_id.0@,
        _ => Seq::empty(),
    }
}

/// The capture admission of the last lifetime-bound fact with this key.
pub open spec fn last_admission(facts: Seq<StaticFactEnvelope>, key: (Seq<char>, Seq<char>)) -> Option<
    EffectiveCaptureAdmission,
>
    decreases facts.len(),
{
    if facts.len() == 0 {
        None
    } else {
        match facts.last().payload {
            StaticFact::CallbackLifetimeBound(f) if (f.api_id@, f.callback_param@) == key => Some(
                spec_effective_capture_admission(f.bound_scope),
            ),
            _ => last_admission(facts.drop_last(), key),
        }
    }
}

/// The guard of the last registration-guard fact with this key.
pub open spec fn last_guard(facts: Seq<StaticFactEnvelope>, key: (Seq<char>, Seq<char>)) -> Option<
    RegistrationGuard,
>
    decreases facts.len(),
{
    if facts.len() == 0 {
        None
    } else {
        match facts.last().payload {
            StaticFact::RegistrationGuard(f) if (f.api_id@, f.callback_param@) == key => Some(
                f.guard,
            ),
            _ => last_guard(facts.drop_last(), key),
        }
    }
}

/// The ownership of the last allocation-ownership fact with this key.
pub open spec fn last_allocation(facts: Seq<StaticFactEnvelope>, key: (Seq<char>, Seq<char>)) -> Option<
    AllocationOwnership,
>
    decreases facts.len(),
{
    if facts.len() == 0 {
        None
    } else {
        match facts.last().payload {
            StaticFact::AllocationOwnership(f) if (f.api_id@, f.callback_param@) == key => Some(
                f.ownership,
            ),
            _ => last_allocation(facts.drop_last(), key),
        }
    }
}

/// The last safe-entry lineage fact with this key.
pub open spec fn last_lineage(facts: Seq<StaticFactEnvelope>, key: (Seq<char>, Seq<char>)) -> Option<
    SafeEntryLineageFact,
>
    decreases facts.len(),
{
    if facts.len() == 0 {
        None
    } else {
        match facts.last().payload {
            StaticFact::SafeEntryLineage(f) if (f.api_id@, f.callback_param@) == key => Some(f),
            _ => last_lineage(facts.drop_last(), key),
        }
    }
}

/// The last foreign-symbol binding fact with this key.
pub open spec fn last_binding(facts: Seq<StaticFactEnvelope>, key: (Seq<char>, Seq<char>)) -> Option<
    ForeignSymbolBindingFact,
>
    decreases facts.len(),
{
    if facts.len() == 0 {
        None
    } else {
        match facts.last().payload {
            StaticFact::ForeignSymbolBinding(f) if (f.api_id@, f.callback_param@) == key => Some(f),
            _ => last_binding(facts.drop_last(), key),
        }
    }
}

/// The site ids of the facts with this key, in input order.
pub open spec fn key_evidence(facts: Seq<StaticFactEnvelope>, key: (Seq<char>, Seq<char>)) -> Seq<
    Seq<char>,
>
    decreases facts.len(),
{
    if facts.len() == 0 {
        Seq::empty()
    } else if fact_key(facts.last()) == Some(key) {
        key_evidence(facts.drop_last(), key).push(fact_site(facts.last()))
    } else {
        key_evidence(facts.drop_last(), key)
    }
}

/// What is missing at a key, in the fixed order admission, guard, allocation, lineage, symbol.
pub open spec fn spec_gaps(facts: Seq<StaticFactEnvelope>, key: (Seq<char>, Seq<char>)) -> Seq<
    RustContractGap,
> {
    let g0: Seq<RustContractGap> = if last_admission(facts, key) is None {
        seq![RustContractGap::MissingCaptureAdmission]
    } else {
        seq![]
    };
    let g1: Seq<RustContractGap> = if last_guard(facts, key) is None {
        seq![RustContractGap::MissingGuard]
    } else {
        seq![]
    };
    let g2: Seq<RustContractGap> = if last_allocation(facts, key) is None {
        seq![RustContractGap::MissingAllocationOwnership]
    } else {
        seq![]
    };
    let g3: Seq<RustContractGap> = match last_lineage(facts, key) {
        None => seq![RustContractGap::MissingSafeEntryLineage],
        Some(l) => match l.lineage {
            SafeEntryLineage::NoPublicSafeEntry => seq![RustContractGap::NotReachableFromSafeEntry],
            SafeEntryLineage::Unresolved => seq![RustContractGap::SafeEntryLineageUnresolved],
            _ => seq![],
        },
    };
    let g4: Seq<RustContractGap> = match last_binding(facts, key) {
        None => seq![RustContractGap::MissingForeignSymbol],
        Some(b) => if b.symbol is None || b.callback_arg_index is None {
            seq![RustContractGap::ForeignSymbolUnresolved]
        } else {
            seq![]
        },
    };
    g0 + g1 + g2 + g3 + g4
}

/// Strict order of keys: by api id, then by callback parameter.
pub open spec fn key_lt(a: (Seq<char>, Seq<char>), b: (Seq<char>, Seq<char>)) -> bool {
    text_lt(a.0, b.0) || (a.0 == b.0 && text_lt(a.1, b.1))
}

/// `ks` lists every key of the facts exactly once, in strictly increasing order.
pub open spec fn is_key_order_of(ks: Seq<(Seq<char>, Seq<char>)>, facts: Seq<StaticFactEnvelope>) -> bool {
    &&& forall|i: int| 0 <= i < ks.len() - 1 ==> key_lt(#[trigger] ks[i], ks[i + 1])
    &&& forall|k: (Seq<char>, Seq<char>)|
        ks.contains(k) <==> exists|i: int| 0 <= i < facts.len() && fact_key(#[trigger] facts[i]) == Some(k)
}

/// The resolved symbol of a key's last binding fact.
pub open spec fn key_symbol(facts: Seq<StaticFactEnvelope>, key: (Seq<char>, Seq<char>)) -> Option<
    Seq<char>,
> {
    match last_binding(facts, key) {
        Some(b) => match b.symbol {
            Some(s) => Some(s@),
            None => None,
        },
        None => None,
    }
}

/// How many of the keys register the symbol.
pub open spec fn symbol_site_count(
    ks: Seq<(Seq<char>, Seq<char>)>,
    facts: Seq<StaticFactEnvelope>,
    symbol: Seq<char>,
) -> nat
    decreases ks.len(),
{
    if ks.len() == 0 {
        0
    } else {
        symbol_site_count(ks.drop_last(), facts, symbol) + if key_symbol(facts, ks.last()) == Some(
            symbol,
        ) {
            1nat
        } else {
            0nat
        }
    }
}

pub open spec fn generation_for_count(count: nat) -> RegistrationGeneration {
    if count == 1 {
        RegistrationGeneration::UniqueStaticSite
    } else if count == 0 {
        RegistrationGeneration::Unresolved
    } else {
        RegistrationGeneration::MultipleStaticSites
    }
}

/// `a` is what the assembly produces for `key`.
pub open spec fn is_assembly_for(
    a: RustContractAssembly,
    facts: Seq<StaticFactEnvelope>,
    ks: Seq<(Seq<char>, Seq<char>)>,
    key: (Seq<char>, Seq<char>),
    build: RustHandOffBuildContext,
) -> bool {
    let gaps = spec_gaps(facts, key);
    if gaps.len() > 0 {
        a matches RustContractAssembly::Gap { api_id, callback_param, gaps: g } && api_id@ == key.0
            && callback_param@ == key.1 && g@ == gaps
    } else {
        a matches RustContractAssembly::Assembled(f) && {
            let binding = last_binding(facts, key)->0;
            let lineage = last_lineage(facts, key)->0;
            let symbol = binding.symbol->0@;
            &&& f.hand_off.rust_artifact@ == build.rust_artifact@
            &&& f.hand_off.build_profile@ == build.build_profile@
            &&& f.hand_off.safe_entry_instance@ == (match lineage.entry_def_path {
                Some(p) => p@,
                None => key.0,
            })
            &&& f.hand_off.rust_def_instance@ == key.0
            &&& f.hand_off.call_occurrence@ == binding.site_id.0@
            &&& f.hand_off.foreign_symbol@ == symbol
            &&& f.hand_off.callback_arg_index == binding.callback_arg_index->0
            &&& f.hand_off.userdata_arg_index == binding.userdata_arg_index
            &&& f.hand_off.registration_key is None
            &&& f.hand_off.registration_generation == generation_for_count(
                symbol_site_count(ks, facts, symbol),
            )
            &&& f.capture_admission == last_admission(facts, key)->0
            &&& f.guard == last_guard(facts, key)->0
            &&& f.allocation == last_allocation(facts, key)->0
            &&& texts_sorted(texts(f.evidence@))
            &&& texts(f.evidence@).to_multiset() == key_evidence(facts, key).to_multiset()
        }
    }
}

/// Exec-side record of what is known at one key.
struct Parts {
    admission: Option<EffectiveCaptureAdmission>,
    guard: Option<RegistrationGuard>,
    allocation: Option<AllocationOwnership>,
    lineage: Option<SafeEntryLineage>,
    entry_def_path: Option<String>,
    binding: Option<ForeignSymbolBindingFact>,
    evidence: Vec<String>,
}

/// The key of a participating fact, as owned texts.
fn fact_key_exec(e: &StaticFactEnvelope) -> (r: Option<(&String, &String)>)
    ensures
        match fact_key(*e) {
            Some(k) => r matches Some(p) && p.0@ == k.0 && p.1@ == k.1,
            None => r is None,
        },
{
    match &e.payload {
        StaticFact::CallbackLifetimeBound(f) => Some((&f.api_id, &f.callback_param)),
        StaticFact::RegistrationGuard(f) => Some((&f.api_id, &f.callback_param)),
        StaticFact::AllocationOwnership(f) => Some((&f.api_id, &f.callback_param)),
        StaticFact::SafeEntryLineage(f) => Some((&f.api_id, &f.callback_param)),
        StaticFact::ForeignSymbolBinding(f) => Some((&f.api_id, &f.callback_param)),
        _ => None,
    }
}

fn key_less(a0: &String, a1: &String, b0: &String, b1: &String) -> (r: bool)
    ensures
        r == key_lt((a0@, a1@), (b0@, b1@)),
{
    text_less(a0.as_str(), b0.as_str()) || (*a0 == *b0 && text_less(a1.as_str(), b1.as_str()))
}

pub open spec fn key_views(v: Seq<(String, String)>) -> Seq<(Seq<char>, Seq<char>)> {
    v.map_values(|p: (String, String)| (p.0@, p.1@))
}

proof fn lemma_key_lt_facts(a: (Seq<char>, Seq<char>), b: (Seq<char>, Seq<char>))
    ensures
        key_lt(a, b) ==> !key_lt(b, a),
        a != b ==> key_lt(a, b) || key_lt(b, a),
{
    lemma_text_lt_asymmetric(a.0, b.0);
    lemma_text_lt_asymmetric(b.0, a.0);
    lemma_text_lt_asymmetric(a.1, b.1);
    lemma_text_lt_total(a.0, b.0);
    lemma_text_lt_total(a.1, b.1);
}

/// Every key of the facts once, in strictly increasing order.
fn collect_keys(facts: &[StaticFactEnvelope]) -> (ks: Vec<(String, String)>)
    ensures
        is_key_order_of(key_views(ks@), facts@),
{
    let mut ks: Vec<(String, String)> = Vec::new();
    let mut i: usize = 0;
    while i < facts.len()
        invariant
            0 <= i <= facts.len(),
            is_key_order_of(key_views(ks@), facts@.take(i as int)),
        decreases facts.len() - i,
    {
        let ghost before = key_views(ks@);
        assert forall|k: (Seq<char>, Seq<char>)| (exists|j: int| 0 <= j < i + 1 && fact_key(#[trigger] facts@.take(i + 1)[j]) == Some(k))
            <==> (exists|j: int| 0 <= j < i && fact_key(#[trigger] facts@.take(i as int)[j]) == Some(k)) || fact_key(facts@[i as int]) == Some(k) by {
            if exists|j: int| 0 <= j < i + 1 && fact_key(#[trigger] facts@.take(i + 1)[j]) == Some(k) {
                let j = choose|j: int| 0 <= j < i + 1 && fact_key(#[trigger] facts@.take(i + 1)[j]) == Some(k);
                if j < i {
                    assert(facts@.take(i as int)[j] == facts@.take(i + 1)[j]);
                }
            }
            if exists|j: int| 0 <= j < i && fact_key(#[trigger] facts@.take(i as int)[j]) == Some(k) {
                let j = choose|j: int| 0 <= j < i && fact_key(#[trigger] facts@.take(i as int)[j]) == Some(k);
                assert(facts@.take(i as int)[j] == facts@.take(i + 1)[j]);
            }
            if fact_key(facts@[i as int]) == Some(k) {
                assert(facts@.take(i + 1)[i as int] == facts@[i as int]);
            }
        }
        match fact_key_exec(&facts[i]) {
            None => {},
            Some((api, param)) => {
                let ghost new_key = (api@, param@);
                let mut q: usize = 0;
                let mut found = false;
                while q < ks.len()
                    invariant
                        0 <= q <= ks.len(),
                        key_views(ks@) == before,
                        new_key == (api@, param@),
                        found == exists|r: int| 0 <= r < q && before[r] == new_key,
                    decreases ks.len() - q,
                {
                    assert(before[q as int] == (ks@[q as int].0@, ks@[q as int].1@));
                    let same = ks[q].0 == *api && ks[q].1 == *param;
                    assert(same == (ks@[q as int].0@ == api@ && ks@[q as int].1@ == param@));
                    assert(same == (before[q as int] == new_key));
                    if same {
                        found = true;
                    }
                    q = q + 1;
                }
                if !found {
                    let mut p: usize = 0;
                    while p < ks.len() && !key_less(api, param, &ks[p].0, &ks[p].1)
                        invariant
                            0 <= p <= ks.len(),
                            key_views(ks@) == before,
                            new_key == (api@, param@),
                            forall|r: int| 0 <= r < p ==> !key_lt(new_key, #[trigger] before[r]),
                        decreases ks.len() - p,
                    {
                        assert(before[p as int] == (ks@[p as int].0@, ks@[p as int].1@));
                        p = p + 1;
                    }
                    ks.insert(p, (api.clone(), param.clone()));
                    let ghost after = key_views(ks@);
                    assert(after =~= before.insert(p as int, new_key));
                    assert forall|r: int| 0 <= r < after.len() - 1 implies key_lt(
                        #[trigger] after[r],
                        after[r + 1],
                    ) by {
                        if r < p as int - 1 {
                            assert(after[r] == before[r] && after[r + 1] == before[r + 1]);
                        } else if r == p as int - 1 {
                            assert(after[r] == before[r]);
                            assert(before[r] != new_key);
                            lemma_key_lt_facts(before[r], new_key);
                        } else if r == p as int {
                            assert(after[r + 1] == before[r]);
                        } else {
                            assert(after[r] == before[r - 1] && after[r + 1] == before[r]);
                        }
                    }
                    assert forall|k: (Seq<char>, Seq<char>)| after.contains(k) <==> (before.contains(k) || k == new_key) by {
                        if after.contains(k) {
                            let r = choose|r: int| 0 <= r < after.len() && after[r] == k;
                            if r < p {
                                assert(before[r] == k);
                            } else if r > p {
                                assert(before[r - 1] == k);
                            }
                        }
                        if before.contains(k) {
                            let r = choose|r: int| 0 <= r < before.len() && before[r] == k;
                            if r < p {
                                assert(after[r] == k);
                            } else {
                                assert(after[r + 1] == k);
                            }
                        }
                        if k == new_key {
                            assert(after[p as int] == k);
                        }
                    }
                } else {
                    assert(before.contains(new_key));
                }
            },
        }
        i = i + 1;
    }
    assert(facts@.take(facts@.len() as int) =~= facts@);
    ks
}

/// Gathers what the facts say about one key, in input order: the last fact of each kind wins.
fn parts_for_key(facts: &[StaticFactEnvelope], api: &String, param: &String) -> (parts: Parts)
    ensures
        parts.admission == last_admission(facts@, (api@, param@)),
        parts.guard == last_guard(facts@, (api@, param@)),
        parts.allocation == last_allocation(facts@, (api@, param@)),
        parts.lineage == (match last_lineage(facts@, (api@, param@)) {
            Some(l) => Some(l.lineage),
            None => None,
        }),
        opt_text(parts.entry_def_path) == (match last_lineage(facts@, (api@, param@)) {
            Some(l) => opt_text(l.entry_def_path),
            None => None,
        }),
        parts.binding == last_binding(facts@, (api@, param@)),
        texts(parts.evidence@) == key_evidence(facts@, (api@, param@)),
{
    let ghost key = (api@, param@);
    let mut parts = Parts {
        admission: None,
        guard: None,
        allocation: None,
        lineage: None,
        entry_def_path: None,
        binding: None,
        evidence: Vec::new(),
    };
    let mut i: usize = 0;
    while i < facts.len()
        invariant
            0 <= i <= facts.len(),
            key == (api@, param@),
            parts.admission == last_admission(facts@.take(i as int), key),
            parts.guard == last_guard(facts@.take(i as int), key),
            parts.allocation == last_allocation(facts@.take(i as int), key),
            parts.lineage == (match last_lineage(facts@.take(i as int), key) {
                Some(l) => Some(l.lineage),
                None => None,
            }),
            opt_text(parts.entry_def_path) == (match last_lineage(facts@.take(i as int), key) {
                Some(l) => opt_text(l.entry_def_path),
                None => None,
            }),
            parts.binding == last_binding(facts@.take(i as int), key),
            texts(parts.evidence@) == key_evidence(facts@.take(i as int), key),
        decreases facts.len() - i,
    {
        let ghost prefix = facts@.take(i + 1);
        assert(prefix.drop_last() =~= facts@.take(i as int));
        assert(prefix.last() == facts@[i as int]);
        let ghost ev_before = parts.evidence@;
        match &facts[i].payload {
            StaticFact::CallbackLifetimeBound(f) => {
                if f.api_id == *api && f.callback_param == *param {
                    parts.admission = Some(f.bound_scope.effective_capture_admission());
                    parts.evidence.push(f.site_id.0.clone());
                }
            },
            StaticFact::RegistrationGuard(f) => {
                if f.api_id == *api && f.callback_param == *param {
                    parts.guard = Some(f.guard);
                    parts.evidence.push(f.site_id.0.clone());
                }
            },
            StaticFact::AllocationOwnership(f) => {
                if f.api_id == *api && f.callback_param == *param {
                    parts.allocation = Some(f.ownership);
                    parts.evidence.push(f.site_id.0.clone());
                }
            },
            StaticFact::SafeEntryLineage(f) => {
                if f.api_id == *api && f.callback_param == *param {
                    parts.lineage = Some(f.lineage);
                    parts.entry_def_path = clone_opt_string(&f.entry_def_path);
                    parts.evidence.push(f.site_id.0.clone());
                }
            },
            StaticFact::ForeignSymbolBinding(f) => {
                if f.api_id == *api && f.callback_param == *param {
                    parts.binding = Some(f.clone());
                    parts.evidence.push(f.site_id.0.clone());
                }
            },
            _ => {},
        }
        assert(texts(parts.evidence@) =~= key_evidence(prefix, key));
        i = i + 1;
    }
    assert(facts@.take(facts@.len() as int) =~= facts@);
    parts
}

pub open spec fn symbol_views(v: Seq<Option<String>>) -> Seq<Option<Seq<char>>> {
    v.map_values(|o: Option<String>| opt_text(o))
}

/// Number of keys whose resolved symbol is `symbol`, given each key's symbol.
fn count_symbol_sites(
    symbols: &Vec<Option<String>>,
    symbol: &String,
    Ghost(ks): Ghost<Seq<(Seq<char>, Seq<char>)>>,
    Ghost(facts): Ghost<Seq<StaticFactEnvelope>>,
) -> (count: usize)
    requires
        symbols@.len() == ks.len(),
        forall|j: int| 0 <= j < ks.len() ==> opt_text(#[trigger] symbols@[j]) == key_symbol(facts, ks[j]),
    ensures
        count == symbol_site_count(ks, facts, symbol@),
{
    let mut count: usize = 0;
    let mut j: usize = 0;
    while j < symbols.len()
        invariant
            0 <= j <= symbols@.len(),
            symbols@.len() == ks.len(),
            forall|k: int| 0 <= k < ks.len() ==> opt_text(#[trigger] symbols@[k]) == key_symbol(facts, ks[k]),
            count == symbol_site_count(ks.take(j as int), facts, symbol@),
            count <= j,
        decreases symbols.len() - j,
    {
        assert(ks.take(j + 1).drop_last() =~= ks.take(j as int));
        assert(ks.take(j + 1).last() == ks[j as int]);
        assert(opt_text(symbols@[j as int]) == key_symbol(facts, ks[j as int]));
        match &symbols[j] {
            Some(s) => {
                if *s == *symbol {
                    count = count + 1;
                }
            },
            None => {},
        }
        j = j + 1;
    }
    assert(ks.take(ks.len() as int) =~= ks);
    count
}

/// Assembles, per `(api_id, callback_param)`, the three Rust-side facts with safe-entry
/// lineage and the foreign symbol binding into a contract fact, or records what is missing.
/// Output is in key order; evidence is sorted.
pub fn assemble_rust_contract_facts(
    facts: &[StaticFactEnvelope],
    build: &RustHandOffBuildContext,
) -> (out: Vec<RustContractAssembly>)
    ensures
        exists|ks: Seq<(Seq<char>, Seq<char>)>|
            {
                &&& is_key_order_of(ks, facts@)
                &&& out@.len() == ks.len()
                &&& forall|i: int|
                    0 <= i < ks.len() ==> is_assembly_for(#[trigger] out@[i], facts@, ks, ks[i], *build)
            },
{
    let keys = collect_keys(facts);
    let ghost ks = key_views(keys@);
    let mut all_parts: Vec<Parts> = Vec::new();
    let mut symbols: Vec<Option<String>> = Vec::new();
    let mut j: usize = 0;
    while j < keys.len()
        invariant
            0 <= j <= keys@.len(),
            ks == key_views(keys@),
            all_parts@.len() == j,
            symbols@.len() == j,
            forall|k: int|
                0 <= k < j ==> {
                    let key = #[trigger] ks[k];
                    let p = all_parts@[k];
                    &&& p.admission == last_admission(facts@, key)
                    &&& p.guard == last_guard(facts@, key)
                    &&& p.allocation == last_allocation(facts@, key)
                    &&& p.lineage == (match last_lineage(facts@, key) {
                        Some(l) => Some(l.lineage),
                        None => None,
                    })
                    &&& opt_text(p.entry_def_path) == (match last_lineage(facts@, key) {
                        Some(l) => opt_text(l.entry_def_path),
                        None => None,
                    })
                    &&& p.binding == last_binding(facts@, key)
                    &&& texts(p.evidence@) == key_evidence(facts@, key)
                    &&& opt_text(symbols@[k]) == key_symbol(facts@, key)
                },
        decreases keys.len() - j,
    {
        assert(ks[j as int] == (keys@[j as int].0@, keys@[j as int].1@));
        let parts = parts_for_key(facts, &keys[j].0, &keys[j].1);
        let symbol = match &parts.binding {
            Some(b) => clone_opt_string(&b.symbol),
            None => None,
        };
        symbols.push(symbol);
        all_parts.push(parts);
        j = j + 1;
    }
    let mut out: Vec<RustContractAssembly> = Vec::new();
    let mut j: usize = 0;
    while j < keys.len()
        invariant
            0 <= j <= keys@.len(),
            ks == key_views(keys@),
            is_key_order_of(ks, facts@),
            all_parts@.len() == keys@.len(),
            symbols@.len() == keys@.len(),
            out@.len() == j,
            forall|k: int|
                0 <= k < keys@.len() ==> {
                    let key = #[trigger] ks[k];
                    let p = all_parts@[k];
                    &&& p.admission == last_admission(facts@, key)
                    &&& p.guard == last_guard(facts@, key)
                    &&& p.allocation == last_allocation(facts@, key)
                    &&& p.lineage == (match last_lineage(facts@, key) {
                        Some(l) => Some(l.lineage),
                        None => None,
                    })
                    &&& opt_text(p.entry_def_path) == (match last_lineage(facts@, key) {
                        Some(l) => opt_text(l.entry_def_path),
                        None => None,
                    })
                    &&& p.binding == last_binding(facts@, key)
                    &&& texts(p.evidence@) == key_evidence(facts@, key)
                    &&& opt_text(symbols@[k]) == key_symbol(facts@, key)
                },
            forall|k: int| 0 <= k < j ==> is_assembly_for(#[trigger] out@[k], facts@, ks, ks[k], *build),
        decreases keys.len() - j,
    {
        assert(ks[j as int] == (keys@[j as int].0@, keys@[j as int].1@));
        let ghost key = ks[j as int];
        let item = assembly_for_key(
            &keys[j].0,
            &keys[j].1,
            &all_parts[j],
            &symbols,
            build,
            Ghost(ks),
            Ghost(facts@),
        );
        out.push(item);
        j = j + 1;
    }
    out
}

#[verifier::spinoff_prover]
#[verifier::rlimit(40)]
fn assembly_for_key(
    api: &String,
    param: &String,
    parts: &Parts,
    symbols: &Vec<Option<String>>,
    build: &RustHandOffBuildContext,
    Ghost(ks): Ghost<Seq<(Seq<char>, Seq<char>)>>,
    Ghost(facts): Ghost<Seq<StaticFactEnvelope>>,
) -> (a: RustContractAssembly)
    requires
        symbols@.len() == ks.len(),
        forall|j: int| 0 <= j < ks.len() ==> opt_text(#[trigger] symbols@[j]) == key_symbol(facts, ks[j]),
        ({
            let key = (api@, param@);
            &&& parts.admission == last_admission(facts, key)
            &&& parts.guard == last_guard(facts, key)
            &&& parts.allocation == last_allocation(facts, key)
            &&& parts.lineage == (match last_lineage(facts, key) {
                Some(l) => Some(l.lineage),
                None => None,
            })
            &&& opt_text(parts.entry_def_path) == (match last_lineage(facts, key) {
                Some(l) => opt_text(l.entry_def_path),
                None => None,
            })
            &&& parts.binding == last_binding(facts, key)
            &&& texts(parts.evidence@) == key_evidence(facts, key)
        }),
    ensures
        is_assembly_for(a, facts, ks, (api@, param@), *build),
{
    let ghost key = (api@, param@);
    let mut gaps: Vec<RustContractGap> = Vec::new();
    if parts.admission.is_none() {
        gaps.push(RustContractGap::MissingCaptureAdmission);
    }
    if parts.guard.is_none() {
        gaps.push(RustContractGap::MissingGuard);
    }
    if parts.allocation.is_none() {
        gaps.push(RustContractGap::MissingAllocationOwnership);
    }
    match parts.lineage {
        None => gaps.push(RustContractGap::MissingSafeEntryLineage),
        Some(SafeEntryLineage::NoPublicSafeEntry) => {
            gaps.push(RustContractGap::NotReachableFromSafeEntry);
        },
        Some(SafeEntryLineage::Unresolved) => {
            gaps.push(RustContractGap::SafeEntryLineageUnresolved);
        },
        Some(_) => {},
    }
    match &parts.binding {
        None => gaps.push(RustContractGap::MissingForeignSymbol),
        Some(fact) => {
            if fact.symbol.is_none() || fact.callback_arg_index.is_none() {
                gaps.push(RustContractGap::ForeignSymbolUnresolved);
            }
        },
    }
    assert(gaps@ =~= spec_gaps(facts, key));
    if gaps.len() > 0 {
        return RustContractAssembly::Gap { api_id: api.clone(), callback_param: param.clone(), gaps };
    }
    let mut evidence: Vec<String> = Vec::new();
    let mut k: usize = 0;
    while k < parts.evidence.len()
        invariant
            0 <= k <= parts.evidence@.len(),
            evidence@ == parts.evidence@.take(k as int),
        decreases parts.evidence.len() - k,
    {
        evidence.push(parts.evidence[k].clone());
        assert(evidence@ =~= parts.evidence@.take(k + 1));
        k = k + 1;
    }
    assert(parts.evidence@.take(parts.evidence@.len() as int) =~= parts.evidence@);
    let evidence = sort_texts(evidence);
    let binding = match &parts.binding {
        Some(b) => b,
        None => {
            return RustContractAssembly::Gap { api_id: api.clone(), callback_param: param.clone(), gaps };
        },
    };
    let symbol = match &binding.symbol {
        Some(s) => s.clone(),
        None => String::new(),
    };
    let count = count_symbol_sites(symbols, &symbol, Ghost(ks), Ghost(facts));
    let registration_generation = if count == 1 {
        RegistrationGeneration::UniqueStaticSite
    } else if count == 0 {
        RegistrationGeneration::Unresolved
    } else {
        RegistrationGeneration::MultipleStaticSites
    };
    let safe_entry_instance = match &parts.entry_def_path {
        Some(p) => p.clone(),
        None => api.clone(),
    };
    let callback_arg_index = match binding.callback_arg_index {
        Some(index) => index,
        None => 0,
    };
    let capture_admission = match parts.admission {
        Some(x) => x,
        None => EffectiveCaptureAdmission::Unresolved,
    };
    let guard = match parts.guard {
        Some(x) => x,
        None => RegistrationGuard::Unresolved,
    };
    let allocation = match parts.allocation {
        Some(x) => x,
        None => AllocationOwnership::Unresolved,
    };
    RustContractAssembly::Assembled(
        Box::new(
            RustContractFact {
                hand_off: RustHandOffKey {
                    rust_artifact: build.rust_artifact.clone(),
                    build_profile: build.build_profile.clone(),
                    safe_entry_instance,
                    rust_def_instance: api.clone(),
                    call_occurrence: binding.site_id.0.clone(),
                    foreign_symbol: symbol,
                    callback_arg_index,
                    userdata_arg_index: binding.userdata_arg_index,
                    registration_key: None,
                    registration_generation,
                },
                capture_admission,
                guard,
                allocation,
                evidence,
            },
        ),
    )
}

/// Without a foreign fact (the Rust-only variant) no lifetime is ever judged incompatible,
/// and it is judged compatible only where the type shape alone rules separation out: a
/// guard-protected API is never judged compatible on Rust evidence alone.
pub proof fn law_rust_only_judgement(rust: RustContractFact, subject: LifetimeSubject)
    ensures
        spec_judgement(rust, None, subject).0 != StaticVerdict::SupportedIncompatibility,
        spec_judgement(rust, None, subject).0 == StaticVerdict::CompatibleWithinAnalyzedFragment
            ==> spec_separation_by_shape(rust, subject).0 == Tri::Denied,
{
    reveal(spec_separation);
    reveal(spec_late_use);
    reveal(spec_combine);
}

/// A late invoke backed only by a same-slot indirect call never supports an incompatibility.
pub proof fn law_same_slot_candidate_is_not_incompatibility(
    rust: RustContractFact,
    foreign: ForeignBehaviorFact,
    subject: LifetimeSubject,
)
    requires
        foreign.invoke_evidence == Some(EvidenceGrade::SameSlotInvokeCandidate),
    ensures
        spec_judgement(rust, Some(foreign), subject).0 != StaticVerdict::SupportedIncompatibility,
{
    reveal(spec_separation);
    reveal(spec_late_use);
    reveal(spec_combine);
}

/// An incompatibility is only reported on one joint trace: the identities join, the foreign
/// side may retain and may invoke after return, and the retention happens on every path.
pub proof fn law_incompatibility_needs_joint_trace(
    rust: RustContractFact,
    foreign: ForeignBehaviorFact,
    subject: LifetimeSubject,
)
    requires
        spec_judgement(rust, Some(foreign), subject).0 == StaticVerdict::SupportedIncompatibility,
    ensures
        spec_joins_with(rust.hand_off, foreign.hand_off),
        foreign.retention == ForeignRetention::MayRetain,
        foreign.invocation == ForeignInvocation::MayInvokeAfterReturn,
        foreign.path_compatibility == ForeignPathCompatibility::RetainOnEveryPath,
{
    reveal(spec_separation);
    reveal(spec_late_use);
    reveal(spec_combine);
}

/// A guard whose unregistration the foreign side proves to clear the slot on every path makes
/// the hand-off compatible for both lifetimes.
pub proof fn law_effective_guard_is_compatible(
    rust: RustContractFact,
    foreign: ForeignBehaviorFact,
    subject: LifetimeSubject,
)
    requires
        rust.guard == RegistrationGuard::TiesSlotToSubject || rust.guard
            == RegistrationGuard::OwnerDropUnregisters,
        spec_joins_with(rust.hand_off, foreign.hand_off),
        foreign.clear == ForeignClear::ClearsOnAllPaths,
    ensures
        spec_judgement(rust, Some(foreign), subject).0
            == StaticVerdict::CompatibleWithinAnalyzedFragment,
{
    reveal(spec_separation);
    reveal(spec_late_use);
    reveal(spec_combine);
}

/// A foreign side that provably does not retain, or only invokes synchronously, makes the
/// hand-off compatible.
pub proof fn law_no_late_use_is_compatible(
    rust: RustContractFact,
    foreign: ForeignBehaviorFact,
    subject: LifetimeSubject,
)
    requires
        spec_joins_with(rust.hand_off, foreign.hand_off),
        foreign.retention == ForeignRetention::NoRetain || foreign.invocation
            == ForeignInvocation::SynchronousInvokeOnly,
    ensures
        spec_judgement(rust, Some(foreign), subject).0
            == StaticVerdict::CompatibleWithinAnalyzedFragment,
{
    reveal(spec_separation);
    reveal(spec_late_use);
    reveal(spec_combine);
}

/// A `'static` bound constrains only the captured referent: the judgement of the callback
/// allocation does not depend on the capture admission at all.
pub proof fn law_capture_admission_does_not_reach_allocation(
    rust: RustContractFact,
    other: EffectiveCaptureAdmission,
    foreign: Option<ForeignBehaviorFact>,
)
    ensures
        spec_judgement(rust, foreign, LifetimeSubject::CallbackAllocation) == spec_judgement(
            RustContractFact { capture_admission: other, ..rust },
            foreign,
            LifetimeSubject::CallbackAllocation,
        ),
{
    reveal(spec_separation);
    reveal(spec_late_use);
    reveal(spec_combine);
}

/// A judgement never claims a witness attempt; dynamic results do not change static verdicts.
pub proof fn law_judgement_attempts_no_witness(
    v: CompatibilityVerdict,
    rust: RustContractFact,
    foreign: Option<ForeignBehaviorFact>,
    subject: LifetimeSubject,
)
    requires
        is_judgement(v, rust, foreign, subject),
    ensures
        v.witness_status == WitnessStatus::NotAttempted,
        v.static_verdict == StaticVerdict::SupportedIncompatibility ==> v.witness_obligation is None,
{
    reveal(spec_combine);
}

/// Two hand-off identities with the same texts and numbers.
pub open spec fn same_hand_off(a: HandOffId, b: HandOffId) -> bool {
    &&& a.rust_artifact@ == b.rust_artifact@
    &&& a.foreign_artifact@ == b.foreign_artifact@
    &&& a.build_profile@ == b.build_profile@
    &&& a.safe_entry_instance@ == b.safe_entry_instance@
    &&& a.rust_def_instance@ == b.rust_def_instance@
    &&& a.call_occurrence@ == b.call_occurrence@
    &&& a.foreign_symbol@ == b.foreign_symbol@
    &&& a.callback_arg_index == b.callback_arg_index
    &&& a.userdata_arg_index == b.userdata_arg_index
    &&& opt_text(a.registration_key) == opt_text(b.registration_key)
    &&& a.registration_generation == b.registration_generation
}

/// Two verdicts that say the same: same hand-off, lifetime, verdict, grade, witness status,
/// obligation and assumptions.
pub open spec fn same_verdict(a: CompatibilityVerdict, b: CompatibilityVerdict) -> bool {
    &&& same_hand_off(a.hand_off, b.hand_off)
    &&& a.subject == b.subject
    &&& a.static_verdict == b.static_verdict
    &&& a.evidence_grade == b.evidence_grade
    &&& a.witness_status == b.witness_status
    &&& a.witness_obligation == b.witness_obligation
    &&& texts(a.assumptions@) == texts(b.assumptions@)
}

/// A hand-off is judged lifetime by lifetime, and the two lifetimes are never merged into one
/// verdict. The verdicts of a hand-off (`v`) are two: that of the captured referent, equal to
/// the judgement of the referent on its own (`w0`), then that of the callback allocation, equal
/// to the judgement of the allocation on its own (`w1`).
pub proof fn law_hand_off_judges_each_lifetime_alone(
    rust: RustContractFact,
    foreign: Option<ForeignBehaviorFact>,
    v: Seq<CompatibilityVerdict>,
    w0: CompatibilityVerdict,
    w1: CompatibilityVerdict,
)
    requires
        v.len() == 2,
        is_judgement(v[0], rust, foreign, LifetimeSubject::CapturedReferent),
        is_judgement(v[1], rust, foreign, LifetimeSubject::CallbackAllocation),
        is_judgement(w0, rust, foreign, LifetimeSubject::CapturedReferent),
        is_judgement(w1, rust, foreign, LifetimeSubject::CallbackAllocation),
    ensures
        same_verdict(v[0], w0),
        same_verdict(v[1], w1),
        v[0].subject == LifetimeSubject::CapturedReferent,
        v[1].subject == LifetimeSubject::CallbackAllocation,
{
}

/// A foreign fact joins the hand-off and shows a late use on every path: it may retain the slot,
/// may invoke the callback after return and retains on every returning path, on evidence other
/// than a same-slot indirect call.
pub open spec fn late_use_on_every_path(rust: RustContractFact, foreign: Option<ForeignBehaviorFact>) -> bool {
    match foreign {
        Some(f) => spec_joins_with(rust.hand_off, f.hand_off) && f.retention == ForeignRetention::MayRetain
            && f.invocation == ForeignInvocation::MayInvokeAfterReturn && f.path_compatibility
            == ForeignPathCompatibility::RetainOnEveryPath && f.invoke_evidence != Some(
            EvidenceGrade::SameSlotInvokeCandidate,
        ),
        None => false,
    }
}

/// Something keeps the callback allocation alive while the foreign side may use it: the
/// foreign side owns it until unregistration, or a joined foreign fact shows that a guard is
/// cleared on every path, that the slot is never retained, or that the callback is invoked only
/// synchronously.
pub open spec fn allocation_has_keeper(rust: RustContractFact, foreign: Option<ForeignBehaviorFact>) -> bool {
    rust.allocation == AllocationOwnership::ForeignOwnedUntilUnregister || match foreign {
        Some(f) => spec_joins_with(rust.hand_off, f.hand_off) && (((rust.guard == RegistrationGuard::TiesSlotToSubject
            || rust.guard == RegistrationGuard::OwnerDropUnregisters) && f.clear == ForeignClear::ClearsOnAllPaths)
            || f.retention == ForeignRetention::NoRetain || f.invocation == ForeignInvocation::SynchronousInvokeOnly),
        None => false,
    }
}

/// The callback allocation of a hand-off is judged compatible exactly when something keeps it
/// alive as long as the foreign side may use it: the foreign side owns it until unregistration,
/// or a joined foreign fact shows that a guard (tying the slot to the subject or unregistering on
/// owner drop) is cleared on every path, that the slot is never retained, or that the callback
/// is invoked only synchronously. In particular, an allocation that Rust retains and may free
/// early, with no guard, against a joined foreign side that may retain it, may invoke it after
/// return and retains it on every path, on evidence other than a same-slot indirect call, is a
/// supported incompatibility.
pub proof fn law_allocation_compatibility_needs_a_keeper(
    v: CompatibilityVerdict,
    rust: RustContractFact,
    foreign: Option<ForeignBehaviorFact>,
)
    requires
        is_judgement(v, rust, foreign, LifetimeSubject::CallbackAllocation),
    ensures
        (v.static_verdict == StaticVerdict::CompatibleWithinAnalyzedFragment) <==> allocation_has_keeper(rust, foreign),
        rust.allocation == AllocationOwnership::RustRetainsAndMayFreeEarly && rust.guard == RegistrationGuard::NoGuard
            && late_use_on_every_path(rust, foreign) ==> v.static_verdict == StaticVerdict::SupportedIncompatibility,
{
    reveal(spec_separation);
    reveal(spec_late_use);
    reveal(spec_combine);
}

/// Something keeps the captured referent alive while the foreign side may use it: the callback
/// may only capture `'static` data, or a joined foreign fact shows that a guard is cleared on
/// every path, that the slot is never retained, or that the callback is invoked only
/// synchronously.
pub open spec fn referent_has_keeper(rust: RustContractFact, foreign: Option<ForeignBehaviorFact>) -> bool {
    rust.capture_admission == EffectiveCaptureAdmission::RequiresStaticCapture || match foreign {
        Some(f) => spec_joins_with(rust.hand_off, f.hand_off) && (((rust.guard == RegistrationGuard::TiesSlotToSubject
            || rust.guard == RegistrationGuard::OwnerDropUnregisters) && f.clear == ForeignClear::ClearsOnAllPaths)
            || f.retention == ForeignRetention::NoRetain || f.invocation == ForeignInvocation::SynchronousInvokeOnly),
        None => false,
    }
}

/// The same for the captured referent: it is judged compatible exactly when something keeps it
/// alive; with no guard, a referent the callback may capture
/// without a `'static` bound, against a joined foreign side that may retain it, may invoke it
/// after return and retains it on every path, on evidence other than a same-slot indirect call,
/// is a supported incompatibility; a `'static` capture is always compatible.
pub proof fn law_referent_incompatibility_and_static_capture(
    v: CompatibilityVerdict,
    rust: RustContractFact,
    foreign: Option<ForeignBehaviorFact>,
)
    requires
        is_judgement(v, rust, foreign, LifetimeSubject::CapturedReferent),
    ensures
        (v.static_verdict == StaticVerdict::CompatibleWithinAnalyzedFragment) <==> referent_has_keeper(rust, foreign),
        rust.capture_admission == EffectiveCaptureAdmission::RequiresStaticCapture ==> v.static_verdict
            == StaticVerdict::CompatibleWithinAnalyzedFragment,
        rust.capture_admission == EffectiveCaptureAdmission::PermitsNonStaticCapture && rust.guard
            == RegistrationGuard::NoGuard && late_use_on_every_path(rust, foreign) ==> v.static_verdict
            == StaticVerdict::SupportedIncompatibility,
{
    reveal(spec_separation);
    reveal(spec_late_use);
    reveal(spec_combine);
}

} // verus!
