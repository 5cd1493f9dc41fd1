//! V3.2 candidates: boundaries that deserve a lifecycle subgraph.

use vstd::prelude::*;

use crate::boundary_index::{
    check_evidence_refs, clone_evidence_refs, evidence_list_error, V32BoundaryEvidenceRef,
    V32BoundaryIndexRecord, V32BoundaryKind,
};
use crate::checks::{all_token_free, check_required, check_tokens, check_tokens_all, contains_text, require};
use crate::compatibility::{clone_opt_string, texts};
use crate::error::{is_error_at, Located, ModelError};
use crate::public_tokens::has_forbidden_token;
use crate::static_fact::present;
use crate::text::{concat2, owned, skip_chars, starts_with};

verus! {

/// Schema version of candidate records.
pub const V3_2_CANDIDATE_SCHEMA_V1: &'static str = "v3.2.candidate.1";

#[derive(Clone, Debug)]
pub struct V32CandidateRecord {
    pub schema_version: String,
    pub run_id: String,
    pub candidate_id: String,
    pub crate_id: String,
    pub boundary_id: String,
    pub pattern_family: V32PatternFamily,
    pub confidence: V32CandidateConfidence,
    pub evidence_refs: Vec<V32BoundaryEvidenceRef>,
    pub api_path: Option<String>,
    pub recommended_next_step: V32RecommendedNextStep,
    pub notes: Vec<String>,
}

#[derive(Clone, Copy, Debug, PartialEq, Eq, PartialOrd, Ord)]
pub enum V32PatternFamily {
    RetainedBorrowedCallback,
    CallbackLifecycleRelease,
    ForeignRetainedPointer,
    OpaqueHandleTransfer,
    NativeLibraryBoundary,
    ReturnedBorrowView,
    ExternalBufferView,
}

#[derive(Clone, Copy, Debug, PartialEq, Eq, PartialOrd, Ord)]
pub enum V32CandidateConfidence {
    NeedsDynamicValidation,
    StaticOnly,
    LowPriority,
}

#[derive(Clone, Copy, Debug, PartialEq, Eq, PartialOrd, Ord)]
pub enum V32RecommendedNextStep {
    GenerateLifecycleSubgraph,
    ManualReview,
    Defer,
}

#[derive(Clone, Debug, Default, PartialEq, Eq)]
pub struct V32CandidateSummary {
    pub record_count: u64,
    pub needs_dynamic_validation_count: u64,
    pub static_only_count: u64,
    pub low_priority_count: u64,
}

pub open spec fn spec_pattern_family(kind: V32BoundaryKind) -> Option<V32PatternFamily> {
    match kind {
        V32BoundaryKind::CallbackRegistration => Some(V32PatternFamily::RetainedBorrowedCallback),
        V32BoundaryKind::CallbackUnregistration => Some(V32PatternFamily::CallbackLifecycleRelease),
        V32BoundaryKind::ForeignRetainedPointer => Some(V32PatternFamily::ForeignRetainedPointer),
        V32BoundaryKind::OpaqueHandleTransfer => Some(V32PatternFamily::OpaqueHandleTransfer),
        V32BoundaryKind::NativeLibrary => Some(V32PatternFamily::NativeLibraryBoundary),
        V32BoundaryKind::ReturnedBorrow => Some(V32PatternFamily::ReturnedBorrowView),
        V32BoundaryKind::ExternalBuffer => Some(V32PatternFamily::ExternalBufferView),
        V32BoundaryKind::NegativeSummary => None,
    }
}

fn pattern_family_from_boundary(kind: V32BoundaryKind) -> (r: Option<V32PatternFamily>)
    ensures
        r == spec_pattern_family(kind),
{
    match kind {
        V32BoundaryKind::CallbackRegistration => Some(V32PatternFamily::RetainedBorrowedCallback),
        V32BoundaryKind::CallbackUnregistration => Some(V32PatternFamily::CallbackLifecycleRelease),
        V32BoundaryKind::ForeignRetainedPointer => Some(V32PatternFamily::ForeignRetainedPointer),
        V32BoundaryKind::OpaqueHandleTransfer => Some(V32PatternFamily::OpaqueHandleTransfer),
        V32BoundaryKind::NativeLibrary => Some(V32PatternFamily::NativeLibraryBoundary),
        V32BoundaryKind::ReturnedBorrow => Some(V32PatternFamily::ReturnedBorrowView),
        V32BoundaryKind::ExternalBuffer => Some(V32PatternFamily::ExternalBufferView),
        V32BoundaryKind::NegativeSummary => None,
    }
}

/// A low boundary confidence always gives low priority; otherwise callback, retained-pointer
/// and opaque-handle boundaries need dynamic validation and the rest stay static only.
pub open spec fn spec_confidence(kind: V32BoundaryKind, low: bool) -> V32CandidateConfidence {
    match kind {
        V32BoundaryKind::NegativeSummary => V32CandidateConfidence::LowPriority,
        V32BoundaryKind::CallbackRegistration | V32BoundaryKind::CallbackUnregistration
        | V32BoundaryKind::ForeignRetainedPointer | V32BoundaryKind::OpaqueHandleTransfer => {
            if low {
                V32CandidateConfidence::LowPriority
            } else {
                V32CandidateConfidence::NeedsDynamicValidation
            }
        },
        _ => if low {
            V32CandidateConfidence::LowPriority
        } else {
            V32CandidateConfidence::StaticOnly
        },
    }
}

fn confidence_from_boundary(kind: V32BoundaryKind, boundary_confidence: &String) -> (r:
    V32CandidateConfidence)
    ensures
        r == spec_confidence(kind, boundary_confidence@ == "low"@),
{
    let low = *boundary_confidence == owned("low");
    match kind {
        V32BoundaryKind::NativeLibrary => if low {
            V32CandidateConfidence::LowPriority
        } else {
            V32CandidateConfidence::StaticOnly
        },
        V32BoundaryKind::CallbackRegistration | V32BoundaryKind::CallbackUnregistration
        | V32BoundaryKind::ForeignRetainedPointer | V32BoundaryKind::OpaqueHandleTransfer => {
            if low {
                V32CandidateConfidence::LowPriority
            } else {
                V32CandidateConfidence::NeedsDynamicValidation
            }
        },
        V32BoundaryKind::ReturnedBorrow | V32BoundaryKind::ExternalBuffer => if low {
            V32CandidateConfidence::LowPriority
        } else {
            V32CandidateConfidence::StaticOnly
        },
        V32BoundaryKind::NegativeSummary => V32CandidateConfidence::LowPriority,
    }
}

pub open spec fn spec_next_step(confidence: V32CandidateConfidence) -> V32RecommendedNextStep {
    match confidence {
        V32CandidateConfidence::LowPriority => V32RecommendedNextStep::Defer,
        _ => V32RecommendedNextStep::GenerateLifecycleSubgraph,
    }
}

fn recommended_next_step_from_confidence(confidence: V32CandidateConfidence) -> (r:
    V32RecommendedNextStep)
    ensures
        r == spec_next_step(confidence),
{
    match confidence {
        V32CandidateConfidence::NeedsDynamicValidation => V32RecommendedNextStep::GenerateLifecycleSubgraph,
        V32CandidateConfidence::StaticOnly => V32RecommendedNextStep::GenerateLifecycleSubgraph,
        V32CandidateConfidence::LowPriority => V32RecommendedNextStep::Defer,
    }
}

/// `candidate:` followed by the boundary id without its `boundary:` prefix.
pub open spec fn spec_candidate_id(boundary_id: Seq<char>) -> Seq<char> {
    let prefix = "boundary:"@;
    if prefix.len() <= boundary_id.len() && boundary_id.take(prefix.len() as int) == prefix {
        "candidate:"@ + boundary_id.skip(prefix.len() as int)
    } else {
        "candidate:"@ + boundary_id
    }
}

fn candidate_id_from_boundary_id(boundary_id: &str) -> (r: String)
    ensures
        r@ == spec_candidate_id(boundary_id@),
{
    let prefix = "boundary:";
    if starts_with(boundary_id, prefix) {
        let rest = skip_chars(boundary_id, prefix.unicode_len());
        concat2("candidate:", rest.as_str())
    } else {
        concat2("candidate:", boundary_id)
    }
}

pub open spec fn spec_boundary_kind_slug(kind: V32BoundaryKind) -> Seq<char> {
    match kind {
        V32BoundaryKind::NativeLibrary => "native_library"@,
        V32BoundaryKind::CallbackRegistration => "callback_registration"@,
        V32BoundaryKind::CallbackUnregistration => "callback_unregistration"@,
        V32BoundaryKind::ForeignRetainedPointer => "foreign_retained_pointer"@,
        V32BoundaryKind::OpaqueHandleTransfer => "opaque_handle_transfer"@,
        V32BoundaryKind::ReturnedBorrow => "returned_borrow"@,
        V32BoundaryKind::ExternalBuffer => "external_buffer"@,
        V32BoundaryKind::NegativeSummary => "negative_summary"@,
    }
}

pub fn boundary_kind_slug(kind: V32BoundaryKind) -> (r: &'static str)
    ensures
        r@ == spec_boundary_kind_slug(kind),
{
    match kind {
        V32BoundaryKind::NativeLibrary => "native_library",
        V32BoundaryKind::CallbackRegistration => "callback_registration",
        V32BoundaryKind::CallbackUnregistration => "callback_unregistration",
        V32BoundaryKind::ForeignRetainedPointer => "foreign_retained_pointer",
        V32BoundaryKind::OpaqueHandleTransfer => "opaque_handle_transfer",
        V32BoundaryKind::ReturnedBorrow => "returned_borrow",
        V32BoundaryKind::ExternalBuffer => "external_buffer",
        V32BoundaryKind::NegativeSummary => "negative_summary",
    }
}

/// Turns a boundary into a candidate; negative summaries give none.
pub fn candidate_from_boundary(boundary: &V32BoundaryIndexRecord, run_id: &str) -> (r: Option<
    V32CandidateRecord,
>)
    ensures
        match spec_pattern_family(boundary.boundary_kind) {
            None => r is None,
            Some(family) => r matches Some(c) && {
                let confidence = spec_confidence(
                    boundary.boundary_kind,
                    boundary.confidence@ == "low"@,
                );
                &&& c.schema_version@ == V3_2_CANDIDATE_SCHEMA_V1@
                &&& c.run_id@ == run_id@
                &&& c.candidate_id@ == spec_candidate_id(boundary.boundary_id@)
                &&& c.crate_id == boundary.crate_id
                &&& c.boundary_id == boundary.boundary_id
                &&& c.pattern_family == family
                &&& c.confidence == confidence
                &&& c.evidence_refs@ == boundary.evidence_refs@
                &&& c.api_path == boundary.api_path
                &&& c.recommended_next_step == spec_next_step(confidence)
                &&& texts(c.notes@) == seq![
                    "candidate is not a vulnerability conclusion"@,
                    "source_boundary_kind="@ + spec_boundary_kind_slug(boundary.boundary_kind),
                ]
            },
        },
{
    let pattern_family = match pattern_family_from_boundary(boundary.boundary_kind) {
        Some(f) => f,
        None => {
            return None;
        },
    };
    let confidence = confidence_from_boundary(boundary.boundary_kind, &boundary.confidence);
    let recommended_next_step = recommended_next_step_from_confidence(confidence);
    let mut notes: Vec<String> = Vec::new();
    notes.push(owned("candidate is not a vulnerability conclusion"));
    notes.push(concat2("source_boundary_kind=", boundary_kind_slug(boundary.boundary_kind)));
    assert(texts(notes@) =~= seq![
        "candidate is not a vulnerability conclusion"@,
        "source_boundary_kind="@ + spec_boundary_kind_slug(boundary.boundary_kind),
    ]);
    Some(
        V32CandidateRecord {
            schema_version: owned(V3_2_CANDIDATE_SCHEMA_V1),
            run_id: owned(run_id),
            candidate_id: candidate_id_from_boundary_id(boundary.boundary_id.as_str()),
            crate_id: boundary.crate_id.clone(),
            boundary_id: boundary.boundary_id.clone(),
            pattern_family,
            confidence,
            evidence_refs: clone_evidence_refs(&boundary.evidence_refs),
            api_path: clone_opt_string(&boundary.api_path),
            recommended_next_step,
            notes,
        },
    )
}

/// The error code of one candidate record, given the run id already fixed and whether its
/// candidate id and boundary id already occurred.
pub open spec fn candidate_record_error(
    r: V32CandidateRecord,
    first_run: Option<Seq<char>>,
    duplicate_candidate: bool,
    duplicate_boundary: bool,
) -> Option<Seq<char>> {
    let req = "BW-CANDIDATE-REQUIRED-EMPTY"@;
    let tok = "BW-CANDIDATE-PRIVATE-TOKEN"@;
    if !present(r.run_id@) || !present(r.candidate_id@) || !present(r.crate_id@) || !present(
        r.boundary_id@,
    ) {
        Some(req)
    } else if has_forbidden_token(r.run_id@) || has_forbidden_token(r.candidate_id@)
        || has_forbidden_token(r.crate_id@) || has_forbidden_token(r.boundary_id@) {
        Some(tok)
    } else if r.api_path is None {
        Some("BW-CANDIDATE-API-PATH"@)
    } else if !present(r.api_path->0@) {
        Some(req)
    } else if has_forbidden_token(r.api_path->0@) {
        Some(tok)
    } else if !all_token_free(r.notes@) {
        Some(tok)
    } else if first_run is Some && first_run->0 != r.run_id@ {
        Some("BW-CANDIDATE-RUN-MISMATCH"@)
    } else if duplicate_candidate {
        Some("BW-CANDIDATE-ID-DUPLICATE"@)
    } else if duplicate_boundary {
        Some("BW-CANDIDATE-BOUNDARY-DUPLICATE"@)
    } else if r.evidence_refs@.len() == 0 {
        Some("BW-CANDIDATE-EVIDENCE-EMPTY"@)
    } else {
        evidence_list_error(
            r.evidence_refs@,
            req,
            "BW-CANDIDATE-REF-PATH"@,
            tok,
            "BW-CANDIDATE-SOURCE-SPAN"@,
        )
    }
}

pub open spec fn candidate_error_at(records: Seq<Located<V32CandidateRecord>>, i: int) -> Option<
    Seq<char>,
> {
    candidate_record_error(
        records[i].value,
        if i == 0 {
            None
        } else {
            Some(records[0].value.run_id@)
        },
        exists|j: int| 0 <= j < i && #[trigger] records[j].value.candidate_id@ == records[i].value.candidate_id@,
        exists|j: int| 0 <= j < i && #[trigger] records[j].value.boundary_id@ == records[i].value.boundary_id@,
    )
}

pub open spec fn count_confidence(
    records: Seq<Located<V32CandidateRecord>>,
    c: V32CandidateConfidence,
) -> nat
    decreases records.len(),
{
    if records.len() == 0 {
        0
    } else {
        count_confidence(records.drop_last(), c) + if records.last().value.confidence == c {
            1nat
        } else {
            0nat
        }
    }
}

fn check_candidate_record(
    located: &Located<V32CandidateRecord>,
    first_run: &Option<String>,
    duplicate_candidate: bool,
    duplicate_boundary: bool,
) -> (r: Result<(), ModelError>)
    ensures
        match candidate_record_error(
            located.value,
            match first_run {
                Some(s) => Some(s@),
                None => None,
            },
            duplicate_candidate,
            duplicate_boundary,
        ) {
            None => r is Ok,
            Some(code) => r matches Err(e) && is_error_at(e, *located, code),
        },
{
    let record = &located.value;
    let req = "BW-CANDIDATE-REQUIRED-EMPTY";
    let tok = "BW-CANDIDATE-PRIVATE-TOKEN";
    check_required(located, req, "run_id", record.run_id.as_str())?;
    check_required(located, req, "candidate_id", record.candidate_id.as_str())?;
    check_required(located, req, "crate_id", record.crate_id.as_str())?;
    check_required(located, req, "boundary_id", record.boundary_id.as_str())?;
    check_tokens(located, tok, "run_id", record.run_id.as_str())?;
    check_tokens(located, tok, "candidate_id", record.candidate_id.as_str())?;
    check_tokens(located, tok, "crate_id", record.crate_id.as_str())?;
    check_tokens(located, tok, "boundary_id", record.boundary_id.as_str())?;
    match &record.api_path {
        Some(api_path) => {
            check_required(located, req, "api_path", api_path.as_str())?;
            check_tokens(located, tok, "api_path", api_path.as_str())?;
        },
        None => {
            return require(located, false, "BW-CANDIDATE-API-PATH", "candidate 记录必须包含 api_path");
        },
    }
    check_tokens_all(located, tok, "notes", &record.notes)?;
    if let Some(expected) = first_run {
        require(located, *expected == record.run_id, "BW-CANDIDATE-RUN-MISMATCH", "同一 candidate 分片出现不同的 run_id")?;
    }
    require(located, !duplicate_candidate, "BW-CANDIDATE-ID-DUPLICATE", "candidate_id 重复")?;
    require(located, !duplicate_boundary, "BW-CANDIDATE-BOUNDARY-DUPLICATE", "boundary_id 被多个 candidate 复用")?;
    require(located, record.evidence_refs.len() > 0, "BW-CANDIDATE-EVIDENCE-EMPTY", "candidate 记录必须包含至少一条 evidence_refs")?;
    check_evidence_refs(located, &record.evidence_refs, req, "BW-CANDIDATE-REF-PATH", tok, "BW-CANDIDATE-SOURCE-SPAN")
}

/// Validates a candidate shard: every record is checked in order and the first failure is
/// reported at its record; on success the counts by confidence.
pub fn validate_v3_2_candidates(records: Vec<Located<V32CandidateRecord>>) -> (r: Result<
    V32CandidateSummary,
    ModelError,
>)
    ensures
        match r {
            Ok(summary) => {
                &&& forall|i: int| 0 <= i < records@.len() ==> candidate_error_at(records@, i) is None
                &&& summary.record_count == records@.len()
                &&& summary.needs_dynamic_validation_count == count_confidence(
                    records@,
                    V32CandidateConfidence::NeedsDynamicValidation,
                )
                &&& summary.static_only_count == count_confidence(
                    records@,
                    V32CandidateConfidence::StaticOnly,
                )
                &&& summary.low_priority_count == count_confidence(
                    records@,
                    V32CandidateConfidence::LowPriority,
                )
            },
            Err(e) => exists|i: int|
                0 <= i < records@.len() && (forall|j: int| 0 <= j < i ==> candidate_error_at(records@, j) is None)
                    && (#[trigger] candidate_error_at(records@, i)) is Some && is_error_at(
                    e,
                    records@[i],
                    candidate_error_at(records@, i)->0,
                ),
        },
{
    let mut summary = V32CandidateSummary {
        record_count: 0,
        needs_dynamic_validation_count: 0,
        static_only_count: 0,
        low_priority_count: 0,
    };
    let mut run_id: Option<String> = None;
    let mut seen_candidates: Vec<String> = Vec::new();
    let mut seen_boundaries: Vec<String> = Vec::new();
    let mut i: usize = 0;
    while i < records.len()
        invariant
            0 <= i <= records@.len(),
            forall|j: int| 0 <= j < i ==> candidate_error_at(records@, j) is None,
            seen_candidates@.len() == i,
            seen_boundaries@.len() == i,
            forall|k: int| 0 <= k < i ==> (#[trigger] seen_candidates@[k])@ == records@[k].value.candidate_id@,
            forall|k: int| 0 <= k < i ==> (#[trigger] seen_boundaries@[k])@ == records@[k].value.boundary_id@,
            i == 0 ==> run_id is None,
            i > 0 ==> (run_id is Some && run_id->0@ == records@[0].value.run_id@),
            summary.record_count == i,
            summary.needs_dynamic_validation_count == count_confidence(records@.take(i as int), V32CandidateConfidence::NeedsDynamicValidation),
            summary.static_only_count == count_confidence(records@.take(i as int), V32CandidateConfidence::StaticOnly),
            summary.low_priority_count == count_confidence(records@.take(i as int), V32CandidateConfidence::LowPriority),
            count_confidence(records@.take(i as int), V32CandidateConfidence::NeedsDynamicValidation) <= i,
            count_confidence(records@.take(i as int), V32CandidateConfidence::StaticOnly) <= i,
            count_confidence(records@.take(i as int), V32CandidateConfidence::LowPriority) <= i,
        decreases records.len() - i,
    {
        let located = &records[i];
        let dup_c = contains_text(&seen_candidates, &located.value.candidate_id);
        let dup_b = contains_text(&seen_boundaries, &located.value.boundary_id);
        assert(dup_c == exists|j: int| 0 <= j < i && #[trigger] records@[j].value.candidate_id@ == records@[i as int].value.candidate_id@) by {
            if dup_c {
                let k = choose|k: int| 0 <= k < seen_candidates@.len() && (#[trigger] seen_candidates@[k])@ == located.value.candidate_id@;
                assert(records@[k].value.candidate_id@ == records@[i as int].value.candidate_id@);
            }
            if exists|j: int| 0 <= j < i && #[trigger] records@[j].value.candidate_id@ == records@[i as int].value.candidate_id@ {
                let j = choose|j: int| 0 <= j < i && #[trigger] records@[j].value.candidate_id@ == records@[i as int].value.candidate_id@;
                assert(seen_candidates@[j]@ == records@[j].value.candidate_id@);
            }
        }
        assert(dup_b == exists|j: int| 0 <= j < i && #[trigger] records@[j].value.boundary_id@ == records@[i as int].value.boundary_id@) by {
            if dup_b {
                let k = choose|k: int| 0 <= k < seen_boundaries@.len() && (#[trigger] seen_boundaries@[k])@ == located.value.boundary_id@;
                assert(records@[k].value.boundary_id@ == records@[i as int].value.boundary_id@);
            }
            if exists|j: int| 0 <= j < i && #[trigger] records@[j].value.boundary_id@ == records@[i as int].value.boundary_id@ {
                let j = choose|j: int| 0 <= j < i && #[trigger] records@[j].value.boundary_id@ == records@[i as int].value.boundary_id@;
                assert(seen_boundaries@[j]@ == records@[j].value.boundary_id@);
            }
        }
        match check_candidate_record(located, &run_id, dup_c, dup_b) {
            Ok(()) => {},
            Err(e) => {
                assert(candidate_error_at(records@, i as int) is Some);
                return Err(e);
            },
        }
        assert(records@.take(i + 1).drop_last() =~= records@.take(i as int));
        if i == 0 {
            run_id = Some(located.value.run_id.clone());
        }
        seen_candidates.push(located.value.candidate_id.clone());
        seen_boundaries.push(located.value.boundary_id.clone());
        match located.value.confidence {
            V32CandidateConfidence::NeedsDynamicValidation => {
                summary.needs_dynamic_validation_count = summary.needs_dynamic_validation_count + 1;
            },
            V32CandidateConfidence::StaticOnly => {
                summary.static_only_count = summary.static_only_count + 1;
            },
            V32CandidateConfidence::LowPriority => {
                summary.low_priority_count = summary.low_priority_count + 1;
            },
        }
        summary.record_count = summary.record_count + 1;
        i = i + 1;
    }
    assert(records@.take(records@.len() as int) =~= records@);
    Ok(summary)
}

} // verus!
