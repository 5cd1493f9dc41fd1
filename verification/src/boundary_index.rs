//! The V3.2 boundary index: one record per native boundary found in a crate.

use vstd::prelude::*;

use crate::checks::{
    all_token_free, check_required, check_tokens, check_tokens_all, contains_text,
    is_relative_ref, relative_ref, require,
};
use crate::error::{is_error_at, Located, ModelError};
use crate::public_tokens::has_forbidden_token;
use crate::static_fact::present;
use crate::text::owned;

verus! {

/// Schema version of boundary index records.
pub const V3_2_BOUNDARY_INDEX_SCHEMA_V1: &'static str = "v3.2.boundary_index.1";

#[derive(Clone, Debug)]
pub struct V32BoundaryIndexRecord {
    pub schema_version: String,
    pub run_id: String,
    pub crate_id: String,
    pub boundary_id: String,
    pub boundary_kind: V32BoundaryKind,
    pub api_path: Option<String>,
    pub evidence_refs: Vec<V32BoundaryEvidenceRef>,
    pub confidence: String,
    pub notes: Vec<String>,
}

#[derive(Clone, Copy, Debug, PartialEq, Eq, PartialOrd, Ord)]
pub enum V32BoundaryKind {
    NativeLibrary,
    CallbackRegistration,
    CallbackUnregistration,
    ForeignRetainedPointer,
    OpaqueHandleTransfer,
    ReturnedBorrow,
    ExternalBuffer,
    NegativeSummary,
}

#[derive(Debug)]
pub struct V32BoundaryEvidenceRef {
    pub kind: V32BoundaryEvidenceKind,
    pub path: String,
    pub line_start: Option<u64>,
    pub line_end: Option<u64>,
}

impl Clone for V32BoundaryEvidenceRef {
    fn clone(&self) -> (r: Self)
        ensures
            r == *self,
    {
        V32BoundaryEvidenceRef {
            kind: self.kind,
            path: self.path.clone(),
            line_start: self.line_start,
            line_end: self.line_end,
        }
    }
}

/// A copy of a list of evidence references, equal to it.
pub fn clone_evidence_refs(v: &Vec<V32BoundaryEvidenceRef>) -> (r: Vec<V32BoundaryEvidenceRef>)
    ensures
        r@ == v@,
{
    let mut r: Vec<V32BoundaryEvidenceRef> = Vec::new();
    let mut i: usize = 0;
    while i < v.len()
        invariant
            0 <= i <= v@.len(),
            r@ == v@.take(i as int),
        decreases v.len() - i,
    {
        r.push(v[i].clone());
        assert(r@ =~= v@.take(i + 1));
        i = i + 1;
    }
    assert(v@.take(v@.len() as int) =~= v@);
    r
}

#[derive(Clone, Copy, Debug, PartialEq, Eq)]
pub enum V32BoundaryEvidenceKind {
    SourceSpan,
    Manifest,
    BuildLog,
}

#[derive(Clone, Debug, Default, PartialEq, Eq)]
pub struct V32BoundaryIndexSummary {
    pub record_count: u64,
    pub boundary_count: u64,
    pub negative_count: u64,
}

/// `None` when the check holds, else the code.
pub open spec fn fails(ok: bool, code: Seq<char>) -> Option<Seq<char>> {
    if ok {
        None
    } else {
        Some(code)
    }
}

/// The first failure of a chain of checks.
pub open spec fn first(a: Option<Seq<char>>, b: Option<Seq<char>>) -> Option<Seq<char>> {
    if a is Some {
        a
    } else {
        b
    }
}

/// The first failure of a list of checks.
pub open spec fn first_of(checks: Seq<Option<Seq<char>>>) -> Option<Seq<char>>
    decreases checks.len(),
{
    if checks.len() == 0 {
        None
    } else if checks[0] is Some {
        checks[0]
    } else {
        first_of(checks.drop_first())
    }
}

/// The error code of one evidence reference, checked in the order required path, relative
/// path, identity tokens, source span.
pub open spec fn evidence_ref_error(
    ev: V32BoundaryEvidenceRef,
    required: Seq<char>,
    ref_path: Seq<char>,
    token: Seq<char>,
    span: Seq<char>,
) -> Option<Seq<char>> {
    if !present(ev.path@) {
        Some(required)
    } else if !is_relative_ref(ev.path@) {
        Some(ref_path)
    } else if has_forbidden_token(ev.path@) {
        Some(token)
    } else if ev.kind != V32BoundaryEvidenceKind::SourceSpan {
        None
    } else if ev.line_start is None || ev.line_end is None {
        Some(span)
    } else if ev.line_start->0 == 0 || ev.line_end->0 < ev.line_start->0 {
        Some(span)
    } else {
        None
    }
}

/// The error code of the first failing evidence reference.
pub open spec fn evidence_list_error(
    evs: Seq<V32BoundaryEvidenceRef>,
    required: Seq<char>,
    ref_path: Seq<char>,
    token: Seq<char>,
    span: Seq<char>,
) -> Option<Seq<char>>
    decreases evs.len(),
{
    if evs.len() == 0 {
        None
    } else {
        first(
            evidence_ref_error(evs[0], required, ref_path, token, span),
            evidence_list_error(evs.drop_first(), required, ref_path, token, span),
        )
    }
}

/// Checks the evidence references of a record in order.
pub fn check_evidence_refs<T>(
    located: &Located<T>,
    evs: &Vec<V32BoundaryEvidenceRef>,
    required: &'static str,
    ref_path: &'static str,
    token: &'static str,
    span: &'static str,
) -> (r: Result<(), ModelError>)
    ensures
        match evidence_list_error(evs@, required@, ref_path@, token@, span@) {
            None => r is Ok,
            Some(code) => r matches Err(e) && is_error_at(e, *located, code),
        },
{
    let mut i: usize = 0;
    assert(evs@.skip(0) =~= evs@);
    while i < evs.len()
        invariant
            0 <= i <= evs@.len(),
            evidence_list_error(evs@, required@, ref_path@, token@, span@) == evidence_list_error(
                evs@.skip(i as int),
                required@,
                ref_path@,
                token@,
                span@,
            ),
        decreases evs.len() - i,
    {
        assert(evs@.skip(i as int).drop_first() =~= evs@.skip(i + 1));
        assert(evs@.skip(i as int)[0] == evs@[i as int]);
        let ev = &evs[i];
        check_required(located, required, "evidence_refs.path", ev.path.as_str())?;
        require(located, relative_ref(ev.path.as_str()), ref_path, "evidence path 必须是相对路径，不能是绝对路径或包含 ..")?;
        check_tokens(located, token, "evidence_refs.path", ev.path.as_str())?;
        if matches!(ev.kind, V32BoundaryEvidenceKind::SourceSpan) {
            match (ev.line_start, ev.line_end) {
                (Some(start), Some(end)) => {
                    require(located, start != 0 && end >= start, span, "source_span 行号必须从 1 开始，且 line_end 不能小于 line_start")?;
                },
                (None, _) => {
                    return require(located, false, span, "source_span evidence 必须包含 line_start");
                },
                (Some(_), None) => {
                    return require(located, false, span, "source_span evidence 必须包含 line_end");
                },
            }
        }
        i = i + 1;
    }
    assert(evs@.skip(evs@.len() as int) =~= Seq::<V32BoundaryEvidenceRef>::empty());
    Ok(())
}

pub open spec fn is_confidence_word(s: Seq<char>) -> bool {
    s == "high"@ || s == "medium"@ || s == "low"@
}

/// The error code of one boundary index record, given the run id that the file already fixed
/// and whether its boundary id already occurred.
pub open spec fn boundary_record_error(
    r: V32BoundaryIndexRecord,
    first_run: Option<Seq<char>>,
    duplicate: bool,
) -> Option<Seq<char>> {
    let req = "BW-BOUNDARY-REQUIRED-EMPTY"@;
    let tok = "BW-BOUNDARY-PRIVATE-TOKEN"@;
    if !present(r.run_id@) {
        Some(req)
    } else if !present(r.crate_id@) {
        Some(req)
    } else if !present(r.boundary_id@) {
        Some(req)
    } else if !present(r.confidence@) {
        Some(req)
    } else if !is_confidence_word(r.confidence@) {
        Some("BW-BOUNDARY-CONFIDENCE"@)
    } else if has_forbidden_token(r.run_id@) || has_forbidden_token(r.boundary_id@)
        || has_forbidden_token(r.crate_id@) || has_forbidden_token(r.confidence@) {
        Some(tok)
    } else if r.api_path is Some && !present(r.api_path->0@) {
        Some(req)
    } else if r.api_path is Some && has_forbidden_token(r.api_path->0@) {
        Some(tok)
    } else if !all_token_free(r.notes@) {
        Some(tok)
    } else if first_run is Some && first_run->0 != r.run_id@ {
        Some("BW-BOUNDARY-RUN-MISMATCH"@)
    } else if duplicate {
        Some("BW-BOUNDARY-ID-DUPLICATE"@)
    } else if r.evidence_refs@.len() == 0 {
        Some("BW-BOUNDARY-EVIDENCE-EMPTY"@)
    } else if evidence_list_error(
        r.evidence_refs@,
        req,
        "BW-BOUNDARY-REF-PATH"@,
        tok,
        "BW-BOUNDARY-SOURCE-SPAN"@,
    ) is Some {
        evidence_list_error(
            r.evidence_refs@,
            req,
            "BW-BOUNDARY-REF-PATH"@,
            tok,
            "BW-BOUNDARY-SOURCE-SPAN"@,
        )
    } else if r.boundary_kind == V32BoundaryKind::NegativeSummary {
        if r.api_path is Some {
            Some("BW-BOUNDARY-NEGATIVE-API-PATH"@)
        } else {
            None
        }
    } else if r.api_path is None || !present(r.api_path->0@) {
        Some(req)
    } else {
        None
    }
}

/// The error code of the record at `i`, in the context of the records before it.
pub open spec fn boundary_error_at(records: Seq<Located<V32BoundaryIndexRecord>>, i: int) -> Option<
    Seq<char>,
> {
    boundary_record_error(
        records[i].value,
        if i == 0 {
            None
        } else {
            Some(records[0].value.run_id@)
        },
        exists|j: int| 0 <= j < i && #[trigger] records[j].value.boundary_id@ == records[i].value.boundary_id@,
    )
}

pub open spec fn count_negative(records: Seq<Located<V32BoundaryIndexRecord>>) -> nat
    decreases records.len(),
{
    if records.len() == 0 {
        0
    } else {
        count_negative(records.drop_last()) + if records.last().value.boundary_kind
            == V32BoundaryKind::NegativeSummary {
            1nat
        } else {
            0nat
        }
    }
}

fn check_boundary_record(
    located: &Located<V32BoundaryIndexRecord>,
    first_run: &Option<String>,
    duplicate: bool,
) -> (r: Result<(), ModelError>)
    ensures
        match boundary_record_error(
            located.value,
            match first_run {
                Some(s) => Some(s@),
                None => None,
            },
            duplicate,
        ) {
            None => r is Ok,
            Some(code) => r matches Err(e) && is_error_at(e, *located, code),
        },
{
    let record = &located.value;
    let req = "BW-BOUNDARY-REQUIRED-EMPTY";
    let tok = "BW-BOUNDARY-PRIVATE-TOKEN";
    check_required(located, req, "run_id", record.run_id.as_str())?;
    check_required(located, req, "crate_id", record.crate_id.as_str())?;
    check_required(located, req, "boundary_id", record.boundary_id.as_str())?;
    check_required(located, req, "confidence", record.confidence.as_str())?;
    let confidence_ok = record.confidence == owned("high") || record.confidence == owned("medium")
        || record.confidence == owned("low");
    require(located, confidence_ok, "BW-BOUNDARY-CONFIDENCE", "confidence 必须是 high、medium 或 low")?;
    check_tokens(located, tok, "run_id", record.run_id.as_str())?;
    check_tokens(located, tok, "boundary_id", record.boundary_id.as_str())?;
    check_tokens(located, tok, "crate_id", record.crate_id.as_str())?;
    check_tokens(located, tok, "confidence", record.confidence.as_str())?;
    if let Some(api_path) = &record.api_path {
        check_required(located, req, "api_path", api_path.as_str())?;
        check_tokens(located, tok, "api_path", api_path.as_str())?;
    }
    check_tokens_all(located, tok, "notes", &record.notes)?;
    if let Some(expected) = first_run {
        require(located, *expected == record.run_id, "BW-BOUNDARY-RUN-MISMATCH", "同一 boundary index 文件出现不同的 run_id")?;
    }
    require(located, !duplicate, "BW-BOUNDARY-ID-DUPLICATE", "boundary_id 重复")?;
    require(located, record.evidence_refs.len() > 0, "BW-BOUNDARY-EVIDENCE-EMPTY", "boundary index 记录必须包含至少一条 evidence_refs")?;
    check_evidence_refs(located, &record.evidence_refs, req, "BW-BOUNDARY-REF-PATH", tok, "BW-BOUNDARY-SOURCE-SPAN")?;
    if matches!(record.boundary_kind, V32BoundaryKind::NegativeSummary) {
        require(located, record.api_path.is_none(), "BW-BOUNDARY-NEGATIVE-API-PATH", "negative_summary 记录不能携带 api_path")
    } else {
        match &record.api_path {
            Some(p) => check_required(located, req, "api_path", p.as_str()),
            None => require(located, false, req, "api_path 不能为空"),
        }
    }
}

/// Validates a boundary index file: every record is checked in order and the first failure is
/// reported at its record; on success the counts of all records, boundary records and negative
/// summaries.
pub fn validate_v3_2_boundary_index(records: Vec<Located<V32BoundaryIndexRecord>>) -> (r: Result<
    V32BoundaryIndexSummary,
    ModelError,
>)
    ensures
        match r {
            Ok(summary) => {
                &&& forall|i: int| 0 <= i < records@.len() ==> boundary_error_at(records@, i) is None
                &&& summary.record_count == records@.len()
                &&& summary.negative_count == count_negative(records@)
                &&& summary.boundary_count == records@.len() - count_negative(records@)
            },
            Err(e) => exists|i: int|
                0 <= i < records@.len() && (forall|j: int| 0 <= j < i ==> boundary_error_at(records@, j) is None)
                    && (#[trigger] boundary_error_at(records@, i)) is Some && is_error_at(
                    e,
                    records@[i],
                    boundary_error_at(records@, i)->0,
                ),
        },
{
    let mut summary = V32BoundaryIndexSummary { record_count: 0, boundary_count: 0, negative_count: 0 };
    let mut run_id: Option<String> = None;
    let mut seen: Vec<String> = Vec::new();
    let mut i: usize = 0;
    while i < records.len()
        invariant
            0 <= i <= records@.len(),
            forall|j: int| 0 <= j < i ==> boundary_error_at(records@, j) is None,
            seen@.len() == i,
            forall|k: int| 0 <= k < i ==> (#[trigger] seen@[k])@ == records@[k].value.boundary_id@,
            i == 0 ==> run_id is None,
            i > 0 ==> (run_id is Some && run_id->0@ == records@[0].value.run_id@),
            summary.record_count == i,
            summary.negative_count == count_negative(records@.take(i as int)),
            summary.boundary_count == i - count_negative(records@.take(i as int)),
            count_negative(records@.take(i as int)) <= i,
        decreases records.len() - i,
    {
        let located = &records[i];
        let duplicate = contains_text(&seen, &located.value.boundary_id);
        assert(duplicate == exists|j: int| 0 <= j < i && #[trigger] records@[j].value.boundary_id@ == records@[i as int].value.boundary_id@) by {
            if duplicate {
                let k = choose|k: int| 0 <= k < seen@.len() && (#[trigger] seen@[k])@ == located.value.boundary_id@;
                assert(records@[k].value.boundary_id@ == records@[i as int].value.boundary_id@);
            }
            if exists|j: int| 0 <= j < i && #[trigger] records@[j].value.boundary_id@ == records@[i as int].value.boundary_id@ {
                let j = choose|j: int| 0 <= j < i && #[trigger] records@[j].value.boundary_id@ == records@[i as int].value.boundary_id@;
                assert(seen@[j]@ == records@[j].value.boundary_id@);
            }
        }
        match check_boundary_record(located, &run_id, duplicate) {
            Ok(()) => {},
            Err(e) => {
                assert(boundary_error_at(records@, i as int) is Some);
                return Err(e);
            },
        }
        assert(records@.take(i + 1).drop_last() =~= records@.take(i as int));
        if i == 0 {
            run_id = Some(located.value.run_id.clone());
        }
        seen.push(located.value.boundary_id.clone());
        if matches!(located.value.boundary_kind, V32BoundaryKind::NegativeSummary) {
            summary.negative_count = summary.negative_count + 1;
        } else {
            summary.boundary_count = summary.boundary_count + 1;
        }
        summary.record_count = summary.record_count + 1;
        i = i + 1;
    }
    assert(records@.take(records@.len() as int) =~= records@);
    Ok(summary)
}

} // verus!
