//! V3.2 corpus manifest: which crates enter the corpus, and why.

use vstd::prelude::*;

use crate::checks::{all_token_free, check_required, check_tokens, check_tokens_all, contains_text, require};
use crate::error::{is_error_at, Located, ModelError};
use crate::public_tokens::has_forbidden_token;
use crate::static_fact::present;

verus! {

/// Schema version of corpus manifest records.
pub const V3_2_CORPUS_MANIFEST_SCHEMA_V1: &'static str = "v3.2.corpus_manifest.1";

#[derive(Clone, Debug)]
pub struct V32CorpusManifestRecord {
    pub schema_version: String,
    pub corpus_id: String,
    pub crate_id: String,
    pub crate_name: String,
    pub version: String,
    pub source_kind: V32CorpusSourceKind,
    pub source_ref: String,
    pub selection_reason: Vec<V32CorpusSelectionReason>,
    pub intake_status: V32CorpusIntakeStatus,
    pub intake_notes: Vec<String>,
}

#[derive(Clone, Copy, Debug, PartialEq, Eq)]
pub enum V32CorpusSourceKind {
    CratesIo,
    GitArchive,
    LocalArchive,
    RegistrySnapshot,
}

#[derive(Clone, Copy, Debug, PartialEq, Eq)]
pub enum V32CorpusSelectionReason {
    NativeDependency,
    CallbackApiCandidate,
    FfiDependency,
    BindgenUsage,
    LinksMetadata,
    PureRust,
    IteratorApiCandidate,
    ContainerLifecycleSurface,
    WrapperApiCandidate,
    DestructureLifecycleSurface,
    AllocatorApiCandidate,
    IteratorLifetimeSurface,
    ConcurrentCellSurface,
    ConversionApiCandidate,
    SliceViewSurface,
    ManualExclusionRecord,
}

#[derive(Clone, Copy, Debug, PartialEq, Eq)]
pub enum V32CorpusIntakeStatus {
    Accepted,
    Excluded,
}

#[derive(Clone, Debug, Default, PartialEq, Eq)]
pub struct V32CorpusManifestSummary {
    pub record_count: u64,
    pub accepted_count: u64,
    pub excluded_count: u64,
}

/// The error code of one manifest record, given the corpus id fixed by the first record and
/// whether its crate id already occurred.
pub open spec fn corpus_record_error(
    r: V32CorpusManifestRecord,
    first_corpus: Option<Seq<char>>,
    duplicate: bool,
) -> Option<Seq<char>> {
    if !present(r.corpus_id@) || !present(r.crate_id@) || !present(r.crate_name@) || !present(
        r.version@,
    ) || !present(r.source_ref@) {
        Some("BW-CORPUS-REQUIRED-EMPTY"@)
    } else if has_forbidden_token(r.corpus_id@) || has_forbidden_token(r.crate_id@)
        || has_forbidden_token(r.crate_name@) || has_forbidden_token(r.version@)
        || has_forbidden_token(r.source_ref@) || !all_token_free(r.intake_notes@) {
        Some("BW-CORPUS-PRIVATE-TOKEN"@)
    } else if r.selection_reason@.len() == 0 {
        Some("BW-CORPUS-SELECTION-EMPTY"@)
    } else if r.intake_status == V32CorpusIntakeStatus::Excluded && r.intake_notes@.len() == 0 {
        Some("BW-CORPUS-EXCLUSION-NOTE-MISSING"@)
    } else if first_corpus is Some && first_corpus->0 != r.corpus_id@ {
        Some("BW-CORPUS-ID-MISMATCH"@)
    } else if duplicate {
        Some("BW-CORPUS-CRATE-DUPLICATE"@)
    } else {
        None
    }
}

pub open spec fn corpus_error_at(records: Seq<Located<V32CorpusManifestRecord>>, i: int) -> Option<
    Seq<char>,
> {
    corpus_record_error(
        records[i].value,
        if i == 0 {
            None
        } else {
            Some(records[0].value.corpus_id@)
        },
        exists|j: int| 0 <= j < i && #[trigger] records[j].value.crate_id@ == records[i].value.crate_id@,
    )
}

/// The number of accepted records.
pub open spec fn count_accepted(records: Seq<Located<V32CorpusManifestRecord>>) -> nat
    decreases records.len(),
{
    if records.len() == 0 {
        0
    } else {
        count_accepted(records.drop_last()) + if records.last().value.intake_status
            == V32CorpusIntakeStatus::Accepted {
            1nat
        } else {
            0nat
        }
    }
}

fn check_corpus_record(
    located: &Located<V32CorpusManifestRecord>,
    first_corpus: &Option<String>,
    duplicate: bool,
) -> (r: Result<(), ModelError>)
    ensures
        match corpus_record_error(
            located.value,
            match first_corpus {
                Some(s) => Some(s@),
                None => None,
            },
            duplicate,
        ) {
            None => r is Ok,
            Some(code) => r matches Err(e) && is_error_at(e, *located, code),
        },
{
    let record = &located.value;
    let req = "BW-CORPUS-REQUIRED-EMPTY";
    let tok = "BW-CORPUS-PRIVATE-TOKEN";
    check_required(located, req, "corpus_id", record.corpus_id.as_str())?;
    check_required(located, req, "crate_id", record.crate_id.as_str())?;
    check_required(located, req, "crate_name", record.crate_name.as_str())?;
    check_required(located, req, "version", record.version.as_str())?;
    check_required(located, req, "source_ref", record.source_ref.as_str())?;
    check_tokens(located, tok, "corpus_id", record.corpus_id.as_str())?;
    check_tokens(located, tok, "crate_id", record.crate_id.as_str())?;
    check_tokens(located, tok, "crate_name", record.crate_name.as_str())?;
    check_tokens(located, tok, "version", record.version.as_str())?;
    check_tokens(located, tok, "source_ref", record.source_ref.as_str())?;
    check_tokens_all(located, tok, "intake_notes", &record.intake_notes)?;
    require(
        located,
        record.selection_reason.len() > 0,
        "BW-CORPUS-SELECTION-EMPTY",
        "selection_reason 至少需要一个冻结枚举值",
    )?;
    require(
        located,
        !(matches!(record.intake_status, V32CorpusIntakeStatus::Excluded)
            && record.intake_notes.len() == 0),
        "BW-CORPUS-EXCLUSION-NOTE-MISSING",
        "excluded 记录必须在 intake_notes 中说明排除原因",
    )?;
    if let Some(expected) = first_corpus {
        require(
            located,
            *expected == record.corpus_id,
            "BW-CORPUS-ID-MISMATCH",
            "同一 manifest 出现不同的 corpus_id",
        )?;
    }
    require(located, !duplicate, "BW-CORPUS-CRATE-DUPLICATE", "crate_id 重复")
}

/// Validates a corpus manifest: every record is checked in order and the first failure is
/// reported at its record; on success the counts of all, accepted and excluded records.
pub fn validate_v3_2_corpus_manifest(records: Vec<Located<V32CorpusManifestRecord>>) -> (r: Result<
    V32CorpusManifestSummary,
    ModelError,
>)
    ensures
        match r {
            Ok(summary) => {
                &&& forall|i: int| 0 <= i < records@.len() ==> corpus_error_at(records@, i) is None
                &&& summary.record_count == records@.len()
                &&& summary.accepted_count == count_accepted(records@)
                &&& summary.excluded_count == records@.len() - count_accepted(records@)
            },
            Err(e) => exists|i: int|
                0 <= i < records@.len() && (forall|j: int| 0 <= j < i ==> corpus_error_at(records@, j) is None)
                    && (#[trigger] corpus_error_at(records@, i)) is Some && is_error_at(
                    e,
                    records@[i],
                    corpus_error_at(records@, i)->0,
                ),
        },
{
    let mut summary = V32CorpusManifestSummary { record_count: 0, accepted_count: 0, excluded_count: 0 };
    let mut corpus_id: Option<String> = None;
    let mut seen: Vec<String> = Vec::new();
    let mut i: usize = 0;
    while i < records.len()
        invariant
            0 <= i <= records@.len(),
            forall|j: int| 0 <= j < i ==> corpus_error_at(records@, j) is None,
            seen@.len() == i,
            forall|k: int| 0 <= k < i ==> (#[trigger] seen@[k])@ == records@[k].value.crate_id@,
            i == 0 ==> corpus_id is None,
            i > 0 ==> (corpus_id is Some && corpus_id->0@ == records@[0].value.corpus_id@),
            summary.record_count == i,
            summary.accepted_count == count_accepted(records@.take(i as int)),
            summary.excluded_count == i - count_accepted(records@.take(i as int)),
            count_accepted(records@.take(i as int)) <= i,
        decreases records.len() - i,
    {
        let located = &records[i];
        let duplicate = contains_text(&seen, &located.value.crate_id);
        assert(duplicate == exists|j: int| 0 <= j < i && #[trigger] records@[j].value.crate_id@ == records@[i as int].value.crate_id@) by {
            if duplicate {
                let k = choose|k: int| 0 <= k < seen@.len() && (#[trigger] seen@[k])@ == located.value.crate_id@;
                assert(records@[k].value.crate_id@ == records@[i as int].value.crate_id@);
            }
            if exists|j: int| 0 <= j < i && #[trigger] records@[j].value.crate_id@ == records@[i as int].value.crate_id@ {
                let j = choose|j: int| 0 <= j < i && #[trigger] records@[j].value.crate_id@ == records@[i as int].value.crate_id@;
                assert(seen@[j]@ == records@[j].value.crate_id@);
            }
        }
        match check_corpus_record(located, &corpus_id, duplicate) {
            Ok(()) => {},
            Err(e) => {
                assert(corpus_error_at(records@, i as int) is Some);
                return Err(e);
            },
        }
        assert(records@.take(i + 1).drop_last() =~= records@.take(i as int));
        if i == 0 {
            corpus_id = Some(located.value.corpus_id.clone());
        }
        seen.push(located.value.crate_id.clone());
        if matches!(located.value.intake_status, V32CorpusIntakeStatus::Accepted) {
            summary.accepted_count = summary.accepted_count + 1;
        } else {
            summary.excluded_count = summary.excluded_count + 1;
        }
        summary.record_count = summary.record_count + 1;
        i = i + 1;
    }
    assert(records@.take(records@.len() as int) =~= records@);
    Ok(summary)
}

} // verus!
