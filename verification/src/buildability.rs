//! V3.2 buildability: whether each corpus crate builds, and why not.

use vstd::prelude::*;

use crate::checks::{all_token_free, check_required, check_tokens, check_tokens_all, contains_text, is_relative_ref, relative_ref, require};
use crate::error::{is_error_at, Located, ModelError};
use crate::public_tokens::has_forbidden_token;
use crate::static_fact::present;

verus! {

/// Schema version of buildability records.
pub const V3_2_BUILDABILITY_SCHEMA_V1: &'static str = "v3.2.buildability.1";

#[derive(Clone, Debug)]
pub struct V32BuildabilityRecord {
    pub schema_version: String,
    pub run_id: String,
    pub crate_id: String,
    pub status: V32BuildabilityStatus,
    pub toolchain: String,
    pub target: String,
    pub native_dependencies: Vec<String>,
    pub elapsed_ms: u64,
    pub log_ref: String,
    pub failure_class: Option<String>,
    pub original_status: Option<V32BuildabilityStatus>,
    pub original_failure_class: Option<String>,
    pub fallback_status: Option<V32BuildabilityStatus>,
    pub fallback_failure_class: Option<String>,
    pub fallback_rustflags: Option<String>,
}

#[derive(Clone, Copy, Debug, PartialEq, Eq)]
pub enum V32BuildabilityStatus {
    Buildable,
    NotBuildable,
    RequiresSystemDependency,
    UnsupportedTarget,
    Timeout,
    ToolError,
}

#[derive(Clone, Debug, Default, PartialEq, Eq)]
pub struct V32BuildabilitySummary {
    pub record_count: u64,
    pub buildable_count: u64,
    pub failed_count: u64,
}

/// An optional public text carries no forbidden identity token.
pub open spec fn opt_token_free(o: Option<String>) -> bool {
    match o {
        Some(v) => !has_forbidden_token(v@),
        None => true,
    }
}

/// An optional text is either absent or present and not blank.
pub open spec fn opt_not_blank(o: Option<String>) -> bool {
    match o {
        Some(v) => present(v@),
        None => true,
    }
}

/// The error code of one buildability record, given the run id already fixed and whether its
/// crate id already occurred.
pub open spec fn buildability_record_error(
    r: V32BuildabilityRecord,
    first_run: Option<Seq<char>>,
    duplicate: bool,
) -> Option<Seq<char>> {
    let req = "BW-BUILDABILITY-REQUIRED-EMPTY"@;
    let tok = "BW-BUILDABILITY-PRIVATE-TOKEN"@;
    if !present(r.run_id@) || !present(r.crate_id@) || !present(r.toolchain@) || !present(
        r.target@,
    ) || !present(r.log_ref@) {
        Some(req)
    } else if !is_relative_ref(r.log_ref@) {
        Some("BW-BUILDABILITY-LOG-REF"@)
    } else if has_forbidden_token(r.run_id@) || has_forbidden_token(r.crate_id@)
        || has_forbidden_token(r.toolchain@) || has_forbidden_token(r.target@)
        || has_forbidden_token(r.log_ref@) || !opt_token_free(r.original_failure_class)
        || !opt_token_free(r.fallback_failure_class) || !opt_token_free(r.fallback_rustflags)
        || !all_token_free(r.native_dependencies@) {
        Some(tok)
    } else if !opt_not_blank(r.original_failure_class) {
        Some("BW-BUILDABILITY-ORIGINAL-FAILURE-CLASS-EMPTY"@)
    } else if !opt_not_blank(r.fallback_failure_class) {
        Some("BW-BUILDABILITY-FALLBACK-FAILURE-CLASS-EMPTY"@)
    } else if !opt_not_blank(r.fallback_rustflags) {
        Some("BW-BUILDABILITY-FALLBACK-RUSTFLAGS-EMPTY"@)
    } else if r.fallback_status is Some && r.fallback_rustflags is None {
        Some("BW-BUILDABILITY-FALLBACK-RUSTFLAGS-MISSING"@)
    } else if r.fallback_status is None && r.fallback_rustflags is Some {
        Some("BW-BUILDABILITY-FALLBACK-STATUS-MISSING"@)
    } else if first_run is Some && first_run->0 != r.run_id@ {
        Some("BW-BUILDABILITY-RUN-MISMATCH"@)
    } else if duplicate {
        Some("BW-BUILDABILITY-CRATE-DUPLICATE"@)
    } else if r.status == V32BuildabilityStatus::Buildable {
        if r.failure_class is Some {
            Some("BW-BUILDABILITY-BUILDABLE-HAS-FAILURE"@)
        } else {
            None
        }
    } else if r.failure_class is None || !present(r.failure_class->0@) {
        Some(req)
    } else if has_forbidden_token(r.failure_class->0@) {
        Some(tok)
    } else {
        None
    }
}

pub open spec fn buildability_error_at(records: Seq<Located<V32BuildabilityRecord>>, i: int) -> Option<
    Seq<char>,
> {
    buildability_record_error(
        records[i].value,
        if i == 0 {
            None
        } else {
            Some(records[0].value.run_id@)
        },
        exists|j: int| 0 <= j < i && #[trigger] records[j].value.crate_id@ == records[i].value.crate_id@,
    )
}

pub open spec fn count_buildable(records: Seq<Located<V32BuildabilityRecord>>) -> nat
    decreases records.len(),
{
    if records.len() == 0 {
        0
    } else {
        count_buildable(records.drop_last()) + if records.last().value.status
            == V32BuildabilityStatus::Buildable {
            1nat
        } else {
            0nat
        }
    }
}

fn check_optional_tokens<T>(
    located: &Located<T>,
    code: &'static str,
    field: &str,
    value: &Option<String>,
) -> (r: Result<(), ModelError>)
    ensures
        r is Ok <==> opt_token_free(*value),
        r matches Err(e) ==> is_error_at(e, *located, code@),
{
    match value {
        Some(v) => check_tokens(located, code, field, v.as_str()),
        None => Ok(()),
    }
}

fn check_optional_not_blank<T>(
    located: &Located<T>,
    code: &'static str,
    value: &Option<String>,
    message: &str,
) -> (r: Result<(), ModelError>)
    ensures
        r is Ok <==> opt_not_blank(*value),
        r matches Err(e) ==> is_error_at(e, *located, code@),
{
    match value {
        Some(v) => check_required(located, code, message, v.as_str()),
        None => Ok(()),
    }
}

fn check_buildability_record(
    located: &Located<V32BuildabilityRecord>,
    first_run: &Option<String>,
    duplicate: bool,
) -> (r: Result<(), ModelError>)
    ensures
        match buildability_record_error(
            located.value,
            match first_run {
                Some(s) => Some(s@),
                None => None,
            },
            duplicate,
        ) {
            None => r is Ok,
            Some(code) => r matches Err(e) && is_error_at(e, *located, code),
        },
{
    let record = &located.value;
    let req = "BW-BUILDABILITY-REQUIRED-EMPTY";
    let tok = "BW-BUILDABILITY-PRIVATE-TOKEN";
    check_required(located, req, "run_id", record.run_id.as_str())?;
    check_required(located, req, "crate_id", record.crate_id.as_str())?;
    check_required(located, req, "toolchain", record.toolchain.as_str())?;
    check_required(located, req, "target", record.target.as_str())?;
    check_required(located, req, "log_ref", record.log_ref.as_str())?;
    require(located, relative_ref(record.log_ref.as_str()), "BW-BUILDABILITY-LOG-REF", "log_ref 必须是 run/logs 根目录下的相对路径，不能是绝对路径或包含 ..")?;
    check_tokens(located, tok, "run_id", record.run_id.as_str())?;
    check_tokens(located, tok, "crate_id", record.crate_id.as_str())?;
    check_tokens(located, tok, "toolchain", record.toolchain.as_str())?;
    check_tokens(located, tok, "target", record.target.as_str())?;
    check_tokens(located, tok, "log_ref", record.log_ref.as_str())?;
    check_optional_tokens(located, tok, "original_failure_class", &record.original_failure_class)?;
    check_optional_tokens(located, tok, "fallback_failure_class", &record.fallback_failure_class)?;
    check_optional_tokens(located, tok, "fallback_rustflags", &record.fallback_rustflags)?;
    check_tokens_all(located, tok, "native_dependencies", &record.native_dependencies)?;
    check_optional_not_blank(located, "BW-BUILDABILITY-ORIGINAL-FAILURE-CLASS-EMPTY", &record.original_failure_class, "original_failure_class")?;
    check_optional_not_blank(located, "BW-BUILDABILITY-FALLBACK-FAILURE-CLASS-EMPTY", &record.fallback_failure_class, "fallback_failure_class")?;
    check_optional_not_blank(located, "BW-BUILDABILITY-FALLBACK-RUSTFLAGS-EMPTY", &record.fallback_rustflags, "fallback_rustflags")?;
    require(located, !(record.fallback_status.is_some() && record.fallback_rustflags.is_none()), "BW-BUILDABILITY-FALLBACK-RUSTFLAGS-MISSING", "fallback_status 存在时必须记录 fallback_rustflags")?;
    require(located, !(record.fallback_status.is_none() && record.fallback_rustflags.is_some()), "BW-BUILDABILITY-FALLBACK-STATUS-MISSING", "fallback_rustflags 存在时必须记录 fallback_status")?;
    if let Some(expected) = first_run {
        require(located, *expected == record.run_id, "BW-BUILDABILITY-RUN-MISMATCH", "同一 buildability 文件出现不同的 run_id")?;
    }
    require(located, !duplicate, "BW-BUILDABILITY-CRATE-DUPLICATE", "crate_id 重复")?;
    if matches!(record.status, V32BuildabilityStatus::Buildable) {
        require(located, record.failure_class.is_none(), "BW-BUILDABILITY-BUILDABLE-HAS-FAILURE", "buildable 记录不能携带 failure_class")
    } else {
        match &record.failure_class {
            Some(failure) => {
                check_required(located, req, "failure_class", failure.as_str())?;
                check_tokens(located, tok, "failure_class", failure.as_str())
            },
            None => require(located, false, req, "failure_class 不能为空"),
        }
    }
}

/// Validates a buildability file: every record is checked in order and the first failure is
/// reported at its record; on success the counts of all, buildable and failed records.
pub fn validate_v3_2_buildability(records: Vec<Located<V32BuildabilityRecord>>) -> (r: Result<
    V32BuildabilitySummary,
    ModelError,
>)
    ensures
        match r {
            Ok(summary) => {
                &&& forall|i: int| 0 <= i < records@.len() ==> buildability_error_at(records@, i) is None
                &&& summary.record_count == records@.len()
                &&& summary.buildable_count == count_buildable(records@)
                &&& summary.failed_count == records@.len() - count_buildable(records@)
            },
            Err(e) => exists|i: int|
                0 <= i < records@.len() && (forall|j: int| 0 <= j < i ==> buildability_error_at(records@, j) is None)
                    && (#[trigger] buildability_error_at(records@, i)) is Some && is_error_at(
                    e,
                    records@[i],
                    buildability_error_at(records@, i)->0,
                ),
        },
{
    let mut summary = V32BuildabilitySummary { record_count: 0, buildable_count: 0, failed_count: 0 };
    let mut run_id: Option<String> = None;
    let mut seen: Vec<String> = Vec::new();
    let mut i: usize = 0;
    while i < records.len()
        invariant
            0 <= i <= records@.len(),
            forall|j: int| 0 <= j < i ==> buildability_error_at(records@, j) is None,
            seen@.len() == i,
            forall|k: int| 0 <= k < i ==> (#[trigger] seen@[k])@ == records@[k].value.crate_id@,
            i == 0 ==> run_id is None,
            i > 0 ==> (run_id is Some && run_id->0@ == records@[0].value.run_id@),
            summary.record_count == i,
            summary.buildable_count == count_buildable(records@.take(i as int)),
            summary.failed_count == i - count_buildable(records@.take(i as int)),
            count_buildable(records@.take(i as int)) <= i,
        decreases records.len() - i,
    {
        let located = &records[i];
        let duplicate = contains_text(&seen, &located.value.crate_id);
        assert(duplicate == exists|j: int| 0 <= j < i && #[trigger] records@[j].value.crate_id@ == records@[i as int].value.crate_id@) by {
            if duplicate {
                let k = choose|k: int| 0 <= k < seen@.len() && (#[trigger] seen@[k])@ == located.value.crate_id@;
                assert(records@[k].value.crate_id@ == records@[i as int].value.crate_id@);
            }
            if exists|j: int| 0 <= j < i && #[trigger] records@[j].value.crate_id@ == records@[i as int].value.crate_id@ {
                let j = choose|j: int| 0 <= j < i && #[trigger] records@[j].value.crate_id@ == records@[i as int].value.crate_id@;
                assert(seen@[j]@ == records@[j].value.crate_id@);
            }
        }
        match check_buildability_record(located, &run_id, duplicate) {
            Ok(()) => {},
            Err(e) => {
                assert(buildability_error_at(records@, i as int) is Some);
                return Err(e);
            },
        }
        assert(records@.take(i + 1).drop_last() =~= records@.take(i as int));
        if i == 0 {
            run_id = Some(located.value.run_id.clone());
        }
        seen.push(located.value.crate_id.clone());
        if matches!(located.value.status, V32BuildabilityStatus::Buildable) {
            summary.buildable_count = summary.buildable_count + 1;
        } else {
            summary.failed_count = summary.failed_count + 1;
        }
        summary.record_count = summary.record_count + 1;
        i = i + 1;
    }
    assert(records@.take(records@.len() as int) =~= records@);
    Ok(summary)
}

} // verus!
