//! V3.2.5 static ranking reveal: the private ground truth of a blind suite, and how the public
//! ranking fared against it.

use vstd::prelude::*;

use crate::boundary_index::V32BoundaryIndexRecord;
use crate::buildability::{V32BuildabilityRecord, V32BuildabilityStatus};
use crate::candidate::V32PatternFamily;
use crate::compatibility::clone_opt_string;
use crate::lifecycle::V32RankedCandidateRecord;
use crate::checks::{check_required, contains_text, require};
use crate::error::{is_error_at, spec_error_code, Located, ModelError};
use crate::scanner_freeze::is_hex_digit;
use crate::static_fact::present;
use crate::text::{chars_of, clone_texts, concat2, decimal, decimal_string, lower_contains, lowercase_contains, owned, str_is_blank};

verus! {

/// Schema version of private ground truth records.
pub const V3_2_5_PRIVATE_GROUND_TRUTH_SCHEMA_V1: &'static str = "v3.2.5.private_ground_truth.1";

/// Schema version of static ranking reveal summaries.
pub const V3_2_5_STATIC_RANKING_REVEAL_SCHEMA_V1: &'static str = "v3.2.5.static_ranking_reveal.1";

#[derive(Clone, Debug)]
pub struct V325PrivateGroundTruthRecord {
    pub schema_version: String,
    pub suite_id: String,
    pub sample_id: String,
    pub public_crate_id: String,
    pub role: V325SampleRole,
    pub paired_with: Vec<String>,
    pub expected_pattern_families: Vec<V325ExpectedPatternFamily>,
    pub expected_api_substrings: Vec<String>,
    pub expected_path_substrings: Vec<String>,
    pub root_cause_key: String,
    pub vulnerability_identity: Option<String>,
    pub notes: Vec<String>,
}

/// A ground truth record with its texts taken as character sequences.
#[verifier::ext_equal]
pub struct GroundTruthView {
    pub schema_version: Seq<char>,
    pub suite_id: Seq<char>,
    pub sample_id: Seq<char>,
    pub public_crate_id: Seq<char>,
    pub role: V325SampleRole,
    pub paired_with: Seq<Seq<char>>,
    pub expected_pattern_families: Seq<V325ExpectedPatternFamily>,
    pub expected_api_substrings: Seq<Seq<char>>,
    pub expected_path_substrings: Seq<Seq<char>>,
    pub root_cause_key: Seq<char>,
    pub vulnerability_identity: Option<Seq<char>>,
    pub notes: Seq<Seq<char>>,
}

impl View for V325PrivateGroundTruthRecord {
    type V = GroundTruthView;

    open spec fn view(&self) -> GroundTruthView {
        GroundTruthView {
            schema_version: self.schema_version@,
            suite_id: self.suite_id@,
            sample_id: self.sample_id@,
            public_crate_id: self.public_crate_id@,
            role: self.role,
            paired_with: self.paired_with@.map_values(|s: String| s@),
            expected_pattern_families: self.expected_pattern_families@,
            expected_api_substrings: self.expected_api_substrings@.map_values(|s: String| s@),
            expected_path_substrings: self.expected_path_substrings@.map_values(|s: String| s@),
            root_cause_key: self.root_cause_key@,
            vulnerability_identity: match self.vulnerability_identity {
                Some(v) => Some(v@),
                None => None,
            },
            notes: self.notes@.map_values(|s: String| s@),
        }
    }
}

/// The views of the located records' values.
pub open spec fn ground_truth_views(records: Seq<Located<V325PrivateGroundTruthRecord>>) -> Seq<
    GroundTruthView,
> {
    records.map_values(|l: Located<V325PrivateGroundTruthRecord>| l.value@)
}

#[derive(Clone, Copy, Debug, PartialEq, Eq, Structural)]
pub enum V325SampleRole {
    Vulnerable,
    FixedControl,
    SafeControl,
    Distractor,
    Negative,
}

#[derive(Clone, Copy, Debug, PartialEq, Eq, PartialOrd, Ord)]
pub enum V325ExpectedPatternFamily {
    RetainedBorrowedCallback,
    CallbackLifecycleRelease,
    ForeignRetainedPointer,
    OpaqueHandleTransfer,
    NativeLibraryBoundary,
    ReturnedBorrowView,
    ExternalBufferView,
    IteratorStaleReference,
    ContainerEntryLifecycle,
    WrapperDestructurePointerLifecycle,
    ManualDropWindow,
    ArenaIteratorLifetime,
    AllocatorBackedCollection,
    ConcurrentIteratorVisibility,
    AtomicLoadLifecycle,
    MutableSliceViewConversion,
    CheckedViewInvariant,
}

/// The private family that a public pattern family names.
pub open spec fn spec_from_public_pattern(pattern: V32PatternFamily) -> V325ExpectedPatternFamily {
    match pattern {
        V32PatternFamily::RetainedBorrowedCallback => V325ExpectedPatternFamily::RetainedBorrowedCallback,
        V32PatternFamily::CallbackLifecycleRelease => V325ExpectedPatternFamily::CallbackLifecycleRelease,
        V32PatternFamily::ForeignRetainedPointer => V325ExpectedPatternFamily::ForeignRetainedPointer,
        V32PatternFamily::OpaqueHandleTransfer => V325ExpectedPatternFamily::OpaqueHandleTransfer,
        V32PatternFamily::NativeLibraryBoundary => V325ExpectedPatternFamily::NativeLibraryBoundary,
        V32PatternFamily::ReturnedBorrowView => V325ExpectedPatternFamily::ReturnedBorrowView,
        V32PatternFamily::ExternalBufferView => V325ExpectedPatternFamily::ExternalBufferView,
    }
}

/// The public pattern families under which a private family can show up.
pub open spec fn compatible_public(f: V325ExpectedPatternFamily, p: V32PatternFamily) -> bool {
    match f {
        V325ExpectedPatternFamily::RetainedBorrowedCallback => p == V32PatternFamily::RetainedBorrowedCallback,
        V325ExpectedPatternFamily::CallbackLifecycleRelease => p == V32PatternFamily::CallbackLifecycleRelease,
        V325ExpectedPatternFamily::ForeignRetainedPointer => p == V32PatternFamily::ForeignRetainedPointer,
        V325ExpectedPatternFamily::OpaqueHandleTransfer => p == V32PatternFamily::OpaqueHandleTransfer,
        V325ExpectedPatternFamily::NativeLibraryBoundary => p == V32PatternFamily::NativeLibraryBoundary,
        V325ExpectedPatternFamily::ReturnedBorrowView | V325ExpectedPatternFamily::IteratorStaleReference
        | V325ExpectedPatternFamily::ContainerEntryLifecycle
        | V325ExpectedPatternFamily::ArenaIteratorLifetime
        | V325ExpectedPatternFamily::AllocatorBackedCollection
        | V325ExpectedPatternFamily::ConcurrentIteratorVisibility
        | V325ExpectedPatternFamily::AtomicLoadLifecycle => p == V32PatternFamily::ReturnedBorrowView,
        V325ExpectedPatternFamily::ExternalBufferView
        | V325ExpectedPatternFamily::MutableSliceViewConversion
        | V325ExpectedPatternFamily::CheckedViewInvariant => p == V32PatternFamily::ReturnedBorrowView
            || p == V32PatternFamily::ExternalBufferView,
        V325ExpectedPatternFamily::WrapperDestructurePointerLifecycle
        | V325ExpectedPatternFamily::ManualDropWindow => p == V32PatternFamily::ForeignRetainedPointer,
    }
}

impl V325ExpectedPatternFamily {
    /// The private family that a public pattern family names.
    pub fn from_public_pattern(pattern: V32PatternFamily) -> (r: Self)
        ensures
            r == spec_from_public_pattern(pattern),
            compatible_public(r, pattern),
    {
        match pattern {
            V32PatternFamily::RetainedBorrowedCallback => V325ExpectedPatternFamily::RetainedBorrowedCallback,
            V32PatternFamily::CallbackLifecycleRelease => V325ExpectedPatternFamily::CallbackLifecycleRelease,
            V32PatternFamily::ForeignRetainedPointer => V325ExpectedPatternFamily::ForeignRetainedPointer,
            V32PatternFamily::OpaqueHandleTransfer => V325ExpectedPatternFamily::OpaqueHandleTransfer,
            V32PatternFamily::NativeLibraryBoundary => V325ExpectedPatternFamily::NativeLibraryBoundary,
            V32PatternFamily::ReturnedBorrowView => V325ExpectedPatternFamily::ReturnedBorrowView,
            V32PatternFamily::ExternalBufferView => V325ExpectedPatternFamily::ExternalBufferView,
        }
    }

    fn is_compatible_with(self, p: V32PatternFamily) -> (b: bool)
        ensures
            b == compatible_public(self, p),
    {
        match self {
            V325ExpectedPatternFamily::RetainedBorrowedCallback => matches!(p, V32PatternFamily::RetainedBorrowedCallback),
            V325ExpectedPatternFamily::CallbackLifecycleRelease => matches!(p, V32PatternFamily::CallbackLifecycleRelease),
            V325ExpectedPatternFamily::ForeignRetainedPointer => matches!(p, V32PatternFamily::ForeignRetainedPointer),
            V325ExpectedPatternFamily::OpaqueHandleTransfer => matches!(p, V32PatternFamily::OpaqueHandleTransfer),
            V325ExpectedPatternFamily::NativeLibraryBoundary => matches!(p, V32PatternFamily::NativeLibraryBoundary),
            V325ExpectedPatternFamily::ReturnedBorrowView | V325ExpectedPatternFamily::IteratorStaleReference
            | V325ExpectedPatternFamily::ContainerEntryLifecycle
            | V325ExpectedPatternFamily::ArenaIteratorLifetime
            | V325ExpectedPatternFamily::AllocatorBackedCollection
            | V325ExpectedPatternFamily::ConcurrentIteratorVisibility
            | V325ExpectedPatternFamily::AtomicLoadLifecycle => matches!(p, V32PatternFamily::ReturnedBorrowView),
            V325ExpectedPatternFamily::ExternalBufferView
            | V325ExpectedPatternFamily::MutableSliceViewConversion
            | V325ExpectedPatternFamily::CheckedViewInvariant => matches!(p, V32PatternFamily::ReturnedBorrowView)
                || matches!(p, V32PatternFamily::ExternalBufferView),
            V325ExpectedPatternFamily::WrapperDestructurePointerLifecycle
            | V325ExpectedPatternFamily::ManualDropWindow => matches!(p, V32PatternFamily::ForeignRetainedPointer),
        }
    }
}

#[derive(Clone, Debug, Default, PartialEq, Eq)]
pub struct V325PrivateGroundTruthSummary {
    pub record_count: u64,
    pub vulnerable_count: u64,
    pub control_count: u64,
}

/// The public reveal of a static ranking run. `miss_class_counts` holds the number of
/// vulnerable samples of each miss class that occurred, in increasing order of the class name.
#[derive(Clone, Debug)]
pub struct V325StaticRankingRevealSummary {
    pub schema_version: String,
    pub run_id: String,
    pub suite_id: String,
    pub ranked_candidates_sha256: String,
    pub ground_truth_sha256: String,
    pub top_k_values: Vec<u32>,
    pub metrics: V325RevealMetrics,
    pub miss_class_counts: Vec<(String, u64)>,
    pub notes: Vec<String>,
}

#[derive(Clone, Copy, Debug, Default, PartialEq, Eq)]
pub struct V325RevealMetrics {
    pub vulnerable_sample_count: u64,
    pub control_sample_count: u64,
    pub buildable_vulnerable_count: u64,
    pub nday_candidate_hit_count: u64,
    pub top1_hit_count: u64,
    pub top5_hit_count: u64,
    pub top10_hit_count: u64,
    pub ranking_miss_count: u64,
    pub boundary_miss_count: u64,
    pub build_failure_count: u64,
    pub false_positive_control_count: u64,
    pub paired_control_clean_count: u64,
}

#[derive(Clone, Copy, Debug, PartialEq, Eq, Structural)]
pub enum V325MissClass {
    HitTopK,
    BuildFailure,
    BoundaryMiss,
    CandidateMiss,
    RankingMiss,
    AdapterBlocked,
    GroundTruthMismatch,
}

pub open spec fn spec_miss_class_name(c: V325MissClass) -> Seq<char> {
    match c {
        V325MissClass::HitTopK => "hit_top_k"@,
        V325MissClass::BuildFailure => "build_failure"@,
        V325MissClass::BoundaryMiss => "boundary_miss"@,
        V325MissClass::CandidateMiss => "candidate_miss"@,
        V325MissClass::RankingMiss => "ranking_miss"@,
        V325MissClass::AdapterBlocked => "adapter_blocked"@,
        V325MissClass::GroundTruthMismatch => "ground_truth_mismatch"@,
    }
}

impl V325MissClass {
    /// The snake-case name of the miss class.
    pub fn as_str(self) -> (s: &'static str)
        ensures
            s@ == spec_miss_class_name(self),
    {
        match self {
            V325MissClass::HitTopK => "hit_top_k",
            V325MissClass::BuildFailure => "build_failure",
            V325MissClass::BoundaryMiss => "boundary_miss",
            V325MissClass::CandidateMiss => "candidate_miss",
            V325MissClass::RankingMiss => "ranking_miss",
            V325MissClass::AdapterBlocked => "adapter_blocked",
            V325MissClass::GroundTruthMismatch => "ground_truth_mismatch",
        }
    }
}

#[derive(Clone, Debug)]
pub struct V325PrivateMatchDetail {
    pub sample_id: String,
    pub public_crate_id: String,
    pub role: V325SampleRole,
    pub miss_class: V325MissClass,
    pub best_rank: Option<u32>,
    pub best_score: Option<u32>,
    pub matched_pattern_family: Option<V32PatternFamily>,
    pub notes: Vec<String>,
}

} // verus!

verus! {

/// The error code of one ground truth record in the first pass, given the suite id fixed by the
/// first record and whether its sample id and its public crate id already occurred.
pub open spec fn ground_truth_record_error(
    r: GroundTruthView,
    first_suite: Option<Seq<char>>,
    sample_duplicate: bool,
    crate_duplicate: bool,
) -> Option<Seq<char>> {
    if !present(r.suite_id) || !present(r.sample_id) || !present(r.public_crate_id) || !present(
        r.root_cause_key,
    ) {
        Some("BW-V325-REQUIRED-EMPTY"@)
    } else if first_suite is Some && first_suite->0 != r.suite_id {
        Some("BW-V325-SUITE-MISMATCH"@)
    } else if sample_duplicate {
        Some("BW-V325-SAMPLE-DUP"@)
    } else if crate_duplicate {
        Some("BW-V325-CRATE-DUP"@)
    } else if r.role == V325SampleRole::Vulnerable && r.expected_pattern_families.len() == 0 {
        Some("BW-V325-VULN-PATTERN-EMPTY"@)
    } else {
        None
    }
}

pub open spec fn ground_truth_error_at(records: Seq<GroundTruthView>, i: int) -> Option<Seq<char>> {
    ground_truth_record_error(
        records[i],
        if i == 0 {
            None
        } else {
            Some(records[0].suite_id)
        },
        exists|j: int| 0 <= j < i && #[trigger] records[j].sample_id == records[i].sample_id,
        exists|j: int| 0 <= j < i && #[trigger] records[j].public_crate_id == records[i].public_crate_id,
    )
}

/// Some record has this sample id.
pub open spec fn has_sample(records: Seq<GroundTruthView>, id: Seq<char>) -> bool {
    exists|k: int| 0 <= k < records.len() && (#[trigger] records[k]).sample_id == id
}

/// The record at `i` pairs with a sample id that no record has.
pub open spec fn pair_missing(records: Seq<GroundTruthView>, i: int) -> bool {
    exists|p: int|
        0 <= p < records[i].paired_with.len() && !has_sample(records, #[trigger] records[i].paired_with[p])
}

pub open spec fn is_control(role: V325SampleRole) -> bool {
    role == V325SampleRole::FixedControl || role == V325SampleRole::SafeControl
}

/// The number of vulnerable samples, or of controls.
pub open spec fn count_role(records: Seq<GroundTruthView>, control: bool) -> nat
    decreases records.len(),
{
    if records.len() == 0 {
        0
    } else {
        let r = records.last().role;
        let hit = if control {
            is_control(r)
        } else {
            r == V325SampleRole::Vulnerable
        };
        count_role(records.drop_last(), control) + if hit {
            1nat
        } else {
            0nat
        }
    }
}

proof fn lemma_count_role_bound(records: Seq<GroundTruthView>, control: bool)
    ensures
        count_role(records, control) <= records.len(),
    decreases records.len(),
{
    if records.len() > 0 {
        lemma_count_role_bound(records.drop_last(), control);
    }
}

fn check_ground_truth_record(
    located: &Located<V325PrivateGroundTruthRecord>,
    first_suite: &Option<String>,
    sample_duplicate: bool,
    crate_duplicate: bool,
) -> (r: Result<(), ModelError>)
    ensures
        match ground_truth_record_error(
            located.value@,
            match first_suite {
                Some(s) => Some(s@),
                None => None,
            },
            sample_duplicate,
            crate_duplicate,
        ) {
            None => r is Ok,
            Some(code) => r matches Err(e) && is_error_at(e, *located, code),
        },
{
    let record = &located.value;
    let req = "BW-V325-REQUIRED-EMPTY";
    check_required(located, req, "suite_id", record.suite_id.as_str())?;
    check_required(located, req, "sample_id", record.sample_id.as_str())?;
    check_required(located, req, "public_crate_id", record.public_crate_id.as_str())?;
    check_required(located, req, "root_cause_key", record.root_cause_key.as_str())?;
    if let Some(expected) = first_suite {
        require(located, *expected == record.suite_id, "BW-V325-SUITE-MISMATCH", "同一文件出现不同的 suite_id")?;
    }
    require(located, !sample_duplicate, "BW-V325-SAMPLE-DUP", "sample_id 重复")?;
    require(located, !crate_duplicate, "BW-V325-CRATE-DUP", "public_crate_id 重复")?;
    require(
        located,
        !(record.role == V325SampleRole::Vulnerable && record.expected_pattern_families.len() == 0),
        "BW-V325-VULN-PATTERN-EMPTY",
        "vulnerable 样本必须声明 expected_pattern_families",
    )
}

fn check_pairs(
    records: &Vec<Located<V325PrivateGroundTruthRecord>>,
    samples: &Vec<String>,
    i: usize,
) -> (r: Result<(), ModelError>)
    requires
        i < records@.len(),
        samples@.len() == records@.len(),
        forall|k: int| 0 <= k < records@.len() ==> (#[trigger] samples@[k])@ == records@[k].value.sample_id@,
    ensures
        r is Ok <==> !pair_missing(ground_truth_views(records@), i as int),
        r matches Err(e) ==> is_error_at(e, records@[i as int], "BW-V325-PAIR-MISSING"@),
{
    let located = &records[i];
    let paired = &located.value.paired_with;
    let mut p: usize = 0;
    while p < paired.len()
        invariant
            i < records@.len(),
            samples@.len() == records@.len(),
            forall|k: int| 0 <= k < records@.len() ==> (#[trigger] samples@[k])@ == records@[k].value.sample_id@,
            located == &records@[i as int],
            paired == &located.value.paired_with,
            0 <= p <= paired@.len(),
            forall|q: int| 0 <= q < p ==> has_sample(ground_truth_views(records@), (#[trigger] paired@[q])@),
        decreases paired.len() - p,
    {
        let found = contains_text(samples, &paired[p]);
        if !found {
            assert(!has_sample(ground_truth_views(records@), paired@[p as int]@)) by {
                if has_sample(ground_truth_views(records@), paired@[p as int]@) {
                    let k = choose|k: int| 0 <= k < records@.len() && (#[trigger] ground_truth_views(records@)[k]).sample_id == paired@[p as int]@;
                    assert(samples@[k]@ == paired@[p as int]@);
                }
            }
            assert(ground_truth_views(records@)[i as int].paired_with[p as int] == paired@[p as int]@);
            return require(located, false, "BW-V325-PAIR-MISSING", "paired_with 引用不存在的 sample_id");
        }
        assert(has_sample(ground_truth_views(records@), paired@[p as int]@)) by {
            let k = choose|k: int| 0 <= k < samples@.len() && (#[trigger] samples@[k])@ == paired@[p as int]@;
            assert(ground_truth_views(records@)[k].sample_id == paired@[p as int]@);
        }
        p = p + 1;
    }
    assert forall|q: int| 0 <= q < ground_truth_views(records@)[i as int].paired_with.len() implies has_sample(
        ground_truth_views(records@),
        #[trigger] ground_truth_views(records@)[i as int].paired_with[q],
    ) by {
        assert(ground_truth_views(records@)[i as int].paired_with[q] == paired@[q]@);
    }
    Ok(())
}

/// Validates a private ground truth file. A first pass checks every record in order: its
/// texts, one suite id, unique sample and public crate ids, and expected families on vulnerable
/// samples. A second pass checks that every pairing names a sample of the file. The first
/// failure is reported at its record; on success the counts of records, vulnerable samples and
/// controls.
pub fn validate_v3_2_5_private_ground_truth(records: Vec<Located<V325PrivateGroundTruthRecord>>) -> (r:
    Result<V325PrivateGroundTruthSummary, ModelError>)
    ensures
        match r {
            Ok(summary) => {
                &&& forall|i: int| 0 <= i < records@.len() ==> ground_truth_error_at(ground_truth_views(records@), i) is None
                &&& forall|i: int| 0 <= i < records@.len() ==> !pair_missing(ground_truth_views(records@), i)
                &&& summary.record_count == records@.len()
                &&& summary.vulnerable_count == count_role(ground_truth_views(records@), false)
                &&& summary.control_count == count_role(ground_truth_views(records@), true)
            },
            Err(e) => {
                ||| exists|i: int|
                    0 <= i < records@.len() && (forall|j: int| 0 <= j < i ==> ground_truth_error_at(ground_truth_views(records@), j) is None)
                        && (#[trigger] ground_truth_error_at(ground_truth_views(records@), i)) is Some && is_error_at(
                        e,
                        records@[i],
                        ground_truth_error_at(ground_truth_views(records@), i)->0,
                    )
                ||| {
                    &&& forall|i: int| 0 <= i < records@.len() ==> ground_truth_error_at(ground_truth_views(records@), i) is None
                    &&& exists|i: int|
                        0 <= i < records@.len() && (forall|j: int| 0 <= j < i ==> !pair_missing(ground_truth_views(records@), j))
                            && #[trigger] pair_missing(ground_truth_views(records@), i) && is_error_at(
                            e,
                            records@[i],
                            "BW-V325-PAIR-MISSING"@,
                        )
                }
            },
        },
{
    let mut summary = V325PrivateGroundTruthSummary { record_count: 0, vulnerable_count: 0, control_count: 0 };
    let mut suite_id: Option<String> = None;
    let mut samples: Vec<String> = Vec::new();
    let mut crates: Vec<String> = Vec::new();
    let mut i: usize = 0;
    while i < records.len()
        invariant
            0 <= i <= records@.len(),
            forall|j: int| 0 <= j < i ==> ground_truth_error_at(ground_truth_views(records@), j) is None,
            samples@.len() == i,
            crates@.len() == i,
            forall|k: int| 0 <= k < i ==> (#[trigger] samples@[k])@ == records@[k].value.sample_id@,
            forall|k: int| 0 <= k < i ==> (#[trigger] crates@[k])@ == records@[k].value.public_crate_id@,
            i == 0 ==> suite_id is None,
            i > 0 ==> (suite_id is Some && suite_id->0@ == records@[0].value.suite_id@),
            summary.record_count == i,
            summary.vulnerable_count == count_role(ground_truth_views(records@.take(i as int)), false),
            summary.control_count == count_role(ground_truth_views(records@.take(i as int)), true),
        decreases records.len() - i,
    {
        let located = &records[i];
        let ghost vs = ground_truth_views(records@);
        let sample_duplicate = contains_text(&samples, &located.value.sample_id);
        assert(sample_duplicate == exists|j: int| 0 <= j < i && #[trigger] vs[j].sample_id == vs[i as int].sample_id) by {
            if sample_duplicate {
                let k = choose|k: int| 0 <= k < samples@.len() && (#[trigger] samples@[k])@ == located.value.sample_id@;
                assert(vs[k].sample_id == vs[i as int].sample_id);
            }
            if exists|j: int| 0 <= j < i && #[trigger] vs[j].sample_id == vs[i as int].sample_id {
                let j = choose|j: int| 0 <= j < i && #[trigger] vs[j].sample_id == vs[i as int].sample_id;
                assert(samples@[j]@ == records@[j].value.sample_id@);
            }
        }
        let crate_duplicate = contains_text(&crates, &located.value.public_crate_id);
        assert(crate_duplicate == exists|j: int| 0 <= j < i && #[trigger] vs[j].public_crate_id == vs[i as int].public_crate_id) by {
            if crate_duplicate {
                let k = choose|k: int| 0 <= k < crates@.len() && (#[trigger] crates@[k])@ == located.value.public_crate_id@;
                assert(vs[k].public_crate_id == vs[i as int].public_crate_id);
            }
            if exists|j: int| 0 <= j < i && #[trigger] vs[j].public_crate_id == vs[i as int].public_crate_id {
                let j = choose|j: int| 0 <= j < i && #[trigger] vs[j].public_crate_id == vs[i as int].public_crate_id;
                assert(crates@[j]@ == records@[j].value.public_crate_id@);
            }
        }
        assert(i > 0 ==> vs[0].suite_id == records@[0].value.suite_id@);
        match check_ground_truth_record(located, &suite_id, sample_duplicate, crate_duplicate) {
            Ok(()) => {},
            Err(e) => {
                assert(ground_truth_error_at(ground_truth_views(records@), i as int) is Some);
                return Err(e);
            },
        }
        let ghost prefix = ground_truth_views(records@.take(i as int));
        assert(ground_truth_views(records@.take(i + 1)).drop_last() =~= prefix);
        proof {
            lemma_count_role_bound(prefix, false);
            lemma_count_role_bound(prefix, true);
        }
        if i == 0 {
            suite_id = Some(located.value.suite_id.clone());
        }
        samples.push(located.value.sample_id.clone());
        crates.push(located.value.public_crate_id.clone());
        match located.value.role {
            V325SampleRole::Vulnerable => {
                summary.vulnerable_count = summary.vulnerable_count + 1;
            },
            V325SampleRole::FixedControl | V325SampleRole::SafeControl => {
                summary.control_count = summary.control_count + 1;
            },
            _ => {},
        }
        summary.record_count = summary.record_count + 1;
        i = i + 1;
    }
    assert(records@.take(records@.len() as int) =~= records@);
    let ghost views = ground_truth_views(records@);
    let mut i: usize = 0;
    while i < records.len()
        invariant
            0 <= i <= records@.len(),
            forall|j: int| 0 <= j < records@.len() ==> ground_truth_error_at(ground_truth_views(records@), j) is None,
            samples@.len() == records@.len(),
            forall|k: int| 0 <= k < records@.len() ==> (#[trigger] samples@[k])@ == records@[k].value.sample_id@,
            forall|j: int| 0 <= j < i ==> !pair_missing(ground_truth_views(records@), j),
        decreases records.len() - i,
    {
        match check_pairs(&records, &samples, i) {
            Ok(()) => {},
            Err(e) => {
                assert(pair_missing(ground_truth_views(records@), i as int));
                return Err(e);
            },
        }
        i = i + 1;
    }
    Ok(summary)
}

} // verus!

verus! {

/// Tokens that a public reveal must not carry in any letter case.
pub open spec fn identity_token(i: int) -> Seq<char> {
    if i == 0 {
        "cve-"@
    } else if i == 1 {
        "ghsa-"@
    } else if i == 2 {
        "poc"@
    } else if i == 3 {
        "proof-of-concept"@
    } else if i == 4 {
        "patch_url"@
    } else if i == 5 {
        "advisory"@
    } else if i == 6 {
        "vulnerability_id"@
    } else if i == 7 {
        "expected_location"@
    } else {
        "/private/"@
    }
}

fn identity_token_str(i: usize) -> (t: &'static str)
    requires
        i < 9,
    ensures
        t@ == identity_token(i as int),
{
    match i {
        0 => "cve-",
        1 => "ghsa-",
        2 => "poc",
        3 => "proof-of-concept",
        4 => "patch_url",
        5 => "advisory",
        6 => "vulnerability_id",
        7 => "expected_location",
        _ => "/private/",
    }
}

/// The text carries one of the identity tokens, in any letter case.
pub open spec fn has_identity_token(s: Seq<char>) -> bool {
    exists|i: int| 0 <= i < 9 && lower_contains(s, #[trigger] identity_token(i))
}

fn reject_public_identity_tokens(field: &str, value: &str) -> (r: Result<(), ModelError>)
    ensures
        r is Ok <==> !has_identity_token(value@),
        r matches Err(e) ==> spec_error_code(e) == "BW-V325-PUBLIC-TOKEN"@,
{
    let mut i: usize = 0;
    while i < 9
        invariant
            0 <= i <= 9,
            forall|k: int| 0 <= k < i ==> !lower_contains(value@, #[trigger] identity_token(k)),
        decreases 9 - i,
    {
        let token = identity_token_str(i);
        if lowercase_contains(value, token) {
            return Err(ModelError::validation(
                "BW-V325-PUBLIC-TOKEN",
                concat2(concat2(field, " 禁止包含 token ").as_str(), token),
            ));
        }
        i = i + 1;
    }
    Ok(())
}

/// Sixty-four hexadecimal digits, of either case.
pub open spec fn is_hex64(s: Seq<char>) -> bool {
    s.len() == 64 && forall|i: int| 0 <= i < s.len() ==> is_hex_digit(#[trigger] s[i])
}

fn validate_hex64(field: &str, value: &str) -> (r: Result<(), ModelError>)
    ensures
        r is Ok <==> is_hex64(value@),
        r matches Err(e) ==> spec_error_code(e) == "BW-V325-SHA256"@,
{
    let cs = chars_of(value);
    let mut ok = cs.len() == 64;
    let mut i: usize = 0;
    while i < cs.len()
        invariant
            cs@ == value@,
            0 <= i <= cs.len(),
            ok == (cs.len() == 64 && forall|k: int| 0 <= k < i ==> is_hex_digit(#[trigger] value@[k])),
        decreases cs.len() - i,
    {
        let c = cs[i];
        if !(('0' <= c && c <= '9') || ('a' <= c && c <= 'f') || ('A' <= c && c <= 'F')) {
            ok = false;
        }
        i = i + 1;
    }
    if !ok {
        return Err(ModelError::validation("BW-V325-SHA256", concat2(field, " 必须是 64 位十六进制")));
    }
    Ok(())
}

/// The first note that carries an identity token, if any.
pub open spec fn notes_have_identity_token(notes: Seq<Seq<char>>) -> bool {
    exists|i: int| 0 <= i < notes.len() && has_identity_token(#[trigger] notes[i])
}

/// The error code of a reveal summary, given its parts.
pub open spec fn reveal_summary_error(
    schema_version: Seq<char>,
    ranked_sha256: Seq<char>,
    ground_truth_sha256: Seq<char>,
    run_id: Seq<char>,
    suite_id: Seq<char>,
    top_k_count: nat,
    notes: Seq<Seq<char>>,
) -> Option<Seq<char>> {
    if schema_version != V3_2_5_STATIC_RANKING_REVEAL_SCHEMA_V1@ {
        Some("BW-V325-REVEAL-SCHEMA"@)
    } else if !is_hex64(ranked_sha256) || !is_hex64(ground_truth_sha256) {
        Some("BW-V325-SHA256"@)
    } else if !present(run_id) || !present(suite_id) {
        Some("BW-V325-REVEAL-EMPTY"@)
    } else if top_k_count == 0 {
        Some("BW-V325-REVEAL-TOPK"@)
    } else if notes_have_identity_token(notes) {
        Some("BW-V325-PUBLIC-TOKEN"@)
    } else {
        None
    }
}

/// Validates a reveal summary: its schema, both hashes, the run and suite ids, at least one
/// top-k value, and notes free of identity tokens. The error carries the code of the first
/// check that fails.
pub fn validate_v3_2_5_static_ranking_reveal(summary: &V325StaticRankingRevealSummary) -> (r: Result<
    (),
    ModelError,
>)
    ensures
        match reveal_summary_error(
            summary.schema_version@,
            summary.ranked_candidates_sha256@,
            summary.ground_truth_sha256@,
            summary.run_id@,
            summary.suite_id@,
            summary.top_k_values@.len(),
            summary.notes@.map_values(|s: String| s@),
        ) {
            None => r is Ok,
            Some(code) => r matches Err(e) && spec_error_code(e) == code,
        },
{
    if summary.schema_version != owned(V3_2_5_STATIC_RANKING_REVEAL_SCHEMA_V1) {
        return Err(ModelError::validation(
            "BW-V325-REVEAL-SCHEMA",
            concat2("schema_version 必须是 v3.2.5.static_ranking_reveal.1，实际为 ", summary.schema_version.as_str()),
        ));
    }
    validate_hex64("ranked_candidates_sha256", summary.ranked_candidates_sha256.as_str())?;
    validate_hex64("ground_truth_sha256", summary.ground_truth_sha256.as_str())?;
    if str_is_blank(summary.run_id.as_str()) || str_is_blank(summary.suite_id.as_str()) {
        return Err(ModelError::validation("BW-V325-REVEAL-EMPTY", owned("run_id 与 suite_id 不能为空")));
    }
    if summary.top_k_values.len() == 0 {
        return Err(ModelError::validation("BW-V325-REVEAL-TOPK", owned("top_k_values 不能为空")));
    }
    let ghost notes = summary.notes@.map_values(|s: String| s@);
    let mut i: usize = 0;
    while i < summary.notes.len()
        invariant
            0 <= i <= summary.notes@.len(),
            notes == summary.notes@.map_values(|s: String| s@),
            forall|k: int| 0 <= k < i ==> !has_identity_token(#[trigger] notes[k]),
            summary.schema_version@ == V3_2_5_STATIC_RANKING_REVEAL_SCHEMA_V1@,
            is_hex64(summary.ranked_candidates_sha256@) && is_hex64(summary.ground_truth_sha256@),
            present(summary.run_id@) && present(summary.suite_id@),
            summary.top_k_values@.len() > 0,
        decreases summary.notes.len() - i,
    {
        assert(notes[i as int] == summary.notes@[i as int]@);
        reject_public_identity_tokens("notes", summary.notes[i].as_str())?;
        i = i + 1;
    }
    Ok(())
}

} // verus!

verus! {

/// What a static ranking reveal compares: the public ranking and the earlier stages' outputs
/// against the private ground truth.
#[derive(Clone, Debug)]
pub struct RevealStaticRankingInput<'a> {
    pub run_id: &'a str,
    pub ranked_candidates_sha256: &'a str,
    pub ground_truth_sha256: &'a str,
    pub top_k_values: &'a [u32],
    pub control_false_positive_min_score: u32,
    pub ground_truth: &'a [V325PrivateGroundTruthRecord],
    pub ranked: &'a [V32RankedCandidateRecord],
    pub buildability: &'a [V32BuildabilityRecord],
    pub boundary_index: &'a [V32BoundaryIndexRecord],
}

/// A match detail with its texts taken as character sequences.
#[verifier::ext_equal]
pub struct MatchDetailView {
    pub sample_id: Seq<char>,
    pub public_crate_id: Seq<char>,
    pub role: V325SampleRole,
    pub miss_class: V325MissClass,
    pub best_rank: Option<u32>,
    pub best_score: Option<u32>,
    pub matched_pattern_family: Option<V32PatternFamily>,
    pub notes: Seq<Seq<char>>,
}

impl View for V325PrivateMatchDetail {
    type V = MatchDetailView;

    open spec fn view(&self) -> MatchDetailView {
        MatchDetailView {
            sample_id: self.sample_id@,
            public_crate_id: self.public_crate_id@,
            role: self.role,
            miss_class: self.miss_class,
            best_rank: self.best_rank,
            best_score: self.best_score,
            matched_pattern_family: self.matched_pattern_family,
            notes: self.notes@.map_values(|s: String| s@),
        }
    }
}

/// A root cause about the lifetime of a returned borrow, which also admits the returned-view
/// and external-buffer patterns.
pub open spec fn is_returned_borrow_lifetime(key: Seq<char>) -> bool {
    (lower_contains(key, "returned-borrow"@) || lower_contains(key, "returned_borrow"@)) && (
    lower_contains(key, "lifetime"@) || lower_contains(key, "borrowed"@))
}

/// The sample accepts a public pattern family as a match.
pub open spec fn accepts(s: GroundTruthView, p: V32PatternFamily) -> bool {
    ||| exists|k: int|
        0 <= k < s.expected_pattern_families.len() && compatible_public(
            #[trigger] s.expected_pattern_families[k],
            p,
        )
    ||| (is_returned_borrow_lifetime(s.root_cause_key) && (p == V32PatternFamily::ReturnedBorrowView
        || p == V32PatternFamily::ExternalBufferView))
}

/// The sample accepts no public pattern family.
pub open spec fn accepts_nothing(s: GroundTruthView) -> bool {
    forall|p: V32PatternFamily| !#[trigger] accepts(s, p)
}

/// A public pattern family under which a private family can show up.
pub open spec fn some_compatible(f: V325ExpectedPatternFamily) -> V32PatternFamily {
    match f {
        V325ExpectedPatternFamily::RetainedBorrowedCallback => V32PatternFamily::RetainedBorrowedCallback,
        V325ExpectedPatternFamily::CallbackLifecycleRelease => V32PatternFamily::CallbackLifecycleRelease,
        V325ExpectedPatternFamily::ForeignRetainedPointer
        | V325ExpectedPatternFamily::WrapperDestructurePointerLifecycle
        | V325ExpectedPatternFamily::ManualDropWindow => V32PatternFamily::ForeignRetainedPointer,
        V325ExpectedPatternFamily::OpaqueHandleTransfer => V32PatternFamily::OpaqueHandleTransfer,
        V325ExpectedPatternFamily::NativeLibraryBoundary => V32PatternFamily::NativeLibraryBoundary,
        _ => V32PatternFamily::ReturnedBorrowView,
    }
}

proof fn lemma_accepts_nothing(s: GroundTruthView)
    ensures
        accepts_nothing(s) <==> (s.expected_pattern_families.len() == 0
            && !is_returned_borrow_lifetime(s.root_cause_key)),
{
    if s.expected_pattern_families.len() > 0 {
        let f = s.expected_pattern_families[0];
        assert(compatible_public(f, some_compatible(f)));
        assert(accepts(s, some_compatible(f)));
    } else if is_returned_borrow_lifetime(s.root_cause_key) {
        assert(accepts(s, V32PatternFamily::ReturnedBorrowView));
    }
}

pub open spec fn is_buildable(inp: RevealStaticRankingInput, c: Seq<char>) -> bool {
    exists|k: int|
        0 <= k < inp.buildability@.len() && (#[trigger] inp.buildability@[k]).status
            == V32BuildabilityStatus::Buildable && inp.buildability@[k].crate_id@ == c
}

pub open spec fn has_boundary(inp: RevealStaticRankingInput, c: Seq<char>) -> bool {
    exists|k: int| 0 <= k < inp.boundary_index@.len() && (#[trigger] inp.boundary_index@[k]).crate_id@ == c
}

pub open spec fn has_ranked(inp: RevealStaticRankingInput, c: Seq<char>) -> bool {
    exists|k: int| 0 <= k < inp.ranked@.len() && (#[trigger] inp.ranked@[k]).crate_id@ == c
}

/// Candidate `a` comes no later than `b` once the crate's candidates are stably sorted by rank.
pub open spec fn rank_before(ranked: Seq<V32RankedCandidateRecord>, a: int, b: int) -> bool {
    ranked[a].rank < ranked[b].rank || (ranked[a].rank == ranked[b].rank && a <= b)
}

/// Candidate `k` belongs to the sample's crate and has an accepted pattern family.
pub open spec fn accepted_item(ranked: Seq<V32RankedCandidateRecord>, s: GroundTruthView, k: int) -> bool {
    0 <= k < ranked.len() && ranked[k].crate_id@ == s.public_crate_id && accepts(s, ranked[k].pattern_family)
}

/// Candidate `k` is the first accepted candidate of the sample's crate in rank order.
pub open spec fn is_first_accepted(ranked: Seq<V32RankedCandidateRecord>, s: GroundTruthView, k: int) -> bool {
    &&& accepted_item(ranked, s, k)
    &&& forall|j: int| #[trigger] accepted_item(ranked, s, j) ==> rank_before(ranked, k, j)
}

/// Candidate `k` is the first candidate of the crate in rank order.
pub open spec fn is_first_in_crate(ranked: Seq<V32RankedCandidateRecord>, c: Seq<char>, k: int) -> bool {
    &&& 0 <= k < ranked.len() && ranked[k].crate_id@ == c
    &&& forall|j: int|
        0 <= j < ranked.len() && (#[trigger] ranked[j]).crate_id@ == c ==> rank_before(ranked, k, j)
}

/// The top-k values: the given ones, or 1, 5 and 10.
pub open spec fn top_k_of(inp: RevealStaticRankingInput) -> Seq<u32> {
    if inp.top_k_values@.len() == 0 {
        seq![1u32, 5u32, 10u32]
    } else {
        inp.top_k_values@
    }
}

/// The largest value of a sequence, or ten for none.
pub open spec fn max_of(s: Seq<u32>) -> u32
    decreases s.len(),
{
    if s.len() == 0 {
        10
    } else if s.len() == 1 {
        s[0]
    } else {
        let m = max_of(s.drop_last());
        if s.last() > m {
            s.last()
        } else {
            m
        }
    }
}

pub open spec fn spec_pattern_debug(p: V32PatternFamily) -> Seq<char> {
    match p {
        V32PatternFamily::RetainedBorrowedCallback => "RetainedBorrowedCallback"@,
        V32PatternFamily::CallbackLifecycleRelease => "CallbackLifecycleRelease"@,
        V32PatternFamily::ForeignRetainedPointer => "ForeignRetainedPointer"@,
        V32PatternFamily::OpaqueHandleTransfer => "OpaqueHandleTransfer"@,
        V32PatternFamily::NativeLibraryBoundary => "NativeLibraryBoundary"@,
        V32PatternFamily::ReturnedBorrowView => "ReturnedBorrowView"@,
        V32PatternFamily::ExternalBufferView => "ExternalBufferView"@,
    }
}

pub open spec fn detail(
    s: GroundTruthView,
    miss: V325MissClass,
    rank: Option<u32>,
    score: Option<u32>,
    pattern: Option<V32PatternFamily>,
    notes: Seq<Seq<char>>,
) -> MatchDetailView {
    MatchDetailView {
        sample_id: s.sample_id,
        public_crate_id: s.public_crate_id,
        role: s.role,
        miss_class: miss,
        best_rank: rank,
        best_score: score,
        matched_pattern_family: pattern,
        notes,
    }
}

/// The outcome of a vulnerable sample: a build failure, an unusable ground truth, a missed
/// boundary or candidate, or the first accepted candidate in rank order, a hit when its rank is
/// within the largest top-k.
pub open spec fn vulnerable_detail(inp: RevealStaticRankingInput, s: GroundTruthView) -> MatchDetailView {
    let c = s.public_crate_id;
    let build_known = inp.buildability@.len() > 0;
    if build_known && !is_buildable(inp, c) {
        detail(s, V325MissClass::BuildFailure, None, None, None, seq!["crate not buildable; not a no-vulnerability conclusion"@])
    } else if accepts_nothing(s) {
        detail(s, V325MissClass::GroundTruthMismatch, None, None, None, seq!["vulnerable sample missing expected_pattern_families"@])
    } else if !has_ranked(inp, c) {
        if build_known && !has_boundary(inp, c) {
            detail(s, V325MissClass::BoundaryMiss, None, None, None, seq!["no ranked candidate and no boundary for crate"@])
        } else {
            detail(s, V325MissClass::CandidateMiss, None, None, None, seq!["no ranked candidate matching crate"@])
        }
    } else if !exists|k: int| #[trigger] accepted_item(inp.ranked@, s, k) {
        detail(s, V325MissClass::CandidateMiss, None, None, None, seq!["ranked candidates exist but expected pattern family missing"@])
    } else {
        let k = choose|k: int| is_first_accepted(inp.ranked@, s, k);
        let item = inp.ranked@[k];
        let max_top = max_of(top_k_of(inp));
        if item.rank <= max_top {
            detail(s, V325MissClass::HitTopK, Some(item.rank), Some(item.score), Some(item.pattern_family), seq![
                "matched pattern "@ + spec_pattern_debug(item.pattern_family) + " at rank "@ + decimal(item.rank as nat) + " score "@ + decimal(item.score as nat),
            ])
        } else {
            detail(s, V325MissClass::RankingMiss, Some(item.rank), Some(item.score), Some(item.pattern_family), seq![
                "matched pattern "@ + spec_pattern_debug(item.pattern_family) + " but rank "@ + decimal(item.rank as nat) + " exceeds top-"@ + decimal(max_top as nat),
            ])
        }
    }
}

/// A control is a false positive when a candidate of its crate with an accepted family reaches
/// the minimum score.
pub open spec fn control_false_positive(inp: RevealStaticRankingInput, s: GroundTruthView) -> bool {
    exists|k: int|
        #[trigger] accepted_item(inp.ranked@, s, k) && inp.ranked@[k].score >= inp.control_false_positive_min_score
}

pub open spec fn control_detail(inp: RevealStaticRankingInput, s: GroundTruthView) -> MatchDetailView {
    if control_false_positive(inp, s) {
        let k = choose|k: int| is_first_in_crate(inp.ranked@, s.public_crate_id, k);
        let item = inp.ranked@[k];
        detail(s, V325MissClass::GroundTruthMismatch, Some(item.rank), Some(item.score), Some(item.pattern_family), seq![
            "control has same-family high-score candidate"@,
            "not a vulnerability conclusion"@,
        ])
    } else {
        detail(s, V325MissClass::HitTopK, None, None, None, seq!["control clean for expected families"@])
    }
}

pub open spec fn detail_of(inp: RevealStaticRankingInput, s: GroundTruthView) -> MatchDetailView {
    if s.role == V325SampleRole::Vulnerable {
        vulnerable_detail(inp, s)
    } else if is_control(s.role) {
        control_detail(inp, s)
    } else {
        detail(s, V325MissClass::HitTopK, None, None, None, seq!["background sample; not counted in vulnerable metrics"@])
    }
}

/// The detail of every sample of the ground truth, in order.
pub open spec fn details_of(inp: RevealStaticRankingInput) -> Seq<MatchDetailView> {
    inp.ground_truth@.map_values(|r: V325PrivateGroundTruthRecord| detail_of(inp, r@))
}

pub open spec fn bump(n: u64, b: bool) -> u64 {
    if b {
        (n + 1) as u64
    } else {
        n
    }
}

/// The metrics after counting one more sample.
pub open spec fn metrics_step(m: V325RevealMetrics, d: MatchDetailView) -> V325RevealMetrics {
    let v = d.role == V325SampleRole::Vulnerable;
    let found = v && (d.miss_class == V325MissClass::HitTopK || d.miss_class == V325MissClass::RankingMiss);
    let within = |k: u32| found && d.best_rank is Some && d.best_rank->0 <= k;
    let c = is_control(d.role);
    V325RevealMetrics {
        vulnerable_sample_count: m.vulnerable_sample_count,
        control_sample_count: m.control_sample_count,
        buildable_vulnerable_count: bump(m.buildable_vulnerable_count, v && d.miss_class != V325MissClass::BuildFailure),
        nday_candidate_hit_count: bump(m.nday_candidate_hit_count, found),
        top1_hit_count: bump(m.top1_hit_count, within(1)),
        top5_hit_count: bump(m.top5_hit_count, within(5)),
        top10_hit_count: bump(m.top10_hit_count, within(10)),
        ranking_miss_count: bump(m.ranking_miss_count, v && d.miss_class == V325MissClass::RankingMiss),
        boundary_miss_count: bump(m.boundary_miss_count, v && (d.miss_class == V325MissClass::BoundaryMiss
            || d.miss_class == V325MissClass::CandidateMiss)),
        build_failure_count: bump(m.build_failure_count, v && d.miss_class == V325MissClass::BuildFailure),
        false_positive_control_count: bump(m.false_positive_control_count, c && d.miss_class == V325MissClass::GroundTruthMismatch),
        paired_control_clean_count: bump(m.paired_control_clean_count, c && d.miss_class == V325MissClass::HitTopK),
    }
}

/// The metrics of a sequence of details, from the given sample counts.
pub open spec fn metrics_of(ds: Seq<MatchDetailView>, vulnerable: u64, control: u64) -> V325RevealMetrics
    decreases ds.len(),
{
    if ds.len() == 0 {
        V325RevealMetrics {
            vulnerable_sample_count: vulnerable,
            control_sample_count: control,
            buildable_vulnerable_count: 0,
            nday_candidate_hit_count: 0,
            top1_hit_count: 0,
            top5_hit_count: 0,
            top10_hit_count: 0,
            ranking_miss_count: 0,
            boundary_miss_count: 0,
            build_failure_count: 0,
            false_positive_control_count: 0,
            paired_control_clean_count: 0,
        }
    } else {
        metrics_step(metrics_of(ds.drop_last(), vulnerable, control), ds.last())
    }
}

/// Every counted metric is at most the number of details.
pub open spec fn metrics_bounded(m: V325RevealMetrics, n: nat) -> bool {
    &&& m.buildable_vulnerable_count <= n && m.nday_candidate_hit_count <= n
    &&& m.top1_hit_count <= n && m.top5_hit_count <= n && m.top10_hit_count <= n
    &&& m.ranking_miss_count <= n && m.boundary_miss_count <= n && m.build_failure_count <= n
    &&& m.false_positive_control_count <= n && m.paired_control_clean_count <= n
}

/// The miss classes in increasing order of their names.
pub open spec fn class_order() -> Seq<V325MissClass> {
    seq![
        V325MissClass::AdapterBlocked,
        V325MissClass::BoundaryMiss,
        V325MissClass::BuildFailure,
        V325MissClass::CandidateMiss,
        V325MissClass::GroundTruthMismatch,
        V325MissClass::HitTopK,
        V325MissClass::RankingMiss,
    ]
}

/// The number of vulnerable samples with a miss class.
pub open spec fn class_count(ds: Seq<MatchDetailView>, c: V325MissClass) -> nat
    decreases ds.len(),
{
    if ds.len() == 0 {
        0
    } else {
        class_count(ds.drop_last(), c) + if ds.last().role == V325SampleRole::Vulnerable
            && ds.last().miss_class == c {
            1nat
        } else {
            0nat
        }
    }
}

/// The name and count of each listed class that occurred, in the listed order.
pub open spec fn class_entries(ds: Seq<MatchDetailView>, order: Seq<V325MissClass>) -> Seq<(Seq<char>, u64)>
    decreases order.len(),
{
    if order.len() == 0 {
        Seq::empty()
    } else {
        let prev = class_entries(ds, order.drop_last());
        let n = class_count(ds, order.last());
        if n > 0 {
            prev.push((spec_miss_class_name(order.last()), n as u64))
        } else {
            prev
        }
    }
}

} // verus!

verus! {

fn root_cause_is_returned_borrow_lifetime(key: &str) -> (b: bool)
    ensures
        b == is_returned_borrow_lifetime(key@),
{
    (lowercase_contains(key, "returned-borrow") || lowercase_contains(key, "returned_borrow")) && (
    lowercase_contains(key, "lifetime") || lowercase_contains(key, "borrowed"))
}

fn sample_accepts(s: &V325PrivateGroundTruthRecord, p: V32PatternFamily) -> (b: bool)
    ensures
        b == accepts(s@, p),
{
    let fams = &s.expected_pattern_families;
    let mut i: usize = 0;
    while i < fams.len()
        invariant
            0 <= i <= fams@.len(),
            fams@ == s@.expected_pattern_families,
            forall|k: int| 0 <= k < i ==> !compatible_public(#[trigger] fams@[k], p),
        decreases fams.len() - i,
    {
        if fams[i].is_compatible_with(p) {
            assert(compatible_public(s@.expected_pattern_families[i as int], p));
            return true;
        }
        i = i + 1;
    }
    root_cause_is_returned_borrow_lifetime(s.root_cause_key.as_str()) && (matches!(p, V32PatternFamily::ReturnedBorrowView)
        || matches!(p, V32PatternFamily::ExternalBufferView))
}

fn crate_buildable(builds: &[V32BuildabilityRecord], c: &String) -> (b: bool)
    ensures
        b == exists|k: int|
            0 <= k < builds@.len() && (#[trigger] builds@[k]).status == V32BuildabilityStatus::Buildable
                && builds@[k].crate_id@ == c@,
{
    let mut i: usize = 0;
    while i < builds.len()
        invariant
            0 <= i <= builds@.len(),
            forall|k: int|
                0 <= k < i ==> !((#[trigger] builds@[k]).status == V32BuildabilityStatus::Buildable
                    && builds@[k].crate_id@ == c@),
        decreases builds.len() - i,
    {
        if matches!(builds[i].status, V32BuildabilityStatus::Buildable) && builds[i].crate_id == *c {
            return true;
        }
        i = i + 1;
    }
    false
}

fn crate_has_boundary(boundaries: &[V32BoundaryIndexRecord], c: &String) -> (b: bool)
    ensures
        b == exists|k: int| 0 <= k < boundaries@.len() && (#[trigger] boundaries@[k]).crate_id@ == c@,
{
    let mut i: usize = 0;
    while i < boundaries.len()
        invariant
            0 <= i <= boundaries@.len(),
            forall|k: int| 0 <= k < i ==> (#[trigger] boundaries@[k]).crate_id@ != c@,
        decreases boundaries.len() - i,
    {
        if boundaries[i].crate_id == *c {
            return true;
        }
        i = i + 1;
    }
    false
}

fn crate_has_ranked(ranked: &[V32RankedCandidateRecord], c: &String) -> (b: bool)
    ensures
        b == exists|k: int| 0 <= k < ranked@.len() && (#[trigger] ranked@[k]).crate_id@ == c@,
{
    let mut i: usize = 0;
    while i < ranked.len()
        invariant
            0 <= i <= ranked@.len(),
            forall|k: int| 0 <= k < i ==> (#[trigger] ranked@[k]).crate_id@ != c@,
        decreases ranked.len() - i,
    {
        if ranked[i].crate_id == *c {
            return true;
        }
        i = i + 1;
    }
    false
}

fn first_accepted(ranked: &[V32RankedCandidateRecord], s: &V325PrivateGroundTruthRecord) -> (r: Option<usize>)
    ensures
        match r {
            Some(k) => is_first_accepted(ranked@, s@, k as int),
            None => !exists|k: int| #[trigger] accepted_item(ranked@, s@, k),
        },
{
    let mut best: Option<usize> = None;
    let mut i: usize = 0;
    while i < ranked.len()
        invariant
            0 <= i <= ranked@.len(),
            best is None ==> forall|j: int| 0 <= j < i ==> !#[trigger] accepted_item(ranked@, s@, j),
            best matches Some(b) ==> b < i && accepted_item(ranked@, s@, b as int) && forall|j: int|
                0 <= j < i && #[trigger] accepted_item(ranked@, s@, j) ==> rank_before(ranked@, b as int, j),
        decreases ranked.len() - i,
    {
        if ranked[i].crate_id == s.public_crate_id && sample_accepts(s, ranked[i].pattern_family) {
            match best {
                None => {
                    best = Some(i);
                },
                Some(b) => {
                    if ranked[i].rank < ranked[b].rank {
                        best = Some(i);
                    }
                },
            }
        }
        i = i + 1;
    }
    best
}

fn first_in_crate(ranked: &[V32RankedCandidateRecord], c: &String) -> (r: Option<usize>)
    ensures
        match r {
            Some(k) => is_first_in_crate(ranked@, c@, k as int),
            None => !exists|k: int| 0 <= k < ranked@.len() && (#[trigger] ranked@[k]).crate_id@ == c@,
        },
{
    let mut best: Option<usize> = None;
    let mut i: usize = 0;
    while i < ranked.len()
        invariant
            0 <= i <= ranked@.len(),
            best is None ==> forall|j: int| 0 <= j < i ==> (#[trigger] ranked@[j]).crate_id@ != c@,
            best matches Some(b) ==> b < i && ranked@[b as int].crate_id@ == c@ && forall|j: int|
                0 <= j < i && (#[trigger] ranked@[j]).crate_id@ == c@ ==> rank_before(ranked@, b as int, j),
        decreases ranked.len() - i,
    {
        if ranked[i].crate_id == *c {
            match best {
                None => {
                    best = Some(i);
                },
                Some(b) => {
                    if ranked[i].rank < ranked[b].rank {
                        best = Some(i);
                    }
                },
            }
        }
        i = i + 1;
    }
    best
}

fn control_has_false_positive(
    ranked: &[V32RankedCandidateRecord],
    s: &V325PrivateGroundTruthRecord,
    min_score: u32,
) -> (b: bool)
    ensures
        b == exists|k: int| #[trigger] accepted_item(ranked@, s@, k) && ranked@[k].score >= min_score,
{
    let mut i: usize = 0;
    while i < ranked.len()
        invariant
            0 <= i <= ranked@.len(),
            forall|k: int| 0 <= k < i ==> !(#[trigger] accepted_item(ranked@, s@, k) && ranked@[k].score >= min_score),
        decreases ranked.len() - i,
    {
        if ranked[i].crate_id == s.public_crate_id && sample_accepts(s, ranked[i].pattern_family)
            && ranked[i].score >= min_score {
            assert(accepted_item(ranked@, s@, i as int));
            return true;
        }
        i = i + 1;
    }
    false
}

fn pattern_debug(p: V32PatternFamily) -> (r: &'static str)
    ensures
        r@ == spec_pattern_debug(p),
{
    match p {
        V32PatternFamily::RetainedBorrowedCallback => "RetainedBorrowedCallback",
        V32PatternFamily::CallbackLifecycleRelease => "CallbackLifecycleRelease",
        V32PatternFamily::ForeignRetainedPointer => "ForeignRetainedPointer",
        V32PatternFamily::OpaqueHandleTransfer => "OpaqueHandleTransfer",
        V32PatternFamily::NativeLibraryBoundary => "NativeLibraryBoundary",
        V32PatternFamily::ReturnedBorrowView => "ReturnedBorrowView",
        V32PatternFamily::ExternalBufferView => "ExternalBufferView",
    }
}

fn one_note(a: &str) -> (r: Vec<String>)
    ensures
        r@.map_values(|s: String| s@) == seq![a@],
{
    let mut r: Vec<String> = Vec::new();
    r.push(owned(a));
    assert(r@.map_values(|s: String| s@) =~= seq![a@]);
    r
}

fn make_detail(
    s: &V325PrivateGroundTruthRecord,
    miss: V325MissClass,
    rank: Option<u32>,
    score: Option<u32>,
    pattern: Option<V32PatternFamily>,
    notes: Vec<String>,
) -> (d: V325PrivateMatchDetail)
    ensures
        d@ == detail(s@, miss, rank, score, pattern, notes@.map_values(|x: String| x@)),
{
    V325PrivateMatchDetail {
        sample_id: s.sample_id.clone(),
        public_crate_id: s.public_crate_id.clone(),
        role: s.role,
        miss_class: miss,
        best_rank: rank,
        best_score: score,
        matched_pattern_family: pattern,
        notes,
    }
}

fn evaluate_vulnerable(inp: &RevealStaticRankingInput, s: &V325PrivateGroundTruthRecord, max_top: u32) -> (d:
    V325PrivateMatchDetail)
    requires
        s@.role == V325SampleRole::Vulnerable,
        max_top == max_of(top_k_of(*inp)),
    ensures
        d@ == vulnerable_detail(*inp, s@),
{
    let c = &s.public_crate_id;
    let build_known = inp.buildability.len() > 0;
    if build_known && !crate_buildable(inp.buildability, c) {
        return make_detail(s, V325MissClass::BuildFailure, None, None, None, one_note("crate not buildable; not a no-vulnerability conclusion"));
    }
    proof {
        lemma_accepts_nothing(s@);
    }
    if s.expected_pattern_families.len() == 0 && !root_cause_is_returned_borrow_lifetime(s.root_cause_key.as_str()) {
        return make_detail(s, V325MissClass::GroundTruthMismatch, None, None, None, one_note("vulnerable sample missing expected_pattern_families"));
    }
    if !crate_has_ranked(inp.ranked, c) {
        if build_known && !crate_has_boundary(inp.boundary_index, c) {
            return make_detail(s, V325MissClass::BoundaryMiss, None, None, None, one_note("no ranked candidate and no boundary for crate"));
        }
        return make_detail(s, V325MissClass::CandidateMiss, None, None, None, one_note("no ranked candidate matching crate"));
    }
    match first_accepted(inp.ranked, s) {
        None => make_detail(s, V325MissClass::CandidateMiss, None, None, None, one_note("ranked candidates exist but expected pattern family missing")),
        Some(k) => {
            proof {
                let w = choose|w: int| is_first_accepted(inp.ranked@, s@, w);
                assert(is_first_accepted(inp.ranked@, s@, w));
                assert(rank_before(inp.ranked@, w, k as int) && rank_before(inp.ranked@, k as int, w));
                assert(w == k as int);
            }
            let item = &inp.ranked[k];
            let mut note = owned("matched pattern ");
            note.append(pattern_debug(item.pattern_family));
            if item.rank <= max_top {
                note.append(" at rank ");
                note.append(decimal_string(item.rank as u64).as_str());
                note.append(" score ");
                note.append(decimal_string(item.score as u64).as_str());
                make_detail(s, V325MissClass::HitTopK, Some(item.rank), Some(item.score), Some(item.pattern_family), one_note(note.as_str()))
            } else {
                note.append(" but rank ");
                note.append(decimal_string(item.rank as u64).as_str());
                note.append(" exceeds top-");
                note.append(decimal_string(max_top as u64).as_str());
                make_detail(s, V325MissClass::RankingMiss, Some(item.rank), Some(item.score), Some(item.pattern_family), one_note(note.as_str()))
            }
        },
    }
}

fn evaluate_sample(inp: &RevealStaticRankingInput, s: &V325PrivateGroundTruthRecord, max_top: u32) -> (d:
    V325PrivateMatchDetail)
    requires
        max_top == max_of(top_k_of(*inp)),
    ensures
        d@ == detail_of(*inp, s@),
{
    match s.role {
        V325SampleRole::Vulnerable => evaluate_vulnerable(inp, s, max_top),
        V325SampleRole::FixedControl | V325SampleRole::SafeControl => {
            if control_has_false_positive(inp.ranked, s, inp.control_false_positive_min_score) {
                let k = first_in_crate(inp.ranked, &s.public_crate_id).unwrap();
                proof {
                    let w = choose|w: int| is_first_in_crate(inp.ranked@, s@.public_crate_id, w);
                    assert(is_first_in_crate(inp.ranked@, s@.public_crate_id, w));
                    assert(rank_before(inp.ranked@, w, k as int) && rank_before(inp.ranked@, k as int, w));
                }
                let item = &inp.ranked[k];
                let mut notes: Vec<String> = Vec::new();
                notes.push(owned("control has same-family high-score candidate"));
                notes.push(owned("not a vulnerability conclusion"));
                assert(notes@.map_values(|x: String| x@) =~= seq![
                    "control has same-family high-score candidate"@,
                    "not a vulnerability conclusion"@,
                ]);
                make_detail(s, V325MissClass::GroundTruthMismatch, Some(item.rank), Some(item.score), Some(item.pattern_family), notes)
            } else {
                make_detail(s, V325MissClass::HitTopK, None, None, None, one_note("control clean for expected families"))
            }
        },
        _ => make_detail(s, V325MissClass::HitTopK, None, None, None, one_note("background sample; not counted in vulnerable metrics")),
    }
}

} // verus!

verus! {

/// An error attached to a line of a file: the code, wrapped with the path and line.
pub open spec fn is_error_at_line(e: ModelError, path: Seq<char>, line: int, code: Seq<char>) -> bool {
    match e {
        ModelError::AtLine { path: p, line: l, source } => {
            &&& p@ == path
            &&& l == line
            &&& match *source {
                ModelError::Validation { code: c, .. } => c@ == code,
                _ => false,
            }
        },
        _ => false,
    }
}

/// The views of the ground truth records.
pub open spec fn truth_views(inp: RevealStaticRankingInput) -> Seq<GroundTruthView> {
    inp.ground_truth@.map_values(|r: V325PrivateGroundTruthRecord| r@)
}

/// The ground truth passes both passes of its validation.
pub open spec fn truth_valid(inp: RevealStaticRankingInput) -> bool {
    let vs = truth_views(inp);
    &&& forall|i: int| 0 <= i < vs.len() ==> ground_truth_error_at(vs, i) is None
    &&& forall|i: int| 0 <= i < vs.len() ==> !pair_missing(vs, i)
}

/// The error of the ground truth, reported at its line of `ground-truth.jsonl`.
pub open spec fn truth_error(inp: RevealStaticRankingInput, e: ModelError) -> bool {
    let vs = truth_views(inp);
    let path = "ground-truth.jsonl"@;
    ||| exists|i: int|
        0 <= i < vs.len() && (forall|j: int| 0 <= j < i ==> ground_truth_error_at(vs, j) is None)
            && (#[trigger] ground_truth_error_at(vs, i)) is Some && is_error_at_line(
            e,
            path,
            i + 1,
            ground_truth_error_at(vs, i)->0,
        )
    ||| {
        &&& forall|i: int| 0 <= i < vs.len() ==> ground_truth_error_at(vs, i) is None
        &&& exists|i: int|
            0 <= i < vs.len() && (forall|j: int| 0 <= j < i ==> !pair_missing(vs, j))
                && #[trigger] pair_missing(vs, i) && is_error_at_line(e, path, i + 1, "BW-V325-PAIR-MISSING"@)
    }
}

/// The suite id of the reveal: that of the first sample, or empty.
pub open spec fn reveal_suite(inp: RevealStaticRankingInput) -> Seq<char> {
    if inp.ground_truth@.len() == 0 {
        Seq::empty()
    } else {
        inp.ground_truth@[0].suite_id@
    }
}

pub open spec fn reveal_notes() -> Seq<Seq<char>> {
    seq![
        "static ranking blind smoke"@,
        "candidate/ranking is not a vulnerability conclusion"@,
        "no 0day claim"@,
    ]
}

/// The checks of the reveal's own summary pass.
pub open spec fn reveal_checks(inp: RevealStaticRankingInput) -> Option<Seq<char>> {
    reveal_summary_error(
        V3_2_5_STATIC_RANKING_REVEAL_SCHEMA_V1@,
        inp.ranked_candidates_sha256@,
        inp.ground_truth_sha256@,
        inp.run_id@,
        reveal_suite(inp),
        top_k_of(inp).len(),
        reveal_notes(),
    )
}

fn clone_ground_truth_record(r: &V325PrivateGroundTruthRecord) -> (c: V325PrivateGroundTruthRecord)
    ensures
        c@ == r@,
{
    let c = V325PrivateGroundTruthRecord {
        schema_version: r.schema_version.clone(),
        suite_id: r.suite_id.clone(),
        sample_id: r.sample_id.clone(),
        public_crate_id: r.public_crate_id.clone(),
        role: r.role,
        paired_with: clone_texts(&r.paired_with),
        expected_pattern_families: clone_families(&r.expected_pattern_families),
        expected_api_substrings: clone_texts(&r.expected_api_substrings),
        expected_path_substrings: clone_texts(&r.expected_path_substrings),
        root_cause_key: r.root_cause_key.clone(),
        vulnerability_identity: clone_opt_string(&r.vulnerability_identity),
        notes: clone_texts(&r.notes),
    };
    assert(c@ =~= r@);
    c
}

fn clone_families(v: &Vec<V325ExpectedPatternFamily>) -> (r: Vec<V325ExpectedPatternFamily>)
    ensures
        r@ == v@,
{
    let mut r: Vec<V325ExpectedPatternFamily> = Vec::new();
    let mut i: usize = 0;
    while i < v.len()
        invariant
            0 <= i <= v@.len(),
            r@ == v@.take(i as int),
        decreases v.len() - i,
    {
        r.push(v[i]);
        assert(r@ =~= v@.take(i + 1));
        i = i + 1;
    }
    assert(v@.take(v@.len() as int) =~= v@);
    r
}

fn max_top_k(top_k: &Vec<u32>) -> (m: u32)
    ensures
        m == max_of(top_k@),
{
    if top_k.len() == 0 {
        return 10;
    }
    let mut m = top_k[0];
    let mut i: usize = 1;
    assert(top_k@.take(1) =~= seq![top_k@[0]]);
    while i < top_k.len()
        invariant
            1 <= i <= top_k@.len(),
            m == max_of(top_k@.take(i as int)),
        decreases top_k.len() - i,
    {
        assert(top_k@.take(i + 1).drop_last() =~= top_k@.take(i as int));
        if top_k[i] > m {
            m = top_k[i];
        }
        i = i + 1;
    }
    assert(top_k@.take(top_k@.len() as int) =~= top_k@);
    m
}

proof fn lemma_metrics_bounded(ds: Seq<MatchDetailView>, vulnerable: u64, control: u64)
    ensures
        metrics_bounded(metrics_of(ds, vulnerable, control), ds.len()),
        metrics_of(ds, vulnerable, control).vulnerable_sample_count == vulnerable,
        metrics_of(ds, vulnerable, control).control_sample_count == control,
    decreases ds.len(),
{
    if ds.len() > 0 {
        lemma_metrics_bounded(ds.drop_last(), vulnerable, control);
    }
}

proof fn lemma_class_count_bound(ds: Seq<MatchDetailView>, c: V325MissClass)
    ensures
        class_count(ds, c) <= ds.len(),
    decreases ds.len(),
{
    if ds.len() > 0 {
        lemma_class_count_bound(ds.drop_last(), c);
    }
}

fn step_metrics(m: V325RevealMetrics, d: &V325PrivateMatchDetail, Ghost(n): Ghost<nat>) -> (r: V325RevealMetrics)
    requires
        metrics_bounded(m, n),
        n < u64::MAX,
    ensures
        r == metrics_step(m, d@),
        metrics_bounded(r, n + 1),
{
    let v = matches!(d.role, V325SampleRole::Vulnerable);
    let found = v && (matches!(d.miss_class, V325MissClass::HitTopK) || matches!(d.miss_class, V325MissClass::RankingMiss));
    let rank_le = |k: u32| -> (b: bool)
        ensures
            b == (d.best_rank is Some && d.best_rank->0 <= k),
        {
            match d.best_rank {
                Some(r) => r <= k,
                None => false,
            }
        };
    let c = matches!(d.role, V325SampleRole::FixedControl) || matches!(d.role, V325SampleRole::SafeControl);
    let mut r = m;
    if v && !matches!(d.miss_class, V325MissClass::BuildFailure) {
        r.buildable_vulnerable_count = r.buildable_vulnerable_count + 1;
    }
    if found {
        r.nday_candidate_hit_count = r.nday_candidate_hit_count + 1;
    }
    if found && rank_le(1) {
        r.top1_hit_count = r.top1_hit_count + 1;
    }
    if found && rank_le(5) {
        r.top5_hit_count = r.top5_hit_count + 1;
    }
    if found && rank_le(10) {
        r.top10_hit_count = r.top10_hit_count + 1;
    }
    if v && matches!(d.miss_class, V325MissClass::RankingMiss) {
        r.ranking_miss_count = r.ranking_miss_count + 1;
    }
    if v && (matches!(d.miss_class, V325MissClass::BoundaryMiss) || matches!(d.miss_class, V325MissClass::CandidateMiss)) {
        r.boundary_miss_count = r.boundary_miss_count + 1;
    }
    if v && matches!(d.miss_class, V325MissClass::BuildFailure) {
        r.build_failure_count = r.build_failure_count + 1;
    }
    if c && matches!(d.miss_class, V325MissClass::GroundTruthMismatch) {
        r.false_positive_control_count = r.false_positive_control_count + 1;
    }
    if c && matches!(d.miss_class, V325MissClass::HitTopK) {
        r.paired_control_clean_count = r.paired_control_clean_count + 1;
    }
    r
}

fn class_index(c: V325MissClass) -> (i: usize)
    ensures
        i < 7,
        class_order()[i as int] == c,
{
    match c {
        V325MissClass::AdapterBlocked => 0,
        V325MissClass::BoundaryMiss => 1,
        V325MissClass::BuildFailure => 2,
        V325MissClass::CandidateMiss => 3,
        V325MissClass::GroundTruthMismatch => 4,
        V325MissClass::HitTopK => 5,
        V325MissClass::RankingMiss => 6,
    }
}

fn class_at(i: usize) -> (c: V325MissClass)
    requires
        i < 7,
    ensures
        c == class_order()[i as int],
{
    match i {
        0 => V325MissClass::AdapterBlocked,
        1 => V325MissClass::BoundaryMiss,
        2 => V325MissClass::BuildFailure,
        3 => V325MissClass::CandidateMiss,
        4 => V325MissClass::GroundTruthMismatch,
        5 => V325MissClass::HitTopK,
        _ => V325MissClass::RankingMiss,
    }
}

} // verus!

verus! {

/// Reveals how the public static ranking fared against the private ground truth. The run id
/// must not be blank and both hashes must be sixty-four hexadecimal digits; the ground truth
/// must validate, located at its lines of `ground-truth.jsonl`. Then every sample gets its
/// detail in order, the metrics count them, the miss classes of the vulnerable samples are
/// tallied, and the summary must pass its own validation.
pub fn reveal_static_ranking(input: RevealStaticRankingInput) -> (r: Result<
    (V325StaticRankingRevealSummary, Vec<V325PrivateMatchDetail>),
    ModelError,
>)
    ensures
        match r {
            Ok((summary, details)) => {
                &&& present(input.run_id@)
                &&& is_hex64(input.ranked_candidates_sha256@) && is_hex64(input.ground_truth_sha256@)
                &&& truth_valid(input)
                &&& reveal_checks(input) is None
                &&& summary.schema_version@ == V3_2_5_STATIC_RANKING_REVEAL_SCHEMA_V1@
                &&& summary.run_id@ == input.run_id@
                &&& summary.suite_id@ == reveal_suite(input)
                &&& summary.ranked_candidates_sha256@ == input.ranked_candidates_sha256@
                &&& summary.ground_truth_sha256@ == input.ground_truth_sha256@
                &&& summary.top_k_values@ == top_k_of(input)
                &&& summary.metrics == metrics_of(
                    details_of(input),
                    count_role(truth_views(input), false) as u64,
                    count_role(truth_views(input), true) as u64,
                )
                &&& summary.miss_class_counts@.map_values(|e: (String, u64)| (e.0@, e.1)) == class_entries(
                    details_of(input),
                    class_order(),
                )
                &&& summary.notes@.map_values(|s: String| s@) == reveal_notes()
                &&& details@.map_values(|d: V325PrivateMatchDetail| d@) == details_of(input)
            },
            Err(e) => {
                ||| (!present(input.run_id@) && spec_error_code(e) == "BW-V325-RUN-ID"@)
                ||| (present(input.run_id@) && !(is_hex64(input.ranked_candidates_sha256@) && is_hex64(
                    input.ground_truth_sha256@,
                )) && spec_error_code(e) == "BW-V325-SHA256"@)
                ||| (present(input.run_id@) && is_hex64(input.ranked_candidates_sha256@) && is_hex64(
                    input.ground_truth_sha256@,
                ) && truth_error(input, e))
                ||| (present(input.run_id@) && is_hex64(input.ranked_candidates_sha256@) && is_hex64(
                    input.ground_truth_sha256@,
                ) && truth_valid(input) && reveal_checks(input) == Some(spec_error_code(e)))
            },
        },
{
    if str_is_blank(input.run_id) {
        return Err(ModelError::validation("BW-V325-RUN-ID", owned("run_id 不能为空")));
    }
    match validate_hex64("ranked_candidates_sha256", input.ranked_candidates_sha256) {
        Ok(()) => {},
        Err(e) => {
            return Err(e);
        },
    }
    match validate_hex64("ground_truth_sha256", input.ground_truth_sha256) {
        Ok(()) => {},
        Err(e) => {
            return Err(e);
        },
    }
    let gt = input.ground_truth;
    let mut located: Vec<Located<V325PrivateGroundTruthRecord>> = Vec::new();
    let mut i: usize = 0;
    while i < gt.len()
        invariant
            0 <= i <= gt@.len(),
            located@.len() == i,
            forall|k: int|
                0 <= k < i ==> (#[trigger] located@[k]).value@ == gt@[k]@ && located@[k].line == k + 1
                    && located@[k].path@ == "ground-truth.jsonl"@,
        decreases gt.len() - i,
    {
        located.push(Located { path: owned("ground-truth.jsonl"), line: i + 1, value: clone_ground_truth_record(&gt[i]) });
        i = i + 1;
    }
    let ghost views = truth_views(input);
    assert(ground_truth_views(located@) =~= views);
    let ghost lv = located@;
    let gt_summary = match validate_v3_2_5_private_ground_truth(located) {
        Ok(s) => s,
        Err(e) => {
            proof {
                if exists|i: int|
                    0 <= i < lv.len() && (forall|j: int| 0 <= j < i ==> ground_truth_error_at(views, j) is None)
                        && (#[trigger] ground_truth_error_at(views, i)) is Some && is_error_at(
                        e,
                        lv[i],
                        ground_truth_error_at(views, i)->0,
                    ) {
                    let i = choose|i: int|
                        0 <= i < lv.len() && (forall|j: int| 0 <= j < i ==> ground_truth_error_at(views, j) is None)
                            && (#[trigger] ground_truth_error_at(views, i)) is Some && is_error_at(
                            e,
                            lv[i],
                            ground_truth_error_at(views, i)->0,
                        );
                    assert(is_error_at_line(e, "ground-truth.jsonl"@, i + 1, ground_truth_error_at(views, i)->0));
                } else {
                    let i = choose|i: int|
                        0 <= i < lv.len() && (forall|j: int| 0 <= j < i ==> !pair_missing(views, j))
                            && #[trigger] pair_missing(views, i) && is_error_at(e, lv[i], "BW-V325-PAIR-MISSING"@);
                    assert(is_error_at_line(e, "ground-truth.jsonl"@, i + 1, "BW-V325-PAIR-MISSING"@));
                }
            }
            return Err(e);
        },
    };
    let suite_id = if gt.len() == 0 {
        String::new()
    } else {
        gt[0].suite_id.clone()
    };
    let top_k: Vec<u32> = if input.top_k_values.len() == 0 {
        let mut v: Vec<u32> = Vec::new();
        v.push(1);
        v.push(5);
        v.push(10);
        assert(v@ =~= seq![1u32, 5u32, 10u32]);
        v
    } else {
        let mut v: Vec<u32> = Vec::new();
        let mut k: usize = 0;
        while k < input.top_k_values.len()
            invariant
                0 <= k <= input.top_k_values@.len(),
                v@ == input.top_k_values@.take(k as int),
            decreases input.top_k_values.len() - k,
        {
            v.push(input.top_k_values[k]);
            assert(v@ =~= input.top_k_values@.take(k + 1));
            k = k + 1;
        }
        assert(input.top_k_values@.take(input.top_k_values@.len() as int) =~= input.top_k_values@);
        v
    };
    let max_top = max_top_k(&top_k);
    let ghost all = details_of(input);
    let mut metrics = V325RevealMetrics {
        vulnerable_sample_count: gt_summary.vulnerable_count,
        control_sample_count: gt_summary.control_count,
        buildable_vulnerable_count: 0,
        nday_candidate_hit_count: 0,
        top1_hit_count: 0,
        top5_hit_count: 0,
        top10_hit_count: 0,
        ranking_miss_count: 0,
        boundary_miss_count: 0,
        build_failure_count: 0,
        false_positive_control_count: 0,
        paired_control_clean_count: 0,
    };
    let mut counts: [u64; 7] = [0, 0, 0, 0, 0, 0, 0];
    let mut details: Vec<V325PrivateMatchDetail> = Vec::new();
    let mut i: usize = 0;
    assert(all.take(0) =~= Seq::<MatchDetailView>::empty());
    while i < gt.len()
        invariant
            0 <= i <= gt@.len(),
            all == details_of(input),
            gt@ == input.ground_truth@,
            all.len() == gt@.len(),
            max_top == max_of(top_k_of(input)),
            details@.map_values(|d: V325PrivateMatchDetail| d@) == all.take(i as int),
            metrics == metrics_of(all.take(i as int), gt_summary.vulnerable_count, gt_summary.control_count),
            forall|c: int| 0 <= c < 7 ==> #[trigger] counts@[c] == class_count(all.take(i as int), class_order()[c]),
        decreases gt.len() - i,
    {
        let d = evaluate_sample(&input, &gt[i], max_top);
        let ghost dv = d@;
        let ghost prev = all.take(i as int);
        assert(all[i as int] == detail_of(input, input.ground_truth@[i as int]@));
        assert(dv == all[i as int]);
        assert(all.take(i + 1) =~= prev.push(dv));
        assert(all.take(i + 1).drop_last() =~= prev);
        proof {
            lemma_metrics_bounded(prev, gt_summary.vulnerable_count, gt_summary.control_count);
        }
        metrics = step_metrics(metrics, &d, Ghost(prev.len()));
        if matches!(d.role, V325SampleRole::Vulnerable) {
            let ci = class_index(d.miss_class);
            proof {
                lemma_class_count_bound(prev, d.miss_class);
            }
            counts[ci] = counts[ci] + 1;
        }
        let ghost old_views = details@.map_values(|x: V325PrivateMatchDetail| x@);
        details.push(d);
        assert(details@.map_values(|x: V325PrivateMatchDetail| x@) =~= old_views.push(dv));
        i = i + 1;
    }
    assert(all.take(gt@.len() as int) =~= all);
    let mut entries: Vec<(String, u64)> = Vec::new();
    let mut c: usize = 0;
    while c < 7
        invariant
            0 <= c <= 7,
            forall|q: int| 0 <= q < 7 ==> #[trigger] counts@[q] == class_count(all, class_order()[q]),
            entries@.map_values(|e: (String, u64)| (e.0@, e.1)) == class_entries(all, class_order().take(c as int)),
        decreases 7 - c,
    {
        let class = class_at(c);
        assert(class_order().take(c + 1).drop_last() =~= class_order().take(c as int));
        if counts[c] > 0 {
            let ghost old_entries = entries@.map_values(|e: (String, u64)| (e.0@, e.1));
            entries.push((owned(class.as_str()), counts[c]));
            assert(entries@.map_values(|e: (String, u64)| (e.0@, e.1)) =~= old_entries.push(
                (spec_miss_class_name(class), counts[c as int]),
            ));
        }
        c = c + 1;
    }
    assert(class_order().take(7) =~= class_order());
    let mut notes: Vec<String> = Vec::new();
    notes.push(owned("static ranking blind smoke"));
    notes.push(owned("candidate/ranking is not a vulnerability conclusion"));
    notes.push(owned("no 0day claim"));
    assert(notes@.map_values(|s: String| s@) =~= reveal_notes());
    let summary = V325StaticRankingRevealSummary {
        schema_version: owned(V3_2_5_STATIC_RANKING_REVEAL_SCHEMA_V1),
        run_id: owned(input.run_id),
        suite_id,
        ranked_candidates_sha256: owned(input.ranked_candidates_sha256),
        ground_truth_sha256: owned(input.ground_truth_sha256),
        top_k_values: top_k,
        metrics,
        miss_class_counts: entries,
        notes,
    };
    match validate_v3_2_5_static_ranking_reveal(&summary) {
        Ok(()) => {},
        Err(e) => {
            return Err(e);
        },
    }
    Ok((summary, details))
}

} // verus!
