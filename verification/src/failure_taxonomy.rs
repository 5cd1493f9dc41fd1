//! V3.2 failure taxonomy: why a crate or candidate left the pipeline early, never read as a
//! finding that nothing is wrong.

use vstd::prelude::*;

use crate::boundary_index::{V32BoundaryIndexRecord, V32BoundaryKind};
use crate::buildability::{V32BuildabilityRecord, V32BuildabilityStatus};
use crate::checks::{all_token_free, check_required, check_tokens, check_tokens_all, require};
use crate::error::{is_error_at, Located, ModelError};
use crate::public_tokens::has_forbidden_token;
use crate::static_fact::present;
use crate::text::{clone_texts, decimal, decimal_string, lemma_text_lt_irreflexive, lemma_text_lt_transitive, owned, text_less, text_lt};

verus! {

/// Schema version of failure taxonomy records.
pub const V3_2_FAILURE_TAXONOMY_SCHEMA_V1: &'static str = "v3.2.failure_taxonomy.1";

#[derive(Clone, Debug)]
pub struct V32FailureTaxonomyRecord {
    pub schema_version: String,
    pub run_id: String,
    pub subject_kind: V32TaxonomySubjectKind,
    pub subject_id: String,
    pub crate_id: String,
    pub stage: V32TaxonomyStage,
    pub failure_class: V32FailureClass,
    pub is_infrastructure_failure: bool,
    pub is_method_negative: bool,
    pub notes: Vec<String>,
}

#[derive(Clone, Copy, Debug, PartialEq, Eq, Structural)]
pub enum V32TaxonomySubjectKind {
    Crate,
    Candidate,
}

#[derive(Clone, Copy, Debug, PartialEq, Eq)]
pub enum V32TaxonomyStage {
    BuildPrecheck,
    BoundaryIndex,
    CandidatePartition,
    LifecycleRanking,
    DynamicPrep,
}

#[derive(Clone, Copy, Debug, PartialEq, Eq, PartialOrd, Ord)]
pub enum V32FailureClass {
    RequiresSystemDependency,
    CargoCheckFailed,
    NotBuildable,
    UnsupportedTarget,
    Timeout,
    ToolError,
    NoSupportedBoundaryPattern,
    DeferredStaticOnly,
    AnalyzerUnsupported,
    InsufficientEvidence,
    IntegrityFailure,
}

#[derive(Clone, Debug, Default, PartialEq, Eq)]
pub struct V32FailureTaxonomySummary {
    pub record_count: u64,
    pub infrastructure_failure_count: u64,
    pub method_negative_count: u64,
    pub build_failure_count: u64,
    pub no_boundary_count: u64,
    pub deferred_count: u64,
}

/// The adapter effort estimate of a ranked candidate, as far as the taxonomy reads it.
#[derive(Clone, Debug)]
pub struct V32AdapterEffortRecord {
    pub candidate_id: String,
    pub crate_id: String,
    pub adapter_needed: bool,
    pub blocked_reason: Option<String>,
    pub rank: u32,
    pub score: u32,
}

/// A taxonomy record with its texts taken as character sequences.
#[verifier::ext_equal]
pub struct TaxonomyView {
    pub schema_version: Seq<char>,
    pub run_id: Seq<char>,
    pub subject_kind: V32TaxonomySubjectKind,
    pub subject_id: Seq<char>,
    pub crate_id: Seq<char>,
    pub stage: V32TaxonomyStage,
    pub failure_class: V32FailureClass,
    pub is_infrastructure_failure: bool,
    pub is_method_negative: bool,
    pub notes: Seq<Seq<char>>,
}

impl View for V32FailureTaxonomyRecord {
    type V = TaxonomyView;

    open spec fn view(&self) -> TaxonomyView {
        TaxonomyView {
            schema_version: self.schema_version@,
            run_id: self.run_id@,
            subject_kind: self.subject_kind,
            subject_id: self.subject_id@,
            crate_id: self.crate_id@,
            stage: self.stage,
            failure_class: self.failure_class,
            is_infrastructure_failure: self.is_infrastructure_failure,
            is_method_negative: self.is_method_negative,
            notes: self.notes@.map_values(|s: String| s@),
        }
    }
}

/// The position of a stage in the pipeline.
pub open spec fn stage_order(stage: V32TaxonomyStage) -> int {
    match stage {
        V32TaxonomyStage::BuildPrecheck => 1,
        V32TaxonomyStage::BoundaryIndex => 2,
        V32TaxonomyStage::CandidatePartition => 3,
        V32TaxonomyStage::LifecycleRanking => 4,
        V32TaxonomyStage::DynamicPrep => 5,
    }
}

impl V32TaxonomyStage {
    fn to_order(self) -> (r: u8)
        ensures
            r == stage_order(self),
    {
        match self {
            V32TaxonomyStage::BuildPrecheck => 1,
            V32TaxonomyStage::BoundaryIndex => 2,
            V32TaxonomyStage::CandidatePartition => 3,
            V32TaxonomyStage::LifecycleRanking => 4,
            V32TaxonomyStage::DynamicPrep => 5,
        }
    }
}

/// The order key of a taxonomy record: stage, then crate id, then subject id.
pub open spec fn tax_key(v: TaxonomyView) -> (int, Seq<char>, Seq<char>) {
    (stage_order(v.stage), v.crate_id, v.subject_id)
}

/// Lexicographic order of keys.
pub open spec fn key_before(a: (int, Seq<char>, Seq<char>), b: (int, Seq<char>, Seq<char>)) -> bool {
    ||| a.0 < b.0
    ||| (a.0 == b.0 && text_lt(a.1, b.1))
    ||| (a.0 == b.0 && a.1 == b.1 && text_lt(a.2, b.2))
}

proof fn lemma_key_before_irreflexive(a: (int, Seq<char>, Seq<char>))
    ensures
        !key_before(a, a),
{
    lemma_text_lt_irreflexive(a.1);
    lemma_text_lt_irreflexive(a.2);
}

proof fn lemma_key_before_transitive(
    a: (int, Seq<char>, Seq<char>),
    b: (int, Seq<char>, Seq<char>),
    c: (int, Seq<char>, Seq<char>),
)
    requires
        key_before(a, b),
        key_before(b, c),
    ensures
        key_before(a, c),
{
    if a.0 == b.0 && b.0 == c.0 {
        if text_lt(a.1, b.1) && text_lt(b.1, c.1) {
            lemma_text_lt_transitive(a.1, b.1, c.1);
        } else if a.1 == b.1 && b.1 == c.1 {
            lemma_text_lt_transitive(a.2, b.2, c.2);
        }
    }
}

/// The views of a sequence of records.
pub open spec fn views(s: Seq<V32FailureTaxonomyRecord>) -> Seq<TaxonomyView> {
    s.map_values(|x: V32FailureTaxonomyRecord| x@)
}

/// Records in order of their keys.
pub open spec fn taxonomy_sorted(s: Seq<TaxonomyView>) -> bool {
    forall|i: int, j: int| 0 <= i < j < s.len() ==> !key_before(tax_key(#[trigger] s[j]), tax_key(#[trigger] s[i]))
}

/// The records of a sequence with a given key, in their order.
pub open spec fn key_class(s: Seq<TaxonomyView>, k: (int, Seq<char>, Seq<char>)) -> Seq<TaxonomyView> {
    s.filter(|v: TaxonomyView| tax_key(v) == k)
}

fn copy_record(x: &V32FailureTaxonomyRecord) -> (r: V32FailureTaxonomyRecord)
    ensures
        r@ == x@,
{
    V32FailureTaxonomyRecord {
        schema_version: x.schema_version.clone(),
        run_id: x.run_id.clone(),
        subject_kind: x.subject_kind,
        subject_id: x.subject_id.clone(),
        crate_id: x.crate_id.clone(),
        stage: x.stage,
        failure_class: x.failure_class,
        is_infrastructure_failure: x.is_infrastructure_failure,
        is_method_negative: x.is_method_negative,
        notes: clone_texts(&x.notes),
    }
}

fn taxonomy_before(a: &V32FailureTaxonomyRecord, b: &V32FailureTaxonomyRecord) -> (r: bool)
    ensures
        r == key_before(tax_key(a@), tax_key(b@)),
{
    let sa = a.stage.to_order();
    let sb = b.stage.to_order();
    if sa != sb {
        return sa < sb;
    }
    if text_less(a.crate_id.as_str(), b.crate_id.as_str()) {
        return true;
    }
    if a.crate_id != b.crate_id {
        return false;
    }
    text_less(a.subject_id.as_str(), b.subject_id.as_str())
}

proof fn lemma_key_class_push(s: Seq<TaxonomyView>, x: TaxonomyView, k: (int, Seq<char>, Seq<char>))
    ensures
        key_class(s.push(x), k) == if tax_key(x) == k {
            key_class(s, k).push(x)
        } else {
            key_class(s, k)
        },
{
    reveal(Seq::filter);
    assert(s.push(x).drop_last() =~= s);
}

proof fn lemma_key_class_insert(
    rv: Seq<TaxonomyView>,
    p: int,
    x: TaxonomyView,
    k: (int, Seq<char>, Seq<char>),
)
    requires
        0 <= p <= rv.len(),
        forall|q: int| p <= q < rv.len() ==> tax_key(#[trigger] rv[q]) != tax_key(x),
    ensures
        key_class(rv.insert(p, x), k) == if tax_key(x) == k {
            key_class(rv, k).push(x)
        } else {
            key_class(rv, k)
        },
{
    let pred = |v: TaxonomyView| tax_key(v) == k;
    let a = rv.take(p);
    let b = rv.skip(p);
    assert(rv =~= a + b);
    assert(rv.insert(p, x) =~= a + seq![x] + b);
    Seq::filter_distributes_over_add(a, b, pred);
    Seq::filter_distributes_over_add(a + seq![x], b, pred);
    Seq::filter_distributes_over_add(a, seq![x], pred);
    reveal_with_fuel(Seq::filter, 2);
    assert(seq![x].drop_last() =~= Seq::<TaxonomyView>::empty());
    if tax_key(x) == k {
        assert forall|q: int| 0 <= q < b.len() implies !pred(#[trigger] b[q]) by {
            assert(b[q] == rv[p + q]);
        }
        b.lemma_all_neg_filter_empty(pred);
        assert(b.filter(pred) =~= Seq::<TaxonomyView>::empty());
    }
}

/// Sorts taxonomy records by stage, crate id and subject id, keeping the order of records
/// with equal keys.
fn sort_taxonomy(v: Vec<V32FailureTaxonomyRecord>) -> (r: Vec<V32FailureTaxonomyRecord>)
    ensures
        taxonomy_sorted(views(r@)),
        forall|k: (int, Seq<char>, Seq<char>)|
            #[trigger] key_class(views(r@), k) == key_class(
                views(v@),
                k,
            ),
{
    let ghost vv = views(v@);
    let mut r: Vec<V32FailureTaxonomyRecord> = Vec::new();
    let mut i: usize = 0;
    while i < v.len()
        invariant
            0 <= i <= v.len(),
            vv == views(v@),
            taxonomy_sorted(views(r@)),
            forall|k: (int, Seq<char>, Seq<char>)|
                #[trigger] key_class(views(r@), k) == key_class(
                    vv.take(i as int),
                    k,
                ),
        decreases v.len() - i,
    {
        let x = copy_record(&v[i]);
        let ghost rv = views(r@);
        let mut p: usize = 0;
        while p < r.len() && !taxonomy_before(&x, &r[p])
            invariant
                0 <= p <= r.len(),
                rv == views(r@),
                forall|q: int| 0 <= q < p ==> !key_before(tax_key(x@), tax_key(#[trigger] rv[q])),
            decreases r.len() - p,
        {
            p = p + 1;
        }
        proof {
            assert(x@ == vv[i as int]);
            assert forall|q: int| p <= q < rv.len() implies tax_key(#[trigger] rv[q]) != tax_key(x@)
                && !key_before(tax_key(rv[q]), tax_key(x@)) by {
                assert(key_before(tax_key(x@), tax_key(rv[p as int])));
                lemma_key_before_irreflexive(tax_key(rv[p as int]));
                if key_before(tax_key(rv[q]), tax_key(x@)) {
                    lemma_key_before_transitive(tax_key(rv[q]), tax_key(x@), tax_key(rv[p as int]));
                }
            }
        }
        let ghost xv = x@;
        r.insert(p, x);
        proof {
            let nv = views(r@);
            assert(nv =~= rv.insert(p as int, xv));
            assert forall|a: int, b: int| 0 <= a < b < nv.len() implies !key_before(
                tax_key(#[trigger] nv[b]),
                tax_key(#[trigger] nv[a]),
            ) by {
                if b < p {
                    assert(nv[a] == rv[a] && nv[b] == rv[b]);
                } else if b == p {
                    assert(nv[a] == rv[a]);
                } else if a == p {
                    assert(nv[b] == rv[b - 1]);
                } else if a < p {
                    assert(nv[a] == rv[a] && nv[b] == rv[b - 1]);
                } else {
                    assert(nv[a] == rv[a - 1] && nv[b] == rv[b - 1]);
                }
            }
            assert(vv.take(i + 1) =~= vv.take(i as int).push(xv));
            assert forall|k: (int, Seq<char>, Seq<char>)| #[trigger] key_class(nv, k) == key_class(vv.take(i + 1), k) by {
                lemma_key_class_insert(rv, p as int, xv, k);
                lemma_key_class_push(vv.take(i as int), xv, k);
                assert(key_class(rv, k) == key_class(vv.take(i as int), k));
            }
        }
        i = i + 1;
    }
    assert(vv.take(v@.len() as int) =~= vv);
    r
}

} // verus!

verus! {

/// The text of an optional value, or `null`.
pub open spec fn or_null(o: Option<String>) -> Seq<char> {
    match o {
        Some(s) => s@,
        None => "null"@,
    }
}

fn or_null_text(o: &Option<String>) -> (r: String)
    ensures
        r@ == or_null(*o),
{
    match o {
        Some(s) => s.clone(),
        None => owned("null"),
    }
}

/// The failure class that a build status stands for.
pub open spec fn class_of_status(status: V32BuildabilityStatus) -> V32FailureClass {
    match status {
        V32BuildabilityStatus::RequiresSystemDependency => V32FailureClass::RequiresSystemDependency,
        V32BuildabilityStatus::NotBuildable => V32FailureClass::NotBuildable,
        V32BuildabilityStatus::UnsupportedTarget => V32FailureClass::UnsupportedTarget,
        V32BuildabilityStatus::Timeout => V32FailureClass::Timeout,
        V32BuildabilityStatus::ToolError => V32FailureClass::ToolError,
        V32BuildabilityStatus::Buildable => V32FailureClass::IntegrityFailure,
    }
}

/// The failure class of a failed build: the recorded class when it names a known class, else
/// the class that its status stands for.
pub open spec fn spec_build_failure(b: V32BuildabilityRecord) -> V32FailureClass {
    match b.failure_class {
        Some(c) => if c@ == "requires_system_dependency"@ {
            V32FailureClass::RequiresSystemDependency
        } else if c@ == "cargo_check_failed"@ {
            V32FailureClass::CargoCheckFailed
        } else if c@ == "unsupported_target"@ {
            V32FailureClass::UnsupportedTarget
        } else if c@ == "timeout"@ {
            V32FailureClass::Timeout
        } else if c@ == "tool_error"@ {
            V32FailureClass::ToolError
        } else if c@ == "not_buildable"@ {
            V32FailureClass::NotBuildable
        } else {
            class_of_status(b.status)
        },
        None => class_of_status(b.status),
    }
}

fn map_build_failure(build: &V32BuildabilityRecord) -> (r: V32FailureClass)
    ensures
        r == spec_build_failure(*build),
{
    if let Some(class) = &build.failure_class {
        if *class == owned("requires_system_dependency") {
            return V32FailureClass::RequiresSystemDependency;
        } else if *class == owned("cargo_check_failed") {
            return V32FailureClass::CargoCheckFailed;
        } else if *class == owned("unsupported_target") {
            return V32FailureClass::UnsupportedTarget;
        } else if *class == owned("timeout") {
            return V32FailureClass::Timeout;
        } else if *class == owned("tool_error") {
            return V32FailureClass::ToolError;
        } else if *class == owned("not_buildable") {
            return V32FailureClass::NotBuildable;
        }
    }
    match build.status {
        V32BuildabilityStatus::RequiresSystemDependency => V32FailureClass::RequiresSystemDependency,
        V32BuildabilityStatus::NotBuildable => V32FailureClass::NotBuildable,
        V32BuildabilityStatus::UnsupportedTarget => V32FailureClass::UnsupportedTarget,
        V32BuildabilityStatus::Timeout => V32FailureClass::Timeout,
        V32BuildabilityStatus::ToolError => V32FailureClass::ToolError,
        V32BuildabilityStatus::Buildable => V32FailureClass::IntegrityFailure,
    }
}

pub open spec fn spec_status_slug(status: V32BuildabilityStatus) -> Seq<char> {
    match status {
        V32BuildabilityStatus::Buildable => "buildable"@,
        V32BuildabilityStatus::NotBuildable => "not_buildable"@,
        V32BuildabilityStatus::RequiresSystemDependency => "requires_system_dependency"@,
        V32BuildabilityStatus::UnsupportedTarget => "unsupported_target"@,
        V32BuildabilityStatus::Timeout => "timeout"@,
        V32BuildabilityStatus::ToolError => "tool_error"@,
    }
}

fn buildability_status_slug(status: V32BuildabilityStatus) -> (r: &'static str)
    ensures
        r@ == spec_status_slug(status),
{
    match status {
        V32BuildabilityStatus::Buildable => "buildable",
        V32BuildabilityStatus::NotBuildable => "not_buildable",
        V32BuildabilityStatus::RequiresSystemDependency => "requires_system_dependency",
        V32BuildabilityStatus::UnsupportedTarget => "unsupported_target",
        V32BuildabilityStatus::Timeout => "timeout",
        V32BuildabilityStatus::ToolError => "tool_error",
    }
}

/// Failures of the environment rather than of the crate.
pub open spec fn is_infrastructure(c: V32FailureClass) -> bool {
    c == V32FailureClass::RequiresSystemDependency || c == V32FailureClass::ToolError || c
        == V32FailureClass::Timeout || c == V32FailureClass::UnsupportedTarget
}

/// The taxonomy entry of a failed build.
pub open spec fn build_view(run: Seq<char>, b: V32BuildabilityRecord) -> TaxonomyView {
    let c = spec_build_failure(b);
    TaxonomyView {
        schema_version: V3_2_FAILURE_TAXONOMY_SCHEMA_V1@,
        run_id: run,
        subject_kind: V32TaxonomySubjectKind::Crate,
        subject_id: b.crate_id@,
        crate_id: b.crate_id@,
        stage: V32TaxonomyStage::BuildPrecheck,
        failure_class: c,
        is_infrastructure_failure: is_infrastructure(c),
        is_method_negative: false,
        notes: seq![
            "build failure is not a no-vulnerability conclusion"@,
            "source_status="@ + spec_status_slug(b.status),
            "source_failure_class="@ + or_null(b.failure_class),
        ],
    }
}

/// The taxonomy entries of the failed builds, in input order.
pub open spec fn build_views(run: Seq<char>, bs: Seq<V32BuildabilityRecord>) -> Seq<TaxonomyView>
    decreases bs.len(),
{
    if bs.len() == 0 {
        Seq::empty()
    } else {
        let prev = build_views(run, bs.drop_last());
        if bs.last().status == V32BuildabilityStatus::Buildable {
            prev
        } else {
            prev.push(build_view(run, bs.last()))
        }
    }
}

/// Every boundary of the crate is a negative summary.
pub open spec fn only_negative(bs: Seq<V32BoundaryIndexRecord>, c: Seq<char>) -> bool {
    forall|k: int|
        0 <= k < bs.len() && (#[trigger] bs[k]).crate_id@ == c ==> bs[k].boundary_kind
            == V32BoundaryKind::NegativeSummary
}

/// The boundary at `i` is the first one of its crate.
pub open spec fn first_of_crate(bs: Seq<V32BoundaryIndexRecord>, i: int) -> bool {
    forall|j: int| 0 <= j < i ==> (#[trigger] bs[j]).crate_id@ != bs[i].crate_id@
}

/// The taxonomy entry of a crate in which no supported boundary pattern was found.
pub open spec fn boundary_view(run: Seq<char>, c: Seq<char>) -> TaxonomyView {
    TaxonomyView {
        schema_version: V3_2_FAILURE_TAXONOMY_SCHEMA_V1@,
        run_id: run,
        subject_kind: V32TaxonomySubjectKind::Crate,
        subject_id: c,
        crate_id: c,
        stage: V32TaxonomyStage::BoundaryIndex,
        failure_class: V32FailureClass::NoSupportedBoundaryPattern,
        is_infrastructure_failure: false,
        is_method_negative: false,
        notes: seq![
            "no supported boundary pattern is not a no-vulnerability conclusion"@,
            "current heuristic scan of src/**/*.rs found no supported boundary pattern"@,
        ],
    }
}

/// One entry for each crate whose boundaries, among all of `bs`, are only negative summaries,
/// taken from the first `n` boundaries in order of first occurrence.
pub open spec fn boundary_views(run: Seq<char>, bs: Seq<V32BoundaryIndexRecord>, n: int) -> Seq<
    TaxonomyView,
>
    decreases n,
{
    if n <= 0 {
        Seq::empty()
    } else {
        let prev = boundary_views(run, bs, n - 1);
        if first_of_crate(bs, n - 1) && only_negative(bs, bs[n - 1].crate_id@) {
            prev.push(boundary_view(run, bs[n - 1].crate_id@))
        } else {
            prev
        }
    }
}

/// The taxonomy entry of a candidate whose dynamic preparation was deferred.
pub open spec fn effort_view(run: Seq<char>, e: V32AdapterEffortRecord) -> TaxonomyView {
    TaxonomyView {
        schema_version: V3_2_FAILURE_TAXONOMY_SCHEMA_V1@,
        run_id: run,
        subject_kind: V32TaxonomySubjectKind::Candidate,
        subject_id: e.candidate_id@,
        crate_id: e.crate_id@,
        stage: V32TaxonomyStage::DynamicPrep,
        failure_class: V32FailureClass::DeferredStaticOnly,
        is_infrastructure_failure: false,
        is_method_negative: false,
        notes: seq![
            "deferred dynamic preparation is not a no-vulnerability conclusion"@,
            "blocked_reason="@ + or_null(e.blocked_reason),
            "rank="@ + decimal(e.rank as nat) + " score="@ + decimal(e.score as nat),
        ],
    }
}

/// The taxonomy entries of the candidates that need no adapter, in input order.
pub open spec fn effort_views(run: Seq<char>, es: Seq<V32AdapterEffortRecord>) -> Seq<TaxonomyView>
    decreases es.len(),
{
    if es.len() == 0 {
        Seq::empty()
    } else {
        let prev = effort_views(run, es.drop_last());
        if es.last().adapter_needed {
            prev
        } else {
            prev.push(effort_view(run, es.last()))
        }
    }
}

/// The taxonomy entries of all three stages before ordering.
pub open spec fn unordered_taxonomy(
    run: Seq<char>,
    buildability: Seq<V32BuildabilityRecord>,
    boundary_index: Seq<V32BoundaryIndexRecord>,
    adapter_effort: Seq<V32AdapterEffortRecord>,
) -> Seq<TaxonomyView> {
    build_views(run, buildability) + boundary_views(run, boundary_index, boundary_index.len() as int)
        + effort_views(run, adapter_effort)
}

fn taxonomy_record(
    run_id: &str,
    subject_kind: V32TaxonomySubjectKind,
    subject_id: &String,
    crate_id: &String,
    stage: V32TaxonomyStage,
    failure_class: V32FailureClass,
    notes: Vec<String>,
) -> (r: V32FailureTaxonomyRecord)
    ensures
        r@ == (TaxonomyView {
            schema_version: V3_2_FAILURE_TAXONOMY_SCHEMA_V1@,
            run_id: run_id@,
            subject_kind,
            subject_id: subject_id@,
            crate_id: crate_id@,
            stage,
            failure_class,
            is_infrastructure_failure: is_infrastructure(failure_class),
            is_method_negative: false,
            notes: notes@.map_values(|s: String| s@),
        }),
{
    let infra = match failure_class {
        V32FailureClass::RequiresSystemDependency | V32FailureClass::ToolError
        | V32FailureClass::Timeout | V32FailureClass::UnsupportedTarget => true,
        _ => false,
    };
    V32FailureTaxonomyRecord {
        schema_version: owned(V3_2_FAILURE_TAXONOMY_SCHEMA_V1),
        run_id: owned(run_id),
        subject_kind,
        subject_id: subject_id.clone(),
        crate_id: crate_id.clone(),
        stage,
        failure_class,
        is_infrastructure_failure: infra,
        is_method_negative: false,
        notes,
    }
}

fn crate_is_only_negative(bs: &[V32BoundaryIndexRecord], c: &String) -> (b: bool)
    ensures
        b == only_negative(bs@, c@),
{
    let mut k: usize = 0;
    while k < bs.len()
        invariant
            0 <= k <= bs@.len(),
            forall|q: int|
                0 <= q < k && (#[trigger] bs@[q]).crate_id@ == c@ ==> bs@[q].boundary_kind
                    == V32BoundaryKind::NegativeSummary,
        decreases bs.len() - k,
    {
        if bs[k].crate_id == *c && !matches!(bs[k].boundary_kind, V32BoundaryKind::NegativeSummary) {
            return false;
        }
        k = k + 1;
    }
    true
}

fn crate_seen_before(bs: &[V32BoundaryIndexRecord], i: usize) -> (b: bool)
    requires
        i < bs@.len(),
    ensures
        b == !first_of_crate(bs@, i as int),
{
    let mut j: usize = 0;
    while j < i
        invariant
            0 <= j <= i < bs@.len(),
            forall|q: int| 0 <= q < j ==> (#[trigger] bs@[q]).crate_id@ != bs@[i as int].crate_id@,
        decreases i - j,
    {
        if bs[j].crate_id == bs[i].crate_id {
            return true;
        }
        j = j + 1;
    }
    false
}

/// Builds the taxonomy of samples that left the pipeline early from the earlier stages'
/// outputs: one entry per failed build, one per crate whose boundaries are only negative
/// summaries, and one per candidate that needs no adapter; ordered by stage, crate id and
/// subject id, entries with equal keys in input order.
pub fn build_failure_taxonomy(
    run_id: &str,
    buildability: &[V32BuildabilityRecord],
    boundary_index: &[V32BoundaryIndexRecord],
    adapter_effort: &[V32AdapterEffortRecord],
) -> (r: Vec<V32FailureTaxonomyRecord>)
    ensures
        taxonomy_sorted(views(r@)),
        forall|k: (int, Seq<char>, Seq<char>)|
            #[trigger] key_class(views(r@), k) == key_class(
                unordered_taxonomy(run_id@, buildability@, boundary_index@, adapter_effort@),
                k,
            ),
{
    let mut records: Vec<V32FailureTaxonomyRecord> = Vec::new();
    let mut i: usize = 0;
    while i < buildability.len()
        invariant
            0 <= i <= buildability@.len(),
            views(records@) == build_views(run_id@, buildability@.take(i as int)),
        decreases buildability.len() - i,
    {
        let build = &buildability[i];
        assert(buildability@.take(i + 1).drop_last() =~= buildability@.take(i as int));
        if !matches!(build.status, V32BuildabilityStatus::Buildable) {
            let failure_class = map_build_failure(build);
            let mut notes: Vec<String> = Vec::new();
            notes.push(owned("build failure is not a no-vulnerability conclusion"));
            let mut status_note = owned("source_status=");
            status_note.append(buildability_status_slug(build.status));
            notes.push(status_note);
            let mut class_note = owned("source_failure_class=");
            class_note.append(or_null_text(&build.failure_class).as_str());
            notes.push(class_note);
            assert(notes@.map_values(|s: String| s@) =~= build_view(run_id@, buildability@[i as int]).notes);
            let rec = taxonomy_record(
                run_id,
                V32TaxonomySubjectKind::Crate,
                &build.crate_id,
                &build.crate_id,
                V32TaxonomyStage::BuildPrecheck,
                failure_class,
                notes,
            );
            assert(rec@ =~= build_view(run_id@, buildability@[i as int]));
            records.push(rec);
            assert(views(records@) =~= build_views(run_id@, buildability@.take(i as int)).push(
                build_view(run_id@, buildability@[i as int]),
            ));
        }
        i = i + 1;
    }
    assert(buildability@.take(buildability@.len() as int) =~= buildability@);
    let ghost after_build = views(records@);
    let mut i: usize = 0;
    while i < boundary_index.len()
        invariant
            0 <= i <= boundary_index@.len(),
            views(records@) == after_build + boundary_views(run_id@, boundary_index@, i as int),
        decreases boundary_index.len() - i,
    {
        let c = &boundary_index[i].crate_id;
        if !crate_seen_before(boundary_index, i) && crate_is_only_negative(boundary_index, c) {
            let mut notes: Vec<String> = Vec::new();
            notes.push(owned("no supported boundary pattern is not a no-vulnerability conclusion"));
            notes.push(owned("current heuristic scan of src/**/*.rs found no supported boundary pattern"));
            assert(notes@.map_values(|s: String| s@) =~= boundary_view(run_id@, c@).notes);
            let rec = taxonomy_record(
                run_id,
                V32TaxonomySubjectKind::Crate,
                c,
                c,
                V32TaxonomyStage::BoundaryIndex,
                V32FailureClass::NoSupportedBoundaryPattern,
                notes,
            );
            assert(rec@ =~= boundary_view(run_id@, c@));
            let ghost old_views = views(records@);
            let ghost rv = rec@;
            records.push(rec);
            assert(views(records@) =~= old_views.push(rv));
            assert(views(records@) =~= after_build + boundary_views(run_id@, boundary_index@, i as int).push(
                boundary_view(run_id@, c@),
            ));
        }
        i = i + 1;
    }
    let ghost after_boundary = views(records@);
    let mut i: usize = 0;
    while i < adapter_effort.len()
        invariant
            0 <= i <= adapter_effort@.len(),
            views(records@) == after_boundary + effort_views(run_id@, adapter_effort@.take(i as int)),
        decreases adapter_effort.len() - i,
    {
        let effort = &adapter_effort[i];
        assert(adapter_effort@.take(i + 1).drop_last() =~= adapter_effort@.take(i as int));
        if !effort.adapter_needed {
            let mut notes: Vec<String> = Vec::new();
            notes.push(owned("deferred dynamic preparation is not a no-vulnerability conclusion"));
            let mut reason = owned("blocked_reason=");
            reason.append(or_null_text(&effort.blocked_reason).as_str());
            notes.push(reason);
            let mut rank = owned("rank=");
            rank.append(decimal_string(effort.rank as u64).as_str());
            rank.append(" score=");
            rank.append(decimal_string(effort.score as u64).as_str());
            notes.push(rank);
            assert(notes@.map_values(|s: String| s@) =~= effort_view(run_id@, adapter_effort@[i as int]).notes);
            let rec = taxonomy_record(
                run_id,
                V32TaxonomySubjectKind::Candidate,
                &effort.candidate_id,
                &effort.crate_id,
                V32TaxonomyStage::DynamicPrep,
                V32FailureClass::DeferredStaticOnly,
                notes,
            );
            assert(rec@ =~= effort_view(run_id@, adapter_effort@[i as int]));
            let ghost old_views = views(records@);
            let ghost rv = rec@;
            records.push(rec);
            assert(views(records@) =~= old_views.push(rv));
            assert(views(records@) =~= after_boundary + effort_views(run_id@, adapter_effort@.take(i as int)).push(
                effort_view(run_id@, adapter_effort@[i as int]),
            ));
        }
        i = i + 1;
    }
    assert(adapter_effort@.take(adapter_effort@.len() as int) =~= adapter_effort@);
    assert(views(records@) =~= unordered_taxonomy(run_id@, buildability@, boundary_index@, adapter_effort@));
    sort_taxonomy(records)
}

} // verus!

verus! {

/// The error code of one taxonomy record, given the run id fixed by the first record and
/// whether its subject already occurred.
pub open spec fn taxonomy_record_error(
    r: V32FailureTaxonomyRecord,
    first_run: Option<Seq<char>>,
    duplicate: bool,
) -> Option<Seq<char>> {
    if !present(r.run_id@) || !present(r.subject_id@) || !present(r.crate_id@) {
        Some("BW-TAXONOMY-REQUIRED-EMPTY"@)
    } else if has_forbidden_token(r.run_id@) || has_forbidden_token(r.subject_id@)
        || has_forbidden_token(r.crate_id@) || !all_token_free(r.notes@) {
        Some("BW-TAXONOMY-PRIVATE-TOKEN"@)
    } else if r.is_method_negative {
        Some("BW-TAXONOMY-METHOD-NEGATIVE"@)
    } else if first_run is Some && first_run->0 != r.run_id@ {
        Some("BW-TAXONOMY-RUN-MISMATCH"@)
    } else if duplicate {
        Some("BW-TAXONOMY-SUBJECT-DUPLICATE"@)
    } else {
        None
    }
}

pub open spec fn taxonomy_error_at(records: Seq<Located<V32FailureTaxonomyRecord>>, i: int) -> Option<
    Seq<char>,
> {
    taxonomy_record_error(
        records[i].value,
        if i == 0 {
            None
        } else {
            Some(records[0].value.run_id@)
        },
        exists|j: int|
            0 <= j < i && #[trigger] records[j].value.subject_id@ == records[i].value.subject_id@
                && records[j].value.subject_kind == records[i].value.subject_kind,
    )
}

/// Failure classes of the build stage.
pub open spec fn is_build_failure(c: V32FailureClass) -> bool {
    c == V32FailureClass::RequiresSystemDependency || c == V32FailureClass::CargoCheckFailed || c
        == V32FailureClass::NotBuildable || c == V32FailureClass::UnsupportedTarget || c
        == V32FailureClass::Timeout || c == V32FailureClass::ToolError
}

/// The number of records that satisfy a predicate.
pub open spec fn count_where(
    records: Seq<Located<V32FailureTaxonomyRecord>>,
    p: spec_fn(V32FailureTaxonomyRecord) -> bool,
) -> nat
    decreases records.len(),
{
    if records.len() == 0 {
        0
    } else {
        count_where(records.drop_last(), p) + if p(records.last().value) {
            1nat
        } else {
            0nat
        }
    }
}

proof fn lemma_count_where_bound(
    records: Seq<Located<V32FailureTaxonomyRecord>>,
    p: spec_fn(V32FailureTaxonomyRecord) -> bool,
)
    ensures
        count_where(records, p) <= records.len(),
    decreases records.len(),
{
    if records.len() > 0 {
        lemma_count_where_bound(records.drop_last(), p);
    }
}

pub open spec fn infra_pred() -> spec_fn(V32FailureTaxonomyRecord) -> bool {
    |r: V32FailureTaxonomyRecord| r.is_infrastructure_failure
}

pub open spec fn build_pred() -> spec_fn(V32FailureTaxonomyRecord) -> bool {
    |r: V32FailureTaxonomyRecord| is_build_failure(r.failure_class)
}

pub open spec fn no_boundary_pred() -> spec_fn(V32FailureTaxonomyRecord) -> bool {
    |r: V32FailureTaxonomyRecord| r.failure_class == V32FailureClass::NoSupportedBoundaryPattern
}

pub open spec fn deferred_pred() -> spec_fn(V32FailureTaxonomyRecord) -> bool {
    |r: V32FailureTaxonomyRecord| r.failure_class == V32FailureClass::DeferredStaticOnly
}

fn check_taxonomy_record(
    located: &Located<V32FailureTaxonomyRecord>,
    first_run: &Option<String>,
    duplicate: bool,
) -> (r: Result<(), ModelError>)
    ensures
        match taxonomy_record_error(
            located.value,
            match first_run {
                Some(s) => Some(s@),
                None => None,
            },
            duplicate,
        ) {
            None => r is Ok,
            Some(code) => r matches Err(e) && is_error_at(e, *located, code),
        },
{
    let record = &located.value;
    let req = "BW-TAXONOMY-REQUIRED-EMPTY";
    let tok = "BW-TAXONOMY-PRIVATE-TOKEN";
    check_required(located, req, "run_id", record.run_id.as_str())?;
    check_required(located, req, "subject_id", record.subject_id.as_str())?;
    check_required(located, req, "crate_id", record.crate_id.as_str())?;
    check_tokens(located, tok, "run_id", record.run_id.as_str())?;
    check_tokens(located, tok, "subject_id", record.subject_id.as_str())?;
    check_tokens(located, tok, "crate_id", record.crate_id.as_str())?;
    check_tokens_all(located, tok, "notes", &record.notes)?;
    require(
        located,
        !record.is_method_negative,
        "BW-TAXONOMY-METHOD-NEGATIVE",
        "当前 pilot failure taxonomy 禁止把未完成样本标记为 is_method_negative=true",
    )?;
    if let Some(expected) = first_run {
        require(
            located,
            *expected == record.run_id,
            "BW-TAXONOMY-RUN-MISMATCH",
            "同一 failure taxonomy 文件出现不同的 run_id",
        )?;
    }
    require(located, !duplicate, "BW-TAXONOMY-SUBJECT-DUPLICATE", "subject 重复")
}

fn subject_seen(
    seen: &Vec<(V32TaxonomySubjectKind, String)>,
    kind: V32TaxonomySubjectKind,
    id: &String,
) -> (b: bool)
    ensures
        b == exists|k: int| 0 <= k < seen@.len() && (#[trigger] seen@[k]).0 == kind && seen@[k].1@ == id@,
{
    let mut i: usize = 0;
    while i < seen.len()
        invariant
            0 <= i <= seen@.len(),
            forall|k: int| 0 <= k < i ==> !((#[trigger] seen@[k]).0 == kind && seen@[k].1@ == id@),
        decreases seen.len() - i,
    {
        if seen[i].0 == kind && seen[i].1 == *id {
            return true;
        }
        i = i + 1;
    }
    false
}

/// Validates a failure taxonomy: every record is checked in order and the first failure is
/// reported at its record; on success the counts of all records and of infrastructure,
/// method-negative, build, no-boundary and deferred records.
pub fn validate_v3_2_failure_taxonomy(records: Vec<Located<V32FailureTaxonomyRecord>>) -> (r:
    Result<V32FailureTaxonomySummary, ModelError>)
    ensures
        match r {
            Ok(summary) => {
                &&& forall|i: int| 0 <= i < records@.len() ==> taxonomy_error_at(records@, i) is None
                &&& summary.record_count == records@.len()
                &&& summary.infrastructure_failure_count == count_where(records@, infra_pred())
                &&& summary.method_negative_count == 0
                &&& summary.build_failure_count == count_where(records@, build_pred())
                &&& summary.no_boundary_count == count_where(records@, no_boundary_pred())
                &&& summary.deferred_count == count_where(records@, deferred_pred())
            },
            Err(e) => exists|i: int|
                0 <= i < records@.len() && (forall|j: int| 0 <= j < i ==> taxonomy_error_at(records@, j) is None)
                    && (#[trigger] taxonomy_error_at(records@, i)) is Some && is_error_at(
                    e,
                    records@[i],
                    taxonomy_error_at(records@, i)->0,
                ),
        },
{
    let mut summary = V32FailureTaxonomySummary {
        record_count: 0,
        infrastructure_failure_count: 0,
        method_negative_count: 0,
        build_failure_count: 0,
        no_boundary_count: 0,
        deferred_count: 0,
    };
    let mut run_id: Option<String> = None;
    let mut seen: Vec<(V32TaxonomySubjectKind, String)> = Vec::new();
    let mut i: usize = 0;
    while i < records.len()
        invariant
            0 <= i <= records@.len(),
            forall|j: int| 0 <= j < i ==> taxonomy_error_at(records@, j) is None,
            seen@.len() == i,
            forall|k: int|
                0 <= k < i ==> (#[trigger] seen@[k]).1@ == records@[k].value.subject_id@ && seen@[k].0
                    == records@[k].value.subject_kind,
            i == 0 ==> run_id is None,
            i > 0 ==> (run_id is Some && run_id->0@ == records@[0].value.run_id@),
            summary.record_count == i,
            summary.method_negative_count == 0,
            summary.infrastructure_failure_count == count_where(records@.take(i as int), infra_pred()),
            summary.build_failure_count == count_where(records@.take(i as int), build_pred()),
            summary.no_boundary_count == count_where(records@.take(i as int), no_boundary_pred()),
            summary.deferred_count == count_where(records@.take(i as int), deferred_pred()),
        decreases records.len() - i,
    {
        let located = &records[i];
        let duplicate = subject_seen(&seen, located.value.subject_kind, &located.value.subject_id);
        assert(duplicate == exists|j: int|
            0 <= j < i && #[trigger] records@[j].value.subject_id@ == records@[i as int].value.subject_id@
                && records@[j].value.subject_kind == records@[i as int].value.subject_kind) by {
            if duplicate {
                let k = choose|k: int| 0 <= k < seen@.len() && (#[trigger] seen@[k]).0 == located.value.subject_kind && seen@[k].1@ == located.value.subject_id@;
                assert(records@[k].value.subject_id@ == records@[i as int].value.subject_id@);
            }
            if exists|j: int| 0 <= j < i && #[trigger] records@[j].value.subject_id@ == records@[i as int].value.subject_id@
                && records@[j].value.subject_kind == records@[i as int].value.subject_kind {
                let j = choose|j: int| 0 <= j < i && #[trigger] records@[j].value.subject_id@ == records@[i as int].value.subject_id@
                    && records@[j].value.subject_kind == records@[i as int].value.subject_kind;
                assert(seen@[j].1@ == records@[j].value.subject_id@);
            }
        }
        match check_taxonomy_record(located, &run_id, duplicate) {
            Ok(()) => {},
            Err(e) => {
                assert(taxonomy_error_at(records@, i as int) is Some);
                return Err(e);
            },
        }
        let ghost prefix = records@.take(i as int);
        assert(records@.take(i + 1).drop_last() =~= prefix);
        proof {
            lemma_count_where_bound(prefix, infra_pred());
            lemma_count_where_bound(prefix, build_pred());
            lemma_count_where_bound(prefix, no_boundary_pred());
            lemma_count_where_bound(prefix, deferred_pred());
        }
        if i == 0 {
            run_id = Some(located.value.run_id.clone());
        }
        seen.push((located.value.subject_kind, located.value.subject_id.clone()));
        if located.value.is_infrastructure_failure {
            summary.infrastructure_failure_count = summary.infrastructure_failure_count + 1;
        }
        match located.value.failure_class {
            V32FailureClass::RequiresSystemDependency | V32FailureClass::CargoCheckFailed
            | V32FailureClass::NotBuildable | V32FailureClass::UnsupportedTarget
            | V32FailureClass::Timeout | V32FailureClass::ToolError => {
                summary.build_failure_count = summary.build_failure_count + 1;
            },
            V32FailureClass::NoSupportedBoundaryPattern => {
                summary.no_boundary_count = summary.no_boundary_count + 1;
            },
            V32FailureClass::DeferredStaticOnly => {
                summary.deferred_count = summary.deferred_count + 1;
            },
            _ => {},
        }
        summary.record_count = summary.record_count + 1;
        i = i + 1;
    }
    assert(records@.take(records@.len() as int) =~= records@);
    Ok(summary)
}

/// The name of a failure class as records write it.
pub open spec fn failure_class_name(c: V32FailureClass) -> Seq<char> {
    match c {
        V32FailureClass::RequiresSystemDependency => "requires_system_dependency"@,
        V32FailureClass::CargoCheckFailed => "cargo_check_failed"@,
        V32FailureClass::NotBuildable => "not_buildable"@,
        V32FailureClass::UnsupportedTarget => "unsupported_target"@,
        V32FailureClass::Timeout => "timeout"@,
        V32FailureClass::ToolError => "tool_error"@,
        V32FailureClass::NoSupportedBoundaryPattern => "no_supported_boundary_pattern"@,
        V32FailureClass::DeferredStaticOnly => "deferred_static_only"@,
        V32FailureClass::AnalyzerUnsupported => "analyzer_unsupported"@,
        V32FailureClass::InsufficientEvidence => "insufficient_evidence"@,
        V32FailureClass::IntegrityFailure => "integrity_failure"@,
    }
}

/// The classes a build record may name for its failure.
pub open spec fn is_build_class(c: V32FailureClass) -> bool {
    c == V32FailureClass::RequiresSystemDependency || c == V32FailureClass::CargoCheckFailed || c
        == V32FailureClass::NotBuildable || c == V32FailureClass::UnsupportedTarget || c == V32FailureClass::Timeout
        || c == V32FailureClass::ToolError
}

/// A failed build is classed by what it records: a recorded failure class that names a build
/// class is kept as that very class (its name is the recorded text), an infrastructure failure
/// unless the crate itself failed (`cargo_check_failed`, `not_buildable`); with no recorded class,
/// the build is classed by its status under the same name as the status, so that a build that
/// needs a system dependency is an infrastructure failure of class
/// `requires_system_dependency`, and a build that is not buildable is no infrastructure failure.
pub proof fn law_build_failures_keep_their_recorded_class(run: Seq<char>, b: V32BuildabilityRecord, k: V32FailureClass)
    requires
        b.status != V32BuildabilityStatus::Buildable,
    ensures
        is_build_class(k) && b.failure_class is Some && b.failure_class->0@ == failure_class_name(k)
            ==> build_view(run, b).failure_class == k && build_view(run, b).is_infrastructure_failure == (k
            != V32FailureClass::CargoCheckFailed && k != V32FailureClass::NotBuildable),
        b.failure_class is None ==> failure_class_name(build_view(run, b).failure_class) == spec_status_slug(b.status),
        b.failure_class is None && b.status == V32BuildabilityStatus::RequiresSystemDependency ==> build_view(
            run,
            b,
        ).is_infrastructure_failure && build_view(run, b).failure_class == V32FailureClass::RequiresSystemDependency,
        b.failure_class is None && b.status == V32BuildabilityStatus::NotBuildable ==> !build_view(
            run,
            b,
        ).is_infrastructure_failure,
{
    reveal_strlit("requires_system_dependency");
    reveal_strlit("cargo_check_failed");
    reveal_strlit("not_buildable");
    reveal_strlit("unsupported_target");
    reveal_strlit("timeout");
    reveal_strlit("tool_error");
    reveal_strlit("buildable");
    if is_build_class(k) && b.failure_class is Some && b.failure_class->0@ == failure_class_name(k) {
        let t = b.failure_class->0@;
        assert(t.len() == failure_class_name(k).len());
        if k != V32FailureClass::RequiresSystemDependency {
            assert(t != "requires_system_dependency"@) by {
                if t.len() == 26 {
                    assert(false);
                }
            }
        }
        if k != V32FailureClass::CargoCheckFailed {
            assert(t != "cargo_check_failed"@) by {
                if k == V32FailureClass::UnsupportedTarget {
                    assert(t[0] != "cargo_check_failed"@[0]);
                }
            }
        }
        if k != V32FailureClass::UnsupportedTarget {
            assert(t != "unsupported_target"@) by {
                if k == V32FailureClass::CargoCheckFailed {
                    assert(t[0] != "unsupported_target"@[0]);
                }
            }
        }
    }
}

} // verus!
