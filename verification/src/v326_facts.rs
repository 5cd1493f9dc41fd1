//! Validation of V3.2.6 lifecycle facts and lifecycle evidence.

use vstd::prelude::*;

use crate::checks::{check_required, contains_text, require};
use crate::error::{is_error_at, Located, ModelError};
use crate::lifecycle_v326::{
    V326CoverageState, V326Details, V326EvidenceConfidence, V326LifecycleEvidenceRecord,
    V326LifecycleEvidenceSummary, V326LifecycleFactKind, V326LifecycleFactOrigin, V326LifecycleFactRecord, V326LifecycleFactSummary,
};
use crate::record_checks::{all_records_valid, reports_first_error, validate_records, ValidatedRecord};
use crate::static_fact::present;
use crate::text::starts_with;
use crate::v326_validate::{all_v326_clean, check_all_tokens};
use crate::v326_checks::{
    check_public_list, check_source_ref_tokens, check_v326_opt_tokens, check_v326_tokens, has_v326_token,
    opt_v326_clean, public_list_clean, source_ref_clean,
};

verus! {

/// The text begins with the prefix.
pub open spec fn has_prefix(s: Seq<char>, p: Seq<char>) -> bool {
    p.len() <= s.len() && s.take(p.len() as int) == p
}

/// Number of role prefixes that object ids of static-artifact facts may carry.
pub const STATIC_OBJECT_PREFIX_COUNT: usize = 18;

/// The role prefixes of object ids of static-artifact facts.
pub fn static_object_prefix(i: usize) -> (p: &'static str)
    requires
        i < STATIC_OBJECT_PREFIX_COUNT,
    ensures
        p@ == spec_static_object_prefix(i as int),
{
    match i {
        0 => "callback:",
        1 => "rust_owner:",
        2 => "returned_ref:",
        3 => "storage:",
        4 => "opaque_handle:",
        5 => "returned_borrow_order:",
        6 => "object_flow:",
        7 => "object_flow_binding:",
        8 => "object_flow_binding_member:",
        9 => "object_flow_binding_prefix:",
        10 => "object_binding_gap:",
        11 => "adapter:",
        12 => "atomic_operation:",
        13 => "atomic_ordering:",
        14 => "static_site:",
        15 => "release_endpoint:",
        16 => "foreign_owner:",
        _ => "user_data:",
    }
}

pub open spec fn spec_static_object_prefix(i: int) -> Seq<char> {
    if i == 0 {
        "callback:"@
    } else if i == 1 {
        "rust_owner:"@
    } else if i == 2 {
        "returned_ref:"@
    } else if i == 3 {
        "storage:"@
    } else if i == 4 {
        "opaque_handle:"@
    } else if i == 5 {
        "returned_borrow_order:"@
    } else if i == 6 {
        "object_flow:"@
    } else if i == 7 {
        "object_flow_binding:"@
    } else if i == 8 {
        "object_flow_binding_member:"@
    } else if i == 9 {
        "object_flow_binding_prefix:"@
    } else if i == 10 {
        "object_binding_gap:"@
    } else if i == 11 {
        "adapter:"@
    } else if i == 12 {
        "atomic_operation:"@
    } else if i == 13 {
        "atomic_ordering:"@
    } else if i == 14 {
        "static_site:"@
    } else if i == 15 {
        "release_endpoint:"@
    } else if i == 16 {
        "foreign_owner:"@
    } else {
        "user_data:"@
    }
}

/// An object id that a static-artifact fact may carry: it begins with a stable role prefix.
pub open spec fn is_static_object_id(s: Seq<char>) -> bool {
    exists|i: int| 0 <= i < STATIC_OBJECT_PREFIX_COUNT && has_prefix(s, #[trigger] spec_static_object_prefix(i))
}

fn static_object_id(s: &str) -> (b: bool)
    ensures
        b == is_static_object_id(s@),
{
    let mut i: usize = 0;
    while i < STATIC_OBJECT_PREFIX_COUNT
        invariant
            0 <= i <= STATIC_OBJECT_PREFIX_COUNT,
            forall|k: int| 0 <= k < i ==> !has_prefix(s@, #[trigger] spec_static_object_prefix(k)),
        decreases STATIC_OBJECT_PREFIX_COUNT - i,
    {
        if starts_with(s, static_object_prefix(i)) {
            return true;
        }
        i = i + 1;
    }
    false
}

/// No two texts of the list are equal.
pub open spec fn all_distinct_texts(s: Seq<String>) -> bool {
    forall|i: int, j: int| 0 <= i < j < s.len() ==> (#[trigger] s[i])@ != (#[trigger] s[j])@
}

pub fn distinct_texts(values: &Vec<String>) -> (b: bool)
    ensures
        b == all_distinct_texts(values@),
{
    let mut seen: Vec<String> = Vec::new();
    let mut i: usize = 0;
    while i < values.len()
        invariant
            0 <= i <= values@.len(),
            seen@.len() == i,
            forall|k: int| 0 <= k < i ==> (#[trigger] seen@[k])@ == values@[k]@,
            all_distinct_texts(values@.take(i as int)),
        decreases values.len() - i,
    {
        if contains_text(&seen, &values[i]) {
            let ghost k = choose|k: int| 0 <= k < seen@.len() && (#[trigger] seen@[k])@ == values@[i as int]@;
            assert(values@[k]@ == values@[i as int]@);
            return false;
        }
        assert forall|a: int, c: int| 0 <= a < c < i + 1 implies (#[trigger] values@.take(i + 1)[a])@
            != (#[trigger] values@.take(i + 1)[c])@ by {
            if c < i {
                assert(values@.take(i as int)[a] == values@[a]);
                assert(values@.take(i as int)[c] == values@[c]);
            } else {
                assert(seen@[a]@ == values@[a]@);
            }
        }
        seen.push(values[i].clone());
        i = i + 1;
    }
    assert(values@.take(values@.len() as int) =~= values@);
    true
}

/// An object id that the fact's origin does not allow: source observations use
/// `source_evidence:` ids, static artifacts the stable role prefixes.
pub open spec fn has_foreign_object_id(r: V326LifecycleFactRecord) -> bool {
    match r.provenance.origin_view() {
        V326LifecycleFactOrigin::StaticArtifact => exists|i: int|
            0 <= i < r.object_ids@.len() && !is_static_object_id(#[trigger] r.object_ids@[i]@),
        _ => exists|i: int|
            0 <= i < r.object_ids@.len() && !has_prefix(#[trigger] r.object_ids@[i]@, "source_evidence:"@),
    }
}

fn check_object_ids(located: &Located<V326LifecycleFactRecord>) -> (r: Result<(), ModelError>)
    ensures
        r is Ok <==> !has_foreign_object_id(located.value),
        r matches Err(e) ==> is_error_at(e, *located, "BW-V326-FACT-OBJECT-ID"@),
{
    let record = &located.value;
    let is_static = record.provenance.is_static_origin();
    let mut i: usize = 0;
    while i < record.object_ids.len()
        invariant
            0 <= i <= record.object_ids@.len(),
            record == located.value,
            is_static == (record.provenance.origin_view() == V326LifecycleFactOrigin::StaticArtifact),
            forall|k: int|
                0 <= k < i ==> if is_static {
                    is_static_object_id(#[trigger] record.object_ids@[k]@)
                } else {
                    has_prefix(record.object_ids@[k]@, "source_evidence:"@)
                },
        decreases record.object_ids.len() - i,
    {
        let id = record.object_ids[i].as_str();
        let ok = if is_static {
            static_object_id(id)
        } else {
            starts_with(id, "source_evidence:")
        };
        if !ok {
            return require(located, false, "BW-V326-FACT-OBJECT-ID", "object_ids 必须使用 provenance 允许的角色前缀");
        }
        i = i + 1;
    }
    Ok(())
}

impl ValidatedRecord for V326LifecycleFactRecord {
    open spec fn unique_key(&self) -> Seq<char> {
        self.fact_id@
    }

    open spec fn run_view(&self) -> Seq<char> {
        self.run_id@
    }

    open spec fn record_error(&self, first_run: Option<Seq<char>>, duplicate: bool) -> Option<Seq<char>> {
        if !present(self.run_id@) || !present(self.candidate_id@) || !present(self.crate_id@) || !present(
            self.fact_id@,
        ) || !present(self.source_ref.path@) {
            Some("BW-V326-FACT-REQUIRED-EMPTY"@)
        } else if has_v326_token(self.run_id@) || has_v326_token(self.candidate_id@) || has_v326_token(
            self.crate_id@,
        ) || has_v326_token(self.fact_id@) || !source_ref_clean(self.source_ref) || !opt_v326_clean(
            self.symbol_path,
        ) || !public_list_clean(self.object_ids@) || !public_list_clean(self.evidence_refs@)
            || !public_list_clean(self.notes@) {
            Some("BW-V326-FACT-PRIVATE-TOKEN"@)
        } else if self.provenance.error_code() is Some {
            self.provenance.error_code()
        } else if has_foreign_object_id(*self) {
            Some("BW-V326-FACT-OBJECT-ID"@)
        } else if self.fact_kind == V326LifecycleFactKind::ContractRetention {
            Some("BW-V326-FACT-CONTRACT-RETENTION"@)
        } else if self.fact_kind != V326LifecycleFactKind::TraitImpl && self.object_ids@.len() == 0 {
            Some("BW-V326-FACT-OBJECT-ID"@)
        } else if duplicate {
            Some("BW-V326-FACT-ID-DUPLICATE"@)
        } else {
            None
        }
    }

    fn key_text(&self) -> (k: &String) {
        &self.fact_id
    }

    fn run_text(&self) -> (k: &String) {
        &self.run_id
    }

    fn check_record(located: &Located<Self>, first_run: &Option<String>, duplicate: bool) -> (r: Result<
        (),
        ModelError,
    >) {
        let f = &located.value;
        let req = "BW-V326-FACT-REQUIRED-EMPTY";
        check_required(located, req, "run_id", f.run_id.as_str())?;
        check_required(located, req, "candidate_id", f.candidate_id.as_str())?;
        check_required(located, req, "crate_id", f.crate_id.as_str())?;
        check_required(located, req, "fact_id", f.fact_id.as_str())?;
        check_required(located, req, "source_ref.path", f.source_ref.path.as_str())?;
        check_v326_tokens(located, "BW-V326-FACT-PRIVATE-TOKEN", "run_id", f.run_id.as_str())?;
        check_v326_tokens(located, "BW-V326-FACT-PRIVATE-TOKEN", "candidate_id", f.candidate_id.as_str())?;
        check_v326_tokens(located, "BW-V326-FACT-PRIVATE-TOKEN", "crate_id", f.crate_id.as_str())?;
        check_v326_tokens(located, "BW-V326-FACT-PRIVATE-TOKEN", "fact_id", f.fact_id.as_str())?;
        check_source_ref_tokens(located, "BW-V326-FACT-PRIVATE-TOKEN", &f.source_ref)?;
        check_v326_opt_tokens(located, "BW-V326-FACT-PRIVATE-TOKEN", "symbol_path", &f.symbol_path)?;
        check_public_list(located, "BW-V326-FACT-PRIVATE-TOKEN", "object_ids", &f.object_ids)?;
        check_public_list(located, "BW-V326-FACT-PRIVATE-TOKEN", "evidence_refs", &f.evidence_refs)?;
        check_public_list(located, "BW-V326-FACT-PRIVATE-TOKEN", "notes", &f.notes)?;
        f.provenance.check(located)?;
        check_object_ids(located)?;
        let retention = match f.fact_kind {
            V326LifecycleFactKind::ContractRetention => true,
            _ => false,
        };
        require(
            located,
            !retention,
            "BW-V326-FACT-CONTRACT-RETENTION",
            "contract_retention 不得作为 lifecycle fact 发布；请使用 v3.2.6.lifecycle_contract.1 与 exact API 匹配",
        )?;
        let trait_impl = match f.fact_kind {
            V326LifecycleFactKind::TraitImpl => true,
            _ => false,
        };
        require(
            located,
            trait_impl || f.object_ids.len() > 0,
            "BW-V326-FACT-OBJECT-ID",
            "object-binding fact 必须包含至少一个 lifecycle object id",
        )?;
        require(located, !duplicate, "BW-V326-FACT-ID-DUPLICATE", "fact_id 重复")
    }
}

/// The number of facts in a coverage state.
pub open spec fn count_state(records: Seq<Located<V326LifecycleFactRecord>>, state: V326CoverageState) -> nat
    decreases records.len(),
{
    if records.len() == 0 {
        0
    } else {
        count_state(records.drop_last(), state) + if records.last().value.coverage_state == state {
            1nat
        } else {
            0nat
        }
    }
}

proof fn lemma_count_state_bound(records: Seq<Located<V326LifecycleFactRecord>>, state: V326CoverageState)
    ensures
        count_state(records, state) <= records.len(),
    decreases records.len(),
{
    if records.len() > 0 {
        lemma_count_state_bound(records.drop_last(), state);
    }
}

/// Validates lifecycle facts: required texts, texts and public lists free of forbidden tokens, a
/// provenance that fits its origin, object ids with the prefixes the origin allows, no contract
/// retention facts, object ids on every object-binding fact, and unique fact ids. The first
/// failure is reported at its record; on success the number of facts in each coverage state.
pub fn validate_v3_2_6_lifecycle_facts(records: Vec<Located<V326LifecycleFactRecord>>) -> (r: Result<
    V326LifecycleFactSummary,
    ModelError,
>)
    ensures
        match r {
            Ok(summary) => {
                &&& all_records_valid(records@)
                &&& summary.record_count == records@.len()
                &&& summary.covered_count == count_state(records@, V326CoverageState::Covered)
                &&& summary.partial_count == count_state(records@, V326CoverageState::Partial)
                &&& summary.unavailable_count == count_state(records@, V326CoverageState::Unavailable)
            },
            Err(e) => reports_first_error(records@, e),
        },
{
    validate_records(&records)?;
    let mut covered: u64 = 0;
    let mut partial: u64 = 0;
    let mut unavailable: u64 = 0;
    let mut i: usize = 0;
    while i < records.len()
        invariant
            0 <= i <= records@.len(),
            covered == count_state(records@.take(i as int), V326CoverageState::Covered),
            partial == count_state(records@.take(i as int), V326CoverageState::Partial),
            unavailable == count_state(records@.take(i as int), V326CoverageState::Unavailable),
        decreases records.len() - i,
    {
        let ghost prefix = records@.take(i as int);
        assert(records@.take(i + 1).drop_last() =~= prefix);
        proof {
            lemma_count_state_bound(prefix, V326CoverageState::Covered);
            lemma_count_state_bound(prefix, V326CoverageState::Partial);
            lemma_count_state_bound(prefix, V326CoverageState::Unavailable);
        }
        match records[i].value.coverage_state {
            V326CoverageState::Covered => {
                covered = covered + 1;
            },
            V326CoverageState::Partial => {
                partial = partial + 1;
            },
            V326CoverageState::Unavailable => {
                unavailable = unavailable + 1;
            },
        }
        i = i + 1;
    }
    assert(records@.take(records@.len() as int) =~= records@);
    Ok(
        V326LifecycleFactSummary {
            record_count: records.len() as u64,
            covered_count: covered,
            partial_count: partial,
            unavailable_count: unavailable,
        },
    )
}

/// The texts of evidence details, and the keys of their objects, are free of the forbidden
/// tokens, at any depth.
pub open spec fn details_clean(d: V326Details) -> bool
    decreases d, 1int,
{
    match d {
        V326Details::Scalar => true,
        V326Details::Text(t) => !has_v326_token(t@),
        V326Details::Array(items) => {
            proof {
                assert(decreases_to!(d => d->Array_0));
                assert(decreases_to!(d->Array_0 => d->Array_0@));
            }
            items_clean(items@)
        },
        V326Details::Object(entries) => {
            proof {
                assert(decreases_to!(d => d->Object_0));
                assert(decreases_to!(d->Object_0 => d->Object_0@));
            }
            entries_clean(entries@)
        },
    }
}

/// Every item of an array of details is clean.
pub open spec fn items_clean(s: Seq<V326Details>) -> bool
    decreases s, 0int,
{
    if s.len() == 0 {
        true
    } else {
        items_clean(s.drop_last()) && details_clean(s.last())
    }
}

/// Every key of an object of details is free of the forbidden tokens and every value is clean.
pub open spec fn entries_clean(s: Seq<(String, V326Details)>) -> bool
    decreases s, 0int,
{
    if s.len() == 0 {
        true
    } else {
        proof {
            assert(decreases_to!(s => s[s.len() - 1]));
            assert(decreases_to!(s[s.len() - 1] => s[s.len() - 1].1));
        }
        entries_clean(s.drop_last()) && !has_v326_token(s.last().0@) && details_clean(s.last().1)
    }
}

fn check_details(located: &Located<V326LifecycleEvidenceRecord>, d: &V326Details) -> (r: Result<
    (),
    ModelError,
>)
    ensures
        r is Ok <==> details_clean(*d),
        r matches Err(e) ==> is_error_at(e, *located, "BW-V326-EVIDENCE-PRIVATE-TOKEN"@),
    decreases d,
{
    match d {
        V326Details::Scalar => Ok(()),
        V326Details::Text(t) => check_v326_tokens(located, "BW-V326-EVIDENCE-PRIVATE-TOKEN", "details", t.as_str()),
        V326Details::Array(items) => {
            let mut i: usize = 0;
            assert(items@.take(0) =~= Seq::<V326Details>::empty());
            while i < items.len()
                invariant
                    0 <= i <= items@.len(),
                    *d == V326Details::Array(*items),
                    items_clean(items@.take(i as int)),
                decreases items.len() - i,
            {
                proof {
                    assert(decreases_to!(*d => d->Array_0));
                    assert(decreases_to!(d->Array_0 => d->Array_0@));
                    assert(decreases_to!(d->Array_0@ => d->Array_0@[i as int]));
                }
                assert(items@.take(i + 1).drop_last() =~= items@.take(i as int));
                match check_details(located, &items[i]) {
                    Ok(()) => {},
                    Err(e) => {
                        proof {
                            if items_clean(items@) {
                                lemma_items_clean_prefix(items@, i + 1);
                            }
                        }
                        return Err(e);
                    },
                }
                i = i + 1;
            }
            assert(items@.take(items@.len() as int) =~= items@);
            Ok(())
        },
        V326Details::Object(entries) => {
            let mut i: usize = 0;
            assert(entries@.take(0) =~= Seq::<(String, V326Details)>::empty());
            while i < entries.len()
                invariant
                    0 <= i <= entries@.len(),
                    *d == V326Details::Object(*entries),
                    entries_clean(entries@.take(i as int)),
                decreases entries.len() - i,
            {
                assert(entries@.take(i + 1).drop_last() =~= entries@.take(i as int));
                match check_v326_tokens(located, "BW-V326-EVIDENCE-PRIVATE-TOKEN", "details", entries[i].0.as_str()) {
                    Ok(()) => {},
                    Err(e) => {
                        proof {
                            if entries_clean(entries@) {
                                lemma_entries_clean_prefix(entries@, i + 1);
                            }
                        }
                        return Err(e);
                    },
                }
                proof {
                    assert(decreases_to!(*d => d->Object_0));
                    assert(decreases_to!(d->Object_0 => d->Object_0@));
                    assert(decreases_to!(d->Object_0@ => d->Object_0@[i as int]));
                    assert(decreases_to!(d->Object_0@[i as int] => d->Object_0@[i as int].1));
                }
                match check_details(located, &entries[i].1) {
                    Ok(()) => {},
                    Err(e) => {
                        proof {
                            if entries_clean(entries@) {
                                lemma_entries_clean_prefix(entries@, i + 1);
                            }
                        }
                        return Err(e);
                    },
                }
                i = i + 1;
            }
            assert(entries@.take(entries@.len() as int) =~= entries@);
            Ok(())
        },
    }
}

/// A clean array has clean prefixes.
proof fn lemma_items_clean_prefix(s: Seq<V326Details>, k: int)
    requires
        0 <= k <= s.len(),
        items_clean(s),
    ensures
        items_clean(s.take(k)),
    decreases s.len() - k,
{
    if k < s.len() {
        lemma_items_clean_prefix(s, k + 1);
        assert(s.take(k + 1).drop_last() =~= s.take(k));
    } else {
        assert(s.take(k) =~= s);
    }
}

/// A clean object has clean prefixes.
proof fn lemma_entries_clean_prefix(s: Seq<(String, V326Details)>, k: int)
    requires
        0 <= k <= s.len(),
        entries_clean(s),
    ensures
        entries_clean(s.take(k)),
    decreases s.len() - k,
{
    if k < s.len() {
        lemma_entries_clean_prefix(s, k + 1);
        assert(s.take(k + 1).drop_last() =~= s.take(k));
    } else {
        assert(s.take(k) =~= s);
    }
}

impl ValidatedRecord for V326LifecycleEvidenceRecord {
    open spec fn unique_key(&self) -> Seq<char> {
        self.record_id@
    }

    open spec fn run_view(&self) -> Seq<char> {
        self.run_id@
    }

    open spec fn record_error(&self, first_run: Option<Seq<char>>, duplicate: bool) -> Option<Seq<char>> {
        if !present(self.run_id@) || !present(self.record_id@) || !present(self.crate_id@) || !present(
            self.candidate_id@,
        ) || !present(self.source_ref.path@) {
            Some("BW-V326-EVIDENCE-REQUIRED-EMPTY"@)
        } else if has_v326_token(self.run_id@) || has_v326_token(self.record_id@) || has_v326_token(
            self.crate_id@,
        ) || has_v326_token(self.candidate_id@) || !source_ref_clean(self.source_ref) || !details_clean(
            self.details,
        ) || !all_v326_clean(self.notes@) {
            Some("BW-V326-EVIDENCE-PRIVATE-TOKEN"@)
        } else if duplicate {
            Some("BW-V326-EVIDENCE-ID-DUPLICATE"@)
        } else {
            None
        }
    }

    fn key_text(&self) -> (k: &String) {
        &self.record_id
    }

    fn run_text(&self) -> (k: &String) {
        &self.run_id
    }

    fn check_record(located: &Located<Self>, first_run: &Option<String>, duplicate: bool) -> (r: Result<
        (),
        ModelError,
    >) {
        let v = &located.value;
        let req = "BW-V326-EVIDENCE-REQUIRED-EMPTY";
        check_required(located, req, "run_id", v.run_id.as_str())?;
        check_required(located, req, "record_id", v.record_id.as_str())?;
        check_required(located, req, "crate_id", v.crate_id.as_str())?;
        check_required(located, req, "candidate_id", v.candidate_id.as_str())?;
        check_required(located, req, "source_ref.path", v.source_ref.path.as_str())?;
        check_v326_tokens(located, "BW-V326-EVIDENCE-PRIVATE-TOKEN", "run_id", v.run_id.as_str())?;
        check_v326_tokens(located, "BW-V326-EVIDENCE-PRIVATE-TOKEN", "record_id", v.record_id.as_str())?;
        check_v326_tokens(located, "BW-V326-EVIDENCE-PRIVATE-TOKEN", "crate_id", v.crate_id.as_str())?;
        check_v326_tokens(located, "BW-V326-EVIDENCE-PRIVATE-TOKEN", "candidate_id", v.candidate_id.as_str())?;
        check_source_ref_tokens(located, "BW-V326-EVIDENCE-PRIVATE-TOKEN", &v.source_ref)?;
        check_details(located, &v.details)?;
        check_all_tokens(located, "BW-V326-EVIDENCE-PRIVATE-TOKEN", "notes", &v.notes)?;
        require(located, !duplicate, "BW-V326-EVIDENCE-ID-DUPLICATE", "record_id 重复")
    }
}

/// The number of evidence records with a confidence.
pub open spec fn count_confidence(
    records: Seq<Located<V326LifecycleEvidenceRecord>>,
    confidence: V326EvidenceConfidence,
) -> nat
    decreases records.len(),
{
    if records.len() == 0 {
        0
    } else {
        count_confidence(records.drop_last(), confidence) + if records.last().value.confidence == confidence {
            1nat
        } else {
            0nat
        }
    }
}

proof fn lemma_count_confidence_bound(
    records: Seq<Located<V326LifecycleEvidenceRecord>>,
    confidence: V326EvidenceConfidence,
)
    ensures
        count_confidence(records, confidence) <= records.len(),
    decreases records.len(),
{
    if records.len() > 0 {
        lemma_count_confidence_bound(records.drop_last(), confidence);
    }
}

/// Validates lifecycle evidence: required texts; texts, details at any depth and notes free of
/// the forbidden tokens; unique record ids. The first failure is reported at its record; on
/// success the number of records at each confidence.
pub fn validate_v3_2_6_lifecycle_evidence(records: Vec<Located<V326LifecycleEvidenceRecord>>) -> (r: Result<
    V326LifecycleEvidenceSummary,
    ModelError,
>)
    ensures
        match r {
            Ok(summary) => {
                &&& all_records_valid(records@)
                &&& summary.record_count == records@.len()
                &&& summary.high_confidence_count == count_confidence(records@, V326EvidenceConfidence::High)
                &&& summary.medium_confidence_count == count_confidence(records@, V326EvidenceConfidence::Medium)
                &&& summary.low_confidence_count == count_confidence(records@, V326EvidenceConfidence::Low)
            },
            Err(e) => reports_first_error(records@, e),
        },
{
    validate_records(&records)?;
    let mut high: u64 = 0;
    let mut medium: u64 = 0;
    let mut low: u64 = 0;
    let mut i: usize = 0;
    while i < records.len()
        invariant
            0 <= i <= records@.len(),
            high == count_confidence(records@.take(i as int), V326EvidenceConfidence::High),
            medium == count_confidence(records@.take(i as int), V326EvidenceConfidence::Medium),
            low == count_confidence(records@.take(i as int), V326EvidenceConfidence::Low),
        decreases records.len() - i,
    {
        let ghost prefix = records@.take(i as int);
        assert(records@.take(i + 1).drop_last() =~= prefix);
        proof {
            lemma_count_confidence_bound(prefix, V326EvidenceConfidence::High);
            lemma_count_confidence_bound(prefix, V326EvidenceConfidence::Medium);
            lemma_count_confidence_bound(prefix, V326EvidenceConfidence::Low);
        }
        match records[i].value.confidence {
            V326EvidenceConfidence::High => {
                high = high + 1;
            },
            V326EvidenceConfidence::Medium => {
                medium = medium + 1;
            },
            V326EvidenceConfidence::Low => {
                low = low + 1;
            },
        }
        i = i + 1;
    }
    assert(records@.take(records@.len() as int) =~= records@);
    Ok(
        V326LifecycleEvidenceSummary {
            record_count: records.len() as u64,
            high_confidence_count: high,
            medium_confidence_count: medium,
            low_confidence_count: low,
        },
    )
}

} // verus!
