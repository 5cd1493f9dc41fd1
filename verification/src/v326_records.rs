//! Validation of V3.2.6 lifecycle coverage, contracts, witness plans, facts and evidence.

use vstd::prelude::*;

use crate::checks::{check_required, require};
use crate::error::{is_error_at, Located, ModelError};
use crate::lifecycle_v326::{
    V326CoverageGap, V326LifecycleCoverageRecord, V326LifecycleCoverageSummary, };
use crate::record_checks::{
    all_records_valid, first_error_upto, lemma_first_error_stable, reports_first_error, validate_records,
    ValidatedRecord,
};
use crate::static_fact::present;
use crate::text::{chars_of, char_is_white_space, is_white_space, skip_chars, starts_with, trim_text, trimmed};
use crate::v326_checks::{
    check_public_list, check_v326_tokens, has_v326_token, public_list_clean,
};

verus! {

/// The parts of a text between occurrences of a separator, as `str::split` yields them.
pub open spec fn split_on(s: Seq<char>, sep: char) -> Seq<Seq<char>>
    decreases s.len(),
{
    if s.len() == 0 {
        seq![Seq::empty()]
    } else {
        let prev = split_on(s.drop_last(), sep);
        if s.last() == sep {
            prev.push(Seq::empty())
        } else {
            prev.update(prev.len() - 1, prev.last().push(s.last()))
        }
    }
}

proof fn lemma_split_on_nonempty(s: Seq<char>, sep: char)
    ensures
        split_on(s, sep).len() >= 1,
    decreases s.len(),
{
    if s.len() > 0 {
        lemma_split_on_nonempty(s.drop_last(), sep);
    }
}

/// At least three parts between colons, none of them empty.
pub open spec fn colon_parts_ok(s: Seq<char>) -> bool {
    let ps = split_on(s, ':');
    ps.len() >= 3 && forall|i: int| 0 <= i < ps.len() ==> (#[trigger] ps[i]).len() > 0
}

fn check_colon_parts(s: &str) -> (b: bool)
    ensures
        b == colon_parts_ok(s@),
{
    let cs = chars_of(s);
    let mut seps: usize = 0;
    let mut done_ok = true;
    let mut cur_len: usize = 0;
    let mut i: usize = 0;
    assert(s@.take(0) =~= Seq::<char>::empty());
    while i < cs.len()
        invariant
            cs@ == s@,
            0 <= i <= cs.len(),
            seps <= i,
            cur_len <= i,
            split_on(s@.take(i as int), ':').len() == seps + 1,
            done_ok == forall|k: int| 0 <= k < seps ==> (#[trigger] split_on(s@.take(i as int), ':')[k]).len() > 0,
            cur_len == split_on(s@.take(i as int), ':').last().len(),
        decreases cs.len() - i,
    {
        let ghost t = s@.take(i as int);
        let ghost t1 = s@.take(i + 1);
        proof {
            assert(t1.drop_last() =~= t);
            lemma_split_on_nonempty(t, ':');
        }
        let ghost a = split_on(t, ':');
        if cs[i] == ':' {
            assert(split_on(t1, ':') == a.push(Seq::empty()));
            assert(forall|k: int| 0 <= k < seps ==> split_on(t1, ':')[k] == a[k]);
            assert(split_on(t1, ':')[seps as int] == a.last());
            done_ok = done_ok && cur_len > 0;
            seps = seps + 1;
            cur_len = 0;
        } else {
            assert(split_on(t1, ':') == a.update(a.len() - 1, a.last().push(cs[i as int])));
            assert(forall|k: int| 0 <= k < seps ==> split_on(t1, ':')[k] == a[k]);
            cur_len = cur_len + 1;
        }
        i = i + 1;
    }
    assert(s@.take(cs.len() as int) =~= s@);
    let ok = seps >= 2 && done_ok && cur_len > 0;
    proof {
        let ps = split_on(s@, ':');
        if ok {
            assert forall|k: int| 0 <= k < ps.len() implies (#[trigger] ps[k]).len() > 0 by {
                if k < seps {
                } else {
                    assert(ps[k] == ps.last());
                }
            }
        } else if seps >= 2 {
            if !done_ok {
                let k = choose|k: int| 0 <= k < seps && !((#[trigger] ps[k]).len() > 0);
                assert(ps[k].len() == 0);
            } else {
                assert(ps[ps.len() - 1].len() == 0);
            }
        }
    }
    ok
}

pub open spec fn has_double_colon(s: Seq<char>) -> bool {
    exists|i: int| 0 <= i && i + 1 < s.len() && #[trigger] s[i] == ':' && s[i + 1] == ':'
}

pub open spec fn has_char(s: Seq<char>, c: char) -> bool {
    exists|i: int| 0 <= i < s.len() && #[trigger] s[i] == c
}

pub open spec fn has_white_space(s: Seq<char>) -> bool {
    exists|i: int| 0 <= i < s.len() && is_white_space(#[trigger] s[i])
}

/// An API map id: `api:` followed by at least three non-empty colon-separated parts.
pub open spec fn is_api_map_id(t: Seq<char>) -> bool {
    let p = "api:"@;
    p.len() <= t.len() && t.take(p.len() as int) == p && colon_parts_ok(t.skip(p.len() as int))
}

/// An exact lifecycle API id: once trimmed, a non-empty Rust path or API map id without
/// wildcards or inner white space.
pub open spec fn is_exact_lifecycle_api_id(v: Seq<char>) -> bool {
    let t = trimmed(v);
    &&& t.len() > 0
    &&& (has_double_colon(t) || is_api_map_id(t))
    &&& !has_char(t, '*')
    &&& !has_white_space(t)
}

pub fn exact_lifecycle_api_id(value: &str) -> (b: bool)
    ensures
        b == is_exact_lifecycle_api_id(value@),
{
    let t = trim_text(value);
    let cs = chars_of(t.as_str());
    let mut double_colon = false;
    let mut star = false;
    let mut space = false;
    let mut i: usize = 0;
    while i < cs.len()
        invariant
            cs@ == t@,
            0 <= i <= cs.len(),
            double_colon == exists|k: int| 0 <= k < i && k + 1 < cs@.len() && #[trigger] cs@[k] == ':' && cs@[k + 1] == ':',
            star == exists|k: int| 0 <= k < i && #[trigger] cs@[k] == '*',
            space == exists|k: int| 0 <= k < i && is_white_space(#[trigger] cs@[k]),
        decreases cs.len() - i,
    {
        if i + 1 < cs.len() && cs[i] == ':' && cs[i + 1] == ':' {
            double_colon = true;
        }
        if cs[i] == '*' {
            star = true;
        }
        if char_is_white_space(cs[i]) {
            space = true;
        }
        i = i + 1;
    }
    let prefix = "api:";
    let api_form = if starts_with(t.as_str(), prefix) {
        let rest = skip_chars(t.as_str(), prefix.unicode_len());
        check_colon_parts(rest.as_str())
    } else {
        false
    };
    cs.len() > 0 && (double_colon || api_form) && !star && !space
}

} // verus!

verus! {

pub open spec fn gap_error(g: V326CoverageGap) -> Option<Seq<char>> {
    if !present(g.path@) {
        Some("BW-V326-COVERAGE-GAP-PATH"@)
    } else if has_v326_token(g.path@) || !public_list_clean(g.notes@) {
        Some("BW-V326-COVERAGE-PRIVATE-TOKEN"@)
    } else {
        None
    }
}

pub open spec fn gap_checks(gaps: Seq<V326CoverageGap>) -> spec_fn(int) -> Option<Seq<char>> {
    |i: int| gap_error(gaps[i])
}

fn check_gaps(located: &Located<V326LifecycleCoverageRecord>, gaps: &Vec<V326CoverageGap>) -> (r: Result<
    (),
    ModelError,
>)
    ensures
        match first_error_upto(gap_checks(gaps@), gaps@.len() as int) {
            None => r is Ok,
            Some(code) => r matches Err(e) && is_error_at(e, *located, code),
        },
{
    let ghost f = gap_checks(gaps@);
    let mut i: usize = 0;
    while i < gaps.len()
        invariant
            0 <= i <= gaps@.len(),
            f == gap_checks(gaps@),
            first_error_upto(f, i as int) is None,
        decreases gaps.len() - i,
    {
        proof {
            if f(i as int) is Some {
                lemma_first_error_stable(f, i + 1, gaps@.len() as int);
            }
        }
        let g = &gaps[i];
        check_required(located, "BW-V326-COVERAGE-GAP-PATH", "unavailable_paths.path", g.path.as_str())?;
        check_v326_tokens(located, "BW-V326-COVERAGE-PRIVATE-TOKEN", "unavailable_paths.path", g.path.as_str())?;
        check_public_list(located, "BW-V326-COVERAGE-PRIVATE-TOKEN", "unavailable_paths.notes", &g.notes)?;
        i = i + 1;
    }
    Ok(())
}

impl ValidatedRecord for V326LifecycleCoverageRecord {
    open spec fn unique_key(&self) -> Seq<char> {
        self.candidate_id@
    }

    open spec fn run_view(&self) -> Seq<char> {
        self.run_id@
    }

    open spec fn record_error(&self, first_run: Option<Seq<char>>, duplicate: bool) -> Option<Seq<char>> {
        if !present(self.run_id@) || !present(self.candidate_id@) || !present(self.crate_id@) {
            Some("BW-V326-COVERAGE-REQUIRED-EMPTY"@)
        } else if has_v326_token(self.run_id@) || has_v326_token(self.candidate_id@) || has_v326_token(
            self.crate_id@,
        ) || !public_list_clean(self.covered_function_bodies@) || !public_list_clean(
            self.covered_trait_impls@,
        ) || !public_list_clean(self.covered_drop_impls@) || !public_list_clean(self.fact_refs@)
            || !public_list_clean(self.notes@) {
            Some("BW-V326-COVERAGE-PRIVATE-TOKEN"@)
        } else if first_error_upto(gap_checks(self.unavailable_paths@), self.unavailable_paths@.len() as int) is Some {
            first_error_upto(gap_checks(self.unavailable_paths@), self.unavailable_paths@.len() as int)
        } else if duplicate {
            Some("BW-V326-COVERAGE-CANDIDATE-DUPLICATE"@)
        } else {
            None
        }
    }

    fn key_text(&self) -> (k: &String) {
        &self.candidate_id
    }

    fn run_text(&self) -> (k: &String) {
        &self.run_id
    }

    fn check_record(located: &Located<Self>, first_run: &Option<String>, duplicate: bool) -> (r: Result<
        (),
        ModelError,
    >) {
        let c = &located.value;
        let req = "BW-V326-COVERAGE-REQUIRED-EMPTY";
        let tok = "BW-V326-COVERAGE-PRIVATE-TOKEN";
        check_required(located, req, "run_id", c.run_id.as_str())?;
        check_required(located, req, "candidate_id", c.candidate_id.as_str())?;
        check_required(located, req, "crate_id", c.crate_id.as_str())?;
        check_v326_tokens(located, tok, "run_id", c.run_id.as_str())?;
        check_v326_tokens(located, tok, "candidate_id", c.candidate_id.as_str())?;
        check_v326_tokens(located, tok, "crate_id", c.crate_id.as_str())?;
        check_public_list(located, tok, "covered_function_bodies", &c.covered_function_bodies)?;
        check_public_list(located, tok, "covered_trait_impls", &c.covered_trait_impls)?;
        check_public_list(located, tok, "covered_drop_impls", &c.covered_drop_impls)?;
        check_public_list(located, tok, "fact_refs", &c.fact_refs)?;
        check_public_list(located, tok, "notes", &c.notes)?;
        check_gaps(located, &c.unavailable_paths)?;
        require(located, !duplicate, "BW-V326-COVERAGE-CANDIDATE-DUPLICATE", "candidate 的 coverage 重复")
    }
}

/// The number of unavailable paths over all coverage records.
pub open spec fn total_gaps(records: Seq<Located<V326LifecycleCoverageRecord>>) -> nat
    decreases records.len(),
{
    if records.len() == 0 {
        0
    } else {
        total_gaps(records.drop_last()) + records.last().value.unavailable_paths@.len()
    }
}

proof fn lemma_total_gaps_prefix(records: Seq<Located<V326LifecycleCoverageRecord>>, k: int)
    requires
        0 <= k <= records.len(),
    ensures
        total_gaps(records.take(k)) <= total_gaps(records),
    decreases records.len() - k,
{
    if k < records.len() {
        lemma_total_gaps_prefix(records, k + 1);
        assert(records.take(k + 1).drop_last() =~= records.take(k));
    } else {
        assert(records.take(k) =~= records);
    }
}

/// Validates lifecycle coverage records: texts and public lists, unavailable paths with a path
/// and clean notes, and one record per candidate. The first failure is reported at its record;
/// on success the number of records and of unavailable paths.
pub fn validate_v3_2_6_lifecycle_coverage(records: Vec<Located<V326LifecycleCoverageRecord>>) -> (r: Result<
    V326LifecycleCoverageSummary,
    ModelError,
>)
    requires
        total_gaps(records@) <= u64::MAX,
    ensures
        match r {
            Ok(summary) => {
                &&& all_records_valid(records@)
                &&& summary.record_count == records@.len()
                &&& summary.unavailable_path_count == total_gaps(records@)
            },
            Err(e) => reports_first_error(records@, e),
        },
{
    validate_records(&records)?;
    let mut gaps: u64 = 0;
    let mut i: usize = 0;
    while i < records.len()
        invariant
            0 <= i <= records@.len(),
            total_gaps(records@) <= u64::MAX,
            gaps == total_gaps(records@.take(i as int)),
        decreases records.len() - i,
    {
        assert(records@.take(i + 1).drop_last() =~= records@.take(i as int));
        proof {
            lemma_total_gaps_prefix(records@, i + 1);
        }
        gaps = gaps + records[i].value.unavailable_paths.len() as u64;
        i = i + 1;
    }
    assert(records@.take(records@.len() as int) =~= records@);
    Ok(V326LifecycleCoverageSummary { record_count: records.len() as u64, unavailable_path_count: gaps })
}

} // verus!
