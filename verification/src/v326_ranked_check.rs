//! Validation of V3.2.6 ranked candidates.

use vstd::prelude::*;

use crate::checks::{check_required, contains_text, is_relative_ref, relative_ref, require};
use crate::error::{is_error_at, Located, ModelError};
use crate::lifecycle_v326::{V326RankedCandidateRecord, V326RankedCandidateSummary, V326RankedChainSummary};
use crate::record_checks::{first_error_upto, lemma_first_error_stable};
use crate::static_fact::present;
use crate::text::owned;
use crate::v326_checks::{check_public_list, check_v326_tokens, has_v326_token, public_list_clean};
use crate::v326_scoring::{breakdown_fits, recompute_score, spec_score};

verus! {

/// The error of one entry of the feature evidence: a blank or tainted feature name, or a tainted
/// list of references.
pub open spec fn evidence_entry_error(entry: (String, Vec<String>)) -> Option<Seq<char>> {
    if !present(entry.0@) {
        Some("BW-V326-RANK-REQUIRED-EMPTY"@)
    } else if has_v326_token(entry.0@) || !public_list_clean(entry.1@) {
        Some("BW-V326-RANK-PRIVATE-TOKEN"@)
    } else {
        None
    }
}

pub open spec fn evidence_entry_checks(entries: Seq<(String, Vec<String>)>) -> spec_fn(int) -> Option<Seq<char>> {
    |i: int| evidence_entry_error(entries[i])
}

/// The error of a chain summary: a top chain id and status that are not both present or both
/// absent, a blank or tainted top chain id, or tainted lists.
pub open spec fn chain_summary_error(c: V326RankedChainSummary) -> Option<Seq<char>> {
    if c.top_chain_id is Some && c.top_chain_status is Some && !present(c.top_chain_id->0@) {
        Some("BW-V326-RANK-REQUIRED-EMPTY"@)
    } else if c.top_chain_id is Some && c.top_chain_status is Some && has_v326_token(c.top_chain_id->0@) {
        Some("BW-V326-RANK-PRIVATE-TOKEN"@)
    } else if (c.top_chain_id is Some) != (c.top_chain_status is Some) {
        Some("BW-V326-RANK-CHAIN-SUMMARY"@)
    } else if !public_list_clean(c.chain_fact_refs@) || !public_list_clean(c.chain_incomplete_reasons@) {
        Some("BW-V326-RANK-PRIVATE-TOKEN"@)
    } else {
        None
    }
}

/// The error code of one ranked candidate, given the run id fixed by the first record and
/// whether its rank and its candidate id already occurred.
pub open spec fn ranked_v326_error(
    r: V326RankedCandidateRecord,
    first_run: Option<Seq<char>>,
    rank_duplicate: bool,
    candidate_duplicate: bool,
) -> Option<Seq<char>> {
    let entries = r.feature_evidence_refs@;
    if !present(r.run_id@) || !present(r.candidate_id@) || !present(r.crate_id@) || !present(
        r.lifecycle_graph_path@,
    ) || !present(r.ranking_reason@) {
        Some("BW-V326-RANK-REQUIRED-EMPTY"@)
    } else if has_v326_token(r.run_id@) || has_v326_token(r.candidate_id@) || has_v326_token(r.crate_id@)
        || has_v326_token(r.lifecycle_graph_path@) || has_v326_token(r.ranking_reason@) {
        Some("BW-V326-RANK-PRIVATE-TOKEN"@)
    } else if !is_relative_ref(r.lifecycle_graph_path@) {
        Some("BW-V326-RANK-PATH"@)
    } else if !public_list_clean(r.risk_features@) || !public_list_clean(r.protective_features@)
        || !public_list_clean(r.missing_evidence@) || !public_list_clean(r.notes@) {
        Some("BW-V326-RANK-PRIVATE-TOKEN"@)
    } else if first_error_upto(evidence_entry_checks(entries), entries.len() as int) is Some {
        first_error_upto(evidence_entry_checks(entries), entries.len() as int)
    } else if chain_summary_error(r.chain_summary) is Some {
        chain_summary_error(r.chain_summary)
    } else if r.rank == 0 {
        Some("BW-V326-RANK-ZERO"@)
    } else if rank_duplicate {
        Some("BW-V326-RANK-DUPLICATE"@)
    } else if candidate_duplicate {
        Some("BW-V326-RANK-CANDIDATE-DUPLICATE"@)
    } else if first_run is Some && first_run->0 != r.run_id@ {
        Some("BW-V326-RANK-RUN-MISMATCH"@)
    } else if spec_score(r.score_breakdown) != r.score {
        Some("BW-V326-RANK-SCORE-MISMATCH"@)
    } else {
        None
    }
}

pub open spec fn ranked_v326_error_at(records: Seq<Located<V326RankedCandidateRecord>>, i: int) -> Option<
    Seq<char>,
> {
    ranked_v326_error(
        records[i].value,
        if i == 0 {
            None
        } else {
            Some(records[0].value.run_id@)
        },
        exists|j: int| 0 <= j < i && #[trigger] records[j].value.rank == records[i].value.rank,
        exists|j: int| 0 <= j < i && #[trigger] records[j].value.candidate_id@ == records[i].value.candidate_id@,
    )
}

/// The ranks of the records, in order.
pub open spec fn ranks_v326(records: Seq<Located<V326RankedCandidateRecord>>) -> Seq<int> {
    records.map_values(|l: Located<V326RankedCandidateRecord>| l.value.rank as int)
}

/// The ranks are exactly 1, 2, ..., up to the number of records.
pub open spec fn ranks_v326_form_sequence(records: Seq<Located<V326RankedCandidateRecord>>) -> bool {
    forall|k: int| (1 <= k <= records.len()) <==> #[trigger] ranks_v326(records).contains(k)
}

/// The highest score of the records, or zero.
pub open spec fn max_v326_score(records: Seq<Located<V326RankedCandidateRecord>>) -> u32
    decreases records.len(),
{
    if records.len() == 0 {
        0
    } else {
        let m = max_v326_score(records.drop_last());
        if records.last().value.score > m {
            records.last().value.score
        } else {
            m
        }
    }
}

/// Distinct ranks from one, as many as there are, are exactly 1 to their number when none
/// exceeds that number.
pub proof fn lemma_distinct_ranks_sequence(ranks: Seq<int>)
    requires
        ranks.no_duplicates(),
        forall|i: int| 0 <= i < ranks.len() ==> 1 <= #[trigger] ranks[i],
    ensures
        (forall|k: int| (1 <= k <= ranks.len()) <==> #[trigger] ranks.contains(k)) <==> forall|i: int|
            0 <= i < ranks.len() ==> #[trigger] ranks[i] <= ranks.len(),
{
    let n = ranks.len() as int;
    broadcast use vstd::seq_lib::seq_to_set_is_finite;

    if forall|i: int| 0 <= i < ranks.len() ==> #[trigger] ranks[i] <= ranks.len() {
        let range = vstd::set_lib::set_int_range(1, n + 1);
        vstd::set_lib::lemma_int_range(1, n + 1);
        ranks.unique_seq_to_set();
        assert(ranks.to_set().subset_of(range)) by {
            assert forall|k: int| ranks.to_set().contains(k) implies range.contains(k) by {
                let i = choose|i: int| 0 <= i < ranks.len() && ranks[i] == k;
                assert(ranks[i] <= ranks.len());
            }
        }
        vstd::set_lib::lemma_subset_equality(ranks.to_set(), range);
        assert forall|k: int| (1 <= k <= ranks.len()) <==> #[trigger] ranks.contains(k) by {
            assert(range.contains(k) == ranks.to_set().contains(k));
        }
    } else {
        let i = choose|i: int| 0 <= i < ranks.len() && #[trigger] ranks[i] > ranks.len();
        assert(ranks.contains(ranks[i]));
    }
}

fn check_evidence_entries(
    located: &Located<V326RankedCandidateRecord>,
    entries: &Vec<(String, Vec<String>)>,
) -> (r: Result<(), ModelError>)
    ensures
        match first_error_upto(evidence_entry_checks(entries@), entries@.len() as int) {
            None => r is Ok,
            Some(code) => r matches Err(e) && is_error_at(e, *located, code),
        },
{
    let ghost f = evidence_entry_checks(entries@);
    let mut i: usize = 0;
    while i < entries.len()
        invariant
            0 <= i <= entries@.len(),
            f == evidence_entry_checks(entries@),
            first_error_upto(f, i as int) is None,
        decreases entries.len() - i,
    {
        proof {
            if f(i as int) is Some {
                lemma_first_error_stable(f, i + 1, entries@.len() as int);
            }
        }
        check_required(located, "BW-V326-RANK-REQUIRED-EMPTY", "feature_evidence_refs.key", entries[i].0.as_str())?;
        check_v326_tokens(located, "BW-V326-RANK-PRIVATE-TOKEN", "feature_evidence_refs.key", entries[i].0.as_str())?;
        check_public_list(located, "BW-V326-RANK-PRIVATE-TOKEN", "feature_evidence_refs", &entries[i].1)?;
        i = i + 1;
    }
    Ok(())
}

fn check_chain_summary(located: &Located<V326RankedCandidateRecord>, c: &V326RankedChainSummary) -> (r: Result<
    (),
    ModelError,
>)
    ensures
        match chain_summary_error(*c) {
            None => r is Ok,
            Some(code) => r matches Err(e) && is_error_at(e, *located, code),
        },
{
    match (&c.top_chain_id, &c.top_chain_status) {
        (Some(id), Some(_)) => {
            check_required(located, "BW-V326-RANK-REQUIRED-EMPTY", "chain_summary.top_chain_id", id.as_str())?;
            check_v326_tokens(located, "BW-V326-RANK-PRIVATE-TOKEN", "chain_summary.top_chain_id", id.as_str())?;
        },
        (None, None) => {},
        _ => {
            return require(
                located,
                false,
                "BW-V326-RANK-CHAIN-SUMMARY",
                "chain_summary.top_chain_id 与 top_chain_status 必须同时存在或同时为空",
            );
        },
    }
    check_public_list(located, "BW-V326-RANK-PRIVATE-TOKEN", "chain_summary.chain_fact_refs", &c.chain_fact_refs)?;
    check_public_list(
        located,
        "BW-V326-RANK-PRIVATE-TOKEN",
        "chain_summary.chain_incomplete_reasons",
        &c.chain_incomplete_reasons,
    )
}

fn check_ranked_v326(
    located: &Located<V326RankedCandidateRecord>,
    first_run: &Option<String>,
    rank_duplicate: bool,
    candidate_duplicate: bool,
) -> (r: Result<(), ModelError>)
    requires
        breakdown_fits(located.value.score_breakdown),
    ensures
        match ranked_v326_error(
            located.value,
            match first_run {
                Some(s) => Some(s@),
                None => None,
            },
            rank_duplicate,
            candidate_duplicate,
        ) {
            None => r is Ok,
            Some(code) => r matches Err(e) && is_error_at(e, *located, code),
        },
{
    let record = &located.value;
    let req = "BW-V326-RANK-REQUIRED-EMPTY";
    check_required(located, req, "run_id", record.run_id.as_str())?;
    check_required(located, req, "candidate_id", record.candidate_id.as_str())?;
    check_required(located, req, "crate_id", record.crate_id.as_str())?;
    check_required(located, req, "lifecycle_graph_path", record.lifecycle_graph_path.as_str())?;
    check_required(located, req, "ranking_reason", record.ranking_reason.as_str())?;
    check_v326_tokens(located, "BW-V326-RANK-PRIVATE-TOKEN", "run_id", record.run_id.as_str())?;
    check_v326_tokens(located, "BW-V326-RANK-PRIVATE-TOKEN", "candidate_id", record.candidate_id.as_str())?;
    check_v326_tokens(located, "BW-V326-RANK-PRIVATE-TOKEN", "crate_id", record.crate_id.as_str())?;
    check_v326_tokens(
        located,
        "BW-V326-RANK-PRIVATE-TOKEN",
        "lifecycle_graph_path",
        record.lifecycle_graph_path.as_str(),
    )?;
    check_v326_tokens(located, "BW-V326-RANK-PRIVATE-TOKEN", "ranking_reason", record.ranking_reason.as_str())?;
    require(
        located,
        relative_ref(record.lifecycle_graph_path.as_str()),
        "BW-V326-RANK-PATH",
        "lifecycle_graph_path 必须是相对路径，不能是绝对路径或包含 ..",
    )?;
    check_public_list(located, "BW-V326-RANK-PRIVATE-TOKEN", "risk_features", &record.risk_features)?;
    check_public_list(located, "BW-V326-RANK-PRIVATE-TOKEN", "protective_features", &record.protective_features)?;
    check_public_list(located, "BW-V326-RANK-PRIVATE-TOKEN", "missing_evidence", &record.missing_evidence)?;
    check_public_list(located, "BW-V326-RANK-PRIVATE-TOKEN", "notes", &record.notes)?;
    check_evidence_entries(located, &record.feature_evidence_refs)?;
    check_chain_summary(located, &record.chain_summary)?;
    require(located, record.rank != 0, "BW-V326-RANK-ZERO", "rank 必须从 1 开始")?;
    require(located, !rank_duplicate, "BW-V326-RANK-DUPLICATE", "rank 重复")?;
    require(located, !candidate_duplicate, "BW-V326-RANK-CANDIDATE-DUPLICATE", "candidate_id 重复")?;
    if let Some(expected) = first_run {
        require(
            located,
            *expected == record.run_id,
            "BW-V326-RANK-RUN-MISMATCH",
            "同一 ranked candidates 文件出现不同的 run_id",
        )?;
    }
    require(
        located,
        recompute_score(&record.score_breakdown) == record.score,
        "BW-V326-RANK-SCORE-MISMATCH",
        "score 与 score_breakdown 计算结果不一致",
    )
}

fn contains_rank(ranks: &Vec<u32>, rank: u32) -> (b: bool)
    ensures
        b == exists|k: int| 0 <= k < ranks@.len() && ranks@[k] == rank,
{
    let mut i: usize = 0;
    while i < ranks.len()
        invariant
            0 <= i <= ranks@.len(),
            forall|k: int| 0 <= k < i ==> ranks@[k] != rank,
        decreases ranks.len() - i,
    {
        if ranks[i] == rank {
            return true;
        }
        i = i + 1;
    }
    false
}

/// Validates ranked candidates: every record is checked in order and the first failure is
/// reported at its record; then the ranks must be exactly 1 to the number of records. On
/// success the number of ranked candidates and the highest score. Scores are recomputed by
/// adding the breakdown's parts in `i32`, so every partial sum must stay in range.
pub fn validate_v3_2_6_ranked_candidates(records: Vec<Located<V326RankedCandidateRecord>>) -> (r: Result<
    V326RankedCandidateSummary,
    ModelError,
>)
    requires
        forall|i: int| 0 <= i < records@.len() ==> breakdown_fits(#[trigger] records@[i].value.score_breakdown),
    ensures
        match r {
            Ok(summary) => {
                &&& forall|i: int| 0 <= i < records@.len() ==> ranked_v326_error_at(records@, i) is None
                &&& ranks_v326_form_sequence(records@)
                &&& summary.ranked_count == records@.len()
                &&& summary.max_score == max_v326_score(records@)
            },
            Err(e) => {
                ||| exists|i: int|
                    0 <= i < records@.len() && (forall|j: int|
                        0 <= j < i ==> ranked_v326_error_at(records@, j) is None) && (#[trigger] ranked_v326_error_at(
                        records@,
                        i,
                    )) is Some && is_error_at(e, records@[i], ranked_v326_error_at(records@, i)->0)
                ||| {
                    &&& forall|i: int| 0 <= i < records@.len() ==> ranked_v326_error_at(records@, i) is None
                    &&& !ranks_v326_form_sequence(records@)
                    &&& e matches ModelError::Validation { code, .. } && code@ == "BW-V326-RANK-SEQUENCE"@
                }
            },
        },
{
    let mut max_score: u32 = 0;
    let mut run_id: Option<String> = None;
    let mut ranks: Vec<u32> = Vec::new();
    let mut seen: Vec<String> = Vec::new();
    let mut i: usize = 0;
    while i < records.len()
        invariant
            0 <= i <= records@.len(),
            forall|i: int| 0 <= i < records@.len() ==> breakdown_fits(#[trigger] records@[i].value.score_breakdown),
            forall|j: int| 0 <= j < i ==> ranked_v326_error_at(records@, j) is None,
            seen@.len() == i,
            ranks@.len() == i,
            forall|k: int| 0 <= k < i ==> (#[trigger] seen@[k])@ == records@[k].value.candidate_id@,
            forall|k: int| 0 <= k < i ==> #[trigger] ranks@[k] == records@[k].value.rank,
            i == 0 ==> run_id is None,
            i > 0 ==> (run_id is Some && run_id->0@ == records@[0].value.run_id@),
            max_score == max_v326_score(records@.take(i as int)),
        decreases records.len() - i,
    {
        let located = &records[i];
        let candidate_duplicate = contains_text(&seen, &located.value.candidate_id);
        assert(candidate_duplicate == exists|j: int|
            0 <= j < i && #[trigger] records@[j].value.candidate_id@ == records@[i as int].value.candidate_id@) by {
            if candidate_duplicate {
                let k = choose|k: int| 0 <= k < seen@.len() && (#[trigger] seen@[k])@ == located.value.candidate_id@;
                assert(records@[k].value.candidate_id@ == records@[i as int].value.candidate_id@);
            }
            if exists|j: int|
                0 <= j < i && #[trigger] records@[j].value.candidate_id@ == records@[i as int].value.candidate_id@ {
                let j = choose|j: int|
                    0 <= j < i && #[trigger] records@[j].value.candidate_id@ == records@[i as int].value.candidate_id@;
                assert(seen@[j]@ == records@[j].value.candidate_id@);
            }
        }
        let rank_duplicate = contains_rank(&ranks, located.value.rank);
        assert(rank_duplicate == exists|j: int|
            0 <= j < i && #[trigger] records@[j].value.rank == records@[i as int].value.rank) by {
            if rank_duplicate {
                let k = choose|k: int| 0 <= k < ranks@.len() && ranks@[k] == located.value.rank;
                assert(records@[k].value.rank == ranks@[k]);
            }
            if exists|j: int| 0 <= j < i && #[trigger] records@[j].value.rank == records@[i as int].value.rank {
                let j = choose|j: int| 0 <= j < i && #[trigger] records@[j].value.rank == records@[i as int].value.rank;
                assert(ranks@[j] == records@[j].value.rank);
            }
        }
        match check_ranked_v326(located, &run_id, rank_duplicate, candidate_duplicate) {
            Ok(()) => {},
            Err(e) => {
                assert(ranked_v326_error_at(records@, i as int) is Some);
                return Err(e);
            },
        }
        assert(records@.take(i + 1).drop_last() =~= records@.take(i as int));
        if i == 0 {
            run_id = Some(located.value.run_id.clone());
        }
        seen.push(located.value.candidate_id.clone());
        ranks.push(located.value.rank);
        if located.value.score > max_score {
            max_score = located.value.score;
        }
        i = i + 1;
    }
    assert(records@.take(records@.len() as int) =~= records@);
    let n = records.len();
    let mut k: usize = 0;
    let mut within = true;
    while k < n
        invariant
            0 <= k <= n,
            n == records@.len(),
            ranks@.len() == n,
            forall|q: int| 0 <= q < n ==> #[trigger] ranks@[q] == records@[q].value.rank,
            within == forall|q: int| 0 <= q < k ==> #[trigger] records@[q].value.rank <= n,
        decreases n - k,
    {
        if ranks[k] as u64 > n as u64 {
            within = false;
        }
        k = k + 1;
    }
    proof {
        let rs = ranks_v326(records@);
        assert forall|a: int, b: int| 0 <= a < rs.len() && 0 <= b < rs.len() && a != b implies rs[a] != rs[b] by {
            if a < b {
                assert(ranked_v326_error_at(records@, b) is None);
                if records@[a].value.rank == records@[b].value.rank {
                    assert(exists|j: int| 0 <= j < b && #[trigger] records@[j].value.rank == records@[b].value.rank);
                }
            } else {
                assert(ranked_v326_error_at(records@, a) is None);
                if records@[a].value.rank == records@[b].value.rank {
                    assert(exists|j: int| 0 <= j < a && #[trigger] records@[j].value.rank == records@[a].value.rank);
                }
            }
        }
        assert forall|q: int| 0 <= q < rs.len() implies 1 <= #[trigger] rs[q] by {
            assert(ranked_v326_error_at(records@, q) is None);
        }
        lemma_distinct_ranks_sequence(rs);
        if forall|q: int| 0 <= q < n ==> #[trigger] records@[q].value.rank <= n {
            assert forall|q: int| 0 <= q < rs.len() implies #[trigger] rs[q] <= rs.len() by {
                assert(rs[q] == records@[q].value.rank);
            }
        } else {
            let q = choose|q: int| 0 <= q < n && !(#[trigger] records@[q].value.rank <= n);
            assert(rs[q] == records@[q].value.rank);
        }
    }
    if n > 0 && !within {
        return Err(ModelError::validation("BW-V326-RANK-SEQUENCE", owned("rank 必须是从 1 开始的连续编号")));
    }
    Ok(V326RankedCandidateSummary { ranked_count: n as u64, max_score })
}

} // verus!
