//! Ranking of V3.2.6 lifecycle features into ranked candidates.

use vstd::prelude::*;

use crate::error::{Located, ModelError};
use crate::lifecycle_v326::{
    V326LifecycleFeatureRecord, V326RankedCandidateRecord, V326RankedChainSummary, V326WitnessRoute,
    V3_2_6_RANKED_CANDIDATE_SCHEMA_V1,
};
use crate::record_checks::ValidatedRecord;
use crate::text::{lemma_text_lt_asymmetric, lemma_text_lt_irreflexive, owned, text_less, text_lt};
use crate::v326_scoring::{
    lemma_record_breakdown_fits, protective_feature_names, ranking_reason_v2, recompute_score, risk_feature_names,
    sanitize_id_for_path, sanitized, score_breakdown_from_feature_record, spec_protective_names,
    spec_ranking_reason_v2, spec_record_breakdown, spec_risk_names, spec_score,
};

verus! {

/// A chain summary with no chain: no top chain, no counts, no references or reasons, and only
/// manual review recommended.
pub open spec fn is_empty_chain_summary(c: V326RankedChainSummary) -> bool {
    &&& c.top_chain_id is None
    &&& c.top_chain_status is None
    &&& c.verified_chain_count == 0
    &&& c.partial_chain_count == 0
    &&& c.ambiguous_chain_count == 0
    &&& c.observation_only_chain_count == 0
    &&& c.identity_transport_chain_count == 0
    &&& c.release_ordering_chain_count == 0
    &&& c.use_ordering_chain_count == 0
    &&& c.lifecycle_ordering_chain_count == 0
    &&& c.complete_risk_chain_count == 0
    &&& c.chain_fact_refs@.len() == 0
    &&& c.chain_incomplete_reasons@.len() == 0
    &&& c.recommended_witness_route == V326WitnessRoute::ManualReviewOnly
}

impl Default for V326RankedChainSummary {
    fn default() -> (c: Self)
        ensures
            is_empty_chain_summary(c),
    {
        V326RankedChainSummary {
            top_chain_id: None,
            top_chain_status: None,
            verified_chain_count: 0,
            partial_chain_count: 0,
            ambiguous_chain_count: 0,
            observation_only_chain_count: 0,
            identity_transport_chain_count: 0,
            release_ordering_chain_count: 0,
            use_ordering_chain_count: 0,
            lifecycle_ordering_chain_count: 0,
            complete_risk_chain_count: 0,
            chain_fact_refs: Vec::new(),
            chain_incomplete_reasons: Vec::new(),
            recommended_witness_route: V326WitnessRoute::ManualReviewOnly,
        }
    }
}

/// The score of a feature record.
pub open spec fn spec_feature_score(f: V326LifecycleFeatureRecord) -> u32 {
    spec_score(spec_record_breakdown(f))
}

/// The ranked candidate made from a feature record, but for its rank: the record's score and
/// breakdown, its ids, pattern, evidence and missing evidence, the names of its risk and
/// protective features, the path of its graph, an empty chain summary and the ranking reason.
pub open spec fn ranked_matches(r: V326RankedCandidateRecord, run: Seq<char>, f: V326LifecycleFeatureRecord) -> bool {
    &&& r.schema_version@ == V3_2_6_RANKED_CANDIDATE_SCHEMA_V1@
    &&& r.run_id@ == run
    &&& r.score == spec_feature_score(f)
    &&& r.score_breakdown == spec_record_breakdown(f)
    &&& r.candidate_id == f.candidate_id
    &&& r.crate_id == f.crate_id
    &&& r.pattern_family == f.pattern_family
    &&& r.risk_features@.map_values(|s: String| s@) == spec_risk_names(f.features)
    &&& r.protective_features@.map_values(|s: String| s@) == spec_protective_names(f.features)
    &&& r.feature_evidence_refs == f.feature_evidence
    &&& r.missing_evidence == f.missing_evidence
    &&& r.lifecycle_graph_path@ == "graphs/"@ + sanitized(f.candidate_id@) + ".json"@
    &&& is_empty_chain_summary(r.chain_summary)
    &&& r.ranking_reason@ == spec_ranking_reason_v2(
        spec_feature_score(f),
        spec_risk_names(f.features),
        spec_protective_names(f.features),
        f.missing_evidence@.map_values(|s: String| s@),
    )
    &&& r.notes@.map_values(|s: String| s@) == seq!["candidate ranking is not a defect conclusion"@]
}

fn ranked_from_feature(run_id: &str, feature: V326LifecycleFeatureRecord) -> (r: V326RankedCandidateRecord)
    ensures
        ranked_matches(r, run_id@, feature),
        r.rank == 0,
{
    let ghost f = feature;
    let breakdown = score_breakdown_from_feature_record(&feature);
    proof {
        lemma_record_breakdown_fits(feature);
    }
    let score = recompute_score(&breakdown);
    let risk_features = risk_feature_names(&feature.features);
    let protective_features = protective_feature_names(&feature.features);
    let ranking_reason = ranking_reason_v2(score, &risk_features, &protective_features, &feature.missing_evidence);
    let mut lifecycle_graph_path = owned("graphs/");
    lifecycle_graph_path.append(sanitize_id_for_path(feature.candidate_id.as_str()).as_str());
    lifecycle_graph_path.append(".json");
    let mut notes: Vec<String> = Vec::new();
    notes.push(owned("candidate ranking is not a defect conclusion"));
    assert(notes@.map_values(|s: String| s@) =~= seq!["candidate ranking is not a defect conclusion"@]);
    V326RankedCandidateRecord {
        schema_version: owned(V3_2_6_RANKED_CANDIDATE_SCHEMA_V1),
        run_id: owned(run_id),
        rank: 0,
        score,
        score_breakdown: breakdown,
        candidate_id: feature.candidate_id,
        crate_id: feature.crate_id,
        pattern_family: feature.pattern_family,
        risk_features,
        protective_features,
        feature_evidence_refs: feature.feature_evidence,
        missing_evidence: feature.missing_evidence,
        lifecycle_graph_path,
        chain_summary: V326RankedChainSummary::default(),
        ranking_reason,
        notes,
    }
}

/// `a` ranks strictly before `b`: a higher score, or the same score and a smaller candidate id.
pub open spec fn ranks_before(a: V326RankedCandidateRecord, b: V326RankedCandidateRecord) -> bool {
    a.score > b.score || (a.score == b.score && text_lt(a.candidate_id@, b.candidate_id@))
}

/// Two ranked candidates with the same score and the same candidate id.
pub open spec fn same_rank_key(a: V326RankedCandidateRecord, b: V326RankedCandidateRecord) -> bool {
    a.score == b.score && a.candidate_id@ == b.candidate_id@
}

proof fn lemma_ranks_before_strict(a: V326RankedCandidateRecord, b: V326RankedCandidateRecord)
    requires
        ranks_before(a, b),
    ensures
        !ranks_before(b, a),
        !same_rank_key(a, b),
{
    lemma_text_lt_asymmetric(a.candidate_id@, b.candidate_id@);
    lemma_text_lt_irreflexive(a.candidate_id@);
}

fn ranks_before_exec(a: &V326RankedCandidateRecord, b: &V326RankedCandidateRecord) -> (r: bool)
    ensures
        r == ranks_before(*a, *b),
{
    a.score > b.score || (a.score == b.score && text_less(a.candidate_id.as_str(), b.candidate_id.as_str()))
}

/// The error of a feature record checked on its own, as a ranking input.
pub open spec fn rank_input_error(f: V326LifecycleFeatureRecord) -> Option<Seq<char>> {
    f.record_error(None, false)
}

/// The error is the validation error with `code` at line 1 of `rank-input`.
pub open spec fn is_rank_input_error(e: ModelError, code: Seq<char>) -> bool {
    match e {
        ModelError::AtLine { path, line, source } => {
            &&& path@ == "rank-input"@
            &&& line == 1
            &&& match *source {
                ModelError::Validation { code: c, .. } => c@ == code,
                _ => false,
            }
        },
        _ => false,
    }
}

/// The ranked candidates are in ranking order: by score from high to low, then by candidate id;
/// equal keys keep the order of their features.
pub open spec fn in_ranking_order(r: Seq<V326RankedCandidateRecord>, origin: Seq<int>) -> bool {
    &&& forall|k: int| 0 <= k < r.len() - 1 ==> !ranks_before(#[trigger] r[k + 1], r[k])
    &&& forall|k: int|
        0 <= k < r.len() - 1 && same_rank_key(#[trigger] r[k], r[k + 1]) ==> origin[k] < origin[k + 1]
}

/// `origin` maps each position of `r` to a distinct feature among `features`, from which the
/// candidate at that position was made.
pub open spec fn made_from(
    r: Seq<V326RankedCandidateRecord>,
    origin: Seq<int>,
    run: Seq<char>,
    features: Seq<V326LifecycleFeatureRecord>,
) -> bool {
    &&& origin.len() == r.len()
    &&& forall|k: int| 0 <= k < r.len() ==> 0 <= #[trigger] origin[k] < features.len()
    &&& forall|a: int, b: int| 0 <= a < b < r.len() ==> #[trigger] origin[a] != #[trigger] origin[b]
    &&& forall|k: int| 0 <= k < r.len() ==> ranked_matches(#[trigger] r[k], run, features[origin[k]])
}

/// Ranks lifecycle features. Every feature is first checked on its own; the first that fails is
/// reported at line 1 of `rank-input`. Otherwise each feature becomes a ranked candidate; the
/// candidates are ordered by score from high to low, then by candidate id, equal keys keeping
/// the order of the features, and ranked 1, 2, ... in that order.
pub fn rank_v3_2_6_features(run_id: &str, features: Vec<V326LifecycleFeatureRecord>) -> (r: Result<
    Vec<V326RankedCandidateRecord>,
    ModelError,
>)
    requires
        features@.len() <= u32::MAX,
    ensures
        match r {
            Ok(ranked) => {
                &&& forall|i: int| 0 <= i < features@.len() ==> #[trigger] rank_input_error(features@[i]) is None
                &&& ranked@.len() == features@.len()
                &&& forall|i: int| 0 <= i < ranked@.len() ==> #[trigger] ranked@[i].rank == i + 1
                &&& exists|origin: Seq<int>|
                    made_from(ranked@, origin, run_id@, features@) && in_ranking_order(ranked@, origin)
            },
            Err(e) => exists|i: int|
                0 <= i < features@.len() && (forall|j: int| 0 <= j < i ==> rank_input_error(features@[j]) is None)
                    && #[trigger] rank_input_error(features@[i]) is Some && is_rank_input_error(
                    e,
                    rank_input_error(features@[i])->0,
                ),
        },
{
    let ghost orig = features@;
    let mut rest = features;
    let mut checked: Vec<V326LifecycleFeatureRecord> = Vec::new();
    while rest.len() > 0
        invariant
            orig == features@,
            checked@ + rest@ == orig,
            forall|j: int| 0 <= j < checked@.len() ==> #[trigger] rank_input_error(orig[j]) is None,
        decreases rest.len(),
    {
        let ghost before = rest@;
        let f = rest.remove(0);
        assert(orig[checked@.len() as int] == f) by {
            assert(orig =~= checked@ + before);
        }
        let located = Located { path: owned("rank-input"), line: 1, value: f };
        let none: Option<String> = None;
        match V326LifecycleFeatureRecord::check_record(&located, &none, false) {
            Ok(()) => {},
            Err(e) => {
                let ghost i = checked@.len() as int;
                assert(rank_input_error(orig[i]) is Some);
                assert(is_rank_input_error(e, rank_input_error(orig[i])->0));
                assert(exists|i: int|
                    0 <= i < orig.len() && (forall|j: int| 0 <= j < i ==> rank_input_error(orig[j]) is None)
                        && #[trigger] rank_input_error(orig[i]) is Some && is_rank_input_error(
                        e,
                        rank_input_error(orig[i])->0,
                    ));
                return Err(e);
            },
        }
        checked.push(located.value);
        assert(checked@ + rest@ =~= orig) by {
            assert(before =~= seq![f] + rest@);
        }
    }
    assert(checked@ =~= orig);
    let n = checked.len();
    let mut out: Vec<V326RankedCandidateRecord> = Vec::new();
    let ghost mut origin: Seq<int> = Seq::empty();
    while checked.len() > 0
        invariant
            orig == features@,
            n == orig.len(),
            checked@ == orig.take(checked@.len() as int),
            out@.len() + checked@.len() == n,
            forall|j: int| 0 <= j < n ==> #[trigger] rank_input_error(orig[j]) is None,
            made_from(out@, origin, run_id@, orig),
            forall|k: int| 0 <= k < out@.len() ==> checked@.len() <= #[trigger] origin[k],
            in_ranking_order(out@, origin),
            forall|k: int| 0 <= k < out@.len() ==> (#[trigger] out@[k]).rank == 0,
        decreases checked.len(),
    {
        let m = checked.len() - 1;
        let f = checked.pop().unwrap();
        assert(checked@ =~= orig.take(m as int));
        let x = ranked_from_feature(run_id, f);
        let mut p: usize = 0;
        while p < out.len() && ranks_before_exec(&out[p], &x)
            invariant
                0 <= p <= out@.len(),
                forall|q: int| 0 <= q < p ==> ranks_before(#[trigger] out@[q], x),
            decreases out.len() - p,
        {
            p = p + 1;
        }
        let ghost old_out = out@;
        let ghost old_origin = origin;
        out.insert(p, x);
        proof {
            origin = old_origin.insert(p as int, m as int);
            assert(out@ =~= old_out.insert(p as int, x));
            let nr = out@;
            assert forall|k: int| 0 <= k < nr.len() - 1 implies !ranks_before(#[trigger] nr[k + 1], nr[k]) by {
                if k < p as int - 1 {
                    assert(nr[k] == old_out[k] && nr[k + 1] == old_out[k + 1]);
                } else if k == p as int - 1 {
                    lemma_ranks_before_strict(old_out[k], x);
                } else if k == p as int {
                    assert(nr[k + 1] == old_out[p as int]);
                } else {
                    assert(nr[k] == old_out[k - 1] && nr[k + 1] == old_out[k]);
                }
            }
            assert forall|k: int| 0 <= k < nr.len() - 1 && same_rank_key(#[trigger] nr[k], nr[k + 1]) implies origin[k]
                < origin[k + 1] by {
                if k < p as int - 1 {
                    assert(nr[k] == old_out[k] && nr[k + 1] == old_out[k + 1]);
                } else if k == p as int - 1 {
                    lemma_ranks_before_strict(old_out[k], x);
                } else if k == p as int {
                    assert(origin[k + 1] == old_origin[k]);
                } else {
                    assert(nr[k] == old_out[k - 1] && nr[k + 1] == old_out[k]);
                }
            }
            assert forall|a: int, b: int| 0 <= a < b < nr.len() implies #[trigger] origin[a] != #[trigger] origin[b] by {
                if a != p as int && b != p as int {
                    let a0 = if a < p { a } else { a - 1 };
                    let b0 = if b < p { b } else { b - 1 };
                    assert(origin[a] == old_origin[a0] && origin[b] == old_origin[b0]);
                } else if a == p as int {
                    let b0 = b - 1;
                    assert(origin[b] == old_origin[b0]);
                } else {
                    assert(origin[a] == old_origin[a]);
                }
            }
            assert forall|k: int| 0 <= k < nr.len() implies ranked_matches(#[trigger] nr[k], run_id@, orig[origin[k]]) by {
                if k < p {
                    assert(nr[k] == old_out[k]);
                } else if k > p {
                    assert(nr[k] == old_out[k - 1]);
                }
            }
            assert forall|k: int| 0 <= k < nr.len() implies 0 <= #[trigger] origin[k] < orig.len() && m <= origin[k] by {
                if k < p {
                    assert(origin[k] == old_origin[k]);
                } else if k > p {
                    assert(origin[k] == old_origin[k - 1]);
                }
            }
            assert forall|k: int| 0 <= k < nr.len() implies (#[trigger] nr[k]).rank == 0 by {
                if k < p {
                    assert(nr[k] == old_out[k]);
                } else if k > p {
                    assert(nr[k] == old_out[k - 1]);
                }
            }
        }
    }
    let mut i: usize = 0;
    while i < out.len()
        invariant
            orig == features@,
            out@.len() == n,
            n <= u32::MAX,
            0 <= i <= n,
            made_from(out@, origin, run_id@, orig),
            in_ranking_order(out@, origin),
            forall|k: int| 0 <= k < i ==> #[trigger] out@[k].rank == k + 1,
        decreases out.len() - i,
    {
        let ghost before = out@;
        out[i].rank = (i + 1) as u32;
        proof {
            assert forall|k: int| 0 <= k < n implies ranked_matches(#[trigger] out@[k], run_id@, orig[origin[k]]) by {
                assert(ranked_matches(before[k], run_id@, orig[origin[k]]));
            }
            assert forall|k: int| 0 <= k < n - 1 implies !ranks_before(#[trigger] out@[k + 1], out@[k]) by {
                assert(!ranks_before(before[k + 1], before[k]));
            }
            assert forall|k: int| 0 <= k < n - 1 && same_rank_key(#[trigger] out@[k], out@[k + 1]) implies origin[k]
                < origin[k + 1] by {
                assert(same_rank_key(before[k], before[k + 1]));
            }
        }
        i = i + 1;
    }
    Ok(out)
}

} // verus!
