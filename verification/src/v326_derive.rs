//! The feature derivation of one candidate: its own evidence and facts, and the contracts that
//! apply to it, decide its features.

use vstd::prelude::*;

use crate::candidate::V32CandidateRecord;
use crate::lifecycle_v326::{
    V326LifecycleContractRecord, V326LifecycleEvidenceRecord, V326LifecycleFactRecord, V326LifecycleFeatureRecord,
    V326LifecycleGraphRecord, V3_2_6_LIFECYCLE_FEATURE_SCHEMA_V1,
};
use crate::text::text_views;
use crate::v326_contract_scope::{contract_applies, lifecycle_contract_applies_to_candidate};
use crate::v326_chain_sets::lemma_sorted_same;
use crate::v326_features::{
    derive_scoped, derived_missing, derived_set, evidence_entries_match, feature_notes_view,
};

verus! {

/// The items of a list that meet a condition, in order.
pub open spec fn kept<T>(s: Seq<T>, p: spec_fn(T) -> bool) -> Seq<T>
    decreases s.len(),
{
    if s.len() == 0 {
        Seq::empty()
    } else if p(s.last()) {
        kept(s.drop_last(), p).push(s.last())
    } else {
        kept(s.drop_last(), p)
    }
}

/// The evidence of the candidate: of its candidate id and crate id.
pub open spec fn scoped_evidence(c: V32CandidateRecord, ev: Seq<V326LifecycleEvidenceRecord>) -> Seq<V326LifecycleEvidenceRecord> {
    kept(ev, |e: V326LifecycleEvidenceRecord| e.candidate_id@ == c.candidate_id@ && e.crate_id@ == c.crate_id@)
}

/// The facts of the candidate: of its candidate id and crate id.
pub open spec fn scoped_facts(c: V32CandidateRecord, facts: Seq<V326LifecycleFactRecord>) -> Seq<V326LifecycleFactRecord> {
    kept(facts, |f: V326LifecycleFactRecord| f.candidate_id@ == c.candidate_id@ && f.crate_id@ == c.crate_id@)
}

/// The contracts that apply to the candidate given its facts.
pub open spec fn scoped_contracts(
    c: V32CandidateRecord,
    facts: Seq<V326LifecycleFactRecord>,
    cs: Seq<V326LifecycleContractRecord>,
) -> Seq<V326LifecycleContractRecord> {
    kept(cs, |k: V326LifecycleContractRecord| contract_applies(c, scoped_facts(c, facts), k))
}

pub(crate) fn keep_owned<T, F: Fn(&T) -> bool>(v: Vec<T>, keep: F, Ghost(p): Ghost<spec_fn(T) -> bool>) -> (r: Vec<T>)
    requires
        forall|x: &T| #[trigger] keep.requires((x,)),
        forall|x: &T, b: bool| #[trigger] keep.ensures((x,), b) ==> b == p(*x),
    ensures
        r@ == kept(v@, p),
{
    let ghost v0 = v@;
    assert(v0.len() == v.len());
    let mut v = v;
    let mut out: Vec<T> = Vec::new();
    let mut k: usize = 0;
    assert(v0.take(0) =~= Seq::<T>::empty());
    assert(v0.skip(0) =~= v0);
    while v.len() > 0
        invariant
            forall|x: &T| #[trigger] keep.requires((x,)),
            forall|x: &T, b: bool| #[trigger] keep.ensures((x,), b) ==> b == p(*x),
            0 <= k <= v0.len(),
            v0.len() <= usize::MAX,
            v@ == v0.skip(k as int),
            out@ == kept(v0.take(k as int), p),
        decreases v.len(),
    {
        let x = v.remove(0);
        assert(x == v0[k as int]);
        assert(v0.take(k + 1).drop_last() =~= v0.take(k as int));
        assert(v0.take(k + 1).last() == x);
        if keep(&x) {
            out.push(x);
        }
        k = k + 1;
        assert(v@ =~= v0.skip(k as int));
    }
    assert(v0.take(k as int) =~= v0);
    out
}

/// `r` holds what the evidence, facts and contracts give the candidate: the features derived from
/// its own evidence and facts and the contracts that apply to it, the references of each feature,
/// and the evidence found missing after the graph's (`graph_missing`).
pub open spec fn derived_record(
    r: V326LifecycleFeatureRecord,
    c: V32CandidateRecord,
    graph_missing: Seq<Seq<char>>,
    evidence: Seq<V326LifecycleEvidenceRecord>,
    facts: Seq<V326LifecycleFactRecord>,
    contracts: Seq<V326LifecycleContractRecord>,
) -> bool {
    let ev = scoped_evidence(c, evidence);
    let fs = scoped_facts(c, facts);
    let cs = scoped_contracts(c, facts, contracts);
    &&& r.features == derived_set(ev, fs, cs)
    &&& evidence_entries_match(r.feature_evidence@, r.features, ev, fs, cs)
    &&& text_views(r.missing_evidence@) == derived_missing(graph_missing, ev, fs, cs)
}

/// The feature names and reference texts of a record's feature evidence.
pub open spec fn feature_evidence_views(e: Seq<(String, Vec<String>)>) -> Seq<(Seq<char>, Seq<Seq<char>>)> {
    e.map_values(|p: (String, Vec<String>)| (p.0@, text_views(p.1@)))
}

/// Derives the lifecycle features of a candidate from the evidence, facts and contracts given:
/// only the evidence and facts of the candidate count, and only the contracts that apply to it
/// (by its API path or by an authoritative registration call of its own). Each feature comes
/// with the references it rests on, and the evidence found missing follows the graph's.
pub fn derive_v3_2_6_lifecycle_features_with_context(
    candidate: &V32CandidateRecord,
    graph: &V326LifecycleGraphRecord,
    evidence: Vec<V326LifecycleEvidenceRecord>,
    facts: Vec<V326LifecycleFactRecord>,
    contracts: Vec<V326LifecycleContractRecord>,
) -> (r: V326LifecycleFeatureRecord)
    ensures
        derived_record(r, *candidate, text_views(graph.incomplete_evidence@), evidence@, facts@, contracts@),
        r.schema_version@ == V3_2_6_LIFECYCLE_FEATURE_SCHEMA_V1@,
        r.run_id@ == candidate.run_id@,
        r.candidate_id@ == candidate.candidate_id@,
        r.crate_id@ == candidate.crate_id@,
        r.pattern_family == candidate.pattern_family,
        text_views(r.notes@) == feature_notes_view(),
{
    let ev = keep_owned(
        evidence,
        (|e: &V326LifecycleEvidenceRecord| -> (b: bool)
            ensures
                b == (e.candidate_id@ == candidate.candidate_id@ && e.crate_id@ == candidate.crate_id@),
            { e.candidate_id == candidate.candidate_id && e.crate_id == candidate.crate_id }),
        Ghost(|e: V326LifecycleEvidenceRecord| e.candidate_id@ == candidate.candidate_id@ && e.crate_id@ == candidate.crate_id@),
    );
    let fs = keep_owned(
        facts,
        (|f: &V326LifecycleFactRecord| -> (b: bool)
            ensures
                b == (f.candidate_id@ == candidate.candidate_id@ && f.crate_id@ == candidate.crate_id@),
            { f.candidate_id == candidate.candidate_id && f.crate_id == candidate.crate_id }),
        Ghost(|f: V326LifecycleFactRecord| f.candidate_id@ == candidate.candidate_id@ && f.crate_id@ == candidate.crate_id@),
    );
    let cs = keep_owned(
        contracts,
        (|k: &V326LifecycleContractRecord| -> (b: bool)
            ensures
                b == contract_applies(*candidate, fs@, *k),
            { lifecycle_contract_applies_to_candidate(candidate, fs.as_slice(), k) }),
        Ghost(|k: V326LifecycleContractRecord| contract_applies(*candidate, fs@, k)),
    );
    derive_scoped(candidate, graph, &ev, &fs, &cs)
}

/// Derives the lifecycle features of a candidate from its evidence alone, with no facts and no
/// contracts.
pub fn derive_v3_2_6_lifecycle_features(
    candidate: &V32CandidateRecord,
    graph: &V326LifecycleGraphRecord,
    evidence: Vec<V326LifecycleEvidenceRecord>,
) -> (r: V326LifecycleFeatureRecord)
    ensures
        ({
            let ev = scoped_evidence(*candidate, evidence@);
            let fs = Seq::<V326LifecycleFactRecord>::empty();
            let cs = Seq::<V326LifecycleContractRecord>::empty();
            &&& r.features == derived_set(ev, fs, cs)
            &&& evidence_entries_match(r.feature_evidence@, r.features, ev, fs, cs)
            &&& text_views(r.missing_evidence@) == derived_missing(text_views(graph.incomplete_evidence@), ev, fs, cs)
        }),
        r.schema_version@ == V3_2_6_LIFECYCLE_FEATURE_SCHEMA_V1@,
        r.run_id@ == candidate.run_id@,
        r.candidate_id@ == candidate.candidate_id@,
        r.crate_id@ == candidate.crate_id@,
        r.pattern_family == candidate.pattern_family,
        text_views(r.notes@) == feature_notes_view(),
{
    let r = derive_v3_2_6_lifecycle_features_with_context(candidate, graph, evidence, Vec::new(), Vec::new());
    assert(scoped_facts(*candidate, Seq::<V326LifecycleFactRecord>::empty()) =~= Seq::<V326LifecycleFactRecord>::empty());
    assert(scoped_contracts(*candidate, Seq::<V326LifecycleFactRecord>::empty(), Seq::<V326LifecycleContractRecord>::empty())
        =~= Seq::<V326LifecycleContractRecord>::empty());
    r
}

proof fn lemma_kept_concat<T>(a: Seq<T>, b: Seq<T>, p: spec_fn(T) -> bool)
    ensures
        kept(a + b, p) == kept(a, p) + kept(b, p),
    decreases b.len(),
{
    if b.len() == 0 {
        assert(a + b =~= a);
        assert(kept(a, p) + kept(b, p) =~= kept(a, p));
    } else {
        lemma_kept_concat(a, b.drop_last(), p);
        assert((a + b).drop_last() =~= a + b.drop_last());
        assert((a + b).last() == b.last());
        if p(b.last()) {
            assert(kept(a, p) + kept(b.drop_last(), p).push(b.last()) =~= (kept(a, p) + kept(b.drop_last(), p)).push(b.last()));
        }
    }
}

proof fn lemma_kept_none<T>(b: Seq<T>, p: spec_fn(T) -> bool)
    requires
        forall|i: int| 0 <= i < b.len() ==> !p(#[trigger] b[i]),
    ensures
        kept(b, p) == Seq::<T>::empty(),
    decreases b.len(),
{
    if b.len() > 0 {
        assert(!p(b[b.len() - 1]));
        lemma_kept_none(b.drop_last(), p);
    }
}

/// Records of other candidates change nothing: evidence and facts added from other candidates
/// or crates leave the candidate's evidence, facts and applicable contracts, and so its derived
/// features, their evidence and the evidence found missing, as they were.
pub proof fn law_other_candidates_change_nothing(
    c: V32CandidateRecord,
    ev: Seq<V326LifecycleEvidenceRecord>,
    other_ev: Seq<V326LifecycleEvidenceRecord>,
    facts: Seq<V326LifecycleFactRecord>,
    other_facts: Seq<V326LifecycleFactRecord>,
    cs: Seq<V326LifecycleContractRecord>,
)
    requires
        forall|i: int|
            0 <= i < other_ev.len() ==> !((#[trigger] other_ev[i]).candidate_id@ == c.candidate_id@ && other_ev[i].crate_id@
                == c.crate_id@),
        forall|i: int|
            0 <= i < other_facts.len() ==> !((#[trigger] other_facts[i]).candidate_id@ == c.candidate_id@
                && other_facts[i].crate_id@ == c.crate_id@),
    ensures
        scoped_evidence(c, ev + other_ev) == scoped_evidence(c, ev),
        scoped_facts(c, facts + other_facts) == scoped_facts(c, facts),
        scoped_contracts(c, facts + other_facts, cs) == scoped_contracts(c, facts, cs),
        derived_set(scoped_evidence(c, ev + other_ev), scoped_facts(c, facts + other_facts), scoped_contracts(c, facts + other_facts, cs))
            == derived_set(scoped_evidence(c, ev), scoped_facts(c, facts), scoped_contracts(c, facts, cs)),
{
    let pe = |e: V326LifecycleEvidenceRecord| e.candidate_id@ == c.candidate_id@ && e.crate_id@ == c.crate_id@;
    let pf = |f: V326LifecycleFactRecord| f.candidate_id@ == c.candidate_id@ && f.crate_id@ == c.crate_id@;
    lemma_kept_concat(ev, other_ev, pe);
    lemma_kept_none(other_ev, pe);
    assert(kept(ev, pe) + Seq::<V326LifecycleEvidenceRecord>::empty() =~= kept(ev, pe));
    lemma_kept_concat(facts, other_facts, pf);
    lemma_kept_none(other_facts, pf);
    assert(kept(facts, pf) + Seq::<V326LifecycleFactRecord>::empty() =~= kept(facts, pf));
}

pub(crate) proof fn lemma_kept_insert<T>(s: Seq<T>, i: int, x: T, p: spec_fn(T) -> bool)
    requires
        0 <= i <= s.len(),
        !p(x),
    ensures
        kept(s.insert(i, x), p) == kept(s, p),
{
    let a = s.take(i);
    let b = s.skip(i);
    assert(s.insert(i, x) =~= a + (seq![x] + b));
    assert(s =~= a + b);
    lemma_kept_concat(a, seq![x] + b, p);
    lemma_kept_concat(seq![x], b, p);
    lemma_kept_none(seq![x], p);
    assert(Seq::<T>::empty() + kept(b, p) =~= kept(b, p));
    lemma_kept_concat(a, b, p);
}

/// Records of other candidates change nothing, wherever they stand: a piece of evidence and a
/// fact of another candidate or crate, inserted at any place (or, read backwards, removed from
/// it), leave the candidate's evidence, facts and applicable contracts, and so its derived
/// features, their evidence and the evidence found missing, as they were.
pub proof fn law_records_of_other_candidates_change_nothing(
    c: V32CandidateRecord,
    ev: Seq<V326LifecycleEvidenceRecord>,
    i: int,
    e: V326LifecycleEvidenceRecord,
    facts: Seq<V326LifecycleFactRecord>,
    j: int,
    f: V326LifecycleFactRecord,
    cs: Seq<V326LifecycleContractRecord>,
    graph_missing: Seq<Seq<char>>,
)
    requires
        0 <= i <= ev.len(),
        0 <= j <= facts.len(),
        !(e.candidate_id@ == c.candidate_id@ && e.crate_id@ == c.crate_id@),
        !(f.candidate_id@ == c.candidate_id@ && f.crate_id@ == c.crate_id@),
    ensures
        scoped_evidence(c, ev.insert(i, e)) == scoped_evidence(c, ev),
        scoped_facts(c, facts.insert(j, f)) == scoped_facts(c, facts),
        scoped_contracts(c, facts.insert(j, f), cs) == scoped_contracts(c, facts, cs),
        derived_set(scoped_evidence(c, ev.insert(i, e)), scoped_facts(c, facts.insert(j, f)), scoped_contracts(c, facts.insert(j, f), cs))
            == derived_set(scoped_evidence(c, ev), scoped_facts(c, facts), scoped_contracts(c, facts, cs)),
        derived_missing(graph_missing, scoped_evidence(c, ev.insert(i, e)), scoped_facts(c, facts.insert(j, f)), scoped_contracts(c, facts.insert(j, f), cs))
            == derived_missing(graph_missing, scoped_evidence(c, ev), scoped_facts(c, facts), scoped_contracts(c, facts, cs)),
{
    let pe = |x: V326LifecycleEvidenceRecord| x.candidate_id@ == c.candidate_id@ && x.crate_id@ == c.crate_id@;
    let pf = |x: V326LifecycleFactRecord| x.candidate_id@ == c.candidate_id@ && x.crate_id@ == c.crate_id@;
    lemma_kept_insert(ev, i, e, pe);
    lemma_kept_insert(facts, j, f, pf);
}

/// Records of other candidates or crates never change a feature derivation: evidence and facts
/// that hold the same records of the candidate in the same order (whatever records of others
/// were added or removed around them) give the same features, the same references for each
/// feature and the same evidence found missing.
pub proof fn law_derivation_ignores_other_candidates(
    c: V32CandidateRecord,
    graph_missing: Seq<Seq<char>>,
    ev1: Seq<V326LifecycleEvidenceRecord>,
    ev2: Seq<V326LifecycleEvidenceRecord>,
    facts1: Seq<V326LifecycleFactRecord>,
    facts2: Seq<V326LifecycleFactRecord>,
    contracts: Seq<V326LifecycleContractRecord>,
    r1: V326LifecycleFeatureRecord,
    r2: V326LifecycleFeatureRecord,
)
    requires
        scoped_evidence(c, ev1) == scoped_evidence(c, ev2),
        scoped_facts(c, facts1) == scoped_facts(c, facts2),
        derived_record(r1, c, graph_missing, ev1, facts1, contracts),
        derived_record(r2, c, graph_missing, ev2, facts2, contracts),
    ensures
        r1.features == r2.features,
        feature_evidence_views(r1.feature_evidence@) == feature_evidence_views(r2.feature_evidence@),
        text_views(r1.missing_evidence@) == text_views(r2.missing_evidence@),
{
    let p1 = |k: V326LifecycleContractRecord| contract_applies(c, scoped_facts(c, facts1), k);
    let p2 = |k: V326LifecycleContractRecord| contract_applies(c, scoped_facts(c, facts2), k);
    assert(p1 =~= p2);
    assert(scoped_contracts(c, facts1, contracts) == scoped_contracts(c, facts2, contracts));
    let e1 = r1.feature_evidence@;
    let e2 = r2.feature_evidence@;
    let v1 = feature_evidence_views(e1);
    let v2 = feature_evidence_views(e2);
    assert forall|j: int| 0 <= j < v1.len() implies v1[j] == v2[j] by {
        let a = text_views(e1[j].1@);
        let b = text_views(e2[j].1@);
        assert(e1[j].0@ == e2[j].0@);
        if a != b {
            lemma_sorted_same(a, b);
        }
    }
    assert(v1 =~= v2);
}

} // verus!
