//! Ordered sets of texts, and the objects, evidence and edges that a set of fact references
//! reaches: what an object chain lists.

use vstd::prelude::*;

use crate::lifecycle_v326::{V326LifecycleFactKind, V326LifecycleFactRecord, V326LifecycleGraphV3Edge};
use crate::text::{
    lemma_text_lt_asymmetric, lemma_text_lt_irreflexive, lemma_text_lt_transitive, sorted_unique_texts, text_lt,
    text_views, texts_strictly_sorted,
};
use crate::v326_chain_refs::{auxiliary_id_of, is_auxiliary_id};
use crate::v326_fact_edges::{edge3_view, edge3_views, object_flow_endpoint_object_ids_in_order, EdgeView};
use crate::v326_object_flow::{ends, ids_of};

verus! {

/// The texts of a finite set in strictly increasing order.
pub open spec fn sorted_of(s: Set<Seq<char>>) -> Seq<Seq<char>> {
    choose|q: Seq<Seq<char>>| texts_strictly_sorted(q) && q.to_set() == s
}

proof fn lemma_sorted_all(a: Seq<Seq<char>>)
    requires
        texts_strictly_sorted(a),
    ensures
        forall|i: int, j: int| 0 <= i < j < a.len() ==> text_lt(#[trigger] a[i], #[trigger] a[j]),
    decreases a.len(),
{
    if a.len() > 0 {
        let d = a.drop_last();
        assert(texts_strictly_sorted(d)) by {
            assert forall|i: int| 0 <= i < d.len() - 1 implies text_lt(#[trigger] d[i], d[i + 1]) by {
                assert(d[i] == a[i] && d[i + 1] == a[i + 1]);
            }
        }
        lemma_sorted_all(d);
        assert forall|i: int, j: int| 0 <= i < j < a.len() implies text_lt(#[trigger] a[i], #[trigger] a[j]) by {
            if j < a.len() - 1 {
                assert(d[i] == a[i] && d[j] == a[j]);
            } else if i < j - 1 {
                assert(d[i] == a[i] && d[j - 1] == a[j - 1]);
                assert(text_lt(a[j - 1], a[j]));
                lemma_text_lt_transitive(a[i], a[j - 1], a[j]);
            }
        }
    }
}

/// Two strictly increasing lists with the same members are the same list.
pub proof fn lemma_sorted_same(a: Seq<Seq<char>>, b: Seq<Seq<char>>)
    requires
        texts_strictly_sorted(a),
        texts_strictly_sorted(b),
        a.to_set() == b.to_set(),
    ensures
        a == b,
    decreases a.len(),
{
    lemma_sorted_all(a);
    lemma_sorted_all(b);
    if a.len() == 0 {
        if b.len() > 0 {
            assert(b.to_set().contains(b[0]));
        }
        assert(a =~= b);
    } else if b.len() == 0 {
        assert(a.to_set().contains(a[0]));
    } else {
        assert(a.to_set().contains(a[0]));
        assert(b.to_set().contains(b[0]));
        let i = choose|i: int| 0 <= i < b.len() && b[i] == a[0];
        let j = choose|j: int| 0 <= j < a.len() && a[j] == b[0];
        if i > 0 && j > 0 {
            assert(text_lt(b[0], b[i]));
            assert(text_lt(a[0], a[j]));
            lemma_text_lt_asymmetric(a[0], b[0]);
        } else if i > 0 {
            assert(text_lt(b[0], b[i]));
            lemma_text_lt_irreflexive(a[0]);
        } else if j > 0 {
            assert(text_lt(a[0], a[j]));
            lemma_text_lt_irreflexive(b[0]);
        }
        assert(a[0] == b[0]);
        let ta = a.drop_first();
        let tb = b.drop_first();
        assert(texts_strictly_sorted(ta)) by {
            assert forall|k: int| 0 <= k < ta.len() - 1 implies text_lt(#[trigger] ta[k], ta[k + 1]) by {
                assert(ta[k] == a[k + 1] && ta[k + 1] == a[k + 2]);
            }
        }
        assert(texts_strictly_sorted(tb)) by {
            assert forall|k: int| 0 <= k < tb.len() - 1 implies text_lt(#[trigger] tb[k], tb[k + 1]) by {
                assert(tb[k] == b[k + 1] && tb[k + 1] == b[k + 2]);
            }
        }
        assert forall|x: Seq<char>| ta.to_set().contains(x) == tb.to_set().contains(x) by {
            if ta.to_set().contains(x) {
                let k = choose|k: int| 0 <= k < ta.len() && ta[k] == x;
                assert(a[k + 1] == x);
                assert(a.to_set().contains(x));
                assert(b.to_set().contains(x));
                let l = choose|l: int| 0 <= l < b.len() && b[l] == x;
                if l == 0 {
                    assert(text_lt(a[0], a[k + 1]));
                    lemma_text_lt_irreflexive(x);
                }
                assert(tb[l - 1] == x);
            }
            if tb.to_set().contains(x) {
                let k = choose|k: int| 0 <= k < tb.len() && tb[k] == x;
                assert(b[k + 1] == x);
                assert(b.to_set().contains(x));
                assert(a.to_set().contains(x));
                let l = choose|l: int| 0 <= l < a.len() && a[l] == x;
                if l == 0 {
                    assert(text_lt(b[0], b[k + 1]));
                    lemma_text_lt_irreflexive(x);
                }
                assert(ta[l - 1] == x);
            }
        }
        assert(ta.to_set() =~= tb.to_set());
        lemma_sorted_same(ta, tb);
        assert(a =~= seq![a[0]] + ta);
        assert(b =~= seq![b[0]] + tb);
    }
}

/// A strictly increasing list is the ordered form of its set.
pub proof fn lemma_sorted_of(a: Seq<Seq<char>>, s: Set<Seq<char>>)
    requires
        texts_strictly_sorted(a),
        a.to_set() == s,
    ensures
        a == sorted_of(s),
{
    let q = sorted_of(s);
    assert(texts_strictly_sorted(q) && q.to_set() == s);
    lemma_sorted_same(a, q);
}

/// The texts of the list as an ordered set.
pub fn ordered_set(v: Vec<String>) -> (r: Vec<String>)
    ensures
        text_views(r@) == sorted_of(text_views(v@).to_set()),
        texts_strictly_sorted(text_views(r@)),
        text_views(r@).to_set() == text_views(v@).to_set(),
{
    let r = sorted_unique_texts(v);
    proof {
        lemma_sorted_of(text_views(r@), text_views(v@).to_set());
    }
    r
}

/// The ids of a fact that name lifecycle objects: the two endpoints of an object flow, else its
/// ids that are not auxiliary.
pub open spec fn endpoint_seq(f: V326LifecycleFactRecord) -> Seq<Seq<char>> {
    if f.fact_kind == V326LifecycleFactKind::ObjectFlow {
        ends(f)
    } else {
        non_auxiliary(ids_of(f))
    }
}

/// The ids that are not auxiliary, in order.
pub open spec fn non_auxiliary(ids: Seq<Seq<char>>) -> Seq<Seq<char>>
    decreases ids.len(),
{
    if ids.len() == 0 {
        Seq::empty()
    } else if is_auxiliary_id(ids.last()) {
        non_auxiliary(ids.drop_last())
    } else {
        non_auxiliary(ids.drop_last()).push(ids.last())
    }
}

fn push_endpoints(f: &V326LifecycleFactRecord, out: &mut Vec<String>)
    ensures
        text_views(final(out)@) == text_views(old(out)@) + endpoint_seq(*f),
{
    let ghost start = text_views(out@);
    if f.fact_kind == V326LifecycleFactKind::ObjectFlow {
        let e = object_flow_endpoint_object_ids_in_order(f);
        let mut i: usize = 0;
        while i < e.len()
            invariant
                0 <= i <= e@.len(),
                text_views(e@) == ends(*f),
                text_views(out@) == start + text_views(e@).take(i as int),
            decreases e.len() - i,
        {
            let ghost before = text_views(out@);
            out.push(e[i].clone());
            assert(text_views(out@) =~= before.push(e@[i as int]@));
            assert(text_views(e@).take(i + 1) =~= text_views(e@).take(i as int).push(e@[i as int]@));
            assert(start + text_views(e@).take(i + 1) =~= (start + text_views(e@).take(i as int)).push(e@[i as int]@));
            i = i + 1;
        }
        assert(text_views(e@).take(e@.len() as int) =~= text_views(e@));
    } else {
        let ghost ids = ids_of(*f);
        let mut i: usize = 0;
        while i < f.object_ids.len()
            invariant
                0 <= i <= f.object_ids@.len(),
                ids == ids_of(*f),
                text_views(out@) == start + non_auxiliary(ids.take(i as int)),
            decreases f.object_ids.len() - i,
        {
            assert(ids.take(i + 1).drop_last() =~= ids.take(i as int));
            assert(ids.take(i + 1).last() == f.object_ids@[i as int]@);
            if !auxiliary_id_of(f.object_ids[i].as_str()) {
                let ghost before = text_views(out@);
                out.push(f.object_ids[i].clone());
                assert(text_views(out@) =~= before.push(f.object_ids@[i as int]@));
                assert(start + non_auxiliary(ids.take(i + 1)) =~= (start + non_auxiliary(ids.take(i as int))).push(
                    f.object_ids@[i as int]@,
                ));
            }
            i = i + 1;
        }
        assert(ids.take(ids.len() as int) =~= ids);
    }
}

/// The object ids a fact names, as an ordered set.
pub fn fact_endpoints(f: &V326LifecycleFactRecord) -> (r: Vec<String>)
    ensures
        text_views(r@) == sorted_of(endpoint_seq(*f).to_set()),
        texts_strictly_sorted(text_views(r@)),
        text_views(r@).to_set() == endpoint_seq(*f).to_set(),
{
    let mut all: Vec<String> = Vec::new();
    assert(text_views(all@) =~= Seq::<Seq<char>>::empty());
    push_endpoints(f, &mut all);
    assert(text_views(all@) =~= endpoint_seq(*f));
    ordered_set(all)
}

/// The facts whose ids are among the references.
pub open spec fn referred(f: V326LifecycleFactRecord, refs: Seq<Seq<char>>) -> bool {
    refs.contains(f.fact_id@)
}

/// The object ids that the referred facts name, in order of facts.
pub open spec fn referred_endpoints(facts: Seq<V326LifecycleFactRecord>, refs: Seq<Seq<char>>) -> Seq<Seq<char>>
    decreases facts.len(),
{
    if facts.len() == 0 {
        Seq::empty()
    } else if referred(facts.last(), refs) {
        referred_endpoints(facts.drop_last(), refs) + endpoint_seq(facts.last())
    } else {
        referred_endpoints(facts.drop_last(), refs)
    }
}

/// The evidence references of the referred facts, in order of facts.
pub open spec fn referred_evidence(facts: Seq<V326LifecycleFactRecord>, refs: Seq<Seq<char>>) -> Seq<Seq<char>>
    decreases facts.len(),
{
    if facts.len() == 0 {
        Seq::empty()
    } else if referred(facts.last(), refs) {
        referred_evidence(facts.drop_last(), refs) + text_views(facts.last().evidence_refs@)
    } else {
        referred_evidence(facts.drop_last(), refs)
    }
}

/// Some fact reference of the edge is among the references.
pub open spec fn edge_referred(e: EdgeView, refs: Seq<Seq<char>>) -> bool {
    exists|k: int| 0 <= k < e.6.len() && refs.contains(#[trigger] e.6[k])
}

/// The ids of the edges with a fact reference among the references, in order of edges.
pub open spec fn referred_edges(edges: Seq<EdgeView>, refs: Seq<Seq<char>>) -> Seq<Seq<char>>
    decreases edges.len(),
{
    if edges.len() == 0 {
        Seq::empty()
    } else if edge_referred(edges.last(), refs) {
        referred_edges(edges.drop_last(), refs).push(edges.last().0)
    } else {
        referred_edges(edges.drop_last(), refs)
    }
}

pub(crate) fn holds_text(v: &Vec<String>, x: &String) -> (b: bool)
    ensures
        b == text_views(v@).contains(x@),
{
    let r = crate::checks::contains_text(v, x);
    proof {
        if r {
            let k = choose|k: int| 0 <= k < v@.len() && (#[trigger] v@[k])@ == x@;
            assert(text_views(v@)[k] == x@);
        }
        if text_views(v@).contains(x@) {
            let k = choose|k: int| 0 <= k < text_views(v@).len() && text_views(v@)[k] == x@;
            assert(v@[k]@ == x@);
        }
    }
    r
}

/// The object ids that the referred facts name, as an ordered set.
pub fn object_ids_for_fact_refs(facts: &[V326LifecycleFactRecord], refs: &Vec<String>) -> (r: Vec<String>)
    ensures
        text_views(r@) == sorted_of(referred_endpoints(facts@, text_views(refs@)).to_set()),
{
    let ghost rv = text_views(refs@);
    let mut all: Vec<String> = Vec::new();
    let mut i: usize = 0;
    while i < facts.len()
        invariant
            0 <= i <= facts@.len(),
            rv == text_views(refs@),
            text_views(all@) == referred_endpoints(facts@.take(i as int), rv),
        decreases facts.len() - i,
    {
        assert(facts@.take(i + 1).drop_last() =~= facts@.take(i as int));
        assert(facts@.take(i + 1).last() == facts@[i as int]);
        if holds_text(refs, &facts[i].fact_id) {
            push_endpoints(&facts[i], &mut all);
        }
        i = i + 1;
    }
    assert(facts@.take(facts@.len() as int) =~= facts@);
    ordered_set(all)
}

/// The evidence references of the referred facts, as an ordered set.
pub fn evidence_refs_for_fact_refs(facts: &[V326LifecycleFactRecord], refs: &Vec<String>) -> (r: Vec<String>)
    ensures
        text_views(r@) == sorted_of(referred_evidence(facts@, text_views(refs@)).to_set()),
{
    let ghost rv = text_views(refs@);
    let mut all: Vec<String> = Vec::new();
    let mut i: usize = 0;
    while i < facts.len()
        invariant
            0 <= i <= facts@.len(),
            rv == text_views(refs@),
            text_views(all@) == referred_evidence(facts@.take(i as int), rv),
        decreases facts.len() - i,
    {
        assert(facts@.take(i + 1).drop_last() =~= facts@.take(i as int));
        assert(facts@.take(i + 1).last() == facts@[i as int]);
        if holds_text(refs, &facts[i].fact_id) {
            let ghost before = text_views(all@);
            let mut k: usize = 0;
            while k < facts[i].evidence_refs.len()
                invariant
                    0 <= k <= facts@[i as int].evidence_refs@.len(),
                    i < facts@.len(),
                    text_views(all@) == before + text_views(facts@[i as int].evidence_refs@).take(k as int),
                decreases facts@[i as int].evidence_refs@.len() - k,
            {
                let ghost b2 = text_views(all@);
                all.push(facts[i].evidence_refs[k].clone());
                assert(text_views(all@) =~= b2.push(facts@[i as int].evidence_refs@[k as int]@));
                assert(before + text_views(facts@[i as int].evidence_refs@).take(k + 1) =~= (before + text_views(
                    facts@[i as int].evidence_refs@,
                ).take(k as int)).push(facts@[i as int].evidence_refs@[k as int]@));
                k = k + 1;
            }
            assert(text_views(facts@[i as int].evidence_refs@).take(facts@[i as int].evidence_refs@.len() as int)
                =~= text_views(facts@[i as int].evidence_refs@));
        }
        i = i + 1;
    }
    assert(facts@.take(facts@.len() as int) =~= facts@);
    ordered_set(all)
}

fn any_held(refs: &Vec<String>, xs: &Vec<String>) -> (b: bool)
    ensures
        b == exists|k: int| 0 <= k < xs@.len() && text_views(refs@).contains(#[trigger] text_views(xs@)[k]),
{
    let mut k: usize = 0;
    while k < xs.len()
        invariant
            0 <= k <= xs@.len(),
            forall|j: int| 0 <= j < k ==> !text_views(refs@).contains(#[trigger] text_views(xs@)[j]),
        decreases xs.len() - k,
    {
        if holds_text(refs, &xs[k]) {
            assert(text_views(refs@).contains(text_views(xs@)[k as int]));
            return true;
        }
        k = k + 1;
    }
    false
}

/// The ids of the edges with a fact reference among the references, as an ordered set.
pub fn edge_ids_for_fact_refs(edges: &Vec<V326LifecycleGraphV3Edge>, refs: &Vec<String>) -> (r: Vec<String>)
    ensures
        text_views(r@) == sorted_of(referred_edges(edge3_views(edges@), text_views(refs@)).to_set()),
{
    let ghost rv = text_views(refs@);
    let ghost ev = edge3_views(edges@);
    let mut all: Vec<String> = Vec::new();
    let mut i: usize = 0;
    while i < edges.len()
        invariant
            0 <= i <= edges@.len(),
            rv == text_views(refs@),
            ev == edge3_views(edges@),
            text_views(all@) == referred_edges(ev.take(i as int), rv),
        decreases edges.len() - i,
    {
        assert(ev.take(i + 1).drop_last() =~= ev.take(i as int));
        assert(ev.take(i + 1).last() == edge3_view(edges@[i as int]));
        let hit = any_held(refs, &edges[i].fact_refs);
        proof {
            let x6 = ev[i as int].6;
            assert(x6 == text_views(edges@[i as int].fact_refs@));
            if hit {
                let k = choose|k: int| 0 <= k < edges@[i as int].fact_refs@.len() && rv.contains(#[trigger] text_views(edges@[i as int].fact_refs@)[k]);
                assert(rv.contains(x6[k]));
                assert(edge_referred(ev[i as int], rv));
            } else {
                assert forall|k: int| 0 <= k < x6.len() implies !rv.contains(#[trigger] x6[k]) by {
                    assert(!rv.contains(text_views(edges@[i as int].fact_refs@)[k]));
                }
                assert(!edge_referred(ev[i as int], rv));
            }
        }
        if hit {
            let ghost before = text_views(all@);
            all.push(edges[i].edge_id.clone());
            assert(text_views(all@) =~= before.push(edges@[i as int].edge_id@));
        }
        i = i + 1;
    }
    assert(ev.take(ev.len() as int) =~= ev);
    ordered_set(all)
}

} // verus!
