//! The connected components of authoritative object flows: flows are linked when they share an
//! endpoint or when one follows the other without a barrier between them, and a component is
//! complete when it holds a flow and its counterpart.

use vstd::prelude::*;

use crate::lifecycle_v326::{V326LifecycleFactKind, V326LifecycleFactRecord};
use crate::text::{concat2, sorted_unique_texts, text_views, texts_strictly_sorted};
use crate::v326_fact_edges::{object_flow_endpoint_object_ids_in_order, opt_view};
use crate::v326_fact_refs::{fact_ids_where, ids_hold, ids_where, object_ids_hold};
use crate::v326_release_pairs::{is_authoritative_binding, is_authoritative_object_binding_fact};
use crate::v326_object_flow::{
    blocked, compatible_sequence, ends, flow_kind, is_ambiguous, is_neutral_alias, object_flow_endpoint_is_ambiguous, kind_is, object_flow_facts_are_compatible_sequence,
    kind_matches, object_flow_fact_is_neutral_alias, object_flow_kind_from_fact, object_flow_pair_blocked_by_barrier,
};

verus! {

/// The first flow follows the second: both have a flow kind, the sequence is compatible and
/// no barrier cuts it.
pub open spec fn follows(a: V326LifecycleFactRecord, b: V326LifecycleFactRecord, facts: Seq<V326LifecycleFactRecord>) -> bool {
    flow_kind(a) matches Some(k1) && flow_kind(b) matches Some(k2) && compatible_sequence(a, b, k1, k2) && !blocked(
        a,
        b,
        facts,
    )
}

/// Two flows are linked: they share an endpoint, or (having different ids) one follows the
/// other.
pub open spec fn linked(facts: Seq<V326LifecycleFactRecord>, a: int, b: int) -> bool {
    (exists|x: Seq<char>| ends(facts[a]).contains(x) && ends(facts[b]).contains(x)) || (facts[a].fact_id@
        != facts[b].fact_id@ && (follows(facts[a], facts[b], facts) || follows(facts[b], facts[a], facts)))
}

/// The set of members is closed under links.
pub open spec fn closed_set(facts: Seq<V326LifecycleFactRecord>, mem: Seq<bool>, s: Set<int>) -> bool {
    forall|a: int, b: int|
        #![trigger s.contains(a), linked(facts, a, b)]
        s.contains(a) && 0 <= b < facts.len() && mem[b] && linked(facts, a, b) ==> s.contains(b)
}

/// Member `j` is in the component of `i`: every closed set that holds `i` holds `j`.
pub open spec fn in_comp(facts: Seq<V326LifecycleFactRecord>, mem: Seq<bool>, i: int, j: int) -> bool {
    forall|s: Set<int>| #[trigger] closed_set(facts, mem, s) && s.contains(i) ==> s.contains(j)
}

fn share_end(a: &V326LifecycleFactRecord, b: &V326LifecycleFactRecord) -> (r: bool)
    ensures
        r == exists|x: Seq<char>| ends(*a).contains(x) && ends(*b).contains(x),
{
    let ea = object_flow_endpoint_object_ids_in_order(a);
    let eb = object_flow_endpoint_object_ids_in_order(b);
    let mut i: usize = 0;
    while i < ea.len()
        invariant
            text_views(ea@) == ends(*a),
            text_views(eb@) == ends(*b),
            0 <= i <= ea@.len(),
            forall|k: int, l: int| 0 <= k < i && 0 <= l < eb@.len() ==> #[trigger] ea@[k]@ != #[trigger] eb@[l]@,
        decreases ea.len() - i,
    {
        let mut j: usize = 0;
        while j < eb.len()
            invariant
                text_views(ea@) == ends(*a),
                text_views(eb@) == ends(*b),
                0 <= i < ea@.len(),
                0 <= j <= eb@.len(),
                forall|l: int| 0 <= l < j ==> ea@[i as int]@ != #[trigger] eb@[l]@,
            decreases eb.len() - j,
        {
            if ea[i] == eb[j] {
                proof {
                    assert(ends(*a)[i as int] == ea@[i as int]@);
                    assert(ends(*b)[j as int] == eb@[j as int]@);
                    assert(ends(*a).contains(ea@[i as int]@));
                    assert(ends(*b).contains(ea@[i as int]@));
                }
                return true;
            }
            j = j + 1;
        }
        i = i + 1;
    }
    proof {
        assert forall|x: Seq<char>| !(ends(*a).contains(x) && ends(*b).contains(x)) by {
            if ends(*a).contains(x) && ends(*b).contains(x) {
                let k = choose|k: int| 0 <= k < ends(*a).len() && ends(*a)[k] == x;
                let l = choose|l: int| 0 <= l < ends(*b).len() && ends(*b)[l] == x;
                assert(ea@[k]@ == ends(*a)[k]);
                assert(eb@[l]@ == ends(*b)[l]);
            }
        }
    }
    false
}

fn flow_follows(a: &V326LifecycleFactRecord, b: &V326LifecycleFactRecord, facts: &[V326LifecycleFactRecord]) -> (r: bool)
    ensures
        r == follows(*a, *b, facts@),
{
    let ka = object_flow_kind_from_fact(a);
    let kb = object_flow_kind_from_fact(b);
    match (&ka, &kb) {
        (Some(k1), Some(k2)) => object_flow_facts_are_compatible_sequence(a, b, k1.as_str(), k2.as_str())
            && !object_flow_pair_blocked_by_barrier(a, b, facts),
        _ => false,
    }
}

fn flows_linked(facts: &[V326LifecycleFactRecord], a: usize, b: usize) -> (r: bool)
    requires
        a < facts@.len(),
        b < facts@.len(),
    ensures
        r == linked(facts@, a as int, b as int),
{
    share_end(&facts[a], &facts[b]) || (facts[a].fact_id != facts[b].fact_id && (flow_follows(&facts[a], &facts[b], facts)
        || flow_follows(&facts[b], &facts[a], facts)))
}

fn holds_index(c: &Vec<usize>, j: usize) -> (r: bool)
    ensures
        r == c@.contains(j),
{
    let mut k: usize = 0;
    while k < c.len()
        invariant
            0 <= k <= c@.len(),
            forall|l: int| 0 <= l < k ==> c@[l] != j,
        decreases c.len() - k,
    {
        if c[k] == j {
            assert(c@[k as int] == j);
            return true;
        }
        k = k + 1;
    }
    false
}

/// The component of member `i`: the indices of the members linked to it through other members.
pub fn flow_component(facts: &[V326LifecycleFactRecord], mem: &Vec<bool>, i: usize) -> (c: Vec<usize>)
    requires
        mem@.len() == facts@.len(),
        i < facts@.len(),
        mem@[i as int],
    ensures
        forall|j: int| #![trigger c@.contains(j as usize)] #![trigger in_comp(facts@, mem@, i as int, j)] 0 <= j < facts@.len() ==> (c@.contains(j as usize) <==> in_comp(facts@, mem@, i as int, j)),
        forall|k: int| 0 <= k < c@.len() ==> #[trigger] c@[k] < facts@.len(),
{
    let n = facts.len();
    let mut c: Vec<usize> = Vec::new();
    c.push(i);
    assert(c@[0] == i);
    assert(in_comp(facts@, mem@, i as int, i as int));
    let mut changed = true;
    while changed
        invariant
            n == facts@.len(),
            mem@.len() == n,
            c@.contains(i),
            c@.len() <= n,
            c@.no_duplicates(),
            forall|k: int| 0 <= k < c@.len() ==> #[trigger] c@[k] < n && (c@[k] == i || mem@[c@[k] as int]),
            forall|k: int| 0 <= k < c@.len() ==> in_comp(facts@, mem@, i as int, #[trigger] c@[k] as int),
            !changed ==> forall|a: int, b: int|
                0 <= a < c@.len() && 0 <= b < n && mem@[b] && linked(facts@, c@[a] as int, b) ==> c@.contains(
                    b as usize,
                ),
        decreases n - c@.len() + (if changed { 1int } else { 0int }),
    {
        changed = false;
        let len0 = c.len();
        let mut a: usize = 0;
        while a < c.len()
            invariant
                n == facts@.len(),
                mem@.len() == n,
                c@.contains(i),
                c@.len() <= n,
                len0 <= c@.len(),
                c@.no_duplicates(),
                forall|k: int| 0 <= k < c@.len() ==> #[trigger] c@[k] < n && (c@[k] == i || mem@[c@[k] as int]),
                forall|k: int| 0 <= k < c@.len() ==> in_comp(facts@, mem@, i as int, #[trigger] c@[k] as int),
                0 <= a <= c@.len(),
                changed == (c@.len() > len0),
                !changed ==> forall|a0: int, b: int|
                    0 <= a0 < a && 0 <= b < n && mem@[b] && linked(facts@, c@[a0] as int, b) ==> c@.contains(
                        b as usize,
                    ),
            decreases n - c@.len(), c@.len() - a,
        {
            let ghost len_a = c@.len();
            let mut b: usize = 0;
            while b < n
                invariant
                    len_a <= c@.len(),
                    n == facts@.len(),
                    mem@.len() == n,
                    c@.contains(i),
                    c@.len() <= n,
                    len0 <= c@.len(),
                    c@.no_duplicates(),
                    forall|k: int| 0 <= k < c@.len() ==> #[trigger] c@[k] < n && (c@[k] == i || mem@[c@[k] as int]),
                    forall|k: int| 0 <= k < c@.len() ==> in_comp(facts@, mem@, i as int, #[trigger] c@[k] as int),
                    0 <= a < c@.len(),
                    0 <= b <= n,
                    changed == (c@.len() > len0),
                    !changed ==> forall|a0: int, b0: int|
                        0 <= a0 < a && 0 <= b0 < n && mem@[b0] && linked(facts@, c@[a0] as int, b0) ==> c@.contains(
                            b0 as usize,
                        ),
                    !changed ==> forall|b0: int|
                        0 <= b0 < b && mem@[b0] && linked(facts@, c@[a as int] as int, b0) ==> c@.contains(
                            b0 as usize,
                        ),
                decreases n - c@.len(), n - b,
            {
                let ca = c[a];
                if mem[b] && !holds_index(&c, b) && flows_linked(facts, ca, b) {
                    proof {
                        assert forall|s: Set<int>| #[trigger] closed_set(facts@, mem@, s) && s.contains(
                            i as int,
                        ) implies s.contains(b as int) by {
                            assert(in_comp(facts@, mem@, i as int, c@[a as int] as int));
                            assert(s.contains(ca as int));
                            assert(linked(facts@, ca as int, b as int));
                        }
                        if c@.len() >= n {
                            lemma_full_holds_all(c@, n, b);
                        }
                    }
                    let ghost before = c@;
                    c.push(b);
                    proof {
                        assert(c@.no_duplicates()) by {
                            assert forall|x: int, y: int| 0 <= x < y < c@.len() implies c@[x] != c@[y] by {
                                if y == before.len() {
                                    assert(!before.contains(b));
                                    assert(before[x] == c@[x]);
                                }
                            }
                        }
                        assert forall|x: usize| before.contains(x) implies c@.contains(x) by {
                            let k = choose|k: int| 0 <= k < before.len() && before[k] == x;
                            assert(c@[k] == x);
                        }
                        assert(c@[before.len() as int] == b);
                    }
                    changed = true;
                }
                b = b + 1;
            }
            a = a + 1;
        }
    }
    proof {
        let s = Set::new(|x: int| exists|k: int| 0 <= k < c@.len() && #[trigger] c@[k] as int == x);
        assert(closed_set(facts@, mem@, s)) by {
            assert forall|a: int, b: int|
                #![trigger s.contains(a), linked(facts@, a, b)]
                s.contains(a) && 0 <= b < facts@.len() && mem@[b] && linked(facts@, a, b) implies s.contains(b) by {
                let k = choose|k: int| 0 <= k < c@.len() && c@[k] as int == a;
                assert(c@.contains(b as usize));
                let l = choose|l: int| 0 <= l < c@.len() && c@[l] == b as usize;
                assert(c@[l] as int == b);
            }
        }
        assert(s.contains(i as int)) by {
            let k = choose|k: int| 0 <= k < c@.len() && c@[k] == i;
            assert(c@[k] as int == i as int);
        }
        assert forall|j: int| 0 <= j < facts@.len() implies (c@.contains(j as usize) <==> in_comp(
            facts@,
            mem@,
            i as int,
            j,
        )) by {
            if c@.contains(j as usize) {
                let k = choose|k: int| 0 <= k < c@.len() && c@[k] == j as usize;
                assert(in_comp(facts@, mem@, i as int, c@[k] as int));
            }
            if in_comp(facts@, mem@, i as int, j) {
                assert(s.contains(j));
                let k = choose|k: int| 0 <= k < c@.len() && c@[k] as int == j;
                assert(c@[k] == j as usize);
            }
        }
    }
    c
}

/// A list of `n` distinct indices below `n` holds every index below `n`.
proof fn lemma_full_holds_all(c: Seq<usize>, n: usize, b: usize)
    requires
        c.no_duplicates(),
        c.len() >= n,
        forall|k: int| 0 <= k < c.len() ==> #[trigger] c[k] < n,
        b < n,
    ensures
        c.contains(b),
{
    if c.contains(b) {
        return;
    }
    let t = c.to_set();
    c.unique_seq_to_set();
    let r = Set::new(|x: usize| x < n).remove(b);
    assert(t.subset_of(r)) by {
        assert forall|x: usize| t.contains(x) implies r.contains(x) by {
            let k = choose|k: int| 0 <= k < c.len() && c[k] == x;
        }
    }
    lemma_below_len(n);
    assert(Set::new(|x: usize| x < n).contains(b));
    vstd::set_lib::lemma_len_subset(t, r);
}

proof fn lemma_below_len(n: usize)
    ensures
        Set::new(|x: usize| x < n).finite(),
        Set::new(|x: usize| x < n).len() == n,
    decreases n,
{
    if n == 0 {
        assert(Set::new(|x: usize| x < n) =~= Set::<usize>::empty());
    } else {
        let m = (n - 1) as usize;
        lemma_below_len(m);
        assert(Set::new(|x: usize| x < n) =~= Set::new(|x: usize| x < m).insert(m));
    }
}


/// Some fact in the component of `i` has the id.
pub open spec fn id_in_comp(facts: Seq<V326LifecycleFactRecord>, mem: Seq<bool>, i: int, x: Seq<char>) -> bool {
    exists|j: int| 0 <= j < facts.len() && #[trigger] in_comp(facts, mem, i, j) && facts[j].fact_id@ == x
}

/// Among the facts whose ids are those of the component of `i`, an object flow of kind `k1` is
/// followed, with no barrier between them, by one of kind `k2`.
pub open spec fn pair_in_comp(facts: Seq<V326LifecycleFactRecord>, mem: Seq<bool>, i: int, k1: Seq<char>, k2: Seq<
    char,
>) -> bool {
    exists|a: int, b: int|
        0 <= a < facts.len() && 0 <= b < facts.len() && #[trigger] id_in_comp(facts, mem, i, facts[a].fact_id@)
            && #[trigger] id_in_comp(facts, mem, i, facts[b].fact_id@) && facts[a].fact_kind
            == V326LifecycleFactKind::ObjectFlow && facts[b].fact_kind == V326LifecycleFactKind::ObjectFlow && kind_is(
            facts[a],
            k1,
        ) && kind_is(facts[b], k2) && !blocked(facts[a], facts[b], facts) && compatible_sequence(facts[a], facts[b], k1, k2)
}

/// The component of `i` holds a flow and its counterpart: a closure capture and its load, a
/// return value and its argument, a field store and its load, a wrapper move and its
/// destructuring, or a collection store and its load.
pub open spec fn comp_complete(facts: Seq<V326LifecycleFactRecord>, mem: Seq<bool>, i: int) -> bool {
    pair_in_comp(facts, mem, i, "closure_capture"@, "field_load"@) || pair_in_comp(facts, mem, i, "return_value"@, "argument"@)
        || pair_in_comp(facts, mem, i, "field_store"@, "field_load"@) || pair_in_comp(
        facts,
        mem,
        i,
        "wrapper_move"@,
        "wrapper_destructure"@,
    ) || pair_in_comp(facts, mem, i, "collection_store"@, "collection_load"@)
}

/// Every object flow with an id of the component of `i` is a neutral alias, and there is one.
pub open spec fn comp_only_neutral(facts: Seq<V326LifecycleFactRecord>, mem: Seq<bool>, i: int) -> bool {
    &&& exists|a: int|
        0 <= a < facts.len() && #[trigger] id_in_comp(facts, mem, i, facts[a].fact_id@) && facts[a].fact_kind
            == V326LifecycleFactKind::ObjectFlow
    &&& forall|a: int|
        0 <= a < facts.len() && #[trigger] id_in_comp(facts, mem, i, facts[a].fact_id@) && facts[a].fact_kind
            == V326LifecycleFactKind::ObjectFlow ==> is_neutral_alias(facts[a])
}

/// A member of the component of `i` carries the flow token.
pub open spec fn tok_in_comp(facts: Seq<V326LifecycleFactRecord>, mem: Seq<bool>, i: int, t: Seq<char>) -> bool {
    exists|j: int|
        0 <= j < facts.len() && #[trigger] in_comp(facts, mem, i, j) && ids_hold(facts[j].object_ids@, "object_flow:"@ + t)
}

/// A fact with an id of the component of `i` carries the flow token.
pub open spec fn tok_in_refs(facts: Seq<V326LifecycleFactRecord>, mem: Seq<bool>, i: int, t: Seq<char>) -> bool {
    exists|a: int|
        0 <= a < facts.len() && #[trigger] id_in_comp(facts, mem, i, facts[a].fact_id@) && ids_hold(
            facts[a].object_ids@,
            "object_flow:"@ + t,
        )
}

fn comp_ids_contain(facts: &[V326LifecycleFactRecord], mem: &Vec<bool>, c: &Vec<usize>, x: &String, Ghost(i): Ghost<int>) -> (r:
    bool)
    requires
        mem@.len() == facts@.len(),
        forall|j: int| #![trigger c@.contains(j as usize)] #![trigger in_comp(facts@, mem@, i, j)] 0 <= j < facts@.len() ==> (c@.contains(j as usize) <==> in_comp(facts@, mem@, i, j)),
        forall|k: int| 0 <= k < c@.len() ==> #[trigger] c@[k] < facts@.len(),
    ensures
        r == id_in_comp(facts@, mem@, i, x@),
{
    let mut k: usize = 0;
    while k < c.len()
        invariant
            0 <= k <= c@.len(),
            forall|j: int| #![trigger c@.contains(j as usize)] #![trigger in_comp(facts@, mem@, i, j)] 0 <= j < facts@.len() ==> (c@.contains(j as usize) <==> in_comp(facts@, mem@, i, j)),
            forall|l: int| 0 <= l < c@.len() ==> #[trigger] c@[l] < facts@.len(),
            forall|l: int| 0 <= l < k ==> facts@[#[trigger] c@[l] as int].fact_id@ != x@,
        decreases c.len() - k,
    {
        if facts[c[k]].fact_id == *x {
            proof {
                assert(c@.contains(c@[k as int]));
                assert(in_comp(facts@, mem@, i, c@[k as int] as int));
            }
            return true;
        }
        k = k + 1;
    }
    proof {
        if id_in_comp(facts@, mem@, i, x@) {
            let j = choose|j: int| 0 <= j < facts@.len() && #[trigger] in_comp(facts@, mem@, i, j) && facts@[j].fact_id@ == x@;
            assert(facts@.len() == facts.len());
            assert(j as usize as int == j);
            assert(c@.contains(j as usize));
            let l = choose|l: int| 0 <= l < c@.len() && c@[l] == j as usize;
            assert(facts@[c@[l] as int].fact_id@ != x@);
        }
    }
    false
}

fn comp_pair(
    facts: &[V326LifecycleFactRecord],
    mem: &Vec<bool>,
    c: &Vec<usize>,
    k1: &str,
    k2: &str,
    Ghost(i): Ghost<int>,
) -> (r: bool)
    requires
        mem@.len() == facts@.len(),
        forall|j: int| #![trigger c@.contains(j as usize)] #![trigger in_comp(facts@, mem@, i, j)] 0 <= j < facts@.len() ==> (c@.contains(j as usize) <==> in_comp(facts@, mem@, i, j)),
        forall|k: int| 0 <= k < c@.len() ==> #[trigger] c@[k] < facts@.len(),
    ensures
        r == pair_in_comp(facts@, mem@, i, k1@, k2@),
{
    let n = facts.len();
    let mut a: usize = 0;
    while a < n
        invariant
            n == facts@.len(),
            mem@.len() == facts@.len(),
            forall|j: int| #![trigger c@.contains(j as usize)] #![trigger in_comp(facts@, mem@, i, j)] 0 <= j < facts@.len() ==> (c@.contains(j as usize) <==> in_comp(facts@, mem@, i, j)),
            forall|k: int| 0 <= k < c@.len() ==> #[trigger] c@[k] < facts@.len(),
            0 <= a <= n,
            forall|a0: int, b0: int|
                0 <= a0 < a && 0 <= b0 < n && #[trigger] id_in_comp(facts@, mem@, i, facts@[a0].fact_id@)
                    && #[trigger] id_in_comp(facts@, mem@, i, facts@[b0].fact_id@) && facts@[a0].fact_kind
                    == V326LifecycleFactKind::ObjectFlow && facts@[b0].fact_kind == V326LifecycleFactKind::ObjectFlow
                    && kind_is(facts@[a0], k1@) && kind_is(facts@[b0], k2@) ==> !(!blocked(facts@[a0], facts@[b0], facts@)
                    && compatible_sequence(facts@[a0], facts@[b0], k1@, k2@)),
        decreases n - a,
    {
        let ka = object_flow_kind_from_fact(&facts[a]);
        let a_ok = facts[a].fact_kind == V326LifecycleFactKind::ObjectFlow && kind_matches(&ka, k1) && comp_ids_contain(facts, mem, c, &facts[a].fact_id, Ghost(i));
        if a_ok {
            let mut b: usize = 0;
            while b < n
                invariant
                    n == facts@.len(),
                    mem@.len() == facts@.len(),
                    forall|j: int| #![trigger c@.contains(j as usize)] #![trigger in_comp(facts@, mem@, i, j)] 0 <= j < facts@.len() ==> (c@.contains(j as usize) <==> in_comp(facts@, mem@, i, j)),
                    forall|k: int| 0 <= k < c@.len() ==> #[trigger] c@[k] < facts@.len(),
                    0 <= a < n,
                    0 <= b <= n,
                    id_in_comp(facts@, mem@, i, facts@[a as int].fact_id@),
                    facts@[a as int].fact_kind == V326LifecycleFactKind::ObjectFlow,
                    kind_is(facts@[a as int], k1@),
                    forall|b0: int|
                        0 <= b0 < b && #[trigger] id_in_comp(facts@, mem@, i, facts@[b0].fact_id@)
                            && facts@[b0].fact_kind == V326LifecycleFactKind::ObjectFlow && kind_is(facts@[b0], k2@)
                            ==> !(!blocked(facts@[a as int], facts@[b0], facts@) && compatible_sequence(
                            facts@[a as int],
                            facts@[b0],
                            k1@,
                            k2@,
                        )),
                decreases n - b,
            {
                let kb = object_flow_kind_from_fact(&facts[b]);
                let b_ok = facts[b].fact_kind == V326LifecycleFactKind::ObjectFlow && kind_matches(&kb, k2) && comp_ids_contain(facts, mem, c, &facts[b].fact_id, Ghost(i));
                if b_ok && !object_flow_pair_blocked_by_barrier(&facts[a], &facts[b], facts)
                    && object_flow_facts_are_compatible_sequence(&facts[a], &facts[b], k1, k2) {
                    return true;
                }
                b = b + 1;
            }
        }
        a = a + 1;
    }
    false
}


/// The flows whose components are checked for completeness: authoritative object flows with two
/// endpoints that are not ambiguous.
pub open spec fn complete_members(facts: Seq<V326LifecycleFactRecord>) -> Seq<bool> {
    Seq::new(
        facts.len(),
        |k: int|
            facts[k].fact_kind == V326LifecycleFactKind::ObjectFlow && is_authoritative_binding(facts[k]) && ends(
                facts[k],
            ).len() >= 2 && !is_ambiguous(facts[k], facts),
    )
}

/// The flows whose components are searched for gaps: authoritative object flows that are not
/// ambiguous and not neutral aliases.
pub open spec fn gap_members(facts: Seq<V326LifecycleFactRecord>) -> Seq<bool> {
    Seq::new(
        facts.len(),
        |k: int|
            facts[k].fact_kind == V326LifecycleFactKind::ObjectFlow && is_authoritative_binding(facts[k])
                && !is_ambiguous(facts[k], facts) && !is_neutral_alias(facts[k]),
    )
}

fn members(facts: &[V326LifecycleFactRecord], complete: bool) -> (m: Vec<bool>)
    ensures
        complete ==> m@ == complete_members(facts@),
        !complete ==> m@ == gap_members(facts@),
{
    let mut m: Vec<bool> = Vec::new();
    let mut k: usize = 0;
    while k < facts.len()
        invariant
            0 <= k <= facts@.len(),
            m@.len() == k,
            complete ==> forall|j: int| 0 <= j < k ==> m@[j] == complete_members(facts@)[j],
            !complete ==> forall|j: int| 0 <= j < k ==> m@[j] == gap_members(facts@)[j],
        decreases facts.len() - k,
    {
        let f = &facts[k];
        let base = f.fact_kind == V326LifecycleFactKind::ObjectFlow && is_authoritative_object_binding_fact(f)
            && !object_flow_endpoint_is_ambiguous(f, facts);
        let v = if complete {
            base && object_flow_endpoint_object_ids_in_order(f).len() >= 2
        } else {
            base && !object_flow_fact_is_neutral_alias(f)
        };
        m.push(v);
        k = k + 1;
    }
    if complete {
        assert(m@ =~= complete_members(facts@));
    } else {
        assert(m@ =~= gap_members(facts@));
    }
    m
}

fn comp_token(facts: &[V326LifecycleFactRecord], mem: &Vec<bool>, c: &Vec<usize>, t: &str, Ghost(i): Ghost<int>) -> (r:
    bool)
    requires
        mem@.len() == facts@.len(),
        forall|j: int| #![trigger c@.contains(j as usize)] #![trigger in_comp(facts@, mem@, i, j)] 0 <= j < facts@.len() ==> (c@.contains(j as usize) <==> in_comp(facts@, mem@, i, j)),
        forall|k: int| 0 <= k < c@.len() ==> #[trigger] c@[k] < facts@.len(),
    ensures
        r == tok_in_comp(facts@, mem@, i, t@),
{
    let id = concat2("object_flow:", t);
    let mut k: usize = 0;
    while k < c.len()
        invariant
            0 <= k <= c@.len(),
            id@ == "object_flow:"@ + t@,
            forall|j: int| #![trigger c@.contains(j as usize)] #![trigger in_comp(facts@, mem@, i, j)] 0 <= j < facts@.len() ==> (c@.contains(j as usize) <==> in_comp(facts@, mem@, i, j)),
            forall|l: int| 0 <= l < c@.len() ==> #[trigger] c@[l] < facts@.len(),
            forall|l: int| 0 <= l < k ==> !ids_hold(facts@[#[trigger] c@[l] as int].object_ids@, id@),
        decreases c.len() - k,
    {
        if object_ids_hold(&facts[c[k]].object_ids, id.as_str()) {
            proof {
                assert(c@.contains(c@[k as int]));
                assert(in_comp(facts@, mem@, i, c@[k as int] as int));
            }
            return true;
        }
        k = k + 1;
    }
    proof {
        if tok_in_comp(facts@, mem@, i, t@) {
            let j = choose|j: int|
                0 <= j < facts@.len() && #[trigger] in_comp(facts@, mem@, i, j) && ids_hold(
                    facts@[j].object_ids@,
                    "object_flow:"@ + t@,
                );
            assert(facts@.len() == facts.len());
            assert(j as usize as int == j);
            assert(c@.contains(j as usize));
            let l = choose|l: int| 0 <= l < c@.len() && c@[l] == j as usize;
            assert(!ids_hold(facts@[c@[l] as int].object_ids@, id@));
        }
    }
    false
}

fn refs_token(facts: &[V326LifecycleFactRecord], mem: &Vec<bool>, c: &Vec<usize>, t: &str, Ghost(i): Ghost<int>) -> (r:
    bool)
    requires
        mem@.len() == facts@.len(),
        forall|j: int| #![trigger c@.contains(j as usize)] #![trigger in_comp(facts@, mem@, i, j)] 0 <= j < facts@.len() ==> (c@.contains(j as usize) <==> in_comp(facts@, mem@, i, j)),
        forall|k: int| 0 <= k < c@.len() ==> #[trigger] c@[k] < facts@.len(),
    ensures
        r == tok_in_refs(facts@, mem@, i, t@),
{
    let id = concat2("object_flow:", t);
    let mut a: usize = 0;
    while a < facts.len()
        invariant
            0 <= a <= facts@.len(),
            id@ == "object_flow:"@ + t@,
            mem@.len() == facts@.len(),
            forall|j: int| #![trigger c@.contains(j as usize)] #![trigger in_comp(facts@, mem@, i, j)] 0 <= j < facts@.len() ==> (c@.contains(j as usize) <==> in_comp(facts@, mem@, i, j)),
            forall|l: int| 0 <= l < c@.len() ==> #[trigger] c@[l] < facts@.len(),
            forall|a0: int|
                0 <= a0 < a && #[trigger] id_in_comp(facts@, mem@, i, facts@[a0].fact_id@) ==> !ids_hold(
                    facts@[a0].object_ids@,
                    id@,
                ),
        decreases facts.len() - a,
    {
        if comp_ids_contain(facts, mem, c, &facts[a].fact_id, Ghost(i)) && object_ids_hold(&facts[a].object_ids, id.as_str()) {
            return true;
        }
        a = a + 1;
    }
    false
}

fn comp_only_neutral_aliases(facts: &[V326LifecycleFactRecord], mem: &Vec<bool>, c: &Vec<usize>, Ghost(i): Ghost<int>) -> (r:
    bool)
    requires
        mem@.len() == facts@.len(),
        forall|j: int| #![trigger c@.contains(j as usize)] #![trigger in_comp(facts@, mem@, i, j)] 0 <= j < facts@.len() ==> (c@.contains(j as usize) <==> in_comp(facts@, mem@, i, j)),
        forall|k: int| 0 <= k < c@.len() ==> #[trigger] c@[k] < facts@.len(),
    ensures
        r == comp_only_neutral(facts@, mem@, i),
{
    let mut seen = false;
    let mut a: usize = 0;
    while a < facts.len()
        invariant
            0 <= a <= facts@.len(),
            mem@.len() == facts@.len(),
            forall|j: int| #![trigger c@.contains(j as usize)] #![trigger in_comp(facts@, mem@, i, j)] 0 <= j < facts@.len() ==> (c@.contains(j as usize) <==> in_comp(facts@, mem@, i, j)),
            forall|l: int| 0 <= l < c@.len() ==> #[trigger] c@[l] < facts@.len(),
            seen == exists|a0: int|
                0 <= a0 < a && #[trigger] id_in_comp(facts@, mem@, i, facts@[a0].fact_id@) && facts@[a0].fact_kind
                    == V326LifecycleFactKind::ObjectFlow,
            forall|a0: int|
                0 <= a0 < a && #[trigger] id_in_comp(facts@, mem@, i, facts@[a0].fact_id@) && facts@[a0].fact_kind
                    == V326LifecycleFactKind::ObjectFlow ==> is_neutral_alias(facts@[a0]),
        decreases facts.len() - a,
    {
        if facts[a].fact_kind == V326LifecycleFactKind::ObjectFlow && comp_ids_contain(facts, mem, c, &facts[a].fact_id, Ghost(i)) {
            seen = true;
            if !object_flow_fact_is_neutral_alias(&facts[a]) {
                return false;
            }
        }
        a = a + 1;
    }
    seen
}

/// Some object id of the component of a checked member is `x`: a reference of an object flow
/// whose component is complete.
pub open spec fn complete_flow_ref(facts: Seq<V326LifecycleFactRecord>, x: Seq<char>) -> bool {
    exists|i: int|
        0 <= i < facts.len() && complete_members(facts)[i] && comp_complete(facts, complete_members(facts), i)
            && #[trigger] id_in_comp(facts, complete_members(facts), i, x)
}

/// `e` is an endpoint of a flow in a complete component.
pub open spec fn complete_flow_end(facts: Seq<V326LifecycleFactRecord>, e: Seq<char>) -> bool {
    exists|i: int, j: int|
        0 <= i < facts.len() && 0 <= j < facts.len() && complete_members(facts)[i] && comp_complete(
            facts,
            complete_members(facts),
            i,
        ) && #[trigger] in_comp(facts, complete_members(facts), i, j) && ends(facts[j]).contains(e)
}

fn component_complete(facts: &[V326LifecycleFactRecord], mem: &Vec<bool>, c: &Vec<usize>, Ghost(i): Ghost<int>) -> (r: bool)
    requires
        mem@.len() == facts@.len(),
        forall|j: int| #![trigger c@.contains(j as usize)] #![trigger in_comp(facts@, mem@, i, j)] 0 <= j < facts@.len() ==> (c@.contains(j as usize) <==> in_comp(facts@, mem@, i, j)),
        forall|k: int| 0 <= k < c@.len() ==> #[trigger] c@[k] < facts@.len(),
    ensures
        r == comp_complete(facts@, mem@, i),
{
    comp_pair(facts, mem, c, "closure_capture", "field_load", Ghost(i)) || comp_pair(facts, mem, c, "return_value", "argument", Ghost(i))
        || comp_pair(facts, mem, c, "field_store", "field_load", Ghost(i)) || comp_pair(
        facts,
        mem,
        c,
        "wrapper_move",
        "wrapper_destructure",
        Ghost(i),
    ) || comp_pair(facts, mem, c, "collection_store", "collection_load", Ghost(i))
}

/// Whether `x` is the id of an object flow in a complete component.
pub fn is_complete_flow_ref(facts: &[V326LifecycleFactRecord], x: &String) -> (r: bool)
    ensures
        r == complete_flow_ref(facts@, x@),
{
    let mem = members(facts, true);
    let ghost m = complete_members(facts@);
    let mut i: usize = 0;
    while i < facts.len()
        invariant
            0 <= i <= facts@.len(),
            mem@ == m,
            m == complete_members(facts@),
            forall|i0: int| 0 <= i0 < i && m[i0] && comp_complete(facts@, m, i0) ==> !#[trigger] id_in_comp(facts@, m, i0, x@),
        decreases facts.len() - i,
    {
        if mem[i] {
            let c = flow_component(facts, &mem, i);
            if component_complete(facts, &mem, &c, Ghost(i as int)) && comp_ids_contain(facts, &mem, &c, x, Ghost(i as int)) {
                return true;
            }
        }
        i = i + 1;
    }
    false
}

/// Whether `e` is an endpoint of an object flow in a complete component.
pub fn is_complete_flow_end(facts: &[V326LifecycleFactRecord], e: &String) -> (r: bool)
    ensures
        r == complete_flow_end(facts@, e@),
{
    let mem = members(facts, true);
    let ghost m = complete_members(facts@);
    let mut i: usize = 0;
    while i < facts.len()
        invariant
            0 <= i <= facts@.len(),
            mem@ == m,
            m == complete_members(facts@),
            forall|i0: int, j: int|
                0 <= i0 < i && 0 <= j < facts@.len() && m[i0] && comp_complete(facts@, m, i0) && #[trigger] in_comp(facts@, m, i0, j)
                    ==> !ends(facts@[j]).contains(e@),
        decreases facts.len() - i,
    {
        if mem[i] {
            let c = flow_component(facts, &mem, i);
            let ghost gi = i as int;
            if component_complete(facts, &mem, &c, Ghost(gi)) {
                let mut k: usize = 0;
                while k < c.len()
                    invariant
                        0 <= k <= c@.len(),
                        0 <= gi < facts@.len(),
                        m == complete_members(facts@),
                        m[gi],
                        comp_complete(facts@, m, gi),
                        forall|j: int| #![trigger c@.contains(j as usize)] #![trigger in_comp(facts@, m, gi, j)] 0 <= j < facts@.len() ==> (c@.contains(j as usize) <==> in_comp(facts@, m, gi, j)),
                        forall|l: int| 0 <= l < c@.len() ==> #[trigger] c@[l] < facts@.len(),
                        forall|l: int| 0 <= l < k ==> !ends(facts@[#[trigger] c@[l] as int]).contains(e@),
                    decreases c.len() - k,
                {
                    let es = object_flow_endpoint_object_ids_in_order(&facts[c[k]]);
                    if object_ids_hold(&es, e.as_str()) {
                        proof {
                            let p = choose|p: int| 0 <= p < es@.len() && #[trigger] es@[p]@ == e@;
                            assert(text_views(es@)[p] == e@);
                            assert(ends(facts@[c@[k as int] as int]).contains(e@));
                            assert(c@.contains(c@[k as int]));
                            assert(in_comp(facts@, m, gi, c@[k as int] as int));
                        }
                        return true;
                    }
                    proof {
                        if ends(facts@[c@[k as int] as int]).contains(e@) {
                            let p = choose|p: int| 0 <= p < text_views(es@).len() && text_views(es@)[p] == e@;
                            assert(es@[p]@ == e@);
                        }
                    }
                    k = k + 1;
                }
                proof {
                    assert forall|j: int| 0 <= j < facts@.len() && #[trigger] in_comp(facts@, m, gi, j) implies !ends(facts@[j]).contains(e@) by {
                        assert(facts@.len() == facts.len());
                        assert(j as usize as int == j);
                        assert(c@.contains(j as usize));
                        let l = choose|l: int| 0 <= l < c@.len() && c@[l] == j as usize;
                    }
                }
            }
        }
        i = i + 1;
    }
    false
}

proof fn lemma_ids_where_has(facts: Seq<V326LifecycleFactRecord>, p: spec_fn(V326LifecycleFactRecord) -> bool, x: Seq<char>)
    ensures
        ids_where(facts, p).contains(x) <==> exists|k: int| 0 <= k < facts.len() && p(facts[k]) && #[trigger] facts[k].fact_id@ == x,
    decreases facts.len(),
{
    broadcast use vstd::seq_lib::group_seq_properties;

    if facts.len() > 0 {
        let d = facts.drop_last();
        lemma_ids_where_has(d, p, x);
        if exists|k: int| 0 <= k < d.len() && p(d[k]) && #[trigger] d[k].fact_id@ == x {
            let k = choose|k: int| 0 <= k < d.len() && p(d[k]) && #[trigger] d[k].fact_id@ == x;
            assert(facts[k] == d[k]);
        }
        if exists|k: int| 0 <= k < facts.len() && p(facts[k]) && #[trigger] facts[k].fact_id@ == x {
            let k = choose|k: int| 0 <= k < facts.len() && p(facts[k]) && #[trigger] facts[k].fact_id@ == x;
            if k < d.len() {
                assert(d[k] == facts[k]);
            }
        }
    }
}

/// The references of the object flows in complete components, in increasing order and each
/// once.
pub fn authoritative_complete_object_flow_refs(facts: &[V326LifecycleFactRecord]) -> (r: Vec<String>)
    ensures
        texts_strictly_sorted(text_views(r@)),
        forall|x: Seq<char>| text_views(r@).contains(x) <==> complete_flow_ref(facts@, x),
{
    let ghost p = |f: V326LifecycleFactRecord| complete_flow_ref(facts@, f.fact_id@);
    let all = fact_ids_where(
        facts,
        (|f: &V326LifecycleFactRecord| -> (b: bool)
            ensures
                b == complete_flow_ref(facts@, f.fact_id@),
            { is_complete_flow_ref(facts, &f.fact_id) }),
        Ghost(p),
    );
    let r = sorted_unique_texts(all);
    proof {
        assert forall|x: Seq<char>| text_views(r@).contains(x) <==> complete_flow_ref(facts@, x) by {
            assert(text_views(r@).contains(x) <==> text_views(r@).to_set().contains(x));
            assert(text_views(all@).contains(x) <==> text_views(all@).to_set().contains(x));
            lemma_ids_where_has(facts@, p, x);
            if complete_flow_ref(facts@, x) {
                let i = choose|i: int| 0 <= i < facts@.len() && complete_members(facts@)[i] && comp_complete(facts@, complete_members(facts@), i)
                    && #[trigger] id_in_comp(facts@, complete_members(facts@), i, x);
                let j = choose|j: int| 0 <= j < facts@.len() && #[trigger] in_comp(facts@, complete_members(facts@), i, j) && facts@[j].fact_id@ == x;
                assert(p(facts@[j]));
            }
        }
    }
    r
}


/// Some searched flow lacks two endpoints, or the component of one is incomplete without being
/// only neutral aliases.
pub open spec fn incomplete_component(facts: Seq<V326LifecycleFactRecord>) -> bool {
    let m = gap_members(facts);
    (exists|k: int| 0 <= k < facts.len() && m[k] && #[trigger] ends(facts[k]).len() < 2) || exists|i: int|
        0 <= i < facts.len() && m[i] && !comp_complete(facts, m, i) && !#[trigger] comp_only_neutral(facts, m, i)
}

/// Some component of a searched flow carries exactly one of the two flow tokens.
pub open spec fn incomplete_pair(facts: Seq<V326LifecycleFactRecord>, t1: Seq<char>, t2: Seq<char>) -> bool {
    let m = gap_members(facts);
    exists|i: int| 0 <= i < facts.len() && m[i] && #[trigger] tok_in_comp(facts, m, i, t1) != tok_in_comp(facts, m, i, t2)
}

/// Some component of a searched flow carries both flow tokens without a compatible pair of them.
pub open spec fn unverified_pair(facts: Seq<V326LifecycleFactRecord>, t1: Seq<char>, t2: Seq<char>) -> bool {
    let m = gap_members(facts);
    exists|i: int|
        0 <= i < facts.len() && m[i] && #[trigger] tok_in_refs(facts, m, i, t1) && tok_in_refs(facts, m, i, t2)
            && !pair_in_comp(facts, m, i, t1, t2)
}

/// Some component of a searched flow captures a closure slot without a compatible load of it.
pub open spec fn incomplete_closure_capture(facts: Seq<V326LifecycleFactRecord>) -> bool {
    let m = gap_members(facts);
    exists|i: int|
        0 <= i < facts.len() && m[i] && #[trigger] tok_in_refs(facts, m, i, "closure_capture"@) && (!tok_in_refs(
            facts,
            m,
            i,
            "field_load"@,
        ) || !pair_in_comp(facts, m, i, "closure_capture"@, "field_load"@))
}

/// What is asked of the component of a searched flow.
pub open spec fn gap_question(
    facts: Seq<V326LifecycleFactRecord>,
    q: int,
    i: int,
    t1: Seq<char>,
    t2: Seq<char>,
) -> bool {
    let m = gap_members(facts);
    if q == 0 {
        !comp_complete(facts, m, i) && !comp_only_neutral(facts, m, i)
    } else if q == 1 {
        tok_in_comp(facts, m, i, t1) != tok_in_comp(facts, m, i, t2)
    } else {
        tok_in_refs(facts, m, i, t1) && (!tok_in_refs(facts, m, i, t2) || !pair_in_comp(facts, m, i, t1, t2))
            && (q == 3 || tok_in_refs(facts, m, i, t2))
    }
}

fn any_gap_component(facts: &[V326LifecycleFactRecord], q: usize, t1: &str, t2: &str) -> (r: bool)
    requires
        q < 4,
    ensures
        r == exists|i: int| 0 <= i < facts@.len() && gap_members(facts@)[i] && #[trigger] gap_question(facts@, q as int, i, t1@, t2@),
{
    let mem = members(facts, false);
    let ghost m = gap_members(facts@);
    let mut i: usize = 0;
    while i < facts.len()
        invariant
            0 <= i <= facts@.len(),
            q < 4,
            mem@ == m,
            m == gap_members(facts@),
            forall|i0: int| 0 <= i0 < i && m[i0] ==> !#[trigger] gap_question(facts@, q as int, i0, t1@, t2@),
        decreases facts.len() - i,
    {
        if mem[i] {
            let c = flow_component(facts, &mem, i);
            let gi = Ghost(i as int);
            let hit = if q == 0 {
                !component_complete(facts, &mem, &c, gi) && !comp_only_neutral_aliases(facts, &mem, &c, gi)
            } else if q == 1 {
                comp_token(facts, &mem, &c, t1, gi) != comp_token(facts, &mem, &c, t2, gi)
            } else {
                let has1 = refs_token(facts, &mem, &c, t1, gi);
                let has2 = refs_token(facts, &mem, &c, t2, gi);
                has1 && (!has2 || !comp_pair(facts, &mem, &c, t1, t2, gi)) && (q == 3 || has2)
            };
            if hit {
                assert(gap_question(facts@, q as int, i as int, t1@, t2@));
                return true;
            }
        }
        i = i + 1;
    }
    false
}

/// Whether some searched flow lacks two endpoints or has an incomplete component.
pub fn has_incomplete_authoritative_object_flow_component(facts: &[V326LifecycleFactRecord]) -> (r: bool)
    ensures
        r == incomplete_component(facts@),
{
    let mem = members(facts, false);
    let mut k: usize = 0;
    while k < facts.len()
        invariant
            0 <= k <= facts@.len(),
            mem@ == gap_members(facts@),
            forall|j: int| 0 <= j < k && gap_members(facts@)[j] ==> !(#[trigger] ends(facts@[j]).len() < 2),
        decreases facts.len() - k,
    {
        if mem[k] && object_flow_endpoint_object_ids_in_order(&facts[k]).len() < 2 {
            return true;
        }
        k = k + 1;
    }
    let r = any_gap_component(facts, 0, "", "");
    proof {
        let m = gap_members(facts@);
        assert forall|i: int| 0 <= i < facts@.len() && m[i] implies (gap_question(facts@, 0, i, ""@, ""@) <==> (
        !comp_complete(facts@, m, i) && !comp_only_neutral(facts@, m, i))) by {}
    }
    r
}

/// Whether some component of a searched flow carries exactly one of the two flow tokens.
pub fn has_incomplete_authoritative_object_flow_pair(facts: &[V326LifecycleFactRecord], t1: &str, t2: &str) -> (r: bool)
    ensures
        r == incomplete_pair(facts@, t1@, t2@),
{
    let r = any_gap_component(facts, 1, t1, t2);
    proof {
        let m = gap_members(facts@);
        assert forall|i: int| 0 <= i < facts@.len() && m[i] implies (gap_question(facts@, 1, i, t1@, t2@) <==> (
        tok_in_comp(facts@, m, i, t1@) != tok_in_comp(facts@, m, i, t2@))) by {}
    }
    r
}

/// Whether some component of a searched flow carries both tokens without a compatible pair.
pub fn has_unverified_authoritative_object_flow_pair(facts: &[V326LifecycleFactRecord], t1: &str, t2: &str) -> (r: bool)
    ensures
        r == unverified_pair(facts@, t1@, t2@),
{
    let r = any_gap_component(facts, 2, t1, t2);
    proof {
        let m = gap_members(facts@);
        assert forall|i: int| 0 <= i < facts@.len() && m[i] implies (gap_question(facts@, 2, i, t1@, t2@) <==> (
        tok_in_refs(facts@, m, i, t1@) && tok_in_refs(facts@, m, i, t2@) && !pair_in_comp(facts@, m, i, t1@, t2@))) by {}
    }
    r
}

/// Whether some component of a searched flow captures a closure slot without a compatible load.
pub fn has_incomplete_closure_capture_component(facts: &[V326LifecycleFactRecord]) -> (r: bool)
    ensures
        r == incomplete_closure_capture(facts@),
{
    let r = any_gap_component(facts, 3, "closure_capture", "field_load");
    proof {
        let m = gap_members(facts@);
        assert forall|i: int| 0 <= i < facts@.len() && m[i] implies (gap_question(facts@, 3, i, "closure_capture"@, "field_load"@) <==> (
        tok_in_refs(facts@, m, i, "closure_capture"@) && (!tok_in_refs(facts@, m, i, "field_load"@) || !pair_in_comp(facts@, m, i, "closure_capture"@, "field_load"@)))) by {}
    }
    r
}

} // verus!
