//! The edges that authoritative lifecycle facts add to a lifecycle graph, and the objects they
//! bring along.

use vstd::prelude::*;

use crate::lifecycle_v326::{
    V326LifecycleFactKind, V326LifecycleFactRecord, V326LifecycleGraphV3Edge, V326LifecycleObject,
    V326LifecycleObjectKind, V326LifecycleOrdering, V326LifecycleRelation, V326SourceRef,
};
use crate::text::{
    clone_texts, concat2, concat3, lemma_text_lt_irreflexive, lemma_text_lt_total,
    lemma_text_lt_transitive, owned, skip_chars, starts_with, text_less, text_lt, text_views,
};
use crate::v326_facts::has_prefix;
use crate::v326_scoring::{sanitize_id_for_path, sanitized};

verus! {

/// The first id with the prefix.
pub open spec fn first_with_prefix(ids: Seq<Seq<char>>, p: Seq<char>) -> Option<Seq<char>>
    decreases ids.len(),
{
    if ids.len() == 0 {
        None
    } else if has_prefix(ids[0], p) {
        Some(ids[0])
    } else {
        first_with_prefix(ids.drop_first(), p)
    }
}

pub proof fn lemma_first_with_prefix_has(ids: Seq<Seq<char>>, p: Seq<char>)
    ensures
        first_with_prefix(ids, p) matches Some(x) ==> has_prefix(x, p),
    decreases ids.len(),
{
    if ids.len() > 0 && !has_prefix(ids[0], p) {
        lemma_first_with_prefix_has(ids.drop_first(), p);
    }
}

/// The first id with the first prefix that any id has.
pub open spec fn first_with_prefixes(ids: Seq<Seq<char>>, ps: Seq<Seq<char>>) -> Option<Seq<char>>
    decreases ps.len(),
{
    if ps.len() == 0 {
        None
    } else {
        match first_with_prefix(ids, ps[0]) {
            Some(x) => Some(x),
            None => first_with_prefixes(ids, ps.drop_first()),
        }
    }
}

/// The first object id of the fact with the prefix.
pub fn first_object_with_prefix(ids: &Vec<String>, p: &str) -> (r: Option<String>)
    ensures
        opt_view(r) == first_with_prefix(text_views(ids@), p@),
{
    let ghost v = text_views(ids@);
    assert(v.skip(0) =~= v);
    let mut i: usize = 0;
    while i < ids.len()
        invariant
            v == text_views(ids@),
            0 <= i <= v.len(),
            first_with_prefix(v, p@) == first_with_prefix(v.skip(i as int), p@),
        decreases ids.len() - i,
    {
        assert(v.skip(i as int)[0] == v[i as int]);
        assert(v.skip(i as int).drop_first() =~= v.skip(i + 1));
        if starts_with(ids[i].as_str(), p) {
            return Some(ids[i].clone());
        }
        i = i + 1;
    }
    None
}

/// The view of an optional text.
pub open spec fn opt_view(o: Option<String>) -> Option<Seq<char>> {
    match o {
        Some(s) => Some(s@),
        None => None,
    }
}

/// The first object id of the fact with the first prefix that any of its ids has.
pub fn first_fact_object_with_prefixes(fact: &V326LifecycleFactRecord, prefixes: &Vec<&str>) -> (r: Option<String>)
    ensures
        opt_view(r) == first_with_prefixes(text_views(fact.object_ids@), prefixes@.map_values(|p: &str| p@)),
{
    let ghost ps = prefixes@.map_values(|p: &str| p@);
    let ghost ids = text_views(fact.object_ids@);
    assert(ps.skip(0) =~= ps);
    let mut k: usize = 0;
    while k < prefixes.len()
        invariant
            ps == prefixes@.map_values(|p: &str| p@),
            ids == text_views(fact.object_ids@),
            0 <= k <= ps.len(),
            first_with_prefixes(ids, ps) == first_with_prefixes(ids, ps.skip(k as int)),
        decreases prefixes.len() - k,
    {
        assert(ps.skip(k as int)[0] == ps[k as int]);
        assert(ps.skip(k as int).drop_first() =~= ps.skip(k + 1));
        let found = first_object_with_prefix(&fact.object_ids, prefixes[k]);
        if found.is_some() {
            return found;
        }
        k = k + 1;
    }
    None
}

/// The ids that carry none of the prefixes of auxiliary ids of an object flow.
pub open spec fn is_flow_endpoint(id: Seq<char>) -> bool {
    !has_prefix(id, "object_flow:"@) && !has_prefix(id, "object_flow_binding:"@) && !has_prefix(
        id,
        "object_flow_binding_member:"@,
    ) && !has_prefix(id, "object_flow_binding_prefix:"@) && !has_prefix(id, "object_flow_binding_kind:"@)
        && !has_prefix(id, "object_binding_gap:"@) && !has_prefix(id, "adapter:"@) && !has_prefix(
        id,
        "returned_borrow_order:"@,
    ) && !has_prefix(id, "callback_release_use_order:"@) && !has_prefix(id, "atomic_operation:"@)
        && !has_prefix(id, "atomic_ordering:"@)
}

/// The ids that are object-flow endpoints, in order.
pub open spec fn flow_endpoints(ids: Seq<Seq<char>>) -> Seq<Seq<char>>
    decreases ids.len(),
{
    if ids.len() == 0 {
        seq![]
    } else if is_flow_endpoint(ids.last()) {
        flow_endpoints(ids.drop_last()).push(ids.last())
    } else {
        flow_endpoints(ids.drop_last())
    }
}

/// The first two object-flow endpoints among the ids.
pub open spec fn endpoints_in_order(ids: Seq<Seq<char>>) -> Seq<Seq<char>> {
    let e = flow_endpoints(ids);
    if e.len() <= 2 {
        e
    } else {
        e.take(2)
    }
}

fn flow_endpoint(id: &str) -> (b: bool)
    ensures
        b == is_flow_endpoint(id@),
{
    proof {
        reveal_strlit("object_flow:");
        reveal_strlit("object_flow_binding:");
        reveal_strlit("object_flow_binding_member:");
        reveal_strlit("object_flow_binding_prefix:");
        reveal_strlit("object_flow_binding_kind:");
        reveal_strlit("object_binding_gap:");
        reveal_strlit("adapter:");
        reveal_strlit("returned_borrow_order:");
        reveal_strlit("callback_release_use_order:");
        reveal_strlit("atomic_operation:");
        reveal_strlit("atomic_ordering:");
    }
    !starts_with(id, "object_flow:") && !starts_with(id, "object_flow_binding:") && !starts_with(
        id,
        "object_flow_binding_member:",
    ) && !starts_with(id, "object_flow_binding_prefix:") && !starts_with(id, "object_flow_binding_kind:")
        && !starts_with(id, "object_binding_gap:") && !starts_with(id, "adapter:") && !starts_with(
        id,
        "returned_borrow_order:",
    ) && !starts_with(id, "callback_release_use_order:") && !starts_with(id, "atomic_operation:")
        && !starts_with(id, "atomic_ordering:")
}

proof fn lemma_flow_endpoints_grow(ids: Seq<Seq<char>>, i: int)
    requires
        0 <= i < ids.len(),
    ensures
        flow_endpoints(ids.take(i + 1)) == if is_flow_endpoint(ids[i]) {
            flow_endpoints(ids.take(i)).push(ids[i])
        } else {
            flow_endpoints(ids.take(i))
        },
{
    assert(ids.take(i + 1).drop_last() =~= ids.take(i));
    assert(ids.take(i + 1).last() == ids[i]);
}

proof fn lemma_flow_endpoints_prefix(ids: Seq<Seq<char>>, i: int, j: int)
    requires
        0 <= i <= j <= ids.len(),
    ensures
        flow_endpoints(ids.take(i)).len() <= flow_endpoints(ids.take(j)).len(),
        flow_endpoints(ids.take(j)).take(flow_endpoints(ids.take(i)).len() as int) == flow_endpoints(ids.take(i)),
    decreases j - i,
{
    if i < j {
        lemma_flow_endpoints_prefix(ids, i, j - 1);
        lemma_flow_endpoints_grow(ids, j - 1);
        let a = flow_endpoints(ids.take(i));
        let b = flow_endpoints(ids.take(j - 1));
        let c = flow_endpoints(ids.take(j));
        if is_flow_endpoint(ids[j - 1]) {
            assert(c.take(a.len() as int) =~= b.take(a.len() as int));
        }
    } else {
        assert(flow_endpoints(ids.take(i)).take(flow_endpoints(ids.take(i)).len() as int) =~= flow_endpoints(
            ids.take(i),
        ));
    }
}

/// The first two object-flow endpoints of the fact, in order.
pub fn object_flow_endpoint_object_ids_in_order(fact: &V326LifecycleFactRecord) -> (r: Vec<String>)
    ensures
        text_views(r@) == endpoints_in_order(text_views(fact.object_ids@)),
{
    let ghost ids = text_views(fact.object_ids@);
    let mut out: Vec<String> = Vec::new();
    let mut i: usize = 0;
    while i < fact.object_ids.len() && out.len() < 2
        invariant
            ids == text_views(fact.object_ids@),
            0 <= i <= ids.len(),
            text_views(out@) == flow_endpoints(ids.take(i as int)),
            out@.len() <= 2,
        decreases fact.object_ids.len() - i,
    {
        let ghost before = text_views(out@);
        proof {
            lemma_flow_endpoints_grow(ids, i as int);
        }
        if flow_endpoint(fact.object_ids[i].as_str()) {
            out.push(fact.object_ids[i].clone());
            assert(text_views(out@) =~= before.push(ids[i as int]));
        }
        i = i + 1;
    }
    proof {
        lemma_flow_endpoints_prefix(ids, i as int, ids.len() as int);
        assert(ids.take(ids.len() as int) =~= ids);
        if out@.len() < 2 {
            assert(i == ids.len());
        } else {
            assert(flow_endpoints(ids).take(2) =~= text_views(out@));
        }
    }
    out
}

} // verus!

verus! {

/// The view of a source reference.
pub type SourceRefView = (Seq<char>, Option<u64>, Option<u64>, Option<Seq<char>>, Option<Seq<char>>);

/// The view of a lifecycle object: id, kind, label, source reference and fact references.
pub type ObjectView = (Seq<char>, V326LifecycleObjectKind, Seq<char>, Option<SourceRefView>, Seq<Seq<char>>);

/// The view of a source reference.
pub open spec fn source_ref_view(r: V326SourceRef) -> SourceRefView {
    (r.path@, r.line_start, r.line_end, opt_view(r.symbol_path), opt_view(r.text_sha256))
}

/// The view of an optional source reference.
pub open spec fn opt_source_view(r: Option<V326SourceRef>) -> Option<SourceRefView> {
    match r {
        Some(x) => Some(source_ref_view(x)),
        None => None,
    }
}

/// The view of a lifecycle object.
pub open spec fn object_view(o: V326LifecycleObject) -> ObjectView {
    (o.object_id@, o.object_kind, o.label@, opt_source_view(o.source_ref), text_views(o.fact_refs@))
}

/// The views of the lifecycle objects.
pub open spec fn object_views(objs: Seq<V326LifecycleObject>) -> Seq<ObjectView> {
    objs.map_values(|o: V326LifecycleObject| object_view(o))
}

/// The objects are in strictly increasing order of their ids, so no id occurs twice.
pub open spec fn ids_strictly_sorted(objs: Seq<ObjectView>) -> bool {
    forall|i: int, j: int| 0 <= i < j < objs.len() ==> text_lt(#[trigger] objs[i].0, #[trigger] objs[j].0)
}

/// The references of `old`, then those of `new` that are not yet among them, in order.
pub open spec fn merge_refs(old: Seq<Seq<char>>, new: Seq<Seq<char>>) -> Seq<Seq<char>>
    decreases new.len(),
{
    if new.len() == 0 {
        old
    } else {
        let acc = merge_refs(old, new.drop_last());
        if acc.contains(new.last()) {
            acc
        } else {
            acc.push(new.last())
        }
    }
}

/// Where an id goes among sorted objects: after every object with a smaller id.
pub open spec fn insert_pos(objs: Seq<ObjectView>, id: Seq<char>) -> int
    decreases objs.len(),
{
    if objs.len() == 0 {
        0
    } else if text_lt(objs.last().0, id) {
        objs.len() as int
    } else {
        insert_pos(objs.drop_last(), id)
    }
}

/// The objects with `o` added: an object with its id keeps its kind and label, takes `o`'s
/// source reference if it had none, and gains `o`'s fact references it lacks; otherwise `o`
/// joins in the order of ids.
pub open spec fn added(objs: Seq<ObjectView>, o: ObjectView) -> Seq<ObjectView> {
    if exists|i: int| 0 <= i < objs.len() && (#[trigger] objs[i]).0 == o.0 {
        let i = choose|i: int| 0 <= i < objs.len() && (#[trigger] objs[i]).0 == o.0;
        let x = objs[i];
        objs.update(i, (x.0, x.1, x.2, if x.3 is None { o.3 } else { x.3 }, merge_refs(x.4, o.4)))
    } else {
        objs.insert(insert_pos(objs, o.0), o)
    }
}

proof fn lemma_insert_pos(objs: Seq<ObjectView>, id: Seq<char>, p: int)
    requires
        ids_strictly_sorted(objs),
        0 <= p <= objs.len(),
        forall|k: int| 0 <= k < p ==> text_lt(#[trigger] objs[k].0, id),
        p == objs.len() || !text_lt(objs[p].0, id),
    ensures
        insert_pos(objs, id) == p,
    decreases objs.len(),
{
    if objs.len() > 0 {
        if p == objs.len() {
            assert(text_lt(objs[objs.len() - 1].0, id));
        } else {
            let l = objs.len() - 1;
            assert(objs.last() == objs[l]);
            assert forall|k: int| 0 <= k < p implies text_lt(#[trigger] objs.drop_last()[k].0, id) by {
                assert(objs.drop_last()[k] == objs[k]);
            }
            assert(!text_lt(objs[l].0, id)) by {
                if p < l && text_lt(objs[l].0, id) {
                    assert(text_lt(objs[p].0, objs[l].0));
                    lemma_text_lt_transitive(objs[p].0, objs[l].0, id);
                }
            }
            lemma_insert_pos(objs.drop_last(), id, p);
        }
    }
}

fn copy_text_opt(o: &Option<String>) -> (r: Option<String>)
    ensures
        opt_view(r) == opt_view(*o),
{
    match o {
        Some(s) => Some(s.clone()),
        None => None,
    }
}

/// A copy of the source reference.
pub fn copy_source_ref(r: &V326SourceRef) -> (c: V326SourceRef)
    ensures
        source_ref_view(c) == source_ref_view(*r),
{
    V326SourceRef {
        path: r.path.clone(),
        line_start: r.line_start,
        line_end: r.line_end,
        symbol_path: copy_text_opt(&r.symbol_path),
        text_sha256: copy_text_opt(&r.text_sha256),
    }
}

fn merge_fact_refs(refs: &mut Vec<String>, new: &Vec<String>)
    ensures
        text_views(final(refs)@) == merge_refs(text_views(old(refs)@), text_views(new@)),
{
    let ghost start = text_views(refs@);
    let mut i: usize = 0;
    while i < new.len()
        invariant
            0 <= i <= new@.len(),
            text_views(refs@) == merge_refs(start, text_views(new@.take(i as int))),
        decreases new.len() - i,
    {
        let ghost before = text_views(refs@);
        assert(text_views(new@.take(i + 1)).drop_last() =~= text_views(new@.take(i as int)));
        assert(text_views(new@.take(i + 1)).last() == new@[i as int]@);
        if !crate::checks::contains_text(refs, &new[i]) {
            refs.push(new[i].clone());
            assert(text_views(refs@) =~= before.push(new@[i as int]@));
            assert(!before.contains(new@[i as int]@)) by {
                if before.contains(new@[i as int]@) {
                    let w = choose|w: int| 0 <= w < before.len() && before[w] == new@[i as int]@;
                    assert(refs@[w]@ == new@[i as int]@);
                }
            }
        } else {
            proof {
                let w = choose|w: int| 0 <= w < refs@.len() && (#[trigger] refs@[w])@ == new@[i as int]@;
                assert(before[w] == new@[i as int]@);
            }
        }
        i = i + 1;
    }
    assert(new@.take(new@.len() as int) =~= new@);
}

/// Adds an object to the objects kept in order of their ids, or merges it into the object with
/// its id.
pub fn add_object(
    objects: &mut Vec<V326LifecycleObject>,
    object_id: String,
    object_kind: V326LifecycleObjectKind,
    label: String,
    source_ref: Option<V326SourceRef>,
    fact_refs: Vec<String>,
)
    requires
        ids_strictly_sorted(object_views(old(objects)@)),
    ensures
        ids_strictly_sorted(object_views(final(objects)@)),
        object_views(final(objects)@) == added(
            object_views(old(objects)@),
            (object_id@, object_kind, label@, opt_source_view(source_ref), text_views(fact_refs@)),
        ),
{
    let ghost ov = object_views(objects@);
    let ghost o: ObjectView = (object_id@, object_kind, label@, opt_source_view(source_ref), text_views(fact_refs@));
    let mut p: usize = 0;
    while p < objects.len() && text_less(objects[p].object_id.as_str(), object_id.as_str())
        invariant
            ov == object_views(objects@),
            0 <= p <= objects@.len(),
            forall|k: int| 0 <= k < p ==> text_lt(#[trigger] ov[k].0, object_id@),
        decreases objects.len() - p,
    {
        p = p + 1;
    }
    if p < objects.len() && objects[p].object_id == object_id {
        assert(ov[p as int].0 == o.0);
        proof {
            assert forall|i: int| 0 <= i < ov.len() && (#[trigger] ov[i]).0 == o.0 implies i == p by {
                if i < p {
                    lemma_text_lt_irreflexive(o.0);
                } else if i > p {
                    assert(text_lt(ov[p as int].0, ov[i].0));
                    lemma_text_lt_irreflexive(o.0);
                }
            }
        }
        let mut x = objects.remove(p);
        if x.source_ref.is_none() {
            x.source_ref = source_ref;
        }
        merge_fact_refs(&mut x.fact_refs, &fact_refs);
        objects.insert(p, x);
        assert(object_views(objects@) =~= added(ov, o));
    } else {
        proof {
            if p < ov.len() {
                lemma_text_lt_total(ov[p as int].0, o.0);
            }
            lemma_insert_pos(ov, o.0, p as int);
            assert forall|i: int| 0 <= i < ov.len() implies (#[trigger] ov[i]).0 != o.0 by {
                if i < p {
                    lemma_text_lt_irreflexive(o.0);
                } else if i > p {
                    assert(text_lt(ov[p as int].0, ov[i].0));
                    lemma_text_lt_transitive(o.0, ov[p as int].0, ov[i].0);
                    lemma_text_lt_irreflexive(o.0);
                } else {
                }
            }
        }
        let n = V326LifecycleObject { object_id, object_kind, label, source_ref, fact_refs };
        objects.insert(p, n);
        let ghost nv = object_views(objects@);
        assert(nv =~= ov.insert(p as int, o));
        assert(nv =~= added(ov, o));
        assert forall|i: int, j: int| 0 <= i < j < nv.len() implies text_lt(#[trigger] nv[i].0, #[trigger] nv[j].0) by {
            if j < p {
            } else if i > p {
                assert(nv[i] == ov[i - 1] && nv[j] == ov[j - 1]);
            } else if i == p {
                assert(nv[j] == ov[j - 1]);
                if j - 1 > p {
                    assert(text_lt(ov[p as int].0, ov[j - 1].0));
                    lemma_text_lt_transitive(o.0, ov[p as int].0, ov[j - 1].0);
                }
            } else if j == p {
            } else {
                assert(nv[j] == ov[j - 1]);
                assert(text_lt(ov[i].0, o.0));
                if j - 1 == p as int {
                    lemma_text_lt_transitive(ov[i].0, o.0, ov[p as int].0);
                } else {
                    assert(text_lt(ov[i].0, ov[j - 1].0));
                }
            }
        }
    }
}

} // verus!

verus! {

/// The ids with the prefix, in order.
pub open spec fn prefixed(ids: Seq<Seq<char>>, p: Seq<char>) -> Seq<Seq<char>>
    decreases ids.len(),
{
    if ids.len() == 0 {
        seq![]
    } else if has_prefix(ids.last(), p) {
        prefixed(ids.drop_last(), p).push(ids.last())
    } else {
        prefixed(ids.drop_last(), p)
    }
}

fn prefixed_ids(ids: &Vec<String>, p: &str) -> (r: Vec<String>)
    ensures
        text_views(r@) == prefixed(text_views(ids@), p@),
{
    let ghost v = text_views(ids@);
    let mut out: Vec<String> = Vec::new();
    let mut i: usize = 0;
    while i < ids.len()
        invariant
            v == text_views(ids@),
            0 <= i <= v.len(),
            text_views(out@) == prefixed(v.take(i as int), p@),
        decreases ids.len() - i,
    {
        let ghost before = text_views(out@);
        assert(v.take(i + 1).drop_last() =~= v.take(i as int));
        assert(v.take(i + 1).last() == v[i as int]);
        if starts_with(ids[i].as_str(), p) {
            out.push(ids[i].clone());
            assert(text_views(out@) =~= before.push(v[i as int]));
        }
        i = i + 1;
    }
    assert(v.take(v.len() as int) =~= v);
    out
}

fn contains_id(ids: &Vec<String>, x: &str) -> (b: bool)
    ensures
        b == text_views(ids@).contains(x@),
{
    let mut i: usize = 0;
    while i < ids.len()
        invariant
            0 <= i <= ids@.len(),
            forall|k: int| 0 <= k < i ==> (#[trigger] ids@[k])@ != x@,
        decreases ids.len() - i,
    {
        if ids[i] == owned(x) {
            assert(text_views(ids@)[i as int] == x@);
            return true;
        }
        i = i + 1;
    }
    assert forall|k: int| 0 <= k < text_views(ids@).len() implies text_views(ids@)[k] != x@ by {
        assert(ids@[k]@ != x@);
    }
    false
}

/// The shape of an edge: its endpoints, relation and ordering.
pub type EdgeShape = (Seq<char>, Seq<char>, V326LifecycleRelation, V326LifecycleOrdering);

/// The ordering that a callback release/use order fact gives its edge.
pub open spec fn use_order_ordering(ids: Seq<Seq<char>>) -> V326LifecycleOrdering {
    if ids.contains("callback_release_use_order:release_before_callback_use"@) {
        V326LifecycleOrdering::After
    } else if ids.contains("callback_release_use_order:callback_use_before_release"@) {
        V326LifecycleOrdering::Before
    } else {
        V326LifecycleOrdering::Unknown
    }
}

/// The relation of an object flow of the kind.
pub open spec fn flow_relation(kind: Seq<char>) -> V326LifecycleRelation {
    if kind == "field_store"@ || kind == "collection_store"@ {
        V326LifecycleRelation::Persist
    } else if kind == "closure_capture"@ {
        V326LifecycleRelation::Borrow
    } else {
        V326LifecycleRelation::Move
    }
}

/// The edge of a returned-borrow invalidation order fact: from the invalidation to the use
/// where the invalidation comes before the use of what was persisted, else from the persisted
/// borrow to the invalidation; ordered before.
pub open spec fn returned_borrow_order_shape(ids: Seq<Seq<char>>) -> Option<EdgeShape> {
    let ss = prefixed(ids, "static_site:"@);
    if ss.len() < 3 {
        None
    } else if ids.contains("returned_borrow_order:invalidation_before_persistence_use"@) {
        Some((ss[1], ss[2], V326LifecycleRelation::Use, V326LifecycleOrdering::Before))
    } else {
        Some((ss[0], ss[1], V326LifecycleRelation::Invalidate, V326LifecycleOrdering::Before))
    }
}

/// The edge of an object flow fact: between its first two endpoints, with the relation of its
/// flow kind, at the same site.
pub open spec fn object_flow_shape(ids: Seq<Seq<char>>) -> Option<EdgeShape> {
    let e = endpoints_in_order(ids);
    match first_with_prefix(ids, "object_flow:"@) {
        Some(k) => if e.len() >= 2 {
            Some((e[0], e[1], flow_relation(k.skip(12)), V326LifecycleOrdering::SameSite))
        } else {
            None
        },
        None => None,
    }
}

/// The id of the release endpoint object a fact brings: `release_endpoint:` and its sanitized
/// fact id.
pub open spec fn own_release_id(f: V326LifecycleFactRecord) -> Seq<char> {
    "release_endpoint:"@ + sanitized(f.fact_id@)
}

/// Some value, or else the default.
pub open spec fn or_else(o: Option<Seq<char>>, d: Seq<char>) -> Seq<char> {
    match o {
        Some(x) => x,
        None => d,
    }
}

/// The shape of the edge an authoritative fact adds to the graph, by its kind and its object
/// ids, if it adds one.
pub open spec fn edge_shape(f: V326LifecycleFactRecord, owner: Seq<char>) -> Option<EdgeShape> {
    let ids = text_views(f.object_ids@);
    let cb_ud = first_with_prefixes(ids, seq!["callback:"@, "user_data:"@]);
    let ud_cb = first_with_prefixes(ids, seq!["user_data:"@, "callback:"@]);
    let rel_ep = first_with_prefix(ids, "release_endpoint:"@);
    let rust_owner = first_with_prefix(ids, "rust_owner:"@);
    let cb = first_with_prefix(ids, "callback:"@);
    let ud = first_with_prefix(ids, "user_data:"@);
    let same = V326LifecycleOrdering::SameSite;
    match f.fact_kind {
        V326LifecycleFactKind::RegisterCall => match cb_ud {
            Some(from) => Some((from, owner, V326LifecycleRelation::Register, same)),
            None => None,
        },
        V326LifecycleFactKind::ReplaceCall => match cb_ud {
            Some(from) => Some((from, owner, V326LifecycleRelation::Replace, same)),
            None => None,
        },
        V326LifecycleFactKind::UnregisterCall | V326LifecycleFactKind::ReleaseCall => match cb_ud {
            Some(from) => Some(
                (from, or_else(rel_ep, own_release_id(f)), V326LifecycleRelation::Release, V326LifecycleOrdering::Unknown),
            ),
            None => None,
        },
        V326LifecycleFactKind::ReleasePathProof => match ud_cb {
            Some(from) => Some(
                (from, or_else(rel_ep, own_release_id(f)), V326LifecycleRelation::Release, V326LifecycleOrdering::After),
            ),
            None => None,
        },
        V326LifecycleFactKind::BorrowedCapture => match (rust_owner, cb) {
            (Some(from), Some(to)) => Some((from, to, V326LifecycleRelation::Borrow, same)),
            _ => None,
        },
        V326LifecycleFactKind::OwnedMoveCapture => match (rust_owner, cb) {
            (Some(from), Some(to)) => Some((from, to, V326LifecycleRelation::Move, same)),
            _ => None,
        },
        V326LifecycleFactKind::DropImpl | V326LifecycleFactKind::DropSite => match rust_owner {
            Some(from) => Some((from, own_release_id(f), V326LifecycleRelation::Drop, V326LifecycleOrdering::Unknown)),
            None => None,
        },
        V326LifecycleFactKind::CallbackUserDataReconstruction => match (ud, rust_owner) {
            (Some(from), Some(to)) => Some((from, to, V326LifecycleRelation::Use, same)),
            _ => None,
        },
        V326LifecycleFactKind::CallbackReleaseUseOrder => {
            let ss = prefixed(ids, "static_site:"@);
            match rel_ep {
                Some(from) => if ss.len() >= 2 {
                    Some((from, ss[1], V326LifecycleRelation::Use, use_order_ordering(ids)))
                } else {
                    None
                },
                None => None,
            }
        },
        V326LifecycleFactKind::RawPointerEscape => match ud {
            Some(from) => Some((from, owner, V326LifecycleRelation::RawEscape, same)),
            None => None,
        },
        V326LifecycleFactKind::ReturnedBorrowRelation => match (rust_owner, first_with_prefix(ids, "returned_ref:"@)) {
            (Some(from), Some(to)) => Some((from, to, V326LifecycleRelation::Borrow, same)),
            _ => None,
        },
        V326LifecycleFactKind::PersistedReturnedBorrow => match (
            first_with_prefix(ids, "returned_ref:"@),
            first_with_prefix(ids, "storage:"@),
        ) {
            (Some(from), Some(to)) => Some((from, to, V326LifecycleRelation::Persist, same)),
            _ => None,
        },
        V326LifecycleFactKind::ReturnedBorrowInvalidationOrder => returned_borrow_order_shape(ids),
        V326LifecycleFactKind::ExternalBufferBinding => match (rust_owner, ud) {
            (Some(from), Some(to)) => Some((from, to, V326LifecycleRelation::RawEscape, same)),
            _ => None,
        },
        V326LifecycleFactKind::ObjectFlow => object_flow_shape(ids),
        _ => None,
    }
}

/// The label of the release endpoint object that a fact's edge brings along, if it brings one:
/// releases and release-path proofs without a release endpoint among their ids, and drops.
pub open spec fn release_label(f: V326LifecycleFactRecord) -> Option<Seq<char>> {
    let ids = text_views(f.object_ids@);
    let rel_ep = first_with_prefix(ids, "release_endpoint:"@);
    match f.fact_kind {
        V326LifecycleFactKind::UnregisterCall | V326LifecycleFactKind::ReleaseCall => if first_with_prefixes(
            ids,
            seq!["callback:"@, "user_data:"@],
        ) is Some && rel_ep is None {
            Some("release endpoint"@)
        } else {
            None
        },
        V326LifecycleFactKind::ReleasePathProof => if first_with_prefixes(ids, seq!["user_data:"@, "callback:"@]) is Some
            && rel_ep is None {
            Some("release path proof endpoint"@)
        } else {
            None
        },
        V326LifecycleFactKind::DropImpl | V326LifecycleFactKind::DropSite => if first_with_prefix(
            ids,
            "rust_owner:"@,
        ) is Some {
            Some("drop endpoint"@)
        } else {
            None
        },
        _ => None,
    }
}

/// The release endpoint object a fact brings, with the label.
pub open spec fn release_object(f: V326LifecycleFactRecord, label: Seq<char>) -> ObjectView {
    (
        own_release_id(f),
        V326LifecycleObjectKind::ReleaseEndpoint,
        label,
        Some(source_ref_view(f.source_ref)),
        seq![f.fact_id@],
    )
}

/// The objects after a fact's edge shape was read: with its release endpoint object where the
/// shape brings one.
pub open spec fn objects_after_shape(objs: Seq<ObjectView>, f: V326LifecycleFactRecord) -> Seq<ObjectView> {
    match release_label(f) {
        Some(label) => added(objs, release_object(f, label)),
        None => objs,
    }
}

fn first_of_two(fact: &V326LifecycleFactRecord, a: &str, b: &str) -> (r: Option<String>)
    ensures
        opt_view(r) == first_with_prefixes(text_views(fact.object_ids@), seq![a@, b@]),
{
    let ghost ids = text_views(fact.object_ids@);
    assert(seq![a@, b@].drop_first() =~= seq![b@]);
    assert(seq![b@].drop_first() =~= Seq::<Seq<char>>::empty());
    proof {
        reveal_with_fuel(first_with_prefixes, 3);
    }
    match first_object_with_prefix(&fact.object_ids, a) {
        Some(x) => Some(x),
        None => first_object_with_prefix(&fact.object_ids, b),
    }
}

/// Adds the release endpoint object of the fact and gives its id.
pub fn release_endpoint_object_for_fact(
    objects: &mut Vec<V326LifecycleObject>,
    fact: &V326LifecycleFactRecord,
    label: &str,
) -> (id: String)
    requires
        ids_strictly_sorted(object_views(old(objects)@)),
    ensures
        ids_strictly_sorted(object_views(final(objects)@)),
        object_views(final(objects)@) == added(object_views(old(objects)@), release_object(*fact, label@)),
        id@ == own_release_id(*fact),
{
    proof {
        reveal_strlit("release_endpoint:");
    }
    let object_id = concat2("release_endpoint:", sanitize_id_for_path(fact.fact_id.as_str()).as_str());
    let mut refs: Vec<String> = Vec::new();
    refs.push(fact.fact_id.clone());
    assert(text_views(refs@) =~= seq![fact.fact_id@]);
    add_object(objects, object_id.clone(), V326LifecycleObjectKind::ReleaseEndpoint, owned(label), Some(copy_source_ref(&fact.source_ref)), refs);
    object_id
}

} // verus!

verus! {

/// The view of an edge shape.
pub open spec fn shape_view(r: Option<(String, String, V326LifecycleRelation, V326LifecycleOrdering)>) -> Option<
    EdgeShape,
> {
    match r {
        Some(t) => Some((t.0@, t.1@, t.2, t.3)),
        None => None,
    }
}

fn nth_id(ids: &Vec<String>, n: usize) -> (r: Option<String>)
    ensures
        opt_view(r) == if n < ids@.len() { Some(ids@[n as int]@) } else { None },
{
    if n < ids.len() {
        Some(ids[n].clone())
    } else {
        None
    }
}

fn use_order_edge_ordering(fact: &V326LifecycleFactRecord) -> (r: V326LifecycleOrdering)
    ensures
        r == use_order_ordering(text_views(fact.object_ids@)),
{
    if contains_id(&fact.object_ids, "callback_release_use_order:release_before_callback_use") {
        V326LifecycleOrdering::After
    } else if contains_id(&fact.object_ids, "callback_release_use_order:callback_use_before_release") {
        V326LifecycleOrdering::Before
    } else {
        V326LifecycleOrdering::Unknown
    }
}

fn relation_from_object_flow_kind(kind: &str) -> (r: V326LifecycleRelation)
    ensures
        r == flow_relation(kind@),
{
    let k = owned(kind);
    if k == owned("field_store") || k == owned("collection_store") {
        V326LifecycleRelation::Persist
    } else if k == owned("closure_capture") {
        V326LifecycleRelation::Borrow
    } else {
        V326LifecycleRelation::Move
    }
}

fn object_flow_edge_shape(fact: &V326LifecycleFactRecord) -> (r: Option<(String, String, V326LifecycleRelation, V326LifecycleOrdering)>)
    ensures
        shape_view(r) == object_flow_shape(text_views(fact.object_ids@)),
{
    let kind = match first_object_with_prefix(&fact.object_ids, "object_flow:") {
        Some(k) => k,
        None => {
            return None;
        },
    };
    proof {
        reveal_strlit("object_flow:");
        lemma_first_with_prefix_has(text_views(fact.object_ids@), "object_flow:"@);
    }
    let e = object_flow_endpoint_object_ids_in_order(fact);
    if e.len() < 2 {
        return None;
    }
    let flow_kind = skip_chars(kind.as_str(), 12);
    Some((e[0].clone(), e[1].clone(), relation_from_object_flow_kind(flow_kind.as_str()), V326LifecycleOrdering::SameSite))
}

fn returned_borrow_order_edge_shape(fact: &V326LifecycleFactRecord) -> (r: Option<(String, String, V326LifecycleRelation, V326LifecycleOrdering)>)
    ensures
        shape_view(r) == returned_borrow_order_shape(text_views(fact.object_ids@)),
{
    let ss = prefixed_ids(&fact.object_ids, "static_site:");
    if ss.len() < 3 {
        return None;
    }
    if contains_id(&fact.object_ids, "returned_borrow_order:invalidation_before_persistence_use") {
        Some((ss[1].clone(), ss[2].clone(), V326LifecycleRelation::Use, V326LifecycleOrdering::Before))
    } else {
        Some((ss[0].clone(), ss[1].clone(), V326LifecycleRelation::Invalidate, V326LifecycleOrdering::Before))
    }
}

fn pair_shape(
    from: Option<String>,
    to: Option<String>,
    relation: V326LifecycleRelation,
    ordering: V326LifecycleOrdering,
) -> (r: Option<(String, String, V326LifecycleRelation, V326LifecycleOrdering)>)
    ensures
        shape_view(r) == match (opt_view(from), opt_view(to)) {
            (Some(a), Some(b)) => Some((a, b, relation, ordering)),
            _ => None,
        },
{
    match (from, to) {
        (Some(a), Some(b)) => Some((a, b, relation, ordering)),
        _ => None,
    }
}

/// The edge an authoritative fact adds to the graph, by its kind and its object ids; a release
/// or drop without its own release endpoint id brings a release endpoint object into the
/// objects.
pub fn fact_edge_shape(
    fact: &V326LifecycleFactRecord,
    foreign_owner_id: &str,
    objects: &mut Vec<V326LifecycleObject>,
) -> (r: Option<(String, String, V326LifecycleRelation, V326LifecycleOrdering)>)
    requires
        ids_strictly_sorted(object_views(old(objects)@)),
    ensures
        ids_strictly_sorted(object_views(final(objects)@)),
        shape_view(r) == edge_shape(*fact, foreign_owner_id@),
        object_views(final(objects)@) == objects_after_shape(object_views(old(objects)@), *fact),
{
    let owner = owned(foreign_owner_id);
    let same = V326LifecycleOrdering::SameSite;
    match fact.fact_kind {
        V326LifecycleFactKind::RegisterCall => {
            pair_shape(first_of_two(fact, "callback:", "user_data:"), Some(owner), V326LifecycleRelation::Register, same)
        },
        V326LifecycleFactKind::ReplaceCall => {
            pair_shape(first_of_two(fact, "callback:", "user_data:"), Some(owner), V326LifecycleRelation::Replace, same)
        },
        V326LifecycleFactKind::UnregisterCall | V326LifecycleFactKind::ReleaseCall => {
            let from = match first_of_two(fact, "callback:", "user_data:") {
                Some(x) => x,
                None => {
                    return None;
                },
            };
            let release_id = match first_object_with_prefix(&fact.object_ids, "release_endpoint:") {
                Some(x) => x,
                None => release_endpoint_object_for_fact(objects, fact, "release endpoint"),
            };
            proof {
                reveal_strlit("release endpoint");
            }
            Some((from, release_id, V326LifecycleRelation::Release, V326LifecycleOrdering::Unknown))
        },
        V326LifecycleFactKind::ReleasePathProof => {
            let from = match first_of_two(fact, "user_data:", "callback:") {
                Some(x) => x,
                None => {
                    return None;
                },
            };
            let release_id = match first_object_with_prefix(&fact.object_ids, "release_endpoint:") {
                Some(x) => x,
                None => release_endpoint_object_for_fact(objects, fact, "release path proof endpoint"),
            };
            Some((from, release_id, V326LifecycleRelation::Release, V326LifecycleOrdering::After))
        },
        V326LifecycleFactKind::BorrowedCapture => {
            pair_shape(
                first_object_with_prefix(&fact.object_ids, "rust_owner:"),
                first_object_with_prefix(&fact.object_ids, "callback:"),
                V326LifecycleRelation::Borrow,
                same,
            )
        },
        V326LifecycleFactKind::OwnedMoveCapture => {
            pair_shape(
                first_object_with_prefix(&fact.object_ids, "rust_owner:"),
                first_object_with_prefix(&fact.object_ids, "callback:"),
                V326LifecycleRelation::Move,
                same,
            )
        },
        V326LifecycleFactKind::DropImpl | V326LifecycleFactKind::DropSite => {
            let from = match first_object_with_prefix(&fact.object_ids, "rust_owner:") {
                Some(x) => x,
                None => {
                    return None;
                },
            };
            let drop_id = release_endpoint_object_for_fact(objects, fact, "drop endpoint");
            Some((from, drop_id, V326LifecycleRelation::Drop, V326LifecycleOrdering::Unknown))
        },
        V326LifecycleFactKind::CallbackUserDataReconstruction => {
            pair_shape(
                first_object_with_prefix(&fact.object_ids, "user_data:"),
                first_object_with_prefix(&fact.object_ids, "rust_owner:"),
                V326LifecycleRelation::Use,
                same,
            )
        },
        V326LifecycleFactKind::CallbackReleaseUseOrder => {
            let from = match first_object_with_prefix(&fact.object_ids, "release_endpoint:") {
                Some(x) => x,
                None => {
                    return None;
                },
            };
            let ss = prefixed_ids(&fact.object_ids, "static_site:");
            let to = match nth_id(&ss, 1) {
                Some(x) => x,
                None => {
                    return None;
                },
            };
            Some((from, to, V326LifecycleRelation::Use, use_order_edge_ordering(fact)))
        },
        V326LifecycleFactKind::RawPointerEscape => {
            pair_shape(first_object_with_prefix(&fact.object_ids, "user_data:"), Some(owner), V326LifecycleRelation::RawEscape, same)
        },
        V326LifecycleFactKind::ReturnedBorrowRelation => {
            pair_shape(
                first_object_with_prefix(&fact.object_ids, "rust_owner:"),
                first_object_with_prefix(&fact.object_ids, "returned_ref:"),
                V326LifecycleRelation::Borrow,
                same,
            )
        },
        V326LifecycleFactKind::PersistedReturnedBorrow => {
            pair_shape(
                first_object_with_prefix(&fact.object_ids, "returned_ref:"),
                first_object_with_prefix(&fact.object_ids, "storage:"),
                V326LifecycleRelation::Persist,
                same,
            )
        },
        V326LifecycleFactKind::ReturnedBorrowInvalidationOrder => returned_borrow_order_edge_shape(fact),
        V326LifecycleFactKind::ExternalBufferBinding => {
            pair_shape(
                first_object_with_prefix(&fact.object_ids, "rust_owner:"),
                first_object_with_prefix(&fact.object_ids, "user_data:"),
                V326LifecycleRelation::RawEscape,
                same,
            )
        },
        V326LifecycleFactKind::ObjectFlow => object_flow_edge_shape(fact),
        _ => None,
    }
}

} // verus!

verus! {

/// The token of a lifecycle relation.
pub open spec fn relation_token(r: V326LifecycleRelation) -> Seq<char> {
    match r {
        V326LifecycleRelation::Register => "register"@,
        V326LifecycleRelation::Retain => "retain"@,
        V326LifecycleRelation::Replace => "replace"@,
        V326LifecycleRelation::Release => "release"@,
        V326LifecycleRelation::Drop => "drop"@,
        V326LifecycleRelation::Borrow => "borrow"@,
        V326LifecycleRelation::Persist => "persist"@,
        V326LifecycleRelation::Invalidate => "invalidate"@,
        V326LifecycleRelation::Use => "use"@,
        V326LifecycleRelation::Move => "move"@,
        V326LifecycleRelation::RawEscape => "raw_escape"@,
        V326LifecycleRelation::CallbackTrigger => "callback_trigger"@,
    }
}

/// The token of a lifecycle relation.
pub fn lifecycle_relation_token(r: V326LifecycleRelation) -> (t: &'static str)
    ensures
        t@ == relation_token(r),
{
    proof {
        reveal_strlit("register");
        reveal_strlit("retain");
        reveal_strlit("replace");
        reveal_strlit("release");
        reveal_strlit("drop");
        reveal_strlit("borrow");
        reveal_strlit("persist");
        reveal_strlit("invalidate");
        reveal_strlit("use");
        reveal_strlit("move");
        reveal_strlit("raw_escape");
        reveal_strlit("callback_trigger");
    }
    match r {
        V326LifecycleRelation::Register => "register",
        V326LifecycleRelation::Retain => "retain",
        V326LifecycleRelation::Replace => "replace",
        V326LifecycleRelation::Release => "release",
        V326LifecycleRelation::Drop => "drop",
        V326LifecycleRelation::Borrow => "borrow",
        V326LifecycleRelation::Persist => "persist",
        V326LifecycleRelation::Invalidate => "invalidate",
        V326LifecycleRelation::Use => "use",
        V326LifecycleRelation::Move => "move",
        V326LifecycleRelation::RawEscape => "raw_escape",
        V326LifecycleRelation::CallbackTrigger => "callback_trigger",
    }
}

/// The view of a lifecycle graph edge: id, endpoints, relation, ordering, evidence and fact
/// references.
pub type EdgeView = (
    Seq<char>,
    Seq<char>,
    Seq<char>,
    V326LifecycleRelation,
    V326LifecycleOrdering,
    Seq<Seq<char>>,
    Seq<Seq<char>>,
);

/// The view of a lifecycle graph edge.
pub open spec fn edge3_view(e: V326LifecycleGraphV3Edge) -> EdgeView {
    (e.edge_id@, e.from_object_id@, e.to_object_id@, e.relation, e.ordering, text_views(e.evidence_refs@), text_views(e.fact_refs@))
}

/// The views of the lifecycle graph edges.
pub open spec fn edge3_views(edges: Seq<V326LifecycleGraphV3Edge>) -> Seq<EdgeView> {
    edges.map_values(|e: V326LifecycleGraphV3Edge| edge3_view(e))
}

/// The fact references of the edges.
pub open spec fn edge_fact_refs(edges: Seq<EdgeView>) -> Set<Seq<char>> {
    Set::new(
        |x: Seq<char>|
            exists|i: int, k: int| 0 <= i < edges.len() && 0 <= k < edges[i].6.len() && #[trigger] edges[i].6[k] == x,
    )
}

/// The edge a fact adds with its shape: `edge:`, its sanitized fact id, `:` and the relation's
/// token as id, its evidence references, and the fact as its only fact reference.
pub open spec fn fact_edge(f: V326LifecycleFactRecord, sh: EdgeShape) -> EdgeView {
    (
        "edge:"@ + sanitized(f.fact_id@) + ":"@ + relation_token(sh.2),
        sh.0,
        sh.1,
        sh.2,
        sh.3,
        text_views(f.evidence_refs@),
        seq![f.fact_id@],
    )
}

/// The objects, edges and used fact references after the facts added their edges in order: a
/// fact that an edge already refers to adds nothing, and one with an edge shape adds its edge
/// and the objects its shape brings.
pub open spec fn fact_edges_state(
    facts: Seq<V326LifecycleFactRecord>,
    owner: Seq<char>,
    objs0: Seq<ObjectView>,
    edges0: Seq<EdgeView>,
) -> (Seq<ObjectView>, Seq<EdgeView>, Set<Seq<char>>)
    decreases facts.len(),
{
    if facts.len() == 0 {
        (objs0, edges0, edge_fact_refs(edges0))
    } else {
        let (o, e, u) = fact_edges_state(facts.drop_last(), owner, objs0, edges0);
        let f = facts.last();
        if u.contains(f.fact_id@) {
            (o, e, u)
        } else {
            match edge_shape(f, owner) {
                Some(sh) => (objects_after_shape(o, f), e.push(fact_edge(f, sh)), u.insert(f.fact_id@)),
                None => (objects_after_shape(o, f), e, u),
            }
        }
    }
}

proof fn lemma_push_to_set(s: Seq<Seq<char>>, y: Seq<char>)
    ensures
        s.push(y).to_set() == s.to_set().insert(y),
{
    assert forall|x: Seq<char>| s.push(y).contains(x) <==> (s.contains(x) || x == y) by {
        if s.push(y).contains(x) {
            let w = choose|w: int| 0 <= w < s.push(y).len() && s.push(y)[w] == x;
            if w < s.len() {
                assert(s[w] == x);
            }
        }
        if s.contains(x) {
            let w = choose|w: int| 0 <= w < s.len() && s[w] == x;
            assert(s.push(y)[w] == x);
        }
        if x == y {
            assert(s.push(y)[s.len() as int] == y);
        }
    }
    assert forall|x: Seq<char>| s.push(y).to_set().contains(x) == s.to_set().insert(y).contains(x) by {
        assert(s.push(y).contains(x) <==> (s.contains(x) || x == y));
    }
    assert(s.push(y).to_set() =~= s.to_set().insert(y));
}

proof fn lemma_label_needs_shape(f: V326LifecycleFactRecord, owner: Seq<char>)
    ensures
        release_label(f) is Some ==> edge_shape(f, owner) is Some,
{
}

fn used_fact_refs(edges: &Vec<V326LifecycleGraphV3Edge>) -> (r: Vec<String>)
    ensures
        text_views(r@).to_set() == edge_fact_refs(edge3_views(edges@)),
{
    let ghost ev = edge3_views(edges@);
    let mut out: Vec<String> = Vec::new();
    let mut i: usize = 0;
    while i < edges.len()
        invariant
            ev == edge3_views(edges@),
            0 <= i <= ev.len(),
            text_views(out@).to_set() == edge_fact_refs(ev.take(i as int)),
        decreases edges.len() - i,
    {
        let ghost before = text_views(out@);
        let refs = clone_texts(&edges[i].fact_refs);
        let mut k: usize = 0;
        while k < refs.len()
            invariant
                0 <= k <= refs@.len(),
                text_views(out@) == before + text_views(refs@.take(k as int)),
            decreases refs.len() - k,
        {
            let ghost b2 = text_views(out@);
            out.push(refs[k].clone());
            assert(text_views(out@) =~= b2.push(refs@[k as int]@));
            assert(text_views(refs@.take(k + 1)) =~= text_views(refs@.take(k as int)).push(refs@[k as int]@));
            k = k + 1;
        }
        assert(refs@.take(refs@.len() as int) =~= refs@);
        let ghost pre = ev.take(i as int);
        let ghost cur = ev.take(i + 1);
        assert(cur =~= pre.push(ev[i as int]));
        assert(ev[i as int].6 == text_views(refs@));
        assert(text_views(out@).to_set() =~= edge_fact_refs(cur)) by {
            assert forall|x: Seq<char>| #[trigger] edge_fact_refs(cur).contains(x) implies text_views(out@).to_set().contains(x) by {
                let (a, b) = choose|a: int, b: int| 0 <= a < cur.len() && 0 <= b < cur[a].6.len() && #[trigger] cur[a].6[b] == x;
                if a < i {
                    assert(pre[a] == cur[a]);
                    assert(edge_fact_refs(pre).contains(x));
                    assert(before.to_set().contains(x));
                    let w = choose|w: int| 0 <= w < before.len() && before[w] == x;
                    assert(text_views(out@)[w] == x);
                } else {
                    assert(text_views(out@)[before.len() + b] == x);
                }
            }
            assert forall|x: Seq<char>| #[trigger] text_views(out@).to_set().contains(x) implies edge_fact_refs(cur).contains(x) by {
                let w = choose|w: int| 0 <= w < text_views(out@).len() && text_views(out@)[w] == x;
                if w < before.len() {
                    assert(before[w] == x);
                    assert(before.to_set().contains(x));
                    let (a, b) = choose|a: int, b: int| 0 <= a < pre.len() && 0 <= b < pre[a].6.len() && #[trigger] pre[a].6[b] == x;
                    assert(cur[a] == pre[a]);
                } else {
                    assert(cur[i as int].6[w - before.len()] == x);
                }
            }
        }
        i = i + 1;
    }
    assert(ev.take(ev.len() as int) =~= ev);
    out
}

/// The authoritative facts among the facts, in order.
pub open spec fn authoritative_facts(facts: Seq<V326LifecycleFactRecord>) -> Seq<V326LifecycleFactRecord> {
    crate::v326_derive::kept(facts, |f: V326LifecycleFactRecord| crate::v326_release_pairs::is_authoritative_binding(f))
}

/// The facts whose edges are added: the authoritative ones among them, or all of them.
pub open spec fn edge_facts(facts: Seq<V326LifecycleFactRecord>, only_authoritative: bool) -> Seq<V326LifecycleFactRecord> {
    if only_authoritative {
        authoritative_facts(facts)
    } else {
        facts
    }
}

/// Adds the edges of the authoritative facts that no edge refers to yet, in order, with the
/// objects their shapes bring.
pub fn append_authoritative_fact_edges(
    objects: &mut Vec<V326LifecycleObject>,
    edges: &mut Vec<V326LifecycleGraphV3Edge>,
    foreign_owner_id: &str,
    facts: &[V326LifecycleFactRecord],
)
    requires
        ids_strictly_sorted(object_views(old(objects)@)),
    ensures
        ids_strictly_sorted(object_views(final(objects)@)),
        ({
            let st = fact_edges_state(facts@, foreign_owner_id@, object_views(old(objects)@), edge3_views(old(edges)@));
            object_views(final(objects)@) == st.0 && edge3_views(final(edges)@) == st.1
        }),
{
    append_fact_edges_of(objects, edges, foreign_owner_id, facts, false);
}

/// Adds the edges of the facts that no edge refers to yet, in order, with the objects their
/// shapes bring; with `only_authoritative`, facts that are not authoritative are passed over.
pub fn append_fact_edges_of(
    objects: &mut Vec<V326LifecycleObject>,
    edges: &mut Vec<V326LifecycleGraphV3Edge>,
    foreign_owner_id: &str,
    facts: &[V326LifecycleFactRecord],
    only_authoritative: bool,
)
    requires
        ids_strictly_sorted(object_views(old(objects)@)),
    ensures
        ids_strictly_sorted(object_views(final(objects)@)),
        ({
            let st = fact_edges_state(
                edge_facts(facts@, only_authoritative),
                foreign_owner_id@,
                object_views(old(objects)@),
                edge3_views(old(edges)@),
            );
            object_views(final(objects)@) == st.0 && edge3_views(final(edges)@) == st.1
        }),
{
    let ghost objs0 = object_views(objects@);
    let ghost edges0 = edge3_views(edges@);
    let mut used = used_fact_refs(edges);
    let mut i: usize = 0;
    while i < facts.len()
        invariant
            0 <= i <= facts@.len(),
            ids_strictly_sorted(object_views(objects@)),
            ({
                let st = fact_edges_state(edge_facts(facts@.take(i as int), only_authoritative), foreign_owner_id@, objs0, edges0);
                object_views(objects@) == st.0 && edge3_views(edges@) == st.1 && text_views(used@).to_set() == st.2
            }),
        decreases facts.len() - i,
    {
        let ghost pre0 = facts@.take(i as int);
        let ghost cur0 = facts@.take(i + 1);
        assert(cur0.drop_last() =~= pre0);
        assert(cur0.last() == facts@[i as int]);
        let ghost pre = edge_facts(pre0, only_authoritative);
        let ghost cur = edge_facts(cur0, only_authoritative);
        let fact = &facts[i];
        let ghost uv = text_views(used@);
        if only_authoritative && !crate::v326_release_pairs::is_authoritative_object_binding_fact(fact) {
            assert(cur == pre);
        } else if crate::checks::contains_text(&used, &fact.fact_id) {
            assert(cur == pre.push(*fact));
            assert(cur.drop_last() =~= pre);
            proof {
                let w = choose|w: int| 0 <= w < used@.len() && (#[trigger] used@[w])@ == fact.fact_id@;
                assert(uv[w] == fact.fact_id@);
                assert(uv.to_set().contains(fact.fact_id@));
            }
        } else {
            assert(cur == pre.push(*fact));
            assert(cur.drop_last() =~= pre);
            proof {
                if uv.to_set().contains(fact.fact_id@) {
                    let w = choose|w: int| 0 <= w < uv.len() && uv[w] == fact.fact_id@;
                    assert(used@[w]@ == fact.fact_id@);
                }
                lemma_label_needs_shape(*fact, foreign_owner_id@);
            }
            let ghost before_edges = edge3_views(edges@);
            match fact_edge_shape(fact, foreign_owner_id, objects) {
                Some((from_object_id, to_object_id, relation, ordering)) => {
                    proof {
                        reveal_strlit("edge:");
                        reveal_strlit(":");
                    }
                    let edge_id = concat3(
                        concat2("edge:", sanitize_id_for_path(fact.fact_id.as_str()).as_str()).as_str(),
                        ":",
                        lifecycle_relation_token(relation),
                    );
                    let mut refs: Vec<String> = Vec::new();
                    refs.push(fact.fact_id.clone());
                    assert(text_views(refs@) =~= seq![fact.fact_id@]);
                    let evidence_refs = clone_texts(&fact.evidence_refs);
                    assert(text_views(evidence_refs@) == text_views(fact.evidence_refs@));
                    edges.push(
                        V326LifecycleGraphV3Edge {
                            edge_id,
                            from_object_id,
                            to_object_id,
                            relation,
                            ordering,
                            evidence_refs,
                            fact_refs: refs,
                        },
                    );
                    assert(edge3_views(edges@) =~= before_edges.push(
                        fact_edge(*fact, edge_shape(*fact, foreign_owner_id@)->0),
                    ));
                    let ghost ub = text_views(used@);
                    used.push(fact.fact_id.clone());
                    assert(text_views(used@) =~= ub.push(fact.fact_id@));
                    proof {
                        lemma_push_to_set(ub, fact.fact_id@);
                    }
                },
                None => {},
            }
        }
        i = i + 1;
    }
    assert(facts@.take(facts@.len() as int) =~= facts@);
}

} // verus!

verus! {

proof fn lemma_edge_fact_refs_push(e: Seq<EdgeView>, x: EdgeView)
    requires
        x.6.len() == 1,
    ensures
        edge_fact_refs(e.push(x)) == edge_fact_refs(e).insert(x.6[0]),
{
    let p = e.push(x);
    assert forall|y: Seq<char>| edge_fact_refs(p).contains(y) == edge_fact_refs(e).insert(x.6[0]).contains(y) by {
        if edge_fact_refs(p).contains(y) {
            let (i, k) = choose|i: int, k: int| 0 <= i < p.len() && 0 <= k < p[i].6.len() && #[trigger] p[i].6[k] == y;
            if i < e.len() {
                assert(p[i] == e[i]);
                assert(e[i].6[k] == y);
                assert(edge_fact_refs(e).contains(y));
            }
        }
        if edge_fact_refs(e).contains(y) {
            let (i, k) = choose|i: int, k: int| 0 <= i < e.len() && 0 <= k < e[i].6.len() && #[trigger] e[i].6[k] == y;
            assert(p[i] == e[i]);
            assert(p[i].6[k] == y);
        }
        if y == x.6[0] {
            assert(p[e.len() as int].6[0] == y);
        }
    }
    assert(edge_fact_refs(p) =~= edge_fact_refs(e).insert(x.6[0]));
}

/// The used fact references are those of the edges, at every point of a pass.
proof fn lemma_used_is_edge_refs(
    facts: Seq<V326LifecycleFactRecord>,
    owner: Seq<char>,
    objs0: Seq<ObjectView>,
    edges0: Seq<EdgeView>,
)
    ensures
        fact_edges_state(facts, owner, objs0, edges0).2 == edge_fact_refs(fact_edges_state(facts, owner, objs0, edges0).1),
    decreases facts.len(),
{
    if facts.len() > 0 {
        lemma_used_is_edge_refs(facts.drop_last(), owner, objs0, edges0);
        let (o, e, u) = fact_edges_state(facts.drop_last(), owner, objs0, edges0);
        let f = facts.last();
        if !u.contains(f.fact_id@) {
            if let Some(sh) = edge_shape(f, owner) {
                lemma_edge_fact_refs_push(e, fact_edge(f, sh));
            }
        }
    }
}

/// After a pass, every fact that has an edge shape is among the used fact references.
proof fn lemma_shaped_facts_used(
    facts: Seq<V326LifecycleFactRecord>,
    owner: Seq<char>,
    objs0: Seq<ObjectView>,
    edges0: Seq<EdgeView>,
)
    ensures
        forall|i: int|
            0 <= i < facts.len() && (#[trigger] edge_shape(facts[i], owner)) is Some ==> fact_edges_state(
                facts,
                owner,
                objs0,
                edges0,
            ).2.contains(facts[i].fact_id@),
    decreases facts.len(),
{
    if facts.len() > 0 {
        let pre = facts.drop_last();
        lemma_shaped_facts_used(pre, owner, objs0, edges0);
        let (o, e, u) = fact_edges_state(pre, owner, objs0, edges0);
        assert forall|i: int|
            0 <= i < facts.len() && (#[trigger] edge_shape(facts[i], owner)) is Some implies fact_edges_state(
                facts,
                owner,
                objs0,
                edges0,
            ).2.contains(facts[i].fact_id@) by {
            if i < pre.len() {
                assert(pre[i] == facts[i]);
                assert(edge_shape(pre[i], owner) is Some);
            }
        }
    }
}

/// A second pass over the same facts leaves the objects and edges as the first pass left them.
proof fn lemma_second_pass_is_idle(
    facts: Seq<V326LifecycleFactRecord>,
    all: Seq<V326LifecycleFactRecord>,
    owner: Seq<char>,
    objs1: Seq<ObjectView>,
    edges1: Seq<EdgeView>,
)
    requires
        forall|j: int|
            0 <= j < all.len() && (#[trigger] edge_shape(all[j], owner)) is Some ==> edge_fact_refs(edges1).contains(
                all[j].fact_id@,
            ),
        facts.len() <= all.len(),
        forall|j: int| 0 <= j < facts.len() ==> facts[j] == all[j],
    ensures
        fact_edges_state(facts, owner, objs1, edges1) == (objs1, edges1, edge_fact_refs(edges1)),
    decreases facts.len(),
{
    if facts.len() > 0 {
        let pre = facts.drop_last();
        lemma_second_pass_is_idle(pre, all, owner, objs1, edges1);
        let f = facts.last();
        let j = facts.len() - 1;
        assert(f == all[j]);
        if !edge_fact_refs(edges1).contains(f.fact_id@) {
            assert(edge_shape(all[j], owner) is None);
            lemma_label_needs_shape(f, owner);
        }
    }
}

/// Adding the edges of the same facts a second time adds nothing: every fact that has an edge
/// shape is then already referred to by an edge, and no object comes along.
pub proof fn law_fact_edges_are_added_once(
    facts: Seq<V326LifecycleFactRecord>,
    owner: Seq<char>,
    objs0: Seq<ObjectView>,
    edges0: Seq<EdgeView>,
)
    ensures
        ({
            let first = fact_edges_state(facts, owner, objs0, edges0);
            let second = fact_edges_state(facts, owner, first.0, first.1);
            second.0 == first.0 && second.1 == first.1
        }),
{
    let first = fact_edges_state(facts, owner, objs0, edges0);
    lemma_used_is_edge_refs(facts, owner, objs0, edges0);
    lemma_shaped_facts_used(facts, owner, objs0, edges0);
    lemma_second_pass_is_idle(facts, facts, owner, first.0, first.1);
}

} // verus!
