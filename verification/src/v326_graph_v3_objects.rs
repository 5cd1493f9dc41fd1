//! The objects and edges of a lifecycle graph (v3) that come from the candidate's evidence and
//! contracts: each piece of evidence binds the objects it speaks of, through the one
//! authoritative fact id it matches or an observation object, and adds its edge.

use vstd::prelude::*;

use crate::lifecycle_v326::{
    V326ContractRetention, V326Details, V326EvidenceKind, V326LifecycleContractRecord, V326LifecycleEvidenceRecord,
    V326LifecycleFactKind, V326LifecycleFactRecord, V326LifecycleGraphV3Edge, V326LifecycleObject,
    V326LifecycleObjectKind, V326LifecycleOrdering, V326LifecycleRelation, V326SourceRef,
};
use crate::text::{
    ascii_lower, char_ascii_lower, chars_of, clone_texts, concat2, lower_contains, lowercase_contains, owned, starts_with,
    text_views,
};
use crate::v326_details::entry_text;
use crate::v326_fact_edges::{
    add_object, added, copy_source_ref, edge3_view, edge3_views, ids_strictly_sorted, object_views, opt_source_view,
    source_ref_view, EdgeView, ObjectView,
};
use crate::v326_fact_refs::{fact_ids_where, ids_where};
use crate::v326_facts::has_prefix;
use crate::v326_release_pairs::{is_authoritative_binding, is_authoritative_object_binding_fact, kind_of_id, object_kind_from_id};
use crate::v326_scoring::{sanitize_id_for_path, sanitized};

verus! {

/// The text of the details' entry with the key, when the details are an object and the entry a
/// text.
pub open spec fn detail_text(d: V326Details, key: Seq<char>) -> Option<Seq<char>> {
    match d {
        V326Details::Object(entries) => entry_text(entries@, key),
        _ => None,
    }
}

fn details_text<'a>(d: &'a V326Details, key: &str) -> (r: Option<&'a String>)
    ensures
        match r {
            Some(t) => detail_text(*d, key@) == Some(t@),
            None => detail_text(*d, key@) is None,
        },
{
    match d {
        V326Details::Object(entries) => {
            let key_s = owned(key);
            let mut i: usize = 0;
            assert(entries@.skip(0) =~= entries@);
            while i < entries.len()
                invariant
                    0 <= i <= entries@.len(),
                    *d == V326Details::Object(*entries),
                    key_s@ == key@,
                    entry_text(entries@, key@) == entry_text(entries@.skip(i as int), key@),
                decreases entries.len() - i,
            {
                assert(entries@.skip(i as int)[0] == entries@[i as int]);
                assert(entries@.skip(i as int).drop_first() =~= entries@.skip(i + 1));
                if entries[i].0 == key_s {
                    return match &entries[i].1 {
                        V326Details::Text(t) => Some(t),
                        _ => None,
                    };
                }
                i = i + 1;
            }
            None
        },
        _ => None,
    }
}

/// The text with its ASCII letters in lower case.
pub open spec fn lower_text(s: Seq<char>) -> Seq<char> {
    s.map_values(|c: char| ascii_lower(c))
}

fn lower_equals(s: &str, lit: &str) -> (b: bool)
    ensures
        b == (lower_text(s@) == lit@),
{
    let a = chars_of(s);
    let l = chars_of(lit);
    if a.len() != l.len() {
        assert(lower_text(s@).len() == s@.len());
        return false;
    }
    let mut i: usize = 0;
    while i < a.len()
        invariant
            a@ == s@,
            l@ == lit@,
            a.len() == l.len(),
            0 <= i <= a.len(),
            forall|k: int| 0 <= k < i ==> ascii_lower(#[trigger] a@[k]) == l@[k],
        decreases a.len() - i,
    {
        if char_ascii_lower(a[i]) != l[i] {
            assert(lower_text(s@)[i as int] != lit@[i as int]);
            return false;
        }
        i = i + 1;
    }
    assert(lower_text(s@) =~= lit@);
    true
}

/// A details text that places the evidence after the registration.
pub open spec fn after_register_text(v: Seq<char>) -> bool {
    ||| lower_text(v) == "after_register"@
    ||| lower_text(v) == "register_then_release"@
    ||| lower_text(v) == "after_registration"@
    ||| lower_contains(v, "after register"@)
}

/// The details text under the key places the evidence after the registration.
pub open spec fn key_after_register(d: V326Details, key: Seq<char>) -> bool {
    detail_text(d, key) matches Some(v) && after_register_text(v)
}

/// The evidence's details say, under `ordering`, `order`, `happens_after` or `sequence`, that it
/// comes after the registration.
pub open spec fn evidence_after_register(e: V326LifecycleEvidenceRecord) -> bool {
    ||| key_after_register(e.details, "ordering"@)
    ||| key_after_register(e.details, "order"@)
    ||| key_after_register(e.details, "happens_after"@)
    ||| key_after_register(e.details, "sequence"@)
}

fn key_says_after_register(d: &V326Details, key: &str) -> (b: bool)
    ensures
        b == key_after_register(*d, key@),
{
    match details_text(d, key) {
        Some(v) => lower_equals(v.as_str(), "after_register") || lower_equals(v.as_str(), "register_then_release")
            || lower_equals(v.as_str(), "after_registration") || lowercase_contains(v.as_str(), "after register"),
        None => false,
    }
}

fn evidence_has_after_register_order(e: &V326LifecycleEvidenceRecord) -> (b: bool)
    ensures
        b == evidence_after_register(*e),
{
    key_says_after_register(&e.details, "ordering") || key_says_after_register(&e.details, "order")
        || key_says_after_register(&e.details, "happens_after") || key_says_after_register(&e.details, "sequence")
}

/// The ordering a details text names: before the registration, or at the same site.
pub open spec fn ordering_word(v: Seq<char>) -> Option<V326LifecycleOrdering> {
    if lower_text(v) == "before"@ || lower_text(v) == "before_register"@ {
        Some(V326LifecycleOrdering::Before)
    } else if lower_text(v) == "same_site"@ || lower_text(v) == "same"@ {
        Some(V326LifecycleOrdering::SameSite)
    } else {
        None
    }
}

/// The ordering the details text under the key names.
pub open spec fn key_ordering(d: V326Details, key: Seq<char>) -> Option<V326LifecycleOrdering> {
    match detail_text(d, key) {
        Some(v) => ordering_word(v),
        None => None,
    }
}

/// The ordering of an evidence edge: after the registration where the details say so, else the
/// first ordering named under `ordering`, `order` or `sequence`, else unknown.
pub open spec fn evidence_ordering(e: V326LifecycleEvidenceRecord) -> V326LifecycleOrdering {
    if evidence_after_register(e) {
        V326LifecycleOrdering::After
    } else if key_ordering(e.details, "ordering"@) is Some {
        key_ordering(e.details, "ordering"@)->0
    } else if key_ordering(e.details, "order"@) is Some {
        key_ordering(e.details, "order"@)->0
    } else if key_ordering(e.details, "sequence"@) is Some {
        key_ordering(e.details, "sequence"@)->0
    } else {
        V326LifecycleOrdering::Unknown
    }
}

fn key_ordering_of(d: &V326Details, key: &str) -> (r: Option<V326LifecycleOrdering>)
    ensures
        r == key_ordering(*d, key@),
{
    match details_text(d, key) {
        Some(v) => {
            if lower_equals(v.as_str(), "before") || lower_equals(v.as_str(), "before_register") {
                Some(V326LifecycleOrdering::Before)
            } else if lower_equals(v.as_str(), "same_site") || lower_equals(v.as_str(), "same") {
                Some(V326LifecycleOrdering::SameSite)
            } else {
                None
            }
        },
        None => None,
    }
}

fn ordering_from_evidence(e: &V326LifecycleEvidenceRecord) -> (r: V326LifecycleOrdering)
    ensures
        r == evidence_ordering(*e),
{
    if evidence_has_after_register_order(e) {
        return V326LifecycleOrdering::After;
    }
    if let Some(o) = key_ordering_of(&e.details, "ordering") {
        return o;
    }
    if let Some(o) = key_ordering_of(&e.details, "order") {
        return o;
    }
    if let Some(o) = key_ordering_of(&e.details, "sequence") {
        return o;
    }
    V326LifecycleOrdering::Unknown
}

/// Two source references name the same lines of the same file, with a first line given.
pub open spec fn same_source_lines(a: V326SourceRef, b: V326SourceRef) -> bool {
    a.path@ == b.path@ && a.line_start is Some && a.line_start == b.line_start && a.line_end == b.line_end
}

/// An authoritative fact speaks of the evidence: it refers to the evidence's record id or sits on
/// the same source lines.
pub open spec fn fact_matches_evidence(f: V326LifecycleFactRecord, e: V326LifecycleEvidenceRecord) -> bool {
    is_authoritative_binding(f) && (text_views(f.evidence_refs@).contains(e.record_id@) || same_source_lines(
        f.source_ref,
        e.source_ref,
    ))
}

fn authoritative_fact_matches_evidence(f: &V326LifecycleFactRecord, e: &V326LifecycleEvidenceRecord) -> (b: bool)
    ensures
        b == fact_matches_evidence(*f, *e),
{
    if !is_authoritative_object_binding_fact(f) {
        return false;
    }
    if crate::checks::contains_text(&f.evidence_refs, &e.record_id) {
        proof {
            let k = choose|k: int| 0 <= k < f.evidence_refs@.len() && (#[trigger] f.evidence_refs@[k])@ == e.record_id@;
            assert(text_views(f.evidence_refs@)[k] == e.record_id@);
        }
        return true;
    }
    proof {
        if text_views(f.evidence_refs@).contains(e.record_id@) {
            let k = choose|k: int| 0 <= k < text_views(f.evidence_refs@).len() && text_views(f.evidence_refs@)[k] == e.record_id@;
            assert(f.evidence_refs@[k]@ == e.record_id@);
        }
    }
    f.source_ref.path == e.source_ref.path && f.source_ref.line_start.is_some() && f.source_ref.line_start
        == e.source_ref.line_start && f.source_ref.line_end == e.source_ref.line_end
}

fn kinds_hold(kinds: &Vec<V326LifecycleFactKind>, k: V326LifecycleFactKind) -> (b: bool)
    ensures
        b == kinds@.contains(k),
{
    let mut i: usize = 0;
    while i < kinds.len()
        invariant
            0 <= i <= kinds@.len(),
            forall|j: int| 0 <= j < i ==> kinds@[j] != k,
        decreases kinds.len() - i,
    {
        if kinds[i] == k {
            assert(kinds@[i as int] == k);
            return true;
        }
        i = i + 1;
    }
    false
}

/// The ids with the prefix, in order.
pub open spec fn with_prefix(ids: Seq<Seq<char>>, p: Seq<char>) -> Seq<Seq<char>>
    decreases ids.len(),
{
    if ids.len() == 0 {
        Seq::empty()
    } else if has_prefix(ids.last(), p) {
        with_prefix(ids.drop_last(), p).push(ids.last())
    } else {
        with_prefix(ids.drop_last(), p)
    }
}

/// The object ids with the prefix of the authoritative facts of the kinds that speak of the
/// evidence, in order of facts and ids.
pub open spec fn binding_ids(
    facts: Seq<V326LifecycleFactRecord>,
    e: V326LifecycleEvidenceRecord,
    kinds: Seq<V326LifecycleFactKind>,
    p: Seq<char>,
) -> Seq<Seq<char>>
    decreases facts.len(),
{
    if facts.len() == 0 {
        Seq::empty()
    } else if kinds.contains(facts.last().fact_kind) && fact_matches_evidence(facts.last(), e) {
        binding_ids(facts.drop_last(), e, kinds, p) + with_prefix(text_views(facts.last().object_ids@), p)
    } else {
        binding_ids(facts.drop_last(), e, kinds, p)
    }
}

/// The one object the evidence is bound to with the prefix: `Some` when the binding ids name
/// exactly one id.
pub open spec fn single_binding(
    facts: Seq<V326LifecycleFactRecord>,
    e: V326LifecycleEvidenceRecord,
    kinds: Seq<V326LifecycleFactKind>,
    p: Seq<char>,
) -> Option<Seq<char>> {
    let s = binding_ids(facts, e, kinds, p);
    if s.len() > 0 && forall|i: int| 0 <= i < s.len() ==> #[trigger] s[i] == s[0] {
        Some(s[0])
    } else {
        None
    }
}

fn prefixed_ids(ids: &Vec<String>, p: &str, out: &mut Vec<String>)
    ensures
        text_views(final(out)@) == text_views(old(out)@) + with_prefix(text_views(ids@), p@),
{
    let ghost start = text_views(out@);
    let mut i: usize = 0;
    while i < ids.len()
        invariant
            0 <= i <= ids@.len(),
            text_views(out@) == start + with_prefix(text_views(ids@).take(i as int), p@),
        decreases ids.len() - i,
    {
        let ghost t = text_views(ids@);
        assert(t.take(i + 1).drop_last() =~= t.take(i as int));
        assert(t.take(i + 1).last() == ids@[i as int]@);
        if starts_with(ids[i].as_str(), p) {
            let ghost before = text_views(out@);
            out.push(ids[i].clone());
            assert(text_views(out@) =~= before.push(ids@[i as int]@));
            assert(with_prefix(t.take(i + 1), p@) == with_prefix(t.take(i as int), p@).push(ids@[i as int]@));
            assert(start + with_prefix(t.take(i + 1), p@) =~= (start + with_prefix(t.take(i as int), p@)).push(
                ids@[i as int]@,
            ));
        }
        i = i + 1;
    }
    assert(text_views(ids@).take(ids@.len() as int) =~= text_views(ids@));
}

fn single_binding_id(
    facts: &[V326LifecycleFactRecord],
    e: &V326LifecycleEvidenceRecord,
    kinds: &Vec<V326LifecycleFactKind>,
    p: &str,
) -> (r: Option<String>)
    ensures
        opt_text(r) == single_binding(facts@, *e, kinds@, p@),
{
    let mut all: Vec<String> = Vec::new();
    let mut i: usize = 0;
    while i < facts.len()
        invariant
            0 <= i <= facts@.len(),
            text_views(all@) == binding_ids(facts@.take(i as int), *e, kinds@, p@),
        decreases facts.len() - i,
    {
        assert(facts@.take(i + 1).drop_last() =~= facts@.take(i as int));
        assert(facts@.take(i + 1).last() == facts@[i as int]);
        if kinds_hold(kinds, facts[i].fact_kind) && authoritative_fact_matches_evidence(&facts[i], e) {
            prefixed_ids(&facts[i].object_ids, p, &mut all);
        }
        i = i + 1;
    }
    assert(facts@.take(facts@.len() as int) =~= facts@);
    let ghost s = text_views(all@);
    if all.len() == 0 {
        return None;
    }
    let mut k: usize = 1;
    while k < all.len()
        invariant
            s == text_views(all@),
            s == binding_ids(facts@, *e, kinds@, p@),
            s.len() > 0,
            1 <= k <= s.len(),
            forall|j: int| 0 <= j < k ==> #[trigger] s[j] == s[0],
        decreases all.len() - k,
    {
        if all[k] != all[0] {
            assert(s[k as int] != s[0]);
            assert(binding_ids(facts@, *e, kinds@, p@) == s);
            assert(!(forall|j: int| 0 <= j < s.len() ==> #[trigger] s[j] == s[0]));
            return None;
        }
        k = k + 1;
    }
    Some(all[0].clone())
}

/// The view of an optional text.
pub open spec fn opt_text(o: Option<String>) -> Option<Seq<char>> {
    match o {
        Some(s) => Some(s@),
        None => None,
    }
}

/// The id of an observation object: `observation:`, the role, `:` and the sanitized record id.
pub open spec fn observation_id(role: Seq<char>, record_id: Seq<char>) -> Seq<char> {
    "observation:"@ + role + ":"@ + sanitized(record_id)
}

fn observation_object_id(role: &str, record_id: &str) -> (r: String)
    ensures
        r@ == observation_id(role@, record_id@),
{
    proof {
        reveal_strlit("observation:");
        reveal_strlit(":");
    }
    let a = concat2("observation:", role);
    let b = concat2(a.as_str(), ":");
    let s = sanitize_id_for_path(record_id);
    concat2(b.as_str(), s.as_str())
}

/// The object the evidence binds with the prefix: its one binding id, else the observation id
/// of the role.
pub open spec fn bound_id(
    facts: Seq<V326LifecycleFactRecord>,
    e: V326LifecycleEvidenceRecord,
    kinds: Seq<V326LifecycleFactKind>,
    p: Seq<char>,
    role: Seq<char>,
) -> Seq<char> {
    match single_binding(facts, e, kinds, p) {
        Some(x) => x,
        None => observation_id(role, e.record_id@),
    }
}

/// The object of an unproven binding: the observation object of the role.
pub open spec fn observation_object(e: V326LifecycleEvidenceRecord, role: Seq<char>, label: Seq<char>) -> ObjectView {
    (
        observation_id(role, e.record_id@),
        V326LifecycleObjectKind::Unknown,
        label + " binding unproven"@,
        Some(source_ref_view(e.source_ref)),
        Seq::empty(),
    )
}

/// The objects after the evidence binds with the prefix: unchanged for a binding id, else with
/// the observation object added.
pub open spec fn bound_objects(
    objs: Seq<ObjectView>,
    facts: Seq<V326LifecycleFactRecord>,
    e: V326LifecycleEvidenceRecord,
    kinds: Seq<V326LifecycleFactKind>,
    p: Seq<char>,
    role: Seq<char>,
    label: Seq<char>,
) -> Seq<ObjectView> {
    match single_binding(facts, e, kinds, p) {
        Some(_) => objs,
        None => added(objs, observation_object(e, role, label)),
    }
}

fn object_id_for_evidence(
    objects: &mut Vec<V326LifecycleObject>,
    e: &V326LifecycleEvidenceRecord,
    facts: &[V326LifecycleFactRecord],
    kinds: &Vec<V326LifecycleFactKind>,
    p: &str,
    role: &str,
    label: &str,
) -> (r: String)
    requires
        ids_strictly_sorted(object_views(old(objects)@)),
    ensures
        ids_strictly_sorted(object_views(final(objects)@)),
        r@ == bound_id(facts@, *e, kinds@, p@, role@),
        object_views(final(objects)@) == bound_objects(object_views(old(objects)@), facts@, *e, kinds@, p@, role@, label@),
{
    match single_binding_id(facts, e, kinds, p) {
        Some(x) => x,
        None => {
            proof {
                reveal_strlit(" binding unproven");
            }
            let id = observation_object_id(role, e.record_id.as_str());
            let none: Vec<String> = Vec::new();
            assert(text_views(none@) =~= Seq::<Seq<char>>::empty());
            add_object(
                objects,
                id.clone(),
                V326LifecycleObjectKind::Unknown,
                concat2(label, " binding unproven"),
                Some(copy_source_ref(&e.source_ref)),
                none,
            );
            id
        },
    }
}

/// Some id of the fact is among the objects.
pub open spec fn names_any(f: V326LifecycleFactRecord, objs: Seq<Seq<char>>) -> bool {
    exists|k: int| 0 <= k < f.object_ids@.len() && objs.contains(#[trigger] f.object_ids@[k]@)
}

/// A fact that backs an evidence edge: an authoritative fact of one of the kinds that speaks of
/// the evidence and names one of the edge's objects.
pub open spec fn backs_edge(
    f: V326LifecycleFactRecord,
    e: V326LifecycleEvidenceRecord,
    kinds: Seq<V326LifecycleFactKind>,
    objs: Seq<Seq<char>>,
) -> bool {
    kinds.contains(f.fact_kind) && fact_matches_evidence(f, e) && names_any(f, objs)
}

/// The ids of the facts that back an evidence edge, in order.
pub open spec fn edge_fact_ids(
    facts: Seq<V326LifecycleFactRecord>,
    e: V326LifecycleEvidenceRecord,
    kinds: Seq<V326LifecycleFactKind>,
    objs: Seq<Seq<char>>,
) -> Seq<Seq<char>> {
    ids_where(facts, |f: V326LifecycleFactRecord| backs_edge(f, e, kinds, objs))
}

fn fact_names_any(f: &V326LifecycleFactRecord, objs: &Vec<String>) -> (b: bool)
    ensures
        b == names_any(*f, text_views(objs@)),
{
    let mut k: usize = 0;
    while k < f.object_ids.len()
        invariant
            0 <= k <= f.object_ids@.len(),
            forall|j: int| 0 <= j < k ==> !text_views(objs@).contains(#[trigger] f.object_ids@[j]@),
        decreases f.object_ids.len() - k,
    {
        if crate::checks::contains_text(objs, &f.object_ids[k]) {
            proof {
                let w = choose|w: int| 0 <= w < objs@.len() && (#[trigger] objs@[w])@ == f.object_ids@[k as int]@;
                assert(text_views(objs@)[w] == f.object_ids@[k as int]@);
            }
            return true;
        }
        proof {
            if text_views(objs@).contains(f.object_ids@[k as int]@) {
                let w = choose|w: int| 0 <= w < text_views(objs@).len() && text_views(objs@)[w] == f.object_ids@[k as int]@;
                assert(objs@[w]@ == f.object_ids@[k as int]@);
            }
        }
        k = k + 1;
    }
    false
}

fn fact_refs_on_objects(
    facts: &[V326LifecycleFactRecord],
    e: &V326LifecycleEvidenceRecord,
    kinds: &Vec<V326LifecycleFactKind>,
    objs: &Vec<String>,
) -> (r: Vec<String>)
    ensures
        text_views(r@) == edge_fact_ids(facts@, *e, kinds@, text_views(objs@)),
{
    let ghost ov = text_views(objs@);
    fact_ids_where(
        facts,
        (|f: &V326LifecycleFactRecord| -> (b: bool)
            ensures
                b == backs_edge(*f, *e, kinds@, ov),
            { kinds_hold(kinds, f.fact_kind) && authoritative_fact_matches_evidence(f, e) && fact_names_any(f, objs) }),
        Ghost(|f: V326LifecycleFactRecord| backs_edge(f, *e, kinds@, ov)),
    )
}

/// The id of an evidence edge: `edge:`, the sanitized record id and the suffix.
pub open spec fn edge_id_of(record_id: Seq<char>, suffix: Seq<char>) -> Seq<char> {
    "edge:"@ + sanitized(record_id) + suffix
}

/// The edge of an evidence item, with the item's record id as its only evidence reference.
pub open spec fn evidence_edge(
    e: V326LifecycleEvidenceRecord,
    suffix: Seq<char>,
    from: Seq<char>,
    to: Seq<char>,
    relation: V326LifecycleRelation,
    ordering: V326LifecycleOrdering,
    fact_refs: Seq<Seq<char>>,
) -> EdgeView {
    (edge_id_of(e.record_id@, suffix), from, to, relation, ordering, seq![e.record_id@], fact_refs)
}

pub open spec fn release_kinds() -> Seq<V326LifecycleFactKind> {
    seq![V326LifecycleFactKind::UnregisterCall, V326LifecycleFactKind::ReleaseCall]
}

pub open spec fn drop_kinds() -> Seq<V326LifecycleFactKind> {
    seq![V326LifecycleFactKind::DropImpl, V326LifecycleFactKind::DropSite]
}

/// What one piece of evidence does to the objects, and the edge it adds:
/// a registration binds its callback and registers it with the foreign owner; a retention hint
/// has the foreign owner retain an observed callback; an unregistration or release site binds
/// its callback and releases it to a release endpoint of its own; a drop guard or drop site
/// binds its callback and its Rust owner, which drops it; a borrow or move edge (or owned anchor)
/// binds its callback and the Rust owner it borrows or moves from; a raw pointer escape binds
/// its user data, which escapes to the foreign owner; a replacement binds its callback, which
/// replaces at the foreign owner. Other evidence adds nothing.
pub open spec fn evidence_step(
    objs: Seq<ObjectView>,
    facts: Seq<V326LifecycleFactRecord>,
    owner: Seq<char>,
    e: V326LifecycleEvidenceRecord,
) -> (Seq<ObjectView>, Option<EdgeView>) {
    let cb = |ks: Seq<V326LifecycleFactKind>| bound_id(facts, e, ks, "callback:"@, "callback"@);
    let cbo = |o: Seq<ObjectView>, ks: Seq<V326LifecycleFactKind>|
        bound_objects(o, facts, e, ks, "callback:"@, "callback"@, "callback object"@);
    let rk = seq![V326LifecycleFactKind::RegisterCall];
    let bk = seq![V326LifecycleFactKind::BorrowedCapture];
    let mk = seq![V326LifecycleFactKind::OwnedMoveCapture];
    let pk = seq![V326LifecycleFactKind::RawPointerEscape];
    let xk = seq![V326LifecycleFactKind::ReplaceCall];
    match e.evidence_kind {
        V326EvidenceKind::ForeignRegister => (
            cbo(objs, rk),
            Some(
                evidence_edge(
                    e,
                    ":register"@,
                    cb(rk),
                    owner,
                    V326LifecycleRelation::Register,
                    evidence_ordering(e),
                    edge_fact_ids(facts, e, rk, seq![cb(rk)]),
                ),
            ),
        ),
        V326EvidenceKind::ForeignRetentionHint => (
            added(objs, observation_object(e, "callback"@, "callback object"@)),
            Some(
                evidence_edge(
                    e,
                    ":retain"@,
                    owner,
                    observation_id("callback"@, e.record_id@),
                    V326LifecycleRelation::Retain,
                    V326LifecycleOrdering::Unknown,
                    Seq::empty(),
                ),
            ),
        ),
        V326EvidenceKind::ForeignUnregister | V326EvidenceKind::ReleaseSite => {
            let rel = "release_endpoint:"@ + sanitized(e.record_id@);
            (
                added(
                    cbo(objs, release_kinds()),
                    (
                        rel,
                        V326LifecycleObjectKind::ReleaseEndpoint,
                        "release endpoint"@,
                        Some(source_ref_view(e.source_ref)),
                        Seq::empty(),
                    ),
                ),
                Some(
                    evidence_edge(
                        e,
                        ":release"@,
                        cb(release_kinds()),
                        rel,
                        V326LifecycleRelation::Release,
                        V326LifecycleOrdering::Unknown,
                        edge_fact_ids(facts, e, release_kinds(), seq![cb(release_kinds())]),
                    ),
                ),
            )
        },
        V326EvidenceKind::DropGuard | V326EvidenceKind::DropSite => {
            let ow = bound_id(facts, e, drop_kinds(), "rust_owner:"@, "rust_owner"@);
            (
                bound_objects(cbo(objs, drop_kinds()), facts, e, drop_kinds(), "rust_owner:"@, "rust_owner"@, "Rust owner"@),
                Some(
                    evidence_edge(
                        e,
                        ":drop"@,
                        ow,
                        cb(drop_kinds()),
                        V326LifecycleRelation::Drop,
                        evidence_ordering(e),
                        edge_fact_ids(facts, e, drop_kinds(), seq![ow, cb(drop_kinds())]),
                    ),
                ),
            )
        },
        V326EvidenceKind::BorrowEdge => (
            bound_objects(cbo(objs, bk), facts, e, bk, "rust_owner:"@, "rust_owner"@, "borrowed Rust owner"@),
            Some(
                evidence_edge(
                    e,
                    ":borrow"@,
                    bound_id(facts, e, bk, "rust_owner:"@, "rust_owner"@),
                    cb(bk),
                    V326LifecycleRelation::Borrow,
                    V326LifecycleOrdering::SameSite,
                    edge_fact_ids(facts, e, bk, seq![cb(bk)]),
                ),
            ),
        ),
        V326EvidenceKind::MoveEdge | V326EvidenceKind::OwnedAnchor => (
            bound_objects(cbo(objs, mk), facts, e, mk, "rust_owner:"@, "rust_owner"@, "owned Rust owner"@),
            Some(
                evidence_edge(
                    e,
                    ":move"@,
                    bound_id(facts, e, mk, "rust_owner:"@, "rust_owner"@),
                    cb(mk),
                    V326LifecycleRelation::Move,
                    V326LifecycleOrdering::SameSite,
                    edge_fact_ids(facts, e, mk, seq![cb(mk)]),
                ),
            ),
        ),
        V326EvidenceKind::RawPointerEscape => {
            let src = bound_id(facts, e, pk, "user_data:"@, "user_data"@);
            (
                bound_objects(objs, facts, e, pk, "user_data:"@, "user_data"@, "raw pointer source"@),
                Some(
                    evidence_edge(
                        e,
                        ":raw_escape"@,
                        src,
                        owner,
                        V326LifecycleRelation::RawEscape,
                        V326LifecycleOrdering::SameSite,
                        edge_fact_ids(facts, e, pk, seq![src]),
                    ),
                ),
            )
        },
        V326EvidenceKind::ForeignReplace => (
            cbo(objs, xk),
            Some(
                evidence_edge(
                    e,
                    ":replace"@,
                    cb(xk),
                    owner,
                    V326LifecycleRelation::Replace,
                    evidence_ordering(e),
                    edge_fact_ids(facts, e, xk, seq![cb(xk)]),
                ),
            ),
        ),
        _ => (objs, None),
    }
}

fn push_evidence_edge(
    edges: &mut Vec<V326LifecycleGraphV3Edge>,
    e: &V326LifecycleEvidenceRecord,
    suffix: &str,
    from: String,
    to: String,
    relation: V326LifecycleRelation,
    ordering: V326LifecycleOrdering,
    fact_refs: Vec<String>,
)
    ensures
        edge3_views(final(edges)@) == edge3_views(old(edges)@).push(
            evidence_edge(*e, suffix@, from@, to@, relation, ordering, text_views(fact_refs@)),
        ),
{
    proof {
        reveal_strlit("edge:");
    }
    let edge_id = concat2(concat2("edge:", sanitize_id_for_path(e.record_id.as_str()).as_str()).as_str(), suffix);
    let mut refs: Vec<String> = Vec::new();
    refs.push(e.record_id.clone());
    assert(text_views(refs@) =~= seq![e.record_id@]);
    let ghost before = edge3_views(edges@);
    edges.push(
        V326LifecycleGraphV3Edge { edge_id, from_object_id: from, to_object_id: to, relation, ordering, evidence_refs: refs, fact_refs },
    );
    assert(edge3_views(edges@) =~= before.push(
        evidence_edge(*e, suffix@, edges@.last().from_object_id@, edges@.last().to_object_id@, relation, ordering, text_views(edges@.last().fact_refs@)),
    ));
}

fn kinds_of(a: V326LifecycleFactKind, b: Option<V326LifecycleFactKind>) -> (v: Vec<V326LifecycleFactKind>)
    ensures
        v@ == match b {
            Some(y) => seq![a, y],
            None => seq![a],
        },
{
    let mut v: Vec<V326LifecycleFactKind> = Vec::new();
    v.push(a);
    match b {
        Some(y) => {
            v.push(y);
            assert(v@ =~= seq![a, y]);
        },
        None => {
            assert(v@ =~= seq![a]);
        },
    }
    v
}

fn one_text(a: &String) -> (v: Vec<String>)
    ensures
        text_views(v@) == seq![a@],
{
    let mut v: Vec<String> = Vec::new();
    v.push(a.clone());
    assert(text_views(v@) =~= seq![a@]);
    v
}

/// Adds what one piece of evidence brings: the objects it binds and its edge.
fn add_evidence(
    objects: &mut Vec<V326LifecycleObject>,
    edges: &mut Vec<V326LifecycleGraphV3Edge>,
    e: &V326LifecycleEvidenceRecord,
    facts: &[V326LifecycleFactRecord],
    owner: &String,
)
    requires
        ids_strictly_sorted(object_views(old(objects)@)),
    ensures
        ids_strictly_sorted(object_views(final(objects)@)),
        ({
            let st = evidence_step(object_views(old(objects)@), facts@, owner@, *e);
            &&& object_views(final(objects)@) == st.0
            &&& edge3_views(final(edges)@) == match st.1 {
                Some(x) => edge3_views(old(edges)@).push(x),
                None => edge3_views(old(edges)@),
            }
        }),
{
    proof {
        reveal_strlit("callback:");
        reveal_strlit("callback");
        reveal_strlit("callback object");
    }
    match e.evidence_kind {
        V326EvidenceKind::ForeignRegister => {
            let ks = kinds_of(V326LifecycleFactKind::RegisterCall, None);
            let cb = object_id_for_evidence(objects, e, facts, &ks, "callback:", "callback", "callback object");
            let refs = fact_refs_on_objects(facts, e, &ks, &one_text(&cb));
            push_evidence_edge(edges, e, ":register", cb, owner.clone(), V326LifecycleRelation::Register, ordering_from_evidence(e), refs);
        },
        V326EvidenceKind::ForeignRetentionHint => {
            proof {
                reveal_strlit(" binding unproven");
            }
            let cb = observation_object_id("callback", e.record_id.as_str());
            let none: Vec<String> = Vec::new();
            assert(text_views(none@) =~= Seq::<Seq<char>>::empty());
            add_object(
                objects,
                cb.clone(),
                V326LifecycleObjectKind::Unknown,
                owned("callback object binding unproven"),
                Some(copy_source_ref(&e.source_ref)),
                none,
            );
            assert("callback object binding unproven"@ == "callback object"@ + " binding unproven"@) by {
                reveal_strlit("callback object binding unproven");
            }
            let none2: Vec<String> = Vec::new();
            assert(text_views(none2@) =~= Seq::<Seq<char>>::empty());
            push_evidence_edge(edges, e, ":retain", owner.clone(), cb, V326LifecycleRelation::Retain, V326LifecycleOrdering::Unknown, none2);
        },
        V326EvidenceKind::ForeignUnregister | V326EvidenceKind::ReleaseSite => {
            let ks = kinds_of(V326LifecycleFactKind::UnregisterCall, Some(V326LifecycleFactKind::ReleaseCall));
            let cb = object_id_for_evidence(objects, e, facts, &ks, "callback:", "callback", "callback object");
            proof {
                reveal_strlit("release_endpoint:");
            }
            let rel = concat2("release_endpoint:", sanitize_id_for_path(e.record_id.as_str()).as_str());
            let none: Vec<String> = Vec::new();
            assert(text_views(none@) =~= Seq::<Seq<char>>::empty());
            add_object(
                objects,
                rel.clone(),
                V326LifecycleObjectKind::ReleaseEndpoint,
                owned("release endpoint"),
                Some(copy_source_ref(&e.source_ref)),
                none,
            );
            let refs = fact_refs_on_objects(facts, e, &ks, &one_text(&cb));
            push_evidence_edge(edges, e, ":release", cb, rel, V326LifecycleRelation::Release, V326LifecycleOrdering::Unknown, refs);
        },
        V326EvidenceKind::DropGuard | V326EvidenceKind::DropSite => {
            let ks = kinds_of(V326LifecycleFactKind::DropImpl, Some(V326LifecycleFactKind::DropSite));
            let cb = object_id_for_evidence(objects, e, facts, &ks, "callback:", "callback", "callback object");
            let ow = object_id_for_evidence(objects, e, facts, &ks, "rust_owner:", "rust_owner", "Rust owner");
            let mut both: Vec<String> = Vec::new();
            both.push(ow.clone());
            both.push(cb.clone());
            assert(text_views(both@) =~= seq![ow@, cb@]);
            let refs = fact_refs_on_objects(facts, e, &ks, &both);
            push_evidence_edge(edges, e, ":drop", ow, cb, V326LifecycleRelation::Drop, ordering_from_evidence(e), refs);
        },
        V326EvidenceKind::BorrowEdge => {
            let ks = kinds_of(V326LifecycleFactKind::BorrowedCapture, None);
            let cb = object_id_for_evidence(objects, e, facts, &ks, "callback:", "callback", "callback object");
            let src = object_id_for_evidence(objects, e, facts, &ks, "rust_owner:", "rust_owner", "borrowed Rust owner");
            let refs = fact_refs_on_objects(facts, e, &ks, &one_text(&cb));
            push_evidence_edge(edges, e, ":borrow", src, cb, V326LifecycleRelation::Borrow, V326LifecycleOrdering::SameSite, refs);
        },
        V326EvidenceKind::MoveEdge | V326EvidenceKind::OwnedAnchor => {
            let ks = kinds_of(V326LifecycleFactKind::OwnedMoveCapture, None);
            let cb = object_id_for_evidence(objects, e, facts, &ks, "callback:", "callback", "callback object");
            let src = object_id_for_evidence(objects, e, facts, &ks, "rust_owner:", "rust_owner", "owned Rust owner");
            let refs = fact_refs_on_objects(facts, e, &ks, &one_text(&cb));
            push_evidence_edge(edges, e, ":move", src, cb, V326LifecycleRelation::Move, V326LifecycleOrdering::SameSite, refs);
        },
        V326EvidenceKind::RawPointerEscape => {
            let ks = kinds_of(V326LifecycleFactKind::RawPointerEscape, None);
            let src = object_id_for_evidence(objects, e, facts, &ks, "user_data:", "user_data", "raw pointer source");
            let refs = fact_refs_on_objects(facts, e, &ks, &one_text(&src));
            push_evidence_edge(edges, e, ":raw_escape", src, owner.clone(), V326LifecycleRelation::RawEscape, V326LifecycleOrdering::SameSite, refs);
        },
        V326EvidenceKind::ForeignReplace => {
            let ks = kinds_of(V326LifecycleFactKind::ReplaceCall, None);
            let cb = object_id_for_evidence(objects, e, facts, &ks, "callback:", "callback", "callback object");
            let refs = fact_refs_on_objects(facts, e, &ks, &one_text(&cb));
            push_evidence_edge(edges, e, ":replace", cb, owner.clone(), V326LifecycleRelation::Replace, ordering_from_evidence(e), refs);
        },
        _ => {},
    }
}

/// The objects and edges after the evidence, in order, did what it does.
pub open spec fn evidence_state(
    ev: Seq<V326LifecycleEvidenceRecord>,
    facts: Seq<V326LifecycleFactRecord>,
    owner: Seq<char>,
    objs0: Seq<ObjectView>,
) -> (Seq<ObjectView>, Seq<EdgeView>)
    decreases ev.len(),
{
    if ev.len() == 0 {
        (objs0, Seq::empty())
    } else {
        let (o, es) = evidence_state(ev.drop_last(), facts, owner, objs0);
        let st = evidence_step(o, facts, owner, ev.last());
        (
            st.0,
            match st.1 {
                Some(x) => es.push(x),
                None => es,
            },
        )
    }
}

/// Adds the objects and edges of the evidence, in order.
pub fn add_evidence_edges(
    objects: &mut Vec<V326LifecycleObject>,
    evidence: &[V326LifecycleEvidenceRecord],
    facts: &[V326LifecycleFactRecord],
    owner: &String,
) -> (edges: Vec<V326LifecycleGraphV3Edge>)
    requires
        ids_strictly_sorted(object_views(old(objects)@)),
    ensures
        ids_strictly_sorted(object_views(final(objects)@)),
        ({
            let st = evidence_state(evidence@, facts@, owner@, object_views(old(objects)@));
            object_views(final(objects)@) == st.0 && edge3_views(edges@) == st.1
        }),
{
    let ghost objs0 = object_views(objects@);
    let mut edges: Vec<V326LifecycleGraphV3Edge> = Vec::new();
    assert(edge3_views(edges@) =~= Seq::<EdgeView>::empty());
    let mut i: usize = 0;
    while i < evidence.len()
        invariant
            0 <= i <= evidence@.len(),
            ids_strictly_sorted(object_views(objects@)),
            ({
                let st = evidence_state(evidence@.take(i as int), facts@, owner@, objs0);
                object_views(objects@) == st.0 && edge3_views(edges@) == st.1
            }),
        decreases evidence.len() - i,
    {
        assert(evidence@.take(i + 1).drop_last() =~= evidence@.take(i as int));
        assert(evidence@.take(i + 1).last() == evidence@[i as int]);
        add_evidence(objects, &mut edges, &evidence[i], facts, owner);
        i = i + 1;
    }
    assert(evidence@.take(evidence@.len() as int) =~= evidence@);
    edges
}

/// The objects with the ids added, each as an object of the kind its id names, labelled with
/// its id, at the fact's source and referring to the fact.
pub open spec fn ids_added(objs: Seq<ObjectView>, ids: Seq<Seq<char>>, f: V326LifecycleFactRecord) -> Seq<ObjectView>
    decreases ids.len(),
{
    if ids.len() == 0 {
        objs
    } else {
        added(
            ids_added(objs, ids.drop_last(), f),
            (ids.last(), kind_of_id(ids.last()), ids.last(), Some(source_ref_view(f.source_ref)), seq![f.fact_id@]),
        )
    }
}

/// The objects after every authoritative fact added the objects it names, in order.
pub open spec fn fact_objects(facts: Seq<V326LifecycleFactRecord>, objs0: Seq<ObjectView>) -> Seq<ObjectView>
    decreases facts.len(),
{
    if facts.len() == 0 {
        objs0
    } else if is_authoritative_binding(facts.last()) {
        ids_added(fact_objects(facts.drop_last(), objs0), text_views(facts.last().object_ids@), facts.last())
    } else {
        fact_objects(facts.drop_last(), objs0)
    }
}

fn add_fact_ids(objects: &mut Vec<V326LifecycleObject>, f: &V326LifecycleFactRecord)
    requires
        ids_strictly_sorted(object_views(old(objects)@)),
    ensures
        ids_strictly_sorted(object_views(final(objects)@)),
        object_views(final(objects)@) == ids_added(object_views(old(objects)@), text_views(f.object_ids@), *f),
{
    let ghost objs0 = object_views(objects@);
    let ghost ids = text_views(f.object_ids@);
    let mut k: usize = 0;
    while k < f.object_ids.len()
        invariant
            0 <= k <= f.object_ids@.len(),
            ids == text_views(f.object_ids@),
            ids_strictly_sorted(object_views(objects@)),
            object_views(objects@) == ids_added(objs0, ids.take(k as int), *f),
        decreases f.object_ids.len() - k,
    {
        assert(ids.take(k + 1).drop_last() =~= ids.take(k as int));
        assert(ids.take(k + 1).last() == f.object_ids@[k as int]@);
        let id = f.object_ids[k].clone();
        add_object(
            objects,
            id.clone(),
            object_kind_from_id(id.as_str()),
            id,
            Some(copy_source_ref(&f.source_ref)),
            one_text(&f.fact_id),
        );
        k = k + 1;
    }
    assert(ids.take(ids.len() as int) =~= ids);
}

/// Adds the objects that the authoritative facts name, in order.
pub fn add_fact_objects(objects: &mut Vec<V326LifecycleObject>, facts: &[V326LifecycleFactRecord])
    requires
        ids_strictly_sorted(object_views(old(objects)@)),
    ensures
        ids_strictly_sorted(object_views(final(objects)@)),
        object_views(final(objects)@) == fact_objects(facts@, object_views(old(objects)@)),
{
    let ghost objs0 = object_views(objects@);
    let mut i: usize = 0;
    while i < facts.len()
        invariant
            0 <= i <= facts@.len(),
            ids_strictly_sorted(object_views(objects@)),
            object_views(objects@) == fact_objects(facts@.take(i as int), objs0),
        decreases facts.len() - i,
    {
        assert(facts@.take(i + 1).drop_last() =~= facts@.take(i as int));
        assert(facts@.take(i + 1).last() == facts@[i as int]);
        if is_authoritative_object_binding_fact(&facts[i]) {
            add_fact_ids(objects, &facts[i]);
        }
        i = i + 1;
    }
    assert(facts@.take(facts@.len() as int) =~= facts@);
}

/// The objects and edges after every contract that may retain the callback had the foreign owner
/// retain an observed callback, in order.
pub open spec fn contract_state(
    cs: Seq<V326LifecycleContractRecord>,
    owner: Seq<char>,
    objs0: Seq<ObjectView>,
    edges0: Seq<EdgeView>,
) -> (Seq<ObjectView>, Seq<EdgeView>)
    decreases cs.len(),
{
    if cs.len() == 0 {
        (objs0, edges0)
    } else {
        let (o, es) = contract_state(cs.drop_last(), owner, objs0, edges0);
        let c = cs.last();
        if c.retention == V326ContractRetention::MayRetainCallback {
            let cb = observation_id("callback"@, c.contract_id@);
            (
                added(o, (cb, V326LifecycleObjectKind::Unknown, "callback object binding unproven"@, None, Seq::empty())),
                es.push(
                    (
                        "edge:"@ + sanitized(c.contract_id@) + ":contract_retain"@,
                        owner,
                        cb,
                        V326LifecycleRelation::Retain,
                        V326LifecycleOrdering::Unknown,
                        text_views(c.evidence_refs@),
                        seq![c.contract_id@],
                    ),
                ),
            )
        } else {
            (o, es)
        }
    }
}

/// Adds, for every contract that may retain the callback, an observed callback and the foreign
/// owner's retention of it.
pub fn add_contract_edges(
    objects: &mut Vec<V326LifecycleObject>,
    edges: &mut Vec<V326LifecycleGraphV3Edge>,
    contracts: &[V326LifecycleContractRecord],
    owner: &String,
)
    requires
        ids_strictly_sorted(object_views(old(objects)@)),
    ensures
        ids_strictly_sorted(object_views(final(objects)@)),
        ({
            let st = contract_state(contracts@, owner@, object_views(old(objects)@), edge3_views(old(edges)@));
            object_views(final(objects)@) == st.0 && edge3_views(final(edges)@) == st.1
        }),
{
    let ghost objs0 = object_views(objects@);
    let ghost edges0 = edge3_views(edges@);
    let mut i: usize = 0;
    while i < contracts.len()
        invariant
            0 <= i <= contracts@.len(),
            ids_strictly_sorted(object_views(objects@)),
            ({
                let st = contract_state(contracts@.take(i as int), owner@, objs0, edges0);
                object_views(objects@) == st.0 && edge3_views(edges@) == st.1
            }),
        decreases contracts.len() - i,
    {
        assert(contracts@.take(i + 1).drop_last() =~= contracts@.take(i as int));
        assert(contracts@.take(i + 1).last() == contracts@[i as int]);
        let c = &contracts[i];
        if c.retention == V326ContractRetention::MayRetainCallback {
            let cb = observation_object_id("callback", c.contract_id.as_str());
            let none: Vec<String> = Vec::new();
            assert(text_views(none@) =~= Seq::<Seq<char>>::empty());
            add_object(
                objects,
                cb.clone(),
                V326LifecycleObjectKind::Unknown,
                owned("callback object binding unproven"),
                None,
                none,
            );
            proof {
                reveal_strlit("edge:");
            }
            let edge_id = concat2(
                concat2("edge:", sanitize_id_for_path(c.contract_id.as_str()).as_str()).as_str(),
                ":contract_retain",
            );
            let ghost before = edge3_views(edges@);
            edges.push(
                V326LifecycleGraphV3Edge {
                    edge_id,
                    from_object_id: owner.clone(),
                    to_object_id: cb,
                    relation: V326LifecycleRelation::Retain,
                    ordering: V326LifecycleOrdering::Unknown,
                    evidence_refs: clone_texts(&c.evidence_refs),
                    fact_refs: one_text(&c.contract_id),
                },
            );
            assert(edge3_views(edges@) =~= before.push(edge3_view(edges@.last())));
        }
        i = i + 1;
    }
    assert(contracts@.take(contracts@.len() as int) =~= contracts@);
}

} // verus!
