//! How authoritative object-flow facts follow one another: their flow kinds, endpoints and
//! binding keys, the barriers that cut a flow, and which flows are ambiguous.

use vstd::prelude::*;

use crate::lifecycle_v326::{V326EvidenceConfidence, V326LifecycleFactKind, V326LifecycleFactRecord};
use crate::text::{concat2, owned, skip_chars, starts_with, text_views, trim_text, trimmed};
use crate::v326_contract_scope::{all_nonempty, api_parts_ok};
use crate::v326_fact_edges::{
    endpoints_in_order, first_object_with_prefix, lemma_first_with_prefix_has, first_with_prefix, object_flow_endpoint_object_ids_in_order, opt_view,
};
use crate::v326_fact_refs::{ids_hold, object_ids_hold};
use crate::v326_facts::has_prefix;
use crate::v326_release_pairs::{is_authoritative_binding, is_authoritative_object_binding_fact};
use crate::v326_source_api::split_on_char;
use crate::v326_chain_summary::{contains_text, text_contains};

verus! {

/// The object ids of a fact.
pub open spec fn ids_of(f: V326LifecycleFactRecord) -> Seq<Seq<char>> {
    text_views(f.object_ids@)
}

/// The flow kind of a fact: its first `object_flow:` id without that prefix.
pub open spec fn flow_kind(f: V326LifecycleFactRecord) -> Option<Seq<char>> {
    match first_with_prefix(ids_of(f), "object_flow:"@) {
        Some(k) => Some(k.skip(12)),
        None => None,
    }
}

/// Whether the fact's flow kind is the given one.
pub open spec fn kind_is(f: V326LifecycleFactRecord, k: Seq<char>) -> bool {
    flow_kind(f) == Some(k)
}

/// The flow kind of a fact, if it has one.
pub fn object_flow_kind_from_fact(f: &V326LifecycleFactRecord) -> (r: Option<String>)
    ensures
        opt_view(r) == flow_kind(*f),
{
    proof {
        reveal_strlit("object_flow:");
        lemma_first_with_prefix_has(ids_of(*f), "object_flow:"@);
        assert("object_flow:"@.len() == 12);
    }
    match first_object_with_prefix(&f.object_ids, "object_flow:") {
        Some(k) => Some(skip_chars(k.as_str(), 12)),
        None => None,
    }
}

pub(crate) fn kind_matches(k: &Option<String>, want: &str) -> (b: bool)
    ensures
        b == (opt_view(*k) == Some(want@)),
{
    match k {
        Some(x) => {
            let w = crate::text::owned(want);
            *x == w
        },
        None => false,
    }
}

/// The first two endpoints of a fact's flow, in order.
pub open spec fn ends(f: V326LifecycleFactRecord) -> Seq<Seq<char>> {
    endpoints_in_order(ids_of(f))
}

/// Some object id of the fact carries the prefix.
pub open spec fn has_id_with_prefix(f: V326LifecycleFactRecord, p: Seq<char>) -> bool {
    exists|i: int| 0 <= i < ids_of(f).len() && has_prefix(#[trigger] ids_of(f)[i], p)
}

/// Both facts name a common object id with the prefix.
pub open spec fn share_id_with_prefix(a: V326LifecycleFactRecord, b: V326LifecycleFactRecord, p: Seq<char>) -> bool {
    exists|x: Seq<char>| ids_of(a).contains(x) && ids_of(b).contains(x) && has_prefix(x, p)
}

/// The binding keys of two flows in a scope agree: neither has one, or they share one.
pub open spec fn keys_compatible(a: V326LifecycleFactRecord, b: V326LifecycleFactRecord, scope: Seq<char>) -> bool {
    let p = "object_flow_binding:"@ + scope + ":"@;
    (!has_id_with_prefix(a, p) && !has_id_with_prefix(b, p)) || share_id_with_prefix(a, b, p)
}

fn any_id_with_prefix(f: &V326LifecycleFactRecord, p: &str) -> (r: bool)
    ensures
        r == has_id_with_prefix(*f, p@),
{
    let mut i: usize = 0;
    while i < f.object_ids.len()
        invariant
            0 <= i <= f.object_ids@.len(),
            forall|k: int| 0 <= k < i ==> !has_prefix(#[trigger] ids_of(*f)[k], p@),
        decreases f.object_ids.len() - i,
    {
        if starts_with(f.object_ids[i].as_str(), p) {
            assert(has_prefix(ids_of(*f)[i as int], p@));
            return true;
        }
        i = i + 1;
    }
    false
}

fn shared_id_with_prefix(a: &V326LifecycleFactRecord, b: &V326LifecycleFactRecord, p: &str) -> (r: bool)
    ensures
        r == share_id_with_prefix(*a, *b, p@),
{
    let mut i: usize = 0;
    while i < a.object_ids.len()
        invariant
            0 <= i <= a.object_ids@.len(),
            forall|k: int| 0 <= k < i && has_prefix(#[trigger] ids_of(*a)[k], p@) ==> !ids_of(*b).contains(ids_of(*a)[k]),
        decreases a.object_ids.len() - i,
    {
        if starts_with(a.object_ids[i].as_str(), p) && object_ids_hold(&b.object_ids, a.object_ids[i].as_str()) {
            proof {
                let x = ids_of(*a)[i as int];
                assert(x == a.object_ids@[i as int]@);
                assert(has_prefix(x, p@));
                let j = choose|j: int| 0 <= j < b.object_ids@.len() && #[trigger] b.object_ids@[j]@ == x;
                assert(ids_of(*b)[j] == x);
                assert(ids_of(*a).contains(x));
                assert(ids_of(*b).contains(x));
                assert(share_id_with_prefix(*a, *b, p@));
            }
            return true;
        }
        proof {
            if has_prefix(ids_of(*a)[i as int], p@) && ids_of(*b).contains(ids_of(*a)[i as int]) {
                let j = choose|j: int| 0 <= j < ids_of(*b).len() && ids_of(*b)[j] == ids_of(*a)[i as int];
                assert(b.object_ids@[j]@ == ids_of(*b)[j]);
            }
        }
        i = i + 1;
    }
    proof {
        if share_id_with_prefix(*a, *b, p@) {
            let x = choose|x: Seq<char>| ids_of(*a).contains(x) && ids_of(*b).contains(x) && has_prefix(x, p@);
            let k = choose|k: int| 0 <= k < ids_of(*a).len() && ids_of(*a)[k] == x;
            assert(has_prefix(ids_of(*a)[k], p@));
        }
    }
    false
}

/// Whether the binding keys of two flows in a scope agree.
pub fn object_flow_binding_keys_compatible(a: &V326LifecycleFactRecord, b: &V326LifecycleFactRecord, scope: &str) -> (r:
    bool)
    ensures
        r == keys_compatible(*a, *b, scope@),
{
    let p = crate::text::concat3("object_flow_binding:", scope, ":");
    (!any_id_with_prefix(a, p.as_str()) && !any_id_with_prefix(b, p.as_str())) || shared_id_with_prefix(a, b, p.as_str())
}

/// The fact names the binding kind.
pub open spec fn has_binding_kind(f: V326LifecycleFactRecord, kind: Seq<char>) -> bool {
    ids_hold(f.object_ids@, "object_flow_binding_kind:"@ + kind)
}

/// Whether the fact names the binding kind.
pub fn object_flow_has_binding_kind(f: &V326LifecycleFactRecord, kind: &str) -> (r: bool)
    ensures
        r == has_binding_kind(*f, kind@),
{
    let id = concat2("object_flow_binding_kind:", kind);
    object_ids_hold(&f.object_ids, id.as_str())
}

/// An authoritative object-binding gap that bars reassignment or mutation.
pub open spec fn is_barrier_fact(g: V326LifecycleFactRecord) -> bool {
    &&& g.fact_kind == V326LifecycleFactKind::ObjectBindingGap
    &&& g.confidence == V326EvidenceConfidence::High
    &&& g.provenance.is_verified_static_artifact()
    &&& (ids_hold(g.object_ids@, "object_binding_gap:reassignment_barrier"@) || ids_hold(
        g.object_ids@,
        "object_binding_gap:mutation_barrier"@,
    ))
}

/// Some barrier gap among the facts names the id.
pub open spec fn barred(facts: Seq<V326LifecycleFactRecord>, x: Seq<char>) -> bool {
    exists|k: int| 0 <= k < facts.len() && is_barrier_fact(facts[k]) && #[trigger] ids_hold(facts[k].object_ids@, x)
}

fn is_barrier(g: &V326LifecycleFactRecord) -> (r: bool)
    ensures
        r == is_barrier_fact(*g),
{
    g.fact_kind == V326LifecycleFactKind::ObjectBindingGap && g.confidence == V326EvidenceConfidence::High
        && g.provenance.is_verified() && (object_ids_hold(&g.object_ids, "object_binding_gap:reassignment_barrier")
        || object_ids_hold(&g.object_ids, "object_binding_gap:mutation_barrier"))
}

fn is_barred(facts: &[V326LifecycleFactRecord], x: &str) -> (r: bool)
    ensures
        r == barred(facts@, x@),
{
    let mut k: usize = 0;
    while k < facts.len()
        invariant
            0 <= k <= facts@.len(),
            forall|j: int| 0 <= j < k && is_barrier_fact(facts@[j]) ==> !#[trigger] ids_hold(facts@[j].object_ids@, x@),
        decreases facts.len() - k,
    {
        if is_barrier(&facts[k]) && object_ids_hold(&facts[k].object_ids, x) {
            return true;
        }
        k = k + 1;
    }
    false
}

/// A barrier cuts the flow between two facts: they share a binding key that a barrier gap
/// names, or they share a binding member whose prefix a barrier gap names.
pub open spec fn blocked(a: V326LifecycleFactRecord, b: V326LifecycleFactRecord, facts: Seq<V326LifecycleFactRecord>) -> bool {
    (exists|x: Seq<char>|
        ids_of(a).contains(x) && ids_of(b).contains(x) && has_prefix(x, "object_flow_binding:"@) && #[trigger] barred(
            facts,
            x,
        )) || (exists|m: Seq<char>|
        ids_of(a).contains(m) && ids_of(b).contains(m) && has_prefix(m, "object_flow_binding_member:"@)
            && #[trigger] barred(facts, "object_flow_binding_prefix:"@ + m.skip(27)))
}

/// Whether a barrier cuts the flow between two facts.
pub fn object_flow_pair_blocked_by_barrier(
    a: &V326LifecycleFactRecord,
    b: &V326LifecycleFactRecord,
    facts: &[V326LifecycleFactRecord],
) -> (r: bool)
    ensures
        r == blocked(*a, *b, facts@),
{
    proof {
        reveal_strlit("object_flow_binding:");
        reveal_strlit("object_flow_binding_member:");
    }
    let mut i: usize = 0;
    while i < a.object_ids.len()
        invariant
            0 <= i <= a.object_ids@.len(),
            forall|k: int|
                0 <= k < i && ids_of(*b).contains(#[trigger] ids_of(*a)[k]) ==> !(has_prefix(
                    ids_of(*a)[k],
                    "object_flow_binding:"@,
                ) && barred(facts@, ids_of(*a)[k])) && !(has_prefix(ids_of(*a)[k], "object_flow_binding_member:"@)
                    && barred(facts@, "object_flow_binding_prefix:"@ + ids_of(*a)[k].skip(27))),
        decreases a.object_ids.len() - i,
    {
        let x = a.object_ids[i].as_str();
        let ghost xv = ids_of(*a)[i as int];
        if object_ids_hold(&b.object_ids, x) {
            proof {
                let j = choose|j: int| 0 <= j < b.object_ids@.len() && #[trigger] b.object_ids@[j]@ == xv;
                assert(ids_of(*b)[j] == xv);
                assert(ids_of(*a).contains(xv));
                assert(ids_of(*b).contains(xv));
            }
            if starts_with(x, "object_flow_binding:") && is_barred(facts, x) {
                return true;
            }
            if starts_with(x, "object_flow_binding_member:") {
                proof {
                    reveal_strlit("object_flow_binding_member:");
                }
                assert("object_flow_binding_member:"@.len() == 27);
                let pre = concat2("object_flow_binding_prefix:", skip_chars(x, 27).as_str());
                if is_barred(facts, pre.as_str()) {
                    return true;
                }
            }
        } else {
            proof {
                if ids_of(*b).contains(xv) {
                    let j = choose|j: int| 0 <= j < ids_of(*b).len() && ids_of(*b)[j] == xv;
                    assert(b.object_ids@[j]@ == xv);
                }
            }
        }
        i = i + 1;
    }
    proof {
        assert forall|x: Seq<char>|
            ids_of(*a).contains(x) && ids_of(*b).contains(x) implies !(has_prefix(x, "object_flow_binding:"@) && barred(
            facts@,
            x,
        )) && !(has_prefix(x, "object_flow_binding_member:"@) && barred(
            facts@,
            "object_flow_binding_prefix:"@ + x.skip(27),
        )) by {
            let k = choose|k: int| 0 <= k < ids_of(*a).len() && ids_of(*a)[k] == x;
            assert(ids_of(*b).contains(ids_of(*a)[k]));
        }
    }
    false
}

/// The exact API-map id of a fact: its symbol path (or its source's), trimmed, when it is
/// `api:` followed by at least two non-empty `:`-separated parts.
pub open spec fn exact_api(f: V326LifecycleFactRecord) -> Option<Seq<char>> {
    let sym = match f.symbol_path {
        Some(s) => Some(s@),
        None => opt_view(f.source_ref.symbol_path),
    };
    match sym {
        Some(s) => {
            let t = trimmed(s);
            if has_prefix(t, "api:"@) && split_on_char(t.skip(4), ':').len() >= 2 && all_nonempty(
                split_on_char(t.skip(4), ':'),
            ) {
                Some(t)
            } else {
                None
            }
        },
        None => None,
    }
}

/// The exact API-map id of a fact, if it has one.
pub fn exact_contract_api_map_id_for_fact(f: &V326LifecycleFactRecord) -> (r: Option<String>)
    ensures
        opt_view(r) == exact_api(*f),
{
    let sym = match &f.symbol_path {
        Some(s) => s,
        None => match &f.source_ref.symbol_path {
            Some(s) => s,
            None => {
                return None;
            },
        },
    };
    let t = trim_text(sym.as_str());
    proof {
        reveal_strlit("api:");
    }
    if starts_with(t.as_str(), "api:") {
        let rest = skip_chars(t.as_str(), 4);
        if api_parts_ok(rest.as_str(), 2) {
            return Some(t);
        }
    }
    None
}

/// The flow goes from user data through an opaque handle of one exact API contract, on the
/// same field binding.
pub open spec fn exact_contract_sequence(a: V326LifecycleFactRecord, b: V326LifecycleFactRecord, k1: Seq<char>, k2: Seq<
    char,
>) -> bool {
    let e1 = ends(a);
    let e2 = ends(b);
    let fp = "object_flow_binding:field:"@;
    &&& k1 == "field_store"@ && k2 == "field_load"@
    &&& e1.len() >= 2 && e2.len() >= 2
    &&& has_id_with_prefix(a, fp) && share_id_with_prefix(a, b, fp)
    &&& exact_api(a) is Some && exact_api(b) == exact_api(a)
    &&& has_prefix(e1[0], "user_data:"@) && has_prefix(e1[1], "opaque_handle:"@) && has_prefix(e2[0], "opaque_handle:"@)
    &&& has_prefix(e2[1], "user_data:"@) || has_prefix(e2[1], "static_site:"@) || has_prefix(e2[1], "release_endpoint:"@)
}

/// Two flows follow one another: both have two endpoints, their field and container bindings
/// agree, and the second starts where the first ends (or, for a field store and load or a
/// wrapper move and destructuring, the second ends where the first starts), or they run through
/// one exact API contract.
pub open spec fn compatible_sequence(a: V326LifecycleFactRecord, b: V326LifecycleFactRecord, k1: Seq<char>, k2: Seq<
    char,
>) -> bool {
    let e1 = ends(a);
    let e2 = ends(b);
    &&& e1.len() >= 2 && e2.len() >= 2
    &&& keys_compatible(a, b, "field"@) && keys_compatible(a, b, "container"@)
    &&& (e1[1] == e2[0] || (((k1 == "field_store"@ && k2 == "field_load"@) || (k1 == "wrapper_move"@ && k2
        == "wrapper_destructure"@)) && e1[0] == e2[1]) || exact_contract_sequence(a, b, k1, k2))
}

fn text_is(s: &str, t: &str) -> (b: bool)
    ensures
        b == (s@ == t@),
{
    crate::text::owned(s) == crate::text::owned(t)
}

/// Whether two flows follow one another.
pub fn object_flow_facts_are_compatible_sequence(
    a: &V326LifecycleFactRecord,
    b: &V326LifecycleFactRecord,
    k1: &str,
    k2: &str,
) -> (r: bool)
    ensures
        r == compatible_sequence(*a, *b, k1@, k2@),
{
    let e1 = object_flow_endpoint_object_ids_in_order(a);
    let e2 = object_flow_endpoint_object_ids_in_order(b);
    if e1.len() < 2 || e2.len() < 2 {
        return false;
    }
    if !object_flow_binding_keys_compatible(a, b, "field") || !object_flow_binding_keys_compatible(a, b, "container") {
        return false;
    }
    let store_load = text_is(k1, "field_store") && text_is(k2, "field_load");
    let move_destructure = text_is(k1, "wrapper_move") && text_is(k2, "wrapper_destructure");
    if e1[1] == e2[0] || ((store_load || move_destructure) && e1[0] == e2[1]) {
        return true;
    }
    if !store_load {
        return false;
    }
    let fp = "object_flow_binding:field:";
    if !any_id_with_prefix(a, fp) || !shared_id_with_prefix(a, b, fp) {
        return false;
    }
    let api_a = exact_contract_api_map_id_for_fact(a);
    let api_b = exact_contract_api_map_id_for_fact(b);
    let same_api = match (&api_a, &api_b) {
        (Some(x), Some(y)) => *x == *y,
        _ => false,
    };
    same_api && starts_with(e1[0].as_str(), "user_data:") && starts_with(e1[1].as_str(), "opaque_handle:")
        && starts_with(e2[0].as_str(), "opaque_handle:") && (starts_with(e2[1].as_str(), "user_data:") || starts_with(
        e2[1].as_str(),
        "static_site:",
    ) || starts_with(e2[1].as_str(), "release_endpoint:"))
}

/// A wrapper move between two Rust owners, which carries the object without changing it.
pub open spec fn is_neutral_alias(f: V326LifecycleFactRecord) -> bool {
    &&& f.fact_kind == V326LifecycleFactKind::ObjectFlow
    &&& kind_is(f, "wrapper_move"@)
    &&& ends(f).len() == 2
    &&& has_prefix(ends(f)[0], "rust_owner:"@) && has_prefix(ends(f)[1], "rust_owner:"@)
}

/// Whether the flow is a wrapper move between two Rust owners.
pub fn object_flow_fact_is_neutral_alias(f: &V326LifecycleFactRecord) -> (r: bool)
    ensures
        r == is_neutral_alias(*f),
{
    if f.fact_kind != V326LifecycleFactKind::ObjectFlow {
        return false;
    }
    let k = object_flow_kind_from_fact(f);
    if !kind_matches(&k, "wrapper_move") {
        return false;
    }
    let e = object_flow_endpoint_object_ids_in_order(f);
    e.len() == 2 && starts_with(e[0].as_str(), "rust_owner:") && starts_with(e[1].as_str(), "rust_owner:")
}


/// The first endpoint of a flow, if any.
pub open spec fn from_of(f: V326LifecycleFactRecord) -> Option<Seq<char>> {
    if ends(f).len() >= 1 {
        Some(ends(f)[0])
    } else {
        None
    }
}

/// The second endpoint of a flow, if any.
pub open spec fn to_of(f: V326LifecycleFactRecord) -> Option<Seq<char>> {
    if ends(f).len() >= 2 {
        Some(ends(f)[1])
    } else {
        None
    }
}

/// An authoritative object flow of the same flow kind as `f`.
pub open spec fn flow_peer(o: V326LifecycleFactRecord, f: V326LifecycleFactRecord) -> bool {
    o.fact_kind == V326LifecycleFactKind::ObjectFlow && is_authoritative_binding(o) && flow_kind(o) == flow_kind(f)
}

/// Peers of `f` that end at `t` come from two different sources.
pub open spec fn has_two_sources(f: V326LifecycleFactRecord, facts: Seq<V326LifecycleFactRecord>, t: Seq<char>) -> bool {
    exists|i: int, j: int|
        0 <= i < facts.len() && 0 <= j < facts.len() && flow_peer(facts[i], f) && flow_peer(facts[j], f) && to_of(
            facts[i],
        ) == Some(t) && to_of(facts[j]) == Some(t) && #[trigger] from_of(facts[i]) is Some && #[trigger] from_of(
            facts[j],
        ) is Some && from_of(facts[i]) != from_of(facts[j])
}

/// Peers of `f` that start at `x` go to two different targets.
pub open spec fn has_two_targets(f: V326LifecycleFactRecord, facts: Seq<V326LifecycleFactRecord>, x: Seq<char>) -> bool {
    exists|i: int, j: int|
        0 <= i < facts.len() && 0 <= j < facts.len() && flow_peer(facts[i], f) && flow_peer(facts[j], f) && from_of(
            facts[i],
        ) == Some(x) && from_of(facts[j]) == Some(x) && #[trigger] to_of(facts[i]) is Some && #[trigger] to_of(
            facts[j],
        ) is Some && to_of(facts[i]) != to_of(facts[j])
}

/// The release-path proof `g` allows the target: it names it as a static site, or names the
/// release endpoint of that site.
pub open spec fn allows_target(g: V326LifecycleFactRecord, t: Seq<char>) -> bool {
    (ids_of(g).contains(t) && has_prefix(t, "static_site:"@)) || exists|k: int|
        0 <= k < ids_of(g).len() && has_prefix(#[trigger] ids_of(g)[k], "release_endpoint:"@) && t == "static_site:"@
            + ids_of(g)[k].skip(17)
}

/// The release-path proof `g` allows every target of the peers of `f` that start at `x`.
pub open spec fn allows_all_targets(g: V326LifecycleFactRecord, f: V326LifecycleFactRecord, facts: Seq<
    V326LifecycleFactRecord,
>, x: Seq<char>) -> bool {
    forall|i: int|
        0 <= i < facts.len() && flow_peer(facts[i], f) && from_of(facts[i]) == Some(x) && #[trigger] to_of(facts[i])
            is Some ==> allows_target(g, to_of(facts[i])->0)
}

/// The targets of an argument flow from user data are all sites of one release-path proof that
/// names the user data.
pub open spec fn targets_are_release_path(f: V326LifecycleFactRecord, facts: Seq<V326LifecycleFactRecord>, x: Seq<
    char,
>) -> bool {
    &&& kind_is(f, "argument"@)
    &&& has_prefix(x, "user_data:"@)
    &&& exists|k: int|
        0 <= k < facts.len() && facts[k].fact_kind == V326LifecycleFactKind::ReleasePathProof && ids_of(
            facts[k],
        ).contains(x) && #[trigger] allows_all_targets(facts[k], f, facts, x)
}

/// A closure capture slot of a callback.
pub open spec fn is_capture_slot(x: Seq<char>) -> bool {
    has_prefix(x, "callback:"@) && contains_text(x, ":capture_slot:"@)
}

/// The flow is ambiguous: a closure capture whose slot is filled from two sources, or a flow
/// (other than a load from a capture slot) whose source goes to two targets that are not the
/// sites of one release-path proof.
pub open spec fn is_ambiguous(f: V326LifecycleFactRecord, facts: Seq<V326LifecycleFactRecord>) -> bool {
    if kind_is(f, "closure_capture"@) && (to_of(f) matches Some(t) && has_two_sources(f, facts, t)) {
        true
    } else if kind_is(f, "field_load"@) && (from_of(f) matches Some(x) && is_capture_slot(x)) {
        false
    } else {
        from_of(f) matches Some(x) && has_two_targets(f, facts, x) && !targets_are_release_path(f, facts, x)
    }
}

fn same_flow_kind(a: &Option<String>, b: &Option<String>) -> (r: bool)
    ensures
        r == (opt_view(*a) == opt_view(*b)),
{
    match (a, b) {
        (Some(x), Some(y)) => *x == *y,
        (None, None) => true,
        _ => false,
    }
}

fn is_flow_peer(o: &V326LifecycleFactRecord, kind: &Option<String>, Ghost(f): Ghost<V326LifecycleFactRecord>) -> (r: bool)
    requires
        opt_view(*kind) == flow_kind(f),
    ensures
        r == flow_peer(*o, f),
{
    if o.fact_kind != V326LifecycleFactKind::ObjectFlow || !is_authoritative_object_binding_fact(o) {
        return false;
    }
    let k = object_flow_kind_from_fact(o);
    same_flow_kind(&k, kind)
}

fn end_at(f: &V326LifecycleFactRecord, n: usize) -> (r: Option<String>)
    requires
        n < 2,
    ensures
        opt_view(r) == (if n == 0 { from_of(*f) } else { to_of(*f) }),
{
    let e = object_flow_endpoint_object_ids_in_order(f);
    if n < e.len() {
        proof {
            assert(text_views(e@)[n as int] == e@[n as int]@);
        }
        Some(e[n].clone())
    } else {
        None
    }
}

/// Whether peers of `f` that meet at one end (`at` 1: end at `t`; `at` 0: start at `t`) differ
/// at the other end.
fn two_other_ends(facts: &[V326LifecycleFactRecord], kind: &Option<String>, t: &String, at: usize, Ghost(f): Ghost<
    V326LifecycleFactRecord,
>) -> (r: bool)
    requires
        opt_view(*kind) == flow_kind(f),
        at < 2,
    ensures
        at == 1 ==> r == has_two_sources(f, facts@, t@),
        at == 0 ==> r == has_two_targets(f, facts@, t@),
{
    let other: usize = 1 - at;
    let ghost meet = |o: V326LifecycleFactRecord| if at == 1 { to_of(o) } else { from_of(o) };
    let ghost far = |o: V326LifecycleFactRecord| if at == 1 { from_of(o) } else { to_of(o) };
    let mut first: Option<String> = None;
    let mut i: usize = 0;
    while i < facts.len()
        invariant
            0 <= i <= facts@.len(),
            opt_view(*kind) == flow_kind(f),
            at < 2,
            other == 1 - at,
            meet == (|o: V326LifecycleFactRecord| if at == 1 { to_of(o) } else { from_of(o) }),
            far == (|o: V326LifecycleFactRecord| if at == 1 { from_of(o) } else { to_of(o) }),
            match first {
                None => forall|k: int|
                    0 <= k < i && flow_peer(facts@[k], f) && meet(facts@[k]) == Some(t@) ==> far(facts@[k]) is None,
                Some(s0) => (exists|k0: int|
                    0 <= k0 < i && flow_peer(facts@[k0], f) && meet(facts@[k0]) == Some(t@) && far(facts@[k0])
                        == Some(s0@)) && forall|k: int|
                    0 <= k < i && flow_peer(facts@[k], f) && meet(facts@[k]) == Some(t@) && far(facts@[k]) is Some
                        ==> far(facts@[k]) == Some(s0@),
            },
        decreases facts.len() - i,
    {
        if is_flow_peer(&facts[i], kind, Ghost(f)) {
            let m = end_at(&facts[i], at);
            let hit = match &m {
                Some(x) => *x == *t,
                None => false,
            };
            if hit {
                let o = end_at(&facts[i], other);
                match o {
                    Some(s) => match &first {
                        None => {
                            first = Some(s);
                        },
                        Some(s0) => {
                            if s != *s0 {
                                proof {
                                    let k0 = choose|k0: int|
                                        0 <= k0 < i && flow_peer(facts@[k0], f) && meet(facts@[k0]) == Some(t@)
                                            && far(facts@[k0]) == Some(s0@);
                                    if at == 1 {
                                        assert(from_of(facts@[k0]) is Some && from_of(facts@[i as int]) is Some);
                                        assert(has_two_sources(f, facts@, t@));
                                    } else {
                                        assert(to_of(facts@[k0]) is Some && to_of(facts@[i as int]) is Some);
                                        assert(has_two_targets(f, facts@, t@));
                                    }
                                }
                                return true;
                            }
                        },
                    },
                    None => {},
                }
            }
        }
        i = i + 1;
    }
    proof {
        if at == 1 && has_two_sources(f, facts@, t@) {
            let (a, b) = choose|a: int, b: int|
                0 <= a < facts@.len() && 0 <= b < facts@.len() && flow_peer(facts@[a], f) && flow_peer(facts@[b], f)
                    && to_of(facts@[a]) == Some(t@) && to_of(facts@[b]) == Some(t@) && #[trigger] from_of(facts@[a]) is Some
                    && #[trigger] from_of(facts@[b]) is Some && from_of(facts@[a]) != from_of(facts@[b]);
            assert(far(facts@[a]) is Some && far(facts@[b]) is Some);
        }
        if at == 0 && has_two_targets(f, facts@, t@) {
            let (a, b) = choose|a: int, b: int|
                0 <= a < facts@.len() && 0 <= b < facts@.len() && flow_peer(facts@[a], f) && flow_peer(facts@[b], f)
                    && from_of(facts@[a]) == Some(t@) && from_of(facts@[b]) == Some(t@) && #[trigger] to_of(facts@[a]) is Some
                    && #[trigger] to_of(facts@[b]) is Some && to_of(facts@[a]) != to_of(facts@[b]);
            assert(far(facts@[a]) is Some && far(facts@[b]) is Some);
        }
    }
    false
}


fn allows(g: &V326LifecycleFactRecord, t: &String) -> (r: bool)
    ensures
        r == allows_target(*g, t@),
{
    proof {
        reveal_strlit("release_endpoint:");
    }
    if object_ids_hold(&g.object_ids, t.as_str()) && starts_with(t.as_str(), "static_site:") {
        proof {
            let j = choose|j: int| 0 <= j < g.object_ids@.len() && #[trigger] g.object_ids@[j]@ == t@;
            assert(ids_of(*g)[j] == t@);
        }
        return true;
    }
    proof {
        if ids_of(*g).contains(t@) {
            let j = choose|j: int| 0 <= j < ids_of(*g).len() && ids_of(*g)[j] == t@;
            assert(g.object_ids@[j]@ == t@);
        }
    }
    let mut k: usize = 0;
    while k < g.object_ids.len()
        invariant
            0 <= k <= g.object_ids@.len(),
            forall|j: int|
                0 <= j < k && has_prefix(#[trigger] ids_of(*g)[j], "release_endpoint:"@) ==> t@ != "static_site:"@
                    + ids_of(*g)[j].skip(17),
        decreases g.object_ids.len() - k,
    {
        let id = g.object_ids[k].as_str();
        if starts_with(id, "release_endpoint:") {
            proof {
                reveal_strlit("release_endpoint:");
            }
            assert("release_endpoint:"@.len() == 17);
            let site = concat2("static_site:", skip_chars(id, 17).as_str());
            if site == *t {
                assert(has_prefix(ids_of(*g)[k as int], "release_endpoint:"@));
                return true;
            }
        }
        k = k + 1;
    }
    false
}

fn all_targets_allowed(
    facts: &[V326LifecycleFactRecord],
    g: &V326LifecycleFactRecord,
    kind: &Option<String>,
    x: &String,
    Ghost(f): Ghost<V326LifecycleFactRecord>,
) -> (r: bool)
    requires
        opt_view(*kind) == flow_kind(f),
    ensures
        r == allows_all_targets(*g, f, facts@, x@),
{
    let mut i: usize = 0;
    while i < facts.len()
        invariant
            0 <= i <= facts@.len(),
            opt_view(*kind) == flow_kind(f),
            forall|j: int|
                0 <= j < i && flow_peer(facts@[j], f) && from_of(facts@[j]) == Some(x@) && #[trigger] to_of(facts@[j])
                    is Some ==> allows_target(*g, to_of(facts@[j])->0),
        decreases facts.len() - i,
    {
        if is_flow_peer(&facts[i], kind, Ghost(f)) {
            let a = end_at(&facts[i], 0);
            let from_hit = match &a {
                Some(y) => *y == *x,
                None => false,
            };
            if from_hit {
                match end_at(&facts[i], 1) {
                    Some(t) => {
                        if !allows(g, &t) {
                            return false;
                        }
                    },
                    None => {},
                }
            }
        }
        i = i + 1;
    }
    true
}

fn release_path_targets(
    facts: &[V326LifecycleFactRecord],
    kind: &Option<String>,
    x: &String,
    Ghost(f): Ghost<V326LifecycleFactRecord>,
) -> (r: bool)
    requires
        opt_view(*kind) == flow_kind(f),
    ensures
        r == targets_are_release_path(f, facts@, x@),
{
    if !kind_matches(kind, "argument") || !starts_with(x.as_str(), "user_data:") {
        return false;
    }
    let mut k: usize = 0;
    while k < facts.len()
        invariant
            0 <= k <= facts@.len(),
            opt_view(*kind) == flow_kind(f),
            kind_is(f, "argument"@),
            has_prefix(x@, "user_data:"@),
            forall|j: int|
                0 <= j < k && facts@[j].fact_kind == V326LifecycleFactKind::ReleasePathProof && ids_of(
                    facts@[j],
                ).contains(x@) ==> !#[trigger] allows_all_targets(facts@[j], f, facts@, x@),
        decreases facts.len() - k,
    {
        if facts[k].fact_kind == V326LifecycleFactKind::ReleasePathProof && object_ids_hold(
            &facts[k].object_ids,
            x.as_str(),
        ) && all_targets_allowed(facts, &facts[k], kind, x, Ghost(f)) {
            proof {
                let j = choose|j: int| 0 <= j < facts@[k as int].object_ids@.len() && #[trigger] facts@[k as int].object_ids@[j]@ == x@;
                assert(ids_of(facts@[k as int])[j] == x@);
            }
            return true;
        }
        proof {
            if facts@[k as int].fact_kind == V326LifecycleFactKind::ReleasePathProof && ids_of(facts@[k as int]).contains(
                x@,
            ) {
                let j = choose|j: int| 0 <= j < ids_of(facts@[k as int]).len() && ids_of(facts@[k as int])[j] == x@;
                assert(facts@[k as int].object_ids@[j]@ == x@);
            }
        }
        k = k + 1;
    }
    false
}

/// Whether the flow is ambiguous among the facts.
pub fn object_flow_endpoint_is_ambiguous(f: &V326LifecycleFactRecord, facts: &[V326LifecycleFactRecord]) -> (r: bool)
    ensures
        r == is_ambiguous(*f, facts@),
{
    let kind = object_flow_kind_from_fact(f);
    let from = end_at(f, 0);
    let to = end_at(f, 1);
    if kind_matches(&kind, "closure_capture") {
        match &to {
            Some(t) => {
                if two_other_ends(facts, &kind, t, 1, Ghost(*f)) {
                    return true;
                }
            },
            None => {},
        }
    }
    if kind_matches(&kind, "field_load") {
        match &from {
            Some(x) => {
                proof {
                    reveal_strlit("callback:");
                }
                if starts_with(x.as_str(), "callback:") && text_contains(x.as_str(), ":capture_slot:") {
                    return false;
                }
            },
            None => {},
        }
    }
    match &from {
        Some(x) => two_other_ends(facts, &kind, x, 0, Ghost(*f)) && !release_path_targets(facts, &kind, x, Ghost(*f)),
        None => false,
    }
}

/// Some authoritative object flow among the facts is ambiguous.
pub open spec fn any_ambiguous_flow(facts: Seq<V326LifecycleFactRecord>) -> bool {
    exists|i: int|
        0 <= i < facts.len() && facts[i].fact_kind == V326LifecycleFactKind::ObjectFlow && is_authoritative_binding(
            facts[i],
        ) && #[trigger] is_ambiguous(facts[i], facts)
}

/// Whether some authoritative object flow among the facts is ambiguous.
pub fn has_ambiguous_object_flow_binding(facts: &[V326LifecycleFactRecord]) -> (r: bool)
    ensures
        r == any_ambiguous_flow(facts@),
{
    let mut i: usize = 0;
    while i < facts.len()
        invariant
            0 <= i <= facts@.len(),
            forall|j: int|
                0 <= j < i && facts@[j].fact_kind == V326LifecycleFactKind::ObjectFlow && is_authoritative_binding(
                    facts@[j],
                ) ==> !#[trigger] is_ambiguous(facts@[j], facts@),
        decreases facts.len() - i,
    {
        if facts[i].fact_kind == V326LifecycleFactKind::ObjectFlow && is_authoritative_object_binding_fact(&facts[i])
            && object_flow_endpoint_is_ambiguous(&facts[i], facts) {
            return true;
        }
        i = i + 1;
    }
    false
}

} // verus!
