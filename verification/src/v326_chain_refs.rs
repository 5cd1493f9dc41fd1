//! The fact references of the verified lifecycle chains: register and release ordering,
//! callback use after release, persisted returned borrows used after invalidation, and complete
//! object flows with the facts that touch their endpoints.

use vstd::prelude::*;

use crate::lifecycle_v326::{V326LifecycleFactKind, V326LifecycleFactRecord};
use crate::text::{concat2, skip_chars, sorted_unique_texts, starts_with, text_views, texts_strictly_sorted};
use crate::v326_fact_edges::{first_object_with_prefix, first_with_prefix, lemma_first_with_prefix_has, opt_view};
use crate::v326_fact_refs::{fact_ids_where, ids_hold, ids_where, object_ids_hold};
use crate::v326_facts::has_prefix;
use crate::v326_flow_components::{complete_flow_end, complete_flow_ref, is_complete_flow_end, is_complete_flow_ref};
use crate::v326_object_flow::{
    blocked, compatible_sequence, ends, from_of, has_binding_kind, ids_of, keys_compatible, kind_is, kind_matches,
    object_flow_binding_keys_compatible, object_flow_facts_are_compatible_sequence, object_flow_has_binding_kind,
    object_flow_kind_from_fact, object_flow_pair_blocked_by_barrier, to_of,
};
use crate::v326_release_pairs::{
    fact_user_data_object_ids, is_authoritative_binding, is_authoritative_object_binding_fact, proof_matches_register,
    proof_registration_site, release_path_proof_matches_register, release_path_proof_registration_static_site,
    shares_text, user_data_ids,
};

verus! {

/// The user-data ids of a fact.
pub open spec fn ud(f: V326LifecycleFactRecord) -> Seq<Seq<char>> {
    user_data_ids(ids_of(f))
}

/// Some id of `b` is among `a`.
pub open spec fn seq_share(a: Seq<Seq<char>>, b: Seq<Seq<char>>) -> bool {
    exists|k: int| 0 <= k < b.len() && a.contains(#[trigger] b[k])
}

/// The release endpoint a release-path proof names: its first `release_endpoint:` id.
pub open spec fn proof_release_endpoint(f: V326LifecycleFactRecord) -> Option<Seq<char>> {
    if f.fact_kind == V326LifecycleFactKind::ReleasePathProof {
        first_with_prefix(ids_of(f), "release_endpoint:"@)
    } else {
        None
    }
}

/// The release endpoint of a release call: its first `release_endpoint:` id.
pub open spec fn call_release_endpoint(f: V326LifecycleFactRecord) -> Option<Seq<char>> {
    if f.fact_kind == V326LifecycleFactKind::ReleaseCall {
        first_with_prefix(ids_of(f), "release_endpoint:"@)
    } else {
        None
    }
}

/// A release-path proof and a release call of the same release endpoint that share user data.
pub open spec fn release_call_matches(p: V326LifecycleFactRecord, c: V326LifecycleFactRecord) -> bool {
    &&& p.fact_kind == V326LifecycleFactKind::ReleasePathProof && c.fact_kind == V326LifecycleFactKind::ReleaseCall
    &&& is_authoritative_binding(p) && is_authoritative_binding(c)
    &&& proof_release_endpoint(p) is Some && call_release_endpoint(c) == proof_release_endpoint(p)
    &&& ud(p).len() > 0 && seq_share(ud(p), ud(c))
}

/// A fact that supports a release-path proof: a raw-pointer escape of its user data, or a
/// release call that it matches.
pub open spec fn supports_proof(p: V326LifecycleFactRecord, f: V326LifecycleFactRecord) -> bool {
    (f.fact_kind == V326LifecycleFactKind::RawPointerEscape && seq_share(ud(p), ud(f))) || (f.fact_kind
        == V326LifecycleFactKind::ReleaseCall && release_call_matches(p, f))
}

/// The static site of the release endpoint a release-path proof names.
pub open spec fn proof_release_site(p: V326LifecycleFactRecord) -> Option<Seq<char>> {
    match proof_release_endpoint(p) {
        Some(e) => Some("static_site:"@ + e.skip(17)),
        None => None,
    }
}

/// A store into a hook release slot from user data, loaded back from the same static slot.
pub open spec fn hook_slot_sequence(s: V326LifecycleFactRecord, l: V326LifecycleFactRecord) -> bool {
    &&& kind_is(s, "field_store"@) && kind_is(l, "field_load"@)
    &&& has_binding_kind(s, "hook_release_slot"@) && has_binding_kind(l, "hook_release_slot"@)
    &&& keys_compatible(s, l, "field"@)
    &&& ends(s).len() >= 2 && ends(l).len() >= 2
    &&& has_prefix(ends(s)[0], "user_data:"@) && has_prefix(ends(s)[1], "static_site:"@)
    &&& has_prefix(ends(l)[0], "static_site:"@) && has_prefix(ends(l)[1], "static_site:"@)
}

/// An authoritative field store from one of `from` followed by an authoritative field load into
/// one of `to`, with no barrier between them.
pub open spec fn store_load(
    facts: Seq<V326LifecycleFactRecord>,
    s: int,
    l: int,
    from: Seq<Seq<char>>,
    to: Seq<Seq<char>>,
) -> bool {
    let fs = facts[s];
    let fl = facts[l];
    &&& 0 <= s < facts.len() && 0 <= l < facts.len()
    &&& fs.fact_kind == V326LifecycleFactKind::ObjectFlow && is_authoritative_binding(fs)
    &&& fl.fact_kind == V326LifecycleFactKind::ObjectFlow && is_authoritative_binding(fl)
    &&& kind_is(fs, "field_store"@) && (from_of(fs) matches Some(x) && from.contains(x))
    &&& kind_is(fl, "field_load"@) && (to_of(fl) matches Some(y) && to.contains(y))
    &&& (compatible_sequence(fs, fl, "field_store"@, "field_load"@) || hook_slot_sequence(fs, fl))
    &&& !blocked(fs, fl, facts)
}

/// `x` is the id of a store or load of such a sequence.
pub open spec fn store_load_ref(facts: Seq<V326LifecycleFactRecord>, from: Seq<Seq<char>>, to: Seq<Seq<char>>, x: Seq<
    char,
>) -> bool {
    exists|s: int, l: int|
        #[trigger] store_load(facts, s, l, from, to) && (facts[s].fact_id@ == x || facts[l].fact_id@ == x)
}

/// Some store and load carry an object from `from` to `to`.
pub open spec fn store_load_exists(facts: Seq<V326LifecycleFactRecord>, from: Seq<Seq<char>>, to: Seq<Seq<char>>) -> bool {
    exists|s: int, l: int| #[trigger] store_load(facts, s, l, from, to)
}

fn hook_slot(s: &V326LifecycleFactRecord, l: &V326LifecycleFactRecord) -> (r: bool)
    ensures
        r == hook_slot_sequence(*s, *l),
{
    let ks = object_flow_kind_from_fact(s);
    let kl = object_flow_kind_from_fact(l);
    if !kind_matches(&ks, "field_store") || !kind_matches(&kl, "field_load") || !object_flow_has_binding_kind(
        s,
        "hook_release_slot",
    ) || !object_flow_has_binding_kind(l, "hook_release_slot") || !object_flow_binding_keys_compatible(s, l, "field") {
        return false;
    }
    let es = crate::v326_fact_edges::object_flow_endpoint_object_ids_in_order(s);
    let el = crate::v326_fact_edges::object_flow_endpoint_object_ids_in_order(l);
    if es.len() < 2 || el.len() < 2 {
        return false;
    }
    proof {
        assert(text_views(es@)[0] == es@[0]@ && text_views(es@)[1] == es@[1]@);
        assert(text_views(el@)[0] == el@[0]@ && text_views(el@)[1] == el@[1]@);
    }
    starts_with(es[0].as_str(), "user_data:") && starts_with(es[1].as_str(), "static_site:") && starts_with(
        el[0].as_str(),
        "static_site:",
    ) && starts_with(el[1].as_str(), "static_site:")
}

fn end_in(f: &V326LifecycleFactRecord, n: usize, set: &Vec<String>) -> (r: bool)
    requires
        n < 2,
    ensures
        r == (if n == 0 { from_of(*f) } else { to_of(*f) } matches Some(x) && text_views(set@).contains(x)),
{
    let e = crate::v326_fact_edges::object_flow_endpoint_object_ids_in_order(f);
    if n < e.len() {
        proof {
            assert(text_views(e@)[n as int] == e@[n as int]@);
        }
        let r = object_ids_hold(set, e[n].as_str());
        proof {
            if r {
                let k = choose|k: int| 0 <= k < set@.len() && #[trigger] set@[k]@ == e@[n as int]@;
                assert(text_views(set@)[k] == e@[n as int]@);
            }
            if text_views(set@).contains(e@[n as int]@) {
                let k = choose|k: int| 0 <= k < text_views(set@).len() && text_views(set@)[k] == e@[n as int]@;
                assert(set@[k]@ == e@[n as int]@);
            }
        }
        r
    } else {
        false
    }
}

fn store_load_at(facts: &[V326LifecycleFactRecord], s: usize, l: usize, from: &Vec<String>, to: &Vec<String>) -> (r: bool)
    requires
        s < facts@.len(),
        l < facts@.len(),
    ensures
        r == store_load(facts@, s as int, l as int, text_views(from@), text_views(to@)),
{
    let fs = &facts[s];
    let fl = &facts[l];
    if fs.fact_kind != V326LifecycleFactKind::ObjectFlow || !is_authoritative_object_binding_fact(fs) || fl.fact_kind
        != V326LifecycleFactKind::ObjectFlow || !is_authoritative_object_binding_fact(fl) {
        return false;
    }
    let ks = object_flow_kind_from_fact(fs);
    let kl = object_flow_kind_from_fact(fl);
    kind_matches(&ks, "field_store") && end_in(fs, 0, from) && kind_matches(&kl, "field_load") && end_in(fl, 1, to) && (
    object_flow_facts_are_compatible_sequence(fs, fl, "field_store", "field_load") || hook_slot(fs, fl))
        && !object_flow_pair_blocked_by_barrier(fs, fl, facts)
}

/// Whether `x` is the id of a store or load carrying an object from `from` to `to`; with `any`,
/// whether some store and load do so at all.
fn store_load_search(facts: &[V326LifecycleFactRecord], from: &Vec<String>, to: &Vec<String>, x: &String, any: bool) -> (r:
    bool)
    ensures
        any ==> r == store_load_exists(facts@, text_views(from@), text_views(to@)),
        !any ==> r == store_load_ref(facts@, text_views(from@), text_views(to@), x@),
{
    let ghost fr = text_views(from@);
    let ghost tv = text_views(to@);
    let mut s: usize = 0;
    while s < facts.len()
        invariant
            0 <= s <= facts@.len(),
            fr == text_views(from@),
            tv == text_views(to@),
            forall|s0: int, l0: int|
                0 <= s0 < s && #[trigger] store_load(facts@, s0, l0, fr, tv) ==> !any && facts@[s0].fact_id@ != x@
                    && facts@[l0].fact_id@ != x@,
        decreases facts.len() - s,
    {
        let mut l: usize = 0;
        while l < facts.len()
            invariant
                0 <= s < facts@.len(),
                0 <= l <= facts@.len(),
                fr == text_views(from@),
                tv == text_views(to@),
                forall|l0: int|
                    0 <= l0 < l && #[trigger] store_load(facts@, s as int, l0, fr, tv) ==> !any && facts@[s as int].fact_id@
                        != x@ && facts@[l0].fact_id@ != x@,
            decreases facts.len() - l,
        {
            if store_load_at(facts, s, l, from, to) {
                if any || facts[s].fact_id == *x || facts[l].fact_id == *x {
                    return true;
                }
            }
            l = l + 1;
        }
        proof {
            assert forall|l0: int| #[trigger] store_load(facts@, s as int, l0, fr, tv) implies !any && facts@[s as int].fact_id@
                != x@ && facts@[l0].fact_id@ != x@ by {
                assert(0 <= l0 < facts@.len());
            }
        }
        s = s + 1;
    }
    proof {
        assert forall|s0: int, l0: int| !#[trigger] store_load(facts@, s0, l0, fr, tv) || (!any && facts@[s0].fact_id@ != x@
            && facts@[l0].fact_id@ != x@) by {
            if store_load(facts@, s0, l0, fr, tv) {
                assert(0 <= s0 < facts@.len());
            }
        }
    }
    false
}


fn release_endpoint_of(f: &V326LifecycleFactRecord, is_proof: bool) -> (r: Option<String>)
    ensures
        is_proof ==> opt_view(r) == proof_release_endpoint(*f),
        !is_proof ==> opt_view(r) == call_release_endpoint(*f),
{
    let want = if is_proof {
        V326LifecycleFactKind::ReleasePathProof
    } else {
        V326LifecycleFactKind::ReleaseCall
    };
    if f.fact_kind != want {
        return None;
    }
    first_object_with_prefix(&f.object_ids, "release_endpoint:")
}

fn share_user_data(a: &V326LifecycleFactRecord, b: &V326LifecycleFactRecord) -> (r: bool)
    ensures
        r == seq_share(ud(*a), ud(*b)),
{
    let ua = fact_user_data_object_ids(a);
    let ub = fact_user_data_object_ids(b);
    shares_text(&ua, &ub)
}

fn has_user_data(f: &V326LifecycleFactRecord) -> (r: bool)
    ensures
        r == (ud(*f).len() > 0),
{
    let u = fact_user_data_object_ids(f);
    assert(text_views(u@).len() == u@.len());
    u.len() > 0
}

/// Whether the release call matches the release-path proof.
pub fn release_path_proof_matches_release_call(p: &V326LifecycleFactRecord, c: &V326LifecycleFactRecord) -> (r: bool)
    ensures
        r == release_call_matches(*p, *c),
{
    if p.fact_kind != V326LifecycleFactKind::ReleasePathProof || c.fact_kind != V326LifecycleFactKind::ReleaseCall
        || !is_authoritative_object_binding_fact(p) || !is_authoritative_object_binding_fact(c) {
        return false;
    }
    let pe = release_endpoint_of(p, true);
    let ce = release_endpoint_of(c, false);
    let same = match (&pe, &ce) {
        (Some(a), Some(b)) => *a == *b,
        _ => false,
    };
    same && has_user_data(p) && share_user_data(p, c)
}

/// Whether the fact supports the release-path proof.
pub fn release_path_proof_support_fact_matches(p: &V326LifecycleFactRecord, f: &V326LifecycleFactRecord) -> (r: bool)
    ensures
        r == supports_proof(*p, *f),
{
    match f.fact_kind {
        V326LifecycleFactKind::RawPointerEscape => share_user_data(p, f),
        V326LifecycleFactKind::ReleaseCall => release_path_proof_matches_release_call(p, f),
        _ => false,
    }
}

fn release_site_of(p: &V326LifecycleFactRecord) -> (r: Option<String>)
    ensures
        opt_view(r) == proof_release_site(*p),
{
    proof {
        reveal_strlit("release_endpoint:");
        lemma_first_with_prefix_has(ids_of(*p), "release_endpoint:"@);
    }
    match release_endpoint_of(p, true) {
        Some(e) => {
            assert("release_endpoint:"@.len() == 17);
            Some(concat2("static_site:", skip_chars(e.as_str(), 17).as_str()))
        },
        None => None,
    }
}

/// `x` is a reference of the release-ordering chain of proof `pi` and register `ri`: the proof,
/// the register, an authoritative fact that supports the proof, or a store and load carrying
/// its user data to its release site.
pub open spec fn proof_chain_ref(facts: Seq<V326LifecycleFactRecord>, pi: int, ri: int, x: Seq<char>) -> bool {
    ||| x == facts[pi].fact_id@
    ||| x == facts[ri].fact_id@
    ||| exists|k: int|
        0 <= k < facts.len() && is_authoritative_binding(facts[k]) && #[trigger] supports_proof(facts[pi], facts[k])
            && facts[k].fact_id@ == x
    ||| proof_release_site(facts[pi]) matches Some(site) && store_load_ref(facts, ud(facts[pi]), seq![site], x)
}

/// A release-path proof and the register call it matches.
pub open spec fn proof_pair(facts: Seq<V326LifecycleFactRecord>, pi: int, ri: int) -> bool {
    0 <= pi < facts.len() && 0 <= ri < facts.len() && proof_matches_register(facts[pi], facts[ri])
}

/// `x` is a reference of some release-ordering chain.
pub open spec fn release_order_ref(facts: Seq<V326LifecycleFactRecord>, x: Seq<char>) -> bool {
    exists|pi: int, ri: int| #[trigger] proof_pair(facts, pi, ri) && proof_chain_ref(facts, pi, ri, x)
}

pub(crate) fn proof_chain_has(facts: &[V326LifecycleFactRecord], pi: usize, ri: usize, x: &String) -> (r: bool)
    requires
        pi < facts@.len(),
        ri < facts@.len(),
    ensures
        r == proof_chain_ref(facts@, pi as int, ri as int, x@),
{
    if facts[pi].fact_id == *x || facts[ri].fact_id == *x {
        return true;
    }
    let mut k: usize = 0;
    while k < facts.len()
        invariant
            0 <= k <= facts@.len(),
            pi < facts@.len(),
            forall|k0: int|
                0 <= k0 < k && is_authoritative_binding(facts@[k0]) && #[trigger] supports_proof(facts@[pi as int], facts@[k0])
                    ==> facts@[k0].fact_id@ != x@,
        decreases facts.len() - k,
    {
        if is_authoritative_object_binding_fact(&facts[k]) && release_path_proof_support_fact_matches(&facts[pi], &facts[k])
            && facts[k].fact_id == *x {
            return true;
        }
        k = k + 1;
    }
    match release_site_of(&facts[pi]) {
        Some(site) => {
            let from = fact_user_data_object_ids(&facts[pi]);
            let mut to: Vec<String> = Vec::new();
            to.push(site);
            assert(text_views(to@) =~= seq![to@[0]@]);
            store_load_search(facts, &from, &to, x, false)
        },
        None => false,
    }
}

fn is_release_order_ref(facts: &[V326LifecycleFactRecord], x: &String) -> (r: bool)
    ensures
        r == release_order_ref(facts@, x@),
{
    let mut pi: usize = 0;
    while pi < facts.len()
        invariant
            0 <= pi <= facts@.len(),
            forall|p0: int, r0: int| 0 <= p0 < pi && #[trigger] proof_pair(facts@, p0, r0) ==> !proof_chain_ref(facts@, p0, r0, x@),
        decreases facts.len() - pi,
    {
        let mut ri: usize = 0;
        while ri < facts.len()
            invariant
                0 <= pi < facts@.len(),
                0 <= ri <= facts@.len(),
                forall|p0: int, r0: int| 0 <= p0 < pi && #[trigger] proof_pair(facts@, p0, r0) ==> !proof_chain_ref(facts@, p0, r0, x@),
                forall|r0: int| 0 <= r0 < ri && #[trigger] proof_pair(facts@, pi as int, r0) ==> !proof_chain_ref(facts@, pi as int, r0, x@),
            decreases facts.len() - ri,
        {
            if release_path_proof_matches_register(&facts[pi], &facts[ri]) && proof_chain_has(facts, pi, ri, x) {
                assert(proof_pair(facts@, pi as int, ri as int));
                return true;
            }
            ri = ri + 1;
        }
        pi = pi + 1;
    }
    false
}

/// The references of the release-ordering chains, in increasing order and each once.
pub fn release_order_chain_refs(facts: &[V326LifecycleFactRecord]) -> (r: Vec<String>)
    ensures
        texts_strictly_sorted(text_views(r@)),
        forall|x: Seq<char>| text_views(r@).contains(x) <==> release_order_ref(facts@, x),
{
    let ghost p = |f: V326LifecycleFactRecord| release_order_ref(facts@, f.fact_id@);
    let all = fact_ids_where(
        facts,
        (|f: &V326LifecycleFactRecord| -> (b: bool)
            ensures
                b == release_order_ref(facts@, f.fact_id@),
            { is_release_order_ref(facts, &f.fact_id) }),
        Ghost(p),
    );
    let r = sorted_unique_texts(all);
    proof {
        assert forall|x: Seq<char>| text_views(r@).contains(x) <==> release_order_ref(facts@, x) by {
            assert(text_views(r@).contains(x) <==> text_views(r@).to_set().contains(x));
            assert(text_views(all@).contains(x) <==> text_views(all@).to_set().contains(x));
            lemma_ids_where_has(facts@, p, x);
            if release_order_ref(facts@, x) {
                let (pi, ri) = choose|pi: int, ri: int| #[trigger] proof_pair(facts@, pi, ri) && proof_chain_ref(facts@, pi, ri, x);
                lemma_chain_ref_is_fact_id(facts@, pi, ri, x);
                let k = choose|k: int| 0 <= k < facts@.len() && facts@[k].fact_id@ == x;
                assert(p(facts@[k]));
            }
        }
    }
    r
}

proof fn lemma_chain_ref_is_fact_id(facts: Seq<V326LifecycleFactRecord>, pi: int, ri: int, x: Seq<char>)
    requires
        proof_pair(facts, pi, ri),
        proof_chain_ref(facts, pi, ri, x),
    ensures
        exists|k: int| 0 <= k < facts.len() && facts[k].fact_id@ == x,
{
    if x == facts[pi].fact_id@ {
    } else if x == facts[ri].fact_id@ {
    } else if exists|k: int|
        0 <= k < facts.len() && is_authoritative_binding(facts[k]) && #[trigger] supports_proof(facts[pi], facts[k])
            && facts[k].fact_id@ == x {
    } else {
        let site = proof_release_site(facts[pi])->0;
        let (s, l) = choose|s: int, l: int| #[trigger] store_load(facts, s, l, ud(facts[pi]), seq![site]) && (facts[s].fact_id@ == x || facts[l].fact_id@ == x);
    }
}

proof fn lemma_ids_where_has(facts: Seq<V326LifecycleFactRecord>, p: spec_fn(V326LifecycleFactRecord) -> bool, x: Seq<char>)
    ensures
        ids_where(facts, p).contains(x) <==> exists|k: int| 0 <= k < facts.len() && p(facts[k]) && #[trigger] facts[k].fact_id@ == x,
    decreases facts.len(),
{
    broadcast use vstd::seq_lib::group_seq_properties;

    if facts.len() > 0 {
        let d = facts.drop_last();
        lemma_ids_where_has(d, p, x);
        if exists|k: int| 0 <= k < d.len() && p(d[k]) && #[trigger] d[k].fact_id@ == x {
            let k = choose|k: int| 0 <= k < d.len() && p(d[k]) && #[trigger] d[k].fact_id@ == x;
            assert(facts[k] == d[k]);
        }
        if exists|k: int| 0 <= k < facts.len() && p(facts[k]) && #[trigger] facts[k].fact_id@ == x {
            let k = choose|k: int| 0 <= k < facts.len() && p(facts[k]) && #[trigger] facts[k].fact_id@ == x;
            if k < d.len() {
                assert(d[k] == facts[k]);
            }
        }
    }
}


/// The static site of a callback user-data reconstruction: its first static site.
pub open spec fn reconstruction_site(f: V326LifecycleFactRecord) -> Option<Seq<char>> {
    if f.fact_kind == V326LifecycleFactKind::CallbackUserDataReconstruction {
        first_with_prefix(ids_of(f), "static_site:"@)
    } else {
        None
    }
}

/// An authoritative order fact says that the proof's release comes before the callback's use
/// of the reconstructed user data: it names the proof's registration site and release
/// endpoint, the reconstruction's site, and the proof's user data.
pub open spec fn order_matches(p: V326LifecycleFactRecord, rc: V326LifecycleFactRecord, o: V326LifecycleFactRecord) -> bool {
    &&& p.fact_kind == V326LifecycleFactKind::ReleasePathProof
    &&& rc.fact_kind == V326LifecycleFactKind::CallbackUserDataReconstruction
    &&& o.fact_kind == V326LifecycleFactKind::CallbackReleaseUseOrder
    &&& is_authoritative_binding(p) && is_authoritative_binding(rc) && is_authoritative_binding(o)
    &&& ids_hold(o.object_ids@, "callback_release_use_order:release_before_callback_use"@)
    &&& proof_registration_site(p) matches Some(a) && ids_hold(o.object_ids@, a)
    &&& proof_release_endpoint(p) matches Some(b) && ids_hold(o.object_ids@, b)
    &&& reconstruction_site(rc) matches Some(c) && ids_hold(o.object_ids@, c)
    &&& ud(p).len() > 0 && seq_share(ud(p), ud(o))
}

/// Whether the order fact puts the proof's release before the callback's use.
pub fn callback_release_use_order_matches(
    p: &V326LifecycleFactRecord,
    rc: &V326LifecycleFactRecord,
    o: &V326LifecycleFactRecord,
) -> (r: bool)
    ensures
        r == order_matches(*p, *rc, *o),
{
    if p.fact_kind != V326LifecycleFactKind::ReleasePathProof || rc.fact_kind
        != V326LifecycleFactKind::CallbackUserDataReconstruction || o.fact_kind
        != V326LifecycleFactKind::CallbackReleaseUseOrder || !is_authoritative_object_binding_fact(p)
        || !is_authoritative_object_binding_fact(rc) || !is_authoritative_object_binding_fact(o) || !object_ids_hold(
        &o.object_ids,
        "callback_release_use_order:release_before_callback_use",
    ) {
        return false;
    }
    let a = match release_path_proof_registration_static_site(p) {
        Some(a) => a,
        None => {
            return false;
        },
    };
    let b = match release_endpoint_of(p, true) {
        Some(b) => b,
        None => {
            return false;
        },
    };
    let c = match first_object_with_prefix(&rc.object_ids, "static_site:") {
        Some(c) => c,
        None => {
            return false;
        },
    };
    has_user_data(p) && object_ids_hold(&o.object_ids, a.as_str()) && object_ids_hold(&o.object_ids, b.as_str())
        && object_ids_hold(&o.object_ids, c.as_str()) && share_user_data(p, o)
}

/// A reconstruction of the callback's user data that the proof's user data reaches, directly or
/// through a store and load, with an order fact that puts the release first.
pub open spec fn use_after_release(facts: Seq<V326LifecycleFactRecord>, pi: int, rc: int) -> bool {
    let p = facts[pi];
    let r = facts[rc];
    &&& 0 <= rc < facts.len()
    &&& r.fact_kind == V326LifecycleFactKind::CallbackUserDataReconstruction && is_authoritative_binding(r)
    &&& ud(r).len() > 0
    &&& seq_share(ud(p), ud(r)) || store_load_exists(facts, ud(p), ud(r))
    &&& exists|o: int| 0 <= o < facts.len() && #[trigger] order_matches(p, r, facts[o])
}

/// The proof is authoritative, has user data, and some callback use follows its release.
pub open spec fn has_callback_use(facts: Seq<V326LifecycleFactRecord>, pi: int) -> bool {
    let p = facts[pi];
    &&& p.fact_kind == V326LifecycleFactKind::ReleasePathProof && ud(p).len() > 0 && is_authoritative_binding(p)
    &&& exists|rc: int| #[trigger] use_after_release(facts, pi, rc)
}

/// `x` is a reference of a callback use after the proof's release: the reconstruction, a store
/// or load that carries the user data to it, or an order fact.
pub open spec fn callback_use_ref(facts: Seq<V326LifecycleFactRecord>, pi: int, x: Seq<char>) -> bool {
    let p = facts[pi];
    &&& p.fact_kind == V326LifecycleFactKind::ReleasePathProof && ud(p).len() > 0 && is_authoritative_binding(p)
    &&& exists|rc: int|
        #[trigger] use_after_release(facts, pi, rc) && (x == facts[rc].fact_id@ || store_load_ref(
            facts,
            ud(p),
            ud(facts[rc]),
            x,
        ) || exists|o: int| 0 <= o < facts.len() && #[trigger] order_matches(p, facts[rc], facts[o]) && facts[o].fact_id@ == x)
}

fn order_search(facts: &[V326LifecycleFactRecord], pi: usize, rc: usize, x: &String, any: bool) -> (r: bool)
    requires
        pi < facts@.len(),
        rc < facts@.len(),
    ensures
        any ==> r == exists|o: int| 0 <= o < facts@.len() && #[trigger] order_matches(facts@[pi as int], facts@[rc as int], facts@[o]),
        !any ==> r == exists|o: int|
            0 <= o < facts@.len() && #[trigger] order_matches(facts@[pi as int], facts@[rc as int], facts@[o]) && facts@[o].fact_id@ == x@,
{
    let mut o: usize = 0;
    while o < facts.len()
        invariant
            0 <= o <= facts@.len(),
            pi < facts@.len(),
            rc < facts@.len(),
            forall|o0: int| 0 <= o0 < o && #[trigger] order_matches(facts@[pi as int], facts@[rc as int], facts@[o0]) ==> !any && facts@[o0].fact_id@ != x@,
        decreases facts.len() - o,
    {
        if callback_release_use_order_matches(&facts[pi], &facts[rc], &facts[o]) && (any || facts[o].fact_id == *x) {
            return true;
        }
        o = o + 1;
    }
    false
}

fn reaches_use(facts: &[V326LifecycleFactRecord], pi: usize, rc: usize) -> (r: bool)
    requires
        pi < facts@.len(),
        rc < facts@.len(),
    ensures
        r == use_after_release(facts@, pi as int, rc as int),
{
    let r = &facts[rc];
    if r.fact_kind != V326LifecycleFactKind::CallbackUserDataReconstruction || !is_authoritative_object_binding_fact(r)
        || !has_user_data(r) {
        return false;
    }
    let pu = fact_user_data_object_ids(&facts[pi]);
    let ru = fact_user_data_object_ids(r);
    let none = String::new();
    (share_user_data(&facts[pi], r) || store_load_search(facts, &pu, &ru, &none, true)) && order_search(facts, pi, rc, &none, true)
}

pub(crate) fn callback_use_has(facts: &[V326LifecycleFactRecord], pi: usize, x: &String, any: bool) -> (r: bool)
    requires
        pi < facts@.len(),
    ensures
        any ==> r == has_callback_use(facts@, pi as int),
        !any ==> r == callback_use_ref(facts@, pi as int, x@),
{
    let p = &facts[pi];
    if p.fact_kind != V326LifecycleFactKind::ReleasePathProof || !has_user_data(p) || !is_authoritative_object_binding_fact(p) {
        return false;
    }
    let pu = fact_user_data_object_ids(p);
    let mut rc: usize = 0;
    while rc < facts.len()
        invariant
            0 <= rc <= facts@.len(),
            pi < facts@.len(),
            text_views(pu@) == ud(facts@[pi as int]),
            forall|r0: int| 0 <= r0 < rc && #[trigger] use_after_release(facts@, pi as int, r0) ==> !any && x@ != facts@[r0].fact_id@
                && !store_load_ref(facts@, ud(facts@[pi as int]), ud(facts@[r0]), x@) && !exists|o: int|
                0 <= o < facts@.len() && #[trigger] order_matches(facts@[pi as int], facts@[r0], facts@[o]) && facts@[o].fact_id@ == x@,
        decreases facts.len() - rc,
    {
        if reaches_use(facts, pi, rc) {
            if any || facts[rc].fact_id == *x {
                return true;
            }
            let ru = fact_user_data_object_ids(&facts[rc]);
            if store_load_search(facts, &pu, &ru, x, false) || order_search(facts, pi, rc, x, false) {
                return true;
            }
        }
        rc = rc + 1;
    }
    proof {
        assert forall|r0: int| #[trigger] use_after_release(facts@, pi as int, r0) implies !any && x@ != facts@[r0].fact_id@
            && !store_load_ref(facts@, ud(facts@[pi as int]), ud(facts@[r0]), x@) && !exists|o: int|
            0 <= o < facts@.len() && #[trigger] order_matches(facts@[pi as int], facts@[r0], facts@[o]) && facts@[o].fact_id@ == x@ by {
            assert(0 <= r0 < facts@.len());
        }
    }
    false
}

/// `x` is a reference of a chain of callback use after release: a release-ordering reference of
/// a proof and register pair whose proof has a callback use, or a reference of that use.
pub open spec fn callback_chain_ref(facts: Seq<V326LifecycleFactRecord>, x: Seq<char>) -> bool {
    exists|pi: int, ri: int|
        #[trigger] proof_pair(facts, pi, ri) && has_callback_use(facts, pi) && (proof_chain_ref(facts, pi, ri, x)
            || callback_use_ref(facts, pi, x))
}

fn is_callback_chain_ref(facts: &[V326LifecycleFactRecord], x: &String) -> (r: bool)
    ensures
        r == callback_chain_ref(facts@, x@),
{
    let none = String::new();
    let mut pi: usize = 0;
    while pi < facts.len()
        invariant
            0 <= pi <= facts@.len(),
            forall|p0: int, r0: int| 0 <= p0 < pi && #[trigger] proof_pair(facts@, p0, r0) && has_callback_use(facts@, p0) ==> !(proof_chain_ref(facts@, p0, r0, x@) || callback_use_ref(facts@, p0, x@)),
        decreases facts.len() - pi,
    {
        let mut ri: usize = 0;
        while ri < facts.len()
            invariant
                0 <= pi < facts@.len(),
                0 <= ri <= facts@.len(),
                forall|p0: int, r0: int| 0 <= p0 < pi && #[trigger] proof_pair(facts@, p0, r0) && has_callback_use(facts@, p0) ==> !(proof_chain_ref(facts@, p0, r0, x@) || callback_use_ref(facts@, p0, x@)),
                forall|r0: int| 0 <= r0 < ri && #[trigger] proof_pair(facts@, pi as int, r0) && has_callback_use(facts@, pi as int) ==> !(proof_chain_ref(facts@, pi as int, r0, x@) || callback_use_ref(facts@, pi as int, x@)),
            decreases facts.len() - ri,
        {
            if release_path_proof_matches_register(&facts[pi], &facts[ri]) && callback_use_has(facts, pi, &none, true) && (proof_chain_has(facts, pi, ri, x) || callback_use_has(facts, pi, x, false)) {
                assert(proof_pair(facts@, pi as int, ri as int));
                return true;
            }
            ri = ri + 1;
        }
        pi = pi + 1;
    }
    false
}

/// The references of the chains of callback use after release, in increasing order and each
/// once.
pub fn callback_release_use_chain_refs(facts: &[V326LifecycleFactRecord]) -> (r: Vec<String>)
    ensures
        texts_strictly_sorted(text_views(r@)),
        forall|x: Seq<char>| text_views(r@).contains(x) <==> callback_chain_ref(facts@, x),
{
    let ghost p = |f: V326LifecycleFactRecord| callback_chain_ref(facts@, f.fact_id@);
    let all = fact_ids_where(
        facts,
        (|f: &V326LifecycleFactRecord| -> (b: bool)
            ensures
                b == callback_chain_ref(facts@, f.fact_id@),
            { is_callback_chain_ref(facts, &f.fact_id) }),
        Ghost(p),
    );
    let r = sorted_unique_texts(all);
    proof {
        assert forall|x: Seq<char>| text_views(r@).contains(x) <==> callback_chain_ref(facts@, x) by {
            assert(text_views(r@).contains(x) <==> text_views(r@).to_set().contains(x));
            assert(text_views(all@).contains(x) <==> text_views(all@).to_set().contains(x));
            lemma_ids_where_has(facts@, p, x);
            if callback_chain_ref(facts@, x) {
                let (pi, ri) = choose|pi: int, ri: int| #[trigger] proof_pair(facts@, pi, ri) && has_callback_use(facts@, pi) && (proof_chain_ref(facts@, pi, ri, x)
                    || callback_use_ref(facts@, pi, x));
                if proof_chain_ref(facts@, pi, ri, x) {
                    lemma_chain_ref_is_fact_id(facts@, pi, ri, x);
                } else {
                    let rc = choose|rc: int| #[trigger] use_after_release(facts@, pi, rc) && (x == facts@[rc].fact_id@ || store_load_ref(
                        facts@, ud(facts@[pi]), ud(facts@[rc]), x) || exists|o: int| 0 <= o < facts@.len() && #[trigger] order_matches(facts@[pi], facts@[rc], facts@[o]) && facts@[o].fact_id@ == x);
                    if store_load_ref(facts@, ud(facts@[pi]), ud(facts@[rc]), x) {
                        let (s, l) = choose|s: int, l: int| #[trigger] store_load(facts@, s, l, ud(facts@[pi]), ud(facts@[rc])) && (facts@[s].fact_id@ == x || facts@[l].fact_id@ == x);
                    }
                }
                let k = choose|k: int| 0 <= k < facts@.len() && facts@[k].fact_id@ == x;
                assert(p(facts@[k]));
            }
        }
    }
    r
}

/// Some proof and register pair has user data that a callback reconstruction reaches, directly
/// or through a store and load.
pub open spec fn same_object_support(facts: Seq<V326LifecycleFactRecord>) -> bool {
    exists|pi: int, ri: int, rc: int|
        #[trigger] proof_pair(facts, pi, ri) && ud(facts[pi]).len() > 0 && 0 <= rc < facts.len() && #[trigger] facts[rc].fact_kind
            == V326LifecycleFactKind::CallbackUserDataReconstruction && is_authoritative_binding(facts[rc]) && ud(facts[rc]).len() > 0
            && (seq_share(ud(facts[pi]), ud(facts[rc])) || store_load_exists(facts, ud(facts[pi]), ud(facts[rc])))
}

/// Whether a callback reconstruction reaches the user data of a proof and register pair.
pub fn callback_release_use_same_object_support_exists(facts: &[V326LifecycleFactRecord]) -> (r: bool)
    ensures
        r == same_object_support(facts@),
{
    let none = String::new();
    let mut pi: usize = 0;
    while pi < facts.len()
        invariant
            0 <= pi <= facts@.len(),
            forall|p0: int, r0: int, c0: int|
                0 <= p0 < pi && #[trigger] proof_pair(facts@, p0, r0) && ud(facts@[p0]).len() > 0 && 0 <= c0 < facts@.len()
                    && #[trigger] facts@[c0].fact_kind == V326LifecycleFactKind::CallbackUserDataReconstruction && is_authoritative_binding(facts@[c0])
                    && ud(facts@[c0]).len() > 0 ==> !(seq_share(ud(facts@[p0]), ud(facts@[c0])) || store_load_exists(facts@, ud(facts@[p0]), ud(facts@[c0]))),
        decreases facts.len() - pi,
    {
        let mut pairs = false;
        let mut ri: usize = 0;
        while ri < facts.len()
            invariant
                0 <= pi < facts@.len(),
                0 <= ri <= facts@.len(),
                pairs == exists|r0: int| 0 <= r0 < ri && #[trigger] proof_pair(facts@, pi as int, r0),
            decreases facts.len() - ri,
        {
            if release_path_proof_matches_register(&facts[pi], &facts[ri]) {
                assert(proof_pair(facts@, pi as int, ri as int));
                pairs = true;
            }
            ri = ri + 1;
        }
        if pairs && has_user_data(&facts[pi]) {
            let pu = fact_user_data_object_ids(&facts[pi]);
            let mut rc: usize = 0;
            while rc < facts.len()
                invariant
                    0 <= pi < facts@.len(),
                    0 <= rc <= facts@.len(),
                    text_views(pu@) == ud(facts@[pi as int]),
                    exists|r0: int| #[trigger] proof_pair(facts@, pi as int, r0),
                    ud(facts@[pi as int]).len() > 0,
                    forall|c0: int|
                        0 <= c0 < rc && #[trigger] facts@[c0].fact_kind == V326LifecycleFactKind::CallbackUserDataReconstruction
                            && is_authoritative_binding(facts@[c0]) && ud(facts@[c0]).len() > 0 ==> !(seq_share(
                            ud(facts@[pi as int]),
                            ud(facts@[c0]),
                        ) || store_load_exists(facts@, ud(facts@[pi as int]), ud(facts@[c0]))),
                decreases facts.len() - rc,
            {
                let r = &facts[rc];
                if r.fact_kind == V326LifecycleFactKind::CallbackUserDataReconstruction && is_authoritative_object_binding_fact(r)
                    && has_user_data(r) {
                    let ru = fact_user_data_object_ids(r);
                    if share_user_data(&facts[pi], r) || store_load_search(facts, &pu, &ru, &none, true) {
                        proof {
                            let ri0 = choose|r0: int| #[trigger] proof_pair(facts@, pi as int, r0);
                            assert(proof_pair(facts@, pi as int, ri0));
                        }
                        return true;
                    }
                }
                rc = rc + 1;
            }
        }
        pi = pi + 1;
    }
    false
}


/// An authoritative fact of the kind.
pub open spec fn auth_kind(f: V326LifecycleFactRecord, k: V326LifecycleFactKind) -> bool {
    f.fact_kind == k && is_authoritative_binding(f)
}

/// `k` is the first authoritative persisted returned borrow that names the returned reference.
pub open spec fn first_persisted(facts: Seq<V326LifecycleFactRecord>, k: int, rr: Seq<char>) -> bool {
    &&& 0 <= k < facts.len()
    &&& auth_kind(facts[k], V326LifecycleFactKind::PersistedReturnedBorrow) && ids_hold(facts[k].object_ids@, rr)
    &&& forall|j: int| 0 <= j < k ==> !(auth_kind(#[trigger] facts[j], V326LifecycleFactKind::PersistedReturnedBorrow) && ids_hold(facts[j].object_ids@, rr))
}

/// The authoritative invalidation order `o` is about the persisted borrow `k`: their first
/// static sites agree.
pub open spec fn order_for(facts: Seq<V326LifecycleFactRecord>, k: int, o: int) -> bool {
    &&& 0 <= o < facts.len()
    &&& auth_kind(facts[o], V326LifecycleFactKind::ReturnedBorrowInvalidationOrder)
    &&& first_with_prefix(ids_of(facts[k]), "static_site:"@) matches Some(s) && first_with_prefix(ids_of(facts[o]), "static_site:"@) == Some(s)
}

/// An authoritative returned borrow `rel`, the first persisted borrow `k` of its returned
/// reference, and an invalidation order about that borrow.
pub open spec fn persisted_link(facts: Seq<V326LifecycleFactRecord>, rel: int, k: int) -> bool {
    &&& 0 <= rel < facts.len()
    &&& auth_kind(facts[rel], V326LifecycleFactKind::ReturnedBorrowRelation)
    &&& first_with_prefix(ids_of(facts[rel]), "returned_ref:"@) matches Some(rr) && first_persisted(facts, k, rr)
    &&& exists|o: int| #[trigger] order_for(facts, k, o)
}

/// `x` is a reference of a chain from a returned borrow through its persistence to an
/// invalidation order.
pub open spec fn persisted_ref(facts: Seq<V326LifecycleFactRecord>, x: Seq<char>) -> bool {
    exists|rel: int, k: int|
        #[trigger] persisted_link(facts, rel, k) && (x == facts[rel].fact_id@ || x == facts[k].fact_id@ || exists|o: int|
            #[trigger] order_for(facts, k, o) && facts[o].fact_id@ == x)
}

fn find_first_persisted(facts: &[V326LifecycleFactRecord], rr: &String) -> (r: Option<usize>)
    ensures
        match r {
            Some(k) => first_persisted(facts@, k as int, rr@),
            None => forall|k: int| !first_persisted(facts@, k, rr@),
        },
{
    let mut j: usize = 0;
    while j < facts.len()
        invariant
            0 <= j <= facts@.len(),
            forall|i: int| 0 <= i < j ==> !(auth_kind(#[trigger] facts@[i], V326LifecycleFactKind::PersistedReturnedBorrow) && ids_hold(facts@[i].object_ids@, rr@)),
        decreases facts.len() - j,
    {
        if facts[j].fact_kind == V326LifecycleFactKind::PersistedReturnedBorrow && is_authoritative_object_binding_fact(&facts[j])
            && object_ids_hold(&facts[j].object_ids, rr.as_str()) {
            return Some(j);
        }
        j = j + 1;
    }
    proof {
        assert forall|k: int| !first_persisted(facts@, k, rr@) by {
            if 0 <= k < facts@.len() && first_persisted(facts@, k, rr@) {
                assert(!(auth_kind(facts@[k], V326LifecycleFactKind::PersistedReturnedBorrow) && ids_hold(facts@[k].object_ids@, rr@)));
            }
        }
    }
    None
}

proof fn lemma_first_persisted_unique(facts: Seq<V326LifecycleFactRecord>, k: int, k2: int, rr: Seq<char>)
    requires
        first_persisted(facts, k, rr),
        first_persisted(facts, k2, rr),
    ensures
        k == k2,
{
    if k < k2 {
        assert(!(auth_kind(facts[k], V326LifecycleFactKind::PersistedReturnedBorrow) && ids_hold(facts[k].object_ids@, rr)));
    } else if k2 < k {
        assert(!(auth_kind(facts[k2], V326LifecycleFactKind::PersistedReturnedBorrow) && ids_hold(facts[k2].object_ids@, rr)));
    }
}

fn order_for_search(facts: &[V326LifecycleFactRecord], k: usize, x: &String, any: bool) -> (r: bool)
    requires
        k < facts@.len(),
    ensures
        any ==> r == exists|o: int| #[trigger] order_for(facts@, k as int, o),
        !any ==> r == exists|o: int| #[trigger] order_for(facts@, k as int, o) && facts@[o].fact_id@ == x@,
{
    let site = match first_object_with_prefix(&facts[k].object_ids, "static_site:") {
        Some(s) => s,
        None => {
            return false;
        },
    };
    let mut o: usize = 0;
    while o < facts.len()
        invariant
            0 <= o <= facts@.len(),
            k < facts@.len(),
            first_with_prefix(ids_of(facts@[k as int]), "static_site:"@) == Some(site@),
            forall|o0: int| 0 <= o0 < o && #[trigger] order_for(facts@, k as int, o0) ==> !any && facts@[o0].fact_id@ != x@,
        decreases facts.len() - o,
    {
        if facts[o].fact_kind == V326LifecycleFactKind::ReturnedBorrowInvalidationOrder && is_authoritative_object_binding_fact(&facts[o]) {
            let so = first_object_with_prefix(&facts[o].object_ids, "static_site:");
            let same = match &so {
                Some(t) => *t == site,
                None => false,
            };
            if same && (any || facts[o].fact_id == *x) {
                assert(order_for(facts@, k as int, o as int));
                return true;
            }
        }
        o = o + 1;
    }
    proof {
        assert forall|o0: int| #[trigger] order_for(facts@, k as int, o0) implies !any && facts@[o0].fact_id@ != x@ by {
            assert(0 <= o0 < facts@.len());
        }
    }
    false
}

fn is_persisted_ref(facts: &[V326LifecycleFactRecord], x: &String) -> (r: bool)
    ensures
        r == persisted_ref(facts@, x@),
{
    let none = String::new();
    let mut rel: usize = 0;
    while rel < facts.len()
        invariant
            0 <= rel <= facts@.len(),
            forall|r0: int, k0: int| 0 <= r0 < rel && #[trigger] persisted_link(facts@, r0, k0) ==> !(x@ == facts@[r0].fact_id@ || x@ == facts@[k0].fact_id@ || exists|o: int|
                #[trigger] order_for(facts@, k0, o) && facts@[o].fact_id@ == x@),
        decreases facts.len() - rel,
    {
        if facts[rel].fact_kind == V326LifecycleFactKind::ReturnedBorrowRelation && is_authoritative_object_binding_fact(&facts[rel]) {
            match first_object_with_prefix(&facts[rel].object_ids, "returned_ref:") {
                Some(rr) => match find_first_persisted(facts, &rr) {
                    Some(k) => {
                        if order_for_search(facts, k, &none, true) {
                            assert(persisted_link(facts@, rel as int, k as int));
                            if facts[rel].fact_id == *x || facts[k].fact_id == *x || order_for_search(facts, k, x, false) {
                                return true;
                            }
                        }
                        proof {
                            assert forall|k0: int| #[trigger] persisted_link(facts@, rel as int, k0) implies !(x@ == facts@[rel as int].fact_id@ || x@ == facts@[k0].fact_id@ || exists|o: int|
                                #[trigger] order_for(facts@, k0, o) && facts@[o].fact_id@ == x@) by {
                                lemma_first_persisted_unique(facts@, k as int, k0, rr@);
                            }
                        }
                    },
                    None => {},
                },
                None => {},
            }
        }
        rel = rel + 1;
    }
    false
}

/// The references of the chains from a returned borrow through its persistence to an
/// invalidation order, in increasing order and each once.
pub fn persisted_invalidation_use_chain_refs(facts: &[V326LifecycleFactRecord]) -> (r: Vec<String>)
    ensures
        texts_strictly_sorted(text_views(r@)),
        forall|x: Seq<char>| text_views(r@).contains(x) <==> persisted_ref(facts@, x),
{
    let ghost p = |f: V326LifecycleFactRecord| persisted_ref(facts@, f.fact_id@);
    let all = fact_ids_where(
        facts,
        (|f: &V326LifecycleFactRecord| -> (b: bool)
            ensures
                b == persisted_ref(facts@, f.fact_id@),
            { is_persisted_ref(facts, &f.fact_id) }),
        Ghost(p),
    );
    let r = sorted_unique_texts(all);
    proof {
        assert forall|x: Seq<char>| text_views(r@).contains(x) <==> persisted_ref(facts@, x) by {
            assert(text_views(r@).contains(x) <==> text_views(r@).to_set().contains(x));
            assert(text_views(all@).contains(x) <==> text_views(all@).to_set().contains(x));
            lemma_ids_where_has(facts@, p, x);
            if persisted_ref(facts@, x) {
                let (rel, k) = choose|rel: int, k: int| #[trigger] persisted_link(facts@, rel, k) && (x == facts@[rel].fact_id@ || x == facts@[k].fact_id@ || exists|o: int|
                    #[trigger] order_for(facts@, k, o) && facts@[o].fact_id@ == x);
                let kk = choose|kk: int| 0 <= kk < facts@.len() && facts@[kk].fact_id@ == x;
                assert(p(facts@[kk]));
            }
        }
    }
    r
}


/// An object id that names no lifecycle object: a static site or an auxiliary id of a flow,
/// gap, adapter, order or atomic access.
pub open spec fn is_auxiliary_id(e: Seq<char>) -> bool {
    has_prefix(e, "static_site:"@) || has_prefix(e, "object_flow:"@) || has_prefix(e, "object_flow_binding:"@) || has_prefix(
        e,
        "object_flow_binding_member:"@,
    ) || has_prefix(e, "object_flow_binding_prefix:"@) || has_prefix(e, "object_flow_binding_kind:"@) || has_prefix(
        e,
        "callback_release_use_order:"@,
    ) || has_prefix(e, "object_binding_gap:"@) || has_prefix(e, "adapter:"@) || has_prefix(e, "returned_borrow_order:"@)
        || has_prefix(e, "atomic_operation:"@) || has_prefix(e, "atomic_ordering:"@)
}

pub(crate) fn auxiliary_id_of(e: &str) -> (r: bool)
    ensures
        r == is_auxiliary_id(e@),
{
    starts_with(e, "static_site:") || starts_with(e, "object_flow:") || starts_with(e, "object_flow_binding:") || starts_with(
        e,
        "object_flow_binding_member:",
    ) || starts_with(e, "object_flow_binding_prefix:") || starts_with(e, "object_flow_binding_kind:") || starts_with(
        e,
        "callback_release_use_order:",
    ) || starts_with(e, "object_binding_gap:") || starts_with(e, "adapter:") || starts_with(e, "returned_borrow_order:")
        || starts_with(e, "atomic_operation:") || starts_with(e, "atomic_ordering:")
}

/// The kinds of facts that support a verified object chain when they touch it.
pub open spec fn is_support_kind(k: V326LifecycleFactKind) -> bool {
    k == V326LifecycleFactKind::RegisterCall || k == V326LifecycleFactKind::UnregisterCall || k
        == V326LifecycleFactKind::ReleaseCall || k == V326LifecycleFactKind::ReleasePathProof || k
        == V326LifecycleFactKind::RawPointerEscape || k == V326LifecycleFactKind::ReturnedBorrowRelation || k
        == V326LifecycleFactKind::PersistedReturnedBorrow || k == V326LifecycleFactKind::ReturnedBorrowInvalidationOrder
        || k == V326LifecycleFactKind::ExternalBufferBinding || k == V326LifecycleFactKind::CallbackUserDataReconstruction
        || k == V326LifecycleFactKind::CallbackReleaseUseOrder
}

/// An authoritative fact of a supporting kind that names an endpoint of a complete object flow.
pub open spec fn supports_chain(facts: Seq<V326LifecycleFactRecord>, f: V326LifecycleFactRecord) -> bool {
    &&& is_authoritative_binding(f) && is_support_kind(f.fact_kind)
    &&& exists|e: Seq<char>| ids_of(f).contains(e) && !is_auxiliary_id(e) && #[trigger] complete_flow_end(facts, e)
}

fn is_support_kind_exec(k: V326LifecycleFactKind) -> (r: bool)
    ensures
        r == is_support_kind(k),
{
    match k {
        V326LifecycleFactKind::RegisterCall | V326LifecycleFactKind::UnregisterCall | V326LifecycleFactKind::ReleaseCall
        | V326LifecycleFactKind::ReleasePathProof | V326LifecycleFactKind::RawPointerEscape
        | V326LifecycleFactKind::ReturnedBorrowRelation | V326LifecycleFactKind::PersistedReturnedBorrow
        | V326LifecycleFactKind::ReturnedBorrowInvalidationOrder | V326LifecycleFactKind::ExternalBufferBinding
        | V326LifecycleFactKind::CallbackUserDataReconstruction | V326LifecycleFactKind::CallbackReleaseUseOrder => true,
        _ => false,
    }
}

fn chain_support(facts: &[V326LifecycleFactRecord], f: &V326LifecycleFactRecord) -> (r: bool)
    ensures
        r == supports_chain(facts@, *f),
{
    if !is_authoritative_object_binding_fact(f) || !is_support_kind_exec(f.fact_kind) {
        return false;
    }
    let mut i: usize = 0;
    while i < f.object_ids.len()
        invariant
            0 <= i <= f.object_ids@.len(),
            is_authoritative_binding(*f) && is_support_kind(f.fact_kind),
            forall|k: int| 0 <= k < i && !is_auxiliary_id(#[trigger] ids_of(*f)[k]) ==> !complete_flow_end(facts@, ids_of(*f)[k]),
        decreases f.object_ids.len() - i,
    {
        if !auxiliary_id_of(f.object_ids[i].as_str()) && is_complete_flow_end(facts, &f.object_ids[i]) {
            assert(ids_of(*f).contains(ids_of(*f)[i as int]));
            return true;
        }
        i = i + 1;
    }
    proof {
        assert forall|e: Seq<char>| ids_of(*f).contains(e) && !is_auxiliary_id(e) implies !#[trigger] complete_flow_end(facts@, e) by {
            let k = choose|k: int| 0 <= k < ids_of(*f).len() && ids_of(*f)[k] == e;
        }
    }
    false
}

/// The ids of the authoritative supporting facts that name an endpoint of a complete object
/// flow, in increasing order and each once.
pub fn verified_object_chain_support_refs(facts: &[V326LifecycleFactRecord]) -> (r: Vec<String>)
    ensures
        texts_strictly_sorted(text_views(r@)),
        text_views(r@).to_set() == ids_where(facts@, |f: V326LifecycleFactRecord| supports_chain(facts@, f)).to_set(),
{
    let ghost p = |f: V326LifecycleFactRecord| supports_chain(facts@, f);
    let all = fact_ids_where(
        facts,
        (|f: &V326LifecycleFactRecord| -> (b: bool)
            ensures
                b == supports_chain(facts@, *f),
            { chain_support(facts, f) }),
        Ghost(p),
    );
    sorted_unique_texts(all)
}

/// `x` is a reference of a verified object chain: of a complete object flow or a fact that
/// supports it (when some object flow is complete), or of a release-ordering chain, a chain of
/// callback use after release, or a chain of a persisted returned borrow.
pub open spec fn verified_chain_ref(facts: Seq<V326LifecycleFactRecord>, x: Seq<char>) -> bool {
    ||| before_ref(facts, x)
    ||| release_order_ref(facts, x)
    ||| callback_chain_ref(facts, x)
    ||| persisted_ref(facts, x)
}

pub proof fn lemma_concat_contains(a: Seq<Seq<char>>, b: Seq<Seq<char>>, x: Seq<char>)
    ensures
        (a + b).contains(x) <==> a.contains(x) || b.contains(x),
{
    if (a + b).contains(x) {
        let k = choose|k: int| 0 <= k < (a + b).len() && (a + b)[k] == x;
        if k < a.len() {
            assert(a[k] == x);
        } else {
            assert(b[k - a.len()] == x);
        }
    }
    if a.contains(x) {
        let k = choose|k: int| 0 <= k < a.len() && a[k] == x;
        assert((a + b)[k] == x);
    }
    if b.contains(x) {
        let k = choose|k: int| 0 <= k < b.len() && b[k] == x;
        assert((a + b)[k + a.len()] == x);
    }
}

/// The references of complete object flows and their supporting facts, when some object flow
/// is complete.
pub open spec fn before_ref(facts: Seq<V326LifecycleFactRecord>, x: Seq<char>) -> bool {
    (exists|y: Seq<char>| #[trigger] complete_flow_ref(facts, y)) && (complete_flow_ref(facts, x) || (exists|k: int|
        0 <= k < facts.len() && #[trigger] supports_chain(facts, facts[k]) && facts[k].fact_id@ == x))
}

fn append_texts(acc: &mut Vec<String>, more: &Vec<String>)
    ensures
        text_views(final(acc)@) == text_views(old(acc)@) + text_views(more@),
{
    let ghost a0 = text_views(acc@);
    let mut i: usize = 0;
    while i < more.len()
        invariant
            0 <= i <= more@.len(),
            text_views(acc@) == a0 + text_views(more@).take(i as int),
        decreases more.len() - i,
    {
        let ghost b = text_views(acc@);
        acc.push(more[i].clone());
        assert(text_views(acc@) =~= b.push(more@[i as int]@));
        assert(text_views(more@).take(i + 1) =~= text_views(more@).take(i as int).push(more@[i as int]@));
        i = i + 1;
    }
    assert(text_views(more@).take(more@.len() as int) =~= text_views(more@));
}

/// The references of the verified object chains, in increasing order and each once.
pub fn verified_object_chain_refs(facts: &[V326LifecycleFactRecord]) -> (r: Vec<String>)
    ensures
        texts_strictly_sorted(text_views(r@)),
        forall|x: Seq<char>| text_views(r@).contains(x) <==> verified_chain_ref(facts@, x),
{
    broadcast use vstd::seq_lib::group_seq_properties;

    let complete = crate::v326_flow_components::authoritative_complete_object_flow_refs(facts);
    let mut refs: Vec<String> = Vec::new();
    let any = complete.len() > 0;
    proof {
        if any {
            assert(text_views(complete@).contains(text_views(complete@)[0]));
        }
        if exists|y: Seq<char>| #[trigger] complete_flow_ref(facts@, y) {
            let y = choose|y: Seq<char>| #[trigger] complete_flow_ref(facts@, y);
            assert(text_views(complete@).contains(y));
        }
    }
    let ghost p = |f: V326LifecycleFactRecord| supports_chain(facts@, f);
    let ghost cs = text_views(complete@);
    proof {
        if !any {
            assert forall|x: Seq<char>| text_views(refs@).contains(x) <==> before_ref(facts@, x) by {
                assert(text_views(refs@).len() == 0);
            }
        }
    }
    if any {
        append_texts(&mut refs, &complete);
        let support = verified_object_chain_support_refs(facts);
        append_texts(&mut refs, &support);
        proof {
            assert(text_views(refs@) == Seq::<Seq<char>>::empty() + cs + text_views(support@));
            assert forall|x: Seq<char>| text_views(refs@).contains(x) <==> (cs.contains(x) || text_views(support@).contains(x)) by {
                lemma_concat_contains(Seq::<Seq<char>>::empty() + cs, text_views(support@), x);
                lemma_concat_contains(Seq::<Seq<char>>::empty(), cs, x);
            }
            assert forall|x: Seq<char>| text_views(support@).contains(x) <==> (exists|k: int|
                0 <= k < facts@.len() && #[trigger] supports_chain(facts@, facts@[k]) && facts@[k].fact_id@ == x) by {
                assert(text_views(support@).contains(x) <==> text_views(support@).to_set().contains(x));
                assert(ids_where(facts@, p).contains(x) <==> ids_where(facts@, p).to_set().contains(x));
                lemma_ids_where_has(facts@, p, x);
            }
            assert(cs.contains(cs[0]));
            assert(complete_flow_ref(facts@, cs[0]));
            assert forall|x: Seq<char>| text_views(refs@).contains(x) <==> before_ref(facts@, x) by {
                assert(complete_flow_ref(facts@, cs[0]));
                assert(text_views(refs@).contains(x) <==> (cs.contains(x) || text_views(support@).contains(x)));
                assert(cs.contains(x) <==> complete_flow_ref(facts@, x));
                assert(text_views(support@).contains(x) <==> (exists|k: int|
                    0 <= k < facts@.len() && #[trigger] supports_chain(facts@, facts@[k]) && facts@[k].fact_id@ == x));
            }
        }
    }
    let ghost before = text_views(refs@);
    assert(forall|x: Seq<char>| before.contains(x) <==> before_ref(facts@, x));
    let release = release_order_chain_refs(facts);
    append_texts(&mut refs, &release);
    let callback = callback_release_use_chain_refs(facts);
    append_texts(&mut refs, &callback);
    let persisted = persisted_invalidation_use_chain_refs(facts);
    append_texts(&mut refs, &persisted);
    let r = sorted_unique_texts(refs);
    proof {
        assert forall|x: Seq<char>| text_views(r@).contains(x) <==> verified_chain_ref(facts@, x) by {
            assert(text_views(r@).contains(x) <==> text_views(r@).to_set().contains(x));
            assert(text_views(refs@).contains(x) <==> text_views(refs@).to_set().contains(x));
            let a1 = before + text_views(release@);
            let a2 = a1 + text_views(callback@);
            lemma_concat_contains(a2, text_views(persisted@), x);
            lemma_concat_contains(a1, text_views(callback@), x);
            lemma_concat_contains(before, text_views(release@), x);
        }
    }
    r
}

} // verus!
