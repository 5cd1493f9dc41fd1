//! The object chains of a lifecycle graph (v3): callback release chains, returned-borrow view
//! chains, external buffer bindings, object-flow components and, failing all, one
//! observation-only chain over the edges; in order of chain id.

use vstd::prelude::*;

use crate::lifecycle_v326::{
    V326LifecycleFactKind, V326LifecycleFactRecord, V326LifecycleGraphV3Edge, V326ObjectChain, V326ObjectChainLayer,
    V326ObjectChainStatus,
};
use crate::text::{
    clone_texts, concat2, lemma_text_lt_asymmetric, owned, text_le, text_less, text_lt, text_views,
};
use crate::v326_chain_layers::{missing_layers, object_chain_record, verified_layers};
use crate::v326_chain_sets::{
    edge_ids_for_fact_refs, endpoint_seq, evidence_refs_for_fact_refs, fact_endpoints, object_ids_for_fact_refs,
    ordered_set, referred_edges, referred_endpoints, referred_evidence, sorted_of,
};
use crate::v326_fact_edges::{edge3_view, edge3_views, first_object_with_prefix, first_with_prefix, EdgeView};
use crate::v326_fact_refs::{ids_hold, ids_where, object_ids_hold};
use crate::v326_chain_refs::{callback_use_ref, proof_chain_ref, proof_pair};
use crate::v326_object_flow::ids_of;
use crate::v326_release_pairs::{is_authoritative_binding, is_authoritative_object_binding_fact, release_path_proof_matches_register};
use crate::v326_scoring::{sanitize_id_for_path, sanitized};

verus! {

/// A chain whose layers are those its status, object count and fact references verify and
/// miss among the facts.
pub open spec fn chain_layers_hold(c: V326ObjectChain, facts: Seq<V326LifecycleFactRecord>) -> bool {
    &&& c.verified_layers@ == verified_layers(c.chain_status, c.object_ids@.len() as int, text_views(c.fact_refs@), facts)
    &&& c.missing_layers@ == missing_layers(c.chain_status, c.verified_layers@, text_views(c.fact_refs@), facts)
}

/// Every chain has the layers its facts give it.
pub open spec fn chains_layers_hold(chains: Seq<V326ObjectChain>, facts: Seq<V326LifecycleFactRecord>) -> bool {
    forall|k: int| 0 <= k < chains.len() ==> chain_layers_hold(#[trigger] chains[k], facts)
}

/// The view of an object chain: id, objects, edges, fact references, evidence, verified and
/// missing layers, and status.
pub type ChainView = (
    Seq<char>,
    Seq<Seq<char>>,
    Seq<Seq<char>>,
    Seq<Seq<char>>,
    Seq<Seq<char>>,
    Seq<V326ObjectChainLayer>,
    Seq<V326ObjectChainLayer>,
    V326ObjectChainStatus,
);

pub open spec fn chain_view(c: V326ObjectChain) -> ChainView {
    (
        c.chain_id@,
        text_views(c.object_ids@),
        text_views(c.edge_ids@),
        text_views(c.fact_refs@),
        text_views(c.evidence_refs@),
        c.verified_layers@,
        c.missing_layers@,
        c.chain_status,
    )
}

pub open spec fn chain_views(cs: Seq<V326ObjectChain>) -> Seq<ChainView> {
    cs.map_values(|c: V326ObjectChain| chain_view(c))
}

/// The chain with these parts, and the layers its status, object count and fact references
/// verify and miss among the facts.
pub open spec fn chain_of(
    id: Seq<char>,
    objs: Seq<Seq<char>>,
    edges: Seq<Seq<char>>,
    refs: Seq<Seq<char>>,
    ev: Seq<Seq<char>>,
    status: V326ObjectChainStatus,
    facts: Seq<V326LifecycleFactRecord>,
) -> ChainView {
    let v = verified_layers(status, objs.len() as int, refs, facts);
    (id, objs, edges, refs, ev, v, missing_layers(status, v, refs, facts), status)
}

/// The chain of fact references: the objects the referred facts name, the edges that refer to
/// them and their evidence, each as an ordered set.
pub open spec fn ref_chain(
    edges: Seq<EdgeView>,
    facts: Seq<V326LifecycleFactRecord>,
    id: Seq<char>,
    refs: Seq<Seq<char>>,
    status: V326ObjectChainStatus,
) -> ChainView {
    chain_of(
        id,
        sorted_of(referred_endpoints(facts, refs).to_set()),
        sorted_of(referred_edges(edges, refs).to_set()),
        refs,
        sorted_of(referred_evidence(facts, refs).to_set()),
        status,
        facts,
    )
}

/// A chain id: `chain:`, the sanitized anchor, `:` and the suffix.
pub open spec fn chain_id_of(anchor: Seq<char>, suffix: Seq<char>) -> Seq<char> {
    "chain:"@ + sanitized(anchor) + ":"@ + suffix
}

fn push_chain(
    chains: &mut Vec<V326ObjectChain>,
    chain_id: String,
    object_ids: Vec<String>,
    edge_ids: Vec<String>,
    fact_refs: Vec<String>,
    evidence_refs: Vec<String>,
    status: V326ObjectChainStatus,
    facts: &[V326LifecycleFactRecord],
)
    requires
        chains_layers_hold(old(chains)@, facts@),
    ensures
        chains_layers_hold(final(chains)@, facts@),
        chain_views(final(chains)@) == chain_views(old(chains)@).push(
            chain_of(
                chain_id@,
                text_views(object_ids@),
                text_views(edge_ids@),
                text_views(fact_refs@),
                text_views(evidence_refs@),
                status,
                facts@,
            ),
        ),
{
    let ghost cv = chain_of(
        chain_id@,
        text_views(object_ids@),
        text_views(edge_ids@),
        text_views(fact_refs@),
        text_views(evidence_refs@),
        status,
        facts@,
    );
    let c = object_chain_record(chain_id, object_ids, edge_ids, fact_refs, evidence_refs, status, facts);
    let ghost before = chain_views(chains@);
    let ghost prev = chains@;
    chains.push(c);
    assert(chain_view(c) == cv);
    assert(chain_views(chains@) =~= before.push(cv));
    assert forall|k: int| 0 <= k < chains@.len() implies chain_layers_hold(#[trigger] chains@[k], facts@) by {
        if k < prev.len() {
            assert(chains@[k] == prev[k]);
        }
    }
}

/// The chain for references that lie among the facts: its objects, edges and evidence are
/// those the references reach.
fn push_ref_chain(
    chains: &mut Vec<V326ObjectChain>,
    chain_id: String,
    refs: Vec<String>,
    status: V326ObjectChainStatus,
    edges: &Vec<V326LifecycleGraphV3Edge>,
    facts: &[V326LifecycleFactRecord],
)
    requires
        chains_layers_hold(old(chains)@, facts@),
    ensures
        chains_layers_hold(final(chains)@, facts@),
        chain_views(final(chains)@) == chain_views(old(chains)@).push(
            ref_chain(edge3_views(edges@), facts@, chain_id@, text_views(refs@), status),
        ),
{
    let objs = object_ids_for_fact_refs(facts, &refs);
    let edge_ids = edge_ids_for_fact_refs(edges, &refs);
    let ev = evidence_refs_for_fact_refs(facts, &refs);
    push_chain(chains, chain_id, objs, edge_ids, refs, ev, status, facts);
}

fn chain_id2(a: &str, suffix: &str) -> (r: String)
    ensures
        r@ == chain_id_of(a@, suffix@),
{
    proof {
        reveal_strlit("chain:");
        reveal_strlit(":");
    }
    concat2(concat2(concat2("chain:", sanitize_id_for_path(a).as_str()).as_str(), ":").as_str(), suffix)
}

/// An authoritative fact of the kind.
pub open spec fn auth_of(f: V326LifecycleFactRecord, k: V326LifecycleFactKind) -> bool {
    f.fact_kind == k && is_authoritative_binding(f)
}

/// The chain of an external buffer binding that names at least two objects.
pub open spec fn external_chain(edges: Seq<EdgeView>, facts: Seq<V326LifecycleFactRecord>, f: V326LifecycleFactRecord) -> Seq<ChainView> {
    let objs = sorted_of(endpoint_seq(f).to_set());
    if auth_of(f, V326LifecycleFactKind::ExternalBufferBinding) && objs.len() >= 2 {
        seq![
            chain_of(
                chain_id_of(f.fact_id@, "external_buffer_binding"@),
                objs,
                sorted_of(referred_edges(edges, seq![f.fact_id@]).to_set()),
                seq![f.fact_id@],
                text_views(f.evidence_refs@),
                V326ObjectChainStatus::PartialChain,
                facts,
            ),
        ]
    } else {
        Seq::empty()
    }
}

/// The partial chains of the authoritative external buffer bindings that name at least two
/// objects, in order of the facts.
pub open spec fn external_chains(edges: Seq<EdgeView>, facts: Seq<V326LifecycleFactRecord>, n: int) -> Seq<ChainView>
    decreases n,
{
    if n <= 0 {
        Seq::empty()
    } else {
        external_chains(edges, facts, n - 1) + external_chain(edges, facts, facts[n - 1])
    }
}

fn append_external_buffer_object_chains(
    chains: &mut Vec<V326ObjectChain>,
    edges: &Vec<V326LifecycleGraphV3Edge>,
    facts: &[V326LifecycleFactRecord],
)
    requires
        chains_layers_hold(old(chains)@, facts@),
    ensures
        chains_layers_hold(final(chains)@, facts@),
        chain_views(final(chains)@) == chain_views(old(chains)@) + external_chains(
            edge3_views(edges@),
            facts@,
            facts@.len() as int,
        ),
{
    let ghost start = chain_views(chains@);
    let ghost ev = edge3_views(edges@);
    let mut i: usize = 0;
    assert(start + Seq::<ChainView>::empty() =~= start);
    while i < facts.len()
        invariant
            0 <= i <= facts@.len(),
            ev == edge3_views(edges@),
            chains_layers_hold(chains@, facts@),
            chain_views(chains@) == start + external_chains(ev, facts@, i as int),
        decreases facts.len() - i,
    {
        let f = &facts[i];
        let ghost before = chain_views(chains@);
        if f.fact_kind == V326LifecycleFactKind::ExternalBufferBinding && is_authoritative_object_binding_fact(f) {
            let objs = fact_endpoints(f);
            if objs.len() >= 2 {
                let mut refs: Vec<String> = Vec::new();
                refs.push(f.fact_id.clone());
                assert(text_views(refs@) =~= seq![f.fact_id@]);
                let edge_ids = edge_ids_for_fact_refs(edges, &refs);
                push_chain(
                    chains,
                    chain_id2(f.fact_id.as_str(), "external_buffer_binding"),
                    objs,
                    edge_ids,
                    refs,
                    clone_texts(&f.evidence_refs),
                    V326ObjectChainStatus::PartialChain,
                    facts,
                );
                assert(chain_views(chains@) =~= start + external_chains(ev, facts@, i + 1));
            } else {
                assert(chain_views(chains@) =~= start + external_chains(ev, facts@, i + 1));
            }
        } else {
            assert(chain_views(chains@) =~= start + external_chains(ev, facts@, i + 1));
        }
        i = i + 1;
    }
}

/// `x` is a reference of the release chain of proof `pi`: a reference of its release-ordering
/// chain with some matching registration, or of a callback use after its release.
pub open spec fn release_chain_ref(facts: Seq<V326LifecycleFactRecord>, pi: int, x: Seq<char>) -> bool {
    (exists|ri: int| #[trigger] proof_pair(facts, pi, ri) && proof_chain_ref(facts, pi, ri, x)) || callback_use_ref(
        facts,
        pi,
        x,
    )
}

/// Some registration matches the proof `pi`.
pub open spec fn has_register(facts: Seq<V326LifecycleFactRecord>, pi: int) -> bool {
    exists|ri: int| #[trigger] proof_pair(facts, pi, ri)
}

/// The chain of an authoritative release-path proof that matches a registration: the fact ids
/// that are references of its release chain, as an ordered set.
pub open spec fn release_chain(edges: Seq<EdgeView>, facts: Seq<V326LifecycleFactRecord>, pi: int) -> Seq<ChainView> {
    if auth_of(facts[pi], V326LifecycleFactKind::ReleasePathProof) && has_register(facts, pi) {
        seq![
            ref_chain(
                edges,
                facts,
                chain_id_of(facts[pi].fact_id@, "release"@),
                sorted_of(ids_where(facts, |f: V326LifecycleFactRecord| release_chain_ref(facts, pi, f.fact_id@)).to_set()),
                V326ObjectChainStatus::VerifiedStaticChain,
            ),
        ]
    } else {
        Seq::empty()
    }
}

/// The release chains of the proofs before `n`, in order.
pub open spec fn release_chains(edges: Seq<EdgeView>, facts: Seq<V326LifecycleFactRecord>, n: int) -> Seq<ChainView>
    decreases n,
{
    if n <= 0 {
        Seq::empty()
    } else {
        release_chains(edges, facts, n - 1) + release_chain(edges, facts, n - 1)
    }
}

fn release_chain_has(facts: &[V326LifecycleFactRecord], pi: usize, x: &String) -> (r: bool)
    requires
        pi < facts@.len(),
    ensures
        r == release_chain_ref(facts@, pi as int, x@),
{
    let mut ri: usize = 0;
    while ri < facts.len()
        invariant
            pi < facts@.len(),
            0 <= ri <= facts@.len(),
            forall|r0: int| 0 <= r0 < ri ==> !(#[trigger] proof_pair(facts@, pi as int, r0) && proof_chain_ref(facts@, pi as int, r0, x@)),
        decreases facts.len() - ri,
    {
        if release_path_proof_matches_register(&facts[pi], &facts[ri])
            && crate::v326_chain_refs::proof_chain_has(facts, pi, ri, x) {
            assert(proof_pair(facts@, pi as int, ri as int));
            return true;
        }
        ri = ri + 1;
    }
    crate::v326_chain_refs::callback_use_has(facts, pi, x, false)
}

fn release_chain_ids(facts: &[V326LifecycleFactRecord], pi: usize) -> (r: Vec<String>)
    requires
        pi < facts@.len(),
    ensures
        text_views(r@) == ids_where(facts@, |f: V326LifecycleFactRecord| release_chain_ref(facts@, pi as int, f.fact_id@)),
{
    let ghost p = |f: V326LifecycleFactRecord| release_chain_ref(facts@, pi as int, f.fact_id@);
    let mut r: Vec<String> = Vec::new();
    let mut k: usize = 0;
    assert(facts@.take(0) =~= Seq::<V326LifecycleFactRecord>::empty());
    while k < facts.len()
        invariant
            0 <= k <= facts@.len(),
            pi < facts@.len(),
            p == (|f: V326LifecycleFactRecord| release_chain_ref(facts@, pi as int, f.fact_id@)),
            text_views(r@) == ids_where(facts@.take(k as int), p),
        decreases facts.len() - k,
    {
        assert(facts@.take(k + 1).drop_last() =~= facts@.take(k as int));
        assert(facts@.take(k + 1).last() == facts@[k as int]);
        let hit = release_chain_has(facts, pi, &facts[k].fact_id);
        assert(p(facts@[k as int]) == hit);
        if hit {
            let ghost before = text_views(r@);
            r.push(facts[k].fact_id.clone());
            assert(text_views(r@) =~= before.push(facts@[k as int].fact_id@));
            assert(ids_where(facts@.take(k + 1), p) == ids_where(facts@.take(k as int), p).push(facts@[k as int].fact_id@));
        } else {
            assert(ids_where(facts@.take(k + 1), p) == ids_where(facts@.take(k as int), p));
        }
        k = k + 1;
    }
    assert(facts@.take(facts@.len() as int) =~= facts@);
    r
}

/// A chain for every authoritative release-path proof that matches a registration: the
/// matching registrations, the facts that support the proof, the stores and loads that carry
/// its user data to its release, the callback uses after the release and the proof itself.
fn append_callback_release_object_chains(
    chains: &mut Vec<V326ObjectChain>,
    edges: &Vec<V326LifecycleGraphV3Edge>,
    facts: &[V326LifecycleFactRecord],
)
    requires
        chains_layers_hold(old(chains)@, facts@),
    ensures
        chains_layers_hold(final(chains)@, facts@),
        chain_views(final(chains)@) == chain_views(old(chains)@) + release_chains(
            edge3_views(edges@),
            facts@,
            facts@.len() as int,
        ),
{
    let ghost start = chain_views(chains@);
    let ghost ev = edge3_views(edges@);
    assert(start + Seq::<ChainView>::empty() =~= start);
    let mut pi: usize = 0;
    while pi < facts.len()
        invariant
            0 <= pi <= facts@.len(),
            ev == edge3_views(edges@),
            chains_layers_hold(chains@, facts@),
            chain_views(chains@) == start + release_chains(ev, facts@, pi as int),
        decreases facts.len() - pi,
    {
        if facts[pi].fact_kind == V326LifecycleFactKind::ReleasePathProof && is_authoritative_object_binding_fact(&facts[pi]) {
            let mut any = false;
            let mut ri: usize = 0;
            while ri < facts.len()
                invariant
                    pi < facts@.len(),
                    0 <= ri <= facts@.len(),
                    any == exists|r0: int| 0 <= r0 < ri && #[trigger] proof_pair(facts@, pi as int, r0),
                decreases facts.len() - ri,
            {
                if release_path_proof_matches_register(&facts[pi], &facts[ri]) {
                    assert(proof_pair(facts@, pi as int, ri as int));
                    any = true;
                }
                ri = ri + 1;
            }
            if any {
                let all = release_chain_ids(facts, pi);
                let refs = ordered_set(all);
                push_ref_chain(
                    chains,
                    chain_id2(facts[pi].fact_id.as_str(), "release"),
                    refs,
                    V326ObjectChainStatus::VerifiedStaticChain,
                    edges,
                    facts,
                );
                assert(chain_views(chains@) =~= start + release_chains(ev, facts@, pi + 1));
            } else {
                assert(chain_views(chains@) =~= start + release_chains(ev, facts@, pi + 1));
            }
        } else {
            assert(chain_views(chains@) =~= start + release_chains(ev, facts@, pi + 1));
        }
        pi = pi + 1;
    }
}

/// Some authoritative persisted returned borrow has the id.
pub open spec fn persisted_id(facts: Seq<V326LifecycleFactRecord>, id: Seq<char>) -> bool {
    exists|j: int|
        0 <= j < facts.len() && auth_of(facts[j], V326LifecycleFactKind::PersistedReturnedBorrow) && #[trigger] facts[j].fact_id@
            == id
}

/// Fact `m` carries the id of a persisted returned borrow and names the returned reference of
/// the returned borrow `rel`.
pub open spec fn matches_relation(facts: Seq<V326LifecycleFactRecord>, rel: int, m: int) -> bool {
    first_with_prefix(ids_of(facts[rel]), "returned_ref:"@) matches Some(rr) && persisted_id(facts, facts[m].fact_id@)
        && ids_hold(facts[m].object_ids@, rr)
}

/// The facts before `n` that match the returned borrow `rel`, in order.
pub open spec fn matching(facts: Seq<V326LifecycleFactRecord>, rel: int, n: int) -> Seq<int>
    decreases n,
{
    if n <= 0 {
        Seq::empty()
    } else {
        matching(facts, rel, n - 1) + if matches_relation(facts, rel, n - 1) {
            seq![n - 1]
        } else {
            Seq::empty()
        }
    }
}

/// The ids of the authoritative invalidation orders before `n` whose first static site is the
/// first static site of fact `m`, in order.
pub open spec fn order_ids(facts: Seq<V326LifecycleFactRecord>, m: int, n: int) -> Seq<Seq<char>>
    decreases n,
{
    if n <= 0 {
        Seq::empty()
    } else {
        let site = first_with_prefix(ids_of(facts[m]), "static_site:"@);
        order_ids(facts, m, n - 1) + if auth_of(facts[n - 1], V326LifecycleFactKind::ReturnedBorrowInvalidationOrder)
            && site is Some && first_with_prefix(ids_of(facts[n - 1]), "static_site:"@) == site {
            seq![facts[n - 1].fact_id@]
        } else {
            Seq::empty()
        }
    }
}

/// The verified view chains of the returned borrow `rel` through the matching facts `ms` that
/// an invalidation order covers, in order.
pub open spec fn view_chains(edges: Seq<EdgeView>, facts: Seq<V326LifecycleFactRecord>, rel: int, ms: Seq<int>) -> Seq<ChainView>
    decreases ms.len(),
{
    if ms.len() == 0 {
        Seq::empty()
    } else {
        let m = ms.last();
        let o = order_ids(facts, m, facts.len() as int);
        view_chains(edges, facts, rel, ms.drop_last()) + if o.len() > 0 {
            seq![
                ref_chain(
                    edges,
                    facts,
                    chain_id_of(facts[rel].fact_id@, sanitized(facts[m].fact_id@)) + ":returned_view"@,
                    sorted_of((seq![facts[rel].fact_id@, facts[m].fact_id@] + o).to_set()),
                    V326ObjectChainStatus::VerifiedStaticChain,
                ),
            ]
        } else {
            Seq::empty()
        }
    }
}

/// Some matching fact is covered by an invalidation order.
pub open spec fn any_ordered(facts: Seq<V326LifecycleFactRecord>, ms: Seq<int>) -> bool {
    exists|q: int| 0 <= q < ms.len() && #[trigger] order_ids(facts, ms[q], facts.len() as int).len() > 0
}

/// The partial view chain of the returned borrow `rel` and the persisted ids, when their facts
/// name at least two objects.
pub open spec fn partial_view_chain(
    edges: Seq<EdgeView>,
    facts: Seq<V326LifecycleFactRecord>,
    rel: int,
    ps: Seq<Seq<char>>,
) -> Seq<ChainView> {
    let refs = sorted_of((seq![facts[rel].fact_id@] + ps).to_set());
    if sorted_of(referred_endpoints(facts, refs).to_set()).len() < 2 {
        Seq::empty()
    } else {
        seq![
            ref_chain(
                edges,
                facts,
                chain_id_of(facts[rel].fact_id@, "returned_view_partial"@),
                refs,
                V326ObjectChainStatus::PartialChain,
            ),
        ]
    }
}

/// The chains of an authoritative returned borrow: a partial chain when no fact matches it; else
/// the verified view chains, and a partial chain over the matching ids when none is verified.
pub open spec fn relation_chains(edges: Seq<EdgeView>, facts: Seq<V326LifecycleFactRecord>, rel: int) -> Seq<ChainView> {
    let ms = matching(facts, rel, facts.len() as int);
    if !auth_of(facts[rel], V326LifecycleFactKind::ReturnedBorrowRelation) {
        Seq::empty()
    } else if ms.len() == 0 {
        partial_view_chain(edges, facts, rel, Seq::empty())
    } else {
        view_chains(edges, facts, rel, ms) + if any_ordered(facts, ms) {
            Seq::empty()
        } else {
            partial_view_chain(edges, facts, rel, ms.map_values(|m: int| facts[m].fact_id@))
        }
    }
}

/// The chains of the returned borrows before `n`, in order.
pub open spec fn returned_chains(edges: Seq<EdgeView>, facts: Seq<V326LifecycleFactRecord>, n: int) -> Seq<ChainView>
    decreases n,
{
    if n <= 0 {
        Seq::empty()
    } else {
        returned_chains(edges, facts, n - 1) + relation_chains(edges, facts, n - 1)
    }
}

fn has_persisted_id(facts: &[V326LifecycleFactRecord], id: &String) -> (b: bool)
    ensures
        b == persisted_id(facts@, id@),
{
    let mut j: usize = 0;
    while j < facts.len()
        invariant
            0 <= j <= facts@.len(),
            forall|k: int|
                0 <= k < j ==> !(auth_of(facts@[k], V326LifecycleFactKind::PersistedReturnedBorrow) && #[trigger] facts@[k].fact_id@
                    == id@),
        decreases facts.len() - j,
    {
        if facts[j].fact_kind == V326LifecycleFactKind::PersistedReturnedBorrow && is_authoritative_object_binding_fact(
            &facts[j],
        ) && facts[j].fact_id == *id {
            return true;
        }
        j = j + 1;
    }
    false
}

fn order_refs_for_persisted(facts: &[V326LifecycleFactRecord], m: usize) -> (r: Vec<String>)
    requires
        m < facts@.len(),
    ensures
        text_views(r@) == order_ids(facts@, m as int, facts@.len() as int),
{
    let mut out: Vec<String> = Vec::new();
    let ghost site = first_with_prefix(ids_of(facts@[m as int]), "static_site:"@);
    let found = first_object_with_prefix(&facts[m].object_ids, "static_site:");
    let mut o: usize = 0;
    assert(text_views(out@) =~= order_ids(facts@, m as int, 0));
    while o < facts.len()
        invariant
            0 <= o <= facts@.len(),
            m < facts@.len(),
            site == first_with_prefix(ids_of(facts@[m as int]), "static_site:"@),
            crate::v326_fact_edges::opt_view(found) == site,
            text_views(out@) == order_ids(facts@, m as int, o as int),
        decreases facts.len() - o,
    {
        let ghost before = text_views(out@);
        let mut hit = false;
        if facts[o].fact_kind == V326LifecycleFactKind::ReturnedBorrowInvalidationOrder && is_authoritative_object_binding_fact(
            &facts[o],
        ) {
            match (&found, first_object_with_prefix(&facts[o].object_ids, "static_site:")) {
                (Some(sv), Some(t)) => {
                    if t == *sv {
                        hit = true;
                    }
                },
                _ => {},
            }
        }
        if hit {
            out.push(facts[o].fact_id.clone());
            assert(text_views(out@) =~= before.push(facts@[o as int].fact_id@));
            assert(order_ids(facts@, m as int, o + 1) =~= order_ids(facts@, m as int, o as int).push(facts@[o as int].fact_id@));
        } else {
            assert(order_ids(facts@, m as int, o + 1) =~= order_ids(facts@, m as int, o as int));
        }
        o = o + 1;
    }
    out
}

fn append_partial_returned_borrow_object_chain(
    chains: &mut Vec<V326ObjectChain>,
    edges: &Vec<V326LifecycleGraphV3Edge>,
    facts: &[V326LifecycleFactRecord],
    rel: usize,
    persisted_refs: Vec<String>,
)
    requires
        chains_layers_hold(old(chains)@, facts@),
        rel < facts@.len(),
    ensures
        chains_layers_hold(final(chains)@, facts@),
        chain_views(final(chains)@) == chain_views(old(chains)@) + partial_view_chain(
            edge3_views(edges@),
            facts@,
            rel as int,
            text_views(persisted_refs@),
        ),
{
    let ghost start = chain_views(chains@);
    let mut all: Vec<String> = Vec::new();
    all.push(facts[rel].fact_id.clone());
    let ghost first = seq![facts@[rel as int].fact_id@];
    assert(text_views(all@) =~= first + text_views(persisted_refs@).take(0));
    let mut k: usize = 0;
    while k < persisted_refs.len()
        invariant
            0 <= k <= persisted_refs@.len(),
            text_views(all@) == first + text_views(persisted_refs@).take(k as int),
        decreases persisted_refs.len() - k,
    {
        let ghost before = text_views(all@);
        all.push(persisted_refs[k].clone());
        assert(text_views(all@) =~= before.push(persisted_refs@[k as int]@));
        assert(first + text_views(persisted_refs@).take(k + 1) =~= (first + text_views(persisted_refs@).take(k as int)).push(
            persisted_refs@[k as int]@,
        ));
        k = k + 1;
    }
    assert(text_views(persisted_refs@).take(persisted_refs@.len() as int) =~= text_views(persisted_refs@));
    let refs = ordered_set(all);
    let objs = object_ids_for_fact_refs(facts, &refs);
    if objs.len() < 2 {
        assert(start + Seq::<ChainView>::empty() =~= start);
        return;
    }
    let edge_ids = edge_ids_for_fact_refs(edges, &refs);
    let ev = evidence_refs_for_fact_refs(facts, &refs);
    push_chain(
        chains,
        chain_id2(facts[rel].fact_id.as_str(), "returned_view_partial"),
        objs,
        edge_ids,
        refs,
        ev,
        V326ObjectChainStatus::PartialChain,
        facts,
    );
}

fn matching_facts(facts: &[V326LifecycleFactRecord], rel: usize) -> (r: Vec<usize>)
    requires
        rel < facts@.len(),
    ensures
        r@.map_values(|x: usize| x as int) == matching(facts@, rel as int, facts@.len() as int),
        forall|q: int| 0 <= q < r@.len() ==> #[trigger] r@[q] < facts@.len(),
{
    let returned = first_object_with_prefix(&facts[rel].object_ids, "returned_ref:");
    let mut out: Vec<usize> = Vec::new();
    let mut m: usize = 0;
    assert(out@.map_values(|x: usize| x as int) =~= matching(facts@, rel as int, 0));
    while m < facts.len()
        invariant
            0 <= m <= facts@.len(),
            rel < facts@.len(),
            crate::v326_fact_edges::opt_view(returned) == first_with_prefix(ids_of(facts@[rel as int]), "returned_ref:"@),
            out@.map_values(|x: usize| x as int) == matching(facts@, rel as int, m as int),
            forall|q: int| 0 <= q < out@.len() ==> #[trigger] out@[q] < facts@.len(),
        decreases facts.len() - m,
    {
        let ghost before = out@.map_values(|x: usize| x as int);
        let hit = match &returned {
            Some(rr) => has_persisted_id(facts, &facts[m].fact_id) && object_ids_hold(&facts[m].object_ids, rr.as_str()),
            None => false,
        };
        assert(hit == matches_relation(facts@, rel as int, m as int));
        if hit {
            out.push(m);
            assert(out@.map_values(|x: usize| x as int) =~= before.push(m as int));
            assert(matching(facts@, rel as int, m + 1) =~= matching(facts@, rel as int, m as int).push(m as int));
        } else {
            assert(matching(facts@, rel as int, m + 1) =~= matching(facts@, rel as int, m as int));
        }
        m = m + 1;
    }
    out
}

fn append_relation_chains(
    chains: &mut Vec<V326ObjectChain>,
    edges: &Vec<V326LifecycleGraphV3Edge>,
    facts: &[V326LifecycleFactRecord],
    rel: usize,
)
    requires
        chains_layers_hold(old(chains)@, facts@),
        rel < facts@.len(),
        auth_of(facts@[rel as int], V326LifecycleFactKind::ReturnedBorrowRelation),
    ensures
        chains_layers_hold(final(chains)@, facts@),
        chain_views(final(chains)@) == chain_views(old(chains)@) + relation_chains(edge3_views(edges@), facts@, rel as int),
{
    let ghost start = chain_views(chains@);
    let ghost ev = edge3_views(edges@);
    let matching = matching_facts(facts, rel);
    let ghost ms = matching@.map_values(|x: usize| x as int);
    if matching.len() == 0 {
        let none: Vec<String> = Vec::new();
        assert(text_views(none@) =~= Seq::<Seq<char>>::empty());
        append_partial_returned_borrow_object_chain(chains, edges, facts, rel, none);
        return;
    }
    let mut completed = false;
    let mut q: usize = 0;
    assert(ms.take(0) =~= Seq::<int>::empty());
    assert(start + Seq::<ChainView>::empty() =~= start);
    while q < matching.len()
        invariant
            0 <= q <= matching@.len(),
            rel < facts@.len(),
            ev == edge3_views(edges@),
            ms == matching@.map_values(|x: usize| x as int),
            forall|w: int| 0 <= w < matching@.len() ==> #[trigger] matching@[w] < facts@.len(),
            chains_layers_hold(chains@, facts@),
            chain_views(chains@) == start + view_chains(ev, facts@, rel as int, ms.take(q as int)),
            completed == any_ordered(facts@, ms.take(q as int)),
        decreases matching.len() - q,
    {
        let m = matching[q];
        assert(ms[q as int] == m as int);
        assert(ms.take(q + 1).drop_last() =~= ms.take(q as int));
        assert(ms.take(q + 1).last() == m as int);
        let order = order_refs_for_persisted(facts, m);
        if order.len() > 0 {
            let mut all: Vec<String> = Vec::new();
            all.push(facts[rel].fact_id.clone());
            all.push(facts[m].fact_id.clone());
            let ghost two = seq![facts@[rel as int].fact_id@, facts@[m as int].fact_id@];
            assert(text_views(all@) =~= two + text_views(order@).take(0));
            let mut k: usize = 0;
            while k < order.len()
                invariant
                    0 <= k <= order@.len(),
                    text_views(all@) == two + text_views(order@).take(k as int),
                decreases order.len() - k,
            {
                let ghost before = text_views(all@);
                all.push(order[k].clone());
                assert(text_views(all@) =~= before.push(order@[k as int]@));
                assert(two + text_views(order@).take(k + 1) =~= (two + text_views(order@).take(k as int)).push(order@[k as int]@));
                k = k + 1;
            }
            assert(text_views(order@).take(order@.len() as int) =~= text_views(order@));
            let refs = ordered_set(all);
            proof {
                reveal_strlit(":returned_view");
            }
            let id = concat2(
                chain_id2(facts[rel].fact_id.as_str(), sanitize_id_for_path(facts[m].fact_id.as_str()).as_str()).as_str(),
                ":returned_view",
            );
            push_ref_chain(chains, id, refs, V326ObjectChainStatus::VerifiedStaticChain, edges, facts);
            completed = true;
            assert(order_ids(facts@, ms.take(q + 1)[q as int], facts@.len() as int).len() > 0);
        } else {
            proof {
                if any_ordered(facts@, ms.take(q + 1)) {
                    let w = choose|w: int| 0 <= w < ms.take(q + 1).len() && #[trigger] order_ids(facts@, ms.take(q + 1)[w], facts@.len() as int).len() > 0;
                    if w < q {
                        assert(ms.take(q + 1)[w] == ms.take(q as int)[w]);
                    }
                }
            }
        }
        proof {
            if completed && q > 0 && any_ordered(facts@, ms.take(q as int)) {
                let w = choose|w: int| 0 <= w < ms.take(q as int).len() && #[trigger] order_ids(facts@, ms.take(q as int)[w], facts@.len() as int).len() > 0;
                assert(ms.take(q + 1)[w] == ms.take(q as int)[w]);
            }
        }
        assert(chain_views(chains@) =~= start + view_chains(ev, facts@, rel as int, ms.take(q + 1)));
        q = q + 1;
    }
    assert(ms.take(ms.len() as int) =~= ms);
    if !completed {
        let mut ids: Vec<String> = Vec::new();
        let mut q2: usize = 0;
        while q2 < matching.len()
            invariant
                0 <= q2 <= matching@.len(),
                ms == matching@.map_values(|x: usize| x as int),
                forall|w: int| 0 <= w < matching@.len() ==> #[trigger] matching@[w] < facts@.len(),
                text_views(ids@) == ms.take(q2 as int).map_values(|m: int| facts@[m].fact_id@),
            decreases matching.len() - q2,
        {
            let ghost before = text_views(ids@);
            ids.push(facts[matching[q2]].fact_id.clone());
            assert(ms[q2 as int] == matching@[q2 as int] as int);
            assert(text_views(ids@) =~= before.push(facts@[ms[q2 as int]].fact_id@));
            assert(ms.take(q2 + 1).map_values(|m: int| facts@[m].fact_id@) =~= ms.take(q2 as int).map_values(
                |m: int| facts@[m].fact_id@,
            ).push(facts@[ms[q2 as int]].fact_id@));
            q2 = q2 + 1;
        }
        let ghost mid = chain_views(chains@);
        append_partial_returned_borrow_object_chain(chains, edges, facts, rel, ids);
        assert(ms.take(ms.len() as int) =~= ms);
        assert(chain_views(chains@) =~= start + relation_chains(ev, facts@, rel as int));
    } else {
        assert(chain_views(chains@) =~= start + relation_chains(ev, facts@, rel as int));
    }
}

/// For every authoritative returned borrow: a verified chain through each persisted borrow of
/// its returned reference that an invalidation order covers, or else a partial chain over the
/// borrow and the persisted borrows found.
fn append_returned_borrow_object_chains(
    chains: &mut Vec<V326ObjectChain>,
    edges: &Vec<V326LifecycleGraphV3Edge>,
    facts: &[V326LifecycleFactRecord],
)
    requires
        chains_layers_hold(old(chains)@, facts@),
    ensures
        chains_layers_hold(final(chains)@, facts@),
        chain_views(final(chains)@) == chain_views(old(chains)@) + returned_chains(
            edge3_views(edges@),
            facts@,
            facts@.len() as int,
        ),
{
    let ghost start = chain_views(chains@);
    let ghost ev = edge3_views(edges@);
    assert(start + Seq::<ChainView>::empty() =~= start);
    let mut rel: usize = 0;
    while rel < facts.len()
        invariant
            0 <= rel <= facts@.len(),
            ev == edge3_views(edges@),
            chains_layers_hold(chains@, facts@),
            chain_views(chains@) == start + returned_chains(ev, facts@, rel as int),
        decreases facts.len() - rel,
    {
        let ghost before = chain_views(chains@);
        if facts[rel].fact_kind == V326LifecycleFactKind::ReturnedBorrowRelation && is_authoritative_object_binding_fact(
            &facts[rel],
        ) {
            append_relation_chains(chains, edges, facts, rel);
        } else {
            assert(relation_chains(ev, facts@, rel as int) =~= Seq::<ChainView>::empty());
        }
        assert(chain_views(chains@) =~= start + returned_chains(ev, facts@, rel + 1));
        rel = rel + 1;
    }
}

/// The objects a fact names, as an ordered set.
pub open spec fn fact_objs(f: V326LifecycleFactRecord) -> Seq<Seq<char>> {
    sorted_of(endpoint_seq(f).to_set())
}

/// An authoritative object flow with endpoints: a member of the object-flow components.
pub open spec fn is_flow_member(f: V326LifecycleFactRecord) -> bool {
    auth_of(f, V326LifecycleFactKind::ObjectFlow) && fact_objs(f).len() > 0
}

/// Which facts are members of the object-flow components.
pub open spec fn flow_members(facts: Seq<V326LifecycleFactRecord>) -> Seq<bool> {
    Seq::new(facts.len(), |i: int| is_flow_member(facts[i]))
}

/// The partial chain of an authoritative object flow without endpoints.
pub open spec fn empty_flow_chain(edges: Seq<EdgeView>, facts: Seq<V326LifecycleFactRecord>, f: V326LifecycleFactRecord) -> Seq<ChainView> {
    if auth_of(f, V326LifecycleFactKind::ObjectFlow) && fact_objs(f).len() == 0 {
        seq![
            chain_of(
                chain_id_of(f.fact_id@, "object_flow"@),
                fact_objs(f),
                sorted_of(referred_edges(edges, seq![f.fact_id@]).to_set()),
                seq![f.fact_id@],
                text_views(f.evidence_refs@),
                V326ObjectChainStatus::PartialChain,
                facts,
            ),
        ]
    } else {
        Seq::empty()
    }
}

pub open spec fn empty_flow_chains(edges: Seq<EdgeView>, facts: Seq<V326LifecycleFactRecord>, n: int) -> Seq<ChainView>
    decreases n,
{
    if n <= 0 {
        Seq::empty()
    } else {
        empty_flow_chains(edges, facts, n - 1) + empty_flow_chain(edges, facts, facts[n - 1])
    }
}

/// The ids of the members whose endpoints are ambiguous, in order.
pub open spec fn ambiguous_ids(facts: Seq<V326LifecycleFactRecord>, n: int) -> Seq<Seq<char>>
    decreases n,
{
    if n <= 0 {
        Seq::empty()
    } else {
        ambiguous_ids(facts, n - 1) + if is_flow_member(facts[n - 1]) && crate::v326_object_flow::is_ambiguous(
            facts[n - 1],
            facts,
        ) {
            seq![facts[n - 1].fact_id@]
        } else {
            Seq::empty()
        }
    }
}

/// The objects of the members, in order of facts.
pub open spec fn member_objs(facts: Seq<V326LifecycleFactRecord>, n: int) -> Seq<Seq<char>>
    decreases n,
{
    if n <= 0 {
        Seq::empty()
    } else {
        member_objs(facts, n - 1) + if is_flow_member(facts[n - 1]) {
            fact_objs(facts[n - 1])
        } else {
            Seq::empty()
        }
    }
}

/// The first member from `i` on that names the object.
pub open spec fn first_member_from(facts: Seq<V326LifecycleFactRecord>, key: Seq<char>, i: int) -> Option<int>
    decreases facts.len() - i,
{
    if i < 0 || i >= facts.len() {
        None
    } else if is_flow_member(facts[i]) && fact_objs(facts[i]).contains(key) {
        Some(i)
    } else {
        first_member_from(facts, key, i + 1)
    }
}

/// The objects of the component of member `s`, as an ordered set.
pub open spec fn comp_objs(facts: Seq<V326LifecycleFactRecord>, s: int) -> Seq<Seq<char>> {
    sorted_of(
        Set::new(
            |x: Seq<char>|
                exists|j: int|
                    0 <= j < facts.len() && #[trigger] crate::v326_flow_components::in_comp(facts, flow_members(facts), s, j)
                        && fact_objs(facts[j]).contains(x),
        ),
    )
}

/// An authoritative fact of another kind than an object flow that names one of the objects.
pub open spec fn supports_comp(f: V326LifecycleFactRecord, objs: Seq<Seq<char>>) -> bool {
    f.fact_kind != V326LifecycleFactKind::ObjectFlow && is_authoritative_binding(f) && exists|e: int|
        0 <= e < fact_objs(f).len() && objs.contains(#[trigger] fact_objs(f)[e])
}

/// The references of the component of member `s`: its flows and the facts that support its
/// objects, as an ordered set.
pub open spec fn comp_refs(facts: Seq<V326LifecycleFactRecord>, s: int, objs: Seq<Seq<char>>) -> Seq<Seq<char>> {
    sorted_of(
        Set::new(
            |x: Seq<char>|
                (exists|j: int|
                    0 <= j < facts.len() && #[trigger] crate::v326_flow_components::in_comp(facts, flow_members(facts), s, j)
                        && facts[j].fact_id@ == x) || (exists|k: int|
                    0 <= k < facts.len() && #[trigger] supports_comp(facts[k], objs) && facts[k].fact_id@ == x),
        ),
    )
}

/// The referenced object flows hold a compatible, unblocked pair of the two flow kinds.
pub open spec fn kind_pair(facts: Seq<V326LifecycleFactRecord>, refs: Seq<Seq<char>>, k1: Seq<char>, k2: Seq<char>) -> bool {
    exists|a: int, b: int|
        0 <= a < facts.len() && 0 <= b < facts.len() && #[trigger] facts[a].fact_kind == V326LifecycleFactKind::ObjectFlow
            && refs.contains(facts[a].fact_id@) && crate::v326_object_flow::flow_kind(facts[a]) == Some(k1) && #[trigger] facts[b].fact_kind
            == V326LifecycleFactKind::ObjectFlow && refs.contains(facts[b].fact_id@) && crate::v326_object_flow::flow_kind(facts[b])
            == Some(k2) && !crate::v326_object_flow::blocked(facts[a], facts[b], facts)
            && crate::v326_object_flow::compatible_sequence(facts[a], facts[b], k1, k2)
}

/// The referenced object flows hold a flow and its counterpart.
pub open spec fn complete_flow_chain(facts: Seq<V326LifecycleFactRecord>, refs: Seq<Seq<char>>) -> bool {
    ||| kind_pair(facts, refs, "closure_capture"@, "field_load"@)
    ||| kind_pair(facts, refs, "return_value"@, "argument"@)
    ||| kind_pair(facts, refs, "field_store"@, "field_load"@)
    ||| kind_pair(facts, refs, "wrapper_move"@, "wrapper_destructure"@)
    ||| kind_pair(facts, refs, "collection_store"@, "collection_load"@)
}

/// Some object flow has the id.
pub open spec fn is_flow_id(facts: Seq<V326LifecycleFactRecord>, x: Seq<char>) -> bool {
    exists|k: int| 0 <= k < facts.len() && #[trigger] facts[k].fact_id@ == x && facts[k].fact_kind == V326LifecycleFactKind::ObjectFlow
}

/// The first reference that is the id of an object flow, else the first reference.
pub open spec fn anchor_ref(facts: Seq<V326LifecycleFactRecord>, refs: Seq<Seq<char>>, i: int) -> Seq<char>
    decreases refs.len() - i,
{
    if i < 0 || i >= refs.len() {
        refs[0]
    } else if is_flow_id(facts, refs[i]) {
        refs[i]
    } else {
        anchor_ref(facts, refs, i + 1)
    }
}

/// The status of a component chain: partial with fewer than two objects, ambiguous when a
/// reference is an ambiguous flow, verified with a complete flow pair, partial otherwise.
pub open spec fn comp_status(
    facts: Seq<V326LifecycleFactRecord>,
    objs: Seq<Seq<char>>,
    refs: Seq<Seq<char>>,
    amb: Seq<Seq<char>>,
) -> V326ObjectChainStatus {
    if objs.len() < 2 {
        V326ObjectChainStatus::PartialChain
    } else if exists|k: int| 0 <= k < refs.len() && amb.contains(#[trigger] refs[k]) {
        V326ObjectChainStatus::AmbiguousChain
    } else if complete_flow_chain(facts, refs) {
        V326ObjectChainStatus::VerifiedStaticChain
    } else {
        V326ObjectChainStatus::PartialChain
    }
}

/// The chain of the component of member `s`.
pub open spec fn comp_chain(
    edges: Seq<EdgeView>,
    facts: Seq<V326LifecycleFactRecord>,
    s: int,
    amb: Seq<Seq<char>>,
) -> Seq<ChainView> {
    let objs = comp_objs(facts, s);
    let refs = comp_refs(facts, s, objs);
    if refs.len() > 0 {
        seq![
            chain_of(
                chain_id_of(anchor_ref(facts, refs, 0), "object_flow_component"@),
                objs,
                sorted_of(referred_edges(edges, refs).to_set()),
                refs,
                sorted_of(referred_evidence(facts, refs).to_set()),
                comp_status(facts, objs, refs, amb),
                facts,
            ),
        ]
    } else {
        Seq::empty()
    }
}

/// The objects seen and the component chains after the keys, in order: a key not yet seen
/// starts the component of the first member that names it.
pub open spec fn comp_state(
    edges: Seq<EdgeView>,
    facts: Seq<V326LifecycleFactRecord>,
    amb: Seq<Seq<char>>,
    keys: Seq<Seq<char>>,
) -> (Set<Seq<char>>, Seq<ChainView>)
    decreases keys.len(),
{
    if keys.len() == 0 {
        (Set::empty(), Seq::empty())
    } else {
        let (seen, cs) = comp_state(edges, facts, amb, keys.drop_last());
        let key = keys.last();
        if seen.contains(key) {
            (seen, cs)
        } else {
            match first_member_from(facts, key, 0) {
                Some(s) => (seen.union(comp_objs(facts, s).to_set()), cs + comp_chain(edges, facts, s, amb)),
                None => (seen, cs),
            }
        }
    }
}

/// The object-flow chains: the partial chains of flows without endpoints, then one chain for
/// each component of the others, in order of its smallest object.
pub open spec fn flow_chains(edges: Seq<EdgeView>, facts: Seq<V326LifecycleFactRecord>) -> Seq<ChainView> {
    empty_flow_chains(edges, facts, facts.len() as int) + comp_state(
        edges,
        facts,
        ambiguous_ids(facts, facts.len() as int),
        sorted_of(member_objs(facts, facts.len() as int).to_set()),
    ).1
}

fn push_all(out: &mut Vec<String>, items: &Vec<String>)
    ensures
        text_views(final(out)@) == text_views(old(out)@) + text_views(items@),
{
    let ghost start = text_views(out@);
    let mut k: usize = 0;
    while k < items.len()
        invariant
            0 <= k <= items@.len(),
            text_views(out@) == start + text_views(items@).take(k as int),
        decreases items.len() - k,
    {
        let ghost before = text_views(out@);
        out.push(items[k].clone());
        assert(text_views(out@) =~= before.push(items@[k as int]@));
        assert(start + text_views(items@).take(k + 1) =~= (start + text_views(items@).take(k as int)).push(items@[k as int]@));
        k = k + 1;
    }
    assert(text_views(items@).take(items@.len() as int) =~= text_views(items@));
}

/// Marks the members and appends the partial chains of the authoritative object flows without
/// endpoints.
fn flow_members_and_empty_chains(
    chains: &mut Vec<V326ObjectChain>,
    edges: &Vec<V326LifecycleGraphV3Edge>,
    facts: &[V326LifecycleFactRecord],
) -> (mem: Vec<bool>)
    requires
        chains_layers_hold(old(chains)@, facts@),
    ensures
        chains_layers_hold(final(chains)@, facts@),
        mem@ == flow_members(facts@),
        chain_views(final(chains)@) == chain_views(old(chains)@) + empty_flow_chains(
            edge3_views(edges@),
            facts@,
            facts@.len() as int,
        ),
{
    let ghost start = chain_views(chains@);
    let ghost ev = edge3_views(edges@);
    assert(start + Seq::<ChainView>::empty() =~= start);
    let mut mem: Vec<bool> = Vec::new();
    let mut i: usize = 0;
    while i < facts.len()
        invariant
            0 <= i <= facts@.len(),
            ev == edge3_views(edges@),
            mem@.len() == i,
            forall|k: int| 0 <= k < i ==> mem@[k] == is_flow_member(#[trigger] facts@[k]),
            chains_layers_hold(chains@, facts@),
            chain_views(chains@) == start + empty_flow_chains(ev, facts@, i as int),
        decreases facts.len() - i,
    {
        let f = &facts[i];
        let mut member = false;
        if f.fact_kind == V326LifecycleFactKind::ObjectFlow && is_authoritative_object_binding_fact(f) {
            let ends = fact_endpoints(f);
            if ends.len() == 0 {
                let mut refs: Vec<String> = Vec::new();
                refs.push(f.fact_id.clone());
                assert(text_views(refs@) =~= seq![f.fact_id@]);
                let edge_ids = edge_ids_for_fact_refs(edges, &refs);
                push_chain(
                    chains,
                    chain_id2(f.fact_id.as_str(), "object_flow"),
                    ends,
                    edge_ids,
                    refs,
                    clone_texts(&f.evidence_refs),
                    V326ObjectChainStatus::PartialChain,
                    facts,
                );
            } else {
                member = true;
                assert(start + empty_flow_chains(ev, facts@, i + 1) =~= start + empty_flow_chains(ev, facts@, i as int));
            }
        } else {
            assert(start + empty_flow_chains(ev, facts@, i + 1) =~= start + empty_flow_chains(ev, facts@, i as int));
        }
        assert(chain_views(chains@) =~= start + empty_flow_chains(ev, facts@, i + 1));
        mem.push(member);
        i = i + 1;
    }
    assert(mem@ =~= flow_members(facts@));
    mem
}

fn ambiguous_flow_ids(facts: &[V326LifecycleFactRecord], mem: &Vec<bool>) -> (r: Vec<String>)
    requires
        mem@ == flow_members(facts@),
    ensures
        text_views(r@) == ambiguous_ids(facts@, facts@.len() as int),
{
    let mut r: Vec<String> = Vec::new();
    let mut i: usize = 0;
    assert(text_views(r@) =~= ambiguous_ids(facts@, 0));
    while i < facts.len()
        invariant
            0 <= i <= facts@.len(),
            mem@ == flow_members(facts@),
            text_views(r@) == ambiguous_ids(facts@, i as int),
        decreases facts.len() - i,
    {
        let ghost before = text_views(r@);
        assert(mem@[i as int] == is_flow_member(facts@[i as int]));
        if mem[i] && crate::v326_object_flow::object_flow_endpoint_is_ambiguous(&facts[i], facts) {
            r.push(facts[i].fact_id.clone());
            assert(text_views(r@) =~= before.push(facts@[i as int].fact_id@));
            assert(ambiguous_ids(facts@, i + 1) =~= before.push(facts@[i as int].fact_id@));
        } else {
            assert(ambiguous_ids(facts@, i + 1) =~= before);
        }
        i = i + 1;
    }
    r
}

fn member_keys(facts: &[V326LifecycleFactRecord], mem: &Vec<bool>) -> (r: Vec<String>)
    requires
        mem@ == flow_members(facts@),
    ensures
        text_views(r@) == sorted_of(member_objs(facts@, facts@.len() as int).to_set()),
{
    let mut all: Vec<String> = Vec::new();
    let mut i: usize = 0;
    assert(text_views(all@) =~= member_objs(facts@, 0));
    while i < facts.len()
        invariant
            0 <= i <= facts@.len(),
            mem@ == flow_members(facts@),
            text_views(all@) == member_objs(facts@, i as int),
        decreases facts.len() - i,
    {
        let ghost before = text_views(all@);
        assert(mem@[i as int] == is_flow_member(facts@[i as int]));
        if mem[i] {
            push_all(&mut all, &fact_endpoints(&facts[i]));
        } else {
            assert(before + Seq::<Seq<char>>::empty() =~= before);
        }
        i = i + 1;
    }
    ordered_set(all)
}

fn first_member(facts: &[V326LifecycleFactRecord], mem: &Vec<bool>, key: &String) -> (r: Option<usize>)
    requires
        mem@ == flow_members(facts@),
    ensures
        match r {
            Some(s) => first_member_from(facts@, key@, 0) == Some(s as int) && s < facts@.len(),
            None => first_member_from(facts@, key@, 0) is None,
        },
{
    let mut i: usize = 0;
    while i < facts.len()
        invariant
            0 <= i <= facts@.len(),
            mem@ == flow_members(facts@),
            first_member_from(facts@, key@, 0) == first_member_from(facts@, key@, i as int),
        decreases facts.len() - i,
    {
        assert(mem@[i as int] == is_flow_member(facts@[i as int]));
        let hit = mem[i] && crate::v326_chain_sets::holds_text(&fact_endpoints(&facts[i]), key);
        if hit {
            return Some(i);
        }
        i = i + 1;
    }
    None
}

fn component_objects(facts: &[V326LifecycleFactRecord], mem: &Vec<bool>, comp: &Vec<usize>, s: usize) -> (r: Vec<String>)
    requires
        mem@ == flow_members(facts@),
        s < facts@.len(),
        forall|j: int|
            #![trigger comp@.contains(j as usize)]
            0 <= j < facts@.len() ==> (comp@.contains(j as usize) <==> crate::v326_flow_components::in_comp(
                facts@,
                mem@,
                s as int,
                j,
            )),
        forall|k: int| 0 <= k < comp@.len() ==> #[trigger] comp@[k] < facts@.len(),
    ensures
        text_views(r@) == comp_objs(facts@, s as int),
        text_views(r@).to_set() == Set::new(
            |x: Seq<char>|
                exists|j: int|
                    0 <= j < facts@.len() && #[trigger] crate::v326_flow_components::in_comp(facts@, flow_members(facts@), s as int, j)
                        && fact_objs(facts@[j]).contains(x),
        ),
{
    let n = facts.len();
    let mut all: Vec<String> = Vec::new();
    let mut q: usize = 0;
    while q < comp.len()
        invariant
            0 <= q <= comp@.len(),
            forall|k: int| 0 <= k < comp@.len() ==> #[trigger] comp@[k] < facts@.len(),
            forall|x: Seq<char>|
                text_views(all@).contains(x) <==> exists|w: int| 0 <= w < q && #[trigger] fact_objs(facts@[comp@[w] as int]).contains(x),
        decreases comp.len() - q,
    {
        let j = comp[q];
        let ghost before = text_views(all@);
        let e = fact_endpoints(&facts[j]);
        push_all(&mut all, &e);
        proof {
            assert forall|x: Seq<char>| text_views(all@).contains(x) <==> exists|w: int|
                0 <= w < q + 1 && #[trigger] fact_objs(facts@[comp@[w] as int]).contains(x) by {
                crate::v326_chain_refs::lemma_concat_contains(before, text_views(e@), x);
                if text_views(e@).contains(x) {
                    assert(fact_objs(facts@[comp@[q as int] as int]).contains(x));
                }
                if exists|w: int| 0 <= w < q + 1 && #[trigger] fact_objs(facts@[comp@[w] as int]).contains(x) {
                    let w = choose|w: int| 0 <= w < q + 1 && #[trigger] fact_objs(facts@[comp@[w] as int]).contains(x);
                    if w == q {
                        assert(text_views(e@).contains(x));
                    } else {
                        assert(before.contains(x));
                    }
                }
            }
        }
        q = q + 1;
    }
    let ghost set = Set::new(
        |x: Seq<char>|
            exists|j: int|
                0 <= j < facts@.len() && #[trigger] crate::v326_flow_components::in_comp(facts@, flow_members(facts@), s as int, j)
                    && fact_objs(facts@[j]).contains(x),
    );
    proof {
        assert forall|x: Seq<char>| text_views(all@).to_set().contains(x) == set.contains(x) by {
            if text_views(all@).contains(x) {
                let w = choose|w: int| 0 <= w < comp@.len() && #[trigger] fact_objs(facts@[comp@[w] as int]).contains(x);
                let j = comp@[w] as int;
                assert(comp@.contains(j as usize));
                assert(crate::v326_flow_components::in_comp(facts@, flow_members(facts@), s as int, j));
            }
            if set.contains(x) {
                let j = choose|j: int|
                    0 <= j < facts@.len() && #[trigger] crate::v326_flow_components::in_comp(facts@, flow_members(facts@), s as int, j)
                        && fact_objs(facts@[j]).contains(x);
                assert(comp@.contains(j as usize));
                let w = choose|w: int| 0 <= w < comp@.len() && comp@[w] == j as usize;
                assert(comp@[w] as int == j);
                assert(fact_objs(facts@[comp@[w] as int]).contains(x));
            }
        }
        assert(text_views(all@).to_set() =~= set);
    }
    ordered_set(all)
}

fn shares_any(a: &Vec<String>, b: &Vec<String>) -> (r: bool)
    ensures
        r == exists|e: int| 0 <= e < a@.len() && text_views(b@).contains(#[trigger] text_views(a@)[e]),
{
    let mut k: usize = 0;
    while k < a.len()
        invariant
            0 <= k <= a@.len(),
            forall|e: int| 0 <= e < k ==> !text_views(b@).contains(#[trigger] text_views(a@)[e]),
        decreases a.len() - k,
    {
        if crate::v326_chain_sets::holds_text(b, &a[k]) {
            assert(text_views(b@).contains(text_views(a@)[k as int]));
            return true;
        }
        k = k + 1;
    }
    false
}

fn component_refs(
    facts: &[V326LifecycleFactRecord],
    mem: &Vec<bool>,
    comp: &Vec<usize>,
    s: usize,
    objs: &Vec<String>,
) -> (r: Vec<String>)
    requires
        mem@ == flow_members(facts@),
        s < facts@.len(),
        forall|j: int|
            #![trigger comp@.contains(j as usize)]
            0 <= j < facts@.len() ==> (comp@.contains(j as usize) <==> crate::v326_flow_components::in_comp(
                facts@,
                mem@,
                s as int,
                j,
            )),
        forall|k: int| 0 <= k < comp@.len() ==> #[trigger] comp@[k] < facts@.len(),
    ensures
        text_views(r@) == comp_refs(facts@, s as int, text_views(objs@)),
{
    let ghost ov = text_views(objs@);
    let mut all: Vec<String> = Vec::new();
    let mut q: usize = 0;
    while q < comp.len()
        invariant
            0 <= q <= comp@.len(),
            forall|k: int| 0 <= k < comp@.len() ==> #[trigger] comp@[k] < facts@.len(),
            forall|x: Seq<char>|
                #![trigger text_views(all@).contains(x)]
                text_views(all@).contains(x) <==> exists|w: int| 0 <= w < q && #[trigger] facts@[comp@[w] as int].fact_id@ == x,
        decreases comp.len() - q,
    {
        let j = comp[q];
        let ghost before = text_views(all@);
        all.push(facts[j].fact_id.clone());
        assert(text_views(all@) =~= before.push(facts@[j as int].fact_id@));
        proof {
            assert forall|x: Seq<char>| text_views(all@).contains(x) <==> exists|w: int|
                0 <= w < q + 1 && #[trigger] facts@[comp@[w] as int].fact_id@ == x by {
                if text_views(all@).contains(x) && x != facts@[j as int].fact_id@ {
                    let t = choose|t: int| 0 <= t < text_views(all@).len() && text_views(all@)[t] == x;
                    assert(before[t] == x);
                    assert(before.contains(x));
                }
                if exists|w: int| 0 <= w < q + 1 && #[trigger] facts@[comp@[w] as int].fact_id@ == x {
                    let w = choose|w: int| 0 <= w < q + 1 && #[trigger] facts@[comp@[w] as int].fact_id@ == x;
                    if w == q {
                        assert(text_views(all@)[before.len() as int] == x);
                    } else {
                        assert(before.contains(x));
                        let t = choose|t: int| 0 <= t < before.len() && before[t] == x;
                        assert(text_views(all@)[t] == x);
                    }
                }
            }
        }
        q = q + 1;
    }
    let ghost mid = text_views(all@);
    let n = facts.len();
    let mut k: usize = 0;
    while k < facts.len()
        invariant
            0 <= k <= facts@.len(),
            ov == text_views(objs@),
            forall|x: Seq<char>|
                #![trigger text_views(all@).contains(x)]
                text_views(all@).contains(x) <==> (mid.contains(x) || exists|i: int|
                    0 <= i < k && #[trigger] supports_comp(facts@[i], ov) && facts@[i].fact_id@ == x),
        decreases facts.len() - k,
    {
        let f = &facts[k];
        let ghost before = text_views(all@);
        assert(forall|x: Seq<char>| #![trigger before.contains(x)] before.contains(x) <==> (mid.contains(x) || exists|i: int|
                    0 <= i < k && #[trigger] supports_comp(facts@[i], ov) && facts@[i].fact_id@ == x));
        let hit = f.fact_kind != V326LifecycleFactKind::ObjectFlow && is_authoritative_object_binding_fact(f) && shares_any(
            &fact_endpoints(f),
            objs,
        );
        assert(hit == supports_comp(facts@[k as int], ov));
        if hit {
            all.push(f.fact_id.clone());
            assert(text_views(all@) =~= before.push(facts@[k as int].fact_id@));
        }
        proof {
            assert forall|x: Seq<char>| text_views(all@).contains(x) <==> (mid.contains(x) || exists|i: int|
                0 <= i < k + 1 && #[trigger] supports_comp(facts@[i], ov) && facts@[i].fact_id@ == x) by {
                if hit {
                    if text_views(all@).contains(x) && x != facts@[k as int].fact_id@ {
                        let t = choose|t: int| 0 <= t < text_views(all@).len() && text_views(all@)[t] == x;
                        assert(before[t] == x);
                        assert(before.contains(x));
                    }
                    if before.contains(x) {
                        let t = choose|t: int| 0 <= t < before.len() && before[t] == x;
                        assert(text_views(all@)[t] == x);
                    }
                    if x == facts@[k as int].fact_id@ {
                        assert(text_views(all@)[before.len() as int] == x);
                    }
                }
                if exists|i: int| 0 <= i < k + 1 && #[trigger] supports_comp(facts@[i], ov) && facts@[i].fact_id@ == x {
                    let i = choose|i: int| 0 <= i < k + 1 && #[trigger] supports_comp(facts@[i], ov) && facts@[i].fact_id@ == x;
                    if i < k {
                        assert(exists|i2: int| 0 <= i2 < k && #[trigger] supports_comp(facts@[i2], ov) && facts@[i2].fact_id@ == x);
                    } else {
                        assert(hit);
                        assert(text_views(all@)[before.len() as int] == x);
                    }
                }
                if mid.contains(x) || exists|i: int| 0 <= i < k && #[trigger] supports_comp(facts@[i], ov) && facts@[i].fact_id@ == x {
                    assert(before.contains(x));
                    if hit {
                        let t = choose|t: int| 0 <= t < before.len() && before[t] == x;
                        assert(text_views(all@)[t] == x);
                    }
                }
            }
        }
        k = k + 1;
    }
    let ghost set = Set::new(
        |x: Seq<char>|
            (exists|j: int|
                0 <= j < facts@.len() && #[trigger] crate::v326_flow_components::in_comp(facts@, flow_members(facts@), s as int, j)
                    && facts@[j].fact_id@ == x) || (exists|i: int|
                0 <= i < facts@.len() && #[trigger] supports_comp(facts@[i], ov) && facts@[i].fact_id@ == x),
    );
    proof {
        assert forall|x: Seq<char>| text_views(all@).to_set().contains(x) == set.contains(x) by {
            if mid.contains(x) {
                let w = choose|w: int| 0 <= w < comp@.len() && #[trigger] facts@[comp@[w] as int].fact_id@ == x;
                let j = comp@[w] as int;
                assert(comp@.contains(j as usize));
            }
            if exists|j: int|
                0 <= j < facts@.len() && #[trigger] crate::v326_flow_components::in_comp(facts@, flow_members(facts@), s as int, j)
                    && facts@[j].fact_id@ == x {
                let j = choose|j: int|
                    0 <= j < facts@.len() && #[trigger] crate::v326_flow_components::in_comp(facts@, flow_members(facts@), s as int, j)
                        && facts@[j].fact_id@ == x;
                assert(comp@.contains(j as usize));
                let w = choose|w: int| 0 <= w < comp@.len() && comp@[w] == j as usize;
                assert(comp@[w] as int == j);
                assert(facts@[comp@[w] as int].fact_id@ == x);
            }
        }
        assert(text_views(all@).to_set() =~= set);
    }
    ordered_set(all)
}

fn flow_kind_is(f: &V326LifecycleFactRecord, k: &String) -> (b: bool)
    ensures
        b == (crate::v326_object_flow::flow_kind(*f) == Some(k@)),
{
    match crate::v326_object_flow::object_flow_kind_from_fact(f) {
        Some(x) => x == *k,
        None => false,
    }
}

fn kind_pair_exec(facts: &[V326LifecycleFactRecord], refs: &Vec<String>, k1: &str, k2: &str) -> (r: bool)
    ensures
        r == kind_pair(facts@, text_views(refs@), k1@, k2@),
{
    let k1s = owned(k1);
    let k2s = owned(k2);
    let ghost rv = text_views(refs@);
    let mut a: usize = 0;
    while a < facts.len()
        invariant
            0 <= a <= facts@.len(),
            k1s@ == k1@,
            k2s@ == k2@,
            rv == text_views(refs@),
            forall|a0: int, b0: int|
                0 <= a0 < a && 0 <= b0 < facts@.len() ==> !(#[trigger] facts@[a0].fact_kind == V326LifecycleFactKind::ObjectFlow
                    && rv.contains(facts@[a0].fact_id@) && crate::v326_object_flow::flow_kind(facts@[a0]) == Some(k1@)
                    && #[trigger] facts@[b0].fact_kind == V326LifecycleFactKind::ObjectFlow && rv.contains(facts@[b0].fact_id@)
                    && crate::v326_object_flow::flow_kind(facts@[b0]) == Some(k2@) && !crate::v326_object_flow::blocked(
                    facts@[a0],
                    facts@[b0],
                    facts@,
                ) && crate::v326_object_flow::compatible_sequence(facts@[a0], facts@[b0], k1@, k2@)),
        decreases facts.len() - a,
    {
        let first = facts[a].fact_kind == V326LifecycleFactKind::ObjectFlow && crate::v326_chain_sets::holds_text(
            refs,
            &facts[a].fact_id,
        ) && flow_kind_is(&facts[a], &k1s);
        let mut b: usize = 0;
        while b < facts.len()
            invariant
                0 <= a < facts@.len(),
                0 <= b <= facts@.len(),
                k1s@ == k1@,
                k2s@ == k2@,
                rv == text_views(refs@),
                first == (facts@[a as int].fact_kind == V326LifecycleFactKind::ObjectFlow && rv.contains(facts@[a as int].fact_id@)
                    && crate::v326_object_flow::flow_kind(facts@[a as int]) == Some(k1@)),
                forall|b0: int|
                    0 <= b0 < b ==> !(first && #[trigger] facts@[b0].fact_kind == V326LifecycleFactKind::ObjectFlow && rv.contains(
                        facts@[b0].fact_id@,
                    ) && crate::v326_object_flow::flow_kind(facts@[b0]) == Some(k2@) && !crate::v326_object_flow::blocked(
                        facts@[a as int],
                        facts@[b0],
                        facts@,
                    ) && crate::v326_object_flow::compatible_sequence(facts@[a as int], facts@[b0], k1@, k2@)),
            decreases facts.len() - b,
        {
            if first && facts[b].fact_kind == V326LifecycleFactKind::ObjectFlow && crate::v326_chain_sets::holds_text(
                refs,
                &facts[b].fact_id,
            ) && flow_kind_is(&facts[b], &k2s) && !crate::v326_object_flow::object_flow_pair_blocked_by_barrier(
                &facts[a],
                &facts[b],
                facts,
            ) && crate::v326_object_flow::object_flow_facts_are_compatible_sequence(&facts[a], &facts[b], k1, k2) {
                assert(facts@[a as int].fact_kind == V326LifecycleFactKind::ObjectFlow);
                assert(facts@[b as int].fact_kind == V326LifecycleFactKind::ObjectFlow);
                return true;
            }
            b = b + 1;
        }
        a = a + 1;
    }
    false
}

fn object_flow_fact_refs_have_complete_chain(facts: &[V326LifecycleFactRecord], refs: &Vec<String>) -> (r: bool)
    ensures
        r == complete_flow_chain(facts@, text_views(refs@)),
{
    kind_pair_exec(facts, refs, "closure_capture", "field_load") || kind_pair_exec(facts, refs, "return_value", "argument")
        || kind_pair_exec(facts, refs, "field_store", "field_load") || kind_pair_exec(
        facts,
        refs,
        "wrapper_move",
        "wrapper_destructure",
    ) || kind_pair_exec(facts, refs, "collection_store", "collection_load")
}

fn some_fact_is_flow(facts: &[V326LifecycleFactRecord], id: &String) -> (r: bool)
    ensures
        r == is_flow_id(facts@, id@),
{
    let mut k: usize = 0;
    while k < facts.len()
        invariant
            0 <= k <= facts@.len(),
            forall|j: int|
                0 <= j < k ==> !(#[trigger] facts@[j].fact_id@ == id@ && facts@[j].fact_kind == V326LifecycleFactKind::ObjectFlow),
        decreases facts.len() - k,
    {
        if facts[k].fact_id == *id && facts[k].fact_kind == V326LifecycleFactKind::ObjectFlow {
            return true;
        }
        k = k + 1;
    }
    false
}

fn anchor_of(facts: &[V326LifecycleFactRecord], refs: &Vec<String>) -> (r: String)
    requires
        refs@.len() > 0,
    ensures
        r@ == anchor_ref(facts@, text_views(refs@), 0),
{
    let ghost rv = text_views(refs@);
    let mut w: usize = 0;
    while w < refs.len()
        invariant
            0 <= w <= refs@.len(),
            refs@.len() > 0,
            rv == text_views(refs@),
            anchor_ref(facts@, rv, 0) == anchor_ref(facts@, rv, w as int),
        decreases refs.len() - w,
    {
        if some_fact_is_flow(facts, &refs[w]) {
            return refs[w].clone();
        }
        w = w + 1;
    }
    refs[0].clone()
}

proof fn lemma_first_member(facts: Seq<V326LifecycleFactRecord>, key: Seq<char>, i: int, s: int)
    requires
        first_member_from(facts, key, i) == Some(s),
    ensures
        0 <= s < facts.len(),
        is_flow_member(facts[s]),
    decreases facts.len() - i,
{
    if i >= 0 && i < facts.len() && !(is_flow_member(facts[i]) && fact_objs(facts[i]).contains(key)) {
        lemma_first_member(facts, key, i + 1, s);
    }
}

fn append_component_chains(
    chains: &mut Vec<V326ObjectChain>,
    edges: &Vec<V326LifecycleGraphV3Edge>,
    facts: &[V326LifecycleFactRecord],
    mem: &Vec<bool>,
    amb: &Vec<String>,
    keys: &Vec<String>,
)
    requires
        chains_layers_hold(old(chains)@, facts@),
        mem@ == flow_members(facts@),
    ensures
        chains_layers_hold(final(chains)@, facts@),
        chain_views(final(chains)@) == chain_views(old(chains)@) + comp_state(
            edge3_views(edges@),
            facts@,
            text_views(amb@),
            text_views(keys@),
        ).1,
{
    let ghost start = chain_views(chains@);
    let ghost ev = edge3_views(edges@);
    let ghost kv = text_views(keys@);
    let ghost av = text_views(amb@);
    let mut visited: Vec<String> = Vec::new();
    assert(kv.take(0) =~= Seq::<Seq<char>>::empty());
    assert(text_views(visited@).to_set() =~= Set::<Seq<char>>::empty());
    assert(start + Seq::<ChainView>::empty() =~= start);
    let mut t: usize = 0;
    while t < keys.len()
        invariant
            0 <= t <= keys@.len(),
            mem@ == flow_members(facts@),
            ev == edge3_views(edges@),
            kv == text_views(keys@),
            av == text_views(amb@),
            text_views(visited@).to_set() == comp_state(ev, facts@, av, kv.take(t as int)).0,
            chains_layers_hold(chains@, facts@),
            chain_views(chains@) == start + comp_state(ev, facts@, av, kv.take(t as int)).1,
        decreases keys.len() - t,
    {
        assert(kv.take(t + 1).drop_last() =~= kv.take(t as int));
        assert(kv.take(t + 1).last() == keys@[t as int]@);
        let ghost st = comp_state(ev, facts@, av, kv.take(t as int));
        let ghost vbefore = text_views(visited@);
        assert(vbefore.contains(keys@[t as int]@) == vbefore.to_set().contains(keys@[t as int]@));
        if crate::v326_chain_sets::holds_text(&visited, &keys[t]) {
        } else {
            match first_member(facts, mem, &keys[t]) {
                None => {},
                Some(sidx) => {
                    proof {
                        lemma_first_member(facts@, keys@[t as int]@, 0, sidx as int);
                    }
                    assert(mem@[sidx as int]);
                    let comp = crate::v326_flow_components::flow_component(facts, mem, sidx);
                    let objs = component_objects(facts, mem, &comp, sidx);
                    push_all(&mut visited, &objs);
                    proof {
                        assert forall|x: Seq<char>| text_views(visited@).to_set().contains(x) == st.0.union(
                            comp_objs(facts@, sidx as int).to_set(),
                        ).contains(x) by {
                            crate::v326_chain_refs::lemma_concat_contains(vbefore, text_views(objs@), x);
                        }
                        assert(text_views(visited@).to_set() =~= st.0.union(comp_objs(facts@, sidx as int).to_set()));
                    }
                    let refs = component_refs(facts, mem, &comp, sidx, &objs);
                    if refs.len() > 0 {
                        let status = if objs.len() < 2 {
                            V326ObjectChainStatus::PartialChain
                        } else if shares_any(&refs, amb) {
                            V326ObjectChainStatus::AmbiguousChain
                        } else if object_flow_fact_refs_have_complete_chain(facts, &refs) {
                            V326ObjectChainStatus::VerifiedStaticChain
                        } else {
                            V326ObjectChainStatus::PartialChain
                        };
                        let anchor = anchor_of(facts, &refs);
                        let edge_ids = edge_ids_for_fact_refs(edges, &refs);
                        let evr = evidence_refs_for_fact_refs(facts, &refs);
                        let id = chain_id2(anchor.as_str(), "object_flow_component");
                        let ghost objs_v = text_views(objs@);
                        let ghost refs_v = text_views(refs@);
                        assert(status == comp_status(facts@, objs_v, refs_v, av));
                        push_chain(chains, id, objs, edge_ids, refs, evr, status, facts);
                    } else {
                        assert(start + st.1 + Seq::<ChainView>::empty() =~= start + st.1);
                    }
                },
            }
        }
        assert(chain_views(chains@) =~= start + comp_state(ev, facts@, av, kv.take(t + 1)).1);
        t = t + 1;
    }
    assert(kv.take(kv.len() as int) =~= kv);
}

/// The object-flow chains: a partial chain for each authoritative object flow without
/// endpoints, then one chain for each connected component of the endpoints of the others, in
/// order of its smallest object. Flows are connected through shared endpoints and through
/// compatible sequences that no barrier cuts. A component's chain refers to its flows and to the
/// authoritative facts of other kinds that name one of its objects; it is partial with fewer
/// than two objects, ambiguous when a flow's endpoint is ambiguous, verified when it holds a
/// complete flow pair, and partial otherwise.
fn append_object_flow_components(
    chains: &mut Vec<V326ObjectChain>,
    edges: &Vec<V326LifecycleGraphV3Edge>,
    facts: &[V326LifecycleFactRecord],
)
    requires
        chains_layers_hold(old(chains)@, facts@),
    ensures
        chains_layers_hold(final(chains)@, facts@),
        chain_views(final(chains)@) == chain_views(old(chains)@) + flow_chains(edge3_views(edges@), facts@),
{
    let ghost start = chain_views(chains@);
    let mem = flow_members_and_empty_chains(chains, edges, facts);
    let ghost mid = chain_views(chains@);
    let amb = ambiguous_flow_ids(facts, &mem);
    let keys = member_keys(facts, &mem);
    append_component_chains(chains, edges, facts, &mem, &amb, &keys);
    assert(chain_views(chains@) =~= start + flow_chains(edge3_views(edges@), facts@));
}

/// The ends of the edges, in order.
pub open spec fn edge_ends(edges: Seq<EdgeView>) -> Seq<Seq<char>>
    decreases edges.len(),
{
    if edges.len() == 0 {
        Seq::empty()
    } else {
        edge_ends(edges.drop_last()) + seq![edges.last().1, edges.last().2]
    }
}

/// The evidence references of the edges, in order.
pub open spec fn edge_evidence(edges: Seq<EdgeView>) -> Seq<Seq<char>>
    decreases edges.len(),
{
    if edges.len() == 0 {
        Seq::empty()
    } else {
        edge_evidence(edges.drop_last()) + edges.last().5
    }
}

/// The one chain of a graph whose facts build no chain: the ends of its edges, its edge ids,
/// no fact, and the evidence of its edges.
pub open spec fn observation_chain(edges: Seq<EdgeView>, facts: Seq<V326LifecycleFactRecord>) -> ChainView {
    chain_of(
        "chain:observation_only"@,
        sorted_of(edge_ends(edges).to_set()),
        edges.map_values(|e: EdgeView| e.0),
        Seq::empty(),
        sorted_of(edge_evidence(edges).to_set()),
        V326ObjectChainStatus::ObservationOnly,
        facts,
    )
}

fn observation_only_chain(chains: &mut Vec<V326ObjectChain>, edges: &Vec<V326LifecycleGraphV3Edge>, facts: &[V326LifecycleFactRecord])
    requires
        chains_layers_hold(old(chains)@, facts@),
    ensures
        chains_layers_hold(final(chains)@, facts@),
        chain_views(final(chains)@) == chain_views(old(chains)@).push(observation_chain(edge3_views(edges@), facts@)),
{
    let ghost ev = edge3_views(edges@);
    let mut objs: Vec<String> = Vec::new();
    let mut ids: Vec<String> = Vec::new();
    let mut evs: Vec<String> = Vec::new();
    let mut i: usize = 0;
    assert(ev.take(0) =~= Seq::<EdgeView>::empty());
    while i < edges.len()
        invariant
            0 <= i <= edges@.len(),
            ev == edge3_views(edges@),
            text_views(objs@) == edge_ends(ev.take(i as int)),
            text_views(ids@) == ev.take(i as int).map_values(|e: EdgeView| e.0),
            text_views(evs@) == edge_evidence(ev.take(i as int)),
        decreases edges.len() - i,
    {
        assert(ev.take(i + 1).drop_last() =~= ev.take(i as int));
        assert(ev.take(i + 1).last() == edge3_view(edges@[i as int]));
        let ghost o0 = text_views(objs@);
        let ghost i0 = text_views(ids@);
        objs.push(edges[i].from_object_id.clone());
        objs.push(edges[i].to_object_id.clone());
        assert(text_views(objs@) =~= o0 + seq![edges@[i as int].from_object_id@, edges@[i as int].to_object_id@]);
        ids.push(edges[i].edge_id.clone());
        assert(text_views(ids@) =~= i0.push(edges@[i as int].edge_id@));
        assert(ev.take(i + 1).map_values(|e: EdgeView| e.0) =~= ev.take(i as int).map_values(|e: EdgeView| e.0).push(
            edges@[i as int].edge_id@,
        ));
        push_all(&mut evs, &edges[i].evidence_refs);
        i = i + 1;
    }
    assert(ev.take(ev.len() as int) =~= ev);
    let none: Vec<String> = Vec::new();
    assert(text_views(none@) =~= Seq::<Seq<char>>::empty());
    push_chain(
        chains,
        owned("chain:observation_only"),
        ordered_set(objs),
        ids,
        none,
        ordered_set(evs),
        V326ObjectChainStatus::ObservationOnly,
        facts,
    );
}

/// Where a chain with the id goes among chains in order of id: after every chain whose id is
/// not greater.
pub open spec fn chain_insert_pos(s: Seq<ChainView>, id: Seq<char>) -> int
    decreases s.len(),
{
    if s.len() == 0 {
        0
    } else if text_lt(id, s[0].0) {
        0
    } else {
        1 + chain_insert_pos(s.drop_first(), id)
    }
}

/// The chains in order of id; chains with equal ids keep their order.
pub open spec fn sorted_chains(s: Seq<ChainView>) -> Seq<ChainView>
    decreases s.len(),
{
    if s.len() == 0 {
        Seq::empty()
    } else {
        let r = sorted_chains(s.drop_last());
        r.insert(chain_insert_pos(r, s.last().0), s.last())
    }
}

proof fn lemma_chain_insert_pos(s: Seq<ChainView>, id: Seq<char>, p: int)
    requires
        0 <= p <= s.len(),
        forall|k: int| 0 <= k < p ==> !text_lt(id, #[trigger] s[k].0),
        p == s.len() || text_lt(id, s[p].0),
    ensures
        chain_insert_pos(s, id) == p,
    decreases s.len(),
{
    if s.len() > 0 && p > 0 {
        assert(!text_lt(id, s[0].0));
        assert forall|k: int| 0 <= k < p - 1 implies !text_lt(id, #[trigger] s.drop_first()[k].0) by {
            assert(s.drop_first()[k] == s[k + 1]);
        }
        if p < s.len() {
            assert(s.drop_first()[p - 1] == s[p]);
        }
        lemma_chain_insert_pos(s.drop_first(), id, p - 1);
    }
}

/// The chains are in order of their ids.
pub open spec fn chains_in_id_order(chains: Seq<V326ObjectChain>) -> bool {
    forall|k: int| 0 <= k < chains.len() - 1 ==> text_le(#[trigger] chains[k].chain_id@, chains[k + 1].chain_id@)
}

/// The chains in order of their ids; chains with equal ids keep their order.
fn sort_chains_by_id(chains: Vec<V326ObjectChain>, Ghost(facts): Ghost<Seq<V326LifecycleFactRecord>>) -> (r: Vec<V326ObjectChain>)
    requires
        chains_layers_hold(chains@, facts),
    ensures
        chains_layers_hold(r@, facts),
        chains_in_id_order(r@),
        chain_views(r@) == sorted_chains(chain_views(chains@)),
{
    let ghost v0 = chain_views(chains@);
    let total = chains.len();
    let mut input = chains;
    let mut out: Vec<V326ObjectChain> = Vec::new();
    let mut k: usize = 0;
    assert(v0.take(0) =~= Seq::<ChainView>::empty());
    assert(chain_views(out@) =~= sorted_chains(v0.take(0)));
    assert(input@ =~= chains@.skip(0));
    while input.len() > 0
        invariant
            0 <= k <= v0.len(),
            k + input@.len() == v0.len(),
            v0.len() == total,
            v0 == chain_views(chains@),
            input@ == chains@.skip(k as int),
            chains_layers_hold(chains@, facts),
            chains_layers_hold(out@, facts),
            chains_in_id_order(out@),
            chain_views(out@) == sorted_chains(v0.take(k as int)),
        decreases input.len(),
    {
        let x = input.remove(0);
        assert(x == chains@[k as int]);
        assert(chain_layers_hold(x, facts));
        let mut p: usize = 0;
        while p < out.len() && !text_less(x.chain_id.as_str(), out[p].chain_id.as_str())
            invariant
                0 <= p <= out@.len(),
                forall|j: int| 0 <= j < p ==> !text_lt(x.chain_id@, #[trigger] out@[j].chain_id@),
            decreases out.len() - p,
        {
            p = p + 1;
        }
        let ghost before = out@;
        let ghost bv = chain_views(out@);
        proof {
            if p < out@.len() {
                assert(text_lt(x.chain_id@, out@[p as int].chain_id@));
                lemma_text_lt_asymmetric(x.chain_id@, out@[p as int].chain_id@);
            }
            assert forall|j: int| 0 <= j < p implies !text_lt(x.chain_id@, #[trigger] bv[j].0) by {
                assert(bv[j] == chain_view(before[j]));
            }
            if p < bv.len() {
                assert(bv[p as int] == chain_view(before[p as int]));
            }
            lemma_chain_insert_pos(bv, x.chain_id@, p as int);
        }
        out.insert(p, x);
        assert(v0.take(k + 1).drop_last() =~= v0.take(k as int));
        assert(v0.take(k + 1).last() == chain_view(x));
        assert(chain_views(out@) =~= bv.insert(p as int, chain_view(x)));
        assert forall|j: int| 0 <= j < out@.len() - 1 implies text_le(#[trigger] out@[j].chain_id@, out@[j + 1].chain_id@) by {
            if j + 1 < p {
                assert(out@[j] == before[j] && out@[j + 1] == before[j + 1]);
            } else if j + 1 == p {
                assert(out@[j] == before[j]);
            } else if j == p {
                assert(out@[j + 1] == before[j]);
            } else {
                assert(out@[j] == before[j - 1] && out@[j + 1] == before[j]);
            }
        }
        assert forall|j: int| 0 <= j < out@.len() implies chain_layers_hold(#[trigger] out@[j], facts) by {
            if j < p {
                assert(out@[j] == before[j]);
            } else if j > p {
                assert(out@[j] == before[j - 1]);
            }
        }
        k = k + 1;
        assert(input@ =~= chains@.skip(k as int));
    }
    assert(v0.take(k as int) =~= v0);
    out
}

/// The object chains of a graph with these edges and facts, before they are put in order: the
/// callback release, returned-borrow, external buffer and object-flow chains, or, when these are
/// none and there are edges, the observation-only chain.
pub open spec fn built_chains(edges: Seq<EdgeView>, facts: Seq<V326LifecycleFactRecord>) -> Seq<ChainView> {
    let n = facts.len() as int;
    let found = release_chains(edges, facts, n) + returned_chains(edges, facts, n) + external_chains(edges, facts, n)
        + flow_chains(edges, facts);
    if found.len() == 0 && edges.len() > 0 {
        seq![observation_chain(edges, facts)]
    } else {
        found
    }
}

/// The object chains of a graph with these edges and facts, in order of chain id.
pub open spec fn object_chains(edges: Seq<EdgeView>, facts: Seq<V326LifecycleFactRecord>) -> Seq<ChainView> {
    sorted_chains(built_chains(edges, facts))
}

/// The object chains of a graph from its edges and chain facts: callback release chains,
/// returned-borrow view chains, external buffer bindings and object-flow components, or the
/// observation-only chain when these are none and the graph has edges; in order of chain id.
pub fn build_v3_2_6_object_chains(edges: &Vec<V326LifecycleGraphV3Edge>, facts: &[V326LifecycleFactRecord]) -> (r: Vec<
    V326ObjectChain,
>)
    ensures
        chain_views(r@) == object_chains(edge3_views(edges@), facts@),
        chains_layers_hold(r@, facts@),
        chains_in_id_order(r@),
{
    let mut chains: Vec<V326ObjectChain> = Vec::new();
    assert(chain_views(chains@) =~= Seq::<ChainView>::empty());
    append_callback_release_object_chains(&mut chains, edges, facts);
    append_returned_borrow_object_chains(&mut chains, edges, facts);
    append_external_buffer_object_chains(&mut chains, edges, facts);
    append_object_flow_components(&mut chains, edges, facts);
    assert(chain_views(chains@) =~= release_chains(edge3_views(edges@), facts@, facts@.len() as int) + returned_chains(
        edge3_views(edges@),
        facts@,
        facts@.len() as int,
    ) + external_chains(edge3_views(edges@), facts@, facts@.len() as int) + flow_chains(edge3_views(edges@), facts@));
    if chains.len() == 0 && edges.len() > 0 {
        observation_only_chain(&mut chains, edges, facts);
        assert(chain_views(chains@) =~= seq![observation_chain(edge3_views(edges@), facts@)]);
    }
    sort_chains_by_id(chains, Ghost(facts@))
}

} // verus!
