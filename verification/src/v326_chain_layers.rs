//! The layers of an object chain: which of identity transport, release ordering, use ordering,
//! lifecycle ordering and a complete risk chain its facts verify, and which it still misses.

use vstd::prelude::*;

use crate::lifecycle_v326::{
    V326LifecycleFactKind, V326LifecycleFactRecord, V326LifecycleGraphV3Edge, V326ObjectChain, V326ObjectChainLayer,
    V326ObjectChainStatus,
};
use crate::text::{owned, sorted_unique_texts, text_views, texts_strictly_sorted};

verus! {

/// Some fact with the id has one of the kinds.
pub open spec fn ref_has_kind(facts: Seq<V326LifecycleFactRecord>, r: Seq<char>, kinds: Seq<V326LifecycleFactKind>) -> bool {
    exists|i: int| 0 <= i < facts.len() && (#[trigger] facts[i]).fact_id@ == r && kinds.contains(facts[i].fact_kind)
}

/// Some fact reference names a fact of one of the kinds.
pub open spec fn refs_have_kind(
    refs: Seq<Seq<char>>,
    facts: Seq<V326LifecycleFactRecord>,
    kinds: Seq<V326LifecycleFactKind>,
) -> bool {
    exists|k: int| 0 <= k < refs.len() && ref_has_kind(facts, #[trigger] refs[k], kinds)
}

/// The object ids of a callback release/use order whose order was proven: the release before
/// the callback use, or the callback use before the release. An unknown order proves nothing.
pub open spec fn is_proven_use_order_id(id: Seq<char>) -> bool {
    id == "callback_release_use_order:release_before_callback_use"@ || id
        == "callback_release_use_order:callback_use_before_release"@
}

/// The reference names a callback release/use order fact whose order was proven.
pub open spec fn ref_is_proven_use_order(facts: Seq<V326LifecycleFactRecord>, r: Seq<char>) -> bool {
    exists|i: int|
        0 <= i < facts.len() && (#[trigger] facts[i]).fact_id@ == r && facts[i].fact_kind
            == V326LifecycleFactKind::CallbackReleaseUseOrder && exists|j: int|
            0 <= j < facts[i].object_ids@.len() && is_proven_use_order_id((#[trigger] facts[i].object_ids@[j])@)
}

/// A release ordering is proven: some reference names a release-path proof.
pub open spec fn has_release_ordering(refs: Seq<Seq<char>>, facts: Seq<V326LifecycleFactRecord>) -> bool {
    refs_have_kind(refs, facts, seq![V326LifecycleFactKind::ReleasePathProof])
}

/// A use ordering is proven, and with it the complete risk chain: some reference names a
/// proven callback release/use order or a returned-borrow invalidation order.
pub open spec fn has_use_ordering(refs: Seq<Seq<char>>, facts: Seq<V326LifecycleFactRecord>) -> bool {
    exists|k: int|
        0 <= k < refs.len() && (ref_is_proven_use_order(facts, #[trigger] refs[k]) || ref_has_kind(
            facts,
            refs[k],
            seq![V326LifecycleFactKind::ReturnedBorrowInvalidationOrder],
        ))
}

/// The kinds whose presence asks for a release ordering.
pub open spec fn release_kinds() -> Seq<V326LifecycleFactKind> {
    seq![
        V326LifecycleFactKind::RegisterCall,
        V326LifecycleFactKind::ReleaseCall,
        V326LifecycleFactKind::ReleasePathProof,
    ]
}

/// The kinds whose presence asks for a use ordering.
pub open spec fn use_kinds() -> Seq<V326LifecycleFactKind> {
    seq![
        V326LifecycleFactKind::CallbackUserDataReconstruction,
        V326LifecycleFactKind::ReturnedBorrowRelation,
        V326LifecycleFactKind::PersistedReturnedBorrow,
        V326LifecycleFactKind::ExternalBufferBinding,
    ]
}

/// The kinds whose presence asks for a lifecycle ordering.
pub open spec fn lifecycle_kinds() -> Seq<V326LifecycleFactKind> {
    release_kinds() + use_kinds()
}

/// The kinds whose presence asks for a complete risk chain.
pub open spec fn risk_kinds() -> Seq<V326LifecycleFactKind> {
    seq![V326LifecycleFactKind::ReleasePathProof] + use_kinds()
}

/// The layer, if the condition holds.
pub open spec fn layer_if(c: bool, l: V326ObjectChainLayer) -> Seq<V326ObjectChainLayer> {
    if c {
        seq![l]
    } else {
        seq![]
    }
}

/// The layers a chain verifies, in layer order: none for observation-only or ambiguous chains;
/// otherwise identity transport where it links two objects through a fact, the release and use
/// orderings its facts prove, lifecycle ordering with either, and a complete risk chain with a
/// proven use ordering.
pub open spec fn verified_layers(
    status: V326ObjectChainStatus,
    object_count: int,
    refs: Seq<Seq<char>>,
    facts: Seq<V326LifecycleFactRecord>,
) -> Seq<V326ObjectChainLayer> {
    if status == V326ObjectChainStatus::ObservationOnly || status == V326ObjectChainStatus::AmbiguousChain {
        seq![]
    } else {
        let rel = has_release_ordering(refs, facts);
        let usage = has_use_ordering(refs, facts);
        layer_if(object_count >= 2 && refs.len() > 0, V326ObjectChainLayer::IdentityTransport) + layer_if(
            rel,
            V326ObjectChainLayer::ReleaseOrdering,
        ) + layer_if(usage, V326ObjectChainLayer::UseOrdering) + layer_if(
            rel || usage,
            V326ObjectChainLayer::LifecycleOrdering,
        ) + layer_if(usage, V326ObjectChainLayer::CompleteRiskChain)
    }
}

/// The layers a chain misses, in layer order: identity transport alone for observation-only or
/// ambiguous chains; otherwise each layer it does not verify that its facts ask for, identity
/// transport always.
pub open spec fn missing_layers(
    status: V326ObjectChainStatus,
    verified: Seq<V326ObjectChainLayer>,
    refs: Seq<Seq<char>>,
    facts: Seq<V326LifecycleFactRecord>,
) -> Seq<V326ObjectChainLayer> {
    if status == V326ObjectChainStatus::ObservationOnly || status == V326ObjectChainStatus::AmbiguousChain {
        seq![V326ObjectChainLayer::IdentityTransport]
    } else {
        layer_if(
            !verified.contains(V326ObjectChainLayer::IdentityTransport),
            V326ObjectChainLayer::IdentityTransport,
        ) + layer_if(
            refs_have_kind(refs, facts, release_kinds()) && !verified.contains(V326ObjectChainLayer::ReleaseOrdering),
            V326ObjectChainLayer::ReleaseOrdering,
        ) + layer_if(
            refs_have_kind(refs, facts, use_kinds()) && !verified.contains(V326ObjectChainLayer::UseOrdering),
            V326ObjectChainLayer::UseOrdering,
        ) + layer_if(
            refs_have_kind(refs, facts, lifecycle_kinds()) && !verified.contains(
                V326ObjectChainLayer::LifecycleOrdering,
            ),
            V326ObjectChainLayer::LifecycleOrdering,
        ) + layer_if(
            refs_have_kind(refs, facts, risk_kinds()) && !verified.contains(V326ObjectChainLayer::CompleteRiskChain),
            V326ObjectChainLayer::CompleteRiskChain,
        )
    }
}

fn kinds_contain(kinds: &Vec<V326LifecycleFactKind>, k: V326LifecycleFactKind) -> (b: bool)
    ensures
        b == kinds@.contains(k),
{
    let mut i: usize = 0;
    while i < kinds.len()
        invariant
            0 <= i <= kinds@.len(),
            forall|q: int| 0 <= q < i ==> kinds@[q] != k,
        decreases kinds.len() - i,
    {
        if kinds[i] == k {
            return true;
        }
        i = i + 1;
    }
    false
}

/// Whether some fact with the id has one of the kinds.
pub fn fact_ref_contains_kind(facts: &[V326LifecycleFactRecord], fact_ref: &str, kinds: &Vec<V326LifecycleFactKind>) -> (b:
    bool)
    ensures
        b == ref_has_kind(facts@, fact_ref@, kinds@),
{
    let r = owned(fact_ref);
    let mut i: usize = 0;
    while i < facts.len()
        invariant
            r@ == fact_ref@,
            0 <= i <= facts@.len(),
            forall|q: int| 0 <= q < i ==> !((#[trigger] facts@[q]).fact_id@ == fact_ref@ && kinds@.contains(facts@[q].fact_kind)),
        decreases facts.len() - i,
    {
        if facts[i].fact_id == r && kinds_contain(kinds, facts[i].fact_kind) {
            return true;
        }
        i = i + 1;
    }
    false
}

fn any_proven_use_order_id(ids: &Vec<String>) -> (b: bool)
    ensures
        b == exists|j: int| 0 <= j < ids@.len() && is_proven_use_order_id((#[trigger] ids@[j])@),
{
    let a = owned("callback_release_use_order:release_before_callback_use");
    let c = owned("callback_release_use_order:callback_use_before_release");
    let mut j: usize = 0;
    while j < ids.len()
        invariant
            a@ == "callback_release_use_order:release_before_callback_use"@,
            c@ == "callback_release_use_order:callback_use_before_release"@,
            0 <= j <= ids@.len(),
            forall|q: int| 0 <= q < j ==> !is_proven_use_order_id((#[trigger] ids@[q])@),
        decreases ids.len() - j,
    {
        if ids[j] == a || ids[j] == c {
            return true;
        }
        j = j + 1;
    }
    false
}

/// Whether the reference names a callback release/use order fact whose order was proven.
pub fn fact_ref_contains_proven_callback_release_use_order(facts: &[V326LifecycleFactRecord], fact_ref: &str) -> (b:
    bool)
    ensures
        b == ref_is_proven_use_order(facts@, fact_ref@),
{
    let r = owned(fact_ref);
    let mut i: usize = 0;
    while i < facts.len()
        invariant
            r@ == fact_ref@,
            0 <= i <= facts@.len(),
            forall|q: int|
                0 <= q < i ==> !((#[trigger] facts@[q]).fact_id@ == fact_ref@ && facts@[q].fact_kind
                    == V326LifecycleFactKind::CallbackReleaseUseOrder && exists|j: int|
                    0 <= j < facts@[q].object_ids@.len() && is_proven_use_order_id(
                        (#[trigger] facts@[q].object_ids@[j])@,
                    )),
        decreases facts.len() - i,
    {
        let f = &facts[i];
        if f.fact_id == r && f.fact_kind == V326LifecycleFactKind::CallbackReleaseUseOrder && any_proven_use_order_id(
            &f.object_ids,
        ) {
            return true;
        }
        i = i + 1;
    }
    false
}

fn any_ref_has_kind(refs: &Vec<String>, facts: &[V326LifecycleFactRecord], kinds: &Vec<V326LifecycleFactKind>) -> (b:
    bool)
    ensures
        b == refs_have_kind(text_views(refs@), facts@, kinds@),
{
    let ghost v = text_views(refs@);
    let mut k: usize = 0;
    while k < refs.len()
        invariant
            v == text_views(refs@),
            0 <= k <= v.len(),
            forall|q: int| 0 <= q < k ==> !ref_has_kind(facts@, #[trigger] v[q], kinds@),
        decreases refs.len() - k,
    {
        if fact_ref_contains_kind(facts, refs[k].as_str(), kinds) {
            assert(ref_has_kind(facts@, v[k as int], kinds@));
            return true;
        }
        k = k + 1;
    }
    false
}

fn any_ref_has_use_ordering(refs: &Vec<String>, facts: &[V326LifecycleFactRecord]) -> (b: bool)
    ensures
        b == has_use_ordering(text_views(refs@), facts@),
{
    let ghost v = text_views(refs@);
    let mut order: Vec<V326LifecycleFactKind> = Vec::new();
    order.push(V326LifecycleFactKind::ReturnedBorrowInvalidationOrder);
    assert(order@ =~= seq![V326LifecycleFactKind::ReturnedBorrowInvalidationOrder]);
    let mut k: usize = 0;
    while k < refs.len()
        invariant
            v == text_views(refs@),
            order@ == seq![V326LifecycleFactKind::ReturnedBorrowInvalidationOrder],
            0 <= k <= v.len(),
            forall|q: int|
                0 <= q < k ==> !(ref_is_proven_use_order(facts@, #[trigger] v[q]) || ref_has_kind(
                    facts@,
                    v[q],
                    seq![V326LifecycleFactKind::ReturnedBorrowInvalidationOrder],
                )),
        decreases refs.len() - k,
    {
        if fact_ref_contains_proven_callback_release_use_order(facts, refs[k].as_str()) || fact_ref_contains_kind(
            facts,
            refs[k].as_str(),
            &order,
        ) {
            assert(v[k as int] == refs@[k as int]@);
            return true;
        }
        k = k + 1;
    }
    false
}

fn kinds_of(a: &[V326LifecycleFactKind]) -> (v: Vec<V326LifecycleFactKind>)
    ensures
        v@ == a@,
{
    let mut v: Vec<V326LifecycleFactKind> = Vec::new();
    let mut i: usize = 0;
    while i < a.len()
        invariant
            0 <= i <= a@.len(),
            v@ == a@.take(i as int),
        decreases a.len() - i,
    {
        v.push(a[i]);
        assert(a@.take(i + 1) =~= a@.take(i as int).push(a@[i as int]));
        i = i + 1;
    }
    assert(a@.take(a@.len() as int) =~= a@);
    v
}

fn push_layer_if(v: &mut Vec<V326ObjectChainLayer>, c: bool, l: V326ObjectChainLayer)
    ensures
        final(v)@ == old(v)@ + layer_if(c, l),
{
    if c {
        v.push(l);
    }
    assert(v@ =~= old(v)@ + layer_if(c, l));
}

/// The layers a chain verifies.
pub fn object_chain_verified_layers(
    status: V326ObjectChainStatus,
    object_ids: &Vec<String>,
    fact_refs: &Vec<String>,
    facts: &[V326LifecycleFactRecord],
) -> (r: Vec<V326ObjectChainLayer>)
    ensures
        r@ == verified_layers(status, object_ids@.len() as int, text_views(fact_refs@), facts@),
{
    let mut v: Vec<V326ObjectChainLayer> = Vec::new();
    match status {
        V326ObjectChainStatus::ObservationOnly | V326ObjectChainStatus::AmbiguousChain => {
            assert(v@ =~= seq![]);
            return v;
        },
        _ => {},
    }
    let proof_kinds = kinds_of(&[V326LifecycleFactKind::ReleasePathProof]);
    assert(proof_kinds@ =~= seq![V326LifecycleFactKind::ReleasePathProof]);
    let rel = any_ref_has_kind(fact_refs, facts, &proof_kinds);
    let usage = any_ref_has_use_ordering(fact_refs, facts);
    assert(v@ =~= seq![]);
    push_layer_if(&mut v, object_ids.len() >= 2 && fact_refs.len() > 0, V326ObjectChainLayer::IdentityTransport);
    push_layer_if(&mut v, rel, V326ObjectChainLayer::ReleaseOrdering);
    push_layer_if(&mut v, usage, V326ObjectChainLayer::UseOrdering);
    push_layer_if(&mut v, rel || usage, V326ObjectChainLayer::LifecycleOrdering);
    push_layer_if(&mut v, usage, V326ObjectChainLayer::CompleteRiskChain);
    assert(v@ =~= verified_layers(status, object_ids@.len() as int, text_views(fact_refs@), facts@));
    v
}

fn layers_contain(v: &Vec<V326ObjectChainLayer>, l: V326ObjectChainLayer) -> (b: bool)
    ensures
        b == v@.contains(l),
{
    let mut i: usize = 0;
    while i < v.len()
        invariant
            0 <= i <= v@.len(),
            forall|q: int| 0 <= q < i ==> v@[q] != l,
        decreases v.len() - i,
    {
        if v[i] == l {
            return true;
        }
        i = i + 1;
    }
    false
}

/// The layers a chain misses.
pub fn object_chain_missing_layers(
    status: V326ObjectChainStatus,
    verified: &Vec<V326ObjectChainLayer>,
    fact_refs: &Vec<String>,
    facts: &[V326LifecycleFactRecord],
) -> (r: Vec<V326ObjectChainLayer>)
    ensures
        r@ == missing_layers(status, verified@, text_views(fact_refs@), facts@),
{
    let mut v: Vec<V326ObjectChainLayer> = Vec::new();
    match status {
        V326ObjectChainStatus::ObservationOnly | V326ObjectChainStatus::AmbiguousChain => {
            v.push(V326ObjectChainLayer::IdentityTransport);
            assert(v@ =~= seq![V326ObjectChainLayer::IdentityTransport]);
            return v;
        },
        _ => {},
    }
    let release = kinds_of(&[V326LifecycleFactKind::RegisterCall, V326LifecycleFactKind::ReleaseCall, V326LifecycleFactKind::ReleasePathProof]);
    let usage = kinds_of(
        &[
            V326LifecycleFactKind::CallbackUserDataReconstruction,
            V326LifecycleFactKind::ReturnedBorrowRelation,
            V326LifecycleFactKind::PersistedReturnedBorrow,
            V326LifecycleFactKind::ExternalBufferBinding,
        ],
    );
    let lifecycle = kinds_of(
        &[
            V326LifecycleFactKind::RegisterCall,
            V326LifecycleFactKind::ReleaseCall,
            V326LifecycleFactKind::ReleasePathProof,
            V326LifecycleFactKind::CallbackUserDataReconstruction,
            V326LifecycleFactKind::ReturnedBorrowRelation,
            V326LifecycleFactKind::PersistedReturnedBorrow,
            V326LifecycleFactKind::ExternalBufferBinding,
        ],
    );
    let risk = kinds_of(
        &[
            V326LifecycleFactKind::ReleasePathProof,
            V326LifecycleFactKind::CallbackUserDataReconstruction,
            V326LifecycleFactKind::ReturnedBorrowRelation,
            V326LifecycleFactKind::PersistedReturnedBorrow,
            V326LifecycleFactKind::ExternalBufferBinding,
        ],
    );
    assert(release@ =~= release_kinds());
    assert(usage@ =~= use_kinds());
    assert(lifecycle@ =~= lifecycle_kinds());
    assert(risk@ =~= risk_kinds());
    assert(v@ =~= seq![]);
    push_layer_if(
        &mut v,
        !layers_contain(verified, V326ObjectChainLayer::IdentityTransport),
        V326ObjectChainLayer::IdentityTransport,
    );
    let c = any_ref_has_kind(fact_refs, facts, &release) && !layers_contain(verified, V326ObjectChainLayer::ReleaseOrdering);
    push_layer_if(&mut v, c, V326ObjectChainLayer::ReleaseOrdering);
    let c = any_ref_has_kind(fact_refs, facts, &usage) && !layers_contain(verified, V326ObjectChainLayer::UseOrdering);
    push_layer_if(&mut v, c, V326ObjectChainLayer::UseOrdering);
    let c = any_ref_has_kind(fact_refs, facts, &lifecycle) && !layers_contain(
        verified,
        V326ObjectChainLayer::LifecycleOrdering,
    );
    push_layer_if(&mut v, c, V326ObjectChainLayer::LifecycleOrdering);
    let c = any_ref_has_kind(fact_refs, facts, &risk) && !layers_contain(verified, V326ObjectChainLayer::CompleteRiskChain);
    push_layer_if(&mut v, c, V326ObjectChainLayer::CompleteRiskChain);
    v
}

/// A chain with its verified and missing layers worked out from its status and facts.
pub fn object_chain_record(
    chain_id: String,
    object_ids: Vec<String>,
    edge_ids: Vec<String>,
    fact_refs: Vec<String>,
    evidence_refs: Vec<String>,
    chain_status: V326ObjectChainStatus,
    facts: &[V326LifecycleFactRecord],
) -> (c: V326ObjectChain)
    ensures
        c.chain_id == chain_id,
        c.object_ids == object_ids,
        c.edge_ids == edge_ids,
        c.fact_refs == fact_refs,
        c.evidence_refs == evidence_refs,
        c.chain_status == chain_status,
        c.verified_layers@ == verified_layers(chain_status, object_ids@.len() as int, text_views(fact_refs@), facts@),
        c.missing_layers@ == missing_layers(chain_status, c.verified_layers@, text_views(fact_refs@), facts@),
{
    let verified_layers = object_chain_verified_layers(chain_status, &object_ids, &fact_refs, facts);
    let missing_layers = object_chain_missing_layers(chain_status, &verified_layers, &fact_refs, facts);
    V326ObjectChain {
        chain_id,
        object_ids,
        edge_ids,
        fact_refs,
        evidence_refs,
        verified_layers,
        missing_layers,
        chain_status,
    }
}

/// A use-order record whose order stayed unknown proves no ordering: where no fact reference
/// names a release-path proof, a returned-borrow invalidation order or a callback release/use
/// order whose order was proven, a chain verifies neither an ordering nor a complete risk chain.
pub proof fn law_unknown_orders_light_no_ordering(
    status: V326ObjectChainStatus,
    object_count: int,
    refs: Seq<Seq<char>>,
    facts: Seq<V326LifecycleFactRecord>,
)
    requires
        !has_release_ordering(refs, facts),
        forall|k: int| 0 <= k < refs.len() ==> !ref_is_proven_use_order(facts, #[trigger] refs[k]),
        !refs_have_kind(refs, facts, seq![V326LifecycleFactKind::ReturnedBorrowInvalidationOrder]),
    ensures
        !verified_layers(status, object_count, refs, facts).contains(V326ObjectChainLayer::ReleaseOrdering),
        !verified_layers(status, object_count, refs, facts).contains(V326ObjectChainLayer::UseOrdering),
        !verified_layers(status, object_count, refs, facts).contains(V326ObjectChainLayer::LifecycleOrdering),
        !verified_layers(status, object_count, refs, facts).contains(V326ObjectChainLayer::CompleteRiskChain),
{
    assert(!has_use_ordering(refs, facts)) by {
        if has_use_ordering(refs, facts) {
            let k = choose|k: int|
                0 <= k < refs.len() && (ref_is_proven_use_order(facts, #[trigger] refs[k]) || ref_has_kind(
                    facts,
                    refs[k],
                    seq![V326LifecycleFactKind::ReturnedBorrowInvalidationOrder],
                ));
            assert(!ref_is_proven_use_order(facts, refs[k]));
            assert(refs_have_kind(refs, facts, seq![V326LifecycleFactKind::ReturnedBorrowInvalidationOrder]));
        }
    }
    let v = verified_layers(status, object_count, refs, facts);
    if !(status == V326ObjectChainStatus::ObservationOnly || status == V326ObjectChainStatus::AmbiguousChain) {
        assert(v =~= layer_if(object_count >= 2 && refs.len() > 0, V326ObjectChainLayer::IdentityTransport));
    }
}

} // verus!
