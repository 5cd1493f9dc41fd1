//! Which lifecycle facts are authoritative object bindings, and whether a release-path proof
//! releases the very object that a registration handed over.

use vstd::prelude::*;

use crate::lifecycle_v326::{
    V326EvidenceConfidence, V326LifecycleEvidenceRecord, V326LifecycleFactKind, V326LifecycleFactRecord,
};
use crate::text::{ascii_lower, char_ascii_lower, chars_of, text_views};
use crate::v326_fact_edges::{first_object_with_prefix, first_with_prefix, opt_view};

verus! {

/// A fact that binds objects with authority: not an object-binding gap, of high confidence,
/// and read off a static artifact that was verified.
pub open spec fn is_authoritative_binding(f: V326LifecycleFactRecord) -> bool {
    f.fact_kind != V326LifecycleFactKind::ObjectBindingGap && f.confidence == V326EvidenceConfidence::High
        && f.provenance.is_verified_static_artifact()
}

/// Whether the fact binds objects with authority.
pub fn is_authoritative_object_binding_fact(f: &V326LifecycleFactRecord) -> (b: bool)
    ensures
        b == is_authoritative_binding(*f),
{
    let gap = match f.fact_kind {
        V326LifecycleFactKind::ObjectBindingGap => true,
        _ => false,
    };
    let high = match f.confidence {
        V326EvidenceConfidence::High => true,
        _ => false,
    };
    !gap && high && f.provenance.is_verified()
}

/// The text starts with the prefix when ASCII letters are compared in lower case.
pub open spec fn lower_has_prefix(s: Seq<char>, p: Seq<char>) -> bool {
    p.len() <= s.len() && forall|i: int| 0 <= i < p.len() ==> ascii_lower(#[trigger] s[i]) == p[i]
}

pub(crate) fn lower_starts_with(s: &str, p: &str) -> (b: bool)
    ensures
        b == lower_has_prefix(s@, p@),
{
    let x = chars_of(s);
    let y = chars_of(p);
    if y.len() > x.len() {
        return false;
    }
    let mut i: usize = 0;
    while i < y.len()
        invariant
            x@ == s@,
            y@ == p@,
            y@.len() <= x@.len(),
            0 <= i <= y@.len(),
            forall|k: int| 0 <= k < i ==> ascii_lower(#[trigger] x@[k]) == y@[k],
        decreases y.len() - i,
    {
        if char_ascii_lower(x[i]) != y[i] {
            return false;
        }
        i = i + 1;
    }
    true
}

/// An object id of user data: it starts with `user_data:` or `userdata:`, in any ASCII case.
pub open spec fn is_user_data_id(id: Seq<char>) -> bool {
    lower_has_prefix(id, "user_data:"@) || lower_has_prefix(id, "userdata:"@)
}

/// The user-data object ids among the ids, in order.
pub open spec fn user_data_ids(ids: Seq<Seq<char>>) -> Seq<Seq<char>>
    decreases ids.len(),
{
    if ids.len() == 0 {
        seq![]
    } else if is_user_data_id(ids.last()) {
        user_data_ids(ids.drop_last()).push(ids.last())
    } else {
        user_data_ids(ids.drop_last())
    }
}

/// The user-data object ids of the fact, in order.
pub fn fact_user_data_object_ids(f: &V326LifecycleFactRecord) -> (r: Vec<String>)
    ensures
        text_views(r@) == user_data_ids(text_views(f.object_ids@)),
{
    let ghost v = text_views(f.object_ids@);
    let mut out: Vec<String> = Vec::new();
    let mut i: usize = 0;
    while i < f.object_ids.len()
        invariant
            v == text_views(f.object_ids@),
            0 <= i <= v.len(),
            text_views(out@) == user_data_ids(v.take(i as int)),
        decreases f.object_ids.len() - i,
    {
        let ghost before = text_views(out@);
        assert(v.take(i + 1).drop_last() =~= v.take(i as int));
        assert(v.take(i + 1).last() == v[i as int]);
        proof {
            reveal_strlit("user_data:");
            reveal_strlit("userdata:");
        }
        if lower_starts_with(f.object_ids[i].as_str(), "user_data:") || lower_starts_with(
            f.object_ids[i].as_str(),
            "userdata:",
        ) {
            out.push(f.object_ids[i].clone());
            assert(text_views(out@) =~= before.push(v[i as int]));
        }
        i = i + 1;
    }
    assert(v.take(v.len() as int) =~= v);
    out
}

/// The registration site a release-path proof names: its first static site.
pub open spec fn proof_registration_site(f: V326LifecycleFactRecord) -> Option<Seq<char>> {
    if f.fact_kind == V326LifecycleFactKind::ReleasePathProof {
        first_with_prefix(text_views(f.object_ids@), "static_site:"@)
    } else {
        None
    }
}

/// The static site of a register call: its first static site.
pub open spec fn register_site(f: V326LifecycleFactRecord) -> Option<Seq<char>> {
    if f.fact_kind == V326LifecycleFactKind::RegisterCall {
        first_with_prefix(text_views(f.object_ids@), "static_site:"@)
    } else {
        None
    }
}

/// The registration site a release-path proof names, if it is one and names one.
pub fn release_path_proof_registration_static_site(f: &V326LifecycleFactRecord) -> (r: Option<String>)
    ensures
        opt_view(r) == proof_registration_site(*f),
{
    match f.fact_kind {
        V326LifecycleFactKind::ReleasePathProof => first_object_with_prefix(&f.object_ids, "static_site:"),
        _ => None,
    }
}

/// The static site of a register call, if it is one and has one.
pub fn registration_fact_static_site(f: &V326LifecycleFactRecord) -> (r: Option<String>)
    ensures
        opt_view(r) == register_site(*f),
{
    match f.fact_kind {
        V326LifecycleFactKind::RegisterCall => first_object_with_prefix(&f.object_ids, "static_site:"),
        _ => None,
    }
}

/// A release-path proof matches a register call: both are authoritative bindings, the proof's
/// registration site is the call's static site, and they share a user-data object.
pub open spec fn proof_matches_register(proof: V326LifecycleFactRecord, register: V326LifecycleFactRecord) -> bool {
    let pu = user_data_ids(text_views(proof.object_ids@));
    let ru = user_data_ids(text_views(register.object_ids@));
    &&& proof.fact_kind == V326LifecycleFactKind::ReleasePathProof
    &&& register.fact_kind == V326LifecycleFactKind::RegisterCall
    &&& is_authoritative_binding(proof)
    &&& is_authoritative_binding(register)
    &&& proof_registration_site(proof) is Some
    &&& proof_registration_site(proof) == register_site(register)
    &&& pu.len() > 0
    &&& exists|k: int| 0 <= k < ru.len() && pu.contains(#[trigger] ru[k])
}

pub(crate) fn shares_text(a: &Vec<String>, b: &Vec<String>) -> (r: bool)
    ensures
        r == exists|k: int| 0 <= k < text_views(b@).len() && text_views(a@).contains(#[trigger] text_views(b@)[k]),
{
    let ghost av = text_views(a@);
    let ghost bv = text_views(b@);
    let mut k: usize = 0;
    while k < b.len()
        invariant
            av == text_views(a@),
            bv == text_views(b@),
            0 <= k <= bv.len(),
            forall|q: int| 0 <= q < k ==> !av.contains(#[trigger] bv[q]),
        decreases b.len() - k,
    {
        if crate::checks::contains_text(a, &b[k]) {
            proof {
                let w = choose|w: int| 0 <= w < a@.len() && (#[trigger] a@[w])@ == b@[k as int]@;
                assert(av[w] == bv[k as int]);
            }
            return true;
        }
        proof {
            if av.contains(bv[k as int]) {
                let w = choose|w: int| 0 <= w < av.len() && av[w] == bv[k as int];
                assert(a@[w]@ == b@[k as int]@);
            }
        }
        k = k + 1;
    }
    false
}

/// Whether the release-path proof matches the register call.
pub fn release_path_proof_matches_register(proof: &V326LifecycleFactRecord, register: &V326LifecycleFactRecord) -> (b:
    bool)
    ensures
        b == proof_matches_register(*proof, *register),
{
    let kinds = match (proof.fact_kind, register.fact_kind) {
        (V326LifecycleFactKind::ReleasePathProof, V326LifecycleFactKind::RegisterCall) => true,
        _ => false,
    };
    if !kinds || !is_authoritative_object_binding_fact(proof) || !is_authoritative_object_binding_fact(register) {
        return false;
    }
    let proof_site = match release_path_proof_registration_static_site(proof) {
        Some(s) => s,
        None => {
            return false;
        },
    };
    let site = match registration_fact_static_site(register) {
        Some(s) => s,
        None => {
            return false;
        },
    };
    if proof_site != site {
        return false;
    }
    let proof_user_data = fact_user_data_object_ids(proof);
    proof_user_data.len() > 0 && shares_text(&proof_user_data, &fact_user_data_object_ids(register))
}

/// Some authoritative release-path proof among the facts matches a register call among them.
pub open spec fn release_covers_object(facts: Seq<V326LifecycleFactRecord>) -> bool {
    exists|i: int, j: int|
        0 <= i < facts.len() && 0 <= j < facts.len() && proof_matches_register(
            #[trigger] facts[i],
            #[trigger] facts[j],
        )
}

/// Whether a release-path proof among the facts releases the object that a register call among
/// them handed over. The evidence plays no part.
pub fn release_covers_same_lifecycle_object(
    _evidence: &[V326LifecycleEvidenceRecord],
    facts: &[V326LifecycleFactRecord],
) -> (b: bool)
    ensures
        b == release_covers_object(facts@),
{
    let mut i: usize = 0;
    while i < facts.len()
        invariant
            0 <= i <= facts@.len(),
            forall|a: int, c: int|
                0 <= a < i && 0 <= c < facts@.len() ==> !proof_matches_register(#[trigger] facts@[a], #[trigger] facts@[c]),
        decreases facts.len() - i,
    {
        let mut j: usize = 0;
        while j < facts.len()
            invariant
                0 <= i < facts@.len(),
                0 <= j <= facts@.len(),
                forall|a: int, c: int|
                    0 <= a < i && 0 <= c < facts@.len() ==> !proof_matches_register(#[trigger] facts@[a], #[trigger] facts@[c]),
                forall|c: int| 0 <= c < j ==> !proof_matches_register(facts@[i as int], #[trigger] facts@[c]),
            decreases facts.len() - j,
        {
            if release_path_proof_matches_register(&facts[i], &facts[j]) {
                return true;
            }
            j = j + 1;
        }
        i = i + 1;
    }
    false
}

/// Whether the release is proven to come after the registration: exactly when a release-path
/// proof covers the registered object.
pub fn release_order_is_proven_after_register(
    evidence: &[V326LifecycleEvidenceRecord],
    facts: &[V326LifecycleFactRecord],
) -> (b: bool)
    ensures
        b == release_covers_object(facts@),
{
    release_covers_same_lifecycle_object(evidence, facts)
}

} // verus!

verus! {

/// The kind of a lifecycle object by the prefix of its id, compared in lower case.
pub open spec fn kind_of_id(id: Seq<char>) -> crate::lifecycle_v326::V326LifecycleObjectKind {
    if lower_has_prefix(id, "callback:"@) {
        crate::lifecycle_v326::V326LifecycleObjectKind::Callback
    } else if lower_has_prefix(id, "user_data:"@) || lower_has_prefix(id, "userdata:"@) {
        crate::lifecycle_v326::V326LifecycleObjectKind::UserData
    } else if lower_has_prefix(id, "rust_owner:"@) || lower_has_prefix(id, "owner:"@) {
        crate::lifecycle_v326::V326LifecycleObjectKind::RustOwner
    } else if lower_has_prefix(id, "returned_ref:"@) {
        crate::lifecycle_v326::V326LifecycleObjectKind::ReturnedRef
    } else if lower_has_prefix(id, "storage:"@) {
        crate::lifecycle_v326::V326LifecycleObjectKind::Storage
    } else if lower_has_prefix(id, "opaque_handle:"@) {
        crate::lifecycle_v326::V326LifecycleObjectKind::OpaqueHandle
    } else if lower_has_prefix(id, "static_site:"@) || lower_has_prefix(id, "object_flow:"@) || lower_has_prefix(
        id,
        "object_flow_binding:"@,
    ) || lower_has_prefix(id, "object_flow_binding_member:"@) || lower_has_prefix(id, "object_flow_binding_prefix:"@)
        || lower_has_prefix(id, "object_binding_gap:"@) || lower_has_prefix(id, "adapter:"@) || lower_has_prefix(
        id,
        "atomic_operation:"@,
    ) || lower_has_prefix(id, "atomic_ordering:"@) {
        crate::lifecycle_v326::V326LifecycleObjectKind::StaticSite
    } else if lower_has_prefix(id, "foreign_owner:"@) {
        crate::lifecycle_v326::V326LifecycleObjectKind::ForeignOwner
    } else if lower_has_prefix(id, "release_endpoint:"@) || lower_has_prefix(id, "release:"@) {
        crate::lifecycle_v326::V326LifecycleObjectKind::ReleaseEndpoint
    } else if lower_has_prefix(id, "opaque:"@) || lower_has_prefix(id, "handle:"@) {
        crate::lifecycle_v326::V326LifecycleObjectKind::OpaqueHandle
    } else {
        crate::lifecycle_v326::V326LifecycleObjectKind::Unknown
    }
}

/// The kind of a lifecycle object by the prefix of its id.
pub fn object_kind_from_id(id: &str) -> (k: crate::lifecycle_v326::V326LifecycleObjectKind)
    ensures
        k == kind_of_id(id@),
{
    proof {
        reveal_strlit("callback:");
        reveal_strlit("user_data:");
        reveal_strlit("userdata:");
        reveal_strlit("rust_owner:");
        reveal_strlit("owner:");
        reveal_strlit("returned_ref:");
        reveal_strlit("storage:");
        reveal_strlit("opaque_handle:");
        reveal_strlit("static_site:");
        reveal_strlit("object_flow:");
        reveal_strlit("object_flow_binding:");
        reveal_strlit("object_flow_binding_member:");
        reveal_strlit("object_flow_binding_prefix:");
        reveal_strlit("object_binding_gap:");
        reveal_strlit("adapter:");
        reveal_strlit("atomic_operation:");
        reveal_strlit("atomic_ordering:");
        reveal_strlit("foreign_owner:");
        reveal_strlit("release_endpoint:");
        reveal_strlit("release:");
        reveal_strlit("opaque:");
        reveal_strlit("handle:");
    }
    if lower_starts_with(id, "callback:") {
        crate::lifecycle_v326::V326LifecycleObjectKind::Callback
    } else if lower_starts_with(id, "user_data:") || lower_starts_with(id, "userdata:") {
        crate::lifecycle_v326::V326LifecycleObjectKind::UserData
    } else if lower_starts_with(id, "rust_owner:") || lower_starts_with(id, "owner:") {
        crate::lifecycle_v326::V326LifecycleObjectKind::RustOwner
    } else if lower_starts_with(id, "returned_ref:") {
        crate::lifecycle_v326::V326LifecycleObjectKind::ReturnedRef
    } else if lower_starts_with(id, "storage:") {
        crate::lifecycle_v326::V326LifecycleObjectKind::Storage
    } else if lower_starts_with(id, "opaque_handle:") {
        crate::lifecycle_v326::V326LifecycleObjectKind::OpaqueHandle
    } else if lower_starts_with(id, "static_site:") || lower_starts_with(id, "object_flow:") || lower_starts_with(
        id,
        "object_flow_binding:",
    ) || lower_starts_with(id, "object_flow_binding_member:") || lower_starts_with(id, "object_flow_binding_prefix:")
        || lower_starts_with(id, "object_binding_gap:") || lower_starts_with(id, "adapter:") || lower_starts_with(
        id,
        "atomic_operation:",
    ) || lower_starts_with(id, "atomic_ordering:") {
        crate::lifecycle_v326::V326LifecycleObjectKind::StaticSite
    } else if lower_starts_with(id, "foreign_owner:") {
        crate::lifecycle_v326::V326LifecycleObjectKind::ForeignOwner
    } else if lower_starts_with(id, "release_endpoint:") || lower_starts_with(id, "release:") {
        crate::lifecycle_v326::V326LifecycleObjectKind::ReleaseEndpoint
    } else if lower_starts_with(id, "opaque:") || lower_starts_with(id, "handle:") {
        crate::lifecycle_v326::V326LifecycleObjectKind::OpaqueHandle
    } else {
        crate::lifecycle_v326::V326LifecycleObjectKind::Unknown
    }
}

} // verus!
