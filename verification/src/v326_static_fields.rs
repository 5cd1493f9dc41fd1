//! Lifecycle facts read off static facts: their kind, symbol path and lifecycle object ids.

use vstd::prelude::*;

use sha2::Digest;

use crate::candidate::V32CandidateRecord;
use crate::id::SiteId;
use crate::lifecycle_v326::{
    V326CoverageState, V326EvidenceConfidence, V326LifecycleFactKind, V326LifecycleFactProvenance,
    V326LifecycleFactRecord, V326SourceRef, V3_2_6_LIFECYCLE_FACT_SCHEMA_V1,
};
use crate::static_fact::{
    AtomicOperationKind, AtomicOrderingKind, CallbackReleaseUseOrdering, CallbackUserDataReconstructionKind,
    CaptureMode, ObjectBindingGapFact, ObjectBindingGapKind, ObjectFlowFact, ObjectFlowKind, ObjectFlowObjectKind,
    RawPointerTransferKind, RegistrationRole, ReturnedBorrowInvalidationOrdering, ReturnedBorrowRelationKind,
    StaticFact, StaticFactEnvelope,
};
use crate::text::{chars_of, concat2, concat3, owned, starts_with};
use crate::v326_facts::has_prefix;
use crate::v326_scoring::{sanitize_id_for_path, sanitized};

verus! {

/// The SHA-256 digest of a text's UTF-8 bytes, written as lower-case hex digits.
pub uninterp spec fn sha256_lower_hex(text: Seq<char>) -> Seq<char>;

/// A lower-case hex digit.
pub open spec fn is_lower_hex_digit(c: char) -> bool {
    ('0' <= c && c <= '9') || ('a' <= c && c <= 'f')
}

/// Calls `sha2::Sha256::digest` on the text's UTF-8 bytes and formats the 32-byte digest with
/// `{:x}`, which generic-array's `LowerHex` writes as two lower-case hex digits per byte. Claimed:
/// the result is the digest named by `sha256_lower_hex` of the text, 64 characters long, each a
/// lower-case hex digit.
#[verifier::external_body]
pub(crate) fn sha256_hex(text: &str) -> (r: String)
    ensures
        r@ == sha256_lower_hex(text@),
        r@.len() == 64,
        forall|i: int| 0 <= i < 64 ==> is_lower_hex_digit(#[trigger] r@[i]),
{
    format!("{:x}", sha2::Sha256::digest(text.as_bytes()))
}

/// The object id of a static site in a role: the role, a colon and the site id.
pub open spec fn site_object_id(role: Seq<char>, site: SiteId) -> Seq<char> {
    role + ":"@ + site.0@
}

fn site_object(role: &str, site: &SiteId) -> (r: String)
    ensures
        r@ == site_object_id(role@, *site),
{
    concat3(role, ":", site.as_str())
}

/// The object id of a digested binding: the kind of id, the scope and the digest of the value.
pub open spec fn digest_object_id(kind: Seq<char>, scope: Seq<char>, digest: Seq<char>) -> Seq<char> {
    kind + ":"@ + scope + ":"@ + digest
}

/// Builds the object id of a digested binding from a digest computed before.
pub fn digest_object(kind: &str, scope: &str, digest: &str) -> (r: String)
    ensures
        r@ == digest_object_id(kind@, scope@, digest@),
{
    let mut r = concat3(kind, ":", scope);
    r.append(":");
    r.append(digest);
    r
}

fn binding_object(kind: &str, scope: &str, value: &str) -> (r: String)
    ensures
        r@ == digest_object_id(kind@, scope@, sha256_lower_hex(value@)),
{
    let digest = sha256_hex(value);
    digest_object(kind, scope, digest.as_str())
}

/// The object id of the capture slot of a callback: the callback site and the digest of the
/// field path.
pub open spec fn capture_slot_object_id(site: SiteId, field_path: Seq<char>) -> Seq<char> {
    "callback:"@ + site.0@ + ":capture_slot:"@ + sha256_lower_hex(field_path)
}

fn capture_slot_object(site: &SiteId, field_path: &str) -> (r: String)
    ensures
        r@ == capture_slot_object_id(*site, field_path@),
{
    let digest = sha256_hex(field_path);
    let mut r = concat3("callback:", site.as_str(), ":capture_slot:");
    r.append(digest.as_str());
    r
}

pub open spec fn spec_release_use_token(o: CallbackReleaseUseOrdering) -> Seq<char> {
    match o {
        CallbackReleaseUseOrdering::ReleaseBeforeCallbackUse => "release_before_callback_use"@,
        CallbackReleaseUseOrdering::CallbackUseBeforeRelease => "callback_use_before_release"@,
        CallbackReleaseUseOrdering::UnknownOrdering => "unknown_ordering"@,
    }
}

fn release_use_token(o: CallbackReleaseUseOrdering) -> (t: &'static str)
    ensures
        t@ == spec_release_use_token(o),
{
    match o {
        CallbackReleaseUseOrdering::ReleaseBeforeCallbackUse => "release_before_callback_use",
        CallbackReleaseUseOrdering::CallbackUseBeforeRelease => "callback_use_before_release",
        CallbackReleaseUseOrdering::UnknownOrdering => "unknown_ordering",
    }
}

pub open spec fn spec_returned_borrow_token(o: ReturnedBorrowInvalidationOrdering) -> Seq<char> {
    match o {
        ReturnedBorrowInvalidationOrdering::PersistenceBeforeInvalidationUse => "persistence_before_invalidation_use"@,
        ReturnedBorrowInvalidationOrdering::InvalidationBeforePersistenceUse => "invalidation_before_persistence_use"@,
    }
}

fn returned_borrow_token(o: ReturnedBorrowInvalidationOrdering) -> (t: &'static str)
    ensures
        t@ == spec_returned_borrow_token(o),
{
    match o {
        ReturnedBorrowInvalidationOrdering::PersistenceBeforeInvalidationUse => "persistence_before_invalidation_use",
        ReturnedBorrowInvalidationOrdering::InvalidationBeforePersistenceUse => "invalidation_before_persistence_use",
    }
}

pub open spec fn spec_atomic_operation_token(o: AtomicOperationKind) -> Seq<char> {
    match o {
        AtomicOperationKind::Load => "load"@,
    }
}

fn atomic_operation_token(o: AtomicOperationKind) -> (t: &'static str)
    ensures
        t@ == spec_atomic_operation_token(o),
{
    match o {
        AtomicOperationKind::Load => "load",
    }
}

pub open spec fn spec_atomic_ordering_token(o: AtomicOrderingKind) -> Seq<char> {
    match o {
        AtomicOrderingKind::Relaxed => "relaxed"@,
        AtomicOrderingKind::Acquire => "acquire"@,
        AtomicOrderingKind::Release => "release"@,
        AtomicOrderingKind::AcqRel => "acq_rel"@,
        AtomicOrderingKind::SeqCst => "seqcst"@,
    }
}

fn atomic_ordering_token(o: AtomicOrderingKind) -> (t: &'static str)
    ensures
        t@ == spec_atomic_ordering_token(o),
{
    match o {
        AtomicOrderingKind::Relaxed => "relaxed",
        AtomicOrderingKind::Acquire => "acquire",
        AtomicOrderingKind::Release => "release",
        AtomicOrderingKind::AcqRel => "acq_rel",
        AtomicOrderingKind::SeqCst => "seqcst",
    }
}

pub open spec fn spec_gap_token(k: ObjectBindingGapKind) -> Seq<char> {
    match k {
        ObjectBindingGapKind::SelectionPredicate => "selection_predicate"@,
        ObjectBindingGapKind::MappedValue => "mapped_value"@,
        ObjectBindingGapKind::MergedSources => "merged_sources"@,
        ObjectBindingGapKind::TupleProjection => "tuple_projection"@,
        ObjectBindingGapKind::CardinalityTransform => "cardinality_transform"@,
        ObjectBindingGapKind::DynamicIndex => "dynamic_index"@,
        ObjectBindingGapKind::RangeOrSlice => "range_or_slice"@,
        ObjectBindingGapKind::SequenceLengthUnknown => "sequence_length_unknown"@,
        ObjectBindingGapKind::KeyContract => "key_contract"@,
        ObjectBindingGapKind::ReassignmentBarrier => "reassignment_barrier"@,
        ObjectBindingGapKind::MutationBarrier => "mutation_barrier"@,
        ObjectBindingGapKind::CallBoundary => "call_boundary"@,
        ObjectBindingGapKind::UnresolvedCallee => "unresolved_callee"@,
    }
}

fn gap_token(k: ObjectBindingGapKind) -> (t: &'static str)
    ensures
        t@ == spec_gap_token(k),
{
    match k {
        ObjectBindingGapKind::SelectionPredicate => "selection_predicate",
        ObjectBindingGapKind::MappedValue => "mapped_value",
        ObjectBindingGapKind::MergedSources => "merged_sources",
        ObjectBindingGapKind::TupleProjection => "tuple_projection",
        ObjectBindingGapKind::CardinalityTransform => "cardinality_transform",
        ObjectBindingGapKind::DynamicIndex => "dynamic_index",
        ObjectBindingGapKind::RangeOrSlice => "range_or_slice",
        ObjectBindingGapKind::SequenceLengthUnknown => "sequence_length_unknown",
        ObjectBindingGapKind::KeyContract => "key_contract",
        ObjectBindingGapKind::ReassignmentBarrier => "reassignment_barrier",
        ObjectBindingGapKind::MutationBarrier => "mutation_barrier",
        ObjectBindingGapKind::CallBoundary => "call_boundary",
        ObjectBindingGapKind::UnresolvedCallee => "unresolved_callee",
    }
}

pub open spec fn spec_flow_token(k: ObjectFlowKind) -> Seq<char> {
    match k {
        ObjectFlowKind::Argument => "argument"@,
        ObjectFlowKind::ReturnValue => "return_value"@,
        ObjectFlowKind::FieldStore => "field_store"@,
        ObjectFlowKind::FieldLoad => "field_load"@,
        ObjectFlowKind::WrapperMove => "wrapper_move"@,
        ObjectFlowKind::WrapperDestructure => "wrapper_destructure"@,
        ObjectFlowKind::CollectionStore => "collection_store"@,
        ObjectFlowKind::CollectionLoad => "collection_load"@,
        ObjectFlowKind::ClosureCapture => "closure_capture"@,
    }
}

fn flow_token(k: ObjectFlowKind) -> (t: &'static str)
    ensures
        t@ == spec_flow_token(k),
{
    match k {
        ObjectFlowKind::Argument => "argument",
        ObjectFlowKind::ReturnValue => "return_value",
        ObjectFlowKind::FieldStore => "field_store",
        ObjectFlowKind::FieldLoad => "field_load",
        ObjectFlowKind::WrapperMove => "wrapper_move",
        ObjectFlowKind::WrapperDestructure => "wrapper_destructure",
        ObjectFlowKind::CollectionStore => "collection_store",
        ObjectFlowKind::CollectionLoad => "collection_load",
        ObjectFlowKind::ClosureCapture => "closure_capture",
    }
}

pub open spec fn spec_flow_object_token(k: ObjectFlowObjectKind) -> Seq<char> {
    match k {
        ObjectFlowObjectKind::Callback => "callback"@,
        ObjectFlowObjectKind::UserData => "user_data"@,
        ObjectFlowObjectKind::RustOwner => "rust_owner"@,
        ObjectFlowObjectKind::ReturnedRef => "returned_ref"@,
        ObjectFlowObjectKind::Storage => "storage"@,
        ObjectFlowObjectKind::OpaqueHandle => "opaque_handle"@,
        ObjectFlowObjectKind::StaticSite => "static_site"@,
    }
}

fn flow_object_token(k: ObjectFlowObjectKind) -> (t: &'static str)
    ensures
        t@ == spec_flow_object_token(k),
{
    match k {
        ObjectFlowObjectKind::Callback => "callback",
        ObjectFlowObjectKind::UserData => "user_data",
        ObjectFlowObjectKind::RustOwner => "rust_owner",
        ObjectFlowObjectKind::ReturnedRef => "returned_ref",
        ObjectFlowObjectKind::Storage => "storage",
        ObjectFlowObjectKind::OpaqueHandle => "opaque_handle",
        ObjectFlowObjectKind::StaticSite => "static_site",
    }
}

pub open spec fn spec_reconstruction_token(k: CallbackUserDataReconstructionKind) -> Seq<char> {
    match k {
        CallbackUserDataReconstructionKind::OwnerFromTransmute => "owner_from_transmute"@,
        CallbackUserDataReconstructionKind::OwnerFromRaw => "owner_from_raw"@,
        CallbackUserDataReconstructionKind::LeakFromRaw => "leak_from_raw"@,
    }
}

fn reconstruction_token(k: CallbackUserDataReconstructionKind) -> (t: &'static str)
    ensures
        t@ == spec_reconstruction_token(k),
{
    match k {
        CallbackUserDataReconstructionKind::OwnerFromTransmute => "owner_from_transmute",
        CallbackUserDataReconstructionKind::OwnerFromRaw => "owner_from_raw",
        CallbackUserDataReconstructionKind::LeakFromRaw => "leak_from_raw",
    }
}

} // verus!

verus! {

/// `m` occurs in `s` starting at `i`.
pub open spec fn occurs_at(s: Seq<char>, m: Seq<char>, i: int) -> bool {
    0 <= i && i + m.len() <= s.len() && s.subrange(i, i + m.len()) == m
}

/// The position where `m` first occurs in `s`, if it occurs.
#[verifier::opaque]
pub open spec fn first_occurrence(s: Seq<char>, m: Seq<char>) -> Option<int> {
    if exists|i: int| occurs_at(s, m, i) {
        Some(choose|i: int| occurs_at(s, m, i) && forall|j: int| 0 <= j < i ==> !occurs_at(s, m, j))
    } else {
        None
    }
}

proof fn lemma_first_occurrence_at(s: Seq<char>, m: Seq<char>, i: int)
    requires
        occurs_at(s, m, i),
        forall|j: int| 0 <= j < i ==> !occurs_at(s, m, j),
    ensures
        first_occurrence(s, m) == Some(i),
{
    reveal(first_occurrence);
    let w = choose|w: int| occurs_at(s, m, w) && forall|j: int| 0 <= j < w ==> !occurs_at(s, m, j);
    assert(occurs_at(s, m, w) && forall|j: int| 0 <= j < w ==> !occurs_at(s, m, j));
    if w < i {
        assert(!occurs_at(s, m, w));
    } else if w > i {
        assert(!occurs_at(s, m, i));
    }
}

proof fn lemma_no_occurrence(s: Seq<char>, m: Seq<char>)
    requires
        forall|j: int| !occurs_at(s, m, j),
    ensures
        first_occurrence(s, m) is None,
{
    reveal(first_occurrence);
}

fn matches_at(cs: &Vec<char>, ms: &Vec<char>, i: usize) -> (b: bool)
    requires
        i + ms@.len() <= cs@.len(),
    ensures
        b == occurs_at(cs@, ms@, i as int),
{
    let mut k: usize = 0;
    while k < ms.len()
        invariant
            i + ms@.len() <= cs@.len(),
            0 <= k <= ms.len(),
            forall|q: int| 0 <= q < k ==> cs@[i + q] == ms@[q],
        decreases ms.len() - k,
    {
        assert(i + k < cs.len());
        if cs[i + k] != ms[k] {
            assert(cs@.subrange(i as int, i + ms@.len())[k as int] != ms@[k as int]);
            return false;
        }
        k = k + 1;
    }
    assert(cs@.subrange(i as int, i + ms@.len()) =~= ms@);
    true
}

pub(crate) fn find_first(s: &str, m: &str) -> (r: Option<usize>)
    ensures
        match r {
            Some(i) => first_occurrence(s@, m@) == Some(i as int) && occurs_at(s@, m@, i as int),
            None => first_occurrence(s@, m@) is None,
        },
{
    let cs = chars_of(s);
    let ms = chars_of(m);
    if ms.len() > cs.len() {
        proof {
            lemma_no_occurrence(s@, m@);
        }
        return None;
    }
    let last = cs.len() - ms.len();
    let mut i: usize = 0;
    loop
        invariant
            cs@ == s@,
            ms@ == m@,
            last == cs@.len() - ms@.len(),
            0 <= i <= last,
            forall|j: int| 0 <= j < i ==> !occurs_at(s@, m@, j),
        decreases last - i,
    {
        if matches_at(&cs, &ms, i) {
            proof {
                lemma_first_occurrence_at(s@, m@, i as int);
            }
            return Some(i);
        }
        if i == last {
            proof {
                assert forall|j: int| !occurs_at(s@, m@, j) by {
                    if 0 <= j < i {
                    }
                }
                lemma_no_occurrence(s@, m@);
            }
            return None;
        }
        i = i + 1;
    }
}

/// The digested member binding of the prefix of a field path up to the end of the first
/// occurrence of the marker, if the marker occurs.
pub open spec fn marker_member_ids(field_path: Seq<char>, marker: Seq<char>) -> Seq<Seq<char>> {
    match first_occurrence(field_path, marker) {
        Some(i) => seq![
            digest_object_id(
                "object_flow_binding_member"@,
                "field"@,
                sha256_lower_hex(field_path.take(i + marker.len())),
            ),
        ],
        None => Seq::empty(),
    }
}

/// The digested member bindings of the collection prefixes of a field path: up to its first map
/// key, then up to its first element index.
pub open spec fn collection_member_ids(field_path: Seq<char>) -> Seq<Seq<char>> {
    marker_member_ids(field_path, ":map_key:"@) + marker_member_ids(field_path, ":element_index:"@)
}

fn push_marker_prefix(ids: &mut Vec<String>, field_path: &str, marker: &str)
    ensures
        final(ids)@.map_values(|s: String| s@) == old(ids)@.map_values(|s: String| s@) + marker_member_ids(
            field_path@,
            marker@,
        ),
{
    let ghost before = ids@.map_values(|s: String| s@);
    match find_first(field_path, marker) {
        Some(i) => {
            let total = field_path.unicode_len();
            let marker_len = marker.unicode_len();
            assert(i + marker_len <= total);
            let prefix = field_path.substring_char(0, i + marker_len);
            assert(prefix@ =~= field_path@.take(i + marker@.len()));
            push_text(ids, binding_object("object_flow_binding_member", "field", prefix));
        },
        None => {
            assert(ids@.map_values(|s: String| s@) =~= before + marker_member_ids(field_path@, marker@));
        },
    }
}

/// An object flow that loads a closure capture slot out of a callback.
pub open spec fn is_capture_slot_load(f: ObjectFlowFact) -> bool {
    &&& f.flow_kind == ObjectFlowKind::FieldLoad
    &&& f.from_object_kind == ObjectFlowObjectKind::Callback
    &&& f.field_path matches Some(p) && has_prefix(p@, "closure_capture_ordinal:"@)
}

/// The lifecycle object ids of an object flow before its bindings: its two endpoints (capture
/// slots in place of a callback where the flow loads or captures one), its site and its kind,
/// then the endpoints themselves where a slot stood in for them.
pub open spec fn object_flow_core_ids(f: ObjectFlowFact) -> Seq<Seq<char>> {
    let from_id = site_object_id(spec_flow_object_token(f.from_object_kind), f.from_site_id);
    let to_id = site_object_id(spec_flow_object_token(f.to_object_kind), f.to_site_id);
    let slot_load = is_capture_slot_load(f);
    let capture = f.flow_kind == ObjectFlowKind::ClosureCapture;
    let endpoint_from = if slot_load {
        capture_slot_object_id(f.from_site_id, f.field_path->0@)
    } else {
        from_id
    };
    let endpoint_to = if capture && f.field_path is Some {
        capture_slot_object_id(f.to_site_id, f.field_path->0@)
    } else {
        to_id
    };
    let ids0 = seq![
        endpoint_from,
        endpoint_to,
        site_object_id("static_site"@, f.site_id),
        "object_flow:"@ + spec_flow_token(f.flow_kind),
    ];
    let ids1 = if slot_load && !ids0.contains(from_id) {
        ids0.push(from_id)
    } else {
        ids0
    };
    if capture && !ids1.contains(to_id) {
        ids1.push(to_id)
    } else {
        ids1
    }
}

/// The digested bindings of a field path: the path itself, the hook-release-slot kind where the
/// path names one, and its collection prefixes.
pub open spec fn field_binding_ids(p: Seq<char>) -> Seq<Seq<char>> {
    let a = seq![digest_object_id("object_flow_binding"@, "field"@, sha256_lower_hex(p))];
    let b = if has_prefix(p, "hook_release_slot:"@) {
        a.push("object_flow_binding_kind:hook_release_slot"@)
    } else {
        a
    };
    b + collection_member_ids(p)
}

/// The lifecycle object ids of an object flow: its core ids, then the bindings of its field path
/// and of its container.
pub open spec fn object_flow_ids(f: ObjectFlowFact) -> Seq<Seq<char>> {
    let ids2 = object_flow_core_ids(f);
    let ids3 = match f.field_path {
        Some(p) => ids2 + field_binding_ids(p@),
        None => ids2,
    };
    match f.container_type_name {
        Some(c) => ids3.push(digest_object_id("object_flow_binding"@, "container"@, sha256_lower_hex(c@))),
        None => ids3,
    }
}

fn texts_contain(ids: &Vec<String>, id: &String) -> (b: bool)
    ensures
        b == ids@.map_values(|s: String| s@).contains(id@),
{
    let ghost t = ids@.map_values(|s: String| s@);
    let mut i: usize = 0;
    while i < ids.len()
        invariant
            t == ids@.map_values(|s: String| s@),
            0 <= i <= ids@.len(),
            forall|k: int| 0 <= k < i ==> t[k] != id@,
        decreases ids.len() - i,
    {
        if ids[i] == *id {
            assert(t[i as int] == id@);
            return true;
        }
        i = i + 1;
    }
    false
}

fn push_text(ids: &mut Vec<String>, s: String)
    ensures
        final(ids)@.map_values(|x: String| x@) == old(ids)@.map_values(|x: String| x@).push(s@),
{
    let ghost before = ids@.map_values(|x: String| x@);
    ids.push(s);
    assert(ids@.map_values(|x: String| x@) =~= before.push(s@));
}

fn object_flow_core(f: &ObjectFlowFact) -> (ids: Vec<String>)
    ensures
        ids@.map_values(|s: String| s@) == object_flow_core_ids(*f),
{
    let from_id = site_object(flow_object_token(f.from_object_kind), &f.from_site_id);
    let to_id = site_object(flow_object_token(f.to_object_kind), &f.to_site_id);
    let slot_load = match (&f.flow_kind, &f.from_object_kind, &f.field_path) {
        (ObjectFlowKind::FieldLoad, ObjectFlowObjectKind::Callback, Some(p)) => starts_with(
            p.as_str(),
            "closure_capture_ordinal:",
        ),
        _ => false,
    };
    let capture = match f.flow_kind {
        ObjectFlowKind::ClosureCapture => true,
        _ => false,
    };
    let endpoint_from = match (&f.field_path, slot_load) {
        (Some(p), true) => capture_slot_object(&f.from_site_id, p.as_str()),
        _ => from_id.clone(),
    };
    let endpoint_to = match (&f.field_path, capture) {
        (Some(p), true) => capture_slot_object(&f.to_site_id, p.as_str()),
        _ => to_id.clone(),
    };
    let mut ids: Vec<String> = Vec::new();
    push_text(&mut ids, endpoint_from);
    push_text(&mut ids, endpoint_to);
    push_text(&mut ids, site_object("static_site", &f.site_id));
    push_text(&mut ids, concat2("object_flow:", flow_token(f.flow_kind)));
    let ghost ids0 = seq![
        if slot_load { capture_slot_object_id(f.from_site_id, f.field_path->0@) } else { from_id@ },
        if capture && f.field_path is Some { capture_slot_object_id(f.to_site_id, f.field_path->0@) } else { to_id@ },
        site_object_id("static_site"@, f.site_id),
        "object_flow:"@ + spec_flow_token(f.flow_kind),
    ];
    assert(slot_load == is_capture_slot_load(*f));
    assert(ids@.map_values(|s: String| s@) =~= ids0);
    if slot_load && !texts_contain(&ids, &from_id) {
        push_text(&mut ids, from_id);
    }
    let ghost ids1 = ids@.map_values(|s: String| s@);
    assert(ids1 == (if slot_load && !ids0.contains(from_id@) { ids0.push(from_id@) } else { ids0 }));
    if capture && !texts_contain(&ids, &to_id) {
        push_text(&mut ids, to_id);
    }
    ids
}

fn push_field_bindings(ids: &mut Vec<String>, p: &str)
    ensures
        final(ids)@.map_values(|s: String| s@) == old(ids)@.map_values(|s: String| s@) + field_binding_ids(p@),
{
    let ghost start = ids@.map_values(|s: String| s@);
    push_text(ids, binding_object("object_flow_binding", "field", p));
    if starts_with(p, "hook_release_slot:") {
        push_text(ids, owned("object_flow_binding_kind:hook_release_slot"));
    }
    let ghost mid = ids@.map_values(|s: String| s@);
    push_marker_prefix(ids, p, ":map_key:");
    push_marker_prefix(ids, p, ":element_index:");
    assert(ids@.map_values(|s: String| s@) =~= start + field_binding_ids(p@));
}

fn object_flow_object_ids(f: &ObjectFlowFact) -> (ids: Vec<String>)
    ensures
        ids@.map_values(|s: String| s@) == object_flow_ids(*f),
{
    let mut ids = object_flow_core(f);
    match &f.field_path {
        Some(p) => {
            push_field_bindings(&mut ids, p.as_str());
        },
        None => {},
    }
    match &f.container_type_name {
        Some(c) => {
            push_text(&mut ids, binding_object("object_flow_binding", "container", c.as_str()));
        },
        None => {},
    }
    ids
}

/// A gap whose field path binds a prefix: a mutation barrier from the returned-borrow storage
/// prefix adapter.
pub open spec fn gap_uses_prefix_binding(f: ObjectBindingGapFact) -> bool {
    &&& f.gap_kind == ObjectBindingGapKind::MutationBarrier
    &&& f.adapter matches Some(a) && has_prefix(a@, "returned_borrow_storage_prefix_mutation:"@)
}

/// The lifecycle object ids of an object binding gap: its site and kind, its adapter made safe
/// for a path, and the digested bindings of its field path (as a prefix for a prefix gap) and
/// container.
pub open spec fn object_binding_gap_ids(f: ObjectBindingGapFact) -> Seq<Seq<char>> {
    let ids0 = seq![site_object_id("static_site"@, f.site_id), "object_binding_gap:"@ + spec_gap_token(f.gap_kind)];
    let ids1 = match f.adapter {
        Some(a) => ids0.push("adapter:"@ + sanitized(a@)),
        None => ids0,
    };
    let ids2 = match f.field_path {
        Some(p) => if gap_uses_prefix_binding(f) {
            ids1.push(digest_object_id("object_flow_binding_prefix"@, "field"@, sha256_lower_hex(p@)))
        } else {
            ids1.push(digest_object_id("object_flow_binding"@, "field"@, sha256_lower_hex(p@)))
        },
        None => ids1,
    };
    match f.container_type_name {
        Some(c) => ids2.push(digest_object_id("object_flow_binding"@, "container"@, sha256_lower_hex(c@))),
        None => ids2,
    }
}

fn object_binding_gap_object_ids(f: &ObjectBindingGapFact) -> (ids: Vec<String>)
    ensures
        ids@.map_values(|s: String| s@) == object_binding_gap_ids(*f),
{
    let mut ids: Vec<String> = Vec::new();
    push_text(&mut ids, site_object("static_site", &f.site_id));
    push_text(&mut ids, concat2("object_binding_gap:", gap_token(f.gap_kind)));
    let prefix_binding = match (&f.gap_kind, &f.adapter) {
        (ObjectBindingGapKind::MutationBarrier, Some(a)) => starts_with(
            a.as_str(),
            "returned_borrow_storage_prefix_mutation:",
        ),
        _ => false,
    };
    match &f.adapter {
        Some(a) => {
            push_text(&mut ids, concat2("adapter:", sanitize_id_for_path(a.as_str()).as_str()));
        },
        None => {},
    }
    match &f.field_path {
        Some(p) => {
            if prefix_binding {
                push_text(&mut ids, binding_object("object_flow_binding_prefix", "field", p.as_str()));
            } else {
                push_text(&mut ids, binding_object("object_flow_binding", "field", p.as_str()));
            }
        },
        None => {},
    }
    match &f.container_type_name {
        Some(c) => {
            push_text(&mut ids, binding_object("object_flow_binding", "container", c.as_str()));
        },
        None => {},
    }
    ids
}

} // verus!

verus! {

/// The view of an optional text.
pub open spec fn opt_text(o: Option<String>) -> Option<Seq<char>> {
    match o {
        Some(s) => Some(s@),
        None => None,
    }
}

/// The lifecycle fact fields of a static fact: its kind, its symbol path and its lifecycle object
/// ids. External call sites, and the facts that only the compatibility judgement reads, give
/// none: they are no lifecycle facts.
pub open spec fn spec_static_fact_fields(payload: StaticFact) -> Option<
    (V326LifecycleFactKind, Option<Seq<char>>, Seq<Seq<char>>),
> {
    match payload {
        StaticFact::ObjectSite(f) => Some(
            (
                V326LifecycleFactKind::OwnedMoveCapture,
                Some(f.object_type_name@),
                seq![site_object_id("rust_owner"@, f.site_id)],
            ),
        ),
        StaticFact::CallbackSite(f) => Some(
            (
                V326LifecycleFactKind::CallbackDefinition,
                Some(f.def_path@),
                seq![site_object_id("callback"@, f.site_id)],
            ),
        ),
        StaticFact::CallbackCapture(f) => Some(
            (
                match f.capture_mode {
                    CaptureMode::Borrowed => V326LifecycleFactKind::BorrowedCapture,
                    CaptureMode::Owned => V326LifecycleFactKind::OwnedMoveCapture,
                },
                None,
                seq![site_object_id("callback"@, f.callback_site_id), site_object_id("rust_owner"@, f.object_site_id)],
            ),
        ),
        StaticFact::DropSite(f) => Some(
            (V326LifecycleFactKind::DropSite, None, seq![site_object_id("rust_owner"@, f.object_site_id)]),
        ),
        StaticFact::DropPrevention(f) => Some(
            (
                V326LifecycleFactKind::DropPrevention,
                Some("drop_prevention::memforget"@),
                seq![site_object_id("rust_owner"@, f.object_site_id)],
            ),
        ),
        StaticFact::CallbackUserDataReconstruction(f) => Some(
            (
                V326LifecycleFactKind::CallbackUserDataReconstruction,
                Some("callback_user_data_reconstruction::"@ + spec_reconstruction_token(f.reconstruction_kind)),
                seq![
                    site_object_id("static_site"@, f.site_id),
                    site_object_id("callback"@, f.callback_site_id),
                    site_object_id("user_data"@, f.user_data_site_id),
                    site_object_id("rust_owner"@, f.object_site_id),
                ],
            ),
        ),
        StaticFact::RegistrationSite(f) => {
            let ids0 = match f.callback_site_id {
                Some(c) => seq![site_object_id("callback"@, c)],
                None => Seq::empty(),
            };
            let ids1 = match f.user_data_site_id {
                Some(u) => ids0.push(site_object_id("user_data"@, u)),
                None => ids0,
            };
            Some(
                (
                    match f.role {
                        RegistrationRole::Register => V326LifecycleFactKind::RegisterCall,
                        RegistrationRole::Unregister => V326LifecycleFactKind::UnregisterCall,
                        RegistrationRole::Replace => V326LifecycleFactKind::ReplaceCall,
                    },
                    Some(f.api_id@),
                    ids1.push(site_object_id("static_site"@, f.site_id)),
                ),
            )
        },
        StaticFact::RawPointerTransfer(f) => {
            let user_data = seq![site_object_id("user_data"@, f.user_data_site_id)];
            Some(
                match f.transfer_kind {
                    RawPointerTransferKind::IntoRaw => (V326LifecycleFactKind::RawPointerEscape, None, user_data),
                    RawPointerTransferKind::FromRawParts => (
                        V326LifecycleFactKind::RawPointerEscape,
                        Some("raw_pointer_transfer::from_raw_parts"@),
                        user_data,
                    ),
                    RawPointerTransferKind::FromRaw => (
                        V326LifecycleFactKind::ReleaseCall,
                        None,
                        user_data.push(site_object_id("release_endpoint"@, f.site_id)),
                    ),
                },
            )
        },
        StaticFact::ReleasePathProof(f) => Some(
            (
                V326LifecycleFactKind::ReleasePathProof,
                None,
                seq![
                    site_object_id("user_data"@, f.object_site_id),
                    site_object_id("static_site"@, f.registration_site_id),
                    site_object_id("release_endpoint"@, f.release_site_id),
                ],
            ),
        ),
        StaticFact::CallbackReleaseUseOrder(f) => Some(
            (
                V326LifecycleFactKind::CallbackReleaseUseOrder,
                Some(f.api_id@),
                seq![
                    site_object_id("user_data"@, f.object_site_id),
                    site_object_id("static_site"@, f.registration_site_id),
                    site_object_id("release_endpoint"@, f.release_site_id),
                    site_object_id("static_site"@, f.use_site_id),
                    "callback_release_use_order:"@ + spec_release_use_token(f.ordering),
                ],
            ),
        ),
        StaticFact::ReturnedBorrowRelation(f) => {
            let ids = seq![
                site_object_id("rust_owner"@, f.source_site_id),
                site_object_id("returned_ref"@, f.returned_site_id),
            ];
            Some(
                (
                    V326LifecycleFactKind::ReturnedBorrowRelation,
                    Some(f.api_id@),
                    if f.relation_kind == Some(ReturnedBorrowRelationKind::UnconstrainedReturnLifetime) {
                        ids.push("static_site:returned_borrow_relation_kind:unconstrained_return_lifetime"@)
                    } else {
                        ids
                    },
                ),
            )
        },
        StaticFact::PersistedReturnedBorrow(f) => Some(
            (
                V326LifecycleFactKind::PersistedReturnedBorrow,
                Some(f.api_id@),
                seq![
                    site_object_id("static_site"@, f.site_id),
                    site_object_id("rust_owner"@, f.source_site_id),
                    site_object_id("returned_ref"@, f.returned_site_id),
                    site_object_id("storage"@, f.storage_site_id),
                ],
            ),
        ),
        StaticFact::ReturnedBorrowInvalidationOrder(f) => Some(
            (
                V326LifecycleFactKind::ReturnedBorrowInvalidationOrder,
                Some(f.api_id@),
                seq![
                    site_object_id("static_site"@, f.persisted_site_id),
                    site_object_id("static_site"@, f.invalidation_site_id),
                    site_object_id("static_site"@, f.use_site_id),
                    "returned_borrow_order:"@ + spec_returned_borrow_token(f.ordering),
                ],
            ),
        ),
        StaticFact::ExternalBufferBinding(f) => Some(
            (
                V326LifecycleFactKind::ExternalBufferBinding,
                Some(f.api_id@),
                seq![site_object_id("rust_owner"@, f.source_site_id), site_object_id("user_data"@, f.buffer_site_id)],
            ),
        ),
        StaticFact::AtomicOrdering(f) => Some(
            (
                V326LifecycleFactKind::AtomicOrdering,
                Some(f.api_id@),
                seq![
                    site_object_id("static_site"@, f.site_id),
                    "atomic_operation:"@ + spec_atomic_operation_token(f.operation),
                    "atomic_ordering:"@ + spec_atomic_ordering_token(f.ordering),
                ],
            ),
        ),
        StaticFact::ObjectBindingGap(f) => Some(
            (V326LifecycleFactKind::ObjectBindingGap, Some(f.api_id@), object_binding_gap_ids(f)),
        ),
        StaticFact::ObjectFlow(f) => Some((V326LifecycleFactKind::ObjectFlow, Some(f.api_id@), object_flow_ids(f))),
        _ => None,
    }
}

/// The view of the fields of a lifecycle fact.
pub open spec fn fields_view(r: Option<(V326LifecycleFactKind, Option<String>, Vec<String>)>) -> Option<
    (V326LifecycleFactKind, Option<Seq<char>>, Seq<Seq<char>>),
> {
    match r {
        Some(t) => Some((t.0, opt_text(t.1), t.2@.map_values(|s: String| s@))),
        None => None,
    }
}

fn texts1(a: String) -> (v: Vec<String>)
    ensures
        v@.map_values(|s: String| s@) == seq![a@],
{
    let mut v: Vec<String> = Vec::new();
    push_text(&mut v, a);
    assert(v@.map_values(|s: String| s@) =~= seq![a@]);
    v
}

fn texts2(a: String, b: String) -> (v: Vec<String>)
    ensures
        v@.map_values(|s: String| s@) == seq![a@, b@],
{
    let mut v = texts1(a);
    push_text(&mut v, b);
    assert(v@.map_values(|s: String| s@) =~= seq![a@, b@]);
    v
}

fn texts3(a: String, b: String, c: String) -> (v: Vec<String>)
    ensures
        v@.map_values(|s: String| s@) == seq![a@, b@, c@],
{
    let mut v = texts2(a, b);
    push_text(&mut v, c);
    assert(v@.map_values(|s: String| s@) =~= seq![a@, b@, c@]);
    v
}

fn texts4(a: String, b: String, c: String, d: String) -> (v: Vec<String>)
    ensures
        v@.map_values(|s: String| s@) == seq![a@, b@, c@, d@],
{
    let mut v = texts3(a, b, c);
    push_text(&mut v, d);
    assert(v@.map_values(|s: String| s@) =~= seq![a@, b@, c@, d@]);
    v
}

fn registration_ids(f: &crate::static_fact::RegistrationSiteFact) -> (v: Vec<String>)
    ensures
        v@.map_values(|s: String| s@) == {
            let ids0 = match f.callback_site_id {
                Some(c) => seq![site_object_id("callback"@, c)],
                None => Seq::<Seq<char>>::empty(),
            };
            let ids1 = match f.user_data_site_id {
                Some(u) => ids0.push(site_object_id("user_data"@, u)),
                None => ids0,
            };
            ids1.push(site_object_id("static_site"@, f.site_id))
        },
{
    let mut v: Vec<String> = Vec::new();
    assert(v@.map_values(|s: String| s@) =~= Seq::<Seq<char>>::empty());
    match &f.callback_site_id {
        Some(c) => {
            push_text(&mut v, site_object("callback", c));
            assert(v@.map_values(|s: String| s@) =~= seq![site_object_id("callback"@, *c)]);
        },
        None => {},
    }
    match &f.user_data_site_id {
        Some(u) => {
            push_text(&mut v, site_object("user_data", u));
        },
        None => {},
    }
    push_text(&mut v, site_object("static_site", &f.site_id));
    v
}

/// The kind, symbol path and lifecycle object ids of the lifecycle fact read off a static fact,
/// or `None` for a static fact that is no lifecycle fact.
pub fn lifecycle_static_fact_fields(envelope: &StaticFactEnvelope) -> (r: Option<
    (V326LifecycleFactKind, Option<String>, Vec<String>),
>)
    ensures
        fields_view(r) == spec_static_fact_fields(envelope.payload),
{
    match &envelope.payload {
        StaticFact::ObjectSite(f) => Some(
            (
                V326LifecycleFactKind::OwnedMoveCapture,
                Some(f.object_type_name.clone()),
                texts1(site_object("rust_owner", &f.site_id)),
            ),
        ),
        StaticFact::CallbackSite(f) => Some(
            (
                V326LifecycleFactKind::CallbackDefinition,
                Some(f.def_path.clone()),
                texts1(site_object("callback", &f.site_id)),
            ),
        ),
        StaticFact::CallbackCapture(f) => {
            let kind = match f.capture_mode {
                CaptureMode::Borrowed => V326LifecycleFactKind::BorrowedCapture,
                CaptureMode::Owned => V326LifecycleFactKind::OwnedMoveCapture,
            };
            Some(
                (
                    kind,
                    None,
                    texts2(site_object("callback", &f.callback_site_id), site_object("rust_owner", &f.object_site_id)),
                ),
            )
        },
        StaticFact::DropSite(f) => Some(
            (V326LifecycleFactKind::DropSite, None, texts1(site_object("rust_owner", &f.object_site_id))),
        ),
        StaticFact::DropPrevention(f) => Some(
            (
                V326LifecycleFactKind::DropPrevention,
                Some(owned("drop_prevention::memforget")),
                texts1(site_object("rust_owner", &f.object_site_id)),
            ),
        ),
        StaticFact::CallbackUserDataReconstruction(f) => Some(
            (
                V326LifecycleFactKind::CallbackUserDataReconstruction,
                Some(concat2("callback_user_data_reconstruction::", reconstruction_token(f.reconstruction_kind))),
                texts4(
                    site_object("static_site", &f.site_id),
                    site_object("callback", &f.callback_site_id),
                    site_object("user_data", &f.user_data_site_id),
                    site_object("rust_owner", &f.object_site_id),
                ),
            ),
        ),
        StaticFact::RegistrationSite(f) => {
            let kind = match f.role {
                RegistrationRole::Register => V326LifecycleFactKind::RegisterCall,
                RegistrationRole::Unregister => V326LifecycleFactKind::UnregisterCall,
                RegistrationRole::Replace => V326LifecycleFactKind::ReplaceCall,
            };
            Some((kind, Some(f.api_id.clone()), registration_ids(f)))
        },
        StaticFact::RawPointerTransfer(f) => {
            let user_data = site_object("user_data", &f.user_data_site_id);
            match f.transfer_kind {
                RawPointerTransferKind::IntoRaw => Some((V326LifecycleFactKind::RawPointerEscape, None, texts1(user_data))),
                RawPointerTransferKind::FromRawParts => Some(
                    (
                        V326LifecycleFactKind::RawPointerEscape,
                        Some(owned("raw_pointer_transfer::from_raw_parts")),
                        texts1(user_data),
                    ),
                ),
                RawPointerTransferKind::FromRaw => Some(
                    (
                        V326LifecycleFactKind::ReleaseCall,
                        None,
                        texts2(user_data, site_object("release_endpoint", &f.site_id)),
                    ),
                ),
            }
        },
        StaticFact::ReleasePathProof(f) => Some(
            (
                V326LifecycleFactKind::ReleasePathProof,
                None,
                texts3(
                    site_object("user_data", &f.object_site_id),
                    site_object("static_site", &f.registration_site_id),
                    site_object("release_endpoint", &f.release_site_id),
                ),
            ),
        ),
        StaticFact::CallbackReleaseUseOrder(f) => {
            let mut ids = texts4(
                site_object("user_data", &f.object_site_id),
                site_object("static_site", &f.registration_site_id),
                site_object("release_endpoint", &f.release_site_id),
                site_object("static_site", &f.use_site_id),
            );
            push_text(&mut ids, concat2("callback_release_use_order:", release_use_token(f.ordering)));
            Some((V326LifecycleFactKind::CallbackReleaseUseOrder, Some(f.api_id.clone()), ids))
        },
        StaticFact::ReturnedBorrowRelation(f) => {
            let mut ids = texts2(
                site_object("rust_owner", &f.source_site_id),
                site_object("returned_ref", &f.returned_site_id),
            );
            match f.relation_kind {
                Some(ReturnedBorrowRelationKind::UnconstrainedReturnLifetime) => {
                    push_text(&mut ids, owned("static_site:returned_borrow_relation_kind:unconstrained_return_lifetime"));
                },
                _ => {},
            }
            Some((V326LifecycleFactKind::ReturnedBorrowRelation, Some(f.api_id.clone()), ids))
        },
        StaticFact::PersistedReturnedBorrow(f) => Some(
            (
                V326LifecycleFactKind::PersistedReturnedBorrow,
                Some(f.api_id.clone()),
                texts4(
                    site_object("static_site", &f.site_id),
                    site_object("rust_owner", &f.source_site_id),
                    site_object("returned_ref", &f.returned_site_id),
                    site_object("storage", &f.storage_site_id),
                ),
            ),
        ),
        StaticFact::ReturnedBorrowInvalidationOrder(f) => Some(
            (
                V326LifecycleFactKind::ReturnedBorrowInvalidationOrder,
                Some(f.api_id.clone()),
                texts4(
                    site_object("static_site", &f.persisted_site_id),
                    site_object("static_site", &f.invalidation_site_id),
                    site_object("static_site", &f.use_site_id),
                    concat2("returned_borrow_order:", returned_borrow_token(f.ordering)),
                ),
            ),
        ),
        StaticFact::ExternalBufferBinding(f) => Some(
            (
                V326LifecycleFactKind::ExternalBufferBinding,
                Some(f.api_id.clone()),
                texts2(site_object("rust_owner", &f.source_site_id), site_object("user_data", &f.buffer_site_id)),
            ),
        ),
        StaticFact::AtomicOrdering(f) => Some(
            (
                V326LifecycleFactKind::AtomicOrdering,
                Some(f.api_id.clone()),
                texts3(
                    site_object("static_site", &f.site_id),
                    concat2("atomic_operation:", atomic_operation_token(f.operation)),
                    concat2("atomic_ordering:", atomic_ordering_token(f.ordering)),
                ),
            ),
        ),
        StaticFact::ObjectBindingGap(f) => Some(
            (V326LifecycleFactKind::ObjectBindingGap, Some(f.api_id.clone()), object_binding_gap_object_ids(f)),
        ),
        StaticFact::ObjectFlow(f) => Some(
            (V326LifecycleFactKind::ObjectFlow, Some(f.api_id.clone()), object_flow_object_ids(f)),
        ),
        _ => None,
    }
}

} // verus!

verus! {

/// The candidate-scoped lifecycle fact made from a static fact: the run, the candidate's ids, a
/// fact id made of the candidate id and the static record id, the static fact's kind, symbol path
/// and object ids, the given source reference and evidence, high confidence, covered, and a
/// static-artifact provenance naming the static fact.
pub open spec fn is_fact_from_static(
    r: V326LifecycleFactRecord,
    run_id: Seq<char>,
    candidate: V32CandidateRecord,
    envelope: StaticFactEnvelope,
    source_ref: V326SourceRef,
    evidence_refs: Vec<String>,
) -> bool {
    let fields = spec_static_fact_fields(envelope.payload)->0;
    &&& r.schema_version@ == V3_2_6_LIFECYCLE_FACT_SCHEMA_V1@
    &&& r.run_id@ == run_id
    &&& r.candidate_id@ == candidate.candidate_id@
    &&& r.crate_id@ == candidate.crate_id@
    &&& r.fact_id@ == "fact:"@ + sanitized(candidate.candidate_id@) + ":"@ + sanitized(envelope.record_id.0@)
    &&& r.fact_kind == fields.0
    &&& r.source_ref == source_ref
    &&& opt_text(r.symbol_path) == fields.1
    &&& r.confidence == V326EvidenceConfidence::High
    &&& r.coverage_state == V326CoverageState::Covered
    &&& r.provenance.origin_view() == crate::lifecycle_v326::V326LifecycleFactOrigin::StaticArtifact
    &&& r.provenance.record_id_view() == Some(envelope.record_id.0)
    &&& r.provenance.build_id_view() == Some(envelope.build_id.0)
    &&& r.provenance.producer_view() == Some(envelope.producer)
    &&& r.provenance.anchors_view().len() == 0
    &&& !r.provenance.is_verified_static_artifact()
    &&& r.object_ids@.map_values(|s: String| s@) == fields.2
    &&& r.evidence_refs == evidence_refs
    &&& r.notes@.map_values(|s: String| s@) == seq!["candidate-scoped static lifecycle fact"@]
}

/// The lifecycle fact that a static fact contributes to a candidate, or `None` for a static fact
/// that is no lifecycle fact.
pub fn lifecycle_fact_from_static_fact(
    run_id: &str,
    candidate: &V32CandidateRecord,
    envelope: &StaticFactEnvelope,
    source_ref: V326SourceRef,
    evidence_refs: Vec<String>,
) -> (r: Option<V326LifecycleFactRecord>)
    ensures
        r is Some <==> spec_static_fact_fields(envelope.payload) is Some,
        r matches Some(f) ==> is_fact_from_static(f, run_id@, *candidate, *envelope, source_ref, evidence_refs),
{
    let (fact_kind, symbol_path, object_ids) = match lifecycle_static_fact_fields(envelope) {
        Some(fields) => fields,
        None => {
            return None;
        },
    };
    let mut fact_id = concat2("fact:", sanitize_id_for_path(candidate.candidate_id.as_str()).as_str());
    fact_id.append(":");
    fact_id.append(sanitize_id_for_path(envelope.record_id.as_str()).as_str());
    let mut notes: Vec<String> = Vec::new();
    push_text(&mut notes, owned("candidate-scoped static lifecycle fact"));
    assert(notes@.map_values(|s: String| s@) =~= seq!["candidate-scoped static lifecycle fact"@]);
    Some(
        V326LifecycleFactRecord {
            schema_version: owned(V3_2_6_LIFECYCLE_FACT_SCHEMA_V1),
            run_id: owned(run_id),
            candidate_id: candidate.candidate_id.clone(),
            crate_id: candidate.crate_id.clone(),
            fact_id,
            fact_kind,
            source_ref,
            symbol_path,
            confidence: V326EvidenceConfidence::High,
            coverage_state: V326CoverageState::Covered,
            provenance: V326LifecycleFactProvenance::static_artifact(envelope),
            object_ids,
            evidence_refs,
            notes,
        },
    )
}

} // verus!
