//! Scores, feature names and ranking reasons of V3.2.6 lifecycle features.

use vstd::prelude::*;

use crate::candidate::V32PatternFamily;
use crate::lifecycle::join_commas;
use crate::lifecycle_v326::{feature_names, feature_values, V326FeatureSet, V326LifecycleFeatureRecord, V326ScoreBreakdown};
use crate::text::{chars_of, char_is_ascii_alnum, decimal, decimal_string, is_ascii_alnum, owned};

verus! {

pub const SCORE_HAS_FOREIGN_REGISTER: i32 = 4;
pub const SCORE_FOREIGN_MAY_RETAIN_CALLBACK: i32 = 8;
pub const SCORE_FOREIGN_MAY_RETAIN_USER_DATA: i32 = 8;
pub const SCORE_HAS_BORROWED_CAPTURE: i32 = 10;
pub const SCORE_HAS_RAW_POINTER_ESCAPE: i32 = 10;
pub const SCORE_RAW_PARTS_TRANSFER_WITHOUT_DROP_PREVENTION: i32 = 31;
pub const SCORE_RAW_PARTS_TRANSFER_WITHOUT_DROP_PREVENTION_OWNER_ANCHOR_ONLY: i32 = 20;
pub const SCORE_HAS_DROP_PREVENTION: i32 = 20;
pub const SCORE_MANUAL_DROP_PREVENTION_WITHOUT_DROP_GUARD: i32 = 6;
pub const SCORE_CALLBACK_USER_DATA_OWNER_RECONSTRUCTION_WITHOUT_LEAK_GUARD: i32 = 34;
pub const SCORE_HAS_RETURNED_BORROW_RELATION: i32 = 8;
pub const SCORE_HAS_UNCONSTRAINED_RETURN_LIFETIME: i32 = 6;
pub const SCORE_HAS_PERSISTED_RETURNED_BORROW: i32 = 4;
pub const SCORE_RETURNED_BORROW_PERSISTENCE_BEFORE_INVALIDATION: i32 = 14;
pub const SCORE_RETURNED_BORROW_PERSISTENCE_AFTER_INVALIDATION: i32 = -12;
pub const SCORE_HAS_EXTERNAL_BUFFER_BINDING: i32 = 8;
pub const SCORE_EXTERNAL_BUFFER_WITHOUT_STATIC_BOUND: i32 = 10;
pub const SCORE_HAS_EXTERNAL_BUFFER_LIFETIME_BOUND: i32 = -6;
pub const SCORE_RELAXED_ATOMIC_LOAD_IN_ITERATOR: i32 = 12;
pub const SCORE_ACQUIRE_ATOMIC_LOAD_IN_ITERATOR: i32 = -6;
pub const SCORE_HAS_VERIFIED_OBJECT_CHAIN: i32 = 4;
pub const SCORE_HAS_RELEASE_ORDER_CHAIN: i32 = -4;
pub const SCORE_HAS_PERSISTED_INVALIDATION_USE_CHAIN: i32 = 6;
pub const SCORE_HAS_CALLBACK_RELEASE_USE_CHAIN: i32 = 8;
pub const SCORE_RUST_OBJECT_MAY_DROP_BEFORE_FOREIGN_RELEASE: i32 = 15;
pub const SCORE_MISSING_UNREGISTER_BEFORE_DROP: i32 = 10;
pub const SCORE_RELEASE_ORDER_UNKNOWN: i32 = 5;
pub const SCORE_OPAQUE_HANDLE_WITHOUT_OWNER: i32 = 8;
pub const SCORE_NEEDS_DYNAMIC_WITNESS: i32 = 5;
pub const SCORE_HAS_OWNED_ANCHOR: i32 = -12;
pub const SCORE_HAS_DROP_GUARD: i32 = -10;
pub const SCORE_REGISTRATION_RELEASE_PAIR_FOUND: i32 = -8;
pub const SCORE_HAS_STATIC_BOUND: i32 = -6;
pub const SCORE_HAS_ARC_ANCHOR: i32 = -8;
pub const SCORE_RELEASE_COVERS_CALLBACK: i32 = -8;

/// The weight of a feature when it is active, else zero.
pub open spec fn flag(active: bool, weight: i32) -> i32 {
    if active {
        weight
    } else {
        0
    }
}

fn flag_score(active: bool, weight: i32) -> (r: i32)
    ensures
        r == flag(active, weight),
{
    if active {
        weight
    } else {
        0
    }
}

/// An external buffer binding weighs more when neither a static bound nor a lifetime bound
/// protects it.
pub open spec fn spec_external_buffer_score(f: V326FeatureSet) -> i32 {
    if f.has_external_buffer_binding && !f.has_static_bound && !f.has_external_buffer_lifetime_bound {
        SCORE_EXTERNAL_BUFFER_WITHOUT_STATIC_BOUND
    } else {
        SCORE_HAS_EXTERNAL_BUFFER_BINDING
    }
}

/// A raw-parts transfer weighs less when an owned anchor is its only other signal.
pub open spec fn spec_raw_parts_score(f: V326FeatureSet) -> i32 {
    if f.raw_parts_transfer_without_drop_prevention && f.has_owned_anchor && !f.has_drop_guard
        && !f.has_verified_object_chain && !f.has_release_order_chain
        && !f.has_persisted_invalidation_use_chain {
        SCORE_RAW_PARTS_TRANSFER_WITHOUT_DROP_PREVENTION_OWNER_ANCHOR_ONLY
    } else {
        SCORE_RAW_PARTS_TRANSFER_WITHOUT_DROP_PREVENTION
    }
}

/// A foreign retention of user data that a static bound on an owned anchor protects.
pub open spec fn retention_is_lifetime_protected(f: V326FeatureSet) -> bool {
    f.has_static_bound && f.has_owned_anchor && !f.has_borrowed_capture
}

/// The score breakdown of a feature set: each feature's weight when it is active.
pub open spec fn spec_score_breakdown(f: V326FeatureSet) -> V326ScoreBreakdown {
    V326ScoreBreakdown {
        has_foreign_register: flag(f.has_foreign_register, SCORE_HAS_FOREIGN_REGISTER),
        foreign_may_retain_callback: flag(f.foreign_may_retain_callback, SCORE_FOREIGN_MAY_RETAIN_CALLBACK),
        foreign_may_retain_user_data: flag(
            f.foreign_may_retain_user_data && !retention_is_lifetime_protected(f),
            SCORE_FOREIGN_MAY_RETAIN_USER_DATA,
        ),
        has_borrowed_capture: flag(f.has_borrowed_capture, SCORE_HAS_BORROWED_CAPTURE),
        has_raw_pointer_escape: flag(f.has_raw_pointer_escape, SCORE_HAS_RAW_POINTER_ESCAPE),
        raw_parts_transfer_without_drop_prevention: flag(
            f.raw_parts_transfer_without_drop_prevention,
            spec_raw_parts_score(f),
        ),
        has_drop_prevention: flag(f.has_drop_prevention, SCORE_HAS_DROP_PREVENTION),
        manual_drop_prevention_without_drop_guard: flag(
            f.manual_drop_prevention_without_drop_guard,
            SCORE_MANUAL_DROP_PREVENTION_WITHOUT_DROP_GUARD,
        ),
        callback_user_data_owner_reconstruction_without_leak_guard: flag(
            f.callback_user_data_owner_reconstruction_without_leak_guard,
            SCORE_CALLBACK_USER_DATA_OWNER_RECONSTRUCTION_WITHOUT_LEAK_GUARD,
        ),
        has_returned_borrow_relation: flag(f.has_returned_borrow_relation, SCORE_HAS_RETURNED_BORROW_RELATION),
        has_unconstrained_return_lifetime: flag(
            f.has_unconstrained_return_lifetime,
            SCORE_HAS_UNCONSTRAINED_RETURN_LIFETIME,
        ),
        has_persisted_returned_borrow: flag(f.has_persisted_returned_borrow, SCORE_HAS_PERSISTED_RETURNED_BORROW),
        returned_borrow_persistence_before_invalidation: flag(
            f.returned_borrow_persistence_before_invalidation,
            SCORE_RETURNED_BORROW_PERSISTENCE_BEFORE_INVALIDATION,
        ),
        returned_borrow_persistence_after_invalidation: flag(
            f.returned_borrow_persistence_after_invalidation,
            SCORE_RETURNED_BORROW_PERSISTENCE_AFTER_INVALIDATION,
        ),
        has_external_buffer_binding: flag(f.has_external_buffer_binding, spec_external_buffer_score(f)),
        has_external_buffer_lifetime_bound: flag(
            f.has_external_buffer_lifetime_bound,
            SCORE_HAS_EXTERNAL_BUFFER_LIFETIME_BOUND,
        ),
        relaxed_atomic_load_in_iterator: flag(
            f.relaxed_atomic_load_in_iterator,
            SCORE_RELAXED_ATOMIC_LOAD_IN_ITERATOR,
        ),
        acquire_atomic_load_in_iterator: flag(
            f.acquire_atomic_load_in_iterator,
            SCORE_ACQUIRE_ATOMIC_LOAD_IN_ITERATOR,
        ),
        has_verified_object_chain: flag(f.has_verified_object_chain, SCORE_HAS_VERIFIED_OBJECT_CHAIN),
        has_release_order_chain: flag(f.has_release_order_chain, SCORE_HAS_RELEASE_ORDER_CHAIN),
        has_persisted_invalidation_use_chain: flag(
            f.has_persisted_invalidation_use_chain,
            SCORE_HAS_PERSISTED_INVALIDATION_USE_CHAIN,
        ),
        has_callback_release_use_chain: flag(
            f.has_callback_release_use_chain,
            SCORE_HAS_CALLBACK_RELEASE_USE_CHAIN,
        ),
        rust_object_may_drop_before_foreign_release: flag(
            f.rust_object_may_drop_before_foreign_release,
            SCORE_RUST_OBJECT_MAY_DROP_BEFORE_FOREIGN_RELEASE,
        ),
        missing_unregister_before_drop: flag(
            f.missing_unregister_before_drop,
            SCORE_MISSING_UNREGISTER_BEFORE_DROP,
        ),
        release_order_unknown: flag(f.release_order_unknown, SCORE_RELEASE_ORDER_UNKNOWN),
        opaque_handle_without_owner: flag(f.opaque_handle_without_owner, SCORE_OPAQUE_HANDLE_WITHOUT_OWNER),
        needs_dynamic_witness: flag(f.needs_dynamic_witness, SCORE_NEEDS_DYNAMIC_WITNESS),
        has_owned_anchor: flag(f.has_owned_anchor, SCORE_HAS_OWNED_ANCHOR),
        has_drop_guard: flag(f.has_drop_guard, SCORE_HAS_DROP_GUARD),
        registration_release_pair_found: flag(
            f.registration_release_pair_found,
            SCORE_REGISTRATION_RELEASE_PAIR_FOUND,
        ),
        has_static_bound: flag(f.has_static_bound, SCORE_HAS_STATIC_BOUND),
        has_arc_anchor: flag(f.has_arc_anchor, SCORE_HAS_ARC_ANCHOR),
        release_covers_callback: flag(f.release_covers_callback, SCORE_RELEASE_COVERS_CALLBACK),
    }
}

fn score_breakdown_from_features(f: &V326FeatureSet) -> (b: V326ScoreBreakdown)
    ensures
        b == spec_score_breakdown(*f),
{
    let protected = f.has_static_bound && f.has_owned_anchor && !f.has_borrowed_capture;
    let external = if f.has_external_buffer_binding && !f.has_static_bound && !f.has_external_buffer_lifetime_bound {
        SCORE_EXTERNAL_BUFFER_WITHOUT_STATIC_BOUND
    } else {
        SCORE_HAS_EXTERNAL_BUFFER_BINDING
    };
    let raw_parts = if f.raw_parts_transfer_without_drop_prevention && f.has_owned_anchor && !f.has_drop_guard
        && !f.has_verified_object_chain && !f.has_release_order_chain
        && !f.has_persisted_invalidation_use_chain {
        SCORE_RAW_PARTS_TRANSFER_WITHOUT_DROP_PREVENTION_OWNER_ANCHOR_ONLY
    } else {
        SCORE_RAW_PARTS_TRANSFER_WITHOUT_DROP_PREVENTION
    };
    V326ScoreBreakdown {
        has_foreign_register: flag_score(f.has_foreign_register, SCORE_HAS_FOREIGN_REGISTER),
        foreign_may_retain_callback: flag_score(f.foreign_may_retain_callback, SCORE_FOREIGN_MAY_RETAIN_CALLBACK),
        foreign_may_retain_user_data: flag_score(
            f.foreign_may_retain_user_data && !protected,
            SCORE_FOREIGN_MAY_RETAIN_USER_DATA,
        ),
        has_borrowed_capture: flag_score(f.has_borrowed_capture, SCORE_HAS_BORROWED_CAPTURE),
        has_raw_pointer_escape: flag_score(f.has_raw_pointer_escape, SCORE_HAS_RAW_POINTER_ESCAPE),
        raw_parts_transfer_without_drop_prevention: flag_score(
            f.raw_parts_transfer_without_drop_prevention,
            raw_parts,
        ),
        has_drop_prevention: flag_score(f.has_drop_prevention, SCORE_HAS_DROP_PREVENTION),
        manual_drop_prevention_without_drop_guard: flag_score(
            f.manual_drop_prevention_without_drop_guard,
            SCORE_MANUAL_DROP_PREVENTION_WITHOUT_DROP_GUARD,
        ),
        callback_user_data_owner_reconstruction_without_leak_guard: flag_score(
            f.callback_user_data_owner_reconstruction_without_leak_guard,
            SCORE_CALLBACK_USER_DATA_OWNER_RECONSTRUCTION_WITHOUT_LEAK_GUARD,
        ),
        has_returned_borrow_relation: flag_score(
            f.has_returned_borrow_relation,
            SCORE_HAS_RETURNED_BORROW_RELATION,
        ),
        has_unconstrained_return_lifetime: flag_score(
            f.has_unconstrained_return_lifetime,
            SCORE_HAS_UNCONSTRAINED_RETURN_LIFETIME,
        ),
        has_persisted_returned_borrow: flag_score(
            f.has_persisted_returned_borrow,
            SCORE_HAS_PERSISTED_RETURNED_BORROW,
        ),
        returned_borrow_persistence_before_invalidation: flag_score(
            f.returned_borrow_persistence_before_invalidation,
            SCORE_RETURNED_BORROW_PERSISTENCE_BEFORE_INVALIDATION,
        ),
        returned_borrow_persistence_after_invalidation: flag_score(
            f.returned_borrow_persistence_after_invalidation,
            SCORE_RETURNED_BORROW_PERSISTENCE_AFTER_INVALIDATION,
        ),
        has_external_buffer_binding: flag_score(f.has_external_buffer_binding, external),
        has_external_buffer_lifetime_bound: flag_score(
            f.has_external_buffer_lifetime_bound,
            SCORE_HAS_EXTERNAL_BUFFER_LIFETIME_BOUND,
        ),
        relaxed_atomic_load_in_iterator: flag_score(
            f.relaxed_atomic_load_in_iterator,
            SCORE_RELAXED_ATOMIC_LOAD_IN_ITERATOR,
        ),
        acquire_atomic_load_in_iterator: flag_score(
            f.acquire_atomic_load_in_iterator,
            SCORE_ACQUIRE_ATOMIC_LOAD_IN_ITERATOR,
        ),
        has_verified_object_chain: flag_score(f.has_verified_object_chain, SCORE_HAS_VERIFIED_OBJECT_CHAIN),
        has_release_order_chain: flag_score(f.has_release_order_chain, SCORE_HAS_RELEASE_ORDER_CHAIN),
        has_persisted_invalidation_use_chain: flag_score(
            f.has_persisted_invalidation_use_chain,
            SCORE_HAS_PERSISTED_INVALIDATION_USE_CHAIN,
        ),
        has_callback_release_use_chain: flag_score(
            f.has_callback_release_use_chain,
            SCORE_HAS_CALLBACK_RELEASE_USE_CHAIN,
        ),
        rust_object_may_drop_before_foreign_release: flag_score(
            f.rust_object_may_drop_before_foreign_release,
            SCORE_RUST_OBJECT_MAY_DROP_BEFORE_FOREIGN_RELEASE,
        ),
        missing_unregister_before_drop: flag_score(
            f.missing_unregister_before_drop,
            SCORE_MISSING_UNREGISTER_BEFORE_DROP,
        ),
        release_order_unknown: flag_score(f.release_order_unknown, SCORE_RELEASE_ORDER_UNKNOWN),
        opaque_handle_without_owner: flag_score(f.opaque_handle_without_owner, SCORE_OPAQUE_HANDLE_WITHOUT_OWNER),
        needs_dynamic_witness: flag_score(f.needs_dynamic_witness, SCORE_NEEDS_DYNAMIC_WITNESS),
        has_owned_anchor: flag_score(f.has_owned_anchor, SCORE_HAS_OWNED_ANCHOR),
        has_drop_guard: flag_score(f.has_drop_guard, SCORE_HAS_DROP_GUARD),
        registration_release_pair_found: flag_score(
            f.registration_release_pair_found,
            SCORE_REGISTRATION_RELEASE_PAIR_FOUND,
        ),
        has_static_bound: flag_score(f.has_static_bound, SCORE_HAS_STATIC_BOUND),
        has_arc_anchor: flag_score(f.has_arc_anchor, SCORE_HAS_ARC_ANCHOR),
        release_covers_callback: flag_score(f.release_covers_callback, SCORE_RELEASE_COVERS_CALLBACK),
    }
}

/// An external buffer view whose only signals are the binding and a verified chain of it: the
/// chain is then diagnostic and does not count.
pub open spec fn binding_only_chain_is_diagnostic(r: V326LifecycleFeatureRecord) -> bool {
    let f = r.features;
    &&& r.pattern_family == V32PatternFamily::ExternalBufferView
    &&& f.has_external_buffer_binding
    &&& f.has_verified_object_chain
    &&& !f.has_release_order_chain
    &&& !f.has_persisted_invalidation_use_chain
    &&& !f.has_returned_borrow_relation
    &&& !f.has_persisted_returned_borrow
    &&& !f.has_foreign_register
    &&& !f.foreign_may_retain_callback
    &&& !f.foreign_may_retain_user_data
}

/// The score breakdown of a feature record.
pub open spec fn spec_record_breakdown(r: V326LifecycleFeatureRecord) -> V326ScoreBreakdown {
    let b = spec_score_breakdown(r.features);
    if binding_only_chain_is_diagnostic(r) {
        V326ScoreBreakdown { has_verified_object_chain: 0, ..b }
    } else {
        b
    }
}

pub fn score_breakdown_from_feature_record(r: &V326LifecycleFeatureRecord) -> (b: V326ScoreBreakdown)
    ensures
        b == spec_record_breakdown(*r),
{
    let mut b = score_breakdown_from_features(&r.features);
    let f = &r.features;
    let external_view = match r.pattern_family {
        V32PatternFamily::ExternalBufferView => true,
        _ => false,
    };
    if external_view && f.has_external_buffer_binding && f.has_verified_object_chain && !f.has_release_order_chain
        && !f.has_persisted_invalidation_use_chain && !f.has_returned_borrow_relation
        && !f.has_persisted_returned_borrow && !f.has_foreign_register && !f.foreign_may_retain_callback
        && !f.foreign_may_retain_user_data {
        b.has_verified_object_chain = 0;
    }
    b
}

} // verus!

verus! {

/// The partial sums of a score breakdown: the first `k` parts added in declaration order, for
/// `k` from zero to all of them.
pub open spec fn partial_sums(b: V326ScoreBreakdown) -> Seq<int> {
    let p0: int = 0;
    let p1: int = p0 + b.has_foreign_register;
    let p2: int = p1 + b.foreign_may_retain_callback;
    let p3: int = p2 + b.foreign_may_retain_user_data;
    let p4: int = p3 + b.has_borrowed_capture;
    let p5: int = p4 + b.has_raw_pointer_escape;
    let p6: int = p5 + b.raw_parts_transfer_without_drop_prevention;
    let p7: int = p6 + b.has_drop_prevention;
    let p8: int = p7 + b.manual_drop_prevention_without_drop_guard;
    let p9: int = p8 + b.callback_user_data_owner_reconstruction_without_leak_guard;
    let p10: int = p9 + b.has_returned_borrow_relation;
    let p11: int = p10 + b.has_unconstrained_return_lifetime;
    let p12: int = p11 + b.has_persisted_returned_borrow;
    let p13: int = p12 + b.returned_borrow_persistence_before_invalidation;
    let p14: int = p13 + b.returned_borrow_persistence_after_invalidation;
    let p15: int = p14 + b.has_external_buffer_binding;
    let p16: int = p15 + b.has_external_buffer_lifetime_bound;
    let p17: int = p16 + b.relaxed_atomic_load_in_iterator;
    let p18: int = p17 + b.acquire_atomic_load_in_iterator;
    let p19: int = p18 + b.has_verified_object_chain;
    let p20: int = p19 + b.has_release_order_chain;
    let p21: int = p20 + b.has_persisted_invalidation_use_chain;
    let p22: int = p21 + b.has_callback_release_use_chain;
    let p23: int = p22 + b.rust_object_may_drop_before_foreign_release;
    let p24: int = p23 + b.missing_unregister_before_drop;
    let p25: int = p24 + b.release_order_unknown;
    let p26: int = p25 + b.opaque_handle_without_owner;
    let p27: int = p26 + b.needs_dynamic_witness;
    let p28: int = p27 + b.has_owned_anchor;
    let p29: int = p28 + b.has_drop_guard;
    let p30: int = p29 + b.registration_release_pair_found;
    let p31: int = p30 + b.has_static_bound;
    let p32: int = p31 + b.has_arc_anchor;
    let p33: int = p32 + b.release_covers_callback;
    seq![p0, p1, p2, p3, p4, p5, p6, p7, p8, p9, p10, p11, p12, p13, p14, p15, p16, p17, p18, p19, p20, p21, p22, p23, p24, p25, p26, p27, p28, p29, p30, p31, p32, p33]
}

/// The total of a score breakdown: the sum of all its parts.
pub open spec fn breakdown_total(b: V326ScoreBreakdown) -> int {
    b.has_foreign_register + b.foreign_may_retain_callback + b.foreign_may_retain_user_data + b.has_borrowed_capture + b.has_raw_pointer_escape + b.raw_parts_transfer_without_drop_prevention + b.has_drop_prevention + b.manual_drop_prevention_without_drop_guard + b.callback_user_data_owner_reconstruction_without_leak_guard + b.has_returned_borrow_relation + b.has_unconstrained_return_lifetime + b.has_persisted_returned_borrow + b.returned_borrow_persistence_before_invalidation + b.returned_borrow_persistence_after_invalidation + b.has_external_buffer_binding + b.has_external_buffer_lifetime_bound + b.relaxed_atomic_load_in_iterator + b.acquire_atomic_load_in_iterator + b.has_verified_object_chain + b.has_release_order_chain + b.has_persisted_invalidation_use_chain + b.has_callback_release_use_chain + b.rust_object_may_drop_before_foreign_release + b.missing_unregister_before_drop + b.release_order_unknown + b.opaque_handle_without_owner + b.needs_dynamic_witness + b.has_owned_anchor + b.has_drop_guard + b.registration_release_pair_found + b.has_static_bound + b.has_arc_anchor + b.release_covers_callback
}

/// Adding the parts in declaration order never leaves the range of `i32`.
pub open spec fn breakdown_fits(b: V326ScoreBreakdown) -> bool {
    let p0: int = 0;
    let p1: int = p0 + b.has_foreign_register;
    let p2: int = p1 + b.foreign_may_retain_callback;
    let p3: int = p2 + b.foreign_may_retain_user_data;
    let p4: int = p3 + b.has_borrowed_capture;
    let p5: int = p4 + b.has_raw_pointer_escape;
    let p6: int = p5 + b.raw_parts_transfer_without_drop_prevention;
    let p7: int = p6 + b.has_drop_prevention;
    let p8: int = p7 + b.manual_drop_prevention_without_drop_guard;
    let p9: int = p8 + b.callback_user_data_owner_reconstruction_without_leak_guard;
    let p10: int = p9 + b.has_returned_borrow_relation;
    let p11: int = p10 + b.has_unconstrained_return_lifetime;
    let p12: int = p11 + b.has_persisted_returned_borrow;
    let p13: int = p12 + b.returned_borrow_persistence_before_invalidation;
    let p14: int = p13 + b.returned_borrow_persistence_after_invalidation;
    let p15: int = p14 + b.has_external_buffer_binding;
    let p16: int = p15 + b.has_external_buffer_lifetime_bound;
    let p17: int = p16 + b.relaxed_atomic_load_in_iterator;
    let p18: int = p17 + b.acquire_atomic_load_in_iterator;
    let p19: int = p18 + b.has_verified_object_chain;
    let p20: int = p19 + b.has_release_order_chain;
    let p21: int = p20 + b.has_persisted_invalidation_use_chain;
    let p22: int = p21 + b.has_callback_release_use_chain;
    let p23: int = p22 + b.rust_object_may_drop_before_foreign_release;
    let p24: int = p23 + b.missing_unregister_before_drop;
    let p25: int = p24 + b.release_order_unknown;
    let p26: int = p25 + b.opaque_handle_without_owner;
    let p27: int = p26 + b.needs_dynamic_witness;
    let p28: int = p27 + b.has_owned_anchor;
    let p29: int = p28 + b.has_drop_guard;
    let p30: int = p29 + b.registration_release_pair_found;
    let p31: int = p30 + b.has_static_bound;
    let p32: int = p31 + b.has_arc_anchor;
    let p33: int = p32 + b.release_covers_callback;
    &&& i32::MIN <= p1 <= i32::MAX
    &&& i32::MIN <= p2 <= i32::MAX
    &&& i32::MIN <= p3 <= i32::MAX
    &&& i32::MIN <= p4 <= i32::MAX
    &&& i32::MIN <= p5 <= i32::MAX
    &&& i32::MIN <= p6 <= i32::MAX
    &&& i32::MIN <= p7 <= i32::MAX
    &&& i32::MIN <= p8 <= i32::MAX
    &&& i32::MIN <= p9 <= i32::MAX
    &&& i32::MIN <= p10 <= i32::MAX
    &&& i32::MIN <= p11 <= i32::MAX
    &&& i32::MIN <= p12 <= i32::MAX
    &&& i32::MIN <= p13 <= i32::MAX
    &&& i32::MIN <= p14 <= i32::MAX
    &&& i32::MIN <= p15 <= i32::MAX
    &&& i32::MIN <= p16 <= i32::MAX
    &&& i32::MIN <= p17 <= i32::MAX
    &&& i32::MIN <= p18 <= i32::MAX
    &&& i32::MIN <= p19 <= i32::MAX
    &&& i32::MIN <= p20 <= i32::MAX
    &&& i32::MIN <= p21 <= i32::MAX
    &&& i32::MIN <= p22 <= i32::MAX
    &&& i32::MIN <= p23 <= i32::MAX
    &&& i32::MIN <= p24 <= i32::MAX
    &&& i32::MIN <= p25 <= i32::MAX
    &&& i32::MIN <= p26 <= i32::MAX
    &&& i32::MIN <= p27 <= i32::MAX
    &&& i32::MIN <= p28 <= i32::MAX
    &&& i32::MIN <= p29 <= i32::MAX
    &&& i32::MIN <= p30 <= i32::MAX
    &&& i32::MIN <= p31 <= i32::MAX
    &&& i32::MIN <= p32 <= i32::MAX
    &&& i32::MIN <= p33 <= i32::MAX
}

/// The score of a breakdown: its total, or zero when the total is negative.
pub open spec fn spec_score(b: V326ScoreBreakdown) -> u32 {
    if breakdown_total(b) < 0 {
        0
    } else {
        breakdown_total(b) as u32
    }
}

/// The score of a breakdown: the sum of its parts, or zero when the sum is negative. The parts
/// are added in `i32` in declaration order, so every partial sum must stay in range.
pub fn recompute_score(b: &V326ScoreBreakdown) -> (score: u32)
    requires
        breakdown_fits(*b),
    ensures
        score == spec_score(*b),
{
    let total: i32 = b.has_foreign_register;
    let total: i32 = total + b.foreign_may_retain_callback;
    let total: i32 = total + b.foreign_may_retain_user_data;
    let total: i32 = total + b.has_borrowed_capture;
    let total: i32 = total + b.has_raw_pointer_escape;
    let total: i32 = total + b.raw_parts_transfer_without_drop_prevention;
    let total: i32 = total + b.has_drop_prevention;
    let total: i32 = total + b.manual_drop_prevention_without_drop_guard;
    let total: i32 = total + b.callback_user_data_owner_reconstruction_without_leak_guard;
    let total: i32 = total + b.has_returned_borrow_relation;
    let total: i32 = total + b.has_unconstrained_return_lifetime;
    let total: i32 = total + b.has_persisted_returned_borrow;
    let total: i32 = total + b.returned_borrow_persistence_before_invalidation;
    let total: i32 = total + b.returned_borrow_persistence_after_invalidation;
    let total: i32 = total + b.has_external_buffer_binding;
    let total: i32 = total + b.has_external_buffer_lifetime_bound;
    let total: i32 = total + b.relaxed_atomic_load_in_iterator;
    let total: i32 = total + b.acquire_atomic_load_in_iterator;
    let total: i32 = total + b.has_verified_object_chain;
    let total: i32 = total + b.has_release_order_chain;
    let total: i32 = total + b.has_persisted_invalidation_use_chain;
    let total: i32 = total + b.has_callback_release_use_chain;
    let total: i32 = total + b.rust_object_may_drop_before_foreign_release;
    let total: i32 = total + b.missing_unregister_before_drop;
    let total: i32 = total + b.release_order_unknown;
    let total: i32 = total + b.opaque_handle_without_owner;
    let total: i32 = total + b.needs_dynamic_witness;
    let total: i32 = total + b.has_owned_anchor;
    let total: i32 = total + b.has_drop_guard;
    let total: i32 = total + b.registration_release_pair_found;
    let total: i32 = total + b.has_static_bound;
    let total: i32 = total + b.has_arc_anchor;
    let total: i32 = total + b.release_covers_callback;
    if total < 0 {
        0
    } else {
        total as u32
    }
}

/// Every part of a breakdown lies between -100 and 100.
pub open spec fn parts_small(b: V326ScoreBreakdown) -> bool {
    &&& -100 <= b.has_foreign_register <= 100
    &&& -100 <= b.foreign_may_retain_callback <= 100
    &&& -100 <= b.foreign_may_retain_user_data <= 100
    &&& -100 <= b.has_borrowed_capture <= 100
    &&& -100 <= b.has_raw_pointer_escape <= 100
    &&& -100 <= b.raw_parts_transfer_without_drop_prevention <= 100
    &&& -100 <= b.has_drop_prevention <= 100
    &&& -100 <= b.manual_drop_prevention_without_drop_guard <= 100
    &&& -100 <= b.callback_user_data_owner_reconstruction_without_leak_guard <= 100
    &&& -100 <= b.has_returned_borrow_relation <= 100
    &&& -100 <= b.has_unconstrained_return_lifetime <= 100
    &&& -100 <= b.has_persisted_returned_borrow <= 100
    &&& -100 <= b.returned_borrow_persistence_before_invalidation <= 100
    &&& -100 <= b.returned_borrow_persistence_after_invalidation <= 100
    &&& -100 <= b.has_external_buffer_binding <= 100
    &&& -100 <= b.has_external_buffer_lifetime_bound <= 100
    &&& -100 <= b.relaxed_atomic_load_in_iterator <= 100
    &&& -100 <= b.acquire_atomic_load_in_iterator <= 100
    &&& -100 <= b.has_verified_object_chain <= 100
    &&& -100 <= b.has_release_order_chain <= 100
    &&& -100 <= b.has_persisted_invalidation_use_chain <= 100
    &&& -100 <= b.has_callback_release_use_chain <= 100
    &&& -100 <= b.rust_object_may_drop_before_foreign_release <= 100
    &&& -100 <= b.missing_unregister_before_drop <= 100
    &&& -100 <= b.release_order_unknown <= 100
    &&& -100 <= b.opaque_handle_without_owner <= 100
    &&& -100 <= b.needs_dynamic_witness <= 100
    &&& -100 <= b.has_owned_anchor <= 100
    &&& -100 <= b.has_drop_guard <= 100
    &&& -100 <= b.registration_release_pair_found <= 100
    &&& -100 <= b.has_static_bound <= 100
    &&& -100 <= b.has_arc_anchor <= 100
    &&& -100 <= b.release_covers_callback <= 100
}

/// A breakdown of small parts fits.
proof fn lemma_small_parts_fit(b: V326ScoreBreakdown)
    requires
        parts_small(b),
    ensures
        breakdown_fits(b),
{
}

/// Every part of a feature record's breakdown is one of the weights or zero, so the breakdown
/// fits.
pub proof fn lemma_record_breakdown_fits(r: V326LifecycleFeatureRecord)
    ensures
        breakdown_fits(spec_record_breakdown(r)),
{
    let b = spec_score_breakdown(r.features);
    assert(parts_small(b));
    assert(parts_small(spec_record_breakdown(r)));
    lemma_small_parts_fit(spec_record_breakdown(r));
}

} // verus!

verus! {

/// The names of the selected features that are active, in the order of selection.
pub open spec fn selected_names(f: V326FeatureSet, sel: Seq<int>, n: int) -> Seq<Seq<char>>
    decreases n,
{
    if n <= 0 {
        Seq::empty()
    } else if feature_values(f)[sel[n - 1]] {
        selected_names(f, sel, n - 1).push(feature_names()[sel[n - 1]])
    } else {
        selected_names(f, sel, n - 1)
    }
}

/// The number of features that can signal a risk.
pub const RISK_FEATURE_COUNT: usize = 23;

/// The number of features that can signal protection.
pub const PROTECTIVE_FEATURE_COUNT: usize = 13;

/// The positions of the features that signal a risk, in the order they are reported.
pub open spec fn risk_selection() -> Seq<int> {
    seq![0, 1, 2, 3, 4, 5, 6, 7, 8, 9, 10, 11, 12, 14, 16, 18, 20, 21, 22, 23, 24, 25, 26]
}

/// The positions of the features that signal protection, in the order they are reported.
pub open spec fn protective_selection() -> Seq<int> {
    seq![27, 28, 29, 30, 31, 15, 17, 19, 32, 33, 34, 35, 13]
}

fn risk_position(i: usize) -> (k: usize)
    requires
        i < RISK_FEATURE_COUNT,
    ensures
        k == risk_selection()[i as int],
        k < 36,
{
    match i {
        0 => 0,
        1 => 1,
        2 => 2,
        3 => 3,
        4 => 4,
        5 => 5,
        6 => 6,
        7 => 7,
        8 => 8,
        9 => 9,
        10 => 10,
        11 => 11,
        12 => 12,
        13 => 14,
        14 => 16,
        15 => 18,
        16 => 20,
        17 => 21,
        18 => 22,
        19 => 23,
        20 => 24,
        21 => 25,
        _ => 26,
    }
}

fn protective_position(i: usize) -> (k: usize)
    requires
        i < PROTECTIVE_FEATURE_COUNT,
    ensures
        k == protective_selection()[i as int],
        k < 36,
{
    match i {
        0 => 27,
        1 => 28,
        2 => 29,
        3 => 30,
        4 => 31,
        5 => 15,
        6 => 17,
        7 => 19,
        8 => 32,
        9 => 33,
        10 => 34,
        11 => 35,
        _ => 13,
    }
}

/// The names of the active risk features.
pub open spec fn spec_risk_names(f: V326FeatureSet) -> Seq<Seq<char>> {
    selected_names(f, risk_selection(), RISK_FEATURE_COUNT as int)
}

/// The names of the active protective features.
pub open spec fn spec_protective_names(f: V326FeatureSet) -> Seq<Seq<char>> {
    selected_names(f, protective_selection(), PROTECTIVE_FEATURE_COUNT as int)
}

pub fn risk_feature_names(f: &V326FeatureSet) -> (r: Vec<String>)
    ensures
        r@.map_values(|s: String| s@) == spec_risk_names(*f),
{
    let mut r: Vec<String> = Vec::new();
    let mut i: usize = 0;
    while i < RISK_FEATURE_COUNT
        invariant
            0 <= i <= RISK_FEATURE_COUNT,
            r@.map_values(|s: String| s@) == selected_names(*f, risk_selection(), i as int),
        decreases RISK_FEATURE_COUNT - i,
    {
        let (name, active) = f.flag_at(risk_position(i));
        if active {
            let ghost old_r = r@.map_values(|s: String| s@);
            r.push(owned(name));
            assert(r@.map_values(|s: String| s@) =~= old_r.push(name@));
        }
        i = i + 1;
    }
    r
}

pub fn protective_feature_names(f: &V326FeatureSet) -> (r: Vec<String>)
    ensures
        r@.map_values(|s: String| s@) == spec_protective_names(*f),
{
    let mut r: Vec<String> = Vec::new();
    let mut i: usize = 0;
    while i < PROTECTIVE_FEATURE_COUNT
        invariant
            0 <= i <= PROTECTIVE_FEATURE_COUNT,
            r@.map_values(|s: String| s@) == selected_names(*f, protective_selection(), i as int),
        decreases PROTECTIVE_FEATURE_COUNT - i,
    {
        let (name, active) = f.flag_at(protective_position(i));
        if active {
            let ghost old_r = r@.map_values(|s: String| s@);
            r.push(owned(name));
            assert(r@.map_values(|s: String| s@) =~= old_r.push(name@));
        }
        i = i + 1;
    }
    r
}

/// The texts joined by commas, or `none` when there is none.
pub open spec fn joined_or_none(s: Seq<Seq<char>>) -> Seq<char> {
    if s.len() == 0 {
        "none"@
    } else {
        join_commas(s)
    }
}

/// The texts of a list, joined by commas, or `none` when the list is empty.
pub fn join_or_none(values: &Vec<String>) -> (r: String)
    ensures
        r@ == joined_or_none(values@.map_values(|s: String| s@)),
{
    if values.len() == 0 {
        return owned("none");
    }
    let ghost t = values@.map_values(|s: String| s@);
    let mut r = values[0].clone();
    let mut i: usize = 1;
    assert(t.take(1) =~= seq![t[0]]);
    while i < values.len()
        invariant
            t == values@.map_values(|s: String| s@),
            1 <= i <= values@.len(),
            r@ == join_commas(t.take(i as int)),
        decreases values.len() - i,
    {
        assert(t.take(i + 1).drop_last() =~= t.take(i as int));
        r.append(",");
        r.append(values[i].as_str());
        i = i + 1;
    }
    assert(t.take(values@.len() as int) =~= t);
    r
}

/// The ranking reason of a scored feature record: its score, its risk and protective features
/// and its missing evidence, each list joined by commas or `none`.
pub open spec fn spec_ranking_reason_v2(
    score: u32,
    risk: Seq<Seq<char>>,
    protective: Seq<Seq<char>>,
    missing: Seq<Seq<char>>,
) -> Seq<char> {
    "score="@ + decimal(score as nat) + "; positive="@ + joined_or_none(risk) + "; protective="@
        + joined_or_none(protective) + "; missing="@ + joined_or_none(missing)
        + "; candidate ranking is not a defect conclusion"@
}

pub fn ranking_reason_v2(
    score: u32,
    risk_features: &Vec<String>,
    protective_features: &Vec<String>,
    missing_evidence: &Vec<String>,
) -> (r: String)
    ensures
        r@ == spec_ranking_reason_v2(
            score,
            risk_features@.map_values(|s: String| s@),
            protective_features@.map_values(|s: String| s@),
            missing_evidence@.map_values(|s: String| s@),
        ),
{
    let mut r = owned("score=");
    r.append(decimal_string(score as u64).as_str());
    r.append("; positive=");
    r.append(join_or_none(risk_features).as_str());
    r.append("; protective=");
    r.append(join_or_none(protective_features).as_str());
    r.append("; missing=");
    r.append(join_or_none(missing_evidence).as_str());
    r.append("; candidate ranking is not a defect conclusion");
    r
}

/// A character kept in a path: ASCII letters and digits, `-` and `_`; any other becomes `_`.
pub open spec fn path_char(c: char) -> char {
    if is_ascii_alnum(c) || c == '-' || c == '_' {
        c
    } else {
        '_'
    }
}

/// An id made safe for a file name, one character for each character.
pub open spec fn sanitized(s: Seq<char>) -> Seq<char> {
    s.map_values(|c: char| path_char(c))
}

pub fn sanitize_id_for_path(value: &str) -> (r: String)
    ensures
        r@ == sanitized(value@),
{
    let cs = chars_of(value);
    let mut r = String::new();
    let mut i: usize = 0;
    while i < cs.len()
        invariant
            cs@ == value@,
            0 <= i <= cs.len(),
            r@ == sanitized(value@.take(i as int)),
        decreases cs.len() - i,
    {
        let c = cs[i];
        if char_is_ascii_alnum(c) || c == '-' || c == '_' {
            let piece = value.substring_char(i, i + 1);
            assert(piece@ =~= seq![c]);
            r.append(piece);
        } else {
            proof {
                reveal_strlit("_");
            }
            r.append("_");
        }
        assert(cs@[i as int] == c);
        assert(value@.take(i + 1) =~= value@.take(i as int).push(c));
        assert(sanitized(value@.take(i + 1)) =~= sanitized(value@.take(i as int)).push(path_char(c)));
        i = i + 1;
    }
    assert(value@.take(cs.len() as int) =~= value@);
    r
}

/// A foreign side that may retain the user data adds its weight to the score unless the
/// retention is protected, that is unless a static bound holds on an owned anchor and nothing is
/// captured by borrow; it adds nothing when the retention is so protected or absent. Of two
/// feature records that differ only in that protection, the unprotected one scores the weight
/// more in that part.
pub proof fn law_unprotected_user_data_retention_counts(r: V326LifecycleFeatureRecord, b: V326ScoreBreakdown)
    requires
        b == spec_record_breakdown(r),
    ensures
        r.features.foreign_may_retain_user_data && !(r.features.has_static_bound && r.features.has_owned_anchor
            && !r.features.has_borrowed_capture) ==> b.foreign_may_retain_user_data == SCORE_FOREIGN_MAY_RETAIN_USER_DATA,
        !r.features.foreign_may_retain_user_data ==> b.foreign_may_retain_user_data == 0,
        r.features.has_static_bound && r.features.has_owned_anchor && !r.features.has_borrowed_capture
            ==> b.foreign_may_retain_user_data == 0,
        SCORE_FOREIGN_MAY_RETAIN_USER_DATA > 0,
{
}

/// Every part of a score breakdown belongs to one feature and counts only when that feature is
/// active: a risk feature raises the score when active, a protective one (an owned or `Arc`
/// anchor, a drop guard, a registration/release pair, a static or external-buffer lifetime
/// bound, a release covering the callback, a release order chain, an acquire load, a persistence
/// only after invalidation) lowers it, and an inactive feature adds nothing. The verified object
/// chain counts when active unless it is the only, diagnostic signal of an external buffer view.
pub proof fn law_breakdown_parts_follow_their_features(r: V326LifecycleFeatureRecord, b: V326ScoreBreakdown)
    requires
        b == spec_record_breakdown(r),
    ensures
        ({
            let f = r.features;
            &&& (b.has_verified_object_chain > 0) == (f.has_verified_object_chain && !binding_only_chain_is_diagnostic(r))
            &&& (b.has_verified_object_chain == 0) == !(f.has_verified_object_chain && !binding_only_chain_is_diagnostic(r))
        }),
        (b.has_foreign_register > 0) == r.features.has_foreign_register,
        (b.has_foreign_register == 0) == !r.features.has_foreign_register,
        (b.foreign_may_retain_callback > 0) == r.features.foreign_may_retain_callback,
        (b.foreign_may_retain_callback == 0) == !r.features.foreign_may_retain_callback,
        (b.has_borrowed_capture > 0) == r.features.has_borrowed_capture,
        (b.has_borrowed_capture == 0) == !r.features.has_borrowed_capture,
        (b.has_raw_pointer_escape > 0) == r.features.has_raw_pointer_escape,
        (b.has_raw_pointer_escape == 0) == !r.features.has_raw_pointer_escape,
        (b.raw_parts_transfer_without_drop_prevention > 0) == r.features.raw_parts_transfer_without_drop_prevention,
        (b.raw_parts_transfer_without_drop_prevention == 0) == !r.features.raw_parts_transfer_without_drop_prevention,
        (b.has_drop_prevention > 0) == r.features.has_drop_prevention,
        (b.has_drop_prevention == 0) == !r.features.has_drop_prevention,
        (b.manual_drop_prevention_without_drop_guard > 0) == r.features.manual_drop_prevention_without_drop_guard,
        (b.manual_drop_prevention_without_drop_guard == 0) == !r.features.manual_drop_prevention_without_drop_guard,
        (b.callback_user_data_owner_reconstruction_without_leak_guard > 0) == r.features.callback_user_data_owner_reconstruction_without_leak_guard,
        (b.callback_user_data_owner_reconstruction_without_leak_guard == 0) == !r.features.callback_user_data_owner_reconstruction_without_leak_guard,
        (b.has_returned_borrow_relation > 0) == r.features.has_returned_borrow_relation,
        (b.has_returned_borrow_relation == 0) == !r.features.has_returned_borrow_relation,
        (b.has_unconstrained_return_lifetime > 0) == r.features.has_unconstrained_return_lifetime,
        (b.has_unconstrained_return_lifetime == 0) == !r.features.has_unconstrained_return_lifetime,
        (b.has_persisted_returned_borrow > 0) == r.features.has_persisted_returned_borrow,
        (b.has_persisted_returned_borrow == 0) == !r.features.has_persisted_returned_borrow,
        (b.returned_borrow_persistence_before_invalidation > 0) == r.features.returned_borrow_persistence_before_invalidation,
        (b.returned_borrow_persistence_before_invalidation == 0) == !r.features.returned_borrow_persistence_before_invalidation,
        (b.has_external_buffer_binding > 0) == r.features.has_external_buffer_binding,
        (b.has_external_buffer_binding == 0) == !r.features.has_external_buffer_binding,
        (b.relaxed_atomic_load_in_iterator > 0) == r.features.relaxed_atomic_load_in_iterator,
        (b.relaxed_atomic_load_in_iterator == 0) == !r.features.relaxed_atomic_load_in_iterator,
        (b.has_persisted_invalidation_use_chain > 0) == r.features.has_persisted_invalidation_use_chain,
        (b.has_persisted_invalidation_use_chain == 0) == !r.features.has_persisted_invalidation_use_chain,
        (b.has_callback_release_use_chain > 0) == r.features.has_callback_release_use_chain,
        (b.has_callback_release_use_chain == 0) == !r.features.has_callback_release_use_chain,
        (b.rust_object_may_drop_before_foreign_release > 0) == r.features.rust_object_may_drop_before_foreign_release,
        (b.rust_object_may_drop_before_foreign_release == 0) == !r.features.rust_object_may_drop_before_foreign_release,
        (b.missing_unregister_before_drop > 0) == r.features.missing_unregister_before_drop,
        (b.missing_unregister_before_drop == 0) == !r.features.missing_unregister_before_drop,
        (b.release_order_unknown > 0) == r.features.release_order_unknown,
        (b.release_order_unknown == 0) == !r.features.release_order_unknown,
        (b.opaque_handle_without_owner > 0) == r.features.opaque_handle_without_owner,
        (b.opaque_handle_without_owner == 0) == !r.features.opaque_handle_without_owner,
        (b.needs_dynamic_witness > 0) == r.features.needs_dynamic_witness,
        (b.needs_dynamic_witness == 0) == !r.features.needs_dynamic_witness,
        (b.returned_borrow_persistence_after_invalidation < 0) == r.features.returned_borrow_persistence_after_invalidation,
        (b.returned_borrow_persistence_after_invalidation == 0) == !r.features.returned_borrow_persistence_after_invalidation,
        (b.has_external_buffer_lifetime_bound < 0) == r.features.has_external_buffer_lifetime_bound,
        (b.has_external_buffer_lifetime_bound == 0) == !r.features.has_external_buffer_lifetime_bound,
        (b.acquire_atomic_load_in_iterator < 0) == r.features.acquire_atomic_load_in_iterator,
        (b.acquire_atomic_load_in_iterator == 0) == !r.features.acquire_atomic_load_in_iterator,
        (b.has_release_order_chain < 0) == r.features.has_release_order_chain,
        (b.has_release_order_chain == 0) == !r.features.has_release_order_chain,
        (b.has_owned_anchor < 0) == r.features.has_owned_anchor,
        (b.has_owned_anchor == 0) == !r.features.has_owned_anchor,
        (b.has_drop_guard < 0) == r.features.has_drop_guard,
        (b.has_drop_guard == 0) == !r.features.has_drop_guard,
        (b.registration_release_pair_found < 0) == r.features.registration_release_pair_found,
        (b.registration_release_pair_found == 0) == !r.features.registration_release_pair_found,
        (b.has_static_bound < 0) == r.features.has_static_bound,
        (b.has_static_bound == 0) == !r.features.has_static_bound,
        (b.has_arc_anchor < 0) == r.features.has_arc_anchor,
        (b.has_arc_anchor == 0) == !r.features.has_arc_anchor,
        (b.release_covers_callback < 0) == r.features.release_covers_callback,
        (b.release_covers_callback == 0) == !r.features.release_covers_callback,
{
}

} // verus!
