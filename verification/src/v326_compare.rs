//! Static comparison of the two sides of an anonymous pair.

use vstd::prelude::*;

use crate::error::ModelError;
use crate::lifecycle_v326::{
    active_feature_names, active_names_upto, feature_values, V326AnonymousPairRecord, V326Distinguishability,
    V326FeatureSet, V326LifecycleFeatureRecord, V326PairDeltaRecord, FEATURE_COUNT, V3_2_6_PAIR_DELTA_SCHEMA_V1,
};
use crate::text::owned;

verus! {

/// A difference between the two sides: the feature, the values it must have on the left and on
/// the right, and the name of the difference.
pub struct DeltaRule {
    pub feature: int,
    pub left: bool,
    pub right: bool,
    pub name: Seq<char>,
}

/// The differences looked for before the release-coverage mismatches, in order.
pub open spec fn leading_rules() -> Seq<DeltaRule> {
    seq![
        DeltaRule { feature: 29, left: false, right: true, name: "right_added_drop_guard"@ },
        DeltaRule { feature: 29, left: true, right: false, name: "left_added_drop_guard"@ },
        DeltaRule { feature: 27, left: false, right: true, name: "right_added_unregister_path"@ },
        DeltaRule { feature: 27, left: true, right: false, name: "left_added_unregister_path"@ },
        DeltaRule { feature: 30, left: false, right: true, name: "right_added_owned_anchor"@ },
        DeltaRule { feature: 30, left: true, right: false, name: "left_added_owned_anchor"@ },
        DeltaRule { feature: 31, left: false, right: true, name: "right_added_static_bound"@ },
        DeltaRule { feature: 31, left: true, right: false, name: "left_added_static_bound"@ },
        DeltaRule { feature: 6, left: false, right: true, name: "right_added_drop_prevention"@ },
        DeltaRule { feature: 6, left: true, right: false, name: "left_added_drop_prevention"@ },
        DeltaRule { feature: 7, left: true, right: false, name: "right_removed_manual_drop_prevention_without_drop_guard"@ },
        DeltaRule { feature: 7, left: false, right: true, name: "left_removed_manual_drop_prevention_without_drop_guard"@ },
        DeltaRule { feature: 15, left: false, right: true, name: "right_added_external_buffer_lifetime_bound"@ },
        DeltaRule { feature: 15, left: true, right: false, name: "left_added_external_buffer_lifetime_bound"@ },
        DeltaRule { feature: 28, left: false, right: true, name: "right_added_registration_release_pair"@ },
        DeltaRule { feature: 28, left: true, right: false, name: "left_added_registration_release_pair"@ },
        DeltaRule { feature: 35, left: false, right: true, name: "right_added_release_coverage"@ },
        DeltaRule { feature: 35, left: true, right: false, name: "left_added_release_coverage"@ },
    ]
}

fn leading_rules_at(i: usize) -> (r: (usize, bool, bool, &'static str))
    requires
        i < 18,
    ensures
        r.0 == leading_rules()[i as int].feature,
        r.1 == leading_rules()[i as int].left,
        r.2 == leading_rules()[i as int].right,
        r.3@ == leading_rules()[i as int].name,
        r.0 < 36,
{
    match i {
        0 => (29, false, true, "right_added_drop_guard"),
        1 => (29, true, false, "left_added_drop_guard"),
        2 => (27, false, true, "right_added_unregister_path"),
        3 => (27, true, false, "left_added_unregister_path"),
        4 => (30, false, true, "right_added_owned_anchor"),
        5 => (30, true, false, "left_added_owned_anchor"),
        6 => (31, false, true, "right_added_static_bound"),
        7 => (31, true, false, "left_added_static_bound"),
        8 => (6, false, true, "right_added_drop_prevention"),
        9 => (6, true, false, "left_added_drop_prevention"),
        10 => (7, true, false, "right_removed_manual_drop_prevention_without_drop_guard"),
        11 => (7, false, true, "left_removed_manual_drop_prevention_without_drop_guard"),
        12 => (15, false, true, "right_added_external_buffer_lifetime_bound"),
        13 => (15, true, false, "left_added_external_buffer_lifetime_bound"),
        14 => (28, false, true, "right_added_registration_release_pair"),
        15 => (28, true, false, "left_added_registration_release_pair"),
        16 => (35, false, true, "right_added_release_coverage"),
        _ => (35, true, false, "left_added_release_coverage"),
    }
}

/// The differences looked for after the release-coverage mismatches, in order.
pub open spec fn trailing_rules() -> Seq<DeltaRule> {
    seq![
        DeltaRule { feature: 24, left: true, right: false, name: "left_ordering_unknown"@ },
        DeltaRule { feature: 24, left: false, right: true, name: "right_ordering_unknown"@ },
        DeltaRule { feature: 4, left: true, right: false, name: "right_removed_raw_pointer_escape"@ },
        DeltaRule { feature: 4, left: false, right: true, name: "left_removed_raw_pointer_escape"@ },
        DeltaRule { feature: 9, left: true, right: false, name: "right_removed_returned_borrow_relation"@ },
        DeltaRule { feature: 9, left: false, right: true, name: "left_removed_returned_borrow_relation"@ },
        DeltaRule { feature: 10, left: true, right: false, name: "right_removed_unconstrained_return_lifetime"@ },
        DeltaRule { feature: 10, left: false, right: true, name: "left_removed_unconstrained_return_lifetime"@ },
        DeltaRule { feature: 11, left: true, right: false, name: "right_removed_persisted_returned_borrow"@ },
        DeltaRule { feature: 11, left: false, right: true, name: "left_removed_persisted_returned_borrow"@ },
        DeltaRule { feature: 12, left: true, right: false, name: "right_removed_persistence_before_invalidation"@ },
        DeltaRule { feature: 12, left: false, right: true, name: "left_removed_persistence_before_invalidation"@ },
        DeltaRule { feature: 13, left: true, right: false, name: "left_added_persistence_after_invalidation"@ },
        DeltaRule { feature: 13, left: false, right: true, name: "right_added_persistence_after_invalidation"@ },
        DeltaRule { feature: 14, left: true, right: false, name: "right_removed_external_buffer_binding"@ },
        DeltaRule { feature: 14, left: false, right: true, name: "left_removed_external_buffer_binding"@ },
        DeltaRule { feature: 16, left: true, right: false, name: "right_removed_relaxed_atomic_load_in_iterator"@ },
        DeltaRule { feature: 16, left: false, right: true, name: "left_removed_relaxed_atomic_load_in_iterator"@ },
        DeltaRule { feature: 17, left: false, right: true, name: "right_added_acquire_atomic_load_in_iterator"@ },
        DeltaRule { feature: 17, left: true, right: false, name: "left_added_acquire_atomic_load_in_iterator"@ },
        DeltaRule { feature: 21, left: true, right: false, name: "right_removed_callback_release_use_chain"@ },
        DeltaRule { feature: 21, left: false, right: true, name: "left_removed_callback_release_use_chain"@ },
        DeltaRule { feature: 3, left: true, right: false, name: "right_removed_borrowed_capture"@ },
        DeltaRule { feature: 3, left: false, right: true, name: "left_removed_borrowed_capture"@ },
    ]
}

fn trailing_rules_at(i: usize) -> (r: (usize, bool, bool, &'static str))
    requires
        i < 24,
    ensures
        r.0 == trailing_rules()[i as int].feature,
        r.1 == trailing_rules()[i as int].left,
        r.2 == trailing_rules()[i as int].right,
        r.3@ == trailing_rules()[i as int].name,
        r.0 < 36,
{
    match i {
        0 => (24, true, false, "left_ordering_unknown"),
        1 => (24, false, true, "right_ordering_unknown"),
        2 => (4, true, false, "right_removed_raw_pointer_escape"),
        3 => (4, false, true, "left_removed_raw_pointer_escape"),
        4 => (9, true, false, "right_removed_returned_borrow_relation"),
        5 => (9, false, true, "left_removed_returned_borrow_relation"),
        6 => (10, true, false, "right_removed_unconstrained_return_lifetime"),
        7 => (10, false, true, "left_removed_unconstrained_return_lifetime"),
        8 => (11, true, false, "right_removed_persisted_returned_borrow"),
        9 => (11, false, true, "left_removed_persisted_returned_borrow"),
        10 => (12, true, false, "right_removed_persistence_before_invalidation"),
        11 => (12, false, true, "left_removed_persistence_before_invalidation"),
        12 => (13, true, false, "left_added_persistence_after_invalidation"),
        13 => (13, false, true, "right_added_persistence_after_invalidation"),
        14 => (14, true, false, "right_removed_external_buffer_binding"),
        15 => (14, false, true, "left_removed_external_buffer_binding"),
        16 => (16, true, false, "right_removed_relaxed_atomic_load_in_iterator"),
        17 => (16, false, true, "left_removed_relaxed_atomic_load_in_iterator"),
        18 => (17, false, true, "right_added_acquire_atomic_load_in_iterator"),
        19 => (17, true, false, "left_added_acquire_atomic_load_in_iterator"),
        20 => (21, true, false, "right_removed_callback_release_use_chain"),
        21 => (21, false, true, "left_removed_callback_release_use_chain"),
        22 => (3, true, false, "right_removed_borrowed_capture"),
        _ => (3, false, true, "left_removed_borrowed_capture"),
    }
}

pub const LEADING_RULE_COUNT: usize = 18;

pub const TRAILING_RULE_COUNT: usize = 24;

/// The names of the first `n` rules whose feature values hold on the two sides, in order.
pub open spec fn fired_names(l: V326FeatureSet, r: V326FeatureSet, rules: Seq<DeltaRule>, n: int) -> Seq<Seq<char>>
    decreases n,
{
    if n <= 0 {
        Seq::empty()
    } else {
        let prev = fired_names(l, r, rules, n - 1);
        let rule = rules[n - 1];
        if feature_values(l)[rule.feature] == rule.left && feature_values(r)[rule.feature] == rule.right {
            prev.push(rule.name)
        } else {
            prev
        }
    }
}

/// The list notes a release coverage that covers another object.
pub open spec fn has_coverage_mismatch(missing: Seq<String>) -> bool {
    exists|i: int| 0 <= i < missing.len() && (#[trigger] missing[i])@ == "release_coverage_object_mismatch"@
}

/// The semantic differences between the two sides of a pair, in the order they are looked for.
pub open spec fn spec_semantic_delta(left: V326LifecycleFeatureRecord, right: V326LifecycleFeatureRecord) -> Seq<
    Seq<char>,
> {
    let lead = fired_names(left.features, right.features, leading_rules(), LEADING_RULE_COUNT as int);
    let with_left = if has_coverage_mismatch(left.missing_evidence@) {
        lead.push("left_release_coverage_object_mismatch"@)
    } else {
        lead
    };
    let with_right = if has_coverage_mismatch(right.missing_evidence@) {
        with_left.push("right_release_coverage_object_mismatch"@)
    } else {
        with_left
    };
    with_right + fired_names(left.features, right.features, trailing_rules(), TRAILING_RULE_COUNT as int)
}

/// Some feature of the set is active.
pub open spec fn any_active(f: V326FeatureSet) -> bool {
    exists|i: int| 0 <= i < FEATURE_COUNT && #[trigger] feature_values(f)[i]
}

fn push_fired(
    delta: &mut Vec<String>,
    left: &V326FeatureSet,
    right: &V326FeatureSet,
    leading: bool,
)
    ensures
        final(delta)@.map_values(|s: String| s@) == old(delta)@.map_values(|s: String| s@) + (if leading {
            fired_names(*left, *right, leading_rules(), LEADING_RULE_COUNT as int)
        } else {
            fired_names(*left, *right, trailing_rules(), TRAILING_RULE_COUNT as int)
        }),
{
    let ghost start = delta@.map_values(|s: String| s@);
    let ghost rules = if leading { leading_rules() } else { trailing_rules() };
    let count = if leading { LEADING_RULE_COUNT } else { TRAILING_RULE_COUNT };
    let mut i: usize = 0;
    assert(start + fired_names(*left, *right, rules, 0) =~= start);
    while i < count
        invariant
            0 <= i <= count,
            count == (if leading { LEADING_RULE_COUNT } else { TRAILING_RULE_COUNT }),
            rules == (if leading { leading_rules() } else { trailing_rules() }),
            delta@.map_values(|s: String| s@) == start + fired_names(*left, *right, rules, i as int),
        decreases count - i,
    {
        let (k, lv, rv, name) = if leading { leading_rules_at(i) } else { trailing_rules_at(i) };
        let (_, l) = left.flag_at(k);
        let (_, r) = right.flag_at(k);
        if l == lv && r == rv {
            let ghost before = delta@.map_values(|s: String| s@);
            delta.push(owned(name));
            assert(delta@.map_values(|s: String| s@) =~= before.push(name@));
        }
        i = i + 1;
    }
}

fn coverage_mismatch(missing: &Vec<String>) -> (b: bool)
    ensures
        b == has_coverage_mismatch(missing@),
{
    let target = owned("release_coverage_object_mismatch");
    let mut i: usize = 0;
    while i < missing.len()
        invariant
            target@ == "release_coverage_object_mismatch"@,
            0 <= i <= missing@.len(),
            forall|k: int| 0 <= k < i ==> (#[trigger] missing@[k])@ != "release_coverage_object_mismatch"@,
        decreases missing.len() - i,
    {
        if missing[i] == target {
            return true;
        }
        i = i + 1;
    }
    false
}

/// The semantic differences between the two sides of a pair.
fn semantic_delta(left: &V326LifecycleFeatureRecord, right: &V326LifecycleFeatureRecord) -> (d: Vec<String>)
    ensures
        d@.map_values(|s: String| s@) == spec_semantic_delta(*left, *right),
{
    let mut delta: Vec<String> = Vec::new();
    push_fired(&mut delta, &left.features, &right.features, true);
    if coverage_mismatch(&left.missing_evidence) {
        let ghost before = delta@.map_values(|s: String| s@);
        delta.push(owned("left_release_coverage_object_mismatch"));
        assert(delta@.map_values(|s: String| s@) =~= before.push("left_release_coverage_object_mismatch"@));
    }
    if coverage_mismatch(&right.missing_evidence) {
        let ghost before = delta@.map_values(|s: String| s@);
        delta.push(owned("right_release_coverage_object_mismatch"));
        assert(delta@.map_values(|s: String| s@) =~= before.push("right_release_coverage_object_mismatch"@));
    }
    push_fired(&mut delta, &left.features, &right.features, false);
    assert(Seq::<Seq<char>>::empty() + fired_names(left.features, right.features, leading_rules(), LEADING_RULE_COUNT as int)
        =~= fired_names(left.features, right.features, leading_rules(), LEADING_RULE_COUNT as int));
    delta
}

/// The delta record of a pair: the pair's ids and both sides' crate ids and active features;
/// when both sides have an active feature, their semantic differences and whether any exists,
/// else that the evidence is insufficient.
pub open spec fn is_pair_delta(
    d: V326PairDeltaRecord,
    pair: V326AnonymousPairRecord,
    left: V326LifecycleFeatureRecord,
    right: V326LifecycleFeatureRecord,
) -> bool {
    let note = "pair roles are anonymous; this is not a defect conclusion"@;
    &&& d.schema_version@ == V3_2_6_PAIR_DELTA_SCHEMA_V1@
    &&& d.run_id@ == pair.run_id@
    &&& d.pair_id@ == pair.pair_id@
    &&& d.comparison_key@.len() == 0
    &&& d.pair_manifest_run_id@.len() == 0
    &&& d.left_crate_id@ == pair.left_crate_id@
    &&& d.right_crate_id@ == pair.right_crate_id@
    &&& d.left_top_features@.map_values(|s: String| s@) == active_names_upto(left.features, FEATURE_COUNT as int)
    &&& d.right_top_features@.map_values(|s: String| s@) == active_names_upto(right.features, FEATURE_COUNT as int)
    &&& if any_active(left.features) && any_active(right.features) {
        let delta = spec_semantic_delta(left, right);
        &&& d.semantic_delta@.map_values(|s: String| s@) == delta
        &&& d.distinguishability == (if delta.len() == 0 {
            V326Distinguishability::IndistinguishableStaticOnly
        } else {
            V326Distinguishability::SeparableStatic
        })
        &&& d.notes@.map_values(|s: String| s@) == seq![note]
    } else {
        &&& d.semantic_delta@.len() == 0
        &&& d.distinguishability == V326Distinguishability::InsufficientEvidence
        &&& d.notes@.map_values(|s: String| s@) == seq![
            note,
            "at least one side has insufficient lifecycle features"@,
        ]
    }
}

/// Compares the two sides of an anonymous pair. The crate ids of the feature records must be
/// those of the pair, else the comparison is refused.
pub fn compare_v3_2_6_pair(
    pair: &V326AnonymousPairRecord,
    left: &V326LifecycleFeatureRecord,
    right: &V326LifecycleFeatureRecord,
) -> (r: Result<V326PairDeltaRecord, ModelError>)
    ensures
        match r {
            Ok(d) => pair.left_crate_id@ == left.crate_id@ && pair.right_crate_id@ == right.crate_id@
                && is_pair_delta(d, *pair, *left, *right),
            Err(e) => {
                &&& !(pair.left_crate_id@ == left.crate_id@ && pair.right_crate_id@ == right.crate_id@)
                &&& e matches ModelError::Validation { code, .. } && code@ == "BW-V326-PAIR-MISMATCH"@
            },
        },
{
    if !(pair.left_crate_id == left.crate_id && pair.right_crate_id == right.crate_id) {
        return Err(ModelError::validation("BW-V326-PAIR-MISMATCH", owned("pair crate ids do not match feature records")));
    }
    let mut notes: Vec<String> = Vec::new();
    notes.push(owned("pair roles are anonymous; this is not a defect conclusion"));
    let (semantic_delta, distinguishability) = if !left.features.has_any_active() || !right.features.has_any_active() {
        notes.push(owned("at least one side has insufficient lifecycle features"));
        assert(notes@.map_values(|s: String| s@) =~= seq![
            "pair roles are anonymous; this is not a defect conclusion"@,
            "at least one side has insufficient lifecycle features"@,
        ]);
        (Vec::new(), V326Distinguishability::InsufficientEvidence)
    } else {
        let delta = semantic_delta(left, right);
        assert(notes@.map_values(|s: String| s@) =~= seq!["pair roles are anonymous; this is not a defect conclusion"@]);
        let d = if delta.len() == 0 {
            V326Distinguishability::IndistinguishableStaticOnly
        } else {
            V326Distinguishability::SeparableStatic
        };
        (delta, d)
    };
    let empty_key = String::new();
    let empty_run = String::new();
    Ok(
        V326PairDeltaRecord {
            schema_version: owned(V3_2_6_PAIR_DELTA_SCHEMA_V1),
            run_id: pair.run_id.clone(),
            pair_id: pair.pair_id.clone(),
            comparison_key: empty_key,
            pair_manifest_run_id: empty_run,
            left_crate_id: pair.left_crate_id.clone(),
            right_crate_id: pair.right_crate_id.clone(),
            left_top_features: active_feature_names(&left.features),
            right_top_features: active_feature_names(&right.features),
            semantic_delta,
            distinguishability,
            notes,
        },
    )
}

} // verus!

verus! {

/// Every rule asks for different values on the two sides.
pub open spec fn rules_tell_sides_apart(rules: Seq<DeltaRule>, n: int) -> bool {
    forall|i: int| 0 <= i < n ==> (#[trigger] rules[i]).left != rules[i].right
}

proof fn lemma_no_rule_fires_on_equal_sides(f: V326FeatureSet, rules: Seq<DeltaRule>, n: int)
    requires
        rules_tell_sides_apart(rules, n),
    ensures
        fired_names(f, f, rules, n).len() == 0,
    decreases n,
{
    if n > 0 {
        assert(rules[n - 1].left != rules[n - 1].right);
        lemma_no_rule_fires_on_equal_sides(f, rules, n - 1);
    }
}

/// Two sides with the same features, neither of which notes a release coverage of another
/// object, cannot be told apart statically: when both sides have an active feature the
/// comparison finds no difference and calls the pair indistinguishable, static only.
pub proof fn law_equal_features_are_indistinguishable(
    d: V326PairDeltaRecord,
    pair: V326AnonymousPairRecord,
    left: V326LifecycleFeatureRecord,
    right: V326LifecycleFeatureRecord,
)
    requires
        is_pair_delta(d, pair, left, right),
        left.features == right.features,
        !has_coverage_mismatch(left.missing_evidence@),
        !has_coverage_mismatch(right.missing_evidence@),
        any_active(left.features),
    ensures
        d.semantic_delta@.len() == 0,
        d.distinguishability == V326Distinguishability::IndistinguishableStaticOnly,
{
    assert(rules_tell_sides_apart(leading_rules(), LEADING_RULE_COUNT as int));
    assert(rules_tell_sides_apart(trailing_rules(), TRAILING_RULE_COUNT as int));
    lemma_no_rule_fires_on_equal_sides(left.features, leading_rules(), LEADING_RULE_COUNT as int);
    lemma_no_rule_fires_on_equal_sides(left.features, trailing_rules(), TRAILING_RULE_COUNT as int);
    assert(spec_semantic_delta(left, right).len() == 0);
    assert(d.semantic_delta@.map_values(|s: String| s@).len() == 0);
}

/// The comparison calls a pair separable exactly when it finds a difference.
pub proof fn law_separable_iff_difference(
    d: V326PairDeltaRecord,
    pair: V326AnonymousPairRecord,
    left: V326LifecycleFeatureRecord,
    right: V326LifecycleFeatureRecord,
)
    requires
        is_pair_delta(d, pair, left, right),
    ensures
        (d.distinguishability == V326Distinguishability::SeparableStatic) <==> d.semantic_delta@.len() > 0,
        any_active(left.features) && any_active(right.features) ==> ((d.distinguishability
            == V326Distinguishability::IndistinguishableStaticOnly) <==> d.semantic_delta@.len() == 0),
{
    assert(d.semantic_delta@.map_values(|s: String| s@).len() == d.semantic_delta@.len());
}


/// The name starts with the prefix.
pub open spec fn starts_with_text(s: Seq<char>, p: Seq<char>) -> bool {
    p.len() <= s.len() && forall|i: int| 0 <= i < p.len() ==> s[i] == p[i]
}

/// The name of a difference says that the right side has the feature and the left does not:
/// the right added it, the left removed it, or the right's ordering is unknown.
pub open spec fn says_right_has(name: Seq<char>) -> bool {
    starts_with_text(name, "right_added_"@) || starts_with_text(name, "left_removed_"@) || name
        == "right_ordering_unknown"@
}

/// The name of a difference says that the left side has the feature and the right does not:
/// the left added it, the right removed it, or the left's ordering is unknown.
pub open spec fn says_left_has(name: Seq<char>) -> bool {
    starts_with_text(name, "left_added_"@) || starts_with_text(name, "right_removed_"@) || name
        == "left_ordering_unknown"@
}

/// All the rules of differences, those looked for first, then the others.
pub open spec fn delta_rules() -> Seq<DeltaRule> {
    leading_rules() + trailing_rules()
}

/// The rule asks for the values its name tells.
pub open spec fn rule_named_by_sides(rule: DeltaRule) -> bool {
    &&& says_right_has(rule.name) ==> !rule.left && rule.right
    &&& says_left_has(rule.name) ==> rule.left && !rule.right
}

proof fn lemma_side_letters(name: Seq<char>)
    ensures
        says_right_has(name) ==> (name[0] == 'r' && (name[6] == 'a' || name[6] == 'o')) || (name[0] == 'l'
            && name[5] == 'r' && name[7] == 'm'),
        says_left_has(name) ==> (name[0] == 'l' && (name[5] == 'a' || name[5] == 'o')) || (name[0] == 'r'
            && name[6] == 'r' && name[8] == 'm'),
{
    reveal_strlit("right_added_");
    reveal_strlit("left_removed_");
    reveal_strlit("right_ordering_unknown");
    reveal_strlit("left_added_");
    reveal_strlit("right_removed_");
    reveal_strlit("left_ordering_unknown");
    if starts_with_text(name, "right_added_"@) {
        assert(name[0] == "right_added_"@[0] && name[6] == "right_added_"@[6]);
    }
    if starts_with_text(name, "left_removed_"@) {
        assert(name[0] == "left_removed_"@[0] && name[5] == "left_removed_"@[5] && name[7] == "left_removed_"@[7]);
    }
    if starts_with_text(name, "left_added_"@) {
        assert(name[0] == "left_added_"@[0] && name[5] == "left_added_"@[5]);
    }
    if starts_with_text(name, "right_removed_"@) {
        assert(name[0] == "right_removed_"@[0] && name[6] == "right_removed_"@[6] && name[8] == "right_removed_"@[8]);
    }
}

proof fn lemma_rules_named_by_sides()
    ensures
        forall|i: int| 0 <= i < delta_rules().len() ==> rule_named_by_sides(#[trigger] delta_rules()[i]),
{
    reveal_strlit("left_added_acquire_atomic_load_in_iterator");
    reveal_strlit("left_added_drop_guard");
    reveal_strlit("left_added_drop_prevention");
    reveal_strlit("left_added_external_buffer_lifetime_bound");
    reveal_strlit("left_added_owned_anchor");
    reveal_strlit("left_added_persistence_after_invalidation");
    reveal_strlit("left_added_registration_release_pair");
    reveal_strlit("left_added_release_coverage");
    reveal_strlit("left_added_static_bound");
    reveal_strlit("left_added_unregister_path");
    reveal_strlit("left_ordering_unknown");
    reveal_strlit("left_removed_borrowed_capture");
    reveal_strlit("left_removed_callback_release_use_chain");
    reveal_strlit("left_removed_external_buffer_binding");
    reveal_strlit("left_removed_manual_drop_prevention_without_drop_guard");
    reveal_strlit("left_removed_persisted_returned_borrow");
    reveal_strlit("left_removed_persistence_before_invalidation");
    reveal_strlit("left_removed_raw_pointer_escape");
    reveal_strlit("left_removed_relaxed_atomic_load_in_iterator");
    reveal_strlit("left_removed_returned_borrow_relation");
    reveal_strlit("left_removed_unconstrained_return_lifetime");
    reveal_strlit("right_added_acquire_atomic_load_in_iterator");
    reveal_strlit("right_added_drop_guard");
    reveal_strlit("right_added_drop_prevention");
    reveal_strlit("right_added_external_buffer_lifetime_bound");
    reveal_strlit("right_added_owned_anchor");
    reveal_strlit("right_added_persistence_after_invalidation");
    reveal_strlit("right_added_registration_release_pair");
    reveal_strlit("right_added_release_coverage");
    reveal_strlit("right_added_static_bound");
    reveal_strlit("right_added_unregister_path");
    reveal_strlit("right_ordering_unknown");
    reveal_strlit("right_removed_borrowed_capture");
    reveal_strlit("right_removed_callback_release_use_chain");
    reveal_strlit("right_removed_external_buffer_binding");
    reveal_strlit("right_removed_manual_drop_prevention_without_drop_guard");
    reveal_strlit("right_removed_persisted_returned_borrow");
    reveal_strlit("right_removed_persistence_before_invalidation");
    reveal_strlit("right_removed_raw_pointer_escape");
    reveal_strlit("right_removed_relaxed_atomic_load_in_iterator");
    reveal_strlit("right_removed_returned_borrow_relation");
    reveal_strlit("right_removed_unconstrained_return_lifetime");
    assert forall|i: int| 0 <= i < delta_rules().len() implies rule_named_by_sides(#[trigger] delta_rules()[i]) by {
        let rule = delta_rules()[i];
        lemma_side_letters(rule.name);
        if i < 18 {
            assert(rule == leading_rules()[i]);
            if i == 0 {
                assert(rule.name == "right_added_drop_guard"@);
            }
            if i == 1 {
                assert(rule.name == "left_added_drop_guard"@);
            }
            if i == 2 {
                assert(rule.name == "right_added_unregister_path"@);
            }
            if i == 3 {
                assert(rule.name == "left_added_unregister_path"@);
            }
            if i == 4 {
                assert(rule.name == "right_added_owned_anchor"@);
            }
            if i == 5 {
                assert(rule.name == "left_added_owned_anchor"@);
            }
            if i == 6 {
                assert(rule.name == "right_added_static_bound"@);
            }
            if i == 7 {
                assert(rule.name == "left_added_static_bound"@);
            }
            if i == 8 {
                assert(rule.name == "right_added_drop_prevention"@);
            }
            if i == 9 {
                assert(rule.name == "left_added_drop_prevention"@);
            }
            if i == 10 {
                assert(rule.name == "right_removed_manual_drop_prevention_without_drop_guard"@);
            }
            if i == 11 {
                assert(rule.name == "left_removed_manual_drop_prevention_without_drop_guard"@);
            }
            if i == 12 {
                assert(rule.name == "right_added_external_buffer_lifetime_bound"@);
            }
            if i == 13 {
                assert(rule.name == "left_added_external_buffer_lifetime_bound"@);
            }
            if i == 14 {
                assert(rule.name == "right_added_registration_release_pair"@);
            }
            if i == 15 {
                assert(rule.name == "left_added_registration_release_pair"@);
            }
            if i == 16 {
                assert(rule.name == "right_added_release_coverage"@);
            }
            if i == 17 {
                assert(rule.name == "left_added_release_coverage"@);
            }
        } else {
            assert(rule == trailing_rules()[i - 18]);
            let t = i - 18;
            if t == 0 {
                assert(rule.name == "left_ordering_unknown"@);
            }
            if t == 1 {
                assert(rule.name == "right_ordering_unknown"@);
            }
            if t == 2 {
                assert(rule.name == "right_removed_raw_pointer_escape"@);
            }
            if t == 3 {
                assert(rule.name == "left_removed_raw_pointer_escape"@);
            }
            if t == 4 {
                assert(rule.name == "right_removed_returned_borrow_relation"@);
            }
            if t == 5 {
                assert(rule.name == "left_removed_returned_borrow_relation"@);
            }
            if t == 6 {
                assert(rule.name == "right_removed_unconstrained_return_lifetime"@);
            }
            if t == 7 {
                assert(rule.name == "left_removed_unconstrained_return_lifetime"@);
            }
            if t == 8 {
                assert(rule.name == "right_removed_persisted_returned_borrow"@);
            }
            if t == 9 {
                assert(rule.name == "left_removed_persisted_returned_borrow"@);
            }
            if t == 10 {
                assert(rule.name == "right_removed_persistence_before_invalidation"@);
            }
            if t == 11 {
                assert(rule.name == "left_removed_persistence_before_invalidation"@);
            }
            if t == 12 {
                assert(rule.name == "left_added_persistence_after_invalidation"@);
            }
            if t == 13 {
                assert(rule.name == "right_added_persistence_after_invalidation"@);
            }
            if t == 14 {
                assert(rule.name == "right_removed_external_buffer_binding"@);
            }
            if t == 15 {
                assert(rule.name == "left_removed_external_buffer_binding"@);
            }
            if t == 16 {
                assert(rule.name == "right_removed_relaxed_atomic_load_in_iterator"@);
            }
            if t == 17 {
                assert(rule.name == "left_removed_relaxed_atomic_load_in_iterator"@);
            }
            if t == 18 {
                assert(rule.name == "right_added_acquire_atomic_load_in_iterator"@);
            }
            if t == 19 {
                assert(rule.name == "left_added_acquire_atomic_load_in_iterator"@);
            }
            if t == 20 {
                assert(rule.name == "right_removed_callback_release_use_chain"@);
            }
            if t == 21 {
                assert(rule.name == "left_removed_callback_release_use_chain"@);
            }
            if t == 22 {
                assert(rule.name == "right_removed_borrowed_capture"@);
            }
            if t == 23 {
                assert(rule.name == "left_removed_borrowed_capture"@);
            }
        }
    }
}

proof fn lemma_fired_by_some_rule(l: V326FeatureSet, r: V326FeatureSet, rules: Seq<DeltaRule>, n: int, j: int)
    requires
        0 <= n <= rules.len(),
        0 <= j < fired_names(l, r, rules, n).len(),
    ensures
        exists|i: int|
            0 <= i < n && (#[trigger] rules[i]).name == fired_names(l, r, rules, n)[j] && feature_values(l)[rules[i].feature]
                == rules[i].left && feature_values(r)[rules[i].feature] == rules[i].right,
    decreases n,
{
    let prev = fired_names(l, r, rules, n - 1);
    if j < prev.len() {
        lemma_fired_by_some_rule(l, r, rules, n - 1, j);
        let i = choose|i: int|
            0 <= i < n - 1 && (#[trigger] rules[i]).name == prev[j] && feature_values(l)[rules[i].feature] == rules[i].left
                && feature_values(r)[rules[i].feature] == rules[i].right;
        assert(fired_names(l, r, rules, n)[j] == prev[j]);
        assert(rules[i].name == fired_names(l, r, rules, n)[j]);
    } else {
        assert(rules[n - 1].name == fired_names(l, r, rules, n)[j]);
    }
}

/// The comparison names each difference by the side that has the feature: a difference whose
/// name says the right side has a feature the left lacks (`right_added_…`, `left_removed_…`,
/// `right_ordering_unknown`) is reported only when the feature of the rule so named is inactive
/// on the left and active on the right, and one whose name says the left side has it
/// (`left_added_…`, `right_removed_…`, `left_ordering_unknown`) only when it is active on the left
/// and inactive on the right.
pub proof fn law_delta_names_tell_the_side_that_has_the_feature(
    d: V326PairDeltaRecord,
    pair: V326AnonymousPairRecord,
    left: V326LifecycleFeatureRecord,
    right: V326LifecycleFeatureRecord,
    j: int,
)
    requires
        is_pair_delta(d, pair, left, right),
        0 <= j < d.semantic_delta@.len(),
    ensures
        says_right_has(d.semantic_delta@[j]@) ==> exists|i: int|
            0 <= i < delta_rules().len() && (#[trigger] delta_rules()[i]).name == d.semantic_delta@[j]@
                && !feature_values(left.features)[delta_rules()[i].feature] && feature_values(
                right.features,
            )[delta_rules()[i].feature],
        says_left_has(d.semantic_delta@[j]@) ==> exists|i: int|
            0 <= i < delta_rules().len() && (#[trigger] delta_rules()[i]).name == d.semantic_delta@[j]@
                && feature_values(left.features)[delta_rules()[i].feature] && !feature_values(
                right.features,
            )[delta_rules()[i].feature],
{
    lemma_rules_named_by_sides();
    let x = d.semantic_delta@[j]@;
    let l = left.features;
    let r = right.features;
    assert(d.semantic_delta@.map_values(|s: String| s@)[j] == x);
    assert(any_active(l) && any_active(r));
    let sd = spec_semantic_delta(left, right);
    assert(sd[j] == x);
    let lead = fired_names(l, r, leading_rules(), LEADING_RULE_COUNT as int);
    let trail = fired_names(l, r, trailing_rules(), TRAILING_RULE_COUNT as int);
    let with_left = if has_coverage_mismatch(left.missing_evidence@) {
        lead.push("left_release_coverage_object_mismatch"@)
    } else {
        lead
    };
    let with_right = if has_coverage_mismatch(right.missing_evidence@) {
        with_left.push("right_release_coverage_object_mismatch"@)
    } else {
        with_left
    };
    assert(sd == with_right + trail);
    if j < lead.len() {
        assert(x == lead[j]);
        lemma_fired_by_some_rule(l, r, leading_rules(), LEADING_RULE_COUNT as int, j);
        let i = choose|i: int|
            0 <= i < LEADING_RULE_COUNT && (#[trigger] leading_rules()[i]).name == lead[j] && feature_values(l)[leading_rules()[i].feature]
                == leading_rules()[i].left && feature_values(r)[leading_rules()[i].feature] == leading_rules()[i].right;
        assert(delta_rules()[i] == leading_rules()[i]);
        assert(rule_named_by_sides(delta_rules()[i]));
    } else if j < with_right.len() {
        reveal_strlit("left_release_coverage_object_mismatch");
        reveal_strlit("right_release_coverage_object_mismatch");
        lemma_side_letters(x);
        if j == lead.len() && has_coverage_mismatch(left.missing_evidence@) {
            assert(x == "left_release_coverage_object_mismatch"@);
        } else {
            assert(x == "right_release_coverage_object_mismatch"@);
        }
        assert(x[7] == 'l' || x[8] == 'l');
    } else {
        let t = j - with_right.len();
        assert(x == trail[t]);
        lemma_fired_by_some_rule(l, r, trailing_rules(), TRAILING_RULE_COUNT as int, t);
        let i = choose|i: int|
            0 <= i < TRAILING_RULE_COUNT && (#[trigger] trailing_rules()[i]).name == trail[t] && feature_values(l)[trailing_rules()[i].feature]
                == trailing_rules()[i].left && feature_values(r)[trailing_rules()[i].feature] == trailing_rules()[i].right;
        assert(delta_rules()[i + 18] == trailing_rules()[i]);
        assert(rule_named_by_sides(delta_rules()[i + 18]));
    }
}

} // verus!
