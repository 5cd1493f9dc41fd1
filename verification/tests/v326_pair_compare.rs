use bw_model::lifecycle_v326::{
    V326AnonymousPairRecord, V326Distinguishability, V326FeatureSet, V326LifecycleFeatureRecord,
};
use bw_model::v326_compare::compare_v3_2_6_pair;

fn pair(left: &str, right: &str) -> V326AnonymousPairRecord {
    V326AnonymousPairRecord {
        schema_version: "v3.2.6.anonymous_pair.1".to_owned(),
        run_id: "run:pair".to_owned(),
        pair_id: "pair:1".to_owned(),
        left_crate_id: left.to_owned(),
        right_crate_id: right.to_owned(),
        relation_hint: "unknown".to_owned(),
        notes: Vec::new(),
    }
}

fn record(crate_id: &str, f: impl Fn(&mut V326FeatureSet)) -> V326LifecycleFeatureRecord {
    let mut set = V326FeatureSet::default();
    f(&mut set);
    V326LifecycleFeatureRecord::sample_for_tests_for_crate(crate_id, set)
}

#[test]
fn a_guard_on_one_side_separates_the_pair() {
    let left = record("crate:l", |f| f.has_foreign_register = true);
    let right = record("crate:r", |f| {
        f.has_foreign_register = true;
        f.has_drop_guard = true;
        f.has_borrowed_capture = true;
    });
    let d = compare_v3_2_6_pair(&pair("crate:l", "crate:r"), &left, &right).expect("matching crates");
    assert_eq!(
        d.semantic_delta,
        vec!["right_added_drop_guard".to_owned(), "left_removed_borrowed_capture".to_owned()]
    );
    assert_eq!(d.distinguishability, V326Distinguishability::SeparableStatic);
    assert_eq!(d.left_top_features, vec!["has_foreign_register".to_owned()]);
    assert_eq!(d.run_id, "run:pair");
}

#[test]
fn equal_sides_are_indistinguishable() {
    let left = record("crate:l", |f| f.has_foreign_register = true);
    let right = record("crate:r", |f| f.has_foreign_register = true);
    let d = compare_v3_2_6_pair(&pair("crate:l", "crate:r"), &left, &right).unwrap();
    assert!(d.semantic_delta.is_empty());
    assert_eq!(d.distinguishability, V326Distinguishability::IndistinguishableStaticOnly);
}

#[test]
fn a_side_without_features_is_insufficient_evidence() {
    let left = record("crate:l", |_| {});
    let right = record("crate:r", |f| f.has_drop_guard = true);
    let d = compare_v3_2_6_pair(&pair("crate:l", "crate:r"), &left, &right).unwrap();
    assert_eq!(d.distinguishability, V326Distinguishability::InsufficientEvidence);
    assert_eq!(d.notes.len(), 2);
}

#[test]
fn crossed_crates_are_refused() {
    let left = record("crate:l", |f| f.has_foreign_register = true);
    let right = record("crate:r", |f| f.has_foreign_register = true);
    let err = compare_v3_2_6_pair(&pair("crate:r", "crate:l"), &left, &right).unwrap_err();
    assert_eq!(err.code(), "BW-V326-PAIR-MISMATCH");
}
