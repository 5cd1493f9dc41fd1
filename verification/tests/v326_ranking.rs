use bw_model::lifecycle_v326::{V326FeatureSet, V326LifecycleFeatureRecord};
use bw_model::v326_rank::rank_v3_2_6_features;
use bw_model::v326_scoring::{
    protective_feature_names, ranking_reason_v2, recompute_score, risk_feature_names,
    sanitize_id_for_path, score_breakdown_from_feature_record,
};
use bw_model::ModelError;

fn features_with(f: impl Fn(&mut V326FeatureSet)) -> V326FeatureSet {
    let mut set = V326FeatureSet::default();
    f(&mut set);
    set
}

#[test]
fn a_foreign_registration_alone_scores_its_weight() {
    let record = V326LifecycleFeatureRecord::sample_for_tests_with_features(features_with(|f| {
        f.has_foreign_register = true
    }));
    let breakdown = score_breakdown_from_feature_record(&record);
    assert_eq!(breakdown.has_foreign_register, 4);
    assert_eq!(recompute_score(&breakdown), 4);
}

#[test]
fn protective_features_subtract_and_the_score_stops_at_zero() {
    let record = V326LifecycleFeatureRecord::sample_for_tests_with_features(features_with(|f| {
        f.has_foreign_register = true;
        f.has_owned_anchor = true;
    }));
    let breakdown = score_breakdown_from_feature_record(&record);
    assert_eq!(breakdown.has_owned_anchor, -12);
    assert_eq!(recompute_score(&breakdown), 0);
}

#[test]
fn the_score_is_the_sum_of_the_weights() {
    let record = V326LifecycleFeatureRecord::sample_for_tests_with_features(features_with(|f| {
        f.has_foreign_register = true;
        f.has_borrowed_capture = true;
        f.has_raw_pointer_escape = true;
        f.has_drop_guard = true;
    }));
    let breakdown = score_breakdown_from_feature_record(&record);
    assert_eq!(recompute_score(&breakdown), 4 + 10 + 10 - 10);
}

#[test]
fn feature_names_split_into_risk_and_protection() {
    let set = features_with(|f| {
        f.has_foreign_register = true;
        f.has_drop_guard = true;
    });
    assert_eq!(risk_feature_names(&set), vec!["has_foreign_register".to_owned()]);
    assert_eq!(protective_feature_names(&set), vec!["has_drop_guard".to_owned()]);
}

#[test]
fn the_ranking_reason_names_every_part() {
    let reason = ranking_reason_v2(
        4,
        &vec!["has_foreign_register".to_owned()],
        &Vec::new(),
        &vec!["release_order_unknown".to_owned(), "x".to_owned()],
    );
    assert_eq!(
        reason,
        "score=4; positive=has_foreign_register; protective=none; missing=release_order_unknown,x; candidate ranking is not a defect conclusion"
    );
}

#[test]
fn ids_become_safe_path_names() {
    assert_eq!(sanitize_id_for_path("candidate:a/b c-1_x"), "candidate_a_b_c-1_x");
}

#[test]
fn ranking_orders_by_score_then_candidate_id_and_numbers_from_one() {
    let low = V326LifecycleFeatureRecord::sample_for_tests_for_crate(
        "crate:b",
        features_with(|f| f.has_foreign_register = true),
    );
    let high = V326LifecycleFeatureRecord::sample_for_tests_for_crate(
        "crate:c",
        features_with(|f| {
            f.has_foreign_register = true;
            f.has_borrowed_capture = true;
        }),
    );
    let tie = V326LifecycleFeatureRecord::sample_for_tests_for_crate(
        "crate:a",
        features_with(|f| f.has_foreign_register = true),
    );
    let ranked = rank_v3_2_6_features("run:1", vec![low, high, tie]).expect("valid features rank");
    let order: Vec<(u32, u32, String)> = ranked
        .iter()
        .map(|r| (r.rank, r.score, r.candidate_id.clone()))
        .collect();
    assert_eq!(
        order,
        vec![
            (1, 14, "candidate:crate:c:001".to_owned()),
            (2, 4, "candidate:crate:a:001".to_owned()),
            (3, 4, "candidate:crate:b:001".to_owned()),
        ]
    );
    assert_eq!(ranked[0].run_id, "run:1");
    assert_eq!(ranked[0].lifecycle_graph_path, "graphs/candidate_crate_c_001.json");
}

#[test]
fn ranking_refuses_a_feature_record_without_evidence_refs() {
    let bad = V326LifecycleFeatureRecord::sample_for_tests_without_feature_refs();
    let err = rank_v3_2_6_features("run:1", vec![bad]).expect_err("must be refused");
    match &err {
        ModelError::AtLine { path, line, .. } => {
            assert_eq!(path, "rank-input");
            assert_eq!(*line, 1);
        }
        other => panic!("unexpected error {other:?}"),
    }
}
