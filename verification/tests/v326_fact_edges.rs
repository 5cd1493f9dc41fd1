use bw_model::lifecycle_v326::{
    V326CoverageState, V326EvidenceConfidence, V326LifecycleFactKind, V326LifecycleFactProvenance,
    V326LifecycleFactRecord, V326LifecycleGraphV3Edge, V326LifecycleObject, V326LifecycleObjectKind,
    V326LifecycleOrdering, V326LifecycleRelation, V326SourceRef,
};
use bw_model::v326_fact_edges::{
    add_object, append_authoritative_fact_edges, fact_edge_shape, lifecycle_relation_token,
    object_flow_endpoint_object_ids_in_order,
};

fn fact(id: &str, kind: V326LifecycleFactKind, object_ids: &[&str]) -> V326LifecycleFactRecord {
    V326LifecycleFactRecord {
        schema_version: "v3.2.6.lifecycle_fact.1".to_owned(),
        run_id: "run:1".to_owned(),
        candidate_id: "candidate:a".to_owned(),
        crate_id: "crate:a".to_owned(),
        fact_id: id.to_owned(),
        fact_kind: kind,
        source_ref: V326SourceRef {
            path: "src/lib.rs".to_owned(),
            line_start: Some(3),
            line_end: Some(4),
            symbol_path: None,
            text_sha256: None,
        },
        symbol_path: None,
        confidence: V326EvidenceConfidence::High,
        coverage_state: V326CoverageState::Covered,
        provenance: V326LifecycleFactProvenance::source_observation(),
        object_ids: object_ids.iter().map(|s| (*s).to_owned()).collect(),
        evidence_refs: vec!["evidence:1".to_owned()],
        notes: Vec::new(),
    }
}

fn ids(objects: &[V326LifecycleObject]) -> Vec<&str> {
    objects.iter().map(|o| o.object_id.as_str()).collect()
}

#[test]
fn a_registration_runs_from_its_callback_to_the_foreign_owner() {
    let mut objects = Vec::new();
    let f = fact("fact:1", V326LifecycleFactKind::RegisterCall, &["user_data:u", "callback:c"]);
    let shape = fact_edge_shape(&f, "foreign_owner:api", &mut objects).expect("a register call has an edge");
    assert_eq!(
        shape,
        (
            "callback:c".to_owned(),
            "foreign_owner:api".to_owned(),
            V326LifecycleRelation::Register,
            V326LifecycleOrdering::SameSite
        )
    );
    assert!(objects.is_empty());
}

#[test]
fn a_release_without_an_endpoint_brings_one() {
    let mut objects = Vec::new();
    let f = fact("fact:2/x", V326LifecycleFactKind::ReleaseCall, &["callback:c"]);
    let shape = fact_edge_shape(&f, "foreign_owner:api", &mut objects).expect("a release has an edge");
    assert_eq!(shape.1, "release_endpoint:fact_2_x");
    assert_eq!(shape.2, V326LifecycleRelation::Release);
    assert_eq!(ids(&objects), vec!["release_endpoint:fact_2_x"]);
    assert_eq!(objects[0].object_kind, V326LifecycleObjectKind::ReleaseEndpoint);
    assert_eq!(objects[0].label, "release endpoint");
    assert_eq!(objects[0].fact_refs, vec!["fact:2/x".to_owned()]);
}

#[test]
fn a_fact_without_the_ids_its_kind_needs_has_no_edge() {
    let mut objects = Vec::new();
    let f = fact("fact:3", V326LifecycleFactKind::DropSite, &["callback:c"]);
    assert_eq!(fact_edge_shape(&f, "foreign_owner:api", &mut objects), None);
    assert!(objects.is_empty());
    let f = fact("fact:4", V326LifecycleFactKind::AtomicOrdering, &["rust_owner:o"]);
    assert_eq!(fact_edge_shape(&f, "foreign_owner:api", &mut objects), None);
}

#[test]
fn returned_borrow_orders_pick_their_static_sites() {
    let mut objects = Vec::new();
    let f = fact(
        "fact:5",
        V326LifecycleFactKind::ReturnedBorrowInvalidationOrder,
        &[
            "static_site:persist",
            "returned_borrow_order:invalidation_before_persistence_use",
            "static_site:invalidate",
            "static_site:use",
        ],
    );
    let shape = fact_edge_shape(&f, "o", &mut objects).expect("three static sites");
    assert_eq!(shape.0, "static_site:invalidate");
    assert_eq!(shape.1, "static_site:use");
    assert_eq!(shape.2, V326LifecycleRelation::Use);
    assert_eq!(shape.3, V326LifecycleOrdering::Before);
}

#[test]
fn object_flows_run_between_their_first_two_endpoints() {
    let f = fact(
        "fact:6",
        V326LifecycleFactKind::ObjectFlow,
        &["object_flow:field_store", "object_flow_binding:k", "user_data:u", "static_site:s", "storage:x"],
    );
    assert_eq!(
        object_flow_endpoint_object_ids_in_order(&f),
        vec!["user_data:u".to_owned(), "static_site:s".to_owned()]
    );
    let mut objects = Vec::new();
    let shape = fact_edge_shape(&f, "o", &mut objects).expect("two endpoints");
    assert_eq!(shape.2, V326LifecycleRelation::Persist);
}

#[test]
fn objects_stay_in_id_order_and_merge_their_fact_refs() {
    let mut objects = Vec::new();
    add_object(&mut objects, "b".to_owned(), V326LifecycleObjectKind::Unknown, "B".to_owned(), None, vec!["f1".to_owned()]);
    add_object(&mut objects, "a".to_owned(), V326LifecycleObjectKind::Callback, "A".to_owned(), None, vec![]);
    add_object(
        &mut objects,
        "b".to_owned(),
        V326LifecycleObjectKind::Callback,
        "other".to_owned(),
        None,
        vec!["f2".to_owned(), "f1".to_owned(), "f2".to_owned()],
    );
    assert_eq!(ids(&objects), vec!["a", "b"]);
    assert_eq!(objects[1].label, "B");
    assert_eq!(objects[1].object_kind, V326LifecycleObjectKind::Unknown);
    assert_eq!(objects[1].fact_refs, vec!["f1".to_owned(), "f2".to_owned()]);
}

#[test]
fn facts_add_edges_once_and_skip_facts_already_on_an_edge() {
    let mut objects = Vec::new();
    let mut edges = vec![V326LifecycleGraphV3Edge {
        edge_id: "edge:evidence:register".to_owned(),
        from_object_id: "callback:c".to_owned(),
        to_object_id: "foreign_owner:api".to_owned(),
        relation: V326LifecycleRelation::Register,
        ordering: V326LifecycleOrdering::SameSite,
        evidence_refs: vec![],
        fact_refs: vec!["fact:used".to_owned()],
    }];
    let facts = vec![
        fact("fact:used", V326LifecycleFactKind::RegisterCall, &["callback:c"]),
        fact("fact:drop", V326LifecycleFactKind::DropImpl, &["rust_owner:o"]),
        fact("fact:drop", V326LifecycleFactKind::DropImpl, &["rust_owner:o"]),
        fact("fact:none", V326LifecycleFactKind::UnsafeCast, &["rust_owner:o"]),
    ];
    append_authoritative_fact_edges(&mut objects, &mut edges, "foreign_owner:api", &facts);
    assert_eq!(edges.len(), 2);
    assert_eq!(edges[1].edge_id, "edge:fact_drop:drop");
    assert_eq!(edges[1].from_object_id, "rust_owner:o");
    assert_eq!(edges[1].to_object_id, "release_endpoint:fact_drop");
    assert_eq!(edges[1].evidence_refs, vec!["evidence:1".to_owned()]);
    assert_eq!(edges[1].fact_refs, vec!["fact:drop".to_owned()]);
    assert_eq!(ids(&objects), vec!["release_endpoint:fact_drop"]);
    assert_eq!(lifecycle_relation_token(V326LifecycleRelation::RawEscape), "raw_escape");
}

#[test]
fn a_second_pass_over_the_same_facts_adds_nothing() {
    let mut objects = Vec::new();
    let mut edges = Vec::new();
    let facts = vec![
        fact("fact:r", V326LifecycleFactKind::ReleaseCall, &["callback:c"]),
        fact("fact:d", V326LifecycleFactKind::DropSite, &["rust_owner:o"]),
        fact("fact:x", V326LifecycleFactKind::TraitImpl, &[]),
    ];
    append_authoritative_fact_edges(&mut objects, &mut edges, "foreign_owner:api", &facts);
    let (objects_once, edges_once) = (ids(&objects).join(","), edges.iter().map(|e| e.edge_id.clone()).collect::<Vec<_>>());
    assert_eq!(edges_once, vec!["edge:fact_r:release".to_owned(), "edge:fact_d:drop".to_owned()]);
    append_authoritative_fact_edges(&mut objects, &mut edges, "foreign_owner:api", &facts);
    assert_eq!(ids(&objects).join(","), objects_once);
    assert_eq!(edges.iter().map(|e| e.edge_id.clone()).collect::<Vec<_>>(), edges_once);
}
