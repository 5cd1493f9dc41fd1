//! Validation of the V3.2.6 public artifacts, record by record.

use vstd::prelude::*;

use crate::checks::{check_required, require};
use crate::error::{error_at, is_error_at, Located, ModelError};
use crate::lifecycle_v326::{
    feature_names, feature_values, V326AnonymousPairRecord, V326AnonymousPairSummary, V326Distinguishability,
    V326FeatureSet, V326PairDeltaRecord, V326PairDeltaSummary, V3_2_6_PAIR_DELTA_SCHEMA_V1, V3_2_7_PAIR_DELTA_SCHEMA_V1,
    V326LifecycleEdge, V326LifecycleFeatureRecord, V326LifecycleFeatureSummary, V326LifecycleGraphRecord,
    V326LifecycleNode, FEATURE_COUNT,
};
use crate::record_checks::{all_records_valid, reports_first_error, validate_records, ValidatedRecord};
use crate::static_fact::present;
use crate::v326_checks::{check_v326_tokens, has_v326_token};

verus! {

/// The evidence refs recorded for a feature name: those of the first entry with that name.
pub open spec fn lookup_refs(entries: Seq<(String, Vec<String>)>, name: Seq<char>) -> Option<Seq<String>>
    decreases entries.len(),
{
    if entries.len() == 0 {
        None
    } else if entries[0].0@ == name {
        Some(entries[0].1@)
    } else {
        lookup_refs(entries.drop_first(), name)
    }
}

/// A feature has at least one evidence ref and none of them is blank.
pub open spec fn refs_present(refs: Option<Seq<String>>) -> bool {
    match refs {
        Some(v) => v.len() > 0 && forall|i: int| 0 <= i < v.len() ==> present(#[trigger] v[i]@),
        None => false,
    }
}

/// Every active feature has evidence refs.
pub open spec fn active_features_have_refs(f: V326FeatureSet, entries: Seq<(String, Vec<String>)>) -> bool {
    forall|i: int|
        0 <= i < FEATURE_COUNT && #[trigger] feature_values(f)[i] ==> refs_present(
            lookup_refs(entries, feature_names()[i]),
        )
}

/// All texts of a list are free of the forbidden tokens.
pub open spec fn all_v326_clean(values: Seq<String>) -> bool {
    forall|i: int| 0 <= i < values.len() ==> !has_v326_token(#[trigger] values[i]@)
}

pub fn check_all_tokens<T>(located: &Located<T>, code: &'static str, field: &str, values: &Vec<String>) -> (r:
    Result<(), ModelError>)
    ensures
        r is Ok <==> all_v326_clean(values@),
        r matches Err(e) ==> is_error_at(e, *located, code@),
{
    let mut i: usize = 0;
    while i < values.len()
        invariant
            0 <= i <= values@.len(),
            forall|k: int| 0 <= k < i ==> !has_v326_token(#[trigger] values@[k]@),
        decreases values.len() - i,
    {
        check_v326_tokens(located, code, field, values[i].as_str())?;
        i = i + 1;
    }
    Ok(())
}

fn find_refs(entries: &Vec<(String, Vec<String>)>, name: &str) -> (r: Option<usize>)
    ensures
        match r {
            Some(k) => k < entries@.len() && lookup_refs(entries@, name@) == Some(entries@[k as int].1@),
            None => lookup_refs(entries@, name@) is None,
        },
{
    let target = crate::text::owned(name);
    let mut i: usize = 0;
    assert(entries@.skip(0) =~= entries@);
    while i < entries.len()
        invariant
            0 <= i <= entries@.len(),
            target@ == name@,
            lookup_refs(entries@, name@) == lookup_refs(entries@.skip(i as int), name@),
        decreases entries.len() - i,
    {
        assert(entries@.skip(i as int).drop_first() =~= entries@.skip(i + 1));
        assert(entries@.skip(i as int)[0] == entries@[i as int]);
        if entries[i].0 == target {
            return Some(i);
        }
        i = i + 1;
    }
    assert(entries@.skip(entries@.len() as int) =~= Seq::<(String, Vec<String>)>::empty());
    None
}

fn refs_all_present(refs: &Vec<String>) -> (b: bool)
    ensures
        b == (refs@.len() > 0 && forall|i: int| 0 <= i < refs@.len() ==> present(#[trigger] refs@[i]@)),
{
    if refs.len() == 0 {
        return false;
    }
    let mut i: usize = 0;
    while i < refs.len()
        invariant
            0 <= i <= refs@.len(),
            forall|k: int| 0 <= k < i ==> present(#[trigger] refs@[k]@),
        decreases refs.len() - i,
    {
        if crate::text::str_is_blank(refs[i].as_str()) {
            return false;
        }
        i = i + 1;
    }
    true
}

fn check_feature_evidence(located: &Located<V326LifecycleFeatureRecord>) -> (r: Result<(), ModelError>)
    ensures
        r is Ok <==> active_features_have_refs(located.value.features, located.value.feature_evidence@),
        r matches Err(e) ==> is_error_at(e, *located, "BW-V326-FEATURE-EVIDENCE"@),
{
    let record = &located.value;
    let flags = record.features.active_flags();
    let mut i: usize = 0;
    while i < flags.len()
        invariant
            flags@.len() == FEATURE_COUNT,
            forall|k: int| 0 <= k < FEATURE_COUNT ==> (#[trigger] flags@[k]).0@ == feature_names()[k] && flags@[k].1
                == feature_values(record.features)[k],
            record == &located.value,
            0 <= i <= FEATURE_COUNT,
            forall|k: int|
                0 <= k < i && #[trigger] feature_values(record.features)[k] ==> refs_present(
                    lookup_refs(record.feature_evidence@, feature_names()[k]),
                ),
        decreases flags.len() - i,
    {
        let (name, active) = flags[i];
        if active {
            let ok = match find_refs(&record.feature_evidence, name) {
                Some(k) => refs_all_present(&record.feature_evidence[k].1),
                None => false,
            };
            if !ok {
                return require(located, false, "BW-V326-FEATURE-EVIDENCE", "active feature 必须包含至少一条 evidence ref");
            }
        }
        i = i + 1;
    }
    Ok(())
}

impl ValidatedRecord for V326LifecycleFeatureRecord {
    open spec fn unique_key(&self) -> Seq<char> {
        self.candidate_id@
    }

    open spec fn run_view(&self) -> Seq<char> {
        self.run_id@
    }

    open spec fn record_error(&self, first_run: Option<Seq<char>>, duplicate: bool) -> Option<Seq<char>> {
        if !present(self.run_id@) || !present(self.candidate_id@) || !present(self.crate_id@) {
            Some("BW-V326-FEATURE-REQUIRED-EMPTY"@)
        } else if has_v326_token(self.run_id@) || has_v326_token(self.candidate_id@) || has_v326_token(
            self.crate_id@,
        ) {
            Some("BW-V326-FEATURE-PRIVATE-TOKEN"@)
        } else if first_run is Some && first_run->0 != self.run_id@ {
            Some("BW-V326-FEATURE-RUN-MISMATCH"@)
        } else if !all_v326_clean(self.notes@) {
            Some("BW-V326-FEATURE-PRIVATE-TOKEN"@)
        } else if !active_features_have_refs(self.features, self.feature_evidence@) {
            Some("BW-V326-FEATURE-EVIDENCE"@)
        } else if duplicate {
            Some("BW-V326-FEATURE-CANDIDATE-DUPLICATE"@)
        } else {
            None
        }
    }

    fn key_text(&self) -> (k: &String) {
        &self.candidate_id
    }

    fn run_text(&self) -> (k: &String) {
        &self.run_id
    }

    fn check_record(located: &Located<Self>, first_run: &Option<String>, duplicate: bool) -> (r: Result<
        (),
        ModelError,
    >) {
        let record = &located.value;
        let req = "BW-V326-FEATURE-REQUIRED-EMPTY";
        let tok = "BW-V326-FEATURE-PRIVATE-TOKEN";
        check_required(located, req, "run_id", record.run_id.as_str())?;
        check_required(located, req, "candidate_id", record.candidate_id.as_str())?;
        check_required(located, req, "crate_id", record.crate_id.as_str())?;
        check_v326_tokens(located, tok, "run_id", record.run_id.as_str())?;
        check_v326_tokens(located, tok, "candidate_id", record.candidate_id.as_str())?;
        check_v326_tokens(located, tok, "crate_id", record.crate_id.as_str())?;
        if let Some(expected) = first_run {
            require(located, *expected == record.run_id, "BW-V326-FEATURE-RUN-MISMATCH", "同一 lifecycle feature 输入出现不同的 run_id")?;
        }
        check_all_tokens(located, tok, "notes", &record.notes)?;
        check_feature_evidence(located)?;
        require(located, !duplicate, "BW-V326-FEATURE-CANDIDATE-DUPLICATE", "candidate_id 重复")
    }
}

/// Validates lifecycle feature records: texts, one run id, evidence refs for every active
/// feature and unique candidate ids. The first failure is reported at its record; on success
/// the number of records.
pub fn validate_v3_2_6_lifecycle_features(records: Vec<Located<V326LifecycleFeatureRecord>>) -> (r: Result<
    V326LifecycleFeatureSummary,
    ModelError,
>)
    ensures
        match r {
            Ok(summary) => all_records_valid(records@) && summary.record_count == records@.len(),
            Err(e) => reports_first_error(records@, e),
        },
{
    validate_records(&records)?;
    Ok(V326LifecycleFeatureSummary { record_count: records.len() as u64 })
}

} // verus!

verus! {

pub open spec fn v2_has_node(nodes: Seq<V326LifecycleNode>, id: Seq<char>) -> bool {
    exists|k: int| 0 <= k < nodes.len() && (#[trigger] nodes[k]).node_id@ == id
}

pub open spec fn v2_node_ids_distinct(nodes: Seq<V326LifecycleNode>) -> bool {
    forall|i: int, j: int|
        0 <= i < j < nodes.len() ==> (#[trigger] nodes[i]).node_id@ != (#[trigger] nodes[j]).node_id@
}

/// The list is non-empty and holds no blank text.
pub open spec fn nonblank_list(values: Seq<String>) -> bool {
    values.len() > 0 && forall|i: int| 0 <= i < values.len() ==> present(#[trigger] values[i]@)
}

pub open spec fn v2_edge_error(nodes: Seq<V326LifecycleNode>, e: V326LifecycleEdge) -> Option<Seq<char>> {
    if !v2_has_node(nodes, e.from@) || !v2_has_node(nodes, e.to@) {
        Some("BW-V326-GRAPH-EDGE-ENDPOINT"@)
    } else if !nonblank_list(e.evidence_refs@) {
        Some("BW-V326-GRAPH-EDGE-EVIDENCE"@)
    } else {
        None
    }
}

pub open spec fn v2_edges_error(nodes: Seq<V326LifecycleNode>, edges: Seq<V326LifecycleEdge>) -> Option<
    Seq<char>,
>
    decreases edges.len(),
{
    if edges.len() == 0 {
        None
    } else if v2_edge_error(nodes, edges[0]) is Some {
        v2_edge_error(nodes, edges[0])
    } else {
        v2_edges_error(nodes, edges.drop_first())
    }
}

pub open spec fn v2_nodes_present(nodes: Seq<V326LifecycleNode>) -> bool {
    forall|i: int| 0 <= i < nodes.len() ==> present((#[trigger] nodes[i]).node_id@) && present(nodes[i].label@)
}

fn v2_find_node(nodes: &Vec<V326LifecycleNode>, id: &String) -> (b: bool)
    ensures
        b == v2_has_node(nodes@, id@),
{
    let mut i: usize = 0;
    while i < nodes.len()
        invariant
            0 <= i <= nodes@.len(),
            forall|k: int| 0 <= k < i ==> (#[trigger] nodes@[k]).node_id@ != id@,
        decreases nodes.len() - i,
    {
        if nodes[i].node_id == *id {
            return true;
        }
        i = i + 1;
    }
    false
}

fn v2_distinct(nodes: &Vec<V326LifecycleNode>) -> (b: bool)
    ensures
        b == v2_node_ids_distinct(nodes@),
{
    let mut j: usize = 0;
    while j < nodes.len()
        invariant
            0 <= j <= nodes@.len(),
            forall|a: int, b: int|
                0 <= a < b < j ==> (#[trigger] nodes@[a]).node_id@ != (#[trigger] nodes@[b]).node_id@,
        decreases nodes.len() - j,
    {
        let mut i: usize = 0;
        while i < j
            invariant
                0 <= i <= j < nodes@.len(),
                forall|a: int| 0 <= a < i ==> (#[trigger] nodes@[a]).node_id@ != nodes@[j as int].node_id@,
            decreases j - i,
        {
            if nodes[i].node_id == nodes[j].node_id {
                return false;
            }
            i = i + 1;
        }
        j = j + 1;
    }
    true
}

fn v2_check_nodes(located: &Located<V326LifecycleGraphRecord>, nodes: &Vec<V326LifecycleNode>) -> (r: Result<
    (),
    ModelError,
>)
    ensures
        r is Ok <==> v2_nodes_present(nodes@),
        r matches Err(e) ==> is_error_at(e, *located, "BW-V326-GRAPH-REQUIRED-EMPTY"@),
{
    let mut i: usize = 0;
    while i < nodes.len()
        invariant
            0 <= i <= nodes@.len(),
            forall|k: int| 0 <= k < i ==> present((#[trigger] nodes@[k]).node_id@) && present(nodes@[k].label@),
        decreases nodes.len() - i,
    {
        check_required(located, "BW-V326-GRAPH-REQUIRED-EMPTY", "nodes.node_id", nodes[i].node_id.as_str())?;
        check_required(located, "BW-V326-GRAPH-REQUIRED-EMPTY", "nodes.label", nodes[i].label.as_str())?;
        i = i + 1;
    }
    Ok(())
}

fn nonblank_refs(values: &Vec<String>) -> (b: bool)
    ensures
        b == nonblank_list(values@),
{
    if values.len() == 0 {
        return false;
    }
    let mut i: usize = 0;
    while i < values.len()
        invariant
            0 <= i <= values@.len(),
            forall|k: int| 0 <= k < i ==> present(#[trigger] values@[k]@),
        decreases values.len() - i,
    {
        if crate::text::str_is_blank(values[i].as_str()) {
            return false;
        }
        i = i + 1;
    }
    true
}

fn v2_check_edges(
    located: &Located<V326LifecycleGraphRecord>,
    nodes: &Vec<V326LifecycleNode>,
    edges: &Vec<V326LifecycleEdge>,
) -> (r: Result<(), ModelError>)
    ensures
        match v2_edges_error(nodes@, edges@) {
            None => r is Ok,
            Some(code) => r matches Err(e) && is_error_at(e, *located, code),
        },
{
    let mut i: usize = 0;
    assert(edges@.skip(0) =~= edges@);
    while i < edges.len()
        invariant
            0 <= i <= edges@.len(),
            v2_edges_error(nodes@, edges@) == v2_edges_error(nodes@, edges@.skip(i as int)),
        decreases edges.len() - i,
    {
        assert(edges@.skip(i as int).drop_first() =~= edges@.skip(i + 1));
        assert(edges@.skip(i as int)[0] == edges@[i as int]);
        let e = &edges[i];
        require(
            located,
            v2_find_node(nodes, &e.from) && v2_find_node(nodes, &e.to),
            "BW-V326-GRAPH-EDGE-ENDPOINT",
            "edge 引用了不存在的 node_id",
        )?;
        require(located, nonblank_refs(&e.evidence_refs), "BW-V326-GRAPH-EDGE-EVIDENCE", "edge.evidence_refs 不能为空")?;
        i = i + 1;
    }
    assert(edges@.skip(edges@.len() as int) =~= Seq::<V326LifecycleEdge>::empty());
    Ok(())
}

impl ValidatedRecord for V326LifecycleGraphRecord {
    open spec fn unique_key(&self) -> Seq<char> {
        self.candidate_id@
    }

    open spec fn run_view(&self) -> Seq<char> {
        self.run_id@
    }

    open spec fn record_error(&self, first_run: Option<Seq<char>>, duplicate: bool) -> Option<Seq<char>> {
        if !present(self.run_id@) || !present(self.candidate_id@) || !present(self.crate_id@) {
            Some("BW-V326-GRAPH-REQUIRED-EMPTY"@)
        } else if has_v326_token(self.run_id@) || has_v326_token(self.candidate_id@) || has_v326_token(
            self.crate_id@,
        ) {
            Some("BW-V326-GRAPH-PRIVATE-TOKEN"@)
        } else if self.nodes@.len() == 0 {
            Some("BW-V326-GRAPH-NODES-EMPTY"@)
        } else if !v2_node_ids_distinct(self.nodes@) {
            Some("BW-V326-GRAPH-NODE-ID-DUPLICATE"@)
        } else if !v2_nodes_present(self.nodes@) {
            Some("BW-V326-GRAPH-REQUIRED-EMPTY"@)
        } else if v2_edges_error(self.nodes@, self.edges@) is Some {
            v2_edges_error(self.nodes@, self.edges@)
        } else if duplicate {
            Some("BW-V326-GRAPH-CANDIDATE-DUPLICATE"@)
        } else {
            None
        }
    }

    fn key_text(&self) -> (k: &String) {
        &self.candidate_id
    }

    fn run_text(&self) -> (k: &String) {
        &self.run_id
    }

    fn check_record(located: &Located<Self>, first_run: &Option<String>, duplicate: bool) -> (r: Result<
        (),
        ModelError,
    >) {
        let g = &located.value;
        let req = "BW-V326-GRAPH-REQUIRED-EMPTY";
        let tok = "BW-V326-GRAPH-PRIVATE-TOKEN";
        check_required(located, req, "run_id", g.run_id.as_str())?;
        check_required(located, req, "candidate_id", g.candidate_id.as_str())?;
        check_required(located, req, "crate_id", g.crate_id.as_str())?;
        check_v326_tokens(located, tok, "run_id", g.run_id.as_str())?;
        check_v326_tokens(located, tok, "candidate_id", g.candidate_id.as_str())?;
        check_v326_tokens(located, tok, "crate_id", g.crate_id.as_str())?;
        require(located, g.nodes.len() > 0, "BW-V326-GRAPH-NODES-EMPTY", "lifecycle graph v2 必须至少包含一个 node")?;
        require(located, v2_distinct(&g.nodes), "BW-V326-GRAPH-NODE-ID-DUPLICATE", "lifecycle graph v2 node_id 不能重复")?;
        v2_check_nodes(located, &g.nodes)?;
        v2_check_edges(located, &g.nodes, &g.edges)?;
        require(located, !duplicate, "BW-V326-GRAPH-CANDIDATE-DUPLICATE", "candidate 的 lifecycle graph 重复")
    }
}

/// Validates lifecycle graphs (v2): texts, nodes with distinct ids, edges between existing
/// nodes with evidence, and one graph per candidate. The first failure is reported at its
/// graph; on success the number of graphs.
pub fn validate_v3_2_6_lifecycle_graphs(records: Vec<Located<V326LifecycleGraphRecord>>) -> (r: Result<
    u64,
    ModelError,
>)
    ensures
        match r {
            Ok(count) => all_records_valid(records@) && count == records@.len(),
            Err(e) => reports_first_error(records@, e),
        },
{
    validate_records(&records)?;
    Ok(records.len() as u64)
}

impl ValidatedRecord for V326AnonymousPairRecord {
    open spec fn unique_key(&self) -> Seq<char> {
        self.pair_id@
    }

    open spec fn run_view(&self) -> Seq<char> {
        self.run_id@
    }

    open spec fn record_error(&self, first_run: Option<Seq<char>>, duplicate: bool) -> Option<Seq<char>> {
        if !present(self.run_id@) || !present(self.pair_id@) || !present(self.left_crate_id@) || !present(
            self.right_crate_id@,
        ) || !present(self.relation_hint@) {
            Some("BW-V326-PAIR-REQUIRED-EMPTY"@)
        } else if has_v326_token(self.run_id@) || has_v326_token(self.pair_id@) || has_v326_token(
            self.left_crate_id@,
        ) || has_v326_token(self.right_crate_id@) || has_v326_token(self.relation_hint@) {
            Some("BW-V326-PAIR-PRIVATE-TOKEN"@)
        } else if !all_v326_clean(self.notes@) {
            Some("BW-V326-PAIR-PRIVATE-TOKEN"@)
        } else if self.left_crate_id@ == self.right_crate_id@ {
            Some("BW-V326-PAIR-SAME-SIDE"@)
        } else if duplicate {
            Some("BW-V326-PAIR-ID-DUPLICATE"@)
        } else {
            None
        }
    }

    fn key_text(&self) -> (k: &String) {
        &self.pair_id
    }

    fn run_text(&self) -> (k: &String) {
        &self.run_id
    }

    fn check_record(located: &Located<Self>, first_run: &Option<String>, duplicate: bool) -> (r: Result<
        (),
        ModelError,
    >) {
        let p = &located.value;
        let req = "BW-V326-PAIR-REQUIRED-EMPTY";
        let tok = "BW-V326-PAIR-PRIVATE-TOKEN";
        check_required(located, req, "run_id", p.run_id.as_str())?;
        check_required(located, req, "pair_id", p.pair_id.as_str())?;
        check_required(located, req, "left_crate_id", p.left_crate_id.as_str())?;
        check_required(located, req, "right_crate_id", p.right_crate_id.as_str())?;
        check_required(located, req, "relation_hint", p.relation_hint.as_str())?;
        check_v326_tokens(located, tok, "run_id", p.run_id.as_str())?;
        check_v326_tokens(located, tok, "pair_id", p.pair_id.as_str())?;
        check_v326_tokens(located, tok, "left_crate_id", p.left_crate_id.as_str())?;
        check_v326_tokens(located, tok, "right_crate_id", p.right_crate_id.as_str())?;
        check_v326_tokens(located, tok, "relation_hint", p.relation_hint.as_str())?;
        check_all_tokens(located, tok, "notes", &p.notes)?;
        require(located, !(p.left_crate_id == p.right_crate_id), "BW-V326-PAIR-SAME-SIDE", "left_crate_id 与 right_crate_id 不能相同")?;
        require(located, !duplicate, "BW-V326-PAIR-ID-DUPLICATE", "pair_id 重复")
    }
}

/// Validates anonymous pairs: texts free of identity and role tokens, two different sides and
/// unique pair ids. The first failure is reported at its record; on success the number of
/// pairs.
pub fn validate_v3_2_6_anonymous_pairs(records: Vec<Located<V326AnonymousPairRecord>>) -> (r: Result<
    V326AnonymousPairSummary,
    ModelError,
>)
    ensures
        match r {
            Ok(summary) => all_records_valid(records@) && summary.record_count == records@.len(),
            Err(e) => reports_first_error(records@, e),
        },
{
    validate_records(&records)?;
    Ok(V326AnonymousPairSummary { record_count: records.len() as u64 })
}

} // verus!

verus! {

/// The error code of the public fields of a pair delta checked against a schema; v3.2.7 deltas
/// carry a comparison key and the run id of their pair manifest, v3.2.6 deltas carry neither.
pub open spec fn delta_fields_error(d: V326PairDeltaRecord, expected_schema: Seq<char>, v327: bool) -> Option<
    Seq<char>,
> {
    if d.schema_version@ != expected_schema {
        Some("BW-V326-DELTA-SCHEMA"@)
    } else if !present(d.run_id@) || !present(d.pair_id@) || !present(d.left_crate_id@) || !present(
        d.right_crate_id@,
    ) {
        Some("BW-V326-DELTA-REQUIRED-EMPTY"@)
    } else if has_v326_token(d.run_id@) || has_v326_token(d.pair_id@) || has_v326_token(
        d.left_crate_id@,
    ) || has_v326_token(d.right_crate_id@) {
        Some("BW-V326-DELTA-PRIVATE-TOKEN"@)
    } else if v327 && !present(d.comparison_key@) {
        Some("BW-V326-DELTA-REQUIRED-EMPTY"@)
    } else if v327 && has_v326_token(d.comparison_key@) {
        Some("BW-V326-DELTA-PRIVATE-TOKEN"@)
    } else if v327 && !present(d.pair_manifest_run_id@) {
        Some("BW-V326-DELTA-REQUIRED-EMPTY"@)
    } else if v327 && has_v326_token(d.pair_manifest_run_id@) {
        Some("BW-V326-DELTA-PRIVATE-TOKEN"@)
    } else if !v327 && d.comparison_key@.len() > 0 {
        Some("BW-V326-DELTA-COMPARISON-KEY"@)
    } else if !v327 && d.pair_manifest_run_id@.len() > 0 {
        Some("BW-V326-DELTA-PAIR-MANIFEST-RUN"@)
    } else if !all_v326_clean(d.left_top_features@) || !all_v326_clean(d.right_top_features@)
        || !all_v326_clean(d.semantic_delta@) || !all_v326_clean(d.notes@) {
        Some("BW-V326-DELTA-PRIVATE-TOKEN"@)
    } else {
        None
    }
}

fn check_delta_fields(located: &Located<V326PairDeltaRecord>, expected_schema: &'static str, v327: bool) -> (r:
    Result<(), ModelError>)
    ensures
        match delta_fields_error(located.value, expected_schema@, v327) {
            None => r is Ok,
            Some(code) => r matches Err(e) && is_error_at(e, *located, code),
        },
{
    let d = &located.value;
    let req = "BW-V326-DELTA-REQUIRED-EMPTY";
    let tok = "BW-V326-DELTA-PRIVATE-TOKEN";
    require(located, d.schema_version == crate::text::owned(expected_schema), "BW-V326-DELTA-SCHEMA", "pair delta schema 不匹配当前校验入口")?;
    check_required(located, req, "run_id", d.run_id.as_str())?;
    check_required(located, req, "pair_id", d.pair_id.as_str())?;
    check_required(located, req, "left_crate_id", d.left_crate_id.as_str())?;
    check_required(located, req, "right_crate_id", d.right_crate_id.as_str())?;
    check_v326_tokens(located, tok, "run_id", d.run_id.as_str())?;
    check_v326_tokens(located, tok, "pair_id", d.pair_id.as_str())?;
    check_v326_tokens(located, tok, "left_crate_id", d.left_crate_id.as_str())?;
    check_v326_tokens(located, tok, "right_crate_id", d.right_crate_id.as_str())?;
    if v327 {
        check_required(located, req, "comparison_key", d.comparison_key.as_str())?;
        check_v326_tokens(located, tok, "comparison_key", d.comparison_key.as_str())?;
        check_required(located, req, "pair_manifest_run_id", d.pair_manifest_run_id.as_str())?;
        check_v326_tokens(located, tok, "pair_manifest_run_id", d.pair_manifest_run_id.as_str())?;
    } else {
        require(located, d.comparison_key.unicode_len() == 0, "BW-V326-DELTA-COMPARISON-KEY", "v3.2.6 pair delta 不允许 comparison_key；请使用 v3.2.7 schema")?;
        require(located, d.pair_manifest_run_id.unicode_len() == 0, "BW-V326-DELTA-PAIR-MANIFEST-RUN", "v3.2.6 pair delta 不允许 pair_manifest_run_id；请使用 v3.2.7 schema")?;
    }
    check_all_tokens(located, tok, "left_top_features", &d.left_top_features)?;
    check_all_tokens(located, tok, "right_top_features", &d.right_top_features)?;
    check_all_tokens(located, tok, "semantic_delta", &d.semantic_delta)?;
    check_all_tokens(located, tok, "notes", &d.notes)
}

impl ValidatedRecord for V326PairDeltaRecord {
    open spec fn unique_key(&self) -> Seq<char> {
        self.pair_id@
    }

    open spec fn run_view(&self) -> Seq<char> {
        self.run_id@
    }

    open spec fn record_error(&self, first_run: Option<Seq<char>>, duplicate: bool) -> Option<Seq<char>> {
        if delta_fields_error(*self, V3_2_6_PAIR_DELTA_SCHEMA_V1@, false) is Some {
            delta_fields_error(*self, V3_2_6_PAIR_DELTA_SCHEMA_V1@, false)
        } else if duplicate {
            Some("BW-V326-DELTA-ID-DUPLICATE"@)
        } else {
            None
        }
    }

    fn key_text(&self) -> (k: &String) {
        &self.pair_id
    }

    fn run_text(&self) -> (k: &String) {
        &self.run_id
    }

    fn check_record(located: &Located<Self>, first_run: &Option<String>, duplicate: bool) -> (r: Result<
        (),
        ModelError,
    >) {
        check_delta_fields(located, V3_2_6_PAIR_DELTA_SCHEMA_V1, false)?;
        require(located, !duplicate, "BW-V326-DELTA-ID-DUPLICATE", "pair_id 重复")
    }
}

/// The number of deltas with a given distinguishability.
pub open spec fn count_distinguishability(
    records: Seq<Located<V326PairDeltaRecord>>,
    d: V326Distinguishability,
) -> nat
    decreases records.len(),
{
    if records.len() == 0 {
        0
    } else {
        count_distinguishability(records.drop_last(), d) + if records.last().value.distinguishability
            == d {
            1nat
        } else {
            0nat
        }
    }
}

/// The summary of a delta file: the number of records and of each distinguishability.
pub open spec fn is_delta_summary(s: V326PairDeltaSummary, records: Seq<Located<V326PairDeltaRecord>>) -> bool {
    &&& s.record_count == records.len()
    &&& s.separable_static_count == count_distinguishability(records, V326Distinguishability::SeparableStatic)
    &&& s.indistinguishable_static_only_count == count_distinguishability(
        records,
        V326Distinguishability::IndistinguishableStaticOnly,
    )
    &&& s.insufficient_evidence_count == count_distinguishability(
        records,
        V326Distinguishability::InsufficientEvidence,
    )
    &&& s.unpaired_count == count_distinguishability(records, V326Distinguishability::Unpaired)
}

proof fn lemma_count_distinguishability_bound(records: Seq<Located<V326PairDeltaRecord>>, d: V326Distinguishability)
    ensures
        count_distinguishability(records, d) <= records.len(),
    decreases records.len(),
{
    if records.len() > 0 {
        lemma_count_distinguishability_bound(records.drop_last(), d);
    }
}

fn summarize_deltas(records: &Vec<Located<V326PairDeltaRecord>>) -> (s: V326PairDeltaSummary)
    ensures
        is_delta_summary(s, records@),
{
    let mut s = V326PairDeltaSummary {
        record_count: 0,
        separable_static_count: 0,
        indistinguishable_static_only_count: 0,
        insufficient_evidence_count: 0,
        unpaired_count: 0,
    };
    let mut i: usize = 0;
    while i < records.len()
        invariant
            0 <= i <= records@.len(),
            is_delta_summary(s, records@.take(i as int)),
        decreases records.len() - i,
    {
        let ghost prefix = records@.take(i as int);
        assert(records@.take(i + 1).drop_last() =~= prefix);
        proof {
            lemma_count_distinguishability_bound(prefix, V326Distinguishability::SeparableStatic);
            lemma_count_distinguishability_bound(prefix, V326Distinguishability::IndistinguishableStaticOnly);
            lemma_count_distinguishability_bound(prefix, V326Distinguishability::InsufficientEvidence);
            lemma_count_distinguishability_bound(prefix, V326Distinguishability::Unpaired);
        }
        match records[i].value.distinguishability {
            V326Distinguishability::SeparableStatic => {
                s.separable_static_count = s.separable_static_count + 1;
            },
            V326Distinguishability::IndistinguishableStaticOnly => {
                s.indistinguishable_static_only_count = s.indistinguishable_static_only_count + 1;
            },
            V326Distinguishability::InsufficientEvidence => {
                s.insufficient_evidence_count = s.insufficient_evidence_count + 1;
            },
            V326Distinguishability::Unpaired => {
                s.unpaired_count = s.unpaired_count + 1;
            },
        }
        s.record_count = s.record_count + 1;
        i = i + 1;
    }
    assert(records@.take(records@.len() as int) =~= records@);
    s
}

/// Validates v3.2.6 pair deltas: the schema, texts free of identity and role tokens, no
/// comparison key or pair manifest run, and unique pair ids. The first failure is reported at
/// its record; on success the counts by distinguishability.
pub fn validate_v3_2_6_pair_deltas(records: Vec<Located<V326PairDeltaRecord>>) -> (r: Result<
    V326PairDeltaSummary,
    ModelError,
>)
    ensures
        match r {
            Ok(summary) => all_records_valid(records@) && is_delta_summary(summary, records@),
            Err(e) => reports_first_error(records@, e),
        },
{
    validate_records(&records)?;
    Ok(summarize_deltas(&records))
}

/// The error code of a v3.2.7 delta at `i`: its public fields, then a pair id that an earlier
/// delta gave another run or other sides, then a pair id and comparison key that an earlier
/// delta already had.
pub open spec fn v327_error_at(records: Seq<Located<V326PairDeltaRecord>>, i: int) -> Option<Seq<char>> {
    let d = records[i].value;
    if delta_fields_error(d, V3_2_7_PAIR_DELTA_SCHEMA_V1@, true) is Some {
        delta_fields_error(d, V3_2_7_PAIR_DELTA_SCHEMA_V1@, true)
    } else if exists|j: int|
        0 <= j < i && #[trigger] records[j].value.pair_id@ == d.pair_id@ && (records[j].value.run_id@
            != d.run_id@ || records[j].value.left_crate_id@ != d.left_crate_id@
            || records[j].value.right_crate_id@ != d.right_crate_id@) {
        Some("BW-V327-DELTA-PAIR-MISMATCH"@)
    } else if exists|j: int|
        0 <= j < i && #[trigger] records[j].value.pair_id@ == d.pair_id@ && records[j].value.comparison_key@
            == d.comparison_key@ {
        Some("BW-V327-DELTA-ID-DUPLICATE"@)
    } else {
        None
    }
}

fn pair_identity_conflict(records: &Vec<Located<V326PairDeltaRecord>>, i: usize) -> (b: bool)
    requires
        i < records@.len(),
    ensures
        b == exists|j: int|
            0 <= j < i && #[trigger] records@[j].value.pair_id@ == records@[i as int].value.pair_id@ && (
            records@[j].value.run_id@ != records@[i as int].value.run_id@
                || records@[j].value.left_crate_id@ != records@[i as int].value.left_crate_id@
                || records@[j].value.right_crate_id@ != records@[i as int].value.right_crate_id@),
{
    let d = &records[i].value;
    let mut j: usize = 0;
    while j < i
        invariant
            0 <= j <= i < records@.len(),
            d == &records@[i as int].value,
            forall|k: int|
                0 <= k < j ==> !(#[trigger] records@[k].value.pair_id@ == d.pair_id@ && (records@[k].value.run_id@
                    != d.run_id@ || records@[k].value.left_crate_id@ != d.left_crate_id@
                    || records@[k].value.right_crate_id@ != d.right_crate_id@)),
        decreases i - j,
    {
        let e = &records[j].value;
        if e.pair_id == d.pair_id && (!(e.run_id == d.run_id) || !(e.left_crate_id == d.left_crate_id)
            || !(e.right_crate_id == d.right_crate_id)) {
            return true;
        }
        j = j + 1;
    }
    false
}

fn pair_key_seen(records: &Vec<Located<V326PairDeltaRecord>>, i: usize) -> (b: bool)
    requires
        i < records@.len(),
    ensures
        b == exists|j: int|
            0 <= j < i && #[trigger] records@[j].value.pair_id@ == records@[i as int].value.pair_id@
                && records@[j].value.comparison_key@ == records@[i as int].value.comparison_key@,
{
    let d = &records[i].value;
    let mut j: usize = 0;
    while j < i
        invariant
            0 <= j <= i < records@.len(),
            d == &records@[i as int].value,
            forall|k: int|
                0 <= k < j ==> !(#[trigger] records@[k].value.pair_id@ == d.pair_id@ && records@[k].value.comparison_key@
                    == d.comparison_key@),
        decreases i - j,
    {
        let e = &records[j].value;
        if e.pair_id == d.pair_id && e.comparison_key == d.comparison_key {
            return true;
        }
        j = j + 1;
    }
    false
}

/// Validates v3.2.7 pair deltas: the schema and public fields with a comparison key, one run
/// and pair of sides per pair id, and each pair id with a comparison key once. The first
/// failure is reported at its record; on success the counts by distinguishability.
pub fn validate_v3_2_7_pair_deltas(records: Vec<Located<V326PairDeltaRecord>>) -> (r: Result<
    V326PairDeltaSummary,
    ModelError,
>)
    ensures
        match r {
            Ok(summary) => {
                &&& forall|i: int| 0 <= i < records@.len() ==> v327_error_at(records@, i) is None
                &&& is_delta_summary(summary, records@)
            },
            Err(e) => exists|i: int|
                0 <= i < records@.len() && (forall|j: int| 0 <= j < i ==> v327_error_at(records@, j) is None)
                    && (#[trigger] v327_error_at(records@, i)) is Some && is_error_at(
                    e,
                    records@[i],
                    v327_error_at(records@, i)->0,
                ),
        },
{
    let mut i: usize = 0;
    while i < records.len()
        invariant
            0 <= i <= records@.len(),
            forall|j: int| 0 <= j < i ==> v327_error_at(records@, j) is None,
        decreases records.len() - i,
    {
        let located = &records[i];
        match check_delta_fields(located, V3_2_7_PAIR_DELTA_SCHEMA_V1, true) {
            Ok(()) => {},
            Err(e) => {
                assert(v327_error_at(records@, i as int) is Some);
                return Err(e);
            },
        }
        if pair_identity_conflict(&records, i) {
            assert(v327_error_at(records@, i as int) is Some);
            return Err(error_at(located, "BW-V327-DELTA-PAIR-MISMATCH", crate::text::owned("pair_id 的 run_id 或 left/right crate_id 不一致")));
        }
        if pair_key_seen(&records, i) {
            assert(v327_error_at(records@, i as int) is Some);
            return Err(error_at(located, "BW-V327-DELTA-ID-DUPLICATE", crate::text::owned("pair_id 与 comparison_key 重复")));
        }
        i = i + 1;
    }
    Ok(summarize_deltas(&records))
}

} // verus!
