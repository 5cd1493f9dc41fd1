//! Validation of V3.2.6 lifecycle graphs (v3): objects, edges between them and the object
//! chains that run through both.

use vstd::prelude::*;

use crate::checks::require;
use crate::error::{is_error_at, Located, ModelError};
use crate::lifecycle_v326::{
    V326LifecycleGraphV3Edge, V326LifecycleGraphV3Record, V326LifecycleGraphV3Summary, V326LifecycleObject,
    V326ObjectChain,
};
use crate::record_checks::{
    all_records_valid, first_error_upto, lemma_first_error_stable, reports_first_error, validate_records,
    ValidatedRecord,
};
use crate::static_fact::present;
use crate::v326_checks::{
    check_field, check_public_list, check_source_ref_tokens, check_v326_tokens, first_field_error,
    has_v326_token, public_list_clean, source_ref_clean,
};

verus! {

pub open spec fn has_object(objs: Seq<V326LifecycleObject>, id: Seq<char>) -> bool {
    exists|k: int| 0 <= k < objs.len() && (#[trigger] objs[k]).object_id@ == id
}

pub open spec fn has_edge(edges: Seq<V326LifecycleGraphV3Edge>, id: Seq<char>) -> bool {
    exists|k: int| 0 <= k < edges.len() && (#[trigger] edges[k]).edge_id@ == id
}

/// The error code of the object at `i`, checked against the objects before it.
pub open spec fn object_error(objs: Seq<V326LifecycleObject>, i: int) -> Option<Seq<char>> {
    let o = objs[i];
    if !present(o.object_id@) {
        Some("BW-V326-GRAPH-V3-OBJECT-ID"@)
    } else if !present(o.label@) {
        Some("BW-V326-GRAPH-V3-OBJECT-LABEL"@)
    } else if has_v326_token(o.object_id@) || has_v326_token(o.label@) || !public_list_clean(o.fact_refs@)
        || (o.source_ref is Some && !source_ref_clean(o.source_ref->0)) {
        Some("BW-V326-GRAPH-V3-PRIVATE-TOKEN"@)
    } else if exists|j: int| 0 <= j < i && #[trigger] objs[j].object_id@ == o.object_id@ {
        Some("BW-V326-GRAPH-V3-OBJECT-DUPLICATE"@)
    } else {
        None
    }
}

pub open spec fn object_checks(objs: Seq<V326LifecycleObject>) -> spec_fn(int) -> Option<Seq<char>> {
    |i: int| object_error(objs, i)
}

/// The error code of the edge at `i`, checked against the objects and the edges before it.
pub open spec fn edge_error(
    objs: Seq<V326LifecycleObject>,
    edges: Seq<V326LifecycleGraphV3Edge>,
    i: int,
) -> Option<Seq<char>> {
    let e = edges[i];
    let ids = seq![e.edge_id@, e.from_object_id@, e.to_object_id@];
    if first_field_error(ids, "BW-V326-GRAPH-V3-EDGE-REQUIRED"@, "BW-V326-GRAPH-V3-PRIVATE-TOKEN"@) is Some {
        first_field_error(ids, "BW-V326-GRAPH-V3-EDGE-REQUIRED"@, "BW-V326-GRAPH-V3-PRIVATE-TOKEN"@)
    } else if !has_object(objs, e.from_object_id@) || !has_object(objs, e.to_object_id@) {
        Some("BW-V326-GRAPH-V3-EDGE-ENDPOINT"@)
    } else if exists|j: int| 0 <= j < i && #[trigger] edges[j].edge_id@ == e.edge_id@ {
        Some("BW-V326-GRAPH-V3-EDGE-DUPLICATE"@)
    } else if e.evidence_refs@.len() == 0 && e.fact_refs@.len() == 0 {
        Some("BW-V326-GRAPH-V3-EDGE-EVIDENCE"@)
    } else if !public_list_clean(e.evidence_refs@) || !public_list_clean(e.fact_refs@) {
        Some("BW-V326-GRAPH-V3-PRIVATE-TOKEN"@)
    } else {
        None
    }
}

pub open spec fn edge_checks(
    objs: Seq<V326LifecycleObject>,
    edges: Seq<V326LifecycleGraphV3Edge>,
) -> spec_fn(int) -> Option<Seq<char>> {
    |i: int| edge_error(objs, edges, i)
}

/// The error code of the chain at `i`, checked against the objects, the edges and the chains
/// before it.
pub open spec fn chain_error(
    objs: Seq<V326LifecycleObject>,
    edges: Seq<V326LifecycleGraphV3Edge>,
    chains: Seq<V326ObjectChain>,
    i: int,
) -> Option<Seq<char>> {
    let c = chains[i];
    if !present(c.chain_id@) {
        Some("BW-V326-GRAPH-V3-CHAIN-ID"@)
    } else if has_v326_token(c.chain_id@) {
        Some("BW-V326-GRAPH-V3-PRIVATE-TOKEN"@)
    } else if exists|j: int| 0 <= j < i && #[trigger] chains[j].chain_id@ == c.chain_id@ {
        Some("BW-V326-GRAPH-V3-CHAIN-DUPLICATE"@)
    } else if c.object_ids@.len() == 0 && c.edge_ids@.len() == 0 && c.fact_refs@.len() == 0 {
        Some("BW-V326-GRAPH-V3-CHAIN-EMPTY"@)
    } else if exists|k: int| 0 <= k < c.object_ids@.len() && !has_object(objs, #[trigger] c.object_ids@[k]@) {
        Some("BW-V326-GRAPH-V3-CHAIN-OBJECT"@)
    } else if exists|k: int| 0 <= k < c.edge_ids@.len() && !has_edge(edges, #[trigger] c.edge_ids@[k]@) {
        Some("BW-V326-GRAPH-V3-CHAIN-EDGE"@)
    } else if !public_list_clean(c.object_ids@) || !public_list_clean(c.edge_ids@) || !public_list_clean(
        c.fact_refs@,
    ) || !public_list_clean(c.evidence_refs@) {
        Some("BW-V326-GRAPH-V3-PRIVATE-TOKEN"@)
    } else {
        None
    }
}

pub open spec fn chain_checks(
    objs: Seq<V326LifecycleObject>,
    edges: Seq<V326LifecycleGraphV3Edge>,
    chains: Seq<V326ObjectChain>,
) -> spec_fn(int) -> Option<Seq<char>> {
    |i: int| chain_error(objs, edges, chains, i)
}

fn find_object(objs: &Vec<V326LifecycleObject>, n: usize, id: &String) -> (b: bool)
    requires
        n <= objs@.len(),
    ensures
        b == exists|k: int| 0 <= k < n && (#[trigger] objs@[k]).object_id@ == id@,
{
    let mut i: usize = 0;
    while i < n
        invariant
            0 <= i <= n <= objs@.len(),
            forall|k: int| 0 <= k < i ==> (#[trigger] objs@[k]).object_id@ != id@,
        decreases n - i,
    {
        if objs[i].object_id == *id {
            return true;
        }
        i = i + 1;
    }
    false
}

fn find_edge(edges: &Vec<V326LifecycleGraphV3Edge>, n: usize, id: &String) -> (b: bool)
    requires
        n <= edges@.len(),
    ensures
        b == exists|k: int| 0 <= k < n && (#[trigger] edges@[k]).edge_id@ == id@,
{
    let mut i: usize = 0;
    while i < n
        invariant
            0 <= i <= n <= edges@.len(),
            forall|k: int| 0 <= k < i ==> (#[trigger] edges@[k]).edge_id@ != id@,
        decreases n - i,
    {
        if edges[i].edge_id == *id {
            return true;
        }
        i = i + 1;
    }
    false
}

fn find_chain(chains: &Vec<V326ObjectChain>, n: usize, id: &String) -> (b: bool)
    requires
        n <= chains@.len(),
    ensures
        b == exists|k: int| 0 <= k < n && (#[trigger] chains@[k]).chain_id@ == id@,
{
    let mut i: usize = 0;
    while i < n
        invariant
            0 <= i <= n <= chains@.len(),
            forall|k: int| 0 <= k < i ==> (#[trigger] chains@[k]).chain_id@ != id@,
        decreases n - i,
    {
        if chains[i].chain_id == *id {
            return true;
        }
        i = i + 1;
    }
    false
}

fn check_object(located: &Located<V326LifecycleGraphV3Record>, objs: &Vec<V326LifecycleObject>, i: usize) -> (r:
    Result<(), ModelError>)
    requires
        i < objs@.len(),
    ensures
        match object_error(objs@, i as int) {
            None => r is Ok,
            Some(code) => r matches Err(e) && is_error_at(e, *located, code),
        },
{
    let o = &objs[i];
    let tok = "BW-V326-GRAPH-V3-PRIVATE-TOKEN";
    crate::checks::check_required(located, "BW-V326-GRAPH-V3-OBJECT-ID", "objects.object_id", o.object_id.as_str())?;
    crate::checks::check_required(located, "BW-V326-GRAPH-V3-OBJECT-LABEL", "objects.label", o.label.as_str())?;
    check_v326_tokens(located, tok, "objects.object_id", o.object_id.as_str())?;
    check_v326_tokens(located, tok, "objects.label", o.label.as_str())?;
    check_public_list(located, tok, "objects.fact_refs", &o.fact_refs)?;
    if let Some(source_ref) = &o.source_ref {
        check_source_ref_tokens(located, tok, source_ref)?;
    }
    require(located, !find_object(objs, i, &o.object_id), "BW-V326-GRAPH-V3-OBJECT-DUPLICATE", "object_id 重复")
}

fn check_edge(
    located: &Located<V326LifecycleGraphV3Record>,
    objs: &Vec<V326LifecycleObject>,
    edges: &Vec<V326LifecycleGraphV3Edge>,
    i: usize,
) -> (r: Result<(), ModelError>)
    requires
        i < edges@.len(),
    ensures
        match edge_error(objs@, edges@, i as int) {
            None => r is Ok,
            Some(code) => r matches Err(e) && is_error_at(e, *located, code),
        },
{
    let e = &edges[i];
    let req = "BW-V326-GRAPH-V3-EDGE-REQUIRED";
    let tok = "BW-V326-GRAPH-V3-PRIVATE-TOKEN";
    let ghost ids = seq![e.edge_id@, e.from_object_id@, e.to_object_id@];
    proof {
        reveal_with_fuel(first_field_error, 4);
    }
    assert(ids.drop_first() =~= seq![e.from_object_id@, e.to_object_id@]);
    assert(ids.drop_first().drop_first() =~= seq![e.to_object_id@]);
    assert(ids.drop_first().drop_first().drop_first() =~= Seq::<Seq<char>>::empty());
    check_field(located, req, tok, "edges.edge_id", e.edge_id.as_str())?;
    check_field(located, req, tok, "edges.from_object_id", e.from_object_id.as_str())?;
    check_field(located, req, tok, "edges.to_object_id", e.to_object_id.as_str())?;
    require(
        located,
        find_object(objs, objs.len(), &e.from_object_id) && find_object(objs, objs.len(), &e.to_object_id),
        "BW-V326-GRAPH-V3-EDGE-ENDPOINT",
        "edge 引用了不存在的 lifecycle object id",
    )?;
    require(located, !find_edge(edges, i, &e.edge_id), "BW-V326-GRAPH-V3-EDGE-DUPLICATE", "edge_id 重复")?;
    require(
        located,
        !(e.evidence_refs.len() == 0 && e.fact_refs.len() == 0),
        "BW-V326-GRAPH-V3-EDGE-EVIDENCE",
        "graph v3 edge 必须包含 evidence_refs 或 fact_refs",
    )?;
    check_public_list(located, tok, "edges.evidence_refs", &e.evidence_refs)?;
    check_public_list(located, tok, "edges.fact_refs", &e.fact_refs)
}

fn all_objects_known(objs: &Vec<V326LifecycleObject>, ids: &Vec<String>) -> (b: bool)
    ensures
        b == !exists|k: int| 0 <= k < ids@.len() && !has_object(objs@, #[trigger] ids@[k]@),
{
    let mut i: usize = 0;
    while i < ids.len()
        invariant
            0 <= i <= ids@.len(),
            forall|k: int| 0 <= k < i ==> has_object(objs@, #[trigger] ids@[k]@),
        decreases ids.len() - i,
    {
        if !find_object(objs, objs.len(), &ids[i]) {
            assert(!has_object(objs@, ids@[i as int]@));
            return false;
        }
        i = i + 1;
    }
    true
}

fn all_edges_known(edges: &Vec<V326LifecycleGraphV3Edge>, ids: &Vec<String>) -> (b: bool)
    ensures
        b == !exists|k: int| 0 <= k < ids@.len() && !has_edge(edges@, #[trigger] ids@[k]@),
{
    let mut i: usize = 0;
    while i < ids.len()
        invariant
            0 <= i <= ids@.len(),
            forall|k: int| 0 <= k < i ==> has_edge(edges@, #[trigger] ids@[k]@),
        decreases ids.len() - i,
    {
        if !find_edge(edges, edges.len(), &ids[i]) {
            assert(!has_edge(edges@, ids@[i as int]@));
            return false;
        }
        i = i + 1;
    }
    true
}

fn check_chain(
    located: &Located<V326LifecycleGraphV3Record>,
    objs: &Vec<V326LifecycleObject>,
    edges: &Vec<V326LifecycleGraphV3Edge>,
    chains: &Vec<V326ObjectChain>,
    i: usize,
) -> (r: Result<(), ModelError>)
    requires
        i < chains@.len(),
    ensures
        match chain_error(objs@, edges@, chains@, i as int) {
            None => r is Ok,
            Some(code) => r matches Err(e) && is_error_at(e, *located, code),
        },
{
    let c = &chains[i];
    let tok = "BW-V326-GRAPH-V3-PRIVATE-TOKEN";
    crate::checks::check_required(located, "BW-V326-GRAPH-V3-CHAIN-ID", "object_chains.chain_id", c.chain_id.as_str())?;
    check_v326_tokens(located, tok, "object_chains.chain_id", c.chain_id.as_str())?;
    require(located, !find_chain(chains, i, &c.chain_id), "BW-V326-GRAPH-V3-CHAIN-DUPLICATE", "chain_id 重复")?;
    require(
        located,
        !(c.object_ids.len() == 0 && c.edge_ids.len() == 0 && c.fact_refs.len() == 0),
        "BW-V326-GRAPH-V3-CHAIN-EMPTY",
        "object_chain 必须包含 object_ids、edge_ids 或 fact_refs",
    )?;
    require(located, all_objects_known(objs, &c.object_ids), "BW-V326-GRAPH-V3-CHAIN-OBJECT", "chain 引用了不存在的 object id")?;
    require(located, all_edges_known(edges, &c.edge_ids), "BW-V326-GRAPH-V3-CHAIN-EDGE", "chain 引用了不存在的 edge id")?;
    check_public_list(located, tok, "object_chains.object_ids", &c.object_ids)?;
    check_public_list(located, tok, "object_chains.edge_ids", &c.edge_ids)?;
    check_public_list(located, tok, "object_chains.fact_refs", &c.fact_refs)?;
    check_public_list(located, tok, "object_chains.evidence_refs", &c.evidence_refs)
}

fn check_objects(located: &Located<V326LifecycleGraphV3Record>, objs: &Vec<V326LifecycleObject>) -> (r: Result<
    (),
    ModelError,
>)
    ensures
        match first_error_upto(object_checks(objs@), objs@.len() as int) {
            None => r is Ok,
            Some(code) => r matches Err(e) && is_error_at(e, *located, code),
        },
{
    let ghost f = object_checks(objs@);
    let mut i: usize = 0;
    while i < objs.len()
        invariant
            0 <= i <= objs@.len(),
            f == object_checks(objs@),
            first_error_upto(f, i as int) is None,
        decreases objs.len() - i,
    {
        proof {
            if f(i as int) is Some {
                lemma_first_error_stable(f, i + 1, objs@.len() as int);
            }
        }
        check_object(located, objs, i)?;
        i = i + 1;
    }
    Ok(())
}

fn check_edges(
    located: &Located<V326LifecycleGraphV3Record>,
    objs: &Vec<V326LifecycleObject>,
    edges: &Vec<V326LifecycleGraphV3Edge>,
) -> (r: Result<(), ModelError>)
    ensures
        match first_error_upto(edge_checks(objs@, edges@), edges@.len() as int) {
            None => r is Ok,
            Some(code) => r matches Err(e) && is_error_at(e, *located, code),
        },
{
    let ghost f = edge_checks(objs@, edges@);
    let mut i: usize = 0;
    while i < edges.len()
        invariant
            0 <= i <= edges@.len(),
            f == edge_checks(objs@, edges@),
            first_error_upto(f, i as int) is None,
        decreases edges.len() - i,
    {
        proof {
            if f(i as int) is Some {
                lemma_first_error_stable(f, i + 1, edges@.len() as int);
            }
        }
        check_edge(located, objs, edges, i)?;
        i = i + 1;
    }
    Ok(())
}

fn check_chains(
    located: &Located<V326LifecycleGraphV3Record>,
    objs: &Vec<V326LifecycleObject>,
    edges: &Vec<V326LifecycleGraphV3Edge>,
    chains: &Vec<V326ObjectChain>,
) -> (r: Result<(), ModelError>)
    ensures
        match first_error_upto(chain_checks(objs@, edges@, chains@), chains@.len() as int) {
            None => r is Ok,
            Some(code) => r matches Err(e) && is_error_at(e, *located, code),
        },
{
    let ghost f = chain_checks(objs@, edges@, chains@);
    let mut i: usize = 0;
    while i < chains.len()
        invariant
            0 <= i <= chains@.len(),
            f == chain_checks(objs@, edges@, chains@),
            first_error_upto(f, i as int) is None,
        decreases chains.len() - i,
    {
        proof {
            if f(i as int) is Some {
                lemma_first_error_stable(f, i + 1, chains@.len() as int);
            }
        }
        check_chain(located, objs, edges, chains, i)?;
        i = i + 1;
    }
    Ok(())
}

impl ValidatedRecord for V326LifecycleGraphV3Record {
    open spec fn unique_key(&self) -> Seq<char> {
        self.candidate_id@
    }

    open spec fn run_view(&self) -> Seq<char> {
        self.run_id@
    }

    open spec fn record_error(&self, first_run: Option<Seq<char>>, duplicate: bool) -> Option<Seq<char>> {
        let ids = seq![self.run_id@, self.candidate_id@, self.crate_id@];
        let objs = self.objects@;
        let edges = self.edges@;
        let chains = self.object_chains@;
        if first_field_error(ids, "BW-V326-GRAPH-V3-REQUIRED-EMPTY"@, "BW-V326-GRAPH-V3-PRIVATE-TOKEN"@) is Some {
            first_field_error(ids, "BW-V326-GRAPH-V3-REQUIRED-EMPTY"@, "BW-V326-GRAPH-V3-PRIVATE-TOKEN"@)
        } else if objs.len() == 0 {
            Some("BW-V326-GRAPH-V3-OBJECTS-EMPTY"@)
        } else if first_error_upto(object_checks(objs), objs.len() as int) is Some {
            first_error_upto(object_checks(objs), objs.len() as int)
        } else if first_error_upto(edge_checks(objs, edges), edges.len() as int) is Some {
            first_error_upto(edge_checks(objs, edges), edges.len() as int)
        } else if first_error_upto(chain_checks(objs, edges, chains), chains.len() as int) is Some {
            first_error_upto(chain_checks(objs, edges, chains), chains.len() as int)
        } else if !public_list_clean(self.evidence_refs@) || !public_list_clean(self.incomplete_reasons@)
            || !public_list_clean(self.notes@) {
            Some("BW-V326-GRAPH-V3-PRIVATE-TOKEN"@)
        } else if duplicate {
            Some("BW-V326-GRAPH-V3-CANDIDATE-DUPLICATE"@)
        } else {
            None
        }
    }

    fn key_text(&self) -> (k: &String) {
        &self.candidate_id
    }

    fn run_text(&self) -> (k: &String) {
        &self.run_id
    }

    fn check_record(located: &Located<Self>, first_run: &Option<String>, duplicate: bool) -> (r: Result<
        (),
        ModelError,
    >) {
        let g = &located.value;
        let req = "BW-V326-GRAPH-V3-REQUIRED-EMPTY";
        let tok = "BW-V326-GRAPH-V3-PRIVATE-TOKEN";
        let ghost ids = seq![g.run_id@, g.candidate_id@, g.crate_id@];
        proof {
            reveal_with_fuel(first_field_error, 4);
        }
        assert(ids.drop_first() =~= seq![g.candidate_id@, g.crate_id@]);
        assert(ids.drop_first().drop_first() =~= seq![g.crate_id@]);
        assert(ids.drop_first().drop_first().drop_first() =~= Seq::<Seq<char>>::empty());
        check_field(located, req, tok, "run_id", g.run_id.as_str())?;
        check_field(located, req, tok, "candidate_id", g.candidate_id.as_str())?;
        check_field(located, req, tok, "crate_id", g.crate_id.as_str())?;
        require(located, g.objects.len() > 0, "BW-V326-GRAPH-V3-OBJECTS-EMPTY", "lifecycle graph v3 必须至少包含一个 object")?;
        check_objects(located, &g.objects)?;
        check_edges(located, &g.objects, &g.edges)?;
        check_chains(located, &g.objects, &g.edges, &g.object_chains)?;
        check_public_list(located, tok, "evidence_refs", &g.evidence_refs)?;
        check_public_list(located, tok, "incomplete_reasons", &g.incomplete_reasons)?;
        check_public_list(located, tok, "notes", &g.notes)?;
        require(located, !duplicate, "BW-V326-GRAPH-V3-CANDIDATE-DUPLICATE", "candidate 的 lifecycle graph v3 重复")
    }
}

/// The number of graphs with incomplete reasons.
pub open spec fn count_incomplete(graphs: Seq<Located<V326LifecycleGraphV3Record>>) -> nat
    decreases graphs.len(),
{
    if graphs.len() == 0 {
        0
    } else {
        count_incomplete(graphs.drop_last()) + if graphs.last().value.incomplete_reasons@.len() > 0 {
            1nat
        } else {
            0nat
        }
    }
}

proof fn lemma_count_incomplete_bound(graphs: Seq<Located<V326LifecycleGraphV3Record>>)
    ensures
        count_incomplete(graphs) <= graphs.len(),
    decreases graphs.len(),
{
    if graphs.len() > 0 {
        lemma_count_incomplete_bound(graphs.drop_last());
    }
}

/// Validates lifecycle graphs (v3): ids; objects with ids and labels, once each; edges with
/// ids between existing objects, once each, with evidence or facts; chains with ids, once each,
/// over existing objects and edges; public lists free of forbidden tokens; one graph per
/// candidate. The first failure is reported at its graph; on success the number of graphs and
/// of incomplete ones.
pub fn validate_v3_2_6_lifecycle_graph_v3(records: Vec<Located<V326LifecycleGraphV3Record>>) -> (r: Result<
    V326LifecycleGraphV3Summary,
    ModelError,
>)
    ensures
        match r {
            Ok(summary) => {
                &&& all_records_valid(records@)
                &&& summary.graph_count == records@.len()
                &&& summary.incomplete_graph_count == count_incomplete(records@)
            },
            Err(e) => reports_first_error(records@, e),
        },
{
    validate_records(&records)?;
    let mut incomplete: u64 = 0;
    let mut i: usize = 0;
    while i < records.len()
        invariant
            0 <= i <= records@.len(),
            incomplete == count_incomplete(records@.take(i as int)),
        decreases records.len() - i,
    {
        let ghost prefix = records@.take(i as int);
        assert(records@.take(i + 1).drop_last() =~= prefix);
        proof {
            lemma_count_incomplete_bound(prefix);
        }
        if records[i].value.incomplete_reasons.len() > 0 {
            incomplete = incomplete + 1;
        }
        i = i + 1;
    }
    assert(records@.take(records@.len() as int) =~= records@);
    Ok(V326LifecycleGraphV3Summary { graph_count: records.len() as u64, incomplete_graph_count: incomplete })
}

} // verus!
