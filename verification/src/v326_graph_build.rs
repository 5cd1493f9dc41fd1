//! The evidence-derived lifecycle graph (v2) of a candidate.

use vstd::prelude::*;

use crate::candidate::V32CandidateRecord;
use crate::lifecycle_v326::{
    V326EvidenceKind, V326LifecycleEdge, V326LifecycleEdgeKind, V326LifecycleEvidenceRecord, V326LifecycleGraphRecord,
    V326LifecycleNode, V326LifecycleNodeKind, V3_2_6_LIFECYCLE_GRAPH_SCHEMA_V1,
};
use crate::text::owned;

verus! {

/// The record ids of the evidence, in order.
pub open spec fn evidence_ids(evidence: Seq<V326LifecycleEvidenceRecord>) -> Seq<Seq<char>> {
    evidence.map_values(|e: V326LifecycleEvidenceRecord| e.record_id@)
}

/// The record ids of the evidence of one kind, in order.
pub open spec fn refs_of_kind(evidence: Seq<V326LifecycleEvidenceRecord>, kind: V326EvidenceKind) -> Seq<Seq<char>>
    decreases evidence.len(),
{
    if evidence.len() == 0 {
        Seq::empty()
    } else if evidence.last().evidence_kind == kind {
        refs_of_kind(evidence.drop_last(), kind).push(evidence.last().record_id@)
    } else {
        refs_of_kind(evidence.drop_last(), kind)
    }
}

/// Some evidence has the kind.
pub open spec fn has_kind(evidence: Seq<V326LifecycleEvidenceRecord>, kind: V326EvidenceKind) -> bool {
    exists|i: int| 0 <= i < evidence.len() && #[trigger] evidence[i].evidence_kind == kind
}

/// A node by its id, kind and label.
pub open spec fn node_view(n: V326LifecycleNode) -> (Seq<char>, V326LifecycleNodeKind, Seq<char>) {
    (n.node_id@, n.node_kind, n.label@)
}

/// An edge by its ends, kind and evidence.
pub open spec fn edge_view(e: V326LifecycleEdge) -> (Seq<char>, Seq<char>, V326LifecycleEdgeKind, Seq<Seq<char>>) {
    (e.from@, e.to@, e.edge_kind, e.evidence_refs@.map_values(|s: String| s@))
}

/// The node of an evidence kind when that evidence is present.
pub open spec fn opt_node(
    present: bool,
    id: Seq<char>,
    kind: V326LifecycleNodeKind,
    label: Seq<char>,
) -> Seq<(Seq<char>, V326LifecycleNodeKind, Seq<char>)> {
    if present {
        seq![(id, kind, label)]
    } else {
        Seq::empty()
    }
}

/// The edge of an evidence kind when that evidence is present.
pub open spec fn opt_edge(
    present: bool,
    from: Seq<char>,
    to: Seq<char>,
    kind: V326LifecycleEdgeKind,
    refs: Seq<Seq<char>>,
) -> Seq<(Seq<char>, Seq<char>, V326LifecycleEdgeKind, Seq<Seq<char>>)> {
    if present {
        seq![(from, to, kind, refs)]
    } else {
        Seq::empty()
    }
}

/// The candidate and its foreign API (or an unknown one).
pub open spec fn base_nodes(c: V32CandidateRecord) -> Seq<(Seq<char>, V326LifecycleNodeKind, Seq<char>)> {
    seq![
        ("candidate"@, V326LifecycleNodeKind::RustObject, c.candidate_id@),
        (
            "foreign_api"@,
            V326LifecycleNodeKind::ForeignApi,
            match c.api_path {
                Some(p) => p@,
                None => "unknown_api"@,
            },
        ),
    ]
}

/// The nodes of the graph: the candidate, its foreign API, then one node for each kind of
/// evidence found (borrow, raw pointer, owned anchor, drop guard, release, opaque handle).
pub open spec fn graph_nodes(c: V32CandidateRecord, ev: Seq<V326LifecycleEvidenceRecord>) -> Seq<
    (Seq<char>, V326LifecycleNodeKind, Seq<char>),
> {
    base_nodes(c) + opt_node(has_kind(ev, V326EvidenceKind::BorrowEdge), "borrow"@, V326LifecycleNodeKind::Borrow, "borrowed object evidence"@)
        + opt_node(
        has_kind(ev, V326EvidenceKind::RawPointerEscape),
        "raw_pointer"@,
        V326LifecycleNodeKind::RawPointer,
        "raw pointer escape evidence"@,
    ) + opt_node(
        has_kind(ev, V326EvidenceKind::OwnedAnchor),
        "owned_anchor"@,
        V326LifecycleNodeKind::RustObject,
        "owned anchor evidence"@,
    ) + opt_node(
        has_kind(ev, V326EvidenceKind::DropGuard),
        "drop_guard"@,
        V326LifecycleNodeKind::DropGuard,
        "drop guard evidence"@,
    ) + opt_node(
        has_kind(ev, V326EvidenceKind::ForeignUnregister) || has_kind(ev, V326EvidenceKind::ReleaseSite),
        "release_api"@,
        V326LifecycleNodeKind::ReleaseApi,
        "release or unregister evidence"@,
    ) + opt_node(
        has_kind(ev, V326EvidenceKind::OpaqueHandleTransfer),
        "opaque_handle"@,
        V326LifecycleNodeKind::OpaqueHandle,
        "opaque handle transfer evidence"@,
    )
}

/// The edges that evidence supports, each with the ids of that evidence.
pub open spec fn evidence_edges(ev: Seq<V326LifecycleEvidenceRecord>) -> Seq<
    (Seq<char>, Seq<char>, V326LifecycleEdgeKind, Seq<Seq<char>>),
> {
    opt_edge(
        has_kind(ev, V326EvidenceKind::ForeignRegister),
        "candidate"@,
        "foreign_api"@,
        V326LifecycleEdgeKind::RegisteredInto,
        refs_of_kind(ev, V326EvidenceKind::ForeignRegister),
    ) + opt_edge(
        has_kind(ev, V326EvidenceKind::BorrowEdge),
        "borrow"@,
        "foreign_api"@,
        V326LifecycleEdgeKind::Borrows,
        refs_of_kind(ev, V326EvidenceKind::BorrowEdge),
    ) + opt_edge(
        has_kind(ev, V326EvidenceKind::RawPointerEscape),
        "raw_pointer"@,
        "foreign_api"@,
        V326LifecycleEdgeKind::RawPointerEscape,
        refs_of_kind(ev, V326EvidenceKind::RawPointerEscape),
    ) + opt_edge(
        has_kind(ev, V326EvidenceKind::OwnedAnchor),
        "owned_anchor"@,
        "candidate"@,
        V326LifecycleEdgeKind::MovesInto,
        refs_of_kind(ev, V326EvidenceKind::OwnedAnchor),
    ) + opt_edge(
        has_kind(ev, V326EvidenceKind::DropGuard),
        "candidate"@,
        "drop_guard"@,
        V326LifecycleEdgeKind::GuardedByDrop,
        refs_of_kind(ev, V326EvidenceKind::DropGuard),
    ) + opt_edge(
        has_kind(ev, V326EvidenceKind::ForeignUnregister) || has_kind(ev, V326EvidenceKind::ReleaseSite),
        "foreign_api"@,
        "release_api"@,
        V326LifecycleEdgeKind::ReleasedBy,
        refs_of_kind(ev, V326EvidenceKind::ForeignUnregister) + refs_of_kind(ev, V326EvidenceKind::ReleaseSite),
    ) + opt_edge(
        has_kind(ev, V326EvidenceKind::OpaqueHandleTransfer),
        "candidate"@,
        "opaque_handle"@,
        V326LifecycleEdgeKind::MovesInto,
        refs_of_kind(ev, V326EvidenceKind::OpaqueHandleTransfer),
    )
}

/// The edges of the graph: those that evidence supports, or else one edge of unknown order from
/// the candidate to its foreign API carrying all evidence ids (or an incomplete marker).
pub open spec fn graph_edges(ev: Seq<V326LifecycleEvidenceRecord>) -> Seq<
    (Seq<char>, Seq<char>, V326LifecycleEdgeKind, Seq<Seq<char>>),
> {
    if evidence_edges(ev).len() > 0 {
        evidence_edges(ev)
    } else {
        seq![
            (
                "candidate"@,
                "foreign_api"@,
                V326LifecycleEdgeKind::UnknownOrder,
                if ev.len() == 0 {
                    seq!["evidence:incomplete"@]
                } else {
                    evidence_ids(ev)
                },
            ),
        ]
    }
}

/// What the evidence leaves open: a registration with neither unregistration nor drop guard,
/// and a raw pointer escape without an owned anchor.
pub open spec fn graph_incomplete(ev: Seq<V326LifecycleEvidenceRecord>) -> Seq<Seq<char>> {
    let a = if has_kind(ev, V326EvidenceKind::ForeignRegister) && !has_kind(ev, V326EvidenceKind::ForeignUnregister)
        && !has_kind(ev, V326EvidenceKind::DropGuard) {
        seq!["no unregister or drop guard evidence for registered callback"@]
    } else {
        Seq::empty()
    };
    if has_kind(ev, V326EvidenceKind::RawPointerEscape) && !has_kind(ev, V326EvidenceKind::OwnedAnchor) {
        a.push("raw pointer escape without owned anchor evidence"@)
    } else {
        a
    }
}

fn record_ids(evidence: &Vec<V326LifecycleEvidenceRecord>) -> (r: Vec<String>)
    ensures
        r@.map_values(|s: String| s@) == evidence_ids(evidence@),
{
    let mut r: Vec<String> = Vec::new();
    let mut i: usize = 0;
    while i < evidence.len()
        invariant
            0 <= i <= evidence@.len(),
            r@.map_values(|s: String| s@) == evidence_ids(evidence@.take(i as int)),
        decreases evidence.len() - i,
    {
        let ghost before = r@.map_values(|s: String| s@);
        r.push(evidence[i].record_id.clone());
        assert(evidence_ids(evidence@.take(i + 1)) =~= evidence_ids(evidence@.take(i as int)).push(
            evidence@[i as int].record_id@,
        ));
        assert(r@.map_values(|s: String| s@) =~= before.push(evidence@[i as int].record_id@));
        i = i + 1;
    }
    assert(evidence@.take(evidence@.len() as int) =~= evidence@);
    r
}

pub(crate) fn refs_for(evidence: &Vec<V326LifecycleEvidenceRecord>, kind: V326EvidenceKind) -> (r: Vec<String>)
    ensures
        r@.map_values(|s: String| s@) == refs_of_kind(evidence@, kind),
{
    let mut r: Vec<String> = Vec::new();
    let mut i: usize = 0;
    assert(evidence@.take(0) =~= Seq::<V326LifecycleEvidenceRecord>::empty());
    while i < evidence.len()
        invariant
            0 <= i <= evidence@.len(),
            r@.map_values(|s: String| s@) == refs_of_kind(evidence@.take(i as int), kind),
        decreases evidence.len() - i,
    {
        assert(evidence@.take(i + 1).drop_last() =~= evidence@.take(i as int));
        if evidence[i].evidence_kind == kind {
            let ghost before = r@.map_values(|s: String| s@);
            r.push(evidence[i].record_id.clone());
            assert(r@.map_values(|s: String| s@) =~= before.push(evidence@[i as int].record_id@));
        }
        i = i + 1;
    }
    assert(evidence@.take(evidence@.len() as int) =~= evidence@);
    r
}

pub(crate) fn has_evidence(evidence: &Vec<V326LifecycleEvidenceRecord>, kind: V326EvidenceKind) -> (b: bool)
    ensures
        b == has_kind(evidence@, kind),
{
    let mut i: usize = 0;
    while i < evidence.len()
        invariant
            0 <= i <= evidence@.len(),
            forall|k: int| 0 <= k < i ==> evidence@[k].evidence_kind != kind,
        decreases evidence.len() - i,
    {
        if evidence[i].evidence_kind == kind {
            return true;
        }
        i = i + 1;
    }
    false
}

fn push_node(nodes: &mut Vec<V326LifecycleNode>, id: &str, kind: V326LifecycleNodeKind, label: String)
    ensures
        final(nodes)@.map_values(|n: V326LifecycleNode| node_view(n)) == old(nodes)@.map_values(
            |n: V326LifecycleNode| node_view(n),
        ).push((id@, kind, label@)),
{
    let ghost before = nodes@.map_values(|n: V326LifecycleNode| node_view(n));
    nodes.push(V326LifecycleNode { node_id: owned(id), node_kind: kind, label });
    assert(nodes@.map_values(|n: V326LifecycleNode| node_view(n)) =~= before.push((id@, kind, label@)));
}

fn push_edge(edges: &mut Vec<V326LifecycleEdge>, from: &str, to: &str, kind: V326LifecycleEdgeKind, refs: Vec<String>)
    ensures
        final(edges)@.map_values(|e: V326LifecycleEdge| edge_view(e)) == old(edges)@.map_values(
            |e: V326LifecycleEdge| edge_view(e),
        ).push((from@, to@, kind, refs@.map_values(|s: String| s@))),
{
    let ghost before = edges@.map_values(|e: V326LifecycleEdge| edge_view(e));
    let ghost r = refs@.map_values(|s: String| s@);
    edges.push(V326LifecycleEdge { from: owned(from), to: owned(to), edge_kind: kind, evidence_refs: refs });
    assert(edges@.map_values(|e: V326LifecycleEdge| edge_view(e)) =~= before.push((from@, to@, kind, r)));
}

fn base_node_list(candidate: &V32CandidateRecord) -> (nodes: Vec<V326LifecycleNode>)
    ensures
        nodes@.map_values(|n: V326LifecycleNode| node_view(n)) == base_nodes(*candidate),
{
    let mut nodes: Vec<V326LifecycleNode> = Vec::new();
    push_node(&mut nodes, "candidate", V326LifecycleNodeKind::RustObject, candidate.candidate_id.clone());
    let label = match &candidate.api_path {
        Some(p) => p.clone(),
        None => owned("unknown_api"),
    };
    push_node(&mut nodes, "foreign_api", V326LifecycleNodeKind::ForeignApi, label);
    assert(nodes@.map_values(|n: V326LifecycleNode| node_view(n)) =~= base_nodes(*candidate));
    nodes
}

fn graph_node_list(candidate: &V32CandidateRecord, evidence: &Vec<V326LifecycleEvidenceRecord>) -> (nodes: Vec<
    V326LifecycleNode,
>)
    ensures
        nodes@.map_values(|n: V326LifecycleNode| node_view(n)) == graph_nodes(*candidate, evidence@),
{
    let ev = evidence;
    let mut nodes = base_node_list(candidate);
    let ghost before = nodes@.map_values(|n: V326LifecycleNode| node_view(n));
    if has_evidence(ev, V326EvidenceKind::BorrowEdge) {
        push_node(&mut nodes, "borrow", V326LifecycleNodeKind::Borrow, owned("borrowed object evidence"));
    }
    assert(nodes@.map_values(|n: V326LifecycleNode| node_view(n)) =~= before + opt_node(
        has_kind(ev@, V326EvidenceKind::BorrowEdge),
        "borrow"@,
        V326LifecycleNodeKind::Borrow,
        "borrowed object evidence"@,
    ));
    let ghost before = nodes@.map_values(|n: V326LifecycleNode| node_view(n));
    if has_evidence(ev, V326EvidenceKind::RawPointerEscape) {
        push_node(&mut nodes, "raw_pointer", V326LifecycleNodeKind::RawPointer, owned("raw pointer escape evidence"));
    }
    assert(nodes@.map_values(|n: V326LifecycleNode| node_view(n)) =~= before + opt_node(
        has_kind(ev@, V326EvidenceKind::RawPointerEscape),
        "raw_pointer"@,
        V326LifecycleNodeKind::RawPointer,
        "raw pointer escape evidence"@,
    ));
    let ghost before = nodes@.map_values(|n: V326LifecycleNode| node_view(n));
    if has_evidence(ev, V326EvidenceKind::OwnedAnchor) {
        push_node(&mut nodes, "owned_anchor", V326LifecycleNodeKind::RustObject, owned("owned anchor evidence"));
    }
    assert(nodes@.map_values(|n: V326LifecycleNode| node_view(n)) =~= before + opt_node(
        has_kind(ev@, V326EvidenceKind::OwnedAnchor),
        "owned_anchor"@,
        V326LifecycleNodeKind::RustObject,
        "owned anchor evidence"@,
    ));
    let ghost before = nodes@.map_values(|n: V326LifecycleNode| node_view(n));
    if has_evidence(ev, V326EvidenceKind::DropGuard) {
        push_node(&mut nodes, "drop_guard", V326LifecycleNodeKind::DropGuard, owned("drop guard evidence"));
    }
    assert(nodes@.map_values(|n: V326LifecycleNode| node_view(n)) =~= before + opt_node(
        has_kind(ev@, V326EvidenceKind::DropGuard),
        "drop_guard"@,
        V326LifecycleNodeKind::DropGuard,
        "drop guard evidence"@,
    ));
    let ghost before = nodes@.map_values(|n: V326LifecycleNode| node_view(n));
    if has_evidence(ev, V326EvidenceKind::ForeignUnregister) || has_evidence(ev, V326EvidenceKind::ReleaseSite) {
        push_node(&mut nodes, "release_api", V326LifecycleNodeKind::ReleaseApi, owned("release or unregister evidence"));
    }
    assert(nodes@.map_values(|n: V326LifecycleNode| node_view(n)) =~= before + opt_node(
        has_kind(ev@, V326EvidenceKind::ForeignUnregister) || has_kind(ev@, V326EvidenceKind::ReleaseSite),
        "release_api"@,
        V326LifecycleNodeKind::ReleaseApi,
        "release or unregister evidence"@,
    ));
    let ghost before = nodes@.map_values(|n: V326LifecycleNode| node_view(n));
    if has_evidence(ev, V326EvidenceKind::OpaqueHandleTransfer) {
        push_node(&mut nodes, "opaque_handle", V326LifecycleNodeKind::OpaqueHandle, owned("opaque handle transfer evidence"));
    }
    assert(nodes@.map_values(|n: V326LifecycleNode| node_view(n)) =~= before + opt_node(
        has_kind(ev@, V326EvidenceKind::OpaqueHandleTransfer),
        "opaque_handle"@,
        V326LifecycleNodeKind::OpaqueHandle,
        "opaque handle transfer evidence"@,
    ));
    nodes
}

fn evidence_edge_list(evidence: &Vec<V326LifecycleEvidenceRecord>) -> (edges: Vec<V326LifecycleEdge>)
    ensures
        edges@.map_values(|e: V326LifecycleEdge| edge_view(e)) == evidence_edges(evidence@),
{
    let ev = evidence;
    let mut edges: Vec<V326LifecycleEdge> = Vec::new();
    assert(edges@.map_values(|e: V326LifecycleEdge| edge_view(e)) =~= Seq::<(Seq<char>, Seq<char>, V326LifecycleEdgeKind, Seq<Seq<char>>)>::empty());
    let ghost before = edges@.map_values(|e: V326LifecycleEdge| edge_view(e));
    if has_evidence(ev, V326EvidenceKind::ForeignRegister) {
        push_edge(&mut edges, "candidate", "foreign_api", V326LifecycleEdgeKind::RegisteredInto, refs_for(ev, V326EvidenceKind::ForeignRegister));
    }
    assert(edges@.map_values(|e: V326LifecycleEdge| edge_view(e)) =~= before + opt_edge(
        has_kind(ev@, V326EvidenceKind::ForeignRegister),
        "candidate"@,
        "foreign_api"@,
        V326LifecycleEdgeKind::RegisteredInto,
        refs_of_kind(ev@, V326EvidenceKind::ForeignRegister),
    ));
    let ghost before = edges@.map_values(|e: V326LifecycleEdge| edge_view(e));
    if has_evidence(ev, V326EvidenceKind::BorrowEdge) {
        push_edge(&mut edges, "borrow", "foreign_api", V326LifecycleEdgeKind::Borrows, refs_for(ev, V326EvidenceKind::BorrowEdge));
    }
    assert(edges@.map_values(|e: V326LifecycleEdge| edge_view(e)) =~= before + opt_edge(
        has_kind(ev@, V326EvidenceKind::BorrowEdge),
        "borrow"@,
        "foreign_api"@,
        V326LifecycleEdgeKind::Borrows,
        refs_of_kind(ev@, V326EvidenceKind::BorrowEdge),
    ));
    let ghost before = edges@.map_values(|e: V326LifecycleEdge| edge_view(e));
    if has_evidence(ev, V326EvidenceKind::RawPointerEscape) {
        push_edge(&mut edges, "raw_pointer", "foreign_api", V326LifecycleEdgeKind::RawPointerEscape, refs_for(ev, V326EvidenceKind::RawPointerEscape));
    }
    assert(edges@.map_values(|e: V326LifecycleEdge| edge_view(e)) =~= before + opt_edge(
        has_kind(ev@, V326EvidenceKind::RawPointerEscape),
        "raw_pointer"@,
        "foreign_api"@,
        V326LifecycleEdgeKind::RawPointerEscape,
        refs_of_kind(ev@, V326EvidenceKind::RawPointerEscape),
    ));
    let ghost before = edges@.map_values(|e: V326LifecycleEdge| edge_view(e));
    if has_evidence(ev, V326EvidenceKind::OwnedAnchor) {
        push_edge(&mut edges, "owned_anchor", "candidate", V326LifecycleEdgeKind::MovesInto, refs_for(ev, V326EvidenceKind::OwnedAnchor));
    }
    assert(edges@.map_values(|e: V326LifecycleEdge| edge_view(e)) =~= before + opt_edge(
        has_kind(ev@, V326EvidenceKind::OwnedAnchor),
        "owned_anchor"@,
        "candidate"@,
        V326LifecycleEdgeKind::MovesInto,
        refs_of_kind(ev@, V326EvidenceKind::OwnedAnchor),
    ));
    let ghost before = edges@.map_values(|e: V326LifecycleEdge| edge_view(e));
    if has_evidence(ev, V326EvidenceKind::DropGuard) {
        push_edge(&mut edges, "candidate", "drop_guard", V326LifecycleEdgeKind::GuardedByDrop, refs_for(ev, V326EvidenceKind::DropGuard));
    }
    assert(edges@.map_values(|e: V326LifecycleEdge| edge_view(e)) =~= before + opt_edge(
        has_kind(ev@, V326EvidenceKind::DropGuard),
        "candidate"@,
        "drop_guard"@,
        V326LifecycleEdgeKind::GuardedByDrop,
        refs_of_kind(ev@, V326EvidenceKind::DropGuard),
    ));
    let ghost before = edges@.map_values(|e: V326LifecycleEdge| edge_view(e));
    if has_evidence(ev, V326EvidenceKind::ForeignUnregister) || has_evidence(ev, V326EvidenceKind::ReleaseSite) {
        let mut release_refs = refs_for(ev, V326EvidenceKind::ForeignUnregister);
        let mut site_refs = refs_for(ev, V326EvidenceKind::ReleaseSite);
        let ghost a = release_refs@.map_values(|s: String| s@);
        let ghost b = site_refs@.map_values(|s: String| s@);
        release_refs.append(&mut site_refs);
        assert(release_refs@.map_values(|s: String| s@) =~= a + b);
        push_edge(&mut edges, "foreign_api", "release_api", V326LifecycleEdgeKind::ReleasedBy, release_refs);
    }
    assert(edges@.map_values(|e: V326LifecycleEdge| edge_view(e)) =~= before + opt_edge(
        has_kind(ev@, V326EvidenceKind::ForeignUnregister) || has_kind(ev@, V326EvidenceKind::ReleaseSite),
        "foreign_api"@,
        "release_api"@,
        V326LifecycleEdgeKind::ReleasedBy,
        refs_of_kind(ev@, V326EvidenceKind::ForeignUnregister) + refs_of_kind(ev@, V326EvidenceKind::ReleaseSite),
    ));
    let ghost before = edges@.map_values(|e: V326LifecycleEdge| edge_view(e));
    if has_evidence(ev, V326EvidenceKind::OpaqueHandleTransfer) {
        push_edge(&mut edges, "candidate", "opaque_handle", V326LifecycleEdgeKind::MovesInto, refs_for(ev, V326EvidenceKind::OpaqueHandleTransfer));
    }
    assert(edges@.map_values(|e: V326LifecycleEdge| edge_view(e)) =~= before + opt_edge(
        has_kind(ev@, V326EvidenceKind::OpaqueHandleTransfer),
        "candidate"@,
        "opaque_handle"@,
        V326LifecycleEdgeKind::MovesInto,
        refs_of_kind(ev@, V326EvidenceKind::OpaqueHandleTransfer),
    ));
    edges
}

/// The evidence-derived lifecycle graph (v2) of a candidate: its nodes and edges from the kinds
/// of evidence found, the ids of all evidence, and what the evidence leaves open.
pub fn build_v3_2_6_lifecycle_graph(
    candidate: &V32CandidateRecord,
    evidence: &Vec<V326LifecycleEvidenceRecord>,
) -> (g: V326LifecycleGraphRecord)
    ensures
        g.schema_version@ == V3_2_6_LIFECYCLE_GRAPH_SCHEMA_V1@,
        g.run_id@ == candidate.run_id@,
        g.candidate_id@ == candidate.candidate_id@,
        g.crate_id@ == candidate.crate_id@,
        g.pattern_family == candidate.pattern_family,
        g.nodes@.map_values(|n: V326LifecycleNode| node_view(n)) == graph_nodes(*candidate, evidence@),
        g.edges@.map_values(|e: V326LifecycleEdge| edge_view(e)) == graph_edges(evidence@),
        g.evidence_refs@.map_values(|s: String| s@) == evidence_ids(evidence@),
        g.incomplete_evidence@.map_values(|s: String| s@) == graph_incomplete(evidence@),
        g.notes@.map_values(|s: String| s@) == seq!["graph is evidence-derived and not a defect conclusion"@],
{
    let ev = evidence;
    let refs = record_ids(ev);
    let nodes = graph_node_list(candidate, ev);
    let mut edges = evidence_edge_list(ev);
    if edges.len() == 0 {
        let unknown_refs = if refs.len() == 0 {
            let mut v: Vec<String> = Vec::new();
            v.push(owned("evidence:incomplete"));
            assert(v@.map_values(|s: String| s@) =~= seq!["evidence:incomplete"@]);
            v
        } else {
            crate::text::clone_texts(&refs)
        };
        assert(refs@.map_values(|s: String| s@).len() == refs@.len());
        assert(evidence_ids(ev@).len() == ev@.len());
        assert(ev@.len() == 0 <==> refs@.len() == 0);
        let ghost before = edges@.map_values(|e: V326LifecycleEdge| edge_view(e));
        push_edge(&mut edges, "candidate", "foreign_api", V326LifecycleEdgeKind::UnknownOrder, unknown_refs);
        assert(edges@.map_values(|e: V326LifecycleEdge| edge_view(e)) =~= graph_edges(ev@));
    }
    let mut incomplete: Vec<String> = Vec::new();
    if has_evidence(ev, V326EvidenceKind::ForeignRegister) && !has_evidence(ev, V326EvidenceKind::ForeignUnregister)
        && !has_evidence(ev, V326EvidenceKind::DropGuard) {
        incomplete.push(owned("no unregister or drop guard evidence for registered callback"));
    }
    let ghost first = incomplete@.map_values(|s: String| s@);
    if has_evidence(ev, V326EvidenceKind::RawPointerEscape) && !has_evidence(ev, V326EvidenceKind::OwnedAnchor) {
        incomplete.push(owned("raw pointer escape without owned anchor evidence"));
        assert(incomplete@.map_values(|s: String| s@) =~= first.push("raw pointer escape without owned anchor evidence"@));
    }
    assert(incomplete@.map_values(|s: String| s@) =~= graph_incomplete(ev@));
    let mut notes: Vec<String> = Vec::new();
    notes.push(owned("graph is evidence-derived and not a defect conclusion"));
    assert(notes@.map_values(|s: String| s@) =~= seq!["graph is evidence-derived and not a defect conclusion"@]);
    V326LifecycleGraphRecord {
        schema_version: owned(V3_2_6_LIFECYCLE_GRAPH_SCHEMA_V1),
        run_id: candidate.run_id.clone(),
        candidate_id: candidate.candidate_id.clone(),
        crate_id: candidate.crate_id.clone(),
        pattern_family: candidate.pattern_family,
        nodes,
        edges,
        evidence_refs: refs,
        incomplete_evidence: incomplete,
        notes,
    }
}

} // verus!
