//! What holds of every lifecycle graph (v2) that is built from a candidate: it passes the
//! graph check.

use vstd::prelude::*;

use crate::candidate::V32CandidateRecord;
use crate::error::Located;
use crate::lifecycle_v326::{V326EvidenceKind, V326LifecycleEdge, V326LifecycleEvidenceRecord, V326LifecycleGraphRecord, V326LifecycleNode, V326LifecycleNodeKind, V326LifecycleEdgeKind};
use crate::record_checks::{all_records_valid, error_at_index, ValidatedRecord};
use crate::static_fact::present;
use crate::text::is_white_space;
use crate::v326_checks::has_v326_token;
use crate::v326_graph_build::{
    base_nodes, edge_view, evidence_edges, evidence_ids, graph_edges, graph_nodes, has_kind, node_view, opt_edge,
    opt_node, refs_of_kind,
};
use crate::v326_validate::{nonblank_list, v2_edge_error, v2_edges_error, v2_has_node, v2_node_ids_distinct, v2_nodes_present};

verus! {

type NodeView = (Seq<char>, V326LifecycleNodeKind, Seq<char>);

type EdgeView = (Seq<char>, Seq<char>, V326LifecycleEdgeKind, Seq<Seq<char>>);

spec fn view_ids_distinct(s: Seq<NodeView>) -> bool {
    forall|i: int, j: int| 0 <= i < j < s.len() ==> (#[trigger] s[i]).0 != (#[trigger] s[j]).0
}

spec fn view_ids_among(s: Seq<NodeView>, allowed: Set<Seq<char>>) -> bool {
    forall|i: int| 0 <= i < s.len() ==> allowed.contains((#[trigger] s[i]).0)
}

spec fn views_present(s: Seq<NodeView>) -> bool {
    forall|i: int| 0 <= i < s.len() ==> present((#[trigger] s[i]).0) && present(s[i].2)
}

spec fn view_has_id(s: Seq<NodeView>, id: Seq<char>) -> bool {
    exists|k: int| 0 <= k < s.len() && (#[trigger] s[k]).0 == id
}

proof fn lemma_concat_distinct(a: Seq<NodeView>, b: Seq<NodeView>, sa: Set<Seq<char>>)
    requires
        view_ids_distinct(a),
        view_ids_distinct(b),
        view_ids_among(a, sa),
        forall|j: int| 0 <= j < b.len() ==> !sa.contains((#[trigger] b[j]).0),
    ensures
        view_ids_distinct(a + b),
{
    assert forall|i: int, j: int| 0 <= i < j < (a + b).len() implies (#[trigger] (a + b)[i]).0 != (#[trigger] (a
        + b)[j]).0 by {
        if j < a.len() {
        } else if i >= a.len() {
            assert((a + b)[i] == b[i - a.len()]);
            assert((a + b)[j] == b[j - a.len()]);
        } else {
            assert((a + b)[i] == a[i]);
            assert((a + b)[j] == b[j - a.len()]);
            assert(sa.contains(a[i].0));
        }
    }
}

proof fn lemma_concat_among(a: Seq<NodeView>, b: Seq<NodeView>, sa: Set<Seq<char>>, sb: Set<Seq<char>>)
    requires
        view_ids_among(a, sa),
        view_ids_among(b, sb),
    ensures
        view_ids_among(a + b, sa.union(sb)),
{
    assert forall|i: int| 0 <= i < (a + b).len() implies sa.union(sb).contains((#[trigger] (a + b)[i]).0) by {
        if i < a.len() {
            assert((a + b)[i] == a[i]);
        } else {
            assert((a + b)[i] == b[i - a.len()]);
        }
    }
}

proof fn lemma_concat_present(a: Seq<NodeView>, b: Seq<NodeView>)
    requires
        views_present(a),
        views_present(b),
    ensures
        views_present(a + b),
{
    assert forall|i: int| 0 <= i < (a + b).len() implies present((#[trigger] (a + b)[i]).0) && present(
        (a + b)[i].2,
    ) by {
        if i < a.len() {
            assert((a + b)[i] == a[i]);
        } else {
            assert((a + b)[i] == b[i - a.len()]);
        }
    }
}

proof fn lemma_concat_has(a: Seq<NodeView>, b: Seq<NodeView>, id: Seq<char>)
    requires
        view_has_id(a, id) || view_has_id(b, id),
    ensures
        view_has_id(a + b, id),
{
    if view_has_id(a, id) {
        let k = choose|k: int| 0 <= k < a.len() && (#[trigger] a[k]).0 == id;
        assert((a + b)[k] == a[k]);
    } else {
        let k = choose|k: int| 0 <= k < b.len() && (#[trigger] b[k]).0 == id;
        assert((a + b)[a.len() + k] == b[k]);
    }
}

proof fn lemma_literal_present(s: Seq<char>)
    requires
        s.len() > 0,
        !is_white_space(s[0]),
    ensures
        present(s),
{
}

/// One optional node: its id is the literal, it is present, and it is distinct.
proof fn lemma_opt_node(p: bool, id: Seq<char>, kind: V326LifecycleNodeKind, label: Seq<char>)
    requires
        present(id),
        present(label),
    ensures
        view_ids_distinct(opt_node(p, id, kind, label)),
        view_ids_among(opt_node(p, id, kind, label), set![id]),
        views_present(opt_node(p, id, kind, label)),
        p ==> view_has_id(opt_node(p, id, kind, label), id),
{
    if p {
        assert(opt_node(p, id, kind, label)[0].0 == id);
    }
}

proof fn lemma_node_literals()
    ensures
        present("candidate"@),
        present("foreign_api"@),
        present("unknown_api"@),
        present("borrow"@),
        present("raw_pointer"@),
        present("owned_anchor"@),
        present("drop_guard"@),
        present("release_api"@),
        present("opaque_handle"@),
        present("borrowed object evidence"@),
        present("raw pointer escape evidence"@),
        present("owned anchor evidence"@),
        present("drop guard evidence"@),
        present("release or unregister evidence"@),
        present("opaque handle transfer evidence"@),
        present("evidence:incomplete"@),
{
    reveal_strlit("candidate");
    reveal_strlit("foreign_api");
    reveal_strlit("unknown_api");
    reveal_strlit("borrow");
    reveal_strlit("raw_pointer");
    reveal_strlit("owned_anchor");
    reveal_strlit("drop_guard");
    reveal_strlit("release_api");
    reveal_strlit("opaque_handle");
    reveal_strlit("borrowed object evidence");
    reveal_strlit("raw pointer escape evidence");
    reveal_strlit("owned anchor evidence");
    reveal_strlit("drop guard evidence");
    reveal_strlit("release or unregister evidence");
    reveal_strlit("opaque handle transfer evidence");
    reveal_strlit("evidence:incomplete");
    lemma_literal_present("candidate"@);
    lemma_literal_present("foreign_api"@);
    lemma_literal_present("unknown_api"@);
    lemma_literal_present("borrow"@);
    lemma_literal_present("raw_pointer"@);
    lemma_literal_present("owned_anchor"@);
    lemma_literal_present("drop_guard"@);
    lemma_literal_present("release_api"@);
    lemma_literal_present("opaque_handle"@);
    lemma_literal_present("borrowed object evidence"@);
    lemma_literal_present("raw pointer escape evidence"@);
    lemma_literal_present("owned anchor evidence"@);
    lemma_literal_present("drop guard evidence"@);
    lemma_literal_present("release or unregister evidence"@);
    lemma_literal_present("opaque handle transfer evidence"@);
    lemma_literal_present("evidence:incomplete"@);
}

proof fn lemma_node_ids_differ()
    ensures
        "candidate"@ != "foreign_api"@,
        !set!["candidate"@, "foreign_api"@].contains("borrow"@),
        !set!["candidate"@, "foreign_api"@, "borrow"@].contains("raw_pointer"@),
        !set!["candidate"@, "foreign_api"@, "borrow"@, "raw_pointer"@].contains("owned_anchor"@),
        !set!["candidate"@, "foreign_api"@, "borrow"@, "raw_pointer"@, "owned_anchor"@].contains("drop_guard"@),
        !set!["candidate"@, "foreign_api"@, "borrow"@, "raw_pointer"@, "owned_anchor"@, "drop_guard"@].contains(
            "release_api"@,
        ),
        !set!["candidate"@, "foreign_api"@, "borrow"@, "raw_pointer"@, "owned_anchor"@, "drop_guard"@, "release_api"@].contains(
            "opaque_handle"@,
        ),
{
    reveal_strlit("candidate");
    reveal_strlit("foreign_api");
    reveal_strlit("borrow");
    reveal_strlit("raw_pointer");
    reveal_strlit("owned_anchor");
    reveal_strlit("drop_guard");
    reveal_strlit("release_api");
    reveal_strlit("opaque_handle");
    assert("foreign_api"@[0] != "raw_pointer"@[0]);
    assert("foreign_api"@[0] != "release_api"@[0]);
    assert("raw_pointer"@[1] != "release_api"@[1]);
    assert("foreign_api"@ != "raw_pointer"@);
    assert("foreign_api"@ != "release_api"@);
    assert("raw_pointer"@ != "release_api"@);
    assert("candidate"@.len() == 9);
    assert("foreign_api"@.len() == 11);
    assert("borrow"@.len() == 6);
    assert("raw_pointer"@.len() == 11);
    assert("owned_anchor"@.len() == 12);
    assert("drop_guard"@.len() == 10);
    assert("release_api"@.len() == 11);
    assert("opaque_handle"@.len() == 13);
    assert("candidate"@ != "foreign_api"@);
    assert("candidate"@ != "borrow"@);
    assert("foreign_api"@ != "borrow"@);
    assert("candidate"@ != "raw_pointer"@);
    assert("foreign_api"@ != "raw_pointer"@);
    assert("borrow"@ != "raw_pointer"@);
    assert("candidate"@ != "owned_anchor"@);
    assert("foreign_api"@ != "owned_anchor"@);
    assert("borrow"@ != "owned_anchor"@);
    assert("raw_pointer"@ != "owned_anchor"@);
    assert("candidate"@ != "drop_guard"@);
    assert("foreign_api"@ != "drop_guard"@);
    assert("borrow"@ != "drop_guard"@);
    assert("raw_pointer"@ != "drop_guard"@);
    assert("owned_anchor"@ != "drop_guard"@);
    assert("candidate"@ != "release_api"@);
    assert("foreign_api"@ != "release_api"@);
    assert("borrow"@ != "release_api"@);
    assert("raw_pointer"@ != "release_api"@);
    assert("owned_anchor"@ != "release_api"@);
    assert("drop_guard"@ != "release_api"@);
    assert("candidate"@ != "opaque_handle"@);
    assert("foreign_api"@ != "opaque_handle"@);
    assert("borrow"@ != "opaque_handle"@);
    assert("raw_pointer"@ != "opaque_handle"@);
    assert("owned_anchor"@ != "opaque_handle"@);
    assert("drop_guard"@ != "opaque_handle"@);
    assert("release_api"@ != "opaque_handle"@);
}

/// The nodes of a built graph carry distinct, present ids and present labels, and the node of
/// each edge end is among them.
proof fn lemma_graph_nodes(c: V32CandidateRecord, ev: Seq<V326LifecycleEvidenceRecord>)
    requires
        present(c.candidate_id@),
        c.api_path is Some ==> present(c.api_path->0@),
    ensures
        view_ids_distinct(graph_nodes(c, ev)),
        views_present(graph_nodes(c, ev)),
        view_has_id(graph_nodes(c, ev), "candidate"@),
        view_has_id(graph_nodes(c, ev), "foreign_api"@),
        has_kind(ev, V326EvidenceKind::BorrowEdge) ==> view_has_id(graph_nodes(c, ev), "borrow"@),
        has_kind(ev, V326EvidenceKind::RawPointerEscape) ==> view_has_id(graph_nodes(c, ev), "raw_pointer"@),
        has_kind(ev, V326EvidenceKind::OwnedAnchor) ==> view_has_id(graph_nodes(c, ev), "owned_anchor"@),
        has_kind(ev, V326EvidenceKind::DropGuard) ==> view_has_id(graph_nodes(c, ev), "drop_guard"@),
        has_kind(ev, V326EvidenceKind::ForeignUnregister) || has_kind(ev, V326EvidenceKind::ReleaseSite)
            ==> view_has_id(graph_nodes(c, ev), "release_api"@),
        has_kind(ev, V326EvidenceKind::OpaqueHandleTransfer) ==> view_has_id(graph_nodes(c, ev), "opaque_handle"@),
{
    lemma_node_literals();
    lemma_node_ids_differ();
    let b = base_nodes(c);
    assert(b[0].0 == "candidate"@ && b[1].0 == "foreign_api"@);
    assert(view_ids_distinct(b));
    assert(view_ids_among(b, set!["candidate"@, "foreign_api"@]));
    assert(views_present(b));
    assert(view_has_id(b, "candidate"@));
    assert(view_has_id(b, "foreign_api"@));
    let o1 = opt_node(has_kind(ev, V326EvidenceKind::BorrowEdge), "borrow"@, V326LifecycleNodeKind::Borrow, "borrowed object evidence"@);
    let o2 = opt_node(has_kind(ev, V326EvidenceKind::RawPointerEscape), "raw_pointer"@, V326LifecycleNodeKind::RawPointer, "raw pointer escape evidence"@);
    let o3 = opt_node(has_kind(ev, V326EvidenceKind::OwnedAnchor), "owned_anchor"@, V326LifecycleNodeKind::RustObject, "owned anchor evidence"@);
    let o4 = opt_node(has_kind(ev, V326EvidenceKind::DropGuard), "drop_guard"@, V326LifecycleNodeKind::DropGuard, "drop guard evidence"@);
    let o5 = opt_node(
        has_kind(ev, V326EvidenceKind::ForeignUnregister) || has_kind(ev, V326EvidenceKind::ReleaseSite),
        "release_api"@,
        V326LifecycleNodeKind::ReleaseApi,
        "release or unregister evidence"@,
    );
    let o6 = opt_node(has_kind(ev, V326EvidenceKind::OpaqueHandleTransfer), "opaque_handle"@, V326LifecycleNodeKind::OpaqueHandle, "opaque handle transfer evidence"@);
    lemma_opt_node(has_kind(ev, V326EvidenceKind::BorrowEdge), "borrow"@, V326LifecycleNodeKind::Borrow, "borrowed object evidence"@);
    lemma_opt_node(has_kind(ev, V326EvidenceKind::RawPointerEscape), "raw_pointer"@, V326LifecycleNodeKind::RawPointer, "raw pointer escape evidence"@);
    lemma_opt_node(has_kind(ev, V326EvidenceKind::OwnedAnchor), "owned_anchor"@, V326LifecycleNodeKind::RustObject, "owned anchor evidence"@);
    lemma_opt_node(has_kind(ev, V326EvidenceKind::DropGuard), "drop_guard"@, V326LifecycleNodeKind::DropGuard, "drop guard evidence"@);
    lemma_opt_node(
        has_kind(ev, V326EvidenceKind::ForeignUnregister) || has_kind(ev, V326EvidenceKind::ReleaseSite),
        "release_api"@,
        V326LifecycleNodeKind::ReleaseApi,
        "release or unregister evidence"@,
    );
    lemma_opt_node(has_kind(ev, V326EvidenceKind::OpaqueHandleTransfer), "opaque_handle"@, V326LifecycleNodeKind::OpaqueHandle, "opaque handle transfer evidence"@);
    let s0 = set!["candidate"@, "foreign_api"@];
    let s1 = s0.union(set!["borrow"@]);
    let s2 = s1.union(set!["raw_pointer"@]);
    let s3 = s2.union(set!["owned_anchor"@]);
    let s4 = s3.union(set!["drop_guard"@]);
    let s5 = s4.union(set!["release_api"@]);
    assert(s1 =~= set!["candidate"@, "foreign_api"@, "borrow"@]);
    assert(s2 =~= set!["candidate"@, "foreign_api"@, "borrow"@, "raw_pointer"@]);
    assert(s3 =~= set!["candidate"@, "foreign_api"@, "borrow"@, "raw_pointer"@, "owned_anchor"@]);
    assert(s4 =~= set!["candidate"@, "foreign_api"@, "borrow"@, "raw_pointer"@, "owned_anchor"@, "drop_guard"@]);
    assert(s5 =~= set!["candidate"@, "foreign_api"@, "borrow"@, "raw_pointer"@, "owned_anchor"@, "drop_guard"@, "release_api"@]);
    let p1 = b + o1;
    lemma_concat_distinct(b, o1, s0);
    lemma_concat_among(b, o1, s0, set!["borrow"@]);
    lemma_concat_present(b, o1);
    let p2 = p1 + o2;
    lemma_concat_distinct(p1, o2, s1);
    lemma_concat_among(p1, o2, s1, set!["raw_pointer"@]);
    lemma_concat_present(p1, o2);
    let p3 = p2 + o3;
    lemma_concat_distinct(p2, o3, s2);
    lemma_concat_among(p2, o3, s2, set!["owned_anchor"@]);
    lemma_concat_present(p2, o3);
    let p4 = p3 + o4;
    lemma_concat_distinct(p3, o4, s3);
    lemma_concat_among(p3, o4, s3, set!["drop_guard"@]);
    lemma_concat_present(p3, o4);
    let p5 = p4 + o5;
    lemma_concat_distinct(p4, o5, s4);
    lemma_concat_among(p4, o5, s4, set!["release_api"@]);
    lemma_concat_present(p4, o5);
    let p6 = p5 + o6;
    lemma_concat_distinct(p5, o6, s5);
    lemma_concat_present(p5, o6);
    assert(graph_nodes(c, ev) == p6);
    lemma_concat_has(b, o1, "candidate"@);
    lemma_concat_has(p1, o2, "candidate"@);
    lemma_concat_has(p2, o3, "candidate"@);
    lemma_concat_has(p3, o4, "candidate"@);
    lemma_concat_has(p4, o5, "candidate"@);
    lemma_concat_has(p5, o6, "candidate"@);
    lemma_concat_has(b, o1, "foreign_api"@);
    lemma_concat_has(p1, o2, "foreign_api"@);
    lemma_concat_has(p2, o3, "foreign_api"@);
    lemma_concat_has(p3, o4, "foreign_api"@);
    lemma_concat_has(p4, o5, "foreign_api"@);
    lemma_concat_has(p5, o6, "foreign_api"@);
    if has_kind(ev, V326EvidenceKind::BorrowEdge) {
        lemma_concat_has(b, o1, "borrow"@);
        lemma_concat_has(p1, o2, "borrow"@);
        lemma_concat_has(p2, o3, "borrow"@);
        lemma_concat_has(p3, o4, "borrow"@);
        lemma_concat_has(p4, o5, "borrow"@);
        lemma_concat_has(p5, o6, "borrow"@);
    }
    if has_kind(ev, V326EvidenceKind::RawPointerEscape) {
        lemma_concat_has(p1, o2, "raw_pointer"@);
        lemma_concat_has(p2, o3, "raw_pointer"@);
        lemma_concat_has(p3, o4, "raw_pointer"@);
        lemma_concat_has(p4, o5, "raw_pointer"@);
        lemma_concat_has(p5, o6, "raw_pointer"@);
    }
    if has_kind(ev, V326EvidenceKind::OwnedAnchor) {
        lemma_concat_has(p2, o3, "owned_anchor"@);
        lemma_concat_has(p3, o4, "owned_anchor"@);
        lemma_concat_has(p4, o5, "owned_anchor"@);
        lemma_concat_has(p5, o6, "owned_anchor"@);
    }
    if has_kind(ev, V326EvidenceKind::DropGuard) {
        lemma_concat_has(p3, o4, "drop_guard"@);
        lemma_concat_has(p4, o5, "drop_guard"@);
        lemma_concat_has(p5, o6, "drop_guard"@);
    }
    if has_kind(ev, V326EvidenceKind::ForeignUnregister) || has_kind(ev, V326EvidenceKind::ReleaseSite) {
        lemma_concat_has(p4, o5, "release_api"@);
        lemma_concat_has(p5, o6, "release_api"@);
    }
    if has_kind(ev, V326EvidenceKind::OpaqueHandleTransfer) {
        lemma_concat_has(p5, o6, "opaque_handle"@);
    }
}

spec fn refs_present(refs: Seq<Seq<char>>) -> bool {
    forall|i: int| 0 <= i < refs.len() ==> present(#[trigger] refs[i])
}

spec fn edge_view_ok(ns: Seq<NodeView>, e: EdgeView) -> bool {
    view_has_id(ns, e.0) && view_has_id(ns, e.1) && e.3.len() > 0 && refs_present(e.3)
}

spec fn edge_views_ok(ns: Seq<NodeView>, es: Seq<EdgeView>) -> bool {
    forall|k: int| 0 <= k < es.len() ==> edge_view_ok(ns, #[trigger] es[k])
}

proof fn lemma_refs_of_kind(ev: Seq<V326LifecycleEvidenceRecord>, kind: V326EvidenceKind)
    requires
        forall|i: int| 0 <= i < ev.len() ==> present((#[trigger] ev[i]).record_id@),
    ensures
        refs_present(refs_of_kind(ev, kind)),
        has_kind(ev, kind) ==> refs_of_kind(ev, kind).len() > 0,
    decreases ev.len(),
{
    if ev.len() > 0 {
        let d = ev.drop_last();
        assert forall|i: int| 0 <= i < d.len() implies present((#[trigger] d[i]).record_id@) by {
            assert(d[i] == ev[i]);
        }
        lemma_refs_of_kind(d, kind);
        assert(present(ev[ev.len() - 1].record_id@));
        if has_kind(ev, kind) && ev.last().evidence_kind != kind {
            let i = choose|i: int| 0 <= i < ev.len() && #[trigger] ev[i].evidence_kind == kind;
            assert(d[i] == ev[i]);
            assert(has_kind(d, kind));
        }
    }
}

proof fn lemma_edges_concat(ns: Seq<NodeView>, a: Seq<EdgeView>, b: Seq<EdgeView>)
    requires
        edge_views_ok(ns, a),
        edge_views_ok(ns, b),
    ensures
        edge_views_ok(ns, a + b),
{
    assert forall|k: int| 0 <= k < (a + b).len() implies edge_view_ok(ns, #[trigger] (a + b)[k]) by {
        if k < a.len() {
            assert((a + b)[k] == a[k]);
        } else {
            assert((a + b)[k] == b[k - a.len()]);
        }
    }
}

proof fn lemma_opt_edge(
    ns: Seq<NodeView>,
    p: bool,
    from: Seq<char>,
    to: Seq<char>,
    kind: V326LifecycleEdgeKind,
    refs: Seq<Seq<char>>,
)
    requires
        p ==> edge_view_ok(ns, (from, to, kind, refs)),
    ensures
        edge_views_ok(ns, opt_edge(p, from, to, kind, refs)),
{
    if p {
        assert(opt_edge(p, from, to, kind, refs)[0] == (from, to, kind, refs));
    }
}

/// Every edge of a built graph runs between its nodes and carries present evidence ids.
proof fn lemma_graph_edges(c: V32CandidateRecord, ev: Seq<V326LifecycleEvidenceRecord>)
    requires
        present(c.candidate_id@),
        c.api_path is Some ==> present(c.api_path->0@),
        forall|i: int| 0 <= i < ev.len() ==> present((#[trigger] ev[i]).record_id@),
    ensures
        edge_views_ok(graph_nodes(c, ev), graph_edges(ev)),
{
    let ns = graph_nodes(c, ev);
    lemma_graph_nodes(c, ev);
    lemma_node_literals();
    lemma_refs_of_kind(ev, V326EvidenceKind::ForeignRegister);
    lemma_refs_of_kind(ev, V326EvidenceKind::BorrowEdge);
    lemma_refs_of_kind(ev, V326EvidenceKind::RawPointerEscape);
    lemma_refs_of_kind(ev, V326EvidenceKind::OwnedAnchor);
    lemma_refs_of_kind(ev, V326EvidenceKind::DropGuard);
    lemma_refs_of_kind(ev, V326EvidenceKind::ForeignUnregister);
    lemma_refs_of_kind(ev, V326EvidenceKind::ReleaseSite);
    lemma_refs_of_kind(ev, V326EvidenceKind::OpaqueHandleTransfer);
    let ru = refs_of_kind(ev, V326EvidenceKind::ForeignUnregister);
    let rr = refs_of_kind(ev, V326EvidenceKind::ReleaseSite);
    assert(refs_present(ru + rr)) by {
        assert forall|i: int| 0 <= i < (ru + rr).len() implies present(#[trigger] (ru + rr)[i]) by {
            if i < ru.len() {
                assert((ru + rr)[i] == ru[i]);
            } else {
                assert((ru + rr)[i] == rr[i - ru.len()]);
            }
        }
    }
    let e1 = opt_edge(
        has_kind(ev, V326EvidenceKind::ForeignRegister),
        "candidate"@,
        "foreign_api"@,
        V326LifecycleEdgeKind::RegisteredInto,
        refs_of_kind(ev, V326EvidenceKind::ForeignRegister),
    );
    let e2 = opt_edge(
        has_kind(ev, V326EvidenceKind::BorrowEdge),
        "borrow"@,
        "foreign_api"@,
        V326LifecycleEdgeKind::Borrows,
        refs_of_kind(ev, V326EvidenceKind::BorrowEdge),
    );
    let e3 = opt_edge(
        has_kind(ev, V326EvidenceKind::RawPointerEscape),
        "raw_pointer"@,
        "foreign_api"@,
        V326LifecycleEdgeKind::RawPointerEscape,
        refs_of_kind(ev, V326EvidenceKind::RawPointerEscape),
    );
    let e4 = opt_edge(
        has_kind(ev, V326EvidenceKind::OwnedAnchor),
        "owned_anchor"@,
        "candidate"@,
        V326LifecycleEdgeKind::MovesInto,
        refs_of_kind(ev, V326EvidenceKind::OwnedAnchor),
    );
    let e5 = opt_edge(
        has_kind(ev, V326EvidenceKind::DropGuard),
        "candidate"@,
        "drop_guard"@,
        V326LifecycleEdgeKind::GuardedByDrop,
        refs_of_kind(ev, V326EvidenceKind::DropGuard),
    );
    let e6 = opt_edge(
        has_kind(ev, V326EvidenceKind::ForeignUnregister) || has_kind(ev, V326EvidenceKind::ReleaseSite),
        "foreign_api"@,
        "release_api"@,
        V326LifecycleEdgeKind::ReleasedBy,
        ru + rr,
    );
    let e7 = opt_edge(
        has_kind(ev, V326EvidenceKind::OpaqueHandleTransfer),
        "candidate"@,
        "opaque_handle"@,
        V326LifecycleEdgeKind::MovesInto,
        refs_of_kind(ev, V326EvidenceKind::OpaqueHandleTransfer),
    );
    lemma_opt_edge(
        ns,
        has_kind(ev, V326EvidenceKind::ForeignRegister),
        "candidate"@,
        "foreign_api"@,
        V326LifecycleEdgeKind::RegisteredInto,
        refs_of_kind(ev, V326EvidenceKind::ForeignRegister),
    );
    lemma_opt_edge(
        ns,
        has_kind(ev, V326EvidenceKind::BorrowEdge),
        "borrow"@,
        "foreign_api"@,
        V326LifecycleEdgeKind::Borrows,
        refs_of_kind(ev, V326EvidenceKind::BorrowEdge),
    );
    lemma_opt_edge(
        ns,
        has_kind(ev, V326EvidenceKind::RawPointerEscape),
        "raw_pointer"@,
        "foreign_api"@,
        V326LifecycleEdgeKind::RawPointerEscape,
        refs_of_kind(ev, V326EvidenceKind::RawPointerEscape),
    );
    lemma_opt_edge(
        ns,
        has_kind(ev, V326EvidenceKind::OwnedAnchor),
        "owned_anchor"@,
        "candidate"@,
        V326LifecycleEdgeKind::MovesInto,
        refs_of_kind(ev, V326EvidenceKind::OwnedAnchor),
    );
    lemma_opt_edge(
        ns,
        has_kind(ev, V326EvidenceKind::DropGuard),
        "candidate"@,
        "drop_guard"@,
        V326LifecycleEdgeKind::GuardedByDrop,
        refs_of_kind(ev, V326EvidenceKind::DropGuard),
    );
    lemma_opt_edge(
        ns,
        has_kind(ev, V326EvidenceKind::ForeignUnregister) || has_kind(ev, V326EvidenceKind::ReleaseSite),
        "foreign_api"@,
        "release_api"@,
        V326LifecycleEdgeKind::ReleasedBy,
        ru + rr,
    );
    lemma_opt_edge(
        ns,
        has_kind(ev, V326EvidenceKind::OpaqueHandleTransfer),
        "candidate"@,
        "opaque_handle"@,
        V326LifecycleEdgeKind::MovesInto,
        refs_of_kind(ev, V326EvidenceKind::OpaqueHandleTransfer),
    );
    lemma_edges_concat(ns, e1, e2);
    lemma_edges_concat(ns, e1 + e2, e3);
    lemma_edges_concat(ns, e1 + e2 + e3, e4);
    lemma_edges_concat(ns, e1 + e2 + e3 + e4, e5);
    lemma_edges_concat(ns, e1 + e2 + e3 + e4 + e5, e6);
    lemma_edges_concat(ns, e1 + e2 + e3 + e4 + e5 + e6, e7);
    assert(evidence_edges(ev) == e1 + e2 + e3 + e4 + e5 + e6 + e7);
    if evidence_edges(ev).len() == 0 {
        let refs = if ev.len() == 0 {
            seq!["evidence:incomplete"@]
        } else {
            evidence_ids(ev)
        };
        assert(refs_present(refs)) by {
            if ev.len() != 0 {
                assert forall|i: int| 0 <= i < refs.len() implies present(#[trigger] refs[i]) by {
                    assert(refs[i] == ev[i].record_id@);
                }
            }
        }
        let e = ("candidate"@, "foreign_api"@, V326LifecycleEdgeKind::UnknownOrder, refs);
        assert(edge_view_ok(ns, e));
        assert(graph_edges(ev) == seq![e]);
        assert(graph_edges(ev)[0] == e);
    }
}

proof fn lemma_edges_error_none(nodes: Seq<V326LifecycleNode>, edges: Seq<V326LifecycleEdge>)
    requires
        forall|k: int| 0 <= k < edges.len() ==> v2_edge_error(nodes, #[trigger] edges[k]) is None,
    ensures
        v2_edges_error(nodes, edges) is None,
    decreases edges.len(),
{
    if edges.len() > 0 {
        let d = edges.drop_first();
        assert forall|k: int| 0 <= k < d.len() implies v2_edge_error(nodes, #[trigger] d[k]) is None by {
            assert(d[k] == edges[k + 1]);
        }
        assert(v2_edge_error(nodes, edges[0]) is None);
        lemma_edges_error_none(nodes, d);
    }
}

proof fn lemma_has_node(g: V326LifecycleGraphRecord, ns: Seq<NodeView>, id: Seq<char>)
    requires
        g.nodes@.map_values(|n: V326LifecycleNode| node_view(n)) == ns,
        view_has_id(ns, id),
    ensures
        v2_has_node(g.nodes@, id),
{
    let k = choose|k: int| 0 <= k < ns.len() && (#[trigger] ns[k]).0 == id;
    assert(g.nodes@.map_values(|n: V326LifecycleNode| node_view(n))[k] == node_view(g.nodes@[k]));
    assert(g.nodes@[k].node_id@ == id);
}

/// A lifecycle graph (v2) built from a candidate passes the graph check. Where the candidate's
/// run, candidate and crate ids are present and free of forbidden tokens, its API path, if it has
/// one, is present, and every evidence record id is present, the graph that
/// `build_v3_2_6_lifecycle_graph` states starts with the `candidate` and `foreign_api` nodes,
/// has distinct node ids, at least one edge, every edge between two of its nodes with present
/// evidence ids, and is accepted by the graph check alone in a file.
pub proof fn law_built_graph_passes_validation(
    c: V32CandidateRecord,
    ev: Seq<V326LifecycleEvidenceRecord>,
    g: V326LifecycleGraphRecord,
)
    requires
        present(c.run_id@),
        present(c.candidate_id@),
        present(c.crate_id@),
        !has_v326_token(c.run_id@),
        !has_v326_token(c.candidate_id@),
        !has_v326_token(c.crate_id@),
        c.api_path is Some ==> present(c.api_path->0@),
        forall|i: int| 0 <= i < ev.len() ==> present((#[trigger] ev[i]).record_id@),
        g.run_id@ == c.run_id@,
        g.candidate_id@ == c.candidate_id@,
        g.crate_id@ == c.crate_id@,
        g.nodes@.map_values(|n: V326LifecycleNode| node_view(n)) == graph_nodes(c, ev),
        g.edges@.map_values(|e: V326LifecycleEdge| edge_view(e)) == graph_edges(ev),
    ensures
        g.nodes@.len() >= 2,
        g.nodes@[0].node_id@ == "candidate"@,
        g.nodes@[1].node_id@ == "foreign_api"@,
        v2_node_ids_distinct(g.nodes@),
        g.edges@.len() > 0,
        forall|k: int|
            0 <= k < g.edges@.len() ==> v2_has_node(g.nodes@, (#[trigger] g.edges@[k]).from@) && v2_has_node(
                g.nodes@,
                g.edges@[k].to@,
            ) && nonblank_list(g.edges@[k].evidence_refs@),
        forall|first_run: Option<Seq<char>>| #[trigger] g.record_error(first_run, false) is None,
        forall|l: Located<V326LifecycleGraphRecord>| l.value == g ==> #[trigger] all_records_valid(seq![l]),
{
    let ns = graph_nodes(c, ev);
    let es = graph_edges(ev);
    lemma_graph_nodes(c, ev);
    lemma_graph_edges(c, ev);
    let f = |n: V326LifecycleNode| node_view(n);
    let fe = |e: V326LifecycleEdge| edge_view(e);
    assert(g.nodes@.len() == ns.len());
    assert(ns.len() >= 2);
    assert(g.nodes@.map_values(f)[0] == node_view(g.nodes@[0]));
    assert(g.nodes@.map_values(f)[1] == node_view(g.nodes@[1]));
    assert(ns[0].0 == "candidate"@ && ns[1].0 == "foreign_api"@);
    assert forall|i: int| 0 <= i < g.nodes@.len() implies #[trigger] node_view(g.nodes@[i]) == ns[i] by {
        assert(g.nodes@.map_values(f)[i] == node_view(g.nodes@[i]));
    }
    assert(v2_node_ids_distinct(g.nodes@)) by {
        assert forall|i: int, j: int| 0 <= i < j < g.nodes@.len() implies (#[trigger] g.nodes@[i]).node_id@ != (
        #[trigger] g.nodes@[j]).node_id@ by {
            assert(node_view(g.nodes@[i]) == ns[i]);
            assert(node_view(g.nodes@[j]) == ns[j]);
        }
    }
    assert(v2_nodes_present(g.nodes@)) by {
        assert forall|i: int| 0 <= i < g.nodes@.len() implies present((#[trigger] g.nodes@[i]).node_id@) && present(
            g.nodes@[i].label@,
        ) by {
            assert(node_view(g.nodes@[i]) == ns[i]);
        }
    }
    assert(es.len() > 0);
    assert(g.edges@.len() == es.len());
    assert forall|k: int| 0 <= k < g.edges@.len() implies v2_has_node(g.nodes@, (#[trigger] g.edges@[k]).from@)
        && v2_has_node(g.nodes@, g.edges@[k].to@) && nonblank_list(g.edges@[k].evidence_refs@) by {
        assert(g.edges@.map_values(fe)[k] == edge_view(g.edges@[k]));
        let e = g.edges@[k];
        assert(edge_view_ok(ns, es[k]));
        lemma_has_node(g, ns, e.from@);
        lemma_has_node(g, ns, e.to@);
        let rv = e.evidence_refs@.map_values(|s: String| s@);
        assert(rv == es[k].3);
        assert forall|i: int| 0 <= i < e.evidence_refs@.len() implies present(#[trigger] e.evidence_refs@[i]@) by {
            assert(rv[i] == e.evidence_refs@[i]@);
        }
    }
    assert forall|k: int| 0 <= k < g.edges@.len() implies v2_edge_error(g.nodes@, #[trigger] g.edges@[k]) is None by {
        assert(v2_has_node(g.nodes@, g.edges@[k].from@));
    }
    lemma_edges_error_none(g.nodes@, g.edges@);
    assert forall|l: Located<V326LifecycleGraphRecord>| l.value == g implies #[trigger] all_records_valid(seq![l]) by {
        let rs = seq![l];
        assert forall|i: int| 0 <= i < rs.len() implies error_at_index(rs, i) is None by {
            assert(rs[i] == l);
            assert(!(exists|j: int| 0 <= j < i && #[trigger] rs[j].value.unique_key() == rs[i].value.unique_key()));
            assert(g.record_error(None, false) is None);
        }
    }
}

} // verus!
