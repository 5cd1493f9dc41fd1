//! V3.2 lifecycle subgraphs of candidates, their risk scores and the ranking of candidates.

use vstd::prelude::*;

use crate::boundary_index::V32BoundaryEvidenceRef;
use crate::candidate::{V32CandidateConfidence, V32CandidateRecord, V32PatternFamily};
use crate::checks::{all_token_free, check_required, check_tokens, check_tokens_all, contains_text, is_relative_ref, relative_ref, require};
use crate::error::{is_error_at, Located, ModelError};
use crate::public_tokens::has_forbidden_token;
use crate::static_fact::present;
use crate::text::{decimal, decimal_string, owned};

verus! {

/// Schema version of lifecycle graphs.
pub const V3_2_LIFECYCLE_GRAPH_SCHEMA_V1: &'static str = "v3.2.lifecycle_graph.1";

/// Schema version of ranked candidate records.
pub const V3_2_RANKED_CANDIDATE_SCHEMA_V1: &'static str = "v3.2.ranked_candidate.1";

pub const SCORE_FOREIGN_RETENTION: u32 = 10;

pub const SCORE_MISSING_UNREGISTER: u32 = 10;

pub const SCORE_CROSS_LANGUAGE_ALIAS: u32 = 10;

pub const SCORE_OPAQUE_HANDLE: u32 = 8;

pub const SCORE_CALLBACK_ACROSS_DROP: u32 = 10;

pub const SCORE_NEEDS_DYNAMIC: u32 = 5;

pub const SCORE_STATIC_ONLY: u32 = 2;

pub const SCORE_LOW_PRIORITY: u32 = 0;

#[derive(Clone, Debug)]
pub struct V32LifecycleGraph {
    pub schema_version: String,
    pub run_id: String,
    pub candidate_id: String,
    pub crate_id: String,
    pub pattern_family: V32PatternFamily,
    pub nodes: Vec<V32LifecycleNode>,
    pub edges: Vec<V32LifecycleEdge>,
    pub risk_features: V32RiskFeatures,
    pub notes: Vec<String>,
}

#[derive(Clone, Debug)]
pub struct V32LifecycleNode {
    pub node_id: String,
    pub node_kind: V32LifecycleNodeKind,
    pub label: String,
    pub lifetime_role: V32LifetimeRole,
}

#[derive(Clone, Copy, Debug, PartialEq, Eq)]
pub enum V32LifecycleNodeKind {
    RustObject,
    RustBorrow,
    ForeignApi,
    ForeignOwner,
    CallbackSite,
    OpaqueHandle,
}

#[derive(Clone, Copy, Debug, PartialEq, Eq)]
pub enum V32LifetimeRole {
    Owned,
    Borrowed,
    ExternalRetained,
    Unknown,
}

#[derive(Clone, Debug)]
pub struct V32LifecycleEdge {
    pub from: String,
    pub to: String,
    pub edge_kind: V32LifecycleEdgeKind,
    pub evidence_ref: String,
}

#[derive(Clone, Copy, Debug, PartialEq, Eq)]
pub enum V32LifecycleEdgeKind {
    RegisteredIntoForeignApi,
    ForeignRetains,
    ForeignInvokes,
    UnregisterPath,
    DropRustObject,
    AliasAcrossLanguages,
    HandleTransfer,
}

#[derive(Clone, Copy, Debug, PartialEq, Eq)]
pub struct V32RiskFeatures {
    pub foreign_retention_without_owned_anchor: bool,
    pub missing_unregister_before_drop: bool,
    pub cross_language_alias: bool,
    pub opaque_handle_without_owner: bool,
    pub callback_retained_across_drop: bool,
}

#[derive(Clone, Debug)]
pub struct V32RankedCandidateRecord {
    pub schema_version: String,
    pub run_id: String,
    pub rank: u32,
    pub candidate_id: String,
    pub crate_id: String,
    pub pattern_family: V32PatternFamily,
    pub score: u32,
    pub score_breakdown: V32ScoreBreakdown,
    pub risk_features: V32RiskFeatures,
    pub lifecycle_graph_path: String,
    pub ranking_reason: String,
    pub notes: Vec<String>,
}

#[derive(Clone, Copy, Debug, PartialEq, Eq)]
pub struct V32ScoreBreakdown {
    pub foreign_retention_without_owned_anchor: u32,
    pub missing_unregister_before_drop: u32,
    pub cross_language_alias: u32,
    pub opaque_handle_without_owner: u32,
    pub callback_retained_across_drop: u32,
    pub confidence_bonus: u32,
}

#[derive(Clone, Debug, Default, PartialEq, Eq)]
pub struct V32LifecycleSummary {
    pub graph_count: u64,
    pub ranked_count: u64,
    pub max_score: u32,
}

/// The points of a risk feature: its weight when present, else nothing.
pub open spec fn points(active: bool, weight: u32) -> u32 {
    if active {
        weight
    } else {
        0
    }
}

/// The confidence bonus: dynamic validation is worth most, low priority nothing.
pub open spec fn confidence_points(confidence: V32CandidateConfidence) -> u32 {
    match confidence {
        V32CandidateConfidence::NeedsDynamicValidation => SCORE_NEEDS_DYNAMIC,
        V32CandidateConfidence::StaticOnly => SCORE_STATIC_ONLY,
        V32CandidateConfidence::LowPriority => SCORE_LOW_PRIORITY,
    }
}

/// The score breakdown of a graph's risk features at a candidate confidence.
pub open spec fn spec_breakdown(
    f: V32RiskFeatures,
    confidence: V32CandidateConfidence,
) -> V32ScoreBreakdown {
    V32ScoreBreakdown {
        foreign_retention_without_owned_anchor: points(
            f.foreign_retention_without_owned_anchor,
            SCORE_FOREIGN_RETENTION,
        ),
        missing_unregister_before_drop: points(
            f.missing_unregister_before_drop,
            SCORE_MISSING_UNREGISTER,
        ),
        cross_language_alias: points(f.cross_language_alias, SCORE_CROSS_LANGUAGE_ALIAS),
        opaque_handle_without_owner: points(f.opaque_handle_without_owner, SCORE_OPAQUE_HANDLE),
        callback_retained_across_drop: points(
            f.callback_retained_across_drop,
            SCORE_CALLBACK_ACROSS_DROP,
        ),
        confidence_bonus: confidence_points(confidence),
    }
}

/// The sum of the parts of a score breakdown.
pub open spec fn breakdown_total(b: V32ScoreBreakdown) -> int {
    b.foreign_retention_without_owned_anchor + b.missing_unregister_before_drop
        + b.cross_language_alias + b.opaque_handle_without_owner + b.callback_retained_across_drop
        + b.confidence_bonus
}

/// Scores a lifecycle graph: the breakdown of its risk features at the given confidence, and
/// the sum of that breakdown.
pub fn score_lifecycle_graph(graph: &V32LifecycleGraph, confidence: V32CandidateConfidence) -> (r: (
    u32,
    V32ScoreBreakdown,
))
    ensures
        r.1 == spec_breakdown(graph.risk_features, confidence),
        r.0 == breakdown_total(r.1),
{
    let features = &graph.risk_features;
    let breakdown = V32ScoreBreakdown {
        foreign_retention_without_owned_anchor: if features.foreign_retention_without_owned_anchor {
            SCORE_FOREIGN_RETENTION
        } else {
            0
        },
        missing_unregister_before_drop: if features.missing_unregister_before_drop {
            SCORE_MISSING_UNREGISTER
        } else {
            0
        },
        cross_language_alias: if features.cross_language_alias {
            SCORE_CROSS_LANGUAGE_ALIAS
        } else {
            0
        },
        opaque_handle_without_owner: if features.opaque_handle_without_owner {
            SCORE_OPAQUE_HANDLE
        } else {
            0
        },
        callback_retained_across_drop: if features.callback_retained_across_drop {
            SCORE_CALLBACK_ACROSS_DROP
        } else {
            0
        },
        confidence_bonus: match confidence {
            V32CandidateConfidence::NeedsDynamicValidation => SCORE_NEEDS_DYNAMIC,
            V32CandidateConfidence::StaticOnly => SCORE_STATIC_ONLY,
            V32CandidateConfidence::LowPriority => SCORE_LOW_PRIORITY,
        },
    };
    let score = breakdown.foreign_retention_without_owned_anchor
        + breakdown.missing_unregister_before_drop + breakdown.cross_language_alias
        + breakdown.opaque_handle_without_owner + breakdown.callback_retained_across_drop
        + breakdown.confidence_bonus;
    (score, breakdown)
}

/// The sum of a score breakdown, exact in 64 bits.
fn recompute_score(breakdown: &V32ScoreBreakdown) -> (r: u64)
    ensures
        r == breakdown_total(*breakdown),
{
    breakdown.foreign_retention_without_owned_anchor as u64
        + breakdown.missing_unregister_before_drop as u64 + breakdown.cross_language_alias as u64
        + breakdown.opaque_handle_without_owner as u64
        + breakdown.callback_retained_across_drop as u64 + breakdown.confidence_bonus as u64
}

/// Texts joined by commas.
pub open spec fn join_commas(s: Seq<Seq<char>>) -> Seq<char>
    decreases s.len(),
{
    if s.len() == 0 {
        Seq::empty()
    } else if s.len() == 1 {
        s[0]
    } else {
        join_commas(s.drop_last()) + ","@ + s.last()
    }
}

/// The names of the active risk features, in their declaration order.
pub open spec fn active_feature_list(f: V32RiskFeatures) -> Seq<Seq<char>> {
    let s0 = Seq::<Seq<char>>::empty();
    let s1 = if f.foreign_retention_without_owned_anchor {
        s0.push("foreign_retention_without_owned_anchor"@)
    } else {
        s0
    };
    let s2 = if f.missing_unregister_before_drop {
        s1.push("missing_unregister_before_drop"@)
    } else {
        s1
    };
    let s3 = if f.cross_language_alias {
        s2.push("cross_language_alias"@)
    } else {
        s2
    };
    let s4 = if f.opaque_handle_without_owner {
        s3.push("opaque_handle_without_owner"@)
    } else {
        s3
    };
    if f.callback_retained_across_drop {
        s4.push("callback_retained_across_drop"@)
    } else {
        s4
    }
}

/// The text of a ranking reason.
pub open spec fn spec_ranking_reason(score: u32, f: V32RiskFeatures, bonus: u32) -> Seq<char> {
    let names = active_feature_list(f);
    let active = if names.len() == 0 {
        "none"@
    } else {
        join_commas(names)
    };
    "score="@ + decimal(score as nat) + "; active_risk_features="@ + active
        + "; confidence_bonus="@ + decimal(bonus as nat)
}

/// Appends one name to a comma-joined list when `active` holds.
fn push_active(
    text: &mut String,
    names: Ghost<Seq<Seq<char>>>,
    count: usize,
    active: bool,
    name: &str,
) -> (n: usize)
    requires
        old(text)@ == join_commas(names@),
        count == names@.len(),
        count < 8,
    ensures
        final(text)@ == join_commas(if active { names@.push(name@) } else { names@ }),
        n == (if active { names@.push(name@) } else { names@ }).len(),
{
    if !active {
        return count;
    }
    let ghost pushed = names@.push(name@);
    assert(pushed.drop_last() =~= names@);
    if count > 0 {
        text.append(",");
    }
    text.append(name);
    if count == 0 {
        assert(text@ =~= name@);
    }
    count + 1
}

/// The ranking reason of a ranked candidate: its score, the names of its active risk features
/// (or `none`) and its confidence bonus.
pub fn ranking_reason(score: u32, features: &V32RiskFeatures, confidence_bonus: u32) -> (r: String)
    ensures
        r@ == spec_ranking_reason(score, *features, confidence_bonus),
{
    let f = *features;
    let mut active = String::new();
    let ghost s0 = Seq::<Seq<char>>::empty();
    let n = push_active(
        &mut active,
        Ghost(s0),
        0,
        f.foreign_retention_without_owned_anchor,
        "foreign_retention_without_owned_anchor",
    );
    let ghost s1 = if f.foreign_retention_without_owned_anchor {
        s0.push("foreign_retention_without_owned_anchor"@)
    } else {
        s0
    };
    let n = push_active(
        &mut active,
        Ghost(s1),
        n,
        f.missing_unregister_before_drop,
        "missing_unregister_before_drop",
    );
    let ghost s2 = if f.missing_unregister_before_drop {
        s1.push("missing_unregister_before_drop"@)
    } else {
        s1
    };
    let n = push_active(&mut active, Ghost(s2), n, f.cross_language_alias, "cross_language_alias");
    let ghost s3 = if f.cross_language_alias {
        s2.push("cross_language_alias"@)
    } else {
        s2
    };
    let n = push_active(
        &mut active,
        Ghost(s3),
        n,
        f.opaque_handle_without_owner,
        "opaque_handle_without_owner",
    );
    let ghost s4 = if f.opaque_handle_without_owner {
        s3.push("opaque_handle_without_owner"@)
    } else {
        s3
    };
    let n = push_active(
        &mut active,
        Ghost(s4),
        n,
        f.callback_retained_across_drop,
        "callback_retained_across_drop",
    );
    assert(n == active_feature_list(f).len());
    let mut r = owned("score=");
    r.append(decimal_string(score as u64).as_str());
    r.append("; active_risk_features=");
    if n == 0 {
        r.append("none");
    } else {
        r.append(active.as_str());
    }
    r.append("; confidence_bonus=");
    r.append(decimal_string(confidence_bonus as u64).as_str());
    r
}

} // verus!

verus! {

/// The parts of a node: id, kind, label and lifetime role.
pub open spec fn node_parts(n: V32LifecycleNode) -> (Seq<char>, V32LifecycleNodeKind, Seq<char>, V32LifetimeRole) {
    (n.node_id@, n.node_kind, n.label@, n.lifetime_role)
}

/// The parts of an edge: source, target, kind and evidence reference.
pub open spec fn edge_parts(e: V32LifecycleEdge) -> (Seq<char>, Seq<char>, V32LifecycleEdgeKind, Seq<char>) {
    (e.from@, e.to@, e.edge_kind, e.evidence_ref@)
}

/// The nodes of the lifecycle template of a pattern family, with the API label in place.
pub open spec fn template_nodes(p: V32PatternFamily, api: Seq<char>) -> Seq<(Seq<char>, V32LifecycleNodeKind, Seq<char>, V32LifetimeRole)> {
    match p {
        V32PatternFamily::RetainedBorrowedCallback => seq![("n1"@, V32LifecycleNodeKind::RustObject, "callback-capture-object"@, V32LifetimeRole::Borrowed), ("n2"@, V32LifecycleNodeKind::ForeignApi, api, V32LifetimeRole::ExternalRetained), ("n3"@, V32LifecycleNodeKind::ForeignOwner, "external-owner"@, V32LifetimeRole::ExternalRetained), ("n4"@, V32LifecycleNodeKind::CallbackSite, "callback-invoke-site"@, V32LifetimeRole::Unknown)],
        V32PatternFamily::CallbackLifecycleRelease => seq![("n1"@, V32LifecycleNodeKind::RustObject, "callback-capture-object"@, V32LifetimeRole::Borrowed), ("n2"@, V32LifecycleNodeKind::ForeignApi, api, V32LifetimeRole::ExternalRetained), ("n3"@, V32LifecycleNodeKind::ForeignOwner, "external-owner"@, V32LifetimeRole::ExternalRetained)],
        V32PatternFamily::ForeignRetainedPointer => seq![("n1"@, V32LifecycleNodeKind::RustObject, "rust-buffer-or-object"@, V32LifetimeRole::Borrowed), ("n2"@, V32LifecycleNodeKind::ForeignApi, api, V32LifetimeRole::ExternalRetained), ("n3"@, V32LifecycleNodeKind::ForeignOwner, "foreign-retained-pointer"@, V32LifetimeRole::ExternalRetained)],
        V32PatternFamily::OpaqueHandleTransfer => seq![("n1"@, V32LifecycleNodeKind::RustObject, "rust-owner-context"@, V32LifetimeRole::Owned), ("n2"@, V32LifecycleNodeKind::OpaqueHandle, api, V32LifetimeRole::Unknown), ("n3"@, V32LifecycleNodeKind::ForeignApi, "foreign-handle-consumer"@, V32LifetimeRole::ExternalRetained)],
        V32PatternFamily::NativeLibraryBoundary => seq![("n1"@, V32LifecycleNodeKind::RustObject, "rust-wrapper-state"@, V32LifetimeRole::Owned), ("n2"@, V32LifecycleNodeKind::ForeignApi, api, V32LifetimeRole::Unknown)],
        V32PatternFamily::ReturnedBorrowView => seq![("n1"@, V32LifecycleNodeKind::RustObject, "borrow-source"@, V32LifetimeRole::Borrowed), ("n2"@, V32LifecycleNodeKind::RustObject, api, V32LifetimeRole::Unknown)],
        V32PatternFamily::ExternalBufferView => seq![("n1"@, V32LifecycleNodeKind::RustObject, "buffer-source"@, V32LifetimeRole::Borrowed), ("n2"@, V32LifecycleNodeKind::ForeignApi, api, V32LifetimeRole::Unknown)],
    }
}

/// The edges of the lifecycle template of a pattern family, each carrying the evidence
/// reference.
pub open spec fn template_edges(p: V32PatternFamily, ev: Seq<char>) -> Seq<(Seq<char>, Seq<char>, V32LifecycleEdgeKind, Seq<char>)> {
    match p {
        V32PatternFamily::RetainedBorrowedCallback => seq![("n1"@, "n2"@, V32LifecycleEdgeKind::RegisteredIntoForeignApi, ev), ("n2"@, "n3"@, V32LifecycleEdgeKind::ForeignRetains, ev), ("n3"@, "n4"@, V32LifecycleEdgeKind::ForeignInvokes, ev), ("n1"@, "n1"@, V32LifecycleEdgeKind::DropRustObject, ev)],
        V32PatternFamily::CallbackLifecycleRelease => seq![("n1"@, "n2"@, V32LifecycleEdgeKind::RegisteredIntoForeignApi, ev), ("n2"@, "n3"@, V32LifecycleEdgeKind::ForeignRetains, ev), ("n2"@, "n1"@, V32LifecycleEdgeKind::UnregisterPath, ev)],
        V32PatternFamily::ForeignRetainedPointer => seq![("n1"@, "n2"@, V32LifecycleEdgeKind::AliasAcrossLanguages, ev), ("n2"@, "n3"@, V32LifecycleEdgeKind::ForeignRetains, ev), ("n1"@, "n1"@, V32LifecycleEdgeKind::DropRustObject, ev)],
        V32PatternFamily::OpaqueHandleTransfer => seq![("n1"@, "n2"@, V32LifecycleEdgeKind::HandleTransfer, ev), ("n2"@, "n3"@, V32LifecycleEdgeKind::AliasAcrossLanguages, ev)],
        V32PatternFamily::NativeLibraryBoundary => seq![("n1"@, "n2"@, V32LifecycleEdgeKind::AliasAcrossLanguages, ev)],
        V32PatternFamily::ReturnedBorrowView => seq![("n1"@, "n2"@, V32LifecycleEdgeKind::AliasAcrossLanguages, ev)],
        V32PatternFamily::ExternalBufferView => seq![("n1"@, "n2"@, V32LifecycleEdgeKind::AliasAcrossLanguages, ev)],
    }
}

/// The risk features that the lifecycle template of a pattern family carries.
pub open spec fn template_features(p: V32PatternFamily) -> V32RiskFeatures {
    match p {
        V32PatternFamily::RetainedBorrowedCallback => V32RiskFeatures { foreign_retention_without_owned_anchor: true, missing_unregister_before_drop: true, cross_language_alias: true, opaque_handle_without_owner: false, callback_retained_across_drop: true },
        V32PatternFamily::CallbackLifecycleRelease => V32RiskFeatures { foreign_retention_without_owned_anchor: false, missing_unregister_before_drop: false, cross_language_alias: true, opaque_handle_without_owner: false, callback_retained_across_drop: false },
        V32PatternFamily::ForeignRetainedPointer => V32RiskFeatures { foreign_retention_without_owned_anchor: true, missing_unregister_before_drop: false, cross_language_alias: true, opaque_handle_without_owner: false, callback_retained_across_drop: false },
        V32PatternFamily::OpaqueHandleTransfer => V32RiskFeatures { foreign_retention_without_owned_anchor: false, missing_unregister_before_drop: false, cross_language_alias: true, opaque_handle_without_owner: true, callback_retained_across_drop: false },
        V32PatternFamily::NativeLibraryBoundary => V32RiskFeatures { foreign_retention_without_owned_anchor: false, missing_unregister_before_drop: false, cross_language_alias: true, opaque_handle_without_owner: false, callback_retained_across_drop: false },
        V32PatternFamily::ReturnedBorrowView => V32RiskFeatures { foreign_retention_without_owned_anchor: false, missing_unregister_before_drop: false, cross_language_alias: false, opaque_handle_without_owner: false, callback_retained_across_drop: false },
        V32PatternFamily::ExternalBufferView => V32RiskFeatures { foreign_retention_without_owned_anchor: false, missing_unregister_before_drop: false, cross_language_alias: true, opaque_handle_without_owner: false, callback_retained_across_drop: false },
    }
}

fn node(id: &str, kind: V32LifecycleNodeKind, label: &str, role: V32LifetimeRole) -> (r: V32LifecycleNode)
    ensures
        node_parts(r) == (id@, kind, label@, role),
{
    V32LifecycleNode { node_id: owned(id), node_kind: kind, label: owned(label), lifetime_role: role }
}

fn edge(from: &str, to: &str, kind: V32LifecycleEdgeKind, evidence_ref: &str) -> (r: V32LifecycleEdge)
    ensures
        edge_parts(r) == (from@, to@, kind, evidence_ref@),
{
    V32LifecycleEdge { from: owned(from), to: owned(to), edge_kind: kind, evidence_ref: owned(evidence_ref) }
}

/// The lifecycle template of a pattern family: its nodes, edges and risk features.
fn template_for_pattern(pattern: V32PatternFamily, api_label: &str, evidence_ref: &str) -> (r: (
    Vec<V32LifecycleNode>,
    Vec<V32LifecycleEdge>,
    V32RiskFeatures,
))
    ensures
        r.0@.map_values(|n: V32LifecycleNode| node_parts(n)) == template_nodes(pattern, api_label@),
        r.1@.map_values(|e: V32LifecycleEdge| edge_parts(e)) == template_edges(pattern, evidence_ref@),
        r.2 == template_features(pattern),
{
    let mut nodes: Vec<V32LifecycleNode> = Vec::new();
    let mut edges: Vec<V32LifecycleEdge> = Vec::new();
    match pattern {
        V32PatternFamily::RetainedBorrowedCallback => {
            nodes.push(node("n1", V32LifecycleNodeKind::RustObject, "callback-capture-object", V32LifetimeRole::Borrowed));
            nodes.push(node("n2", V32LifecycleNodeKind::ForeignApi, api_label, V32LifetimeRole::ExternalRetained));
            nodes.push(node("n3", V32LifecycleNodeKind::ForeignOwner, "external-owner", V32LifetimeRole::ExternalRetained));
            nodes.push(node("n4", V32LifecycleNodeKind::CallbackSite, "callback-invoke-site", V32LifetimeRole::Unknown));
            edges.push(edge("n1", "n2", V32LifecycleEdgeKind::RegisteredIntoForeignApi, evidence_ref));
            edges.push(edge("n2", "n3", V32LifecycleEdgeKind::ForeignRetains, evidence_ref));
            edges.push(edge("n3", "n4", V32LifecycleEdgeKind::ForeignInvokes, evidence_ref));
            edges.push(edge("n1", "n1", V32LifecycleEdgeKind::DropRustObject, evidence_ref));
            assert(nodes@.map_values(|n: V32LifecycleNode| node_parts(n)) =~= template_nodes(pattern, api_label@));
            assert(edges@.map_values(|e: V32LifecycleEdge| edge_parts(e)) =~= template_edges(pattern, evidence_ref@));
            (nodes, edges, V32RiskFeatures { foreign_retention_without_owned_anchor: true, missing_unregister_before_drop: true, cross_language_alias: true, opaque_handle_without_owner: false, callback_retained_across_drop: true })
        },
        V32PatternFamily::CallbackLifecycleRelease => {
            nodes.push(node("n1", V32LifecycleNodeKind::RustObject, "callback-capture-object", V32LifetimeRole::Borrowed));
            nodes.push(node("n2", V32LifecycleNodeKind::ForeignApi, api_label, V32LifetimeRole::ExternalRetained));
            nodes.push(node("n3", V32LifecycleNodeKind::ForeignOwner, "external-owner", V32LifetimeRole::ExternalRetained));
            edges.push(edge("n1", "n2", V32LifecycleEdgeKind::RegisteredIntoForeignApi, evidence_ref));
            edges.push(edge("n2", "n3", V32LifecycleEdgeKind::ForeignRetains, evidence_ref));
            edges.push(edge("n2", "n1", V32LifecycleEdgeKind::UnregisterPath, evidence_ref));
            assert(nodes@.map_values(|n: V32LifecycleNode| node_parts(n)) =~= template_nodes(pattern, api_label@));
            assert(edges@.map_values(|e: V32LifecycleEdge| edge_parts(e)) =~= template_edges(pattern, evidence_ref@));
            (nodes, edges, V32RiskFeatures { foreign_retention_without_owned_anchor: false, missing_unregister_before_drop: false, cross_language_alias: true, opaque_handle_without_owner: false, callback_retained_across_drop: false })
        },
        V32PatternFamily::ForeignRetainedPointer => {
            nodes.push(node("n1", V32LifecycleNodeKind::RustObject, "rust-buffer-or-object", V32LifetimeRole::Borrowed));
            nodes.push(node("n2", V32LifecycleNodeKind::ForeignApi, api_label, V32LifetimeRole::ExternalRetained));
            nodes.push(node("n3", V32LifecycleNodeKind::ForeignOwner, "foreign-retained-pointer", V32LifetimeRole::ExternalRetained));
            edges.push(edge("n1", "n2", V32LifecycleEdgeKind::AliasAcrossLanguages, evidence_ref));
            edges.push(edge("n2", "n3", V32LifecycleEdgeKind::ForeignRetains, evidence_ref));
            edges.push(edge("n1", "n1", V32LifecycleEdgeKind::DropRustObject, evidence_ref));
            assert(nodes@.map_values(|n: V32LifecycleNode| node_parts(n)) =~= template_nodes(pattern, api_label@));
            assert(edges@.map_values(|e: V32LifecycleEdge| edge_parts(e)) =~= template_edges(pattern, evidence_ref@));
            (nodes, edges, V32RiskFeatures { foreign_retention_without_owned_anchor: true, missing_unregister_before_drop: false, cross_language_alias: true, opaque_handle_without_owner: false, callback_retained_across_drop: false })
        },
        V32PatternFamily::OpaqueHandleTransfer => {
            nodes.push(node("n1", V32LifecycleNodeKind::RustObject, "rust-owner-context", V32LifetimeRole::Owned));
            nodes.push(node("n2", V32LifecycleNodeKind::OpaqueHandle, api_label, V32LifetimeRole::Unknown));
            nodes.push(node("n3", V32LifecycleNodeKind::ForeignApi, "foreign-handle-consumer", V32LifetimeRole::ExternalRetained));
            edges.push(edge("n1", "n2", V32LifecycleEdgeKind::HandleTransfer, evidence_ref));
            edges.push(edge("n2", "n3", V32LifecycleEdgeKind::AliasAcrossLanguages, evidence_ref));
            assert(nodes@.map_values(|n: V32LifecycleNode| node_parts(n)) =~= template_nodes(pattern, api_label@));
            assert(edges@.map_values(|e: V32LifecycleEdge| edge_parts(e)) =~= template_edges(pattern, evidence_ref@));
            (nodes, edges, V32RiskFeatures { foreign_retention_without_owned_anchor: false, missing_unregister_before_drop: false, cross_language_alias: true, opaque_handle_without_owner: true, callback_retained_across_drop: false })
        },
        V32PatternFamily::NativeLibraryBoundary => {
            nodes.push(node("n1", V32LifecycleNodeKind::RustObject, "rust-wrapper-state", V32LifetimeRole::Owned));
            nodes.push(node("n2", V32LifecycleNodeKind::ForeignApi, api_label, V32LifetimeRole::Unknown));
            edges.push(edge("n1", "n2", V32LifecycleEdgeKind::AliasAcrossLanguages, evidence_ref));
            assert(nodes@.map_values(|n: V32LifecycleNode| node_parts(n)) =~= template_nodes(pattern, api_label@));
            assert(edges@.map_values(|e: V32LifecycleEdge| edge_parts(e)) =~= template_edges(pattern, evidence_ref@));
            (nodes, edges, V32RiskFeatures { foreign_retention_without_owned_anchor: false, missing_unregister_before_drop: false, cross_language_alias: true, opaque_handle_without_owner: false, callback_retained_across_drop: false })
        },
        V32PatternFamily::ReturnedBorrowView => {
            nodes.push(node("n1", V32LifecycleNodeKind::RustObject, "borrow-source", V32LifetimeRole::Borrowed));
            nodes.push(node("n2", V32LifecycleNodeKind::RustObject, api_label, V32LifetimeRole::Unknown));
            edges.push(edge("n1", "n2", V32LifecycleEdgeKind::AliasAcrossLanguages, evidence_ref));
            assert(nodes@.map_values(|n: V32LifecycleNode| node_parts(n)) =~= template_nodes(pattern, api_label@));
            assert(edges@.map_values(|e: V32LifecycleEdge| edge_parts(e)) =~= template_edges(pattern, evidence_ref@));
            (nodes, edges, V32RiskFeatures { foreign_retention_without_owned_anchor: false, missing_unregister_before_drop: false, cross_language_alias: false, opaque_handle_without_owner: false, callback_retained_across_drop: false })
        },
        V32PatternFamily::ExternalBufferView => {
            nodes.push(node("n1", V32LifecycleNodeKind::RustObject, "buffer-source", V32LifetimeRole::Borrowed));
            nodes.push(node("n2", V32LifecycleNodeKind::ForeignApi, api_label, V32LifetimeRole::Unknown));
            edges.push(edge("n1", "n2", V32LifecycleEdgeKind::AliasAcrossLanguages, evidence_ref));
            assert(nodes@.map_values(|n: V32LifecycleNode| node_parts(n)) =~= template_nodes(pattern, api_label@));
            assert(edges@.map_values(|e: V32LifecycleEdge| edge_parts(e)) =~= template_edges(pattern, evidence_ref@));
            (nodes, edges, V32RiskFeatures { foreign_retention_without_owned_anchor: false, missing_unregister_before_drop: false, cross_language_alias: true, opaque_handle_without_owner: false, callback_retained_across_drop: false })
        },
    }
}

} // verus!

verus! {

/// The place a list of evidence references points to first: the path of the first reference,
/// with its line or line range when both ends are known.
pub open spec fn first_evidence_text(refs: Seq<V32BoundaryEvidenceRef>) -> Seq<char> {
    if refs.len() == 0 {
        "evidence:unknown"@
    } else {
        let ev = refs[0];
        match (ev.line_start, ev.line_end) {
            (Some(start), Some(end)) => if start == end {
                ev.path@ + ":"@ + decimal(start as nat)
            } else {
                ev.path@ + ":"@ + decimal(start as nat) + "-"@ + decimal(end as nat)
            },
            _ => ev.path@,
        }
    }
}

fn first_evidence_ref(refs: &Vec<V32BoundaryEvidenceRef>) -> (r: String)
    ensures
        r@ == first_evidence_text(refs@),
{
    if refs.len() == 0 {
        return owned("evidence:unknown");
    }
    let ev = &refs[0];
    match (ev.line_start, ev.line_end) {
        (Some(start), Some(end)) => {
            let mut r = ev.path.clone();
            r.append(":");
            r.append(decimal_string(start).as_str());
            if start != end {
                r.append("-");
                r.append(decimal_string(end).as_str());
            }
            r
        },
        _ => ev.path.clone(),
    }
}

pub open spec fn spec_confidence_slug(confidence: V32CandidateConfidence) -> Seq<char> {
    match confidence {
        V32CandidateConfidence::NeedsDynamicValidation => "needs_dynamic_validation"@,
        V32CandidateConfidence::StaticOnly => "static_only"@,
        V32CandidateConfidence::LowPriority => "low_priority"@,
    }
}

fn confidence_slug(confidence: V32CandidateConfidence) -> (r: &'static str)
    ensures
        r@ == spec_confidence_slug(confidence),
{
    match confidence {
        V32CandidateConfidence::NeedsDynamicValidation => "needs_dynamic_validation",
        V32CandidateConfidence::StaticOnly => "static_only",
        V32CandidateConfidence::LowPriority => "low_priority",
    }
}

/// The label of the API node: the candidate's API path, or `unknown_api`.
pub open spec fn api_label_of(api_path: Option<String>) -> Seq<char> {
    match api_path {
        Some(p) => p@,
        None => "unknown_api"@,
    }
}

/// The lifecycle graph of a candidate: the template of its pattern family, with its API path
/// as the API label and its first evidence reference on every edge, and notes that say what
/// the graph is not.
pub fn lifecycle_graph_from_candidate(candidate: &V32CandidateRecord, run_id: &str) -> (g:
    V32LifecycleGraph)
    ensures
        g.schema_version@ == V3_2_LIFECYCLE_GRAPH_SCHEMA_V1@,
        g.run_id@ == run_id@,
        g.candidate_id@ == candidate.candidate_id@,
        g.crate_id@ == candidate.crate_id@,
        g.pattern_family == candidate.pattern_family,
        g.nodes@.map_values(|n: V32LifecycleNode| node_parts(n)) == template_nodes(
            candidate.pattern_family,
            api_label_of(candidate.api_path),
        ),
        g.edges@.map_values(|e: V32LifecycleEdge| edge_parts(e)) == template_edges(
            candidate.pattern_family,
            first_evidence_text(candidate.evidence_refs@),
        ),
        g.risk_features == template_features(candidate.pattern_family),
        g.notes@.map_values(|s: String| s@) == seq![
            "lifecycle graph tracks boundary-related objects only"@,
            "graph is not a vulnerability conclusion"@,
            "source_confidence="@ + spec_confidence_slug(candidate.confidence),
        ],
{
    let evidence_ref = first_evidence_ref(&candidate.evidence_refs);
    let api_label = match &candidate.api_path {
        Some(p) => p.clone(),
        None => owned("unknown_api"),
    };
    let (nodes, edges, risk_features) = template_for_pattern(
        candidate.pattern_family,
        api_label.as_str(),
        evidence_ref.as_str(),
    );
    let mut notes: Vec<String> = Vec::new();
    notes.push(owned("lifecycle graph tracks boundary-related objects only"));
    notes.push(owned("graph is not a vulnerability conclusion"));
    let mut conf = owned("source_confidence=");
    conf.append(confidence_slug(candidate.confidence));
    notes.push(conf);
    assert(notes@.map_values(|s: String| s@) =~= seq![
        "lifecycle graph tracks boundary-related objects only"@,
        "graph is not a vulnerability conclusion"@,
        "source_confidence="@ + spec_confidence_slug(candidate.confidence),
    ]);
    V32LifecycleGraph {
        schema_version: owned(V3_2_LIFECYCLE_GRAPH_SCHEMA_V1),
        run_id: owned(run_id),
        candidate_id: candidate.candidate_id.clone(),
        crate_id: candidate.crate_id.clone(),
        pattern_family: candidate.pattern_family,
        nodes,
        edges,
        risk_features,
        notes,
    }
}

} // verus!

verus! {

/// The error code of one node of a graph.
pub open spec fn node_error(n: V32LifecycleNode) -> Option<Seq<char>> {
    if !present(n.node_id@) || !present(n.label@) {
        Some("BW-LIFECYCLE-REQUIRED-EMPTY"@)
    } else if has_forbidden_token(n.node_id@) || has_forbidden_token(n.label@) {
        Some("BW-LIFECYCLE-PRIVATE-TOKEN"@)
    } else {
        None
    }
}

/// The error code of the first failing node.
pub open spec fn nodes_error(nodes: Seq<V32LifecycleNode>) -> Option<Seq<char>>
    decreases nodes.len(),
{
    if nodes.len() == 0 {
        None
    } else if node_error(nodes[0]) is Some {
        node_error(nodes[0])
    } else {
        nodes_error(nodes.drop_first())
    }
}

/// Some node of the graph has this id.
pub open spec fn has_node_id(nodes: Seq<V32LifecycleNode>, id: Seq<char>) -> bool {
    exists|k: int| 0 <= k < nodes.len() && (#[trigger] nodes[k]).node_id@ == id
}

/// No two nodes share an id.
pub open spec fn node_ids_distinct(nodes: Seq<V32LifecycleNode>) -> bool {
    forall|i: int, j: int|
        0 <= i < j < nodes.len() ==> (#[trigger] nodes[i]).node_id@ != (#[trigger] nodes[j]).node_id@
}

/// The error code of one edge of a graph with the given nodes.
pub open spec fn edge_error(nodes: Seq<V32LifecycleNode>, e: V32LifecycleEdge) -> Option<Seq<char>> {
    if !has_node_id(nodes, e.from@) || !has_node_id(nodes, e.to@) {
        Some("BW-LIFECYCLE-EDGE-ENDPOINT"@)
    } else if !present(e.evidence_ref@) {
        Some("BW-LIFECYCLE-REQUIRED-EMPTY"@)
    } else if has_forbidden_token(e.from@) || has_forbidden_token(e.to@) || has_forbidden_token(
        e.evidence_ref@,
    ) {
        Some("BW-LIFECYCLE-PRIVATE-TOKEN"@)
    } else {
        None
    }
}

/// The error code of the first failing edge.
pub open spec fn edges_error(nodes: Seq<V32LifecycleNode>, edges: Seq<V32LifecycleEdge>) -> Option<
    Seq<char>,
>
    decreases edges.len(),
{
    if edges.len() == 0 {
        None
    } else if edge_error(nodes, edges[0]) is Some {
        edge_error(nodes, edges[0])
    } else {
        edges_error(nodes, edges.drop_first())
    }
}

/// The error code of one lifecycle graph, given whether its candidate id already occurred.
pub open spec fn graph_record_error(g: V32LifecycleGraph, duplicate: bool) -> Option<Seq<char>> {
    if !present(g.run_id@) || !present(g.candidate_id@) || !present(g.crate_id@) {
        Some("BW-LIFECYCLE-REQUIRED-EMPTY"@)
    } else if has_forbidden_token(g.run_id@) || has_forbidden_token(g.candidate_id@)
        || has_forbidden_token(g.crate_id@) || !all_token_free(g.notes@) {
        Some("BW-LIFECYCLE-PRIVATE-TOKEN"@)
    } else if g.nodes@.len() == 0 {
        Some("BW-LIFECYCLE-NODES-EMPTY"@)
    } else if g.edges@.len() == 0 {
        Some("BW-LIFECYCLE-EDGES-EMPTY"@)
    } else if !node_ids_distinct(g.nodes@) {
        Some("BW-LIFECYCLE-NODE-ID-DUPLICATE"@)
    } else if nodes_error(g.nodes@) is Some {
        nodes_error(g.nodes@)
    } else if edges_error(g.nodes@, g.edges@) is Some {
        edges_error(g.nodes@, g.edges@)
    } else if duplicate {
        Some("BW-LIFECYCLE-CANDIDATE-DUPLICATE"@)
    } else {
        None
    }
}

pub open spec fn graph_error_at(graphs: Seq<Located<V32LifecycleGraph>>, i: int) -> Option<Seq<char>> {
    graph_record_error(
        graphs[i].value,
        exists|j: int| 0 <= j < i && #[trigger] graphs[j].value.candidate_id@ == graphs[i].value.candidate_id@,
    )
}

fn find_node_id(nodes: &Vec<V32LifecycleNode>, id: &String) -> (b: bool)
    ensures
        b == has_node_id(nodes@, id@),
{
    let mut i: usize = 0;
    while i < nodes.len()
        invariant
            0 <= i <= nodes@.len(),
            forall|k: int| 0 <= k < i ==> (#[trigger] nodes@[k]).node_id@ != id@,
        decreases nodes.len() - i,
    {
        if nodes[i].node_id == *id {
            return true;
        }
        i = i + 1;
    }
    false
}

fn distinct_node_ids(nodes: &Vec<V32LifecycleNode>) -> (b: bool)
    ensures
        b == node_ids_distinct(nodes@),
{
    let mut j: usize = 0;
    while j < nodes.len()
        invariant
            0 <= j <= nodes@.len(),
            forall|a: int, b: int|
                0 <= a < b < j ==> (#[trigger] nodes@[a]).node_id@ != (#[trigger] nodes@[b]).node_id@,
        decreases nodes.len() - j,
    {
        let mut i: usize = 0;
        while i < j
            invariant
                0 <= i <= j < nodes@.len(),
                forall|a: int| 0 <= a < i ==> (#[trigger] nodes@[a]).node_id@ != nodes@[j as int].node_id@,
            decreases j - i,
        {
            if nodes[i].node_id == nodes[j].node_id {
                return false;
            }
            i = i + 1;
        }
        j = j + 1;
    }
    true
}

fn check_nodes(located: &Located<V32LifecycleGraph>, nodes: &Vec<V32LifecycleNode>) -> (r: Result<
    (),
    ModelError,
>)
    ensures
        match nodes_error(nodes@) {
            None => r is Ok,
            Some(code) => r matches Err(e) && is_error_at(e, *located, code),
        },
{
    let mut i: usize = 0;
    assert(nodes@.skip(0) =~= nodes@);
    while i < nodes.len()
        invariant
            0 <= i <= nodes@.len(),
            nodes_error(nodes@) == nodes_error(nodes@.skip(i as int)),
        decreases nodes.len() - i,
    {
        assert(nodes@.skip(i as int).drop_first() =~= nodes@.skip(i + 1));
        assert(nodes@.skip(i as int)[0] == nodes@[i as int]);
        let n = &nodes[i];
        check_required(located, "BW-LIFECYCLE-REQUIRED-EMPTY", "nodes.node_id", n.node_id.as_str())?;
        check_required(located, "BW-LIFECYCLE-REQUIRED-EMPTY", "nodes.label", n.label.as_str())?;
        check_tokens(located, "BW-LIFECYCLE-PRIVATE-TOKEN", "nodes.node_id", n.node_id.as_str())?;
        check_tokens(located, "BW-LIFECYCLE-PRIVATE-TOKEN", "nodes.label", n.label.as_str())?;
        i = i + 1;
    }
    assert(nodes@.skip(nodes@.len() as int) =~= Seq::<V32LifecycleNode>::empty());
    Ok(())
}

fn check_edges(
    located: &Located<V32LifecycleGraph>,
    nodes: &Vec<V32LifecycleNode>,
    edges: &Vec<V32LifecycleEdge>,
) -> (r: Result<(), ModelError>)
    ensures
        match edges_error(nodes@, edges@) {
            None => r is Ok,
            Some(code) => r matches Err(e) && is_error_at(e, *located, code),
        },
{
    let mut i: usize = 0;
    assert(edges@.skip(0) =~= edges@);
    while i < edges.len()
        invariant
            0 <= i <= edges@.len(),
            edges_error(nodes@, edges@) == edges_error(nodes@, edges@.skip(i as int)),
        decreases edges.len() - i,
    {
        assert(edges@.skip(i as int).drop_first() =~= edges@.skip(i + 1));
        assert(edges@.skip(i as int)[0] == edges@[i as int]);
        let e = &edges[i];
        require(
            located,
            find_node_id(nodes, &e.from) && find_node_id(nodes, &e.to),
            "BW-LIFECYCLE-EDGE-ENDPOINT",
            "edge 引用了不存在的 node_id",
        )?;
        check_required(located, "BW-LIFECYCLE-REQUIRED-EMPTY", "edges.evidence_ref", e.evidence_ref.as_str())?;
        check_tokens(located, "BW-LIFECYCLE-PRIVATE-TOKEN", "edges.from", e.from.as_str())?;
        check_tokens(located, "BW-LIFECYCLE-PRIVATE-TOKEN", "edges.to", e.to.as_str())?;
        check_tokens(located, "BW-LIFECYCLE-PRIVATE-TOKEN", "edges.evidence_ref", e.evidence_ref.as_str())?;
        i = i + 1;
    }
    assert(edges@.skip(edges@.len() as int) =~= Seq::<V32LifecycleEdge>::empty());
    Ok(())
}

fn check_graph(located: &Located<V32LifecycleGraph>, duplicate: bool) -> (r: Result<(), ModelError>)
    ensures
        match graph_record_error(located.value, duplicate) {
            None => r is Ok,
            Some(code) => r matches Err(e) && is_error_at(e, *located, code),
        },
{
    let g = &located.value;
    let req = "BW-LIFECYCLE-REQUIRED-EMPTY";
    let tok = "BW-LIFECYCLE-PRIVATE-TOKEN";
    check_required(located, req, "run_id", g.run_id.as_str())?;
    check_required(located, req, "candidate_id", g.candidate_id.as_str())?;
    check_required(located, req, "crate_id", g.crate_id.as_str())?;
    check_tokens(located, tok, "run_id", g.run_id.as_str())?;
    check_tokens(located, tok, "candidate_id", g.candidate_id.as_str())?;
    check_tokens(located, tok, "crate_id", g.crate_id.as_str())?;
    check_tokens_all(located, tok, "notes", &g.notes)?;
    require(located, g.nodes.len() > 0, "BW-LIFECYCLE-NODES-EMPTY", "lifecycle graph 必须至少包含一个 node")?;
    require(located, g.edges.len() > 0, "BW-LIFECYCLE-EDGES-EMPTY", "lifecycle graph 必须至少包含一个 edge")?;
    require(located, distinct_node_ids(&g.nodes), "BW-LIFECYCLE-NODE-ID-DUPLICATE", "lifecycle graph node_id 不能重复")?;
    check_nodes(located, &g.nodes)?;
    check_edges(located, &g.nodes, &g.edges)?;
    require(located, !duplicate, "BW-LIFECYCLE-CANDIDATE-DUPLICATE", "candidate 的 lifecycle graph 重复")
}

/// Validates lifecycle graphs: every graph is checked in order and the first failure is
/// reported at its graph; on success the number of graphs.
pub fn validate_v3_2_lifecycle_graphs(graphs: Vec<Located<V32LifecycleGraph>>) -> (r: Result<
    u64,
    ModelError,
>)
    ensures
        match r {
            Ok(count) => {
                &&& forall|i: int| 0 <= i < graphs@.len() ==> graph_error_at(graphs@, i) is None
                &&& count == graphs@.len()
            },
            Err(e) => exists|i: int|
                0 <= i < graphs@.len() && (forall|j: int| 0 <= j < i ==> graph_error_at(graphs@, j) is None)
                    && (#[trigger] graph_error_at(graphs@, i)) is Some && is_error_at(
                    e,
                    graphs@[i],
                    graph_error_at(graphs@, i)->0,
                ),
        },
{
    let mut count: u64 = 0;
    let mut seen: Vec<String> = Vec::new();
    let mut i: usize = 0;
    while i < graphs.len()
        invariant
            0 <= i <= graphs@.len(),
            forall|j: int| 0 <= j < i ==> graph_error_at(graphs@, j) is None,
            seen@.len() == i,
            forall|k: int| 0 <= k < i ==> (#[trigger] seen@[k])@ == graphs@[k].value.candidate_id@,
            count == i,
        decreases graphs.len() - i,
    {
        let located = &graphs[i];
        let duplicate = contains_text(&seen, &located.value.candidate_id);
        assert(duplicate == exists|j: int| 0 <= j < i && #[trigger] graphs@[j].value.candidate_id@ == graphs@[i as int].value.candidate_id@) by {
            if duplicate {
                let k = choose|k: int| 0 <= k < seen@.len() && (#[trigger] seen@[k])@ == located.value.candidate_id@;
                assert(graphs@[k].value.candidate_id@ == graphs@[i as int].value.candidate_id@);
            }
            if exists|j: int| 0 <= j < i && #[trigger] graphs@[j].value.candidate_id@ == graphs@[i as int].value.candidate_id@ {
                let j = choose|j: int| 0 <= j < i && #[trigger] graphs@[j].value.candidate_id@ == graphs@[i as int].value.candidate_id@;
                assert(seen@[j]@ == graphs@[j].value.candidate_id@);
            }
        }
        match check_graph(located, duplicate) {
            Ok(()) => {},
            Err(e) => {
                assert(graph_error_at(graphs@, i as int) is Some);
                return Err(e);
            },
        }
        seen.push(located.value.candidate_id.clone());
        count = count + 1;
        i = i + 1;
    }
    Ok(count)
}

} // verus!

verus! {

/// The error code of one ranked candidate record, given the run id fixed by the first record
/// and whether its rank and its candidate id already occurred.
pub open spec fn ranked_record_error(
    r: V32RankedCandidateRecord,
    first_run: Option<Seq<char>>,
    rank_duplicate: bool,
    candidate_duplicate: bool,
) -> Option<Seq<char>> {
    if !present(r.run_id@) || !present(r.candidate_id@) || !present(r.crate_id@) || !present(
        r.lifecycle_graph_path@,
    ) || !present(r.ranking_reason@) {
        Some("BW-RANK-REQUIRED-EMPTY"@)
    } else if has_forbidden_token(r.run_id@) || has_forbidden_token(r.candidate_id@)
        || has_forbidden_token(r.crate_id@) || has_forbidden_token(r.lifecycle_graph_path@)
        || has_forbidden_token(r.ranking_reason@) || !all_token_free(r.notes@) {
        Some("BW-RANK-PRIVATE-TOKEN"@)
    } else if !is_relative_ref(r.lifecycle_graph_path@) {
        Some("BW-RANK-PATH"@)
    } else if r.rank == 0 {
        Some("BW-RANK-ZERO"@)
    } else if rank_duplicate {
        Some("BW-RANK-DUPLICATE"@)
    } else if candidate_duplicate {
        Some("BW-RANK-CANDIDATE-DUPLICATE"@)
    } else if first_run is Some && first_run->0 != r.run_id@ {
        Some("BW-RANK-RUN-MISMATCH"@)
    } else if breakdown_total(r.score_breakdown) != r.score {
        Some("BW-RANK-SCORE-MISMATCH"@)
    } else {
        None
    }
}

pub open spec fn ranked_error_at(records: Seq<Located<V32RankedCandidateRecord>>, i: int) -> Option<
    Seq<char>,
> {
    ranked_record_error(
        records[i].value,
        if i == 0 {
            None
        } else {
            Some(records[0].value.run_id@)
        },
        exists|j: int| 0 <= j < i && #[trigger] records[j].value.rank == records[i].value.rank,
        exists|j: int| 0 <= j < i && #[trigger] records[j].value.candidate_id@ == records[i].value.candidate_id@,
    )
}

/// The ranks of the records, in order.
pub open spec fn ranks_of(records: Seq<Located<V32RankedCandidateRecord>>) -> Seq<int> {
    records.map_values(|l: Located<V32RankedCandidateRecord>| l.value.rank as int)
}

/// The ranks are exactly 1, 2, ..., up to the number of records.
pub open spec fn ranks_form_sequence(records: Seq<Located<V32RankedCandidateRecord>>) -> bool {
    forall|k: int| (1 <= k <= records.len()) <==> #[trigger] ranks_of(records).contains(k)
}

/// The highest score of the records, or zero.
pub open spec fn max_score_of(records: Seq<Located<V32RankedCandidateRecord>>) -> u32
    decreases records.len(),
{
    if records.len() == 0 {
        0
    } else {
        let m = max_score_of(records.drop_last());
        if records.last().value.score > m {
            records.last().value.score
        } else {
            m
        }
    }
}

/// Distinct positive ranks, as many as records, form the sequence from one exactly when none
/// exceeds the number of records.
proof fn lemma_ranks_sequence(records: Seq<Located<V32RankedCandidateRecord>>)
    requires
        ranks_of(records).no_duplicates(),
        forall|i: int| 0 <= i < records.len() ==> 1 <= #[trigger] records[i].value.rank,
    ensures
        ranks_form_sequence(records) <==> forall|i: int|
            0 <= i < records.len() ==> #[trigger] records[i].value.rank <= records.len(),
{
    let ranks = ranks_of(records);
    let n = records.len() as int;
    broadcast use vstd::seq_lib::seq_to_set_is_finite;

    if forall|i: int| 0 <= i < records.len() ==> #[trigger] records[i].value.rank <= records.len() {
        let range = vstd::set_lib::set_int_range(1, n + 1);
        vstd::set_lib::lemma_int_range(1, n + 1);
        ranks.unique_seq_to_set();
        assert(ranks.to_set().subset_of(range)) by {
            assert forall|k: int| ranks.to_set().contains(k) implies range.contains(k) by {
                let i = choose|i: int| 0 <= i < ranks.len() && ranks[i] == k;
                assert(records[i].value.rank <= records.len());
            }
        }
        vstd::set_lib::lemma_subset_equality(ranks.to_set(), range);
        assert forall|k: int| (1 <= k <= records.len()) <==> #[trigger] ranks.contains(k) by {
            assert(range.contains(k) == ranks.to_set().contains(k));
        }
    } else {
        let i = choose|i: int| 0 <= i < records.len() && #[trigger] records[i].value.rank > records.len();
        assert(ranks[i] == records[i].value.rank);
        assert(ranks.contains(ranks[i]));
    }
}

fn check_ranked_record(
    located: &Located<V32RankedCandidateRecord>,
    first_run: &Option<String>,
    rank_duplicate: bool,
    candidate_duplicate: bool,
) -> (r: Result<(), ModelError>)
    ensures
        match ranked_record_error(
            located.value,
            match first_run {
                Some(s) => Some(s@),
                None => None,
            },
            rank_duplicate,
            candidate_duplicate,
        ) {
            None => r is Ok,
            Some(code) => r matches Err(e) && is_error_at(e, *located, code),
        },
{
    let record = &located.value;
    let req = "BW-RANK-REQUIRED-EMPTY";
    let tok = "BW-RANK-PRIVATE-TOKEN";
    check_required(located, req, "run_id", record.run_id.as_str())?;
    check_required(located, req, "candidate_id", record.candidate_id.as_str())?;
    check_required(located, req, "crate_id", record.crate_id.as_str())?;
    check_required(located, req, "lifecycle_graph_path", record.lifecycle_graph_path.as_str())?;
    check_required(located, req, "ranking_reason", record.ranking_reason.as_str())?;
    check_tokens(located, tok, "run_id", record.run_id.as_str())?;
    check_tokens(located, tok, "candidate_id", record.candidate_id.as_str())?;
    check_tokens(located, tok, "crate_id", record.crate_id.as_str())?;
    check_tokens(located, tok, "lifecycle_graph_path", record.lifecycle_graph_path.as_str())?;
    check_tokens(located, tok, "ranking_reason", record.ranking_reason.as_str())?;
    check_tokens_all(located, tok, "notes", &record.notes)?;
    require(
        located,
        relative_ref(record.lifecycle_graph_path.as_str()),
        "BW-RANK-PATH",
        "lifecycle_graph_path 必须是相对路径，不能是绝对路径或包含 ..",
    )?;
    require(located, record.rank != 0, "BW-RANK-ZERO", "rank 必须从 1 开始")?;
    require(located, !rank_duplicate, "BW-RANK-DUPLICATE", "rank 重复")?;
    require(located, !candidate_duplicate, "BW-RANK-CANDIDATE-DUPLICATE", "candidate_id 重复")?;
    if let Some(expected) = first_run {
        require(
            located,
            *expected == record.run_id,
            "BW-RANK-RUN-MISMATCH",
            "同一 ranked candidates 文件出现不同的 run_id",
        )?;
    }
    require(
        located,
        recompute_score(&record.score_breakdown) == record.score as u64,
        "BW-RANK-SCORE-MISMATCH",
        "score 与 score_breakdown 之和不一致",
    )
}

fn contains_rank(ranks: &Vec<u32>, rank: u32) -> (b: bool)
    ensures
        b == exists|k: int| 0 <= k < ranks@.len() && ranks@[k] == rank,
{
    let mut i: usize = 0;
    while i < ranks.len()
        invariant
            0 <= i <= ranks@.len(),
            forall|k: int| 0 <= k < i ==> ranks@[k] != rank,
        decreases ranks.len() - i,
    {
        if ranks[i] == rank {
            return true;
        }
        i = i + 1;
    }
    false
}

/// Validates ranked candidates: every record is checked in order and the first failure is
/// reported at its record; then the ranks must be exactly 1 to the number of records. On
/// success the number of ranked candidates (and of graphs) and the highest score.
pub fn validate_v3_2_ranked_candidates(records: Vec<Located<V32RankedCandidateRecord>>) -> (r:
    Result<V32LifecycleSummary, ModelError>)
    ensures
        match r {
            Ok(summary) => {
                &&& forall|i: int| 0 <= i < records@.len() ==> ranked_error_at(records@, i) is None
                &&& ranks_form_sequence(records@)
                &&& summary.ranked_count == records@.len()
                &&& summary.graph_count == records@.len()
                &&& summary.max_score == max_score_of(records@)
            },
            Err(e) => {
                ||| exists|i: int|
                    0 <= i < records@.len() && (forall|j: int| 0 <= j < i ==> ranked_error_at(records@, j) is None)
                        && (#[trigger] ranked_error_at(records@, i)) is Some && is_error_at(
                        e,
                        records@[i],
                        ranked_error_at(records@, i)->0,
                    )
                ||| {
                    &&& forall|i: int| 0 <= i < records@.len() ==> ranked_error_at(records@, i) is None
                    &&& !ranks_form_sequence(records@)
                    &&& e matches ModelError::Validation { code, .. } && code@ == "BW-RANK-SEQUENCE"@
                }
            },
        },
{
    let mut ranked: u64 = 0;
    let mut max_score: u32 = 0;
    let mut run_id: Option<String> = None;
    let mut ranks: Vec<u32> = Vec::new();
    let mut seen: Vec<String> = Vec::new();
    let mut i: usize = 0;
    while i < records.len()
        invariant
            0 <= i <= records@.len(),
            forall|j: int| 0 <= j < i ==> ranked_error_at(records@, j) is None,
            seen@.len() == i,
            ranks@.len() == i,
            forall|k: int| 0 <= k < i ==> (#[trigger] seen@[k])@ == records@[k].value.candidate_id@,
            forall|k: int| 0 <= k < i ==> #[trigger] ranks@[k] == records@[k].value.rank,
            i == 0 ==> run_id is None,
            i > 0 ==> (run_id is Some && run_id->0@ == records@[0].value.run_id@),
            ranked == i,
            max_score == max_score_of(records@.take(i as int)),
        decreases records.len() - i,
    {
        let located = &records[i];
        let candidate_duplicate = contains_text(&seen, &located.value.candidate_id);
        assert(candidate_duplicate == exists|j: int| 0 <= j < i && #[trigger] records@[j].value.candidate_id@ == records@[i as int].value.candidate_id@) by {
            if candidate_duplicate {
                let k = choose|k: int| 0 <= k < seen@.len() && (#[trigger] seen@[k])@ == located.value.candidate_id@;
                assert(records@[k].value.candidate_id@ == records@[i as int].value.candidate_id@);
            }
            if exists|j: int| 0 <= j < i && #[trigger] records@[j].value.candidate_id@ == records@[i as int].value.candidate_id@ {
                let j = choose|j: int| 0 <= j < i && #[trigger] records@[j].value.candidate_id@ == records@[i as int].value.candidate_id@;
                assert(seen@[j]@ == records@[j].value.candidate_id@);
            }
        }
        let rank_duplicate = contains_rank(&ranks, located.value.rank);
        assert(rank_duplicate == exists|j: int| 0 <= j < i && #[trigger] records@[j].value.rank == records@[i as int].value.rank) by {
            if rank_duplicate {
                let k = choose|k: int| 0 <= k < ranks@.len() && ranks@[k] == located.value.rank;
                assert(records@[k].value.rank == ranks@[k]);
            }
            if exists|j: int| 0 <= j < i && #[trigger] records@[j].value.rank == records@[i as int].value.rank {
                let j = choose|j: int| 0 <= j < i && #[trigger] records@[j].value.rank == records@[i as int].value.rank;
                assert(ranks@[j] == records@[j].value.rank);
            }
        }
        match check_ranked_record(located, &run_id, rank_duplicate, candidate_duplicate) {
            Ok(()) => {},
            Err(e) => {
                assert(ranked_error_at(records@, i as int) is Some);
                return Err(e);
            },
        }
        assert(records@.take(i + 1).drop_last() =~= records@.take(i as int));
        if i == 0 {
            run_id = Some(located.value.run_id.clone());
        }
        seen.push(located.value.candidate_id.clone());
        ranks.push(located.value.rank);
        if located.value.score > max_score {
            max_score = located.value.score;
        }
        ranked = ranked + 1;
        i = i + 1;
    }
    assert(records@.take(records@.len() as int) =~= records@);
    let n = records.len();
    let mut k: usize = 0;
    let mut within = true;
    while k < n
        invariant
            0 <= k <= n,
            n == records@.len(),
            ranks@.len() == n,
            forall|q: int| 0 <= q < n ==> #[trigger] ranks@[q] == records@[q].value.rank,
            within == forall|q: int| 0 <= q < k ==> #[trigger] records@[q].value.rank <= n,
        decreases n - k,
    {
        if ranks[k] as u64 > n as u64 {
            within = false;
        }
        k = k + 1;
    }
    proof {
        let rs = ranks_of(records@);
        assert forall|a: int, b: int| 0 <= a < rs.len() && 0 <= b < rs.len() && a != b implies rs[a] != rs[b] by {
            if a < b {
                assert(ranked_error_at(records@, b) is None);
                if records@[a].value.rank == records@[b].value.rank {
                    assert(exists|j: int| 0 <= j < b && #[trigger] records@[j].value.rank == records@[b].value.rank);
                }
            } else {
                assert(ranked_error_at(records@, a) is None);
                if records@[a].value.rank == records@[b].value.rank {
                    assert(exists|j: int| 0 <= j < a && #[trigger] records@[j].value.rank == records@[a].value.rank);
                }
            }
        }
        assert forall|q: int| 0 <= q < records@.len() implies 1 <= #[trigger] records@[q].value.rank by {
            assert(ranked_error_at(records@, q) is None);
        }
        lemma_ranks_sequence(records@);
    }
    if !within {
        return Err(ModelError::validation("BW-RANK-SEQUENCE", owned("rank 必须是从 1 开始的连续编号")));
    }
    Ok(V32LifecycleSummary { graph_count: ranked, ranked_count: ranked, max_score })
}

} // verus!

verus! {

/// The node ids of a template are distinct and each edge runs between two of its nodes.
pub open spec fn template_well_formed(
    nodes: Seq<(Seq<char>, V32LifecycleNodeKind, Seq<char>, V32LifetimeRole)>,
    edges: Seq<(Seq<char>, Seq<char>, V32LifecycleEdgeKind, Seq<char>)>,
) -> bool {
    &&& nodes.len() > 0 && edges.len() > 0
    &&& forall|i: int, j: int| 0 <= i < j < nodes.len() ==> (#[trigger] nodes[i]).0 != (#[trigger] nodes[j]).0
    &&& forall|k: int|
        0 <= k < edges.len() ==> (exists|i: int| 0 <= i < nodes.len() && nodes[i].0 == (#[trigger] edges[k]).0)
            && (exists|j: int| 0 <= j < nodes.len() && nodes[j].0 == edges[k].1)
}

/// Every lifecycle template is well formed: its node ids are distinct and each edge runs
/// between two of its nodes. The template of a retained borrowed callback has four nodes and
/// four edges, and a graph of it scores 45 when it needs dynamic validation.
pub proof fn law_template_graphs_are_well_formed(p: V32PatternFamily, api: Seq<char>, ev: Seq<char>)
    ensures
        template_well_formed(template_nodes(p, api), template_edges(p, ev)),
        p == V32PatternFamily::RetainedBorrowedCallback ==> template_nodes(p, api).len() == 4 && template_edges(p, ev).len()
            == 4 && breakdown_total(spec_breakdown(template_features(p), V32CandidateConfidence::NeedsDynamicValidation)) == 45,
{
    reveal_strlit("n1");
    reveal_strlit("n2");
    reveal_strlit("n3");
    reveal_strlit("n4");
    let nodes = template_nodes(p, api);
    let edges = template_edges(p, ev);
    assert("n1"@ != "n2"@ && "n1"@ != "n3"@ && "n1"@ != "n4"@ && "n2"@ != "n3"@ && "n2"@ != "n4"@ && "n3"@ != "n4"@) by {
        assert("n1"@[1] != "n2"@[1] && "n1"@[1] != "n3"@[1] && "n1"@[1] != "n4"@[1]);
        assert("n2"@[1] != "n3"@[1] && "n2"@[1] != "n4"@[1] && "n3"@[1] != "n4"@[1]);
    }
    assert forall|k: int| 0 <= k < edges.len() implies (exists|i: int| 0 <= i < nodes.len() && nodes[i].0 == (#[trigger] edges[k]).0)
        && (exists|j: int| 0 <= j < nodes.len() && nodes[j].0 == edges[k].1) by {
        assert(nodes[0].0 == "n1"@ && nodes[1].0 == "n2"@);
        if nodes.len() > 2 {
            assert(nodes[2].0 == "n3"@);
        }
        if nodes.len() > 3 {
            assert(nodes[3].0 == "n4"@);
        }
    }
}

/// The lifecycle graph built for a candidate (whose nodes, edges and risk features are those
/// of its pattern's template, as `lifecycle_graph_from_candidate` ensures) is well formed: it has
/// nodes and edges, its node ids are distinct and each edge runs between two of its nodes. The
/// graph of a retained borrowed callback has four nodes and four edges, and scores 45 when it
/// needs dynamic validation.
pub proof fn law_candidate_graph_is_well_formed(candidate: V32CandidateRecord, g: V32LifecycleGraph)
    requires
        g.nodes@.map_values(|n: V32LifecycleNode| node_parts(n)) == template_nodes(
            candidate.pattern_family,
            api_label_of(candidate.api_path),
        ),
        g.edges@.map_values(|e: V32LifecycleEdge| edge_parts(e)) == template_edges(
            candidate.pattern_family,
            first_evidence_text(candidate.evidence_refs@),
        ),
        g.risk_features == template_features(candidate.pattern_family),
    ensures
        g.nodes@.len() > 0,
        g.edges@.len() > 0,
        forall|i: int, j: int|
            0 <= i < j < g.nodes@.len() ==> (#[trigger] g.nodes@[i]).node_id@ != (#[trigger] g.nodes@[j]).node_id@,
        forall|k: int|
            0 <= k < g.edges@.len() ==> (exists|i: int| 0 <= i < g.nodes@.len() && g.nodes@[i].node_id@ == (#[trigger] g.edges@[k]).from@)
                && (exists|j: int| 0 <= j < g.nodes@.len() && g.nodes@[j].node_id@ == g.edges@[k].to@),
        candidate.pattern_family == V32PatternFamily::RetainedBorrowedCallback ==> g.nodes@.len() == 4 && g.edges@.len() == 4
            && breakdown_total(spec_breakdown(g.risk_features, V32CandidateConfidence::NeedsDynamicValidation)) == 45,
{
    let p = candidate.pattern_family;
    let api = api_label_of(candidate.api_path);
    let ev = first_evidence_text(candidate.evidence_refs@);
    law_template_graphs_are_well_formed(p, api, ev);
    let nodes = template_nodes(p, api);
    let edges = template_edges(p, ev);
    let gn = g.nodes@.map_values(|n: V32LifecycleNode| node_parts(n));
    let ge = g.edges@.map_values(|e: V32LifecycleEdge| edge_parts(e));
    assert(gn.len() == g.nodes@.len());
    assert(ge.len() == g.edges@.len());
    assert forall|i: int, j: int| 0 <= i < j < g.nodes@.len() implies (#[trigger] g.nodes@[i]).node_id@ != (#[trigger] g.nodes@[
        j
    ]).node_id@ by {
        assert(gn[i].0 == g.nodes@[i].node_id@ && gn[j].0 == g.nodes@[j].node_id@);
        assert(nodes[i].0 != nodes[j].0);
    }
    assert forall|k: int| 0 <= k < g.edges@.len() implies (exists|i: int|
        0 <= i < g.nodes@.len() && g.nodes@[i].node_id@ == (#[trigger] g.edges@[k]).from@) && (exists|j: int|
        0 <= j < g.nodes@.len() && g.nodes@[j].node_id@ == g.edges@[k].to@) by {
        assert(ge[k] == edges[k]);
        assert(exists|i: int| 0 <= i < nodes.len() && nodes[i].0 == edges[k].0);
        assert(exists|j: int| 0 <= j < nodes.len() && nodes[j].0 == edges[k].1);
        let i = choose|i: int| 0 <= i < nodes.len() && nodes[i].0 == edges[k].0;
        let j = choose|j: int| 0 <= j < nodes.len() && nodes[j].0 == edges[k].1;
        assert(gn[i] == nodes[i] && gn[j] == nodes[j]);
        assert(g.nodes@[i].node_id@ == g.edges@[k].from@);
        assert(g.nodes@[j].node_id@ == g.edges@[k].to@);
    }
}

/// The graph has an edge of the kind.
pub open spec fn graph_has_edge(g: V32LifecycleGraph, k: V32LifecycleEdgeKind) -> bool {
    exists|i: int| 0 <= i < g.edges@.len() && (#[trigger] g.edges@[i]).edge_kind == k
}

/// The graph has a node of the kind.
pub open spec fn graph_has_node(g: V32LifecycleGraph, k: V32LifecycleNodeKind) -> bool {
    exists|i: int| 0 <= i < g.nodes@.len() && (#[trigger] g.nodes@[i]).node_kind == k
}

/// The graph has a node with the lifetime role.
pub open spec fn graph_has_role(g: V32LifecycleGraph, r: V32LifetimeRole) -> bool {
    exists|i: int| 0 <= i < g.nodes@.len() && (#[trigger] g.nodes@[i]).lifetime_role == r
}

/// The risk features of a candidate's graph are read off the graph itself: foreign retention
/// without an owned anchor exactly when the foreign side retains (a `ForeignRetains` edge) a
/// borrowed object, no object is owned and no unregistration path exists; a cross-language
/// alias exactly when a foreign API is a node; an opaque handle without owner exactly when an
/// opaque handle is a node; a missing unregistration before drop exactly when the foreign side
/// invokes the callback and no unregistration path exists; and a callback retained across drop
/// exactly when the foreign side invokes it and the Rust object may be dropped.
pub proof fn law_candidate_graph_risks_follow_its_shape(candidate: V32CandidateRecord, g: V32LifecycleGraph)
    requires
        g.nodes@.map_values(|n: V32LifecycleNode| node_parts(n)) == template_nodes(
            candidate.pattern_family,
            api_label_of(candidate.api_path),
        ),
        g.edges@.map_values(|e: V32LifecycleEdge| edge_parts(e)) == template_edges(
            candidate.pattern_family,
            first_evidence_text(candidate.evidence_refs@),
        ),
        g.risk_features == template_features(candidate.pattern_family),
    ensures
        g.risk_features.foreign_retention_without_owned_anchor <==> (graph_has_edge(g, V32LifecycleEdgeKind::ForeignRetains)
            && graph_has_role(g, V32LifetimeRole::Borrowed) && !graph_has_role(g, V32LifetimeRole::Owned)
            && !graph_has_edge(g, V32LifecycleEdgeKind::UnregisterPath)),
        g.risk_features.cross_language_alias <==> graph_has_node(g, V32LifecycleNodeKind::ForeignApi),
        g.risk_features.opaque_handle_without_owner <==> graph_has_node(g, V32LifecycleNodeKind::OpaqueHandle),
        g.risk_features.missing_unregister_before_drop <==> (graph_has_edge(g, V32LifecycleEdgeKind::ForeignInvokes)
            && !graph_has_edge(g, V32LifecycleEdgeKind::UnregisterPath)),
        g.risk_features.callback_retained_across_drop <==> (graph_has_edge(g, V32LifecycleEdgeKind::ForeignInvokes)
            && graph_has_edge(g, V32LifecycleEdgeKind::DropRustObject)),
{
    let p = candidate.pattern_family;
    let nodes = template_nodes(p, api_label_of(candidate.api_path));
    let edges = template_edges(p, first_evidence_text(candidate.evidence_refs@));
    let gn = g.nodes@.map_values(|n: V32LifecycleNode| node_parts(n));
    let ge = g.edges@.map_values(|e: V32LifecycleEdge| edge_parts(e));
    assert(g.nodes@.len() == nodes.len());
    assert(g.edges@.len() == edges.len());
    assert forall|i: int| 0 <= i < g.nodes@.len() implies (#[trigger] g.nodes@[i]).node_kind == nodes[i].1
        && g.nodes@[i].lifetime_role == nodes[i].3 by {
        assert(gn[i] == nodes[i]);
    }
    assert forall|i: int| 0 <= i < g.edges@.len() implies (#[trigger] g.edges@[i]).edge_kind == edges[i].2 by {
        assert(ge[i] == edges[i]);
    }
    if g.nodes@.len() > 0 {
        let _ = g.nodes@[0];
    }
    if g.nodes@.len() > 1 {
        let _ = g.nodes@[1];
    }
    if g.nodes@.len() > 2 {
        let _ = g.nodes@[2];
    }
    if g.nodes@.len() > 3 {
        let _ = g.nodes@[3];
    }
    if g.edges@.len() > 0 {
        let _ = g.edges@[0];
    }
    if g.edges@.len() > 1 {
        let _ = g.edges@[1];
    }
    if g.edges@.len() > 2 {
        let _ = g.edges@[2];
    }
    if g.edges@.len() > 3 {
        let _ = g.edges@[3];
    }
}

} // verus!
