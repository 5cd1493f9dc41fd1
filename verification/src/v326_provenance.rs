//! Checking a lifecycle fact that claims a static artifact as its origin against the static
//! facts of that artifact: the fact must be read off one of them, and that static fact must be
//! reachable from the candidate's anchors.

use vstd::prelude::*;

use crate::boundary_index::V32BoundaryEvidenceKind;
use crate::candidate::V32CandidateRecord;
use crate::id::SiteId;
use crate::lifecycle_v326::{V326LifecycleFactOrigin, V326LifecycleFactProvenance, V326LifecycleFactRecord, V326SourceRef};
use crate::static_fact::{
    spec_is_authoritative_lifecycle_binding, RawPointerTransferKind, RegistrationRole, StaticArtifactIdentity,
    StaticFact, StaticFactEnvelope,
};
use crate::checks::contains_text;
use crate::text::{clone_texts, starts_with, text_views, trim_text, trimmed};
use crate::v326_facts::has_prefix;
use crate::v326_source_api::{
    eq_ignore_ascii_case, normalize_static_path, normalized_path, source_alias, source_api_alias,
    source_api_scope_from_path, source_api_symbol_tails, source_scope, symbol_tail, text_eq_ignore_ascii_case,
};
use crate::v326_static_fields::{lifecycle_static_fact_fields, opt_text, spec_static_fact_fields};

verus! {

/// The API or symbol that a static fact names, for the kinds that name one.
pub open spec fn api_or_symbol(p: StaticFact) -> Option<Seq<char>> {
    match p {
        StaticFact::ObjectSite(f) => Some(f.object_type_name@),
        StaticFact::CallbackSite(f) => Some(f.def_path@),
        StaticFact::RegistrationSite(f) => Some(f.api_id@),
        StaticFact::ExternalCallSite(f) => Some(f.api_id@),
        StaticFact::ReturnedBorrowRelation(f) => Some(f.api_id@),
        StaticFact::PersistedReturnedBorrow(f) => Some(f.api_id@),
        StaticFact::ReturnedBorrowInvalidationOrder(f) => Some(f.api_id@),
        StaticFact::ExternalBufferBinding(f) => Some(f.api_id@),
        StaticFact::AtomicOrdering(f) => Some(f.api_id@),
        StaticFact::ObjectBindingGap(f) => Some(f.api_id@),
        StaticFact::ObjectFlow(f) => Some(f.api_id@),
        StaticFact::CallbackReleaseUseOrder(f) => Some(f.api_id@),
        _ => None,
    }
}

/// The API or symbol that a static fact names, if its kind names one.
pub fn static_fact_api_or_symbol(p: &StaticFact) -> (r: Option<String>)
    ensures
        opt_text(r) == api_or_symbol(*p),
{
    match p {
        StaticFact::ObjectSite(f) => Some(f.object_type_name.clone()),
        StaticFact::CallbackSite(f) => Some(f.def_path.clone()),
        StaticFact::RegistrationSite(f) => Some(f.api_id.clone()),
        StaticFact::ExternalCallSite(f) => Some(f.api_id.clone()),
        StaticFact::ReturnedBorrowRelation(f) => Some(f.api_id.clone()),
        StaticFact::PersistedReturnedBorrow(f) => Some(f.api_id.clone()),
        StaticFact::ReturnedBorrowInvalidationOrder(f) => Some(f.api_id.clone()),
        StaticFact::ExternalBufferBinding(f) => Some(f.api_id.clone()),
        StaticFact::AtomicOrdering(f) => Some(f.api_id.clone()),
        StaticFact::ObjectBindingGap(f) => Some(f.api_id.clone()),
        StaticFact::ObjectFlow(f) => Some(f.api_id.clone()),
        StaticFact::CallbackReleaseUseOrder(f) => Some(f.api_id.clone()),
        _ => None,
    }
}

/// The optional site id, as a list of at most one text.
pub open spec fn opt_site(s: Option<SiteId>) -> Seq<Seq<char>> {
    match s {
        Some(x) => seq![x.0@],
        None => seq![],
    }
}

/// The site ids a static fact links, in the order the fact lists them.
pub open spec fn site_ids(p: StaticFact) -> Seq<Seq<char>> {
    match p {
        StaticFact::ObjectSite(f) => seq![f.site_id.0@],
        StaticFact::CallbackSite(f) => seq![f.site_id.0@],
        StaticFact::CallbackCapture(f) => seq![f.site_id.0@, f.callback_site_id.0@, f.object_site_id.0@],
        StaticFact::DropSite(f) => seq![f.site_id.0@, f.object_site_id.0@],
        StaticFact::DropPrevention(f) => seq![f.site_id.0@, f.object_site_id.0@],
        StaticFact::CallbackUserDataReconstruction(f) => seq![
            f.site_id.0@,
            f.callback_site_id.0@,
            f.user_data_site_id.0@,
            f.object_site_id.0@,
        ],
        StaticFact::RegistrationSite(f) => opt_site(f.callback_site_id) + opt_site(f.user_data_site_id) + seq![
            f.site_id.0@,
        ],
        StaticFact::RawPointerTransfer(f) => seq![f.site_id.0@, f.user_data_site_id.0@],
        StaticFact::ReleasePathProof(f) => seq![
            f.site_id.0@,
            f.registration_site_id.0@,
            f.release_site_id.0@,
            f.object_site_id.0@,
        ],
        StaticFact::CallbackReleaseUseOrder(f) => seq![
            f.site_id.0@,
            f.registration_site_id.0@,
            f.release_site_id.0@,
            f.use_site_id.0@,
            f.object_site_id.0@,
        ],
        StaticFact::ExternalCallSite(f) => opt_site(f.callback_site_id) + seq![f.site_id.0@],
        StaticFact::ReturnedBorrowRelation(f) => seq![f.site_id.0@, f.source_site_id.0@, f.returned_site_id.0@],
        StaticFact::PersistedReturnedBorrow(f) => seq![
            f.site_id.0@,
            f.source_site_id.0@,
            f.returned_site_id.0@,
            f.storage_site_id.0@,
        ],
        StaticFact::ReturnedBorrowInvalidationOrder(f) => seq![
            f.site_id.0@,
            f.persisted_site_id.0@,
            f.invalidation_site_id.0@,
            f.use_site_id.0@,
        ],
        StaticFact::ExternalBufferBinding(f) => seq![f.site_id.0@, f.source_site_id.0@, f.buffer_site_id.0@],
        StaticFact::AtomicOrdering(f) => seq![f.site_id.0@],
        StaticFact::ObjectBindingGap(f) => seq![f.site_id.0@],
        StaticFact::ObjectFlow(f) => seq![f.site_id.0@, f.from_site_id.0@, f.to_site_id.0@],
        StaticFact::CallbackLifetimeBound(f) => seq![f.site_id.0@],
        StaticFact::RegistrationGuard(f) => seq![f.site_id.0@],
        StaticFact::AllocationOwnership(f) => seq![f.site_id.0@],
        StaticFact::SafeEntryLineage(f) => seq![f.site_id.0@],
        StaticFact::ForeignSymbolBinding(f) => seq![f.site_id.0@],
    }
}

fn ids_push(v: &mut Vec<String>, s: &SiteId)
    ensures
        text_views(final(v)@) == text_views(old(v)@).push(s.0@),
{
    let ghost before = text_views(v@);
    v.push(s.0.clone());
    assert(text_views(v@) =~= before.push(s.0@));
}

fn ids_push_opt(v: &mut Vec<String>, s: &Option<SiteId>)
    ensures
        text_views(final(v)@) == text_views(old(v)@) + opt_site(*s),
{
    let ghost before = text_views(v@);
    match s {
        Some(x) => {
            ids_push(v, x);
        },
        None => {},
    }
    assert(text_views(v@) =~= before + opt_site(*s));
}

/// The site ids a static fact links.
pub fn static_fact_site_ids(p: &StaticFact) -> (r: Vec<String>)
    ensures
        text_views(r@) == site_ids(*p),
{
    let mut v: Vec<String> = Vec::new();
    assert(text_views(v@) =~= seq![]);
    match p {
        StaticFact::ObjectSite(f) => {
            ids_push(&mut v, &f.site_id);
        },
        StaticFact::CallbackSite(f) => {
            ids_push(&mut v, &f.site_id);
        },
        StaticFact::CallbackCapture(f) => {
            ids_push(&mut v, &f.site_id);
            ids_push(&mut v, &f.callback_site_id);
            ids_push(&mut v, &f.object_site_id);
        },
        StaticFact::DropSite(f) => {
            ids_push(&mut v, &f.site_id);
            ids_push(&mut v, &f.object_site_id);
        },
        StaticFact::DropPrevention(f) => {
            ids_push(&mut v, &f.site_id);
            ids_push(&mut v, &f.object_site_id);
        },
        StaticFact::CallbackUserDataReconstruction(f) => {
            ids_push(&mut v, &f.site_id);
            ids_push(&mut v, &f.callback_site_id);
            ids_push(&mut v, &f.user_data_site_id);
            ids_push(&mut v, &f.object_site_id);
        },
        StaticFact::RegistrationSite(f) => {
            ids_push_opt(&mut v, &f.callback_site_id);
            ids_push_opt(&mut v, &f.user_data_site_id);
            ids_push(&mut v, &f.site_id);
        },
        StaticFact::RawPointerTransfer(f) => {
            ids_push(&mut v, &f.site_id);
            ids_push(&mut v, &f.user_data_site_id);
        },
        StaticFact::ReleasePathProof(f) => {
            ids_push(&mut v, &f.site_id);
            ids_push(&mut v, &f.registration_site_id);
            ids_push(&mut v, &f.release_site_id);
            ids_push(&mut v, &f.object_site_id);
        },
        StaticFact::CallbackReleaseUseOrder(f) => {
            ids_push(&mut v, &f.site_id);
            ids_push(&mut v, &f.registration_site_id);
            ids_push(&mut v, &f.release_site_id);
            ids_push(&mut v, &f.use_site_id);
            ids_push(&mut v, &f.object_site_id);
        },
        StaticFact::ExternalCallSite(f) => {
            ids_push_opt(&mut v, &f.callback_site_id);
            ids_push(&mut v, &f.site_id);
        },
        StaticFact::ReturnedBorrowRelation(f) => {
            ids_push(&mut v, &f.site_id);
            ids_push(&mut v, &f.source_site_id);
            ids_push(&mut v, &f.returned_site_id);
        },
        StaticFact::PersistedReturnedBorrow(f) => {
            ids_push(&mut v, &f.site_id);
            ids_push(&mut v, &f.source_site_id);
            ids_push(&mut v, &f.returned_site_id);
            ids_push(&mut v, &f.storage_site_id);
        },
        StaticFact::ReturnedBorrowInvalidationOrder(f) => {
            ids_push(&mut v, &f.site_id);
            ids_push(&mut v, &f.persisted_site_id);
            ids_push(&mut v, &f.invalidation_site_id);
            ids_push(&mut v, &f.use_site_id);
        },
        StaticFact::ExternalBufferBinding(f) => {
            ids_push(&mut v, &f.site_id);
            ids_push(&mut v, &f.source_site_id);
            ids_push(&mut v, &f.buffer_site_id);
        },
        StaticFact::AtomicOrdering(f) => {
            ids_push(&mut v, &f.site_id);
        },
        StaticFact::ObjectBindingGap(f) => {
            ids_push(&mut v, &f.site_id);
        },
        StaticFact::ObjectFlow(f) => {
            ids_push(&mut v, &f.site_id);
            ids_push(&mut v, &f.from_site_id);
            ids_push(&mut v, &f.to_site_id);
        },
        StaticFact::CallbackLifetimeBound(f) => {
            ids_push(&mut v, &f.site_id);
        },
        StaticFact::RegistrationGuard(f) => {
            ids_push(&mut v, &f.site_id);
        },
        StaticFact::AllocationOwnership(f) => {
            ids_push(&mut v, &f.site_id);
        },
        StaticFact::SafeEntryLineage(f) => {
            ids_push(&mut v, &f.site_id);
        },
        StaticFact::ForeignSymbolBinding(f) => {
            ids_push(&mut v, &f.site_id);
        },
    }
    v
}

} // verus!

verus! {

/// The source-API alias that a symbol path gives in a module scope, if it ends in a symbol.
pub open spec fn alias_of(scope: Seq<char>, symbol_path: Option<Seq<char>>) -> Seq<Seq<char>> {
    match symbol_path {
        Some(sp) => match symbol_tail(sp) {
            Some(t) => seq![source_alias(scope, t)],
            None => seq![],
        },
        None => seq![],
    }
}

/// The source-API aliases of a static fact: in the module scope of its source path, those of
/// its source symbol path and of the API or symbol it names.
pub open spec fn source_aliases(e: StaticFactEnvelope) -> Seq<Seq<char>> {
    match e.source_ref {
        Some(r) => match source_scope(r.path@) {
            Some(scope) => alias_of(scope, opt_text(r.symbol_path)) + alias_of(scope, api_or_symbol(e.payload)),
            None => seq![],
        },
        None => seq![],
    }
}

fn push_alias(v: &mut Vec<String>, scope: &String, symbol_path: &Option<String>)
    ensures
        text_views(final(v)@) == text_views(old(v)@) + alias_of(scope@, opt_text(*symbol_path)),
{
    let ghost before = text_views(v@);
    match symbol_path {
        Some(sp) => match source_api_symbol_tails(sp.as_str()) {
            Some(t) => {
                v.push(source_api_alias(scope.as_str(), t.as_str()));
                assert(text_views(v@) =~= before + alias_of(scope@, opt_text(*symbol_path)));
            },
            None => {
                assert(text_views(v@) =~= before + alias_of(scope@, opt_text(*symbol_path)));
            },
        },
        None => {
            assert(text_views(v@) =~= before + alias_of(scope@, opt_text(*symbol_path)));
        },
    }
}

/// The source-API aliases of a static fact.
pub fn static_fact_source_api_aliases(e: &StaticFactEnvelope) -> (r: Vec<String>)
    ensures
        text_views(r@) == source_aliases(*e),
{
    let mut v: Vec<String> = Vec::new();
    match &e.source_ref {
        Some(r) => match source_api_scope_from_path(r.path.as_str()) {
            Some(scope) => {
                assert(text_views(v@) =~= seq![]);
                push_alias(&mut v, &scope, &r.symbol_path);
                let api = static_fact_api_or_symbol(&e.payload);
                push_alias(&mut v, &scope, &api);
                assert(text_views(v@) =~= source_aliases(*e));
            },
            None => {
                assert(text_views(v@) =~= source_aliases(*e));
            },
        },
        None => {
            assert(text_views(v@) =~= source_aliases(*e));
        },
    }
    v
}

/// The source reference of an authoritative static fact, as a lifecycle fact carries it: its
/// normalized path, its line span, and its symbol path or else the API or symbol it names.
pub fn static_fact_source_ref(e: &StaticFactEnvelope) -> (r: V326SourceRef)
    requires
        e.source_ref is Some,
    ensures
        r.path@ == normalized_path(e.source_ref->0.path@),
        r.line_start == Some(e.source_ref->0.line_start),
        r.line_end == Some(e.source_ref->0.line_end),
        opt_text(r.symbol_path) == match e.source_ref->0.symbol_path {
            Some(x) => Some(x@),
            None => api_or_symbol(e.payload),
        },
        r.text_sha256 is None,
{
    let s = e.source_ref.as_ref().unwrap();
    let symbol_path = match &s.symbol_path {
        Some(x) => Some(x.clone()),
        None => static_fact_api_or_symbol(&e.payload),
    };
    V326SourceRef {
        path: normalize_static_path(s.path.as_str()),
        line_start: Some(s.line_start),
        line_end: Some(s.line_end),
        symbol_path,
        text_sha256: None,
    }
}

/// The two artifact identities are the same, field by field.
pub open spec fn same_artifact(a: Option<StaticArtifactIdentity>, b: Option<StaticArtifactIdentity>) -> bool {
    match (a, b) {
        (Some(x), Some(y)) => x.crate_id@ == y.crate_id@ && x.package_name@ == y.package_name@
            && x.package_version@ == y.package_version@ && x.target@ == y.target@,
        (None, None) => true,
        _ => false,
    }
}

fn artifacts_equal(a: &Option<StaticArtifactIdentity>, b: &Option<StaticArtifactIdentity>) -> (r: bool)
    ensures
        r == same_artifact(*a, *b),
{
    match (a, b) {
        (Some(x), Some(y)) => x.crate_id == y.crate_id && x.package_name == y.package_name && x.package_version
            == y.package_version && x.target == y.target,
        (None, None) => true,
        _ => false,
    }
}

/// Two static facts come from the same static artifact: the same producer, build and artifact.
pub open spec fn same_static_artifact(l: StaticFactEnvelope, r: StaticFactEnvelope) -> bool {
    l.producer@ == r.producer@ && l.build_id.0@ == r.build_id.0@ && same_artifact(l.artifact, r.artifact)
}

/// Whether two static facts come from the same static artifact.
pub fn static_fact_same_static_artifact(l: &StaticFactEnvelope, r: &StaticFactEnvelope) -> (b: bool)
    ensures
        b == same_static_artifact(*l, *r),
{
    l.producer == r.producer && l.build_id.0 == r.build_id.0 && artifacts_equal(&l.artifact, &r.artifact)
}

/// A static fact that is an authoritative lifecycle binding for the candidate's crate.
pub open spec fn matches_candidate_artifact(e: StaticFactEnvelope, c: V32CandidateRecord) -> bool {
    spec_is_authoritative_lifecycle_binding(e) && (e.artifact matches Some(a) && a.crate_id@ == c.crate_id@)
}

/// Whether the static fact is an authoritative lifecycle binding for the candidate's crate.
pub fn static_fact_matches_candidate_artifact(e: &StaticFactEnvelope, c: &V32CandidateRecord) -> (b: bool)
    ensures
        b == matches_candidate_artifact(*e, *c),
{
    e.is_authoritative_lifecycle_binding() && match &e.artifact {
        Some(a) => a.crate_id == c.crate_id,
        None => false,
    }
}

/// The candidate has a source span with both of its lines.
pub open spec fn has_source_span(c: V32CandidateRecord) -> bool {
    exists|i: int|
        0 <= i < c.evidence_refs@.len() && (#[trigger] c.evidence_refs@[i]).kind == V32BoundaryEvidenceKind::SourceSpan
            && c.evidence_refs@[i].line_start is Some && c.evidence_refs@[i].line_end is Some
}

/// Whether the candidate has a source span with both of its lines.
pub fn candidate_has_source_span(c: &V32CandidateRecord) -> (b: bool)
    ensures
        b == has_source_span(*c),
{
    let mut i: usize = 0;
    while i < c.evidence_refs.len()
        invariant
            0 <= i <= c.evidence_refs@.len(),
            forall|k: int|
                0 <= k < i ==> !((#[trigger] c.evidence_refs@[k]).kind == V32BoundaryEvidenceKind::SourceSpan
                    && c.evidence_refs@[k].line_start is Some && c.evidence_refs@[k].line_end is Some),
        decreases c.evidence_refs.len() - i,
    {
        let r = &c.evidence_refs[i];
        let span = match r.kind {
            V32BoundaryEvidenceKind::SourceSpan => true,
            _ => false,
        };
        if span && r.line_start.is_some() && r.line_end.is_some() {
            return true;
        }
        i = i + 1;
    }
    false
}

/// The smaller and the larger of two line numbers.
pub open spec fn ordered(a: u64, b: u64) -> (u64, u64) {
    if a <= b {
        (a, b)
    } else {
        (b, a)
    }
}

/// The smaller and the larger of two line numbers.
pub fn ordered_range(start: u64, end: u64) -> (r: (u64, u64))
    ensures
        r == ordered(start, end),
{
    if start <= end {
        (start, end)
    } else {
        (end, start)
    }
}

/// A source range meets a candidate span widened by three lines on each side, the widening
/// saturating at the ends of the `u64` range.
pub open spec fn range_meets_span(s0: u64, s1: u64, c0: u64, c1: u64) -> bool {
    let (a, b) = ordered(s0, s1);
    let (x, y) = ordered(c0, c1);
    let hi = if y + 3 > u64::MAX { u64::MAX as int } else { y + 3 };
    let lo = if x < 3 { 0 } else { x - 3 };
    a <= hi && b >= lo
}

/// Whether a source range meets a candidate span widened by three lines on each side.
pub fn source_range_matches_candidate_span(s0: u64, s1: u64, c0: u64, c1: u64) -> (b: bool)
    ensures
        b == range_meets_span(s0, s1, c0, c1),
{
    let (a, b) = ordered_range(s0, s1);
    let (x, y) = ordered_range(c0, c1);
    a <= y.saturating_add(3) && b >= x.saturating_sub(3)
}

} // verus!

verus! {

/// One of the candidate's source spans has the static fact's path and meets its lines.
pub open spec fn span_matches(e: StaticFactEnvelope, c: V32CandidateRecord) -> bool {
    match e.source_ref {
        Some(r) => exists|i: int|
            0 <= i < c.evidence_refs@.len() && {
                let x = #[trigger] c.evidence_refs@[i];
                &&& x.kind == V32BoundaryEvidenceKind::SourceSpan
                &&& normalized_path(x.path@) == normalized_path(r.path@)
                &&& x.line_start matches Some(c0) && x.line_end matches Some(c1) && range_meets_span(
                    r.line_start,
                    r.line_end,
                    c0,
                    c1,
                )
            },
        None => false,
    }
}

/// The candidate's trimmed API path is a source-API alias of the static fact, compared without
/// ASCII case.
pub open spec fn source_api_matches(c: V32CandidateRecord, e: StaticFactEnvelope) -> bool {
    match c.api_path {
        Some(p) => {
            let t = trimmed(p@);
            &&& has_prefix(trimmed(t), "source_api::"@)
            &&& exists|k: int| 0 <= k < source_aliases(e).len() && eq_ignore_ascii_case(t, #[trigger] source_aliases(e)[k])
        },
        None => false,
    }
}

/// Where the candidate has no source span, its trimmed API path is the API or symbol the static
/// fact names, trimmed and compared without ASCII case.
pub open spec fn api_fallback_matches(c: V32CandidateRecord, e: StaticFactEnvelope) -> bool {
    !has_source_span(c) && (c.api_path matches Some(p) && (api_or_symbol(e.payload) matches Some(f)
        && eq_ignore_ascii_case(trimmed(p@), trimmed(f))))
}

/// A static fact anchors the candidate: it is an authoritative binding for the candidate's
/// crate and meets one of the candidate's source spans, matches its source-API alias, or, where
/// the candidate has no source span, names its API.
pub open spec fn is_candidate_anchor(e: StaticFactEnvelope, c: V32CandidateRecord) -> bool {
    matches_candidate_artifact(e, c) && (span_matches(e, c) || source_api_matches(c, e) || api_fallback_matches(
        c,
        e,
    ))
}

fn static_span_matches(e: &StaticFactEnvelope, c: &V32CandidateRecord) -> (b: bool)
    ensures
        b == span_matches(*e, *c),
{
    let r = match &e.source_ref {
        Some(r) => r,
        None => {
            return false;
        },
    };
    let path = normalize_static_path(r.path.as_str());
    let mut i: usize = 0;
    while i < c.evidence_refs.len()
        invariant
            e.source_ref == Some(*r),
            path@ == normalized_path(r.path@),
            0 <= i <= c.evidence_refs@.len(),
            forall|k: int|
                0 <= k < i ==> !({
                    let x = #[trigger] c.evidence_refs@[k];
                    &&& x.kind == V32BoundaryEvidenceKind::SourceSpan
                    &&& normalized_path(x.path@) == normalized_path(r.path@)
                    &&& x.line_start matches Some(c0) && x.line_end matches Some(c1) && range_meets_span(
                        r.line_start,
                        r.line_end,
                        c0,
                        c1,
                    )
                }),
        decreases c.evidence_refs.len() - i,
    {
        let x = &c.evidence_refs[i];
        let span = match x.kind {
            V32BoundaryEvidenceKind::SourceSpan => true,
            _ => false,
        };
        if span && normalize_static_path(x.path.as_str()) == path {
            match (x.line_start, x.line_end) {
                (Some(c0), Some(c1)) => {
                    if source_range_matches_candidate_span(r.line_start, r.line_end, c0, c1) {
                        return true;
                    }
                },
                _ => {},
            }
        }
        i = i + 1;
    }
    false
}

/// Whether the candidate's trimmed API path is a source-API alias of the static fact.
pub fn candidate_source_api_matches_static_fact(c: &V32CandidateRecord, e: &StaticFactEnvelope) -> (b: bool)
    ensures
        b == source_api_matches(*c, *e),
{
    let p = match &c.api_path {
        Some(p) => p,
        None => {
            return false;
        },
    };
    let t = trim_text(p.as_str());
    let tt = trim_text(t.as_str());
    proof {
        reveal_strlit("source_api::");
    }
    if !starts_with(tt.as_str(), "source_api::") {
        return false;
    }
    assert(has_prefix(trimmed(t@), "source_api::"@));
    let aliases = static_fact_source_api_aliases(e);
    let ghost av = text_views(aliases@);
    let mut k: usize = 0;
    while k < aliases.len()
        invariant
            av == text_views(aliases@),
            av == source_aliases(*e),
            c.api_path == Some(*p),
            t@ == trimmed(p@),
            has_prefix(trimmed(t@), "source_api::"@),
            0 <= k <= av.len(),
            forall|q: int| 0 <= q < k ==> !eq_ignore_ascii_case(t@, #[trigger] av[q]),
        decreases aliases.len() - k,
    {
        if text_eq_ignore_ascii_case(t.as_str(), aliases[k].as_str()) {
            assert(eq_ignore_ascii_case(t@, av[k as int]));
            return true;
        }
        k = k + 1;
    }
    false
}

/// Whether the static fact anchors the candidate.
pub fn static_fact_is_candidate_anchor(e: &StaticFactEnvelope, c: &V32CandidateRecord) -> (b: bool)
    ensures
        b == is_candidate_anchor(*e, *c),
{
    if !static_fact_matches_candidate_artifact(e, c) {
        return false;
    }
    if static_span_matches(e, c) || candidate_source_api_matches_static_fact(c, e) {
        return true;
    }
    if candidate_has_source_span(c) {
        return false;
    }
    match (&c.api_path, static_fact_api_or_symbol(&e.payload)) {
        (Some(p), Some(f)) => {
            let tp = trim_text(p.as_str());
            let tf = trim_text(f.as_str());
            text_eq_ignore_ascii_case(tp.as_str(), tf.as_str())
        },
        _ => false,
    }
}

} // verus!

verus! {

/// A static fact of the same artifact as `e` that links one of the sites.
pub open spec fn linked(f: StaticFactEnvelope, e: StaticFactEnvelope, sites: Set<Seq<char>>) -> bool {
    same_static_artifact(f, e) && exists|k: int|
        0 <= k < site_ids(f.payload).len() && sites.contains(#[trigger] site_ids(f.payload)[k])
}

/// The record ids of the first `n` static facts that are linked.
pub open spec fn hop_records(
    facts: Seq<StaticFactEnvelope>,
    e: StaticFactEnvelope,
    sites: Set<Seq<char>>,
    n: int,
) -> Set<Seq<char>> {
    Set::new(
        |x: Seq<char>|
            exists|q: int| 0 <= q < n && linked(#[trigger] facts[q], e, sites) && facts[q].record_id.0@ == x,
    )
}

/// The site ids of the first `n` static facts that are linked.
pub open spec fn hop_sites(
    facts: Seq<StaticFactEnvelope>,
    e: StaticFactEnvelope,
    sites: Set<Seq<char>>,
    n: int,
) -> Set<Seq<char>> {
    Set::new(
        |x: Seq<char>|
            exists|q: int, k: int|
                0 <= q < n && linked(#[trigger] facts[q], e, sites) && 0 <= k < site_ids(facts[q].payload).len()
                    && #[trigger] site_ids(facts[q].payload)[k] == x,
    )
}

/// One of the first `n` static facts is linked and brings a record id that is not reached yet.
pub open spec fn hop_changed(
    facts: Seq<StaticFactEnvelope>,
    e: StaticFactEnvelope,
    records: Set<Seq<char>>,
    sites: Set<Seq<char>>,
    n: int,
) -> bool {
    exists|q: int| 0 <= q < n && linked(#[trigger] facts[q], e, sites) && !records.contains(facts[q].record_id.0@)
}

/// The record ids of the static facts.
pub open spec fn records_of(fs: Seq<StaticFactEnvelope>) -> Set<Seq<char>> {
    Set::new(|x: Seq<char>| exists|i: int| 0 <= i < fs.len() && (#[trigger] fs[i]).record_id.0@ == x)
}

/// The site ids of the static facts.
pub open spec fn sites_of(fs: Seq<StaticFactEnvelope>) -> Set<Seq<char>> {
    Set::new(
        |x: Seq<char>|
            exists|i: int, k: int|
                0 <= i < fs.len() && 0 <= k < site_ids(fs[i].payload).len() && #[trigger] site_ids(
                    fs[i].payload,
                )[k] == x,
    )
}

/// The static fact `e` is reached from the anchors in at most two hops: each hop adds the
/// static facts of `e`'s artifact that link a site reached so far, with their record ids and
/// sites, and the second hop is made only where the first reached a new record id.
pub open spec fn reachable_from_anchors(
    e: StaticFactEnvelope,
    anchors: Seq<StaticFactEnvelope>,
    facts: Seq<StaticFactEnvelope>,
) -> bool {
    let n = facts.len() as int;
    let (r0, s0) = (records_of(anchors), sites_of(anchors));
    let r1 = r0 + hop_records(facts, e, s0, n);
    let s1 = s0 + hop_sites(facts, e, s0, n);
    if hop_changed(facts, e, r0, s0, n) {
        (r1 + hop_records(facts, e, s1, n)).contains(e.record_id.0@)
    } else {
        r1.contains(e.record_id.0@)
    }
}

fn links_site(f: &StaticFactEnvelope, e: &StaticFactEnvelope, sites: &Vec<String>) -> (b: bool)
    ensures
        b == linked(*f, *e, text_views(sites@).to_set()),
{
    if !static_fact_same_static_artifact(f, e) {
        return false;
    }
    let ids = static_fact_site_ids(&f.payload);
    let ghost iv = text_views(ids@);
    let ghost sv = text_views(sites@);
    let mut k: usize = 0;
    while k < ids.len()
        invariant
            iv == text_views(ids@),
            iv == site_ids(f.payload),
            sv == text_views(sites@),
            same_static_artifact(*f, *e),
            0 <= k <= iv.len(),
            forall|q: int| 0 <= q < k ==> !sv.to_set().contains(#[trigger] iv[q]),
        decreases ids.len() - k,
    {
        if contains_text(sites, &ids[k]) {
            let ghost w = choose|w: int| 0 <= w < sites@.len() && (#[trigger] sites@[w])@ == ids@[k as int]@;
            assert(sv[w] == iv[k as int]);
            assert(sv.contains(iv[k as int]));
            assert(sv.to_set().contains(site_ids(f.payload)[k as int]));
            return true;
        }
        assert forall|w: int| 0 <= w < sv.len() implies sv[w] != iv[k as int] by {
            assert(sites@[w]@ == sv[w]);
        }
        k = k + 1;
    }
    false
}

fn push_views(out: &mut Vec<String>, items: &Vec<String>)
    ensures
        text_views(final(out)@) == text_views(old(out)@) + text_views(items@),
{
    let ghost start = text_views(out@);
    let mut i: usize = 0;
    while i < items.len()
        invariant
            0 <= i <= items@.len(),
            text_views(out@) == start + text_views(items@.take(i as int)),
        decreases items.len() - i,
    {
        let ghost before = text_views(out@);
        out.push(items[i].clone());
        assert(text_views(out@) =~= before.push(items@[i as int]@));
        assert(text_views(items@.take(i + 1)) =~= text_views(items@.take(i as int)).push(items@[i as int]@));
        i = i + 1;
    }
    assert(items@.take(items@.len() as int) =~= items@);
}

/// One hop: every static fact of `e`'s artifact that links a site reached before the hop adds
/// its record id and its sites; the result says whether a new record id was reached.
fn reach_hop(
    facts: &[StaticFactEnvelope],
    e: &StaticFactEnvelope,
    records: &mut Vec<String>,
    sites: &mut Vec<String>,
) -> (changed: bool)
    ensures
        text_views(final(records)@).to_set() == text_views(old(records)@).to_set() + hop_records(
            facts@,
            *e,
            text_views(old(sites)@).to_set(),
            facts@.len() as int,
        ),
        text_views(final(sites)@).to_set() == text_views(old(sites)@).to_set() + hop_sites(
            facts@,
            *e,
            text_views(old(sites)@).to_set(),
            facts@.len() as int,
        ),
        changed == hop_changed(
            facts@,
            *e,
            text_views(old(records)@).to_set(),
            text_views(old(sites)@).to_set(),
            facts@.len() as int,
        ),
{
    let snapshot = clone_texts(sites);
    let ghost s0 = text_views(sites@).to_set();
    let ghost r0 = text_views(records@).to_set();
    assert(text_views(snapshot@).to_set() =~= s0);
    let mut changed = false;
    let mut j: usize = 0;
    while j < facts.len()
        invariant
            text_views(snapshot@).to_set() == s0,
            0 <= j <= facts@.len(),
            text_views(records@).to_set() == r0 + hop_records(facts@, *e, s0, j as int),
            text_views(sites@).to_set() == s0 + hop_sites(facts@, *e, s0, j as int),
            changed == hop_changed(facts@, *e, r0, s0, j as int),
        decreases facts.len() - j,
    {
        let f = &facts[j];
        let ghost rb = text_views(records@);
        let ghost sb = text_views(sites@);
        if links_site(f, e, &snapshot) {
            let rid = f.record_id.0.clone();
            if !contains_text(records, &rid) {
                assert(!r0.contains(rid@)) by {
                    if r0.contains(rid@) {
                        assert((r0 + hop_records(facts@, *e, s0, j as int)).contains(rid@));
                        let w = choose|w: int| 0 <= w < rb.len() && rb[w] == rid@;
                        assert(records@[w]@ == rid@);
                    }
                }
                changed = true;
            } else {
                assert(changed == hop_changed(facts@, *e, r0, s0, j + 1)) by {
                    if hop_changed(facts@, *e, r0, s0, j + 1) && !hop_changed(facts@, *e, r0, s0, j as int) {
                        let w = choose|w: int| 0 <= w < records@.len() && (#[trigger] records@[w])@ == rid@;
                        assert(rb[w] == rid@);
                        assert(rb.to_set().contains(rid@));
                        let q = choose|q: int| 0 <= q < j + 1 && linked(#[trigger] facts@[q], *e, s0) && !r0.contains(
                            facts@[q].record_id.0@,
                        );
                        assert(q == j);
                        let q2 = choose|q2: int|
                            0 <= q2 < j && linked(#[trigger] facts@[q2], *e, s0) && facts@[q2].record_id.0@ == rid@;
                        assert(hop_changed(facts@, *e, r0, s0, j as int));
                    }
                }
            }
            records.push(rid);
            let ids = static_fact_site_ids(&f.payload);
            push_views(sites, &ids);
            assert(text_views(records@) =~= rb.push(f.record_id.0@));
            assert(text_views(records@).to_set() =~= r0 + hop_records(facts@, *e, s0, j + 1)) by {
                assert forall|x: Seq<char>| #[trigger] (r0 + hop_records(facts@, *e, s0, j + 1)).contains(x) implies
                    text_views(records@).to_set().contains(x) by {
                    if r0.contains(x) {
                        assert((r0 + hop_records(facts@, *e, s0, j as int)).contains(x));
                        assert(rb.to_set().contains(x));
                        let w = choose|w: int| 0 <= w < rb.len() && rb[w] == x;
                        assert(text_views(records@)[w] == x);
                    } else {
                    let q = choose|q: int| 0 <= q < j + 1 && linked(#[trigger] facts@[q], *e, s0) && facts@[q].record_id.0@ == x;
                    if q < j {
                        assert(hop_records(facts@, *e, s0, j as int).contains(x));
                        assert(rb.to_set().contains(x));
                        let w = choose|w: int| 0 <= w < rb.len() && rb[w] == x;
                        assert(text_views(records@)[w] == x);
                    } else {
                        assert(text_views(records@)[rb.len() as int] == x);
                    }
                    }
                }
                assert forall|x: Seq<char>| #[trigger] text_views(records@).to_set().contains(x) implies
                    (r0 + hop_records(facts@, *e, s0, j + 1)).contains(x) by {
                    let w = choose|w: int| 0 <= w < text_views(records@).len() && text_views(records@)[w] == x;
                    if w < rb.len() {
                        assert(rb[w] == x);
                        assert(rb.to_set().contains(x));
                        if !r0.contains(x) {
                            let q = choose|q: int| 0 <= q < j && linked(#[trigger] facts@[q], *e, s0) && facts@[q].record_id.0@ == x;
                            assert(hop_records(facts@, *e, s0, j + 1).contains(x));
                        }
                    } else {
                        assert(facts@[j as int].record_id.0@ == x);
                        assert(hop_records(facts@, *e, s0, j + 1).contains(x));
                    }
                }
            }
            assert(text_views(sites@).to_set() =~= s0 + hop_sites(facts@, *e, s0, j + 1)) by {
                let iv = site_ids(f.payload);
                assert(text_views(sites@) == sb + iv);
                assert forall|x: Seq<char>| #[trigger] (s0 + hop_sites(facts@, *e, s0, j + 1)).contains(x) implies
                    text_views(sites@).to_set().contains(x) by {
                    if s0.contains(x) {
                        assert((s0 + hop_sites(facts@, *e, s0, j as int)).contains(x));
                        assert(sb.to_set().contains(x));
                        let w = choose|w: int| 0 <= w < sb.len() && sb[w] == x;
                        assert(text_views(sites@)[w] == x);
                    } else {
                    let (q, k) = choose|q: int, k: int|
                        0 <= q < j + 1 && linked(#[trigger] facts@[q], *e, s0) && 0 <= k < site_ids(facts@[q].payload).len()
                            && #[trigger] site_ids(facts@[q].payload)[k] == x;
                    if q < j {
                        assert(hop_sites(facts@, *e, s0, j as int).contains(x));
                        assert(sb.to_set().contains(x));
                        let w = choose|w: int| 0 <= w < sb.len() && sb[w] == x;
                        assert(text_views(sites@)[w] == x);
                    } else {
                        assert(text_views(sites@)[sb.len() + k] == x);
                    }
                    }
                }
                assert forall|x: Seq<char>| #[trigger] text_views(sites@).to_set().contains(x) implies
                    (s0 + hop_sites(facts@, *e, s0, j + 1)).contains(x) by {
                    let w = choose|w: int| 0 <= w < text_views(sites@).len() && text_views(sites@)[w] == x;
                    if w < sb.len() {
                        assert(sb[w] == x);
                        assert(sb.to_set().contains(x));
                        if !s0.contains(x) {
                            let (q, k) = choose|q: int, k: int|
                                0 <= q < j && linked(#[trigger] facts@[q], *e, s0) && 0 <= k < site_ids(facts@[q].payload).len()
                                    && #[trigger] site_ids(facts@[q].payload)[k] == x;
                            assert(hop_sites(facts@, *e, s0, j + 1).contains(x));
                        }
                    } else {
                        let k = w - sb.len();
                        assert(iv[k] == x);
                        assert(hop_sites(facts@, *e, s0, j + 1).contains(x));
                    }
                }
            }
        } else {
            assert(hop_records(facts@, *e, s0, j + 1) =~= hop_records(facts@, *e, s0, j as int));
            assert(hop_sites(facts@, *e, s0, j + 1) =~= hop_sites(facts@, *e, s0, j as int));
        }
        j = j + 1;
    }
    changed
}

} // verus!

verus! {

/// The static facts at the given positions.
pub open spec fn facts_at(facts: Seq<StaticFactEnvelope>, at: Seq<usize>) -> Seq<StaticFactEnvelope> {
    Seq::new(at.len(), |i: int| facts[at[i] as int])
}

fn push_anchor(records: &mut Vec<String>, sites: &mut Vec<String>, a: &StaticFactEnvelope)
    ensures
        text_views(final(records)@) == text_views(old(records)@).push(a.record_id.0@),
        text_views(final(sites)@) == text_views(old(sites)@) + site_ids(a.payload),
{
    let ghost before = text_views(records@);
    records.push(a.record_id.0.clone());
    assert(text_views(records@) =~= before.push(a.record_id.0@));
    let ids = static_fact_site_ids(&a.payload);
    push_views(sites, &ids);
}

/// Whether the static fact is reached from the anchors at the given positions in at most two
/// hops.
pub fn static_fact_reachable_from_anchors(
    e: &StaticFactEnvelope,
    anchor_at: &Vec<usize>,
    facts: &[StaticFactEnvelope],
) -> (b: bool)
    requires
        forall|i: int| 0 <= i < anchor_at@.len() ==> anchor_at@[i] < facts@.len(),
    ensures
        b == reachable_from_anchors(*e, facts_at(facts@, anchor_at@), facts@),
{
    let ghost anchors = facts_at(facts@, anchor_at@);
    let mut records: Vec<String> = Vec::new();
    let mut sites: Vec<String> = Vec::new();
    let mut i: usize = 0;
    while i < anchor_at.len()
        invariant
            forall|q: int| 0 <= q < anchor_at@.len() ==> anchor_at@[q] < facts@.len(),
            anchors == facts_at(facts@, anchor_at@),
            0 <= i <= anchor_at@.len(),
            text_views(records@).to_set() == records_of(anchors.take(i as int)),
            text_views(sites@).to_set() == sites_of(anchors.take(i as int)),
        decreases anchor_at.len() - i,
    {
        let ghost rb = text_views(records@);
        let ghost sb = text_views(sites@);
        let a = &facts[anchor_at[i]];
        push_anchor(&mut records, &mut sites, a);
        let ghost pre = anchors.take(i as int);
        let ghost cur = anchors.take(i + 1);
        assert(cur =~= pre.push(*a));
        assert(text_views(records@).to_set() =~= records_of(cur)) by {
            assert forall|x: Seq<char>| #[trigger] records_of(cur).contains(x) implies text_views(records@).to_set().contains(x) by {
                let w = choose|w: int| 0 <= w < cur.len() && (#[trigger] cur[w]).record_id.0@ == x;
                if w < i {
                    assert(pre[w] == cur[w]);
                    assert(records_of(pre).contains(x));
                    let z = choose|z: int| 0 <= z < rb.len() && rb[z] == x;
                    assert(text_views(records@)[z] == x);
                } else {
                    assert(text_views(records@)[rb.len() as int] == x);
                }
            }
            assert forall|x: Seq<char>| #[trigger] text_views(records@).to_set().contains(x) implies records_of(cur).contains(x) by {
                let z = choose|z: int| 0 <= z < text_views(records@).len() && text_views(records@)[z] == x;
                if z < rb.len() {
                    assert(rb[z] == x);
                    assert(rb.to_set().contains(x));
                    let w = choose|w: int| 0 <= w < pre.len() && (#[trigger] pre[w]).record_id.0@ == x;
                    assert(cur[w] == pre[w]);
                } else {
                    assert(cur[i as int] == *a);
                }
            }
        }
        assert(text_views(sites@).to_set() =~= sites_of(cur)) by {
            assert forall|x: Seq<char>| #[trigger] sites_of(cur).contains(x) implies text_views(sites@).to_set().contains(x) by {
                let (w, k) = choose|w: int, k: int|
                    0 <= w < cur.len() && 0 <= k < site_ids(cur[w].payload).len() && #[trigger] site_ids(cur[w].payload)[k] == x;
                if w < i {
                    assert(pre[w] == cur[w]);
                    assert(sites_of(pre).contains(x));
                    let z = choose|z: int| 0 <= z < sb.len() && sb[z] == x;
                    assert(text_views(sites@)[z] == x);
                } else {
                    assert(text_views(sites@)[sb.len() + k] == x);
                }
            }
            assert forall|x: Seq<char>| #[trigger] text_views(sites@).to_set().contains(x) implies sites_of(cur).contains(x) by {
                let z = choose|z: int| 0 <= z < text_views(sites@).len() && text_views(sites@)[z] == x;
                if z < sb.len() {
                    assert(sb[z] == x);
                    assert(sb.to_set().contains(x));
                    let (w, k) = choose|w: int, k: int|
                        0 <= w < pre.len() && 0 <= k < site_ids(pre[w].payload).len() && #[trigger] site_ids(pre[w].payload)[k] == x;
                    assert(cur[w] == pre[w]);
                } else {
                    assert(cur[i as int] == *a);
                    assert(site_ids(cur[i as int].payload)[z - sb.len()] == x);
                }
            }
        }
        i = i + 1;
    }
    assert(anchors.take(anchors.len() as int) =~= anchors);
    let changed = reach_hop(facts, e, &mut records, &mut sites);
    if changed {
        reach_hop(facts, e, &mut records, &mut sites);
    }
    let found = contains_text(&records, &e.record_id.0);
    proof {
        let rv = text_views(records@);
        if found {
            let w = choose|w: int| 0 <= w < records@.len() && (#[trigger] records@[w])@ == e.record_id.0@;
            assert(rv[w] == e.record_id.0@);
            assert(rv.to_set().contains(e.record_id.0@));
        } else {
            if rv.to_set().contains(e.record_id.0@) {
                let w = choose|w: int| 0 <= w < rv.len() && rv[w] == e.record_id.0@;
                assert(records@[w]@ == e.record_id.0@);
            }
        }
    }
    found
}

} // verus!

verus! {

/// The first static fact at or after `from` with the record id and the same artifact as `e`.
pub open spec fn first_anchor_from(facts: Seq<StaticFactEnvelope>, id: Seq<char>, e: StaticFactEnvelope, from: int) -> Option<
    int,
>
    decreases facts.len() - from,
{
    if from < 0 || from >= facts.len() {
        None
    } else if facts[from].record_id.0@ == id && same_static_artifact(facts[from], e) {
        Some(from)
    } else {
        first_anchor_from(facts, id, e, from + 1)
    }
}

/// The first static fact with the record id and the same artifact as `e`.
pub open spec fn first_anchor(facts: Seq<StaticFactEnvelope>, id: Seq<char>, e: StaticFactEnvelope) -> Option<int> {
    first_anchor_from(facts, id, e, 0)
}

/// Every anchor record id names a static fact of `e`'s artifact.
pub open spec fn anchors_found(ids: Seq<String>, facts: Seq<StaticFactEnvelope>, e: StaticFactEnvelope) -> bool {
    forall|i: int| 0 <= i < ids.len() ==> #[trigger] first_anchor(facts, ids[i]@, e) is Some
}

/// The static facts that the anchor record ids name, the first of `e`'s artifact for each.
pub open spec fn found_anchors(ids: Seq<String>, facts: Seq<StaticFactEnvelope>, e: StaticFactEnvelope) -> Seq<
    StaticFactEnvelope,
> {
    Seq::new(ids.len(), |i: int| facts[first_anchor(facts, ids[i]@, e)->0])
}

/// A static fact is anchored to the candidate by the provenance: it is an authoritative binding
/// for the candidate's crate, the provenance names at least one anchor, every anchor names a
/// static fact of its artifact that anchors the candidate, and it is reached from those.
pub open spec fn anchored_to_candidate(
    p: V326LifecycleFactProvenance,
    c: V32CandidateRecord,
    e: StaticFactEnvelope,
    facts: Seq<StaticFactEnvelope>,
) -> bool {
    let ids = p.anchors_view();
    &&& matches_candidate_artifact(e, c)
    &&& ids.len() > 0
    &&& anchors_found(ids, facts, e)
    &&& forall|i: int| 0 <= i < ids.len() ==> is_candidate_anchor(#[trigger] found_anchors(ids, facts, e)[i], c)
    &&& reachable_from_anchors(e, found_anchors(ids, facts, e), facts)
}

fn find_anchor(facts: &[StaticFactEnvelope], id: &String, e: &StaticFactEnvelope) -> (r: Option<usize>)
    ensures
        match r {
            Some(j) => first_anchor(facts@, id@, *e) == Some(j as int) && j < facts@.len(),
            None => first_anchor(facts@, id@, *e) is None,
        },
{
    let mut i: usize = 0;
    while i < facts.len()
        invariant
            0 <= i <= facts@.len(),
            first_anchor(facts@, id@, *e) == first_anchor_from(facts@, id@, *e, i as int),
        decreases facts.len() - i,
    {
        if facts[i].record_id.0 == *id && static_fact_same_static_artifact(&facts[i], e) {
            return Some(i);
        }
        i = i + 1;
    }
    None
}

/// Whether the provenance anchors the static fact to the candidate.
pub fn static_fact_provenance_is_anchored_to_candidate(
    p: &V326LifecycleFactProvenance,
    c: &V32CandidateRecord,
    e: &StaticFactEnvelope,
    facts: &[StaticFactEnvelope],
) -> (b: bool)
    ensures
        b == anchored_to_candidate(*p, *c, *e, facts@),
{
    if !static_fact_matches_candidate_artifact(e, c) {
        return false;
    }
    let ids = p.anchor_record_ids();
    if ids.len() == 0 {
        return false;
    }
    let ghost found = found_anchors(ids@, facts@, *e);
    let mut at: Vec<usize> = Vec::new();
    let mut i: usize = 0;
    while i < ids.len()
        invariant
            ids@ == p.anchors_view(),
            found == found_anchors(ids@, facts@, *e),
            0 <= i <= ids@.len(),
            at@.len() == i,
            forall|q: int| 0 <= q < i ==> #[trigger] first_anchor(facts@, ids@[q]@, *e) == Some(at@[q] as int),
            forall|q: int| 0 <= q < i ==> at@[q] < facts@.len(),
        decreases ids.len() - i,
    {
        match find_anchor(facts, &ids[i], e) {
            Some(j) => {
                at.push(j);
            },
            None => {
                assert(!anchors_found(ids@, facts@, *e));
                return false;
            },
        }
        i = i + 1;
    }
    assert(anchors_found(ids@, facts@, *e));
    assert(facts_at(facts@, at@) =~= found);
    let mut k: usize = 0;
    while k < at.len()
        invariant
            found == facts_at(facts@, at@),
            found == found_anchors(p.anchors_view(), facts@, *e),
            at@.len() == ids@.len(),
            forall|q: int| 0 <= q < at@.len() ==> at@[q] < facts@.len(),
            0 <= k <= at@.len(),
            forall|q: int| 0 <= q < k ==> is_candidate_anchor(#[trigger] found[q], *c),
        decreases at.len() - k,
    {
        if !static_fact_is_candidate_anchor(&facts[at[k]], c) {
            assert(!is_candidate_anchor(found[k as int], *c));
            return false;
        }
        k = k + 1;
    }
    static_fact_reachable_from_anchors(e, &at, facts)
}

/// A static fact that supports a release-path proof: an authoritative binding from the same
/// producer, build and artifact.
pub open spec fn release_support_matches(proof: StaticFactEnvelope, support: StaticFactEnvelope) -> bool {
    spec_is_authoritative_lifecycle_binding(support) && support.producer@ == proof.producer@
        && support.build_id.0@ == proof.build_id.0@ && same_artifact(support.artifact, proof.artifact)
}

/// A release-path proof is backed by a supporting registration of its object at its
/// registration site and by a supporting `from_raw` transfer of its object at its release site;
/// any other static fact needs no backing.
pub open spec fn release_path_consistent(e: StaticFactEnvelope, facts: Seq<StaticFactEnvelope>) -> bool {
    match e.payload {
        StaticFact::ReleasePathProof(p) => {
            &&& exists|j: int|
                0 <= j < facts.len() && release_support_matches(e, #[trigger] facts[j]) && (facts[j].payload matches StaticFact::RegistrationSite(r)
                    && r.role == RegistrationRole::Register && r.site_id.0@ == p.registration_site_id.0@
                    && (r.user_data_site_id matches Some(u) && u.0@ == p.object_site_id.0@))
            &&& exists|j: int|
                0 <= j < facts.len() && release_support_matches(e, #[trigger] facts[j]) && (facts[j].payload matches StaticFact::RawPointerTransfer(t)
                    && t.transfer_kind == RawPointerTransferKind::FromRaw && t.site_id.0@ == p.release_site_id.0@
                    && t.user_data_site_id.0@ == p.object_site_id.0@)
        },
        _ => true,
    }
}

fn static_release_path_support_matches(proof: &StaticFactEnvelope, support: &StaticFactEnvelope) -> (b: bool)
    ensures
        b == release_support_matches(*proof, *support),
{
    support.is_authoritative_lifecycle_binding() && support.producer == proof.producer && support.build_id.0
        == proof.build_id.0 && artifacts_equal(&support.artifact, &proof.artifact)
}

/// Whether a release-path proof is backed by its registration and its release.
pub fn static_release_path_proof_is_consistent(e: &StaticFactEnvelope, facts: &[StaticFactEnvelope]) -> (b: bool)
    ensures
        b == release_path_consistent(*e, facts@),
{
    let p = match &e.payload {
        StaticFact::ReleasePathProof(p) => p,
        _ => {
            return true;
        },
    };
    let mut registration = false;
    let mut release = false;
    let mut j: usize = 0;
    while j < facts.len()
        invariant
            e.payload == StaticFact::ReleasePathProof(*p),
            0 <= j <= facts@.len(),
            registration == exists|q: int|
                0 <= q < j && release_support_matches(*e, #[trigger] facts@[q]) && (facts@[q].payload matches StaticFact::RegistrationSite(r)
                    && r.role == RegistrationRole::Register && r.site_id.0@ == p.registration_site_id.0@
                    && (r.user_data_site_id matches Some(u) && u.0@ == p.object_site_id.0@)),
            release == exists|q: int|
                0 <= q < j && release_support_matches(*e, #[trigger] facts@[q]) && (facts@[q].payload matches StaticFact::RawPointerTransfer(t)
                    && t.transfer_kind == RawPointerTransferKind::FromRaw && t.site_id.0@ == p.release_site_id.0@
                    && t.user_data_site_id.0@ == p.object_site_id.0@),
        decreases facts.len() - j,
    {
        let f = &facts[j];
        if static_release_path_support_matches(e, f) {
            match &f.payload {
                StaticFact::RegistrationSite(r) => {
                    let register = match r.role {
                        RegistrationRole::Register => true,
                        _ => false,
                    };
                    let user_data = match &r.user_data_site_id {
                        Some(u) => u.0 == p.object_site_id.0,
                        None => false,
                    };
                    if register && r.site_id.0 == p.registration_site_id.0 && user_data {
                        registration = true;
                    }
                },
                StaticFact::RawPointerTransfer(t) => {
                    let from_raw = match t.transfer_kind {
                        RawPointerTransferKind::FromRaw => true,
                        _ => false,
                    };
                    if from_raw && t.site_id.0 == p.release_site_id.0 && t.user_data_site_id.0 == p.object_site_id.0 {
                        release = true;
                    }
                },
                _ => {},
            }
        }
        j = j + 1;
    }
    registration && release
}

/// The lifecycle fact's source reference is the static fact's: the same normalized path and
/// the same line span.
pub open spec fn source_ref_matches(e: StaticFactEnvelope, r: V326SourceRef) -> bool {
    match e.source_ref {
        Some(s) => normalized_path(s.path@) == normalized_path(r.path@) && r.line_start == Some(s.line_start)
            && r.line_end == Some(s.line_end),
        None => false,
    }
}

/// Whether the lifecycle fact's source reference is the static fact's.
pub fn static_fact_source_ref_matches(e: &StaticFactEnvelope, r: &V326SourceRef) -> (b: bool)
    ensures
        b == source_ref_matches(*e, *r),
{
    if e.source_ref.is_none() {
        return false;
    }
    let expected = static_fact_source_ref(e);
    expected.path == normalize_static_path(r.path.as_str()) && expected.line_start.is_some() && expected.line_start
        == r.line_start && expected.line_end == r.line_end
}

} // verus!

verus! {

/// The provenance names the static fact: its record id, build id and producer.
pub open spec fn names_static_fact(p: V326LifecycleFactProvenance, e: StaticFactEnvelope) -> bool {
    &&& opt_text(p.record_id_view()) == Some(e.record_id.0@)
    &&& opt_text(p.build_id_view()) == Some(e.build_id.0@)
    &&& opt_text(p.producer_view()) == Some(e.producer@)
}

/// The first static fact at or after `from` that the provenance names and that is an
/// authoritative binding for the candidate's crate.
pub open spec fn first_named_from(
    p: V326LifecycleFactProvenance,
    c: V32CandidateRecord,
    facts: Seq<StaticFactEnvelope>,
    from: int,
) -> Option<int>
    decreases facts.len() - from,
{
    if from < 0 || from >= facts.len() {
        None
    } else if names_static_fact(p, facts[from]) && matches_candidate_artifact(facts[from], c) {
        Some(from)
    } else {
        first_named_from(p, c, facts, from + 1)
    }
}

/// A lifecycle fact is verified against the static facts: it claims a static artifact, belongs
/// to the candidate and its crate, and the first static fact its provenance names for the
/// candidate's crate gives its kind, symbol path and object ids, has its source reference, is
/// backed where it is a release-path proof, and is anchored to the candidate.
pub open spec fn static_provenance_verified(
    fact: V326LifecycleFactRecord,
    c: V32CandidateRecord,
    facts: Seq<StaticFactEnvelope>,
) -> bool {
    &&& fact.provenance.origin_view() == V326LifecycleFactOrigin::StaticArtifact
    &&& fact.candidate_id@ == c.candidate_id@
    &&& fact.crate_id@ == c.crate_id@
    &&& match first_named_from(fact.provenance, c, facts, 0) {
        Some(j) => match spec_static_fact_fields(facts[j].payload) {
            Some((kind, symbol_path, object_ids)) => {
                &&& fact.fact_kind == kind
                &&& opt_text(fact.symbol_path) == symbol_path
                &&& text_views(fact.object_ids@) == object_ids
                &&& source_ref_matches(facts[j], fact.source_ref)
                &&& release_path_consistent(facts[j], facts)
                &&& anchored_to_candidate(fact.provenance, c, facts[j], facts)
            },
            None => false,
        },
        None => false,
    }
}

fn opt_texts_equal(a: &Option<String>, b: &Option<String>) -> (r: bool)
    ensures
        r == (opt_text(*a) == opt_text(*b)),
{
    match (a, b) {
        (Some(x), Some(y)) => *x == *y,
        (None, None) => true,
        _ => false,
    }
}

fn opt_is_text(a: &Option<String>, b: &String) -> (r: bool)
    ensures
        r == (opt_text(*a) == Some(b@)),
{
    match a {
        Some(x) => *x == *b,
        None => false,
    }
}

fn texts_equal(a: &Vec<String>, b: &Vec<String>) -> (r: bool)
    ensures
        r == (text_views(a@) == text_views(b@)),
{
    if a.len() != b.len() {
        assert(text_views(a@).len() != text_views(b@).len());
        return false;
    }
    let mut i: usize = 0;
    while i < a.len()
        invariant
            a@.len() == b@.len(),
            0 <= i <= a@.len(),
            forall|k: int| 0 <= k < i ==> (#[trigger] a@[k])@ == b@[k]@,
        decreases a.len() - i,
    {
        if a[i] != b[i] {
            assert(text_views(a@)[i as int] != text_views(b@)[i as int]);
            return false;
        }
        i = i + 1;
    }
    assert(text_views(a@) =~= text_views(b@));
    true
}

fn find_named(p: &V326LifecycleFactProvenance, c: &V32CandidateRecord, facts: &[StaticFactEnvelope]) -> (r: Option<
    usize,
>)
    ensures
        match r {
            Some(j) => first_named_from(*p, *c, facts@, 0) == Some(j as int) && j < facts@.len(),
            None => first_named_from(*p, *c, facts@, 0) is None,
        },
{
    let (record_id, build_id, producer) = p.static_names();
    let mut i: usize = 0;
    while i < facts.len()
        invariant
            record_id == p.record_id_view(),
            build_id == p.build_id_view(),
            producer == p.producer_view(),
            0 <= i <= facts@.len(),
            first_named_from(*p, *c, facts@, 0) == first_named_from(*p, *c, facts@, i as int),
        decreases facts.len() - i,
    {
        let e = &facts[i];
        if opt_is_text(record_id, &e.record_id.0) && opt_is_text(build_id, &e.build_id.0) && opt_is_text(producer, &e.producer)
            && static_fact_matches_candidate_artifact(e, c) {
            return Some(i);
        }
        i = i + 1;
    }
    None
}

fn fact_matches_static(
    fact: &V326LifecycleFactRecord,
    c: &V32CandidateRecord,
    facts: &[StaticFactEnvelope],
) -> (b: bool)
    ensures
        b == static_provenance_verified(*fact, *c, facts@),
{
    match fact.provenance.origin() {
        V326LifecycleFactOrigin::StaticArtifact => {},
        _ => {
            return false;
        },
    }
    if fact.candidate_id != c.candidate_id || fact.crate_id != c.crate_id {
        return false;
    }
    let j = match find_named(&fact.provenance, c, facts) {
        Some(j) => j,
        None => {
            return false;
        },
    };
    let e = &facts[j];
    let (kind, symbol_path, object_ids) = match lifecycle_static_fact_fields(e) {
        Some(t) => t,
        None => {
            return false;
        },
    };
    fact.fact_kind == kind && opt_texts_equal(&fact.symbol_path, &symbol_path) && texts_equal(&fact.object_ids, &object_ids)
        && static_fact_source_ref_matches(e, &fact.source_ref) && static_release_path_proof_is_consistent(e, facts)
        && static_fact_provenance_is_anchored_to_candidate(&fact.provenance, c, e, facts)
}

/// Checks a lifecycle fact that claims a static artifact against the static facts, records the
/// result in its provenance and returns it. Nothing else of the fact changes.
pub fn verify_v3_2_6_lifecycle_fact_static_provenance(
    fact: &mut V326LifecycleFactRecord,
    candidate: &V32CandidateRecord,
    static_facts: &[StaticFactEnvelope],
) -> (verified: bool)
    ensures
        verified == static_provenance_verified(*old(fact), *candidate, static_facts@),
        *final(fact) == (V326LifecycleFactRecord {
            provenance: old(fact).provenance.with_verified(verified),
            ..*old(fact)
        }),
        final(fact).provenance.is_verified_static_artifact() == verified,
        final(fact).provenance.origin_view() == old(fact).provenance.origin_view(),
        final(fact).provenance.record_id_view() == old(fact).provenance.record_id_view(),
        final(fact).provenance.build_id_view() == old(fact).provenance.build_id_view(),
        final(fact).provenance.producer_view() == old(fact).provenance.producer_view(),
        final(fact).provenance.anchors_view() == old(fact).provenance.anchors_view(),
        verified ==> old(fact).provenance.origin_view() == V326LifecycleFactOrigin::StaticArtifact
            && old(fact).candidate_id@ == candidate.candidate_id@ && old(fact).crate_id@ == candidate.crate_id@,
{
    let verified = fact_matches_static(fact, candidate, static_facts);
    fact.provenance.set_static_artifact_verified(verified);
    verified
}

} // verus!
