//! Which lifecycle contracts apply to a candidate: only exact API ids are matched, by the
//! candidate's API path or by the symbol of an authoritative register call.

use vstd::prelude::*;

use crate::candidate::V32CandidateRecord;
use crate::lifecycle_v326::{V326LifecycleContractRecord, V326LifecycleFactKind, V326LifecycleFactRecord};
use crate::text::{char_is_white_space, chars_of, is_white_space, skip_chars, starts_with, trim_text, trimmed};
use crate::v326_facts::has_prefix;
use crate::v326_release_pairs::{is_authoritative_binding, is_authoritative_object_binding_fact};
use crate::v326_source_api::{eq_ignore_ascii_case, split_on_char, split_state, text_eq_ignore_ascii_case};
use crate::v326_static_fields::{find_first, first_occurrence, occurs_at};

verus! {

/// An API map id: `api:` and then at least three parts separated by `:`, none of them empty.
pub open spec fn is_api_map_id(v: Seq<char>) -> bool {
    has_prefix(v, "api:"@) && {
        let parts = split_on_char(v.skip(4), ':');
        parts.len() >= 3 && all_nonempty(parts)
    }
}

/// An exact lifecycle API id: trimmed, it is not empty, is a Rust path (it holds `::`) or an
/// API map id, holds no `*` and no white space.
pub open spec fn is_exact_api_id(value: Seq<char>) -> bool {
    let v = trimmed(value);
    &&& v.len() > 0
    &&& (first_occurrence(v, "::"@) is Some || is_api_map_id(v))
    &&& !v.contains('*')
    &&& forall|i: int| 0 <= i < v.len() ==> !is_white_space(#[trigger] v[i])
}

/// Every part is non-empty.
pub open spec fn all_nonempty(parts: Seq<Seq<char>>) -> bool {
    forall|k: int| 0 <= k < parts.len() ==> (#[trigger] parts[k]).len() > 0
}

proof fn lemma_all_nonempty_push(parts: Seq<Seq<char>>, x: Seq<char>)
    ensures
        all_nonempty(parts.push(x)) == (all_nonempty(parts) && x.len() > 0),
{
    if all_nonempty(parts) && x.len() > 0 {
        assert forall|k: int| 0 <= k < parts.push(x).len() implies (#[trigger] parts.push(x)[k]).len() > 0 by {
            if k < parts.len() {
                assert(parts.push(x)[k] == parts[k]);
            }
        }
    }
    if all_nonempty(parts.push(x)) {
        assert(parts.push(x)[parts.len() as int] == x);
        assert forall|k: int| 0 <= k < parts.len() implies (#[trigger] parts[k]).len() > 0 by {
            assert(parts.push(x)[k] == parts[k]);
        }
    }
}

pub(crate) fn api_parts_ok(suffix: &str, min: usize) -> (b: bool)
    requires
        min >= 1,
    ensures
        b == (split_on_char(suffix@, ':').len() >= min && all_nonempty(split_on_char(suffix@, ':'))),
{
    let cs = chars_of(suffix);
    let mut count: usize = 0;
    let mut cur: usize = 0;
    let mut ok = true;
    let mut i: usize = 0;
    while i < cs.len()
        invariant
            cs@ == suffix@,
            0 <= i <= cs@.len(),
            count == split_state(suffix@.take(i as int), ':').0.len(),
            count <= i,
            cur == split_state(suffix@.take(i as int), ':').1.len(),
            cur <= i,
            ok == all_nonempty(split_state(suffix@.take(i as int), ':').0),
        decreases cs.len() - i,
    {
        assert(suffix@.take(i + 1).drop_last() =~= suffix@.take(i as int));
        assert(suffix@.take(i + 1).last() == cs@[i as int]);
        let ghost st = split_state(suffix@.take(i as int), ':');
        if cs[i] == ':' {
            proof {
                lemma_all_nonempty_push(st.0, st.1);
            }
            if cur == 0 {
                ok = false;
            }
            count = count + 1;
            cur = 0;
        } else {
            cur = cur + 1;
        }
        i = i + 1;
    }
    assert(suffix@.take(suffix@.len() as int) =~= suffix@);
    proof {
        let st = split_state(suffix@, ':');
        lemma_all_nonempty_push(st.0, st.1);
    }
    ok && cur > 0 && count >= min - 1
}

/// Whether the value is an exact lifecycle API id.
pub fn is_exact_lifecycle_api_id(value: &str) -> (b: bool)
    ensures
        b == is_exact_api_id(value@),
{
    let v = trim_text(value);
    let cs = chars_of(v.as_str());
    if cs.len() == 0 {
        return false;
    }
    proof {
        reveal_strlit("::");
        reveal_strlit("api:");
    }
    let rust_path = find_first(v.as_str(), "::").is_some();
    let api_map = starts_with(v.as_str(), "api:") && api_parts_ok(skip_chars(v.as_str(), 4).as_str(), 3);
    if !(rust_path || api_map) {
        return false;
    }
    let mut i: usize = 0;
    while i < cs.len()
        invariant
            cs@ == v@,
            v@ == trimmed(value@),
            0 <= i <= cs@.len(),
            forall|k: int| 0 <= k < i ==> cs@[k] != '*' && !is_white_space(#[trigger] cs@[k]),
        decreases cs.len() - i,
    {
        if cs[i] == '*' {
            assert(v@[i as int] == '*');
            assert(v@.contains('*'));
            return false;
        }
        if char_is_white_space(cs[i]) {
            assert(is_white_space(v@[i as int]));
            return false;
        }
        i = i + 1;
    }
    assert(!v@.contains('*')) by {
        if v@.contains('*') {
            let k = choose|k: int| 0 <= k < v@.len() && v@[k] == '*';
            assert(cs@[k] != '*');
        }
    }
    true
}

/// Two exact API ids name the same API: trimmed, they are equal without ASCII case.
pub open spec fn api_ids_match(candidate_api: Seq<char>, contract_api: Seq<char>) -> bool {
    is_exact_api_id(candidate_api) && is_exact_api_id(contract_api) && trimmed(candidate_api).len() > 0
        && eq_ignore_ascii_case(trimmed(candidate_api), trimmed(contract_api))
}

/// Whether two exact API ids name the same API.
pub fn lifecycle_api_matches(candidate_api: &str, contract_api: &str) -> (b: bool)
    ensures
        b == api_ids_match(candidate_api@, contract_api@),
{
    if !is_exact_lifecycle_api_id(candidate_api) || !is_exact_lifecycle_api_id(contract_api) {
        return false;
    }
    let a = trim_text(candidate_api);
    let b = trim_text(contract_api);
    a.unicode_len() > 0 && text_eq_ignore_ascii_case(a.as_str(), b.as_str())
}

/// A contract applies to a candidate whose API path is its API, or where an authoritative
/// register call among the facts calls its API.
pub open spec fn contract_applies(
    c: V32CandidateRecord,
    facts: Seq<V326LifecycleFactRecord>,
    contract: V326LifecycleContractRecord,
) -> bool {
    (c.api_path matches Some(p) && api_ids_match(p@, contract.api_id@)) || exists|i: int|
        0 <= i < facts.len() && is_authoritative_binding(#[trigger] facts[i]) && facts[i].fact_kind
            == V326LifecycleFactKind::RegisterCall && (facts[i].symbol_path matches Some(s) && api_ids_match(
            s@,
            contract.api_id@,
        ))
}

/// Whether the contract applies to the candidate.
pub fn lifecycle_contract_applies_to_candidate(
    c: &V32CandidateRecord,
    facts: &[V326LifecycleFactRecord],
    contract: &V326LifecycleContractRecord,
) -> (b: bool)
    ensures
        b == contract_applies(*c, facts@, *contract),
{
    match &c.api_path {
        Some(p) => {
            if lifecycle_api_matches(p.as_str(), contract.api_id.as_str()) {
                return true;
            }
        },
        None => {},
    }
    let mut i: usize = 0;
    while i < facts.len()
        invariant
            0 <= i <= facts@.len(),
            !(c.api_path matches Some(p) && api_ids_match(p@, contract.api_id@)),
            forall|k: int|
                0 <= k < i ==> !(is_authoritative_binding(#[trigger] facts@[k]) && facts@[k].fact_kind
                    == V326LifecycleFactKind::RegisterCall && (facts@[k].symbol_path matches Some(s)
                    && api_ids_match(s@, contract.api_id@))),
        decreases facts.len() - i,
    {
        let f = &facts[i];
        let register = match f.fact_kind {
            V326LifecycleFactKind::RegisterCall => true,
            _ => false,
        };
        if register && is_authoritative_object_binding_fact(f) {
            match &f.symbol_path {
                Some(s) => {
                    if lifecycle_api_matches(s.as_str(), contract.api_id.as_str()) {
                        return true;
                    }
                },
                None => {},
            }
        }
        i = i + 1;
    }
    false
}

} // verus!
