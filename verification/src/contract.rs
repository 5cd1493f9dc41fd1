//! The retained-callback contract, its map from concrete Rust APIs, and plain version ranges.

use vstd::prelude::*;

use crate::error::{spec_error_code, ModelError};
use crate::static_fact::{present, RegistrationRole};
use crate::text::{chars_of, concat2, owned, str_is_blank};

verus! {

pub open spec fn is_ascii_digit(c: char) -> bool {
    '0' <= c && c <= '9'
}

/// The value of a run of decimal digits.
pub open spec fn digits_value(s: Seq<char>) -> nat
    decreases s.len(),
{
    if s.len() == 0 {
        0
    } else {
        digits_value(s.drop_last()) * 10 + ((s.last() as nat) - ('0' as nat)) as nat
    }
}

/// The parts of a text between dots, as `str::split('.')` yields them.
pub open spec fn dot_parts(s: Seq<char>) -> Seq<Seq<char>>
    decreases s.len(),
{
    if s.len() == 0 {
        seq![Seq::empty()]
    } else {
        let prev = dot_parts(s.drop_last());
        if s.last() == '.' {
            prev.push(Seq::empty())
        } else {
            prev.update(prev.len() - 1, prev.last().push(s.last()))
        }
    }
}

/// A version part: one or more decimal digits whose value fits in 64 bits.
pub open spec fn is_version_part(p: Seq<char>) -> bool {
    &&& p.len() > 0
    &&& forall|i: int| 0 <= i < p.len() ==> is_ascii_digit(#[trigger] p[i])
    &&& digits_value(p) <= u64::MAX
}

/// The plain `major.minor.patch` version a text spells, if it spells one.
pub open spec fn spec_parse_plain_version(s: Seq<char>) -> Option<(u64, u64, u64)> {
    let ps = dot_parts(s);
    if ps.len() == 3 && is_version_part(ps[0]) && is_version_part(ps[1]) && is_version_part(ps[2]) {
        Some((digits_value(ps[0]) as u64, digits_value(ps[1]) as u64, digits_value(ps[2]) as u64))
    } else {
        None
    }
}

proof fn lemma_dot_parts_nonempty(s: Seq<char>)
    ensures
        dot_parts(s).len() >= 1,
    decreases s.len(),
{
    if s.len() > 0 {
        lemma_dot_parts_nonempty(s.drop_last());
    }
}

/// The parts of a prefix are those of the whole text, but for the last one, which only begins
/// the corresponding part of the whole text.
proof fn lemma_dot_parts_prefix(s: Seq<char>, n: int)
    requires
        0 <= n <= s.len(),
    ensures
        dot_parts(s.take(n)).len() <= dot_parts(s).len(),
        forall|k: int|
            0 <= k < dot_parts(s.take(n)).len() - 1 ==> #[trigger] dot_parts(s)[k] == dot_parts(
                s.take(n),
            )[k],
        dot_parts(s.take(n)).last().len() <= dot_parts(s)[dot_parts(s.take(n)).len() - 1].len(),
        dot_parts(s)[dot_parts(s.take(n)).len() - 1].take(dot_parts(s.take(n)).last().len() as int)
            == dot_parts(s.take(n)).last(),
    decreases s.len() - n,
{
    lemma_dot_parts_nonempty(s.take(n));
    lemma_dot_parts_nonempty(s);
    if n == s.len() {
        assert(s.take(n) =~= s);
        assert(dot_parts(s).last().take(dot_parts(s).last().len() as int) =~= dot_parts(s).last());
    } else {
        lemma_dot_parts_prefix(s, n + 1);
        let t = s.take(n);
        let t1 = s.take(n + 1);
        assert(t1.drop_last() =~= t);
        assert(t1.last() == s[n]);
        lemma_dot_parts_nonempty(t);
        let a = dot_parts(t);
        let b = dot_parts(t1);
        let full = dot_parts(s);
        if s[n] == '.' {
            assert(b == a.push(Seq::empty()));
            assert(full[a.len() - 1] == b[a.len() - 1]);
            assert(full[a.len() - 1].take(a.last().len() as int) =~= a.last());
        } else {
            assert(b == a.update(a.len() - 1, a.last().push(s[n])));
            assert(b.last() == a.last().push(s[n]));
            let part = full[a.len() - 1];
            assert(part.take(b.last().len() as int) == b.last());
            assert(part.take(a.last().len() as int) =~= b.last().take(a.last().len() as int));
            assert(b.last().take(a.last().len() as int) =~= a.last());
        }
    }
}

proof fn lemma_digits_value_grows(p: Seq<char>, n: int)
    requires
        0 <= n <= p.len(),
        forall|i: int| 0 <= i < p.len() ==> is_ascii_digit(#[trigger] p[i]),
    ensures
        digits_value(p.take(n)) <= digits_value(p),
    decreases p.len() - n,
{
    if n < p.len() {
        lemma_digits_value_grows(p, n + 1);
        let t1 = p.take(n + 1);
        assert(t1.drop_last() =~= p.take(n));
        assert(t1.last() == p[n]);
        assert(digits_value(t1) == digits_value(p.take(n)) * 10 + ((p[n] as nat) - ('0' as nat)) as nat);
    } else {
        assert(p.take(n) =~= p);
    }
}

/// Parses a plain version `x.y.z`: exactly three runs of decimal digits separated by dots,
/// each fitting in 64 bits. Signs, pre-release and build suffixes and other part counts give
/// `None`, since their order is not the plain numeric one.
pub fn parse_plain_version(version: &str) -> (r: Option<(u64, u64, u64)>)
    ensures
        r == spec_parse_plain_version(version@),
{
    let cs = chars_of(version);
    let ghost s = version@;
    let mut done: [u64; 2] = [0, 0];
    let mut dots: usize = 0;
    let mut cur: u64 = 0;
    let mut cur_len: usize = 0;
    let mut i: usize = 0;
    proof {
        assert(s.take(0) =~= Seq::<char>::empty());
    }
    while i < cs.len()
        invariant
            cs@ == s,
            s == version@,
            0 <= i <= cs.len(),
            dots <= 2,
            dot_parts(s.take(i as int)).len() == dots + 1,
            forall|k: int| 0 <= k < dots ==> is_version_part(#[trigger] dot_parts(s.take(i as int))[k]),
            forall|k: int| 0 <= k < dots ==> done@[k] == digits_value(#[trigger] dot_parts(s.take(i as int))[k]),
            forall|j: int| 0 <= j < cur_len ==> is_ascii_digit(#[trigger] dot_parts(s.take(i as int)).last()[j]),
            cur_len == dot_parts(s.take(i as int)).last().len(),
            cur_len <= i,
            cur == digits_value(dot_parts(s.take(i as int)).last()),
        decreases cs.len() - i,
    {
        let c = cs[i];
        let ghost t = s.take(i as int);
        let ghost t1 = s.take(i + 1);
        proof {
            assert(t1.drop_last() =~= t);
            assert(t1.last() == c);
            lemma_dot_parts_nonempty(t);
        }
        if c == '.' {
            if cur_len == 0 || dots == 2 {
                proof {
                    lemma_dot_parts_prefix(s, i + 1);
                    lemma_dot_parts_nonempty(s);
                    if cur_len == 0 {
                        assert(dot_parts(t1)[dots as int] == dot_parts(t).last());
                        assert(dot_parts(s)[dots as int] == dot_parts(t1)[dots as int]);
                    }
                }
                return None;
            }
            proof {
                assert(dot_parts(t1) == dot_parts(t).push(Seq::empty()));
            }
            done[dots] = cur;
            dots = dots + 1;
            cur = 0;
            cur_len = 0;
        } else {
            let digit = '0' <= c && c <= '9';
            let d: u64 = (c as u32 as u64).wrapping_sub('0' as u32 as u64);
            if !digit || cur > (u64::MAX - d) / 10 {
                proof {
                    lemma_dot_parts_prefix(s, i + 1);
                    lemma_dot_parts_nonempty(s);
                    let a = dot_parts(t);
                    let b = dot_parts(t1);
                    assert(b == a.update(a.len() - 1, a.last().push(c)));
                    let part = dot_parts(s)[dots as int];
                    assert(part.take(b.last().len() as int) == b.last());
                    assert(part[cur_len as int] == b.last()[cur_len as int]);
                    if digit && dot_parts(s).len() == 3 && forall|j: int| 0 <= j < part.len() ==> is_ascii_digit(#[trigger] part[j]) {
                        lemma_digits_value_grows(part, cur_len + 1);
                        assert(b.last().drop_last() =~= a.last());
                        assert(digits_value(b.last()) == cur * 10 + d);
                        assert(cur * 10 + d > u64::MAX) by (nonlinear_arith)
                            requires
                                cur > (u64::MAX - d) / 10,
                                d <= 9,
                        ;
                    }
                }
                return None;
            }
            proof {
                let a = dot_parts(t);
                assert(dot_parts(t1) == a.update(a.len() - 1, a.last().push(c)));
                assert(dot_parts(t1).last().drop_last() =~= a.last());
                assert(cur * 10 + d <= u64::MAX) by (nonlinear_arith)
                    requires
                        cur <= (u64::MAX - d) / 10,
                        d <= 9,
                ;
            }
            cur = cur * 10 + d;
            cur_len = cur_len + 1;
        }
        i = i + 1;
    }
    proof {
        assert(s.take(cs.len() as int) =~= s);
    }
    if dots != 2 || cur_len == 0 {
        return None;
    }
    Some((done[0], done[1], cur))
}

/// Plain versions in lexicographic order of their parts.
pub open spec fn version_le(a: (u64, u64, u64), b: (u64, u64, u64)) -> bool {
    a.0 < b.0 || (a.0 == b.0 && (a.1 < b.1 || (a.1 == b.1 && a.2 <= b.2)))
}

/// Whether `version` is at most `max_version`; `None` when either is not a plain version.
pub fn plain_version_at_most(version: &str, max_version: &str) -> (r: Option<bool>)
    ensures
        r == match (spec_parse_plain_version(version@), spec_parse_plain_version(max_version@)) {
            (Some(a), Some(b)) => Some(version_le(a, b)),
            _ => None,
        },
{
    let a = parse_plain_version(version)?;
    let b = parse_plain_version(max_version)?;
    Some(a.0 < b.0 || (a.0 == b.0 && (a.1 < b.1 || (a.1 == b.1 && a.2 <= b.2))))
}

} // verus!

verus! {

/// Schema version of retained-callback contracts.
pub const CONTRACT_SCHEMA_V01: &'static str = "bw.contract/0.1";

/// Schema version of API maps onto a retained-callback contract.
pub const CALLBACK_RETENTION_API_MAP_SCHEMA_V01: &'static str = "bw.api-map/0.1";

#[derive(Clone, Copy, Debug, PartialEq, Eq)]
pub enum ContractClauseKind {
    RetainAfterRegister,
    ReleaseOnUnregister,
    ReleaseOnReplacement,
    ReleaseOnOwnerDrop,
    InvokeWhileRetained,
    BorrowMustOutliveRetention,
    NoUseAfterLifetimeEnd,
    FreeAtMostOnce,
}

#[derive(Clone, Debug)]
pub struct ContractClause {
    pub clause_id: String,
    pub kind: ContractClauseKind,
    pub description: String,
}

#[derive(Clone, Copy, Debug, PartialEq, Eq)]
pub enum ReleaseBehavior {
    NoRelease,
    ReleaseCurrent,
    ReleaseAndReplace,
    ReleaseOnOwnerDrop,
}

#[derive(Clone, Copy, Debug, PartialEq, Eq)]
pub enum InvokeRole {
    Callback,
}

#[derive(Clone, Debug)]
pub struct CallbackApiEntry {
    pub clause_id: String,
    pub api_id: String,
    pub registration_role: Option<RegistrationRole>,
    pub release_behavior: ReleaseBehavior,
    pub owner_kind: String,
    pub invoke_role: Option<InvokeRole>,
}

/// A generic retained-callback contract and the API roles it names, free of any label that
/// would say where a bug is.
#[derive(Clone, Debug)]
pub struct CallbackRetentionContract {
    pub schema_version: String,
    pub contract_id: String,
    pub producer: String,
    pub clauses: Vec<ContractClause>,
    pub api_entries: Vec<CallbackApiEntry>,
}

/// An auditable map from concrete Rust APIs onto the APIs of a retained-callback contract.
#[derive(Clone, Debug)]
pub struct CallbackRetentionApiMap {
    pub schema_version: String,
    pub map_id: String,
    pub producer: String,
    pub contract_id: String,
    pub apis: Vec<CallbackRetentionApiMapEntry>,
}

#[derive(Clone, Debug)]
pub struct CallbackRetentionApiMapEntry {
    pub api_id: String,
    pub rust_path: String,
    pub contract_api_id: String,
    pub callback_family: String,
    pub opaque_handle_role: Option<OpaqueHandleApiRole>,
    pub opaque_binding_api_id: Option<String>,
    pub opaque_handle_arg_index: Option<usize>,
    pub opaque_key_arg_index: Option<usize>,
    pub opaque_payload_arg_index: Option<usize>,
    pub opaque_generation_key: Vec<OpaqueHandleIdentityComponent>,
    pub callback_arg_indices: Vec<usize>,
    pub user_data_arg_indices: Vec<usize>,
    /// The last version of the declaring crate in which the API's callback bound is not yet
    /// `'static`. `None` means the boundary was never recorded, so whether a borrowed capture
    /// can be registered is undecided rather than possible everywhere.
    pub non_static_callback_max_version: Option<String>,
    pub notes: String,
}

#[derive(Clone, Copy, Debug, PartialEq, Eq, Structural)]
pub enum OpaqueHandleApiRole {
    Setter,
    Get,
}

#[derive(Clone, Copy, Debug, PartialEq, Eq, PartialOrd, Ord, Structural)]
pub enum OpaqueHandleIdentityComponent {
    BindingApiId,
    HandleArg,
    KeyArg,
    PayloadArg,
}

/// A contract and an API map that were both validated and name the same contract.
#[derive(Clone, Debug)]
pub struct CallbackRetentionRegistry {
    pub contract: CallbackRetentionContract,
    pub api_map: CallbackRetentionApiMap,
}

/// The code of a required text that is blank.
pub open spec fn required_code() -> Seq<char> {
    "BW-CONTRACT-API-MAP-REQUIRED-EMPTY"@
}

fn require_nonempty(field: &str, value: &str) -> (r: Result<(), ModelError>)
    ensures
        r is Ok <==> present(value@),
        r matches Err(e) ==> spec_error_code(e) == required_code(),
{
    if str_is_blank(value) {
        return Err(ModelError::validation("BW-CONTRACT-API-MAP-REQUIRED-EMPTY", concat2(field, " 不能为空")));
    }
    Ok(())
}

fn fail(code: &'static str, message: &str) -> (r: Result<(), ModelError>)
    ensures
        r matches Err(e) && spec_error_code(e) == code@,
{
    Err(ModelError::validation(code, owned(message)))
}

/// The error code of the clause at `i`: a blank id or description, or an id that an earlier
/// clause has.
pub open spec fn clause_error(cs: Seq<ContractClause>, i: int) -> Option<Seq<char>> {
    if !present(cs[i].clause_id@) || !present(cs[i].description@) {
        Some(required_code())
    } else if exists|j: int| 0 <= j < i && #[trigger] cs[j].clause_id@ == cs[i].clause_id@ {
        Some("BW-CONTRACT-CLAUSE-ID-DUPLICATE"@)
    } else {
        None
    }
}

/// Some clause has this id.
pub open spec fn has_clause(cs: Seq<ContractClause>, id: Seq<char>) -> bool {
    exists|k: int| 0 <= k < cs.len() && (#[trigger] cs[k]).clause_id@ == id
}

/// The error code of an API entry of a contract with the given clauses.
pub open spec fn api_entry_error(cs: Seq<ContractClause>, e: CallbackApiEntry) -> Option<Seq<char>> {
    if !present(e.clause_id@) || !present(e.api_id@) || !present(e.owner_kind@) {
        Some(required_code())
    } else if !has_clause(cs, e.clause_id@) {
        Some("BW-CONTRACT-CLAUSE-REFERENCE"@)
    } else {
        None
    }
}

/// The first error among the first `n` clauses.
pub open spec fn first_clause_error(cs: Seq<ContractClause>, n: int) -> Option<Seq<char>>
    decreases n,
{
    if n <= 0 {
        None
    } else if first_clause_error(cs, n - 1) is Some {
        first_clause_error(cs, n - 1)
    } else {
        clause_error(cs, n - 1)
    }
}

/// The first error among the first `n` API entries.
pub open spec fn first_api_entry_error(cs: Seq<ContractClause>, es: Seq<CallbackApiEntry>, n: int) -> Option<
    Seq<char>,
>
    decreases n,
{
    if n <= 0 {
        None
    } else if first_api_entry_error(cs, es, n - 1) is Some {
        first_api_entry_error(cs, es, n - 1)
    } else {
        api_entry_error(cs, es[n - 1])
    }
}

/// The first error of a contract, checking its ids, then its clauses in order, then its API
/// entries in order.
pub open spec fn contract_error(c: CallbackRetentionContract) -> Option<Seq<char>> {
    if !present(c.contract_id@) || !present(c.producer@) {
        Some(required_code())
    } else if first_clause_error(c.clauses@, c.clauses@.len() as int) is Some {
        first_clause_error(c.clauses@, c.clauses@.len() as int)
    } else {
        first_api_entry_error(c.clauses@, c.api_entries@, c.api_entries@.len() as int)
    }
}

proof fn lemma_first_clause_error_stable(cs: Seq<ContractClause>, n: int, m: int)
    requires
        0 <= n <= m,
        first_clause_error(cs, n) is Some,
    ensures
        first_clause_error(cs, m) == first_clause_error(cs, n),
    decreases m - n,
{
    if m > n {
        lemma_first_clause_error_stable(cs, n, m - 1);
    }
}

proof fn lemma_first_api_entry_error_stable(
    cs: Seq<ContractClause>,
    es: Seq<CallbackApiEntry>,
    n: int,
    m: int,
)
    requires
        0 <= n <= m,
        first_api_entry_error(cs, es, n) is Some,
    ensures
        first_api_entry_error(cs, es, m) == first_api_entry_error(cs, es, n),
    decreases m - n,
{
    if m > n {
        lemma_first_api_entry_error_stable(cs, es, n, m - 1);
    }
}

fn clause_id_seen(cs: &Vec<ContractClause>, n: usize, id: &String) -> (b: bool)
    requires
        n <= cs@.len(),
    ensures
        b == exists|j: int| 0 <= j < n && #[trigger] cs@[j].clause_id@ == id@,
{
    let mut j: usize = 0;
    while j < n
        invariant
            0 <= j <= n <= cs@.len(),
            forall|k: int| 0 <= k < j ==> (#[trigger] cs@[k]).clause_id@ != id@,
        decreases n - j,
    {
        if cs[j].clause_id == *id {
            return true;
        }
        j = j + 1;
    }
    false
}

impl CallbackRetentionContract {
    /// Checks the contract: its id and producer, each clause's id and description with no id
    /// twice, and each API entry's texts and that it names an existing clause. The error
    /// carries the code of the first check that fails.
    pub fn validate(&self) -> (r: Result<(), ModelError>)
        ensures
            match contract_error(*self) {
                None => r is Ok,
                Some(code) => r matches Err(e) && spec_error_code(e) == code,
            },
    {
        require_nonempty("contract_id", self.contract_id.as_str())?;
        require_nonempty("producer", self.producer.as_str())?;
        let mut i: usize = 0;
        while i < self.clauses.len()
            invariant
                0 <= i <= self.clauses@.len(),
                present(self.contract_id@) && present(self.producer@),
                first_clause_error(self.clauses@, i as int) is None,
            decreases self.clauses.len() - i,
        {
            let clause = &self.clauses[i];
            proof {
                if clause_error(self.clauses@, i as int) is Some {
                    lemma_first_clause_error_stable(self.clauses@, i + 1, self.clauses@.len() as int);
                }
            }
            require_nonempty("clauses.clause_id", clause.clause_id.as_str())?;
            require_nonempty("clauses.description", clause.description.as_str())?;
            if clause_id_seen(&self.clauses, i, &clause.clause_id) {
                return fail("BW-CONTRACT-CLAUSE-ID-DUPLICATE", "contract 中 clause_id 重复");
            }
            i = i + 1;
        }
        let mut i: usize = 0;
        while i < self.api_entries.len()
            invariant
                0 <= i <= self.api_entries@.len(),
                present(self.contract_id@) && present(self.producer@),
                first_clause_error(self.clauses@, self.clauses@.len() as int) is None,
                first_api_entry_error(self.clauses@, self.api_entries@, i as int) is None,
            decreases self.api_entries.len() - i,
        {
            let entry = &self.api_entries[i];
            proof {
                if api_entry_error(self.clauses@, self.api_entries@[i as int]) is Some {
                    lemma_first_api_entry_error_stable(
                        self.clauses@,
                        self.api_entries@,
                        i + 1,
                        self.api_entries@.len() as int,
                    );
                }
            }
            require_nonempty("api_entries.clause_id", entry.clause_id.as_str())?;
            require_nonempty("api_entries.api_id", entry.api_id.as_str())?;
            require_nonempty("api_entries.owner_kind", entry.owner_kind.as_str())?;
            if !clause_id_seen(&self.clauses, self.clauses.len(), &entry.clause_id) {
                return fail("BW-CONTRACT-CLAUSE-REFERENCE", "api entry 引用了不存在的 clause_id");
            }
            i = i + 1;
        }
        Ok(())
    }
}

} // verus!

verus! {

/// The entry declares some piece of opaque-handle metadata.
pub open spec fn has_opaque_metadata(e: CallbackRetentionApiMapEntry) -> bool {
    e.opaque_handle_role is Some || e.opaque_binding_api_id is Some
        || e.opaque_handle_arg_index is Some || e.opaque_key_arg_index is Some
        || e.opaque_payload_arg_index is Some || e.opaque_generation_key@.len() > 0
}

/// The error code of the generation key of an opaque-handle entry with the given role.
pub open spec fn generation_key_error(
    g: Seq<OpaqueHandleIdentityComponent>,
    role: OpaqueHandleApiRole,
) -> Option<Seq<char>> {
    if g.len() == 0 {
        Some("BW-CONTRACT-API-MAP-OPAQUE-GENERATION-KEY"@)
    } else if !g.no_duplicates() {
        Some("BW-CONTRACT-API-MAP-OPAQUE-GENERATION-KEY-DUPLICATE"@)
    } else if !g.contains(OpaqueHandleIdentityComponent::BindingApiId) || !g.contains(
        OpaqueHandleIdentityComponent::HandleArg,
    ) || !g.contains(OpaqueHandleIdentityComponent::KeyArg) {
        Some("BW-CONTRACT-API-MAP-OPAQUE-GENERATION-KEY-COMPONENT"@)
    } else if role == OpaqueHandleApiRole::Setter && !g.contains(
        OpaqueHandleIdentityComponent::PayloadArg,
    ) {
        Some("BW-CONTRACT-API-MAP-OPAQUE-GENERATION-KEY-PAYLOAD"@)
    } else if role == OpaqueHandleApiRole::Get && g.contains(OpaqueHandleIdentityComponent::PayloadArg) {
        Some("BW-CONTRACT-API-MAP-OPAQUE-GENERATION-KEY-GET-PAYLOAD"@)
    } else {
        None
    }
}

/// The error code of the opaque-handle declaration of an entry with a role.
pub open spec fn opaque_role_error(e: CallbackRetentionApiMapEntry, role: OpaqueHandleApiRole) -> Option<
    Seq<char>,
> {
    if e.opaque_binding_api_id is None || !present(e.opaque_binding_api_id->0@) {
        Some("BW-CONTRACT-API-MAP-OPAQUE-BINDING-API-ID"@)
    } else if role == OpaqueHandleApiRole::Setter && e.opaque_binding_api_id->0@ != e.api_id@ {
        Some("BW-CONTRACT-API-MAP-OPAQUE-SET-BINDING-API-ID"@)
    } else if e.opaque_handle_arg_index is None || e.opaque_key_arg_index is None {
        Some("BW-CONTRACT-API-MAP-OPAQUE-ARG-INDEX"@)
    } else if generation_key_error(e.opaque_generation_key@, role) is Some {
        generation_key_error(e.opaque_generation_key@, role)
    } else if role == OpaqueHandleApiRole::Setter && e.opaque_payload_arg_index is None {
        Some("BW-CONTRACT-API-MAP-OPAQUE-PAYLOAD-ARG-INDEX"@)
    } else if role == OpaqueHandleApiRole::Get && e.opaque_payload_arg_index is Some {
        Some("BW-CONTRACT-API-MAP-OPAQUE-GET-PAYLOAD-ARG-INDEX"@)
    } else {
        None
    }
}

/// The error code of the entry at `i` taken on its own and against the entries before it.
pub open spec fn map_entry_error(es: Seq<CallbackRetentionApiMapEntry>, i: int) -> Option<Seq<char>> {
    let e = es[i];
    if !present(e.api_id@) || !present(e.rust_path@) || !present(e.contract_api_id@) || !present(
        e.callback_family@,
    ) {
        Some(required_code())
    } else if exists|j: int| 0 <= j < i && #[trigger] es[j].api_id@ == e.api_id@ {
        Some("BW-CONTRACT-API-MAP-API-ID-DUPLICATE"@)
    } else if e.non_static_callback_max_version is Some && spec_parse_plain_version(
        e.non_static_callback_max_version->0@,
    ) is None {
        Some("BW-CONTRACT-API-MAP-NON-STATIC-CALLBACK-MAX-VERSION"@)
    } else if has_opaque_metadata(e) && e.opaque_handle_role is None {
        Some("BW-CONTRACT-API-MAP-OPAQUE-ROLE"@)
    } else if e.opaque_handle_role is Some {
        opaque_role_error(e, e.opaque_handle_role->0)
    } else {
        None
    }
}

/// The first error among the first `n` entries.
pub open spec fn first_map_entry_error(es: Seq<CallbackRetentionApiMapEntry>, n: int) -> Option<
    Seq<char>,
>
    decreases n,
{
    if n <= 0 {
        None
    } else if first_map_entry_error(es, n - 1) is Some {
        first_map_entry_error(es, n - 1)
    } else {
        map_entry_error(es, n - 1)
    }
}

/// The first entry with this API id.
pub open spec fn first_with_api_id(es: Seq<CallbackRetentionApiMapEntry>, id: Seq<char>) -> int {
    choose|k: int|
        0 <= k < es.len() && (#[trigger] es[k]).api_id@ == id && forall|j: int|
            0 <= j < k ==> (#[trigger] es[j]).api_id@ != id
}

/// The error code of the binding that an entry names, checked against the entry it names.
pub open spec fn binding_error(es: Seq<CallbackRetentionApiMapEntry>, e: CallbackRetentionApiMapEntry) -> Option<
    Seq<char>,
> {
    match e.opaque_binding_api_id {
        None => None,
        Some(b) => if !exists|k: int| 0 <= k < es.len() && (#[trigger] es[k]).api_id@ == b@ {
            Some("BW-CONTRACT-API-MAP-OPAQUE-BINDING-REFERENCE"@)
        } else {
            let be = es[first_with_api_id(es, b@)];
            if be.opaque_handle_role != Some(OpaqueHandleApiRole::Setter) {
                Some("BW-CONTRACT-API-MAP-OPAQUE-BINDING-ROLE"@)
            } else if be.callback_family@ != e.callback_family@ {
                Some("BW-CONTRACT-API-MAP-OPAQUE-BINDING-FAMILY"@)
            } else if !be.opaque_generation_key@.contains(OpaqueHandleIdentityComponent::PayloadArg) {
                Some("BW-CONTRACT-API-MAP-OPAQUE-BINDING-GENERATION-KEY"@)
            } else {
                None
            }
        },
    }
}

/// The first binding error among the first `n` entries.
pub open spec fn first_binding_error(es: Seq<CallbackRetentionApiMapEntry>, n: int) -> Option<
    Seq<char>,
>
    decreases n,
{
    if n <= 0 {
        None
    } else if first_binding_error(es, n - 1) is Some {
        first_binding_error(es, n - 1)
    } else {
        binding_error(es, es[n - 1])
    }
}

/// The first error of an API map: its ids, then each entry in order, then each entry's
/// binding in order.
pub open spec fn api_map_error(m: CallbackRetentionApiMap) -> Option<Seq<char>> {
    if !present(m.map_id@) || !present(m.producer@) || !present(m.contract_id@) {
        Some(required_code())
    } else if first_map_entry_error(m.apis@, m.apis@.len() as int) is Some {
        first_map_entry_error(m.apis@, m.apis@.len() as int)
    } else {
        first_binding_error(m.apis@, m.apis@.len() as int)
    }
}

proof fn lemma_first_map_entry_error_stable(es: Seq<CallbackRetentionApiMapEntry>, n: int, m: int)
    requires
        0 <= n <= m,
        first_map_entry_error(es, n) is Some,
    ensures
        first_map_entry_error(es, m) == first_map_entry_error(es, n),
    decreases m - n,
{
    if m > n {
        lemma_first_map_entry_error_stable(es, n, m - 1);
    }
}

proof fn lemma_first_binding_error_stable(es: Seq<CallbackRetentionApiMapEntry>, n: int, m: int)
    requires
        0 <= n <= m,
        first_binding_error(es, n) is Some,
    ensures
        first_binding_error(es, m) == first_binding_error(es, n),
    decreases m - n,
{
    if m > n {
        lemma_first_binding_error_stable(es, n, m - 1);
    }
}

fn has_component(g: &Vec<OpaqueHandleIdentityComponent>, c: OpaqueHandleIdentityComponent) -> (b: bool)
    ensures
        b == g@.contains(c),
{
    let mut i: usize = 0;
    while i < g.len()
        invariant
            0 <= i <= g@.len(),
            forall|k: int| 0 <= k < i ==> g@[k] != c,
        decreases g.len() - i,
    {
        if g[i] == c {
            assert(g@[i as int] == c);
            return true;
        }
        i = i + 1;
    }
    false
}

fn components_distinct(g: &Vec<OpaqueHandleIdentityComponent>) -> (b: bool)
    ensures
        b == g@.no_duplicates(),
{
    let mut j: usize = 0;
    while j < g.len()
        invariant
            0 <= j <= g@.len(),
            forall|a: int, b: int| 0 <= a < b < j ==> g@[a] != g@[b],
        decreases g.len() - j,
    {
        let mut i: usize = 0;
        while i < j
            invariant
                0 <= i <= j < g@.len(),
                forall|a: int, b: int| 0 <= a < b < j ==> g@[a] != g@[b],
                forall|a: int| 0 <= a < i ==> g@[a] != g@[j as int],
            decreases j - i,
        {
            if g[i] == g[j] {
                assert(!g@.no_duplicates()) by {
                    assert(g@[i as int] == g@[j as int]);
                }
                return false;
            }
            i = i + 1;
        }
        j = j + 1;
    }
    assert forall|a: int, b: int| 0 <= a < g@.len() && 0 <= b < g@.len() && a != b implies g@[a] != g@[b] by {
        if b < a {
            assert(g@[b] != g@[a]);
        }
    }
    true
}

fn validate_opaque_generation_key(
    g: &Vec<OpaqueHandleIdentityComponent>,
    role: OpaqueHandleApiRole,
) -> (r: Result<(), ModelError>)
    ensures
        match generation_key_error(g@, role) {
            None => r is Ok,
            Some(code) => r matches Err(e) && spec_error_code(e) == code,
        },
{
    if g.len() == 0 {
        return fail("BW-CONTRACT-API-MAP-OPAQUE-GENERATION-KEY", "opaque handle API 必须声明结构化 opaque_generation_key");
    }
    if !components_distinct(g) {
        return fail("BW-CONTRACT-API-MAP-OPAQUE-GENERATION-KEY-DUPLICATE", "opaque handle API 的 opaque_generation_key 包含重复 component");
    }
    if !has_component(g, OpaqueHandleIdentityComponent::BindingApiId)
        || !has_component(g, OpaqueHandleIdentityComponent::HandleArg)
        || !has_component(g, OpaqueHandleIdentityComponent::KeyArg) {
        return fail("BW-CONTRACT-API-MAP-OPAQUE-GENERATION-KEY-COMPONENT", "opaque handle API 的 opaque_generation_key 必须包含 binding_api_id、handle_arg、key_arg");
    }
    let has_payload = has_component(g, OpaqueHandleIdentityComponent::PayloadArg);
    match role {
        OpaqueHandleApiRole::Setter => if !has_payload {
            return fail("BW-CONTRACT-API-MAP-OPAQUE-GENERATION-KEY-PAYLOAD", "opaque handle set API 的 opaque_generation_key 必须包含 payload_arg");
        },
        OpaqueHandleApiRole::Get => if has_payload {
            return fail("BW-CONTRACT-API-MAP-OPAQUE-GENERATION-KEY-GET-PAYLOAD", "opaque handle get API 的 opaque_generation_key 不应包含 payload_arg");
        },
    }
    Ok(())
}

fn api_id_seen(es: &Vec<CallbackRetentionApiMapEntry>, n: usize, id: &String) -> (b: bool)
    requires
        n <= es@.len(),
    ensures
        b == exists|j: int| 0 <= j < n && #[trigger] es@[j].api_id@ == id@,
{
    let mut j: usize = 0;
    while j < n
        invariant
            0 <= j <= n <= es@.len(),
            forall|k: int| 0 <= k < j ==> (#[trigger] es@[k]).api_id@ != id@,
        decreases n - j,
    {
        if es[j].api_id == *id {
            return true;
        }
        j = j + 1;
    }
    false
}

fn check_map_entry(es: &Vec<CallbackRetentionApiMapEntry>, i: usize) -> (r: Result<(), ModelError>)
    requires
        i < es@.len(),
    ensures
        match map_entry_error(es@, i as int) {
            None => r is Ok,
            Some(code) => r matches Err(e) && spec_error_code(e) == code,
        },
{
    let entry = &es[i];
    require_nonempty("apis.api_id", entry.api_id.as_str())?;
    require_nonempty("apis.rust_path", entry.rust_path.as_str())?;
    require_nonempty("apis.contract_api_id", entry.contract_api_id.as_str())?;
    require_nonempty("apis.callback_family", entry.callback_family.as_str())?;
    if api_id_seen(es, i, &entry.api_id) {
        return fail("BW-CONTRACT-API-MAP-API-ID-DUPLICATE", "api map 中 api_id 重复");
    }
    if let Some(boundary) = &entry.non_static_callback_max_version {
        if parse_plain_version(boundary.as_str()).is_none() {
            return fail(
                "BW-CONTRACT-API-MAP-NON-STATIC-CALLBACK-MAX-VERSION",
                "non_static_callback_max_version 必须是纯三段数字版本",
            );
        }
    }
    let has_opaque_metadata = entry.opaque_handle_role.is_some()
        || entry.opaque_binding_api_id.is_some() || entry.opaque_handle_arg_index.is_some()
        || entry.opaque_key_arg_index.is_some() || entry.opaque_payload_arg_index.is_some()
        || entry.opaque_generation_key.len() > 0;
    if has_opaque_metadata && entry.opaque_handle_role.is_none() {
        return fail("BW-CONTRACT-API-MAP-OPAQUE-ROLE", "opaque handle API 声明了 opaque metadata 但缺少 opaque_handle_role");
    }
    if let Some(role) = entry.opaque_handle_role {
        let binding_blank = match &entry.opaque_binding_api_id {
            Some(b) => str_is_blank(b.as_str()),
            None => true,
        };
        if binding_blank {
            return fail("BW-CONTRACT-API-MAP-OPAQUE-BINDING-API-ID", "opaque handle API 缺少 opaque_binding_api_id");
        }
        if role == OpaqueHandleApiRole::Setter {
            let same = match &entry.opaque_binding_api_id {
                Some(b) => *b == entry.api_id,
                None => false,
            };
            if !same {
                return fail(
                    "BW-CONTRACT-API-MAP-OPAQUE-SET-BINDING-API-ID",
                    "opaque handle set API 必须以自身 api_id 作为 opaque_binding_api_id",
                );
            }
        }
        if entry.opaque_handle_arg_index.is_none() || entry.opaque_key_arg_index.is_none() {
            return fail("BW-CONTRACT-API-MAP-OPAQUE-ARG-INDEX", "opaque handle API 必须声明 handle/key 参数 index");
        }
        validate_opaque_generation_key(&entry.opaque_generation_key, role)?;
        match role {
            OpaqueHandleApiRole::Setter => if entry.opaque_payload_arg_index.is_none() {
                return fail("BW-CONTRACT-API-MAP-OPAQUE-PAYLOAD-ARG-INDEX", "opaque handle set API 缺少 payload 参数 index");
            },
            OpaqueHandleApiRole::Get => if entry.opaque_payload_arg_index.is_some() {
                return fail("BW-CONTRACT-API-MAP-OPAQUE-GET-PAYLOAD-ARG-INDEX", "opaque handle get API 不应声明 payload 参数 index");
            },
        }
    }
    Ok(())
}

fn find_api(es: &Vec<CallbackRetentionApiMapEntry>, id: &String) -> (r: Option<usize>)
    ensures
        match r {
            Some(k) => k < es@.len() && es@[k as int].api_id@ == id@ && forall|j: int|
                0 <= j < k ==> (#[trigger] es@[j]).api_id@ != id@,
            None => !exists|k: int| 0 <= k < es@.len() && (#[trigger] es@[k]).api_id@ == id@,
        },
{
    let mut j: usize = 0;
    while j < es.len()
        invariant
            0 <= j <= es@.len(),
            forall|k: int| 0 <= k < j ==> (#[trigger] es@[k]).api_id@ != id@,
        decreases es.len() - j,
    {
        if es[j].api_id == *id {
            return Some(j);
        }
        j = j + 1;
    }
    None
}

fn check_binding(es: &Vec<CallbackRetentionApiMapEntry>, i: usize) -> (r: Result<(), ModelError>)
    requires
        i < es@.len(),
    ensures
        match binding_error(es@, es@[i as int]) {
            None => r is Ok,
            Some(code) => r matches Err(e) && spec_error_code(e) == code,
        },
{
    let entry = &es[i];
    let binding = match &entry.opaque_binding_api_id {
        Some(b) => b,
        None => {
            return Ok(());
        },
    };
    let k = match find_api(es, binding) {
        Some(k) => k,
        None => {
            return fail("BW-CONTRACT-API-MAP-OPAQUE-BINDING-REFERENCE", "opaque handle API 引用了不存在的 opaque_binding_api_id");
        },
    };
    proof {
        let w = first_with_api_id(es@, binding@);
        assert(es@[k as int].api_id@ == binding@);
        if w != k as int {
            assert(w < k || k < w);
        }
        assert(w == k as int);
    }
    let be = &es[k];
    let is_setter = match be.opaque_handle_role {
        Some(OpaqueHandleApiRole::Setter) => true,
        _ => false,
    };
    if !is_setter {
        return fail("BW-CONTRACT-API-MAP-OPAQUE-BINDING-ROLE", "opaque handle API 的 opaque_binding_api_id 不是 set role");
    }
    if be.callback_family != entry.callback_family {
        return fail("BW-CONTRACT-API-MAP-OPAQUE-BINDING-FAMILY", "opaque handle API 与 binding API 的 callback_family 不一致");
    }
    if !has_component(&be.opaque_generation_key, OpaqueHandleIdentityComponent::PayloadArg) {
        return fail("BW-CONTRACT-API-MAP-OPAQUE-BINDING-GENERATION-KEY", "opaque handle API 的 binding API 缺少 payload generation key");
    }
    Ok(())
}

fn check_map_entries(es: &Vec<CallbackRetentionApiMapEntry>) -> (r: Result<(), ModelError>)
    ensures
        match first_map_entry_error(es@, es@.len() as int) {
            None => r is Ok,
            Some(code) => r matches Err(e) && spec_error_code(e) == code,
        },
{
    let mut i: usize = 0;
    while i < es.len()
        invariant
            0 <= i <= es@.len(),
            first_map_entry_error(es@, i as int) is None,
        decreases es.len() - i,
    {
        proof {
            if map_entry_error(es@, i as int) is Some {
                lemma_first_map_entry_error_stable(es@, i + 1, es@.len() as int);
            }
        }
        check_map_entry(es, i)?;
        i = i + 1;
    }
    Ok(())
}

fn check_bindings(es: &Vec<CallbackRetentionApiMapEntry>) -> (r: Result<(), ModelError>)
    ensures
        match first_binding_error(es@, es@.len() as int) {
            None => r is Ok,
            Some(code) => r matches Err(e) && spec_error_code(e) == code,
        },
{
    let mut i: usize = 0;
    while i < es.len()
        invariant
            0 <= i <= es@.len(),
            first_binding_error(es@, i as int) is None,
        decreases es.len() - i,
    {
        proof {
            if binding_error(es@, es@[i as int]) is Some {
                lemma_first_binding_error_stable(es@, i + 1, es@.len() as int);
            }
        }
        check_binding(es, i)?;
        i = i + 1;
    }
    Ok(())
}

impl CallbackRetentionApiMap {
    /// Checks the API map: its ids; each entry's texts, unique API id, version boundary and
    /// opaque-handle declaration; then that every binding names a setter of the same callback
    /// family whose generation key holds the payload. The error carries the code of the first
    /// check that fails.
    pub fn validate(&self) -> (r: Result<(), ModelError>)
        ensures
            match api_map_error(*self) {
                None => r is Ok,
                Some(code) => r matches Err(e) && spec_error_code(e) == code,
            },
    {
        require_nonempty("map_id", self.map_id.as_str())?;
        require_nonempty("producer", self.producer.as_str())?;
        require_nonempty("contract_id", self.contract_id.as_str())?;
        check_map_entries(&self.apis)?;
        check_bindings(&self.apis)
    }
}

} // verus!

verus! {

/// The error of joining a contract and an API map: the contract's own error, then the map's,
/// then a mismatch of the contract ids they name.
pub open spec fn registry_error(c: CallbackRetentionContract, m: CallbackRetentionApiMap) -> Option<
    Seq<char>,
> {
    if contract_error(c) is Some {
        contract_error(c)
    } else if api_map_error(m) is Some {
        api_map_error(m)
    } else if c.contract_id@ != m.contract_id@ {
        Some("BW-CONTRACT-API-MAP-CONTRACT-ID"@)
    } else {
        None
    }
}

impl CallbackRetentionRegistry {
    /// Joins a parsed contract and API map into a registry once both are valid and name the
    /// same contract id.
    pub fn from_parts(contract: CallbackRetentionContract, api_map: CallbackRetentionApiMap) -> (r:
        Result<Self, ModelError>)
        ensures
            match registry_error(contract, api_map) {
                None => r matches Ok(reg) && reg.contract == contract && reg.api_map == api_map,
                Some(code) => r matches Err(e) && spec_error_code(e) == code,
            },
    {
        contract.validate()?;
        api_map.validate()?;
        if contract.contract_id != api_map.contract_id {
            return Err(ModelError::validation(
                "BW-CONTRACT-API-MAP-CONTRACT-ID",
                concat2("contract 与 api map 的 contract_id 不一致: ", contract.contract_id.as_str()),
            ));
        }
        Ok(CallbackRetentionRegistry { contract, api_map })
    }
}

} // verus!
