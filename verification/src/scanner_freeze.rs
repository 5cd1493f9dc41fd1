//! V3.3 scanner freeze: the record that pins the scanner, its inputs and its outputs before a
//! blind run.

use vstd::prelude::*;

use crate::error::{spec_error_code, ModelError};
use crate::static_fact::present;
use crate::text::{chars_of, concat2, owned, str_is_blank, text_lt};

verus! {

/// Schema version of scanner freeze records.
pub const V3_3_SCANNER_FREEZE_SCHEMA_V1: &'static str = "v3.3.scanner_freeze.1";

#[derive(Clone, Debug)]
pub struct V33ScannerFreezeRecord {
    pub schema_version: String,
    pub run_id: String,
    pub frozen_at_utc: String,
    pub method: V33ScannerFreezeMethod,
    pub inputs: V33ScannerFreezeInputs,
    pub toolchain: V33ScannerFreezeToolchain,
    pub source_identity_scan: V33ScannerFreezeSourceIdentityScan,
    pub outputs: V33ScannerFreezeOutputs,
    pub notes: Vec<String>,
}

#[derive(Clone, Debug)]
pub struct V33ScannerFreezeMethod {
    pub commit: String,
    pub branch: String,
    pub worktree_required_clean: bool,
}

/// The hashes of the frozen inputs. `api_map_sha256` holds the entries of the map from API
/// map name to hash in increasing order of name, each name once.
#[derive(Clone, Debug)]
pub struct V33ScannerFreezeInputs {
    pub corpus_manifest_sha256: String,
    pub anonymous_pairs_sha256: String,
    pub feature_profile_sha256: String,
    pub source_checksums_sha256: String,
    pub contract_toml_sha256: String,
    pub api_map_sha256: Vec<(String, String)>,
}

#[derive(Clone, Debug)]
pub struct V33ScannerFreezeToolchain {
    pub cargo_build_locked_for_method: bool,
    pub scanner_build_precheck_locked: bool,
    pub static_facts_rustup_toolchain: String,
    pub static_facts_dyld_library_path: String,
    pub stable_rustc: String,
}

/// The identity scan of the scanner's own source. `generic_source_token_counts` holds the
/// entries of the map from token to count in increasing order of token, each token once.
#[derive(Clone, Debug)]
pub struct V33ScannerFreezeSourceIdentityScan {
    pub scanner_metadata_forbidden_tokens: String,
    pub source_tree_strong_identity_tokens_zero: bool,
    pub generic_source_token_counts: Vec<(String, u64)>,
}

#[derive(Clone, Debug)]
pub struct V33ScannerFreezeOutputs {
    pub buildability_sha256: String,
    pub boundary_index_sha256: String,
    pub static_facts_sha256: String,
    pub mir_coverage_sha256: String,
    pub candidates_sha256: String,
    pub contracts_sha256: String,
    pub lifecycle_evidence_sha256: String,
    pub lifecycle_facts_sha256: String,
    pub lifecycle_coverage_sha256: String,
    pub lifecycle_features_sha256: String,
    pub ranked_candidates_sha256: String,
}

pub open spec fn is_hex_digit(c: char) -> bool {
    ('0' <= c && c <= '9') || ('a' <= c && c <= 'f') || ('A' <= c && c <= 'F')
}

/// A git commit id: forty hexadecimal digits.
pub open spec fn is_commit_id(s: Seq<char>) -> bool {
    s.len() == 40 && forall|i: int| 0 <= i < s.len() ==> is_hex_digit(#[trigger] s[i])
}

/// A SHA-256 digest in lower-case hexadecimal: sixty-four digits.
pub open spec fn is_sha256_hex(s: Seq<char>) -> bool {
    s.len() == 64 && forall|i: int|
        0 <= i < s.len() ==> is_hex_digit(#[trigger] s[i]) && !('A' <= s[i] && s[i] <= 'Z')
}

fn all_hex(value: &str, lower: bool) -> (b: bool)
    ensures
        b == forall|i: int|
            0 <= i < value@.len() ==> is_hex_digit(#[trigger] value@[i]) && (lower ==> !('A'
                <= value@[i] && value@[i] <= 'Z')),
{
    let cs = chars_of(value);
    let mut i: usize = 0;
    while i < cs.len()
        invariant
            cs@ == value@,
            0 <= i <= cs.len(),
            forall|k: int|
                0 <= k < i ==> is_hex_digit(#[trigger] value@[k]) && (lower ==> !('A' <= value@[k]
                    && value@[k] <= 'Z')),
        decreases cs.len() - i,
    {
        let c = cs[i];
        let hex = ('0' <= c && c <= '9') || ('a' <= c && c <= 'f') || ('A' <= c && c <= 'F');
        if !hex || (lower && 'A' <= c && c <= 'Z') {
            return false;
        }
        i = i + 1;
    }
    true
}

fn fail(code: &'static str, message: String) -> (r: Result<(), ModelError>)
    ensures
        r matches Err(e) && spec_error_code(e) == code@,
{
    Err(ModelError::validation(code, message))
}

fn validate_required(field: &str, value: &str) -> (r: Result<(), ModelError>)
    ensures
        r is Ok <==> present(value@),
        r matches Err(e) ==> spec_error_code(e) == "BW-V33-FREEZE-REQUIRED"@,
{
    if str_is_blank(value) {
        return fail("BW-V33-FREEZE-REQUIRED", concat2(field, " 不能为空"));
    }
    Ok(())
}

fn validate_commit(field: &str, value: &str) -> (r: Result<(), ModelError>)
    ensures
        r is Ok <==> present(value@) && is_commit_id(value@),
        r matches Err(e) ==> spec_error_code(e) == if present(value@) {
            "BW-V33-FREEZE-COMMIT"@
        } else {
            "BW-V33-FREEZE-REQUIRED"@
        },
{
    validate_required(field, value)?;
    if value.unicode_len() != 40 || !all_hex(value, false) {
        return fail("BW-V33-FREEZE-COMMIT", concat2(field, " 必须是 40 位 git commit SHA"));
    }
    Ok(())
}

fn validate_hash(field: &str, value: &str) -> (r: Result<(), ModelError>)
    ensures
        r is Ok <==> is_sha256_hex(value@),
        r matches Err(e) ==> spec_error_code(e) == "BW-V33-FREEZE-SHA256"@,
{
    if value.unicode_len() != 64 || !all_hex(value, true) {
        return fail("BW-V33-FREEZE-SHA256", concat2(field, " 必须是 64 位小写 SHA-256"));
    }
    Ok(())
}

/// The error code of the first failing entry of the API map hashes.
pub open spec fn api_map_error(entries: Seq<(String, String)>) -> Option<Seq<char>>
    decreases entries.len(),
{
    if entries.len() == 0 {
        None
    } else if !present(entries[0].0@) {
        Some("BW-V33-FREEZE-REQUIRED"@)
    } else if !is_sha256_hex(entries[0].1@) {
        Some("BW-V33-FREEZE-SHA256"@)
    } else {
        api_map_error(entries.drop_first())
    }
}

/// The output hashes, in the order they are checked.
pub open spec fn output_hashes(o: V33ScannerFreezeOutputs) -> Seq<Seq<char>> {
    seq![
        o.buildability_sha256@,
        o.boundary_index_sha256@,
        o.static_facts_sha256@,
        o.mir_coverage_sha256@,
        o.candidates_sha256@,
        o.contracts_sha256@,
        o.lifecycle_evidence_sha256@,
        o.lifecycle_facts_sha256@,
        o.lifecycle_coverage_sha256@,
        o.lifecycle_features_sha256@,
        o.ranked_candidates_sha256@,
    ]
}

/// Entries of a map kept as pairs: keys in strictly increasing order, so each key once.
pub open spec fn keys_strictly_increasing<V>(entries: Seq<(String, V)>) -> bool {
    forall|i: int, j: int| 0 <= i < j < entries.len() ==> text_lt(#[trigger] entries[i].0@, #[trigger] entries[j].0@)
}

/// A freeze record as its maps hold it: the API map hashes and the token counts each keyed
/// once, in order of key.
pub open spec fn freeze_maps_well_formed(r: V33ScannerFreezeRecord) -> bool {
    keys_strictly_increasing(r.inputs.api_map_sha256@) && keys_strictly_increasing(
        r.source_identity_scan.generic_source_token_counts@,
    )
}

/// The input hashes other than those of the API maps, in the order they are checked.
pub open spec fn input_hashes(i: V33ScannerFreezeInputs) -> Seq<Seq<char>> {
    seq![
        i.corpus_manifest_sha256@,
        i.anonymous_pairs_sha256@,
        i.feature_profile_sha256@,
        i.source_checksums_sha256@,
        i.contract_toml_sha256@,
    ]
}

pub open spec fn all_sha256(hashes: Seq<Seq<char>>) -> bool {
    forall|i: int| 0 <= i < hashes.len() ==> is_sha256_hex(#[trigger] hashes[i])
}

/// The error code of a scanner freeze record, or `None` when it is valid.
pub open spec fn freeze_error(r: V33ScannerFreezeRecord) -> Option<Seq<char>> {
    if r.schema_version@ != V3_3_SCANNER_FREEZE_SCHEMA_V1@ {
        Some("BW-V33-FREEZE-SCHEMA"@)
    } else if !present(r.run_id@) || !present(r.frozen_at_utc@) || !present(r.method.branch@)
        || !present(r.method.commit@) {
        Some("BW-V33-FREEZE-REQUIRED"@)
    } else if !is_commit_id(r.method.commit@) {
        Some("BW-V33-FREEZE-COMMIT"@)
    } else if !r.method.worktree_required_clean {
        Some("BW-V33-FREEZE-WORKTREE"@)
    } else if !r.toolchain.cargo_build_locked_for_method {
        Some("BW-V33-FREEZE-LOCKED"@)
    } else if !present(r.toolchain.static_facts_rustup_toolchain@) || !present(
        r.toolchain.static_facts_dyld_library_path@,
    ) || !present(r.toolchain.stable_rustc@) {
        Some("BW-V33-FREEZE-REQUIRED"@)
    } else if r.source_identity_scan.scanner_metadata_forbidden_tokens@ != "pass"@ {
        Some("BW-V33-FREEZE-TOKEN-SCAN"@)
    } else if !r.source_identity_scan.source_tree_strong_identity_tokens_zero {
        Some("BW-V33-FREEZE-SOURCE-IDENTITY"@)
    } else if !all_sha256(input_hashes(r.inputs)) {
        Some("BW-V33-FREEZE-SHA256"@)
    } else if r.inputs.api_map_sha256@.len() == 0 {
        Some("BW-V33-FREEZE-API-MAP"@)
    } else if api_map_error(r.inputs.api_map_sha256@) is Some {
        api_map_error(r.inputs.api_map_sha256@)
    } else if !all_sha256(output_hashes(r.outputs)) {
        Some("BW-V33-FREEZE-SHA256"@)
    } else {
        None
    }
}

fn validate_api_map(entries: &Vec<(String, String)>) -> (r: Result<(), ModelError>)
    ensures
        match api_map_error(entries@) {
            None => r is Ok,
            Some(code) => r matches Err(e) && spec_error_code(e) == code,
        },
{
    let mut i: usize = 0;
    assert(entries@.skip(0) =~= entries@);
    while i < entries.len()
        invariant
            0 <= i <= entries@.len(),
            api_map_error(entries@) == api_map_error(entries@.skip(i as int)),
        decreases entries.len() - i,
    {
        assert(entries@.skip(i as int).drop_first() =~= entries@.skip(i + 1));
        assert(entries@.skip(i as int)[0] == entries@[i as int]);
        validate_required("inputs.api_map_sha256 key", entries[i].0.as_str())?;
        validate_hash("inputs.api_map_sha256 value", entries[i].1.as_str())?;
        i = i + 1;
    }
    assert(entries@.skip(entries@.len() as int) =~= Seq::<(String, String)>::empty());
    Ok(())
}

/// Validates a scanner freeze record: the schema, the method commit and clean worktree, the
/// locked build, the toolchain, a passing identity scan and every recorded hash. The error
/// carries the code of the first check that fails.
pub fn validate_v3_3_scanner_freeze(record: &V33ScannerFreezeRecord) -> (r: Result<(), ModelError>)
    requires
        freeze_maps_well_formed(*record),
    ensures
        match freeze_error(*record) {
            None => r is Ok,
            Some(code) => r matches Err(e) && spec_error_code(e) == code,
        },
{
    if record.schema_version != owned(V3_3_SCANNER_FREEZE_SCHEMA_V1) {
        return fail(
            "BW-V33-FREEZE-SCHEMA",
            concat2("scanner freeze schema 必须是 v3.3.scanner_freeze.1，实际为 ", record.schema_version.as_str()),
        );
    }
    validate_required("run_id", record.run_id.as_str())?;
    validate_required("frozen_at_utc", record.frozen_at_utc.as_str())?;
    validate_required("method.branch", record.method.branch.as_str())?;
    validate_commit("method.commit", record.method.commit.as_str())?;
    if !record.method.worktree_required_clean {
        return fail("BW-V33-FREEZE-WORKTREE", owned("scanner freeze 必须要求 clean worktree"));
    }
    if !record.toolchain.cargo_build_locked_for_method {
        return fail("BW-V33-FREEZE-LOCKED", owned("method build 必须记录为 cargo --locked"));
    }
    validate_required("toolchain.static_facts_rustup_toolchain", record.toolchain.static_facts_rustup_toolchain.as_str())?;
    validate_required("toolchain.static_facts_dyld_library_path", record.toolchain.static_facts_dyld_library_path.as_str())?;
    validate_required("toolchain.stable_rustc", record.toolchain.stable_rustc.as_str())?;
    if record.source_identity_scan.scanner_metadata_forbidden_tokens != owned("pass") {
        return fail("BW-V33-FREEZE-TOKEN-SCAN", owned("scanner metadata forbidden-token scan 必须为 pass"));
    }
    if !record.source_identity_scan.source_tree_strong_identity_tokens_zero {
        return fail("BW-V33-FREEZE-SOURCE-IDENTITY", owned("source tree strong identity token scan 必须为 0"));
    }
    let inputs = &record.inputs;
    validate_hash("inputs.corpus_manifest_sha256", inputs.corpus_manifest_sha256.as_str())?;
    validate_hash("inputs.anonymous_pairs_sha256", inputs.anonymous_pairs_sha256.as_str())?;
    validate_hash("inputs.feature_profile_sha256", inputs.feature_profile_sha256.as_str())?;
    validate_hash("inputs.source_checksums_sha256", inputs.source_checksums_sha256.as_str())?;
    validate_hash("inputs.contract_toml_sha256", inputs.contract_toml_sha256.as_str())?;
    assert(all_sha256(input_hashes(*inputs)));
    if inputs.api_map_sha256.len() == 0 {
        return fail("BW-V33-FREEZE-API-MAP", owned("api_map_sha256 不能为空"));
    }
    validate_api_map(&inputs.api_map_sha256)?;
    let o = &record.outputs;
    validate_hash("outputs.buildability_sha256", o.buildability_sha256.as_str())?;
    validate_hash("outputs.boundary_index_sha256", o.boundary_index_sha256.as_str())?;
    validate_hash("outputs.static_facts_sha256", o.static_facts_sha256.as_str())?;
    validate_hash("outputs.mir_coverage_sha256", o.mir_coverage_sha256.as_str())?;
    validate_hash("outputs.candidates_sha256", o.candidates_sha256.as_str())?;
    validate_hash("outputs.contracts_sha256", o.contracts_sha256.as_str())?;
    validate_hash("outputs.lifecycle_evidence_sha256", o.lifecycle_evidence_sha256.as_str())?;
    validate_hash("outputs.lifecycle_facts_sha256", o.lifecycle_facts_sha256.as_str())?;
    validate_hash("outputs.lifecycle_coverage_sha256", o.lifecycle_coverage_sha256.as_str())?;
    validate_hash("outputs.lifecycle_features_sha256", o.lifecycle_features_sha256.as_str())?;
    validate_hash("outputs.ranked_candidates_sha256", o.ranked_candidates_sha256.as_str())?;
    assert(all_sha256(output_hashes(*o)));
    Ok(())
}

} // verus!
