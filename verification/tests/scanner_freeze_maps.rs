use bw_model::scanner_freeze::{
    validate_v3_3_scanner_freeze, V33ScannerFreezeInputs, V33ScannerFreezeMethod, V33ScannerFreezeOutputs,
    V33ScannerFreezeRecord, V33ScannerFreezeSourceIdentityScan, V33ScannerFreezeToolchain,
    V3_3_SCANNER_FREEZE_SCHEMA_V1,
};
use std::collections::BTreeMap;

fn h(c: char) -> String {
    std::iter::repeat(c).take(64).collect()
}

fn record(api_map: BTreeMap<String, String>) -> V33ScannerFreezeRecord {
    let mut tokens = BTreeMap::new();
    tokens.insert("callback".to_owned(), 3u64);
    tokens.insert("boundary".to_owned(), 1u64);
    V33ScannerFreezeRecord {
        schema_version: V3_3_SCANNER_FREEZE_SCHEMA_V1.to_owned(),
        run_id: "run:1".to_owned(),
        frozen_at_utc: "2024-01-01T00:00:00Z".to_owned(),
        method: V33ScannerFreezeMethod {
            commit: std::iter::repeat('a').take(40).collect(),
            branch: "main".to_owned(),
            worktree_required_clean: true,
        },
        inputs: V33ScannerFreezeInputs {
            corpus_manifest_sha256: h('1'),
            anonymous_pairs_sha256: h('2'),
            feature_profile_sha256: h('3'),
            source_checksums_sha256: h('4'),
            contract_toml_sha256: h('5'),
            api_map_sha256: api_map.into_iter().collect(),
        },
        toolchain: V33ScannerFreezeToolchain {
            cargo_build_locked_for_method: true,
            scanner_build_precheck_locked: true,
            static_facts_rustup_toolchain: "nightly".to_owned(),
            static_facts_dyld_library_path: "/lib".to_owned(),
            stable_rustc: "1.80".to_owned(),
        },
        source_identity_scan: V33ScannerFreezeSourceIdentityScan {
            scanner_metadata_forbidden_tokens: "pass".to_owned(),
            source_tree_strong_identity_tokens_zero: true,
            generic_source_token_counts: tokens.into_iter().collect(),
        },
        outputs: V33ScannerFreezeOutputs {
            buildability_sha256: h('6'),
            boundary_index_sha256: h('7'),
            static_facts_sha256: h('8'),
            mir_coverage_sha256: h('9'),
            candidates_sha256: h('a'),
            contracts_sha256: h('b'),
            lifecycle_evidence_sha256: h('c'),
            lifecycle_facts_sha256: h('d'),
            lifecycle_coverage_sha256: h('e'),
            lifecycle_features_sha256: h('f'),
            ranked_candidates_sha256: h('0'),
        },
        notes: Vec::new(),
    }
}

#[test]
fn freeze_with_api_maps_in_key_order_is_valid() {
    let mut maps = BTreeMap::new();
    maps.insert("zlib".to_owned(), h('c'));
    maps.insert("curl".to_owned(), h('d'));
    let r = record(maps);
    assert_eq!(r.inputs.api_map_sha256[0].0, "curl");
    assert!(validate_v3_3_scanner_freeze(&r).is_ok());
}

#[test]
fn freeze_without_api_maps_is_refused() {
    let r = record(BTreeMap::new());
    let e = validate_v3_3_scanner_freeze(&r).unwrap_err();
    assert_eq!(e.code(), "BW-V33-FREEZE-API-MAP");
}

#[test]
fn freeze_with_an_upper_case_api_map_hash_is_refused() {
    let mut maps = BTreeMap::new();
    maps.insert("curl".to_owned(), h('D'));
    let r = record(maps);
    let e = validate_v3_3_scanner_freeze(&r).unwrap_err();
    assert_eq!(e.code(), "BW-V33-FREEZE-SHA256");
}
