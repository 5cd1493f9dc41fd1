# bw_model

A verified model of the records that a boundary-lifecycle study of Rust/FFI crates exchanges:
candidates, boundary indexes, static facts, callback-retention contracts, runtime events, and
the v3.2.6 lifecycle layer (evidence, facts, graphs, object chains, features, rankings and
pair comparisons). Every function in `src/` is checked by Verus against its `requires` /
`ensures` contract.

## Layout

- `src/` — the verified library, one module per record family. The main entry points are:
  - record validators (`validate_*`), which return `Ok` exactly when a file's records pass
    their checks and otherwise the code and line of the first failure;
  - `lifecycle::lifecycle_graph_from_candidate` and the templates of each pattern family;
  - `v326_graph_build::build_v3_2_6_lifecycle_graph` (evidence graph) and
    `v326_graph_v3_build::build_v3_2_6_lifecycle_graph_v3` (object-bound graph with object
    chains and incomplete reasons);
  - `v326_derive::derive_v3_2_6_lifecycle_features_with_context` (feature derivation),
    `v326_rank` (static ranking) and `v326_compare::compare_v3_2_6_pair`.
- Laws of the library stand as public proof functions named `law_*`, next to the functions
  they speak of.
- `src/v326_static_fields.rs` holds the only trusted item: the SHA-256 digest of a text, taken
  from the `sha2` crate and named `sha256_lower_hex` in contracts.
- `tests/` — ordinary Rust tests against the compiled library.
- `app/` — the unverified edge: parsing of JSON, JSONL and TOML into the library's types with
  `serde`, `serde_json`, `toml` and `zstd`, and file reading.

## Conventions

- Sets and maps of the model are kept as `Vec`s with a stated order: ordered sets of texts are
  strictly increasing (`texts_strictly_sorted`), and maps keyed by text are pairs in strictly
  increasing key order.
- Records whose derived `Clone` has no specification are passed by value where a function
  keeps only some of them (the candidate's own evidence, facts and contracts).
