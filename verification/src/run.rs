//! The identity and completion state of one experiment run.

use vstd::prelude::*;

use crate::id::{BuildId, RunId};

verus! {

#[derive(Clone, Copy, Debug, PartialEq, Eq, Structural)]
pub enum PrimaryOutcome {
    NoFinding,
    ContractFinding,
    Asan,
    NativeCrash,
    Panic,
    Timeout,
    InvalidInput,
    ToolError,
}

/// Independent pieces of execution evidence that may hold together and cannot be folded into one
/// outcome.
#[derive(Clone, Copy, Debug, PartialEq, Eq, Structural)]
pub struct ExecutionEvidence {
    pub has_contract_finding: bool,
    pub has_asan_evidence: bool,
    pub has_native_crash: bool,
    pub has_panic: bool,
    pub has_timeout: bool,
}

#[derive(Clone, Copy, Debug, PartialEq, Eq, Structural)]
pub struct ExecutionResult {
    pub primary_outcome: PrimaryOutcome,
    pub evidence: ExecutionEvidence,
}

#[derive(Clone, Debug)]
pub struct ToolchainVersions {
    pub stable: String,
    pub compiler_nightly: Option<String>,
}

/// The immutable identity and completion state of one experiment run.
#[derive(Clone, Debug)]
pub struct RunManifest {
    pub schema_version: String,
    pub run_id: RunId,
    pub build_id: BuildId,
    pub git_commit: String,
    pub deployment_sha256: String,
    pub image_digest: String,
    pub config_digest: String,
    pub host: String,
    pub cpu_limit: Option<u32>,
    pub seed: Option<u64>,
    pub toolchains: ToolchainVersions,
    pub started_at_utc: String,
    pub completed_at_utc: Option<String>,
    pub execution: Option<ExecutionResult>,
}

} // verus!
