//! Versioned findings that an oracle produces.

use vstd::prelude::*;

use crate::id::{BuildId, InstanceId, RecordId, RunId};

verus! {

#[derive(Clone, Copy, Debug, PartialEq, Eq, Structural)]
pub enum FindingClassification {
    Exposure,
    ConfirmedViolation,
}

#[derive(Clone, Copy, Debug, PartialEq, Eq, Structural)]
pub enum EvidenceSourceKind {
    StaticFact,
    ContractClause,
    RuntimeEvent,
}

/// A machine-readable reference from a finding to an auditable input record.
#[derive(Clone, Debug)]
pub struct EvidenceReference {
    pub record_id: RecordId,
    pub source_kind: EvidenceSourceKind,
    pub description_code: String,
}

/// A stable summary of the lifecycle state before or after the violating event.
#[derive(Clone, Debug)]
pub struct FindingStateSnapshot {
    pub object_state: Option<String>,
    pub capture_state: Option<String>,
    pub callback_state: Option<String>,
    pub owner_state: Option<String>,
}

impl Default for FindingStateSnapshot {
    fn default() -> (s: Self)
        ensures
            s.object_state is None,
            s.capture_state is None,
            s.callback_state is None,
            s.owner_state is None,
    {
        FindingStateSnapshot { object_state: None, capture_state: None, callback_state: None, owner_state: None }
    }
}

/// A versioned, normalisable finding produced by the oracle.
#[derive(Clone, Debug)]
pub struct Finding {
    pub schema_version: String,
    pub record_id: RecordId,
    pub rule_id: String,
    pub classification: FindingClassification,
    pub subject_object: Option<InstanceId>,
    pub subject_callback: Option<InstanceId>,
    pub first_violation_event: RecordId,
    pub evidence: Vec<EvidenceReference>,
    pub context_rule_ids: Vec<String>,
    pub state_before: FindingStateSnapshot,
    pub state_after: FindingStateSnapshot,
    pub normalized_signature: String,
    pub producer: String,
    pub build_id: BuildId,
    pub run_id: RunId,
    pub message: String,
}

} // verus!
