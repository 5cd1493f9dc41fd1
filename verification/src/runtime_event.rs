//! The runtime events of a `bw.trace/0.1` trace.

use vstd::prelude::*;

use crate::id::{BuildId, InstanceId, RecordId, RunId, SiteId, TraceId};

verus! {

#[derive(Clone, Debug)]
pub struct TraceStartEvent {
    pub build_id: BuildId,
}

#[derive(Clone, Copy, Debug, PartialEq, Eq, Structural)]
pub enum ObjectKind {
    TrackedObject,
    ExternalOwner,
}

#[derive(Clone, Debug)]
pub struct ObjectCreateEvent {
    pub instance_id: InstanceId,
    pub site_id: SiteId,
    pub object_kind: ObjectKind,
    pub epoch: u64,
    pub address_diag: Option<String>,
}

#[derive(Clone, Debug)]
pub struct CaptureBindEvent {
    pub callback_instance_id: InstanceId,
    pub callback_site_id: SiteId,
    pub object_instance_id: InstanceId,
    pub object_site_id: SiteId,
}

#[derive(Clone, Debug)]
pub struct CallbackRegisterEvent {
    pub callback_instance_id: InstanceId,
    pub callback_site_id: SiteId,
    pub owner_instance_id: InstanceId,
    pub registration_site_id: SiteId,
    pub api_id: String,
}

#[derive(Clone, Copy, Debug, PartialEq, Eq, Structural)]
pub enum CallbackReleaseReason {
    Explicit,
    Replacement,
    OwnerDrop,
}

#[derive(Clone, Debug)]
pub struct CallbackUnregisterEvent {
    pub callback_instance_id: InstanceId,
    pub owner_instance_id: InstanceId,
    pub unregister_site_id: SiteId,
    pub api_id: String,
    pub reason: CallbackReleaseReason,
}

#[derive(Clone, Debug)]
pub struct CallbackInvokeEvent {
    pub callback_instance_id: InstanceId,
    pub invoke_site_id: SiteId,
    pub api_id: String,
}

#[derive(Clone, Debug)]
pub struct ObjectDropEvent {
    pub instance_id: InstanceId,
    pub drop_site_id: SiteId,
}

#[derive(Clone, Copy, Debug, PartialEq, Eq, Structural)]
pub enum ObjectUseKind {
    Read,
    Write,
    Borrow,
    External,
}

#[derive(Clone, Debug)]
pub struct ObjectUseEvent {
    pub instance_id: InstanceId,
    pub use_site_id: SiteId,
    pub use_kind: ObjectUseKind,
}

#[derive(Clone, Debug)]
pub struct ObjectFreeEvent {
    pub instance_id: InstanceId,
    pub free_site_id: SiteId,
}

#[derive(Clone, Copy, Debug, PartialEq, Eq, Structural)]
pub enum CheckpointKind {
    Registered,
    OwnerEndedOrReleased,
    LaterCallbackPhase,
}

#[derive(Clone, Copy, Debug, PartialEq, Eq, Structural)]
pub struct CheckpointEvent {
    pub checkpoint: CheckpointKind,
}

#[derive(Clone, Copy, Debug, PartialEq, Eq, Structural)]
pub struct TraceEndEvent {
    pub event_count: u64,
}

/// The kinds of runtime facts that `bw.trace/0.1` supports.
#[derive(Clone, Debug)]
pub enum RuntimeEvent {
    TraceStart(TraceStartEvent),
    ObjectCreate(ObjectCreateEvent),
    CaptureBind(CaptureBindEvent),
    CallbackRegister(CallbackRegisterEvent),
    CallbackUnregister(CallbackUnregisterEvent),
    CallbackInvoke(CallbackInvokeEvent),
    ObjectDrop(ObjectDropEvent),
    ObjectUse(ObjectUseEvent),
    ObjectFree(ObjectFreeEvent),
    Checkpoint(CheckpointEvent),
    TraceEnd(TraceEndEvent),
}

/// The versioned envelope of every runtime event.
#[derive(Clone, Debug)]
pub struct RuntimeEventEnvelope {
    pub schema_version: String,
    pub record_id: RecordId,
    pub run_id: RunId,
    pub trace_id: TraceId,
    pub seq: u64,
    pub thread_id: String,
    pub source: String,
    pub payload: RuntimeEvent,
}

} // verus!
