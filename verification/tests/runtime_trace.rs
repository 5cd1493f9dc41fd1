use bw_model::error::{Located, ModelError};
use bw_model::id::{BuildId, InstanceId, RecordId, RunId, SiteId, TraceId};
use bw_model::jsonl::{JsonlReader, JsonlStep, LineRead};
use bw_model::runtime_event::{
    CallbackRegisterEvent, ObjectCreateEvent, ObjectKind, RuntimeEvent, RuntimeEventEnvelope,
    TraceEndEvent, TraceStartEvent,
};
use bw_model::runtime_validate::validate_runtime_stream;

fn event(record: &str, trace: &str, seq: u64, payload: RuntimeEvent) -> Result<Located<RuntimeEventEnvelope>, ModelError> {
    Ok(Located {
        path: "trace.jsonl".to_owned(),
        line: seq as usize + 1,
        value: RuntimeEventEnvelope {
            schema_version: "bw.trace/0.1".to_owned(),
            record_id: RecordId(record.to_owned()),
            run_id: RunId("run:1".to_owned()),
            trace_id: TraceId(trace.to_owned()),
            seq,
            thread_id: "main".to_owned(),
            source: "fixture".to_owned(),
            payload,
        },
    })
}

fn start() -> RuntimeEvent {
    RuntimeEvent::TraceStart(TraceStartEvent { build_id: BuildId("build:1".to_owned()) })
}

fn create(id: &str, kind: ObjectKind) -> RuntimeEvent {
    RuntimeEvent::ObjectCreate(ObjectCreateEvent {
        instance_id: InstanceId(id.to_owned()),
        site_id: SiteId(format!("site:{id}")),
        object_kind: kind,
        epoch: 0,
        address_diag: None,
    })
}

fn register(cb: &str, owner: &str) -> RuntimeEvent {
    RuntimeEvent::CallbackRegister(CallbackRegisterEvent {
        callback_instance_id: InstanceId(cb.to_owned()),
        callback_site_id: SiteId("site:cb".to_owned()),
        owner_instance_id: InstanceId(owner.to_owned()),
        registration_site_id: SiteId("site:reg".to_owned()),
        api_id: "api:register".to_owned(),
    })
}

fn end(count: u64) -> RuntimeEvent {
    RuntimeEvent::TraceEnd(TraceEndEvent { event_count: count })
}

fn code_of(e: &ModelError) -> &'static str {
    e.code()
}

#[test]
fn a_complete_trace_is_summarized() {
    let events = vec![
        event("r0", "t1", 0, start()),
        event("r1", "t1", 1, create("owner", ObjectKind::ExternalOwner)),
        event("r2", "t1", 2, register("cb", "owner")),
        event("r3", "t1", 3, end(4)),
    ];
    let summary = validate_runtime_stream(events).expect("valid trace");
    assert_eq!(
        (summary.record_count, summary.trace_count, summary.object_count, summary.callback_count),
        (4, 1, 1, 1)
    );
}

#[test]
fn a_trace_must_start_with_trace_start_at_seq_zero() {
    let err = validate_runtime_stream(vec![event("r0", "t1", 0, create("o", ObjectKind::TrackedObject))])
        .expect_err("no start");
    assert_eq!(code_of(&err), "BW-TRACE-START-MISSING");
    let err = validate_runtime_stream(vec![event("r0", "t1", 1, start())]).expect_err("seq 1");
    assert_eq!(code_of(&err), "BW-TRACE-SEQ-START");
}

#[test]
fn registering_on_a_tracked_object_is_refused() {
    let events = vec![
        event("r0", "t1", 0, start()),
        event("r1", "t1", 1, create("o", ObjectKind::TrackedObject)),
        event("r2", "t1", 2, register("cb", "o")),
    ];
    let err = validate_runtime_stream(events).expect_err("owner kind");
    assert_eq!(code_of(&err), "BW-TRACE-OWNER-KIND");
    assert_eq!(err.line(), Some(3));
}

#[test]
fn the_declared_event_count_must_match() {
    let events = vec![event("r0", "t1", 0, start()), event("r1", "t1", 1, end(3))];
    let err = validate_runtime_stream(events).expect_err("count");
    assert_eq!(code_of(&err), "BW-TRACE-COUNT-MISMATCH");
}

#[test]
fn duplicate_records_and_unended_traces_are_refused() {
    let events = vec![event("r0", "t1", 0, start()), event("r0", "t1", 1, end(2))];
    assert_eq!(code_of(&validate_runtime_stream(events).unwrap_err()), "BW-TRACE-RECORD-DUPLICATE");
    let events = vec![event("r0", "t1", 0, start())];
    let err = validate_runtime_stream(events).unwrap_err();
    assert_eq!(code_of(&err), "BW-TRACE-END-MISSING");
    assert_eq!(err.line(), Some(1));
}

#[test]
fn an_upstream_error_is_passed_through() {
    let upstream = ModelError::validation("BW-UPSTREAM", "bad".to_owned());
    let err = validate_runtime_stream(vec![Err(upstream)]).unwrap_err();
    assert_eq!(code_of(&err), "BW-UPSTREAM");
}

#[test]
fn the_reader_skips_blank_lines_and_numbers_physical_lines() {
    let mut reader = JsonlReader::new("x.jsonl".to_owned(), 8);
    assert_eq!(reader.read_limit(), 10);
    match reader.step(LineRead::Line(b"\r\n".to_vec())) {
        JsonlStep::Skip => {}
        _ => panic!("a blank line is skipped"),
    }
    match reader.step(LineRead::Line(b"{\"a\":1}\n".to_vec())) {
        JsonlStep::Parse(line, bytes) => {
            assert_eq!(line, 2);
            assert_eq!(bytes, b"{\"a\":1}".to_vec());
        }
        _ => panic!("a record"),
    }
    match reader.step(LineRead::Line(b"0123456789\n".to_vec())) {
        JsonlStep::Fail(e) => {
            assert_eq!(e.line(), Some(3));
            assert!(matches!(e, ModelError::AtLine { .. }));
        }
        _ => panic!("too long"),
    }
    assert!(reader.is_finished());
    assert!(matches!(reader.step(LineRead::End), JsonlStep::Finished));
}
