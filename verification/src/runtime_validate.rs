//! Structural validation of runtime event streams: records, trace sequences and the objects and
//! callbacks that events refer to.

use vstd::prelude::*;

use crate::error::{is_error_at, Located, ModelError};
use crate::runtime_event::{ObjectKind, RuntimeEvent, RuntimeEventEnvelope};
use crate::text::text_lt;

verus! {

/// A created object of a trace: its instance id, site and kind.
pub struct ObjectView {
    pub id: Seq<char>,
    pub site: Seq<char>,
    pub kind: ObjectKind,
}

/// A registered callback of a trace: its instance id, site and owner instance.
pub struct CallbackView {
    pub id: Seq<char>,
    pub site: Seq<char>,
    pub owner: Seq<char>,
}

/// What is known of a trace after some of its events: its run, its last sequence number, whether
/// it ended, how many events it had, its objects and callbacks, and where its last event stood.
pub struct TraceView {
    pub id: Seq<char>,
    pub run: Seq<char>,
    pub last_seq: u64,
    pub ended: bool,
    pub event_count: nat,
    pub objects: Seq<ObjectView>,
    pub callbacks: Seq<CallbackView>,
    pub last_path: Seq<char>,
    pub last_line: usize,
}

/// What is known after some events of a stream: the record ids seen, the run and build ids fixed
/// by the first events, the traces in the order they started, and the counts of records,
/// objects and callbacks.
pub struct StreamView {
    pub records: Seq<Seq<char>>,
    pub run: Option<Seq<char>>,
    pub build: Option<Seq<char>>,
    pub traces: Seq<TraceView>,
    pub record_count: nat,
    pub object_count: nat,
    pub callback_count: nat,
}

/// The position of the first item whose key is `id`, or -1.
pub open spec fn find_key<T>(s: Seq<T>, key: spec_fn(T) -> Seq<char>, id: Seq<char>) -> int
    decreases s.len(),
{
    if s.len() == 0 {
        -1
    } else if find_key(s.drop_last(), key, id) >= 0 {
        find_key(s.drop_last(), key, id)
    } else if key(s.last()) == id {
        s.len() - 1
    } else {
        -1
    }
}

pub proof fn lemma_find_key<T>(s: Seq<T>, key: spec_fn(T) -> Seq<char>, id: Seq<char>)
    ensures
        find_key(s, key, id) == -1 <==> forall|j: int| 0 <= j < s.len() ==> key(#[trigger] s[j]) != id,
        find_key(s, key, id) >= 0 ==> {
            &&& find_key(s, key, id) < s.len()
            &&& key(s[find_key(s, key, id)]) == id
            &&& forall|j: int| 0 <= j < find_key(s, key, id) ==> key(#[trigger] s[j]) != id
        },
        find_key(s, key, id) >= -1,
    decreases s.len(),
{
    if s.len() > 0 {
        lemma_find_key(s.drop_last(), key, id);
        assert forall|j: int| 0 <= j < s.len() - 1 implies s.drop_last()[j] == s[j] by {}
    }
}

pub open spec fn object_key() -> spec_fn(ObjectView) -> Seq<char> {
    |o: ObjectView| o.id
}

pub open spec fn callback_key() -> spec_fn(CallbackView) -> Seq<char> {
    |c: CallbackView| c.id
}

pub open spec fn trace_key() -> spec_fn(TraceView) -> Seq<char> {
    |t: TraceView| t.id
}

/// The effect of an event's payload on a trace it continues: the trace after it and the numbers
/// of objects and callbacks it adds, or the code of the check it fails.
pub open spec fn payload_step(tr: TraceView, e: RuntimeEventEnvelope) -> Result<(TraceView, nat, nat), Seq<char>> {
    match e.payload {
        RuntimeEvent::TraceStart(_) => Err("BW-TRACE-START-DUPLICATE"@),
        RuntimeEvent::ObjectCreate(c) => {
            if find_key(tr.objects, object_key(), c.instance_id.0@) >= 0 {
                Err("BW-TRACE-OBJECT-DUPLICATE"@)
            } else {
                Ok(
                    (
                        TraceView {
                            objects: tr.objects.push(
                                ObjectView { id: c.instance_id.0@, site: c.site_id.0@, kind: c.object_kind },
                            ),
                            ..tr
                        },
                        1,
                        0,
                    ),
                )
            }
        },
        RuntimeEvent::CaptureBind(b) => {
            let ci = find_key(tr.callbacks, callback_key(), b.callback_instance_id.0@);
            let oi = find_key(tr.objects, object_key(), b.object_instance_id.0@);
            if ci < 0 {
                Err("BW-TRACE-CALLBACK-MISSING"@)
            } else if tr.callbacks[ci].site != b.callback_site_id.0@ {
                Err("BW-TRACE-CALLBACK-SITE-MISMATCH"@)
            } else if oi < 0 {
                Err("BW-TRACE-OBJECT-MISSING"@)
            } else if tr.objects[oi].site != b.object_site_id.0@ {
                Err("BW-TRACE-OBJECT-SITE-MISMATCH"@)
            } else {
                Ok((tr, 0, 0))
            }
        },
        RuntimeEvent::CallbackRegister(r) => {
            let oi = find_key(tr.objects, object_key(), r.owner_instance_id.0@);
            if oi < 0 {
                Err("BW-TRACE-OBJECT-MISSING"@)
            } else if tr.objects[oi].kind != ObjectKind::ExternalOwner {
                Err("BW-TRACE-OWNER-KIND"@)
            } else if find_key(tr.callbacks, callback_key(), r.callback_instance_id.0@) >= 0 {
                Err("BW-TRACE-CALLBACK-DUPLICATE"@)
            } else {
                Ok(
                    (
                        TraceView {
                            callbacks: tr.callbacks.push(
                                CallbackView {
                                    id: r.callback_instance_id.0@,
                                    site: r.callback_site_id.0@,
                                    owner: r.owner_instance_id.0@,
                                },
                            ),
                            ..tr
                        },
                        0,
                        1,
                    ),
                )
            }
        },
        RuntimeEvent::CallbackUnregister(u) => {
            let ci = find_key(tr.callbacks, callback_key(), u.callback_instance_id.0@);
            if ci < 0 {
                Err("BW-TRACE-CALLBACK-MISSING"@)
            } else if tr.callbacks[ci].owner != u.owner_instance_id.0@ {
                Err("BW-TRACE-OWNER-MISMATCH"@)
            } else {
                Ok((tr, 0, 0))
            }
        },
        RuntimeEvent::CallbackInvoke(i) => {
            if find_key(tr.callbacks, callback_key(), i.callback_instance_id.0@) < 0 {
                Err("BW-TRACE-CALLBACK-MISSING"@)
            } else {
                Ok((tr, 0, 0))
            }
        },
        RuntimeEvent::ObjectDrop(d) => {
            if find_key(tr.objects, object_key(), d.instance_id.0@) < 0 {
                Err("BW-TRACE-OBJECT-MISSING"@)
            } else {
                Ok((tr, 0, 0))
            }
        },
        RuntimeEvent::ObjectUse(u) => {
            if find_key(tr.objects, object_key(), u.instance_id.0@) < 0 {
                Err("BW-TRACE-OBJECT-MISSING"@)
            } else {
                Ok((tr, 0, 0))
            }
        },
        RuntimeEvent::ObjectFree(f) => {
            if find_key(tr.objects, object_key(), f.instance_id.0@) < 0 {
                Err("BW-TRACE-OBJECT-MISSING"@)
            } else {
                Ok((tr, 0, 0))
            }
        },
        RuntimeEvent::Checkpoint(_) => Ok((tr, 0, 0)),
        RuntimeEvent::TraceEnd(end) => {
            if end.event_count != tr.event_count + 1 {
                Err("BW-TRACE-COUNT-MISMATCH"@)
            } else {
                Ok((TraceView { ended: true, ..tr }, 0, 0))
            }
        },
    }
}

/// The effect of one located event on the stream: the stream after it, or the code of the check
/// it fails. A trace must start with `trace_start` at sequence 0; later events of a trace must
/// come before its end, keep its run and strictly increase its sequence numbers.
pub open spec fn stream_step(st: StreamView, ev: Located<RuntimeEventEnvelope>) -> Result<StreamView, Seq<char>> {
    let e = ev.value;
    if st.records.contains(e.record_id.0@) {
        Err("BW-TRACE-RECORD-DUPLICATE"@)
    } else if st.run is Some && st.run->0 != e.run_id.0@ {
        Err("BW-TRACE-RUN-MISMATCH"@)
    } else {
        let seen = StreamView {
            records: st.records.push(e.record_id.0@),
            run: Some(e.run_id.0@),
            record_count: st.record_count + 1,
            ..st
        };
        let t = find_key(st.traces, trace_key(), e.trace_id.0@);
        if t < 0 {
            match e.payload {
                RuntimeEvent::TraceStart(s) => {
                    if e.seq != 0 {
                        Err("BW-TRACE-SEQ-START"@)
                    } else if st.build is Some && st.build->0 != s.build_id.0@ {
                        Err("BW-TRACE-BUILD-MISMATCH"@)
                    } else {
                        Ok(
                            StreamView {
                                build: Some(s.build_id.0@),
                                traces: st.traces.push(
                                    TraceView {
                                        id: e.trace_id.0@,
                                        run: e.run_id.0@,
                                        last_seq: e.seq,
                                        ended: false,
                                        event_count: 1,
                                        objects: Seq::empty(),
                                        callbacks: Seq::empty(),
                                        last_path: ev.path@,
                                        last_line: ev.line,
                                    },
                                ),
                                ..seen
                            },
                        )
                    }
                },
                _ => Err("BW-TRACE-START-MISSING"@),
            }
        } else {
            let tr = st.traces[t];
            if tr.ended {
                Err("BW-TRACE-AFTER-END"@)
            } else if tr.run != e.run_id.0@ {
                Err("BW-TRACE-RUN-MISMATCH"@)
            } else if e.seq == tr.last_seq {
                Err("BW-TRACE-SEQ-DUPLICATE"@)
            } else if e.seq < tr.last_seq {
                Err("BW-TRACE-SEQ-ORDER"@)
            } else {
                match payload_step(tr, e) {
                    Err(code) => Err(code),
                    Ok(p) => Ok(
                        StreamView {
                            traces: st.traces.update(
                                t,
                                TraceView {
                                    last_seq: e.seq,
                                    event_count: p.0.event_count + 1,
                                    last_path: ev.path@,
                                    last_line: ev.line,
                                    ..p.0
                                },
                            ),
                            object_count: st.object_count + p.1,
                            callback_count: st.callback_count + p.2,
                            ..seen
                        },
                    ),
                }
            }
        }
    }
}

/// Where a stream stands after some items: still running, stopped at an item that is an input
/// error, or stopped at an event that fails a check with a code.
pub enum StreamOutcome {
    Running(StreamView),
    InputError(int),
    Rejected(int, Seq<char>),
}

pub open spec fn initial_stream() -> StreamView {
    StreamView {
        records: Seq::empty(),
        run: None,
        build: None,
        traces: Seq::empty(),
        record_count: 0,
        object_count: 0,
        callback_count: 0,
    }
}

/// The outcome of a stream of items, each a located event or an input error.
pub open spec fn stream_outcome(items: Seq<Result<Located<RuntimeEventEnvelope>, ModelError>>) -> StreamOutcome
    decreases items.len(),
{
    if items.len() == 0 {
        StreamOutcome::Running(initial_stream())
    } else {
        match stream_outcome(items.drop_last()) {
            StreamOutcome::Running(st) => match items.last() {
                Err(_) => StreamOutcome::InputError(items.len() - 1),
                Ok(ev) => match stream_step(st, ev) {
                    Ok(next) => StreamOutcome::Running(next),
                    Err(code) => StreamOutcome::Rejected(items.len() - 1, code),
                },
            },
            other => other,
        }
    }
}

/// The trace at `t` is the first unended trace in trace-id order.
pub open spec fn first_unended(traces: Seq<TraceView>, t: int) -> bool {
    &&& 0 <= t < traces.len()
    &&& !traces[t].ended
    &&& forall|u: int| 0 <= u < traces.len() && !(#[trigger] traces[u]).ended ==> !text_lt(traces[u].id, traces[t].id)
}

/// The error that a trace lacks its end, at the trace's last event.
pub open spec fn is_end_missing_at(e: ModelError, tr: TraceView) -> bool {
    match e {
        ModelError::AtLine { path, line, source } => {
            &&& path@ == tr.last_path
            &&& line == tr.last_line
            &&& match *source {
                ModelError::Validation { code, .. } => code@ == "BW-TRACE-END-MISSING"@,
                _ => false,
            }
        },
        _ => false,
    }
}

} // verus!

verus! {

/// The counts that a valid runtime stream yields.
#[derive(Clone, Copy, Debug, Default, PartialEq, Eq, Structural)]
pub struct RuntimeValidationSummary {
    pub record_count: u64,
    pub trace_count: u64,
    pub object_count: u64,
    pub callback_count: u64,
}

struct ObjectRecord {
    instance_id: String,
    site_id: String,
    object_kind: ObjectKind,
}

struct CallbackRecord {
    instance_id: String,
    site_id: String,
    owner_instance_id: String,
}

struct TraceValidationState {
    trace_id: String,
    run_id: String,
    last_seq: u64,
    ended: bool,
    event_count: u64,
    objects: Vec<ObjectRecord>,
    callbacks: Vec<CallbackRecord>,
    last_path: String,
    last_line: usize,
}

spec fn object_view(o: ObjectRecord) -> ObjectView {
    ObjectView { id: o.instance_id@, site: o.site_id@, kind: o.object_kind }
}

spec fn callback_view(c: CallbackRecord) -> CallbackView {
    CallbackView { id: c.instance_id@, site: c.site_id@, owner: c.owner_instance_id@ }
}

spec fn objects_view(s: Seq<ObjectRecord>) -> Seq<ObjectView> {
    s.map_values(|o: ObjectRecord| object_view(o))
}

spec fn callbacks_view(s: Seq<CallbackRecord>) -> Seq<CallbackView> {
    s.map_values(|c: CallbackRecord| callback_view(c))
}

spec fn trace_view(t: TraceValidationState) -> TraceView {
    TraceView {
        id: t.trace_id@,
        run: t.run_id@,
        last_seq: t.last_seq,
        ended: t.ended,
        event_count: t.event_count as nat,
        objects: objects_view(t.objects@),
        callbacks: callbacks_view(t.callbacks@),
        last_path: t.last_path@,
        last_line: t.last_line,
    }
}

spec fn traces_view(s: Seq<TraceValidationState>) -> Seq<TraceView> {
    s.map_values(|t: TraceValidationState| trace_view(t))
}

fn find_object(objects: &Vec<ObjectRecord>, id: &String) -> (r: Option<usize>)
    ensures
        match r {
            Some(i) => i < objects@.len() && i as int == find_key(objects_view(objects@), object_key(), id@),
            None => find_key(objects_view(objects@), object_key(), id@) == -1,
        },
{
    let ghost s = objects_view(objects@);
    proof {
        lemma_find_key(s, object_key(), id@);
    }
    let mut i: usize = 0;
    while i < objects.len()
        invariant
            s == objects_view(objects@),
            0 <= i <= objects@.len(),
            forall|j: int| 0 <= j < i ==> objects@[j].instance_id@ != id@,
        decreases objects.len() - i,
    {
        if objects[i].instance_id == *id {
            assert(object_key()(s[i as int]) == id@);
            proof {
                lemma_find_key(s, object_key(), id@);
                let f = find_key(s, object_key(), id@);
                if f >= 0 && f < i {
                    assert(object_key()(s[f]) == id@);
                    assert(objects@[f].instance_id@ == id@);
                }
            }
            return Some(i);
        }
        i = i + 1;
    }
    proof {
        lemma_find_key(s, object_key(), id@);
    }
    assert forall|j: int| 0 <= j < s.len() implies object_key()(#[trigger] s[j]) != id@ by {
        assert(objects@[j].instance_id@ != id@);
    }
    None
}

fn find_callback(callbacks: &Vec<CallbackRecord>, id: &String) -> (r: Option<usize>)
    ensures
        match r {
            Some(i) => i < callbacks@.len() && i as int == find_key(callbacks_view(callbacks@), callback_key(), id@),
            None => find_key(callbacks_view(callbacks@), callback_key(), id@) == -1,
        },
{
    let ghost s = callbacks_view(callbacks@);
    proof {
        lemma_find_key(s, callback_key(), id@);
    }
    let mut i: usize = 0;
    while i < callbacks.len()
        invariant
            s == callbacks_view(callbacks@),
            0 <= i <= callbacks@.len(),
            forall|j: int| 0 <= j < i ==> callbacks@[j].instance_id@ != id@,
        decreases callbacks.len() - i,
    {
        if callbacks[i].instance_id == *id {
            assert(callback_key()(s[i as int]) == id@);
            proof {
                lemma_find_key(s, callback_key(), id@);
                let f = find_key(s, callback_key(), id@);
                if f >= 0 && f < i {
                    assert(callback_key()(s[f]) == id@);
                    assert(callbacks@[f].instance_id@ == id@);
                }
            }
            return Some(i);
        }
        i = i + 1;
    }
    proof {
        lemma_find_key(s, callback_key(), id@);
    }
    assert forall|j: int| 0 <= j < s.len() implies callback_key()(#[trigger] s[j]) != id@ by {
        assert(callbacks@[j].instance_id@ != id@);
    }
    None
}

fn find_trace(traces: &Vec<TraceValidationState>, id: &String) -> (r: Option<usize>)
    ensures
        match r {
            Some(i) => i < traces@.len() && i as int == find_key(traces_view(traces@), trace_key(), id@),
            None => find_key(traces_view(traces@), trace_key(), id@) == -1,
        },
{
    let ghost s = traces_view(traces@);
    proof {
        lemma_find_key(s, trace_key(), id@);
    }
    let mut i: usize = 0;
    while i < traces.len()
        invariant
            s == traces_view(traces@),
            0 <= i <= traces@.len(),
            forall|j: int| 0 <= j < i ==> traces@[j].trace_id@ != id@,
        decreases traces.len() - i,
    {
        if traces[i].trace_id == *id {
            assert(trace_key()(s[i as int]) == id@);
            proof {
                lemma_find_key(s, trace_key(), id@);
                let f = find_key(s, trace_key(), id@);
                if f >= 0 && f < i {
                    assert(trace_key()(s[f]) == id@);
                    assert(traces@[f].trace_id@ == id@);
                }
            }
            return Some(i);
        }
        i = i + 1;
    }
    proof {
        lemma_find_key(s, trace_key(), id@);
    }
    assert forall|j: int| 0 <= j < s.len() implies trace_key()(#[trigger] s[j]) != id@ by {
        assert(traces@[j].trace_id@ != id@);
    }
    None
}

} // verus!

verus! {

fn reject(ev: &Located<RuntimeEventEnvelope>, code: &'static str, message: &str) -> (e: ModelError)
    ensures
        is_error_at(e, *ev, code@),
{
    crate::error::error_at(ev, code, crate::text::owned(message))
}

fn apply_payload(state: &mut TraceValidationState, ev: &Located<RuntimeEventEnvelope>) -> (r: Result<
    (u64, u64),
    ModelError,
>)
    requires
        old(state).event_count < u64::MAX,
    ensures
        match payload_step(trace_view(*old(state)), ev.value) {
            Ok(p) => r matches Ok(k) && k.0 == p.1 && k.1 == p.2 && trace_view(*final(state)) == p.0,
            Err(code) => r matches Err(e) && is_error_at(e, *ev, code),
        },
{
    let ghost tr = trace_view(*state);
    match &ev.value.payload {
        RuntimeEvent::TraceStart(_) => Err(reject(ev, "BW-TRACE-START-DUPLICATE", "trace 出现第二个 trace_start")),
        RuntimeEvent::ObjectCreate(c) => {
            match find_object(&state.objects, &c.instance_id.0) {
                Some(_) => Err(reject(ev, "BW-TRACE-OBJECT-DUPLICATE", "对象实例被重复创建")),
                None => {
                    let record = ObjectRecord {
                        instance_id: c.instance_id.0.clone(),
                        site_id: c.site_id.0.clone(),
                        object_kind: c.object_kind,
                    };
                    let ghost before = state.objects@;
                    state.objects.push(record);
                    assert(objects_view(state.objects@) =~= objects_view(before).push(
                        ObjectView { id: c.instance_id.0@, site: c.site_id.0@, kind: c.object_kind },
                    ));
                    Ok((1, 0))
                },
            }
        },
        RuntimeEvent::CaptureBind(b) => {
            match find_callback(&state.callbacks, &b.callback_instance_id.0) {
                None => Err(reject(ev, "BW-TRACE-CALLBACK-MISSING", "引用了尚未注册的 callback")),
                Some(ci) => {
                    assert(tr.callbacks[ci as int] == callback_view(state.callbacks@[ci as int]));
                    if state.callbacks[ci].site_id != b.callback_site_id.0 {
                        return Err(reject(ev, "BW-TRACE-CALLBACK-SITE-MISMATCH", "callback 的 site_id 不一致"));
                    }
                    match find_object(&state.objects, &b.object_instance_id.0) {
                        None => Err(reject(ev, "BW-TRACE-OBJECT-MISSING", "引用了尚未创建的对象")),
                        Some(oi) => {
                            assert(tr.objects[oi as int] == object_view(state.objects@[oi as int]));
                            if state.objects[oi].site_id != b.object_site_id.0 {
                                Err(reject(ev, "BW-TRACE-OBJECT-SITE-MISMATCH", "对象的 site_id 不一致"))
                            } else {
                                Ok((0, 0))
                            }
                        },
                    }
                },
            }
        },
        RuntimeEvent::CallbackRegister(reg) => {
            match find_object(&state.objects, &reg.owner_instance_id.0) {
                None => Err(reject(ev, "BW-TRACE-OBJECT-MISSING", "引用了尚未创建的对象")),
                Some(oi) => {
                    assert(tr.objects[oi as int] == object_view(state.objects@[oi as int]));
                    let external = match state.objects[oi].object_kind {
                        ObjectKind::ExternalOwner => true,
                        _ => false,
                    };
                    if !external {
                        return Err(reject(ev, "BW-TRACE-OWNER-KIND", "对象不是 external_owner"));
                    }
                    match find_callback(&state.callbacks, &reg.callback_instance_id.0) {
                        Some(_) => Err(reject(ev, "BW-TRACE-CALLBACK-DUPLICATE", "callback 被重复注册")),
                        None => {
                            let record = CallbackRecord {
                                instance_id: reg.callback_instance_id.0.clone(),
                                site_id: reg.callback_site_id.0.clone(),
                                owner_instance_id: reg.owner_instance_id.0.clone(),
                            };
                            let ghost before = state.callbacks@;
                            state.callbacks.push(record);
                            assert(callbacks_view(state.callbacks@) =~= callbacks_view(before).push(
                                CallbackView {
                                    id: reg.callback_instance_id.0@,
                                    site: reg.callback_site_id.0@,
                                    owner: reg.owner_instance_id.0@,
                                },
                            ));
                            Ok((0, 1))
                        },
                    }
                },
            }
        },
        RuntimeEvent::CallbackUnregister(u) => {
            match find_callback(&state.callbacks, &u.callback_instance_id.0) {
                None => Err(reject(ev, "BW-TRACE-CALLBACK-MISSING", "引用了尚未注册的 callback")),
                Some(ci) => {
                    assert(tr.callbacks[ci as int] == callback_view(state.callbacks@[ci as int]));
                    if state.callbacks[ci].owner_instance_id != u.owner_instance_id.0 {
                        Err(reject(ev, "BW-TRACE-OWNER-MISMATCH", "callback 的 owner 实例不一致"))
                    } else {
                        Ok((0, 0))
                    }
                },
            }
        },
        RuntimeEvent::CallbackInvoke(i) => {
            match find_callback(&state.callbacks, &i.callback_instance_id.0) {
                None => Err(reject(ev, "BW-TRACE-CALLBACK-MISSING", "引用了尚未注册的 callback")),
                Some(_) => Ok((0, 0)),
            }
        },
        RuntimeEvent::ObjectDrop(d) => {
            match find_object(&state.objects, &d.instance_id.0) {
                None => Err(reject(ev, "BW-TRACE-OBJECT-MISSING", "引用了尚未创建的对象")),
                Some(_) => Ok((0, 0)),
            }
        },
        RuntimeEvent::ObjectUse(u) => {
            match find_object(&state.objects, &u.instance_id.0) {
                None => Err(reject(ev, "BW-TRACE-OBJECT-MISSING", "引用了尚未创建的对象")),
                Some(_) => Ok((0, 0)),
            }
        },
        RuntimeEvent::ObjectFree(f) => {
            match find_object(&state.objects, &f.instance_id.0) {
                None => Err(reject(ev, "BW-TRACE-OBJECT-MISSING", "引用了尚未创建的对象")),
                Some(_) => Ok((0, 0)),
            }
        },
        RuntimeEvent::Checkpoint(_) => Ok((0, 0)),
        RuntimeEvent::TraceEnd(end) => {
            let observed = state.event_count + 1;
            if end.event_count != observed {
                Err(reject(ev, "BW-TRACE-COUNT-MISMATCH", "trace 声明的事件数与实际不一致"))
            } else {
                state.ended = true;
                Ok((0, 0))
            }
        },
    }
}

} // verus!

verus! {

struct StreamState {
    record_ids: Vec<String>,
    run_id: Option<String>,
    build_id: Option<String>,
    traces: Vec<TraceValidationState>,
    record_count: u64,
    object_count: u64,
    callback_count: u64,
}

spec fn opt_view(o: Option<String>) -> Option<Seq<char>> {
    match o {
        Some(s) => Some(s@),
        None => None,
    }
}

spec fn stream_view(s: StreamState) -> StreamView {
    StreamView {
        records: s.record_ids@.map_values(|x: String| x@),
        run: opt_view(s.run_id),
        build: opt_view(s.build_id),
        traces: traces_view(s.traces@),
        record_count: s.record_count as nat,
        object_count: s.object_count as nat,
        callback_count: s.callback_count as nat,
    }
}

/// Every count of the stream is at most `n`.
spec fn counts_within(s: StreamState, n: int) -> bool {
    &&& s.record_count <= n
    &&& s.object_count <= n
    &&& s.callback_count <= n
    &&& forall|t: int| 0 <= t < s.traces@.len() ==> (#[trigger] s.traces@[t]).event_count <= n
}

fn apply_event(st: &mut StreamState, ev: &Located<RuntimeEventEnvelope>, Ghost(n): Ghost<int>) -> (r: Result<
    (),
    ModelError,
>)
    requires
        counts_within(*old(st), n),
        n < u64::MAX,
    ensures
        counts_within(*final(st), n + 1),
        match stream_step(stream_view(*old(st)), *ev) {
            Ok(next) => r is Ok && stream_view(*final(st)) == next,
            Err(code) => r matches Err(e) && is_error_at(e, *ev, code),
        },
{
    let ghost old_view = stream_view(*st);
    let e = &ev.value;
    let ghost recs = st.record_ids@;
    let dup = crate::checks::contains_text(&st.record_ids, &e.record_id.0);
    assert(dup == old_view.records.contains(e.record_id.0@)) by {
        if dup {
            let k = choose|k: int| 0 <= k < recs.len() && (#[trigger] recs[k])@ == e.record_id.0@;
            assert(old_view.records[k] == e.record_id.0@);
        }
        if old_view.records.contains(e.record_id.0@) {
            let k = choose|k: int| 0 <= k < old_view.records.len() && old_view.records[k] == e.record_id.0@;
            assert(recs[k]@ == e.record_id.0@);
        }
    }
    if dup {
        return Err(reject(ev, "BW-TRACE-RECORD-DUPLICATE", "record_id 重复"));
    }
    match &st.run_id {
        Some(expected) => {
            if *expected != e.run_id.0 {
                return Err(reject(ev, "BW-TRACE-RUN-MISMATCH", "同一输入出现不同的 run_id"));
            }
        },
        None => {},
    }
    st.record_ids.push(e.record_id.0.clone());
    st.run_id = Some(e.run_id.0.clone());
    st.record_count = st.record_count + 1;
    assert(st.record_ids@.map_values(|x: String| x@) =~= recs.map_values(|x: String| x@).push(e.record_id.0@));
    match find_trace(&st.traces, &e.trace_id.0) {
        None => {
            match &e.payload {
                RuntimeEvent::TraceStart(s) => {
                    if e.seq != 0 {
                        return Err(reject(ev, "BW-TRACE-SEQ-START", "trace 的首个 seq 必须为 0"));
                    }
                    match &st.build_id {
                        Some(b) => {
                            if *b != s.build_id.0 {
                                return Err(reject(ev, "BW-TRACE-BUILD-MISMATCH", "同一输入出现不同的 build_id"));
                            }
                        },
                        None => {},
                    }
                    st.build_id = Some(s.build_id.0.clone());
                    let fresh = TraceValidationState {
                        trace_id: e.trace_id.0.clone(),
                        run_id: e.run_id.0.clone(),
                        last_seq: e.seq,
                        ended: false,
                        event_count: 1,
                        objects: Vec::new(),
                        callbacks: Vec::new(),
                        last_path: ev.path.clone(),
                        last_line: ev.line,
                    };
                    let ghost before = st.traces@;
                    st.traces.push(fresh);
                    assert(objects_view(Seq::<ObjectRecord>::empty()) =~= Seq::<ObjectView>::empty());
                    assert(callbacks_view(Seq::<CallbackRecord>::empty()) =~= Seq::<CallbackView>::empty());
                    assert(traces_view(st.traces@) =~= traces_view(before).push(trace_view(fresh)));
                    Ok(())
                },
                _ => Err(reject(ev, "BW-TRACE-START-MISSING", "trace 的首条事件不是 trace_start")),
            }
        },
        Some(t) => {
            let ghost before = st.traces@;
            let mut state = st.traces.remove(t);
            assert(trace_view(state) == old_view.traces[t as int]);
            if state.ended {
                return Err(reject(ev, "BW-TRACE-AFTER-END", "trace 在 trace_end 后仍有事件"));
            }
            if state.run_id != e.run_id.0 {
                return Err(reject(ev, "BW-TRACE-RUN-MISMATCH", "trace 的 run_id 发生变化"));
            }
            if e.seq == state.last_seq {
                return Err(reject(ev, "BW-TRACE-SEQ-DUPLICATE", "trace 的 seq 重复"));
            }
            if e.seq < state.last_seq {
                return Err(reject(ev, "BW-TRACE-SEQ-ORDER", "trace 的 seq 小于上一序号"));
            }
            assert(state.event_count <= n);
            let (objects_added, callbacks_added) = apply_payload(&mut state, ev)?;
            state.last_seq = e.seq;
            state.event_count = state.event_count + 1;
            state.last_path = ev.path.clone();
            state.last_line = ev.line;
            st.traces.insert(t, state);
            assert(st.traces@ =~= before.update(t as int, state));
            assert(traces_view(st.traces@) =~= traces_view(before).update(t as int, trace_view(state)));
            st.object_count = st.object_count + objects_added;
            st.callback_count = st.callback_count + callbacks_added;
            Ok(())
        },
    }
}

} // verus!

verus! {

proof fn lemma_outcome_stops(items: Seq<Result<Located<RuntimeEventEnvelope>, ModelError>>, k: int)
    requires
        0 <= k <= items.len(),
        !(stream_outcome(items.take(k)) is Running),
    ensures
        stream_outcome(items) == stream_outcome(items.take(k)),
    decreases items.len() - k,
{
    if k < items.len() {
        assert(items.take(k + 1).drop_last() =~= items.take(k));
        lemma_outcome_stops(items, k + 1);
    } else {
        assert(items.take(k) =~= items);
    }
}

/// Validates a runtime event stream. Items are taken in order: an input error is returned as it
/// stands; each event must have a new record id and the run id of the first event; a trace must
/// start with `trace_start` at sequence 0 with the build id of the first trace; its later events
/// must come before its end, keep its run, strictly increase its sequence numbers, refer to
/// objects created and callbacks registered before, and its end must count its events. The
/// first failing event is reported at its record. At the end every trace must have ended,
/// else the first trace in trace-id order without an end is reported at its last event. On
/// success the numbers of records, traces, objects and callbacks.
pub fn validate_runtime_stream(events: Vec<Result<Located<RuntimeEventEnvelope>, ModelError>>) -> (r: Result<
    RuntimeValidationSummary,
    ModelError,
>)
    ensures
        match r {
            Ok(summary) => {
                &&& stream_outcome(events@) matches StreamOutcome::Running(st) && {
                    &&& forall|t: int| 0 <= t < st.traces.len() ==> (#[trigger] st.traces[t]).ended
                    &&& summary.record_count == st.record_count
                    &&& summary.trace_count == st.traces.len()
                    &&& summary.object_count == st.object_count
                    &&& summary.callback_count == st.callback_count
                }
            },
            Err(e) => match stream_outcome(events@) {
                StreamOutcome::InputError(i) => 0 <= i < events@.len() && events@[i] == Err::<
                    Located<RuntimeEventEnvelope>,
                    ModelError,
                >(e),
                StreamOutcome::Rejected(i, code) => {
                    &&& 0 <= i < events@.len()
                    &&& events@[i] matches Ok(ev) && is_error_at(e, ev, code)
                },
                StreamOutcome::Running(st) => exists|t: int|
                    first_unended(st.traces, t) && is_end_missing_at(e, #[trigger] st.traces[t]),
            },
        },
{
    let ghost orig = events@;
    let n = events.len();
    let mut pending = events;
    let mut rev: Vec<Result<Located<RuntimeEventEnvelope>, ModelError>> = Vec::new();
    while pending.len() > 0
        invariant
            orig == events@,
            n == orig.len(),
            pending@ == orig.take(pending@.len() as int),
            rev@.len() + pending@.len() == n,
            forall|k: int| 0 <= k < rev@.len() ==> #[trigger] rev@[k] == orig[n - 1 - k],
        decreases pending.len(),
    {
        let item = pending.pop().unwrap();
        rev.push(item);
        assert(pending@ =~= orig.take(pending@.len() as int));
    }
    let mut st = StreamState {
        record_ids: Vec::new(),
        run_id: None,
        build_id: None,
        traces: Vec::new(),
        record_count: 0,
        object_count: 0,
        callback_count: 0,
    };
    assert(stream_view(st) =~= initial_stream()) by {
        assert(st.record_ids@.map_values(|x: String| x@) =~= Seq::<Seq<char>>::empty());
        assert(traces_view(st.traces@) =~= Seq::<TraceView>::empty());
    }
    assert(orig.take(0) =~= Seq::<Result<Located<RuntimeEventEnvelope>, ModelError>>::empty());
    while rev.len() > 0
        invariant
            n == orig.len(),
            orig == events@,
            rev@.len() <= n,
            forall|k: int| 0 <= k < rev@.len() ==> #[trigger] rev@[k] == orig[n - 1 - k],
            stream_outcome(orig.take(n - rev@.len())) == StreamOutcome::Running(stream_view(st)),
            counts_within(st, n - rev@.len()),
        decreases rev.len(),
    {
        let i = n - rev.len();
        let ghost st_view = stream_view(st);
        let item = rev.pop().unwrap();
        assert(item == orig[i as int]);
        assert(orig.take(i + 1).drop_last() =~= orig.take(i as int));
        assert(orig.take(i + 1).last() == orig[i as int]);
        match item {
            Err(e) => {
                proof {
                    lemma_outcome_stops(orig, i + 1);
                }
                return Err(e);
            },
            Ok(ev) => {
                assert(i < n);
                match apply_event(&mut st, &ev, Ghost(i as int)) {
                    Ok(()) => {},
                    Err(e) => {
                        proof {
                            lemma_outcome_stops(orig, i + 1);
                        }
                        return Err(e);
                    },
                }
            },
        }
    }
    assert(orig.take(n as int) =~= orig);
    let mut first: Option<usize> = None;
    let mut k: usize = 0;
    let ghost traces = traces_view(st.traces@);
    while k < st.traces.len()
        invariant
            orig == events@,
            stream_outcome(orig) == StreamOutcome::Running(stream_view(st)),
            traces == traces_view(st.traces@),
            0 <= k <= traces.len(),
            match first {
                Some(f) => f < k && !traces[f as int].ended && forall|u: int|
                    0 <= u < k && !(#[trigger] traces[u]).ended ==> !text_lt(traces[u].id, traces[f as int].id),
                None => forall|u: int| 0 <= u < k ==> (#[trigger] traces[u]).ended,
            },
        decreases st.traces.len() - k,
    {
        if !st.traces[k].ended {
            match first {
                None => {
                    proof {
                        crate::text::lemma_text_lt_irreflexive(traces[k as int].id);
                    }
                    first = Some(k);
                },
                Some(f) => {
                    if crate::text::text_less(st.traces[k].trace_id.as_str(), st.traces[f].trace_id.as_str()) {
                        proof {
                            assert forall|u: int| 0 <= u < k + 1 && !(#[trigger] traces[u]).ended implies !text_lt(
                                traces[u].id,
                                traces[k as int].id,
                            ) by {
                                if u < k {
                                    assert(!text_lt(traces[u].id, traces[f as int].id));
                                    crate::text::lemma_text_lt_asymmetric(traces[k as int].id, traces[f as int].id);
                                    if text_lt(traces[u].id, traces[k as int].id) {
                                        crate::text::lemma_text_lt_transitive(
                                            traces[u].id,
                                            traces[k as int].id,
                                            traces[f as int].id,
                                        );
                                    }
                                } else {
                                    crate::text::lemma_text_lt_irreflexive(traces[k as int].id);
                                }
                            }
                        }
                        first = Some(k);
                    }
                },
            }
        }
        k = k + 1;
    }
    match first {
        Some(f) => {
            let trace = &st.traces[f];
            let e = ModelError::validation("BW-TRACE-END-MISSING", crate::text::owned("trace 缺少 trace_end")).at_line(
                trace.last_path.clone(),
                trace.last_line,
            );
            assert(first_unended(traces, f as int));
            assert(is_end_missing_at(e, traces[f as int]));
            assert(stream_view(st).traces == traces);
            assert(exists|t: int| first_unended(stream_view(st).traces, t) && is_end_missing_at(e, #[trigger] stream_view(st).traces[t]));
            Err(e)
        },
        None => {
            assert(stream_view(st).traces == traces);
            assert(forall|t: int| 0 <= t < traces.len() ==> (#[trigger] traces[t]).ended);
            Ok(
                RuntimeValidationSummary {
                    record_count: st.record_count,
                    trace_count: st.traces.len() as u64,
                    object_count: st.object_count,
                    callback_count: st.callback_count,
                },
            )
        },
    }
}

} // verus!
