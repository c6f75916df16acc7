use vstd::prelude::*;
use crate::attributes::{Attribute, attrs_view};
use crate::log_parser::{log_attributes, parse_function_log};
use crate::record::{
    TelemetryRecord, init_phase_spec, init_phase_text, init_type_spec, init_type_text,
    optional_phase_spec, optional_phase_text, optional_text, optional_text_spec,
};

verus! {

/// A named event with its attributes, as recorded on a span.
pub struct SpanEvent {
    pub name: String,
    pub attributes: Vec<Attribute>,
}

impl View for SpanEvent {
    type V = (Seq<char>, Seq<(Seq<char>, Seq<char>)>);

    open spec fn view(&self) -> Self::V {
        (self.name@, attrs_view(self.attributes@))
    }
}

/// The event name and attributes that a record translates to.
pub open spec fn record_event(r: TelemetryRecord) -> (Seq<char>, Seq<(Seq<char>, Seq<char>)>) {
    match r {
        TelemetryRecord::FunctionLog(text) => ("function_log"@, log_attributes(text@)),
        TelemetryRecord::PlatformInitStart { init_type, phase, runtime_version, runtime_version_arn } => (
            "init_start"@,
            seq![
                ("init_type"@, init_type_spec(init_type)),
                ("phase"@, init_phase_spec(phase)),
                ("runtime_version"@, optional_text_spec(runtime_version)),
                ("runtime_version_arn"@, optional_text_spec(runtime_version_arn)),
            ],
        ),
        TelemetryRecord::PlatformInitRuntimeDone { init_type, phase } => (
            "init_runtime_done"@,
            seq![("init_type"@, init_type_spec(init_type)), ("phase"@, optional_phase_spec(phase))],
        ),
        TelemetryRecord::PlatformInitReport { init_type, phase, duration_ms } => (
            "init_report"@,
            seq![
                ("init_type"@, init_type_spec(init_type)),
                ("phase"@, init_phase_spec(phase)),
                ("duration"@, duration_ms@),
            ],
        ),
        TelemetryRecord::PlatformStart { request_id } => (
            "platform_start"@,
            seq![("request_id"@, request_id@)],
        ),
        TelemetryRecord::PlatformRuntimeDone { request_id, duration_ms } => (
            "runtime_done"@,
            seq![("request_id"@, request_id@), ("duration"@, optional_text_spec(duration_ms))],
        ),
        TelemetryRecord::PlatformReport { request_id, duration_ms } => (
            "platform_report"@,
            seq![("request_id"@, request_id@), ("duration"@, duration_ms@)],
        ),
        TelemetryRecord::Unknown(dump) => ("unhandled_event"@, seq![("event"@, dump@)]),
    }
}

/// The fixed vocabulary of event names.
pub open spec fn is_event_name(n: Seq<char>) -> bool {
    n == "function_log"@ || n == "init_start"@ || n == "init_runtime_done"@ || n == "init_report"@
        || n == "platform_start"@ || n == "runtime_done"@ || n == "platform_report"@
        || n == "unhandled_event"@
}

/// Every record, of whatever kind and with whatever field values, translates to
/// exactly one event whose name belongs to the fixed vocabulary.
pub proof fn lemma_every_record_named(r: TelemetryRecord)
    ensures
        is_event_name(record_event(r).0),
{
}

fn named(name: &str, attributes: Vec<Attribute>) -> (e: SpanEvent)
    ensures
        e@ == (name@, attrs_view(attributes@)),
{
    SpanEvent { name: name.to_string(), attributes }
}

/// Translates one record into its span event. Never fails: unmodelled records
/// become `unhandled_event` with their dump as the single attribute.
pub fn classify(record: &TelemetryRecord) -> (e: SpanEvent)
    ensures
        e@ == record_event(*record),
{
    match record {
        TelemetryRecord::FunctionLog(text) => named("function_log", parse_function_log(text.as_str())),
        TelemetryRecord::PlatformInitStart { init_type, phase, runtime_version, runtime_version_arn } => {
            let a = vec![
                Attribute::new("init_type", init_type_text(init_type)),
                Attribute::new("phase", init_phase_text(phase)),
                Attribute::new("runtime_version", optional_text(runtime_version)),
                Attribute::new("runtime_version_arn", optional_text(runtime_version_arn)),
            ];
            let e = named("init_start", a);
            assert(e@.1 =~= record_event(*record).1);
            e
        },
        TelemetryRecord::PlatformInitRuntimeDone { init_type, phase } => {
            let a = vec![
                Attribute::new("init_type", init_type_text(init_type)),
                Attribute::new("phase", optional_phase_text(phase)),
            ];
            let e = named("init_runtime_done", a);
            assert(e@.1 =~= record_event(*record).1);
            e
        },
        TelemetryRecord::PlatformInitReport { init_type, phase, duration_ms } => {
            let a = vec![
                Attribute::new("init_type", init_type_text(init_type)),
                Attribute::new("phase", init_phase_text(phase)),
                Attribute::new("duration", duration_ms.clone()),
            ];
            let e = named("init_report", a);
            assert(e@.1 =~= record_event(*record).1);
            e
        },
        TelemetryRecord::PlatformStart { request_id } => {
            let a = vec![Attribute::new("request_id", request_id.clone())];
            let e = named("platform_start", a);
            assert(e@.1 =~= record_event(*record).1);
            e
        },
        TelemetryRecord::PlatformRuntimeDone { request_id, duration_ms } => {
            let a = vec![
                Attribute::new("request_id", request_id.clone()),
                Attribute::new("duration", optional_text(duration_ms)),
            ];
            let e = named("runtime_done", a);
            assert(e@.1 =~= record_event(*record).1);
            e
        },
        TelemetryRecord::PlatformReport { request_id, duration_ms } => {
            let a = vec![
                Attribute::new("request_id", request_id.clone()),
                Attribute::new("duration", duration_ms.clone()),
            ];
            let e = named("platform_report", a);
            assert(e@.1 =~= record_event(*record).1);
            e
        },
        TelemetryRecord::Unknown(dump) => {
            let a = vec![Attribute::new("event", dump.clone())];
            let e = named("unhandled_event", a);
            assert(e@.1 =~= record_event(*record).1);
            e
        },
    }
}

} // verus!
