use telemetry_spans::attributes::Attribute;
use telemetry_spans::classifier::{classify, SpanEvent};
use telemetry_spans::config::load_config;
use telemetry_spans::lifecycle::{LifecycleError, LifecycleState, ShutdownAction, TracerLifecycle};
use telemetry_spans::log_parser::{attributes_from_parse, first_brace, parse_function_log};
use telemetry_spans::record::{InitPhase, InitType, TelemetryRecord};
use telemetry_spans::span::{handle_batch, process_batch, BatchError};

fn pairs(attrs: &[Attribute]) -> Vec<(String, String)> {
    attrs.iter().map(|a| (a.key.clone(), a.value.clone())).collect()
}

fn p(k: &str, v: &str) -> (String, String) {
    (k.to_string(), v.to_string())
}

fn event(e: &SpanEvent) -> (String, Vec<(String, String)>) {
    (e.name.clone(), pairs(&e.attributes))
}

#[test]
fn json_object_between_prefix_and_suffix() {
    let r = parse_function_log(r#"prefix {"a":"1","b":"2"} suffix"#);
    assert_eq!(pairs(&r), vec![p("a", "1"), p("b", "2")]);
}

#[test]
fn malformed_json_keeps_raw_text() {
    let input = "oops {not json";
    let r = parse_function_log(input);
    let got = pairs(&r);
    assert_eq!(got.len(), 2);
    assert_eq!(got[0].0, "error");
    assert!(!got[0].1.is_empty());
    assert_eq!(got[1], p("raw_log", input));
}

#[test]
fn text_without_brace_is_raw_log() {
    let r = parse_function_log("plain line, no object");
    assert_eq!(pairs(&r), vec![p("raw_log", "plain line, no object")]);
}

#[test]
fn empty_text_is_raw_log() {
    let r = parse_function_log("");
    assert_eq!(pairs(&r), vec![p("raw_log", "")]);
}

#[test]
fn non_string_values_are_stringified() {
    let r = parse_function_log(r#"{"n": 5, "b": true, "o": {"x": [1, null]}, "s": "a\"b"}"#);
    assert_eq!(
        pairs(&r),
        vec![p("b", "true"), p("n", "5"), p("o", r#"{"x":[1,null]}"#), p("s", "a\"b")]
    );
}

#[test]
fn duplicate_keys_last_write_wins() {
    let r = parse_function_log(r#"log: {"a":"1","a":"2"}"#);
    assert_eq!(pairs(&r), vec![p("a", "2")]);
}

#[test]
fn empty_object_gives_no_attributes() {
    let r = parse_function_log("start {} end");
    assert!(r.is_empty());
}

#[test]
fn first_brace_counts_characters() {
    assert_eq!(first_brace("ab{c{"), Some(2));
    assert_eq!(first_brace("é{"), Some(1));
    assert_eq!(first_brace("none"), None);
}

#[test]
fn parse_result_error_branch() {
    let r = attributes_from_parse("x {", Err("bad".to_string()));
    assert_eq!(pairs(&r), vec![p("error", "bad"), p("raw_log", "x {")]);
}

#[test]
fn parse_result_decodes_string_values() {
    let r = attributes_from_parse("", Ok(vec![p("k", "\"v\""), p("m", "12")]));
    assert_eq!(pairs(&r), vec![p("k", "v"), p("m", "12")]);
}

#[test]
fn classify_every_kind() {
    let cases = vec![
        (
            TelemetryRecord::PlatformInitStart {
                init_type: InitType::OnDemand,
                phase: InitPhase::Init,
                runtime_version: Some("nodejs:20".to_string()),
                runtime_version_arn: None,
            },
            ("init_start", vec![p("init_type", "on-demand"), p("phase", "init"), p("runtime_version", "nodejs:20"), p("runtime_version_arn", "")]),
        ),
        (
            TelemetryRecord::PlatformInitRuntimeDone { init_type: InitType::SnapStart, phase: Some(InitPhase::Invoke) },
            ("init_runtime_done", vec![p("init_type", "snap-start"), p("phase", "invoke")]),
        ),
        (
            TelemetryRecord::PlatformInitReport {
                init_type: InitType::ProvisionedConcurrency,
                phase: InitPhase::Init,
                duration_ms: "125.5".to_string(),
            },
            ("init_report", vec![p("init_type", "provisioned-concurrency"), p("phase", "init"), p("duration", "125.5")]),
        ),
        (
            TelemetryRecord::PlatformStart { request_id: "req-1".to_string() },
            ("platform_start", vec![p("request_id", "req-1")]),
        ),
        (
            TelemetryRecord::PlatformRuntimeDone { request_id: "req-1".to_string(), duration_ms: Some("3.25".to_string()) },
            ("runtime_done", vec![p("request_id", "req-1"), p("duration", "3.25")]),
        ),
        (
            TelemetryRecord::PlatformReport { request_id: "req-1".to_string(), duration_ms: "4.0".to_string() },
            ("platform_report", vec![p("request_id", "req-1"), p("duration", "4.0")]),
        ),
        (
            TelemetryRecord::FunctionLog("no json".to_string()),
            ("function_log", vec![p("raw_log", "no json")]),
        ),
        (
            TelemetryRecord::Unknown("PlatformLogsDropped { reason: \"x\" }".to_string()),
            ("unhandled_event", vec![p("event", "PlatformLogsDropped { reason: \"x\" }")]),
        ),
    ];
    for (record, (name, attrs)) in cases {
        assert_eq!(event(&classify(&record)), (name.to_string(), attrs));
    }
}

#[test]
fn batch_keeps_order_and_count() {
    let records = vec![
        TelemetryRecord::PlatformStart { request_id: "r".to_string() },
        TelemetryRecord::FunctionLog(r#"{"k":"v"}"#.to_string()),
        TelemetryRecord::PlatformReport { request_id: "r".to_string(), duration_ms: "1".to_string() },
    ];
    let span = handle_batch(&records);
    assert_eq!(span.name, "handler");
    assert!(span.closed);
    let names: Vec<String> = span.events.iter().map(|e| e.name.clone()).collect();
    assert_eq!(names, vec!["platform_start", "function_log", "platform_report"]);
    assert_eq!(pairs(&span.events[1].attributes), vec![p("k", "v")]);
}

#[test]
fn empty_batch_gives_empty_span() {
    let span = handle_batch(&Vec::new());
    assert!(span.closed);
    assert!(span.events.is_empty());
}

#[test]
fn unknown_record_leaves_siblings_alone() {
    let with = vec![
        TelemetryRecord::PlatformStart { request_id: "a".to_string() },
        TelemetryRecord::Unknown("mystery".to_string()),
        TelemetryRecord::FunctionLog("x".to_string()),
    ];
    let without = vec![
        TelemetryRecord::PlatformStart { request_id: "a".to_string() },
        TelemetryRecord::FunctionLog("x".to_string()),
    ];
    let a: Vec<_> = handle_batch(&with).events.iter().map(event).collect();
    let b: Vec<_> = handle_batch(&without).events.iter().map(event).collect();
    assert_eq!(a.len(), 3);
    assert_eq!(a[1], ("unhandled_event".to_string(), vec![p("event", "mystery")]));
    assert_eq!(vec![a[0].clone(), a[2].clone()], b);
}

#[test]
fn batch_needs_active_tracer() {
    let records = vec![TelemetryRecord::PlatformStart { request_id: "a".to_string() }];
    let mut lc = TracerLifecycle::new();
    assert!(matches!(process_batch(&lc, &records), Err(BatchError::TracerUnavailable)));
    assert_eq!(lc.install(true), Ok(()));
    let span = process_batch(&lc, &records).ok().unwrap();
    assert_eq!(span.events.len(), 1);
}

#[test]
fn shutdown_without_spans_does_not_fail() {
    let mut lc = TracerLifecycle::new();
    assert_eq!(lc.install(true), Ok(()));
    assert_eq!(lc.shutdown(), ShutdownAction::FlushAndRelease);
    assert_eq!(lc.state, LifecycleState::ShuttingDown);
    lc.shutdown_complete();
    assert_eq!(lc.state, LifecycleState::Terminated);
    assert_eq!(lc.shutdown(), ShutdownAction::Nothing);
    assert_eq!(lc.state, LifecycleState::Terminated);
}

#[test]
fn shutdown_before_install() {
    let mut lc = TracerLifecycle::new();
    assert_eq!(lc.shutdown(), ShutdownAction::Nothing);
    assert_eq!(lc.state, LifecycleState::Terminated);
}

#[test]
fn install_failures() {
    let mut lc = TracerLifecycle::new();
    assert_eq!(lc.install(false), Err(LifecycleError::ExporterUnavailable));
    assert_eq!(lc.state, LifecycleState::Uninitialized);
    assert_eq!(lc.install(true), Ok(()));
    assert_eq!(lc.install(true), Err(LifecycleError::AlreadyInstalled));
    assert!(lc.is_active());
}

#[test]
fn config_defaults_and_overrides() {
    let c = load_config(None, None);
    assert_eq!(c.collector_endpoint, "http://localhost:4317");
    assert_eq!(c.service_name, "lambda_extension");
    let c = load_config(Some("http://c:4318".to_string()), Some("svc".to_string()));
    assert_eq!(c.collector_endpoint, "http://c:4318");
    assert_eq!(pairs(&c.resource_attributes()), vec![p("service.name", "svc")]);
}
