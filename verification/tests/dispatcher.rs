//! Dispatcher tests: the severity mapping, mode resolution, the text line,
//! the json-mode document, and the backtrace rule in both modes.

use google_cloud_logging::dispatch::{
    build_entry, map_severity, render_event, render_event_now, render_text, LogFormat, LogLevel,
    Logger,
};
use google_cloud_logging::codec::render_json;
use google_cloud_logging::schema::GCLogSeverity;

const BT: &str = ":\n   at services::module_name::he77c0bac773c93b4 line: 42\n   at services::module_name::h7ad5e699ac5d6658";

const REPORT_TYPE: &str =
    "type.googleapis.com/google.devtools.clouderrorreporting.v1beta1.ReportedErrorEvent";

fn parse(s: &str) -> serde_json::Value {
    serde_json::from_str(s).expect("rendered output must be valid JSON")
}

#[test]
fn severity_mapping_is_total_and_fixed() {
    assert_eq!(map_severity(LogLevel::Error), GCLogSeverity::Error);
    assert_eq!(map_severity(LogLevel::Warn), GCLogSeverity::Warning);
    assert_eq!(map_severity(LogLevel::Info), GCLogSeverity::Info);
    assert_eq!(map_severity(LogLevel::Debug), GCLogSeverity::Debug);
    assert_eq!(map_severity(LogLevel::Trace), GCLogSeverity::Default);
}

#[test]
fn unrecognised_mode_resolves_to_text() {
    assert_eq!(LogFormat::from_mode("json"), LogFormat::Json);
    assert_eq!(LogFormat::from_mode("text"), LogFormat::Text);
    assert_eq!(LogFormat::from_mode("xml"), LogFormat::Text);
    assert_eq!(LogFormat::from_mode(""), LogFormat::Text);
    assert_eq!(LogFormat::from_mode("JSON"), LogFormat::Text);
}

#[test]
fn text_line_layout() {
    let line = render_text(LogLevel::Info, "svc.module", "Start logging", BT);
    assert_eq!(line, "INFO :svc.module - Start logging");
    let line = render_text(LogLevel::Debug, "svc", "x", BT);
    assert_eq!(line, "DEBUG:svc - x");
}

#[test]
fn text_backtrace_only_for_error_and_warn() {
    let warn = render_text(LogLevel::Warn, "svc", "careful", BT);
    assert_eq!(warn, format!("WARN :svc - careful{}", BT));
    assert!(warn.ends_with(BT));
    let err = render_text(LogLevel::Error, "svc", "bad", BT);
    assert!(err.ends_with(BT));
    let info = render_text(LogLevel::Info, "svc", "fine", BT);
    assert_eq!(info, "INFO :svc - fine");
    let trace = render_text(LogLevel::Trace, "svc", "fine", BT);
    assert_eq!(trace, "TRACE:svc - fine");
}

#[test]
fn json_scenario_info() {
    let e = build_entry(
        LogLevel::Info,
        "Start logging",
        Some("main.rs"),
        Some(11),
        Some("svc.module"),
        "My Service",
        "MyService.Backend",
        "2021-02-03T04:05:06+00:00",
        "",
    );
    let v = parse(&render_json(&e));
    assert_eq!(v["severity"], "info");
    assert_eq!(v["message"], "Start logging");
    assert!(v.get("@type").is_none());
    assert_eq!(v["logging.googleapis.com/operation"]["id"], "My Service");
    assert_eq!(v["logging.googleapis.com/operation"]["producer"], "MyService.Backend");
    assert_eq!(v["logging.googleapis.com/sourceLocation"]["line"], "11");
    assert_eq!(v["time"], "2021-02-03T04:05:06+00:00");
}

#[test]
fn json_scenario_error() {
    let e = build_entry(
        LogLevel::Error,
        "failure X",
        None,
        None,
        None,
        "My Service",
        "MyService.Backend",
        "2021-02-03T04:05:06+00:00",
        BT,
    );
    let v = parse(&render_json(&e));
    assert_eq!(v["severity"], "error");
    assert_eq!(v["@type"], REPORT_TYPE);
    assert_eq!(v["message"].as_str().unwrap(), format!("failure X{}", BT));
}

#[test]
fn report_type_iff_error() {
    for (level, expected) in [
        (LogLevel::Error, true),
        (LogLevel::Warn, false),
        (LogLevel::Info, false),
        (LogLevel::Debug, false),
        (LogLevel::Trace, false),
    ] {
        let e = build_entry(level, "m", None, None, None, "i", "p", "t", BT);
        let v = parse(&render_json(&e));
        assert_eq!(v.get("@type").is_some(), expected);
    }
}

#[test]
fn json_appends_backtrace_for_every_level() {
    for level in [LogLevel::Error, LogLevel::Warn, LogLevel::Info, LogLevel::Debug, LogLevel::Trace]
    {
        let e = build_entry(level, "msg", None, None, None, "i", "p", "t", BT);
        let v = parse(&render_json(&e));
        assert_eq!(v["message"].as_str().unwrap(), format!("msg{}", BT));
    }
}

#[test]
fn render_event_selects_mode() {
    let text = render_event(
        LogFormat::Text,
        LogLevel::Warn,
        "svc.module",
        "Oh no",
        Some("main.rs"),
        Some(3),
        Some("svc::run"),
        "My Service",
        "MyService.Backend",
        "2021-02-03T04:05:06+00:00",
        BT,
    );
    assert_eq!(text, format!("WARN :svc.module - Oh no{}", BT));
    let json = render_event(
        LogFormat::Json,
        LogLevel::Warn,
        "svc.module",
        "Oh no",
        Some("main.rs"),
        Some(3),
        Some("svc::run"),
        "My Service",
        "MyService.Backend",
        "2021-02-03T04:05:06+00:00",
        BT,
    );
    let v = parse(&json);
    assert_eq!(v["severity"], "warning");
    // the target is part of the text form only
    assert!(!json.contains("svc.module"));
    assert_eq!(v["logging.googleapis.com/sourceLocation"]["file"], "main.rs");
    assert_eq!(v["logging.googleapis.com/sourceLocation"]["line"], "3");
    assert_eq!(v["logging.googleapis.com/sourceLocation"]["function"], "svc::run");
}

#[test]
fn render_event_now_captures_a_timestamp() {
    let out = render_event_now(
        LogFormat::Json,
        LogLevel::Info,
        "svc",
        "hello",
        None,
        None,
        None,
        "i",
        "p",
        "",
    );
    let v = parse(&out);
    let time = v["time"].as_str().unwrap();
    assert!(!time.is_empty());
    // an RFC 3339 timestamp carries a date separator and a time separator
    assert!(time.contains('-') && time.contains('T') && time.contains(':'));
}

#[test]
fn logger_renders_in_its_configured_mode() {
    let logger = Logger::custom(
        LogFormat::Json,
        "My Service".to_owned(),
        "MyService.Backend".to_owned(),
    );
    assert!(logger.enabled());
    let out = logger.render(
        LogLevel::Trace,
        "svc",
        "Something went wrong in `my service`.",
        None,
        None,
        None,
        "2021-02-03T04:05:06+00:00",
        BT,
    );
    let v = parse(&out);
    assert_eq!(v["severity"], "default");
    let text_logger =
        Logger::custom(LogFormat::Text, "My Service".to_owned(), "MyService.Backend".to_owned());
    let line = text_logger.render(LogLevel::Info, "svc", "hi", None, None, None, "t", BT);
    assert_eq!(line, "INFO :svc - hi");
    let now_line = text_logger.render_now(LogLevel::Info, "svc", "hi", None, None, None, BT);
    assert_eq!(now_line, "INFO :svc - hi");
}
