//! Wire-format tests: exact key names, omit-if-absent, escaping, and the
//! structural round trip, checked against a real JSON parser.

use google_cloud_logging::codec::{entry_of_fields, fields_of, render_json};
use google_cloud_logging::schema::{
    GCHttpMethod, GCHttpRequest, GCLogSeverity, GCOperation, GCSourceLocation,
    GoogleCloudStructLog,
};
use google_cloud_logging::text::u64_to_dec;

fn parse(s: &str) -> serde_json::Value {
    serde_json::from_str(s).expect("rendered output must be valid JSON")
}

#[test]
fn empty_entry_renders_empty_object() {
    let e = GoogleCloudStructLog::default();
    let out = render_json(&e);
    assert_eq!(out, "{}");
    let v = parse(&out);
    assert_eq!(v.as_object().unwrap().len(), 0);
}

#[test]
fn only_set_fields_are_emitted() {
    let mut e = GoogleCloudStructLog::default();
    e.severity = Some(GCLogSeverity::Info);
    e.message = Some("hello".to_owned());
    let out = render_json(&e);
    let v = parse(&out);
    let obj = v.as_object().unwrap();
    assert_eq!(obj.len(), 2);
    assert_eq!(obj["severity"], "info");
    assert_eq!(obj["message"], "hello");
}

#[test]
fn severity_tokens_are_lower_camel_case() {
    let cases = [
        (GCLogSeverity::Default, "default"),
        (GCLogSeverity::Debug, "debug"),
        (GCLogSeverity::Info, "info"),
        (GCLogSeverity::Notice, "notice"),
        (GCLogSeverity::Warning, "warning"),
        (GCLogSeverity::Error, "error"),
        (GCLogSeverity::Critical, "critical"),
        (GCLogSeverity::Alert, "alert"),
        (GCLogSeverity::Emergency, "emergency"),
    ];
    for (sev, token) in cases {
        let mut e = GoogleCloudStructLog::default();
        e.severity = Some(sev);
        let v = parse(&render_json(&e));
        assert_eq!(v["severity"], *token);
    }
}

#[test]
fn vendor_keys_are_spelled_exactly() {
    let mut e = GoogleCloudStructLog::default();
    e.insert_id = Some("id-1".to_owned());
    e.labels = vec![("env".to_owned(), "prod".to_owned())];
    e.operation = Some(GCOperation {
        id: Some("op".to_owned()),
        producer: Some("svc.example.com".to_owned()),
        first: Some(true),
        last: Some(false),
    });
    e.source_location = Some(GCSourceLocation {
        file: Some("main.rs".to_owned()),
        line: Some("42".to_owned()),
        function: Some("svc::run".to_owned()),
    });
    e.span_id = Some("000000000000004a".to_owned());
    e.trace = Some("projects/p/traces/t".to_owned());
    e.trace_sampled = Some(true);
    let v = parse(&render_json(&e));
    let obj = v.as_object().unwrap();
    assert_eq!(obj["logging.googleapis.com/insertId"], "id-1");
    assert_eq!(obj["logging.googleapis.com/labels"]["env"], "prod");
    assert_eq!(obj["logging.googleapis.com/operation"]["id"], "op");
    assert_eq!(obj["logging.googleapis.com/operation"]["producer"], "svc.example.com");
    assert_eq!(obj["logging.googleapis.com/operation"]["first"], true);
    assert_eq!(obj["logging.googleapis.com/operation"]["last"], false);
    assert_eq!(obj["logging.googleapis.com/sourceLocation"]["file"], "main.rs");
    assert_eq!(obj["logging.googleapis.com/sourceLocation"]["line"], "42");
    assert_eq!(obj["logging.googleapis.com/sourceLocation"]["function"], "svc::run");
    assert_eq!(obj["logging.googleapis.com/spanId"], "000000000000004a");
    assert_eq!(obj["logging.googleapis.com/trace"], "projects/p/traces/t");
    assert_eq!(obj["logging.googleapis.com/trace_sampled"], true);
}

#[test]
fn empty_labels_are_omitted_entirely() {
    let mut e = GoogleCloudStructLog::default();
    e.severity = Some(GCLogSeverity::Info);
    e.labels = Vec::new();
    let v = parse(&render_json(&e));
    assert!(v.get("logging.googleapis.com/labels").is_none());
}

#[test]
fn http_request_members() {
    let mut e = GoogleCloudStructLog::default();
    e.http_request = Some(GCHttpRequest {
        request_method: Some(GCHttpMethod::Get),
        request_url: Some("http://example.com/some/info?color=red".to_owned()),
        request_size: Some("123".to_owned()),
        status: Some(200),
        response_size: Some("456".to_owned()),
        user_agent: Some("Mozilla/4.0".to_owned()),
        remote_ip: Some("192.168.1.1".to_owned()),
        server_ip: Some("10.0.0.1:80".to_owned()),
        latency: Some("3.5s".to_owned()),
        protocol: Some("HTTP/1.1".to_owned()),
    });
    let v = parse(&render_json(&e));
    let req = &v["httpRequest"];
    assert_eq!(req["requestMethod"], "get");
    assert_eq!(req["requestUrl"], "http://example.com/some/info?color=red");
    assert_eq!(req["status"], 200);
    assert_eq!(req["latency"], "3.5s");
    assert_eq!(req["protocol"], "HTTP/1.1");
    assert_eq!(req.as_object().unwrap().len(), 10);
}

#[test]
fn http_method_tokens() {
    let cases = [
        (GCHttpMethod::Get, "get"),
        (GCHttpMethod::Head, "head"),
        (GCHttpMethod::Put, "put"),
        (GCHttpMethod::Post, "post"),
    ];
    for (m, token) in cases {
        let mut e = GoogleCloudStructLog::default();
        let mut r = GCHttpRequest::default();
        r.request_method = Some(m);
        e.http_request = Some(r);
        let v = parse(&render_json(&e));
        assert_eq!(v["httpRequest"]["requestMethod"], *token);
    }
}

#[test]
fn message_escaping_survives_a_real_parser() {
    let tricky = "quote \" backslash \\ newline \n tab \t cr \r bell \u{0007} end";
    let mut e = GoogleCloudStructLog::default();
    e.message = Some(tricky.to_owned());
    let v = parse(&render_json(&e));
    assert_eq!(v["message"].as_str().unwrap(), tricky);
}

#[test]
fn decimal_rendering_is_exact() {
    assert_eq!(u64_to_dec(0), "0");
    assert_eq!(u64_to_dec(7), "7");
    assert_eq!(u64_to_dec(42), "42");
    assert_eq!(u64_to_dec(1000), "1000");
    assert_eq!(u64_to_dec(65535), "65535");
    assert_eq!(u64_to_dec(u64::MAX), "18446744073709551615");
}

#[test]
fn structural_round_trip_full_entry() {
    let e = GoogleCloudStructLog {
        severity: Some(GCLogSeverity::Warning),
        message: Some("something happened".to_owned()),
        report_type: Some("some/type".to_owned()),
        http_request: Some(GCHttpRequest {
            request_method: Some(GCHttpMethod::Post),
            request_url: Some("https://example.com".to_owned()),
            request_size: None,
            status: Some(404),
            response_size: None,
            user_agent: None,
            remote_ip: Some("10.1.2.3".to_owned()),
            server_ip: None,
            latency: Some("0.25s".to_owned()),
            protocol: None,
        }),
        time: Some("2021-02-03T04:05:06+00:00".to_owned()),
        insert_id: Some("dedup-key".to_owned()),
        labels: vec![
            ("env".to_owned(), "prod".to_owned()),
            ("region".to_owned(), "eu".to_owned()),
        ],
        operation: Some(GCOperation {
            id: Some("op-9".to_owned()),
            producer: Some("svc".to_owned()),
            first: Some(true),
            last: None,
        }),
        source_location: Some(GCSourceLocation {
            file: Some("lib.rs".to_owned()),
            line: Some("7".to_owned()),
            function: None,
        }),
        span_id: Some("00000000000000aa".to_owned()),
        trace: Some("projects/x/traces/y".to_owned()),
        trace_sampled: Some(false),
    };
    let fields = fields_of(&e);
    let back = entry_of_fields(&fields);
    assert_eq!(back, e);
}

#[test]
fn structural_round_trip_sparse_entry() {
    let mut e = GoogleCloudStructLog::default();
    e.message = Some("only a message".to_owned());
    let fields = fields_of(&e);
    let back = entry_of_fields(&fields);
    assert_eq!(back, e);
    assert!(back.severity.is_none());
    assert!(back.http_request.is_none());
    assert!(back.labels.is_empty());
}

#[test]
fn defaults_are_all_absent() {
    let e = GoogleCloudStructLog::default();
    assert!(e.severity.is_none());
    assert!(e.message.is_none());
    assert!(e.report_type.is_none());
    assert!(e.labels.is_empty());
    assert_eq!(GCLogSeverity::default(), GCLogSeverity::Default);
    assert_eq!(GCHttpMethod::default(), GCHttpMethod::Get);
    assert_eq!(GCHttpRequest::default(), GCHttpRequest::default());
}
