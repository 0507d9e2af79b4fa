//! The formatting dispatcher: receives one generic log event — level,
//! target, formatted message, optional call-site — and renders it in the
//! configured output mode, either as a single human-readable text line or
//! as the serialized structured log document.

use vstd::prelude::*;
use vstd::string::*;
use crate::codec::{entry_fields, entry_key_facts, lemma_entry_lookup, render_json};
use crate::json::{lookup, render_obj};
use crate::schema::{
    GCLogSeverity, GCOperation, GCOperationV, GCSourceLocation, GCSourceLocationV,
    GoogleCloudStructLog, GoogleCloudStructLogV,
};
use crate::text::{dec_str, str_eq, u64_to_dec};

verus! {

/// The five levels of a generic log event, in descending order of severity.
#[derive(Clone, Copy, Debug, PartialEq, Eq, Structural)]
pub enum LogLevel {
    Error,
    Warn,
    Info,
    Debug,
    Trace,
}

/// The output mode of the formatting dispatcher.
#[derive(Clone, Copy, Debug, PartialEq, Eq, Structural)]
pub enum LogFormat {
    Text,
    Json,
}

/// Which mode a configuration value selects: `json` selects the structured
/// form; every other value — including the empty string — selects text.
pub open spec fn spec_format_of(s: Seq<char>) -> LogFormat {
    if s == "json"@ {
        LogFormat::Json
    } else {
        LogFormat::Text
    }
}

impl LogFormat {
    /// Resolves a configuration value to an output mode; any unrecognised
    /// value falls back to text.
    pub fn from_mode(s: &str) -> (f: LogFormat)
        ensures
            f == spec_format_of(s@),
    {
        if str_eq(s, "json") {
            LogFormat::Json
        } else {
            LogFormat::Text
        }
    }
}

/// The backend severity each event level maps to.
pub open spec fn spec_map_severity(l: LogLevel) -> GCLogSeverity {
    match l {
        LogLevel::Error => GCLogSeverity::Error,
        LogLevel::Warn => GCLogSeverity::Warning,
        LogLevel::Info => GCLogSeverity::Info,
        LogLevel::Debug => GCLogSeverity::Debug,
        LogLevel::Trace => GCLogSeverity::Default,
    }
}

/// Maps an event level to its backend severity.
pub fn map_severity(l: LogLevel) -> (s: GCLogSeverity)
    ensures
        s == spec_map_severity(l),
{
    match l {
        LogLevel::Error => GCLogSeverity::Error,
        LogLevel::Warn => GCLogSeverity::Warning,
        LogLevel::Info => GCLogSeverity::Info,
        LogLevel::Debug => GCLogSeverity::Debug,
        LogLevel::Trace => GCLogSeverity::Default,
    }
}

/// The severity mapping is total and fixed: every one of the five event
/// levels maps to exactly one severity, as listed here.
pub proof fn lemma_severity_mapping()
    ensures
        spec_map_severity(LogLevel::Error) == GCLogSeverity::Error,
        spec_map_severity(LogLevel::Warn) == GCLogSeverity::Warning,
        spec_map_severity(LogLevel::Info) == GCLogSeverity::Info,
        spec_map_severity(LogLevel::Debug) == GCLogSeverity::Debug,
        spec_map_severity(LogLevel::Trace) == GCLogSeverity::Default,
{
}

/// The upper-case level name, padded with spaces to five characters.
pub open spec fn spec_level_label(l: LogLevel) -> Seq<char> {
    match l {
        LogLevel::Error => "ERROR"@,
        LogLevel::Warn => "WARN "@,
        LogLevel::Info => "INFO "@,
        LogLevel::Debug => "DEBUG"@,
        LogLevel::Trace => "TRACE"@,
    }
}

/// Renders the padded upper-case level name.
pub fn level_label(l: LogLevel) -> (r: &'static str)
    ensures
        r@ == spec_level_label(l),
{
    match l {
        LogLevel::Error => "ERROR",
        LogLevel::Warn => "WARN ",
        LogLevel::Info => "INFO ",
        LogLevel::Debug => "DEBUG",
        LogLevel::Trace => "TRACE",
    }
}

/// Whether text mode appends the backtrace for this level.
pub open spec fn text_has_backtrace(l: LogLevel) -> bool {
    l == LogLevel::Error || l == LogLevel::Warn
}

/// The fixed part of the text line, before any backtrace.
pub open spec fn spec_text_prefix(l: LogLevel, target: Seq<char>, args: Seq<char>) -> Seq<char> {
    spec_level_label(l) + ":"@ + target + " - "@ + args
}

/// The text-mode line for one event.
pub open spec fn spec_render_text(
    l: LogLevel,
    target: Seq<char>,
    args: Seq<char>,
    backtrace: Seq<char>,
) -> Seq<char> {
    spec_text_prefix(l, target, args) + (if text_has_backtrace(l) {
        backtrace
    } else {
        Seq::empty()
    })
}

/// Renders one event in text mode: the padded upper-case level, the target,
/// the message, and — for Error and Warn only — the backtrace text.
pub fn render_text(level: LogLevel, target: &str, args: &str, backtrace: &str) -> (r: String)
    ensures
        r@ == spec_render_text(level, target@, args@, backtrace@),
{
    let mut out = String::new();
    out.append(level_label(level));
    out.append(":");
    out.append(target);
    out.append(" - ");
    out.append(args);
    match level {
        LogLevel::Error | LogLevel::Warn => out.append(backtrace),
        _ => {},
    }
    proof {
        assert(out@ =~= spec_render_text(level, target@, args@, backtrace@));
    }
    out
}

/// The wire value of the error-report tag: the fixed type URI that marks an
/// entry for automated error grouping.
pub open spec fn spec_report_type_uri() -> Seq<char> {
    "type.googleapis.com/google.devtools.clouderrorreporting.v1beta1.ReportedErrorEvent"@
}

/// The error-report type URI.
pub fn report_type_uri() -> (r: &'static str)
    ensures
        r@ == spec_report_type_uri(),
{
    "type.googleapis.com/google.devtools.clouderrorreporting.v1beta1.ReportedErrorEvent"
}

/// The structured document built for one event in json mode: the mapped
/// severity, the message with the backtrace always appended, the
/// error-report tag exactly for Error, the injected operation descriptor,
/// the event's source location with the line in decimal string form, and
/// the render-time timestamp.
pub open spec fn spec_build_entry(
    level: LogLevel,
    args: Seq<char>,
    file: Option<Seq<char>>,
    line: Option<u32>,
    function: Option<Seq<char>>,
    op_id: Seq<char>,
    op_producer: Seq<char>,
    time: Seq<char>,
    backtrace: Seq<char>,
) -> GoogleCloudStructLogV {
    GoogleCloudStructLogV {
        severity: Some(spec_map_severity(level)),
        message: Some(args + backtrace),
        report_type: if level == LogLevel::Error {
            Some(spec_report_type_uri())
        } else {
            None
        },
        http_request: None,
        time: Some(time),
        insert_id: None,
        labels: Seq::empty(),
        operation: Some(
            GCOperationV { id: Some(op_id), producer: Some(op_producer), first: None, last: None },
        ),
        source_location: Some(
            GCSourceLocationV {
                file,
                line: match line {
                    Some(n) => Some(dec_str(n as nat)),
                    None => None,
                },
                function,
            },
        ),
        span_id: None,
        trace: None,
        trace_sampled: None,
    }
}

/// Builds the structured document for one event in json mode.
pub fn build_entry(
    level: LogLevel,
    args: &str,
    file: Option<&str>,
    line: Option<u32>,
    function: Option<&str>,
    op_id: &str,
    op_producer: &str,
    time: &str,
    backtrace: &str,
) -> (e: GoogleCloudStructLog)
    ensures
        e@ == spec_build_entry(
            level,
            args@,
            file.deep_view(),
            line,
            function.deep_view(),
            op_id@,
            op_producer@,
            time@,
            backtrace@,
        ),
{
    let mut message = args.to_owned();
    message.append(backtrace);
    let e = GoogleCloudStructLog {
        severity: Some(map_severity(level)),
        message: Some(message),
        report_type: match level {
            LogLevel::Error => Some(report_type_uri().to_owned()),
            _ => None,
        },
        http_request: None,
        time: Some(time.to_owned()),
        insert_id: None,
        labels: Vec::new(),
        operation: Some(
            GCOperation {
                id: Some(op_id.to_owned()),
                producer: Some(op_producer.to_owned()),
                first: None,
                last: None,
            },
        ),
        source_location: Some(
            GCSourceLocation {
                file: match file {
                    Some(f) => Some(f.to_owned()),
                    None => None,
                },
                line: match line {
                    Some(n) => Some(u64_to_dec(n as u64)),
                    None => None,
                },
                function: match function {
                    Some(f) => Some(f.to_owned()),
                    None => None,
                },
            },
        ),
        span_id: None,
        trace: None,
        trace_sampled: None,
    };
    proof {
        assert(e@.labels =~= Seq::<(Seq<char>, Seq<char>)>::empty());
        assert(e@ =~= spec_build_entry(
            level,
            args@,
            file.deep_view(),
            line,
            function.deep_view(),
            op_id@,
            op_producer@,
            time@,
            backtrace@,
        ));
    }
    e
}

/// The rendered representation of one event: the text line in text mode,
/// the serialized structured document in json mode.
pub open spec fn spec_render_event(
    format: LogFormat,
    level: LogLevel,
    target: Seq<char>,
    args: Seq<char>,
    file: Option<Seq<char>>,
    line: Option<u32>,
    function: Option<Seq<char>>,
    op_id: Seq<char>,
    op_producer: Seq<char>,
    time: Seq<char>,
    backtrace: Seq<char>,
) -> Seq<char> {
    match format {
        LogFormat::Text => spec_render_text(level, target, args, backtrace),
        LogFormat::Json => render_obj(
            entry_fields(
                spec_build_entry(
                    level,
                    args,
                    file,
                    line,
                    function,
                    op_id,
                    op_producer,
                    time,
                    backtrace,
                ),
            ),
        ),
    }
}

/// Renders one event in the given mode, with an already-captured timestamp
/// and backtrace text.
pub fn render_event(
    format: LogFormat,
    level: LogLevel,
    target: &str,
    args: &str,
    file: Option<&str>,
    line: Option<u32>,
    function: Option<&str>,
    op_id: &str,
    op_producer: &str,
    time: &str,
    backtrace: &str,
) -> (r: String)
    ensures
        r@ == spec_render_event(
            format,
            level,
            target@,
            args@,
            file.deep_view(),
            line,
            function.deep_view(),
            op_id@,
            op_producer@,
            time@,
            backtrace@,
        ),
{
    match format {
        LogFormat::Text => render_text(level, target, args, backtrace),
        LogFormat::Json => {
            let e = build_entry(
                level,
                args,
                file,
                line,
                function,
                op_id,
                op_producer,
                time,
                backtrace,
            );
            render_json(&e)
        },
    }
}

/// The current wall-clock time as an RFC 3339 string.
///
/// Relies on chrono's `Utc::now` for the current time, and on chrono's
/// `DateTime::to_rfc3339` for its rendering, which returns an RFC 3339 and
/// ISO 8601 date-and-time string such as `1996-12-19T16:39:57+00:00` —
/// never empty. The result depends on the clock, so nothing more is
/// promised of it. `Utc::now` stops the process if the system clock reads
/// before the Unix epoch.
#[verifier::external_body]
pub fn now_rfc3339() -> (r: String)
    ensures
        r@.len() > 0,
{
    chrono::Utc::now().to_rfc3339()
}

/// Renders one event in the given mode, capturing the timestamp at render
/// time: the result is the rendering of the event for some non-empty
/// timestamp string.
pub fn render_event_now(
    format: LogFormat,
    level: LogLevel,
    target: &str,
    args: &str,
    file: Option<&str>,
    line: Option<u32>,
    function: Option<&str>,
    op_id: &str,
    op_producer: &str,
    backtrace: &str,
) -> (r: String)
    ensures
        exists|t: Seq<char>|
            t.len() > 0 && r@ == spec_render_event(
                format,
                level,
                target@,
                args@,
                file.deep_view(),
                line,
                function.deep_view(),
                op_id@,
                op_producer@,
                t,
                backtrace@,
            ),
{
    let time = now_rfc3339();
    let r = render_event(
        format,
        level,
        target,
        args,
        file,
        line,
        function,
        op_id,
        op_producer,
        time.as_str(),
        backtrace,
    );
    proof {
        let t = time@;
        assert(t.len() > 0 && r@ == spec_render_event(
            format,
            level,
            target@,
            args@,
            file.deep_view(),
            line,
            function.deep_view(),
            op_id@,
            op_producer@,
            t,
            backtrace@,
        ));
    }
    r
}

/// The log collector: holds the configuration fixed at startup — the output
/// mode and the operation descriptor — and renders one event per call.
pub struct Logger {
    /// The configured output mode.
    pub format: LogFormat,
    /// The operation identifier stamped on structured entries.
    pub operation_id: String,
    /// The producer identifier stamped on structured entries.
    pub operation_producer: String,
}

impl Logger {
    /// A logger with an explicitly chosen mode and operation descriptor.
    pub fn custom(format: LogFormat, operation_id: String, operation_producer: String) -> (l:
        Logger)
        ensures
            l.format == format,
            l.operation_id == operation_id,
            l.operation_producer == operation_producer,
    {
        Logger { format, operation_id, operation_producer }
    }

    /// Every event is enabled at this layer: level filtering, if any, is the
    /// dispatch mechanism's responsibility.
    pub fn enabled(&self) -> (b: bool)
        ensures
            b,
    {
        true
    }

    /// Renders one event in this logger's mode, with an already-captured
    /// timestamp and backtrace text.
    pub fn render(
        &self,
        level: LogLevel,
        target: &str,
        args: &str,
        file: Option<&str>,
        line: Option<u32>,
        function: Option<&str>,
        time: &str,
        backtrace: &str,
    ) -> (r: String)
        ensures
            r@ == spec_render_event(
                self.format,
                level,
                target@,
                args@,
                file.deep_view(),
                line,
                function.deep_view(),
                self.operation_id@,
                self.operation_producer@,
                time@,
                backtrace@,
            ),
    {
        render_event(
            self.format,
            level,
            target,
            args,
            file,
            line,
            function,
            self.operation_id.as_str(),
            self.operation_producer.as_str(),
            time,
            backtrace,
        )
    }

    /// Renders one event in this logger's mode, capturing the timestamp at
    /// render time.
    pub fn render_now(
        &self,
        level: LogLevel,
        target: &str,
        args: &str,
        file: Option<&str>,
        line: Option<u32>,
        function: Option<&str>,
        backtrace: &str,
    ) -> (r: String)
        ensures
            exists|t: Seq<char>|
                t.len() > 0 && r@ == spec_render_event(
                    self.format,
                    level,
                    target@,
                    args@,
                    file.deep_view(),
                    line,
                    function.deep_view(),
                    self.operation_id@,
                    self.operation_producer@,
                    t,
                    backtrace@,
                ),
    {
        render_event_now(
            self.format,
            level,
            target,
            args,
            file,
            line,
            function,
            self.operation_id.as_str(),
            self.operation_producer.as_str(),
            backtrace,
        )
    }
}

/// In json mode, the error-report tag is present in the wire members if and
/// only if the event level is Error.
pub proof fn lemma_report_type_iff_error(
    level: LogLevel,
    args: Seq<char>,
    file: Option<Seq<char>>,
    line: Option<u32>,
    function: Option<Seq<char>>,
    op_id: Seq<char>,
    op_producer: Seq<char>,
    time: Seq<char>,
    backtrace: Seq<char>,
)
    ensures
        lookup(
            entry_fields(
                spec_build_entry(
                    level,
                    args,
                    file,
                    line,
                    function,
                    op_id,
                    op_producer,
                    time,
                    backtrace,
                ),
            ),
            "@type"@,
        ) is Some <==> level == LogLevel::Error,
{
    let v = spec_build_entry(level, args, file, line, function, op_id, op_producer, time, backtrace);
    entry_key_facts();
    lemma_entry_lookup(v, "@type"@);
}

/// The backtrace rule: in text mode the backtrace is appended exactly for
/// Error and Warn; in json mode the message carries it for every level.
pub proof fn lemma_backtrace_rule(
    level: LogLevel,
    target: Seq<char>,
    args: Seq<char>,
    file: Option<Seq<char>>,
    line: Option<u32>,
    function: Option<Seq<char>>,
    op_id: Seq<char>,
    op_producer: Seq<char>,
    time: Seq<char>,
    backtrace: Seq<char>,
)
    ensures
        text_has_backtrace(level) <==> (level == LogLevel::Error || level == LogLevel::Warn),
        text_has_backtrace(level) ==> spec_render_text(level, target, args, backtrace)
            == spec_text_prefix(level, target, args) + backtrace,
        !text_has_backtrace(level) ==> spec_render_text(level, target, args, backtrace)
            == spec_text_prefix(level, target, args),
        spec_build_entry(
            level,
            args,
            file,
            line,
            function,
            op_id,
            op_producer,
            time,
            backtrace,
        ).message == Some(args + backtrace),
{
    if !text_has_backtrace(level) {
        assert(spec_render_text(level, target, args, backtrace) =~= spec_text_prefix(
            level,
            target,
            args,
        ));
    }
}

} // verus!
