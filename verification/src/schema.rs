//! The structured log-entry document: the data model the logging backend
//! ingests. Every field is optional, and an absent field is omitted entirely
//! from the wire form.

use vstd::prelude::*;

verus! {

/// The severity of the event described in a log entry, on the scale the
/// logging backend recognises, in ascending order of criticality.
#[derive(Clone, Copy, Debug, PartialEq, Eq, Structural)]
pub enum GCLogSeverity {
    /// The log entry has no assigned severity level.
    Default,
    /// Debug or trace information.
    Debug,
    /// Routine information, such as ongoing status or performance.
    Info,
    /// Normal but significant events, such as start up, shut down, or a
    /// configuration change.
    Notice,
    /// Warning events might cause problems.
    Warning,
    /// Error events are likely to cause problems.
    Error,
    /// Critical events cause more severe problems or outages.
    Critical,
    /// A person must take an action immediately.
    Alert,
    /// One or more systems are unusable.
    Emergency,
}

impl Default for GCLogSeverity {
    fn default() -> (r: Self)
        ensures
            r == GCLogSeverity::Default,
    {
        GCLogSeverity::Default
    }
}

/// The request method of an HTTP exchange a log entry pertains to.
#[derive(Clone, Copy, Debug, PartialEq, Eq, Structural)]
pub enum GCHttpMethod {
    Get,
    Head,
    Put,
    Post,
}

impl Default for GCHttpMethod {
    fn default() -> (r: Self)
        ensures
            r == GCHttpMethod::Get,
    {
        GCHttpMethod::Get
    }
}

/// A structured record describing the HTTP exchange a log entry pertains to.
/// Sizes, latency and the line number are carried in their decimal string
/// form, as the wire format has them.
#[derive(Clone, Debug, PartialEq)]
pub struct GCHttpRequest {
    /// The request method.
    pub request_method: Option<GCHttpMethod>,
    /// The scheme, host name, path and query portion of the requested URL.
    pub request_url: Option<String>,
    /// The size of the HTTP request message in bytes, including headers and
    /// body.
    pub request_size: Option<String>,
    /// The response code indicating the status of the response.
    pub status: Option<u16>,
    /// The size of the HTTP response message in bytes, including headers and
    /// body.
    pub response_size: Option<String>,
    /// The user agent sent by the client.
    pub user_agent: Option<String>,
    /// The IP address of the client that issued the request.
    pub remote_ip: Option<String>,
    /// The IP address of the origin server the request was sent to.
    pub server_ip: Option<String>,
    /// The request processing latency, in seconds with up to nine fractional
    /// digits, terminated by `s`.
    pub latency: Option<String>,
    /// The protocol used for the request, such as `HTTP/1.1`.
    pub protocol: Option<String>,
}

/// The mathematical value of a [`GCHttpRequest`].
#[verifier::ext_equal]
pub struct GCHttpRequestV {
    pub request_method: Option<GCHttpMethod>,
    pub request_url: Option<Seq<char>>,
    pub request_size: Option<Seq<char>>,
    pub status: Option<u16>,
    pub response_size: Option<Seq<char>>,
    pub user_agent: Option<Seq<char>>,
    pub remote_ip: Option<Seq<char>>,
    pub server_ip: Option<Seq<char>>,
    pub latency: Option<Seq<char>>,
    pub protocol: Option<Seq<char>>,
}

impl View for GCHttpRequest {
    type V = GCHttpRequestV;

    open spec fn view(&self) -> GCHttpRequestV {
        GCHttpRequestV {
            request_method: self.request_method,
            request_url: self.request_url.deep_view(),
            request_size: self.request_size.deep_view(),
            status: self.status,
            response_size: self.response_size.deep_view(),
            user_agent: self.user_agent.deep_view(),
            remote_ip: self.remote_ip.deep_view(),
            server_ip: self.server_ip.deep_view(),
            latency: self.latency.deep_view(),
            protocol: self.protocol.deep_view(),
        }
    }
}

impl Default for GCHttpRequest {
    fn default() -> (r: Self)
        ensures
            r@ == GCHttpRequestV::absent(),
    {
        GCHttpRequest {
            request_method: None,
            request_url: None,
            request_size: None,
            status: None,
            response_size: None,
            user_agent: None,
            remote_ip: None,
            server_ip: None,
            latency: None,
            protocol: None,
        }
    }
}

impl GCHttpRequestV {
    /// The record with no field set.
    pub open spec fn absent() -> GCHttpRequestV {
        GCHttpRequestV {
            request_method: None,
            request_url: None,
            request_size: None,
            status: None,
            response_size: None,
            user_agent: None,
            remote_ip: None,
            server_ip: None,
            latency: None,
            protocol: None,
        }
    }
}

/// Information about an operation that a series of log entries belongs to.
#[derive(Clone, Debug, PartialEq)]
pub struct GCOperation {
    /// An arbitrary operation identifier. Entries with the same identifier
    /// are assumed to be part of the same operation.
    pub id: Option<String>,
    /// An arbitrary producer identifier; the combination of id and producer
    /// must be globally unique.
    pub producer: Option<String>,
    /// `true` on the first log entry in the operation.
    pub first: Option<bool>,
    /// `true` on the last log entry in the operation.
    pub last: Option<bool>,
}

/// The mathematical value of a [`GCOperation`].
#[verifier::ext_equal]
pub struct GCOperationV {
    pub id: Option<Seq<char>>,
    pub producer: Option<Seq<char>>,
    pub first: Option<bool>,
    pub last: Option<bool>,
}

impl View for GCOperation {
    type V = GCOperationV;

    open spec fn view(&self) -> GCOperationV {
        GCOperationV {
            id: self.id.deep_view(),
            producer: self.producer.deep_view(),
            first: self.first,
            last: self.last,
        }
    }
}

impl Default for GCOperation {
    fn default() -> (r: Self)
        ensures
            r@ == GCOperationV::absent(),
    {
        GCOperation { id: None, producer: None, first: None, last: None }
    }
}

impl GCOperationV {
    /// The record with no field set.
    pub open spec fn absent() -> GCOperationV {
        GCOperationV { id: None, producer: None, first: None, last: None }
    }
}

/// The source-code location that produced a log entry.
#[derive(Clone, Debug, PartialEq)]
pub struct GCSourceLocation {
    /// Source file name; a simple or a fully-qualified name, depending on the
    /// runtime environment.
    pub file: Option<String>,
    /// Line within the source file, in decimal string form. 1-based; 0 means
    /// no line number is available.
    pub line: Option<String>,
    /// Human-readable name of the function or method being invoked.
    pub function: Option<String>,
}

/// The mathematical value of a [`GCSourceLocation`].
#[verifier::ext_equal]
pub struct GCSourceLocationV {
    pub file: Option<Seq<char>>,
    pub line: Option<Seq<char>>,
    pub function: Option<Seq<char>>,
}

impl View for GCSourceLocation {
    type V = GCSourceLocationV;

    open spec fn view(&self) -> GCSourceLocationV {
        GCSourceLocationV {
            file: self.file.deep_view(),
            line: self.line.deep_view(),
            function: self.function.deep_view(),
        }
    }
}

impl Default for GCSourceLocation {
    fn default() -> (r: Self)
        ensures
            r@ == GCSourceLocationV::absent(),
    {
        GCSourceLocation { file: None, line: None, function: None }
    }
}

impl GCSourceLocationV {
    /// The record with no field set.
    pub open spec fn absent() -> GCSourceLocationV {
        GCSourceLocationV { file: None, line: None, function: None }
    }
}

/// The structured log document, in the shape the logging backend expects.
/// One is constructed per log event, serialized once and discarded.
#[derive(Clone, Debug, PartialEq)]
pub struct GoogleCloudStructLog {
    /// The severity of the entry.
    pub severity: Option<GCLogSeverity>,
    /// The message that appears on the log entry line.
    ///
    /// A backtrace may be embedded after the primary message: a `:` at the
    /// end of the message, then one line per frame, each beginning with
    /// three spaces and `at `, optionally followed by ` line: N`.
    pub message: Option<String>,
    /// Marks the entry for automated error grouping when set to the
    /// error-reporting type URI; emitted under the literal key `@type`.
    pub report_type: Option<String>,
    /// The HTTP exchange the entry pertains to.
    pub http_request: Option<GCHttpRequest>,
    /// The wall-clock time of the entry, as an RFC 3339 string.
    pub time: Option<String>,
    /// A unique identifier for the entry; entries of the same project, time
    /// and identifier are treated as duplicates in query results.
    pub insert_id: Option<String>,
    /// User- or system-defined key/value pairs with additional information
    /// about the entry; omitted from the wire form when empty.
    pub labels: Vec<(String, String)>,
    /// The operation the entry belongs to.
    pub operation: Option<GCOperation>,
    /// The source-code location that produced the entry.
    pub source_location: Option<GCSourceLocation>,
    /// The span within the trace the entry is associated with: a
    /// 16-character hexadecimal encoding of an 8-byte array.
    pub span_id: Option<String>,
    /// Resource name of the trace the entry is associated with.
    pub trace: Option<String>,
    /// Whether the associated trace was sampled for storage.
    pub trace_sampled: Option<bool>,
}

/// The mathematical value of a [`GoogleCloudStructLog`].
#[verifier::ext_equal]
pub struct GoogleCloudStructLogV {
    pub severity: Option<GCLogSeverity>,
    pub message: Option<Seq<char>>,
    pub report_type: Option<Seq<char>>,
    pub http_request: Option<GCHttpRequestV>,
    pub time: Option<Seq<char>>,
    pub insert_id: Option<Seq<char>>,
    pub labels: Seq<(Seq<char>, Seq<char>)>,
    pub operation: Option<GCOperationV>,
    pub source_location: Option<GCSourceLocationV>,
    pub span_id: Option<Seq<char>>,
    pub trace: Option<Seq<char>>,
    pub trace_sampled: Option<bool>,
}

impl View for GoogleCloudStructLog {
    type V = GoogleCloudStructLogV;

    open spec fn view(&self) -> GoogleCloudStructLogV {
        GoogleCloudStructLogV {
            severity: self.severity,
            message: self.message.deep_view(),
            report_type: self.report_type.deep_view(),
            http_request: match &self.http_request {
                Some(r) => Some(r@),
                None => None,
            },
            time: self.time.deep_view(),
            insert_id: self.insert_id.deep_view(),
            labels: self.labels.deep_view(),
            operation: match &self.operation {
                Some(o) => Some(o@),
                None => None,
            },
            source_location: match &self.source_location {
                Some(s) => Some(s@),
                None => None,
            },
            span_id: self.span_id.deep_view(),
            trace: self.trace.deep_view(),
            trace_sampled: self.trace_sampled,
        }
    }
}

impl Default for GoogleCloudStructLog {
    fn default() -> (r: Self)
        ensures
            r@ == GoogleCloudStructLogV::absent(),
    {
        let r = GoogleCloudStructLog {
            severity: None,
            message: None,
            report_type: None,
            http_request: None,
            time: None,
            insert_id: None,
            labels: Vec::new(),
            operation: None,
            source_location: None,
            span_id: None,
            trace: None,
            trace_sampled: None,
        };
        proof {
            assert(r@.labels =~= GoogleCloudStructLogV::absent().labels);
            assert(r@ =~= GoogleCloudStructLogV::absent());
        }
        r
    }
}

impl GoogleCloudStructLogV {
    /// The document with no field set.
    pub open spec fn absent() -> GoogleCloudStructLogV {
        GoogleCloudStructLogV {
            severity: None,
            message: None,
            report_type: None,
            http_request: None,
            time: None,
            insert_id: None,
            labels: Seq::empty(),
            operation: None,
            source_location: None,
            span_id: None,
            trace: None,
            trace_sampled: None,
        }
    }
}

} // verus!
