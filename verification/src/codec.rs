//! The wire encoding of the structured log document: which members appear,
//! under which exact keys, in which order — and the structural decoding
//! back, which recovers every field that was set.

use vstd::prelude::*;
use crate::json::{
    fields_view, find_field, find_leaf, kvs_view, lemma_lookup_concat, lemma_lookup_seg, lookup,
    render_fields, render_obj, seg, JField, JFieldV, JLeaf, JLeafV,
};
use crate::schema::{
    GCHttpMethod, GCHttpRequest, GCHttpRequestV, GCLogSeverity, GCOperation, GCOperationV,
    GCSourceLocation, GCSourceLocationV, GoogleCloudStructLog, GoogleCloudStructLogV,
};
use crate::text::str_eq;

verus! {

/// The lower-camel-case wire token of a severity.
pub open spec fn severity_name(s: GCLogSeverity) -> Seq<char> {
    match s {
        GCLogSeverity::Default => "default"@,
        GCLogSeverity::Debug => "debug"@,
        GCLogSeverity::Info => "info"@,
        GCLogSeverity::Notice => "notice"@,
        GCLogSeverity::Warning => "warning"@,
        GCLogSeverity::Error => "error"@,
        GCLogSeverity::Critical => "critical"@,
        GCLogSeverity::Alert => "alert"@,
        GCLogSeverity::Emergency => "emergency"@,
    }
}

/// The severity a wire token stands for, if any.
pub open spec fn severity_of_name(s: Seq<char>) -> Option<GCLogSeverity> {
    if s == "default"@ {
        Some(GCLogSeverity::Default)
    } else if s == "debug"@ {
        Some(GCLogSeverity::Debug)
    } else if s == "info"@ {
        Some(GCLogSeverity::Info)
    } else if s == "notice"@ {
        Some(GCLogSeverity::Notice)
    } else if s == "warning"@ {
        Some(GCLogSeverity::Warning)
    } else if s == "error"@ {
        Some(GCLogSeverity::Error)
    } else if s == "critical"@ {
        Some(GCLogSeverity::Critical)
    } else if s == "alert"@ {
        Some(GCLogSeverity::Alert)
    } else if s == "emergency"@ {
        Some(GCLogSeverity::Emergency)
    } else {
        None
    }
}

/// The nine severity tokens are pairwise distinct: their lengths, and where
/// lengths coincide their first characters, tell them apart.
pub proof fn severity_token_facts()
    ensures
        "default"@.len() == 7,
        "debug"@.len() == 5,
        "info"@.len() == 4,
        "notice"@.len() == 6,
        "warning"@.len() == 7,
        "error"@.len() == 5,
        "critical"@.len() == 8,
        "alert"@.len() == 5,
        "emergency"@.len() == 9,
        "default"@[0] == 'd',
        "warning"@[0] == 'w',
        "debug"@[0] == 'd',
        "error"@[0] == 'e',
        "alert"@[0] == 'a',
{
    reveal_strlit("default");
    reveal_strlit("debug");
    reveal_strlit("info");
    reveal_strlit("notice");
    reveal_strlit("warning");
    reveal_strlit("error");
    reveal_strlit("critical");
    reveal_strlit("alert");
    reveal_strlit("emergency");
}

/// Each severity token decodes back to the severity it names.
pub proof fn lemma_severity_name_inverse(s: GCLogSeverity)
    ensures
        severity_of_name(severity_name(s)) == Some(s),
{
    severity_token_facts();
}

/// The lower-camel-case wire token of an HTTP method.
pub open spec fn method_name(m: GCHttpMethod) -> Seq<char> {
    match m {
        GCHttpMethod::Get => "get"@,
        GCHttpMethod::Head => "head"@,
        GCHttpMethod::Put => "put"@,
        GCHttpMethod::Post => "post"@,
    }
}

/// The HTTP method a wire token stands for, if any.
pub open spec fn method_of_name(s: Seq<char>) -> Option<GCHttpMethod> {
    if s == "get"@ {
        Some(GCHttpMethod::Get)
    } else if s == "head"@ {
        Some(GCHttpMethod::Head)
    } else if s == "put"@ {
        Some(GCHttpMethod::Put)
    } else if s == "post"@ {
        Some(GCHttpMethod::Post)
    } else {
        None
    }
}

/// The four method tokens are pairwise distinct.
pub proof fn method_token_facts()
    ensures
        "get"@.len() == 3,
        "head"@.len() == 4,
        "put"@.len() == 3,
        "post"@.len() == 4,
        "get"@[0] == 'g',
        "put"@[0] == 'p',
        "head"@[0] == 'h',
        "post"@[0] == 'p',
{
    reveal_strlit("get");
    reveal_strlit("head");
    reveal_strlit("put");
    reveal_strlit("post");
}

/// Each method token decodes back to the method it names.
pub proof fn lemma_method_name_inverse(m: GCHttpMethod)
    ensures
        method_of_name(method_name(m)) == Some(m),
{
    method_token_facts();
}

/// An optional string member value.
pub open spec fn opt_str_leaf(o: Option<Seq<char>>) -> Option<JLeafV> {
    match o {
        Some(s) => Some(JLeafV::Str(s)),
        None => None,
    }
}

/// An optional boolean member value.
pub open spec fn opt_bool_leaf(o: Option<bool>) -> Option<JLeafV> {
    match o {
        Some(b) => Some(JLeafV::Bool(b)),
        None => None,
    }
}

/// An optional numeric member value.
pub open spec fn opt_num_leaf(o: Option<u16>) -> Option<JLeafV> {
    match o {
        Some(n) => Some(JLeafV::Num(n)),
        None => None,
    }
}

/// An optional method member value.
pub open spec fn opt_method_leaf(o: Option<GCHttpMethod>) -> Option<JLeafV> {
    match o {
        Some(m) => Some(JLeafV::Str(method_name(m))),
        None => None,
    }
}

/// The string a member holds, if it is a string member.
pub open spec fn dec_str_leaf(o: Option<JLeafV>) -> Option<Seq<char>> {
    match o {
        Some(JLeafV::Str(s)) => Some(s),
        _ => None,
    }
}

/// The boolean a member holds, if it is a boolean member.
pub open spec fn dec_bool_leaf(o: Option<JLeafV>) -> Option<bool> {
    match o {
        Some(JLeafV::Bool(b)) => Some(b),
        _ => None,
    }
}

/// The number a member holds, if it is a numeric member.
pub open spec fn dec_num_leaf(o: Option<JLeafV>) -> Option<u16> {
    match o {
        Some(JLeafV::Num(n)) => Some(n),
        _ => None,
    }
}

/// The method a member names, if it is a string member naming one.
pub open spec fn dec_method_leaf(o: Option<JLeafV>) -> Option<GCHttpMethod> {
    match o {
        Some(JLeafV::Str(s)) => method_of_name(s),
        _ => None,
    }
}

/// The members of the `httpRequest` object, in wire order, with every
/// absent field omitted.
pub open spec fn http_kvs(r: GCHttpRequestV) -> Seq<(Seq<char>, JLeafV)> {
    seg("requestMethod"@, opt_method_leaf(r.request_method)) + seg(
        "requestUrl"@,
        opt_str_leaf(r.request_url),
    ) + seg("requestSize"@, opt_str_leaf(r.request_size)) + seg(
        "status"@,
        opt_num_leaf(r.status),
    ) + seg("responseSize"@, opt_str_leaf(r.response_size)) + seg(
        "userAgent"@,
        opt_str_leaf(r.user_agent),
    ) + seg("remoteIp"@, opt_str_leaf(r.remote_ip)) + seg(
        "serverIp"@,
        opt_str_leaf(r.server_ip),
    ) + seg("latency"@, opt_str_leaf(r.latency)) + seg("protocol"@, opt_str_leaf(r.protocol))
}

/// What a lookup in [`http_kvs`] yields, key by key.
pub open spec fn http_table(r: GCHttpRequestV, key: Seq<char>) -> Option<JLeafV> {
    if key == "requestMethod"@ {
        opt_method_leaf(r.request_method)
    } else if key == "requestUrl"@ {
        opt_str_leaf(r.request_url)
    } else if key == "requestSize"@ {
        opt_str_leaf(r.request_size)
    } else if key == "status"@ {
        opt_num_leaf(r.status)
    } else if key == "responseSize"@ {
        opt_str_leaf(r.response_size)
    } else if key == "userAgent"@ {
        opt_str_leaf(r.user_agent)
    } else if key == "remoteIp"@ {
        opt_str_leaf(r.remote_ip)
    } else if key == "serverIp"@ {
        opt_str_leaf(r.server_ip)
    } else if key == "latency"@ {
        opt_str_leaf(r.latency)
    } else if key == "protocol"@ {
        opt_str_leaf(r.protocol)
    } else {
        None
    }
}

/// The ten keys of the `httpRequest` object are pairwise distinct.
pub proof fn http_key_facts()
    ensures
        "requestMethod"@.len() == 13,
        "requestUrl"@.len() == 10,
        "requestSize"@.len() == 11,
        "status"@.len() == 6,
        "responseSize"@.len() == 12,
        "userAgent"@.len() == 9,
        "remoteIp"@.len() == 8,
        "serverIp"@.len() == 8,
        "latency"@.len() == 7,
        "protocol"@.len() == 8,
        "remoteIp"@[0] == 'r',
        "serverIp"@[0] == 's',
        "protocol"@[0] == 'p',
{
    reveal_strlit("requestMethod");
    reveal_strlit("requestUrl");
    reveal_strlit("requestSize");
    reveal_strlit("status");
    reveal_strlit("responseSize");
    reveal_strlit("userAgent");
    reveal_strlit("remoteIp");
    reveal_strlit("serverIp");
    reveal_strlit("latency");
    reveal_strlit("protocol");
}

/// A lookup in the encoded `httpRequest` object returns exactly the field
/// the key names, when it is set, and nothing otherwise.
pub proof fn lemma_http_lookup(r: GCHttpRequestV, key: Seq<char>)
    ensures
        lookup(http_kvs(r), key) == http_table(r, key),
{
    http_key_facts();
    let s1 = seg("requestMethod"@, opt_method_leaf(r.request_method));
    let s2 = seg("requestUrl"@, opt_str_leaf(r.request_url));
    let s3 = seg("requestSize"@, opt_str_leaf(r.request_size));
    let s4 = seg("status"@, opt_num_leaf(r.status));
    let s5 = seg("responseSize"@, opt_str_leaf(r.response_size));
    let s6 = seg("userAgent"@, opt_str_leaf(r.user_agent));
    let s7 = seg("remoteIp"@, opt_str_leaf(r.remote_ip));
    let s8 = seg("serverIp"@, opt_str_leaf(r.server_ip));
    let s9 = seg("latency"@, opt_str_leaf(r.latency));
    let s10 = seg("protocol"@, opt_str_leaf(r.protocol));
    lemma_lookup_seg("requestMethod"@, opt_method_leaf(r.request_method), key);
    lemma_lookup_seg("requestUrl"@, opt_str_leaf(r.request_url), key);
    lemma_lookup_seg("requestSize"@, opt_str_leaf(r.request_size), key);
    lemma_lookup_seg("status"@, opt_num_leaf(r.status), key);
    lemma_lookup_seg("responseSize"@, opt_str_leaf(r.response_size), key);
    lemma_lookup_seg("userAgent"@, opt_str_leaf(r.user_agent), key);
    lemma_lookup_seg("remoteIp"@, opt_str_leaf(r.remote_ip), key);
    lemma_lookup_seg("serverIp"@, opt_str_leaf(r.server_ip), key);
    lemma_lookup_seg("latency"@, opt_str_leaf(r.latency), key);
    lemma_lookup_seg("protocol"@, opt_str_leaf(r.protocol), key);
    lemma_lookup_concat(s1, s2, key);
    lemma_lookup_concat(s1 + s2, s3, key);
    lemma_lookup_concat(s1 + s2 + s3, s4, key);
    lemma_lookup_concat(s1 + s2 + s3 + s4, s5, key);
    lemma_lookup_concat(s1 + s2 + s3 + s4 + s5, s6, key);
    lemma_lookup_concat(s1 + s2 + s3 + s4 + s5 + s6, s7, key);
    lemma_lookup_concat(s1 + s2 + s3 + s4 + s5 + s6 + s7, s8, key);
    lemma_lookup_concat(s1 + s2 + s3 + s4 + s5 + s6 + s7 + s8, s9, key);
    lemma_lookup_concat(s1 + s2 + s3 + s4 + s5 + s6 + s7 + s8 + s9, s10, key);
}

/// The structural decoding of an `httpRequest` object.
pub open spec fn http_of_kvs(kvs: Seq<(Seq<char>, JLeafV)>) -> GCHttpRequestV {
    GCHttpRequestV {
        request_method: dec_method_leaf(lookup(kvs, "requestMethod"@)),
        request_url: dec_str_leaf(lookup(kvs, "requestUrl"@)),
        request_size: dec_str_leaf(lookup(kvs, "requestSize"@)),
        status: dec_num_leaf(lookup(kvs, "status"@)),
        response_size: dec_str_leaf(lookup(kvs, "responseSize"@)),
        user_agent: dec_str_leaf(lookup(kvs, "userAgent"@)),
        remote_ip: dec_str_leaf(lookup(kvs, "remoteIp"@)),
        server_ip: dec_str_leaf(lookup(kvs, "serverIp"@)),
        latency: dec_str_leaf(lookup(kvs, "latency"@)),
        protocol: dec_str_leaf(lookup(kvs, "protocol"@)),
    }
}

/// Decoding the encoded `httpRequest` object reproduces every field.
pub proof fn lemma_http_round_trip(r: GCHttpRequestV)
    ensures
        http_of_kvs(http_kvs(r)) == r,
{
    http_key_facts();
    lemma_http_lookup(r, "requestMethod"@);
    lemma_http_lookup(r, "requestUrl"@);
    lemma_http_lookup(r, "requestSize"@);
    lemma_http_lookup(r, "status"@);
    lemma_http_lookup(r, "responseSize"@);
    lemma_http_lookup(r, "userAgent"@);
    lemma_http_lookup(r, "remoteIp"@);
    lemma_http_lookup(r, "serverIp"@);
    lemma_http_lookup(r, "latency"@);
    lemma_http_lookup(r, "protocol"@);
    match r.request_method {
        Some(m) => lemma_method_name_inverse(m),
        None => {},
    }
    assert(http_of_kvs(http_kvs(r)) =~= r);
}

/// The members of the `operation` object, in wire order.
pub open spec fn op_kvs(o: GCOperationV) -> Seq<(Seq<char>, JLeafV)> {
    seg("id"@, opt_str_leaf(o.id)) + seg("producer"@, opt_str_leaf(o.producer)) + seg(
        "first"@,
        opt_bool_leaf(o.first),
    ) + seg("last"@, opt_bool_leaf(o.last))
}

/// What a lookup in [`op_kvs`] yields, key by key.
pub open spec fn op_table(o: GCOperationV, key: Seq<char>) -> Option<JLeafV> {
    if key == "id"@ {
        opt_str_leaf(o.id)
    } else if key == "producer"@ {
        opt_str_leaf(o.producer)
    } else if key == "first"@ {
        opt_bool_leaf(o.first)
    } else if key == "last"@ {
        opt_bool_leaf(o.last)
    } else {
        None
    }
}

/// The four keys of the `operation` object are pairwise distinct.
pub proof fn op_key_facts()
    ensures
        "id"@.len() == 2,
        "producer"@.len() == 8,
        "first"@.len() == 5,
        "last"@.len() == 4,
{
    reveal_strlit("id");
    reveal_strlit("producer");
    reveal_strlit("first");
    reveal_strlit("last");
}

/// A lookup in the encoded `operation` object returns exactly the field
/// the key names.
pub proof fn lemma_op_lookup(o: GCOperationV, key: Seq<char>)
    ensures
        lookup(op_kvs(o), key) == op_table(o, key),
{
    op_key_facts();
    let s1 = seg("id"@, opt_str_leaf(o.id));
    let s2 = seg("producer"@, opt_str_leaf(o.producer));
    let s3 = seg("first"@, opt_bool_leaf(o.first));
    let s4 = seg("last"@, opt_bool_leaf(o.last));
    lemma_lookup_seg("id"@, opt_str_leaf(o.id), key);
    lemma_lookup_seg("producer"@, opt_str_leaf(o.producer), key);
    lemma_lookup_seg("first"@, opt_bool_leaf(o.first), key);
    lemma_lookup_seg("last"@, opt_bool_leaf(o.last), key);
    lemma_lookup_concat(s1, s2, key);
    lemma_lookup_concat(s1 + s2, s3, key);
    lemma_lookup_concat(s1 + s2 + s3, s4, key);
}

/// The structural decoding of an `operation` object.
pub open spec fn op_of_kvs(kvs: Seq<(Seq<char>, JLeafV)>) -> GCOperationV {
    GCOperationV {
        id: dec_str_leaf(lookup(kvs, "id"@)),
        producer: dec_str_leaf(lookup(kvs, "producer"@)),
        first: dec_bool_leaf(lookup(kvs, "first"@)),
        last: dec_bool_leaf(lookup(kvs, "last"@)),
    }
}

/// Decoding the encoded `operation` object reproduces every field.
pub proof fn lemma_op_round_trip(o: GCOperationV)
    ensures
        op_of_kvs(op_kvs(o)) == o,
{
    op_key_facts();
    lemma_op_lookup(o, "id"@);
    lemma_op_lookup(o, "producer"@);
    lemma_op_lookup(o, "first"@);
    lemma_op_lookup(o, "last"@);
    assert(op_of_kvs(op_kvs(o)) =~= o);
}

/// The members of the `sourceLocation` object, in wire order.
pub open spec fn sl_kvs(s: GCSourceLocationV) -> Seq<(Seq<char>, JLeafV)> {
    seg("file"@, opt_str_leaf(s.file)) + seg("line"@, opt_str_leaf(s.line)) + seg(
        "function"@,
        opt_str_leaf(s.function),
    )
}

/// What a lookup in [`sl_kvs`] yields, key by key.
pub open spec fn sl_table(s: GCSourceLocationV, key: Seq<char>) -> Option<JLeafV> {
    if key == "file"@ {
        opt_str_leaf(s.file)
    } else if key == "line"@ {
        opt_str_leaf(s.line)
    } else if key == "function"@ {
        opt_str_leaf(s.function)
    } else {
        None
    }
}

/// The three keys of the `sourceLocation` object are pairwise distinct.
pub proof fn sl_key_facts()
    ensures
        "file"@.len() == 4,
        "line"@.len() == 4,
        "function"@.len() == 8,
        "file"@[0] == 'f',
        "line"@[0] == 'l',
{
    reveal_strlit("file");
    reveal_strlit("line");
    reveal_strlit("function");
}

/// A lookup in the encoded `sourceLocation` object returns exactly the
/// field the key names.
pub proof fn lemma_sl_lookup(s: GCSourceLocationV, key: Seq<char>)
    ensures
        lookup(sl_kvs(s), key) == sl_table(s, key),
{
    sl_key_facts();
    let s1 = seg("file"@, opt_str_leaf(s.file));
    let s2 = seg("line"@, opt_str_leaf(s.line));
    let s3 = seg("function"@, opt_str_leaf(s.function));
    lemma_lookup_seg("file"@, opt_str_leaf(s.file), key);
    lemma_lookup_seg("line"@, opt_str_leaf(s.line), key);
    lemma_lookup_seg("function"@, opt_str_leaf(s.function), key);
    lemma_lookup_concat(s1, s2, key);
    lemma_lookup_concat(s1 + s2, s3, key);
}

/// The structural decoding of a `sourceLocation` object.
pub open spec fn sl_of_kvs(kvs: Seq<(Seq<char>, JLeafV)>) -> GCSourceLocationV {
    GCSourceLocationV {
        file: dec_str_leaf(lookup(kvs, "file"@)),
        line: dec_str_leaf(lookup(kvs, "line"@)),
        function: dec_str_leaf(lookup(kvs, "function"@)),
    }
}

/// Decoding the encoded `sourceLocation` object reproduces every field.
pub proof fn lemma_sl_round_trip(s: GCSourceLocationV)
    ensures
        sl_of_kvs(sl_kvs(s)) == s,
{
    sl_key_facts();
    lemma_sl_lookup(s, "file"@);
    lemma_sl_lookup(s, "line"@);
    lemma_sl_lookup(s, "function"@);
    assert(sl_of_kvs(sl_kvs(s)) =~= s);
}

/// The members of the `labels` object: one string member per pair, in order.
pub open spec fn labels_kvs(pairs: Seq<(Seq<char>, Seq<char>)>) -> Seq<(Seq<char>, JLeafV)> {
    pairs.map_values(|p: (Seq<char>, Seq<char>)| (p.0, JLeafV::Str(p.1)))
}

/// The structural decoding of a `labels` object: its string members, in
/// order.
pub open spec fn labels_of_kvs(kvs: Seq<(Seq<char>, JLeafV)>) -> Seq<(Seq<char>, Seq<char>)>
    decreases kvs.len(),
{
    if kvs.len() == 0 {
        Seq::empty()
    } else {
        match kvs.last().1 {
            JLeafV::Str(s) => labels_of_kvs(kvs.drop_last()).push((kvs.last().0, s)),
            _ => labels_of_kvs(kvs.drop_last()),
        }
    }
}

/// Decoding the encoded `labels` object reproduces every pair, in order.
pub proof fn lemma_labels_round_trip(pairs: Seq<(Seq<char>, Seq<char>)>)
    ensures
        labels_of_kvs(labels_kvs(pairs)) == pairs,
    decreases pairs.len(),
{
    if pairs.len() == 0 {
        assert(labels_kvs(pairs) =~= Seq::empty());
        assert(labels_of_kvs(labels_kvs(pairs)) =~= pairs);
    } else {
        assert(labels_kvs(pairs).drop_last() =~= labels_kvs(pairs.drop_last()));
        lemma_labels_round_trip(pairs.drop_last());
        assert(labels_kvs(pairs).last() == (pairs.last().0, JLeafV::Str(pairs.last().1)));
        assert(labels_of_kvs(labels_kvs(pairs)) =~= pairs);
    }
}

/// An optional string member at top level.
pub open spec fn opt_str_field(o: Option<Seq<char>>) -> Option<JFieldV> {
    match o {
        Some(s) => Some(JFieldV::Leaf(JLeafV::Str(s))),
        None => None,
    }
}

/// An optional boolean member at top level.
pub open spec fn opt_bool_field(o: Option<bool>) -> Option<JFieldV> {
    match o {
        Some(b) => Some(JFieldV::Leaf(JLeafV::Bool(b))),
        None => None,
    }
}

/// The string a top-level member holds, if it is a string member.
pub open spec fn dec_str_field(o: Option<JFieldV>) -> Option<Seq<char>> {
    match o {
        Some(JFieldV::Leaf(JLeafV::Str(s))) => Some(s),
        _ => None,
    }
}

/// The boolean a top-level member holds, if it is a boolean member.
pub open spec fn dec_bool_field(o: Option<JFieldV>) -> Option<bool> {
    match o {
        Some(JFieldV::Leaf(JLeafV::Bool(b))) => Some(b),
        _ => None,
    }
}

/// The members of the whole log document, in wire order, with every absent
/// field omitted and the `labels` object omitted when empty. The dotted
/// vendor keys and the literal key `@type` are a compatibility contract
/// with the consuming backend.
pub open spec fn entry_fields(v: GoogleCloudStructLogV) -> Seq<(Seq<char>, JFieldV)> {
    seg(
        "severity"@,
        match v.severity {
            Some(s) => Some(JFieldV::Leaf(JLeafV::Str(severity_name(s)))),
            None => None,
        },
    ) + seg("message"@, opt_str_field(v.message)) + seg("@type"@, opt_str_field(v.report_type))
        + seg(
        "httpRequest"@,
        match v.http_request {
            Some(r) => Some(JFieldV::Object(http_kvs(r))),
            None => None,
        },
    ) + seg("time"@, opt_str_field(v.time)) + seg(
        "logging.googleapis.com/insertId"@,
        opt_str_field(v.insert_id),
    ) + seg(
        "logging.googleapis.com/labels"@,
        if v.labels.len() == 0 {
            None
        } else {
            Some(JFieldV::Object(labels_kvs(v.labels)))
        },
    ) + seg(
        "logging.googleapis.com/operation"@,
        match v.operation {
            Some(o) => Some(JFieldV::Object(op_kvs(o))),
            None => None,
        },
    ) + seg(
        "logging.googleapis.com/sourceLocation"@,
        match v.source_location {
            Some(s) => Some(JFieldV::Object(sl_kvs(s))),
            None => None,
        },
    ) + seg("logging.googleapis.com/spanId"@, opt_str_field(v.span_id)) + seg(
        "logging.googleapis.com/trace"@,
        opt_str_field(v.trace),
    ) + seg("logging.googleapis.com/trace_sampled"@, opt_bool_field(v.trace_sampled))
}

/// What a lookup in [`entry_fields`] yields, key by key.
pub open spec fn entry_table(v: GoogleCloudStructLogV, key: Seq<char>) -> Option<JFieldV> {
    if key == "severity"@ {
        match v.severity {
            Some(s) => Some(JFieldV::Leaf(JLeafV::Str(severity_name(s)))),
            None => None,
        }
    } else if key == "message"@ {
        opt_str_field(v.message)
    } else if key == "@type"@ {
        opt_str_field(v.report_type)
    } else if key == "httpRequest"@ {
        match v.http_request {
            Some(r) => Some(JFieldV::Object(http_kvs(r))),
            None => None,
        }
    } else if key == "time"@ {
        opt_str_field(v.time)
    } else if key == "logging.googleapis.com/insertId"@ {
        opt_str_field(v.insert_id)
    } else if key == "logging.googleapis.com/labels"@ {
        if v.labels.len() == 0 {
            None
        } else {
            Some(JFieldV::Object(labels_kvs(v.labels)))
        }
    } else if key == "logging.googleapis.com/operation"@ {
        match v.operation {
            Some(o) => Some(JFieldV::Object(op_kvs(o))),
            None => None,
        }
    } else if key == "logging.googleapis.com/sourceLocation"@ {
        match v.source_location {
            Some(s) => Some(JFieldV::Object(sl_kvs(s))),
            None => None,
        }
    } else if key == "logging.googleapis.com/spanId"@ {
        opt_str_field(v.span_id)
    } else if key == "logging.googleapis.com/trace"@ {
        opt_str_field(v.trace)
    } else if key == "logging.googleapis.com/trace_sampled"@ {
        opt_bool_field(v.trace_sampled)
    } else {
        None
    }
}

/// The twelve top-level keys of the document are pairwise distinct.
pub proof fn entry_key_facts()
    ensures
        "severity"@.len() == 8,
        "message"@.len() == 7,
        "@type"@.len() == 5,
        "httpRequest"@.len() == 11,
        "time"@.len() == 4,
        "logging.googleapis.com/insertId"@.len() == 31,
        "logging.googleapis.com/labels"@.len() == 29,
        "logging.googleapis.com/operation"@.len() == 32,
        "logging.googleapis.com/sourceLocation"@.len() == 37,
        "logging.googleapis.com/spanId"@.len() == 29,
        "logging.googleapis.com/trace"@.len() == 28,
        "logging.googleapis.com/trace_sampled"@.len() == 36,
        "logging.googleapis.com/labels"@[23] == 'l',
        "logging.googleapis.com/spanId"@[23] == 's',
{
    reveal_strlit("severity");
    reveal_strlit("message");
    reveal_strlit("@type");
    reveal_strlit("httpRequest");
    reveal_strlit("time");
    reveal_strlit("logging.googleapis.com/insertId");
    reveal_strlit("logging.googleapis.com/labels");
    reveal_strlit("logging.googleapis.com/operation");
    reveal_strlit("logging.googleapis.com/sourceLocation");
    reveal_strlit("logging.googleapis.com/spanId");
    reveal_strlit("logging.googleapis.com/trace");
    reveal_strlit("logging.googleapis.com/trace_sampled");
}

/// A lookup in the encoded document returns exactly the field the key
/// names, when it is set, and nothing otherwise: no absent field leaves a
/// trace on the wire.
pub proof fn lemma_entry_lookup(v: GoogleCloudStructLogV, key: Seq<char>)
    ensures
        lookup(entry_fields(v), key) == entry_table(v, key),
{
    entry_key_facts();
    let f1 = match v.severity {
        Some(s) => Some(JFieldV::Leaf(JLeafV::Str(severity_name(s)))),
        None => None,
    };
    let f4 = match v.http_request {
        Some(r) => Some(JFieldV::Object(http_kvs(r))),
        None => None,
    };
    let f7 = if v.labels.len() == 0 {
        None
    } else {
        Some(JFieldV::Object(labels_kvs(v.labels)))
    };
    let f8 = match v.operation {
        Some(o) => Some(JFieldV::Object(op_kvs(o))),
        None => None,
    };
    let f9 = match v.source_location {
        Some(s) => Some(JFieldV::Object(sl_kvs(s))),
        None => None,
    };
    let s1 = seg("severity"@, f1);
    let s2 = seg("message"@, opt_str_field(v.message));
    let s3 = seg("@type"@, opt_str_field(v.report_type));
    let s4 = seg("httpRequest"@, f4);
    let s5 = seg("time"@, opt_str_field(v.time));
    let s6 = seg("logging.googleapis.com/insertId"@, opt_str_field(v.insert_id));
    let s7 = seg("logging.googleapis.com/labels"@, f7);
    let s8 = seg("logging.googleapis.com/operation"@, f8);
    let s9 = seg("logging.googleapis.com/sourceLocation"@, f9);
    let s10 = seg("logging.googleapis.com/spanId"@, opt_str_field(v.span_id));
    let s11 = seg("logging.googleapis.com/trace"@, opt_str_field(v.trace));
    let s12 = seg("logging.googleapis.com/trace_sampled"@, opt_bool_field(v.trace_sampled));
    lemma_lookup_seg("severity"@, f1, key);
    lemma_lookup_seg("message"@, opt_str_field(v.message), key);
    lemma_lookup_seg("@type"@, opt_str_field(v.report_type), key);
    lemma_lookup_seg("httpRequest"@, f4, key);
    lemma_lookup_seg("time"@, opt_str_field(v.time), key);
    lemma_lookup_seg("logging.googleapis.com/insertId"@, opt_str_field(v.insert_id), key);
    lemma_lookup_seg("logging.googleapis.com/labels"@, f7, key);
    lemma_lookup_seg("logging.googleapis.com/operation"@, f8, key);
    lemma_lookup_seg("logging.googleapis.com/sourceLocation"@, f9, key);
    lemma_lookup_seg("logging.googleapis.com/spanId"@, opt_str_field(v.span_id), key);
    lemma_lookup_seg("logging.googleapis.com/trace"@, opt_str_field(v.trace), key);
    lemma_lookup_seg("logging.googleapis.com/trace_sampled"@, opt_bool_field(v.trace_sampled), key);
    lemma_lookup_concat(s1, s2, key);
    lemma_lookup_concat(s1 + s2, s3, key);
    lemma_lookup_concat(s1 + s2 + s3, s4, key);
    lemma_lookup_concat(s1 + s2 + s3 + s4, s5, key);
    lemma_lookup_concat(s1 + s2 + s3 + s4 + s5, s6, key);
    lemma_lookup_concat(s1 + s2 + s3 + s4 + s5 + s6, s7, key);
    lemma_lookup_concat(s1 + s2 + s3 + s4 + s5 + s6 + s7, s8, key);
    lemma_lookup_concat(s1 + s2 + s3 + s4 + s5 + s6 + s7 + s8, s9, key);
    lemma_lookup_concat(s1 + s2 + s3 + s4 + s5 + s6 + s7 + s8 + s9, s10, key);
    lemma_lookup_concat(s1 + s2 + s3 + s4 + s5 + s6 + s7 + s8 + s9 + s10, s11, key);
    lemma_lookup_concat(s1 + s2 + s3 + s4 + s5 + s6 + s7 + s8 + s9 + s10 + s11, s12, key);
}

/// The structural decoding of a whole log document.
pub open spec fn entry_of_fields_spec(fields: Seq<(Seq<char>, JFieldV)>) -> GoogleCloudStructLogV {
    GoogleCloudStructLogV {
        severity: match lookup(fields, "severity"@) {
            Some(JFieldV::Leaf(JLeafV::Str(s))) => severity_of_name(s),
            _ => None,
        },
        message: dec_str_field(lookup(fields, "message"@)),
        report_type: dec_str_field(lookup(fields, "@type"@)),
        http_request: match lookup(fields, "httpRequest"@) {
            Some(JFieldV::Object(kvs)) => Some(http_of_kvs(kvs)),
            _ => None,
        },
        time: dec_str_field(lookup(fields, "time"@)),
        insert_id: dec_str_field(lookup(fields, "logging.googleapis.com/insertId"@)),
        labels: match lookup(fields, "logging.googleapis.com/labels"@) {
            Some(JFieldV::Object(kvs)) => labels_of_kvs(kvs),
            _ => Seq::empty(),
        },
        operation: match lookup(fields, "logging.googleapis.com/operation"@) {
            Some(JFieldV::Object(kvs)) => Some(op_of_kvs(kvs)),
            _ => None,
        },
        source_location: match lookup(fields, "logging.googleapis.com/sourceLocation"@) {
            Some(JFieldV::Object(kvs)) => Some(sl_of_kvs(kvs)),
            _ => None,
        },
        span_id: dec_str_field(lookup(fields, "logging.googleapis.com/spanId"@)),
        trace: dec_str_field(lookup(fields, "logging.googleapis.com/trace"@)),
        trace_sampled: dec_bool_field(lookup(fields, "logging.googleapis.com/trace_sampled"@)),
    }
}

/// Encoding a log document to its wire members and decoding them back
/// reproduces every originally-set field unchanged, and absent fields
/// remain absent.
pub proof fn lemma_entry_round_trip(v: GoogleCloudStructLogV)
    ensures
        entry_of_fields_spec(entry_fields(v)) == v,
{
    entry_key_facts();
    lemma_entry_lookup(v, "severity"@);
    lemma_entry_lookup(v, "message"@);
    lemma_entry_lookup(v, "@type"@);
    lemma_entry_lookup(v, "httpRequest"@);
    lemma_entry_lookup(v, "time"@);
    lemma_entry_lookup(v, "logging.googleapis.com/insertId"@);
    lemma_entry_lookup(v, "logging.googleapis.com/labels"@);
    lemma_entry_lookup(v, "logging.googleapis.com/operation"@);
    lemma_entry_lookup(v, "logging.googleapis.com/sourceLocation"@);
    lemma_entry_lookup(v, "logging.googleapis.com/spanId"@);
    lemma_entry_lookup(v, "logging.googleapis.com/trace"@);
    lemma_entry_lookup(v, "logging.googleapis.com/trace_sampled"@);
    match v.severity {
        Some(s) => lemma_severity_name_inverse(s),
        None => {},
    }
    match v.http_request {
        Some(r) => lemma_http_round_trip(r),
        None => {},
    }
    lemma_labels_round_trip(v.labels);
    match v.operation {
        Some(o) => lemma_op_round_trip(o),
        None => {},
    }
    match v.source_location {
        Some(s) => lemma_sl_round_trip(s),
        None => {},
    }
    assert(entry_of_fields_spec(entry_fields(v)) =~= v);
}

/// Every member of the wire form corresponds to a field that was set: a
/// key is present if and only if its field is, the `labels` object only
/// when it is non-empty, and no other key is ever present.
pub proof fn lemma_omit_absent(v: GoogleCloudStructLogV)
    ensures
        lookup(entry_fields(v), "severity"@) is Some <==> v.severity is Some,
        lookup(entry_fields(v), "message"@) is Some <==> v.message is Some,
        lookup(entry_fields(v), "@type"@) is Some <==> v.report_type is Some,
        lookup(entry_fields(v), "httpRequest"@) is Some <==> v.http_request is Some,
        lookup(entry_fields(v), "time"@) is Some <==> v.time is Some,
        lookup(entry_fields(v), "logging.googleapis.com/insertId"@) is Some <==> v.insert_id
            is Some,
        lookup(entry_fields(v), "logging.googleapis.com/labels"@) is Some <==> v.labels.len() > 0,
        lookup(entry_fields(v), "logging.googleapis.com/operation"@) is Some <==> v.operation
            is Some,
        lookup(entry_fields(v), "logging.googleapis.com/sourceLocation"@) is Some
            <==> v.source_location is Some,
        lookup(entry_fields(v), "logging.googleapis.com/spanId"@) is Some <==> v.span_id is Some,
        lookup(entry_fields(v), "logging.googleapis.com/trace"@) is Some <==> v.trace is Some,
        lookup(entry_fields(v), "logging.googleapis.com/trace_sampled"@) is Some
            <==> v.trace_sampled is Some,
        forall|key: Seq<char>|
            #[trigger] lookup(entry_fields(v), key) is Some ==> entry_table(v, key) is Some,
{
    entry_key_facts();
    lemma_entry_lookup(v, "severity"@);
    lemma_entry_lookup(v, "message"@);
    lemma_entry_lookup(v, "@type"@);
    lemma_entry_lookup(v, "httpRequest"@);
    lemma_entry_lookup(v, "time"@);
    lemma_entry_lookup(v, "logging.googleapis.com/insertId"@);
    lemma_entry_lookup(v, "logging.googleapis.com/labels"@);
    lemma_entry_lookup(v, "logging.googleapis.com/operation"@);
    lemma_entry_lookup(v, "logging.googleapis.com/sourceLocation"@);
    lemma_entry_lookup(v, "logging.googleapis.com/spanId"@);
    lemma_entry_lookup(v, "logging.googleapis.com/trace"@);
    lemma_entry_lookup(v, "logging.googleapis.com/trace_sampled"@);
    assert forall|key: Seq<char>| #[trigger] lookup(entry_fields(v), key) is Some implies
        entry_table(v, key) is Some by {
        lemma_entry_lookup(v, key);
    }
}

/// Renders a severity's wire token.
pub fn severity_name_exec(s: GCLogSeverity) -> (r: String)
    ensures
        r@ == severity_name(s),
{
    match s {
        GCLogSeverity::Default => "default".to_owned(),
        GCLogSeverity::Debug => "debug".to_owned(),
        GCLogSeverity::Info => "info".to_owned(),
        GCLogSeverity::Notice => "notice".to_owned(),
        GCLogSeverity::Warning => "warning".to_owned(),
        GCLogSeverity::Error => "error".to_owned(),
        GCLogSeverity::Critical => "critical".to_owned(),
        GCLogSeverity::Alert => "alert".to_owned(),
        GCLogSeverity::Emergency => "emergency".to_owned(),
    }
}

/// Recognises a severity's wire token.
pub fn severity_of_name_exec(s: &str) -> (r: Option<GCLogSeverity>)
    ensures
        r == severity_of_name(s@),
{
    if str_eq(s, "default") {
        Some(GCLogSeverity::Default)
    } else if str_eq(s, "debug") {
        Some(GCLogSeverity::Debug)
    } else if str_eq(s, "info") {
        Some(GCLogSeverity::Info)
    } else if str_eq(s, "notice") {
        Some(GCLogSeverity::Notice)
    } else if str_eq(s, "warning") {
        Some(GCLogSeverity::Warning)
    } else if str_eq(s, "error") {
        Some(GCLogSeverity::Error)
    } else if str_eq(s, "critical") {
        Some(GCLogSeverity::Critical)
    } else if str_eq(s, "alert") {
        Some(GCLogSeverity::Alert)
    } else if str_eq(s, "emergency") {
        Some(GCLogSeverity::Emergency)
    } else {
        None
    }
}

/// Renders an HTTP method's wire token.
pub fn method_name_exec(m: GCHttpMethod) -> (r: String)
    ensures
        r@ == method_name(m),
{
    match m {
        GCHttpMethod::Get => "get".to_owned(),
        GCHttpMethod::Head => "head".to_owned(),
        GCHttpMethod::Put => "put".to_owned(),
        GCHttpMethod::Post => "post".to_owned(),
    }
}

/// Recognises an HTTP method's wire token.
pub fn method_of_name_exec(s: &str) -> (r: Option<GCHttpMethod>)
    ensures
        r == method_of_name(s@),
{
    if str_eq(s, "get") {
        Some(GCHttpMethod::Get)
    } else if str_eq(s, "head") {
        Some(GCHttpMethod::Head)
    } else if str_eq(s, "put") {
        Some(GCHttpMethod::Put)
    } else if str_eq(s, "post") {
        Some(GCHttpMethod::Post)
    } else {
        None
    }
}

fn push_leaf_str(kvs: &mut Vec<(String, JLeaf)>, key: &str, o: &Option<String>)
    ensures
        kvs_view(final(kvs)@) == kvs_view(old(kvs)@) + seg(key@, opt_str_leaf(o.deep_view())),
{
    match o {
        Some(s) => {
            kvs.push((key.to_owned(), JLeaf::Str(s.clone())));
        },
        None => {},
    }
    proof {
        assert(kvs_view(kvs@) =~= kvs_view(old(kvs)@) + seg(key@, opt_str_leaf(o.deep_view())));
    }
}

fn push_leaf_bool(kvs: &mut Vec<(String, JLeaf)>, key: &str, o: Option<bool>)
    ensures
        kvs_view(final(kvs)@) == kvs_view(old(kvs)@) + seg(key@, opt_bool_leaf(o)),
{
    match o {
        Some(b) => {
            kvs.push((key.to_owned(), JLeaf::Bool(b)));
        },
        None => {},
    }
    proof {
        assert(kvs_view(kvs@) =~= kvs_view(old(kvs)@) + seg(key@, opt_bool_leaf(o)));
    }
}

fn push_leaf_num(kvs: &mut Vec<(String, JLeaf)>, key: &str, o: Option<u16>)
    ensures
        kvs_view(final(kvs)@) == kvs_view(old(kvs)@) + seg(key@, opt_num_leaf(o)),
{
    match o {
        Some(n) => {
            kvs.push((key.to_owned(), JLeaf::Num(n)));
        },
        None => {},
    }
    proof {
        assert(kvs_view(kvs@) =~= kvs_view(old(kvs)@) + seg(key@, opt_num_leaf(o)));
    }
}

fn push_leaf_method(kvs: &mut Vec<(String, JLeaf)>, key: &str, o: Option<GCHttpMethod>)
    ensures
        kvs_view(final(kvs)@) == kvs_view(old(kvs)@) + seg(key@, opt_method_leaf(o)),
{
    match o {
        Some(m) => {
            kvs.push((key.to_owned(), JLeaf::Str(method_name_exec(m))));
        },
        None => {},
    }
    proof {
        assert(kvs_view(kvs@) =~= kvs_view(old(kvs)@) + seg(key@, opt_method_leaf(o)));
    }
}

/// Encodes an HTTP request record as its wire object members.
pub fn http_fields(r: &GCHttpRequest) -> (kvs: Vec<(String, JLeaf)>)
    ensures
        kvs_view(kvs@) == http_kvs(r@),
{
    let mut kvs: Vec<(String, JLeaf)> = Vec::new();
    proof {
        assert(kvs_view(kvs@) =~= Seq::<(Seq<char>, JLeafV)>::empty());
    }
    push_leaf_method(&mut kvs, "requestMethod", r.request_method);
    push_leaf_str(&mut kvs, "requestUrl", &r.request_url);
    push_leaf_str(&mut kvs, "requestSize", &r.request_size);
    push_leaf_num(&mut kvs, "status", r.status);
    push_leaf_str(&mut kvs, "responseSize", &r.response_size);
    push_leaf_str(&mut kvs, "userAgent", &r.user_agent);
    push_leaf_str(&mut kvs, "remoteIp", &r.remote_ip);
    push_leaf_str(&mut kvs, "serverIp", &r.server_ip);
    push_leaf_str(&mut kvs, "latency", &r.latency);
    push_leaf_str(&mut kvs, "protocol", &r.protocol);
    proof {
        assert(kvs_view(kvs@) =~= http_kvs(r@));
    }
    kvs
}

fn get_str_leaf(kvs: &Vec<(String, JLeaf)>, key: &str) -> (r: Option<String>)
    ensures
        r.deep_view() == dec_str_leaf(lookup(kvs_view(kvs@), key@)),
{
    match find_leaf(kvs, key) {
        Some(JLeaf::Str(s)) => Some(s.clone()),
        _ => None,
    }
}

fn get_bool_leaf(kvs: &Vec<(String, JLeaf)>, key: &str) -> (r: Option<bool>)
    ensures
        r == dec_bool_leaf(lookup(kvs_view(kvs@), key@)),
{
    match find_leaf(kvs, key) {
        Some(JLeaf::Bool(b)) => Some(*b),
        _ => None,
    }
}

fn get_num_leaf(kvs: &Vec<(String, JLeaf)>, key: &str) -> (r: Option<u16>)
    ensures
        r == dec_num_leaf(lookup(kvs_view(kvs@), key@)),
{
    match find_leaf(kvs, key) {
        Some(JLeaf::Num(n)) => Some(*n),
        _ => None,
    }
}

fn get_method_leaf(kvs: &Vec<(String, JLeaf)>, key: &str) -> (r: Option<GCHttpMethod>)
    ensures
        r == dec_method_leaf(lookup(kvs_view(kvs@), key@)),
{
    match find_leaf(kvs, key) {
        Some(JLeaf::Str(s)) => method_of_name_exec(s.as_str()),
        _ => None,
    }
}

/// Structurally decodes an HTTP request record from wire object members.
pub fn http_of_fields(kvs: &Vec<(String, JLeaf)>) -> (r: GCHttpRequest)
    ensures
        r@ == http_of_kvs(kvs_view(kvs@)),
{
    let r = GCHttpRequest {
        request_method: get_method_leaf(kvs, "requestMethod"),
        request_url: get_str_leaf(kvs, "requestUrl"),
        request_size: get_str_leaf(kvs, "requestSize"),
        status: get_num_leaf(kvs, "status"),
        response_size: get_str_leaf(kvs, "responseSize"),
        user_agent: get_str_leaf(kvs, "userAgent"),
        remote_ip: get_str_leaf(kvs, "remoteIp"),
        server_ip: get_str_leaf(kvs, "serverIp"),
        latency: get_str_leaf(kvs, "latency"),
        protocol: get_str_leaf(kvs, "protocol"),
    };
    proof {
        assert(r@ =~= http_of_kvs(kvs_view(kvs@)));
    }
    r
}

/// Encodes an operation record as its wire object members.
pub fn op_fields(o: &GCOperation) -> (kvs: Vec<(String, JLeaf)>)
    ensures
        kvs_view(kvs@) == op_kvs(o@),
{
    let mut kvs: Vec<(String, JLeaf)> = Vec::new();
    proof {
        assert(kvs_view(kvs@) =~= Seq::<(Seq<char>, JLeafV)>::empty());
    }
    push_leaf_str(&mut kvs, "id", &o.id);
    push_leaf_str(&mut kvs, "producer", &o.producer);
    push_leaf_bool(&mut kvs, "first", o.first);
    push_leaf_bool(&mut kvs, "last", o.last);
    proof {
        assert(kvs_view(kvs@) =~= op_kvs(o@));
    }
    kvs
}

/// Structurally decodes an operation record from wire object members.
pub fn op_of_fields(kvs: &Vec<(String, JLeaf)>) -> (r: GCOperation)
    ensures
        r@ == op_of_kvs(kvs_view(kvs@)),
{
    let r = GCOperation {
        id: get_str_leaf(kvs, "id"),
        producer: get_str_leaf(kvs, "producer"),
        first: get_bool_leaf(kvs, "first"),
        last: get_bool_leaf(kvs, "last"),
    };
    proof {
        assert(r@ =~= op_of_kvs(kvs_view(kvs@)));
    }
    r
}

/// Encodes a source-location record as its wire object members.
pub fn sl_fields(s: &GCSourceLocation) -> (kvs: Vec<(String, JLeaf)>)
    ensures
        kvs_view(kvs@) == sl_kvs(s@),
{
    let mut kvs: Vec<(String, JLeaf)> = Vec::new();
    proof {
        assert(kvs_view(kvs@) =~= Seq::<(Seq<char>, JLeafV)>::empty());
    }
    push_leaf_str(&mut kvs, "file", &s.file);
    push_leaf_str(&mut kvs, "line", &s.line);
    push_leaf_str(&mut kvs, "function", &s.function);
    proof {
        assert(kvs_view(kvs@) =~= sl_kvs(s@));
    }
    kvs
}

/// Structurally decodes a source-location record from wire object members.
pub fn sl_of_fields(kvs: &Vec<(String, JLeaf)>) -> (r: GCSourceLocation)
    ensures
        r@ == sl_of_kvs(kvs_view(kvs@)),
{
    let r = GCSourceLocation {
        file: get_str_leaf(kvs, "file"),
        line: get_str_leaf(kvs, "line"),
        function: get_str_leaf(kvs, "function"),
    };
    proof {
        assert(r@ =~= sl_of_kvs(kvs_view(kvs@)));
    }
    r
}

/// Encodes the labels as wire object members, in order.
pub fn labels_fields(pairs: &Vec<(String, String)>) -> (kvs: Vec<(String, JLeaf)>)
    ensures
        kvs_view(kvs@) == labels_kvs(pairs.deep_view()),
{
    let mut kvs: Vec<(String, JLeaf)> = Vec::new();
    let n = pairs.len();
    let mut i: usize = 0;
    proof {
        assert(pairs.deep_view().len() == n);
        assert(kvs_view(kvs@) =~= labels_kvs(pairs.deep_view().subrange(0, 0)));
    }
    while i < n
        invariant
            n == pairs.len(),
            pairs.deep_view().len() == n,
            i <= n,
            kvs_view(kvs@) == labels_kvs(pairs.deep_view().subrange(0, i as int)),
        decreases n - i,
    {
        let ghost prev = kvs@;
        kvs.push((pairs[i].0.clone(), JLeaf::Str(pairs[i].1.clone())));
        proof {
            let item = (pairs@[i as int].0@, pairs@[i as int].1@);
            assert(pairs.deep_view()[i as int] == item);
            assert(pairs.deep_view().subrange(0, i + 1 as int) =~= pairs.deep_view().subrange(
                0,
                i as int,
            ).push(item));
            assert(kvs_view(kvs@) =~= kvs_view(prev).push((item.0, JLeafV::Str(item.1))));
            assert(labels_kvs(pairs.deep_view().subrange(0, i + 1 as int)) =~= labels_kvs(
                pairs.deep_view().subrange(0, i as int),
            ).push((item.0, JLeafV::Str(item.1))));
        }
        i += 1;
    }
    proof {
        assert(pairs.deep_view().subrange(0, n as int) =~= pairs.deep_view());
    }
    kvs
}

/// Structurally decodes the labels from wire object members: every string
/// member, in order.
pub fn labels_of_fields(kvs: &Vec<(String, JLeaf)>) -> (pairs: Vec<(String, String)>)
    ensures
        pairs.deep_view() == labels_of_kvs(kvs_view(kvs@)),
{
    let mut pairs: Vec<(String, String)> = Vec::new();
    let n = kvs.len();
    let mut i: usize = 0;
    proof {
        assert(kvs_view(kvs@).subrange(0, 0) =~= Seq::<(Seq<char>, JLeafV)>::empty());
        assert(pairs.deep_view() =~= labels_of_kvs(kvs_view(kvs@).subrange(0, 0)));
    }
    while i < n
        invariant
            n == kvs.len(),
            i <= n,
            pairs.deep_view() == labels_of_kvs(kvs_view(kvs@).subrange(0, i as int)),
        decreases n - i,
    {
        match &kvs[i].1 {
            JLeaf::Str(s) => {
                pairs.push((kvs[i].0.clone(), s.clone()));
            },
            _ => {},
        }
        proof {
            assert(kvs_view(kvs@).subrange(0, i + 1 as int).drop_last() =~= kvs_view(
                kvs@,
            ).subrange(0, i as int));
            assert(kvs_view(kvs@).subrange(0, i + 1 as int).last() == (
                kvs@[i as int].0@,
                kvs@[i as int].1@,
            ));
            assert(pairs.deep_view() =~= labels_of_kvs(kvs_view(kvs@).subrange(0, i + 1 as int)));
        }
        i += 1;
    }
    proof {
        assert(kvs_view(kvs@).subrange(0, n as int) =~= kvs_view(kvs@));
    }
    pairs
}

fn push_severity(out: &mut Vec<(String, JField)>, o: Option<GCLogSeverity>)
    ensures
        fields_view(final(out)@) == fields_view(old(out)@) + seg(
            "severity"@,
            match o {
                Some(s) => Some(JFieldV::Leaf(JLeafV::Str(severity_name(s)))),
                None => None,
            },
        ),
{
    match o {
        Some(s) => {
            out.push(("severity".to_owned(), JField::Leaf(JLeaf::Str(severity_name_exec(s)))));
        },
        None => {},
    }
    proof {
        assert(fields_view(out@) =~= fields_view(old(out)@) + seg(
            "severity"@,
            match o {
                Some(s) => Some(JFieldV::Leaf(JLeafV::Str(severity_name(s)))),
                None => None,
            },
        ));
    }
}

fn push_field_str(out: &mut Vec<(String, JField)>, key: &str, o: &Option<String>)
    ensures
        fields_view(final(out)@) == fields_view(old(out)@) + seg(
            key@,
            opt_str_field(o.deep_view()),
        ),
{
    match o {
        Some(s) => {
            out.push((key.to_owned(), JField::Leaf(JLeaf::Str(s.clone()))));
        },
        None => {},
    }
    proof {
        assert(fields_view(out@) =~= fields_view(old(out)@) + seg(
            key@,
            opt_str_field(o.deep_view()),
        ));
    }
}

fn push_field_bool(out: &mut Vec<(String, JField)>, key: &str, o: Option<bool>)
    ensures
        fields_view(final(out)@) == fields_view(old(out)@) + seg(key@, opt_bool_field(o)),
{
    match o {
        Some(b) => {
            out.push((key.to_owned(), JField::Leaf(JLeaf::Bool(b))));
        },
        None => {},
    }
    proof {
        assert(fields_view(out@) =~= fields_view(old(out)@) + seg(key@, opt_bool_field(o)));
    }
}

fn push_http(out: &mut Vec<(String, JField)>, o: &Option<GCHttpRequest>)
    ensures
        fields_view(final(out)@) == fields_view(old(out)@) + seg(
            "httpRequest"@,
            match o {
                Some(r) => Some(JFieldV::Object(http_kvs(r@))),
                None => None,
            },
        ),
{
    match o {
        Some(r) => {
            out.push(("httpRequest".to_owned(), JField::Object(http_fields(r))));
        },
        None => {},
    }
    proof {
        assert(fields_view(out@) =~= fields_view(old(out)@) + seg(
            "httpRequest"@,
            match o {
                Some(r) => Some(JFieldV::Object(http_kvs(r@))),
                None => None,
            },
        ));
    }
}

fn push_labels(out: &mut Vec<(String, JField)>, pairs: &Vec<(String, String)>)
    ensures
        fields_view(final(out)@) == fields_view(old(out)@) + seg(
            "logging.googleapis.com/labels"@,
            if pairs.deep_view().len() == 0 {
                None
            } else {
                Some(JFieldV::Object(labels_kvs(pairs.deep_view())))
            },
        ),
{
    if pairs.len() > 0 {
        out.push(("logging.googleapis.com/labels".to_owned(), JField::Object(labels_fields(pairs))));
    }
    proof {
        assert(pairs.deep_view().len() == pairs@.len());
        assert(fields_view(out@) =~= fields_view(old(out)@) + seg(
            "logging.googleapis.com/labels"@,
            if pairs.deep_view().len() == 0 {
                None
            } else {
                Some(JFieldV::Object(labels_kvs(pairs.deep_view())))
            },
        ));
    }
}

fn push_op(out: &mut Vec<(String, JField)>, o: &Option<GCOperation>)
    ensures
        fields_view(final(out)@) == fields_view(old(out)@) + seg(
            "logging.googleapis.com/operation"@,
            match o {
                Some(op) => Some(JFieldV::Object(op_kvs(op@))),
                None => None,
            },
        ),
{
    match o {
        Some(op) => {
            out.push(("logging.googleapis.com/operation".to_owned(), JField::Object(op_fields(op))));
        },
        None => {},
    }
    proof {
        assert(fields_view(out@) =~= fields_view(old(out)@) + seg(
            "logging.googleapis.com/operation"@,
            match o {
                Some(op) => Some(JFieldV::Object(op_kvs(op@))),
                None => None,
            },
        ));
    }
}

fn push_sl(out: &mut Vec<(String, JField)>, o: &Option<GCSourceLocation>)
    ensures
        fields_view(final(out)@) == fields_view(old(out)@) + seg(
            "logging.googleapis.com/sourceLocation"@,
            match o {
                Some(s) => Some(JFieldV::Object(sl_kvs(s@))),
                None => None,
            },
        ),
{
    match o {
        Some(s) => {
            out.push((
                "logging.googleapis.com/sourceLocation".to_owned(),
                JField::Object(sl_fields(s)),
            ));
        },
        None => {},
    }
    proof {
        assert(fields_view(out@) =~= fields_view(old(out)@) + seg(
            "logging.googleapis.com/sourceLocation"@,
            match o {
                Some(s) => Some(JFieldV::Object(sl_kvs(s@))),
                None => None,
            },
        ));
    }
}

/// Encodes a log document as its top-level wire members, in wire order,
/// omitting every absent field.
pub fn fields_of(e: &GoogleCloudStructLog) -> (fields: Vec<(String, JField)>)
    ensures
        fields_view(fields@) == entry_fields(e@),
{
    let mut out: Vec<(String, JField)> = Vec::new();
    proof {
        assert(fields_view(out@) =~= Seq::<(Seq<char>, JFieldV)>::empty());
    }
    push_severity(&mut out, e.severity);
    push_field_str(&mut out, "message", &e.message);
    push_field_str(&mut out, "@type", &e.report_type);
    push_http(&mut out, &e.http_request);
    push_field_str(&mut out, "time", &e.time);
    push_field_str(&mut out, "logging.googleapis.com/insertId", &e.insert_id);
    push_labels(&mut out, &e.labels);
    push_op(&mut out, &e.operation);
    push_sl(&mut out, &e.source_location);
    push_field_str(&mut out, "logging.googleapis.com/spanId", &e.span_id);
    push_field_str(&mut out, "logging.googleapis.com/trace", &e.trace);
    push_field_bool(&mut out, "logging.googleapis.com/trace_sampled", e.trace_sampled);
    proof {
        assert(fields_view(out@) =~= entry_fields(e@));
    }
    out
}

fn get_field_str(fields: &Vec<(String, JField)>, key: &str) -> (r: Option<String>)
    ensures
        r.deep_view() == dec_str_field(lookup(fields_view(fields@), key@)),
{
    match find_field(fields, key) {
        Some(JField::Leaf(JLeaf::Str(s))) => Some(s.clone()),
        _ => None,
    }
}

fn get_field_bool(fields: &Vec<(String, JField)>, key: &str) -> (r: Option<bool>)
    ensures
        r == dec_bool_field(lookup(fields_view(fields@), key@)),
{
    match find_field(fields, key) {
        Some(JField::Leaf(JLeaf::Bool(b))) => Some(*b),
        _ => None,
    }
}

/// Structurally decodes a log document from its top-level wire members:
/// every member that was encoded comes back as the field it stands for.
pub fn entry_of_fields(fields: &Vec<(String, JField)>) -> (r: GoogleCloudStructLog)
    ensures
        r@ == entry_of_fields_spec(fields_view(fields@)),
{
    let severity = match find_field(fields, "severity") {
        Some(JField::Leaf(JLeaf::Str(s))) => severity_of_name_exec(s.as_str()),
        _ => None,
    };
    let http_request = match find_field(fields, "httpRequest") {
        Some(JField::Object(kvs)) => Some(http_of_fields(kvs)),
        _ => None,
    };
    let labels = match find_field(fields, "logging.googleapis.com/labels") {
        Some(JField::Object(kvs)) => labels_of_fields(kvs),
        _ => Vec::new(),
    };
    let operation = match find_field(fields, "logging.googleapis.com/operation") {
        Some(JField::Object(kvs)) => Some(op_of_fields(kvs)),
        _ => None,
    };
    let source_location = match find_field(fields, "logging.googleapis.com/sourceLocation") {
        Some(JField::Object(kvs)) => Some(sl_of_fields(kvs)),
        _ => None,
    };
    let r = GoogleCloudStructLog {
        severity,
        message: get_field_str(fields, "message"),
        report_type: get_field_str(fields, "@type"),
        http_request,
        time: get_field_str(fields, "time"),
        insert_id: get_field_str(fields, "logging.googleapis.com/insertId"),
        labels,
        operation,
        source_location,
        span_id: get_field_str(fields, "logging.googleapis.com/spanId"),
        trace: get_field_str(fields, "logging.googleapis.com/trace"),
        trace_sampled: get_field_bool(fields, "logging.googleapis.com/trace_sampled"),
    };
    proof {
        assert(r@ =~= entry_of_fields_spec(fields_view(fields@)));
    }
    r
}

/// Renders a log document to its JSON wire text: the top-level object with
/// the exact keys and member order of [`entry_fields`].
pub fn render_json(e: &GoogleCloudStructLog) -> (r: String)
    ensures
        r@ == render_obj(entry_fields(e@)),
{
    let fields = fields_of(e);
    render_fields(&fields)
}

} // verus!
