//! Replies to clients.

use vstd::prelude::*;

use crate::json_text::{
    bool_text, is_one_line, json_string_of, law_objects_have_text, object_text, ObjectText,
};
use crate::provider_failure::ProviderFailure;
use crate::text::{append_bytes, decimal, hex_plain, to_decimal, to_hex_plain, view_of};
use vstd::string::*;
use vstd::utf8::*;

verus! {

/// The standard reason phrase of a status, if it has one.
pub uninterp spec fn canonical_reason_of(status: u16) -> Option<Seq<char>>;

/// Calls `reqwest::StatusCode::from_u16` and `canonical_reason`. The phrase depends on the
/// status alone.
#[verifier::external_body]
pub(crate) fn canonical_reason(status: u16) -> (reason: Option<&'static str>)
    ensures
        crate::text::view_of_str(reason) == canonical_reason_of(status),
{
    reqwest::StatusCode::from_u16(status).ok().and_then(|status| status.canonical_reason())
}

pub open spec fn reason_of(status: u16) -> Seq<char> {
    match canonical_reason_of(status) {
        Some(reason) => reason,
        None => "Error"@,
    }
}

pub fn status_reason(status: u16) -> (reason: &'static str)
    ensures
        reason@ == reason_of(status),
{
    match canonical_reason(status) {
        Some(reason) => reason,
        None => "Error",
    }
}

/// What is sent to a client.
pub struct HttpReply {
    pub status: u16,
    pub reason: String,
    pub content_type: String,
    pub body: Vec<u8>,
}

/// What an [`HttpReply`] says.
pub ghost struct Reply {
    pub status: u16,
    pub reason: Seq<char>,
    pub content_type: Seq<char>,
    pub body: Seq<u8>,
}

impl View for HttpReply {
    type V = Reply;

    open spec fn view(&self) -> Reply {
        Reply {
            status: self.status,
            reason: self.reason@,
            content_type: self.content_type@,
            body: self.body@,
        }
    }
}

/// The head of a reply with a body of this length.
pub open spec fn reply_head(
    status: u16,
    reason: Seq<char>,
    content_type: Seq<char>,
    length: nat,
) -> Seq<char> {
    "HTTP/1.1 "@ + decimal(status as nat) + " "@ + reason + "\r\ncontent-type: "@ + content_type
        + "\r\ncontent-length: "@ + decimal(length) + "\r\nconnection: close\r\n\r\n"@
}

impl HttpReply {
    /// The bytes of the reply on the wire.
    pub fn write_response(&self) -> (bytes: Vec<u8>)
        ensures
            bytes@ == encode_utf8(
                reply_head(self@.status, self@.reason, self@.content_type, self@.body.len()),
            ) + self@.body,
    {
        let mut text = "HTTP/1.1 ".to_owned();
        text.append(to_decimal(self.status as u64).as_str());
        text.append(" ");
        text.append(self.reason.as_str());
        text.append("\r\ncontent-type: ");
        text.append(self.content_type.as_str());
        text.append("\r\ncontent-length: ");
        text.append(to_decimal(self.body.len() as u64).as_str());
        text.append("\r\nconnection: close\r\n\r\n");
        let mut bytes: Vec<u8> = Vec::new();
        append_bytes(&mut bytes, text.as_str().as_bytes());
        append_bytes(&mut bytes, self.body.as_slice());
        assert(bytes@ =~= encode_utf8(text@) + self.body@);
        bytes
    }
}

/// The bytes of a JSON text; where there is none, a fixed text stands for it.
pub open spec fn json_bytes_of(text: Option<Seq<char>>) -> Seq<u8> {
    match text {
        Some(text) => encode_utf8(text),
        None => encode_utf8("{\"error\":\"internal\"}"@),
    }
}

pub fn json_bytes(text: Option<String>) -> (bytes: Vec<u8>)
    ensures
        bytes@ == json_bytes_of(view_of(text)),
{
    let mut bytes: Vec<u8> = Vec::new();
    match text {
        Some(text) => append_bytes(&mut bytes, text.as_str().as_bytes()),
        None => append_bytes(&mut bytes, "{\"error\":\"internal\"}".as_bytes()),
    }
    assert(bytes@ =~= json_bytes_of(view_of(text)));
    bytes
}

pub open spec fn json_reply(status: u16, reason: Seq<char>, text: Option<Seq<char>>) -> Reply {
    Reply { status, reason, content_type: "application/json"@, body: json_bytes_of(text) }
}

pub fn write_json(status: u16, reason: &str, text: Option<String>) -> (reply: HttpReply)
    ensures
        reply@ == json_reply(status, reason@, view_of(text)),
{
    HttpReply {
        status,
        reason: reason.to_owned(),
        content_type: "application/json".to_owned(),
        body: json_bytes(text),
    }
}

/// The JSON of an error.
pub open spec fn typed_error_text(error_type: Seq<char>, message: Seq<char>) -> Option<Seq<char>> {
    object_text(
        seq![
            (
                "error"@,
                object_text(
                    seq![
                        ("message"@, json_string_of(message)),
                        ("type"@, json_string_of(error_type)),
                    ],
                ),
            ),
            ("type"@, json_string_of("error"@)),
        ],
    )
}

fn typed_error(error_type: &str, message: &str) -> (text: Option<String>)
    ensures
        view_of(text) == typed_error_text(error_type@, message@),
        text matches Some(text) ==> is_one_line(text@),
{
    let mut inner = ObjectText::new();
    inner.put_text("message", message);
    inner.put_text("type", error_type);
    assert(inner@ =~= seq![
        ("message"@, json_string_of(message@)),
        ("type"@, json_string_of(error_type@)),
    ]);
    let mut object = ObjectText::new();
    object.put("error", inner.text());
    object.put_text("type", "error");
    assert(object@ =~= seq![
        ("error"@, object_text(inner@)),
        ("type"@, json_string_of("error"@)),
    ]);
    object.text()
}

pub open spec fn error_reply(
    status: u16,
    reason: Seq<char>,
    error_type: Seq<char>,
    message: Seq<char>,
) -> Reply {
    json_reply(status, reason, typed_error_text(error_type, message))
}

pub fn typed_error_json(status: u16, reason: &str, error_type: &str, message: &str) -> (reply:
    HttpReply)
    ensures
        reply@ == error_reply(status, reason@, error_type@, message@),
{
    write_json(status, reason, typed_error(error_type, message))
}

pub fn forbidden_json() -> (reply: HttpReply)
    ensures
        reply@ == error_reply(403, "Forbidden"@, "permission_error"@, "forbidden"@),
{
    typed_error_json(403, "Forbidden", "permission_error", "forbidden")
}

pub fn invalid_request_json(detail: &str) -> (reply: HttpReply)
    ensures
        reply@ == error_reply(400, "Bad Request"@, "invalid_request_error"@, detail@),
{
    typed_error_json(400, "Bad Request", "invalid_request_error", detail)
}

pub fn route_unknown_json(detail: &str) -> (reply: HttpReply)
    ensures
        reply@ == error_reply(400, "Bad Request"@, "route_unknown"@, detail@),
{
    typed_error_json(400, "Bad Request", "route_unknown", detail)
}

pub fn codex_model_unavailable_json(detail: &str) -> (reply: HttpReply)
    ensures
        reply@ == error_reply(
            503,
            "Service Unavailable"@,
            "codex_model_unavailable"@,
            detail@,
        ),
{
    typed_error_json(503, "Service Unavailable", "codex_model_unavailable", detail)
}

pub fn request_too_large_json() -> (reply: HttpReply)
    ensures
        reply@ == error_reply(
            413,
            "Payload Too Large"@,
            "invalid_request_error"@,
            "request body is too large"@,
        ),
{
    typed_error_json(413, "Payload Too Large", "invalid_request_error", "request body is too large")
}

pub fn not_found_json(path: &str) -> (reply: HttpReply)
    ensures
        reply@ == error_reply(404, "Not Found"@, "not_found_error"@, path@),
{
    typed_error_json(404, "Not Found", "not_found_error", path)
}

pub fn api_error_json(status: u16, detail: &str) -> (reply: HttpReply)
    ensures
        reply@ == error_reply(status, reason_of(status), "api_error"@, detail@),
{
    typed_error_json(status, status_reason(status), "api_error", detail)
}

/// What a caller is told of a failure, with the fields in the order of their names.
pub open spec fn failure_members(failure: ProviderFailure) -> Seq<(Seq<char>, Option<Seq<char>>)> {
    seq![
        ("correlation_id"@, json_string_of(failure.context.correlation_id@)),
        ("failure_class"@, json_string_of(failure.failure_class.name())),
        ("message"@, json_string_of(failure.message@)),
        ("provider"@, json_string_of(failure.context.provider.name())),
        ("recovery"@, json_string_of(failure.recovery@)),
    ] + (match failure.request_id {
        Some(id) => seq![("request_id"@, json_string_of(id@))],
        None => Seq::empty(),
    }) + (match failure.retry_after_seconds {
        Some(seconds) => seq![
            (
                "retry_after_seconds"@,
                Some(
                    decimal(
                        if seconds < 60 {
                            seconds as nat
                        } else {
                            60
                        },
                    ),
                ),
            ),
        ],
        None => Seq::empty(),
    }) + seq![
        ("retryable"@, Some(bool_text(failure.retryable))),
        ("route"@, json_string_of(failure.context.route.name())),
        ("type"@, json_string_of(failure.error_type@)),
    ] + (match failure.upstream_status {
        Some(status) => seq![("upstream_status"@, Some(decimal(status as nat)))],
        None => Seq::empty(),
    })
}

/// The reply where a provider failed.
pub fn write_provider_failure(failure: &ProviderFailure) -> (reply: HttpReply)
    ensures
        reply@ == json_reply(
            failure.status,
            reason_of(failure.status),
            object_text(
                seq![
                    ("error"@, object_text(failure_members(*failure))),
                    ("type"@, json_string_of("error"@)),
                ],
            ),
        ),
{
    let mut inner = ObjectText::new();
    inner.put_text("correlation_id", failure.context.correlation_id.as_str());
    inner.put_text("failure_class", failure.failure_class.as_str());
    inner.put_text("message", failure.message);
    inner.put_text("provider", failure.context.provider.as_str());
    inner.put_text("recovery", failure.recovery);
    if let Some(id) = &failure.request_id {
        inner.put_text("request_id", id.as_str());
    }
    if let Some(seconds) = failure.retry_after_seconds {
        let shown: u64 = if seconds < 60 {
            seconds
        } else {
            60
        };
        inner.put_number("retry_after_seconds", shown);
    }
    inner.put_bool("retryable", failure.retryable);
    inner.put_text("route", failure.context.route.as_str());
    inner.put_text("type", failure.error_type);
    if let Some(status) = failure.upstream_status {
        inner.put_number("upstream_status", status as u64);
    }
    assert(inner@ =~= failure_members(*failure));
    let mut object = ObjectText::new();
    object.put("error", inner.text());
    object.put_text("type", "error");
    assert(object@ =~= seq![
        ("error"@, object_text(failure_members(*failure))),
        ("type"@, json_string_of("error"@)),
    ]);
    write_json(failure.status, status_reason(failure.status), object.text())
}

/// The JSON of a failed request for models.
pub open spec fn models_error_text(
    error_kind: Seq<char>,
    upstream_status: Option<u16>,
    message: Seq<char>,
) -> Option<Seq<char>> {
    object_text(
        seq![
            ("error_kind"@, json_string_of(error_kind)),
            ("message"@, json_string_of(message)),
            (
                "upstream_status"@,
                Some(
                    match upstream_status {
                        Some(status) => decimal(status as nat),
                        None => "null"@,
                    },
                ),
            ),
        ],
    )
}

pub fn models_error_json(
    status: u16,
    error_kind: &str,
    upstream_status: Option<u16>,
    message: &str,
) -> (reply: HttpReply)
    ensures
        reply@ == json_reply(
            status,
            reason_of(status),
            models_error_text(error_kind@, upstream_status, message@),
        ),
{
    let mut object = ObjectText::new();
    object.put_text("error_kind", error_kind);
    object.put_text("message", message);
    match upstream_status {
        Some(status) => object.put_number("upstream_status", status as u64),
        None => object.put("upstream_status", Some(crate::json_text::null_json())),
    }
    assert(object@ =~= seq![
        ("error_kind"@, json_string_of(error_kind@)),
        ("message"@, json_string_of(message@)),
        (
            "upstream_status"@,
            Some(
                match upstream_status {
                    Some(status) => decimal(status as nat),
                    None => "null"@,
                },
            ),
        ),
    ]);
    write_json(status, status_reason(status), object.text())
}

/// A chunk of a reply that is sent piece by piece.
pub open spec fn chunk_bytes(chunk: Seq<u8>) -> Seq<u8> {
    encode_utf8(hex_plain(chunk.len()) + "\r\n"@) + chunk + encode_utf8("\r\n"@)
}

pub fn write_chunk(chunk: &[u8]) -> (bytes: Vec<u8>)
    ensures
        bytes@ == chunk_bytes(chunk@),
{
    let mut size = to_hex_plain(chunk.len() as u64);
    size.append("\r\n");
    let mut bytes: Vec<u8> = Vec::new();
    append_bytes(&mut bytes, size.as_str().as_bytes());
    append_bytes(&mut bytes, chunk);
    append_bytes(&mut bytes, "\r\n".as_bytes());
    assert(bytes@ =~= chunk_bytes(chunk@));
    bytes
}

/// A server-sent event with these data.
pub open spec fn event_text(event: Seq<char>, data: Seq<char>) -> Seq<char> {
    "event: "@ + event + "\ndata: "@ + data + "\n\n"@
}

/// A server-sent event. Data that have no text are sent as an empty object.
pub fn sse_event(event: &str, data: Option<&str>) -> (bytes: Vec<u8>)
    ensures
        bytes@ == encode_utf8(
            event_text(
                event@,
                match data {
                    Some(data) => data@,
                    None => "{}"@,
                },
            ),
        ),
{
    let data = match data {
        Some(data) => data,
        None => "{}",
    };
    let mut text = "event: ".to_owned();
    text.append(event);
    text.append("\ndata: ");
    text.append(data);
    text.append("\n\n");
    let mut bytes: Vec<u8> = Vec::new();
    append_bytes(&mut bytes, text.as_str().as_bytes());
    assert(bytes@ =~= encode_utf8(text@));
    bytes
}

/// The event that ends a stream with an error.
pub open spec fn error_event(detail: Seq<char>) -> Seq<u8> {
    encode_utf8(
        event_text(
            "error"@,
            match typed_error_text("api_error"@, detail) {
                Some(text) => text,
                None => "{}"@,
            },
        ),
    )
}

pub fn stream_error_event(detail: &str) -> (bytes: Vec<u8>)
    ensures
        bytes@ == error_event(detail@),
{
    let data = typed_error("api_error", detail);
    sse_event("error", crate::text::as_text(&data))
}

/// The head of a reply that is sent as a stream.
pub const STREAM_HEAD: &'static str =
    "HTTP/1.1 200 OK\r\ncontent-type: text/event-stream\r\ntransfer-encoding: chunked\r\nconnection: close\r\n\r\n";

/// What ends a reply that is sent in chunks.
pub const LAST_CHUNK: &'static str = "0\r\n\r\n";

/// The last that a client is sent of a reply of Codex that broke off: an error event, and
/// the end.
pub fn finish_codex_stream_error() -> (bytes: Vec<u8>)
    ensures
        bytes@ == chunk_bytes(error_event("Codex upstream protocol error"@)) + encode_utf8(
            LAST_CHUNK@,
        ),
{
    let mut bytes = write_chunk(&stream_error_event("Codex upstream protocol error"));
    append_bytes(&mut bytes, LAST_CHUNK.as_bytes());
    bytes
}

/// Every error reply has its JSON: the fixed text that stands for a missing one is never
/// sent.
pub proof fn law_error_replies_have_json(
    status: u16,
    reason: Seq<char>,
    error_type: Seq<char>,
    message: Seq<char>,
    upstream_status: Option<u16>,
)
    ensures
        typed_error_text(error_type, message) is Some,
        error_reply(status, reason, error_type, message).body == encode_utf8(
            typed_error_text(error_type, message)->0,
        ),
        models_error_text(error_type, upstream_status, message) is Some,
{
    let inner = seq![
        ("message"@, json_string_of(message)),
        ("type"@, json_string_of(error_type)),
    ];
    law_objects_have_text(inner);
    law_objects_have_text(
        seq![("error"@, object_text(inner)), ("type"@, json_string_of("error"@))],
    );
    law_objects_have_text(
        seq![
            ("error_kind"@, json_string_of(error_type)),
            ("message"@, json_string_of(message)),
            (
                "upstream_status"@,
                Some(
                    match upstream_status {
                        Some(status) => decimal(status as nat),
                        None => "null"@,
                    },
                ),
            ),
        ],
    );
}

} // verus!
