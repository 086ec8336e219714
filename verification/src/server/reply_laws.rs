//! What holds of every reply to a client.

use vstd::prelude::*;

use crate::json_text::{json_string_of, members_text};
use crate::json_text_laws::{
    in_quotes, law_members_follow_each_other, law_object_of_three, law_object_of_two, named,
};
use crate::provider_failure::{FailureClass, ProviderFailure, ProviderId, RouteMode};
use crate::server::reply::{
    api_error_json, canonical_reason_of, codex_model_unavailable_json, error_reply,
    failure_members, finish_codex_stream_error, forbidden_json, invalid_request_json, json_bytes, models_error_json,
    models_error_text, not_found_json, reason_of, request_too_large_json, route_unknown_json,
    sse_event, status_reason, stream_error_event, typed_error_json, typed_error_text, write_chunk,
    write_json, write_provider_failure, HttpReply, Reply, STREAM_HEAD,
};
use crate::text::{decimal, hex_plain};
use vstd::utf8::*;

verus! {

/// The JSON of an error: its message and its type under `error`.
pub open spec fn error_json(error_type: Seq<char>, message: Seq<char>) -> Seq<char> {
    "{"@ + named(
        "error"@,
        "{"@ + named("message"@, in_quotes(message)) + ","@ + named("type"@, in_quotes(error_type))
            + "}"@,
    ) + ","@ + named("type"@, in_quotes("error"@)) + "}"@
}

/// A reply that tells an error as JSON.
pub open spec fn tells_error(
    reply: Reply,
    status: u16,
    reason: Seq<char>,
    error_type: Seq<char>,
    message: Seq<char>,
) -> bool {
    &&& reply.status == status
    &&& reply.reason == reason
    &&& reply.content_type == "application/json"@
    &&& reply.body == encode_utf8(error_json(error_type, message))
}

/// The JSON of a failed request for models.
pub open spec fn models_json(
    kind: Seq<char>,
    upstream_status: Option<u16>,
    message: Seq<char>,
) -> Seq<char> {
    "{"@ + named("error_kind"@, in_quotes(kind)) + ","@ + named("message"@, in_quotes(message))
        + ","@ + named(
        "upstream_status"@,
        match upstream_status {
            Some(status) => decimal(status as nat),
            None => "null"@,
        },
    ) + "}"@
}

/// A reply that tells why models cannot be had.
pub open spec fn tells_models_error(
    reply: Reply,
    status: u16,
    kind: Seq<char>,
    upstream_status: Option<u16>,
    message: Seq<char>,
) -> bool {
    &&& reply.status == status
    &&& reply.reason == reason_of(status)
    &&& reply.content_type == "application/json"@
    &&& reply.body == encode_utf8(models_json(kind, upstream_status, message))
}

/// What the JSON of errors reads.
pub proof fn law_error_texts(
    status: u16,
    reason: Seq<char>,
    error_type: Seq<char>,
    message: Seq<char>,
    upstream_status: Option<u16>,
)
    ensures
        typed_error_text(error_type, message) == Some(error_json(error_type, message)),
        models_error_text(error_type, upstream_status, message) == Some(
            models_json(error_type, upstream_status, message),
        ),
        tells_error(
            error_reply(status, reason, error_type, message),
            status,
            reason,
            error_type,
            message,
        ),
        tells_models_error(
            crate::server::reply::json_reply(
                status,
                reason_of(status),
                models_error_text(error_type, upstream_status, message),
            ),
            status,
            error_type,
            upstream_status,
            message,
        ),
{
    law_object_of_two("message"@, in_quotes(message), "type"@, in_quotes(error_type));
    law_object_of_two(
        "error"@,
        "{"@ + named("message"@, in_quotes(message)) + ","@ + named("type"@, in_quotes(error_type))
            + "}"@,
        "type"@,
        in_quotes("error"@),
    );
    let shown = match upstream_status {
        Some(status) => decimal(status as nat),
        None => "null"@,
    };
    law_object_of_three(
        "error_kind"@,
        in_quotes(error_type),
        "message"@,
        in_quotes(message),
        "upstream_status"@,
        shown,
    );
    assert(seq![
        ("error_kind"@, json_string_of(error_type)),
        ("message"@, json_string_of(message)),
        (
            "upstream_status"@,
            Some(
                match upstream_status {
                    Some(status) => decimal(status as nat),
                    None => "null"@,
                },
            ),
        ),
    ] =~= seq![
        ("error_kind"@, Some(in_quotes(error_type))),
        ("message"@, Some(in_quotes(message))),
        ("upstream_status"@, Some(shown)),
    ]);
}

/// The reason phrase of a status is the standard one, and `Error` where there is none.
pub proof fn law_reason_phrases(status: u16, reason: &'static str)
    requires
        call_ensures(status_reason, (status,), reason),
    ensures
        canonical_reason_of(status) matches Some(phrase) ==> reason@ == phrase && reason_of(status)
            == phrase,
        canonical_reason_of(status) is None ==> reason@ == "Error"@ && reason_of(status)
            == "Error"@,
{
}

/// A reply is its status line, its content type, its length, the end of the connection,
/// an empty line, and its body.
pub proof fn law_replies_on_the_wire(reply: HttpReply, bytes: Vec<u8>)
    requires
        call_ensures(HttpReply::write_response, (&reply,), bytes),
    ensures
        bytes@ == encode_utf8(
            "HTTP/1.1 "@ + decimal(reply.status as nat) + " "@ + reply.reason@
                + "\r\ncontent-type: "@ + reply.content_type@ + "\r\ncontent-length: "@ + decimal(
                reply.body@.len(),
            ) + "\r\nconnection: close\r\n\r\n"@,
        ) + reply.body@,
{
}

/// A JSON reply brings the text, or a fixed one where there is none.
pub proof fn law_json_replies(
    status: u16,
    reason: &str,
    text: String,
    reply: HttpReply,
    without: HttpReply,
    bytes: Vec<u8>,
    no_bytes: Vec<u8>,
)
    requires
        call_ensures(write_json, (status, reason, Some(text)), reply),
        call_ensures(write_json, (status, reason, None::<String>), without),
        call_ensures(json_bytes, (Some(text),), bytes),
        call_ensures(json_bytes, (None::<String>,), no_bytes),
    ensures
        bytes@ == encode_utf8(text@),
        no_bytes@ == encode_utf8("{\"error\":\"internal\"}"@),
        reply.status == status && reply.reason@ == reason@ && reply.content_type@
            == "application/json"@ && reply.body@ == encode_utf8(text@),
        without.status == status && without.reason@ == reason@ && without.content_type@
            == "application/json"@ && without.body@ == encode_utf8("{\"error\":\"internal\"}"@),
{
}

/// Each refusal of the gateway has a status, a reason, a type and a message of its own.
pub proof fn law_refusals_of_the_gateway(
    status: u16,
    reason: &str,
    error_type: &str,
    text: &str,
    typed: HttpReply,
    forbidden: HttpReply,
    invalid: HttpReply,
    unknown: HttpReply,
    unavailable: HttpReply,
    too_large: HttpReply,
    not_found: HttpReply,
    api: HttpReply,
)
    requires
        call_ensures(typed_error_json, (status, reason, error_type, text), typed),
        call_ensures(forbidden_json, (), forbidden),
        call_ensures(invalid_request_json, (text,), invalid),
        call_ensures(route_unknown_json, (text,), unknown),
        call_ensures(codex_model_unavailable_json, (text,), unavailable),
        call_ensures(request_too_large_json, (), too_large),
        call_ensures(not_found_json, (text,), not_found),
        call_ensures(api_error_json, (status, text), api),
    ensures
        tells_error(typed@, status, reason@, error_type@, text@),
        tells_error(forbidden@, 403, "Forbidden"@, "permission_error"@, "forbidden"@),
        tells_error(invalid@, 400, "Bad Request"@, "invalid_request_error"@, text@),
        tells_error(unknown@, 400, "Bad Request"@, "route_unknown"@, text@),
        tells_error(
            unavailable@,
            503,
            "Service Unavailable"@,
            "codex_model_unavailable"@,
            text@,
        ),
        tells_error(
            too_large@,
            413,
            "Payload Too Large"@,
            "invalid_request_error"@,
            "request body is too large"@,
        ),
        tells_error(not_found@, 404, "Not Found"@, "not_found_error"@, text@),
        tells_error(api@, status, reason_of(status), "api_error"@, text@),
{
    law_error_texts(status, reason@, error_type@, text@, None);
    law_error_texts(403, "Forbidden"@, "permission_error"@, "forbidden"@, None);
    law_error_texts(400, "Bad Request"@, "invalid_request_error"@, text@, None);
    law_error_texts(400, "Bad Request"@, "route_unknown"@, text@, None);
    law_error_texts(503, "Service Unavailable"@, "codex_model_unavailable"@, text@, None);
    law_error_texts(
        413,
        "Payload Too Large"@,
        "invalid_request_error"@,
        "request body is too large"@,
        None,
    );
    law_error_texts(404, "Not Found"@, "not_found_error"@, text@, None);
    law_error_texts(status, reason_of(status), "api_error"@, text@, None);
}

/// Why models cannot be had is told with its kind, the provider's status where it gave
/// one, and a message.
pub proof fn law_models_errors(
    status: u16,
    kind: &str,
    upstream_status: Option<u16>,
    message: &str,
    reply: HttpReply,
)
    requires
        call_ensures(models_error_json, (status, kind, upstream_status, message), reply),
    ensures
        tells_models_error(reply@, status, kind@, upstream_status, message@),
{
    law_error_texts(status, reason_of(status), kind@, message@, upstream_status);
}

/// A chunk is its length in hexadecimal, its bytes, and a line end behind each.
pub proof fn law_chunks(chunk: &[u8], bytes: Vec<u8>)
    requires
        call_ensures(write_chunk, (chunk,), bytes),
    ensures
        bytes@ == encode_utf8(hex_plain(chunk@.len()) + "\r\n"@) + chunk@ + encode_utf8("\r\n"@),
{
}

/// An event names itself and brings its data, an empty object where there are none, and
/// ends with an empty line.
pub proof fn law_events(
    event: &str,
    data: &str,
    detail: &str,
    bytes: Vec<u8>,
    without: Vec<u8>,
    error: Vec<u8>,
)
    requires
        call_ensures(sse_event, (event, Some(data)), bytes),
        call_ensures(sse_event, (event, None::<&str>), without),
        call_ensures(stream_error_event, (detail,), error),
    ensures
        bytes@ == encode_utf8("event: "@ + event@ + "\ndata: "@ + data@ + "\n\n"@),
        without@ == encode_utf8("event: "@ + event@ + "\ndata: "@ + "{}"@ + "\n\n"@),
        error@ == encode_utf8(
            "event: "@ + "error"@ + "\ndata: "@ + error_json("api_error"@, detail@) + "\n\n"@,
        ),
{
    law_error_texts(0, ""@, "api_error"@, detail@, None);
}

/// A stream of Codex that broke off ends with an error event in one chunk, and the last
/// chunk.
pub proof fn law_broken_streams_end_with_an_error(
    detail: &str,
    event: Vec<u8>,
    slice: &[u8],
    chunk: Vec<u8>,
    bytes: Vec<u8>,
)
    requires
        detail@ == "Codex upstream protocol error"@,
        call_ensures(stream_error_event, (detail,), event),
        slice@ == event@,
        call_ensures(write_chunk, (slice,), chunk),
        call_ensures(finish_codex_stream_error, (), bytes),
    ensures
        bytes@ == chunk@ + encode_utf8("0\r\n\r\n"@),
        STREAM_HEAD@
            == "HTTP/1.1 200 OK\r\ncontent-type: text/event-stream\r\ntransfer-encoding: chunked\r\nconnection: close\r\n\r\n"@,
{
}

/// A member behind the others.
pub open spec fn with_next(text: Seq<char>, name: Seq<char>, value: Seq<char>) -> Seq<char> {
    text + ","@ + named(name, value)
}

/// The JSON object that tells a failure, member by member.
pub open spec fn failure_json(
    failure: ProviderFailure,
    class: Seq<char>,
    provider: Seq<char>,
    route: Seq<char>,
) -> Seq<char> {
    let first = named("correlation_id"@, in_quotes(failure.context.correlation_id@));
    let first = with_next(first, "failure_class"@, in_quotes(class));
    let first = with_next(first, "message"@, in_quotes(failure.message@));
    let first = with_next(first, "provider"@, in_quotes(provider));
    let first = with_next(first, "recovery"@, in_quotes(failure.recovery@));
    let second = match failure.request_id {
        Some(id) => with_next(first, "request_id"@, in_quotes(id@)),
        None => first,
    };
    let third = match failure.retry_after_seconds {
        Some(seconds) => with_next(
            second,
            "retry_after_seconds"@,
            if seconds <= 60 {
                decimal(seconds as nat)
            } else {
                decimal(60)
            },
        ),
        None => second,
    };
    let fourth = with_next(
        third,
        "retryable"@,
        if failure.retryable {
            "true"@
        } else {
            "false"@
        },
    );
    let fourth = with_next(fourth, "route"@, in_quotes(route));
    let fourth = with_next(fourth, "type"@, in_quotes(failure.error_type@));
    let fifth = match failure.upstream_status {
        Some(status) => with_next(fourth, "upstream_status"@, decimal(status as nat)),
        None => fourth,
    };
    "{"@ + fifth + "}"@
}

/// A failed provider is told with the status of the failure and all that is known of it:
/// who failed, on which route and how, the advice, whether to try again and when, and the
/// identifiers by which it can be looked up.
pub proof fn law_provider_failures_are_told(
    failure: ProviderFailure,
    class: &'static str,
    provider: &'static str,
    route: &'static str,
    reply: HttpReply,
)
    requires
        call_ensures(FailureClass::as_str, (&failure.failure_class,), class),
        call_ensures(ProviderId::as_str, (&failure.context.provider,), provider),
        call_ensures(RouteMode::as_str, (&failure.context.route,), route),
        call_ensures(write_provider_failure, (&failure,), reply),
    ensures
        reply.status == failure.status,
        reply.reason@ == reason_of(failure.status),
        reply.content_type@ == "application/json"@,
        reply.body@ == encode_utf8(
            "{"@ + named("error"@, failure_json(failure, class@, provider@, route@)) + ","@ + named(
                "type"@,
                in_quotes("error"@),
            ) + "}"@,
        ),
{
    lemma_failure_members(failure);
    lemma_failure_text(
        in_quotes(failure.context.correlation_id@),
        in_quotes(class@),
        in_quotes(failure.message@),
        in_quotes(provider@),
        in_quotes(failure.recovery@),
        match failure.request_id {
            Some(id) => Some(in_quotes(id@)),
            None => None,
        },
        match failure.retry_after_seconds {
            Some(seconds) => Some(
                if seconds <= 60 {
                    decimal(seconds as nat)
                } else {
                    decimal(60)
                },
            ),
            None => None,
        },
        if failure.retryable {
            "true"@
        } else {
            "false"@
        },
        in_quotes(route@),
        in_quotes(failure.error_type@),
        match failure.upstream_status {
            Some(status) => Some(decimal(status as nat)),
            None => None,
        },
    );
    law_object_of_two(
        "error"@,
        failure_json(failure, class@, provider@, route@),
        "type"@,
        in_quotes("error"@),
    );
}

/// `members` with one more, where there is one.
spec fn with_optional(
    members: Seq<(Seq<char>, Option<Seq<char>>)>,
    name: Seq<char>,
    value: Option<Seq<char>>,
) -> Seq<(Seq<char>, Option<Seq<char>>)> {
    match value {
        Some(value) => members.push((name, Some(value))),
        None => members,
    }
}

spec fn failure_list(
    v1: Seq<char>,
    v2: Seq<char>,
    v3: Seq<char>,
    v4: Seq<char>,
    v5: Seq<char>,
    v6: Option<Seq<char>>,
    v7: Option<Seq<char>>,
    v8: Seq<char>,
    v9: Seq<char>,
    v10: Seq<char>,
    v11: Option<Seq<char>>,
) -> Seq<(Seq<char>, Option<Seq<char>>)> {
    let first = seq![
        ("correlation_id"@, Some(v1)),
        ("failure_class"@, Some(v2)),
        ("message"@, Some(v3)),
        ("provider"@, Some(v4)),
        ("recovery"@, Some(v5)),
    ];
    let second = with_optional(
        with_optional(first, "request_id"@, v6),
        "retry_after_seconds"@,
        v7,
    );
    let third = second.push(("retryable"@, Some(v8))).push(("route"@, Some(v9))).push(
        ("type"@, Some(v10)),
    );
    with_optional(third, "upstream_status"@, v11)
}

proof fn lemma_failure_members(failure: ProviderFailure)
    ensures
        failure_members(failure) == failure_list(
            in_quotes(failure.context.correlation_id@),
            in_quotes(failure.failure_class.name()),
            in_quotes(failure.message@),
            in_quotes(failure.context.provider.name()),
            in_quotes(failure.recovery@),
            match failure.request_id {
                Some(id) => Some(in_quotes(id@)),
                None => None,
            },
            match failure.retry_after_seconds {
                Some(seconds) => Some(
                    if seconds <= 60 {
                        decimal(seconds as nat)
                    } else {
                        decimal(60)
                    },
                ),
                None => None,
            },
            if failure.retryable {
                "true"@
            } else {
                "false"@
            },
            in_quotes(failure.context.route.name()),
            in_quotes(failure.error_type@),
            match failure.upstream_status {
                Some(status) => Some(decimal(status as nat)),
                None => None,
            },
        ),
{
}

proof fn lemma_failure_text(
    v1: Seq<char>,
    v2: Seq<char>,
    v3: Seq<char>,
    v4: Seq<char>,
    v5: Seq<char>,
    v6: Option<Seq<char>>,
    v7: Option<Seq<char>>,
    v8: Seq<char>,
    v9: Seq<char>,
    v10: Seq<char>,
    v11: Option<Seq<char>>,
)
    ensures
        members_text(failure_list(v1, v2, v3, v4, v5, v6, v7, v8, v9, v10, v11)) == Some(
            {
                let first = named("correlation_id"@, v1);
                let first = with_next(first, "failure_class"@, v2);
                let first = with_next(first, "message"@, v3);
                let first = with_next(first, "provider"@, v4);
                let first = with_next(first, "recovery"@, v5);
                let second = match v6 {
                    Some(value) => with_next(first, "request_id"@, value),
                    None => first,
                };
                let third = match v7 {
                    Some(value) => with_next(second, "retry_after_seconds"@, value),
                    None => second,
                };
                let fourth = with_next(third, "retryable"@, v8);
                let fourth = with_next(fourth, "route"@, v9);
                let fourth = with_next(fourth, "type"@, v10);
                match v11 {
                    Some(value) => with_next(fourth, "upstream_status"@, value),
                    None => fourth,
                }
            },
        ),
{
    let empty = Seq::<(Seq<char>, Option<Seq<char>>)>::empty();
    let m1 = empty.push(("correlation_id"@, Some(v1)));
    let m2 = m1.push(("failure_class"@, Some(v2)));
    let m3 = m2.push(("message"@, Some(v3)));
    let m4 = m3.push(("provider"@, Some(v4)));
    let m5 = m4.push(("recovery"@, Some(v5)));
    law_members_follow_each_other(empty, "correlation_id"@, v1);
    law_members_follow_each_other(m1, "failure_class"@, v2);
    law_members_follow_each_other(m2, "message"@, v3);
    law_members_follow_each_other(m3, "provider"@, v4);
    law_members_follow_each_other(m4, "recovery"@, v5);
    assert(m5 =~= seq![
        ("correlation_id"@, Some(v1)),
        ("failure_class"@, Some(v2)),
        ("message"@, Some(v3)),
        ("provider"@, Some(v4)),
        ("recovery"@, Some(v5)),
    ]);
    if let Some(value) = v6 {
        law_members_follow_each_other(m5, "request_id"@, value);
    }
    let m6 = with_optional(m5, "request_id"@, v6);
    if let Some(value) = v7 {
        law_members_follow_each_other(m6, "retry_after_seconds"@, value);
    }
    let m7 = with_optional(m6, "retry_after_seconds"@, v7);
    law_members_follow_each_other(m7, "retryable"@, v8);
    let m8 = m7.push(("retryable"@, Some(v8)));
    law_members_follow_each_other(m8, "route"@, v9);
    let m9 = m8.push(("route"@, Some(v9)));
    law_members_follow_each_other(m9, "type"@, v10);
    let m10 = m9.push(("type"@, Some(v10)));
    if let Some(value) = v11 {
        law_members_follow_each_other(m10, "upstream_status"@, value);
    }
}

} // verus!
