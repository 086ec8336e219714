//! What holds of every header, body and error on the way to and from Codex.

use vstd::prelude::*;

use crate::codex_transport::{
    classify_response_prefix, media_type, media_type_is, reduce_failure_body,
    request_headers, BodyEvent, CodexOpening, CodexTransportError, FailureBodyCollector,
    FailureBodyFacts, PendingBytes, RequestHeader, ResponseHead, ResponsePrefixKind, SniffRead,
};
use crate::provider_failure::{ErrorCode, ErrorParam, FailureObservation, NetworkKind};
use crate::text::{before, decimal, lowered, quoted_text, trimmed};
use vstd::string::*;
use vstd::utf8::*;

verus! {

/// The body of a refusal is collected if its length is declared and at most 16 KiB;
/// nothing of it is there at first.
pub proof fn law_bodies_that_are_collected(
    declared: Option<u64>,
    collector: Option<FailureBodyCollector>,
)
    requires
        call_ensures(FailureBodyCollector::new, (declared,), collector),
    ensures
        collector is Some <==> (declared matches Some(length) && length <= 16_384),
        collector matches Some(collector) ==> collector.kept().len() == 0 && collector.declared()
            == declared->0 && collector.wf(),
{
}

/// A chunk is kept behind what came before it, if the declared length has room for it;
/// otherwise nothing of it is kept. What is left is what was declared and did not come.
pub proof fn law_chunks_are_kept_in_order(
    collector: &mut FailureBodyCollector,
    chunk: &[u8],
    kept: bool,
    before: usize,
    count: usize,
)
    requires
        old(collector).wf(),
        call_ensures(FailureBodyCollector::retain, (collector, chunk), kept),
        call_ensures(FailureBodyCollector::remaining, (&*old(collector),), before),
        call_ensures(FailureBodyCollector::retained_len, (&*old(collector),), count),
    ensures
        count == old(collector).kept().len(),
        before + count == old(collector).declared(),
        kept <==> chunk@.len() <= before,
        kept ==> final(collector).kept() == old(collector).kept() + chunk@,
        !kept ==> final(collector).kept() == old(collector).kept(),
        final(collector).declared() == old(collector).declared(),
{
}

/// A body that came whole is read like any error body; one that did not tells
/// nothing.
pub proof fn law_only_whole_bodies_are_read(
    collector: FailureBodyCollector,
    facts: FailureBodyFacts,
    body: &[u8],
    read: FailureBodyFacts,
)
    requires
        collector.wf(),
        call_ensures(FailureBodyCollector::facts, (collector,), facts),
        body@ == collector.kept(),
        call_ensures(reduce_failure_body, (body,), read),
    ensures
        collector.kept().len() == collector.declared() ==> facts == read,
        collector.kept().len() < collector.declared() ==> facts.rate_kind is None
            && facts.error_code is Absent && facts.error_param is Absent,
{
}

/// The media type is what stands before the parameters, without white space around it;
/// it is told regardless of case, and an empty one is none.
pub proof fn law_media_types(
    content_type: &str,
    media: Option<String>,
    none: Option<String>,
    wanted: &str,
    is_wanted: bool,
)
    requires
        call_ensures(media_type, (Some(content_type),), media),
        call_ensures(media_type, (None,), none),
        call_ensures(media_type_is, (&media, wanted), is_wanted),
    ensures
        none is None,
        media is None <==> trimmed(before(content_type@, ';')).len() == 0,
        media matches Some(text) ==> text@ == trimmed(before(content_type@, ';')),
        is_wanted == (media is Some && lowered(media->0@) == lowered(wanted@)),
{
}

/// A head tells a challenge by its own header, regardless of case, and its media type
/// by its content type.
pub proof fn law_heads_of_codex_replies(
    head: &ResponseHead,
    challenge: bool,
    media: Option<String>,
    content_type: &str,
    read: Option<String>,
)
    requires
        call_ensures(ResponseHead::challenge_detected, (head,), challenge),
        call_ensures(ResponseHead::response_media_type, (head,), media),
        call_ensures(media_type, (Some(content_type),), read),
    ensures
        challenge == (head.cf_mitigated is Some && lowered(head.cf_mitigated->0@) == lowered(
            "challenge"@,
        )),
        head.content_type is None ==> media is None,
        head.content_type is Some && head.content_type->0@ == content_type@ ==> (media is Some)
            == (read is Some) && (media is Some ==> media->0@ == read->0@),
{
}

/// Why a success that is no event stream is refused: a challenge goes before JSON, JSON
/// before a page, and these before a missing or another content type.
pub proof fn law_unexpected_replies(
    head: &ResponseHead,
    detail: &'static str,
    challenge: bool,
    media: Option<String>,
    is_json: bool,
    is_html: bool,
)
    requires
        call_ensures(ResponseHead::unexpected_response_detail, (head,), detail),
        call_ensures(ResponseHead::challenge_detected, (head,), challenge),
        call_ensures(ResponseHead::response_media_type, (head,), media),
        call_ensures(media_type_is, (&media, "application/json"), is_json),
        call_ensures(media_type_is, (&media, "text/html"), is_html),
    ensures
        challenge ==> detail@ == "Codex upstream returned a Cloudflare challenge response"@,
        !challenge && is_json ==> detail@
            == "Codex upstream returned JSON instead of an event stream"@,
        !challenge && !is_json && is_html ==> detail@
            == "Codex upstream returned HTML instead of an event stream"@,
        !challenge && media is None ==> detail@
            == "Codex upstream returned no response content type"@,
        !challenge && media is Some && !is_json && !is_html ==> detail@
            == "Codex upstream returned an unsupported response content type"@,
{
}

/// The first bytes of a reply are told as they are.
pub proof fn law_first_bytes_are_told(prefix: &[u8], kind: ResponsePrefixKind)
    requires
        call_ensures(classify_response_prefix, (prefix,), kind),
        prefix@.len() > 0,
        prefix@[0] == 60 || prefix@[0] == 123 || prefix@[0] == 91 || prefix@[0] == 58,
    ensures
        prefix@[0] == 60 ==> kind is Html,
        prefix@[0] == 123 || prefix@[0] == 91 ==> kind is Json,
        prefix@[0] == 58 ==> kind is Sse,
{
    crate::codex_transport::law_replies_are_told_by_their_beginning(prefix@);
}

/// An error shows its own words, and tells what was observed.
pub proof fn law_what_a_transport_error_shows(
    error: &CodexTransportError,
    observation: FailureObservation,
    message: &'static str,
    text: String,
)
    requires
        call_ensures(CodexTransportError::observation, (error,), observation),
        call_ensures(CodexTransportError::message, (error,), message),
        call_ensures(CodexTransportError::debug_text, (error,), text),
    ensures
        observation == error.observation,
        message@ == error.detail@,
        text@ == "CodexTransportError { status: "@ + decimal(error.status as nat)
            + ", upstream_status: "@ + (match error.upstream_status {
            Some(status) => "Some("@ + decimal(status as nat) + ")"@,
            None => "None"@,
        }) + ", detail: "@ + quoted_text(error.detail@) + ", cancelled: "@ + (if error.cancelled {
            "true"@
        } else {
            "false"@
        }) + " }"@,
{
}

/// The header has this name and this value, and is or is not a secret.
pub open spec fn reads(
    header: RequestHeader,
    name: Seq<char>,
    value: Seq<char>,
    secret: bool,
) -> bool {
    &&& header.name@ == name
    &&& header.value@ == value
    &&& header.sensitive == secret
}

/// A header can hold the text: it has no control byte but the tab.
pub open spec fn fits_a_header(text: Seq<char>) -> bool {
    forall|i: int|
        0 <= i < encode_utf8(text).len() ==> {
            let byte = #[trigger] encode_utf8(text)[i];
            byte == 9 || 32 <= byte <= 126 || 128 <= byte
        }
}

/// The headers of a post, in their order; a token or an account that no header can hold
/// is refused as unauthorized, in its own words, the token first.
pub proof fn law_headers_of_a_post(
    token: &str,
    account: &str,
    lite: bool,
    headers: Result<Vec<RequestHeader>, CodexTransportError>,
)
    requires
        call_ensures(request_headers, (token, account, lite), headers),
    ensures
        headers is Ok <==> fits_a_header("Bearer "@ + token@) && fits_a_header(account@),
        headers matches Ok(list) ==> {
            &&& list@.len() == if lite {
                7int
            } else {
                6
            }
            &&& reads(list@[0], "content-type"@, "application/json"@, false)
            &&& reads(list@[1], "accept"@, "text/event-stream"@, false)
            &&& reads(list@[2], "user-agent"@, "codex_cli_rs"@, false)
            &&& reads(list@[3], "originator"@, "codex_cli_rs"@, false)
            &&& reads(list@[4], "ChatGPT-Account-ID"@, account@, true)
            &&& reads(list@[5], "authorization"@, "Bearer "@ + token@, true)
            &&& lite ==> reads(
                list@[6],
                "x-openai-internal-codex-responses-lite"@,
                "true"@,
                false,
            )
        },
        headers matches Err(error) ==> {
            &&& error.status == 401
            &&& error.upstream_status is None
            &&& !error.cancelled
            &&& error.observation == (FailureObservation::Http {
                status: 401,
                rate_kind: None,
                retry_after_seconds: None,
                request_id: None,
                error_code: ErrorCode::Absent,
                error_param: ErrorParam::Absent,
            })
        },
        !fits_a_header("Bearer "@ + token@) ==> (headers matches Err(error) && error.detail@
            == "Codex authorization is invalid"@),
        fits_a_header("Bearer "@ + token@) && !fits_a_header(account@) ==> (headers matches Err(
            error,
        ) && error.detail@ == "Codex account authorization is invalid"@),
{
    lemma_header_text("Bearer "@ + token@);
    lemma_header_text(account@);
}

proof fn lemma_header_text(text: Seq<char>)
    ensures
        fits_a_header(text) == crate::codex_transport::valid_header_value(text),
{
    if fits_a_header(text) {
        assert forall|i: int| 0 <= i < encode_utf8(text).len() implies
            crate::codex_transport::is_header_byte(#[trigger] encode_utf8(text)[i]) by {}
    }
    if crate::codex_transport::valid_header_value(text) {
        assert forall|i: int| 0 <= i < encode_utf8(text).len() implies ({
            let byte = #[trigger] encode_utf8(text)[i];
            byte == 9 || 32 <= byte <= 126 || 128 <= byte
        }) by {
            assert(crate::codex_transport::is_header_byte(encode_utf8(text)[i]));
        }
    }
}

/// Pending bytes are handed on from the front, as many as there is room for, and the
/// rest stays pending.
pub proof fn law_pending_bytes_are_handed_on(
    bytes: Vec<u8>,
    fresh: PendingBytes,
    pending: &mut PendingBytes,
    room: usize,
    taken: Vec<u8>,
    empty: bool,
)
    requires
        call_ensures(PendingBytes::new, (bytes,), fresh),
        old(pending).wf(),
        call_ensures(PendingBytes::is_empty, (&*old(pending),), empty),
        call_ensures(PendingBytes::take, (pending, room), taken),
    ensures
        fresh@ == bytes@,
        empty <==> old(pending)@.len() == 0,
        old(pending)@.len() <= room ==> taken@ == old(pending)@ && final(pending)@.len() == 0,
        old(pending)@.len() > room ==> taken@.len() == room,
        taken@ + final(pending)@ == old(pending)@,
{
    assert((taken@ + final(pending)@).len() == taken@.len() + final(pending)@.len());
}

/// A chunk that comes while nothing is pending is handed on from the front, and the
/// rest of it is pending.
pub proof fn law_a_chunk_is_handed_on(
    pending: &mut PendingBytes,
    chunk: Vec<u8>,
    room: usize,
    taken: Vec<u8>,
)
    requires
        old(pending).wf(),
        old(pending)@.len() == 0,
        call_ensures(PendingBytes::take_from_chunk, (pending, chunk, room), taken),
    ensures
        chunk@.len() <= room ==> taken@ == chunk@ && final(pending)@.len() == 0,
        chunk@.len() > room ==> taken@.len() == room,
        taken@ + final(pending)@ == chunk@,
{
    assert((taken@ + final(pending)@).len() == taken@.len() + final(pending)@.len());
}

/// What is told of an unlabelled reply that could not be opened: its status and, in
/// words, why.
pub proof fn law_words_of_unlabelled_replies(
    reading: SniffRead,
    event: BodyEvent,
    error: CodexTransportError,
)
    requires
        reading.wf(),
        call_ensures(SniffRead::on_body, (reading, event), CodexOpening::Rejected(error)),
    ensures
        error.upstream_status == Some(reading.status),
        event is ReadFailed ==> error.detail@ == "Codex upstream read failed"@ && error.observation
            == FailureObservation::Network(NetworkKind::Read),
        event is TimedOut ==> error.detail@ == "Codex upstream response body timed out"@
            && error.observation == FailureObservation::Network(NetworkKind::Timeout),
        event is End ==> error.detail@ == "Codex upstream returned an empty response"@,
        event is Cancelled ==> error.detail@ == "Codex request was cancelled"@ && error.cancelled
            && error.status == 499,
        event is Chunk ==> error.detail@
            == "Codex upstream returned an unsupported response body"@ || error.detail@
            == "Codex upstream returned JSON instead of an event stream"@ || error.detail@
            == "Codex upstream returned HTML instead of an event stream"@,
{
}

} // verus!
