//! What holds of every stream that is forwarded, every reply that is read event by event,
//! and every name that is given out once.

use vstd::prelude::*;

use crate::http::{head_is_complete, header_value};
use crate::json::{field_of, JsonTree, JsonValue};
use crate::name_map::NameMap;
use crate::provider_failure::CorrelationId;
use crate::server::codex_pump::{
    byte_views, downstream_closed, forward_codex_stream, CodexNonstreamError, CodexPump,
    CodexPumpError, CodexStreamOutcome, PumpAction, PumpEnd, PumpEvent, PumpPhase, ReadFault,
};
use crate::server::head::{
    content_length, dequery, read_head, HeadRead, RequestHead, RequestHeadReader,
};
use crate::server::log::{
    count_in, listed, log_relay_metadata, log_responses_metadata, FilterStats,
};
use crate::server::nonce::{CorrelationSequence, RequestNonceGenerator};
use crate::server::reply::stream_error_event;
use crate::server::stream::{
    dsml_stream_filter, ForwardAction, ForwardEvent, ForwardPhase, StreamFilterKind, StreamForward,
    StreamTermination, Validated,
};
use crate::text::{
    chars_split_by, chars_words, decimal, hex_char, hex_fixed, hex_of, is_number, lowered,
    number_of, split_by, trimmed, view_of, views, words_of,
};
use crate::text_laws::{law_before_a_mark, law_split_once};
use vstd::utf8::*;

verus! {

// ---------------------------------------------------------------------------
// Forwarding
// ---------------------------------------------------------------------------

/// A client that cannot be written to gets no last chunk, every other does.
pub proof fn law_last_chunk(end: StreamTermination, sent: bool)
    requires
        call_ensures(StreamTermination::sends_last_chunk, (end,), sent),
    ensures
        sent <==> end != StreamTermination::DownstreamWriteError,
{
}

/// DSML is looked for or rewritten only in a stream of DeepSeek with tools, as the mode
/// says; a rewrite needs a nonce.
pub proof fn law_dsml_filters(
    provider: &str,
    shim_mode: &str,
    has_tools: bool,
    has_nonce: bool,
    filter: Option<StreamFilterKind>,
)
    requires
        call_ensures(dsml_stream_filter, (provider, shim_mode, has_tools, has_nonce), filter),
    ensures
        filter == Some(StreamFilterKind::DsmlDetect) <==> provider@ == "deepseek"@ && has_tools
            && shim_mode@ == "detect"@,
        filter == Some(StreamFilterKind::DsmlRewrite) <==> provider@ == "deepseek"@ && has_tools
            && shim_mode@ == "rewrite"@ && has_nonce,
        filter != Some(StreamFilterKind::Kimi),
{
    reveal_strlit("detect");
    reveal_strlit("rewrite");
    assert("detect"@.len() == 6 && "rewrite"@.len() == 7);
}

/// A piece goes through the filter, where there is one, and then to the validator.
pub proof fn law_pieces_are_filtered_and_checked(
    forward: &mut StreamForward,
    bytes: Vec<u8>,
    action: ForwardAction,
    has_filter: bool,
    started: (StreamForward, ForwardAction),
)
    requires
        call_ensures(StreamForward::start, (has_filter, bytes), started),
        bytes@.len() > 0,
        old(forward).phase is Reading,
        call_ensures(
            StreamForward::forward_stream_body,
            (forward, ForwardEvent::Read(Ok(bytes))),
            action,
        ),
    ensures
        started.0.has_filter == has_filter,
        has_filter ==> (started.1 matches ForwardAction::Filter(piece) && piece@ == bytes@)
            && started.0.phase == (ForwardPhase::Filtering { last: false }),
        !has_filter ==> (started.1 matches ForwardAction::Check(piece) && piece@ == bytes@)
            && started.0.phase == (ForwardPhase::Checking { last: false }),
        final(forward).has_filter == old(forward).has_filter,
        old(forward).has_filter ==> (action matches ForwardAction::Filter(piece) && piece@ == bytes@)
            && final(forward).phase == (ForwardPhase::Filtering { last: false }),
        !old(forward).has_filter ==> (action matches ForwardAction::Check(piece) && piece@ == bytes@)
            && final(forward).phase == (ForwardPhase::Checking { last: false }),
{
}

/// What the filter lets pass goes to the validator.
pub proof fn law_filtered_pieces_are_checked(
    forward: &mut StreamForward,
    bytes: Vec<u8>,
    last: bool,
    action: ForwardAction,
)
    requires
        old(forward).phase == (ForwardPhase::Filtering { last }),
        call_ensures(
            StreamForward::forward_stream_body,
            (forward, ForwardEvent::Filtered(Ok(bytes))),
            action,
        ),
    ensures
        action matches ForwardAction::Check(piece) && piece@ == bytes@,
        final(forward).phase == (ForwardPhase::Checking { last }),
{
}

/// What the validator lets pass goes to the client, as it is; where it lets nothing pass,
/// the stream ends with a terminal error, else the validator is asked for its end behind
/// the last piece, else the next piece is read.
pub proof fn law_checked_pieces_are_sent(
    forward: &mut StreamForward,
    validated: Validated,
    last: bool,
    action: ForwardAction,
)
    requires
        old(forward).phase == (ForwardPhase::Checking { last }),
        call_ensures(
            StreamForward::forward_stream_body,
            (forward, ForwardEvent::Checked(Ok(validated))),
            action,
        ),
    ensures
        validated.bytes@.len() > 0 ==> (action matches ForwardAction::Emit(piece) && piece@
            == validated.bytes@) && final(forward).phase == (ForwardPhase::Emitting {
            last,
            terminal: validated.terminal_error,
        }),
        validated.bytes@.len() == 0 && validated.terminal_error ==> action == ForwardAction::Stop(
            StreamTermination::UpstreamTerminalError,
        ) && final(forward).phase is Done,
        validated.bytes@.len() == 0 && !validated.terminal_error && last
            ==> action is FinishCheck && final(forward).phase is Finishing,
        validated.bytes@.len() == 0 && !validated.terminal_error && !last ==> action is Read
            && final(forward).phase is Reading,
{
}

/// When a piece is out, a terminal one ends the stream, behind the last one the validator
/// is asked for its end, and behind any other the next is read.
pub proof fn law_sent_pieces_are_followed(
    forward: &mut StreamForward,
    last: bool,
    terminal: bool,
    action: ForwardAction,
)
    requires
        old(forward).phase == (ForwardPhase::Emitting { last, terminal }),
        call_ensures(
            StreamForward::forward_stream_body,
            (forward, ForwardEvent::Emitted(true)),
            action,
        ),
    ensures
        terminal ==> action == ForwardAction::Stop(StreamTermination::UpstreamTerminalError)
            && final(forward).phase is Done,
        !terminal && last ==> action is FinishCheck && final(forward).phase is Finishing,
        !terminal && !last ==> action is Read && final(forward).phase is Reading,
{
}

/// At the end of the upstream the filter is asked for its rest, and without one the
/// validator for its end.
pub proof fn law_streams_are_finished(
    forward: &mut StreamForward,
    bytes: Vec<u8>,
    action: ForwardAction,
)
    requires
        old(forward).phase is Reading,
        bytes@.len() == 0,
        call_ensures(
            StreamForward::forward_stream_body,
            (forward, ForwardEvent::Read(Ok(bytes))),
            action,
        ),
    ensures
        old(forward).has_filter ==> action is FinishFilter && final(forward).phase == (
        ForwardPhase::Filtering { last: true }),
        !old(forward).has_filter ==> action is FinishCheck && final(forward).phase is Finishing,
{
}

/// A validator that finds the stream whole ends it, with what it still holds first.
pub proof fn law_whole_streams_end_well(
    forward: &mut StreamForward,
    bytes: Vec<u8>,
    action: ForwardAction,
)
    requires
        old(forward).phase is Finishing,
        call_ensures(
            StreamForward::forward_stream_body,
            (forward, ForwardEvent::Finished(Ok(bytes))),
            action,
        ),
    ensures
        bytes@.len() == 0 ==> action == ForwardAction::Stop(StreamTermination::NormalEof)
            && final(forward).phase is Done,
        bytes@.len() > 0 ==> (action matches ForwardAction::Emit(piece) && piece@ == bytes@)
            && final(forward).phase == (ForwardPhase::Closing {
            end: StreamTermination::NormalEof,
        }),
{
}

/// A stream that breaks is closed with an error event that says how: in reading, or else
/// against the protocol.
pub proof fn law_broken_streams_are_told(
    forward: &mut StreamForward,
    event: ForwardEvent,
    read: &str,
    protocol: &str,
    read_event: Vec<u8>,
    protocol_event: Vec<u8>,
    action: ForwardAction,
)
    requires
        read@ == "upstream stream read failed"@,
        protocol@ == "upstream SSE protocol error"@,
        call_ensures(stream_error_event, (read,), read_event),
        call_ensures(stream_error_event, (protocol,), protocol_event),
        call_ensures(StreamForward::forward_stream_body, (forward, event), action),
    ensures
        (event matches ForwardEvent::Read(Err(_))) ==> (action matches ForwardAction::Emit(piece)
            && piece@ == read_event@) && final(forward).phase == (ForwardPhase::Closing {
            end: StreamTermination::UpstreamReadError,
        }),
        (event matches ForwardEvent::Filtered(Err(_))) || (event matches ForwardEvent::Checked(
            Err(_),
        )) || (event matches ForwardEvent::Finished(Err(_))) ==> (
        action matches ForwardAction::Emit(piece) && piece@ == protocol_event@)
            && final(forward).phase == (ForwardPhase::Closing {
            end: StreamTermination::ProtocolError,
        }),
{
}

/// The last piece that is out ends the stream as it was to end; a client that cannot be
/// written to ends it at once.
pub proof fn law_closed_streams_end(
    forward: &mut StreamForward,
    end: StreamTermination,
    action: ForwardAction,
)
    requires
        old(forward).phase == (ForwardPhase::Closing { end }),
        call_ensures(
            StreamForward::forward_stream_body,
            (forward, ForwardEvent::Emitted(true)),
            action,
        ),
    ensures
        action == ForwardAction::Stop(end),
        final(forward).phase is Done,
{
}

pub proof fn law_unwritten_pieces_end_the_stream(
    forward: &mut StreamForward,
    action: ForwardAction,
)
    requires
        call_ensures(
            StreamForward::forward_stream_body,
            (forward, ForwardEvent::Emitted(false)),
            action,
        ),
    ensures
        action == ForwardAction::Stop(StreamTermination::DownstreamWriteError),
        final(forward).phase is Done,
{
}

// ---------------------------------------------------------------------------
// Replies of Codex
// ---------------------------------------------------------------------------

/// A reply that was passed on tells how it ended; a client that is gone counts as one that
/// cancelled.
pub proof fn law_ends_of_replies(
    end: PumpEnd,
    streamed: Result<(), CodexPumpError>,
    collected: Result<(), CodexNonstreamError>,
)
    requires
        call_ensures(PumpEnd::streamed, (end,), streamed),
        call_ensures(PumpEnd::collected, (end,), collected),
    ensures
        streamed is Ok <==> end == PumpEnd::Completed,
        collected is Ok <==> end == PumpEnd::Completed,
        streamed == Err::<(), CodexPumpError>(CodexPumpError::UpstreamRead) <==> end
            == PumpEnd::UpstreamRead,
        streamed == Err::<(), CodexPumpError>(CodexPumpError::Protocol) <==> end
            == PumpEnd::Protocol,
        streamed == Err::<(), CodexPumpError>(CodexPumpError::DownstreamWrite) <==> end
            == PumpEnd::DownstreamWrite,
        collected == Err::<(), CodexNonstreamError>(CodexNonstreamError::UpstreamRead) <==> end
            == PumpEnd::UpstreamRead,
        collected == Err::<(), CodexNonstreamError>(CodexNonstreamError::Protocol) <==> end
            == PumpEnd::Protocol,
{
}

/// A client of a stream is sent an error event only where the upstream broke, and a last
/// chunk unless it is gone.
pub proof fn law_ends_of_streams(
    end: Result<(), CodexPumpError>,
    told: (bool, bool, CodexStreamOutcome),
)
    requires
        call_ensures(forward_codex_stream, (end,), told),
    ensures
        end is Ok ==> told == (false, true, CodexStreamOutcome::Completed),
        end == Err::<(), CodexPumpError>(CodexPumpError::UpstreamRead) || end == Err::<
            (),
            CodexPumpError,
        >(CodexPumpError::Protocol) ==> told == (true, true, CodexStreamOutcome::Failed),
        end == Err::<(), CodexPumpError>(CodexPumpError::DownstreamWrite) || end == Err::<
            (),
            CodexPumpError,
        >(CodexPumpError::Cancelled) ==> told == (false, false, CodexStreamOutcome::Cancelled),
{
}

/// A client is gone where nothing more can come of it, or looking at it failed for good.
pub proof fn law_gone_clients(received: i64, passing: bool, closed: bool)
    requires
        call_ensures(downstream_closed, (received, passing), closed),
    ensures
        received == 0 ==> closed,
        received > 0 ==> !closed,
        received < 0 ==> (closed <==> !passing),
{
}

/// A reply starts with a read.
pub proof fn law_replies_start_with_a_read<E>(collect: bool, pump: CodexPump<E>)
    requires
        call_ensures(CodexPump::<E>::new, (collect,), pump),
    ensures
        pump@.collect == collect,
        pump@.phase is Reading,
        pump@.rest.len() == 0 && pump@.queue.len() == 0 && pump@.pending.len() == 0,
        !pump@.at_tail && !pump@.complete,
{
}

/// What was read is decoded; the end of the reply ends the decoder.
pub proof fn law_reads_are_decoded<E>(
    pump: &mut CodexPump<E>,
    bytes: Vec<u8>,
    action: PumpAction<E>,
)
    requires
        old(pump)@.phase is Reading,
        !old(pump)@.at_tail,
        call_ensures(
            CodexPump::<E>::pump_codex_stream,
            (pump, PumpEvent::Read(Ok(bytes))),
            action,
        ),
    ensures
        bytes@.len() == 0 ==> action is EndDecoder && final(pump)@.phase is EndingDecoder,
        bytes@.len() > 0 ==> (action matches PumpAction::Decode(piece) && piece@ == bytes@)
            && final(pump)@.phase is Decoding && final(pump)@.rest == bytes@,
{
    if bytes@.len() > 0 {
        assert(action.says() == crate::server::codex_pump::PumpTask::<E>::Decode(bytes@));
    }
}

/// A read that fails ends the reply: for a client that is gone, by a cancellation, or as
/// the upstream's fault.
pub proof fn law_failed_reads_end_the_reply<E>(
    pump: &mut CodexPump<E>,
    fault: ReadFault,
    action: PumpAction<E>,
)
    requires
        call_ensures(
            CodexPump::<E>::pump_codex_stream,
            (pump, PumpEvent::Read(Err(fault))),
            action,
        ),
    ensures
        old(pump)@.collect && (fault.aborted || fault.downstream_closed) ==> action
            == PumpAction::<E>::Stop(PumpEnd::DownstreamClosed),
        !old(pump)@.collect && fault.aborted ==> action == PumpAction::<E>::Stop(
            PumpEnd::Cancelled,
        ),
        !fault.aborted && (!old(pump)@.collect || !fault.downstream_closed) ==> action
            == PumpAction::<E>::Stop(PumpEnd::UpstreamRead),
        final(pump)@.phase is Done,
{
    let task = crate::server::codex_pump::PumpTask::<E>::Stop(
        if old(pump)@.collect && (fault.aborted || fault.downstream_closed) {
            PumpEnd::DownstreamClosed
        } else if fault.aborted {
            PumpEnd::Cancelled
        } else {
            PumpEnd::UpstreamRead
        },
    );
    assert(action.says() == task);
}

/// An event that was decoded is applied, and the bytes that it took are not decoded again;
/// without a whole event the rest is decoded, or more is read.
pub proof fn law_events_are_applied<E>(
    pump: &mut CodexPump<E>,
    event: Option<E>,
    consumed: usize,
    action: PumpAction<E>,
)
    requires
        old(pump)@.phase is Decoding,
        !old(pump)@.at_tail,
        consumed <= old(pump)@.rest.len(),
        call_ensures(
            CodexPump::<E>::pump_codex_stream,
            (pump, PumpEvent::Decoded(Ok((event, consumed)))),
            action,
        ),
    ensures
        final(pump)@.rest == old(pump)@.rest.skip(consumed as int),
        event matches Some(event) ==> action == PumpAction::Apply(event)
            && final(pump)@.phase is Applying,
        event is None && consumed < old(pump)@.rest.len() ==> (
        action matches PumpAction::Decode(piece) && piece@ == old(pump)@.rest.skip(consumed as int))
            && final(pump)@.phase is Decoding,
        event is None && consumed == old(pump)@.rest.len() ==> action is Read
            && final(pump)@.phase is Reading,
{
    use_says(action);
}

/// What an event means is sent piece by piece, in order, unless the reply is collected.
pub proof fn law_meanings_are_sent<E>(
    pump: &mut CodexPump<E>,
    translated: Vec<Vec<u8>>,
    complete: bool,
    action: PumpAction<E>,
)
    requires
        old(pump)@.phase is Applying,
        call_ensures(
            CodexPump::<E>::pump_codex_stream,
            (pump, PumpEvent::Applied(Ok((translated, complete)))),
            action,
        ),
    ensures
        final(pump)@.complete == complete,
        !old(pump)@.collect && translated@.len() > 0 ==> (action matches PumpAction::Emit(piece)
            && piece@ == translated@[0]@) && final(pump)@.pending.len() == translated@.len() - 1
            && (forall|i: int|
            0 <= i < translated@.len() - 1 ==> #[trigger] final(pump)@.pending[i] == translated@[i
                + 1]@),
        (old(pump)@.collect || translated@.len() == 0) && complete ==> action == PumpAction::<
            E,
        >::Stop(PumpEnd::Completed),
        (old(pump)@.collect || translated@.len() == 0) && !complete ==> action is Read
            || action is Decode || action is Apply || action is EndReducer,
{
    use_says(action);
}

/// The next piece that is pending is sent; when none is, a complete reply ends, and another
/// goes on.
pub proof fn law_pending_pieces_are_sent<E>(pump: &mut CodexPump<E>, action: PumpAction<E>)
    requires
        old(pump)@.phase is Emitting,
        call_ensures(CodexPump::<E>::pump_codex_stream, (pump, PumpEvent::Emitted(true)), action),
    ensures
        old(pump)@.pending.len() > 0 ==> (action matches PumpAction::Emit(piece) && piece@
            == old(pump)@.pending[0]) && final(pump)@.pending == old(pump)@.pending.skip(1)
            && final(pump)@.phase is Emitting,
        old(pump)@.pending.len() == 0 && old(pump)@.complete ==> action == PumpAction::<E>::Stop(
            PumpEnd::Completed,
        ),
        old(pump)@.pending.len() == 0 && !old(pump)@.complete ==> !(action is Stop) && !(
        action is Emit),
{
    use_says(action);
}

/// The events that the end of a reply brings are applied in order, and then the reducer is
/// ended, which completes the reply.
pub proof fn law_tails_are_applied<E>(
    pump: &mut CodexPump<E>,
    events: Vec<E>,
    action: PumpAction<E>,
)
    requires
        old(pump)@.phase is EndingDecoder,
        call_ensures(
            CodexPump::<E>::pump_codex_stream,
            (pump, PumpEvent::DecoderEnded(Ok(events))),
            action,
        ),
    ensures
        final(pump)@.at_tail,
        events@.len() == 0 ==> action is EndReducer && final(pump)@.phase is EndingReducer,
        events@.len() > 0 ==> action == PumpAction::Apply(events@[0]) && final(pump)@.queue
            == events@.skip(1) && final(pump)@.phase is Applying,
{
    use_says(action);
}

/// How a reply ends: complete with its reducer, broken against the protocol where a part
/// fails, and given up where the client is gone or cannot be written to.
pub proof fn law_replies_end<E>(pump: &mut CodexPump<E>, event: PumpEvent<E>, action: PumpAction<E>)
    requires
        call_ensures(CodexPump::<E>::pump_codex_stream, (pump, event), action),
    ensures
        (event matches PumpEvent::ReducerEnded(Ok(_))) ==> action == PumpAction::<E>::Stop(
            PumpEnd::Completed,
        ),
        (event matches PumpEvent::ReducerEnded(Err(_))) || (event matches PumpEvent::DecoderEnded(
            Err(_),
        )) || (event matches PumpEvent::Decoded(Err(_))) || (event matches PumpEvent::Applied(
            Err(_),
        )) ==> action == PumpAction::<E>::Stop(PumpEnd::Protocol),
        event is Closed ==> action == PumpAction::<E>::Stop(PumpEnd::DownstreamClosed),
        event == PumpEvent::<E>::Emitted(false) ==> action == PumpAction::<E>::Stop(
            PumpEnd::DownstreamWrite,
        ),
        action is Stop ==> final(pump)@.phase is Done,
{
    use_says(action);
}

proof fn use_says<E>(action: PumpAction<E>)
    ensures
        action.says() == (match action {
            PumpAction::Read => crate::server::codex_pump::PumpTask::Read,
            PumpAction::Decode(bytes) => crate::server::codex_pump::PumpTask::Decode(bytes@),
            PumpAction::Apply(event) => crate::server::codex_pump::PumpTask::Apply(event),
            PumpAction::Emit(bytes) => crate::server::codex_pump::PumpTask::Emit(bytes@),
            PumpAction::EndDecoder => crate::server::codex_pump::PumpTask::EndDecoder,
            PumpAction::EndReducer => crate::server::codex_pump::PumpTask::EndReducer,
            PumpAction::Stop(end) => crate::server::codex_pump::PumpTask::Stop(end),
        }),
{
}

// ---------------------------------------------------------------------------
// Names
// ---------------------------------------------------------------------------

/// A nonce is the prefix of its process and the number of the request in sixteen digits.
pub proof fn law_nonces(
    generator: &mut RequestNonceGenerator,
    prefix: [u8; 16],
    made: RequestNonceGenerator,
    nonce: String,
)
    requires
        call_ensures(RequestNonceGenerator::with_prefix, (prefix,), made),
        call_ensures(RequestNonceGenerator::next_nonce, (generator,), nonce),
    ensures
        made.process_prefix@ == hex_of(prefix@),
        made.request_counter == 0,
        final(generator).process_prefix == old(generator).process_prefix,
        final(generator).request_counter == old(generator).request_counter + 1,
        nonce@ == old(generator).process_prefix@ + hex_fixed(
            old(generator).request_counter as nat + 1,
            16,
        ),
{
}

/// Requests to Codex are numbered from one on, in sixteen digits behind `codex-`.
pub proof fn law_correlations(
    sequence: &mut CorrelationSequence,
    fresh: CorrelationSequence,
    id: CorrelationId,
)
    requires
        call_ensures(CorrelationSequence::new, (), fresh),
        call_ensures(CorrelationSequence::next_codex_correlation_id, (sequence,), id),
    ensures
        fresh.next == 1,
        id@ == "codex-"@ + hex_fixed(old(sequence).next as nat, 16),
        old(sequence).next < u64::MAX ==> final(sequence).next == old(sequence).next + 1,
        old(sequence).next == u64::MAX ==> final(sequence).next == 0,
{
}

// ---------------------------------------------------------------------------
// Lines of the log
// ---------------------------------------------------------------------------

/// The line of a relayed request names its model, whether it streams, how many messages it
/// has and the rules that changed it.
pub proof fn law_relay_lines(
    target_model: &str,
    is_stream: bool,
    message_count: usize,
    rules: &[String],
    line: String,
)
    requires
        call_ensures(log_relay_metadata, (target_model, is_stream, message_count, rules), line),
    ensures
        line@ == "POST /v1/messages relay target="@ + target_model@ + " stream="@ + (if is_stream {
            "true"@
        } else {
            "false"@
        }) + " msgs="@ + decimal(message_count as nat) + " rules="@ + (if rules@.len() == 0 {
            "-"@
        } else {
            listed(rules@)
        }),
{
}

/// Rules are listed with commas between them.
pub proof fn law_listed_rules(rules: Seq<String>, rule: String)
    ensures
        listed(seq![rule]) == rule@,
        rules.len() > 0 ==> listed(rules.push(rule)) == listed(rules) + ","@ + rule@,
{
    assert(rules.push(rule).drop_last() =~= rules);
}

/// How many values a list of an object has.
pub proof fn law_counts(json: &JsonValue, name: &str, count: usize)
    requires
        call_ensures(count_in, (json, name), count),
    ensures
        field_of(json@, name@) matches Some(JsonTree::List(values)) ==> count == values.len(),
        !(field_of(json@, name@) matches Some(JsonTree::List(_))) ==> count == 0,
{
}

/// The line of a request in the terms of the Responses interface.
pub proof fn law_responses_lines(
    request: &JsonValue,
    is_stream: bool,
    rules: &[String],
    inputs: usize,
    tools: usize,
    line: String,
)
    requires
        call_ensures(log_responses_metadata, (request, is_stream, rules), line),
        call_ensures(count_in, (request, "input"), inputs),
        call_ensures(count_in, (request, "tools"), tools),
    ensures
        line@ == "POST /v1/messages provider=openai-responses target="@ + (match field_of(
            request@,
            "model"@,
        ) {
            Some(JsonTree::Text(model)) => model,
            _ => Seq::empty(),
        }) + " stream="@ + (if is_stream {
            "true"@
        } else {
            "false"@
        }) + " input="@ + decimal(inputs as nat) + " tools="@ + decimal(tools as nat) + " rules="@
            + (if rules@.len() == 0 {
            "-"@
        } else {
            listed(rules@)
        }),
{
}

/// A filter that did something has a line, and one that did nothing has none.
pub proof fn law_filter_lines(
    dropped: u64,
    found: bool,
    synthesized: bool,
    tool_uses: u64,
    kimi: Option<String>,
    detect: Option<String>,
    rewrite: Option<String>,
)
    requires
        call_ensures(FilterStats::log_stats, (FilterStats::Kimi { dropped },), kimi),
        call_ensures(FilterStats::log_stats, (FilterStats::DsmlDetect { found },), detect),
        call_ensures(
            FilterStats::log_stats,
            (FilterStats::DsmlRewrite { synthesized, tool_uses },),
            rewrite,
        ),
    ensures
        kimi is Some <==> dropped > 0,
        kimi matches Some(line) ==> line@
            == "relay stream rules=tool.kimi.web_search.server-tool-filter dropped="@ + decimal(
            dropped as nat,
        ),
        detect is Some <==> found,
        detect matches Some(line) ==> line@ == "deepseek stream DSML detect found=true"@,
        rewrite is Some <==> synthesized,
        rewrite matches Some(line) ==> line@ == "deepseek stream DSML rewrite tool_use="@ + decimal(
            tool_uses as nat,
        ),
{
}

// ---------------------------------------------------------------------------
// Heads
// ---------------------------------------------------------------------------

/// A head is over at its first empty line.
pub proof fn law_heads_end_with_an_empty_line(head: &Vec<u8>, complete: bool, before: Seq<u8>)
    requires
        call_ensures(head_is_complete, (head,), complete),
    ensures
        head@ == before + seq![13u8, 10u8, 13u8, 10u8] ==> complete,
        complete ==> head@.len() >= 4 && head@[head@.len() - 4] == 13 && head@[head@.len() - 3] == 10
            && head@[head@.len() - 2] == 13 && head@[head@.len() - 1] == 10,
{
    if head@ == before + seq![13u8, 10u8, 13u8, 10u8] {
        assert(head@.skip(head@.len() - 4) =~= seq![13u8, 10u8, 13u8, 10u8]);
    }
    if complete {
        let end = head@.skip(head@.len() - 4);
        assert(end[0] == 13 && end[1] == 10 && end[2] == 13 && end[3] == 10);
        assert(head@[head@.len() - 4] == end[0] && head@[head@.len() - 3] == end[1]
            && head@[head@.len() - 2] == end[2] && head@[head@.len() - 1] == end[3]);
    }
}

/// A head is read piece by piece, up to sixty-four kibibytes; a client that sends nothing,
/// or too much, is told so.
pub proof fn law_heads_are_read(
    reader: &mut RequestHeadReader,
    event: HeadRead,
    fresh: RequestHeadReader,
    result: Result<(), String>,
)
    requires
        call_ensures(RequestHeadReader::new, (), fresh),
        call_ensures(RequestHeadReader::read, (reader, event), result),
    ensures
        fresh.head@.len() == 0,
        event matches HeadRead::Failed(reason) ==> result is Err && result->Err_0@ == reason@,
        event matches HeadRead::Read(more) ==> {
            &&& more@.len() == 0 ==> result is Err && result->Err_0@ == "empty request"@
            &&& more@.len() > 0 && old(reader).head@.len() + more@.len() > 65_536 ==> result is Err
                && result->Err_0@ == "request headers too large"@
            &&& more@.len() > 0 && old(reader).head@.len() + more@.len() <= 65_536 ==> result is Ok
                && final(reader).head@ == old(reader).head@ + more@
        },
        result is Err ==> final(reader).head@ == old(reader).head@,
{
}

/// The first line of a head names the method and then the target; a head that is no text,
/// or names one of them not, is told so.
pub proof fn law_first_lines_of_heads(
    head: &[u8],
    text: &Vec<char>,
    separator: &Vec<char>,
    lines: Vec<Vec<char>>,
    words: Vec<Vec<char>>,
    request: Result<RequestHead, String>,
)
    requires
        call_ensures(read_head, (head,), request),
        text@ == decode_utf8(head@),
        separator@ == "\r\n"@,
        call_ensures(chars_split_by, (text, separator), lines),
        call_ensures(chars_words, (&lines@[0],), words),
    ensures
        !valid_utf8(head@) ==> request is Err && request->Err_0@ == "invalid request headers"@,
        valid_utf8(head@) && words@.len() == 0 ==> request is Err && request->Err_0@
            == "missing method"@,
        valid_utf8(head@) && words@.len() == 1 ==> request is Err && request->Err_0@
            == "missing target"@,
        valid_utf8(head@) && words@.len() >= 2 ==> request is Ok && request->Ok_0.method@
            == words@[0]@ && request->Ok_0.target@ == words@[1]@,
{
    reveal_strlit("\r\n");
    let split = split_by(text@, separator@);
    assert(views(lines@) == split);
    assert(split.len() > 0);
    assert(views(lines@)[0] == lines@[0]@);
    assert(views(words@).len() == words@.len());
    if words@.len() >= 2 {
        assert(views(words@)[0] == words@[0]@);
        assert(views(words@)[1] == words@[1]@);
    }
}

proof fn lemma_header_value(lines: Seq<Seq<char>>, name: Seq<char>, i: int)
    requires
        0 <= i < lines.len(),
        crate::text::split_once(lines[i], ':') matches Some((raw, _)) && lowered(trimmed(raw))
            == name,
        forall|k: int|
            i < k < lines.len() ==> !(crate::text::split_once(#[trigger] lines[k], ':') matches Some(
                (raw, _),
            ) && lowered(trimmed(raw)) == name),
    ensures
        header_value(lines, name) == Some(
            trimmed((crate::text::split_once(lines[i], ':')->Some_0).1),
        ),
    decreases lines.len(),
{
    if i < lines.len() - 1 {
        assert(lines.last() == lines[lines.len() - 1]);
        lemma_header_value(lines.drop_last(), name, i);
    }
}

proof fn lemma_no_header_value(lines: Seq<Seq<char>>, name: Seq<char>)
    requires
        forall|k: int|
            0 <= k < lines.len() ==> !(crate::text::split_once(#[trigger] lines[k], ':') matches Some(
                (raw, _),
            ) && lowered(trimmed(raw)) == name),
    ensures
        header_value(lines, name) is None,
    decreases lines.len(),
{
    if lines.len() > 0 {
        assert(lines.last() == lines[lines.len() - 1]);
        lemma_no_header_value(lines.drop_last(), name);
    }
}

/// A header line is a name, a colon and a value, with space around both of no account and
/// the name in whatever case; of lines of one name the last counts.
pub proof fn law_headers_of_heads(
    head: &[u8],
    text: &Vec<char>,
    separator: &Vec<char>,
    lines: Vec<Vec<char>>,
    request: RequestHead,
    raw: Seq<char>,
    value: Seq<char>,
    i: int,
)
    requires
        call_ensures(read_head, (head,), Ok::<RequestHead, String>(request)),
        text@ == decode_utf8(head@),
        separator@ == "\r\n"@,
        call_ensures(chars_split_by, (text, separator), lines),
        1 <= i < lines@.len(),
        lines@[i]@ == raw.push(':') + value,
        !raw.contains(':'),
        forall|k: int|
            i < k < lines@.len() ==> !(crate::text::split_once(#[trigger] lines@[k]@, ':') matches Some(
                (other, _),
            ) && lowered(trimmed(other)) == lowered(trimmed(raw))),
    ensures
        view_of(request.headers.value(lowered(trimmed(raw)))) == Some(trimmed(value)),
{
    let name = lowered(trimmed(raw));
    let rest = views(lines@).skip(1);
    law_split_once(raw, ':', value);
    assert(views(lines@).len() == lines@.len());
    assert forall|k: int| 0 <= k < rest.len() implies #[trigger] rest[k] == lines@[k + 1]@ by {
        assert(views(lines@)[k + 1] == lines@[k + 1]@);
    }
    assert(rest[i - 1] == lines@[i]@);
    assert forall|k: int| i - 1 < k < rest.len() implies !(crate::text::split_once(
        #[trigger] rest[k],
        ':',
    ) matches Some((other, _)) && lowered(trimmed(other)) == name) by {
        assert(rest[k] == lines@[k + 1]@);
    }
    lemma_header_value(rest, name, i - 1);
    assert(view_of(request.headers.value(name)) == header_value(rest, name));
}

/// The length of a body is the number that the header declares, nought where it declares
/// none.
pub proof fn law_declared_lengths(headers: &NameMap<String>, length: Result<u64, String>)
    requires
        headers.wf(),
        call_ensures(content_length, (headers,), length),
    ensures
        headers.value("content-length"@) is None ==> length == Ok::<u64, String>(0),
        headers.value("content-length"@) matches Some(raw) ==> {
            &&& is_number(raw@) && number_of(raw@) <= 0x7fff_ffff_ffff_ffff ==> length == Ok::<
                u64,
                String,
            >(number_of(raw@) as u64)
            &&& is_number(raw@) && number_of(raw@) > 0x7fff_ffff_ffff_ffff ==> length is Err
            &&& raw@.len() == 0 ==> length is Err
            &&& raw@.len() > 0 && !('0' <= raw@[0] <= '9') && raw@[0] != '+' && raw@[0] != '-'
                ==> length is Err
            &&& raw@.len() > 0 && raw@[0] == '-' && (length matches Ok(n)) ==> length == Ok::<
                u64,
                String,
            >(0)
            &&& raw@.len() > 1 && raw@[0] == '+' && is_number(raw@.skip(1)) && number_of(
                raw@.skip(1),
            ) <= 0x7fff_ffff_ffff_ffff ==> length == Ok::<u64, String>(
                number_of(raw@.skip(1)) as u64,
            )
            &&& length matches Err(error) ==> error@ == "invalid Content-Length"@
        },
{
    if let Some(raw) = headers.value("content-length"@) {
        if is_number(raw@) {
            assert(crate::text::is_digit_char(raw@[0]));
        }
        if raw@.len() > 0 && !('0' <= raw@[0] <= '9') && raw@[0] != '+' && raw@[0] != '-' {
            assert(!crate::text::is_digit_char(raw@[0]));
        }
    }
}

/// A target is served without its query.
pub proof fn law_targets_without_query(
    path: &str,
    bare: &str,
    head: Seq<char>,
    query: Seq<char>,
)
    requires
        call_ensures(dequery, (path,), bare),
        !head.contains('?'),
    ensures
        path@ == head ==> bare@ == head,
        path@ == head.push('?') + query ==> bare@ == head,
{
    law_before_a_mark(head, '?', query);
}

} // verus!
