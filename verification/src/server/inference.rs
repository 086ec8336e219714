//! One caller request to a provider that takes an API key: what is translated, posted,
//! filtered and sent back.

use vstd::prelude::*;

use crate::config::GatewayConfig;
use crate::json::{parsed_bytes, JsonTree, JsonValue};
use crate::messages::{UpstreamBody, UpstreamError};
use crate::server::reply::{json_reply, write_json, HttpReply, Reply};
use crate::server::routing::{
    api_failure, fault_reply, inference_fault_reply, is_kimi, pass_reply, passed_reply,
    read_inference_reply, InferenceFault, InferenceRoute,
};
use crate::server::stream::{dsml_filter_of, dsml_stream_filter, StreamFilterKind};
use crate::text::{contains, lowered};

verus! {

/// How far a request has come.
pub enum InferencePhase {
    /// It is put into the provider's terms.
    Encoding,
    /// It was posted. `kimi` tells whether the reply needs the Kimi filter.
    Posting { kimi: bool },
    /// A stream was asked for.
    Opening,
    /// The reply is put into the client's terms.
    Translating,
    /// The reply, which has this status and type, is filtered.
    Filtering { status: u16, content_type: String },
    Done,
}

/// What came back.
pub enum InferenceEvent {
    /// The request in the provider's terms, and the model that it is for.
    Encoded(Result<(Vec<u8>, String), InferenceFault>),
    Posted(Result<UpstreamBody, UpstreamError>),
    Opened(Result<(), UpstreamError>),
    /// The reply in the client's terms, as JSON.
    Translated(Result<String, String>),
    Filtered(Result<Vec<u8>, String>),
}

/// What to do next.
pub enum InferenceTask {
    Post(Vec<u8>),
    /// Ask for a stream, and pass it through the filter, where there is one.
    Open { body: Vec<u8>, filter: Option<StreamFilterKind> },
    Translate(JsonValue),
    Filter { kind: StreamFilterKind, body: Vec<u8> },
    /// Send a whole reply.
    Send(HttpReply),
    /// Send a whole reply, which is this JSON, as a stream.
    Replay(String),
    /// Pass the stream on.
    Forward,
}

/// What an [`InferenceTask`] says.
pub ghost enum Inference {
    Post(Seq<u8>),
    Open { body: Seq<u8>, filter: Option<StreamFilterKind> },
    Translate(JsonTree),
    Filter { kind: StreamFilterKind, body: Seq<u8> },
    Send(Reply),
    Replay(Seq<char>),
    Forward,
}

impl View for InferenceTask {
    type V = Inference;

    open spec fn view(&self) -> Inference {
        match *self {
            InferenceTask::Post(body) => Inference::Post(body@),
            InferenceTask::Open { body, filter } => Inference::Open { body: body@, filter },
            InferenceTask::Translate(reply) => Inference::Translate(reply@),
            InferenceTask::Filter { kind, body } => Inference::Filter { kind, body: body@ },
            InferenceTask::Send(reply) => Inference::Send(reply@),
            InferenceTask::Replay(text) => Inference::Replay(text@),
            InferenceTask::Forward => Inference::Forward,
        }
    }
}

/// A request for inference.
pub struct InferenceRun {
    pub route: InferenceRoute,
    /// The client wants a stream.
    pub stream: bool,
    /// The filter that a DeepSeek reply needs.
    pub dsml: Option<StreamFilterKind>,
    pub phase: InferencePhase,
}

/// Providers that speak in other terms than the client.
pub open spec fn is_foreign(route: InferenceRoute) -> bool {
    route is OpenAiChat || route is OpenAiCustomChat || route is OpenAiResponses
}

/// A relayed model whose replies need the Kimi filter.
pub open spec fn names_kimi(route: InferenceRoute, model: Seq<char>) -> bool {
    route is Relay && contains(lowered(model), "kimi"@)
}

impl InferenceRun {
    pub open spec fn fits(self, event: InferenceEvent) -> bool {
        match self.phase {
            InferencePhase::Encoding => event is Encoded,
            InferencePhase::Posting { .. } => event is Posted,
            InferencePhase::Opening => event is Opened,
            InferencePhase::Translating => event is Translated,
            InferencePhase::Filtering { .. } => event is Filtered,
            InferencePhase::Done => false,
        }
    }

    /// The filter that a whole reply needs. A reply in which DSML is only looked for is
    /// sent as it came.
    pub open spec fn whole_filter(self, kimi: bool) -> Option<StreamFilterKind> {
        if kimi {
            Some(StreamFilterKind::Kimi)
        } else if self.route is Native && self.dsml == Some(StreamFilterKind::DsmlRewrite) {
            self.dsml
        } else {
            None
        }
    }

    pub open spec fn end(task: Inference) -> (InferencePhase, Inference) {
        (InferencePhase::Done, task)
    }

    pub open spec fn refuse(fault: InferenceFault) -> (InferencePhase, Inference) {
        Self::end(Inference::Send(fault_reply(fault)))
    }

    pub open spec fn next(self, event: InferenceEvent) -> (InferencePhase, Inference) {
        match event {
            InferenceEvent::Encoded(Err(fault)) => Self::refuse(fault),
            InferenceEvent::Encoded(Ok((body, model))) => {
                let kimi = names_kimi(self.route, model@);
                if !self.stream || is_foreign(self.route) {
                    (InferencePhase::Posting { kimi }, Inference::Post(body@))
                } else {
                    let filter = if kimi {
                        Some(StreamFilterKind::Kimi)
                    } else if self.route is Native {
                        self.dsml
                    } else {
                        None
                    };
                    (InferencePhase::Opening, Inference::Open { body: body@, filter })
                }
            },
            InferenceEvent::Posted(Err(error)) => Self::refuse(InferenceFault::Refused(error)),
            InferenceEvent::Posted(Ok(reply)) => if is_foreign(self.route) {
                match parsed_bytes(reply.body@) {
                    Ok(tree) => (InferencePhase::Translating, Inference::Translate(tree)),
                    Err(reason) => Self::end(Inference::Send(api_failure(502, reason))),
                }
            } else {
                match self.whole_filter(self.phase->kimi) {
                    Some(kind) => (
                        InferencePhase::Filtering {
                            status: reply.status,
                            content_type: reply.content_type,
                        },
                        Inference::Filter { kind, body: reply.body@ },
                    ),
                    None => Self::end(
                        Inference::Send(
                            passed_reply(reply.status, reply.content_type@, reply.body@),
                        ),
                    ),
                }
            },
            InferenceEvent::Opened(Err(error)) => Self::refuse(InferenceFault::Refused(error)),
            InferenceEvent::Opened(Ok(_)) => Self::end(Inference::Forward),
            InferenceEvent::Translated(Err(reason)) => Self::refuse(
                InferenceFault::UntranslatableReply(reason),
            ),
            InferenceEvent::Translated(Ok(text)) => if self.stream {
                Self::end(Inference::Replay(text@))
            } else {
                Self::end(Inference::Send(json_reply(200, "OK"@, Some(text@))))
            },
            InferenceEvent::Filtered(Err(reason)) => Self::refuse(
                InferenceFault::UntranslatableReply(reason),
            ),
            InferenceEvent::Filtered(Ok(body)) => Self::end(
                Inference::Send(
                    passed_reply(
                        self.phase->status,
                        self.phase->content_type@,
                        body@,
                    ),
                ),
            ),
        }
    }

    /// A request whose model was looked up. A rewrite needs a nonce.
    pub fn new(
        cfg: &GatewayConfig,
        route: InferenceRoute,
        stream: bool,
        has_tools: bool,
        has_nonce: bool,
    ) -> (run: InferenceRun)
        ensures
            run.route == route,
            run.stream == stream,
            run.dsml == dsml_filter_of(cfg.provider@, cfg.shim_mode@, has_tools, has_nonce),
            run.phase is Encoding,
    {
        let dsml = dsml_stream_filter(
            cfg.provider.as_str(),
            cfg.shim_mode.as_str(),
            has_tools,
            has_nonce,
        );
        InferenceRun { route, stream, dsml, phase: InferencePhase::Encoding }
    }

    fn is_foreign_route(&self) -> (yes: bool)
        ensures
            yes == is_foreign(self.route),
    {
        match self.route {
            InferenceRoute::OpenAiChat
            | InferenceRoute::OpenAiCustomChat
            | InferenceRoute::OpenAiResponses => true,
            InferenceRoute::Relay | InferenceRoute::Native => false,
        }
    }

    fn filter_of_whole(&self, kimi: bool) -> (filter: Option<StreamFilterKind>)
        ensures
            filter == self.whole_filter(kimi),
    {
        if kimi {
            return Some(StreamFilterKind::Kimi);
        }
        match (self.route, self.dsml) {
            (InferenceRoute::Native, Some(StreamFilterKind::DsmlRewrite)) => self.dsml,
            _ => None,
        }
    }

    /// Takes what came back, and says what to do next.
    pub fn step(&mut self, event: InferenceEvent) -> (task: InferenceTask)
        requires
            old(self).fits(event),
        ensures
            final(self).route == old(self).route,
            final(self).stream == old(self).stream,
            final(self).dsml == old(self).dsml,
            (final(self).phase, task@) == old(self).next(event),
    {
        let mut phase = InferencePhase::Done;
        core::mem::swap(&mut phase, &mut self.phase);
        match event {
            InferenceEvent::Encoded(Err(fault)) => {
                InferenceTask::Send(inference_fault_reply(&fault))
            },
            InferenceEvent::Encoded(Ok((body, model))) => {
                let kimi = match self.route {
                    InferenceRoute::Relay => is_kimi(model.as_str()),
                    _ => false,
                };
                if !self.stream || self.is_foreign_route() {
                    self.phase = InferencePhase::Posting { kimi };
                    InferenceTask::Post(body)
                } else {
                    let filter = if kimi {
                        Some(StreamFilterKind::Kimi)
                    } else if self.route == InferenceRoute::Native {
                        self.dsml
                    } else {
                        None
                    };
                    self.phase = InferencePhase::Opening;
                    InferenceTask::Open { body, filter }
                }
            },
            InferenceEvent::Posted(Err(error)) | InferenceEvent::Opened(Err(error)) => {
                InferenceTask::Send(inference_fault_reply(&InferenceFault::Refused(error)))
            },
            InferenceEvent::Posted(Ok(reply)) => {
                if self.is_foreign_route() {
                    match read_inference_reply(reply.body.as_slice()) {
                        Ok(json) => {
                            self.phase = InferencePhase::Translating;
                            InferenceTask::Translate(json)
                        },
                        Err(refusal) => InferenceTask::Send(refusal),
                    }
                } else {
                    let kimi = match phase {
                        InferencePhase::Posting { kimi } => kimi,
                        _ => false,
                    };
                    match self.filter_of_whole(kimi) {
                        Some(kind) => {
                            self.phase = InferencePhase::Filtering {
                                status: reply.status,
                                content_type: reply.content_type,
                            };
                            InferenceTask::Filter { kind, body: reply.body }
                        },
                        None => InferenceTask::Send(
                            pass_reply(reply.status, reply.content_type, reply.body),
                        ),
                    }
                }
            },
            InferenceEvent::Opened(Ok(_)) => InferenceTask::Forward,
            InferenceEvent::Translated(Err(reason)) | InferenceEvent::Filtered(Err(reason)) => {
                InferenceTask::Send(
                    inference_fault_reply(&InferenceFault::UntranslatableReply(reason)),
                )
            },
            InferenceEvent::Translated(Ok(text)) => {
                if self.stream {
                    InferenceTask::Replay(text)
                } else {
                    InferenceTask::Send(write_json(200, "OK", Some(text)))
                }
            },
            InferenceEvent::Filtered(Ok(body)) => {
                match phase {
                    InferencePhase::Filtering { status, content_type } => {
                        InferenceTask::Send(pass_reply(status, content_type, body))
                    },
                    _ => InferenceTask::Forward,
                }
            },
        }
    }
}

/// A request is sent to its provider at most once: only the translation is followed by a
/// post or a stream, and nothing leads back to it. A request that cannot be translated is
/// not sent at all.
pub proof fn law_requests_are_sent_once(run: InferenceRun, event: InferenceEvent)
    requires
        run.fits(event),
    ensures
        !(run.next(event).0 is Encoding),
        run.next(event).1 is Post || run.next(event).1 is Open ==> run.phase is Encoding && (event
            matches InferenceEvent::Encoded(Ok(_))),
        (event matches InferenceEvent::Encoded(Err(_))) ==> run.next(event).0 is Done && run.next(
            event,
        ).1 is Send,
{
}

/// A reply in other terms than the client's reaches the client only in translation.
pub proof fn law_foreign_replies_are_translated(run: InferenceRun, event: InferenceEvent)
    requires
        run.fits(event),
        is_foreign(run.route),
        event matches InferenceEvent::Posted(Ok(reply)) && parsed_bytes(reply.body@) is Ok,
    ensures
        run.next(event).0 is Translating,
        run.next(event).1 is Translate,
{
}

/// A provider's refusal is told to the client with the provider's status.
pub proof fn law_refusals_are_passed_on(
    run: InferenceRun,
    event: InferenceEvent,
    error: UpstreamError,
)
    requires
        run.fits(event),
        event == InferenceEvent::Posted(Err(error)) || event == InferenceEvent::Opened(Err(error)),
    ensures
        run.next(event) == (
            InferencePhase::Done,
            Inference::Send(api_failure(error.status, error.detail@)),
        ),
{
}

} // verus!
