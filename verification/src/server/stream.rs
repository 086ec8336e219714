//! Forwarding an event stream to a client.

use vstd::prelude::*;

use crate::server::reply::{error_event, stream_error_event};
use crate::text::str_eq;

verus! {

/// How a forwarded stream ended.
#[derive(Debug, Clone, Copy, PartialEq, Eq, Structural)]
pub enum StreamTermination {
    NormalEof,
    UpstreamTerminalError,
    UpstreamReadError,
    ProtocolError,
    DownstreamWriteError,
}

impl StreamTermination {
    /// The client is still there to be told that the reply is over.
    pub fn sends_last_chunk(self) -> (yes: bool)
        ensures
            yes == !(self is DownstreamWriteError),
    {
        match self {
            StreamTermination::DownstreamWriteError => false,
            _ => true,
        }
    }
}

/// What a filter does with a stream on its way.
#[derive(Debug, Clone, Copy, PartialEq, Eq, Structural)]
pub enum StreamFilterKind {
    Kimi,
    DsmlDetect,
    DsmlRewrite,
}

/// The filter that a DeepSeek stream needs. A rewrite needs a nonce to name tool calls
/// by.
pub open spec fn dsml_filter_of(
    provider: Seq<char>,
    shim_mode: Seq<char>,
    has_tools: bool,
    has_nonce: bool,
) -> Option<StreamFilterKind> {
    if provider != "deepseek"@ || !has_tools {
        None
    } else if shim_mode == "detect"@ {
        Some(StreamFilterKind::DsmlDetect)
    } else if shim_mode == "rewrite"@ && has_nonce {
        Some(StreamFilterKind::DsmlRewrite)
    } else {
        None
    }
}

pub fn dsml_stream_filter(provider: &str, shim_mode: &str, has_tools: bool, has_nonce: bool) -> (
filter: Option<StreamFilterKind>)
    ensures
        filter == dsml_filter_of(provider@, shim_mode@, has_tools, has_nonce),
{
    if !str_eq(provider, "deepseek") || !has_tools {
        return None;
    }
    proof {
        reveal_strlit("detect");
        reveal_strlit("rewrite");
        assert("detect"@.len() == 6 && "rewrite"@.len() == 7);
    }
    if str_eq(shim_mode, "detect") {
        Some(StreamFilterKind::DsmlDetect)
    } else if str_eq(shim_mode, "rewrite") && has_nonce {
        Some(StreamFilterKind::DsmlRewrite)
    } else {
        None
    }
}

/// What a validator let pass.
#[derive(Debug)]
pub struct Validated {
    pub bytes: Vec<u8>,
    pub terminal_error: bool,
}

/// What came back while a stream is forwarded.
pub enum ForwardEvent {
    Filtered(Result<Vec<u8>, ()>),
    Checked(Result<Validated, ()>),
    Emitted(bool),
    Read(Result<Vec<u8>, ()>),
    Finished(Result<Vec<u8>, ()>),
}

/// What to do next.
pub enum ForwardAction {
    Filter(Vec<u8>),
    FinishFilter,
    Check(Vec<u8>),
    FinishCheck,
    Emit(Vec<u8>),
    Read,
    Stop(StreamTermination),
}

/// What a [`ForwardAction`] says.
pub ghost enum Forward {
    Filter(Seq<u8>),
    FinishFilter,
    Check(Seq<u8>),
    FinishCheck,
    Emit(Seq<u8>),
    Read,
    Stop(StreamTermination),
}

impl View for ForwardAction {
    type V = Forward;

    open spec fn view(&self) -> Forward {
        match *self {
            ForwardAction::Filter(bytes) => Forward::Filter(bytes@),
            ForwardAction::FinishFilter => Forward::FinishFilter,
            ForwardAction::Check(bytes) => Forward::Check(bytes@),
            ForwardAction::FinishCheck => Forward::FinishCheck,
            ForwardAction::Emit(bytes) => Forward::Emit(bytes@),
            ForwardAction::Read => Forward::Read,
            ForwardAction::Stop(end) => Forward::Stop(end),
        }
    }
}

#[derive(Debug, Clone, Copy, PartialEq, Eq, Structural)]
pub enum ForwardPhase {
    /// The filter has a piece; `last` tells whether the stream is at its end.
    Filtering { last: bool },
    /// The validator has a piece.
    Checking { last: bool },
    /// The client is sent a piece; `terminal` tells whether it ends the stream.
    Emitting { last: bool, terminal: bool },
    /// The next piece is awaited.
    Reading,
    /// The validator is asked for its end.
    Finishing,
    /// The client is sent the last piece.
    Closing { end: StreamTermination },
    Done,
}

/// A stream that is being forwarded.
#[derive(Debug)]
pub struct StreamForward {
    pub has_filter: bool,
    pub phase: ForwardPhase,
}

pub open spec fn protocol_error_event() -> Seq<u8> {
    error_event("upstream SSE protocol error"@)
}

pub open spec fn read_error_event() -> Seq<u8> {
    error_event("upstream stream read failed"@)
}

impl StreamForward {
    /// Only a stream with a filter is filtered; and one that is being closed ends whole, cut
    /// short by the upstream or broken.
    pub open spec fn wf(self) -> bool {
        match self.phase {
            ForwardPhase::Filtering { .. } => self.has_filter,
            ForwardPhase::Closing { end } => end is NormalEof || end is UpstreamReadError
                || end is ProtocolError,
            _ => true,
        }
    }

    /// `event` answers what was asked last.
    pub open spec fn fits(self, event: ForwardEvent) -> bool {
        match self.phase {
            ForwardPhase::Filtering { .. } => event is Filtered,
            ForwardPhase::Checking { .. } => event is Checked,
            ForwardPhase::Emitting { .. } | ForwardPhase::Closing { .. } => event is Emitted,
            ForwardPhase::Reading => event is Read,
            ForwardPhase::Finishing => event is Finished,
            ForwardPhase::Done => false,
        }
    }

    /// What follows when a piece is out.
    pub open spec fn onward(self, last: bool, terminal: bool) -> (ForwardPhase, Forward) {
        if terminal {
            (ForwardPhase::Done, Forward::Stop(StreamTermination::UpstreamTerminalError))
        } else if last {
            (ForwardPhase::Finishing, Forward::FinishCheck)
        } else {
            (ForwardPhase::Reading, Forward::Read)
        }
    }

    /// What follows when a piece came in.
    pub open spec fn inward(self, bytes: Seq<u8>) -> (ForwardPhase, Forward) {
        if self.has_filter {
            (ForwardPhase::Filtering { last: false }, Forward::Filter(bytes))
        } else {
            (ForwardPhase::Checking { last: false }, Forward::Check(bytes))
        }
    }

    pub open spec fn closing(end: StreamTermination, bytes: Seq<u8>) -> (ForwardPhase, Forward) {
        (ForwardPhase::Closing { end }, Forward::Emit(bytes))
    }

    /// The next phase and what is done in it.
    pub open spec fn next(self, event: ForwardEvent) -> (ForwardPhase, Forward) {
        match (self.phase, event) {
            (ForwardPhase::Filtering { last }, ForwardEvent::Filtered(Ok(bytes))) => (
                ForwardPhase::Checking { last },
                Forward::Check(bytes@),
            ),
            (ForwardPhase::Checking { last }, ForwardEvent::Checked(Ok(validated))) =>
                if validated.bytes@.len() == 0 {
                self.onward(last, validated.terminal_error)
            } else {
                (
                    ForwardPhase::Emitting { last, terminal: validated.terminal_error },
                    Forward::Emit(validated.bytes@),
                )
            },
            (ForwardPhase::Emitting { last, terminal }, ForwardEvent::Emitted(true)) => self.onward(
                last,
                terminal,
            ),
            (ForwardPhase::Closing { end }, ForwardEvent::Emitted(true)) => (
                ForwardPhase::Done,
                Forward::Stop(end),
            ),
            (_, ForwardEvent::Emitted(false)) => (
                ForwardPhase::Done,
                Forward::Stop(StreamTermination::DownstreamWriteError),
            ),
            (_, ForwardEvent::Read(Ok(bytes))) => if bytes@.len() > 0 {
                self.inward(bytes@)
            } else if self.has_filter {
                (ForwardPhase::Filtering { last: true }, Forward::FinishFilter)
            } else {
                (ForwardPhase::Finishing, Forward::FinishCheck)
            },
            (_, ForwardEvent::Read(Err(_))) => Self::closing(
                StreamTermination::UpstreamReadError,
                read_error_event(),
            ),
            (_, ForwardEvent::Finished(Ok(bytes))) => if bytes@.len() == 0 {
                (ForwardPhase::Done, Forward::Stop(StreamTermination::NormalEof))
            } else {
                Self::closing(StreamTermination::NormalEof, bytes@)
            },
            _ => Self::closing(StreamTermination::ProtocolError, protocol_error_event()),
        }
    }

    /// Starts with a first piece, which may be empty.
    pub fn start(has_filter: bool, first: Vec<u8>) -> (started: (StreamForward, ForwardAction))
        ensures
            started.0.wf(),
            started.0.has_filter == has_filter,
            (started.0.phase, started.1@) == started.0.inward(first@),
    {
        if has_filter {
            (
                StreamForward { has_filter, phase: ForwardPhase::Filtering { last: false } },
                ForwardAction::Filter(first),
            )
        } else {
            (
                StreamForward { has_filter, phase: ForwardPhase::Checking { last: false } },
                ForwardAction::Check(first),
            )
        }
    }

    fn go_onward(&mut self, last: bool, terminal: bool) -> (action: ForwardAction)
        ensures
            final(self).has_filter == old(self).has_filter,
            (final(self).phase, action@) == old(self).onward(last, terminal),
    {
        if terminal {
            self.phase = ForwardPhase::Done;
            ForwardAction::Stop(StreamTermination::UpstreamTerminalError)
        } else if last {
            self.phase = ForwardPhase::Finishing;
            ForwardAction::FinishCheck
        } else {
            self.phase = ForwardPhase::Reading;
            ForwardAction::Read
        }
    }

    fn protocol_error(&mut self) -> (action: ForwardAction)
        ensures
            final(self).has_filter == old(self).has_filter,
            (final(self).phase, action@) == Self::closing(
                StreamTermination::ProtocolError,
                protocol_error_event(),
            ),
    {
        self.phase = ForwardPhase::Closing { end: StreamTermination::ProtocolError };
        ForwardAction::Emit(stream_error_event("upstream SSE protocol error"))
    }

    /// Takes what came back, and says what to do next.
    pub fn forward_stream_body(&mut self, event: ForwardEvent) -> (action: ForwardAction)
        requires
            old(self).wf(),
            old(self).fits(event),
        ensures
            final(self).wf(),
            final(self).has_filter == old(self).has_filter,
            (final(self).phase, action@) == old(self).next(event),
    {
        match (self.phase, event) {
            (ForwardPhase::Filtering { last }, ForwardEvent::Filtered(Ok(bytes))) => {
                self.phase = ForwardPhase::Checking { last };
                ForwardAction::Check(bytes)
            },
            (ForwardPhase::Checking { last }, ForwardEvent::Checked(Ok(validated))) => {
                if validated.bytes.len() == 0 {
                    self.go_onward(last, validated.terminal_error)
                } else {
                    self.phase =
                    ForwardPhase::Emitting { last, terminal: validated.terminal_error };
                    ForwardAction::Emit(validated.bytes)
                }
            },
            (ForwardPhase::Emitting { last, terminal }, ForwardEvent::Emitted(true)) => {
                self.go_onward(last, terminal)
            },
            (ForwardPhase::Closing { end }, ForwardEvent::Emitted(true)) => {
                self.phase = ForwardPhase::Done;
                ForwardAction::Stop(end)
            },
            (_, ForwardEvent::Emitted(false)) => {
                self.phase = ForwardPhase::Done;
                ForwardAction::Stop(StreamTermination::DownstreamWriteError)
            },
            (_, ForwardEvent::Read(Ok(bytes))) => {
                if bytes.len() > 0 {
                    if self.has_filter {
                        self.phase = ForwardPhase::Filtering { last: false };
                        ForwardAction::Filter(bytes)
                    } else {
                        self.phase = ForwardPhase::Checking { last: false };
                        ForwardAction::Check(bytes)
                    }
                } else if self.has_filter {
                    self.phase = ForwardPhase::Filtering { last: true };
                    ForwardAction::FinishFilter
                } else {
                    self.phase = ForwardPhase::Finishing;
                    ForwardAction::FinishCheck
                }
            },
            (_, ForwardEvent::Read(Err(_))) => {
                self.phase = ForwardPhase::Closing { end: StreamTermination::UpstreamReadError };
                ForwardAction::Emit(stream_error_event("upstream stream read failed"))
            },
            (_, ForwardEvent::Finished(Ok(bytes))) => {
                if bytes.len() == 0 {
                    self.phase = ForwardPhase::Done;
                    ForwardAction::Stop(StreamTermination::NormalEof)
                } else {
                    self.phase = ForwardPhase::Closing { end: StreamTermination::NormalEof };
                    ForwardAction::Emit(bytes)
                }
            },
            _ => self.protocol_error(),
        }
    }
}

/// Once a write to the client failed, nothing more is read, filtered or written.
pub proof fn law_write_failure_stops_forwarding(forward: StreamForward)
    requires
        forward.fits(ForwardEvent::Emitted(false)),
    ensures
        forward.next(ForwardEvent::Emitted(false)) == (
            ForwardPhase::Done,
            Forward::Stop(StreamTermination::DownstreamWriteError),
        ),
{
}

/// The filter is asked for its end only where the upstream ended cleanly. What it still
/// holds back when a read fails is never sent.
pub proof fn law_filter_ends_only_at_clean_eof(forward: StreamForward, event: ForwardEvent)
    requires
        forward.fits(event),
        forward.next(event).1 is FinishFilter,
    ensures
        event matches ForwardEvent::Read(Ok(bytes)) && bytes@.len() == 0,
        forward.has_filter,
{
}

/// An error event is the last thing that is sent.
pub proof fn law_error_event_is_last(forward: StreamForward, event: ForwardEvent, sent: bool)
    requires
        forward.fits(event),
        forward.next(event).0 matches ForwardPhase::Closing { end },
    ensures
        ({
            let closing = StreamForward {
                has_filter: forward.has_filter,
                phase: forward.next(event).0,
            };
            closing.next(ForwardEvent::Emitted(sent)).1 is Stop && closing.next(
                ForwardEvent::Emitted(sent),
            ).0 is Done
        }),
{
}

/// A stream that was cut short is not reported as complete: only a validator that finds
/// the stream whole leads to a normal end.
pub proof fn law_normal_end_needs_whole_stream(forward: StreamForward, event: ForwardEvent)
    requires
        forward.fits(event),
        forward.next(event).1 == Forward::Stop(StreamTermination::NormalEof),
    ensures
        (event matches ForwardEvent::Finished(Ok(_))) || forward.phase == (ForwardPhase::Closing {
            end: StreamTermination::NormalEof,
        }),
{
}

} // verus!
