//! Reading a reply of Codex event by event.

use vstd::prelude::*;

use crate::lists::reversed;

verus! {

/// How reading a reply ended.
#[derive(Debug, Clone, Copy, PartialEq, Eq, Structural)]
pub enum PumpEnd {
    Completed,
    UpstreamRead,
    Protocol,
    DownstreamWrite,
    Cancelled,
    DownstreamClosed,
}

#[derive(Debug, Clone, Copy, PartialEq, Eq, Structural)]
pub enum CodexPumpError {
    UpstreamRead,
    Protocol,
    DownstreamWrite,
    Cancelled,
}

#[derive(Debug, Clone, Copy, PartialEq, Eq, Structural)]
pub enum CodexNonstreamError {
    UpstreamRead,
    Protocol,
    DownstreamClosed,
}

#[derive(Debug, Clone, Copy, PartialEq, Eq, Structural)]
pub enum CodexStreamOutcome {
    Completed,
    Failed,
    Cancelled,
}

impl PumpEnd {
    /// The end of a reply that was passed on as it came.
    pub fn streamed(self) -> (result: Result<(), CodexPumpError>)
        ensures
            match self {
                PumpEnd::Completed => result is Ok,
                PumpEnd::UpstreamRead => result == Err::<(), _>(CodexPumpError::UpstreamRead),
                PumpEnd::Protocol => result == Err::<(), _>(CodexPumpError::Protocol),
                PumpEnd::DownstreamWrite => result == Err::<(), _>(CodexPumpError::DownstreamWrite),
                PumpEnd::Cancelled | PumpEnd::DownstreamClosed => result == Err::<(), _>(
                    CodexPumpError::Cancelled,
                ),
            },
    {
        match self {
            PumpEnd::Completed => Ok(()),
            PumpEnd::UpstreamRead => Err(CodexPumpError::UpstreamRead),
            PumpEnd::Protocol => Err(CodexPumpError::Protocol),
            PumpEnd::DownstreamWrite => Err(CodexPumpError::DownstreamWrite),
            PumpEnd::Cancelled | PumpEnd::DownstreamClosed => Err(CodexPumpError::Cancelled),
        }
    }

    /// The end of a reply that was collected first.
    pub fn collected(self) -> (result: Result<(), CodexNonstreamError>)
        ensures
            match self {
                PumpEnd::Completed => result is Ok,
                PumpEnd::UpstreamRead => result == Err::<(), _>(CodexNonstreamError::UpstreamRead),
                PumpEnd::Protocol => result == Err::<(), _>(CodexNonstreamError::Protocol),
                PumpEnd::DownstreamWrite | PumpEnd::Cancelled | PumpEnd::DownstreamClosed => result
                    == Err::<(), _>(CodexNonstreamError::DownstreamClosed),
            },
    {
        match self {
            PumpEnd::Completed => Ok(()),
            PumpEnd::UpstreamRead => Err(CodexNonstreamError::UpstreamRead),
            PumpEnd::Protocol => Err(CodexNonstreamError::Protocol),
            PumpEnd::DownstreamWrite | PumpEnd::Cancelled | PumpEnd::DownstreamClosed => Err(
                CodexNonstreamError::DownstreamClosed,
            ),
        }
    }
}

/// What a client that is sent a stream is told at its end: whether an error event and
/// whether a last chunk is sent, and what the request came to.
pub fn forward_codex_stream(end: Result<(), CodexPumpError>) -> (told: (
    bool,
    bool,
    CodexStreamOutcome,
))
    ensures
        told == (match end {
            Ok(_) => (false, true, CodexStreamOutcome::Completed),
            Err(CodexPumpError::DownstreamWrite) | Err(CodexPumpError::Cancelled) => (
                false,
                false,
                CodexStreamOutcome::Cancelled,
            ),
            Err(CodexPumpError::UpstreamRead) | Err(CodexPumpError::Protocol) => (
                true,
                true,
                CodexStreamOutcome::Failed,
            ),
        }),
{
    match end {
        Ok(_) => (false, true, CodexStreamOutcome::Completed),
        Err(CodexPumpError::DownstreamWrite) | Err(CodexPumpError::Cancelled) => (
            false,
            false,
            CodexStreamOutcome::Cancelled,
        ),
        Err(CodexPumpError::UpstreamRead) | Err(CodexPumpError::Protocol) => (
            true,
            true,
            CodexStreamOutcome::Failed,
        ),
    }
}

/// Whether a client is gone. `received` is what looking for one more byte of it came to;
/// `passing` tells whether a failure was a passing one.
pub fn downstream_closed(received: i64, passing: bool) -> (closed: bool)
    ensures
        closed == (received == 0 || (received < 0 && !passing)),
{
    received == 0 || (received < 0 && !passing)
}

/// Why a read brought nothing.
#[derive(Debug, Clone, Copy, PartialEq, Eq, Structural)]
pub struct ReadFault {
    pub aborted: bool,
    pub downstream_closed: bool,
}

/// What came back. `E` is an event of the reply.
pub enum PumpEvent<E> {
    /// The client was gone before a read.
    Closed,
    Read(Result<Vec<u8>, ReadFault>),
    /// An event, if there was a whole one, and how many bytes it took.
    Decoded(Result<(Option<E>, usize), ()>),
    /// What an event means for the client, and whether the reply is complete with it.
    Applied(Result<(Vec<Vec<u8>>, bool), ()>),
    Emitted(bool),
    DecoderEnded(Result<Vec<E>, ()>),
    ReducerEnded(Result<(), ()>),
}

/// What to do next.
pub enum PumpAction<E> {
    Read,
    Decode(Vec<u8>),
    Apply(E),
    Emit(Vec<u8>),
    EndDecoder,
    EndReducer,
    Stop(PumpEnd),
}

/// What a [`PumpAction`] says.
pub ghost enum PumpTask<E> {
    Read,
    Decode(Seq<u8>),
    Apply(E),
    Emit(Seq<u8>),
    EndDecoder,
    EndReducer,
    Stop(PumpEnd),
}

impl<E> PumpAction<E> {
    pub open spec fn says(self) -> PumpTask<E> {
        match self {
            PumpAction::Read => PumpTask::Read,
            PumpAction::Decode(bytes) => PumpTask::Decode(bytes@),
            PumpAction::Apply(event) => PumpTask::Apply(event),
            PumpAction::Emit(bytes) => PumpTask::Emit(bytes@),
            PumpAction::EndDecoder => PumpTask::EndDecoder,
            PumpAction::EndReducer => PumpTask::EndReducer,
            PumpAction::Stop(end) => PumpTask::Stop(end),
        }
    }
}

#[derive(Debug, Clone, Copy, PartialEq, Eq, Structural)]
pub enum PumpPhase {
    Reading,
    Decoding,
    Applying,
    Emitting,
    EndingDecoder,
    EndingReducer,
    Done,
}

pub open spec fn byte_views(list: Seq<Vec<u8>>) -> Seq<Seq<u8>> {
    Seq::new(list.len(), |i: int| list[i]@)
}

/// What a [`CodexPump`] knows.
pub ghost struct Pump<E> {
    pub collect: bool,
    pub phase: PumpPhase,
    /// What was read and not decoded yet.
    pub rest: Seq<u8>,
    /// The upstream has ended.
    pub at_tail: bool,
    /// The events that the end brought.
    pub queue: Seq<E>,
    /// What the client is still to be sent.
    pub pending: Seq<Seq<u8>>,
    /// The reply is complete with what is pending.
    pub complete: bool,
}

impl<E> Pump<E> {
    pub open spec fn in_phase(self, phase: PumpPhase) -> Pump<E> {
        Pump { phase, ..self }
    }

    pub open spec fn stop(self, end: PumpEnd) -> (Pump<E>, PumpTask<E>) {
        (self.in_phase(PumpPhase::Done), PumpTask::Stop(end))
    }

    /// On to the next event.
    pub open spec fn proceed(self) -> (Pump<E>, PumpTask<E>) {
        if self.at_tail {
            if self.queue.len() == 0 {
                (self.in_phase(PumpPhase::EndingReducer), PumpTask::EndReducer)
            } else {
                (
                    Pump { phase: PumpPhase::Applying, queue: self.queue.skip(1), ..self },
                    PumpTask::Apply(self.queue[0]),
                )
            }
        } else if self.rest.len() > 0 {
            (self.in_phase(PumpPhase::Decoding), PumpTask::Decode(self.rest))
        } else {
            (self.in_phase(PumpPhase::Reading), PumpTask::Read)
        }
    }

    /// On with what the client is to be sent.
    pub open spec fn deliver(self) -> (Pump<E>, PumpTask<E>) {
        if self.pending.len() > 0 {
            (
                Pump { phase: PumpPhase::Emitting, pending: self.pending.skip(1), ..self },
                PumpTask::Emit(self.pending[0]),
            )
        } else if self.complete {
            self.stop(PumpEnd::Completed)
        } else {
            self.proceed()
        }
    }

    pub open spec fn fits(self, event: PumpEvent<E>) -> bool {
        match self.phase {
            PumpPhase::Reading => event is Read || (event is Closed && self.collect),
            PumpPhase::Decoding => event matches PumpEvent::Decoded(result) && (
            result matches Ok((_, consumed)) ==> consumed <= self.rest.len()),
            PumpPhase::Applying => event is Applied,
            PumpPhase::Emitting => event is Emitted,
            PumpPhase::EndingDecoder => event is DecoderEnded,
            PumpPhase::EndingReducer => event is ReducerEnded,
            PumpPhase::Done => false,
        }
    }

    pub open spec fn next(self, event: PumpEvent<E>) -> (Pump<E>, PumpTask<E>) {
        match event {
            PumpEvent::Closed => self.stop(PumpEnd::DownstreamClosed),
            PumpEvent::Read(Ok(bytes)) => if bytes@.len() == 0 {
                (self.in_phase(PumpPhase::EndingDecoder), PumpTask::EndDecoder)
            } else {
                Pump { rest: bytes@, ..self }.proceed()
            },
            PumpEvent::Read(Err(fault)) => self.stop(
                if self.collect && (fault.aborted || fault.downstream_closed) {
                    PumpEnd::DownstreamClosed
                } else if fault.aborted {
                    PumpEnd::Cancelled
                } else {
                    PumpEnd::UpstreamRead
                },
            ),
            PumpEvent::Decoded(Ok((event, consumed))) => {
                let rest = self.rest.skip(consumed as int);
                match event {
                    Some(event) => (
                        Pump { phase: PumpPhase::Applying, rest, ..self },
                        PumpTask::Apply(event),
                    ),
                    None => Pump { rest, ..self }.proceed(),
                }
            },
            PumpEvent::Applied(Ok((translated, complete))) => Pump {
                pending: if self.collect {
                    Seq::empty()
                } else {
                    byte_views(translated@)
                },
                complete,
                ..self
            }.deliver(),
            PumpEvent::Emitted(true) => self.deliver(),
            PumpEvent::Emitted(false) => self.stop(PumpEnd::DownstreamWrite),
            PumpEvent::DecoderEnded(Ok(events)) => Pump {
                at_tail: true,
                queue: events@,
                ..self
            }.proceed(),
            PumpEvent::ReducerEnded(Ok(_)) => self.stop(PumpEnd::Completed),
            _ => self.stop(PumpEnd::Protocol),
        }
    }
}

/// Reads a reply event by event. A reply that is collected first is not sent on as it
/// comes; instead the client is looked after before every read.
pub struct CodexPump<E> {
    pub collect: bool,
    pub phase: PumpPhase,
    pub rest: Vec<u8>,
    pub at_tail: bool,
    /// The next event is the last one.
    pub queue: Vec<E>,
    /// The next piece is the last one.
    pub pending: Vec<Vec<u8>>,
    pub complete: bool,
}

impl<E> View for CodexPump<E> {
    type V = Pump<E>;

    open spec fn view(&self) -> Pump<E> {
        Pump {
            collect: self.collect,
            phase: self.phase,
            rest: self.rest@,
            at_tail: self.at_tail,
            queue: self.queue@.reverse(),
            pending: byte_views(self.pending@.reverse()),
            complete: self.complete,
        }
    }
}

fn bytes_from(bytes: &Vec<u8>, from: usize) -> (rest: Vec<u8>)
    requires
        from <= bytes@.len(),
    ensures
        rest@ == bytes@.skip(from as int),
{
    let mut rest: Vec<u8> = Vec::new();
    crate::text::append_bytes(
        &mut rest,
        vstd::slice::slice_subrange(bytes.as_slice(), from, bytes.len()),
    );
    assert(rest@ =~= bytes@.skip(from as int));
    rest
}

impl<E> CodexPump<E> {
    /// The first thing to do is to read.
    pub fn new(collect: bool) -> (pump: CodexPump<E>)
        ensures
            pump@.collect == collect,
            pump@.phase is Reading,
            pump@.rest.len() == 0,
            !pump@.at_tail,
            pump@.queue.len() == 0,
            pump@.pending.len() == 0,
            !pump@.complete,
    {
        CodexPump {
            collect,
            phase: PumpPhase::Reading,
            rest: Vec::new(),
            at_tail: false,
            queue: Vec::new(),
            pending: Vec::new(),
            complete: false,
        }
    }

    fn stop(&mut self, end: PumpEnd) -> (action: PumpAction<E>)
        ensures
            (final(self)@, action.says()) == old(self)@.stop(end),
    {
        self.phase = PumpPhase::Done;
        PumpAction::Stop(end)
    }

    fn proceed(&mut self) -> (action: PumpAction<E>)
        ensures
            (final(self)@, action.says()) == old(self)@.proceed(),
    {
        if self.at_tail {
            match self.queue.pop() {
                None => {
                    self.phase = PumpPhase::EndingReducer;
                    PumpAction::EndReducer
                },
                Some(event) => {
                    self.phase = PumpPhase::Applying;
                    assert(self.queue@.reverse() =~= old(self).queue@.reverse().skip(1));
                    PumpAction::Apply(event)
                },
            }
        } else if self.rest.len() > 0 {
            self.phase = PumpPhase::Decoding;
            let rest = bytes_from(&self.rest, 0);
            assert(rest@ =~= self.rest@);
            PumpAction::Decode(rest)
        } else {
            self.phase = PumpPhase::Reading;
            PumpAction::Read
        }
    }

    fn deliver(&mut self) -> (action: PumpAction<E>)
        ensures
            (final(self)@, action.says()) == old(self)@.deliver(),
    {
        if let Some(bytes) = self.pending.pop() {
            self.phase = PumpPhase::Emitting;
            assert(byte_views(self.pending@.reverse()) =~= byte_views(
                old(self).pending@.reverse(),
            ).skip(1));
            PumpAction::Emit(bytes)
        } else if self.complete {
            self.stop(PumpEnd::Completed)
        } else {
            self.proceed()
        }
    }

    /// Takes what came back, and says what to do next.
    pub fn pump_codex_stream(&mut self, event: PumpEvent<E>) -> (action: PumpAction<E>)
        requires
            old(self)@.fits(event),
        ensures
            (final(self)@, action.says()) == old(self)@.next(event),
    {
        match event {
            PumpEvent::Closed => self.stop(PumpEnd::DownstreamClosed),
            PumpEvent::Read(Ok(bytes)) => {
                if bytes.len() == 0 {
                    self.phase = PumpPhase::EndingDecoder;
                    PumpAction::EndDecoder
                } else {
                    self.rest = bytes;
                    self.proceed()
                }
            },
            PumpEvent::Read(Err(fault)) => {
                if self.collect && (fault.aborted || fault.downstream_closed) {
                    self.stop(PumpEnd::DownstreamClosed)
                } else if fault.aborted {
                    self.stop(PumpEnd::Cancelled)
                } else {
                    self.stop(PumpEnd::UpstreamRead)
                }
            },
            PumpEvent::Decoded(Ok((event, consumed))) => {
                self.rest = bytes_from(&self.rest, consumed);
                match event {
                    Some(event) => {
                        self.phase = PumpPhase::Applying;
                        PumpAction::Apply(event)
                    },
                    None => self.proceed(),
                }
            },
            PumpEvent::Applied(Ok((translated, complete))) => {
                if self.collect {
                    self.pending = Vec::new();
                    assert(byte_views(self.pending@.reverse()) =~= Seq::empty());
                } else {
                    self.pending = reversed(translated);
                    assert(self.pending@.reverse() =~= translated@);
                }
                self.complete = complete;
                self.deliver()
            },
            PumpEvent::Emitted(true) => self.deliver(),
            PumpEvent::Emitted(false) => self.stop(PumpEnd::DownstreamWrite),
            PumpEvent::DecoderEnded(Ok(events)) => {
                self.at_tail = true;
                self.queue = reversed(events);
                assert(self.queue@.reverse() =~= events@);
                self.proceed()
            },
            PumpEvent::ReducerEnded(Ok(_)) => self.stop(PumpEnd::Completed),
            _ => self.stop(PumpEnd::Protocol),
        }
    }
}

/// Once a write to the client failed, the upstream is not read again.
pub proof fn law_write_failure_stops_reading<E>(pump: Pump<E>)
    ensures
        pump.next(PumpEvent::Emitted(false)) == pump.stop(PumpEnd::DownstreamWrite),
{
}

/// An event that completes the reply ends it: what follows in the stream is not read,
/// decoded or applied.
pub proof fn law_terminal_event_stops_reading<E>(pump: Pump<E>, translated: Vec<Vec<u8>>)
    requires
        pump.collect || translated@.len() == 0,
    ensures
        pump.next(PumpEvent::Applied(Ok((translated, true)))).1 == PumpTask::<E>::Stop(
            PumpEnd::Completed,
        ),
{
}

/// The same for a reply that is passed on: after an event that completes it, all that is
/// still done is to send what the event means.
pub proof fn law_terminal_event_is_delivered<E>(pump: Pump<E>, sent: bool)
    requires
        pump.complete,
        pump.phase is Emitting,
    ensures
        ({
            let (after, task) = pump.next(PumpEvent::Emitted(sent));
            task is Stop || (task is Emit && after.complete && after.phase is Emitting
                && after.pending.len() < pump.pending.len())
        }),
{
}

/// A client that is gone before a read keeps the upstream from being read.
pub proof fn law_closed_client_stops_collecting<E>(pump: Pump<E>)
    requires
        pump.collect,
        pump.phase is Reading,
    ensures
        pump.fits(PumpEvent::Closed),
        pump.next(PumpEvent::Closed) == pump.stop(PumpEnd::DownstreamClosed),
{
}

} // verus!
