//! One caller request to an API-key provider: posts, waits and the end of it.

use vstd::prelude::*;

use crate::config::GatewayConfig;
use crate::messages::AttemptMode;
use crate::provider_failure::{
    AttemptController, AttemptDiagnostic, AttemptDirective, AttemptOutcome, AttemptPhase,
    AttemptSnapshot, AttemptState, FailureObservation, ProtocolKind, ProviderFailure, RouteContext,
    TransitionError,
};
use crate::text::{quoted, quoted_text};
use vstd::string::*;

verus! {

pub struct ApiKeyAttemptSequence;

/// Sends a request body to the provider once. The transport goes into the call and
/// comes back as the call left it.
pub trait ApiKeyTransport: Sized {
    type Opened;

    fn post_once(self, body: &[u8], mode: AttemptMode) -> (sent: (
        Self,
        Result<Self::Opened, FailureObservation>,
    ));
}

/// The caller's side of a request: whether it is still wanted, and the clock.
pub trait AttemptRuntime: Sized {
    fn cancelled(self) -> (asked: (Self, bool));

    /// Waits, and returns whether the request is still wanted afterwards.
    fn wait(self, delay_ms: u64) -> (waited: (Self, bool));
}

/// A request whose reply has begun.
pub struct OpenedAttempt<O> {
    pub opened: O,
    pub controller: AttemptController,
}

/// A request that has ended without a reply to pass on.
pub struct TerminalAttempt {
    pub failure: Option<ProviderFailure>,
    pub controller: AttemptController,
}

pub enum OpenResult<O> {
    Opened(OpenedAttempt<O>),
    Failed(TerminalAttempt),
    Cancelled(TerminalAttempt),
}

impl<O> OpenedAttempt<O> {
    pub open spec fn state(self) -> AttemptState {
        self.controller@
    }
}

impl TerminalAttempt {
    pub open spec fn state(self) -> AttemptState {
        self.controller@
    }
}

impl<O> OpenResult<O> {
    pub open spec fn state(self) -> AttemptState {
        match self {
            OpenResult::Opened(attempt) => attempt.state(),
            OpenResult::Failed(attempt) => attempt.state(),
            OpenResult::Cancelled(attempt) => attempt.state(),
        }
    }

    /// The variant and what it carries agree with the state.
    pub open spec fn wf(self) -> bool {
        &&& self.state().wf()
        &&& match self {
            OpenResult::Opened(_) => self.state().phase is UpstreamOpen,
            OpenResult::Failed(attempt) => {
                &&& self.state().phase == AttemptPhase::TerminalPending(AttemptOutcome::Failed)
                &&& attempt.failure is Some
            },
            OpenResult::Cancelled(attempt) => {
                &&& self.state().phase == AttemptPhase::TerminalPending(AttemptOutcome::Cancelled)
                &&& attempt.failure is None
            },
        }
    }
}

/// What one reply leads to.
pub enum AttemptStep<O> {
    Done(OpenResult<O>),
    WaitThenPost { delay_ms: u64, controller: AttemptController },
}

impl<O> AttemptStep<O> {
    /// Whether this is what `reply` leads to for a request in flight.
    pub open spec fn follows(self, state: AttemptState, reply: Result<O, FailureObservation>) -> bool {
        match reply {
            Ok(opened) => {
                &&& self matches AttemptStep::Done(OpenResult::Opened(attempt))
                &&& attempt.opened == opened
                &&& state.opened() == Ok::<AttemptState, TransitionError>(attempt.state())
                &&& attempt.state().wf()
            },
            Err(observation) => match state.observed(observation) {
                Ok((next, AttemptDirective::RetryAfter(delay))) => {
                    &&& self matches AttemptStep::WaitThenPost { delay_ms, controller: waiting }
                    &&& delay_ms == delay
                    &&& waiting@ == next
                    &&& waiting.wf()
                },
                Ok((next, AttemptDirective::Fail(failure))) => {
                    &&& self matches AttemptStep::Done(OpenResult::Failed(attempt))
                    &&& attempt.failure == Some(failure)
                    &&& attempt.state() == next
                    &&& attempt.state().wf()
                },
                Ok((next, AttemptDirective::Cancel)) => {
                    &&& self matches AttemptStep::Done(OpenResult::Cancelled(attempt))
                    &&& attempt.failure is None
                    &&& attempt.state() == next
                    &&& attempt.state().wf()
                },
                Ok((next, AttemptDirective::RepairOnce(_))) => {
                    &&& self matches AttemptStep::Done(OpenResult::Failed(attempt))
                    &&& attempt.failure == Some(
                        ProviderFailure::of(
                            state.context,
                            FailureObservation::Protocol(ProtocolKind::InvalidResponse),
                            false,
                        ),
                    )
                    &&& attempt.state() == next.ended(AttemptOutcome::Failed)
                    &&& attempt.state().wf()
                },
                Err(_) => false,
            },
        }
    }
}

/// Whether a request in `state` may end with `end` after at most `posts` posts of
/// `body`: before each post the runtime is asked whether the request is still
/// wanted, each post goes through the transport as the one before it left it, and
/// between two posts lies exactly the wait that the controller asked for.
pub open spec fn may_end<T: ApiKeyTransport, R: AttemptRuntime>(
    posts: nat,
    state: AttemptState,
    body: &[u8],
    mode: AttemptMode,
    transport: T,
    runtime: R,
    end: (OpenResult<T::Opened>, T, R),
) -> bool
    decreases posts,
{
    exists|asked: (R, bool)| #[trigger]
        call_ensures(R::cancelled, (runtime,), asked) && if asked.1 {
            &&& end.1 == transport
            &&& end.2 == asked.0
            &&& abandoned(state, end.0)
        } else {
            posts > 0 && exists|sent: (T, Result<T::Opened, FailureObservation>)| #[trigger]
                call_ensures(T::post_once, (transport, body, mode), sent) && exists|
                    step: AttemptStep<T::Opened>,
                | #[trigger]
                    step.follows(state.posted()->Ok_0, sent.1) && match step {
                        AttemptStep::Done(result) => {
                            &&& end.0 == result
                            &&& end.1 == sent.0
                            &&& end.2 == asked.0
                        },
                        AttemptStep::WaitThenPost { delay_ms, controller } => exists|
                            waited: (R, bool),
                        | #[trigger]
                            call_ensures(R::wait, (asked.0, delay_ms), waited) && if waited.1 {
                                may_end(
                                    (posts - 1) as nat,
                                    controller@,
                                    body,
                                    mode,
                                    sent.0,
                                    waited.0,
                                    end,
                                )
                            } else {
                                &&& end.1 == sent.0
                                &&& end.2 == waited.0
                                &&& abandoned(controller@, end.0)
                            },
                    }
        }
}

/// Whether `result` is that of a request which the caller gave up in `state`.
pub open spec fn abandoned<O>(state: AttemptState, result: OpenResult<O>) -> bool {
    &&& result is Cancelled
    &&& result.wf()
    &&& result.state() == state.ended(AttemptOutcome::Cancelled)
}

impl ApiKeyAttemptSequence {
    /// The request in flight got `reply`.
    pub fn after_reply<O>(
        controller: AttemptController,
        reply: Result<O, FailureObservation>,
    ) -> (step: AttemptStep<O>)
        requires
            controller.wf(),
            controller@.phase is InFlight,
        ensures
            step.follows(controller@, reply),
    {
        let mut controller = controller;
        let context = controller.context().clone();
        match reply {
            Ok(opened) => {
                let _ = controller.mark_response_started();
                AttemptStep::Done(OpenResult::Opened(OpenedAttempt { opened, controller }))
            },
            Err(observation) => match controller.observe(observation) {
                Ok(AttemptDirective::RetryAfter(delay_ms)) => {
                    AttemptStep::WaitThenPost { delay_ms, controller }
                },
                Ok(AttemptDirective::Fail(failure)) => {
                    AttemptStep::Done(
                        OpenResult::Failed(TerminalAttempt { failure: Some(failure), controller }),
                    )
                },
                Ok(AttemptDirective::Cancel) => {
                    AttemptStep::Done(
                        OpenResult::Cancelled(TerminalAttempt { failure: None, controller }),
                    )
                },
                // Repair is never enabled on this route; a directive to repair fails closed.
                Ok(AttemptDirective::RepairOnce(_)) => {
                    let failure = ProviderFailure::from_observation(
                        &context,
                        &FailureObservation::Protocol(ProtocolKind::InvalidResponse),
                        false,
                    );
                    let _ = controller.internal_terminal_failure();
                    AttemptStep::Done(
                        OpenResult::Failed(TerminalAttempt { failure: Some(failure), controller }),
                    )
                },
                Err(_) => AttemptStep::Done(
                    OpenResult::Cancelled(TerminalAttempt { failure: None, controller }),
                ),
            },
        }
    }

    /// The caller no longer wants the request.
    pub fn abandon<O>(controller: AttemptController) -> (result: OpenResult<O>)
        requires
            controller.wf(),
            !controller@.phase.is_over(),
        ensures
            abandoned(controller@, result),
    {
        let mut controller = controller;
        let _ = controller.observe(FailureObservation::Cancelled);
        OpenResult::Cancelled(TerminalAttempt { failure: None, controller })
    }

    /// Posts `body` until a reply begins, the request fails for good or the caller
    /// gives up. Every post carries the same body, and between two posts lies
    /// exactly the wait that the controller asked for.
    pub fn open<T: ApiKeyTransport, R: AttemptRuntime>(
        context: RouteContext,
        body: &[u8],
        mode: AttemptMode,
        transport: T,
        runtime: R,
    ) -> (end: (OpenResult<T::Opened>, T, R))
        requires
            1 <= context.retry_policy.max_posts,
            context.retry_policy.wf(),
        ensures
            end.0.wf(),
            end.0.state().context == context,
            end.0.state().repairs == 0,
            may_end(
                context.retry_policy.max_posts as nat,
                AttemptState::initial(context, false),
                body,
                mode,
                transport,
                runtime,
                end,
            ),
    {
        let controller = AttemptController::new(context, false);
        Self::open_with_controller(controller, body, mode, transport, runtime)
    }

    /// Does what [`Self::open`] does, with a controller that has not posted yet.
    pub fn open_with_controller<T: ApiKeyTransport, R: AttemptRuntime>(
        start: AttemptController,
        body: &[u8],
        mode: AttemptMode,
        transport: T,
        runtime: R,
    ) -> (end: (OpenResult<T::Opened>, T, R))
        requires
            start.wf(),
            start@.phase is Ready,
            1 <= start@.context.retry_policy.max_posts,
        ensures
            end.0.wf(),
            end.0.state().context == start@.context,
            !start@.repair_enabled ==> end.0.state().repairs == 0,
            may_end(
                start@.context.retry_policy.max_posts as nat,
                start@,
                body,
                mode,
                transport,
                runtime,
                end,
            ),
    {
        Self::open_from(start, body, mode, transport, runtime)
    }

    /// Goes on with a request that may post again.
    fn open_from<T: ApiKeyTransport, R: AttemptRuntime>(
        controller: AttemptController,
        body: &[u8],
        mode: AttemptMode,
        transport: T,
        runtime: R,
    ) -> (end: (OpenResult<T::Opened>, T, R))
        requires
            controller.wf(),
            controller@.phase is Ready || controller@.phase is RetryAuthorized,
            controller@.repairs == 0,
            controller@.posts < controller@.context.retry_policy.max_posts,
        ensures
            end.0.wf(),
            end.0.state().context == controller@.context,
            !controller@.repair_enabled ==> end.0.state().repairs == 0,
            may_end(
                (controller@.context.retry_policy.max_posts - controller@.posts) as nat,
                controller@,
                body,
                mode,
                transport,
                runtime,
                end,
            ),
        decreases controller@.context.retry_policy.max_posts - controller@.posts,
    {
        let ghost state = controller@;
        let (runtime, cancelled) = runtime.cancelled();
        if cancelled {
            return (Self::abandon(controller), transport, runtime);
        }
        let mut controller = controller;
        let _ = controller.begin_post();
        let (transport, reply) = transport.post_once(body, mode);
        let ghost given = reply;
        let step = Self::after_reply(controller, reply);
        assert(step.follows(state.posted()->Ok_0, given));
        match step {
            AttemptStep::Done(result) => (result, transport, runtime),
            AttemptStep::WaitThenPost { delay_ms, controller: waiting } => {
                let (runtime, wanted) = runtime.wait(delay_ms);
                if !wanted {
                    return (Self::abandon(waiting), transport, runtime);
                }
                Self::open_from(waiting, body, mode, transport, runtime)
            },
        }
    }
}

impl<O> OpenedAttempt<O> {
    /// The reply broke off. It cannot be asked for again.
    pub fn fail_after_open(self, observation: FailureObservation) -> (attempt: TerminalAttempt)
        requires
            self.state().wf(),
            self.state().phase is UpstreamOpen,
            !(observation is Cancelled),
        ensures
            attempt.failure == Some(
                ProviderFailure::of(self.state().context, observation, false),
            ),
            attempt.state() == self.state().ended(AttemptOutcome::Failed),
            attempt.state().wf(),
    {
        let mut controller = self.controller;
        let failure = match controller.observe(observation) {
            Ok(AttemptDirective::Fail(failure)) => Some(failure),
            _ => None,
        };
        TerminalAttempt { failure, controller }
    }

    pub fn completed_diagnostic(&mut self) -> (result: Result<AttemptDiagnostic, TransitionError>)
        requires
            old(self).state().wf(),
        ensures
            final(self).state().wf(),
            final(self).opened == old(self).opened,
            if old(self).state().phase is UpstreamOpen {
                &&& result matches Ok(diagnostic) && diagnostic.records(
                    AttemptOutcome::Completed,
                    old(self).state(),
                ) && diagnostic.tells_no_failure()
                &&& final(self).state() == old(self).state().finalized(AttemptOutcome::Completed)
            } else {
                &&& result == Err::<AttemptDiagnostic, TransitionError>(
                    TransitionError::FinalizationNotAuthorized,
                )
                &&& final(self).state() == old(self).state()
            },
    {
        self.controller.completed_diagnostic()
    }

    pub fn cancelled_diagnostic(&mut self) -> (result: Result<AttemptDiagnostic, TransitionError>)
        requires
            old(self).state().wf(),
        ensures
            final(self).state().wf(),
            final(self).opened == old(self).opened,
            if old(self).state().phase is UpstreamOpen || old(self).state().phase
                == AttemptPhase::TerminalPending(AttemptOutcome::Failed) || old(self).state().phase
                == AttemptPhase::TerminalPending(AttemptOutcome::Cancelled) {
                &&& result matches Ok(diagnostic) && diagnostic.records(
                    AttemptOutcome::Cancelled,
                    old(self).state(),
                ) && diagnostic.tells_no_failure()
                &&& final(self).state() == old(self).state().finalized(AttemptOutcome::Cancelled)
            } else {
                &&& result == Err::<AttemptDiagnostic, TransitionError>(
                    TransitionError::FinalizationNotAuthorized,
                )
                &&& final(self).state() == old(self).state()
            },
    {
        self.controller.cancelled_diagnostic()
    }

    pub fn snapshot(&self) -> (snapshot: AttemptSnapshot)
        ensures
            snapshot.posts == self.state().posts,
            snapshot.repairs == self.state().repairs,
            snapshot.delays_ms@ == self.state().delays_ms,
            snapshot.response_started == self.state().response_started,
    {
        self.controller.snapshot()
    }
}

impl TerminalAttempt {
    pub fn snapshot(&self) -> (snapshot: AttemptSnapshot)
        ensures
            snapshot.posts == self.state().posts,
            snapshot.repairs == self.state().repairs,
            snapshot.delays_ms@ == self.state().delays_ms,
            snapshot.response_started == self.state().response_started,
    {
        self.controller.snapshot()
    }

    /// The record of a failed request; it can be had once.
    pub fn failed_diagnostic(&mut self) -> (result: Result<AttemptDiagnostic, TransitionError>)
        requires
            old(self).state().wf(),
            old(self).failure is Some,
        ensures
            final(self).state().wf(),
            final(self).failure == old(self).failure,
            if old(self).state().phase == AttemptPhase::TerminalPending(AttemptOutcome::Failed) {
                &&& result matches Ok(diagnostic) && diagnostic.records(
                    AttemptOutcome::Failed,
                    old(self).state(),
                ) && diagnostic.tells_failure(old(self).failure->0)
                &&& final(self).state() == old(self).state().finalized(AttemptOutcome::Failed)
            } else {
                &&& result == Err::<AttemptDiagnostic, TransitionError>(
                    TransitionError::FinalizationNotAuthorized,
                )
                &&& final(self).state() == old(self).state()
            },
    {
        match &self.failure {
            Some(failure) => self.controller.failed_diagnostic(failure),
            None => Err(TransitionError::FinalizationNotAuthorized),
        }
    }

    pub fn cancelled_diagnostic(&mut self) -> (result: Result<AttemptDiagnostic, TransitionError>)
        requires
            old(self).state().wf(),
        ensures
            final(self).state().wf(),
            final(self).failure == old(self).failure,
            if old(self).state().phase is UpstreamOpen || old(self).state().phase
                == AttemptPhase::TerminalPending(AttemptOutcome::Failed) || old(self).state().phase
                == AttemptPhase::TerminalPending(AttemptOutcome::Cancelled) {
                &&& result matches Ok(diagnostic) && diagnostic.records(
                    AttemptOutcome::Cancelled,
                    old(self).state(),
                ) && diagnostic.tells_no_failure()
                &&& final(self).state() == old(self).state().finalized(AttemptOutcome::Cancelled)
            } else {
                &&& result == Err::<AttemptDiagnostic, TransitionError>(
                    TransitionError::FinalizationNotAuthorized,
                )
                &&& final(self).state() == old(self).state()
            },
    {
        self.controller.cancelled_diagnostic()
    }
}


/// Posts to the provider that a gateway was launched for, in one mode.
pub struct ApiKeyPostOnceTransport<'a> {
    pub cfg: &'a GatewayConfig,
    pub attempt_mode: AttemptMode,
}

impl<'a> ApiKeyPostOnceTransport<'a> {
    pub fn new(cfg: &'a GatewayConfig, attempt_mode: AttemptMode) -> (transport: Self)
        ensures
            *transport.cfg == *cfg,
            transport.attempt_mode == attempt_mode,
    {
        ApiKeyPostOnceTransport { cfg, attempt_mode }
    }

    /// What may be logged of the transport: the provider and the mode, and no secret.
    pub fn debug_text(&self) -> (text: String)
        ensures
            text@ == "ApiKeyPostOnceTransport { provider: "@ + quoted_text(self.cfg.provider@)
                + ", attempt_mode: "@ + (match self.attempt_mode {
                AttemptMode::Nonstream => "Nonstream"@,
                AttemptMode::Stream => "Stream"@,
            }) + " }"@,
    {
        let mut text = "ApiKeyPostOnceTransport { provider: ".to_owned();
        text.append(quoted(self.cfg.provider.as_str()).as_str());
        text.append(", attempt_mode: ");
        text.append(
            match self.attempt_mode {
                AttemptMode::Nonstream => "Nonstream",
                AttemptMode::Stream => "Stream",
            },
        );
        text.append(" }");
        text
    }
}

} // verus!
