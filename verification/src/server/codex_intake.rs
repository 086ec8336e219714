//! What a request has to pass before it is posted to Codex.

use vstd::prelude::*;

use crate::json::{JsonTree, JsonValue};
use crate::server::codex_attempt::{
    codex_obstacle_reply, model_in, obstacle_reply, CodexAuthLoadError, CodexObstacle,
    TranslationError,
};
use crate::server::reply::{HttpReply, Reply};
use crate::server::routing::{
    auth_error_reply, auth_refusal, codex_models_failure_reply, codex_selector, codex_target,
    models_refusal, target_of, unroutable, CodexModelsFailure, CodexResolution,
};
use crate::text::{is_blank, text_is_blank};

verus! {

/// What came back on the way to the first post.
pub enum IntakeEvent {
    /// The credentials were loaded, or could not be had.
    Loaded(Result<(), CodexAuthLoadError>),
    /// How the models of the account answer the selector.
    Resolved(Result<CodexResolution, CodexModelsFailure>),
    /// Whether there is a key for the signatures of thoughts.
    FoundKey(bool),
    Translated(Result<(), TranslationError>),
    /// Whether the client is watched.
    Watching(bool),
}

/// What to do next with a request.
pub enum IntakeTask {
    Resolve { selector: String },
    FindKey { model: String },
    Translate,
    Watch,
    /// Begin to post.
    Attempt,
    /// Refuse the request. The status, where there is one, is that of refused credentials.
    Refuse { reply: HttpReply, auth_rejected: Option<u16> },
}

/// What an [`IntakeTask`] says.
pub ghost enum Intake {
    Resolve { selector: Seq<char> },
    FindKey { model: Seq<char> },
    Translate,
    Watch,
    Attempt,
    Refuse { reply: Reply, auth_rejected: Option<u16> },
}

impl View for IntakeTask {
    type V = Intake;

    open spec fn view(&self) -> Intake {
        match *self {
            IntakeTask::Resolve { selector } => Intake::Resolve { selector: selector@ },
            IntakeTask::FindKey { model } => Intake::FindKey { model: model@ },
            IntakeTask::Translate => Intake::Translate,
            IntakeTask::Watch => Intake::Watch,
            IntakeTask::Attempt => Intake::Attempt,
            IntakeTask::Refuse { reply, auth_rejected } => Intake::Refuse {
                reply: reply@,
                auth_rejected,
            },
        }
    }
}

pub open spec fn refused(reply: Reply) -> Intake {
    Intake::Refuse { reply, auth_rejected: None }
}

/// The credentials come first, then the model, the key, the translation and the watch on
/// the client. The first of them that fails ends the request.
pub open spec fn intake(request: JsonTree, event: IntakeEvent) -> Intake {
    match event {
        IntakeEvent::Loaded(Err(error)) => refused(auth_refusal(error)),
        IntakeEvent::Loaded(Ok(_)) => match model_in(request) {
            Some(selector) => Intake::Resolve { selector },
            None => refused(unroutable("model selector is required for Codex"@)),
        },
        IntakeEvent::Resolved(Err(error)) => Intake::Refuse {
            reply: models_refusal(error),
            auth_rejected: if error.upstream_status == Some(401u16) {
                Some(401u16)
            } else {
                None
            },
        },
        IntakeEvent::Resolved(Ok(resolution)) => match target_of(resolution) {
            Err(reply) => refused(reply),
            Ok(model) => if is_blank(model) {
                refused(obstacle_reply(CodexObstacle::NoModel))
            } else {
                Intake::FindKey { model }
            },
        },
        IntakeEvent::FoundKey(found) => if found {
            Intake::Translate
        } else {
            refused(obstacle_reply(CodexObstacle::NoThinkingKey))
        },
        IntakeEvent::Translated(Ok(_)) => Intake::Watch,
        IntakeEvent::Translated(Err(error)) => refused(
            obstacle_reply(CodexObstacle::Untranslatable(error)),
        ),
        IntakeEvent::Watching(watching) => if watching {
            Intake::Attempt
        } else {
            refused(obstacle_reply(CodexObstacle::NoCancellationWatch))
        },
    }
}

fn refuse(reply: HttpReply) -> (task: IntakeTask)
    ensures
        task@ == refused(reply@),
{
    IntakeTask::Refuse { reply, auth_rejected: None }
}

/// Takes what came back, and says what to do next with a request.
pub fn handle_codex_messages_with_catalog(request: &JsonValue, event: IntakeEvent) -> (task:
    IntakeTask)
    ensures
        task@ == intake(request@, event),
{
    match event {
        IntakeEvent::Loaded(Err(error)) => refuse(auth_error_reply(&error)),
        IntakeEvent::Loaded(Ok(_)) => match codex_selector(request) {
            Ok(selector) => IntakeTask::Resolve { selector: selector.to_owned() },
            Err(reply) => refuse(reply),
        },
        IntakeEvent::Resolved(Err(error)) => {
            let (reply, renew) = codex_models_failure_reply(&error);
            let auth_rejected: Option<u16> = if renew {
                Some(401)
            } else {
                None
            };
            IntakeTask::Refuse { reply, auth_rejected }
        },
        IntakeEvent::Resolved(Ok(resolution)) => match codex_target(resolution) {
            Err(reply) => refuse(reply),
            Ok(model) => {
                if text_is_blank(model.as_str()) {
                    refuse(codex_obstacle_reply(&CodexObstacle::NoModel))
                } else {
                    IntakeTask::FindKey { model }
                }
            },
        },
        IntakeEvent::FoundKey(found) => {
            if found {
                IntakeTask::Translate
            } else {
                refuse(codex_obstacle_reply(&CodexObstacle::NoThinkingKey))
            }
        },
        IntakeEvent::Translated(Ok(_)) => IntakeTask::Watch,
        IntakeEvent::Translated(Err(error)) => {
            refuse(codex_obstacle_reply(&CodexObstacle::Untranslatable(error)))
        },
        IntakeEvent::Watching(watching) => {
            if watching {
                IntakeTask::Attempt
            } else {
                refuse(codex_obstacle_reply(&CodexObstacle::NoCancellationWatch))
            }
        },
    }
}

/// Nothing is posted before the client is watched, and nothing is translated before there
/// is a model and a key. So a selector that the account has no model for, and a request
/// that cannot be translated, are refused without a post.
pub proof fn law_unfit_requests_are_not_posted(request: JsonTree, event: IntakeEvent)
    ensures
        intake(request, event) is Attempt <==> event == IntakeEvent::Watching(true),
        intake(request, event) is Watch <==> event is Translated && event->Translated_0 is Ok,
        intake(request, event) is Translate <==> event == IntakeEvent::FoundKey(true),
        intake(request, event) is FindKey ==> (event matches IntakeEvent::Resolved(
            Ok(CodexResolution::Model(_)),
        )),
        intake(request, event) is Resolve ==> model_in(request) is Some,
{
}

} // verus!
