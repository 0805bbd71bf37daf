//! How a prompt for an agent on another node runs its course.
//!
//! A session is created first if need be. When the prompt fails, what may still run on the
//! other node is cancelled before the failure is answered.
use vstd::prelude::*;

use crate::prompt_run::StopReason;
use crate::remote_handle;
use crate::remote_handle::{
    CreateAction, CreateEvent, CreateRun, CreateStage, RemoteAgentError, RemoteAgentHandle,
};
use crate::scope;
use crate::scope::unscoped_provider_host;
use crate::session_registry::SessionActorRef;

verus! {

/// Where a prompt stands, that is, what it waits for.
#[derive(Debug, Clone, Copy, PartialEq, Eq, Structural)]
pub enum RemotePromptStage {
    Creating,
    Prompting,
    ResolvingPeer,
    FindingHost,
    ReadingStatus,
    Cancelling,
    Finished,
}

/// What a prompt is told.
#[derive(Debug)]
pub enum RemotePromptEvent {
    /// How the creation of the session went on.
    Create(CreateEvent),
    /// What the session has answered.
    Prompted(Result<StopReason, RemoteAgentError>),
    /// The id of the node of the agent, if it is known.
    PeerResolved(Option<String>),
    /// The provider host of the node, if it was found.
    HostFound(Option<u64>),
    /// The request that runs on the node, if one is known.
    StatusRead(Option<String>),
    /// The request was cancelled, or could not be.
    Cancelled,
}

/// What is cancelled on the node of an agent after a prompt there has failed.
#[derive(Debug, PartialEq, Eq)]
pub struct CancelProviderStream {
    pub session_id: String,
    /// The request that runs, if one is known.
    pub request_id: Option<String>,
    pub reason: String,
}

/// What a prompt asks for.
#[derive(Debug)]
pub enum RemotePromptAction {
    /// Does the next thing in the creation of a session.
    Create(CreateAction),
    /// Sends the prompt to the session.
    Prompt { session: SessionActorRef },
    /// Looks up the id of the agent's node.
    ResolvePeer,
    /// Looks up the provider host of the node under this name.
    FindHost { name: String },
    /// Asks the provider host what runs for the session.
    ReadStatus { host: u64 },
    Cancel { host: u64, request: CancelProviderStream },
    Respond(Result<StopReason, RemoteAgentError>),
    /// The event does not belong to the stage; nothing is to be done.
    Ignore,
}

/// The course of one prompt.
#[derive(Debug)]
pub struct RemotePromptRun {
    pub stage: RemotePromptStage,
    pub session_id: String,
    /// The creation of the session, where there was none.
    pub creation: Option<CreateRun>,
    /// Why the prompt failed, once it has.
    pub failure: Option<RemoteAgentError>,
    /// The provider host of the node, once it was found.
    pub host: u64,
}

/// The failure of the prompt is answered.
pub open spec fn answers_failure(
    run: RemotePromptRun,
    after: RemotePromptRun,
    action: RemotePromptAction,
) -> bool {
    &&& after.stage == RemotePromptStage::Finished
    &&& action == RemotePromptAction::Respond(Err(run.failure->Some_0))
}

/// `request` cancels what runs for the session.
pub open spec fn cancels(
    session_id: Seq<char>,
    running: Option<String>,
    request: CancelProviderStream,
) -> bool {
    &&& request.session_id@ == session_id
    &&& request.request_id == running
    &&& request.reason@ == "remote prompt request failed"@
}

/// What a prompt becomes and asks for on `event`, and what becomes of the agent's sessions.
pub open spec fn is_prompt_step(
    before: RemoteAgentHandle,
    run: RemotePromptRun,
    event: RemotePromptEvent,
    after: RemoteAgentHandle,
    after_run: RemotePromptRun,
    action: RemotePromptAction,
) -> bool {
    match (run.stage, event) {
        (RemotePromptStage::Creating, RemotePromptEvent::Create(event)) => {
            &&& after_run.creation is Some
            &&& exists|inner: CreateAction|
                {
                    &&& #[trigger] remote_handle::is_create_step(
                        before,
                        run.creation->Some_0,
                        event,
                        after,
                        after_run.creation->Some_0,
                        inner,
                    )
                    &&& match inner {
                        CreateAction::Respond(Ok((_, session))) => {
                            &&& after_run == (RemotePromptRun {
                                stage: RemotePromptStage::Prompting,
                                creation: after_run.creation,
                                ..run
                            })
                            &&& action == (RemotePromptAction::Prompt { session })
                        },
                        CreateAction::Respond(Err(error)) => {
                            &&& after_run == (RemotePromptRun {
                                stage: RemotePromptStage::Finished,
                                creation: after_run.creation,
                                ..run
                            })
                            &&& action == RemotePromptAction::Respond(Err(error))
                        },
                        CreateAction::Ignore => {
                            &&& after_run == (RemotePromptRun {
                                creation: after_run.creation,
                                ..run
                            })
                            &&& action is Ignore
                        },
                        _ => {
                            &&& after_run == (RemotePromptRun {
                                creation: after_run.creation,
                                ..run
                            })
                            &&& action == RemotePromptAction::Create(inner)
                        },
                    }
                }
        },
        (RemotePromptStage::Prompting, RemotePromptEvent::Prompted(Ok(reason))) => {
            &&& after == before
            &&& after_run == (RemotePromptRun { stage: RemotePromptStage::Finished, ..run })
            &&& action == RemotePromptAction::Respond(Ok(reason))
        },
        (RemotePromptStage::Prompting, RemotePromptEvent::Prompted(Err(error))) => {
            &&& after == before
            &&& after_run == (RemotePromptRun {
                stage: RemotePromptStage::ResolvingPeer,
                failure: Some(error),
                ..run
            })
            &&& action is ResolvePeer
        },
        (RemotePromptStage::ResolvingPeer, RemotePromptEvent::PeerResolved(node)) => {
            &&& after == before
            &&& match node {
                Some(node) => {
                    &&& after_run == (RemotePromptRun {
                        stage: RemotePromptStage::FindingHost,
                        ..run
                    })
                    &&& action matches RemotePromptAction::FindHost { name }
                    &&& name@ == scope::provider_host_name(node@)
                },
                None => answers_failure(run, after_run, action),
            }
        },
        (RemotePromptStage::FindingHost, RemotePromptEvent::HostFound(found)) => {
            &&& after == before
            &&& match found {
                Some(host) => {
                    &&& after_run == (RemotePromptRun {
                        stage: RemotePromptStage::ReadingStatus,
                        host,
                        ..run
                    })
                    &&& action == (RemotePromptAction::ReadStatus { host })
                },
                None => answers_failure(run, after_run, action),
            }
        },
        (RemotePromptStage::ReadingStatus, RemotePromptEvent::StatusRead(running)) => {
            &&& after == before
            &&& after_run == (RemotePromptRun { stage: RemotePromptStage::Cancelling, ..run })
            &&& action matches RemotePromptAction::Cancel { host, request }
            &&& host == run.host
            &&& cancels(run.session_id@, running, request)
        },
        (RemotePromptStage::Cancelling, RemotePromptEvent::Cancelled) => {
            &&& after == before
            &&& answers_failure(run, after_run, action)
        },
        _ => after == before && after_run == run && action is Ignore,
    }
}

impl RemoteAgentHandle {
    /// Begins a prompt for a session, and says what is to be done first: the prompt is sent
    /// to the session if it was created before, and otherwise one is created.
    pub fn prompt(&self, session_id: String) -> (begun: (RemotePromptRun, RemotePromptAction))
        requires
            self.wf(),
        ensures
            begun.0.wf(),
            begun.0.session_id == session_id,
            begun.0.failure is None,
            if self.sessions@.dom().contains(session_id@) {
                &&& begun.0.stage == RemotePromptStage::Prompting
                &&& begun.1 == (RemotePromptAction::Prompt {
                    session: self.sessions@[session_id@],
                })
            } else {
                &&& begun.0.stage == RemotePromptStage::Creating
                &&& begun.0.creation->Some_0.stage == CreateStage::FindingNode
                &&& begun.0.creation->Some_0.cwd is None
                &&& begun.1 == RemotePromptAction::Create(CreateAction::FindNode)
            },
    {
        match self.session_for(session_id.as_str()) {
            Some(session) => (
                RemotePromptRun {
                    stage: RemotePromptStage::Prompting,
                    session_id,
                    creation: None,
                    failure: None,
                    host: 0,
                },
                RemotePromptAction::Prompt { session },
            ),
            None => {
                let (creation, action) = self.create_remote_session(None);
                (
                    RemotePromptRun {
                        stage: RemotePromptStage::Creating,
                        session_id,
                        creation: Some(creation),
                        failure: None,
                        host: 0,
                    },
                    RemotePromptAction::Create(action),
                )
            },
        }
    }
}

impl RemotePromptRun {
    /// The creation of a session is well-formed, and a prompt that cleans up knows why.
    pub open spec fn wf(&self) -> bool {
        &&& self.stage == RemotePromptStage::Creating ==> (self.creation matches Some(creation)
            && creation.wf())
        &&& match self.stage {
            RemotePromptStage::ResolvingPeer
            | RemotePromptStage::FindingHost
            | RemotePromptStage::ReadingStatus
            | RemotePromptStage::Cancelling => self.failure is Some,
            _ => true,
        }
    }

    fn answer_failure(&mut self) -> (action: RemotePromptAction)
        requires
            old(self).failure is Some,
        ensures
            answers_failure(*old(self), *final(self), action),
    {
        self.stage = RemotePromptStage::Finished;
        RemotePromptAction::Respond(Err(self.failure.take().unwrap()))
    }

    /// Goes on after `event`. An event that the prompt does not wait for changes nothing.
    pub fn on_event(&mut self, handle: &mut RemoteAgentHandle, event: RemotePromptEvent) -> (action:
        RemotePromptAction)
        requires
            old(self).wf(),
            old(handle).wf(),
        ensures
            final(self).wf(),
            final(handle).wf(),
            is_prompt_step(
                *old(handle),
                *old(self),
                event,
                *final(handle),
                *final(self),
                action,
            ),
    {
        match (self.stage, event) {
            (RemotePromptStage::Creating, RemotePromptEvent::Create(event)) => {
                let mut creation = self.creation.take().unwrap();
                let inner = creation.on_event(handle, event);
                self.creation = Some(creation);
                match inner {
                    CreateAction::Respond(Ok((_, session))) => {
                        self.stage = RemotePromptStage::Prompting;
                        RemotePromptAction::Prompt { session }
                    },
                    CreateAction::Respond(Err(error)) => {
                        self.stage = RemotePromptStage::Finished;
                        RemotePromptAction::Respond(Err(error))
                    },
                    CreateAction::Ignore => RemotePromptAction::Ignore,
                    next => RemotePromptAction::Create(next),
                }
            },
            (RemotePromptStage::Prompting, RemotePromptEvent::Prompted(outcome)) => match outcome {
                Ok(reason) => {
                    self.stage = RemotePromptStage::Finished;
                    RemotePromptAction::Respond(Ok(reason))
                },
                Err(error) => {
                    self.failure = Some(error);
                    self.stage = RemotePromptStage::ResolvingPeer;
                    RemotePromptAction::ResolvePeer
                },
            },
            (RemotePromptStage::ResolvingPeer, RemotePromptEvent::PeerResolved(node)) => {
                match node {
                    Some(node) => {
                        self.stage = RemotePromptStage::FindingHost;
                        RemotePromptAction::FindHost { name: unscoped_provider_host(node.as_str()) }
                    },
                    None => self.answer_failure(),
                }
            },
            (RemotePromptStage::FindingHost, RemotePromptEvent::HostFound(found)) => match found {
                Some(host) => {
                    self.host = host;
                    self.stage = RemotePromptStage::ReadingStatus;
                    RemotePromptAction::ReadStatus { host }
                },
                None => self.answer_failure(),
            },
            (RemotePromptStage::ReadingStatus, RemotePromptEvent::StatusRead(running)) => {
                self.stage = RemotePromptStage::Cancelling;
                RemotePromptAction::Cancel {
                    host: self.host,
                    request: CancelProviderStream {
                        session_id: self.session_id.clone(),
                        request_id: running,
                        reason: "remote prompt request failed".to_string(),
                    },
                }
            },
            (RemotePromptStage::Cancelling, RemotePromptEvent::Cancelled) => self.answer_failure(),
            _ => RemotePromptAction::Ignore,
        }
    }
}

/// A prompt that fails on the other node is answered with that failure, whatever comes of
/// the cleaning up.
pub proof fn law_cleaning_up_keeps_the_failure(
    before: RemoteAgentHandle,
    run: RemotePromptRun,
    event: RemotePromptEvent,
    after: RemoteAgentHandle,
    after_run: RemotePromptRun,
    action: RemotePromptAction,
)
    requires
        is_prompt_step(before, run, event, after, after_run, action),
        run.failure is Some,
        run.stage != RemotePromptStage::Creating,
        run.stage != RemotePromptStage::Prompting,
    ensures
        match action {
            RemotePromptAction::Respond(response) => response == Err::<
                StopReason,
                RemoteAgentError,
            >(run.failure->Some_0),
            _ => after_run.failure == run.failure,
        },
        after == before,
{
}

/// What runs on the other node is cancelled only after a prompt has failed there.
pub proof fn law_only_failures_are_cleaned_up(
    before: RemoteAgentHandle,
    run: RemotePromptRun,
    event: RemotePromptEvent,
    after: RemoteAgentHandle,
    after_run: RemotePromptRun,
    action: RemotePromptAction,
)
    requires
        run.wf(),
        is_prompt_step(before, run, event, after, after_run, action),
        action is Cancel,
    ensures
        run.failure is Some,
{
}

/// A prompt goes to the session that was created for it, and a creation that fails answers
/// the prompt with its error.
pub proof fn law_prompts_follow_the_creation(
    before: RemoteAgentHandle,
    run: RemotePromptRun,
    event: CreateEvent,
    after: RemoteAgentHandle,
    after_run: RemotePromptRun,
    action: RemotePromptAction,
)
    requires
        run.stage == RemotePromptStage::Creating,
        is_prompt_step(before, run, RemotePromptEvent::Create(event), after, after_run, action),
    ensures
        after_run.session_id == run.session_id,
        action is Prompt <==> after_run.stage == RemotePromptStage::Prompting,
        run.creation->Some_0.stage == CreateStage::LookingUp ==> (event matches
            CreateEvent::LookedUp(Ok(Some(actor))) ==> (action matches RemotePromptAction::Prompt {
            session: SessionActorRef::Remote { actor_id, peer_label, .. },
        } && actor_id == actor && peer_label@ == before.peer_label@)),
        run.creation->Some_0.stage == CreateStage::Creating ==> (event matches
            CreateEvent::SessionCreated(Err(reason)) ==> action == RemotePromptAction::Respond(
            Err(RemoteAgentError::Agent(crate::error::AgentError::RemoteActor(reason))),
        )),
        after_run.stage == RemotePromptStage::Finished ==> (action matches
            RemotePromptAction::Respond(Err(_))),
        action is Prompt || action is Respond || action is Create || action is Ignore,
{
}

/// A session's answer to a prompt is passed on; a failed prompt has the provider of its node
/// looked for, so that what still runs there is cancelled.
pub proof fn law_answers_are_passed_on(
    before: RemoteAgentHandle,
    run: RemotePromptRun,
    result: Result<StopReason, RemoteAgentError>,
    after: RemoteAgentHandle,
    after_run: RemotePromptRun,
    action: RemotePromptAction,
)
    requires
        run.stage == RemotePromptStage::Prompting,
        is_prompt_step(before, run, RemotePromptEvent::Prompted(result), after, after_run, action),
    ensures
        after == before,
        result matches Ok(reason) ==> after_run.stage == RemotePromptStage::Finished && action
            == RemotePromptAction::Respond(Ok(reason)),
        result matches Err(error) ==> after_run.stage == RemotePromptStage::ResolvingPeer
            && after_run.failure == Some(error) && action is ResolvePeer,
{
}

/// After a failure the host of the node's provider is found under its name, asked what runs
/// for the session, and told to cancel exactly that; the failure itself is the answer.
pub proof fn law_failed_prompts_are_cancelled_at_the_host(
    before: RemoteAgentHandle,
    run: RemotePromptRun,
    event: RemotePromptEvent,
    after: RemoteAgentHandle,
    after_run: RemotePromptRun,
    action: RemotePromptAction,
)
    requires
        run.wf(),
        is_prompt_step(before, run, event, after, after_run, action),
    ensures
        run.stage == RemotePromptStage::ResolvingPeer ==> (event matches
            RemotePromptEvent::PeerResolved(Some(node)) ==> after_run.stage
            == RemotePromptStage::FindingHost && (action matches RemotePromptAction::FindHost {
            name,
        } && name@ == "provider_host::peer::"@ + node@)),
        run.stage == RemotePromptStage::ResolvingPeer ==> (event matches
            RemotePromptEvent::PeerResolved(None) ==> after_run.stage
            == RemotePromptStage::Finished && action == RemotePromptAction::Respond(
            Err(run.failure->Some_0),
        )),
        run.stage == RemotePromptStage::FindingHost ==> (event matches
            RemotePromptEvent::HostFound(Some(host)) ==> after_run.stage
            == RemotePromptStage::ReadingStatus && after_run.host == host && action == (
        RemotePromptAction::ReadStatus { host })),
        run.stage == RemotePromptStage::FindingHost ==> (event matches
            RemotePromptEvent::HostFound(None) ==> after_run.stage == RemotePromptStage::Finished
            && action == RemotePromptAction::Respond(Err(run.failure->Some_0))),
        run.stage == RemotePromptStage::ReadingStatus ==> (event matches
            RemotePromptEvent::StatusRead(running) ==> after_run.stage
            == RemotePromptStage::Cancelling && (action matches RemotePromptAction::Cancel {
            host,
            request,
        } && host == run.host && request.session_id@ == run.session_id@ && request.request_id
            == running && request.reason@ == "remote prompt request failed"@)),
        run.stage == RemotePromptStage::Cancelling && event is Cancelled ==> after_run.stage
            == RemotePromptStage::Finished && action == RemotePromptAction::Respond(
            Err(run.failure->Some_0),
        ),
        !(run.stage == RemotePromptStage::Creating && event is Create) && !(run.stage
            == RemotePromptStage::Prompting && event is Prompted) && !(run.stage
            == RemotePromptStage::ResolvingPeer && event is PeerResolved) && !(run.stage
            == RemotePromptStage::FindingHost && event is HostFound) && !(run.stage
            == RemotePromptStage::ReadingStatus && event is StatusRead) && !(run.stage
            == RemotePromptStage::Cancelling && event is Cancelled) ==> after == before && after_run
            == run && action is Ignore,
{
}

/// A prompt whose session cannot be created is over, and one whose session is created goes
/// there.
pub proof fn law_failed_creations_end_the_prompt(
    before: RemoteAgentHandle,
    run: RemotePromptRun,
    event: CreateEvent,
    after: RemoteAgentHandle,
    after_run: RemotePromptRun,
    action: RemotePromptAction,
)
    requires
        run.stage == RemotePromptStage::Creating,
        is_prompt_step(before, run, RemotePromptEvent::Create(event), after, after_run, action),
    ensures
        action is Respond <==> after_run.stage == RemotePromptStage::Finished,
        action is Create || action is Ignore ==> after_run.stage == RemotePromptStage::Creating,
        after_run.failure == run.failure,
        after_run.host == run.host,
{
}

} // verus!
