//! How a session is forked, set up and resumed on request.
//!
//! Each request runs as a state machine that says what is to be done next and is told how
//! that went.
use vstd::prelude::*;

use crate::chat::ReasoningEffort;
use crate::events::AgentEventKind;
use crate::json::JsonValue;
use crate::model::{AgentMessage, AgentMode};
use crate::runtime_handle::MeshRuntimeHandle;
use crate::session_config;
use crate::session_config::{resume_response, SessionConfigOption, SessionModeState};
use crate::session_materializer;
use crate::session_materializer::fork_message_id_from_meta;
use crate::session_mcp;
use crate::session_mcp::McpServer;
use crate::session_registry;
use crate::session_registry::{
    resume_plan, ResumePlan, SessionActorRef, SessionMaterialization,
    SessionMaterializationOptions, SessionRegistry, SessionRequestError,
};
use crate::text;

verus! {

/// Where a fork stands, that is, what it waits for.
#[derive(Debug, Clone, Copy, PartialEq, Eq, Structural)]
pub enum ForkStage {
    LookingUp,
    LoadingHistory,
    Forking,
    Finished,
}

/// What a fork is told.
#[derive(Debug)]
pub enum ForkEvent {
    /// Whether the session that is forked is there.
    SessionFound(Result<bool, String>),
    HistoryLoaded(Result<Vec<AgentMessage>, String>),
    /// The id of the new session.
    Forked(Result<String, String>),
}

/// On whose behalf a session is forked.
#[derive(Debug, Clone, Copy, PartialEq, Eq, Structural)]
pub enum ForkOrigin {
    User,
}

/// What a fork asks for.
#[derive(Debug)]
pub enum ForkAction {
    FindSession,
    LoadHistory,
    /// Forks this session at this message.
    Fork { session_id: String, message_id: String, origin: ForkOrigin },
    Respond(Result<String, SessionRequestError>),
    /// The event does not belong to the stage; nothing is to be done.
    Ignore,
}

/// A session that is being forked.
#[derive(Debug)]
pub struct ForkRun {
    pub stage: ForkStage,
    pub session_id: String,
    /// The message that the request names.
    pub named: Option<String>,
}

/// `action` reports an internal error.
pub open spec fn fork_fails(action: ForkAction, words: Seq<char>) -> bool {
    action matches ForkAction::Respond(Err(SessionRequestError::Internal(message))) && message@
        == words
}

/// `action` forks the session of the request at this message, for the user.
pub open spec fn forks(run: ForkRun, at: Seq<char>, action: ForkAction) -> bool {
    action matches ForkAction::Fork { session_id, message_id, origin } && session_id@
        == run.session_id@ && message_id@ == at && origin == ForkOrigin::User
}

/// What a fork becomes and asks for on `event`.
pub open spec fn is_fork_step(
    run: ForkRun,
    event: ForkEvent,
    after: ForkRun,
    action: ForkAction,
) -> bool {
    let finished = ForkRun { stage: ForkStage::Finished, ..run };
    match (run.stage, event) {
        (ForkStage::LookingUp, ForkEvent::SessionFound(Ok(exists))) => if exists {
            &&& after == (ForkRun { stage: ForkStage::LoadingHistory, ..run })
            &&& action is LoadHistory
        } else {
            &&& after == finished
            &&& action matches ForkAction::Respond(Err(error))
            &&& session_registry::invalid(error, "source session not found"@, run.session_id@)
        },
        (ForkStage::LookingUp, ForkEvent::SessionFound(Err(reason))) => {
            &&& after == finished
            &&& fork_fails(action, reason@)
        },
        (ForkStage::LoadingHistory, ForkEvent::HistoryLoaded(Ok(history))) => match run.named {
            Some(named) => {
                &&& after == (ForkRun { stage: ForkStage::Forking, ..run })
                &&& forks(run, named@, action)
            },
            None => if history@.len() > 0 {
                &&& after == (ForkRun { stage: ForkStage::Forking, ..run })
                &&& forks(run, history@.last().id@, action)
            } else {
                &&& after == finished
                &&& action == ForkAction::Respond(Err(SessionRequestError::EmptySessionFork))
            },
        },
        (ForkStage::LoadingHistory, ForkEvent::HistoryLoaded(Err(reason))) => {
            &&& after == finished
            &&& fork_fails(action, reason@)
        },
        (ForkStage::Forking, ForkEvent::Forked(Ok(session_id))) => {
            &&& after == finished
            &&& action == ForkAction::Respond(Ok(session_id))
        },
        (ForkStage::Forking, ForkEvent::Forked(Err(reason))) => {
            &&& after == finished
            &&& fork_fails(action, reason@)
        },
        _ => after == run && action is Ignore,
    }
}

impl ForkRun {
    /// A fork of a session at its last message, and the first thing to do.
    pub fn fork_session(session_id: String) -> (begun: (ForkRun, ForkAction))
        ensures
            begun.0 == (ForkRun { stage: ForkStage::LookingUp, session_id, named: None }),
            begun.1 is FindSession,
    {
        (
            ForkRun { stage: ForkStage::LookingUp, session_id, named: None },
            ForkAction::FindSession,
        )
    }

    /// A fork of a session at the message that the metadata of the request names, or else at
    /// its last one, and the first thing to do.
    pub fn prepare_fork_session(session_id: String, meta: Option<&JsonValue>) -> (begun: (
        ForkRun,
        ForkAction,
    ))
        ensures
            begun.0.stage == ForkStage::LookingUp,
            begun.0.session_id == session_id,
            match begun.0.named {
                Some(named) => meta is Some && session_materializer::named_message(
                    Some(*meta->Some_0),
                ) == Some(named@),
                None => meta is None || session_materializer::named_message(
                    Some(*meta->Some_0),
                ) is None,
            },
            begun.1 is FindSession,
    {
        let named = fork_message_id_from_meta(meta);
        (ForkRun { stage: ForkStage::LookingUp, session_id, named }, ForkAction::FindSession)
    }

    fn respond(&mut self, response: Result<String, SessionRequestError>) -> (action: ForkAction)
        ensures
            *final(self) == (ForkRun { stage: ForkStage::Finished, ..*old(self) }),
            action == ForkAction::Respond(response),
    {
        self.stage = ForkStage::Finished;
        ForkAction::Respond(response)
    }

    /// Goes on after `event`. An event that the fork does not wait for changes nothing.
    pub fn on_event(&mut self, event: ForkEvent) -> (action: ForkAction)
        ensures
            is_fork_step(*old(self), event, *final(self), action),
    {
        match (self.stage, event) {
            (ForkStage::LookingUp, ForkEvent::SessionFound(outcome)) => match outcome {
                Ok(true) => {
                    self.stage = ForkStage::LoadingHistory;
                    ForkAction::LoadHistory
                },
                Ok(false) => {
                    let value = self.session_id.clone();
                    self.respond(
                        Err(
                            SessionRequestError::InvalidParams {
                                message: "source session not found".to_string(),
                                value,
                            },
                        ),
                    )
                },
                Err(reason) => self.respond(Err(SessionRequestError::Internal(reason))),
            },
            (ForkStage::LoadingHistory, ForkEvent::HistoryLoaded(outcome)) => match outcome {
                Ok(history) => {
                    let len: usize = history.len();
                    let message_id = match &self.named {
                        Some(named) => named.clone(),
                        None => {
                            if len == 0 {
                                return self.respond(Err(SessionRequestError::EmptySessionFork));
                            }
                            history[len - 1].id.clone()
                        },
                    };
                    self.stage = ForkStage::Forking;
                    ForkAction::Fork {
                        session_id: self.session_id.clone(),
                        message_id,
                        origin: ForkOrigin::User,
                    }
                },
                Err(reason) => self.respond(Err(SessionRequestError::Internal(reason))),
            },
            (ForkStage::Forking, ForkEvent::Forked(outcome)) => match outcome {
                Ok(session_id) => self.respond(Ok(session_id)),
                Err(reason) => self.respond(Err(SessionRequestError::Internal(reason))),
            },
            _ => ForkAction::Ignore,
        }
    }
}

/// Where the setting up of a session stands, that is, what it waits for.
#[derive(Debug, Clone, Copy, PartialEq, Eq, Structural)]
pub enum MaterializeStage {
    BuildingMcp,
    InitializingFork,
    Starting,
    SettingBridge,
    Finished,
}

/// What the setting up of a session is told.
#[derive(Debug)]
pub enum MaterializeEvent {
    /// The servers were connected, or could not be.
    McpBuilt(Result<(), SessionRequestError>),
    ForkInitialized(Result<(), String>),
    /// The actor of the session was started.
    ActorStarted { actor: u64 },
    /// The session knows the client now, or could not be told; either way the setting up
    /// goes on.
    BridgeSet,
}

/// What the setting up of a session asks for.
#[derive(Debug)]
pub enum MaterializeAction {
    BuildMcp(Vec<McpServer>),
    InitializeFork,
    /// Starts the actor of the session, with this working directory and this mesh.
    StartActor { cwd: Option<String>, mesh: Option<MeshRuntimeHandle> },
    /// Tells the session about the client.
    SetBridge { actor: u64 },
    /// The session is set up and registered.
    Done(SessionMaterialization),
    Fail(SessionRequestError),
    /// The event does not belong to the stage; nothing is to be done.
    Ignore,
}

/// A session that is being set up.
#[derive(Debug)]
pub struct MaterializeRun {
    pub stage: MaterializeStage,
    pub session_id: String,
    pub cwd: Option<String>,
    /// The session is a fork that is not complete yet.
    pub initialize_fork: bool,
    pub options: SessionMaterializationOptions,
    /// The actor of the session, once it was started.
    pub actor: u64,
}

/// `action` starts the actor of the session.
pub open spec fn starts_actor(
    run: MaterializeRun,
    registry: SessionRegistry,
    action: MaterializeAction,
) -> bool {
    action == (MaterializeAction::StartActor {
        cwd: run.cwd,
        mesh: if run.options.attach_mesh_handle {
            registry.mesh
        } else {
            None
        },
    })
}

/// The session is registered with its actor, and nothing else changes.
pub open spec fn registers(
    run: MaterializeRun,
    actor: u64,
    before: SessionRegistry,
    after: SessionRegistry,
    action: MaterializeAction,
) -> bool {
    &&& after.sessions@ == before.sessions@.insert(
        run.session_id@,
        SessionActorRef::Local(actor),
    )
    &&& after.local_actor_refs@ == before.local_actor_refs@.insert(run.session_id@, actor)
    &&& after.relays == before.relays
    &&& after.mesh == before.mesh
    &&& after.has_bridge == before.has_bridge
    &&& action matches MaterializeAction::Done(done)
    &&& done.actor == actor
    &&& text::texts(done.names@) == if run.options.register_in_dht {
        before.mesh_names(run.session_id@)
    } else {
        Seq::empty()
    }
}

/// What the setting up of a session becomes and asks for on `event`.
pub open spec fn is_materialize_step(
    run: MaterializeRun,
    registry: SessionRegistry,
    event: MaterializeEvent,
    after: MaterializeRun,
    registry_after: SessionRegistry,
    action: MaterializeAction,
) -> bool {
    let finished = MaterializeRun { stage: MaterializeStage::Finished, ..run };
    match (run.stage, event) {
        (MaterializeStage::BuildingMcp, MaterializeEvent::McpBuilt(Ok(_))) => {
            &&& registry_after == registry
            &&& if run.initialize_fork {
                &&& after == (MaterializeRun { stage: MaterializeStage::InitializingFork, ..run })
                &&& action is InitializeFork
            } else {
                &&& after == (MaterializeRun { stage: MaterializeStage::Starting, ..run })
                &&& starts_actor(run, registry, action)
            }
        },
        (MaterializeStage::BuildingMcp, MaterializeEvent::McpBuilt(Err(error))) => {
            &&& registry_after == registry
            &&& after == finished
            &&& action == MaterializeAction::Fail(error)
        },
        (MaterializeStage::InitializingFork, MaterializeEvent::ForkInitialized(Ok(_))) => {
            &&& registry_after == registry
            &&& after == (MaterializeRun { stage: MaterializeStage::Starting, ..run })
            &&& starts_actor(run, registry, action)
        },
        (MaterializeStage::InitializingFork, MaterializeEvent::ForkInitialized(Err(reason))) => {
            &&& registry_after == registry
            &&& after == finished
            &&& action == MaterializeAction::Fail(SessionRequestError::Internal(reason))
        },
        (MaterializeStage::Starting, MaterializeEvent::ActorStarted { actor }) => {
            if registry.has_bridge {
                &&& registry_after == registry
                &&& after == (MaterializeRun {
                    stage: MaterializeStage::SettingBridge,
                    actor,
                    ..run
                })
                &&& action == (MaterializeAction::SetBridge { actor })
            } else {
                &&& after == (MaterializeRun { actor, ..finished })
                &&& registers(run, actor, registry, registry_after, action)
            }
        },
        (MaterializeStage::SettingBridge, MaterializeEvent::BridgeSet) => {
            &&& after == finished
            &&& registers(run, run.actor, registry, registry_after, action)
        },
        _ => registry_after == registry && after == run && action is Ignore,
    }
}

impl MaterializeRun {
    /// The setting up of a session with the servers of the configuration and those of the
    /// request, and the first thing to do.
    pub fn start(
        session_id: String,
        cwd: Option<String>,
        config_servers: Vec<McpServer>,
        request_servers: Vec<McpServer>,
        initialize_fork: bool,
        options: SessionMaterializationOptions,
    ) -> (begun: (MaterializeRun, MaterializeAction))
        ensures
            begun.0 == (MaterializeRun {
                stage: MaterializeStage::BuildingMcp,
                session_id,
                cwd,
                initialize_fork,
                options,
                actor: 0,
            }),
            begun.1 matches MaterializeAction::BuildMcp(servers) && servers@
                == session_mcp::overridden(config_servers@, request_servers@),
    {
        let merged = SessionRegistry::merged_mcp_servers(config_servers, request_servers);
        (
            MaterializeRun {
                stage: MaterializeStage::BuildingMcp,
                session_id,
                cwd,
                initialize_fork,
                options,
                actor: 0,
            },
            MaterializeAction::BuildMcp(merged),
        )
    }

    fn start_actor(&mut self, registry: &SessionRegistry) -> (action: MaterializeAction)
        ensures
            *final(self) == (MaterializeRun { stage: MaterializeStage::Starting, ..*old(self) }),
            starts_actor(*old(self), *registry, action),
    {
        self.stage = MaterializeStage::Starting;
        let cwd = match &self.cwd {
            Some(cwd) => Some(cwd.clone()),
            None => None,
        };
        MaterializeAction::StartActor { cwd, mesh: registry.mesh_for(&self.options) }
    }

    fn register(&mut self, registry: &mut SessionRegistry) -> (action: MaterializeAction)
        requires
            old(registry).wf(),
        ensures
            final(registry).wf(),
            *final(self) == (MaterializeRun { stage: MaterializeStage::Finished, ..*old(self) }),
            registers(*old(self), old(self).actor, *old(registry), *final(registry), action),
    {
        self.stage = MaterializeStage::Finished;
        MaterializeAction::Done(
            registry.materialize_session_actor(
                self.session_id.as_str(),
                self.actor,
                &self.options,
            ),
        )
    }

    fn fail(&mut self, error: SessionRequestError) -> (action: MaterializeAction)
        ensures
            *final(self) == (MaterializeRun { stage: MaterializeStage::Finished, ..*old(self) }),
            action == MaterializeAction::Fail(error),
    {
        self.stage = MaterializeStage::Finished;
        MaterializeAction::Fail(error)
    }

    /// Goes on after `event`. An event that the setting up does not wait for changes nothing.
    pub fn on_event(&mut self, registry: &mut SessionRegistry, event: MaterializeEvent) -> (action:
        MaterializeAction)
        requires
            old(registry).wf(),
        ensures
            final(registry).wf(),
            is_materialize_step(
                *old(self),
                *old(registry),
                event,
                *final(self),
                *final(registry),
                action,
            ),
    {
        match (self.stage, event) {
            (MaterializeStage::BuildingMcp, MaterializeEvent::McpBuilt(outcome)) => match outcome {
                Ok(_) => if self.initialize_fork {
                    self.stage = MaterializeStage::InitializingFork;
                    MaterializeAction::InitializeFork
                } else {
                    self.start_actor(registry)
                },
                Err(error) => self.fail(error),
            },
            (
                MaterializeStage::InitializingFork,
                MaterializeEvent::ForkInitialized(outcome),
            ) => match outcome {
                Ok(_) => self.start_actor(registry),
                Err(reason) => self.fail(SessionRequestError::Internal(reason)),
            },
            (MaterializeStage::Starting, MaterializeEvent::ActorStarted { actor }) => {
                self.actor = actor;
                if registry.has_bridge {
                    self.stage = MaterializeStage::SettingBridge;
                    MaterializeAction::SetBridge { actor }
                } else {
                    self.register(registry)
                }
            },
            (MaterializeStage::SettingBridge, MaterializeEvent::BridgeSet) => self.register(
                registry,
            ),
            _ => MaterializeAction::Ignore,
        }
    }
}

/// Where a resumption stands, that is, what it waits for.
#[derive(Debug, Clone, Copy, PartialEq, Eq, Structural)]
pub enum ResumeStage {
    LookingUp,
    Materializing,
    ReadingMode,
    ReadingEffort,
    Finished,
}

/// What a resumption is told.
#[derive(Debug)]
pub enum ResumeEvent {
    /// Whether the session is stored.
    SessionFound(Result<bool, String>),
    /// How the setting up of the session went on.
    Materialize(MaterializeEvent),
    ModeRead(Result<AgentMode, SessionRequestError>),
    EffortRead(Result<Option<ReasoningEffort>, String>),
}

/// What a resumption asks for.
#[derive(Debug)]
pub enum ResumeAction {
    FindSession,
    /// Does the next thing in the setting up of the session.
    Materialize(MaterializeAction),
    /// Asks the session for its mode. Where it was only now set up, it is first published
    /// under these names, and the event is emitted.
    ReadMode { session: SessionActorRef, names: Vec<String>, event: Option<AgentEventKind> },
    /// Asks the session how deeply its model thinks.
    ReadEffort { session: SessionActorRef },
    Respond(Result<(SessionModeState, Vec<SessionConfigOption>), SessionRequestError>),
    /// The event does not belong to the stage; nothing is to be done.
    Ignore,
}

/// A session that is being resumed.
#[derive(Debug)]
pub struct ResumeRun {
    pub stage: ResumeStage,
    pub session_id: String,
    pub request_cwd: String,
    pub cwd_is_absolute: bool,
    pub config_servers: Vec<McpServer>,
    pub request_servers: Vec<McpServer>,
    /// How deeply models think where nothing else is said.
    pub initial_effort: Option<ReasoningEffort>,
    /// The setting up of the session, where it is not set up yet.
    pub setup: Option<MaterializeRun>,
    /// The actor and the mode of the session, once they are known.
    pub session: Option<SessionActorRef>,
    pub mode: AgentMode,
}

/// The setting up that a resumption begins.
pub open spec fn begins_setup(
    run: ResumeRun,
    cwd: Option<String>,
    options: SessionMaterializationOptions,
    after: ResumeRun,
    action: ResumeAction,
) -> bool {
    &&& after.stage == ResumeStage::Materializing
    &&& after.session_id == run.session_id
    &&& after.initial_effort == run.initial_effort
    &&& after.session == run.session
    &&& after.mode == run.mode
    &&& after.setup matches Some(setup)
    &&& setup.stage == MaterializeStage::BuildingMcp
    &&& setup.session_id@ == run.session_id@
    &&& setup.cwd == cwd
    &&& !setup.initialize_fork
    &&& setup.options == options
    &&& action matches ResumeAction::Materialize(MaterializeAction::BuildMcp(servers))
    &&& servers@ == session_mcp::overridden(run.config_servers@, run.request_servers@)
}

/// `action` refuses the request.
pub open spec fn resume_refused(action: ResumeAction, error: SessionRequestError) -> bool {
    action matches ResumeAction::Respond(Err(answered)) && answered == error
}

/// What a resumption becomes and asks for on `event`.
pub open spec fn is_resume_step(
    run: ResumeRun,
    registry: SessionRegistry,
    event: ResumeEvent,
    after: ResumeRun,
    registry_after: SessionRegistry,
    action: ResumeAction,
) -> bool {
    let id = run.session_id@;
    let finished = ResumeRun { stage: ResumeStage::Finished, ..run };
    match (run.stage, event) {
        (ResumeStage::LookingUp, ResumeEvent::SessionFound(Ok(exists))) => {
            &&& registry_after == registry
            &&& exists|plan: Result<ResumePlan, SessionRequestError>|
                {
                    &&& #[trigger] session_registry::is_resume_plan(
                        id,
                        exists,
                        run.request_cwd@,
                        run.cwd_is_absolute,
                        registry.local_actor_refs@.dom().contains(id),
                        plan,
                    )
                    &&& match plan {
                        Ok(ResumePlan::Reuse) => {
                            let session = registry.sessions@[id];
                            &&& after == (ResumeRun {
                                stage: ResumeStage::ReadingMode,
                                session: Some(session),
                                ..run
                            })
                            &&& action matches ResumeAction::ReadMode {
                                session: asked,
                                names,
                                event,
                            }
                            &&& asked == session
                            &&& names@.len() == 0
                            &&& event is None
                        },
                        Ok(ResumePlan::Materialize { cwd, options }) => begins_setup(
                            run,
                            cwd,
                            options,
                            after,
                            action,
                        ),
                        Err(error) => after == finished && resume_refused(action, error),
                    }
                }
        },
        (ResumeStage::LookingUp, ResumeEvent::SessionFound(Err(reason))) => {
            &&& registry_after == registry
            &&& after == finished
            &&& resume_refused(action, SessionRequestError::Internal(reason))
        },
        (ResumeStage::Materializing, ResumeEvent::Materialize(event)) => {
            &&& after.setup is Some
            &&& exists|inner: MaterializeAction|
                {
                    &&& #[trigger] is_materialize_step(
                        run.setup->Some_0,
                        registry,
                        event,
                        after.setup->Some_0,
                        registry_after,
                        inner,
                    )
                    &&& match inner {
                        MaterializeAction::Done(done) => {
                            let session = SessionActorRef::Local(done.actor);
                            &&& after == (ResumeRun {
                                stage: ResumeStage::ReadingMode,
                                setup: after.setup,
                                session: Some(session),
                                ..run
                            })
                            &&& action == (ResumeAction::ReadMode {
                                session,
                                names: done.names,
                                event: Some(AgentEventKind::SessionCreated),
                            })
                        },
                        MaterializeAction::Fail(error) => {
                            &&& after == (ResumeRun { setup: after.setup, ..finished })
                            &&& resume_refused(action, error)
                        },
                        MaterializeAction::Ignore => {
                            &&& after == (ResumeRun { setup: after.setup, ..run })
                            &&& action is Ignore
                        },
                        _ => {
                            &&& after == (ResumeRun { setup: after.setup, ..run })
                            &&& action == ResumeAction::Materialize(inner)
                        },
                    }
                }
        },
        (ResumeStage::ReadingMode, ResumeEvent::ModeRead(Ok(mode))) => {
            &&& registry_after == registry
            &&& after == (ResumeRun { stage: ResumeStage::ReadingEffort, mode, ..run })
            &&& action == (ResumeAction::ReadEffort { session: run.session->Some_0 })
        },
        (ResumeStage::ReadingMode, ResumeEvent::ModeRead(Err(error))) => {
            &&& registry_after == registry
            &&& after == finished
            &&& resume_refused(action, error)
        },
        (ResumeStage::ReadingEffort, ResumeEvent::EffortRead(effort)) => {
            &&& registry_after == registry
            &&& after == finished
            &&& action matches ResumeAction::Respond(Ok(response))
            &&& session_config::shows(
                response,
                run.mode,
                match effort {
                    Ok(effort) => effort,
                    Err(_) => run.initial_effort,
                },
            )
        },
        _ => registry_after == registry && after == run && action is Ignore,
    }
}

impl ResumeRun {
    /// A resumption that sets the session up knows how far that has come, and one that has
    /// asked the session something knows the session.
    pub open spec fn wf(&self) -> bool {
        &&& self.stage == ResumeStage::Materializing ==> (self.setup matches Some(setup)
            && setup.session_id@ == self.session_id@)
        &&& self.stage == ResumeStage::ReadingMode || self.stage == ResumeStage::ReadingEffort
            ==> self.session is Some
    }

    /// The resumption of a session, and the first thing to do.
    pub fn resume_session(
        session_id: String,
        request_cwd: String,
        cwd_is_absolute: bool,
        config_servers: Vec<McpServer>,
        request_servers: Vec<McpServer>,
        initial_effort: Option<ReasoningEffort>,
    ) -> (begun: (ResumeRun, ResumeAction))
        ensures
            begun.0.wf(),
            begun.0.stage == ResumeStage::LookingUp,
            begun.0.session_id == session_id,
            begun.0.request_cwd == request_cwd,
            begun.0.cwd_is_absolute == cwd_is_absolute,
            begun.0.config_servers == config_servers,
            begun.0.request_servers == request_servers,
            begun.0.initial_effort == initial_effort,
            begun.1 is FindSession,
    {
        (
            ResumeRun {
                stage: ResumeStage::LookingUp,
                session_id,
                request_cwd,
                cwd_is_absolute,
                config_servers,
                request_servers,
                initial_effort,
                setup: None,
                session: None,
                mode: AgentMode::Build,
            },
            ResumeAction::FindSession,
        )
    }

    fn refuse(&mut self, error: SessionRequestError) -> (action: ResumeAction)
        ensures
            *final(self) == (ResumeRun { stage: ResumeStage::Finished, ..*old(self) }),
            resume_refused(action, error),
    {
        self.stage = ResumeStage::Finished;
        ResumeAction::Respond(Err(error))
    }

    fn set_up(&mut self, cwd: Option<String>, options: SessionMaterializationOptions) -> (action:
        ResumeAction)
        ensures
            begins_setup(*old(self), cwd, options, *final(self), action),
    {
        let mut config_servers: Vec<McpServer> = Vec::new();
        std::mem::swap(&mut self.config_servers, &mut config_servers);
        let mut request_servers: Vec<McpServer> = Vec::new();
        std::mem::swap(&mut self.request_servers, &mut request_servers);
        let (setup, action) = MaterializeRun::start(
            self.session_id.clone(),
            cwd,
            config_servers,
            request_servers,
            false,
            options,
        );
        self.setup = Some(setup);
        self.stage = ResumeStage::Materializing;
        ResumeAction::Materialize(action)
    }

    /// Goes on after `event`. An event that the resumption does not wait for changes
    /// nothing.
    pub fn on_event(&mut self, registry: &mut SessionRegistry, event: ResumeEvent) -> (action:
        ResumeAction)
        requires
            old(self).wf(),
            old(registry).wf(),
        ensures
            final(self).wf(),
            final(registry).wf(),
            is_resume_step(
                *old(self),
                *old(registry),
                event,
                *final(self),
                *final(registry),
                action,
            ),
    {
        match (self.stage, event) {
            (ResumeStage::LookingUp, ResumeEvent::SessionFound(outcome)) => match outcome {
                Ok(exists) => {
                    let already = registry.local_actor_ref(self.session_id.as_str()).is_some();
                    let plan = resume_plan(
                        self.session_id.as_str(),
                        exists,
                        self.request_cwd.as_str(),
                        self.cwd_is_absolute,
                        already,
                    );
                    match plan {
                        Ok(ResumePlan::Reuse) => {
                            let session = registry.get(self.session_id.as_str()).unwrap().clone();
                            self.session = Some(session.clone());
                            self.stage = ResumeStage::ReadingMode;
                            ResumeAction::ReadMode { session, names: Vec::new(), event: None }
                        },
                        Ok(ResumePlan::Materialize { cwd, options }) => self.set_up(cwd, options),
                        Err(error) => self.refuse(error),
                    }
                },
                Err(reason) => self.refuse(SessionRequestError::Internal(reason)),
            },
            (ResumeStage::Materializing, ResumeEvent::Materialize(event)) => {
                let mut setup = self.setup.take().unwrap();
                let inner = setup.on_event(registry, event);
                self.setup = Some(setup);
                match inner {
                    MaterializeAction::Done(done) => {
                        let session = SessionActorRef::Local(done.actor);
                        self.session = Some(session.clone());
                        self.stage = ResumeStage::ReadingMode;
                        ResumeAction::ReadMode {
                            session,
                            names: done.names,
                            event: Some(AgentEventKind::SessionCreated),
                        }
                    },
                    MaterializeAction::Fail(error) => self.refuse(error),
                    MaterializeAction::Ignore => ResumeAction::Ignore,
                    next => ResumeAction::Materialize(next),
                }
            },
            (ResumeStage::ReadingMode, ResumeEvent::ModeRead(outcome)) => match outcome {
                Ok(mode) => {
                    self.mode = mode;
                    self.stage = ResumeStage::ReadingEffort;
                    let session = self.session.as_ref().unwrap().clone();
                    ResumeAction::ReadEffort { session }
                },
                Err(error) => self.refuse(error),
            },
            (ResumeStage::ReadingEffort, ResumeEvent::EffortRead(effort)) => {
                self.stage = ResumeStage::Finished;
                ResumeAction::Respond(Ok(resume_response(self.mode, effort, self.initial_effort)))
            },
            _ => ResumeAction::Ignore,
        }
    }
}

/// A session is forked only for the user, and only at the message that the request names or,
/// where it names none, at the last one; a fork that has neither is refused as empty.
pub proof fn law_forks_are_made_for_the_user(
    run: ForkRun,
    event: ForkEvent,
    after: ForkRun,
    action: ForkAction,
)
    requires
        is_fork_step(run, event, after, action),
    ensures
        action matches ForkAction::Fork { session_id, message_id, origin } ==> {
            &&& origin == ForkOrigin::User
            &&& session_id@ == run.session_id@
            &&& event matches ForkEvent::HistoryLoaded(Ok(history))
            &&& match run.named {
                Some(named) => message_id@ == named@,
                None => history@.len() > 0 && message_id@ == history@.last().id@,
            }
        },
        action == ForkAction::Respond(Err(SessionRequestError::EmptySessionFork)) <==> {
            &&& run.stage == ForkStage::LoadingHistory
            &&& run.named is None
            &&& event matches ForkEvent::HistoryLoaded(Ok(history))
            &&& history@.len() == 0
        },
{
}

/// A session that is asked for its mode is registered under its id.
pub proof fn law_resumed_sessions_are_registered(
    run: ResumeRun,
    registry: SessionRegistry,
    event: ResumeEvent,
    after: ResumeRun,
    registry_after: SessionRegistry,
    action: ResumeAction,
)
    requires
        run.wf(),
        registry.wf(),
        is_resume_step(run, registry, event, after, registry_after, action),
        action is ReadMode,
    ensures
        registry_after.sessions@.dom().contains(run.session_id@),
        action->ReadMode_session == registry_after.sessions@[run.session_id@],
{
}

/// A session that was set up here is not set up again when it is resumed.
pub proof fn law_sessions_are_set_up_once(
    run: ResumeRun,
    registry: SessionRegistry,
    event: ResumeEvent,
    after: ResumeRun,
    registry_after: SessionRegistry,
    action: ResumeAction,
)
    requires
        run.stage == ResumeStage::LookingUp,
        registry.local_actor_refs@.dom().contains(run.session_id@),
        is_resume_step(run, registry, event, after, registry_after, action),
    ensures
        !(action is Materialize),
        registry_after == registry,
{
}

/// Setting up a session changes the registry only when it succeeds.
pub proof fn law_failed_setups_register_nothing(
    run: MaterializeRun,
    registry: SessionRegistry,
    event: MaterializeEvent,
    after: MaterializeRun,
    registry_after: SessionRegistry,
    action: MaterializeAction,
)
    requires
        is_materialize_step(run, registry, event, after, registry_after, action),
        !(action is Done),
    ensures
        registry_after == registry,
{
}

/// A session that is there has its history loaded and is forked; one that is not is refused
/// by its id, and a failure is answered in its own words.
pub proof fn law_forks_are_answered(
    run: ForkRun,
    event: ForkEvent,
    after: ForkRun,
    action: ForkAction,
)
    requires
        is_fork_step(run, event, after, action),
    ensures
        after.session_id == run.session_id,
        after.named == run.named,
        run.stage == ForkStage::LookingUp && event == ForkEvent::SessionFound(Ok(true))
            ==> after.stage == ForkStage::LoadingHistory && action is LoadHistory,
        run.stage == ForkStage::LookingUp && event == ForkEvent::SessionFound(Ok(false))
            ==> after.stage == ForkStage::Finished && (action matches ForkAction::Respond(
            Err(SessionRequestError::InvalidParams { message, value }),
        ) && message@ == "source session not found"@ && value@ == run.session_id@),
        run.stage == ForkStage::LookingUp && (event matches ForkEvent::SessionFound(Err(_)))
            ==> after.stage == ForkStage::Finished && (action matches ForkAction::Respond(
            Err(SessionRequestError::Internal(message)),
        ) && message@ == event->SessionFound_0->Err_0@),
        run.stage == ForkStage::LoadingHistory && (event matches ForkEvent::HistoryLoaded(Err(_)))
            ==> after.stage == ForkStage::Finished && (action matches ForkAction::Respond(
            Err(SessionRequestError::Internal(message)),
        ) && message@ == event->HistoryLoaded_0->Err_0@),
        run.stage == ForkStage::Forking && (event matches ForkEvent::Forked(Ok(_))) ==> after.stage
            == ForkStage::Finished && action == ForkAction::Respond(Ok(event->Forked_0->Ok_0)),
        run.stage == ForkStage::Forking && (event matches ForkEvent::Forked(Err(_)))
            ==> after.stage == ForkStage::Finished && (action matches ForkAction::Respond(
            Err(SessionRequestError::Internal(message)),
        ) && message@ == event->Forked_0->Err_0@),
{
}

/// A session is forked at the message that the request names, and at its last message where
/// it names none.
pub proof fn law_sessions_are_forked_at_their_message(
    run: ForkRun,
    history: Vec<AgentMessage>,
    after: ForkRun,
    action: ForkAction,
)
    requires
        run.stage == ForkStage::LoadingHistory,
        is_fork_step(run, ForkEvent::HistoryLoaded(Ok(history)), after, action),
    ensures
        run.named matches Some(named) ==> after.stage == ForkStage::Forking && (action matches
            ForkAction::Fork { session_id, message_id, origin } && session_id@ == run.session_id@
            && message_id@ == named@ && origin == ForkOrigin::User),
        run.named is None && history@.len() > 0 ==> after.stage == ForkStage::Forking && (
        action matches ForkAction::Fork { session_id, message_id, origin } && session_id@
            == run.session_id@ && message_id@ == history@[history@.len() - 1].id@ && origin
            == ForkOrigin::User),
        run.named is None && history@.len() == 0 ==> after.stage == ForkStage::Finished && action
            == ForkAction::Respond(Err(SessionRequestError::EmptySessionFork)),
{
}

/// An event that does not belong to the stage of a request changes nothing.
pub proof fn law_other_events_leave_requests_alone(
    fork: ForkRun,
    forked: ForkEvent,
    fork_after: ForkRun,
    fork_action: ForkAction,
    setup: MaterializeRun,
    registry: SessionRegistry,
    made: MaterializeEvent,
    setup_after: MaterializeRun,
    registry_after: SessionRegistry,
    setup_action: MaterializeAction,
)
    requires
        is_fork_step(fork, forked, fork_after, fork_action),
        !(fork.stage == ForkStage::LookingUp && forked is SessionFound),
        !(fork.stage == ForkStage::LoadingHistory && forked is HistoryLoaded),
        !(fork.stage == ForkStage::Forking && forked is Forked),
        is_materialize_step(setup, registry, made, setup_after, registry_after, setup_action),
        !(setup.stage == MaterializeStage::BuildingMcp && made is McpBuilt),
        !(setup.stage == MaterializeStage::InitializingFork && made is ForkInitialized),
        !(setup.stage == MaterializeStage::Starting && made is ActorStarted),
        !(setup.stage == MaterializeStage::SettingBridge && made is BridgeSet),
    ensures
        fork_after == fork,
        fork_action is Ignore,
        setup_after == setup,
        registry_after == registry,
        setup_action is Ignore,
{
}

/// A session is set up in turn: a fork is initialised first, the actor works in the session's
/// directory and with the mesh where it is to be attached to it, and whatever fails ends the
/// set-up with its error.
pub proof fn law_actors_start_in_their_directory(
    run: MaterializeRun,
    registry: SessionRegistry,
    event: MaterializeEvent,
    after: MaterializeRun,
    registry_after: SessionRegistry,
    action: MaterializeAction,
)
    requires
        is_materialize_step(run, registry, event, after, registry_after, action),
        run.stage == MaterializeStage::BuildingMcp && event is McpBuilt || run.stage
            == MaterializeStage::InitializingFork && event is ForkInitialized,
    ensures
        registry_after == registry,
        after.session_id == run.session_id,
        after.cwd == run.cwd,
        after.options == run.options,
        event matches MaterializeEvent::McpBuilt(Err(error)) ==> after.stage
            == MaterializeStage::Finished && action == MaterializeAction::Fail(error),
        event matches MaterializeEvent::ForkInitialized(Err(reason)) ==> after.stage
            == MaterializeStage::Finished && action == MaterializeAction::Fail(
            SessionRequestError::Internal(reason),
        ),
        (event matches MaterializeEvent::McpBuilt(Ok(_))) && run.initialize_fork ==> after.stage
            == MaterializeStage::InitializingFork && action is InitializeFork,
        (event matches MaterializeEvent::ForkInitialized(Ok(_))) || ((event matches
            MaterializeEvent::McpBuilt(Ok(_))) && !run.initialize_fork) ==> after.stage
            == MaterializeStage::Starting && (action matches MaterializeAction::StartActor {
            cwd,
            mesh,
        } && cwd == run.cwd && (run.options.attach_mesh_handle ==> mesh == registry.mesh) && (
        !run.options.attach_mesh_handle ==> mesh is None)),
{
}

/// A session whose actor runs is registered as this node's under its own id, after the client
/// was told where there is one; it is published under its names where it is to be.
pub proof fn law_started_sessions_are_registered(
    run: MaterializeRun,
    registry: SessionRegistry,
    event: MaterializeEvent,
    after: MaterializeRun,
    registry_after: SessionRegistry,
    action: MaterializeAction,
    other: Seq<char>,
)
    requires
        is_materialize_step(run, registry, event, after, registry_after, action),
        run.stage == MaterializeStage::Starting && event is ActorStarted || run.stage
            == MaterializeStage::SettingBridge && event is BridgeSet,
    ensures
        ({
            let actor = if event is ActorStarted {
                event->ActorStarted_actor
            } else {
                run.actor
            };
            let id = run.session_id@;
            let waits = event is ActorStarted && registry.has_bridge;
            &&& waits ==> registry_after == registry && after.stage
                == MaterializeStage::SettingBridge && after.actor == actor && action == (
            MaterializeAction::SetBridge { actor })
            &&& !waits ==> {
                &&& after.stage == MaterializeStage::Finished
                &&& registry_after.sessions@.dom().contains(id)
                &&& registry_after.sessions@[id] == SessionActorRef::Local(actor)
                &&& registry_after.local_actor_refs@.dom().contains(id)
                &&& registry_after.local_actor_refs@[id] == actor
                &&& other != id ==> (registry_after.sessions@.dom().contains(other)
                    <==> registry.sessions@.dom().contains(other))
                &&& other != id && registry.sessions@.dom().contains(other)
                    ==> registry_after.sessions@[other] == registry.sessions@[other]
                &&& registry_after.relays == registry.relays
                &&& registry_after.mesh == registry.mesh
                &&& registry_after.has_bridge == registry.has_bridge
                &&& action matches MaterializeAction::Done(done)
                &&& done.actor == actor
                &&& !run.options.register_in_dht ==> done.names@.len() == 0
                &&& run.options.register_in_dht ==> text::texts(done.names@)
                    == registry.mesh_names(id)
            }
        }),
{
    if let MaterializeAction::Done(done) = action {
        assert(text::texts(done.names@).len() == done.names@.len());
    }
}

/// A session that is asked for anew: reused where it runs already, set up with the request's
/// directory and servers where it is stored, and refused otherwise.
pub proof fn law_resumed_sessions_are_reused_or_set_up(
    run: ResumeRun,
    registry: SessionRegistry,
    exists: bool,
    after: ResumeRun,
    registry_after: SessionRegistry,
    action: ResumeAction,
)
    requires
        run.stage == ResumeStage::LookingUp,
        is_resume_step(
            run,
            registry,
            ResumeEvent::SessionFound(Ok(exists)),
            after,
            registry_after,
            action,
        ),
    ensures
        ({
            let id = run.session_id@;
            let fine = run.request_cwd@.len() == 0 || run.cwd_is_absolute;
            let runs = registry.local_actor_refs@.dom().contains(id);
            &&& registry_after == registry
            &&& !exists ==> after.stage == ResumeStage::Finished && (action matches
                ResumeAction::Respond(Err(SessionRequestError::InvalidParams { message, value }))
                && message@ == "session not found"@ && value@ == id)
            &&& exists && !fine ==> after.stage == ResumeStage::Finished && (action matches
                ResumeAction::Respond(Err(SessionRequestError::InvalidParams { message, value }))
                && message@ == "cwd must be an absolute path"@ && value@ == run.request_cwd@)
            &&& exists && fine && runs ==> after.stage == ResumeStage::ReadingMode && (
            action matches ResumeAction::ReadMode { session, names, event } && session
                == registry.sessions@[id] && names@.len() == 0 && event is None)
            &&& exists && fine && !runs ==> {
                &&& after.stage == ResumeStage::Materializing
                &&& after.setup matches Some(setup)
                &&& setup.session_id@ == id
                &&& setup.stage == MaterializeStage::BuildingMcp
                &&& !setup.initialize_fork
                &&& setup.options.attach_mesh_handle
                &&& setup.options.register_in_dht
                &&& run.request_cwd@.len() == 0 ==> setup.cwd is None
                &&& run.request_cwd@.len() > 0 ==> (setup.cwd matches Some(path) && path@
                    == run.request_cwd@)
                &&& action matches ResumeAction::Materialize(MaterializeAction::BuildMcp(servers))
                &&& servers@ == session_mcp::overridden(
                    run.config_servers@,
                    run.request_servers@,
                )
            }
        }),
{
    let id = run.session_id@;
    let runs = registry.local_actor_refs@.dom().contains(id);
    let plan = choose|plan: Result<ResumePlan, SessionRequestError>|
        {
            &&& #[trigger] session_registry::is_resume_plan(
                id,
                exists,
                run.request_cwd@,
                run.cwd_is_absolute,
                runs,
                plan,
            )
            &&& match plan {
                Ok(ResumePlan::Reuse) => {
                    let session = registry.sessions@[id];
                    &&& after == (ResumeRun {
                        stage: ResumeStage::ReadingMode,
                        session: Some(session),
                        ..run
                    })
                    &&& action matches ResumeAction::ReadMode { session: asked, names, event }
                    &&& asked == session
                    &&& names@.len() == 0
                    &&& event is None
                },
                Ok(ResumePlan::Materialize { cwd, options }) => begins_setup(
                    run,
                    cwd,
                    options,
                    after,
                    action,
                ),
                Err(error) => after == (ResumeRun { stage: ResumeStage::Finished, ..run })
                    && resume_refused(action, error),
            }
        };
    session_registry::law_existing_sessions_are_resumed(
        id,
        exists,
        run.request_cwd@,
        run.cwd_is_absolute,
        runs,
        plan,
    );
}

/// A resumed session is asked for its mode and then its effort, and the answer shows both; an
/// effort that cannot be read is the initial one.
pub proof fn law_resumed_sessions_are_answered_with_their_state(
    run: ResumeRun,
    registry: SessionRegistry,
    mode: Result<AgentMode, SessionRequestError>,
    asked: ResumeRun,
    asked_action: ResumeAction,
    effort: Result<Option<ReasoningEffort>, String>,
    after: ResumeRun,
    action: ResumeAction,
)
    ensures
        run.stage == ResumeStage::ReadingMode && is_resume_step(
            run,
            registry,
            ResumeEvent::ModeRead(mode),
            asked,
            registry,
            asked_action,
        ) ==> {
            &&& mode matches Ok(mode) ==> asked.stage == ResumeStage::ReadingEffort && asked.mode
                == mode && asked.session == run.session && asked_action == (
            ResumeAction::ReadEffort { session: run.session->Some_0 })
            &&& mode matches Err(error) ==> asked.stage == ResumeStage::Finished && asked_action
                == ResumeAction::Respond(Err(error))
        },
        run.stage == ResumeStage::ReadingEffort && is_resume_step(
            run,
            registry,
            ResumeEvent::EffortRead(effort),
            after,
            registry,
            action,
        ) ==> {
            &&& after.stage == ResumeStage::Finished
            &&& action matches ResumeAction::Respond(Ok(response))
            &&& response.0.current_mode_id@ == crate::model::mode_id(run.mode)
            &&& response.1@.len() == 2
            &&& effort matches Ok(effort) ==> response.1@[1].current_value@
                == session_config::effort_value(effort)
            &&& effort is Err ==> response.1@[1].current_value@ == session_config::effort_value(
                run.initial_effort,
            )
        },
{
    if run.stage == ResumeStage::ReadingEffort && is_resume_step(
        run,
        registry,
        ResumeEvent::EffortRead(effort),
        after,
        registry,
        action,
    ) {
        let shown = match effort {
            Ok(effort) => effort,
            Err(_) => run.initial_effort,
        };
        session_config::law_resumed_sessions_show_where_they_are(
            action->Respond_0->Ok_0,
            run.mode,
            shown,
        );
    }
}

/// A session that is set up for a resumption goes through its set-up: what the set-up does is
/// done, a finished one is announced and asked for its mode, and a failed one is answered
/// with its error.
pub proof fn law_resumptions_go_through_the_set_up(
    run: ResumeRun,
    registry: SessionRegistry,
    event: MaterializeEvent,
    after: ResumeRun,
    registry_after: SessionRegistry,
    action: ResumeAction,
)
    requires
        run.wf(),
        run.stage == ResumeStage::Materializing,
        is_resume_step(
            run,
            registry,
            ResumeEvent::Materialize(event),
            after,
            registry_after,
            action,
        ),
    ensures
        after.session_id == run.session_id,
        after.initial_effort == run.initial_effort,
        after.setup is Some,
        after.setup->Some_0.stage != MaterializeStage::Finished ==> after.stage
            == ResumeStage::Materializing && after.session == run.session,
        after.stage == ResumeStage::Materializing || after.stage == ResumeStage::ReadingMode
            || after.stage == ResumeStage::Finished,
        after.stage == ResumeStage::ReadingMode <==> action is ReadMode,
        action matches ResumeAction::ReadMode { session, event: told, .. } ==> after.session
            == Some(session) && told == Some(AgentEventKind::SessionCreated),
        after.stage == ResumeStage::Finished <==> action is Respond,
        action is Respond ==> (action matches ResumeAction::Respond(Err(_))),
        run.setup->Some_0.stage == MaterializeStage::BuildingMcp ==> (event matches
            MaterializeEvent::McpBuilt(Err(error)) ==> action == ResumeAction::Respond(
            Err(error),
        )),
        run.setup->Some_0.stage == MaterializeStage::Starting && registry.has_bridge ==> (
        event matches MaterializeEvent::ActorStarted { actor } ==> action
            == ResumeAction::Materialize(MaterializeAction::SetBridge { actor })),
{
    let inner = choose|inner: MaterializeAction|
        {
            &&& #[trigger] is_materialize_step(
                run.setup->Some_0,
                registry,
                event,
                after.setup->Some_0,
                registry_after,
                inner,
            )
            &&& match inner {
                MaterializeAction::Done(done) => {
                    let session = SessionActorRef::Local(done.actor);
                    &&& after == (ResumeRun {
                        stage: ResumeStage::ReadingMode,
                        setup: after.setup,
                        session: Some(session),
                        ..run
                    })
                    &&& action == (ResumeAction::ReadMode {
                        session,
                        names: done.names,
                        event: Some(AgentEventKind::SessionCreated),
                    })
                },
                MaterializeAction::Fail(error) => {
                    &&& after == (ResumeRun {
                        stage: ResumeStage::Finished,
                        setup: after.setup,
                        ..run
                    })
                    &&& resume_refused(action, error)
                },
                MaterializeAction::Ignore => {
                    &&& after == (ResumeRun { setup: after.setup, ..run })
                    &&& action is Ignore
                },
                _ => {
                    &&& after == (ResumeRun { setup: after.setup, ..run })
                    &&& action == ResumeAction::Materialize(inner)
                },
            }
        };
    assert(inner is Done || inner is Fail ==> after.setup->Some_0.stage
        == MaterializeStage::Finished);
}

/// A resumption whose session cannot be looked for is answered with the reason, and an event
/// that does not belong to its stage changes nothing.
pub proof fn law_unreadable_sessions_are_not_resumed(
    run: ResumeRun,
    registry: SessionRegistry,
    event: ResumeEvent,
    after: ResumeRun,
    registry_after: SessionRegistry,
    action: ResumeAction,
)
    requires
        is_resume_step(run, registry, event, after, registry_after, action),
    ensures
        run.stage == ResumeStage::LookingUp ==> (event matches ResumeEvent::SessionFound(Err(reason))
            ==> after.stage == ResumeStage::Finished && registry_after == registry && action
            == ResumeAction::Respond(Err(SessionRequestError::Internal(reason)))),
        run.stage == ResumeStage::ReadingMode && event is ModeRead || run.stage
            == ResumeStage::ReadingEffort && event is EffortRead ==> registry_after == registry
            && after.session_id == run.session_id,
        !(run.stage == ResumeStage::LookingUp && event is SessionFound) && !(run.stage
            == ResumeStage::Materializing && event is Materialize) && !(run.stage
            == ResumeStage::ReadingMode && event is ModeRead) && !(run.stage
            == ResumeStage::ReadingEffort && event is EffortRead) ==> registry_after == registry
            && after == run && action is Ignore,
{
}

/// A set-up that begins for a resumption leaves what the resumption knows alone.
pub proof fn law_set_ups_leave_the_resumption_alone(
    run: ResumeRun,
    cwd: Option<String>,
    options: SessionMaterializationOptions,
    after: ResumeRun,
    action: ResumeAction,
)
    requires
        begins_setup(run, cwd, options, after, action),
    ensures
        after.session_id == run.session_id,
        after.initial_effort == run.initial_effort,
        after.session == run.session,
        after.mode == run.mode,
{
}

} // verus!
