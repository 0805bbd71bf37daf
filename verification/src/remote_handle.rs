//! Agents on other nodes: how their sessions are created, found and used.
use vstd::prelude::*;

use crate::error::AgentError;
use crate::scope;
use crate::scope::unscoped_session;
use crate::session_registry::SessionActorRef;
use crate::string_map::StringMap;

verus! {

/// How often a session that was just created is looked up.
pub const SESSION_LOOKUPS: usize = 4;

/// The way to a session that was created on another node.
#[derive(Debug, PartialEq, Eq)]
pub enum SessionHandoff {
    /// The actor itself.
    DirectRemote { actor_id: u64 },
    /// The actor can be looked up.
    LookupOnly,
    /// There is no way to it.
    NoAttachPath,
}

/// Why a request to an agent on another node failed.
#[derive(Debug, PartialEq, Eq)]
pub enum RemoteAgentError {
    /// An error with a code and its words.
    Protocol { code: i32, message: String },
    Agent(AgentError),
}

/// The code of the error that a peer is not there.
pub const PEER_NOT_FOUND: i32 = -32001;

/// An agent on another node.
#[derive(Debug)]
pub struct RemoteAgentHandle {
    pub peer_label: String,
    /// The sessions that were created there.
    pub sessions: StringMap<SessionActorRef>,
}

/// How the creation of a session goes on.
#[derive(Debug, PartialEq, Eq)]
pub enum CreateStep {
    /// The session is there.
    Created(SessionActorRef),
    /// The session is to be looked up under this name after this many milliseconds.
    LookUp { name: String, delay_ms: u64 },
    Fail(RemoteAgentError),
}

/// `session` is an actor on the node of the agent.
pub open spec fn is_remote(session: SessionActorRef, actor: u64, label: Seq<char>) -> bool {
    session matches SessionActorRef::Remote { actor_id, peer_label, remote_node_id } && actor_id
        == actor && peer_label@ == label && remote_node_id is None
}

/// How long to wait before a lookup, in milliseconds.
pub open spec fn lookup_delay(lookup: nat) -> u64 {
    if lookup == 0 {
        0
    } else if lookup == 1 {
        120
    } else if lookup == 2 {
        300
    } else {
        700
    }
}

fn delay_before(lookup: usize) -> (delay_ms: u64)
    ensures
        delay_ms == lookup_delay(lookup as nat),
{
    if lookup == 0 {
        0
    } else if lookup == 1 {
        120
    } else if lookup == 2 {
        300
    } else {
        700
    }
}

/// The error that there is no session, in these words.
pub open spec fn no_session(error: RemoteAgentError, words: Seq<char>) -> bool {
    error matches RemoteAgentError::Agent(AgentError::RemoteSessionNotFound { details }) && details@
        == words
}

/// `step` is the lookup of a session.
pub open spec fn is_lookup(step: CreateStep, session: Seq<char>, lookup: nat) -> bool {
    step matches CreateStep::LookUp { name, delay_ms } && name@ == scope::session_name(session)
        && delay_ms == lookup_delay(lookup)
}

/// The lookups of a session that was just created.
#[derive(Debug)]
pub struct SessionLookup {
    pub session_id: String,
    /// The lookups that were made.
    pub made: usize,
    /// Why the last lookup that failed did.
    pub last_error: Option<String>,
}

impl SessionLookup {
    /// The lookups of a session, of which none was made yet.
    pub fn new(session_id: String) -> (lookup: Self)
        ensures
            lookup.session_id == session_id,
            lookup.made == 0,
            lookup.last_error is None,
    {
        SessionLookup { session_id, made: 0, last_error: None }
    }

    /// What follows a lookup. Once all are made, the last failure is reported, or that the
    /// session is not there.
    pub fn on_result(&mut self, peer_label: &str, found: Result<Option<u64>, String>) -> (step:
        CreateStep)
        requires
            old(self).made < SESSION_LOOKUPS,
        ensures
            follows_lookup(*old(self), peer_label@, found, *final(self), step),
    {
        self.made = self.made + 1;
        match found {
            Ok(Some(actor_id)) => {
                return CreateStep::Created(
                    SessionActorRef::Remote {
                        actor_id,
                        peer_label: peer_label.to_owned(),
                        remote_node_id: None,
                    },
                );
            },
            Ok(None) => {},
            Err(reason) => {
                self.last_error = Some(reason);
            },
        }
        if self.made < SESSION_LOOKUPS {
            return CreateStep::LookUp {
                name: unscoped_session(self.session_id.as_str()),
                delay_ms: delay_before(self.made),
            };
        }
        match &self.last_error {
            Some(reason) => CreateStep::Fail(
                RemoteAgentError::Agent(
                    AgentError::SwarmLookupFailed {
                        key: unscoped_session(self.session_id.as_str()),
                        reason: reason.clone(),
                    },
                ),
            ),
            None => {
                let mut details = "remote session ".to_string();
                details.append(self.session_id.as_str());
                details.append(" created but not yet discoverable via lookup");
                CreateStep::Fail(
                    RemoteAgentError::Agent(AgentError::RemoteSessionNotFound { details }),
                )
            },
        }
    }
}

impl RemoteAgentHandle {
    /// No session is there twice.
    pub open spec fn wf(&self) -> bool {
        self.sessions.wf()
    }

    /// An agent without sessions.
    pub fn new(peer_label: String) -> (handle: Self)
        ensures
            handle.wf(),
            handle.peer_label == peer_label,
            handle.sessions@ == Map::<Seq<char>, SessionActorRef>::empty(),
    {
        RemoteAgentHandle { peer_label, sessions: StringMap::new() }
    }

    /// Checks whether the node of the agent was found.
    pub fn check_node(&self, found: Result<bool, String>) -> (checked: Result<
        (),
        RemoteAgentError,
    >)
        ensures
            match found {
                Ok(true) => checked is Ok,
                Ok(false) => checked matches Err(RemoteAgentError::Protocol { code, message })
                    && code == PEER_NOT_FOUND && message@ == "Remote peer '"@ + self.peer_label@
                    + "' not found in DHT (is the mesh running on that machine?)"@,
                Err(reason) => checked matches Err(
                    RemoteAgentError::Agent(AgentError::SwarmLookupFailed { key, reason: words }),
                ) && key@ == "node_manager"@ && words@ == reason@,
            },
    {
        match found {
            Ok(true) => Ok(()),
            Ok(false) => {
                let mut message = "Remote peer '".to_string();
                message.append(self.peer_label.as_str());
                message.append("' not found in DHT (is the mesh running on that machine?)");
                Err(RemoteAgentError::Protocol { code: PEER_NOT_FOUND, message })
            },
            Err(reason) => Err(
                RemoteAgentError::Agent(
                    AgentError::SwarmLookupFailed { key: "node_manager".to_string(), reason },
                ),
            ),
        }
    }

    /// How the creation of a session goes on once the node has answered.
    pub fn on_created(&self, session_id: &str, handoff: SessionHandoff) -> (step: CreateStep)
        ensures
            follows_handoff(self.peer_label@, session_id@, handoff, step),
    {
        match handoff {
            SessionHandoff::DirectRemote { actor_id } => CreateStep::Created(
                SessionActorRef::Remote {
                    actor_id,
                    peer_label: self.peer_label.clone(),
                    remote_node_id: None,
                },
            ),
            SessionHandoff::LookupOnly => CreateStep::LookUp {
                name: unscoped_session(session_id),
                delay_ms: delay_before(0),
            },
            SessionHandoff::NoAttachPath => {
                let mut details = "remote session ".to_string();
                details.append(session_id);
                details.append(
                    " was created but the remote node cannot provide a direct or lookup attach path",
                );
                CreateStep::Fail(
                    RemoteAgentError::Agent(AgentError::RemoteSessionNotFound { details }),
                )
            },
        }
    }

    /// Keeps a session that was created.
    pub fn store_session(&mut self, session_id: String, session: SessionActorRef)
        requires
            old(self).wf(),
        ensures
            final(self).wf(),
            final(self).sessions@ == old(self).sessions@.insert(session_id@, session),
            final(self).peer_label == old(self).peer_label,
    {
        self.sessions.insert(session_id, session);
    }

    /// The session that a prompt or a cancellation is for, if it was created. A prompt for
    /// a session that was not creates one first; a cancellation does nothing.
    pub fn session_for(&self, session_id: &str) -> (session: Option<SessionActorRef>)
        requires
            self.wf(),
        ensures
            session == if self.sessions@.dom().contains(session_id@) {
                Some(self.sessions@[session_id@])
            } else {
                None
            },
    {
        match self.sessions.get(session_id) {
            Some(session) => Some(session.clone()),
            None => None,
        }
    }
}

/// Where the creation of a session stands, that is, what it waits for.
#[derive(Debug, Clone, Copy, PartialEq, Eq, Structural)]
pub enum CreateStage {
    FindingNode,
    Creating,
    LookingUp,
    Finished,
}

/// What the creation of a session is told.
#[derive(Debug)]
pub enum CreateEvent {
    /// Whether the node of the agent was found.
    NodeFound(Result<bool, String>),
    /// The session that the node has created, and the way to it.
    SessionCreated(Result<(String, SessionHandoff), String>),
    LookedUp(Result<Option<u64>, String>),
}

/// What the creation of a session asks for.
#[derive(Debug)]
pub enum CreateAction {
    FindNode,
    CreateSession { cwd: Option<String> },
    /// Looks the session up under this name after this many milliseconds.
    LookUp { name: String, delay_ms: u64 },
    Respond(Result<(String, SessionActorRef), RemoteAgentError>),
    /// The event does not belong to the stage; nothing is to be done.
    Ignore,
}

/// The creation of one session.
#[derive(Debug)]
pub struct CreateRun {
    pub stage: CreateStage,
    pub cwd: Option<String>,
    /// The lookups of the session, once it is created.
    pub lookup: SessionLookup,
}

/// What is done with a step of the creation: the session is kept and answered, looked up, or
/// the failure is answered.
pub open spec fn performs(
    before: RemoteAgentHandle,
    session: Seq<char>,
    step: CreateStep,
    after: RemoteAgentHandle,
    stage: CreateStage,
    action: CreateAction,
) -> bool {
    match step {
        CreateStep::Created(session_ref) => {
            &&& stage == CreateStage::Finished
            &&& after.peer_label == before.peer_label
            &&& after.sessions@ == before.sessions@.insert(session, session_ref)
            &&& action matches CreateAction::Respond(Ok(created))
            &&& created.0@ == session
            &&& created.1 == session_ref
        },
        CreateStep::LookUp { name, delay_ms } => {
            &&& stage == CreateStage::LookingUp
            &&& after == before
            &&& action == (CreateAction::LookUp { name, delay_ms })
        },
        CreateStep::Fail(error) => {
            &&& stage == CreateStage::Finished
            &&& after == before
            &&& action == CreateAction::Respond(Err(error))
        },
    }
}

/// `step` is how the creation goes on once the node has answered.
pub open spec fn follows_handoff(
    label: Seq<char>,
    session: Seq<char>,
    handoff: SessionHandoff,
    step: CreateStep,
) -> bool {
    match handoff {
        SessionHandoff::DirectRemote { actor_id } => step matches CreateStep::Created(created)
            && is_remote(created, actor_id, label),
        SessionHandoff::LookupOnly => is_lookup(step, session, 0),
        SessionHandoff::NoAttachPath => step matches CreateStep::Fail(error) && no_session(
            error,
            "remote session "@ + session
                + " was created but the remote node cannot provide a direct or lookup attach path"@,
        ),
    }
}

/// `step` is how the creation goes on after a lookup.
pub open spec fn follows_lookup(
    before: SessionLookup,
    label: Seq<char>,
    found: Result<Option<u64>, String>,
    after: SessionLookup,
    step: CreateStep,
) -> bool {
    &&& after.session_id == before.session_id
    &&& after.made == before.made + 1
    &&& after.last_error == match found {
        Err(reason) => Some(reason),
        Ok(_) => before.last_error,
    }
    &&& match found {
        Ok(Some(actor)) => step matches CreateStep::Created(created) && is_remote(
            created,
            actor,
            label,
        ),
        _ => if after.made < SESSION_LOOKUPS {
            is_lookup(step, before.session_id@, after.made as nat)
        } else {
            step matches CreateStep::Fail(error) && match after.last_error {
                Some(last) => error matches RemoteAgentError::Agent(
                    AgentError::SwarmLookupFailed { key, reason },
                ) && key@ == scope::session_name(before.session_id@) && reason@ == last@,
                None => no_session(
                    error,
                    "remote session "@ + before.session_id@
                        + " created but not yet discoverable via lookup"@,
                ),
            }
        },
    }
}

/// What the creation of a session becomes and asks for on `event`, and what becomes of the
/// agent's sessions.
pub open spec fn is_create_step(
    before: RemoteAgentHandle,
    run: CreateRun,
    event: CreateEvent,
    after: RemoteAgentHandle,
    after_run: CreateRun,
    action: CreateAction,
) -> bool {
    match (run.stage, event) {
        (CreateStage::FindingNode, CreateEvent::NodeFound(found)) => {
            &&& after == before
            &&& match found {
                Ok(true) => {
                    &&& after_run.stage == CreateStage::Creating
                    &&& after_run.lookup == run.lookup
                    &&& action == (CreateAction::CreateSession { cwd: run.cwd })
                },
                Ok(false) => {
                    &&& after_run == (CreateRun { stage: CreateStage::Finished, ..run })
                    &&& action matches CreateAction::Respond(
                        Err(RemoteAgentError::Protocol { code, message }),
                    ) && code == PEER_NOT_FOUND && message@ == "Remote peer '"@ + before.peer_label@
                        + "' not found in DHT (is the mesh running on that machine?)"@
                },
                Err(reason) => {
                    &&& after_run == (CreateRun { stage: CreateStage::Finished, ..run })
                    &&& action matches CreateAction::Respond(
                        Err(
                            RemoteAgentError::Agent(
                                AgentError::SwarmLookupFailed { key, reason: words },
                            ),
                        ),
                    ) && key@ == "node_manager"@ && words@ == reason@
                },
            }
        },
        (CreateStage::Creating, CreateEvent::SessionCreated(created)) => match created {
            Err(reason) => {
                &&& after == before
                &&& after_run == (CreateRun { stage: CreateStage::Finished, ..run })
                &&& action == CreateAction::Respond(
                    Err(RemoteAgentError::Agent(AgentError::RemoteActor(reason))),
                )
            },
            Ok((session_id, handoff)) => {
                &&& after_run.lookup.session_id == session_id
                &&& after_run.lookup.made == 0
                &&& after_run.lookup.last_error is None
                &&& exists|step: CreateStep|
                    {
                        &&& #[trigger] follows_handoff(
                            before.peer_label@,
                            session_id@,
                            handoff,
                            step,
                        )
                        &&& performs(
                            before,
                            session_id@,
                            step,
                            after,
                            after_run.stage,
                            action,
                        )
                    }
            },
        },
        (CreateStage::LookingUp, CreateEvent::LookedUp(found)) => exists|step: CreateStep|
            {
                &&& #[trigger] follows_lookup(
                    run.lookup,
                    before.peer_label@,
                    found,
                    after_run.lookup,
                    step,
                )
                &&& performs(
                    before,
                    run.lookup.session_id@,
                    step,
                    after,
                    after_run.stage,
                    action,
                )
            },
        _ => after == before && after_run == run && action is Ignore,
    }
}

impl RemoteAgentHandle {
    /// Begins to create a session on the node of the agent, and says what is to be done
    /// first.
    pub fn create_remote_session(&self, cwd: Option<String>) -> (begun: (CreateRun, CreateAction))
        ensures
            begun.0.wf(),
            begun.0.stage == CreateStage::FindingNode,
            begun.0.cwd == cwd,
            begun.1 is FindNode,
    {
        let run = CreateRun {
            stage: CreateStage::FindingNode,
            cwd,
            lookup: SessionLookup::new(String::new()),
        };
        (run, CreateAction::FindNode)
    }

    fn perform(&mut self, session_id: &str, step: CreateStep) -> (performed: (
        CreateStage,
        CreateAction,
    ))
        requires
            old(self).wf(),
        ensures
            final(self).wf(),
            performs(
                *old(self),
                session_id@,
                step,
                *final(self),
                performed.0,
                performed.1,
            ),
    {
        match step {
            CreateStep::Created(session_ref) => {
                self.store_session(session_id.to_owned(), session_ref.clone());
                let created = (session_id.to_owned(), session_ref);
                (CreateStage::Finished, CreateAction::Respond(Ok(created)))
            },
            CreateStep::LookUp { name, delay_ms } => {
                (CreateStage::LookingUp, CreateAction::LookUp { name, delay_ms })
            },
            CreateStep::Fail(error) => (CreateStage::Finished, CreateAction::Respond(Err(error))),
        }
    }
}

impl CreateRun {
    /// A session is looked up no more often than allowed.
    pub open spec fn wf(&self) -> bool {
        self.stage == CreateStage::LookingUp ==> self.lookup.made < SESSION_LOOKUPS
    }

    /// Goes on after `event`. A session that was created is kept by the agent. An event that
    /// the creation does not wait for changes nothing.
    pub fn on_event(&mut self, handle: &mut RemoteAgentHandle, event: CreateEvent) -> (action:
        CreateAction)
        requires
            old(self).wf(),
            old(handle).wf(),
        ensures
            final(self).wf(),
            final(handle).wf(),
            is_create_step(
                *old(handle),
                *old(self),
                event,
                *final(handle),
                *final(self),
                action,
            ),
    {
        match (self.stage, event) {
            (CreateStage::FindingNode, CreateEvent::NodeFound(found)) => {
                match handle.check_node(found) {
                    Ok(_) => {
                        self.stage = CreateStage::Creating;
                        CreateAction::CreateSession { cwd: self.cwd.take() }
                    },
                    Err(error) => {
                        self.stage = CreateStage::Finished;
                        CreateAction::Respond(Err(error))
                    },
                }
            },
            (CreateStage::Creating, CreateEvent::SessionCreated(created)) => match created {
                Err(reason) => {
                    self.stage = CreateStage::Finished;
                    CreateAction::Respond(
                        Err(RemoteAgentError::Agent(AgentError::RemoteActor(reason))),
                    )
                },
                Ok((session_id, handoff)) => {
                    let step = handle.on_created(session_id.as_str(), handoff);
                    assert(follows_handoff(handle.peer_label@, session_id@, handoff, step));
                    let (stage, action) = handle.perform(session_id.as_str(), step);
                    self.lookup = SessionLookup::new(session_id);
                    self.stage = stage;
                    action
                },
            },
            (CreateStage::LookingUp, CreateEvent::LookedUp(found)) => {
                let ghost before = self.lookup;
                let step = self.lookup.on_result(handle.peer_label.as_str(), found);
                assert(follows_lookup(before, handle.peer_label@, found, self.lookup, step));
                let (stage, action) = handle.perform(self.lookup.session_id.as_str(), step);
                self.stage = stage;
                action
            },
            _ => CreateAction::Ignore,
        }
    }
}

/// A session that was created is the one that later prompts go to, and the others stay where
/// they were.
pub proof fn law_prompts_go_to_the_created_session(
    before: RemoteAgentHandle,
    run: CreateRun,
    event: CreateEvent,
    after: RemoteAgentHandle,
    after_run: CreateRun,
    action: CreateAction,
    other: Seq<char>,
)
    requires
        is_create_step(before, run, event, after, after_run, action),
        action matches CreateAction::Respond(response) && response is Ok,
    ensures
        ({
            let (id, session) = action->Respond_0->Ok_0;
            &&& after.sessions@.dom().contains(id@)
            &&& after.sessions@[id@] == session
            &&& other != id@ ==> after.sessions@.dom().contains(other)
                == before.sessions@.dom().contains(other)
            &&& other != id@ && before.sessions@.dom().contains(other) ==> after.sessions@[other]
                == before.sessions@[other]
        }),
{
}

/// A creation that fails leaves the agent's sessions as they were.
pub proof fn law_failed_creations_keep_the_sessions(
    before: RemoteAgentHandle,
    run: CreateRun,
    event: CreateEvent,
    after: RemoteAgentHandle,
    after_run: CreateRun,
    action: CreateAction,
)
    requires
        is_create_step(before, run, event, after, after_run, action),
        !(action matches CreateAction::Respond(response) && response is Ok),
    ensures
        after == before,
{
}

/// A remote session that can be reached directly is there at once, as the peer's; one that
/// can be looked up is looked up at once under its name; and one with no way to it fails.
pub proof fn law_created_sessions_are_reached(
    label: Seq<char>,
    session: Seq<char>,
    handoff: SessionHandoff,
    step: CreateStep,
)
    requires
        follows_handoff(label, session, handoff, step),
    ensures
        handoff matches SessionHandoff::DirectRemote { actor_id } ==> (step matches
            CreateStep::Created(SessionActorRef::Remote {
                actor_id: reached,
                peer_label,
                remote_node_id,
            }) && reached == actor_id && peer_label@ == label && remote_node_id is None),
        handoff is LookupOnly ==> (step matches CreateStep::LookUp { name, delay_ms } && name@
            == "session::"@ + session && delay_ms == 0),
        handoff is NoAttachPath ==> (step matches CreateStep::Fail(
            RemoteAgentError::Agent(AgentError::RemoteSessionNotFound { details }),
        ) && details@ == "remote session "@ + session
            + " was created but the remote node cannot provide a direct or lookup attach path"@),
{
}

/// A session is looked up four times at most, after waits that grow; where it is not found
/// the last failure is told, or that it cannot be discovered yet.
pub proof fn law_sessions_are_looked_up_four_times(
    before: SessionLookup,
    label: Seq<char>,
    found: Result<Option<u64>, String>,
    after: SessionLookup,
    step: CreateStep,
)
    requires
        follows_lookup(before, label, found, after, step),
        before.made < 4,
    ensures
        SESSION_LOOKUPS == 4,
        after.session_id == before.session_id,
        after.made == before.made + 1,
        found matches Err(reason) ==> after.last_error == Some(reason),
        found is Ok ==> after.last_error == before.last_error,
        found matches Ok(Some(actor)) ==> (step matches CreateStep::Created(
            SessionActorRef::Remote { actor_id, peer_label, remote_node_id },
        ) && actor_id == actor && peer_label@ == label && remote_node_id is None),
        !(found matches Ok(Some(_))) && before.made < 3 ==> (step matches CreateStep::LookUp {
            name,
            delay_ms,
        } && name@ == "session::"@ + before.session_id@ && (before.made == 0 ==> delay_ms == 120)
            && (before.made == 1 ==> delay_ms == 300) && (before.made == 2 ==> delay_ms == 700)),
        !(found matches Ok(Some(_))) && before.made == 3 && after.last_error is Some ==> (
        step matches CreateStep::Fail(RemoteAgentError::Agent(AgentError::SwarmLookupFailed {
            key,
            reason,
        })) && key@ == "session::"@ + before.session_id@ && reason@ == after.last_error->Some_0@),
        !(found matches Ok(Some(_))) && before.made == 3 && after.last_error is None ==> (
        step matches CreateStep::Fail(RemoteAgentError::Agent(AgentError::RemoteSessionNotFound {
            details,
        })) && details@ == "remote session "@ + before.session_id@
            + " created but not yet discoverable via lookup"@),
{
}

/// What a step of the creation does: a session that is there is stored under its id and
/// answered, a lookup is made, and a failure is answered.
pub proof fn law_creation_steps_are_performed(
    before: RemoteAgentHandle,
    session: Seq<char>,
    step: CreateStep,
    after: RemoteAgentHandle,
    stage: CreateStage,
    action: CreateAction,
)
    requires
        performs(before, session, step, after, stage, action),
    ensures
        after.peer_label == before.peer_label,
        step matches CreateStep::Created(made) ==> stage == CreateStage::Finished
            && after.sessions@.dom().contains(session) && after.sessions@[session] == made && (
        action matches CreateAction::Respond(Ok(answer)) && answer.0@ == session && answer.1
            == made),
        step matches CreateStep::LookUp { name, delay_ms } ==> stage == CreateStage::LookingUp
            && after == before && action == (CreateAction::LookUp { name, delay_ms }),
        step matches CreateStep::Fail(error) ==> stage == CreateStage::Finished && after == before
            && action == CreateAction::Respond(Err(error)),
{
}

/// A session is created on a node that was found, in the directory that was asked for; a
/// node that was not found is answered by the peer's name, and a failure in its own words.
pub proof fn law_sessions_are_created_on_found_nodes(
    before: RemoteAgentHandle,
    run: CreateRun,
    event: CreateEvent,
    after: RemoteAgentHandle,
    after_run: CreateRun,
    action: CreateAction,
)
    requires
        is_create_step(before, run, event, after, after_run, action),
    ensures
        run.stage == CreateStage::FindingNode ==> (event matches CreateEvent::NodeFound(found) ==> (
        found == Ok::<bool, String>(true) ==> after_run.stage == CreateStage::Creating && action
            == (CreateAction::CreateSession { cwd: run.cwd })) && (found == Ok::<bool, String>(false)
            ==> after_run.stage == CreateStage::Finished && (action matches CreateAction::Respond(
            Err(RemoteAgentError::Protocol { code, message }),
        ) && code == -32001 && message@ == "Remote peer '"@ + before.peer_label@
            + "' not found in DHT (is the mesh running on that machine?)"@)) && (found matches Err(
            reason,
        ) ==> after_run.stage == CreateStage::Finished && (action matches CreateAction::Respond(
            Err(RemoteAgentError::Agent(AgentError::SwarmLookupFailed { key, reason: words })),
        ) && key@ == "node_manager"@ && words@ == reason@))),
        run.stage == CreateStage::Creating ==> (event matches CreateEvent::SessionCreated(
            Err(reason),
        ) ==> after_run.stage == CreateStage::Finished && action == CreateAction::Respond(
            Err(RemoteAgentError::Agent(AgentError::RemoteActor(reason))),
        )),
        run.stage == CreateStage::Creating ==> (event matches CreateEvent::SessionCreated(Ok(made))
            ==> after_run.lookup.session_id == made.0 && after_run.lookup.made == 0
            && after_run.lookup.last_error is None),
        !(run.stage == CreateStage::FindingNode && event is NodeFound) && !(run.stage
            == CreateStage::Creating && event is SessionCreated) && !(run.stage
            == CreateStage::LookingUp && event is LookedUp) ==> after == before && after_run == run
            && action is Ignore,
{
}

/// A session that was created goes on by the way that its node has given, and one that is
/// looked up by what the lookup has found.
pub proof fn law_creations_go_on_by_the_way_given(
    before: RemoteAgentHandle,
    run: CreateRun,
    event: CreateEvent,
    after: RemoteAgentHandle,
    after_run: CreateRun,
    action: CreateAction,
)
    requires
        is_create_step(before, run, event, after, after_run, action),
    ensures
        run.stage == CreateStage::Creating ==> (event matches CreateEvent::SessionCreated(Ok((
            session_id,
            SessionHandoff::DirectRemote { actor_id },
        ))) ==> after_run.stage == CreateStage::Finished && (action matches CreateAction::Respond(
            Ok((answered, SessionActorRef::Remote { actor_id: reached, peer_label, .. })),
        ) && answered@ == session_id@ && reached == actor_id && peer_label@ == before.peer_label@)),
        run.stage == CreateStage::Creating ==> (event matches CreateEvent::SessionCreated(Ok((
            session_id,
            SessionHandoff::LookupOnly,
        ))) ==> after_run.stage == CreateStage::LookingUp && (action matches CreateAction::LookUp {
            name,
            delay_ms,
        } && name@ == "session::"@ + session_id@ && delay_ms == 0)),
        run.stage == CreateStage::Creating ==> (event matches CreateEvent::SessionCreated(Ok((
            session_id,
            SessionHandoff::NoAttachPath,
        ))) ==> after_run.stage == CreateStage::Finished && (action matches CreateAction::Respond(
            Err(RemoteAgentError::Agent(AgentError::RemoteSessionNotFound { .. })),
        ))),
        run.stage == CreateStage::LookingUp ==> (event matches CreateEvent::LookedUp(Ok(Some(actor)))
            ==> after_run.stage == CreateStage::Finished && (action matches CreateAction::Respond(
            Ok((answered, SessionActorRef::Remote { actor_id: reached, peer_label, .. })),
        ) && answered@ == run.lookup.session_id@ && reached == actor && peer_label@
            == before.peer_label@)),
{
}

/// A creation begins without a lookup, and ends without a session where its node or its
/// session fails.
pub proof fn law_creations_begin_without_a_lookup(
    before: RemoteAgentHandle,
    run: CreateRun,
    event: CreateEvent,
    after: RemoteAgentHandle,
    after_run: CreateRun,
    action: CreateAction,
)
    requires
        is_create_step(before, run, event, after, after_run, action),
    ensures
        run.stage == CreateStage::FindingNode && event is NodeFound ==> after == before
            && after_run.lookup == run.lookup,
        run.stage == CreateStage::Creating ==> (event matches CreateEvent::SessionCreated(Err(_))
            ==> after == before && after_run.lookup == run.lookup),
{
}

} // verus!
