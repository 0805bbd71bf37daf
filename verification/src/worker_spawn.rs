//! How a worker is started for a session.
//!
//! The start is a state machine that says what is to be done next and is told how that
//! went. Its order matters. The socket is bound before the worker runs, so that the worker
//! can connect to it; and the worker is supervised before its session is looked up, since
//! the worker waits for its first grant before it joins the mesh.
use vstd::prelude::*;

use crate::model::AgentMode;
use crate::scope;
use crate::scope::unscoped_session;
use crate::session_registry::SessionActorRef;
use crate::text;
use crate::worker_manager;
use crate::worker_manager::{
    after_address_poll, after_registration_lookup, supervisor_socket_name, AddressStep,
    RegistrationStep, WorkerError, WorkerManager,
};

verus! {

/// Where a start stands, that is, what it waits for.
#[derive(Debug, Clone, Copy, PartialEq, Eq, Structural)]
pub enum SpawnStage {
    BindingSocket,
    PollingAddress,
    Spawning,
    Accepting,
    LookingUp,
    Finished,
}

/// Why the socket was not bound.
#[derive(Debug, PartialEq, Eq)]
pub enum BindFailure {
    /// There is no directory for sockets.
    NoDirectory(String),
    Refused { path: String, reason: String },
}

/// What a start is told.
#[derive(Debug)]
pub enum SpawnEvent {
    /// The socket was bound at this path, or was not.
    SocketBound(Result<String, BindFailure>),
    /// The node's own address, if it is known yet.
    AddressPolled(Option<String>),
    /// The process was started, or was not.
    Spawned(Result<u64, String>),
    /// Whether the worker has connected and is supervised. One that has not runs on without
    /// supervision.
    Accepted { supervised: bool },
    /// The actor of the worker's session, if it was found.
    LookedUp(Option<u64>),
}

/// What a start asks for.
#[derive(Debug, PartialEq, Eq)]
pub enum SpawnAction {
    /// Binds a socket of this name, in place of one that was left behind.
    BindSocket { name: String },
    /// Asks for the node's own address after this many milliseconds.
    PollAddress { after_ms: u64 },
    Spawn { program: String, args: Vec<String> },
    /// Waits for the worker to connect, and supervises it from then on.
    Supervise { cwd: String, allow_write: bool },
    /// Looks the worker's session up after this many milliseconds.
    LookUp { name: String, after_ms: u64 },
    /// The start is over, after this many milliseconds.
    Respond { result: Result<SessionActorRef, WorkerError>, after_ms: u64 },
    /// The event does not belong to the stage; nothing is to be done.
    Ignore,
}

/// The start of one worker.
#[derive(Debug)]
pub struct SpawnRun {
    pub session_id: String,
    pub cwd: String,
    pub mode: AgentMode,
    pub stage: SpawnStage,
    /// How often the node's own address was asked for.
    pub polls: usize,
    /// How often the worker's session was looked up.
    pub lookups: usize,
    /// The socket, once it is bound.
    pub socket: Option<String>,
    /// The process, once it is started.
    pub process: u64,
    pub supervised: bool,
}

/// `run` at another stage, and otherwise the same.
pub open spec fn at(run: SpawnRun, stage: SpawnStage) -> SpawnRun {
    SpawnRun { stage, ..run }
}

/// `action` answers with an error, without delay.
pub open spec fn refuses(action: SpawnAction, reason: Seq<char>) -> bool {
    &&& action matches SpawnAction::Respond { result, after_ms }
    &&& after_ms == 0
    &&& result matches Err(WorkerError::SpawnFailed(words)) && words@ == reason
}

/// The words for a socket that was not bound.
pub open spec fn bind_failure_text(failure: BindFailure) -> Seq<char> {
    match failure {
        BindFailure::NoDirectory(reason) => reason@,
        BindFailure::Refused { path, reason } => "Failed to bind supervisor socket at "@ + path@
            + ": "@ + reason@,
    }
}

/// The name under which a worker's session is looked up.
pub open spec fn asks_for_session(run: SpawnRun, after_ms: u64, action: SpawnAction) -> bool {
    action matches SpawnAction::LookUp { name, after_ms: delay } && name@ == scope::session_name(
        run.session_id@,
    ) && delay == after_ms
}

/// The worker is kept under its session.
pub open spec fn keeps(
    before: WorkerManager,
    run: SpawnRun,
    session_ref: SessionActorRef,
    after: WorkerManager,
) -> bool {
    &&& after == (WorkerManager { workers: after.workers, ..before })
    &&& after.workers@ == before.workers@.insert(
        run.session_id@,
        worker_manager::started(run.process, session_ref, run.cwd, run.mode, run.supervised),
    )
}

/// What a start does once the node's own address was asked for.
pub open spec fn is_address_step(
    manager: WorkerManager,
    run: SpawnRun,
    address: Option<String>,
    after: SpawnRun,
    action: SpawnAction,
) -> bool {
    let polled = SpawnRun { polls: (run.polls + 1) as usize, ..run };
    match address {
        None => if run.polls + 1 < worker_manager::ADDRESS_POLLS {
            &&& after == polled
            &&& action == (SpawnAction::PollAddress {
                after_ms: worker_manager::ADDRESS_POLL_DELAY_MS,
            })
        } else {
            &&& after == at(polled, SpawnStage::Finished)
            &&& refuses(
                action,
                "mesh listen address not available after 200ms; is bootstrap_mesh() fully initialised?"@,
            )
        },
        Some(address) => match manager.db_path {
            None => {
                &&& after == at(polled, SpawnStage::Finished)
                &&& refuses(
                    action,
                    "db_path not set on WorkerManager; cannot pass --db-path to worker"@,
                )
            },
            Some(db_path) => {
                &&& after == at(polled, SpawnStage::Spawning)
                &&& action matches SpawnAction::Spawn { program, args }
                &&& program == manager.worker_binary
                &&& text::texts(args@) == worker_manager::arguments(
                    run.session_id@,
                    run.cwd@,
                    run.mode,
                    db_path@,
                    address@,
                    Some(run.socket->Some_0@),
                )
            },
        },
    }
}

/// What a start does once the worker's session was looked up.
pub open spec fn is_lookup_step(
    manager: WorkerManager,
    run: SpawnRun,
    found: Option<u64>,
    after_manager: WorkerManager,
    after: SpawnRun,
    action: SpawnAction,
) -> bool {
    let looked = SpawnRun { lookups: (run.lookups + 1) as usize, ..run };
    match found {
        Some(actor_id) => {
            &&& after == at(looked, SpawnStage::Finished)
            &&& action matches SpawnAction::Respond { result, after_ms }
            &&& after_ms == 0
            &&& result matches Ok(session_ref)
            &&& session_ref matches SessionActorRef::Remote {
                actor_id: actor,
                peer_label,
                remote_node_id,
            } && actor == actor_id && peer_label@ == "worker"@ && remote_node_id is None
            &&& keeps(manager, run, session_ref, after_manager)
        },
        None => {
            let delay = worker_manager::backoff(run.lookups as nat);
            &&& after_manager == manager
            &&& if run.lookups + 1 < worker_manager::REGISTRATION_LOOKUPS {
                after == looked && asks_for_session(run, delay, action)
            } else {
                &&& after == at(looked, SpawnStage::Finished)
                &&& action matches SpawnAction::Respond { result, after_ms }
                &&& after_ms == delay
                &&& result matches Err(WorkerError::RegistrationTimeout(details)) && details@
                    == "Worker registration timeout for session: session "@ + run.session_id@
                    + " not found in DHT after 30s"@
            }
        },
    }
}

/// What a start becomes and asks for on `event`, and what becomes of the workers.
pub open spec fn is_step(
    manager: WorkerManager,
    run: SpawnRun,
    event: SpawnEvent,
    after_manager: WorkerManager,
    after: SpawnRun,
    action: SpawnAction,
) -> bool {
    match (run.stage, event) {
        (SpawnStage::BindingSocket, SpawnEvent::SocketBound(bound)) => {
            &&& after_manager == manager
            &&& match bound {
                Err(failure) => {
                    &&& after == at(run, SpawnStage::Finished)
                    &&& refuses(action, bind_failure_text(failure))
                },
                Ok(path) => {
                    let with_socket = SpawnRun { socket: Some(path), ..run };
                    if manager.mesh is None {
                        &&& after == at(with_socket, SpawnStage::Finished)
                        &&& refuses(
                            action,
                            "mesh handle not set on WorkerManager; cannot pass --mesh-peer to worker"@,
                        )
                    } else {
                        &&& after == at(with_socket, SpawnStage::PollingAddress)
                        &&& action == (SpawnAction::PollAddress { after_ms: 0 })
                    }
                },
            }
        },
        (SpawnStage::PollingAddress, SpawnEvent::AddressPolled(address)) => {
            &&& after_manager == manager
            &&& is_address_step(manager, run, address, after, action)
        },
        (SpawnStage::Spawning, SpawnEvent::Spawned(started)) => {
            &&& after_manager == manager
            &&& match started {
                Err(reason) => {
                    &&& after == at(run, SpawnStage::Finished)
                    &&& refuses(action, reason@)
                },
                Ok(process) => {
                    &&& after == (SpawnRun { stage: SpawnStage::Accepting, process, ..run })
                    &&& action == (SpawnAction::Supervise {
                        cwd: run.cwd,
                        allow_write: run.mode == AgentMode::Build,
                    })
                },
            }
        },
        (SpawnStage::Accepting, SpawnEvent::Accepted { supervised }) => {
            &&& after_manager == manager
            &&& after == (SpawnRun { stage: SpawnStage::LookingUp, supervised, ..run })
            &&& asks_for_session(run, 0, action)
        },
        (SpawnStage::LookingUp, SpawnEvent::LookedUp(found)) => is_lookup_step(
            manager,
            run,
            found,
            after_manager,
            after,
            action,
        ),
        _ => after_manager == manager && after == run && action is Ignore,
    }
}

fn refuse(reason: String) -> (action: SpawnAction)
    ensures
        refuses(action, reason@),
{
    SpawnAction::Respond { result: Err(WorkerError::SpawnFailed(reason)), after_ms: 0 }
}

fn bind_failure(failure: BindFailure) -> (words: String)
    ensures
        words@ == bind_failure_text(failure),
{
    match failure {
        BindFailure::NoDirectory(reason) => reason,
        BindFailure::Refused { path, reason } => {
            let mut words = "Failed to bind supervisor socket at ".to_string();
            words.append(path.as_str());
            words.append(": ");
            words.append(reason.as_str());
            words
        },
    }
}

impl WorkerManager {
    /// Begins to start a worker for a session, and says what is to be done first.
    pub fn spawn_worker(&self, session_id: &str, cwd: String, mode: AgentMode) -> (begun: (
        SpawnRun,
        SpawnAction,
    ))
        ensures
            begun.0.wf(),
            begun.0.session_id@ == session_id@,
            begun.0.cwd == cwd,
            begun.0.mode == mode,
            begun.0.stage == SpawnStage::BindingSocket,
            begun.0.polls == 0,
            begun.0.lookups == 0,
            begun.0.socket is None,
            !begun.0.supervised,
            begun.1 matches SpawnAction::BindSocket { name } && name@ == "sup-"@ + session_id@
                + ".sock"@,
    {
        let run = SpawnRun {
            session_id: session_id.to_owned(),
            cwd,
            mode,
            stage: SpawnStage::BindingSocket,
            polls: 0,
            lookups: 0,
            socket: None,
            process: 0,
            supervised: false,
        };
        (run, SpawnAction::BindSocket { name: supervisor_socket_name(session_id) })
    }
}

impl SpawnRun {
    /// The address and the session are asked for no more often than allowed, and the
    /// socket is bound before anything else is asked for.
    pub open spec fn wf(&self) -> bool {
        &&& self.polls <= worker_manager::ADDRESS_POLLS
        &&& self.lookups <= worker_manager::REGISTRATION_LOOKUPS
        &&& self.stage == SpawnStage::PollingAddress ==> self.polls
            < worker_manager::ADDRESS_POLLS
        &&& self.stage == SpawnStage::LookingUp ==> self.lookups
            < worker_manager::REGISTRATION_LOOKUPS
        &&& self.stage == SpawnStage::Accepting ==> self.lookups == 0
        &&& self.stage == SpawnStage::Spawning ==> self.lookups == 0
        &&& self.stage == SpawnStage::PollingAddress ==> self.lookups == 0
        &&& self.stage == SpawnStage::BindingSocket ==> self.lookups == 0 && self.polls == 0
        &&& self.stage != SpawnStage::BindingSocket && self.stage != SpawnStage::Finished
            ==> self.socket is Some
    }

    fn address_polled(&mut self, manager: &WorkerManager, address: Option<String>) -> (action:
        SpawnAction)
        requires
            old(self).wf(),
            old(self).stage == SpawnStage::PollingAddress,
        ensures
            final(self).wf(),
            is_address_step(*manager, *old(self), address, *final(self), action),
    {
        self.polls = self.polls + 1;
        match after_address_poll(self.polls, address) {
            AddressStep::Retry { delay_ms } => SpawnAction::PollAddress { after_ms: delay_ms },
            AddressStep::Fail(error) => {
                self.stage = SpawnStage::Finished;
                SpawnAction::Respond { result: Err(error), after_ms: 0 }
            },
            AddressStep::Found(address) => {
                match manager.worker_arguments(
                    self.session_id.as_str(),
                    self.cwd.as_str(),
                    self.mode,
                    address.as_str(),
                    Some(self.socket.as_ref().unwrap().as_str()),
                ) {
                    Ok(args) => {
                        self.stage = SpawnStage::Spawning;
                        SpawnAction::Spawn { program: manager.worker_binary.clone(), args }
                    },
                    Err(error) => {
                        self.stage = SpawnStage::Finished;
                        SpawnAction::Respond { result: Err(error), after_ms: 0 }
                    },
                }
            },
        }
    }

    fn looked_up(&mut self, manager: &mut WorkerManager, found: Option<u64>) -> (action:
        SpawnAction)
        requires
            old(self).wf(),
            old(manager).wf(),
            old(self).stage == SpawnStage::LookingUp,
        ensures
            final(self).wf(),
            final(manager).wf(),
            is_lookup_step(
                *old(manager),
                *old(self),
                found,
                *final(manager),
                *final(self),
                action,
            ),
    {
        let attempt: usize = self.lookups;
        self.lookups = attempt + 1;
        match after_registration_lookup(self.session_id.as_str(), attempt, found) {
            RegistrationStep::Retry { delay_ms } => SpawnAction::LookUp {
                name: unscoped_session(self.session_id.as_str()),
                after_ms: delay_ms,
            },
            RegistrationStep::GiveUp { delay_ms, error } => {
                self.stage = SpawnStage::Finished;
                SpawnAction::Respond { result: Err(error), after_ms: delay_ms }
            },
            RegistrationStep::Registered(session_ref) => {
                self.stage = SpawnStage::Finished;
                manager.insert_worker(
                    self.session_id.as_str(),
                    self.process,
                    session_ref.clone(),
                    self.cwd.clone(),
                    self.mode,
                    self.supervised,
                );
                SpawnAction::Respond { result: Ok(session_ref), after_ms: 0 }
            },
        }
    }

    /// Goes on after `event`. A worker whose session was found is kept by the manager. An
    /// event that the start does not wait for changes nothing.
    pub fn on_event(&mut self, manager: &mut WorkerManager, event: SpawnEvent) -> (action:
        SpawnAction)
        requires
            old(self).wf(),
            old(manager).wf(),
        ensures
            final(self).wf(),
            final(manager).wf(),
            is_step(
                *old(manager),
                *old(self),
                event,
                *final(manager),
                *final(self),
                action,
            ),
    {
        match (self.stage, event) {
            (SpawnStage::BindingSocket, SpawnEvent::SocketBound(bound)) => match bound {
                Err(failure) => {
                    self.stage = SpawnStage::Finished;
                    refuse(bind_failure(failure))
                },
                Ok(path) => {
                    self.socket = Some(path);
                    match manager.check_mesh() {
                        Ok(_) => {
                            self.stage = SpawnStage::PollingAddress;
                            SpawnAction::PollAddress { after_ms: 0 }
                        },
                        Err(error) => {
                            self.stage = SpawnStage::Finished;
                            SpawnAction::Respond { result: Err(error), after_ms: 0 }
                        },
                    }
                },
            },
            (SpawnStage::PollingAddress, SpawnEvent::AddressPolled(address)) => {
                self.address_polled(manager, address)
            },
            (SpawnStage::Spawning, SpawnEvent::Spawned(started)) => match started {
                Err(reason) => {
                    self.stage = SpawnStage::Finished;
                    refuse(reason)
                },
                Ok(process) => {
                    self.process = process;
                    self.stage = SpawnStage::Accepting;
                    SpawnAction::Supervise {
                        cwd: self.cwd.clone(),
                        allow_write: !self.mode.is_read_only(),
                    }
                },
            },
            (SpawnStage::Accepting, SpawnEvent::Accepted { supervised }) => {
                self.supervised = supervised;
                self.stage = SpawnStage::LookingUp;
                SpawnAction::LookUp { name: unscoped_session(self.session_id.as_str()), after_ms: 0 }
            },
            (SpawnStage::LookingUp, SpawnEvent::LookedUp(found)) => self.looked_up(manager, found),
            _ => SpawnAction::Ignore,
        }
    }
}

/// The socket is bound before the worker is started, and the worker is started before it is
/// supervised.
pub proof fn law_socket_is_bound_first(
    manager: WorkerManager,
    run: SpawnRun,
    event: SpawnEvent,
    after_manager: WorkerManager,
    after: SpawnRun,
    action: SpawnAction,
)
    requires
        run.wf(),
        is_step(manager, run, event, after_manager, after, action),
    ensures
        action is Spawn ==> run.socket is Some,
        action is Supervise ==> (event matches SpawnEvent::Spawned(started) && started is Ok),
{
}

/// A worker's session is looked up only after it was settled whether the worker is
/// supervised.
pub proof fn law_supervision_comes_before_lookup(
    manager: WorkerManager,
    run: SpawnRun,
    event: SpawnEvent,
    after_manager: WorkerManager,
    after: SpawnRun,
    action: SpawnAction,
)
    requires
        is_step(manager, run, event, after_manager, after, action),
        action is LookUp,
    ensures
        event is Accepted || run.stage == SpawnStage::LookingUp,
{
}

/// The workers change only when the session of a new worker was found; a start that fails
/// leaves them as they were.
pub proof fn law_failed_starts_change_nothing(
    manager: WorkerManager,
    run: SpawnRun,
    event: SpawnEvent,
    after_manager: WorkerManager,
    after: SpawnRun,
    action: SpawnAction,
)
    requires
        is_step(manager, run, event, after_manager, after, action),
        !(action matches SpawnAction::Respond { result, .. } && result is Ok),
    ensures
        after_manager == manager,
{
}

/// A worker is started only with a socket and a mesh; where one is missing the start fails
/// and says which.
pub proof fn law_starts_need_socket_and_mesh(
    manager: WorkerManager,
    run: SpawnRun,
    bound: Result<String, BindFailure>,
    after_manager: WorkerManager,
    after: SpawnRun,
    action: SpawnAction,
)
    requires
        run.stage == SpawnStage::BindingSocket,
        is_step(manager, run, SpawnEvent::SocketBound(bound), after_manager, after, action),
    ensures
        after_manager == manager,
        bound matches Err(BindFailure::NoDirectory(reason)) ==> after.stage == SpawnStage::Finished
            && (action matches SpawnAction::Respond {
            result: Err(WorkerError::SpawnFailed(words)),
            after_ms,
        } && words@ == reason@ && after_ms == 0),
        bound matches Err(BindFailure::Refused { path, reason }) ==> after.stage
            == SpawnStage::Finished && (action matches SpawnAction::Respond {
            result: Err(WorkerError::SpawnFailed(words)),
            after_ms,
        } && words@ == "Failed to bind supervisor socket at "@ + path@ + ": "@ + reason@
            && after_ms == 0),
        bound is Ok && manager.mesh is None ==> after.stage == SpawnStage::Finished && (
        action matches SpawnAction::Respond {
            result: Err(WorkerError::SpawnFailed(words)),
            after_ms,
        } && words@ == "mesh handle not set on WorkerManager; cannot pass --mesh-peer to worker"@
            && after_ms == 0),
        bound matches Ok(path) ==> manager.mesh is Some ==> after.stage
            == SpawnStage::PollingAddress && after.socket == Some(path) && action == (
        SpawnAction::PollAddress { after_ms: 0 }),
{
}

/// The node's address is asked for up to twenty times; once it is known the worker is started
/// with its arguments, where there is a database.
pub proof fn law_workers_are_started_with_the_address(
    manager: WorkerManager,
    run: SpawnRun,
    address: Option<String>,
    after_manager: WorkerManager,
    after: SpawnRun,
    action: SpawnAction,
)
    requires
        run.wf(),
        run.stage == SpawnStage::PollingAddress,
        is_step(manager, run, SpawnEvent::AddressPolled(address), after_manager, after, action),
    ensures
        after_manager == manager,
        after.polls == run.polls + 1,
        address is None && run.polls < 19 ==> after.stage == SpawnStage::PollingAddress && action
            == (SpawnAction::PollAddress { after_ms: 10 }),
        address is None && run.polls == 19 ==> after.stage == SpawnStage::Finished && (
        action matches SpawnAction::Respond { result: Err(WorkerError::SpawnFailed(words)), .. }
            && words@
            == "mesh listen address not available after 200ms; is bootstrap_mesh() fully initialised?"@),
        address is Some && manager.db_path is None ==> after.stage == SpawnStage::Finished && (
        action matches SpawnAction::Respond { result: Err(WorkerError::SpawnFailed(words)), .. }
            && words@ == "db_path not set on WorkerManager; cannot pass --db-path to worker"@),
        address is Some && manager.db_path is Some ==> after.stage == SpawnStage::Spawning && (
        action matches SpawnAction::Spawn { program, args } && program == manager.worker_binary
            && text::texts(args@) == worker_manager::arguments(
            run.session_id@,
            run.cwd@,
            run.mode,
            manager.db_path->Some_0@,
            address->Some_0@,
            Some(run.socket->Some_0@),
        )),
{
}

/// A started worker is supervised in its directory, and may write exactly in the mode that
/// builds; then its session is looked up under its name.
pub proof fn law_started_workers_are_supervised(
    manager: WorkerManager,
    run: SpawnRun,
    event: SpawnEvent,
    after_manager: WorkerManager,
    after: SpawnRun,
    action: SpawnAction,
)
    requires
        is_step(manager, run, event, after_manager, after, action),
    ensures
        run.stage == SpawnStage::Spawning ==> (event matches SpawnEvent::Spawned(Ok(process))
            ==> after.stage == SpawnStage::Accepting && after.process == process && (
        action matches SpawnAction::Supervise { cwd, allow_write } && cwd == run.cwd && (allow_write
            <==> run.mode == AgentMode::Build))),
        run.stage == SpawnStage::Spawning ==> (event matches SpawnEvent::Spawned(Err(reason))
            ==> after.stage == SpawnStage::Finished && (action matches SpawnAction::Respond {
            result: Err(WorkerError::SpawnFailed(words)),
            ..
        } && words@ == reason@)),
        run.stage == SpawnStage::Accepting ==> (event matches SpawnEvent::Accepted { supervised }
            ==> after.stage == SpawnStage::LookingUp && after.supervised == supervised && (
        action matches SpawnAction::LookUp { name, after_ms } && name@ == "session::"@
            + run.session_id@ && after_ms == 0)),
        after.session_id == run.session_id,
        after.cwd == run.cwd,
        after.mode == run.mode,
        !(run.stage == SpawnStage::BindingSocket && event is SocketBound) && !(run.stage
            == SpawnStage::PollingAddress && event is AddressPolled) && !(run.stage
            == SpawnStage::Spawning && event is Spawned) && !(run.stage == SpawnStage::Accepting
            && event is Accepted) && !(run.stage == SpawnStage::LookingUp && event is LookedUp)
            ==> after == run && after_manager == manager && action is Ignore,
{
}

/// A worker whose session is found is kept under that session and answered as a remote
/// session; one that is not found is looked up again, eight times in all.
pub proof fn law_found_workers_are_kept(
    manager: WorkerManager,
    run: SpawnRun,
    found: Option<u64>,
    after_manager: WorkerManager,
    after: SpawnRun,
    action: SpawnAction,
    other: Seq<char>,
)
    requires
        run.wf(),
        run.stage == SpawnStage::LookingUp,
        is_step(manager, run, SpawnEvent::LookedUp(found), after_manager, after, action),
    ensures
        after.lookups == run.lookups + 1,
        found matches Some(actor) ==> {
            &&& after.stage == SpawnStage::Finished
            &&& action matches SpawnAction::Respond { result: Ok(session), after_ms }
            &&& after_ms == 0
            &&& session matches SessionActorRef::Remote { actor_id, peer_label, remote_node_id }
            &&& actor_id == actor
            &&& peer_label@ == "worker"@
            &&& remote_node_id is None
            &&& after_manager.workers@.dom().contains(run.session_id@)
            &&& after_manager.workers@[run.session_id@].session_ref == session
            &&& after_manager.workers@[run.session_id@].process == run.process
            &&& after_manager.workers@[run.session_id@].cwd == run.cwd
            &&& after_manager.workers@[run.session_id@].current_mode == run.mode
            &&& other != run.session_id@ ==> (after_manager.workers@.dom().contains(other)
                <==> manager.workers@.dom().contains(other))
            &&& other != run.session_id@ && manager.workers@.dom().contains(other)
                ==> after_manager.workers@[other] == manager.workers@[other]
            &&& after_manager.mesh == manager.mesh
            &&& after_manager.db_path == manager.db_path
            &&& after_manager.worker_binary == manager.worker_binary
        },
        found is None ==> after_manager == manager,
        found is None && run.lookups < 7 ==> after.stage == SpawnStage::LookingUp && (
        action matches SpawnAction::LookUp { name, after_ms } && name@ == "session::"@
            + run.session_id@ && after_ms == worker_manager::backoff(run.lookups as nat)),
        found is None && run.lookups == 7 ==> after.stage == SpawnStage::Finished && (
        action matches SpawnAction::Respond {
            result: Err(WorkerError::RegistrationTimeout(details)),
            after_ms,
        } && after_ms == 8000 && details@ == "Worker registration timeout for session: session "@
            + run.session_id@ + " not found in DHT after 30s"@),
{
}

} // verus!
