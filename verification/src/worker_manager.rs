//! The worker processes of a node: each hosts one session, in a sandbox that lets it write
//! or not as the session's mode says.
use vstd::prelude::*;

use crate::model;
use crate::model::AgentMode;
use crate::runtime_handle::MeshRuntimeHandle;
use crate::session_registry::SessionActorRef;
use crate::string_map::StringMap;
use crate::text;

verus! {

/// How often the node's own address is asked for before a worker is started.
pub const ADDRESS_POLLS: usize = 20;

/// How long to wait between these attempts, in milliseconds.
pub const ADDRESS_POLL_DELAY_MS: u64 = 10;

/// How often a worker's session is looked up.
pub const REGISTRATION_LOOKUPS: usize = 8;

/// Why an operation on a worker failed.
#[derive(Debug, PartialEq, Eq)]
pub enum WorkerError {
    SpawnFailed(String),
    NotFound(String),
    RegistrationTimeout(String),
    ModeSwitchFailed(String),
    Io(String),
}

/// An error in words.
pub open spec fn error_text(error: WorkerError) -> Seq<char> {
    match error {
        WorkerError::SpawnFailed(reason) => "Failed to spawn worker process: "@ + reason@,
        WorkerError::NotFound(session) => "Worker not found for session: "@ + session@,
        WorkerError::RegistrationTimeout(details) => "Worker registration timeout for session: "@
            + details@,
        WorkerError::ModeSwitchFailed(reason) => "Mode switch failed: "@ + reason@,
        WorkerError::Io(reason) => "IO error: "@ + reason@,
    }
}

fn joined(head: &str, tail: &str) -> (out: String)
    ensures
        out@ == head@ + tail@,
{
    let mut out = head.to_owned();
    out.append(tail);
    out
}

impl WorkerError {
    /// The error in words.
    pub fn message(&self) -> (out: String)
        ensures
            out@ == error_text(*self),
    {
        match self {
            WorkerError::SpawnFailed(reason) => joined(
                "Failed to spawn worker process: ",
                reason.as_str(),
            ),
            WorkerError::NotFound(session) => joined(
                "Worker not found for session: ",
                session.as_str(),
            ),
            WorkerError::RegistrationTimeout(details) => joined(
                "Worker registration timeout for session: ",
                details.as_str(),
            ),
            WorkerError::ModeSwitchFailed(reason) => joined(
                "Mode switch failed: ",
                reason.as_str(),
            ),
            WorkerError::Io(reason) => joined("IO error: ", reason.as_str()),
        }
    }
}

/// A worker that runs.
#[derive(Debug, PartialEq, Eq)]
pub struct WorkerHandle {
    /// Tells the process from others.
    pub process: u64,
    pub session_ref: SessionActorRef,
    pub cwd: String,
    pub current_mode: AgentMode,
    /// Whether the worker is granted write access when it asks. A worker that is not
    /// supervised cannot ask.
    pub allow_write: Option<bool>,
}

/// A worker that was taken out, and is to be ended.
#[derive(Debug, PartialEq, Eq)]
pub struct DestroyedWorker {
    pub session_id: String,
    pub worker: WorkerHandle,
}

/// The workers of a node.
#[derive(Debug)]
pub struct WorkerManager {
    pub workers: StringMap<WorkerHandle>,
    pub mesh: Option<MeshRuntimeHandle>,
    /// The database that the workers share.
    pub db_path: Option<String>,
    pub worker_binary: String,
}

/// What a mode switch asks for.
#[derive(Debug, PartialEq, Eq)]
pub enum ModeSwitch {
    /// The worker is in the mode already.
    Unchanged,
    /// The mode is to be set on the worker's session.
    Forward { session_ref: SessionActorRef },
}

/// A worker whose mode is being switched: it is granted write access as the new mode says.
pub open spec fn switching(worker: WorkerHandle, new_mode: AgentMode) -> WorkerHandle {
    WorkerHandle {
        allow_write: match worker.allow_write {
            Some(_) => Some(new_mode == AgentMode::Build),
            None => None,
        },
        ..worker
    }
}

/// A worker whose mode was switched.
pub open spec fn switched(worker: WorkerHandle, new_mode: AgentMode) -> WorkerHandle {
    WorkerHandle { current_mode: new_mode, ..worker }
}

/// A worker that was started in a mode.
pub open spec fn started(
    process: u64,
    session_ref: SessionActorRef,
    cwd: String,
    mode: AgentMode,
    supervised: bool,
) -> WorkerHandle {
    WorkerHandle {
        process,
        session_ref,
        cwd,
        current_mode: mode,
        allow_write: if supervised {
            Some(mode == AgentMode::Build)
        } else {
            None
        },
    }
}

/// A worker is granted write access exactly where its mode writes.
pub open spec fn writes_as_its_mode_says(worker: WorkerHandle) -> bool {
    worker.allow_write matches Some(allowed) ==> allowed == (worker.current_mode
        == AgentMode::Build)
}

impl WorkerManager {
    /// No session has two workers.
    pub open spec fn wf(&self) -> bool {
        self.workers.wf()
    }

    /// A node without workers. They are started by the program `beside` the one that runs, if
    /// it is there, or else by the one that the search path gives.
    pub fn new(beside: Option<String>) -> (manager: Self)
        ensures
            manager.wf(),
            manager.workers@ == Map::<Seq<char>, WorkerHandle>::empty(),
            manager.workers.key_order().len() == 0,
            manager.mesh is None,
            manager.db_path is None,
            manager.worker_binary@ == worker_program(beside),
    {
        WorkerManager {
            workers: StringMap::new(),
            mesh: None,
            db_path: None,
            worker_binary: worker_binary_path(beside),
        }
    }

    /// Sets the program that workers are started by.
    pub fn set_worker_binary(&mut self, path: String)
        ensures
            *final(self) == (WorkerManager { worker_binary: path, ..*old(self) }),
    {
        self.worker_binary = path;
    }

    /// A node without workers that is in a mesh and has a database. The workers are started by
    /// the program `beside` the one that runs, if it is there, or else by the one that the
    /// search path gives.
    pub fn with_mesh_and_db(
        mesh: MeshRuntimeHandle,
        db_path: String,
        beside: Option<String>,
    ) -> (manager: Self)
        ensures
            manager.wf(),
            manager.workers@ == Map::<Seq<char>, WorkerHandle>::empty(),
            manager.workers.key_order().len() == 0,
            manager.mesh == Some(mesh),
            manager.db_path == Some(db_path),
            manager.worker_binary@ == worker_program(beside),
    {
        WorkerManager {
            workers: StringMap::new(),
            mesh: Some(mesh),
            db_path: Some(db_path),
            worker_binary: worker_binary_path(beside),
        }
    }

    /// Sets the mesh.
    pub fn set_mesh(&mut self, mesh: MeshRuntimeHandle)
        ensures
            *final(self) == (WorkerManager { mesh: Some(mesh), ..*old(self) }),
    {
        self.mesh = Some(mesh);
    }

    /// The mesh, if there is one.
    pub fn mesh_handle(&self) -> (mesh: Option<MeshRuntimeHandle>)
        ensures
            mesh == self.mesh,
    {
        match &self.mesh {
            Some(mesh) => Some(mesh.clone()),
            None => None,
        }
    }

    /// Sets the database.
    pub fn set_db_path(&mut self, db_path: String)
        ensures
            *final(self) == (WorkerManager { db_path: Some(db_path), ..*old(self) }),
    {
        self.db_path = Some(db_path);
    }

    /// Keeps a worker that was started for a session. It may write as its mode says.
    pub fn insert_worker(
        &mut self,
        session_id: &str,
        process: u64,
        session_ref: SessionActorRef,
        cwd: String,
        mode: AgentMode,
        supervised: bool,
    )
        requires
            old(self).wf(),
        ensures
            final(self).wf(),
            final(self).workers@ == old(self).workers@.insert(
                session_id@,
                started(process, session_ref, cwd, mode, supervised),
            ),
            *final(self) == (WorkerManager { workers: final(self).workers, ..*old(self) }),
    {
        let allow_write = if supervised {
            Some(!mode.is_read_only())
        } else {
            None
        };
        self.workers.insert(
            session_id.to_owned(),
            WorkerHandle { process, session_ref, cwd, current_mode: mode, allow_write },
        );
    }

    /// Begins to switch the mode of a worker. From now on the worker is granted write access
    /// as the new mode says; its session is told next.
    pub fn switch_mode(&mut self, session_id: &str, new_mode: AgentMode) -> (begun: Result<
        ModeSwitch,
        WorkerError,
    >)
        requires
            old(self).wf(),
        ensures
            final(self).wf(),
            *final(self) == (WorkerManager { workers: final(self).workers, ..*old(self) }),
            match begun {
                Err(error) => {
                    &&& !old(self).workers@.dom().contains(session_id@)
                    &&& error matches WorkerError::NotFound(id) && id@ == session_id@
                    &&& final(self).workers@ == old(self).workers@
                },
                Ok(switch) => {
                    let worker = old(self).workers@[session_id@];
                    &&& old(self).workers@.dom().contains(session_id@)
                    &&& if worker.current_mode == new_mode {
                        &&& switch == ModeSwitch::Unchanged
                        &&& final(self).workers@ == old(self).workers@
                    } else {
                        &&& switch == (ModeSwitch::Forward { session_ref: worker.session_ref })
                        &&& final(self).workers@ == old(self).workers@.insert(
                            session_id@,
                            switching(worker, new_mode),
                        )
                    }
                },
            },
    {
        match self.workers.get_mut(session_id) {
            None => Err(WorkerError::NotFound(session_id.to_owned())),
            Some(worker) => {
                let ghost before = *worker;
                if worker.current_mode == new_mode {
                    assert(old(self).workers@.insert(session_id@, before)
                        =~= old(self).workers@);
                    return Ok(ModeSwitch::Unchanged);
                }
                if worker.allow_write.is_some() {
                    worker.allow_write = Some(!new_mode.is_read_only());
                }
                Ok(ModeSwitch::Forward { session_ref: worker.session_ref.clone() })
            },
        }
    }

    /// Ends the switch of a worker's mode. A session that could not be told keeps its mode.
    pub fn finish_switch_mode(
        &mut self,
        session_id: &str,
        new_mode: AgentMode,
        forwarded: Result<(), String>,
    ) -> (finished: Result<(), WorkerError>)
        requires
            old(self).wf(),
            old(self).workers@.dom().contains(session_id@),
        ensures
            final(self).wf(),
            *final(self) == (WorkerManager { workers: final(self).workers, ..*old(self) }),
            match forwarded {
                Ok(_) => finished is Ok && final(self).workers@ == old(self).workers@.insert(
                    session_id@,
                    switched(old(self).workers@[session_id@], new_mode),
                ),
                Err(reason) => finished == Err::<(), WorkerError>(
                    WorkerError::ModeSwitchFailed(reason),
                ) && *final(self) == *old(self),
            },
    {
        match forwarded {
            Err(reason) => Err(WorkerError::ModeSwitchFailed(reason)),
            Ok(_) => {
                if let Some(worker) = self.workers.get_mut(session_id) {
                    worker.current_mode = new_mode;
                }
                Ok(())
            },
        }
    }

    /// Takes out the worker of a session, which is to be ended. That there is none is no
    /// error.
    pub fn destroy_worker(&mut self, session_id: &str) -> (taken: Option<WorkerHandle>)
        requires
            old(self).wf(),
        ensures
            final(self).wf(),
            final(self).workers@ == old(self).workers@.remove(session_id@),
            *final(self) == (WorkerManager { workers: final(self).workers, ..*old(self) }),
            taken == if old(self).workers@.dom().contains(session_id@) {
                Some(old(self).workers@[session_id@])
            } else {
                None
            },
    {
        self.workers.remove(session_id)
    }

    /// How many workers there are.
    pub fn len(&self) -> (n: usize)
        requires
            self.wf(),
        ensures
            n == self.workers.key_order().len(),
    {
        self.workers.len()
    }

    /// Whether there are no workers.
    pub fn is_empty(&self) -> (yes: bool)
        requires
            self.wf(),
        ensures
            yes == (self.workers@ == Map::<Seq<char>, WorkerHandle>::empty()),
            yes == (self.workers.key_order().len() == 0),
    {
        self.workers.is_empty()
    }

    /// Whether a session has a worker.
    pub fn has_worker(&self, session_id: &str) -> (yes: bool)
        requires
            self.wf(),
        ensures
            yes == self.workers@.dom().contains(session_id@),
    {
        self.workers.contains_key(session_id)
    }

    /// The sessions that have workers.
    pub fn session_ids(&self) -> (ids: Vec<String>)
        requires
            self.wf(),
        ensures
            text::texts(ids@) == self.workers.key_order(),
            forall|id: Seq<char>|
                text::texts(ids@).contains(id) <==> self.workers@.dom().contains(id),
    {
        let ids = self.workers.keys();
        proof {
            self.workers.lemma_key_order();
            assert(text::texts(ids@) =~= self.workers.key_order());
        }
        ids
    }

    /// The mode of a session's worker.
    pub fn worker_current_mode(&self, session_id: &str) -> (mode: AgentMode)
        requires
            self.wf(),
            self.workers@.dom().contains(session_id@),
        ensures
            mode == self.workers@[session_id@].current_mode,
    {
        match self.workers.get(session_id) {
            Some(worker) => worker.current_mode,
            None => AgentMode::Build,
        }
    }

    /// Takes out all workers, which are to be ended.
    pub fn destroy_all(&mut self) -> (taken: Vec<DestroyedWorker>)
        requires
            old(self).wf(),
        ensures
            final(self).wf(),
            final(self).workers@ == Map::<Seq<char>, WorkerHandle>::empty(),
            *final(self) == (WorkerManager { workers: final(self).workers, ..*old(self) }),
            taken@.len() == old(self).workers.key_order().len(),
            forall|i: int|
                0 <= i < taken@.len() ==> {
                    &&& (#[trigger] taken@[i]).session_id@ == old(self).workers.key_order()[i]
                    &&& taken@[i].worker == old(self).workers@[taken@[i].session_id@]
                },
    {
        let ids = self.session_ids();
        let ghost order = self.workers.key_order();
        let ghost all = self.workers@;
        proof {
            self.workers.lemma_key_order();
            assert forall|j: int| 0 <= j < order.len() implies self.workers@.dom().contains(
                #[trigger] order[j],
            ) by {
                assert(order.contains(order[j]));
            }
        }
        let mut taken: Vec<DestroyedWorker> = Vec::new();
        let mut i: usize = 0;
        while i < ids.len()
            invariant
                self.wf(),
                i <= ids@.len(),
                text::texts(ids@) == order,
                order.no_duplicates(),
                forall|id: Seq<char>| order.contains(id) <==> all.dom().contains(id),
                taken@.len() == i,
                *self == (WorkerManager { workers: self.workers, ..*old(self) }),
                forall|id: Seq<char>| #[trigger]
                    self.workers@.dom().contains(id) ==> all.dom().contains(id) && self.workers@[id]
                        == all[id],
                forall|j: int| 0 <= j < i ==> !self.workers@.dom().contains(#[trigger] order[j]),
                forall|j: int|
                    i <= j < order.len() ==> self.workers@.dom().contains(#[trigger] order[j]),
                forall|j: int|
                    0 <= j < i ==> {
                        &&& (#[trigger] taken@[j]).session_id@ == order[j]
                        &&& taken@[j].worker == all[order[j]]
                    },
            decreases ids@.len() - i,
        {
            assert(ids@[i as int]@ == order[i as int]);
            if let Some(worker) = self.workers.remove(ids[i].as_str()) {
                taken.push(DestroyedWorker { session_id: ids[i].clone(), worker });
            }
            i = i + 1;
        }
        proof {
            assert forall|id: Seq<char>| !self.workers@.dom().contains(id) by {
                if self.workers@.dom().contains(id) {
                    assert(order.contains(id));
                    let j = choose|j: int| 0 <= j < order.len() && order[j] == id;
                    assert(!self.workers@.dom().contains(order[j]));
                }
            }
            assert(self.workers@ =~= Map::<Seq<char>, WorkerHandle>::empty());
        }
        taken
    }
}

/// The program that workers are started by: the one beside the program that runs, if it is
/// there, or else the one that the search path gives.
pub open spec fn worker_program(beside: Option<String>) -> Seq<char> {
    match beside {
        Some(path) => path@,
        None => "querymt-worker"@,
    }
}

/// The program that workers are started by.
pub fn worker_binary_path(beside: Option<String>) -> (path: String)
    ensures
        path@ == worker_program(beside),
{
    match beside {
        Some(path) => path,
        None => "querymt-worker".to_string(),
    }
}

/// The name of the socket over which a worker is supervised.
pub fn supervisor_socket_name(session_id: &str) -> (name: String)
    ensures
        name@ == "sup-"@ + session_id@ + ".sock"@,
{
    let mut name = joined("sup-", session_id);
    name.append(".sock");
    name
}

/// What follows an attempt to get the node's own address.
#[derive(Debug, PartialEq, Eq)]
pub enum AddressStep {
    Found(String),
    /// To be asked for again after this many milliseconds.
    Retry { delay_ms: u64 },
    Fail(WorkerError),
}

/// What follows an attempt to get the node's own address. `attempts` were made so far, this
/// one included.
pub fn after_address_poll(attempts: usize, address: Option<String>) -> (step: AddressStep)
    ensures
        match address {
            Some(address) => step == AddressStep::Found(address),
            None => if attempts < ADDRESS_POLLS {
                step == (AddressStep::Retry { delay_ms: ADDRESS_POLL_DELAY_MS })
            } else {
                step matches AddressStep::Fail(WorkerError::SpawnFailed(reason)) && reason@
                    == "mesh listen address not available after 200ms; is bootstrap_mesh() fully initialised?"@
            },
        },
{
    match address {
        Some(address) => AddressStep::Found(address),
        None => if attempts < ADDRESS_POLLS {
            AddressStep::Retry { delay_ms: ADDRESS_POLL_DELAY_MS }
        } else {
            AddressStep::Fail(
                WorkerError::SpawnFailed(
                    "mesh listen address not available after 200ms; is bootstrap_mesh() fully initialised?".to_string(),
                ),
            )
        },
    }
}

/// The arguments of a worker, with the socket over which it is supervised where it is.
pub open spec fn arguments(
    session: Seq<char>,
    cwd: Seq<char>,
    mode: AgentMode,
    db_path: Seq<char>,
    address: Seq<char>,
    socket: Option<Seq<char>>,
) -> Seq<Seq<char>> {
    let common = seq![
        "--cwd"@,
        cwd,
        "--mode"@,
        model::mode_id(mode),
        "--session-id"@,
        session,
        "--db-path"@,
        db_path,
        "--mesh-peer"@,
        address,
    ];
    match socket {
        Some(path) => common + seq!["--supervisor-socket"@, path],
        None => common,
    }
}

impl WorkerManager {
    /// Whether a worker can be started at all: only in a mesh.
    pub fn check_mesh(&self) -> (checked: Result<(), WorkerError>)
        ensures
            match checked {
                Ok(_) => self.mesh is Some,
                Err(error) => self.mesh is None && (error matches WorkerError::SpawnFailed(reason)
                    && reason@
                    == "mesh handle not set on WorkerManager; cannot pass --mesh-peer to worker"@),
            },
    {
        match &self.mesh {
            Some(_) => Ok(()),
            None => Err(
                WorkerError::SpawnFailed(
                    "mesh handle not set on WorkerManager; cannot pass --mesh-peer to worker".to_string(),
                ),
            ),
        }
    }

    /// The arguments that a worker is started with.
    pub fn worker_arguments(
        &self,
        session_id: &str,
        cwd: &str,
        mode: AgentMode,
        address: &str,
        supervisor_socket: Option<&str>,
    ) -> (args: Result<Vec<String>, WorkerError>)
        ensures
            match args {
                Ok(args) => self.db_path is Some && text::texts(args@) == arguments(
                    session_id@,
                    cwd@,
                    mode,
                    self.db_path->Some_0@,
                    address@,
                    match supervisor_socket {
                        Some(path) => Some(path@),
                        None => None,
                    },
                ),
                Err(error) => self.db_path is None && (error matches WorkerError::SpawnFailed(
                    reason,
                ) && reason@
                    == "db_path not set on WorkerManager; cannot pass --db-path to worker"@),
            },
    {
        let db_path = match &self.db_path {
            Some(path) => path,
            None => {
                return Err(
                    WorkerError::SpawnFailed(
                        "db_path not set on WorkerManager; cannot pass --db-path to worker".to_string(),
                    ),
                )
            },
        };
        let mut args: Vec<String> = Vec::new();
        args.push("--cwd".to_string());
        args.push(cwd.to_owned());
        args.push("--mode".to_string());
        args.push(mode.as_str().to_string());
        args.push("--session-id".to_string());
        args.push(session_id.to_owned());
        args.push("--db-path".to_string());
        args.push(db_path.clone());
        args.push("--mesh-peer".to_string());
        args.push(address.to_owned());
        if let Some(path) = supervisor_socket {
            args.push("--supervisor-socket".to_string());
            args.push(path.to_owned());
        }
        assert(text::texts(args@) =~= arguments(
            session_id@,
            cwd@,
            mode,
            db_path@,
            address@,
            match supervisor_socket {
                Some(path) => Some(path@),
                None => None,
            },
        ));
        Ok(args)
    }
}

/// How long to wait after a lookup that found nothing, in milliseconds. The waits grow, up
/// to eight seconds.
pub open spec fn backoff(attempt: nat) -> u64 {
    if attempt == 0 {
        250
    } else if attempt == 1 {
        500
    } else if attempt == 2 {
        1000
    } else if attempt == 3 {
        2000
    } else if attempt == 4 {
        4000
    } else {
        8000
    }
}

/// What follows a lookup of a worker's session.
#[derive(Debug, PartialEq, Eq)]
pub enum RegistrationStep {
    Registered(SessionActorRef),
    /// To be looked up again after this many milliseconds.
    Retry { delay_ms: u64 },
    /// To be given up after this many milliseconds.
    GiveUp { delay_ms: u64, error: WorkerError },
}

/// What follows a lookup of a worker's session. `attempt` lookups were made before it. One
/// that failed counts like one that found nothing.
pub fn after_registration_lookup(
    session_id: &str,
    attempt: usize,
    found: Option<u64>,
) -> (step: RegistrationStep)
    ensures
        match found {
            Some(actor_id) => step matches RegistrationStep::Registered(SessionActorRef::Remote {
                actor_id: actor,
                peer_label,
                remote_node_id,
            }) && actor == actor_id && peer_label@ == "worker"@ && remote_node_id is None,
            None => if attempt + 1 < REGISTRATION_LOOKUPS {
                step == (RegistrationStep::Retry { delay_ms: backoff(attempt as nat) })
            } else {
                step matches RegistrationStep::GiveUp {
                    delay_ms,
                    error: WorkerError::RegistrationTimeout(details),
                } && delay_ms == backoff(attempt as nat) && details@
                    == "Worker registration timeout for session: session "@ + session_id@
                    + " not found in DHT after 30s"@
            },
        },
{
    match found {
        Some(actor_id) => RegistrationStep::Registered(
            SessionActorRef::Remote {
                actor_id,
                peer_label: "worker".to_string(),
                remote_node_id: None,
            },
        ),
        None => {
            let delay_ms: u64 = if attempt == 0 {
                250
            } else if attempt == 1 {
                500
            } else if attempt == 2 {
                1000
            } else if attempt == 3 {
                2000
            } else if attempt == 4 {
                4000
            } else {
                8000
            };
            if attempt < REGISTRATION_LOOKUPS - 1 {
                RegistrationStep::Retry { delay_ms }
            } else {
                let mut details = joined(
                    "Worker registration timeout for session: session ",
                    session_id,
                );
                details.append(" not found in DHT after 30s");
                RegistrationStep::GiveUp {
                    delay_ms,
                    error: WorkerError::RegistrationTimeout(details),
                }
            }
        },
    }
}

/// The waits for a worker's session get no shorter, and none is longer than eight seconds.
pub proof fn law_backoff_grows(a: nat, b: nat)
    requires
        a <= b,
    ensures
        250 <= backoff(a) <= backoff(b) <= 8000,
{
}

/// A worker in a mode that only reads is never granted write access, and one in a mode that
/// writes is: this holds of a worker that was just started, and after every switch of its
/// mode that was forwarded.
pub proof fn law_write_access_follows_the_mode(
    process: u64,
    session_ref: SessionActorRef,
    cwd: String,
    mode: AgentMode,
    supervised: bool,
    worker: WorkerHandle,
    new_mode: AgentMode,
)
    ensures
        writes_as_its_mode_says(started(process, session_ref, cwd, mode, supervised)),
        writes_as_its_mode_says(switched(switching(worker, new_mode), new_mode)),
{
}

/// A worker loses its write access before its session learns that it may only read, and a
/// worker that is not supervised is never granted any.
pub proof fn law_write_access_is_withdrawn_first(worker: WorkerHandle, new_mode: AgentMode)
    ensures
        new_mode != AgentMode::Build ==> switching(worker, new_mode).allow_write != Some(true),
        switching(worker, new_mode).current_mode == worker.current_mode,
        worker.allow_write is None ==> switching(worker, new_mode).allow_write is None,
{
}

/// An error of a worker says what went wrong in words of its own kind.
pub proof fn law_worker_errors_say_what_went_wrong(error: WorkerError)
    ensures
        error matches WorkerError::SpawnFailed(reason) ==> error_text(error)
            == "Failed to spawn worker process: "@ + reason@,
        error matches WorkerError::NotFound(session) ==> error_text(error)
            == "Worker not found for session: "@ + session@,
        error matches WorkerError::RegistrationTimeout(details) ==> error_text(error)
            == "Worker registration timeout for session: "@ + details@,
        error matches WorkerError::ModeSwitchFailed(reason) ==> error_text(error)
            == "Mode switch failed: "@ + reason@,
        error matches WorkerError::Io(reason) ==> error_text(error) == "IO error: "@ + reason@,
{
}

/// A worker starts with what it was started with; where it is supervised it may write exactly
/// in the mode that builds.
pub proof fn law_workers_start_in_their_mode(
    process: u64,
    session_ref: SessionActorRef,
    cwd: String,
    mode: AgentMode,
    supervised: bool,
)
    ensures
        ({
            let worker = started(process, session_ref, cwd, mode, supervised);
            &&& worker.process == process
            &&& worker.session_ref == session_ref
            &&& worker.cwd == cwd
            &&& worker.current_mode == mode
            &&& worker.allow_write is Some <==> supervised
            &&& supervised && mode == AgentMode::Build ==> worker.allow_write == Some(true)
            &&& supervised && mode != AgentMode::Build ==> worker.allow_write == Some(false)
        }),
{
}

/// A worker that switches its mode is granted or refused write access at once, and is in the
/// mode once the switch is done; nothing else of it changes.
pub proof fn law_workers_switch_their_mode(worker: WorkerHandle, new_mode: AgentMode)
    ensures
        worker.allow_write is Some && new_mode == AgentMode::Build ==> switching(
            worker,
            new_mode,
        ).allow_write == Some(true),
        worker.allow_write is Some && new_mode != AgentMode::Build ==> switching(
            worker,
            new_mode,
        ).allow_write == Some(false),
        switching(worker, new_mode).process == worker.process,
        switching(worker, new_mode).session_ref == worker.session_ref,
        switching(worker, new_mode).cwd == worker.cwd,
        switched(worker, new_mode).current_mode == new_mode,
        switched(worker, new_mode).allow_write == worker.allow_write,
        switched(worker, new_mode).process == worker.process,
        switched(worker, new_mode).session_ref == worker.session_ref,
        switched(worker, new_mode).cwd == worker.cwd,
{
}

/// The program that is run stands beside this one, or is found by its name; a worker is told
/// its directory, its mode, its session, its database, its peer and its socket, each behind
/// its flag.
pub proof fn law_workers_are_told_what_they_work_on(
    beside: Option<String>,
    session: Seq<char>,
    cwd: Seq<char>,
    mode: AgentMode,
    db_path: Seq<char>,
    address: Seq<char>,
    socket: Option<Seq<char>>,
)
    ensures
        beside matches Some(path) ==> worker_program(beside) == path@,
        beside is None ==> worker_program(beside) == "querymt-worker"@,
        ({
            let args = arguments(session, cwd, mode, db_path, address, socket);
            &&& args.len() == if socket is Some {
                12nat
            } else {
                10nat
            }
            &&& args[0] == "--cwd"@ && args[1] == cwd
            &&& args[2] == "--mode"@ && args[3] == model::mode_id(mode)
            &&& args[4] == "--session-id"@ && args[5] == session
            &&& args[6] == "--db-path"@ && args[7] == db_path
            &&& args[8] == "--mesh-peer"@ && args[9] == address
            &&& socket matches Some(path) ==> args[10] == "--supervisor-socket"@ && args[11] == path
        }),
{
}

/// The waits between the lookups of a worker double up to eight seconds; eight lookups are
/// made, and its node's address is asked for twenty times, ten milliseconds apart.
pub proof fn law_waits_for_workers_double(attempt: nat)
    ensures
        backoff(0) == 250,
        attempt < 5 ==> backoff(attempt + 1) == 2 * backoff(attempt),
        attempt >= 5 ==> backoff(attempt) == 8000,
        REGISTRATION_LOOKUPS == 8,
        ADDRESS_POLLS == 20,
        ADDRESS_POLL_DELAY_MS == 10,
        backoff(0) + backoff(1) + backoff(2) + backoff(3) + backoff(4) + backoff(5) + backoff(6)
            + backoff(7) == 31_750,
{
}

} // verus!
