//! Setting up sessions: what is needed to prepare one, and what is left to be done once it
//! is registered.
//!
//! A session is prepared without holding up the registry, is then registered, and is then
//! finalized. Preparing and finalizing are state machines: they say what is to be done next,
//! are told how that went, and go on from there.
use vstd::prelude::*;

use crate::events::AgentEventKind;
use crate::json;
use crate::json::JsonValue;
use crate::model::AgentMode;
use crate::runtime_handle::MeshRuntimeHandle;
use crate::session_mcp;
use crate::session_mcp::{
    override_servers, split_attachments, supplement_servers, ConnectedMcpPeer, McpServer,
    SessionMaterializationKind, SessionMcpAttachment, SessionMcpAttachmentContext,
};
use crate::session_registry;
use crate::session_registry::{
    checked_cwd, scoped_session_names, SessionActorRef, SessionRequestError,
};
use crate::string_map::StringMap;
use crate::text;

verus! {

/// The sessions that are being set up, and how many callers are at each.
#[derive(Debug)]
pub struct InflightSessions {
    callers: StringMap<u64>,
}

impl View for InflightSessions {
    type V = Map<Seq<char>, u64>;

    closed spec fn view(&self) -> Map<Seq<char>, u64> {
        self.callers@
    }
}

impl InflightSessions {
    /// A session is there as long as a caller is at it, and no longer.
    pub closed spec fn wf(&self) -> bool {
        &&& self.callers.wf()
        &&& forall|id: Seq<char>| #[trigger]
            self.callers@.dom().contains(id) ==> self.callers@[id] > 0
    }

    /// How many callers are at a session.
    pub open spec fn at(&self, id: Seq<char>) -> nat {
        if self@.dom().contains(id) {
            self@[id] as nat
        } else {
            0
        }
    }

    /// `after` is with one more caller at a session.
    pub open spec fn entered(&self, id: Seq<char>, after: InflightSessions) -> bool {
        after@ == self@.insert(id, (self.at(id) + 1) as u64)
    }

    /// `after` is with one caller less at a session, which is forgotten with the last one.
    pub open spec fn left(&self, id: Seq<char>, after: InflightSessions) -> bool {
        after@ == if self.at(id) == 1 {
            self@.remove(id)
        } else {
            self@.insert(id, (self.at(id) - 1) as u64)
        }
    }

    /// No session is being set up.
    pub fn new() -> (inflight: Self)
        ensures
            inflight.wf(),
            inflight@ == Map::<Seq<char>, u64>::empty(),
    {
        InflightSessions { callers: StringMap::new() }
    }

    /// A caller comes to a session. Whether it has to wait for others that came before.
    pub fn enter(&mut self, session_id: &str) -> (must_wait: bool)
        requires
            old(self).wf(),
            old(self).at(session_id@) < u64::MAX,
        ensures
            final(self).wf(),
            must_wait == (old(self).at(session_id@) > 0),
            old(self).entered(session_id@, *final(self)),
    {
        let before: u64 = match self.callers.get(session_id) {
            Some(n) => *n,
            None => 0,
        };
        self.callers.insert(session_id.to_owned(), before + 1);
        before > 0
    }

    /// A caller leaves a session. Whether it was the last one, with which the session is
    /// forgotten.
    pub fn leave(&mut self, session_id: &str) -> (was_last: bool)
        requires
            old(self).wf(),
            old(self).at(session_id@) > 0,
        ensures
            final(self).wf(),
            was_last == (old(self).at(session_id@) == 1),
            old(self).left(session_id@, *final(self)),
    {
        let before: u64 = match self.callers.get(session_id) {
            Some(n) => *n,
            None => 0,
        };
        if before <= 1 {
            self.callers.remove(session_id);
            true
        } else {
            self.callers.insert(session_id.to_owned(), before - 1);
            false
        }
    }
}

/// What the setting up of sessions shares: which sessions are being set up, and the mesh.
#[derive(Debug)]
pub struct SessionMaterializer {
    pub inflight: InflightSessions,
    pub mesh: Option<MeshRuntimeHandle>,
}

impl SessionMaterializer {
    /// Nothing is being set up, and there is no mesh.
    pub fn new() -> (materializer: Self)
        ensures
            materializer.inflight.wf(),
            materializer.inflight@ == Map::<Seq<char>, u64>::empty(),
            materializer.mesh is None,
    {
        SessionMaterializer { inflight: InflightSessions::new(), mesh: None }
    }

    /// The node has joined a mesh.
    pub fn set_mesh(&mut self, mesh: MeshRuntimeHandle)
        ensures
            *final(self) == (SessionMaterializer { mesh: Some(mesh), ..*old(self) }),
    {
        self.mesh = Some(mesh);
    }

    /// The node has left the mesh.
    pub fn clear_mesh(&mut self)
        ensures
            *final(self) == (SessionMaterializer { mesh: None, ..*old(self) }),
    {
        self.mesh = None;
    }

    /// The mesh that the node is in.
    pub fn mesh(&self) -> (mesh: Option<MeshRuntimeHandle>)
        ensures
            mesh == self.mesh,
    {
        match &self.mesh {
            Some(mesh) => Some(mesh.clone()),
            None => None,
        }
    }

    /// The names under which a session is to be published: one in each scope of the mesh.
    pub fn publication_names(&self, session_id: &str) -> (names: Vec<String>)
        ensures
            text::texts(names@) == match self.mesh {
                Some(mesh) => session_registry::session_names(
                    mesh.inner.active_scopes@,
                    session_id@,
                ),
                None => Seq::empty(),
            },
    {
        match &self.mesh {
            Some(mesh) => {
                let scopes = mesh.active_scopes();
                scoped_session_names(&scopes, session_id)
            },
            None => {
                let names: Vec<String> = Vec::new();
                assert(text::texts(names@) =~= Seq::<Seq<char>>::empty());
                names
            },
        }
    }
}

/// The MCP servers and peers of a session.
#[derive(Debug, PartialEq, Eq)]
pub struct ResolvedSessionMcpInputs {
    pub server_configs: Vec<McpServer>,
    pub connected_peers: Vec<ConnectedMcpPeer>,
}

/// The servers of a session: those that are configured, overridden by those that the client
/// asks for, and those that the runtime attaches under names that are not taken yet.
pub open spec fn resolved_servers(
    config: Seq<McpServer>,
    request: Seq<McpServer>,
    attachments: Seq<SessionMcpAttachment>,
) -> Seq<McpServer> {
    session_mcp::supplemented(
        session_mcp::overridden(config, request),
        session_mcp::servers_of(attachments),
    )
}

/// The MCP servers and peers of a session.
pub fn resolve_mcp_inputs(
    config_servers: Vec<McpServer>,
    request_servers: Vec<McpServer>,
    attachments: Vec<SessionMcpAttachment>,
) -> (resolved: ResolvedSessionMcpInputs)
    ensures
        resolved.server_configs@ == resolved_servers(
            config_servers@,
            request_servers@,
            attachments@,
        ),
        resolved.connected_peers@ == session_mcp::peers_of(attachments@),
{
    let (attached_servers, connected_peers) = split_attachments(attachments);
    let requested = override_servers(config_servers, request_servers);
    let server_configs = supplement_servers(requested, attached_servers);
    ResolvedSessionMcpInputs { server_configs, connected_peers }
}

/// The string that a JSON value is, if it is one.
pub open spec fn as_text(value: Option<JsonValue>) -> Option<Seq<char>> {
    match value {
        Some(JsonValue::Str(text)) => Some(text@),
        _ => None,
    }
}

fn text_of(value: Option<&JsonValue>) -> (text: Option<String>)
    ensures
        match text {
            Some(text) => value is Some && as_text(Some(*value->Some_0)) == Some(text@),
            None => value is None || as_text(Some(*value->Some_0)) is None,
        },
{
    match value {
        Some(JsonValue::Str(text)) => Some(text.clone()),
        _ => None,
    }
}

/// The message that the metadata of a request names: the member `message_id`, or
/// `messageId` where that is missing, of the member `querymt`. An empty text names none.
pub open spec fn named_message(meta: Option<JsonValue>) -> Option<Seq<char>> {
    match meta {
        None => None,
        Some(meta) => match json::field(meta, "querymt"@) {
            None => None,
            Some(querymt) => {
                let value = match json::field(querymt, "message_id"@) {
                    Some(value) => Some(value),
                    None => json::field(querymt, "messageId"@),
                };
                match as_text(value) {
                    Some(id) if id.len() > 0 => Some(id),
                    _ => None,
                }
            },
        },
    }
}

/// The message that the metadata of a request names.
pub fn fork_message_id_from_meta(meta: Option<&JsonValue>) -> (id: Option<String>)
    ensures
        match id {
            Some(id) => meta is Some && named_message(Some(*meta->Some_0)) == Some(id@),
            None => meta is None || named_message(Some(*meta->Some_0)) is None,
        },
{
    let meta = match meta {
        Some(meta) => meta,
        None => return None,
    };
    let querymt = match json::get(meta, "querymt") {
        Some(querymt) => querymt,
        None => return None,
    };
    let value = match json::get(querymt, "message_id") {
        Some(value) => Some(value),
        None => json::get(querymt, "messageId"),
    };
    match text_of(value) {
        Some(id) => if id.as_str().is_empty() {
            None
        } else {
            Some(id)
        },
        None => None,
    }
}

/// The session that the metadata of a request names as the parent.
pub fn parent_session_id_from_meta(meta: Option<&JsonValue>) -> (id: Option<String>)
    ensures
        match id {
            Some(id) => meta is Some && as_text(
                json::field(*meta->Some_0, "parent_session_id"@),
            ) == Some(id@),
            None => meta is None || as_text(
                json::field(*meta->Some_0, "parent_session_id"@),
            ) is None,
        },
{
    match meta {
        Some(meta) => text_of(json::get(meta, "parent_session_id")),
        None => None,
    }
}

/// How a session comes to be set up.
#[derive(Debug, Clone, Copy, PartialEq, Eq, Structural)]
pub enum PrepareKind {
    New,
    Load,
    Resume,
}

/// Where the preparation of a session stands, that is, what it waits for.
#[derive(Debug, Clone, Copy, PartialEq, Eq, Structural)]
pub enum PrepareStage {
    Locking,
    LookingUp,
    Creating,
    Loading,
    Attaching,
    BuildingMcp,
    InitializingFork,
    Spawning,
    MergingPeers,
    Finished,
}

/// What the preparation of a session is told.
#[derive(Debug)]
pub enum PrepareEvent {
    /// No one else is setting up the session.
    Locked,
    /// The session, if it is registered.
    LookedUp(Option<SessionActorRef>),
    /// The id of the session that was created.
    Created(Result<String, String>),
    /// The working directory of the session, if there is such a session and it has one.
    Loaded(Result<Option<Option<String>>, String>),
    /// What the runtime attaches.
    Attached(Result<Vec<SessionMcpAttachment>, String>),
    McpBuilt(Result<(), String>),
    ForkInitialized(Result<(), String>),
    Spawned { actor: u64 },
    PeersMerged(Result<(), String>),
}

/// A session that is ready to be registered.
#[derive(Debug, PartialEq, Eq)]
pub struct PreparedSession {
    pub session_id: String,
    pub actor: u64,
    pub mcp_servers: Vec<McpServer>,
    pub cwd: Option<String>,
    pub register_in_dht: bool,
    /// Others that want to set up the session wait until it is registered.
    pub holds_lock: bool,
}

/// What the preparation of a session asks for.
#[derive(Debug)]
pub enum PrepareAction {
    Lock { session_id: String },
    LookUp { session_id: String },
    CreateSession { cwd: Option<String>, parent_session_id: Option<String> },
    LoadSession { session_id: String },
    RequestAttachments(SessionMcpAttachmentContext),
    BuildMcp,
    InitializeFork { session_id: String },
    SpawnActor { attach_mesh_handle: bool },
    MergePeers,
    Prepared(PreparedSession),
    AlreadyRegistered(SessionActorRef),
    Fail(SessionRequestError),
    /// The event does not belong to the stage; nothing is to be done.
    Ignore,
}

/// The preparation of a session.
#[derive(Debug)]
pub struct PrepareRun {
    pub kind: PrepareKind,
    /// The id of the session, once it has one.
    pub session_id: String,
    pub request_cwd: String,
    pub cwd_is_absolute: bool,
    pub parent_session_id: Option<String>,
    /// There is a registry to look the session up in.
    pub has_registry: bool,
    pub config_servers: Vec<McpServer>,
    pub request_servers: Vec<McpServer>,
    pub stage: PrepareStage,
    pub cwd: Option<String>,
    pub resolved: ResolvedSessionMcpInputs,
    pub actor: u64,
}

/// The place of a stage in the course of a preparation.
pub open spec fn prepare_rank(stage: PrepareStage) -> nat {
    match stage {
        PrepareStage::Locking => 0,
        PrepareStage::LookingUp => 1,
        PrepareStage::Creating => 2,
        PrepareStage::Loading => 2,
        PrepareStage::Attaching => 3,
        PrepareStage::BuildingMcp => 4,
        PrepareStage::InitializingFork => 5,
        PrepareStage::Spawning => 6,
        PrepareStage::MergingPeers => 7,
        PrepareStage::Finished => 8,
    }
}

/// `event` is what a preparation in `stage` waits for.
pub open spec fn prepare_expects(stage: PrepareStage, event: PrepareEvent) -> bool {
    match stage {
        PrepareStage::Locking => event is Locked,
        PrepareStage::LookingUp => event is LookedUp,
        PrepareStage::Creating => event is Created,
        PrepareStage::Loading => event is Loaded,
        PrepareStage::Attaching => event is Attached,
        PrepareStage::BuildingMcp => event is McpBuilt,
        PrepareStage::InitializingFork => event is ForkInitialized,
        PrepareStage::Spawning => event is Spawned,
        PrepareStage::MergingPeers => event is PeersMerged,
        PrepareStage::Finished => false,
    }
}

/// The working directory that a request names can be used.
pub open spec fn cwd_is_fine(run: PrepareRun) -> bool {
    run.request_cwd@.len() == 0 || run.cwd_is_absolute
}

/// The stage that follows `event`.
pub open spec fn prepare_next(run: PrepareRun, event: PrepareEvent) -> PrepareStage {
    if !prepare_expects(run.stage, event) {
        run.stage
    } else {
        match event {
            PrepareEvent::Locked => if run.has_registry {
                PrepareStage::LookingUp
            } else {
                PrepareStage::Loading
            },
            PrepareEvent::LookedUp(found) => if found is Some {
                PrepareStage::Finished
            } else {
                PrepareStage::Loading
            },
            PrepareEvent::Created(result) => if result is Ok {
                PrepareStage::Attaching
            } else {
                PrepareStage::Finished
            },
            PrepareEvent::Loaded(Ok(Some(_))) => if cwd_is_fine(run) {
                PrepareStage::Attaching
            } else {
                PrepareStage::Finished
            },
            PrepareEvent::Loaded(_) => PrepareStage::Finished,
            PrepareEvent::Attached(result) => if result is Ok {
                PrepareStage::BuildingMcp
            } else {
                PrepareStage::Finished
            },
            PrepareEvent::McpBuilt(Ok(_)) => if run.parent_session_id is Some {
                PrepareStage::InitializingFork
            } else {
                PrepareStage::Spawning
            },
            PrepareEvent::McpBuilt(Err(_)) => PrepareStage::Finished,
            PrepareEvent::ForkInitialized(result) => if result is Ok {
                PrepareStage::Spawning
            } else {
                PrepareStage::Finished
            },
            PrepareEvent::Spawned { .. } => PrepareStage::MergingPeers,
            PrepareEvent::PeersMerged(_) => PrepareStage::Finished,
        }
    }
}

/// `action` asks what the runtime attaches to the session.
pub open spec fn asks_for_attachments(
    session_id: Seq<char>,
    cwd: Option<String>,
    kind: PrepareKind,
    action: PrepareAction,
) -> bool {
    action matches PrepareAction::RequestAttachments(context) && context.session_id@ == session_id
        && context.cwd == cwd && context.kind == match kind {
        PrepareKind::New => SessionMaterializationKind::New,
        PrepareKind::Load => SessionMaterializationKind::Load,
        PrepareKind::Resume => SessionMaterializationKind::Resume,
    }
}

/// `action` reports an internal error.
pub open spec fn fails_with(action: PrepareAction, words: Seq<char>) -> bool {
    action matches PrepareAction::Fail(SessionRequestError::Internal(message)) && message@ == words
}

/// `action` reports a wrong parameter.
pub open spec fn refuses(action: PrepareAction, words: Seq<char>, value: Seq<char>) -> bool {
    action matches PrepareAction::Fail(error) && session_registry::invalid(error, words, value)
}

/// `cwd` is the working directory of a session: a loaded one prefers the one that is stored.
pub open spec fn chosen_cwd(run: PrepareRun, stored: Option<String>, cwd: Option<String>) -> bool {
    if run.kind == PrepareKind::Load && stored is Some {
        cwd == stored
    } else if run.request_cwd@.len() == 0 {
        cwd is None
    } else {
        cwd matches Some(path) && path@ == run.request_cwd@
    }
}

/// `action` is what a preparation does on `event`, when the event is what it waits for.
/// `after` is the preparation then.
pub open spec fn is_prepare_step(
    run: PrepareRun,
    event: PrepareEvent,
    after: PrepareRun,
    action: PrepareAction,
) -> bool {
    match event {
        PrepareEvent::Locked => if run.has_registry {
            action matches PrepareAction::LookUp { session_id } && session_id@ == run.session_id@
        } else {
            action matches PrepareAction::LoadSession { session_id } && session_id@
                == run.session_id@
        },
        PrepareEvent::LookedUp(Some(found)) => action == PrepareAction::AlreadyRegistered(found),
        PrepareEvent::LookedUp(None) => action matches PrepareAction::LoadSession { session_id }
            && session_id@ == run.session_id@,
        PrepareEvent::Created(Ok(id)) => after.session_id@ == id@ && after.cwd == run.cwd
            && asks_for_attachments(id@, run.cwd, run.kind, action),
        PrepareEvent::Created(Err(reason)) => fails_with(action, reason@),
        PrepareEvent::Loaded(Ok(Some(stored))) => if cwd_is_fine(run) {
            chosen_cwd(run, stored, after.cwd) && asks_for_attachments(
                run.session_id@,
                after.cwd,
                run.kind,
                action,
            )
        } else {
            refuses(action, "cwd must be an absolute path"@, run.request_cwd@)
        },
        PrepareEvent::Loaded(Ok(None)) => refuses(action, "session not found"@, run.session_id@),
        PrepareEvent::Loaded(Err(reason)) => fails_with(action, reason@),
        PrepareEvent::Attached(Ok(attachments)) => {
            &&& action is BuildMcp
            &&& after.resolved.server_configs@ == resolved_servers(
                run.config_servers@,
                run.request_servers@,
                attachments@,
            )
            &&& after.resolved.connected_peers@ == session_mcp::peers_of(attachments@)
        },
        PrepareEvent::Attached(Err(reason)) => fails_with(action, reason@),
        PrepareEvent::McpBuilt(Ok(_)) => if run.parent_session_id is Some {
            action matches PrepareAction::InitializeFork { session_id } && session_id@
                == run.session_id@
        } else {
            action == (PrepareAction::SpawnActor { attach_mesh_handle: true })
        },
        PrepareEvent::McpBuilt(Err(reason)) => fails_with(action, reason@),
        PrepareEvent::ForkInitialized(Ok(_)) => action == (PrepareAction::SpawnActor {
            attach_mesh_handle: true,
        }),
        PrepareEvent::ForkInitialized(Err(reason)) => fails_with(action, reason@),
        PrepareEvent::Spawned { actor } => action is MergePeers && after.actor == actor,
        PrepareEvent::PeersMerged(Ok(_)) => action matches PrepareAction::Prepared(prepared)
            && prepared.session_id@ == run.session_id@ && prepared.actor == run.actor
            && prepared.mcp_servers@ == run.resolved.server_configs@ && prepared.cwd == run.cwd
            && prepared.register_in_dht && prepared.holds_lock == (run.kind != PrepareKind::New),
        PrepareEvent::PeersMerged(Err(reason)) => fails_with(action, reason@),
    }
}

/// What a preparation keeps on every event but the ones that change it.
pub open spec fn keeps(run: PrepareRun, event: PrepareEvent, after: PrepareRun) -> bool {
    &&& after.kind == run.kind
    &&& after.request_cwd == run.request_cwd
    &&& after.cwd_is_absolute == run.cwd_is_absolute
    &&& after.parent_session_id == run.parent_session_id
    &&& after.has_registry == run.has_registry
    &&& !(event is Created) ==> after.session_id == run.session_id
    &&& !(event is Loaded) ==> after.cwd == run.cwd
    &&& !(event is Spawned) ==> after.actor == run.actor
    &&& !(event is Attached) ==> after.config_servers == run.config_servers
        && after.request_servers == run.request_servers
    &&& !(event is Attached || event is PeersMerged) ==> after.resolved == run.resolved
}

impl PrepareRun {
    fn begin(
        kind: PrepareKind,
        session_id: String,
        request_cwd: String,
        cwd_is_absolute: bool,
        parent_session_id: Option<String>,
        has_registry: bool,
        config_servers: Vec<McpServer>,
        request_servers: Vec<McpServer>,
        stage: PrepareStage,
        cwd: Option<String>,
    ) -> (run: Self)
        ensures
            run.kind == kind,
            run.session_id == session_id,
            run.request_cwd == request_cwd,
            run.cwd_is_absolute == cwd_is_absolute,
            run.parent_session_id == parent_session_id,
            run.has_registry == has_registry,
            run.config_servers == config_servers,
            run.request_servers == request_servers,
            run.stage == stage,
            run.cwd == cwd,
    {
        PrepareRun {
            kind,
            session_id,
            request_cwd,
            cwd_is_absolute,
            parent_session_id,
            has_registry,
            config_servers,
            request_servers,
            stage,
            cwd,
            resolved: ResolvedSessionMcpInputs {
                server_configs: Vec::new(),
                connected_peers: Vec::new(),
            },
            actor: 0,
        }
    }

    /// Begins to set up a new session, in the working directory that the request names. A
    /// session with a parent is a fork of it.
    pub fn prepare_new_session(
        request_cwd: String,
        cwd_is_absolute: bool,
        parent_session_id: Option<String>,
        config_servers: Vec<McpServer>,
        request_servers: Vec<McpServer>,
    ) -> (begun: (PrepareRun, PrepareAction))
        ensures
            begun.0.kind == PrepareKind::New,
            begun.0.parent_session_id == parent_session_id,
            begun.0.config_servers == config_servers,
            begun.0.request_servers == request_servers,
            if request_cwd@.len() == 0 || cwd_is_absolute {
                &&& begun.0.stage == PrepareStage::Creating
                &&& chosen_cwd(begun.0, None, begun.0.cwd)
                &&& begun.0.request_cwd == request_cwd
                &&& begun.1 == (PrepareAction::CreateSession {
                    cwd: begun.0.cwd,
                    parent_session_id,
                })
            } else {
                &&& begun.0.stage == PrepareStage::Finished
                &&& refuses(begun.1, "cwd must be an absolute path"@, request_cwd@)
            },
    {
        match checked_cwd(request_cwd.as_str(), cwd_is_absolute) {
            Err(error) => {
                let run = Self::begin(
                    PrepareKind::New,
                    String::new(),
                    request_cwd,
                    cwd_is_absolute,
                    parent_session_id,
                    false,
                    config_servers,
                    request_servers,
                    PrepareStage::Finished,
                    None,
                );
                (run, PrepareAction::Fail(error))
            },
            Ok(cwd) => {
                let action = PrepareAction::CreateSession {
                    cwd: cwd.clone(),
                    parent_session_id: parent_session_id.clone(),
                };
                let run = Self::begin(
                    PrepareKind::New,
                    String::new(),
                    request_cwd,
                    cwd_is_absolute,
                    parent_session_id,
                    false,
                    config_servers,
                    request_servers,
                    PrepareStage::Creating,
                    cwd,
                );
                (run, action)
            },
        }
    }

    fn prepare_existing(
        kind: PrepareKind,
        session_id: String,
        request_cwd: String,
        cwd_is_absolute: bool,
        has_registry: bool,
        config_servers: Vec<McpServer>,
        request_servers: Vec<McpServer>,
    ) -> (begun: (PrepareRun, PrepareAction))
        ensures
            begun.0.kind == kind,
            begun.0.session_id == session_id,
            begun.0.request_cwd == request_cwd,
            begun.0.cwd_is_absolute == cwd_is_absolute,
            begun.0.parent_session_id is None,
            begun.0.has_registry == has_registry,
            begun.0.config_servers == config_servers,
            begun.0.request_servers == request_servers,
            begun.0.stage == PrepareStage::Locking,
            begun.1 matches PrepareAction::Lock { session_id: id } && id@ == session_id@,
    {
        let action = PrepareAction::Lock { session_id: session_id.clone() };
        let run = Self::begin(
            kind,
            session_id,
            request_cwd,
            cwd_is_absolute,
            None,
            has_registry,
            config_servers,
            request_servers,
            PrepareStage::Locking,
            None,
        );
        (run, action)
    }

    /// Begins to set up a session that is stored, in the working directory that is stored
    /// with it, or else in the one that the request names.
    pub fn prepare_load_session(
        session_id: String,
        request_cwd: String,
        cwd_is_absolute: bool,
        has_registry: bool,
        config_servers: Vec<McpServer>,
        request_servers: Vec<McpServer>,
    ) -> (begun: (PrepareRun, PrepareAction))
        ensures
            begun.0.kind == PrepareKind::Load,
            begun.0.session_id == session_id,
            begun.0.request_cwd == request_cwd,
            begun.0.cwd_is_absolute == cwd_is_absolute,
            begun.0.parent_session_id is None,
            begun.0.has_registry == has_registry,
            begun.0.config_servers == config_servers,
            begun.0.request_servers == request_servers,
            begun.0.stage == PrepareStage::Locking,
            begun.1 matches PrepareAction::Lock { session_id: id } && id@ == session_id@,
    {
        Self::prepare_existing(
            PrepareKind::Load,
            session_id,
            request_cwd,
            cwd_is_absolute,
            has_registry,
            config_servers,
            request_servers,
        )
    }

    /// Begins to set up a session that is stored, in the working directory that the request
    /// names.
    pub fn prepare_resume_session(
        session_id: String,
        request_cwd: String,
        cwd_is_absolute: bool,
        has_registry: bool,
        config_servers: Vec<McpServer>,
        request_servers: Vec<McpServer>,
    ) -> (begun: (PrepareRun, PrepareAction))
        ensures
            begun.0.kind == PrepareKind::Resume,
            begun.0.session_id == session_id,
            begun.0.request_cwd == request_cwd,
            begun.0.cwd_is_absolute == cwd_is_absolute,
            begun.0.parent_session_id is None,
            begun.0.has_registry == has_registry,
            begun.0.config_servers == config_servers,
            begun.0.request_servers == request_servers,
            begun.0.stage == PrepareStage::Locking,
            begun.1 matches PrepareAction::Lock { session_id: id } && id@ == session_id@,
    {
        Self::prepare_existing(
            PrepareKind::Resume,
            session_id,
            request_cwd,
            cwd_is_absolute,
            has_registry,
            config_servers,
            request_servers,
        )
    }

    fn fail(&mut self, reason: String) -> (action: PrepareAction)
        ensures
            fails_with(action, reason@),
            *final(self) == (PrepareRun { stage: PrepareStage::Finished, ..*old(self) }),
    {
        self.stage = PrepareStage::Finished;
        PrepareAction::Fail(SessionRequestError::Internal(reason))
    }

    fn ask_for_attachments(&mut self) -> (action: PrepareAction)
        ensures
            asks_for_attachments(
                old(self).session_id@,
                old(self).cwd,
                old(self).kind,
                action,
            ),
            *final(self) == (PrepareRun { stage: PrepareStage::Attaching, ..*old(self) }),
    {
        self.stage = PrepareStage::Attaching;
        let kind = match self.kind {
            PrepareKind::New => SessionMaterializationKind::New,
            PrepareKind::Load => SessionMaterializationKind::Load,
            PrepareKind::Resume => SessionMaterializationKind::Resume,
        };
        PrepareAction::RequestAttachments(
            SessionMcpAttachmentContext {
                session_id: self.session_id.clone(),
                cwd: self.cwd.clone(),
                kind,
            },
        )
    }

    fn loaded(&mut self, stored: Option<String>) -> (action: PrepareAction)
        requires
            old(self).stage == PrepareStage::Loading,
        ensures
            final(self).stage == prepare_next(*old(self), PrepareEvent::Loaded(Ok(Some(stored)))),
            is_prepare_step(
                *old(self),
                PrepareEvent::Loaded(Ok(Some(stored))),
                *final(self),
                action,
            ),
            keeps(*old(self), PrepareEvent::Loaded(Ok(Some(stored))), *final(self)),
    {
        match checked_cwd(self.request_cwd.as_str(), self.cwd_is_absolute) {
            Err(error) => {
                self.stage = PrepareStage::Finished;
                PrepareAction::Fail(error)
            },
            Ok(requested) => {
                let prefer_stored = self.kind == PrepareKind::Load && stored.is_some();
                self.cwd = if prefer_stored {
                    stored
                } else {
                    requested
                };
                self.ask_for_attachments()
            },
        }
    }

    fn attached(&mut self, attachments: Vec<SessionMcpAttachment>) -> (action: PrepareAction)
        requires
            old(self).stage == PrepareStage::Attaching,
        ensures
            final(self).stage == prepare_next(
                *old(self),
                PrepareEvent::Attached(Ok(attachments)),
            ),
            is_prepare_step(
                *old(self),
                PrepareEvent::Attached(Ok(attachments)),
                *final(self),
                action,
            ),
            keeps(*old(self), PrepareEvent::Attached(Ok(attachments)), *final(self)),
    {
        let mut config_servers: Vec<McpServer> = Vec::new();
        let mut request_servers: Vec<McpServer> = Vec::new();
        std::mem::swap(&mut self.config_servers, &mut config_servers);
        std::mem::swap(&mut self.request_servers, &mut request_servers);
        self.resolved = resolve_mcp_inputs(config_servers, request_servers, attachments);
        self.stage = PrepareStage::BuildingMcp;
        PrepareAction::BuildMcp
    }

    fn prepared(&mut self) -> (action: PrepareAction)
        requires
            old(self).stage == PrepareStage::MergingPeers,
        ensures
            final(self).stage == PrepareStage::Finished,
            is_prepare_step(
                *old(self),
                PrepareEvent::PeersMerged(Ok(())),
                *final(self),
                action,
            ),
            keeps(*old(self), PrepareEvent::PeersMerged(Ok(())), *final(self)),
    {
        self.stage = PrepareStage::Finished;
        let mut mcp_servers: Vec<McpServer> = Vec::new();
        std::mem::swap(&mut self.resolved.server_configs, &mut mcp_servers);
        PrepareAction::Prepared(
            PreparedSession {
                session_id: self.session_id.clone(),
                actor: self.actor,
                mcp_servers,
                cwd: self.cwd.clone(),
                register_in_dht: true,
                holds_lock: self.kind != PrepareKind::New,
            },
        )
    }

    /// Goes on after `event`. An event that the preparation does not wait for changes
    /// nothing.
    pub fn on_event(&mut self, event: PrepareEvent) -> (action: PrepareAction)
        ensures
            final(self).stage == prepare_next(*old(self), event),
            keeps(*old(self), event, *final(self)),
            if prepare_expects(old(self).stage, event) {
                is_prepare_step(*old(self), event, *final(self), action)
            } else {
                action is Ignore && *final(self) == *old(self)
            },
    {
        match self.stage {
            PrepareStage::Locking => {
                if let PrepareEvent::Locked = event {
                    return if self.has_registry {
                        self.stage = PrepareStage::LookingUp;
                        PrepareAction::LookUp { session_id: self.session_id.clone() }
                    } else {
                        self.stage = PrepareStage::Loading;
                        PrepareAction::LoadSession { session_id: self.session_id.clone() }
                    };
                }
            },
            PrepareStage::LookingUp => {
                if let PrepareEvent::LookedUp(found) = event {
                    return match found {
                        Some(found) => {
                            self.stage = PrepareStage::Finished;
                            PrepareAction::AlreadyRegistered(found)
                        },
                        None => {
                            self.stage = PrepareStage::Loading;
                            PrepareAction::LoadSession { session_id: self.session_id.clone() }
                        },
                    };
                }
            },
            PrepareStage::Creating => {
                if let PrepareEvent::Created(result) = event {
                    return match result {
                        Ok(id) => {
                            self.session_id = id;
                            self.ask_for_attachments()
                        },
                        Err(reason) => self.fail(reason),
                    };
                }
            },
            PrepareStage::Loading => {
                if let PrepareEvent::Loaded(result) = event {
                    return match result {
                        Ok(Some(stored)) => self.loaded(stored),
                        Ok(None) => {
                            self.stage = PrepareStage::Finished;
                            PrepareAction::Fail(
                                SessionRequestError::InvalidParams {
                                    message: "session not found".to_string(),
                                    value: self.session_id.clone(),
                                },
                            )
                        },
                        Err(reason) => self.fail(reason),
                    };
                }
            },
            PrepareStage::Attaching => {
                if let PrepareEvent::Attached(result) = event {
                    return match result {
                        Ok(attachments) => self.attached(attachments),
                        Err(reason) => self.fail(reason),
                    };
                }
            },
            PrepareStage::BuildingMcp => {
                if let PrepareEvent::McpBuilt(result) = event {
                    return match result {
                        Ok(_) => if self.parent_session_id.is_some() {
                            self.stage = PrepareStage::InitializingFork;
                            PrepareAction::InitializeFork { session_id: self.session_id.clone() }
                        } else {
                            self.stage = PrepareStage::Spawning;
                            PrepareAction::SpawnActor { attach_mesh_handle: true }
                        },
                        Err(reason) => self.fail(reason),
                    };
                }
            },
            PrepareStage::InitializingFork => {
                if let PrepareEvent::ForkInitialized(result) = event {
                    return match result {
                        Ok(_) => {
                            self.stage = PrepareStage::Spawning;
                            PrepareAction::SpawnActor { attach_mesh_handle: true }
                        },
                        Err(reason) => self.fail(reason),
                    };
                }
            },
            PrepareStage::Spawning => {
                if let PrepareEvent::Spawned { actor } = event {
                    self.stage = PrepareStage::MergingPeers;
                    self.actor = actor;
                    return PrepareAction::MergePeers;
                }
            },
            PrepareStage::MergingPeers => {
                if let PrepareEvent::PeersMerged(result) = event {
                    return match result {
                        Ok(_) => self.prepared(),
                        Err(reason) => self.fail(reason),
                    };
                }
            },
            PrepareStage::Finished => {},
        }
        PrepareAction::Ignore
    }
}

/// A preparation only moves forward, and ends.
pub proof fn law_preparation_moves_forward(run: PrepareRun, event: PrepareEvent)
    requires
        prepare_expects(run.stage, event),
    ensures
        prepare_rank(prepare_next(run, event)) > prepare_rank(run.stage),
{
}

/// A session that is registered already is not set up again: nothing but the registered
/// actor comes out.
pub proof fn law_registered_sessions_are_reused(
    run: PrepareRun,
    found: SessionActorRef,
    after: PrepareRun,
    action: PrepareAction,
)
    requires
        run.stage == PrepareStage::LookingUp,
        is_prepare_step(run, PrepareEvent::LookedUp(Some(found)), after, action),
        after.stage == prepare_next(run, PrepareEvent::LookedUp(Some(found))),
    ensures
        action == PrepareAction::AlreadyRegistered(found),
        after.stage == PrepareStage::Finished,
{
}

/// An actor is spawned only once the session's servers are there.
pub proof fn law_servers_come_before_the_actor(
    run: PrepareRun,
    event: PrepareEvent,
    after: PrepareRun,
    action: PrepareAction,
)
    requires
        prepare_expects(run.stage, event),
        is_prepare_step(run, event, after, action),
        action is SpawnActor,
    ensures
        run.stage == PrepareStage::BuildingMcp && run.parent_session_id is None || run.stage
            == PrepareStage::InitializingFork,
{
}

/// Callers that set up different sessions do not wait for each other, and a caller that comes
/// to a session and leaves it again leaves nothing behind.
pub proof fn law_sessions_are_set_up_independently(
    before: InflightSessions,
    entered: InflightSessions,
    left: InflightSessions,
    id: Seq<char>,
    other: Seq<char>,
)
    requires
        before.wf(),
        before.at(id) < u64::MAX,
        before.entered(id, entered),
        entered.left(id, left),
    ensures
        entered.at(id) == before.at(id) + 1,
        id != other ==> entered.at(other) == before.at(other),
        left@ == before@,
{
    assert(left@ =~= before@);
}

/// The configuration of a session's model.
#[derive(Debug, PartialEq, Eq)]
pub struct LlmConfig {
    pub id: i64,
    pub provider: String,
    pub model: String,
}

/// A notice of a hook.
#[derive(Debug, PartialEq, Eq)]
pub struct HookNotice {
    pub event_name: String,
    pub message: String,
    pub is_error: bool,
}

/// Work that is done while the session is already in use.
#[derive(Debug, PartialEq, Eq)]
pub enum BackgroundTask {
    /// Publishes the session in the mesh under these names.
    Publish { names: Vec<String> },
    IndexWorkspace { cwd: String },
    /// Tells the client which commands there are.
    PublishCommands,
}

/// Where the finalizing of a session stands, that is, what it waits for.
#[derive(Debug, Clone, Copy, PartialEq, Eq, Structural)]
pub enum FinalizeStage {
    SettingBridge,
    EmittingCreated,
    LoadingConfig,
    RunningHooks,
    ReloadingConfig,
    Finished,
}

/// What the finalizing of a session is told.
#[derive(Debug)]
pub enum FinalizeEvent {
    /// The session has the connection to the client, or could not be given it; either way
    /// the finalizing goes on.
    BridgeSet,
    CreatedEmitted(Result<(), String>),
    /// The configuration of the session's model, if it could be had, and the mode that new
    /// sessions are in.
    ConfigLoaded { config: Option<LlmConfig>, mode: AgentMode },
    HooksRun(Result<Vec<HookNotice>, String>),
    /// `limits` are those of the session, as JSON text, if it has any.
    ConfigReloaded {
        config: Option<LlmConfig>,
        context_limit: Option<u64>,
        cwd_exists: bool,
        limits: Option<String>,
    },
}

/// What the hooks on the start of a session are told.
#[derive(Debug, PartialEq, Eq)]
pub struct SessionStartRequest {
    pub session_id: String,
    pub cwd: Option<String>,
    pub model: String,
    /// The mode that decides which permissions are asked for.
    pub mode: AgentMode,
    pub source: String,
}

/// What the finalizing of a session asks for.
#[derive(Debug, PartialEq, Eq)]
pub enum FinalizeAction {
    SetBridge,
    /// Emits `SessionCreated`, and stores it.
    EmitCreated,
    LoadConfig,
    RunStartHooks(SessionStartRequest),
    ReloadConfig,
    Done,
    Fail(String),
    /// The event does not belong to the stage; nothing is to be done.
    Ignore,
}

/// What the finalizing of a session does on an event.
#[derive(Debug)]
pub struct FinalizeStep {
    pub emit: Vec<AgentEventKind>,
    pub background: Vec<BackgroundTask>,
    pub action: FinalizeAction,
}

/// The finalizing of a session that is registered.
#[derive(Debug)]
pub struct FinalizeRun {
    pub session_id: String,
    pub mcp_servers: Vec<McpServer>,
    pub cwd: Option<String>,
    /// The names under which the session is to be published.
    pub names: Vec<String>,
    pub has_bridge: bool,
    /// There are commands that a client can use.
    pub has_commands: bool,
    pub stage: FinalizeStage,
}

/// `event` is what a finalizing in `stage` waits for.
pub open spec fn finalize_expects(stage: FinalizeStage, event: FinalizeEvent) -> bool {
    match stage {
        FinalizeStage::SettingBridge => event is BridgeSet,
        FinalizeStage::EmittingCreated => event is CreatedEmitted,
        FinalizeStage::LoadingConfig => event is ConfigLoaded,
        FinalizeStage::RunningHooks => event is HooksRun,
        FinalizeStage::ReloadingConfig => event is ConfigReloaded,
        FinalizeStage::Finished => false,
    }
}

/// The place of a stage in the course of a finalizing.
pub open spec fn finalize_rank(stage: FinalizeStage) -> nat {
    match stage {
        FinalizeStage::SettingBridge => 0,
        FinalizeStage::EmittingCreated => 1,
        FinalizeStage::LoadingConfig => 2,
        FinalizeStage::RunningHooks => 3,
        FinalizeStage::ReloadingConfig => 4,
        FinalizeStage::Finished => 5,
    }
}

/// The stage that follows `event`.
pub open spec fn finalize_next(stage: FinalizeStage, event: FinalizeEvent) -> FinalizeStage {
    if !finalize_expects(stage, event) {
        stage
    } else {
        match event {
            FinalizeEvent::BridgeSet => FinalizeStage::EmittingCreated,
            FinalizeEvent::CreatedEmitted(result) => if result is Ok {
                FinalizeStage::LoadingConfig
            } else {
                FinalizeStage::Finished
            },
            FinalizeEvent::ConfigLoaded { config, .. } => if config is Some {
                FinalizeStage::RunningHooks
            } else {
                FinalizeStage::ReloadingConfig
            },
            FinalizeEvent::HooksRun(result) => if result is Ok {
                FinalizeStage::ReloadingConfig
            } else {
                FinalizeStage::Finished
            },
            FinalizeEvent::ConfigReloaded { .. } => FinalizeStage::Finished,
        }
    }
}

/// The step in which the creation of a session is emitted, while the session is published.
pub open spec fn is_creation(run: FinalizeRun, step: FinalizeStep) -> bool {
    &&& step.emit@.len() == 0
    &&& step.action == FinalizeAction::EmitCreated
    &&& if run.names@.len() == 0 {
        step.background@.len() == 0
    } else {
        step.background@.len() == 1 && (step.background@[0] matches BackgroundTask::Publish {
            names,
        } && names@ == run.names@)
    }
}

/// `event` tells of a hook's notice.
pub open spec fn is_notice(event: AgentEventKind, notice: HookNotice) -> bool {
    event == (AgentEventKind::HookNotice {
        event_name: notice.event_name,
        message: notice.message,
        is_error: notice.is_error,
    })
}

/// The tasks with which a finalizing ends.
pub open spec fn last_tasks(run: FinalizeRun, cwd_exists: bool) -> Seq<BackgroundTask> {
    let index = match run.cwd {
        Some(cwd) if cwd_exists => seq![BackgroundTask::IndexWorkspace { cwd }],
        _ => Seq::empty(),
    };
    if run.has_commands && run.has_bridge {
        index.push(BackgroundTask::PublishCommands)
    } else {
        index
    }
}

/// The events with which a finalizing ends: the model is told, where it is known, and then
/// how the session is configured.
pub open spec fn last_events(
    run: FinalizeRun,
    config: Option<LlmConfig>,
    context_limit: Option<u64>,
    limits: Option<String>,
) -> Seq<AgentEventKind> {
    let configured = AgentEventKind::SessionConfigured {
        cwd: run.cwd,
        mcp_servers: run.mcp_servers,
        limits,
    };
    match config {
        Some(config) => seq![
            AgentEventKind::ProviderChanged {
                provider: config.provider,
                model: config.model,
                config_id: config.id,
                context_limit,
                provider_node_id: None,
            },
            configured,
        ],
        None => seq![configured],
    }
}

/// The step with which a finalizing ends.
pub open spec fn is_conclusion(
    run: FinalizeRun,
    config: Option<LlmConfig>,
    context_limit: Option<u64>,
    cwd_exists: bool,
    limits: Option<String>,
    step: FinalizeStep,
) -> bool {
    &&& step.action == FinalizeAction::Done
    &&& step.background@ == last_tasks(run, cwd_exists)
    &&& step.emit@ == last_events(run, config, context_limit, limits)
}

/// `request` tells the hooks that the session of `run` is new.
pub open spec fn is_start_request(
    run: FinalizeRun,
    config: LlmConfig,
    mode: AgentMode,
    request: SessionStartRequest,
) -> bool {
    &&& request.session_id == run.session_id
    &&& request.cwd == run.cwd
    &&& request.model == config.model
    &&& request.mode == mode
    &&& request.source@ == "new_session"@
}

/// `step` is what a finalizing does on `event`, when the event is what it waits for.
pub open spec fn is_finalize_step(run: FinalizeRun, event: FinalizeEvent, step: FinalizeStep) -> bool {
    match event {
        FinalizeEvent::BridgeSet => is_creation(run, step),
        FinalizeEvent::CreatedEmitted(result) => {
            &&& step.emit@.len() == 0
            &&& step.background@.len() == 0
            &&& match result {
                Ok(_) => step.action == FinalizeAction::LoadConfig,
                Err(reason) => step.action == FinalizeAction::Fail(reason),
            }
        },
        FinalizeEvent::ConfigLoaded { config, mode } => {
            &&& step.emit@.len() == 0
            &&& step.background@.len() == 0
            &&& match config {
                Some(config) => step.action matches FinalizeAction::RunStartHooks(request)
                    && is_start_request(run, config, mode, request),
                None => step.action == FinalizeAction::ReloadConfig,
            }
        },
        FinalizeEvent::HooksRun(result) => {
            &&& step.background@.len() == 0
            &&& match result {
                Ok(notices) => {
                    &&& step.action == FinalizeAction::ReloadConfig
                    &&& step.emit@.len() == notices@.len()
                    &&& forall|i: int|
                        0 <= i < notices@.len() ==> is_notice(#[trigger] step.emit@[i], notices@[i])
                },
                Err(reason) => step.emit@.len() == 0 && step.action == FinalizeAction::Fail(reason),
            }
        },
        FinalizeEvent::ConfigReloaded { config, context_limit, cwd_exists, limits } => is_conclusion(
            run,
            config,
            context_limit,
            cwd_exists,
            limits,
            step,
        ),
    }
}

fn quiet(action: FinalizeAction) -> (step: FinalizeStep)
    ensures
        step.action == action,
        step.emit@.len() == 0,
        step.background@.len() == 0,
{
    FinalizeStep { emit: Vec::new(), background: Vec::new(), action }
}

#[verifier::loop_isolation(false)]
fn notice_events(notices: Vec<HookNotice>) -> (events: Vec<AgentEventKind>)
    ensures
        events@.len() == notices@.len(),
        forall|i: int| 0 <= i < notices@.len() ==> is_notice(#[trigger] events@[i], notices@[i]),
{
    let ghost all = notices@;
    let mut events: Vec<AgentEventKind> = Vec::new();
    let mut rest = notices;
    let total: usize = rest.len();
    let mut taken: usize = 0;
    assert(all.subrange(0, total as int) =~= all);
    while taken < total
        invariant
            taken <= total,
            total == all.len(),
            rest@ == all.subrange(taken as int, total as int),
            events@.len() == taken,
            forall|i: int| 0 <= i < taken ==> is_notice(#[trigger] events@[i], all[i]),
        decreases total - taken,
    {
        let notice = rest.remove(0);
        assert(rest@ =~= all.subrange(taken + 1, total as int));
        events.push(
            AgentEventKind::HookNotice {
                event_name: notice.event_name,
                message: notice.message,
                is_error: notice.is_error,
            },
        );
        taken = taken + 1;
    }
    events
}

impl FinalizeRun {
    /// Begins to finalize a session. `names` are those under which it is published, if it is.
    pub fn start(
        prepared: PreparedSession,
        names: Vec<String>,
        has_bridge: bool,
        has_commands: bool,
    ) -> (begun: (FinalizeRun, FinalizeStep))
        ensures
            begun.0.session_id == prepared.session_id,
            begun.0.mcp_servers == prepared.mcp_servers,
            begun.0.cwd == prepared.cwd,
            begun.0.has_bridge == has_bridge,
            begun.0.has_commands == has_commands,
            has_bridge ==> begun.0.stage == FinalizeStage::SettingBridge && begun.1.action
                == FinalizeAction::SetBridge && begun.1.emit@.len() == 0
                && begun.1.background@.len() == 0 && begun.0.names@ == (
            if prepared.register_in_dht {
                names@
            } else {
                Seq::empty()
            }),
            !has_bridge ==> begun.0.stage == FinalizeStage::EmittingCreated && is_creation(
                (FinalizeRun {
                    names: if prepared.register_in_dht {
                        names
                    } else {
                        begun.0.names
                    },
                    ..begun.0
                }),
                begun.1,
            ),
            !prepared.register_in_dht ==> begun.0.names@.len() == 0,
    {
        let names = if prepared.register_in_dht {
            names
        } else {
            Vec::new()
        };
        let mut run = FinalizeRun {
            session_id: prepared.session_id,
            mcp_servers: prepared.mcp_servers,
            cwd: prepared.cwd,
            names,
            has_bridge,
            has_commands,
            stage: FinalizeStage::SettingBridge,
        };
        if has_bridge {
            (run, quiet(FinalizeAction::SetBridge))
        } else {
            let step = run.emit_creation();
            (run, step)
        }
    }

    fn emit_creation(&mut self) -> (step: FinalizeStep)
        ensures
            is_creation(*old(self), step),
            final(self).stage == FinalizeStage::EmittingCreated,
            final(self).names@.len() == 0,
            final(self).session_id == old(self).session_id,
            final(self).mcp_servers == old(self).mcp_servers,
            final(self).cwd == old(self).cwd,
            final(self).has_bridge == old(self).has_bridge,
            final(self).has_commands == old(self).has_commands,
    {
        self.stage = FinalizeStage::EmittingCreated;
        let mut names: Vec<String> = Vec::new();
        std::mem::swap(&mut self.names, &mut names);
        let mut background: Vec<BackgroundTask> = Vec::new();
        if names.len() > 0 {
            background.push(BackgroundTask::Publish { names });
        }
        FinalizeStep { emit: Vec::new(), background, action: FinalizeAction::EmitCreated }
    }

    fn conclude(
        &mut self,
        config: Option<LlmConfig>,
        context_limit: Option<u64>,
        cwd_exists: bool,
        limits: Option<String>,
    ) -> (step: FinalizeStep)
        ensures
            is_conclusion(*old(self), config, context_limit, cwd_exists, limits, step),
            final(self).stage == FinalizeStage::Finished,
    {
        self.stage = FinalizeStage::Finished;
        let mut emit: Vec<AgentEventKind> = Vec::new();
        if let Some(config) = config {
            emit.push(
                AgentEventKind::ProviderChanged {
                    provider: config.provider,
                    model: config.model,
                    config_id: config.id,
                    context_limit,
                    provider_node_id: None,
                },
            );
        }
        let mut background: Vec<BackgroundTask> = Vec::new();
        if cwd_exists {
            if let Some(cwd) = &self.cwd {
                background.push(BackgroundTask::IndexWorkspace { cwd: cwd.clone() });
            }
        }
        if self.has_commands && self.has_bridge {
            background.push(BackgroundTask::PublishCommands);
        }
        let mut mcp_servers: Vec<McpServer> = Vec::new();
        std::mem::swap(&mut self.mcp_servers, &mut mcp_servers);
        emit.push(AgentEventKind::SessionConfigured { cwd: self.cwd.clone(), mcp_servers, limits });
        assert(background@ =~= last_tasks(*old(self), cwd_exists));
        assert(emit@ =~= last_events(*old(self), config, context_limit, limits));
        FinalizeStep { emit, background, action: FinalizeAction::Done }
    }

    /// Goes on after `event`. An event that the finalizing does not wait for changes
    /// nothing.
    pub fn on_event(&mut self, event: FinalizeEvent) -> (step: FinalizeStep)
        ensures
            final(self).stage == finalize_next(old(self).stage, event),
            final(self).stage != FinalizeStage::Finished ==> {
                &&& final(self).session_id == old(self).session_id
                &&& final(self).mcp_servers == old(self).mcp_servers
                &&& final(self).cwd == old(self).cwd
                &&& final(self).has_bridge == old(self).has_bridge
                &&& final(self).has_commands == old(self).has_commands
            },
            if finalize_expects(old(self).stage, event) {
                is_finalize_step(*old(self), event, step)
            } else {
                &&& step.action == FinalizeAction::Ignore
                &&& step.emit@.len() == 0
                &&& step.background@.len() == 0
                &&& *final(self) == *old(self)
            },
    {
        match self.stage {
            FinalizeStage::SettingBridge => {
                if let FinalizeEvent::BridgeSet = event {
                    return self.emit_creation();
                }
            },
            FinalizeStage::EmittingCreated => {
                if let FinalizeEvent::CreatedEmitted(result) = event {
                    return match result {
                        Ok(_) => {
                            self.stage = FinalizeStage::LoadingConfig;
                            quiet(FinalizeAction::LoadConfig)
                        },
                        Err(reason) => {
                            self.stage = FinalizeStage::Finished;
                            quiet(FinalizeAction::Fail(reason))
                        },
                    };
                }
            },
            FinalizeStage::LoadingConfig => {
                if let FinalizeEvent::ConfigLoaded { config, mode } = event {
                    return match config {
                        Some(config) => {
                            self.stage = FinalizeStage::RunningHooks;
                            quiet(
                                FinalizeAction::RunStartHooks(
                                    SessionStartRequest {
                                        session_id: self.session_id.clone(),
                                        cwd: self.cwd.clone(),
                                        model: config.model,
                                        mode,
                                        source: "new_session".to_string(),
                                    },
                                ),
                            )
                        },
                        None => {
                            self.stage = FinalizeStage::ReloadingConfig;
                            quiet(FinalizeAction::ReloadConfig)
                        },
                    };
                }
            },
            FinalizeStage::RunningHooks => {
                if let FinalizeEvent::HooksRun(result) = event {
                    return match result {
                        Ok(notices) => {
                            self.stage = FinalizeStage::ReloadingConfig;
                            FinalizeStep {
                                emit: notice_events(notices),
                                background: Vec::new(),
                                action: FinalizeAction::ReloadConfig,
                            }
                        },
                        Err(reason) => {
                            self.stage = FinalizeStage::Finished;
                            quiet(FinalizeAction::Fail(reason))
                        },
                    };
                }
            },
            FinalizeStage::ReloadingConfig => {
                if let FinalizeEvent::ConfigReloaded {
                    config,
                    context_limit,
                    cwd_exists,
                    limits,
                } = event {
                    return self.conclude(config, context_limit, cwd_exists, limits);
                }
            },
            FinalizeStage::Finished => {},
        }
        quiet(FinalizeAction::Ignore)
    }
}

/// A finalizing only moves forward, and ends.
pub proof fn law_finalizing_moves_forward(stage: FinalizeStage, event: FinalizeEvent)
    requires
        finalize_expects(stage, event),
    ensures
        finalize_rank(finalize_next(stage, event)) > finalize_rank(stage),
{
}

/// The creation of a session is told before anything else about it: no event is emitted
/// until the creation was stored.
pub proof fn law_creation_is_told_first(run: FinalizeRun, event: FinalizeEvent, step: FinalizeStep)
    requires
        finalize_expects(run.stage, event),
        is_finalize_step(run, event, step),
        step.emit@.len() > 0,
    ensures
        run.stage == FinalizeStage::RunningHooks || run.stage == FinalizeStage::ReloadingConfig,
        finalize_rank(run.stage) > finalize_rank(FinalizeStage::EmittingCreated),
{
}

/// How many set up a session: one more once another has come, one less once one has left,
/// and none is counted of a session that nobody sets up.
pub proof fn law_callers_are_counted(
    before: InflightSessions,
    after: InflightSessions,
    id: Seq<char>,
    other: Seq<char>,
)
    ensures
        before.at(id) < u64::MAX && before.entered(id, after) ==> after.at(id) == before.at(id) + 1
            && after@.dom().contains(id) && (other != id ==> after.at(other) == before.at(other)),
        before.at(id) > 0 && before.left(id, after) ==> after.at(id) == before.at(id) - 1 && (
        after@.dom().contains(id) <==> before.at(id) > 1) && (other != id ==> after.at(other)
            == before.at(other)),
        !before@.dom().contains(id) ==> before.at(id) == 0,
        before@.dom().contains(id) ==> before.at(id) == before@[id],
{
}

/// A session's servers: those of the configuration with those of the request in their place,
/// and what is attached added under new names.
pub proof fn law_attached_servers_come_last(
    config: Seq<McpServer>,
    request: Seq<McpServer>,
    attachments: Seq<SessionMcpAttachment>,
    i: int,
)
    ensures
        attachments.len() == 0 ==> resolved_servers(config, request, attachments)
            == session_mcp::overridden(config, request),
        request.len() == 0 && attachments.len() == 0 ==> resolved_servers(
            config,
            request,
            attachments,
        ) == config,
        0 <= i < session_mcp::overridden(config, request).len() ==> i < resolved_servers(
            config,
            request,
            attachments,
        ).len() && resolved_servers(config, request, attachments)[i] == session_mcp::overridden(
            config,
            request,
        )[i],
{
    if 0 <= i < session_mcp::overridden(config, request).len() {
        session_mcp::law_attached_servers_override_nothing(
            session_mcp::overridden(config, request),
            session_mcp::servers_of(attachments),
            i,
        );
    }
}

/// The message at which a fork is asked for is named in the client's own part of the
/// metadata, under either of two names, and an empty name is none.
pub proof fn law_forks_name_their_message(meta: JsonValue, part: JsonValue, value: JsonValue)
    requires
        json::field(meta, "querymt"@) == Some(part),
    ensures
        json::field(part, "message_id"@) == Some(value) ==> (value matches JsonValue::Str(id) ==> (
        id@.len() > 0 ==> named_message(Some(meta)) == Some(id@)) && (id@.len() == 0
            ==> named_message(Some(meta)) is None)),
        json::field(part, "message_id"@) is None && json::field(part, "messageId"@) == Some(value)
            ==> (value matches JsonValue::Str(id) ==> (id@.len() > 0 ==> named_message(Some(meta))
            == Some(id@)) && (id@.len() == 0 ==> named_message(Some(meta)) is None)),
        json::field(part, "message_id"@) is None && json::field(part, "messageId"@) is None
            ==> named_message(Some(meta)) is None,
        json::field(part, "message_id"@) == Some(value) && !(value is Str) ==> named_message(
            Some(meta),
        ) is None,
{
}

/// Without metadata, or without the client's part of it, no message is named; and only a
/// string is a text.
pub proof fn law_no_metadata_names_no_message(meta: JsonValue, value: JsonValue)
    ensures
        named_message(None) is None,
        json::field(meta, "querymt"@) is None ==> named_message(Some(meta)) is None,
        as_text(None) is None,
        value matches JsonValue::Str(words) ==> as_text(Some(value)) == Some(words@),
        !(value is Str) ==> as_text(Some(value)) is None,
{
}

/// Each stage of the set-up waits for the outcome of what was asked for in it.
pub proof fn law_each_stage_of_the_set_up_has_its_outcome(
    stage: PrepareStage,
    event: PrepareEvent,
    last: FinalizeStage,
    outcome: FinalizeEvent,
)
    ensures
        prepare_expects(stage, event) <==> {
            ||| stage == PrepareStage::Locking && event is Locked
            ||| stage == PrepareStage::LookingUp && event is LookedUp
            ||| stage == PrepareStage::Creating && event is Created
            ||| stage == PrepareStage::Loading && event is Loaded
            ||| stage == PrepareStage::Attaching && event is Attached
            ||| stage == PrepareStage::BuildingMcp && event is McpBuilt
            ||| stage == PrepareStage::InitializingFork && event is ForkInitialized
            ||| stage == PrepareStage::Spawning && event is Spawned
            ||| stage == PrepareStage::MergingPeers && event is PeersMerged
        },
        finalize_expects(last, outcome) <==> {
            ||| last == FinalizeStage::SettingBridge && outcome is BridgeSet
            ||| last == FinalizeStage::EmittingCreated && outcome is CreatedEmitted
            ||| last == FinalizeStage::LoadingConfig && outcome is ConfigLoaded
            ||| last == FinalizeStage::RunningHooks && outcome is HooksRun
            ||| last == FinalizeStage::ReloadingConfig && outcome is ConfigReloaded
        },
{
}

/// The set-up goes through its stages in turn: a fork is initialised where there is a parent,
/// and any failure ends the set-up.
pub proof fn law_the_set_up_goes_through_its_stages(run: PrepareRun, event: PrepareEvent)
    requires
        prepare_expects(run.stage, event),
    ensures
        ({
            let next = prepare_next(run, event);
            let fine = run.request_cwd@.len() == 0 || run.cwd_is_absolute;
            &&& event is Locked ==> next == if run.has_registry {
                PrepareStage::LookingUp
            } else {
                PrepareStage::Loading
            }
            &&& event matches PrepareEvent::LookedUp(found) ==> next == if found is Some {
                PrepareStage::Finished
            } else {
                PrepareStage::Loading
            }
            &&& event matches PrepareEvent::Created(result) ==> next == if result is Ok {
                PrepareStage::Attaching
            } else {
                PrepareStage::Finished
            }
            &&& event matches PrepareEvent::Loaded(result) ==> next == if (result matches Ok(Some(
                _,
            ))) && fine {
                PrepareStage::Attaching
            } else {
                PrepareStage::Finished
            }
            &&& event matches PrepareEvent::Attached(result) ==> next == if result is Ok {
                PrepareStage::BuildingMcp
            } else {
                PrepareStage::Finished
            }
            &&& event matches PrepareEvent::McpBuilt(result) ==> next == if result is Err {
                PrepareStage::Finished
            } else if run.parent_session_id is Some {
                PrepareStage::InitializingFork
            } else {
                PrepareStage::Spawning
            }
            &&& event matches PrepareEvent::ForkInitialized(result) ==> next == if result is Ok {
                PrepareStage::Spawning
            } else {
                PrepareStage::Finished
            }
            &&& event is Spawned ==> next == PrepareStage::MergingPeers
            &&& event is PeersMerged ==> next == PrepareStage::Finished
        }),
{
}

/// What a set-up knows it keeps, until the event comes that tells it anew.
pub proof fn law_the_set_up_keeps_what_it_knows(
    run: PrepareRun,
    event: PrepareEvent,
    after: PrepareRun,
)
    requires
        keeps(run, event, after),
    ensures
        after.kind == run.kind,
        after.request_cwd == run.request_cwd,
        after.cwd_is_absolute == run.cwd_is_absolute,
        after.parent_session_id == run.parent_session_id,
        after.has_registry == run.has_registry,
        !(event is Created) ==> after.session_id == run.session_id,
        !(event is Loaded) ==> after.cwd == run.cwd,
        !(event is Spawned) ==> after.actor == run.actor,
        !(event is Attached) ==> after.config_servers == run.config_servers
            && after.request_servers == run.request_servers,
        !(event is Attached) && !(event is PeersMerged) ==> after.resolved == run.resolved,
{
}

/// A session that is not registered is loaded, under its own id.
pub proof fn law_unregistered_sessions_are_loaded(
    run: PrepareRun,
    locked: PrepareAction,
    looked_up: PrepareAction,
    after: PrepareRun,
)
    requires
        is_prepare_step(run, PrepareEvent::Locked, after, locked),
        is_prepare_step(run, PrepareEvent::LookedUp(None), after, looked_up),
    ensures
        run.has_registry ==> (locked matches PrepareAction::LookUp { session_id } && session_id@
            == run.session_id@),
        !run.has_registry ==> (locked matches PrepareAction::LoadSession { session_id }
            && session_id@ == run.session_id@),
        looked_up matches PrepareAction::LoadSession { session_id } && session_id@
            == run.session_id@,
{
}

/// The working directory of a session that is loaded is the stored one where there is one;
/// any other session works where the request says, and nowhere in particular where it says
/// nothing.
pub proof fn law_loaded_sessions_work_where_they_did(
    run: PrepareRun,
    stored: Option<String>,
    after: PrepareRun,
    action: PrepareAction,
)
    requires
        is_prepare_step(run, PrepareEvent::Loaded(Ok(Some(stored))), after, action),
        run.request_cwd@.len() == 0 || run.cwd_is_absolute,
    ensures
        run.kind == PrepareKind::Load && stored is Some ==> after.cwd == stored,
        !(run.kind == PrepareKind::Load && stored is Some) && run.request_cwd@.len() == 0
            ==> after.cwd is None,
        !(run.kind == PrepareKind::Load && stored is Some) && run.request_cwd@.len() > 0 ==> (
        after.cwd matches Some(path) && path@ == run.request_cwd@),
        action matches PrepareAction::RequestAttachments(context) && context.session_id@
            == run.session_id@ && context.cwd == after.cwd && (run.kind == PrepareKind::New
            ==> context.kind == SessionMaterializationKind::New) && (run.kind == PrepareKind::Load
            ==> context.kind == SessionMaterializationKind::Load) && (run.kind
            == PrepareKind::Resume ==> context.kind == SessionMaterializationKind::Resume),
{
}

/// A created session is set up under the id that it was given.
pub proof fn law_created_sessions_have_their_id(
    run: PrepareRun,
    id: String,
    after: PrepareRun,
    action: PrepareAction,
)
    requires
        is_prepare_step(run, PrepareEvent::Created(Ok(id)), after, action),
    ensures
        after.session_id@ == id@,
        after.cwd == run.cwd,
        action matches PrepareAction::RequestAttachments(context) && context.session_id@ == id@
            && context.cwd == run.cwd && (run.kind == PrepareKind::New ==> context.kind
            == SessionMaterializationKind::New),
{
}

/// A session that does not exist, or whose directory is not absolute, is refused with what
/// was asked for.
pub proof fn law_bad_requests_are_refused(
    run: PrepareRun,
    stored: Option<String>,
    after: PrepareRun,
    missing: PrepareAction,
    misplaced: PrepareAction,
)
    requires
        is_prepare_step(run, PrepareEvent::Loaded(Ok(None)), after, missing),
        is_prepare_step(run, PrepareEvent::Loaded(Ok(Some(stored))), after, misplaced),
        run.request_cwd@.len() > 0 && !run.cwd_is_absolute,
    ensures
        missing matches PrepareAction::Fail(error) && session_registry::invalid(
            error,
            "session not found"@,
            run.session_id@,
        ),
        misplaced matches PrepareAction::Fail(error) && session_registry::invalid(
            error,
            "cwd must be an absolute path"@,
            run.request_cwd@,
        ),
{
}

/// Whatever fails in the set-up is answered in its own words.
pub proof fn law_set_up_failures_keep_their_words(
    run: PrepareRun,
    event: PrepareEvent,
    after: PrepareRun,
    action: PrepareAction,
    reason: String,
)
    requires
        is_prepare_step(run, event, after, action),
        event == PrepareEvent::Created(Err(reason)) || event == PrepareEvent::Loaded(Err(reason))
            || event == PrepareEvent::Attached(Err(reason)) || event == PrepareEvent::McpBuilt(
            Err(reason),
        ) || event == PrepareEvent::ForkInitialized(Err(reason)) || event
            == PrepareEvent::PeersMerged(Err(reason)),
    ensures
        action matches PrepareAction::Fail(SessionRequestError::Internal(message)) && message@
            == reason@,
{
}

/// A fork has its history made before its actor runs, and every actor is attached to the
/// mesh.
pub proof fn law_forks_are_initialised_first(
    run: PrepareRun,
    after: PrepareRun,
    built: PrepareAction,
    forked: PrepareAction,
)
    requires
        is_prepare_step(run, PrepareEvent::McpBuilt(Ok(())), after, built),
        is_prepare_step(run, PrepareEvent::ForkInitialized(Ok(())), after, forked),
    ensures
        run.parent_session_id is Some ==> (built matches PrepareAction::InitializeFork {
            session_id,
        } && session_id@ == run.session_id@),
        run.parent_session_id is None ==> built == (PrepareAction::SpawnActor {
            attach_mesh_handle: true,
        }),
        forked == (PrepareAction::SpawnActor { attach_mesh_handle: true }),
{
}

/// A session that is set up is handed over as it is, is published, and holds the lock unless
/// it is new.
pub proof fn law_prepared_sessions_are_handed_over(
    run: PrepareRun,
    actor: u64,
    spawned_after: PrepareRun,
    spawned: PrepareAction,
    after: PrepareRun,
    action: PrepareAction,
)
    requires
        is_prepare_step(run, PrepareEvent::Spawned { actor }, spawned_after, spawned),
        is_prepare_step(run, PrepareEvent::PeersMerged(Ok(())), after, action),
    ensures
        spawned is MergePeers,
        spawned_after.actor == actor,
        action matches PrepareAction::Prepared(prepared) && prepared.session_id@ == run.session_id@
            && prepared.actor == run.actor && prepared.mcp_servers@
            == run.resolved.server_configs@ && prepared.cwd == run.cwd && prepared.register_in_dht
            && (prepared.holds_lock <==> run.kind != PrepareKind::New),
{
}

/// The last stages of a set-up: the session is announced, its model is looked up, the start
/// hooks are run where there is a model, and the model is looked up once more.
pub proof fn law_the_last_stages_follow_each_other(stage: FinalizeStage, event: FinalizeEvent)
    requires
        finalize_expects(stage, event),
    ensures
        ({
            let next = finalize_next(stage, event);
            &&& event is BridgeSet ==> next == FinalizeStage::EmittingCreated
            &&& event matches FinalizeEvent::CreatedEmitted(result) ==> next == if result is Ok {
                FinalizeStage::LoadingConfig
            } else {
                FinalizeStage::Finished
            }
            &&& event matches FinalizeEvent::ConfigLoaded { config, .. } ==> next == if config
                is Some {
                FinalizeStage::RunningHooks
            } else {
                FinalizeStage::ReloadingConfig
            }
            &&& event matches FinalizeEvent::HooksRun(result) ==> next == if result is Ok {
                FinalizeStage::ReloadingConfig
            } else {
                FinalizeStage::Finished
            }
            &&& event is ConfigReloaded ==> next == FinalizeStage::Finished
        }),
{
}

/// What is done at each of the last stages; a session is published under its names, where it
/// has any.
pub proof fn law_sessions_are_announced_and_started(
    run: FinalizeRun,
    event: FinalizeEvent,
    step: FinalizeStep,
)
    requires
        is_finalize_step(run, event, step),
    ensures
        event is BridgeSet ==> step.emit@.len() == 0 && step.action == FinalizeAction::EmitCreated
            && (run.names@.len() == 0 ==> step.background@.len() == 0) && (run.names@.len() > 0
            ==> step.background@.len() == 1 && (step.background@[0] matches
            BackgroundTask::Publish { names } && names@ == run.names@)),
        event matches FinalizeEvent::CreatedEmitted(Err(reason)) ==> step.action
            == FinalizeAction::Fail(reason),
        event matches FinalizeEvent::CreatedEmitted(Ok(_)) ==> step.action
            == FinalizeAction::LoadConfig,
        event matches FinalizeEvent::ConfigLoaded { config: Some(config), mode } ==> (
        step.action matches FinalizeAction::RunStartHooks(request) && request.session_id
            == run.session_id && request.cwd == run.cwd && request.model == config.model
            && request.mode == mode && request.source@ == "new_session"@),
        event matches FinalizeEvent::ConfigLoaded { config: None, .. } ==> step.action
            == FinalizeAction::ReloadConfig,
        event matches FinalizeEvent::HooksRun(Err(reason)) ==> step.emit@.len() == 0 && step.action
            == FinalizeAction::Fail(reason),
        event matches FinalizeEvent::HooksRun(Ok(notices)) ==> step.action
            == FinalizeAction::ReloadConfig && step.emit@.len() == notices@.len(),
        event is ConfigReloaded ==> step.action == FinalizeAction::Done,
{
}

/// Every notice of a start hook is passed on as it is, in order.
pub proof fn law_hook_notices_are_passed_on(
    run: FinalizeRun,
    notices: Vec<HookNotice>,
    step: FinalizeStep,
    i: int,
)
    requires
        is_finalize_step(run, FinalizeEvent::HooksRun(Ok(notices)), step),
        0 <= i < notices@.len(),
    ensures
        step.emit@[i] matches AgentEventKind::HookNotice { event_name, message, is_error }
            && event_name == notices@[i].event_name && message == notices@[i].message && is_error
            == notices@[i].is_error,
{
    assert(is_notice(step.emit@[i], notices@[i]));
}

/// A session is concluded with its model, where it has one, and its configuration; its
/// directory is indexed where it exists, and a client is told of the commands there are.
pub proof fn law_sessions_are_concluded(
    run: FinalizeRun,
    config: Option<LlmConfig>,
    context_limit: Option<u64>,
    cwd_exists: bool,
    limits: Option<String>,
    step: FinalizeStep,
)
    requires
        is_finalize_step(
            run,
            FinalizeEvent::ConfigReloaded { config, context_limit, cwd_exists, limits },
            step,
        ),
    ensures
        step.emit@.len() == if config is Some {
            2nat
        } else {
            1nat
        },
        step.emit@.last() matches AgentEventKind::SessionConfigured {
            cwd,
            mcp_servers,
            limits: told,
        } && cwd == run.cwd && mcp_servers == run.mcp_servers && told == limits,
        config matches Some(config) ==> (step.emit@[0] matches AgentEventKind::ProviderChanged {
            provider,
            model,
            config_id,
            context_limit: limit,
            provider_node_id,
        } && provider == config.provider && model == config.model && config_id == config.id
            && limit == context_limit && provider_node_id is None),
        ({
            let indexes = run.cwd is Some && cwd_exists;
            let tells = run.has_commands && run.has_bridge;
            &&& step.background@.len() == (if indexes {
                1int
            } else {
                0
            }) + (if tells {
                1int
            } else {
                0
            })
            &&& indexes ==> (step.background@[0] matches BackgroundTask::IndexWorkspace { cwd }
                && cwd == run.cwd->Some_0)
            &&& tells ==> step.background@.last() == BackgroundTask::PublishCommands
        }),
{
}

/// What is attached to a session is kept with its servers: the configurations merged into
/// them, the connections beside them.
pub proof fn law_attachments_are_kept(
    run: PrepareRun,
    attachments: Vec<SessionMcpAttachment>,
    after: PrepareRun,
    action: PrepareAction,
)
    requires
        is_prepare_step(run, PrepareEvent::Attached(Ok(attachments)), after, action),
    ensures
        action is BuildMcp,
        after.resolved.server_configs@ == session_mcp::supplemented(
            session_mcp::overridden(run.config_servers@, run.request_servers@),
            session_mcp::servers_of(attachments@),
        ),
        after.resolved.connected_peers@ == session_mcp::peers_of(attachments@),
{
}

/// Only the announcement and the conclusion of a set-up leave work for the background, and
/// only the hooks and the conclusion tell anything.
pub proof fn law_only_some_stages_work_in_the_background(
    run: FinalizeRun,
    event: FinalizeEvent,
    step: FinalizeStep,
)
    requires
        is_finalize_step(run, event, step),
    ensures
        event is CreatedEmitted || event is ConfigLoaded || event is HooksRun
            ==> step.background@.len() == 0,
        event is BridgeSet || event is CreatedEmitted || event is ConfigLoaded ==> step.emit@.len()
            == 0,
{
}

} // verus!
