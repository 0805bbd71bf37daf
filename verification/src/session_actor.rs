//! The state of one session between its turns, and how messages change it.
use vstd::prelude::*;

use crate::cancellation::{
    cancel_token, new_token, seen_cancelled, share_token, Cancellation, Issue, Uncancelled,
};
use crate::error::AgentError;
use crate::events::AgentEventKind;
use crate::json;
use crate::json::{collect_strings, JsonValue};
use crate::mesh::MeshHandle;
use crate::model::{AgentMessage, AgentMode, ChatRole, MessagePart};
use crate::prompt_run::TurnSnapshot;
use crate::text::chars_of;
use crate::text::string_of;
use crate::text;
use crate::tools::{ToolConfig, ToolPolicy};
use crate::undo::UndoError;
use tokio_util::sync::CancellationToken;

verus! {

/// The prompt that a session is at, and the token that cancels it.
pub struct TurnState {
    /// Counts the prompts that were accepted.
    pub generation: u64,
    pub token: CancellationToken,
    /// Where the session has cancelled the token.
    pub cancelled: Option<Cancellation>,
}

/// One more than `generation`, up to the largest number.
pub open spec fn next_generation(generation: u64) -> u64 {
    if generation < u64::MAX {
        (generation + 1) as u64
    } else {
        generation
    }
}

/// The token after a prompt was accepted. It stays, so that a cancellation still reaches a
/// prompt that runs, unless it was cancelled already: then `fresh` takes its place.
pub open spec fn token_after_prompt(
    token: CancellationToken,
    was_cancelled: bool,
    fresh: CancellationToken,
) -> CancellationToken {
    if was_cancelled {
        fresh
    } else {
        token
    }
}

/// The token after the prompt of `finished` was finished: `fresh` where that is the
/// current prompt, and unchanged for a late note of an older one.
pub open spec fn token_after_finish(
    token: CancellationToken,
    current: u64,
    finished: u64,
    fresh: CancellationToken,
) -> CancellationToken {
    if finished == current {
        fresh
    } else {
        token
    }
}

impl TurnState {
    /// What is known to be cancelled is the token.
    pub open spec fn wf(&self) -> bool {
        self.cancelled matches Some(cancellation) ==> cancellation.token() == self.token
    }

    /// The state of a session that has had no prompt.
    pub fn new() -> (state: Self)
        ensures
            state.wf(),
            state.generation == 0,
            state.cancelled is None,
    {
        TurnState { generation: 0, token: new_token().0, cancelled: None }
    }

    /// Moves on to a new prompt.
    pub fn advance(&mut self, was_cancelled: bool, fresh: CancellationToken)
        ensures
            final(self).generation == next_generation(old(self).generation),
            final(self).token == token_after_prompt(old(self).token, was_cancelled, fresh),
            final(self).cancelled == if was_cancelled {
                None
            } else {
                old(self).cancelled
            },
    {
        self.generation = self.generation.saturating_add(1);
        if was_cancelled {
            self.token = fresh;
            self.cancelled = None;
        }
    }

    /// Takes note that the prompt of `generation` is finished, and says whether it is the
    /// current one. Only then the token is replaced; a late note of an older prompt
    /// changes nothing.
    pub fn settle(&mut self, generation: u64, fresh: CancellationToken) -> (current: bool)
        ensures
            current == (generation == old(self).generation),
            final(self).generation == old(self).generation,
            final(self).token == token_after_finish(
                old(self).token,
                old(self).generation,
                generation,
                fresh,
            ),
            final(self).cancelled == if current {
                None
            } else {
                old(self).cancelled
            },
    {
        if generation != self.generation {
            return false;
        }
        self.token = fresh;
        self.cancelled = None;
        true
    }
}

/// A token that took the place of a cancelled one.
pub struct Renewal {
    /// Shows that the token before was cancelled.
    pub cancelled: Cancellation,
    /// Shows that the token is new.
    pub issue: Issue,
}

/// Why a prompt has the token that it has.
pub enum TokenChoice {
    /// The token is a new one, because the one before was cancelled.
    Renewed(Renewal),
    /// The token is the one before, which was not cancelled.
    Kept(Uncancelled),
}

/// A prompt that was accepted: its generation, and the token that cancels it.
pub struct AcceptedPrompt {
    pub generation: u64,
    pub token: CancellationToken,
    pub choice: TokenChoice,
}

/// What a cancellation does: the event that tells of it, and what shows that the token is
/// cancelled.
pub struct CancelStep {
    pub event: AgentEventKind,
    pub cancellation: Cancellation,
}

/// A task that forwards events to a relay.
#[derive(Debug, Clone, Copy, PartialEq, Eq, Structural)]
pub struct Forwarder {
    pub relay_actor_id: u64,
    pub task: u64,
}

/// How the lookup of an event relay came out.
#[derive(Debug, Clone, Copy, PartialEq, Eq, Structural)]
pub enum RelayLookup {
    /// The node is in no mesh.
    NoMesh,
    NotFound,
    Failed,
    /// The relay was found; `task` is to forward events to it.
    Found { task: u64 },
}

/// The task that forwards to `relay`, if there is one.
pub open spec fn forwarder_of(forwarders: Seq<Forwarder>, relay: u64) -> Option<u64>
    decreases forwarders.len(),
{
    if forwarders.len() == 0 {
        None
    } else if forwarders.last().relay_actor_id == relay {
        Some(forwarders.last().task)
    } else {
        forwarder_of(forwarders.drop_last(), relay)
    }
}

/// At most one task forwards to each relay.
pub open spec fn one_task_per_relay(forwarders: Seq<Forwarder>) -> bool {
    forall|i: int, j: int|
        0 <= i < j < forwarders.len() ==> (#[trigger] forwarders[i]).relay_actor_id != (
        #[trigger] forwarders[j]).relay_actor_id
}

/// A session between its turns.
pub struct SessionActor {
    pub session_id: String,
    pub cwd: Option<String>,
    pub has_snapshot_backend: bool,
    pub mode: AgentMode,
    pub tool_config: ToolConfig,
    pub turn_state: TurnState,
    pub prompt_running: bool,
    /// The node of the mesh that the session runs on, where it runs on one.
    pub mesh: Option<MeshHandle>,
    pub forwarders: Vec<Forwarder>,
}

proof fn lemma_forwarder_absent(forwarders: Seq<Forwarder>, relay: u64)
    requires
        forall|i: int|
            0 <= i < forwarders.len() ==> (#[trigger] forwarders[i]).relay_actor_id != relay,
    ensures
        forwarder_of(forwarders, relay) is None,
    decreases forwarders.len(),
{
    if forwarders.len() > 0 {
        lemma_forwarder_absent(forwarders.drop_last(), relay);
    }
}

proof fn lemma_forwarder_at(forwarders: Seq<Forwarder>, i: int)
    requires
        one_task_per_relay(forwarders),
        0 <= i < forwarders.len(),
    ensures
        forwarder_of(forwarders, forwarders[i].relay_actor_id) == Some(forwarders[i].task),
    decreases forwarders.len(),
{
    if i < forwarders.len() - 1 {
        let shorter = forwarders.drop_last();
        assert(shorter[i] == forwarders[i]);
        assert forall|a: int, b: int| 0 <= a < b < shorter.len() implies (
        #[trigger] shorter[a]).relay_actor_id != (#[trigger] shorter[b]).relay_actor_id by {
            assert(forwarders[a] == shorter[a] && forwarders[b] == shorter[b]);
        }
        lemma_forwarder_at(shorter, i);
    }
}

proof fn lemma_forwarder_kept(forwarders: Seq<Forwarder>, i: int, relay: u64)
    requires
        0 <= i < forwarders.len(),
        forwarders[i].relay_actor_id != relay,
    ensures
        forwarder_of(forwarders.remove(i), relay) == forwarder_of(forwarders, relay),
    decreases forwarders.len(),
{
    let shorter = forwarders.drop_last();
    if i == forwarders.len() - 1 {
        assert(forwarders.remove(i) =~= shorter);
    } else {
        assert(forwarders.remove(i).drop_last() =~= shorter.remove(i));
        assert(forwarders.remove(i).last() == forwarders.last());
        lemma_forwarder_kept(shorter, i, relay);
    }
}

/// A session cancels the token that its prompts hold, tells of it, and keeps that it did.
pub open spec fn cancels(before: SessionActor, step: CancelStep, after: SessionActor) -> bool {
    &&& step.event == AgentEventKind::Cancelled
    &&& step.cancellation.token() == before.turn_state.token
    &&& after == (SessionActor {
        turn_state: TurnState { cancelled: Some(step.cancellation), ..before.turn_state },
        ..before
    })
}

/// A session accepts a prompt: the prompt gets the session's token, which stays the same
/// where it was looked at and not cancelled; otherwise a new one takes its place. A token
/// that the session has cancelled is never kept.
pub open spec fn accepts(
    before: SessionActor,
    accepted: AcceptedPrompt,
    after: SessionActor,
) -> bool {
    &&& after == (SessionActor {
        prompt_running: true,
        turn_state: TurnState {
            generation: accepted.generation,
            token: accepted.token,
            cancelled: None,
        },
        ..before
    })
    &&& accepted.generation == next_generation(before.turn_state.generation)
    &&& match accepted.choice {
        TokenChoice::Renewed(renewal) => {
            &&& renewal.cancelled.token() == before.turn_state.token
            &&& accepted.token == token_after_prompt(
                before.turn_state.token,
                true,
                renewal.issue.token(),
            )
        },
        TokenChoice::Kept(uncancelled) => {
            &&& before.turn_state.cancelled is None
            &&& uncancelled.token() == before.turn_state.token
            &&& accepted.token == before.turn_state.token
        },
    }
}

/// A session takes note that the prompt of `generation` is finished: where that is the
/// current prompt, the session has a new token, and otherwise nothing changes.
pub open spec fn finishes(
    before: SessionActor,
    generation: u64,
    issue: Option<Issue>,
    after: SessionActor,
) -> bool {
    match issue {
        Some(issue) => {
            &&& generation == before.turn_state.generation
            &&& after == (SessionActor {
                prompt_running: false,
                turn_state: TurnState { generation, token: issue.token(), cancelled: None },
                ..before
            })
        },
        None => {
            &&& generation != before.turn_state.generation
            &&& after == before
        },
    }
}

impl SessionActor {
    /// At most one task forwards to each relay, and what is known to be cancelled is the
    /// session's token.
    pub open spec fn wf(&self) -> bool {
        &&& one_task_per_relay(self.forwarders@)
        &&& self.turn_state.wf()
    }

    /// A session that has had no prompt, in the given mode.
    pub fn new(
        session_id: String,
        cwd: Option<String>,
        has_snapshot_backend: bool,
        default_mode: AgentMode,
        tool_config: &ToolConfig,
    ) -> (actor: Self)
        ensures
            actor.wf(),
            actor.session_id == session_id,
            actor.cwd == cwd,
            actor.has_snapshot_backend == has_snapshot_backend,
            actor.mode == default_mode,
            actor.tool_config.policy == tool_config.policy,
            actor.tool_config.denylist@ == tool_config.denylist@,
            actor.tool_config.allowlist is Some == tool_config.allowlist is Some,
            tool_config.allowlist matches Some(list) ==> actor.tool_config.allowlist->Some_0@
                == list@,
            actor.turn_state.generation == 0,
            actor.turn_state.cancelled is None,
            !actor.prompt_running,
            actor.mesh is None,
            actor.forwarders@ == Seq::<Forwarder>::empty(),
    {
        SessionActor {
            session_id,
            cwd,
            has_snapshot_backend,
            mode: default_mode,
            tool_config: tool_config.clone(),
            turn_state: TurnState::new(),
            prompt_running: false,
            mesh: None,
            forwarders: Vec::new(),
        }
    }

    /// The session on a node of the mesh.
    pub fn with_mesh(self, mesh: Option<MeshHandle>) -> (actor: Self)
        ensures
            actor == (SessionActor { mesh, ..self }),
    {
        SessionActor { mesh, ..self }
    }

    /// Cancels the prompt that runs, and the prompts that wait behind it with the same
    /// token.
    pub fn cancel(&mut self) -> (step: CancelStep)
        ensures
            cancels(*old(self), step, *final(self)),
            old(self).wf() ==> final(self).wf(),
    {
        let cancellation = cancel_token(&self.turn_state.token);
        self.turn_state.cancelled = Some(cancellation.clone());
        CancelStep { event: AgentEventKind::Cancelled, cancellation }
    }

    /// Accepts a prompt. A session that runs one already takes the new one too: it waits
    /// for its turn.
    pub fn accept_prompt(&mut self) -> (accepted: AcceptedPrompt)
        requires
            old(self).wf(),
        ensures
            final(self).wf(),
            accepts(*old(self), accepted, *final(self)),
    {
        self.prompt_running = true;
        let seen = match self.turn_state.cancelled.take() {
            Some(cancelled) => Ok(cancelled),
            None => seen_cancelled(&self.turn_state.token),
        };
        let (fresh, issue) = new_token();
        let choice = match seen {
            Ok(cancelled) => {
                self.turn_state.advance(true, fresh);
                TokenChoice::Renewed(Renewal { cancelled, issue })
            },
            Err(uncancelled) => {
                self.turn_state.advance(false, fresh);
                TokenChoice::Kept(uncancelled)
            },
        };
        AcceptedPrompt {
            generation: self.turn_state.generation,
            token: share_token(&self.turn_state.token),
            choice,
        }
    }

    /// Takes note that a prompt is finished. For the current prompt the session then has a
    /// new token, which the issue shows. A late note of an older prompt changes nothing.
    pub fn prompt_finished(&mut self, generation: u64) -> (issue: Option<Issue>)
        ensures
            finishes(*old(self), generation, issue, *final(self)),
            old(self).wf() ==> final(self).wf(),
    {
        let (fresh, issue) = new_token();
        if self.turn_state.settle(generation, fresh) {
            self.prompt_running = false;
            Some(issue)
        } else {
            None
        }
    }

    /// Changes the mode.
    pub fn set_mode(&mut self, mode: AgentMode) -> (event: AgentEventKind)
        ensures
            *final(self) == (SessionActor { mode, ..*old(self) }),
            event == (AgentEventKind::SessionModeChanged { mode }),
    {
        self.mode = mode;
        AgentEventKind::SessionModeChanged { mode }
    }

    /// The mode.
    pub fn get_mode(&self) -> (mode: AgentMode)
        ensures
            mode == self.mode,
    {
        self.mode
    }

    /// Changes where tools may come from.
    pub fn set_tool_policy(&mut self, policy: ToolPolicy)
        ensures
            *final(self) == (SessionActor {
                tool_config: ToolConfig { policy, ..old(self).tool_config },
                ..*old(self)
            }),
    {
        self.tool_config.policy = policy;
    }

    /// Allows these tools and no others.
    pub fn set_allowed_tools(&mut self, tools: Vec<String>)
        ensures
            *final(self) == (SessionActor {
                tool_config: ToolConfig { allowlist: Some(tools), ..old(self).tool_config },
                ..*old(self)
            }),
    {
        self.tool_config.allowlist = Some(tools);
    }

    /// Allows every tool that is not forbidden.
    pub fn clear_allowed_tools(&mut self)
        ensures
            *final(self) == (SessionActor {
                tool_config: ToolConfig { allowlist: None, ..old(self).tool_config },
                ..*old(self)
            }),
    {
        self.tool_config.allowlist = None;
    }

    /// Forbids these tools and no others.
    pub fn set_denied_tools(&mut self, tools: Vec<String>)
        ensures
            *final(self) == (SessionActor {
                tool_config: ToolConfig { denylist: tools, ..old(self).tool_config },
                ..*old(self)
            }),
    {
        self.tool_config.denylist = tools;
    }

    /// Forbids no tool.
    pub fn clear_denied_tools(&mut self)
        ensures
            final(self).tool_config.denylist@ == Seq::<String>::empty(),
            final(self).tool_config.policy == old(self).tool_config.policy,
            final(self).tool_config.allowlist == old(self).tool_config.allowlist,
            *final(self) == (SessionActor { tool_config: final(self).tool_config, ..*old(self) }),
    {
        self.tool_config.denylist = Vec::new();
    }

    /// The directory in which an undo or redo works. It takes a snapshot backend and a
    /// working directory.
    pub fn undo_worktree(&self) -> (worktree: Result<String, UndoError>)
        ensures
            worktree == if !self.has_snapshot_backend {
                Err::<String, UndoError>(UndoError::NoSnapshotBackend)
            } else {
                match self.cwd {
                    Some(cwd) => Ok(cwd),
                    None => Err(UndoError::NoWorkingDirectory),
                }
            },
    {
        if !self.has_snapshot_backend {
            return Err(UndoError::NoSnapshotBackend);
        }
        match &self.cwd {
            Some(cwd) => Ok(cwd.clone()),
            None => Err(UndoError::NoWorkingDirectory),
        }
    }

    fn remove_forwarder(&mut self, relay_actor_id: u64) -> (task: Option<u64>)
        requires
            old(self).wf(),
        ensures
            final(self).wf(),
            task == forwarder_of(old(self).forwarders@, relay_actor_id),
            forall|i: int|
                0 <= i < final(self).forwarders@.len() ==> (
                #[trigger] final(self).forwarders@[i]).relay_actor_id != relay_actor_id,
            forall|other: u64|
                other != relay_actor_id ==> #[trigger] forwarder_of(
                    final(self).forwarders@,
                    other,
                ) == forwarder_of(old(self).forwarders@, other),
            *final(self) == (SessionActor { forwarders: final(self).forwarders, ..*old(self) }),
    {
        let mut i: usize = 0;
        while i < self.forwarders.len()
            invariant
                *self == *old(self),
                self.wf(),
                i <= self.forwarders@.len(),
                forall|j: int|
                    0 <= j < i ==> (#[trigger] self.forwarders@[j]).relay_actor_id
                        != relay_actor_id,
            decreases self.forwarders@.len() - i,
        {
            if self.forwarders[i].relay_actor_id == relay_actor_id {
                let ghost before = self.forwarders@;
                let task: u64 = self.forwarders[i].task;
                let _removed = self.forwarders.remove(i);
                proof {
                    lemma_forwarder_at(before, i as int);
                    let after = self.forwarders@;
                    assert forall|a: int| 0 <= a < after.len() implies (
                    #[trigger] after[a]).relay_actor_id != relay_actor_id by {
                        let x = if a < i { a } else { a + 1 };
                        assert(after[a] == before[x]);
                        assert(before[i as int].relay_actor_id == relay_actor_id);
                    }
                    assert forall|a: int, b: int| 0 <= a < b < after.len() implies (
                    #[trigger] after[a]).relay_actor_id != (#[trigger] after[b]).relay_actor_id by {
                        let x = if a < i { a } else { a + 1 };
                        let y = if b < i { b } else { b + 1 };
                        assert(after[a] == before[x] && after[b] == before[y]);
                    }
                    assert forall|other: u64| other != relay_actor_id implies #[trigger] forwarder_of(
                        after,
                        other,
                    ) == forwarder_of(before, other) by {
                        lemma_forwarder_kept(before, i as int, other);
                    }
                }
                return Some(task);
            }
            i = i + 1;
        }
        proof {
            lemma_forwarder_absent(self.forwarders@, relay_actor_id);
        }
        None
    }

    /// Subscribes an event relay. When it was found, `task` forwards events to it from now
    /// on, and the task that did so before is to be stopped: it is returned. When it was
    /// not found nothing changes.
    pub fn subscribe_events(&mut self, relay_actor_id: u64, lookup: RelayLookup) -> (stopped:
        Option<u64>)
        requires
            old(self).wf(),
        ensures
            final(self).wf(),
            match lookup {
                RelayLookup::Found { task } => {
                    &&& stopped == forwarder_of(old(self).forwarders@, relay_actor_id)
                    &&& forwarder_of(final(self).forwarders@, relay_actor_id) == Some(task)
                    &&& forall|other: u64|
                        other != relay_actor_id ==> #[trigger] forwarder_of(
                            final(self).forwarders@,
                            other,
                        ) == forwarder_of(old(self).forwarders@, other)
                    &&& *final(self) == (SessionActor {
                        forwarders: final(self).forwarders,
                        ..*old(self)
                    })
                },
                _ => stopped is None && *final(self) == *old(self),
            },
    {
        match lookup {
            RelayLookup::Found { task } => {
                let stopped = self.remove_forwarder(relay_actor_id);
                let ghost before = self.forwarders@;
                self.forwarders.push(Forwarder { relay_actor_id, task });
                proof {
                    let after = self.forwarders@;
                    assert(after.drop_last() =~= before);
                    assert(forwarder_of(after, relay_actor_id) == Some(task));
                    assert forall|other: u64| other != relay_actor_id implies #[trigger] forwarder_of(
                        after,
                        other,
                    ) == forwarder_of(old(self).forwarders@, other) by {
                        assert(forwarder_of(after, other) == forwarder_of(before, other));
                    }
                }
                stopped
            },
            _ => None,
        }
    }

    /// Takes back the subscription of an event relay. The task that forwarded to it, if
    /// there was one, is to be stopped: it is returned.
    pub fn unsubscribe_events(&mut self, relay_actor_id: u64) -> (stopped: Option<u64>)
        requires
            old(self).wf(),
        ensures
            final(self).wf(),
            stopped == forwarder_of(old(self).forwarders@, relay_actor_id),
            forwarder_of(final(self).forwarders@, relay_actor_id) is None,
            forall|other: u64|
                other != relay_actor_id ==> #[trigger] forwarder_of(
                    final(self).forwarders@,
                    other,
                ) == forwarder_of(old(self).forwarders@, other),
            *final(self) == (SessionActor { forwarders: final(self).forwarders, ..*old(self) }),
    {
        let stopped = self.remove_forwarder(relay_actor_id);
        proof {
            lemma_forwarder_absent(self.forwarders@, relay_actor_id);
        }
        stopped
    }
}

/// `at` is the first slash of `text`.
pub open spec fn first_slash(text: Seq<char>, at: int) -> bool {
    &&& 0 <= at < text.len()
    &&& text[at] == '/'
    &&& forall|i: int| 0 <= i < at ==> #[trigger] text[i] != '/'
}

/// `text` has a slash.
pub open spec fn has_slash(text: Seq<char>) -> bool {
    exists|i: int| 0 <= i < text.len() && #[trigger] text[i] == '/'
}

/// The provider and model that a model id names. Before the first slash stands the
/// provider; without a slash it is the current provider, or Anthropic where there is none.
pub fn resolve_model_id(model_id: &str, current_provider: Option<String>) -> (names: (
    String,
    String,
))
    ensures
        if has_slash(model_id@) {
            exists|at: int|
                {
                    &&& #[trigger] first_slash(model_id@, at)
                    &&& names.0@ == model_id@.subrange(0, at)
                    &&& names.1@ == model_id@.subrange(at + 1, model_id@.len() as int)
                }
        } else {
            &&& names.1@ == model_id@
            &&& match current_provider {
                Some(provider) => names.0 == provider,
                None => names.0@ == "anthropic"@,
            }
        },
{
    let chars = chars_of(model_id);
    let total: usize = chars.len();
    let mut i: usize = 0;
    while i < total
        invariant
            chars@ == model_id@,
            total == chars@.len(),
            i <= total,
            forall|j: int| 0 <= j < i ==> #[trigger] model_id@[j] != '/',
        decreases total - i,
    {
        if chars[i] == '/' {
            assert(first_slash(model_id@, i as int));
            assert(model_id@[i as int] == '/');
            return (string_of(&chars, 0, i), string_of(&chars, i + 1, total));
        }
        i = i + 1;
    }
    let provider = match current_provider {
        Some(provider) => provider,
        None => "anthropic".to_string(),
    };
    (provider, model_id.to_owned())
}

/// The system prompt that the parameters of a session's model give: the strings of their
/// `system` array.
pub open spec fn system_strings(params: Option<JsonValue>) -> Seq<Seq<char>> {
    match params {
        Some(params) => match json::field(params, "system"@) {
            Some(JsonValue::Array(items)) => json::strings_in(items@),
            _ => Seq::empty(),
        },
        None => Seq::empty(),
    }
}

/// The system prompt of a session: what its parameters give, or the configured one where
/// they give none.
pub fn session_system_prompt(params: &Option<JsonValue>, initial: &Vec<String>) -> (prompt: Vec<
    String,
>)
    ensures
        text::texts(prompt@) == if system_strings(*params).len() > 0 {
            system_strings(*params)
        } else {
            text::texts(initial@)
        },
{
    if let Some(params) = params {
        if let Some(JsonValue::Array(items)) = json::get(params, "system") {
            let strings = collect_strings(items);
            assert(text::texts(strings@) =~= json::strings_in(items@));
            if strings.len() > 0 {
                return strings;
            }
        }
    }
    initial.clone()
}

/// The system prompt of a session with a planning summary put at its end.
pub fn with_planning_context(prompt: Vec<String>, summary: String) -> (extended: Vec<String>)
    ensures
        extended@ == prompt@.push(summary),
{
    let mut extended = prompt;
    extended.push(summary);
    extended
}

/// The provider that a model configuration names, which must be one that is installed.
pub fn checked_provider(provider: Option<String>, is_installed: bool) -> (name: Result<
    String,
    AgentError,
>)
    ensures
        match provider {
            None => name == Err::<String, AgentError>(AgentError::ProviderRequired),
            Some(provider) => if is_installed {
                name == Ok::<String, AgentError>(provider)
            } else {
                name == Err::<String, AgentError>(AgentError::UnknownProvider { name: provider })
            },
        },
{
    match provider {
        None => Err(AgentError::ProviderRequired),
        Some(provider) => if is_installed {
            Ok(provider)
        } else {
            Err(AgentError::UnknownProvider { name: provider })
        },
    }
}

/// How the snapshot before a turn came out.
#[derive(Debug)]
pub enum PreTurnSnapshot {
    /// None was begun, or it was looked at before.
    NoTask,
    Ready(TurnSnapshot),
    /// It failed, or its task did.
    Failed(String),
}

/// What is to be kept of the snapshot before a turn: the snapshot itself, and the message
/// that records it. A snapshot that failed is passed over.
pub fn ensure_pre_turn_snapshot_ready(
    snapshot: PreTurnSnapshot,
    session_id: &str,
    message_id: String,
    created_at: i64,
) -> (kept: Option<(TurnSnapshot, AgentMessage)>)
    ensures
        match snapshot {
            PreTurnSnapshot::Ready(ready) => {
                &&& kept matches Some(kept)
                &&& kept.0 == ready
                &&& kept.1.id == message_id
                &&& kept.1.session_id@ == session_id@
                &&& kept.1.role == ChatRole::Assistant
                &&& kept.1.created_at == created_at
                &&& kept.1.parent_message_id is None
                &&& kept.1.parts@ == seq![
                    MessagePart::TurnSnapshotStart {
                        turn_id: ready.turn_id,
                        snapshot_id: ready.snapshot_id,
                    },
                ]
            },
            _ => kept is None,
        },
{
    match snapshot {
        PreTurnSnapshot::Ready(ready) => {
            let mut parts: Vec<MessagePart> = Vec::new();
            parts.push(
                MessagePart::TurnSnapshotStart {
                    turn_id: ready.turn_id.clone(),
                    snapshot_id: ready.snapshot_id.clone(),
                },
            );
            let message = AgentMessage {
                id: message_id,
                session_id: session_id.to_owned(),
                role: ChatRole::Assistant,
                parts,
                created_at,
                parent_message_id: None,
            };
            Some((ready, message))
        },
        _ => None,
    }
}

/// The error for a snapshot whose record could not be stored.
pub fn snapshot_start_error(reason: &str) -> (error: AgentError)
    ensures
        error is Internal,
        error->Internal_0@ == "Failed to store turn snapshot start: "@ + reason@,
{
    let mut message = "Failed to store turn snapshot start: ".to_string();
    message.append(reason);
    AgentError::Internal(message)
}

/// A cancellation reaches the prompt that runs, however many prompts were accepted behind it:
/// while the token is not seen cancelled every prompt shares it, and it is the token that is
/// cancelled.
pub proof fn law_cancel_reaches_the_running_prompt(
    states: Seq<SessionActor>,
    prompts: Seq<AcceptedPrompt>,
    step: CancelStep,
    after: SessionActor,
)
    requires
        prompts.len() > 0,
        states.len() == prompts.len() + 1,
        forall|i: int|
            0 <= i < prompts.len() ==> accepts(states[i], #[trigger] prompts[i], states[i + 1]),
        forall|i: int| 0 < i < prompts.len() ==> (#[trigger] prompts[i]).choice is Kept,
        cancels(states.last(), step, after),
    ensures
        step.cancellation.token() == prompts[0].token,
    decreases prompts.len(),
{
    let n = prompts.len() - 1;
    assert(accepts(states[n], prompts[n], states[n + 1]));
    if n > 0 {
        let earlier = prompts.drop_last();
        assert forall|i: int| 0 <= i < earlier.len() implies accepts(
            states.drop_last()[i],
            #[trigger] earlier[i],
            states.drop_last()[i + 1],
        ) by {
            assert(accepts(states[i], prompts[i], states[i + 1]));
        }
        assert(prompts[n].choice is Kept);
        assert(states[n].turn_state.token == prompts[n].token);
        let cancelled = SessionActor {
            turn_state: TurnState {
                cancelled: Some(step.cancellation),
                ..states[n].turn_state
            },
            ..states[n]
        };
        law_cancel_reaches_the_running_prompt(states.drop_last(), earlier, step, cancelled);
    }
}

/// A cancelled session takes new prompts: the next prompt that is accepted after a
/// cancellation has a token that was made since. It is made when the prompt is accepted, or
/// when the prompt that was cancelled was finished in between, whatever else was changed
/// about the session.
pub proof fn law_prompt_after_cancel_has_a_fresh_token(
    before: SessionActor,
    step: CancelStep,
    cancelled: SessionActor,
    generation: u64,
    issue: Option<Issue>,
    settled: SessionActor,
    asked: SessionActor,
    accepted: AcceptedPrompt,
    after: SessionActor,
)
    requires
        cancels(before, step, cancelled),
        settled == cancelled || finishes(cancelled, generation, issue, settled),
        asked.turn_state == settled.turn_state,
        accepts(asked, accepted, after),
    ensures
        after.prompt_running,
        match accepted.choice {
            TokenChoice::Renewed(renewal) => renewal.issue.token() == accepted.token,
            TokenChoice::Kept(_) => issue matches Some(issue) && issue.token()
                == accepted.token && generation == before.turn_state.generation,
        },
        settled.turn_state == cancelled.turn_state ==> (accepted.choice matches
            TokenChoice::Renewed(renewal) && renewal.cancelled.token()
            == before.turn_state.token),
{
}

/// A session that is not cancelled keeps its token, so that a later cancellation reaches
/// every prompt that was accepted: a prompt gets another token than the one before only where
/// that one was cancelled.
pub proof fn law_only_cancelled_tokens_are_replaced(
    before: SessionActor,
    accepted: AcceptedPrompt,
    after: SessionActor,
)
    requires
        accepts(before, accepted, after),
        accepted.token != before.turn_state.token,
    ensures
        accepted.choice matches TokenChoice::Renewed(renewal) && renewal.cancelled.token()
            == before.turn_state.token && renewal.issue.token() == accepted.token,
{
}

/// A late note that an older prompt is finished does not touch the current one, and a prompt
/// is older than every one that is accepted after it, as long as generations can still be
/// told apart.
pub proof fn law_late_finish_is_ignored(
    token: CancellationToken,
    fresh: CancellationToken,
    older: u64,
    current: u64,
)
    ensures
        older < current ==> token_after_finish(token, current, older, fresh) == token,
        older <= current < u64::MAX ==> older < next_generation(current),
{
}

/// Every accepted prompt has a number of its own, one more than the last, as long as there
/// are numbers left.
pub proof fn law_prompts_are_counted(
    before: SessionActor,
    accepted: AcceptedPrompt,
    after: SessionActor,
)
    requires
        accepts(before, accepted, after),
    ensures
        before.turn_state.generation < u64::MAX ==> accepted.generation
            == before.turn_state.generation + 1,
        before.turn_state.generation == u64::MAX ==> accepted.generation == u64::MAX,
        after.turn_state.generation == accepted.generation,
        after.turn_state.token == accepted.token,
        after.turn_state.cancelled is None,
        after.prompt_running,
        accepted.choice matches TokenChoice::Renewed(renewal) ==> accepted.token
            == renewal.issue.token() && renewal.cancelled.token() == before.turn_state.token,
        accepted.choice is Kept ==> accepted.token == before.turn_state.token
            && before.turn_state.cancelled is None,
        after.session_id == before.session_id,
        after.cwd == before.cwd,
        after.mode == before.mode,
        after.tool_config == before.tool_config,
        after.mesh == before.mesh,
        after.forwarders == before.forwarders,
{
}

/// A cancellation is of the token of the running turn, is remembered and announced, and
/// changes nothing else.
pub proof fn law_cancellations_are_of_the_running_turn(
    before: SessionActor,
    step: CancelStep,
    after: SessionActor,
)
    requires
        cancels(before, step, after),
    ensures
        step.event == AgentEventKind::Cancelled,
        step.cancellation.token() == before.turn_state.token,
        after.turn_state.cancelled == Some(step.cancellation),
        after.turn_state.token == before.turn_state.token,
        after.turn_state.generation == before.turn_state.generation,
        after.prompt_running == before.prompt_running,
        after.session_id == before.session_id,
        after.tool_config == before.tool_config,
        after.mode == before.mode,
        after.forwarders == before.forwarders,
{
}

/// The end of the last accepted prompt frees the session and gives it a new token; the end
/// of an earlier one changes nothing.
pub proof fn law_the_last_prompt_frees_the_session(
    before: SessionActor,
    generation: u64,
    issue: Option<Issue>,
    after: SessionActor,
)
    requires
        finishes(before, generation, issue, after),
    ensures
        issue is Some <==> generation == before.turn_state.generation,
        generation == before.turn_state.generation ==> !after.prompt_running
            && after.turn_state.cancelled is None && after.turn_state.token
            == issue->Some_0.token() && after.turn_state.generation
            == before.turn_state.generation,
        generation != before.turn_state.generation ==> after == before,
        after.session_id == before.session_id,
        after.tool_config == before.tool_config,
        after.mode == before.mode,
        after.forwarders == before.forwarders,
{
}

/// How the token of a session moves on: a prompt replaces a cancelled one, and the end of the
/// current prompt replaces any.
pub proof fn law_tokens_are_replaced_when_due(
    token: CancellationToken,
    fresh: CancellationToken,
    current: u64,
    finished: u64,
)
    ensures
        token_after_prompt(token, true, fresh) == fresh,
        token_after_prompt(token, false, fresh) == token,
        finished == current ==> token_after_finish(token, current, finished, fresh) == fresh,
        finished != current ==> token_after_finish(token, current, finished, fresh) == token,
        current < u64::MAX ==> next_generation(current) == current + 1,
{
}

/// The task that forwards to a relay is the one that the list has for it.
pub proof fn law_relays_have_the_task_of_the_list(forwarders: Seq<Forwarder>, i: int, relay: u64)
    requires
        one_task_per_relay(forwarders),
    ensures
        0 <= i < forwarders.len() && forwarders[i].relay_actor_id == relay ==> forwarder_of(
            forwarders,
            relay,
        ) == Some(forwarders[i].task),
        (forall|j: int|
            0 <= j < forwarders.len() ==> (#[trigger] forwarders[j]).relay_actor_id != relay)
            ==> forwarder_of(forwarders, relay) is None,
    decreases forwarders.len(),
{
    if forwarders.len() > 0 {
        let before = forwarders.drop_last();
        assert forall|a: int, b: int| 0 <= a < b < before.len() implies (
        #[trigger] before[a]).relay_actor_id != (#[trigger] before[b]).relay_actor_id by {
            assert(forwarders[a].relay_actor_id != forwarders[b].relay_actor_id);
        }
        law_relays_have_the_task_of_the_list(before, i, relay);
        if 0 <= i < before.len() {
            assert(before[i] == forwarders[i]);
            assert(forwarders[i].relay_actor_id != forwarders[forwarders.len()
                - 1].relay_actor_id);
        }
        if forall|j: int|
            0 <= j < forwarders.len() ==> (#[trigger] forwarders[j]).relay_actor_id != relay {
            assert(forwarders[forwarders.len() - 1].relay_actor_id != relay);
            assert forall|j: int| 0 <= j < before.len() implies (
            #[trigger] before[j]).relay_actor_id != relay by {
                assert(before[j] == forwarders[j]);
            }
        }
    }
}

/// A model's name is parted at its first slash, and only there: what stands before it names
/// no further slash.
pub proof fn law_model_names_are_parted_at_the_first_slash(text: Seq<char>, at: int)
    ensures
        has_slash(text) <==> text.contains('/'),
        first_slash(text, at) <==> 0 <= at < text.len() && text[at] == '/' && !text.subrange(
            0,
            at,
        ).contains('/'),
{
    assert(text.contains('/') ==> has_slash(text)) by {
        if text.contains('/') {
            let i = choose|i: int| 0 <= i < text.len() && text[i] == '/';
            assert(text[i] == '/');
        }
    }
    if 0 <= at < text.len() {
        let head = text.subrange(0, at);
        if head.contains('/') {
            let i = choose|i: int| 0 <= i < head.len() && head[i] == '/';
            assert(text[i] == '/');
        } else {
            assert forall|i: int| 0 <= i < at implies #[trigger] text[i] != '/' by {
                assert(head[i] == text[i]);
                assert(!head.contains(text[i]) || text[i] != '/');
                if text[i] == '/' {
                    assert(head.contains('/'));
                }
            }
        }
    }
}

/// A session's own system prompt is the list of strings under that name in its parameters.
pub proof fn law_system_prompts_are_read_from_the_parameters(params: Option<JsonValue>)
    ensures
        params is None ==> system_strings(params).len() == 0,
        params matches Some(given) ==> (json::field(given, "system"@) is None ==> system_strings(
            params,
        ).len() == 0),
        params matches Some(given) ==> (json::field(given, "system"@) matches Some(
            JsonValue::Array(items),
        ) ==> system_strings(params) == json::strings_in(items@)),
        params matches Some(given) ==> (json::field(given, "system"@) matches Some(value) ==> !(
        value is Array) ==> system_strings(params).len() == 0),
{
}

/// What a session remembers as cancelled is its own token, and each relay has one task.
pub proof fn law_sessions_remember_their_own_token(actor: SessionActor, i: int, j: int)
    requires
        actor.wf(),
    ensures
        actor.turn_state.cancelled matches Some(cancellation) ==> cancellation.token()
            == actor.turn_state.token,
        0 <= i < j < actor.forwarders@.len() ==> actor.forwarders@[i].relay_actor_id
            != actor.forwarders@[j].relay_actor_id,
{
}

/// A token that is kept was seen not to be cancelled.
pub proof fn law_kept_tokens_are_not_cancelled(
    before: SessionActor,
    accepted: AcceptedPrompt,
    after: SessionActor,
)
    requires
        accepts(before, accepted, after),
    ensures
        accepted.choice matches TokenChoice::Kept(uncancelled) ==> uncancelled.token()
            == before.turn_state.token && accepted.token == uncancelled.token(),
{
}

} // verus!
