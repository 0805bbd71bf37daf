//! How a session comes to another model: by a configuration of its own, by the choice of a
//! model id, or because a planning summary joins its system prompt.
//!
//! A change is a state machine that says what is asked of the history store next and is
//! told how that went. Whatever brought it about, it ends with a stored configuration that
//! the session is assigned.
use vstd::prelude::*;

use crate::error::AgentError;
use crate::events::AgentEventKind;
use crate::json::JsonValue;
use crate::session_actor;
use crate::session_actor::{
    checked_provider, resolve_model_id, session_system_prompt, with_planning_context,
};
use crate::session_materializer::LlmConfig;
use crate::text::chars_of;
use crate::text;

verus! {

/// The parameters of a model as a session asks for it.
#[derive(Debug, PartialEq, Eq)]
pub struct LlmParams {
    pub provider: String,
    pub model: Option<String>,
    pub system: Vec<String>,
    /// Every other parameter, as the JSON text in which they were given.
    pub others: Option<String>,
}

/// The configuration that a session has.
#[derive(Debug, PartialEq, Eq)]
pub struct CurrentConfig {
    pub provider: String,
    pub model: String,
    pub params: Option<JsonValue>,
}

/// What is wanted.
#[derive(Debug)]
pub enum ModelRequest {
    /// A provider with parameters of its own.
    Configure { params: LlmParams },
    /// A model of a provider, with the system prompt that the session has.
    Provide { provider: String, model: String, initial_system: Vec<String> },
    /// The model with this id, with the system prompt of the session that was asked.
    Select { asked_session_id: String, model_id: String, initial_system: Vec<String> },
    /// A model whose provider is known, with the system prompt of the session that was asked.
    Named { provider: String, model: String, initial_system: Vec<String> },
    /// The same model, with a summary at the end of the system prompt.
    AddContext { summary: String, initial_system: Vec<String> },
    /// The same model, with this system prompt.
    Prompted { system: Vec<String> },
}

/// Where a change stands, that is, what it waits for.
#[derive(Debug, Clone, Copy, PartialEq, Eq, Structural)]
pub enum ModelStage {
    CheckingProvider,
    FindingSession,
    /// Reading the configuration that holds the system prompt.
    ReadingSystem,
    /// Reading the configuration that names the current provider or model.
    ReadingCurrent,
    CreatingConfig,
    AssigningConfig,
    AssigningNode,
    Finished,
}

/// What a change is told.
#[derive(Debug)]
pub enum ModelEvent {
    /// Whether a plugin for the provider is installed.
    ProviderChecked { installed: bool },
    SessionFound(Result<bool, String>),
    CurrentRead(Result<Option<CurrentConfig>, String>),
    ConfigCreated(Result<LlmConfig, String>),
    /// The configuration was assigned to the session, or was not. The limit is that of the
    /// model, where it is known.
    ConfigAssigned { result: Result<(), String>, context_limit: Option<u64> },
    /// The provider's node was stored, or could not be; either way the change goes on.
    NodeAssigned { context_limit: Option<u64> },
}

/// What a change asks for.
#[derive(Debug)]
pub enum ModelAction {
    CheckProvider { name: String },
    FindSession,
    /// Reads the configuration of this session.
    ReadCurrent { session_id: String },
    CreateConfig(LlmParams),
    AssignConfig { config_id: i64 },
    AssignNode { provider_node_id: Option<String> },
    Respond(Result<(), AgentError>),
    /// The event does not belong to the stage; nothing is to be done.
    Ignore,
}

/// What a change does on an event: the event that it emits, if any, and what it asks for
/// then.
#[derive(Debug)]
pub struct ModelStep {
    pub emit: Option<AgentEventKind>,
    pub action: ModelAction,
}

/// The course of one change.
#[derive(Debug)]
pub struct ModelRun {
    /// The session whose model changes.
    pub session_id: String,
    /// What is wanted, until the parameters are sent to the store.
    pub request: Option<ModelRequest>,
    /// The configuration is announced once the session has it.
    pub announces: bool,
    /// The node of the provider is stored with the session.
    pub assigns_node: bool,
    pub provider_node_id: Option<String>,
    pub stage: ModelStage,
    /// The configuration, once it is stored.
    pub config: Option<LlmConfig>,
}

/// `action` answers with an internal error of these words.
pub open spec fn fails(step: ModelStep, message: Seq<char>) -> bool {
    &&& step.emit is None
    &&& step.action matches ModelAction::Respond(Err(AgentError::Internal(words))) && words@
        == message
}

/// `run` at its end, and otherwise the same.
pub open spec fn ended(run: ModelRun) -> ModelRun {
    ModelRun { stage: ModelStage::Finished, ..run }
}

/// The event with which a session's configuration is announced.
pub open spec fn announcement(
    config: LlmConfig,
    context_limit: Option<u64>,
    provider_node_id: Option<String>,
) -> AgentEventKind {
    AgentEventKind::ProviderChanged {
        provider: config.provider,
        model: config.model,
        config_id: config.id,
        context_limit,
        provider_node_id,
    }
}

/// The parameters that `current` holds, if the configuration could be read.
pub open spec fn params_of(current: Result<Option<CurrentConfig>, String>) -> Option<JsonValue> {
    match current {
        Ok(Some(config)) => config.params,
        _ => None,
    }
}

/// The system prompt of a session with the configuration `current`.
pub open spec fn system_of(
    current: Result<Option<CurrentConfig>, String>,
    initial: Seq<String>,
) -> Seq<Seq<char>> {
    let own = session_actor::system_strings(params_of(current));
    if own.len() > 0 {
        own
    } else {
        text::texts(initial)
    }
}

/// The model id `model_id` names this provider and this model; where it names no provider
/// that is the current one.
pub open spec fn selects(
    provider: Seq<char>,
    model: Seq<char>,
    model_id: Seq<char>,
    current: Option<CurrentConfig>,
) -> bool {
    if session_actor::has_slash(model_id) {
        exists|at: int|
            {
                &&& #[trigger] session_actor::first_slash(model_id, at)
                &&& provider == model_id.subrange(0, at)
                &&& model == model_id.subrange(at + 1, model_id.len() as int)
            }
    } else {
        &&& model == model_id
        &&& match current {
            Some(config) => provider == config.provider@,
            None => provider == "anthropic"@,
        }
    }
}

/// What a choice of a model becomes and does when its provider is known: it reads the
/// configuration of the session that was asked, for its system prompt.
pub open spec fn is_named(
    run: ModelRun,
    current: Option<CurrentConfig>,
    after: ModelRun,
    step: ModelStep,
) -> bool {
    &&& run.request matches Some(
        ModelRequest::Select { asked_session_id, model_id, initial_system: initial },
    )
    &&& after.request matches Some(ModelRequest::Named { provider, model, initial_system })
    &&& selects(provider@, model@, model_id@, current)
    &&& initial_system == initial
    &&& after == (ModelRun { request: after.request, stage: ModelStage::ReadingSystem, ..run })
    &&& step.emit is None
    &&& step.action == (ModelAction::ReadCurrent { session_id: asked_session_id })
}

/// What a change does when it has read the configuration that holds the system prompt. A
/// read that failed is as good as one that found nothing.
pub open spec fn is_system_step(
    run: ModelRun,
    current: Result<Option<CurrentConfig>, String>,
    after: ModelRun,
    step: ModelStep,
) -> bool {
    match run.request {
        Some(ModelRequest::Named { provider, model, initial_system }) => {
            &&& after == (ModelRun { request: None, stage: ModelStage::CreatingConfig, ..run })
            &&& step.emit is None
            &&& step.action matches ModelAction::CreateConfig(params)
            &&& params.provider == provider
            &&& params.model == Some(model)
            &&& params.others is None
            &&& text::texts(params.system@) == system_of(current, initial_system@)
        },
        Some(ModelRequest::Provide { provider, model, initial_system }) => {
            &&& after.request matches Some(ModelRequest::Configure { params })
            &&& params.provider == provider
            &&& params.model == Some(model)
            &&& text::texts(params.system@) == system_of(current, initial_system@)
            &&& params.others is None
            &&& after == (ModelRun {
                request: after.request,
                stage: ModelStage::CheckingProvider,
                ..run
            })
            &&& step.emit is None
            &&& step.action == (ModelAction::CheckProvider { name: provider })
        },
        Some(ModelRequest::AddContext { summary, initial_system }) => {
            &&& after.request matches Some(ModelRequest::Prompted { system })
            &&& text::texts(system@) == system_of(current, initial_system@).push(summary@)
            &&& after == (ModelRun {
                request: after.request,
                stage: ModelStage::ReadingCurrent,
                ..run
            })
            &&& step.emit is None
            &&& step.action == (ModelAction::ReadCurrent { session_id: run.session_id })
        },
        _ => after == run && step.emit is None && step.action is Ignore,
    }
}

/// What a change does when it has read the configuration that names the current provider or
/// model. It does not go on from a read that failed.
pub open spec fn is_current_step(
    run: ModelRun,
    current: Result<Option<CurrentConfig>, String>,
    after: ModelRun,
    step: ModelStep,
) -> bool {
    match (run.request, current) {
        (Some(ModelRequest::Select { .. }), Ok(current)) => is_named(run, current, after, step),
        (Some(ModelRequest::Prompted { .. }), Ok(None)) => {
            &&& after == ended(run)
            &&& step.emit is None
            &&& step.action == ModelAction::Respond(Ok(()))
        },
        (Some(ModelRequest::Prompted { system }), Ok(Some(config))) => {
            &&& after == (ModelRun { request: None, stage: ModelStage::CreatingConfig, ..run })
            &&& step.emit is None
            &&& step.action == ModelAction::CreateConfig(
                LlmParams {
                    provider: config.provider,
                    model: Some(config.model),
                    system,
                    others: None,
                },
            )
        },
        (Some(ModelRequest::Select { .. }), Err(reason)) => after == ended(run) && fails(
            step,
            reason@,
        ),
        (Some(ModelRequest::Prompted { .. }), Err(reason)) => after == ended(run) && fails(
            step,
            reason@,
        ),
        _ => after == run && step.emit is None && step.action is Ignore,
    }
}

/// What a change becomes and does on `event`.
pub open spec fn is_step(
    run: ModelRun,
    event: ModelEvent,
    after: ModelRun,
    step: ModelStep,
) -> bool {
    match (run.stage, event) {
        (ModelStage::CheckingProvider, ModelEvent::ProviderChecked { installed }) => {
            &&& run.request matches Some(ModelRequest::Configure { params })
            &&& step.emit is None
            &&& if installed {
                &&& after == (ModelRun {
                    request: None,
                    stage: ModelStage::CreatingConfig,
                    ..run
                })
                &&& step.action == ModelAction::CreateConfig(params)
            } else {
                &&& after == ended(run)
                &&& step.action matches ModelAction::Respond(Err(error))
                &&& error matches AgentError::UnknownProvider { name } && name == params.provider
            }
        },
        (ModelStage::FindingSession, ModelEvent::SessionFound(found)) => match found {
            Ok(true) => {
                &&& run.request matches Some(ModelRequest::Select { model_id, .. })
                &&& if session_actor::has_slash(model_id@) {
                    is_named(run, None, after, step)
                } else {
                    &&& after == (ModelRun { stage: ModelStage::ReadingCurrent, ..run })
                    &&& step.emit is None
                    &&& step.action == (ModelAction::ReadCurrent { session_id: run.session_id })
                }
            },
            Ok(false) => {
                &&& after == ended(run)
                &&& step.emit is None
                &&& step.action matches ModelAction::Respond(Err(error))
                &&& error matches AgentError::SessionNotFound { session_id } && session_id
                    == run.session_id
            },
            Err(reason) => after == ended(run) && fails(step, reason@),
        },
        (ModelStage::ReadingSystem, ModelEvent::CurrentRead(current)) => is_system_step(
            run,
            current,
            after,
            step,
        ),
        (ModelStage::ReadingCurrent, ModelEvent::CurrentRead(current)) => is_current_step(
            run,
            current,
            after,
            step,
        ),
        (ModelStage::CreatingConfig, ModelEvent::ConfigCreated(created)) => match created {
            Ok(config) => {
                &&& after == (ModelRun {
                    stage: ModelStage::AssigningConfig,
                    config: Some(config),
                    ..run
                })
                &&& step.emit is None
                &&& step.action == (ModelAction::AssignConfig { config_id: config.id })
            },
            Err(reason) => after == ended(run) && fails(step, reason@),
        },
        (
            ModelStage::AssigningConfig,
            ModelEvent::ConfigAssigned { result, context_limit },
        ) => match result {
            Err(reason) => after == ended(run) && fails(step, reason@),
            Ok(_) => if run.assigns_node {
                &&& after == (ModelRun { stage: ModelStage::AssigningNode, ..run })
                &&& step.emit is None
                &&& step.action == (ModelAction::AssignNode {
                    provider_node_id: run.provider_node_id,
                })
            } else {
                &&& after == ended(run)
                &&& step.emit == if run.announces {
                    Some(announcement(run.config->Some_0, context_limit, run.provider_node_id))
                } else {
                    None
                }
                &&& step.action == ModelAction::Respond(Ok(()))
            },
        },
        (ModelStage::AssigningNode, ModelEvent::NodeAssigned { context_limit }) => {
            &&& after == ended(run)
            &&& step.emit == Some(
                announcement(run.config->Some_0, context_limit, run.provider_node_id),
            )
            &&& step.action == ModelAction::Respond(Ok(()))
        },
        _ => after == run && step.emit is None && step.action is Ignore,
    }
}

fn quiet(action: ModelAction) -> (step: ModelStep)
    ensures
        step.emit is None,
        step.action == action,
{
    ModelStep { emit: None, action }
}

/// The step that asks for the configuration with these parameters.
fn ask_for(names: (String, String), system: Vec<String>) -> (step: ModelStep)
    ensures
        step == (ModelStep {
            emit: None,
            action: ModelAction::CreateConfig(
                LlmParams { provider: names.0, model: Some(names.1), system, others: None },
            ),
        }),
{
    quiet(
        ModelAction::CreateConfig(
            LlmParams { provider: names.0, model: Some(names.1), system, others: None },
        ),
    )
}

fn has_slash(text: &str) -> (yes: bool)
    ensures
        yes == session_actor::has_slash(text@),
{
    let chars = chars_of(text);
    let mut i: usize = 0;
    while i < chars.len()
        invariant
            chars@ == text@,
            i <= chars@.len(),
            forall|j: int| 0 <= j < i ==> #[trigger] text@[j] != '/',
        decreases chars@.len() - i,
    {
        if chars[i] == '/' {
            assert(text@[i as int] == '/');
            return true;
        }
        i = i + 1;
    }
    false
}

impl ModelRun {
    /// What is wanted fits the stage, a configuration is known before it is assigned, and
    /// only a choice of a model stores a node.
    pub open spec fn wf(&self) -> bool {
        &&& self.stage == ModelStage::CheckingProvider ==> (self.request matches Some(
            ModelRequest::Configure { .. },
        ))
        &&& self.stage == ModelStage::FindingSession ==> (self.request matches Some(
            ModelRequest::Select { .. },
        ))
        &&& self.stage == ModelStage::ReadingSystem ==> (self.request matches Some(request) && (
        request is Named || request is Provide || request is AddContext))
        &&& self.stage == ModelStage::ReadingCurrent ==> (self.request matches Some(request) && (
        request is Select || request is Prompted))
        &&& self.stage == ModelStage::AssigningConfig || self.stage == ModelStage::AssigningNode
            ==> self.config is Some
    }

    /// A change to a model with parameters of its own, which must name a provider.
    pub fn configure(
        session_id: String,
        provider: Option<String>,
        model: Option<String>,
        system: Vec<String>,
        others: Option<String>,
    ) -> (result: (ModelRun, ModelStep))
        ensures
            result.0.wf(),
            result.0.session_id == session_id,
            result.0.announces,
            !result.0.assigns_node,
            result.0.provider_node_id is None,
            result.0.config is None,
            result.1.emit is None,
            match provider {
                Some(provider) => {
                    &&& result.0.stage == ModelStage::CheckingProvider
                    &&& result.0.request == Some(
                        ModelRequest::Configure { params: LlmParams { provider, model, system, others } },
                    )
                    &&& result.1.action == (ModelAction::CheckProvider { name: provider })
                },
                None => {
                    &&& result.0.stage == ModelStage::Finished
                    &&& result.1.action == ModelAction::Respond(Err(AgentError::ProviderRequired))
                },
            },
    {
        let mut run = ModelRun {
            session_id,
            request: None,
            announces: true,
            assigns_node: false,
            provider_node_id: None,
            stage: ModelStage::Finished,
            config: None,
        };
        match checked_provider(provider, true) {
            Ok(provider) => {
                let name = provider.clone();
                run.request = Some(
                    ModelRequest::Configure { params: LlmParams { provider, model, system, others } },
                );
                run.stage = ModelStage::CheckingProvider;
                (run, quiet(ModelAction::CheckProvider { name }))
            },
            Err(error) => (run, quiet(ModelAction::Respond(Err(error)))),
        }
    }

    /// A change to a model of a provider that keeps the system prompt of the session.
    /// `initial_system` is that of a session that has none of its own.
    pub fn set_provider(
        session_id: String,
        provider: String,
        model: String,
        initial_system: Vec<String>,
    ) -> (result: (ModelRun, ModelStep))
        ensures
            result.0.wf(),
            result.0 == (ModelRun {
                session_id,
                request: Some(ModelRequest::Provide { provider, model, initial_system }),
                announces: true,
                assigns_node: false,
                provider_node_id: None,
                stage: ModelStage::ReadingSystem,
                config: None,
            }),
            result.1.emit is None,
            result.1.action == (ModelAction::ReadCurrent { session_id }),
    {
        let read = session_id.clone();
        let run = ModelRun {
            session_id,
            request: Some(ModelRequest::Provide { provider, model, initial_system }),
            announces: true,
            assigns_node: false,
            provider_node_id: None,
            stage: ModelStage::ReadingSystem,
            config: None,
        };
        (run, quiet(ModelAction::ReadCurrent { session_id: read }))
    }

    /// A change of a session to the model with this id. The system prompt is that of the
    /// session that was asked for the change, `initial_system` where it has none of its own.
    pub fn select(
        session_id: String,
        asked_session_id: String,
        model_id: String,
        provider_node_id: Option<String>,
        initial_system: Vec<String>,
    ) -> (result: (ModelRun, ModelStep))
        ensures
            result.0.wf(),
            result.0 == (ModelRun {
                session_id,
                request: Some(
                    ModelRequest::Select { asked_session_id, model_id, initial_system },
                ),
                announces: true,
                assigns_node: true,
                provider_node_id,
                stage: ModelStage::FindingSession,
                config: None,
            }),
            result.1.emit is None,
            result.1.action is FindSession,
    {
        let run = ModelRun {
            session_id,
            request: Some(ModelRequest::Select { asked_session_id, model_id, initial_system }),
            announces: true,
            assigns_node: true,
            provider_node_id,
            stage: ModelStage::FindingSession,
            config: None,
        };
        (run, quiet(ModelAction::FindSession))
    }

    /// A change that adds a planning summary to the session's system prompt.
    pub fn add_context(
        session_id: String,
        summary: String,
        initial_system: Vec<String>,
    ) -> (result: (ModelRun, ModelStep))
        ensures
            result.0.wf(),
            result.0 == (ModelRun {
                session_id,
                request: Some(ModelRequest::AddContext { summary, initial_system }),
                announces: false,
                assigns_node: false,
                provider_node_id: None,
                stage: ModelStage::ReadingSystem,
                config: None,
            }),
            result.1.emit is None,
            result.1.action == (ModelAction::ReadCurrent { session_id }),
    {
        let read = session_id.clone();
        let run = ModelRun {
            session_id,
            request: Some(ModelRequest::AddContext { summary, initial_system }),
            announces: false,
            assigns_node: false,
            provider_node_id: None,
            stage: ModelStage::ReadingSystem,
            config: None,
        };
        (run, quiet(ModelAction::ReadCurrent { session_id: read }))
    }

    fn fail(&mut self, reason: String) -> (step: ModelStep)
        ensures
            *final(self) == ended(*old(self)),
            fails(step, reason@),
    {
        self.stage = ModelStage::Finished;
        quiet(ModelAction::Respond(Err(AgentError::Internal(reason))))
    }

    fn announce(&self, context_limit: Option<u64>) -> (event: AgentEventKind)
        requires
            self.config is Some,
        ensures
            event == announcement(self.config->Some_0, context_limit, self.provider_node_id),
    {
        let config = self.config.as_ref().unwrap();
        let provider_node_id = match &self.provider_node_id {
            Some(node) => Some(node.clone()),
            None => None,
        };
        AgentEventKind::ProviderChanged {
            provider: config.provider.clone(),
            model: config.model.clone(),
            config_id: config.id,
            context_limit,
            provider_node_id,
        }
    }

    fn name_model(&mut self, current: Option<CurrentConfig>) -> (step: ModelStep)
        requires
            old(self).request is Some,
            old(self).request->Some_0 is Select,
        ensures
            is_named(*old(self), current, *final(self), step),
    {
        match self.request.take() {
            Some(ModelRequest::Select { asked_session_id, model_id, initial_system }) => {
                let current_provider = match current {
                    Some(config) => Some(config.provider),
                    None => None,
                };
                let (provider, model) = resolve_model_id(model_id.as_str(), current_provider);
                self.request = Some(ModelRequest::Named { provider, model, initial_system });
                self.stage = ModelStage::ReadingSystem;
                quiet(ModelAction::ReadCurrent { session_id: asked_session_id })
            },
            other => {
                self.request = other;
                quiet(ModelAction::Ignore)
            },
        }
    }

    fn read_system(&mut self, current: Result<Option<CurrentConfig>, String>) -> (step: ModelStep)
        ensures
            is_system_step(*old(self), current, *final(self), step),
    {
        let params = match current {
            Ok(Some(config)) => config.params,
            _ => None,
        };
        match self.request.take() {
            Some(ModelRequest::Named { provider, model, initial_system }) => {
                let system = session_system_prompt(&params, &initial_system);
                self.stage = ModelStage::CreatingConfig;
                ask_for((provider, model), system)
            },
            Some(ModelRequest::Provide { provider, model, initial_system }) => {
                let system = session_system_prompt(&params, &initial_system);
                let name = provider.clone();
                self.request = Some(
                    ModelRequest::Configure {
                        params: LlmParams { provider, model: Some(model), system, others: None },
                    },
                );
                self.stage = ModelStage::CheckingProvider;
                quiet(ModelAction::CheckProvider { name })
            },
            Some(ModelRequest::AddContext { summary, initial_system }) => {
                let system = session_system_prompt(&params, &initial_system);
                let ghost own = system@;
                let extended = with_planning_context(system, summary);
                assert(text::texts(extended@) =~= text::texts(own).push(summary@));
                self.request = Some(ModelRequest::Prompted { system: extended });
                self.stage = ModelStage::ReadingCurrent;
                quiet(ModelAction::ReadCurrent { session_id: self.session_id.clone() })
            },
            other => {
                self.request = other;
                quiet(ModelAction::Ignore)
            },
        }
    }

    fn read_current(&mut self, current: Result<Option<CurrentConfig>, String>) -> (step: ModelStep)
        requires
            old(self).request is Some,
            old(self).request->Some_0 is Select || old(self).request->Some_0 is Prompted,
        ensures
            is_current_step(*old(self), current, *final(self), step),
    {
        let current = match current {
            Ok(current) => current,
            Err(reason) => {
                return self.fail(reason);
            },
        };
        match self.request.take() {
            Some(ModelRequest::Prompted { system }) => match current {
                Some(config) => {
                    self.stage = ModelStage::CreatingConfig;
                    ask_for((config.provider, config.model), system)
                },
                None => {
                    self.request = Some(ModelRequest::Prompted { system });
                    self.stage = ModelStage::Finished;
                    quiet(ModelAction::Respond(Ok(())))
                },
            },
            request => {
                self.request = request;
                self.name_model(current)
            },
        }
    }

    /// Goes on after `event`. An event that the change does not wait for changes nothing.
    pub fn on_event(&mut self, event: ModelEvent) -> (step: ModelStep)
        requires
            old(self).wf(),
        ensures
            final(self).wf(),
            is_step(*old(self), event, *final(self), step),
    {
        match (self.stage, event) {
            (ModelStage::CheckingProvider, ModelEvent::ProviderChecked { installed }) => {
                match self.request.take() {
                    Some(ModelRequest::Configure { params }) => {
                        if installed {
                            self.stage = ModelStage::CreatingConfig;
                            quiet(ModelAction::CreateConfig(params))
                        } else {
                            let name = params.provider.clone();
                            self.request = Some(ModelRequest::Configure { params });
                            self.stage = ModelStage::Finished;
                            quiet(
                                ModelAction::Respond(Err(AgentError::UnknownProvider { name })),
                            )
                        }
                    },
                    _ => quiet(ModelAction::Ignore),
                }
            },
            (ModelStage::FindingSession, ModelEvent::SessionFound(found)) => match found {
                Ok(true) => {
                    let names_provider = match &self.request {
                        Some(ModelRequest::Select { model_id, .. }) => has_slash(
                            model_id.as_str(),
                        ),
                        _ => false,
                    };
                    if names_provider {
                        self.name_model(None)
                    } else {
                        self.stage = ModelStage::ReadingCurrent;
                        quiet(ModelAction::ReadCurrent { session_id: self.session_id.clone() })
                    }
                },
                Ok(false) => {
                    self.stage = ModelStage::Finished;
                    let session_id = self.session_id.clone();
                    quiet(ModelAction::Respond(Err(AgentError::SessionNotFound { session_id })))
                },
                Err(reason) => self.fail(reason),
            },
            (ModelStage::ReadingSystem, ModelEvent::CurrentRead(current)) => self.read_system(
                current,
            ),
            (ModelStage::ReadingCurrent, ModelEvent::CurrentRead(current)) => self.read_current(
                current,
            ),
            (ModelStage::CreatingConfig, ModelEvent::ConfigCreated(created)) => match created {
                Ok(config) => {
                    let config_id: i64 = config.id;
                    self.config = Some(config);
                    self.stage = ModelStage::AssigningConfig;
                    quiet(ModelAction::AssignConfig { config_id })
                },
                Err(reason) => self.fail(reason),
            },
            (
                ModelStage::AssigningConfig,
                ModelEvent::ConfigAssigned { result, context_limit },
            ) => match result {
                Ok(_) => {
                    if self.assigns_node {
                        self.stage = ModelStage::AssigningNode;
                        let provider_node_id = match &self.provider_node_id {
                            Some(node) => Some(node.clone()),
                            None => None,
                        };
                        quiet(ModelAction::AssignNode { provider_node_id })
                    } else {
                        self.stage = ModelStage::Finished;
                        let emit = if self.announces {
                            Some(self.announce(context_limit))
                        } else {
                            None
                        };
                        ModelStep { emit, action: ModelAction::Respond(Ok(())) }
                    }
                },
                Err(reason) => self.fail(reason),
            },
            (ModelStage::AssigningNode, ModelEvent::NodeAssigned { context_limit }) => {
                self.stage = ModelStage::Finished;
                let emit = Some(self.announce(context_limit));
                ModelStep { emit, action: ModelAction::Respond(Ok(())) }
            },
            _ => quiet(ModelAction::Ignore),
        }
    }
}

/// A session's configuration is announced only after it was stored and assigned, and with
/// the figures of the stored one.
pub proof fn law_announced_configurations_are_stored(
    run: ModelRun,
    event: ModelEvent,
    after: ModelRun,
    step: ModelStep,
)
    requires
        run.wf(),
        is_step(run, event, after, step),
        step.emit is Some,
    ensures
        run.stage == ModelStage::AssigningConfig || run.stage == ModelStage::AssigningNode,
        run.config is Some,
        step.emit->Some_0 is ProviderChanged,
        step.emit->Some_0->config_id == run.config->Some_0.id,
        step.action == ModelAction::Respond(Ok(())),
{
}

/// The system prompt of a new configuration is that of the current one, and the initial one
/// where the current one has none or cannot be read.
pub proof fn law_system_prompts_are_kept(
    current: Result<Option<CurrentConfig>, String>,
    initial: Seq<String>,
)
    ensures
        current matches Ok(Some(config)) ==> (session_actor::system_strings(config.params).len() > 0
            ==> system_of(current, initial) == session_actor::system_strings(config.params)),
        current matches Ok(Some(config)) ==> (session_actor::system_strings(config.params).len()
            == 0 ==> system_of(current, initial) == text::texts(initial)),
        current is Err ==> system_of(current, initial) == text::texts(initial),
        current matches Ok(None) ==> system_of(current, initial) == text::texts(initial),
{
}

/// A model id with a slash names its provider before the first slash and the model behind it;
/// one without is a model of the current provider, or of the default one.
pub proof fn law_model_ids_name_provider_and_model(
    provider: Seq<char>,
    model: Seq<char>,
    model_id: Seq<char>,
    current: Option<CurrentConfig>,
)
    requires
        selects(provider, model, model_id, current),
    ensures
        model_id.contains('/') ==> model_id == provider + seq!['/'] + model && !provider.contains(
            '/',
        ),
        !model_id.contains('/') ==> model == model_id,
        !model_id.contains('/') ==> (current matches Some(config) ==> provider == config.provider@),
        !model_id.contains('/') && current is None ==> provider == "anthropic"@,
{
    session_actor::law_model_names_are_parted_at_the_first_slash(model_id, 0);
    if session_actor::has_slash(model_id) {
        let at = choose|at: int|
            {
                &&& #[trigger] session_actor::first_slash(model_id, at)
                &&& provider == model_id.subrange(0, at)
                &&& model == model_id.subrange(at + 1, model_id.len() as int)
            };
        session_actor::law_model_names_are_parted_at_the_first_slash(model_id, at);
        assert(model_id =~= provider + seq!['/'] + model);
    }
}

/// A provider that is installed gets the parameters as they are, and one that is not is
/// refused by its name.
pub proof fn law_installed_providers_are_configured(
    run: ModelRun,
    installed: bool,
    after: ModelRun,
    step: ModelStep,
)
    requires
        run.stage == ModelStage::CheckingProvider,
        is_step(run, ModelEvent::ProviderChecked { installed }, after, step),
    ensures
        run.request matches Some(ModelRequest::Configure { params }) && {
            &&& step.emit is None
            &&& installed ==> after.stage == ModelStage::CreatingConfig && step.action
                == ModelAction::CreateConfig(params)
            &&& !installed ==> after.stage == ModelStage::Finished && (step.action matches
                ModelAction::Respond(Err(AgentError::UnknownProvider { name })) && name
                == params.provider)
        },
{
}

/// A session that is not there is told so; of one that is, the model is chosen by its id, for
/// which the current provider is read where the id names none.
pub proof fn law_models_are_selected_for_known_sessions(
    run: ModelRun,
    found: Result<bool, String>,
    after: ModelRun,
    step: ModelStep,
)
    requires
        run.stage == ModelStage::FindingSession,
        is_step(run, ModelEvent::SessionFound(found), after, step),
    ensures
        step.emit is None,
        after.session_id == run.session_id,
        after.provider_node_id == run.provider_node_id,
        found == Ok::<bool, String>(false) ==> after.stage == ModelStage::Finished && (
        step.action matches ModelAction::Respond(Err(AgentError::SessionNotFound { session_id }))
            && session_id == run.session_id),
        found matches Err(reason) ==> after.stage == ModelStage::Finished && (step.action matches
            ModelAction::Respond(Err(AgentError::Internal(words))) && words@ == reason@),
        found == Ok::<bool, String>(true) ==> (run.request matches Some(ModelRequest::Select {
            asked_session_id,
            model_id,
            ..
        }) && (model_id@.contains('/') ==> after.stage == ModelStage::ReadingSystem && step.action
            == (ModelAction::ReadCurrent { session_id: asked_session_id })) && (!model_id@.contains(
            '/',
        ) ==> after.stage == ModelStage::ReadingCurrent && step.action == (
        ModelAction::ReadCurrent { session_id: run.session_id }))),
{
    if let Some(ModelRequest::Select { model_id, .. }) = run.request {
        session_actor::law_model_names_are_parted_at_the_first_slash(model_id@, 0);
    }
}

/// What a request is turned into once the current configuration is known: a named model is
/// created with the session's system prompt, a provider is checked first, and a summary goes
/// to the end of the system prompt.
pub proof fn law_requests_take_over_the_system_prompt(
    run: ModelRun,
    current: Result<Option<CurrentConfig>, String>,
    after: ModelRun,
    step: ModelStep,
)
    requires
        run.stage == ModelStage::ReadingSystem,
        is_step(run, ModelEvent::CurrentRead(current), after, step),
    ensures
        step.emit is None,
        after.session_id == run.session_id,
        run.request matches Some(ModelRequest::Named { provider, model, initial_system }) ==> (
        after.stage == ModelStage::CreatingConfig && (step.action matches ModelAction::CreateConfig(
            params,
        ) && params.provider == provider && params.model == Some(model) && params.others is None
            && text::texts(params.system@) == system_of(current, initial_system@))),
        run.request matches Some(ModelRequest::Provide { provider, model, initial_system }) ==> (
        after.stage == ModelStage::CheckingProvider && step.action == (ModelAction::CheckProvider {
            name: provider,
        }) && (after.request matches Some(ModelRequest::Configure { params }) && params.provider
            == provider && params.model == Some(model) && params.others is None && text::texts(
            params.system@,
        ) == system_of(current, initial_system@))),
        run.request matches Some(ModelRequest::AddContext { summary, initial_system }) ==> (
        after.stage == ModelStage::ReadingCurrent && step.action == (ModelAction::ReadCurrent {
            session_id: run.session_id,
        }) && (after.request matches Some(ModelRequest::Prompted { system }) && text::texts(system@)
            == system_of(current, initial_system@).push(summary@))),
{
}

/// A new system prompt goes with the provider and the model that the session has; a session
/// without a model stays without one.
pub proof fn law_prompts_go_with_the_current_model(
    run: ModelRun,
    current: Result<Option<CurrentConfig>, String>,
    after: ModelRun,
    step: ModelStep,
    system: Vec<String>,
)
    requires
        run.stage == ModelStage::ReadingCurrent,
        run.request == Some(ModelRequest::Prompted { system }),
        is_step(run, ModelEvent::CurrentRead(current), after, step),
    ensures
        step.emit is None,
        current matches Ok(Some(config)) ==> after.stage == ModelStage::CreatingConfig && (
        step.action matches ModelAction::CreateConfig(params) && params.provider == config.provider
            && params.model == Some(config.model) && params.system == system
            && params.others is None),
        current matches Ok(None) ==> after.stage == ModelStage::Finished && step.action
            == ModelAction::Respond(Ok(())),
        current matches Err(reason) ==> after.stage == ModelStage::Finished && (step.action matches
            ModelAction::Respond(Err(AgentError::Internal(words))) && words@ == reason@),
{
}

/// A model id without a provider is a model of the provider that the session has now.
pub proof fn law_selected_models_are_read_with_their_provider(
    run: ModelRun,
    current: Result<Option<CurrentConfig>, String>,
    after: ModelRun,
    step: ModelStep,
    asked_session_id: String,
    model_id: String,
    initial_system: Vec<String>,
)
    requires
        run.stage == ModelStage::ReadingCurrent,
        run.request == Some(ModelRequest::Select { asked_session_id, model_id, initial_system }),
        is_step(run, ModelEvent::CurrentRead(current), after, step),
    ensures
        step.emit is None,
        current matches Err(reason) ==> after.stage == ModelStage::Finished && (step.action matches
            ModelAction::Respond(Err(AgentError::Internal(words))) && words@ == reason@),
        current matches Ok(config) ==> after.stage == ModelStage::ReadingSystem && step.action == (
        ModelAction::ReadCurrent { session_id: asked_session_id }) && (after.request matches Some(
            ModelRequest::Named { provider, model, initial_system: initial },
        ) && initial == initial_system && selects(provider@, model@, model_id@, config)),
{
}

/// A configuration that was created is assigned to the session, its node too where it is to
/// be, and it is announced with the provider, the model, the limit and the node.
pub proof fn law_created_configurations_are_assigned(
    run: ModelRun,
    event: ModelEvent,
    after: ModelRun,
    step: ModelStep,
)
    requires
        run.wf(),
        is_step(run, event, after, step),
    ensures
        run.stage == ModelStage::CreatingConfig ==> (event matches ModelEvent::ConfigCreated(
            Ok(config),
        ) ==> after.stage == ModelStage::AssigningConfig && after.config == Some(config)
            && step.emit is None && step.action == (ModelAction::AssignConfig {
            config_id: config.id,
        })),
        run.stage == ModelStage::CreatingConfig ==> (event matches ModelEvent::ConfigCreated(
            Err(reason),
        ) ==> after.stage == ModelStage::Finished && (step.action matches ModelAction::Respond(
            Err(AgentError::Internal(words)),
        ) && words@ == reason@)),
        run.stage == ModelStage::AssigningConfig ==> (event matches ModelEvent::ConfigAssigned {
            result: Err(reason),
            ..
        } ==> after.stage == ModelStage::Finished && step.emit is None && (step.action matches
            ModelAction::Respond(Err(AgentError::Internal(words))) && words@ == reason@)),
        run.stage == ModelStage::AssigningConfig && run.assigns_node ==> (event matches
            ModelEvent::ConfigAssigned { result: Ok(_), .. } ==> after.stage
            == ModelStage::AssigningNode && step.emit is None && step.action == (
        ModelAction::AssignNode { provider_node_id: run.provider_node_id })),
        run.stage == ModelStage::AssigningConfig && !run.assigns_node ==> (event matches
            ModelEvent::ConfigAssigned { result: Ok(_), context_limit } ==> after.stage
            == ModelStage::Finished && step.action == ModelAction::Respond(Ok(())) && (
        step.emit is Some <==> run.announces) && (step.emit matches Some(
            AgentEventKind::ProviderChanged { context_limit: told, .. },
        ) ==> told == context_limit)),
        run.stage == ModelStage::AssigningNode ==> (event matches ModelEvent::NodeAssigned {
            context_limit,
        } ==> after.stage == ModelStage::Finished && step.action == ModelAction::Respond(Ok(()))
            && (step.emit matches Some(AgentEventKind::ProviderChanged { context_limit: told, .. })
            && told == context_limit)),
        step.emit is Some ==> (step.emit matches Some(AgentEventKind::ProviderChanged {
            provider,
            model,
            config_id,
            provider_node_id,
            ..
        }) && provider == run.config->Some_0.provider && model == run.config->Some_0.model
            && config_id == run.config->Some_0.id && provider_node_id == run.provider_node_id),
{
}

/// An event that does not belong to the stage changes nothing.
pub proof fn law_other_events_change_no_model(
    run: ModelRun,
    event: ModelEvent,
    after: ModelRun,
    step: ModelStep,
)
    requires
        is_step(run, event, after, step),
        !(run.stage == ModelStage::CheckingProvider && event is ProviderChecked),
        !(run.stage == ModelStage::FindingSession && event is SessionFound),
        !(run.stage == ModelStage::ReadingSystem && event is CurrentRead),
        !(run.stage == ModelStage::ReadingCurrent && event is CurrentRead),
        !(run.stage == ModelStage::CreatingConfig && event is ConfigCreated),
        !(run.stage == ModelStage::AssigningConfig && event is ConfigAssigned),
        !(run.stage == ModelStage::AssigningNode && event is NodeAssigned),
    ensures
        after == run,
        step.emit is None,
        step.action is Ignore,
{
}

} // verus!
