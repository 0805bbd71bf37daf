//! What is under a session's control: its mode, and the model that it uses in each mode.
use vstd::prelude::*;

use crate::chat::ReasoningEffort;
use crate::model;
use crate::model::AgentMode;
use crate::string_map::StringMap;

verus! {

/// The model and the route to its provider that a session uses in a mode.
#[derive(Debug, PartialEq, Eq)]
pub struct SessionModelBinding {
    pub model_id: String,
    pub provider: String,
    pub model: String,
    pub llm_config_id: i64,
    pub provider_node_id: Option<String>,
}

impl SessionModelBinding {
    /// The key under which the binding for a mode is kept.
    pub fn mode_key(mode: AgentMode) -> (key: String)
        ensures
            key@ == model::mode_id(mode),
    {
        mode.as_str().to_string()
    }
}

/// The control state of a session.
#[derive(Debug)]
pub struct SessionControlState {
    pub revision: u64,
    pub active_mode: AgentMode,
    pub reasoning_effort: Option<ReasoningEffort>,
    pub effective_model: SessionModelBinding,
    /// The bindings, by the key of their mode.
    pub mode_models: StringMap<SessionModelBinding>,
}

impl SessionControlState {
    /// No mode has two bindings.
    pub open spec fn wf(&self) -> bool {
        self.mode_models.wf()
    }

    /// The binding for a mode, if it has one.
    pub open spec fn binding(&self, mode: AgentMode) -> Option<SessionModelBinding> {
        if self.mode_models@.dom().contains(model::mode_id(mode)) {
            Some(self.mode_models@[model::mode_id(mode)])
        } else {
            None
        }
    }

    /// The binding for a mode, if it has one.
    pub fn binding_for(&self, mode: AgentMode) -> (binding: Option<&SessionModelBinding>)
        requires
            self.wf(),
        ensures
            match binding {
                Some(binding) => self.binding(mode) == Some(*binding),
                None => self.binding(mode) is None,
            },
    {
        self.mode_models.get(mode.as_str())
    }

    /// Binds a mode to a model. The bindings of the other modes stay.
    pub fn set_binding(&mut self, mode: AgentMode, binding: SessionModelBinding)
        requires
            old(self).wf(),
        ensures
            final(self).wf(),
            forall|other: AgentMode| #[trigger]
                final(self).binding(other) == if other == mode {
                    Some(binding)
                } else {
                    old(self).binding(other)
                },
            final(self).mode_models@ == old(self).mode_models@.insert(
                model::mode_id(mode),
                binding,
            ),
            final(self).revision == old(self).revision,
            final(self).active_mode == old(self).active_mode,
            final(self).reasoning_effort == old(self).reasoning_effort,
            final(self).effective_model == old(self).effective_model,
    {
        self.mode_models.insert(SessionModelBinding::mode_key(mode), binding);
        proof {
            assert forall|other: AgentMode| #[trigger]
                self.binding(other) == if other == mode {
                    Some(binding)
                } else {
                    old(self).binding(other)
                } by {
                if model::mode_id(other) == model::mode_id(mode) {
                    model::law_mode_ids_differ(other, mode);
                }
            }
        }
    }
}

/// A model that was selected for a session.
#[derive(Debug, PartialEq, Eq)]
pub struct SessionModelSelection {
    pub model_id: String,
    pub provider_node_id: Option<String>,
}

/// The control state before and after an operation.
#[derive(Debug)]
pub struct SessionControlTransition {
    pub previous: SessionControlState,
    pub current: SessionControlState,
}

/// The binding of a mode is the one that is kept under the mode's name.
pub proof fn law_bindings_are_kept_by_mode(state: SessionControlState, mode: AgentMode)
    ensures
        state.binding(mode) is Some <==> state.mode_models@.dom().contains(model::mode_id(mode)),
        state.binding(mode) matches Some(binding) ==> binding == state.mode_models@[model::mode_id(
            mode,
        )],
{
}

} // verus!
