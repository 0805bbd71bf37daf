//! The logic of an agent that works in sessions: what a session keeps between its turns,
//! how a prompt, a turn, a tool call, an undo or the set-up of a session runs its course,
//! and how sessions, providers and nodes of a mesh find each other.
//!
//! Work that reaches outside (models, tools, files, processes, the network) is asked for
//! and reported back; what is decided in between is decided here.

pub mod cancellation;
pub mod chat;
pub mod delivery;
pub mod error;
pub mod events;
pub mod file_proxy;
pub mod json;
pub mod llm_call;
pub mod mesh;
pub mod model;
pub mod model_change;
pub mod prompt_run;
pub mod provider_host;
pub mod qr;
pub mod registry_exchange;
pub mod remote_attach;
pub mod remote_handle;
pub mod remote_prompt;
pub mod remote_setup;
pub mod routing;
pub mod runtime_handle;
pub mod scope;
pub mod session_actor;
pub mod session_config;
pub mod session_control;
pub mod session_materializer;
pub mod session_mcp;
pub mod session_registry;
pub mod session_requests;
pub mod session_stream_router;
pub mod snapshots;
pub mod stamps;
pub mod string_map;
pub mod text;
pub mod tool_execution;
pub mod tool_results;
pub mod tools;
pub mod transitions;
pub mod transport;
pub mod turn_control;
pub mod turn_steps;
pub mod undo;
pub mod undo_run;
pub mod utils;
pub mod worker_manager;
pub mod worker_spawn;
