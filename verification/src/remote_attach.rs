//! How a session on another node is attached to this one: its relay is published, linked to
//! the session and subscribed to its events, and only then the attachment is ready.
//!
//! The attaching is a state machine that says what is to be done next and is told how that
//! went.
use vstd::prelude::*;

use crate::error::AgentError;
use crate::runtime_handle::MeshRuntimeHandle;
use crate::scope::MeshScopeId;
use crate::session_registry;
use crate::session_registry::{
    after_attach_step, cleanup_steps, prepare_relay, AttachOutcome, AttachStep, CleanupStep,
    PreparedRemoteAttachment, RemoteRelayRegistration, SessionActorRef,
};

verus! {

/// Where an attaching stands, that is, what it waits for.
#[derive(Debug, Clone, Copy, PartialEq, Eq, Structural)]
pub enum AttachStage {
    Publishing,
    Linking,
    Subscribing,
    Finished,
}

/// What an attaching is told.
#[derive(Debug)]
pub enum AttachEvent {
    /// The relay is published under all its names.
    Published,
    Linked(Result<(), String>),
    Subscribed(Result<(), String>),
}

/// What an attaching asks for.
#[derive(Debug)]
pub enum AttachAction {
    /// Publishes the relay under these names, one after the other.
    Publish { names: Vec<String> },
    /// Links the relay to the session, so that it learns when the session ends.
    Link,
    /// Subscribes the relay to the session's events.
    Subscribe { relay_actor_id: u64, relay_dht_name: String },
    /// The attachment is ready to be installed.
    Ready(PreparedRemoteAttachment),
    /// The attachment is taken back in these steps, and the error reported.
    Abort { steps: Vec<CleanupStep>, error: AgentError },
    /// The event does not belong to the stage; nothing is to be done.
    Ignore,
}

/// The attaching of one session.
#[derive(Debug)]
pub struct AttachRun {
    pub stage: AttachStage,
    /// The attachment, until it is ready or taken back.
    pub prepared: Option<PreparedRemoteAttachment>,
}

/// The attachment is taken back, with an error of these words.
pub open spec fn aborts(
    prepared: PreparedRemoteAttachment,
    words: Seq<char>,
    action: AttachAction,
) -> bool {
    &&& action matches AttachAction::Abort { steps, error }
    &&& session_registry::is_cleanup(prepared.session_ref, prepared.relay, true, steps@)
    &&& session_registry::remote_failure(error, words)
}

/// The attachment after its relay was linked.
pub open spec fn linked(prepared: PreparedRemoteAttachment) -> PreparedRemoteAttachment {
    PreparedRemoteAttachment {
        relay: RemoteRelayRegistration { linked: true, ..prepared.relay },
        ..prepared
    }
}

/// What an attaching becomes and asks for on `event`.
pub open spec fn is_step(
    run: AttachRun,
    event: AttachEvent,
    after: AttachRun,
    action: AttachAction,
) -> bool {
    let prepared = run.prepared->Some_0;
    let over = AttachRun { stage: AttachStage::Finished, prepared: None };
    match (run.stage, event) {
        (AttachStage::Publishing, AttachEvent::Published) => {
            &&& after == (AttachRun { stage: AttachStage::Linking, ..run })
            &&& action is Link
        },
        (AttachStage::Linking, AttachEvent::Linked(Ok(_))) => {
            &&& after == (AttachRun {
                stage: AttachStage::Subscribing,
                prepared: Some(linked(prepared)),
            })
            &&& action matches AttachAction::Subscribe { relay_actor_id, relay_dht_name }
            &&& relay_actor_id == prepared.relay.relay_actor_id
            &&& relay_dht_name@ == prepared.relay.relay_dht_name@
        },
        (AttachStage::Linking, AttachEvent::Linked(Err(reason))) => {
            &&& after == over
            &&& aborts(
                prepared,
                "failed to link event relay to remote session: "@ + reason@,
                action,
            )
        },
        (AttachStage::Subscribing, AttachEvent::Subscribed(Ok(_))) => {
            &&& after == over
            &&& action == AttachAction::Ready(prepared)
        },
        (AttachStage::Subscribing, AttachEvent::Subscribed(Err(reason))) => {
            &&& after == over
            &&& aborts(
                prepared,
                "failed to subscribe remote session events: "@ + reason@,
                action,
            )
        },
        _ => after == run && action is Ignore,
    }
}

impl AttachRun {
    /// The attachment is known until it is ready or taken back. Its relay is linked exactly
    /// when it is being subscribed.
    pub open spec fn wf(&self) -> bool {
        &&& self.stage != AttachStage::Finished ==> self.prepared is Some
        &&& self.stage == AttachStage::Subscribing ==> self.prepared->Some_0.relay.linked
        &&& self.stage == AttachStage::Publishing || self.stage == AttachStage::Linking
            ==> !self.prepared->Some_0.relay.linked
    }

    /// The attaching of a session by a relay that was just started, and the first thing to
    /// do. Where there is no mesh nothing is published.
    pub fn prepare_remote_attachment(
        session_id: String,
        session_ref: SessionActorRef,
        relay_actor_id: u64,
        mesh: Option<&MeshRuntimeHandle>,
        preferred_scope: Option<MeshScopeId>,
    ) -> (begun: (AttachRun, AttachAction))
        ensures
            begun.0.wf(),
            begun.0.stage == AttachStage::Publishing,
            begun.0.prepared matches Some(prepared) && prepared.session_id == session_id
                && prepared.session_ref == session_ref && session_registry::is_relay(
                session_id@,
                relay_actor_id,
                match mesh {
                    Some(mesh) => Some(*mesh),
                    None => None,
                },
                preferred_scope,
                prepared.relay,
            ),
            begun.1 matches AttachAction::Publish { names } && names@
                == begun.0.prepared->Some_0.relay.registered_relay_names@,
    {
        let relay = prepare_relay(session_id.as_str(), relay_actor_id, mesh, preferred_scope);
        let names = relay.registered_relay_names.clone();
        let prepared = PreparedRemoteAttachment { session_id, session_ref, relay };
        let run = AttachRun { stage: AttachStage::Publishing, prepared: Some(prepared) };
        (run, AttachAction::Publish { names })
    }

    fn go_on(&mut self, step: AttachStep, outcome: Result<(), String>) -> (action: AttachAction)
        requires
            old(self).wf(),
            match step {
                AttachStep::Link => old(self).stage == AttachStage::Linking,
                AttachStep::Subscribe => old(self).stage == AttachStage::Subscribing,
            },
        ensures
            final(self).wf(),
            is_step(
                *old(self),
                match step {
                    AttachStep::Link => AttachEvent::Linked(outcome),
                    AttachStep::Subscribe => AttachEvent::Subscribed(outcome),
                },
                *final(self),
                action,
            ),
    {
        match after_attach_step(self.prepared.take().unwrap(), step, outcome) {
            AttachOutcome::Subscribe(prepared) => {
                let relay_actor_id: u64 = prepared.relay.relay_actor_id;
                let relay_dht_name = prepared.relay.relay_dht_name.clone();
                self.prepared = Some(prepared);
                self.stage = AttachStage::Subscribing;
                AttachAction::Subscribe { relay_actor_id, relay_dht_name }
            },
            AttachOutcome::Ready(prepared) => {
                self.stage = AttachStage::Finished;
                AttachAction::Ready(prepared)
            },
            AttachOutcome::Abort(prepared, error) => {
                self.stage = AttachStage::Finished;
                let steps = cleanup_steps(&prepared.session_ref, &prepared.relay, true);
                AttachAction::Abort { steps, error }
            },
        }
    }

    /// Goes on after `event`. A step that fails ends the attaching, and the attachment is
    /// taken back. An event that the attaching does not wait for changes nothing.
    pub fn on_event(&mut self, event: AttachEvent) -> (action: AttachAction)
        requires
            old(self).wf(),
        ensures
            final(self).wf(),
            is_step(*old(self), event, *final(self), action),
    {
        match (self.stage, event) {
            (AttachStage::Publishing, AttachEvent::Published) => {
                self.stage = AttachStage::Linking;
                AttachAction::Link
            },
            (AttachStage::Linking, AttachEvent::Linked(outcome)) => self.go_on(
                AttachStep::Link,
                outcome,
            ),
            (AttachStage::Subscribing, AttachEvent::Subscribed(outcome)) => self.go_on(
                AttachStep::Subscribe,
                outcome,
            ),
            _ => AttachAction::Ignore,
        }
    }
}

/// An attachment that is ready to be installed is linked and subscribed.
pub proof fn law_ready_attachments_are_linked(
    run: AttachRun,
    event: AttachEvent,
    after: AttachRun,
    action: AttachAction,
)
    requires
        run.wf(),
        is_step(run, event, after, action),
        action is Ready,
    ensures
        run.stage == AttachStage::Subscribing,
        event matches AttachEvent::Subscribed(outcome) && outcome is Ok,
        action matches AttachAction::Ready(prepared) && prepared.relay.linked,
{
}

/// An attaching that fails leaves nothing behind: the last step in which it is taken back
/// ends the relay, and every name that was published is taken out of the mesh.
pub proof fn law_failed_attachings_leave_nothing(
    prepared: PreparedRemoteAttachment,
    words: Seq<char>,
    action: AttachAction,
    i: int,
)
    requires
        aborts(prepared, words, action),
        prepared.relay.in_mesh,
        0 <= i < prepared.relay.registered_relay_names@.len(),
    ensures
        action matches AttachAction::Abort { steps, .. } && steps@.last()
            == CleanupStep::KillRelay && exists|k: int|
            0 <= k < steps@.len() && (#[trigger] steps@[k] matches CleanupStep::Deregister { name }
                && name@ == prepared.relay.registered_relay_names@[i]@),
{
    let steps = action->steps@;
    let told = session_registry::notices(prepared.session_ref, prepared.relay, true) as int;
    assert(steps[told + i] matches CleanupStep::Deregister { name } && name@
        == prepared.relay.registered_relay_names@[i]@);
}

/// A relay is published, then linked to the session, then subscribed to it, and is then
/// ready, linked and otherwise as it was prepared.
pub proof fn law_relays_are_attached_in_order(
    run: AttachRun,
    event: AttachEvent,
    after: AttachRun,
    action: AttachAction,
)
    requires
        run.wf(),
        is_step(run, event, after, action),
    ensures
        run.stage == AttachStage::Publishing && event is Published ==> after.stage
            == AttachStage::Linking && after.prepared == run.prepared && action is Link,
        run.stage == AttachStage::Linking ==> (event matches AttachEvent::Linked(Ok(_))
            ==> after.stage == AttachStage::Subscribing && (action matches
            AttachAction::Subscribe { relay_actor_id, relay_dht_name } && relay_actor_id
            == run.prepared->Some_0.relay.relay_actor_id && relay_dht_name@
            == run.prepared->Some_0.relay.relay_dht_name@) && (after.prepared matches Some(next)
            && next.session_id == run.prepared->Some_0.session_id && next.session_ref
            == run.prepared->Some_0.session_ref && next.relay.linked && next.relay.relay_actor_id
            == run.prepared->Some_0.relay.relay_actor_id && next.relay.relay_dht_name
            == run.prepared->Some_0.relay.relay_dht_name && next.relay.registered_relay_names
            == run.prepared->Some_0.relay.registered_relay_names && next.relay.in_mesh
            == run.prepared->Some_0.relay.in_mesh && next.relay.matched_scope
            == run.prepared->Some_0.relay.matched_scope)),
        run.stage == AttachStage::Subscribing ==> (event matches AttachEvent::Subscribed(Ok(_))
            ==> after.stage == AttachStage::Finished && action == AttachAction::Ready(
            run.prepared->Some_0,
        )),
        !(run.stage == AttachStage::Publishing && event is Published) && !(run.stage
            == AttachStage::Linking && event is Linked) && !(run.stage == AttachStage::Subscribing
            && event is Subscribed) ==> after == run && action is Ignore,
{
}

/// Where a relay cannot be linked or subscribed, the attachment is taken back, the remote
/// side is told, and the error says what failed.
pub proof fn law_failed_attachings_say_why(
    run: AttachRun,
    event: AttachEvent,
    after: AttachRun,
    action: AttachAction,
    reason: String,
)
    requires
        run.wf(),
        is_step(run, event, after, action),
        run.stage == AttachStage::Linking && event == AttachEvent::Linked(Err(reason)) || run.stage
            == AttachStage::Subscribing && event == AttachEvent::Subscribed(Err(reason)),
    ensures
        after.stage == AttachStage::Finished,
        action matches AttachAction::Abort { steps, error } && (error matches
            AgentError::RemoteActor(message) && message@ == (if event is Linked {
            "failed to link event relay to remote session: "@
        } else {
            "failed to subscribe remote session events: "@
        }) + reason@) && (steps@[0] matches CleanupStep::Unsubscribe {
            attachment_id,
            relay_dht_name,
        } && attachment_id == run.prepared->Some_0.relay.relay_actor_id && relay_dht_name@
            == run.prepared->Some_0.relay.relay_dht_name@) && steps@.last()
            == CleanupStep::KillRelay,
{
    let prepared = run.prepared->Some_0;
    session_registry::law_attachments_are_cleaned_up_in_order(
        prepared.session_ref,
        prepared.relay,
        true,
        action->Abort_steps@,
        0,
    );
}

} // verus!
