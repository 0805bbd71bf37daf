//! The course of an undo and of a redo: what is asked of the snapshot backend and of the
//! history store, in which order, and what is answered.
//!
//! Like the course of a prompt, each is a state machine that says what is to be done next
//! and is told how that went.
use vstd::prelude::*;

use crate::model::AgentMessage;
use crate::text;
use crate::undo;
use crate::undo::{
    plan_undo, position_of, prune_point, redo_frame, redo_step, undo_result, ChildHistory,
    JournalEvent, RedoResult, RedoStep, RevertState, UndoError, UndoPlan, UndoResult,
};

verus! {

/// Where an undo stands, that is, what it waits for.
#[derive(Debug, Clone, Copy, PartialEq, Eq, Structural)]
pub enum UndoStage {
    Tracking,
    LoadingHistory,
    LoadingChildren,
    Restoring,
    FallbackTracking,
    FallbackDiffing,
    FallbackRestoring,
    StoringFrame,
    Finished,
}

/// What an undo is told.
#[derive(Debug)]
pub enum UndoEvent {
    /// The work tree was recorded under this snapshot.
    TreeRecorded(Result<String, String>),
    HistoryLoaded(Result<Vec<AgentMessage>, String>),
    ChildrenLoaded(Result<Vec<ChildHistory>, String>),
    Restored(Result<(), String>),
    Diffed(Result<Vec<String>, String>),
    FrameStored(Result<(), String>),
}

/// What an undo asks for.
#[derive(Debug)]
pub enum UndoAction {
    Track,
    LoadHistory,
    LoadChildren,
    Restore { snapshot_id: String, paths: Vec<String> },
    Diff { from: String, to: String },
    /// Puts a frame on the redo stack of the session: the message back to which the undo
    /// went, and the snapshot of the state before it.
    StoreFrame { session_id: String, message_id: String, snapshot_id: String },
    Respond(Result<UndoResult, UndoError>),
    /// The event does not belong to the stage; nothing is to be done.
    Ignore,
}

/// The course of one undo.
#[derive(Debug)]
pub struct UndoRun {
    pub session_id: String,
    pub message_id: String,
    pub stage: UndoStage,
    /// The state of the work tree before the undo.
    pub pre_revert_snapshot: Option<String>,
    pub history: Vec<AgentMessage>,
    pub plan: Option<UndoPlan>,
    /// Which of the restores so far succeeded.
    pub succeeded: Vec<bool>,
    /// What is restored from the fallback snapshot.
    pub fallback_changed: Vec<String>,
}

/// `action` answers that the backend or the store failed, with the given words.
pub open spec fn undo_fails(action: UndoAction, message: Seq<char>) -> bool {
    action matches UndoAction::Respond(Err(UndoError::Backend(words))) && words@ == message
}

/// What is to be done once the plan is known and some of its restores were performed: the
/// next restore, then the comparison with the fallback snapshot where there is one, and
/// last the frame for a redo.
pub open spec fn goes_on(after: UndoRun, action: UndoAction) -> bool {
    let plan = after.plan->Some_0;
    if after.succeeded@.len() < plan.restores@.len() {
        let restore = plan.restores@[after.succeeded@.len() as int];
        &&& after.stage == UndoStage::Restoring
        &&& action matches UndoAction::Restore { snapshot_id, paths }
        &&& snapshot_id@ == restore.snapshot_id@
        &&& paths@ == restore.paths@
    } else if plan.fallback is Some {
        after.stage == UndoStage::FallbackTracking && action is Track
    } else {
        stores_frame(after, action)
    }
}

/// The frame for a redo is to be stored.
pub open spec fn stores_frame(after: UndoRun, action: UndoAction) -> bool {
    &&& after.stage == UndoStage::StoringFrame
    &&& action matches UndoAction::StoreFrame { session_id, message_id, snapshot_id }
    &&& session_id@ == after.session_id@
    &&& message_id@ == after.message_id@
    &&& snapshot_id@ == after.pre_revert_snapshot->Some_0@
}

/// `after` is `run` at another stage, and otherwise the same.
pub open spec fn moved(run: UndoRun, stage: UndoStage, after: UndoRun) -> bool {
    after == (UndoRun { stage, ..run })
}

/// What an undo becomes and asks for on `event`.
pub open spec fn is_undo_step(
    run: UndoRun,
    event: UndoEvent,
    after: UndoRun,
    action: UndoAction,
) -> bool {
    match (run.stage, event) {
        (UndoStage::Tracking, UndoEvent::TreeRecorded(Ok(snapshot))) => {
            &&& after == (UndoRun {
                stage: UndoStage::LoadingHistory,
                pre_revert_snapshot: Some(snapshot),
                ..run
            })
            &&& action is LoadHistory
        },
        (UndoStage::Tracking, UndoEvent::TreeRecorded(Err(reason))) => {
            &&& moved(run, UndoStage::Finished, after)
            &&& undo_fails(action, reason@)
        },
        (UndoStage::LoadingHistory, UndoEvent::HistoryLoaded(Ok(history))) => {
            if undo::has_message(history@, run.message_id@) {
                &&& after == (UndoRun { stage: UndoStage::LoadingChildren, history, ..run })
                &&& action is LoadChildren
            } else {
                &&& moved(run, UndoStage::Finished, after)
                &&& action matches UndoAction::Respond(Err(error))
                &&& error matches UndoError::MessageNotFound { message_id } && message_id@
                    == run.message_id@
            }
        },
        (UndoStage::LoadingHistory, UndoEvent::HistoryLoaded(Err(reason))) => {
            &&& moved(run, UndoStage::Finished, after)
            &&& undo_fails(action, "Failed to get history: "@ + reason@)
        },
        (UndoStage::LoadingChildren, UndoEvent::ChildrenLoaded(children)) => {
            &&& after == (UndoRun { stage: after.stage, plan: after.plan, ..run })
            &&& after.plan matches Some(plan) && undo::is_plan(
                run.session_id@,
                run.history@,
                run.message_id@,
                match children {
                    Ok(children) => children@,
                    Err(_) => Seq::empty(),
                },
                plan,
            )
            &&& goes_on(after, action)
        },
        (UndoStage::Restoring, UndoEvent::Restored(outcome)) => {
            &&& after.succeeded@ == run.succeeded@.push(outcome is Ok)
            &&& after == (UndoRun { stage: after.stage, succeeded: after.succeeded, ..run })
            &&& goes_on(after, action)
        },
        (UndoStage::FallbackTracking, UndoEvent::TreeRecorded(Ok(current))) => {
            &&& moved(run, UndoStage::FallbackDiffing, after)
            &&& action matches UndoAction::Diff { from, to }
            &&& from == current
            &&& to@ == run.plan->Some_0.fallback->Some_0@
        },
        (UndoStage::FallbackTracking, UndoEvent::TreeRecorded(Err(reason))) => {
            &&& moved(run, UndoStage::Finished, after)
            &&& undo_fails(action, reason@)
        },
        (UndoStage::FallbackDiffing, UndoEvent::Diffed(Ok(changed))) => {
            if changed@.len() > 0 {
                &&& after == (UndoRun {
                    stage: UndoStage::FallbackRestoring,
                    fallback_changed: changed,
                    ..run
                })
                &&& action matches UndoAction::Restore { snapshot_id, paths }
                &&& snapshot_id@ == run.plan->Some_0.fallback->Some_0@
                &&& paths@ == changed@
            } else {
                &&& moved(run, UndoStage::StoringFrame, after)
                &&& stores_frame(after, action)
            }
        },
        (UndoStage::FallbackDiffing, UndoEvent::Diffed(Err(reason))) => {
            &&& moved(run, UndoStage::Finished, after)
            &&& undo_fails(action, reason@)
        },
        (UndoStage::FallbackRestoring, UndoEvent::Restored(Ok(_))) => {
            &&& moved(run, UndoStage::StoringFrame, after)
            &&& stores_frame(after, action)
        },
        (UndoStage::FallbackRestoring, UndoEvent::Restored(Err(reason))) => {
            &&& moved(run, UndoStage::Finished, after)
            &&& undo_fails(action, reason@)
        },
        (UndoStage::StoringFrame, UndoEvent::FrameStored(Ok(_))) => {
            &&& moved(run, UndoStage::Finished, after)
            &&& action matches UndoAction::Respond(Ok(result))
            &&& result.message_id@ == run.message_id@
            &&& text::texts(result.reverted_files@) == undo::reverted(
                undo::restores_view(run.plan->Some_0.restores@),
                run.succeeded@,
            ) + text::texts(run.fallback_changed@)
        },
        (UndoStage::StoringFrame, UndoEvent::FrameStored(Err(reason))) => {
            &&& moved(run, UndoStage::Finished, after)
            &&& undo_fails(action, "Failed to store revert state: "@ + reason@)
        },
        _ => after == run && action is Ignore,
    }
}

fn respond_failure(message: String) -> (action: UndoAction)
    ensures
        undo_fails(action, message@),
{
    UndoAction::Respond(Err(UndoError::Backend(message)))
}

fn described(what: &str, reason: String) -> (message: String)
    ensures
        message@ == what@ + reason@,
{
    let mut message = what.to_owned();
    message.append(reason.as_str());
    message
}

impl UndoRun {
    /// An undo knows the state before it once it is past the first snapshot, and its plan
    /// once it restores; it falls back only where the plan has nothing else to restore.
    pub open spec fn wf(&self) -> bool {
        &&& self.stage != UndoStage::Tracking && self.stage != UndoStage::Finished
            ==> self.pre_revert_snapshot is Some
        &&& self.stage == UndoStage::LoadingChildren ==> undo::has_message(
            self.history@,
            self.message_id@,
        )
        &&& self.plan is None ==> self.succeeded@.len() == 0 && self.fallback_changed@.len() == 0
        &&& self.stage == UndoStage::Restoring || self.stage == UndoStage::FallbackTracking
            || self.stage == UndoStage::FallbackDiffing || self.stage
            == UndoStage::FallbackRestoring || self.stage == UndoStage::StoringFrame
            ==> self.plan is Some
        &&& self.stage == UndoStage::Tracking || self.stage == UndoStage::LoadingHistory
            || self.stage == UndoStage::LoadingChildren ==> self.plan is None
        &&& self.plan matches Some(plan) ==> {
            &&& self.succeeded@.len() <= plan.restores@.len()
            &&& plan.fallback is Some ==> plan.restores@.len() == 0
            &&& plan.fallback is None ==> self.fallback_changed@.len() == 0
            &&& self.stage == UndoStage::Restoring ==> self.succeeded@.len()
                < plan.restores@.len()
            &&& self.stage == UndoStage::FallbackTracking || self.stage
                == UndoStage::FallbackDiffing || self.stage == UndoStage::FallbackRestoring
                ==> plan.fallback is Some
            &&& self.stage == UndoStage::Restoring || self.stage == UndoStage::FallbackTracking
                || self.stage == UndoStage::FallbackDiffing ==> self.fallback_changed@.len() == 0
            &&& self.stage == UndoStage::StoringFrame ==> self.succeeded@.len()
                == plan.restores@.len()
        }
    }

    /// An undo of everything after the message, and the first thing to do: the state
    /// before the undo is recorded, so that a redo can go back to it.
    pub fn start(session_id: String, message_id: String) -> (result: (UndoRun, UndoAction))
        ensures
            result.0.wf(),
            result.0.session_id == session_id,
            result.0.message_id == message_id,
            result.0.stage == UndoStage::Tracking,
            result.0.pre_revert_snapshot is None,
            result.0.plan is None,
            result.0.succeeded@.len() == 0,
            result.0.fallback_changed@.len() == 0,
            result.1 is Track,
    {
        let run = UndoRun {
            session_id,
            message_id,
            stage: UndoStage::Tracking,
            pre_revert_snapshot: None,
            history: Vec::new(),
            plan: None,
            succeeded: Vec::new(),
            fallback_changed: Vec::new(),
        };
        (run, UndoAction::Track)
    }

    fn store_frame(&mut self) -> (action: UndoAction)
        requires
            old(self).pre_revert_snapshot is Some,
        ensures
            moved(*old(self), UndoStage::StoringFrame, *final(self)),
            stores_frame(*final(self), action),
    {
        self.stage = UndoStage::StoringFrame;
        UndoAction::StoreFrame {
            session_id: self.session_id.clone(),
            message_id: self.message_id.clone(),
            snapshot_id: self.pre_revert_snapshot.as_ref().unwrap().clone(),
        }
    }

    fn go_on(&mut self) -> (action: UndoAction)
        requires
            old(self).plan is Some,
            old(self).pre_revert_snapshot is Some,
        ensures
            moved(*old(self), final(self).stage, *final(self)),
            goes_on(*final(self), action),
    {
        let done: usize = self.succeeded.len();
        let plan = self.plan.as_ref().unwrap();
        if done < plan.restores.len() {
            let snapshot_id = plan.restores[done].snapshot_id.clone();
            let paths = plan.restores[done].paths.clone();
            self.stage = UndoStage::Restoring;
            UndoAction::Restore { snapshot_id, paths }
        } else if plan.fallback.is_some() {
            self.stage = UndoStage::FallbackTracking;
            UndoAction::Track
        } else {
            self.store_frame()
        }
    }

    fn fallback(&self) -> (snapshot_id: String)
        requires
            self.plan is Some,
            self.plan->Some_0.fallback is Some,
        ensures
            snapshot_id == self.plan->Some_0.fallback->Some_0,
    {
        self.plan.as_ref().unwrap().fallback.as_ref().unwrap().clone()
    }

    /// Goes on after `event`. A restore that fails is passed over; any other failure ends
    /// the undo. An event that the undo does not wait for changes nothing.
    pub fn on_event(&mut self, event: UndoEvent) -> (action: UndoAction)
        requires
            old(self).wf(),
        ensures
            final(self).wf(),
            is_undo_step(*old(self), event, *final(self), action),
    {
        match (self.stage, event) {
            (UndoStage::Tracking, UndoEvent::TreeRecorded(outcome)) => match outcome {
                Ok(snapshot) => {
                    self.pre_revert_snapshot = Some(snapshot);
                    self.stage = UndoStage::LoadingHistory;
                    UndoAction::LoadHistory
                },
                Err(reason) => {
                    self.stage = UndoStage::Finished;
                    respond_failure(reason)
                },
            },
            (UndoStage::LoadingHistory, UndoEvent::HistoryLoaded(outcome)) => match outcome {
                Ok(history) => {
                    if position_of(&history, self.message_id.as_str()).is_some() {
                        self.history = history;
                        self.stage = UndoStage::LoadingChildren;
                        UndoAction::LoadChildren
                    } else {
                        self.stage = UndoStage::Finished;
                        UndoAction::Respond(
                            Err(UndoError::MessageNotFound { message_id: self.message_id.clone() }),
                        )
                    }
                },
                Err(reason) => {
                    self.stage = UndoStage::Finished;
                    respond_failure(described("Failed to get history: ", reason))
                },
            },
            (UndoStage::LoadingChildren, UndoEvent::ChildrenLoaded(outcome)) => {
                let children: Vec<ChildHistory> = match outcome {
                    Ok(children) => children,
                    Err(_) => Vec::new(),
                };
                match plan_undo(
                    self.session_id.as_str(),
                    &self.history,
                    self.message_id.as_str(),
                    &children,
                ) {
                    Ok(plan) => {
                        self.plan = Some(plan);
                        self.go_on()
                    },
                    Err(error) => UndoAction::Respond(Err(error)),
                }
            },
            (UndoStage::Restoring, UndoEvent::Restored(outcome)) => {
                self.succeeded.push(outcome.is_ok());
                self.go_on()
            },
            (UndoStage::FallbackTracking, UndoEvent::TreeRecorded(outcome)) => match outcome {
                Ok(from) => {
                    self.stage = UndoStage::FallbackDiffing;
                    let to = self.fallback();
                    UndoAction::Diff { from, to }
                },
                Err(reason) => {
                    self.stage = UndoStage::Finished;
                    respond_failure(reason)
                },
            },
            (UndoStage::FallbackDiffing, UndoEvent::Diffed(outcome)) => match outcome {
                Ok(changed) => {
                    if changed.len() > 0 {
                        let snapshot_id = self.fallback();
                        let paths = changed.clone();
                        self.fallback_changed = changed;
                        self.stage = UndoStage::FallbackRestoring;
                        UndoAction::Restore { snapshot_id, paths }
                    } else {
                        self.store_frame()
                    }
                },
                Err(reason) => {
                    self.stage = UndoStage::Finished;
                    respond_failure(reason)
                },
            },
            (UndoStage::FallbackRestoring, UndoEvent::Restored(outcome)) => match outcome {
                Ok(_) => self.store_frame(),
                Err(reason) => {
                    self.stage = UndoStage::Finished;
                    respond_failure(reason)
                },
            },
            (UndoStage::StoringFrame, UndoEvent::FrameStored(outcome)) => {
                self.stage = UndoStage::Finished;
                match outcome {
                    Ok(_) => {
                        let result = undo_result(
                            self.plan.as_ref().unwrap(),
                            &self.succeeded,
                            &self.fallback_changed,
                            self.message_id.as_str(),
                        );
                        UndoAction::Respond(Ok(result))
                    },
                    Err(reason) => respond_failure(
                        described("Failed to store revert state: ", reason),
                    ),
                }
            },
            _ => UndoAction::Ignore,
        }
    }
}

/// Where a redo stands, that is, what it waits for.
#[derive(Debug, Clone, Copy, PartialEq, Eq, Structural)]
pub enum RedoStage {
    ReadingFrame,
    Tracking,
    Diffing,
    Restoring,
    DroppingFrame,
    Finished,
}

/// What a redo is told.
#[derive(Debug)]
pub enum RedoEvent {
    /// The newest frame of the redo stack, if there is one.
    FrameRead(Result<Option<RevertState>, String>),
    /// The work tree was recorded under this snapshot.
    TreeRecorded(Result<String, String>),
    Diffed(Result<Vec<String>, String>),
    Restored(Result<(), String>),
    FrameDropped(Result<(), String>),
}

/// What a redo asks for.
#[derive(Debug)]
pub enum RedoAction {
    ReadFrame,
    Track,
    Diff { from: String, to: String },
    Restore { snapshot_id: String, paths: Vec<String> },
    /// Takes the newest frame off the redo stack.
    DropFrame,
    Respond(Result<RedoResult, UndoError>),
    /// The event does not belong to the stage; nothing is to be done.
    Ignore,
}

/// The course of one redo.
#[derive(Debug)]
pub struct RedoRun {
    pub stage: RedoStage,
    pub frame: Option<RevertState>,
}

/// `action` answers that the backend or the store failed, with the given words.
pub open spec fn redo_fails(action: RedoAction, message: Seq<char>) -> bool {
    action matches RedoAction::Respond(Err(UndoError::Backend(words))) && words@ == message
}

/// What a redo becomes and asks for on `event`.
pub open spec fn is_redo_step(
    run: RedoRun,
    event: RedoEvent,
    after: RedoRun,
    action: RedoAction,
) -> bool {
    let finished = RedoRun { stage: RedoStage::Finished, ..run };
    match (run.stage, event) {
        (RedoStage::ReadingFrame, RedoEvent::FrameRead(Ok(Some(frame)))) => {
            &&& after == (RedoRun { stage: RedoStage::Tracking, frame: Some(frame) })
            &&& action is Track
        },
        (RedoStage::ReadingFrame, RedoEvent::FrameRead(Ok(None))) => {
            &&& after == finished
            &&& action == RedoAction::Respond(Err(UndoError::NothingToRedo))
        },
        (RedoStage::ReadingFrame, RedoEvent::FrameRead(Err(reason))) => {
            &&& after == finished
            &&& redo_fails(action, "Failed to get revert state: "@ + reason@)
        },
        (RedoStage::Tracking, RedoEvent::TreeRecorded(Ok(current))) => {
            &&& after == (RedoRun { stage: RedoStage::Diffing, ..run })
            &&& action matches RedoAction::Diff { from, to }
            &&& from == current
            &&& to == run.frame->Some_0.snapshot_id
        },
        (RedoStage::Tracking, RedoEvent::TreeRecorded(Err(reason))) => {
            &&& after == finished
            &&& redo_fails(action, reason@)
        },
        (RedoStage::Diffing, RedoEvent::Diffed(Ok(changed))) => if changed@.len() > 0 {
            &&& after == (RedoRun { stage: RedoStage::Restoring, ..run })
            &&& action == (RedoAction::Restore {
                snapshot_id: run.frame->Some_0.snapshot_id,
                paths: changed,
            })
        } else {
            &&& after == (RedoRun { stage: RedoStage::DroppingFrame, ..run })
            &&& action is DropFrame
        },
        (RedoStage::Diffing, RedoEvent::Diffed(Err(reason))) => {
            &&& after == finished
            &&& redo_fails(action, reason@)
        },
        (RedoStage::Restoring, RedoEvent::Restored(Ok(_))) => {
            &&& after == (RedoRun { stage: RedoStage::DroppingFrame, ..run })
            &&& action is DropFrame
        },
        (RedoStage::Restoring, RedoEvent::Restored(Err(reason))) => {
            &&& after == finished
            &&& redo_fails(action, reason@)
        },
        (RedoStage::DroppingFrame, RedoEvent::FrameDropped(Ok(_))) => {
            &&& after == finished
            &&& action == RedoAction::Respond(Ok(RedoResult { restored: true }))
        },
        (RedoStage::DroppingFrame, RedoEvent::FrameDropped(Err(reason))) => {
            &&& after == finished
            &&& redo_fails(action, "Failed to update revert state: "@ + reason@)
        },
        _ => after == run && action is Ignore,
    }
}

impl RedoRun {
    /// A redo knows the frame to which it goes back once it has read it.
    pub open spec fn wf(&self) -> bool {
        self.stage == RedoStage::Tracking || self.stage == RedoStage::Diffing ==> self.frame is Some
    }

    /// A redo of the newest undo, and the first thing to do.
    pub fn start() -> (result: (RedoRun, RedoAction))
        ensures
            result.0.wf(),
            result.0 == (RedoRun { stage: RedoStage::ReadingFrame, frame: None }),
            result.1 is ReadFrame,
    {
        (RedoRun { stage: RedoStage::ReadingFrame, frame: None }, RedoAction::ReadFrame)
    }

    fn fail(&mut self, message: String) -> (action: RedoAction)
        ensures
            *final(self) == (RedoRun { stage: RedoStage::Finished, ..*old(self) }),
            redo_fails(action, message@),
    {
        self.stage = RedoStage::Finished;
        RedoAction::Respond(Err(UndoError::Backend(message)))
    }

    /// Goes on after `event`. Any failure ends the redo, and the frame stays on the stack.
    /// An event that the redo does not wait for changes nothing.
    pub fn on_event(&mut self, event: RedoEvent) -> (action: RedoAction)
        requires
            old(self).wf(),
        ensures
            final(self).wf(),
            is_redo_step(*old(self), event, *final(self), action),
    {
        match (self.stage, event) {
            (RedoStage::ReadingFrame, RedoEvent::FrameRead(outcome)) => match outcome {
                Ok(newest) => match redo_frame(newest) {
                    Ok(frame) => {
                        self.frame = Some(frame);
                        self.stage = RedoStage::Tracking;
                        RedoAction::Track
                    },
                    Err(error) => {
                        self.stage = RedoStage::Finished;
                        RedoAction::Respond(Err(error))
                    },
                },
                Err(reason) => self.fail(described("Failed to get revert state: ", reason)),
            },
            (RedoStage::Tracking, RedoEvent::TreeRecorded(outcome)) => match outcome {
                Ok(from) => {
                    self.stage = RedoStage::Diffing;
                    let to = self.frame.as_ref().unwrap().snapshot_id.clone();
                    RedoAction::Diff { from, to }
                },
                Err(reason) => self.fail(reason),
            },
            (RedoStage::Diffing, RedoEvent::Diffed(outcome)) => match outcome {
                Ok(changed) => match redo_step(self.frame.as_ref().unwrap(), changed) {
                    RedoStep::RestoreThenPop { snapshot_id, paths } => {
                        self.stage = RedoStage::Restoring;
                        RedoAction::Restore { snapshot_id, paths }
                    },
                    RedoStep::Pop => {
                        self.stage = RedoStage::DroppingFrame;
                        RedoAction::DropFrame
                    },
                },
                Err(reason) => self.fail(reason),
            },
            (RedoStage::Restoring, RedoEvent::Restored(outcome)) => match outcome {
                Ok(_) => {
                    self.stage = RedoStage::DroppingFrame;
                    RedoAction::DropFrame
                },
                Err(reason) => self.fail(reason),
            },
            (RedoStage::DroppingFrame, RedoEvent::FrameDropped(outcome)) => match outcome {
                Ok(_) => {
                    self.stage = RedoStage::Finished;
                    RedoAction::Respond(Ok(RedoResult { restored: true }))
                },
                Err(reason) => self.fail(described("Failed to update revert state: ", reason)),
            },
            _ => RedoAction::Ignore,
        }
    }
}

/// Where the clean-up before a prompt stands, that is, what it waits for.
#[derive(Debug, Clone, Copy, PartialEq, Eq, Structural)]
pub enum CleanupStage {
    ReadingFrame,
    DeletingMessages,
    ReadingJournal,
    PruningJournal,
    ClearingFrames,
    Finished,
}

/// What the clean-up is told.
#[derive(Debug)]
pub enum CleanupEvent {
    /// The newest frame of the redo stack, if there is one.
    FrameRead(Result<Option<RevertState>, String>),
    MessagesDeleted(Result<(), String>),
    JournalRead(Result<Vec<JournalEvent>, String>),
    JournalPruned(Result<(), String>),
    FramesCleared(Result<(), String>),
}

/// What the clean-up asks for.
#[derive(Debug)]
pub enum CleanupAction {
    ReadFrame,
    /// Deletes this message and every one after it.
    DeleteMessagesFrom { message_id: String },
    ReadJournal,
    /// Deletes the event with this number and every one with a larger number.
    PruneJournalFrom { stream_seq: i64 },
    /// Takes every frame off the redo stack.
    ClearFrames,
    Respond(Result<(), String>),
    /// The event does not belong to the stage; nothing is to be done.
    Ignore,
}

/// The clean-up before a prompt that comes after an undo.
#[derive(Debug)]
pub struct CleanupRun {
    pub stage: CleanupStage,
    /// The message back to which the newest undo went.
    pub message_id: String,
}

/// `action` answers that the clean-up failed, with the given words.
pub open spec fn cleanup_fails(action: CleanupAction, message: Seq<char>) -> bool {
    action matches CleanupAction::Respond(Err(words)) && words@ == message
}

/// What the clean-up becomes and asks for on `event`.
pub open spec fn is_cleanup_step(
    run: CleanupRun,
    event: CleanupEvent,
    after: CleanupRun,
    action: CleanupAction,
) -> bool {
    let finished = CleanupRun { stage: CleanupStage::Finished, ..run };
    match (run.stage, event) {
        (CleanupStage::ReadingFrame, CleanupEvent::FrameRead(Ok(Some(frame)))) => {
            &&& after == (CleanupRun {
                stage: CleanupStage::DeletingMessages,
                message_id: frame.message_id,
            })
            &&& action matches CleanupAction::DeleteMessagesFrom { message_id }
            &&& message_id@ == frame.message_id@
        },
        (CleanupStage::ReadingFrame, CleanupEvent::FrameRead(Ok(None))) => {
            &&& after == finished
            &&& action == CleanupAction::Respond(Ok(()))
        },
        (CleanupStage::ReadingFrame, CleanupEvent::FrameRead(Err(reason))) => {
            &&& after == finished
            &&& cleanup_fails(action, "Failed to get revert state: "@ + reason@)
        },
        (CleanupStage::DeletingMessages, CleanupEvent::MessagesDeleted(Ok(_))) => {
            &&& after == (CleanupRun { stage: CleanupStage::ReadingJournal, ..run })
            &&& action is ReadJournal
        },
        (CleanupStage::DeletingMessages, CleanupEvent::MessagesDeleted(Err(reason))) => {
            &&& after == finished
            &&& cleanup_fails(action, "Failed to delete messages: "@ + reason@)
        },
        (CleanupStage::ReadingJournal, CleanupEvent::JournalRead(Ok(journal))) => {
            exists|from: Option<i64>|
                {
                    &&& #[trigger] undo::is_prune_point(journal@, run.message_id@, from)
                    &&& match from {
                        Some(stream_seq) => {
                            &&& after == (CleanupRun { stage: CleanupStage::PruningJournal, ..run })
                            &&& action == (CleanupAction::PruneJournalFrom { stream_seq })
                        },
                        None => {
                            &&& after == (CleanupRun { stage: CleanupStage::ClearingFrames, ..run })
                            &&& action is ClearFrames
                        },
                    }
                }
        },
        (CleanupStage::ReadingJournal, CleanupEvent::JournalRead(Err(reason))) => {
            &&& after == finished
            &&& cleanup_fails(action, reason@)
        },
        (CleanupStage::PruningJournal, CleanupEvent::JournalPruned(Ok(_))) => {
            &&& after == (CleanupRun { stage: CleanupStage::ClearingFrames, ..run })
            &&& action is ClearFrames
        },
        (CleanupStage::PruningJournal, CleanupEvent::JournalPruned(Err(reason))) => {
            &&& after == finished
            &&& cleanup_fails(action, reason@)
        },
        (CleanupStage::ClearingFrames, CleanupEvent::FramesCleared(Ok(_))) => {
            &&& after == finished
            &&& action == CleanupAction::Respond(Ok(()))
        },
        (CleanupStage::ClearingFrames, CleanupEvent::FramesCleared(Err(reason))) => {
            &&& after == finished
            &&& cleanup_fails(action, "Failed to clear revert state: "@ + reason@)
        },
        _ => after == run && action is Ignore,
    }
}

impl CleanupRun {
    /// The clean-up before a prompt, and the first thing to do.
    pub fn start() -> (begun: (CleanupRun, CleanupAction))
        ensures
            begun.0.stage == CleanupStage::ReadingFrame,
            begun.1 is ReadFrame,
    {
        (
            CleanupRun { stage: CleanupStage::ReadingFrame, message_id: String::new() },
            CleanupAction::ReadFrame,
        )
    }

    fn fail(&mut self, message: String) -> (action: CleanupAction)
        ensures
            *final(self) == (CleanupRun { stage: CleanupStage::Finished, ..*old(self) }),
            cleanup_fails(action, message@),
    {
        self.stage = CleanupStage::Finished;
        CleanupAction::Respond(Err(message))
    }

    fn succeed(&mut self) -> (action: CleanupAction)
        ensures
            *final(self) == (CleanupRun { stage: CleanupStage::Finished, ..*old(self) }),
            action == CleanupAction::Respond(Ok(())),
    {
        self.stage = CleanupStage::Finished;
        CleanupAction::Respond(Ok(()))
    }

    /// Goes on after `event`. An event that the clean-up does not wait for changes nothing.
    pub fn on_event(&mut self, event: CleanupEvent) -> (action: CleanupAction)
        ensures
            is_cleanup_step(*old(self), event, *final(self), action),
    {
        match (self.stage, event) {
            (CleanupStage::ReadingFrame, CleanupEvent::FrameRead(outcome)) => match outcome {
                Ok(Some(frame)) => {
                    self.stage = CleanupStage::DeletingMessages;
                    self.message_id = frame.message_id;
                    CleanupAction::DeleteMessagesFrom { message_id: self.message_id.clone() }
                },
                Ok(None) => self.succeed(),
                Err(reason) => self.fail(described("Failed to get revert state: ", reason)),
            },
            (CleanupStage::DeletingMessages, CleanupEvent::MessagesDeleted(outcome)) => {
                match outcome {
                    Ok(_) => {
                        self.stage = CleanupStage::ReadingJournal;
                        CleanupAction::ReadJournal
                    },
                    Err(reason) => self.fail(described("Failed to delete messages: ", reason)),
                }
            },
            (CleanupStage::ReadingJournal, CleanupEvent::JournalRead(outcome)) => match outcome {
                Ok(journal) => {
                    let from = prune_point(&journal, self.message_id.as_str());
                    assert(undo::is_prune_point(journal@, self.message_id@, from));
                    match from {
                        Some(stream_seq) => {
                            self.stage = CleanupStage::PruningJournal;
                            CleanupAction::PruneJournalFrom { stream_seq }
                        },
                        None => {
                            self.stage = CleanupStage::ClearingFrames;
                            CleanupAction::ClearFrames
                        },
                    }
                },
                Err(reason) => self.fail(reason),
            },
            (CleanupStage::PruningJournal, CleanupEvent::JournalPruned(outcome)) => match outcome {
                Ok(_) => {
                    self.stage = CleanupStage::ClearingFrames;
                    CleanupAction::ClearFrames
                },
                Err(reason) => self.fail(reason),
            },
            (CleanupStage::ClearingFrames, CleanupEvent::FramesCleared(outcome)) => match outcome {
                Ok(_) => self.succeed(),
                Err(reason) => self.fail(described("Failed to clear revert state: ", reason)),
            },
            _ => CleanupAction::Ignore,
        }
    }
}

/// A clean-up that succeeds has found no frame, or has left none.
pub proof fn law_no_frame_is_left(
    run: CleanupRun,
    event: CleanupEvent,
    after: CleanupRun,
    action: CleanupAction,
)
    requires
        is_cleanup_step(run, event, after, action),
        action == CleanupAction::Respond(Ok(())),
    ensures
        (event matches CleanupEvent::FramesCleared(outcome) && outcome is Ok) || (
        event matches CleanupEvent::FrameRead(Ok(frame)) && frame is None),
{
}

/// The frames are kept until the undone messages and their events are gone, so that a
/// clean-up that fails can be made again.
pub proof fn law_frames_are_cleared_last(
    run: CleanupRun,
    event: CleanupEvent,
    after: CleanupRun,
    action: CleanupAction,
)
    requires
        is_cleanup_step(run, event, after, action),
        action is ClearFrames,
    ensures
        run.stage == CleanupStage::ReadingJournal || run.stage == CleanupStage::PruningJournal,
        run.stage == CleanupStage::ReadingJournal ==> (event matches CleanupEvent::JournalRead(
            Ok(journal),
        ) && undo::is_prune_point(journal@, run.message_id@, None)),
        run.stage == CleanupStage::PruningJournal ==> (event matches CleanupEvent::JournalPruned(
            outcome,
        ) && outcome is Ok),
{
}

/// Nothing is restored before the state that a redo goes back to was recorded.
pub proof fn law_state_is_recorded_before_restoring(
    run: UndoRun,
    event: UndoEvent,
    after: UndoRun,
    action: UndoAction,
)
    requires
        run.wf(),
        is_undo_step(run, event, after, action),
        action is Restore,
    ensures
        run.pre_revert_snapshot is Some,
        after.pre_revert_snapshot == run.pre_revert_snapshot,
{
}

/// Every undo that succeeds can be redone: it answers only when the frame with the state
/// before it was stored.
pub proof fn law_undone_can_be_redone(
    run: UndoRun,
    event: UndoEvent,
    after: UndoRun,
    action: UndoAction,
)
    requires
        is_undo_step(run, event, after, action),
        action matches UndoAction::Respond(response) && response is Ok,
    ensures
        run.stage == UndoStage::StoringFrame,
        event matches UndoEvent::FrameStored(outcome) && outcome is Ok,
{
}

/// A redo that fails leaves the redo stack as it was, except where the stack itself could
/// not be changed: the newest frame is dropped only when the work tree is what it was
/// before the undo.
pub proof fn law_frame_is_dropped_last(
    run: RedoRun,
    event: RedoEvent,
    after: RedoRun,
    action: RedoAction,
)
    requires
        is_redo_step(run, event, after, action),
        action is DropFrame,
    ensures
        (event matches RedoEvent::Restored(outcome) && outcome is Ok) || (
        event matches RedoEvent::Diffed(changed) && changed is Ok && changed->Ok_0@.len() == 0),
{
}

/// An undo first records the work tree, then finds its message, and then the histories of the
/// children; whatever fails on the way is answered in words that tell what it was.
pub proof fn law_undos_are_prepared_in_order(
    run: UndoRun,
    event: UndoEvent,
    after: UndoRun,
    action: UndoAction,
)
    requires
        is_undo_step(run, event, after, action),
    ensures
        after.session_id == run.session_id,
        after.message_id == run.message_id,
        run.stage == UndoStage::Tracking && (event matches UndoEvent::TreeRecorded(Ok(_)))
            ==> after.stage == UndoStage::LoadingHistory && after.pre_revert_snapshot == Some(
            event->TreeRecorded_0->Ok_0,
        ) && action is LoadHistory,
        (run.stage == UndoStage::Tracking || run.stage == UndoStage::FallbackTracking) && (
        event matches UndoEvent::TreeRecorded(Err(_))) ==> after.stage == UndoStage::Finished && (
        action matches UndoAction::Respond(Err(UndoError::Backend(words))) && words@
            == event->TreeRecorded_0->Err_0@),
        run.stage == UndoStage::LoadingHistory && (event matches UndoEvent::HistoryLoaded(Err(_)))
            ==> after.stage == UndoStage::Finished && (action matches UndoAction::Respond(
            Err(UndoError::Backend(words)),
        ) && words@ == "Failed to get history: "@ + event->HistoryLoaded_0->Err_0@),
        run.stage == UndoStage::LoadingHistory && (event matches UndoEvent::HistoryLoaded(Ok(_)))
            ==> if undo::has_message(event->HistoryLoaded_0->Ok_0@, run.message_id@) {
            after.stage == UndoStage::LoadingChildren && after.history
                == event->HistoryLoaded_0->Ok_0 && action is LoadChildren
        } else {
            after.stage == UndoStage::Finished && (action matches UndoAction::Respond(
                Err(UndoError::MessageNotFound { message_id }),
            ) && message_id@ == run.message_id@)
        },
        run.stage == UndoStage::StoringFrame && (event matches UndoEvent::FrameStored(Err(_)))
            ==> after.stage == UndoStage::Finished && (action matches UndoAction::Respond(
            Err(UndoError::Backend(words)),
        ) && words@ == "Failed to store revert state: "@ + event->FrameStored_0->Err_0@),
        !(run.stage == UndoStage::Tracking) ==> after.pre_revert_snapshot
            == run.pre_revert_snapshot,
{
}

/// The plan of an undo is made of the histories that were loaded, and of none of a child's
/// where they could not be.
pub proof fn law_undos_are_planned_from_the_histories(
    run: UndoRun,
    children: Result<Vec<ChildHistory>, String>,
    after: UndoRun,
    action: UndoAction,
)
    requires
        run.stage == UndoStage::LoadingChildren,
        is_undo_step(run, UndoEvent::ChildrenLoaded(children), after, action),
    ensures
        after.history == run.history,
        after.succeeded == run.succeeded,
        children matches Ok(children) ==> (after.plan matches Some(plan) && undo::is_plan(
            run.session_id@,
            run.history@,
            run.message_id@,
            children@,
            plan,
        )),
        children is Err ==> (after.plan matches Some(plan) && undo::is_plan(
            run.session_id@,
            run.history@,
            run.message_id@,
            Seq::empty(),
            plan,
        )),
        goes_on(after, action),
{
}

/// The restores of a plan are performed one after the other, each with its own snapshot and
/// paths, whether those before it succeeded or not; only behind the last of them is the
/// fallback looked at or the frame stored.
pub proof fn law_every_restore_is_performed(
    run: UndoRun,
    outcome: Result<(), String>,
    after: UndoRun,
    action: UndoAction,
)
    requires
        run.wf(),
        run.stage == UndoStage::Restoring,
        is_undo_step(run, UndoEvent::Restored(outcome), after, action),
    ensures
        ({
            let plan = run.plan->Some_0;
            let next = run.succeeded@.len() + 1;
            &&& after.plan == run.plan
            &&& after.succeeded@.len() == next
            &&& after.succeeded@.drop_last() == run.succeeded@
            &&& after.succeeded@.last() <==> outcome is Ok
            &&& next < plan.restores@.len() ==> after.stage == UndoStage::Restoring && (
            action matches UndoAction::Restore { snapshot_id, paths } && snapshot_id@
                == plan.restores@[next as int].snapshot_id@ && paths@
                == plan.restores@[next as int].paths@)
            &&& next == plan.restores@.len() ==> after.stage == UndoStage::StoringFrame && (
            action matches UndoAction::StoreFrame { session_id, message_id, snapshot_id }
                && session_id@ == run.session_id@ && message_id@ == run.message_id@
                && snapshot_id@ == run.pre_revert_snapshot->Some_0@)
        }),
{
    assert(after.succeeded@.drop_last() =~= run.succeeded@);
}

/// A plan is begun with its first restore; without any, the work tree is compared with the
/// fallback, and without that the frame is stored at once.
pub proof fn law_plans_are_begun_with_the_first_restore(after: UndoRun, action: UndoAction)
    requires
        goes_on(after, action),
        after.plan is Some,
        after.succeeded@.len() == 0,
    ensures
        ({
            let plan = after.plan->Some_0;
            &&& plan.restores@.len() > 0 ==> after.stage == UndoStage::Restoring && (
            action matches UndoAction::Restore { snapshot_id, paths } && snapshot_id@
                == plan.restores@[0].snapshot_id@ && paths@ == plan.restores@[0].paths@)
            &&& plan.restores@.len() == 0 && plan.fallback is Some ==> after.stage
                == UndoStage::FallbackTracking && action is Track
            &&& plan.restores@.len() == 0 && plan.fallback is None ==> after.stage
                == UndoStage::StoringFrame && (action matches UndoAction::StoreFrame {
                session_id,
                message_id,
                snapshot_id,
            } && session_id@ == after.session_id@ && message_id@ == after.message_id@
                && snapshot_id@ == after.pre_revert_snapshot->Some_0@)
        }),
{
}

/// The fallback restores exactly what differs between the work tree and the fallback's
/// snapshot, back to that snapshot.
pub proof fn law_fallbacks_restore_what_differs(
    run: UndoRun,
    event: UndoEvent,
    after: UndoRun,
    action: UndoAction,
)
    requires
        run.wf(),
        is_undo_step(run, event, after, action),
    ensures
        run.stage == UndoStage::FallbackTracking && (event matches UndoEvent::TreeRecorded(Ok(_)))
            ==> after.stage == UndoStage::FallbackDiffing && (action matches UndoAction::Diff {
            from,
            to,
        } && from == event->TreeRecorded_0->Ok_0 && to@ == run.plan->Some_0.fallback->Some_0@),
        run.stage == UndoStage::FallbackDiffing && (event matches UndoEvent::Diffed(Ok(_))) ==> if
            event->Diffed_0->Ok_0@.len() > 0 {
            after.stage == UndoStage::FallbackRestoring && after.fallback_changed
                == event->Diffed_0->Ok_0 && (action matches UndoAction::Restore {
                snapshot_id,
                paths,
            } && snapshot_id@ == run.plan->Some_0.fallback->Some_0@ && paths@
                == event->Diffed_0->Ok_0@)
        } else {
            after.stage == UndoStage::StoringFrame && action is StoreFrame
        },
        run.stage == UndoStage::FallbackDiffing && (event matches UndoEvent::Diffed(Err(_)))
            ==> after.stage == UndoStage::Finished && (action matches UndoAction::Respond(
            Err(UndoError::Backend(words)),
        ) && words@ == event->Diffed_0->Err_0@),
        run.stage == UndoStage::FallbackRestoring && (event matches UndoEvent::Restored(Ok(_)))
            ==> after.stage == UndoStage::StoringFrame && (action matches UndoAction::StoreFrame {
            session_id,
            message_id,
            snapshot_id,
        } && session_id@ == run.session_id@ && message_id@ == run.message_id@ && snapshot_id@
            == run.pre_revert_snapshot->Some_0@),
        run.stage == UndoStage::FallbackRestoring && (event matches UndoEvent::Restored(Err(_)))
            ==> after.stage == UndoStage::Finished && (action matches UndoAction::Respond(
            Err(UndoError::Backend(words)),
        ) && words@ == event->Restored_0->Err_0@),
{
}

/// An undo is answered with its message and with the files of the restores that succeeded,
/// and those of the fallback behind them.
pub proof fn law_undos_are_answered_with_their_files(
    run: UndoRun,
    after: UndoRun,
    action: UndoAction,
)
    requires
        run.wf(),
        run.stage == UndoStage::StoringFrame,
        is_undo_step(run, UndoEvent::FrameStored(Ok(())), after, action),
    ensures
        after.stage == UndoStage::Finished,
        action matches UndoAction::Respond(Ok(result)) && result.message_id@ == run.message_id@
            && text::texts(result.reverted_files@) == undo::reverted(
            undo::restores_view(run.plan->Some_0.restores@),
            run.succeeded@,
        ) + text::texts(run.fallback_changed@),
{
}

/// A redo goes back to the snapshot of the newest frame: it compares the work tree with it,
/// restores what differs, and drops the frame.
pub proof fn law_redos_go_back_to_the_newest_frame(
    run: RedoRun,
    event: RedoEvent,
    after: RedoRun,
    action: RedoAction,
)
    requires
        run.wf(),
        is_redo_step(run, event, after, action),
    ensures
        run.stage == RedoStage::ReadingFrame ==> (event matches RedoEvent::FrameRead(Ok(Some(frame)))
            ==> after.stage == RedoStage::Tracking && after.frame == Some(frame)
            && action is Track),
        run.stage == RedoStage::ReadingFrame ==> (event matches RedoEvent::FrameRead(Ok(None))
            ==> after.stage == RedoStage::Finished && action == RedoAction::Respond(
            Err(UndoError::NothingToRedo),
        )),
        run.stage == RedoStage::ReadingFrame ==> (event matches RedoEvent::FrameRead(Err(reason))
            ==> after.stage == RedoStage::Finished && (action matches RedoAction::Respond(
            Err(UndoError::Backend(words)),
        ) && words@ == "Failed to get revert state: "@ + reason@)),
        run.stage == RedoStage::Tracking ==> (event matches RedoEvent::TreeRecorded(Ok(current))
            ==> after.stage == RedoStage::Diffing && after.frame == run.frame && (action matches
            RedoAction::Diff { from, to } && from == current && to
            == run.frame->Some_0.snapshot_id)),
        run.stage == RedoStage::Tracking ==> (event matches RedoEvent::TreeRecorded(Err(reason))
            ==> after.stage == RedoStage::Finished && (action matches RedoAction::Respond(
            Err(UndoError::Backend(words)),
        ) && words@ == reason@)),
        run.stage == RedoStage::Diffing ==> (event matches RedoEvent::Diffed(Ok(changed)) ==> (
        changed@.len() > 0 ==> after.stage == RedoStage::Restoring && (action matches
            RedoAction::Restore { snapshot_id, paths } && snapshot_id
            == run.frame->Some_0.snapshot_id && paths == changed)) && (changed@.len() == 0
            ==> after.stage == RedoStage::DroppingFrame && action is DropFrame)),
        run.stage == RedoStage::Diffing ==> (event matches RedoEvent::Diffed(Err(reason))
            ==> after.stage == RedoStage::Finished && (action matches RedoAction::Respond(
            Err(UndoError::Backend(words)),
        ) && words@ == reason@)),
        run.stage == RedoStage::Restoring ==> (event matches RedoEvent::Restored(Ok(_))
            ==> after.stage == RedoStage::DroppingFrame && action is DropFrame),
        run.stage == RedoStage::Restoring ==> (event matches RedoEvent::Restored(Err(reason))
            ==> after.stage == RedoStage::Finished && (action matches RedoAction::Respond(
            Err(UndoError::Backend(words)),
        ) && words@ == reason@)),
        run.stage == RedoStage::DroppingFrame ==> (event matches RedoEvent::FrameDropped(Ok(_))
            ==> after.stage == RedoStage::Finished && (action matches RedoAction::Respond(
            Ok(result),
        ) && result.restored)),
        run.stage == RedoStage::DroppingFrame ==> (event matches RedoEvent::FrameDropped(
            Err(reason),
        ) ==> after.stage == RedoStage::Finished && (action matches RedoAction::Respond(
            Err(UndoError::Backend(words)),
        ) && words@ == "Failed to update revert state: "@ + reason@)),
{
}

/// A new prompt after an undo deletes the undone messages first, then what the journal tells
/// of them, and then the frames; without an undo it deletes nothing.
pub proof fn law_undone_work_is_deleted_in_order(
    run: CleanupRun,
    event: CleanupEvent,
    after: CleanupRun,
    action: CleanupAction,
)
    requires
        is_cleanup_step(run, event, after, action),
    ensures
        run.stage == CleanupStage::ReadingFrame ==> (event matches CleanupEvent::FrameRead(
            Ok(Some(frame)),
        ) ==> after.stage == CleanupStage::DeletingMessages && after.message_id@
            == frame.message_id@ && (action matches CleanupAction::DeleteMessagesFrom {
            message_id,
        } && message_id@ == frame.message_id@)),
        run.stage == CleanupStage::ReadingFrame ==> (event matches CleanupEvent::FrameRead(Ok(None))
            ==> after.stage == CleanupStage::Finished && action == CleanupAction::Respond(Ok(()))),
        run.stage == CleanupStage::ReadingFrame ==> (event matches CleanupEvent::FrameRead(
            Err(reason),
        ) ==> after.stage == CleanupStage::Finished && (action matches CleanupAction::Respond(
            Err(words),
        ) && words@ == "Failed to get revert state: "@ + reason@)),
        run.stage == CleanupStage::DeletingMessages ==> (event matches
            CleanupEvent::MessagesDeleted(Ok(_)) ==> after.stage == CleanupStage::ReadingJournal
            && after.message_id == run.message_id && action is ReadJournal),
        run.stage == CleanupStage::DeletingMessages ==> (event matches
            CleanupEvent::MessagesDeleted(Err(reason)) ==> after.stage == CleanupStage::Finished
            && (action matches CleanupAction::Respond(Err(words)) && words@
            == "Failed to delete messages: "@ + reason@)),
        run.stage == CleanupStage::ReadingJournal ==> (event matches CleanupEvent::JournalRead(
            Err(reason),
        ) ==> after.stage == CleanupStage::Finished && (action matches CleanupAction::Respond(
            Err(words),
        ) && words@ == reason@)),
        run.stage == CleanupStage::PruningJournal ==> (event matches CleanupEvent::JournalPruned(
            Ok(_),
        ) ==> after.stage == CleanupStage::ClearingFrames && action is ClearFrames),
        run.stage == CleanupStage::PruningJournal ==> (event matches CleanupEvent::JournalPruned(
            Err(reason),
        ) ==> after.stage == CleanupStage::Finished && (action matches CleanupAction::Respond(
            Err(words),
        ) && words@ == reason@)),
        run.stage == CleanupStage::ClearingFrames ==> (event matches CleanupEvent::FramesCleared(
            Ok(_),
        ) ==> after.stage == CleanupStage::Finished && action == CleanupAction::Respond(Ok(()))),
        run.stage == CleanupStage::ClearingFrames ==> (event matches CleanupEvent::FramesCleared(
            Err(reason),
        ) ==> after.stage == CleanupStage::Finished && (action matches CleanupAction::Respond(
            Err(words),
        ) && words@ == "Failed to clear revert state: "@ + reason@)),
{
}

/// The journal is pruned from the first event that tells of the undone prompt on, and not at
/// all where none does. `at` is the place of that event.
pub proof fn law_journals_are_pruned_from_the_prompt(
    run: CleanupRun,
    journal: Vec<JournalEvent>,
    after: CleanupRun,
    action: CleanupAction,
    at: int,
)
    requires
        run.stage == CleanupStage::ReadingJournal,
        is_cleanup_step(run, CleanupEvent::JournalRead(Ok(journal)), after, action),
        0 <= at <= journal@.len(),
        forall|i: int|
            0 <= i < at ==> ((#[trigger] journal@[i]).prompt_message_id matches Some(id) ==> id@
                != run.message_id@),
        at < journal@.len() ==> (journal@[at].prompt_message_id matches Some(id) && id@
            == run.message_id@),
    ensures
        at < journal@.len() ==> after.stage == CleanupStage::PruningJournal && action == (
        CleanupAction::PruneJournalFrom { stream_seq: journal@[at].stream_seq }),
        at == journal@.len() ==> after.stage == CleanupStage::ClearingFrames
            && action is ClearFrames,
{
    let id = run.message_id@;
    let from = choose|from: Option<i64>|
        {
            &&& #[trigger] undo::is_prune_point(journal@, id, from)
            &&& match from {
                Some(stream_seq) => {
                    &&& after == (CleanupRun { stage: CleanupStage::PruningJournal, ..run })
                    &&& action == (CleanupAction::PruneJournalFrom { stream_seq })
                },
                None => {
                    &&& after == (CleanupRun { stage: CleanupStage::ClearingFrames, ..run })
                    &&& action is ClearFrames
                },
            }
        };
    if at < journal@.len() {
        assert(undo::records_prompt(journal@[at], id));
    }
    if from is Some {
        let point = choose|point: int| #[trigger]
            undo::first_prompt_at(journal@, id, point) && journal@[point].stream_seq
                == from->Some_0;
        assert(undo::records_prompt(journal@[point], id));
    }
}

/// An event that does not belong to the stage of an undo, a redo or a clean-up changes
/// nothing.
pub proof fn law_other_events_undo_nothing(
    run: UndoRun,
    event: UndoEvent,
    after: UndoRun,
    action: UndoAction,
    redo: RedoRun,
    redone: RedoEvent,
    redo_after: RedoRun,
    redo_action: RedoAction,
)
    requires
        is_undo_step(run, event, after, action),
        event is TreeRecorded ==> run.stage != UndoStage::Tracking && run.stage
            != UndoStage::FallbackTracking,
        event is HistoryLoaded ==> run.stage != UndoStage::LoadingHistory,
        event is ChildrenLoaded ==> run.stage != UndoStage::LoadingChildren,
        event is Restored ==> run.stage != UndoStage::Restoring && run.stage
            != UndoStage::FallbackRestoring,
        event is Diffed ==> run.stage != UndoStage::FallbackDiffing,
        event is FrameStored ==> run.stage != UndoStage::StoringFrame,
        is_redo_step(redo, redone, redo_after, redo_action),
        redone is FrameRead ==> redo.stage != RedoStage::ReadingFrame,
        redone is TreeRecorded ==> redo.stage != RedoStage::Tracking,
        redone is Diffed ==> redo.stage != RedoStage::Diffing,
        redone is Restored ==> redo.stage != RedoStage::Restoring,
        redone is FrameDropped ==> redo.stage != RedoStage::DroppingFrame,
    ensures
        after == run,
        action is Ignore,
        redo_after == redo,
        redo_action is Ignore,
{
}

/// An event that does not belong to the stage of a clean-up deletes nothing.
pub proof fn law_other_events_delete_nothing(
    run: CleanupRun,
    event: CleanupEvent,
    after: CleanupRun,
    action: CleanupAction,
)
    requires
        is_cleanup_step(run, event, after, action),
        !(run.stage == CleanupStage::ReadingFrame && event is FrameRead),
        !(run.stage == CleanupStage::DeletingMessages && event is MessagesDeleted),
        !(run.stage == CleanupStage::ReadingJournal && event is JournalRead),
        !(run.stage == CleanupStage::PruningJournal && event is JournalPruned),
        !(run.stage == CleanupStage::ClearingFrames && event is FramesCleared),
    ensures
        after == run,
        action is Ignore,
{
}

/// How far an undo has come: before its plan nothing is restored, while it restores some
/// restore is due, and once its frame is stored every restore was tried.
pub proof fn law_undos_know_how_far_they_have_come(run: UndoRun, redo: RedoRun)
    requires
        run.wf(),
        redo.wf(),
    ensures
        run.plan is None ==> run.succeeded@.len() == 0 && run.fallback_changed@.len() == 0,
        run.stage == UndoStage::Tracking || run.stage == UndoStage::LoadingHistory || run.stage
            == UndoStage::LoadingChildren ==> run.plan is None,
        run.stage == UndoStage::Restoring ==> (run.plan matches Some(plan) && run.succeeded@.len()
            < plan.restores@.len() && run.fallback_changed@.len() == 0),
        run.stage == UndoStage::StoringFrame ==> (run.plan matches Some(plan)
            && run.succeeded@.len() == plan.restores@.len()),
        run.stage == UndoStage::FallbackTracking || run.stage == UndoStage::FallbackDiffing
            || run.stage == UndoStage::FallbackRestoring ==> (run.plan matches Some(plan)
            && plan.fallback is Some && plan.restores@.len() == 0),
        run.plan matches Some(plan) ==> run.succeeded@.len() <= plan.restores@.len(),
        run.plan matches Some(plan) ==> (plan.fallback is None ==> run.fallback_changed@.len()
            == 0),
        run.stage != UndoStage::Tracking && run.stage != UndoStage::Finished
            ==> run.pre_revert_snapshot is Some,
        redo.stage == RedoStage::Tracking || redo.stage == RedoStage::Diffing ==> redo.frame is Some,
{
}

} // verus!
