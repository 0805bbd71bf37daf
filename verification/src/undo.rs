//! Undo and redo of file changes.
//!
//! Undo goes back to the state of the work tree before everything that a session and its
//! child sessions did after a message. Redo restores the state before the undo.
use vstd::prelude::*;

use crate::model::{AgentMessage, MessagePart};
use crate::string_map::StringMap;
use crate::text::str_eq;
use crate::text;

verus! {

/// What an undo did.
#[derive(Debug, Clone, PartialEq, Eq)]
pub struct UndoResult {
    /// The files that were reverted.
    pub reverted_files: Vec<String>,
    /// The message back to which the session went.
    pub message_id: String,
}

/// What a redo did.
#[derive(Debug, Clone, PartialEq, Eq)]
pub struct RedoResult {
    pub restored: bool,
}

/// Why an undo or redo did not happen.
#[derive(Debug, PartialEq, Eq)]
pub enum UndoError {
    NoSnapshotBackend,
    NoWorkingDirectory,
    /// The message to go back to is not in the history.
    MessageNotFound { message_id: String },
    NothingToRedo,
    /// The snapshot backend or the history store failed.
    Backend(String),
}

/// The words for a failed undo or redo. One that was refused for want of a backend or a
/// working directory is told by its variant alone.
pub open spec fn failure_text(error: UndoError) -> Option<Seq<char>> {
    match error {
        UndoError::NoSnapshotBackend => None,
        UndoError::NoWorkingDirectory => None,
        UndoError::MessageNotFound { message_id } => Some("Message not found: "@ + message_id@),
        UndoError::NothingToRedo => Some("Nothing to redo"@),
        UndoError::Backend(message) => Some(message@),
    }
}

impl UndoError {
    /// The words for a failed undo or redo.
    pub fn message(&self) -> (out: Option<String>)
        ensures
            match out {
                Some(text) => failure_text(*self) == Some(text@),
                None => failure_text(*self) is None,
            },
    {
        match self {
            UndoError::NoSnapshotBackend => None,
            UndoError::NoWorkingDirectory => None,
            UndoError::MessageNotFound { message_id } => {
                let mut out = "Message not found: ".to_string();
                out.append(message_id.as_str());
                Some(out)
            },
            UndoError::NothingToRedo => Some("Nothing to redo".to_string()),
            UndoError::Backend(message) => Some(message.clone()),
        }
    }
}

/// Files of one turn that go back to the state before that turn.
#[derive(Debug, PartialEq, Eq)]
pub struct TurnRestore {
    pub turn_id: String,
    /// The snapshot that was taken before the turn.
    pub snapshot_id: String,
    pub paths: Vec<String>,
}

/// The history of a child session, where it could be read.
#[derive(Debug)]
pub struct ChildHistory {
    pub session_id: String,
    pub history: Option<Vec<AgentMessage>>,
}

/// All parts of a stretch of history, in order.
pub open spec fn parts_of(history: Seq<AgentMessage>) -> Seq<MessagePart>
    decreases history.len(),
{
    if history.len() == 0 {
        Seq::empty()
    } else {
        parts_of(history.drop_last()) + history.last().parts@
    }
}

/// The snapshots taken before the turns that start in `parts`, by turn. A turn that
/// starts twice keeps the later snapshot.
pub open spec fn turn_starts(
    known: Map<Seq<char>, Seq<char>>,
    parts: Seq<MessagePart>,
) -> Map<Seq<char>, Seq<char>>
    decreases parts.len(),
{
    if parts.len() == 0 {
        known
    } else {
        let before = turn_starts(known, parts.drop_last());
        match parts.last() {
            MessagePart::TurnSnapshotStart { turn_id, snapshot_id } => before.insert(
                turn_id@,
                snapshot_id@,
            ),
            _ => before,
        }
    }
}

/// One turn's files and the snapshot to which they go back.
pub ghost struct Restore {
    pub turn: Seq<char>,
    pub snapshot: Seq<char>,
    pub paths: Seq<Seq<char>>,
}

/// The changes recorded in `parts` whose turn's start is known, in order.
pub open spec fn patches(
    starts: Map<Seq<char>, Seq<char>>,
    parts: Seq<MessagePart>,
) -> Seq<Restore>
    decreases parts.len(),
{
    if parts.len() == 0 {
        Seq::empty()
    } else {
        let before = patches(starts, parts.drop_last());
        match parts.last() {
            MessagePart::TurnSnapshotPatch { turn_id, changed_paths, .. } => if starts.dom().contains(
                turn_id@,
            ) {
                before.push(
                    Restore {
                        turn: turn_id@,
                        snapshot: starts[turn_id@],
                        paths: text::texts(changed_paths@),
                    },
                )
            } else {
                before
            },
            _ => before,
        }
    }
}

/// The stretch of history of `child` that an undo in `session_id` looks at: the whole
/// history of another session, and what follows the message in the session itself.
pub open spec fn scanned(
    session_id: Seq<char>,
    after_message: Seq<AgentMessage>,
    child: ChildHistory,
) -> Seq<AgentMessage> {
    if child.session_id@ == session_id {
        after_message
    } else {
        match child.history {
            Some(history) => history@,
            None => Seq::empty(),
        }
    }
}

/// What is known of turn starts after the session and the first `children` were scanned.
pub open spec fn known_starts(
    session_id: Seq<char>,
    after_message: Seq<AgentMessage>,
    children: Seq<ChildHistory>,
) -> Map<Seq<char>, Seq<char>>
    decreases children.len(),
{
    if children.len() == 0 {
        turn_starts(Map::empty(), parts_of(after_message))
    } else {
        turn_starts(
            known_starts(session_id, after_message, children.drop_last()),
            parts_of(scanned(session_id, after_message, children.last())),
        )
    }
}

/// The changes that an undo finds, in the order in which it finds them: those of the
/// session itself, then those of each child session.
pub open spec fn found_patches(
    session_id: Seq<char>,
    after_message: Seq<AgentMessage>,
    children: Seq<ChildHistory>,
) -> Seq<Restore>
    decreases children.len(),
{
    if children.len() == 0 {
        patches(known_starts(session_id, after_message, children), parts_of(after_message))
    } else {
        found_patches(session_id, after_message, children.drop_last()) + patches(
            known_starts(session_id, after_message, children),
            parts_of(scanned(session_id, after_message, children.last())),
        )
    }
}

/// `message_id` is the id of the message at `at`, and of none before.
pub open spec fn first_at(history: Seq<AgentMessage>, message_id: Seq<char>, at: int) -> bool {
    &&& 0 <= at < history.len()
    &&& history[at].id@ == message_id
    &&& forall|i: int| 0 <= i < at ==> (#[trigger] history[i]).id@ != message_id
}

/// `message_id` is the id of a message in `history`.
pub open spec fn has_message(history: Seq<AgentMessage>, message_id: Seq<char>) -> bool {
    exists|i: int| 0 <= i < history.len() && (#[trigger] history[i]).id@ == message_id
}

/// The first state after a turn that `parts` records, if any.
pub open spec fn first_patch_snapshot(parts: Seq<MessagePart>) -> Option<Seq<char>>
    decreases parts.len(),
{
    if parts.len() == 0 {
        None
    } else {
        match parts.first() {
            MessagePart::TurnSnapshotPatch { snapshot_id, .. } => Some(snapshot_id@),
            _ => first_patch_snapshot(parts.drop_first()),
        }
    }
}

/// What is to be done to the work tree, and in which order.
#[derive(Debug)]
pub struct UndoPlan {
    /// The restores to perform, first to last.
    pub restores: Vec<TurnRestore>,
    /// The snapshot to restore as a whole when there is nothing in `restores`.
    pub fallback: Option<String>,
}

/// A restore as the contracts see it.
pub open spec fn restore_view(restore: TurnRestore) -> Restore {
    Restore {
        turn: restore.turn_id@,
        snapshot: restore.snapshot_id@,
        paths: text::texts(restore.paths@),
    }
}

/// The restores as the contracts see them.
pub open spec fn restores_view(restores: Seq<TurnRestore>) -> Seq<Restore> {
    restores.map_values(|r: TurnRestore| restore_view(r))
}

pub(crate) fn position_of(history: &Vec<AgentMessage>, message_id: &str) -> (at: Option<usize>)
    ensures
        match at {
            Some(i) => first_at(history@, message_id@, i as int),
            None => !has_message(history@, message_id@),
        },
{
    let mut i: usize = 0;
    while i < history.len()
        invariant
            i <= history@.len(),
            forall|j: int| 0 <= j < i ==> (#[trigger] history@[j]).id@ != message_id@,
        decreases history@.len() - i,
    {
        if str_eq(history[i].id.as_str(), message_id) {
            return Some(i);
        }
        i = i + 1;
    }
    None
}

/// The values of a map of strings as texts.
pub open spec fn text_map(map: Map<Seq<char>, String>) -> Map<Seq<char>, Seq<char>> {
    map.map_values(|s: String| s@)
}

proof fn lemma_parts_push(history: Seq<AgentMessage>, from: int, to: int)
    requires
        0 <= from <= to < history.len(),
    ensures
        parts_of(history.subrange(from, to + 1)) == parts_of(history.subrange(from, to))
            + history[to].parts@,
{
    let longer = history.subrange(from, to + 1);
    assert(longer.drop_last() =~= history.subrange(from, to));
    assert(longer.last() == history[to]);
}

/// Notes the turn starts of one message.
fn note_starts(parts: &Vec<MessagePart>, starts: &mut StringMap<String>)
    requires
        old(starts).wf(),
    ensures
        final(starts).wf(),
        text_map(final(starts)@) == turn_starts(text_map(old(starts)@), parts@),
{
    let ghost before = text_map(starts@);
    let mut i: usize = 0;
    assert(parts@.subrange(0, 0) =~= Seq::empty());
    while i < parts.len()
        invariant
            i <= parts@.len(),
            starts.wf(),
            text_map(starts@) == turn_starts(before, parts@.subrange(0, i as int)),
        decreases parts@.len() - i,
    {
        proof {
            let longer = parts@.subrange(0, i + 1);
            assert(longer.drop_last() =~= parts@.subrange(0, i as int));
            assert(longer.last() == parts@[i as int]);
        }
        let ghost map = starts@;
        match &parts[i] {
            MessagePart::TurnSnapshotStart { turn_id, snapshot_id } => {
                let _before = starts.insert(turn_id.clone(), snapshot_id.clone());
                assert(text_map(starts@) =~= text_map(map).insert(turn_id@, snapshot_id@));
            },
            _ => {},
        }
        i = i + 1;
    }
    assert(parts@.subrange(0, i as int) =~= parts@);
}

proof fn lemma_turn_starts_concat(
    known: Map<Seq<char>, Seq<char>>,
    a: Seq<MessagePart>,
    b: Seq<MessagePart>,
)
    ensures
        turn_starts(known, a + b) == turn_starts(turn_starts(known, a), b),
    decreases b.len(),
{
    if b.len() == 0 {
        assert(a + b =~= a);
    } else {
        lemma_turn_starts_concat(known, a, b.drop_last());
        assert((a + b).drop_last() =~= a + b.drop_last());
        assert((a + b).last() == b.last());
    }
}

proof fn lemma_patches_concat(
    starts: Map<Seq<char>, Seq<char>>,
    a: Seq<MessagePart>,
    b: Seq<MessagePart>,
)
    ensures
        patches(starts, a + b) == patches(starts, a) + patches(starts, b),
    decreases b.len(),
{
    if b.len() == 0 {
        assert(a + b =~= a);
        assert(patches(starts, a) + patches(starts, b) =~= patches(starts, a));
    } else {
        lemma_patches_concat(starts, a, b.drop_last());
        assert((a + b).drop_last() =~= a + b.drop_last());
        assert((a + b).last() == b.last());
        assert(patches(starts, a + b) =~= patches(starts, a) + patches(starts, b));
    }
}

/// Collects the changes of one message.
fn collect_patches(
    parts: &Vec<MessagePart>,
    starts: &StringMap<String>,
    found: &mut Vec<TurnRestore>,
)
    requires
        starts.wf(),
    ensures
        restores_view(final(found)@) == restores_view(old(found)@) + patches(
            text_map(starts@),
            parts@,
        ),
{
    let ghost before = restores_view(found@);
    let ghost known = text_map(starts@);
    let mut i: usize = 0;
    assert(parts@.subrange(0, 0) =~= Seq::empty());
    assert(before + Seq::<Restore>::empty() =~= before);
    while i < parts.len()
        invariant
            i <= parts@.len(),
            starts.wf(),
            known == text_map(starts@),
            restores_view(found@) == before + patches(known, parts@.subrange(0, i as int)),
        decreases parts@.len() - i,
    {
        proof {
            let longer = parts@.subrange(0, i + 1);
            assert(longer.drop_last() =~= parts@.subrange(0, i as int));
            assert(longer.last() == parts@[i as int]);
        }
        match &parts[i] {
            MessagePart::TurnSnapshotPatch { turn_id, changed_paths, .. } => {
                match starts.get(turn_id.as_str()) {
                    Some(snapshot_id) => {
                        let ghost list = found@;
                        let restore = TurnRestore {
                            turn_id: turn_id.clone(),
                            snapshot_id: snapshot_id.clone(),
                            paths: changed_paths.clone(),
                        };
                        found.push(restore);
                        assert(restores_view(found@) =~= restores_view(list).push(
                            restore_view(restore),
                        ));
                        assert(known.dom().contains(turn_id@));
                        assert(restores_view(found@) =~= before + patches(
                            known,
                            parts@.subrange(0, i + 1),
                        ));
                    },
                    None => {
                        assert(!known.dom().contains(turn_id@));
                    },
                }
            },
            _ => {},
        }
        i = i + 1;
    }
    assert(parts@.subrange(0, i as int) =~= parts@);
}

/// Scans the messages of `history` from `from` on.
fn scan(
    history: &Vec<AgentMessage>,
    from: usize,
    starts: &mut StringMap<String>,
    found: &mut Vec<TurnRestore>,
)
    requires
        old(starts).wf(),
        from <= history@.len(),
    ensures
        final(starts).wf(),
        ({
            let parts = parts_of(history@.subrange(from as int, history@.len() as int));
            &&& text_map(final(starts)@) == turn_starts(text_map(old(starts)@), parts)
            &&& restores_view(final(found)@) == restores_view(old(found)@) + patches(
                text_map(final(starts)@),
                parts,
            )
        }),
{
    let ghost before = text_map(starts@);
    let ghost listed = restores_view(found@);
    let mut i: usize = from;
    assert(history@.subrange(from as int, from as int) =~= Seq::empty());
    while i < history.len()
        invariant
            from <= i <= history@.len(),
            starts.wf(),
            text_map(starts@) == turn_starts(
                before,
                parts_of(history@.subrange(from as int, i as int)),
            ),
        decreases history@.len() - i,
    {
        proof {
            lemma_parts_push(history@, from as int, i as int);
            lemma_turn_starts_concat(
                before,
                parts_of(history@.subrange(from as int, i as int)),
                history@[i as int].parts@,
            );
        }
        note_starts(&history[i].parts, starts);
        i = i + 1;
    }
    let ghost known = text_map(starts@);
    let mut j: usize = from;
    assert(listed + Seq::<Restore>::empty() =~= listed);
    while j < history.len()
        invariant
            from <= j <= history@.len(),
            starts.wf(),
            known == text_map(starts@),
            restores_view(found@) == listed + patches(
                known,
                parts_of(history@.subrange(from as int, j as int)),
            ),
        decreases history@.len() - j,
    {
        proof {
            lemma_parts_push(history@, from as int, j as int);
            lemma_patches_concat(
                known,
                parts_of(history@.subrange(from as int, j as int)),
                history@[j as int].parts@,
            );
        }
        collect_patches(&history[j].parts, starts, found);
        proof {
            assert(restores_view(found@) =~= listed + patches(
                known,
                parts_of(history@.subrange(from as int, j + 1)),
            ));
        }
        j = j + 1;
    }
}

/// The first state after a turn that `parts` records, if any.
fn fallback_snapshot(parts: &Vec<MessagePart>) -> (snapshot: Option<String>)
    ensures
        match snapshot {
            Some(s) => first_patch_snapshot(parts@) == Some(s@),
            None => first_patch_snapshot(parts@) is None,
        },
{
    let mut i: usize = 0;
    assert(parts@.subrange(0, parts@.len() as int) =~= parts@);
    while i < parts.len()
        invariant
            i <= parts@.len(),
            first_patch_snapshot(parts@) == first_patch_snapshot(
                parts@.subrange(i as int, parts@.len() as int),
            ),
        decreases parts@.len() - i,
    {
        proof {
            let rest = parts@.subrange(i as int, parts@.len() as int);
            assert(rest.first() == parts@[i as int]);
            assert(rest.drop_first() =~= parts@.subrange(i + 1, parts@.len() as int));
        }
        match &parts[i] {
            MessagePart::TurnSnapshotPatch { snapshot_id, .. } => {
                return Some(snapshot_id.clone());
            },
            _ => {},
        }
        i = i + 1;
    }
    None
}

fn reversed(list: Vec<TurnRestore>) -> (out: Vec<TurnRestore>)
    ensures
        out@ == list@.reverse(),
{
    let mut list = list;
    let ghost all = list@;
    let mut out: Vec<TurnRestore> = Vec::new();
    while list.len() > 0
        invariant
            out@ + list@.reverse() == all.reverse(),
        decreases list@.len(),
    {
        let ghost rest = list@;
        match list.pop() {
            Some(last) => {
                out.push(last);
                assert(rest.reverse() =~= seq![last] + list@.reverse());
                assert(out@ + list@.reverse() =~= all.reverse());
            },
            None => {},
        }
    }
    assert(out@ =~= all.reverse());
    out
}

/// What an undo of everything after `message_id` finds to restore.
pub open spec fn restores_after(
    session_id: Seq<char>,
    history: Seq<AgentMessage>,
    target: int,
    children: Seq<ChildHistory>,
) -> Seq<Restore> {
    found_patches(
        session_id,
        history.subrange(target + 1, history.len() as int),
        children,
    ).reverse()
}

/// `plan` undoes everything that happened after the message `message_id`.
pub open spec fn is_plan(
    session_id: Seq<char>,
    history: Seq<AgentMessage>,
    message_id: Seq<char>,
    children: Seq<ChildHistory>,
    plan: UndoPlan,
) -> bool {
    exists|target: int|
        {
            &&& #[trigger] first_at(history, message_id, target)
            &&& restores_view(plan.restores@) == restores_after(
                session_id,
                history,
                target,
                children,
            )
            &&& match plan.fallback {
                Some(s) => plan.restores@.len() == 0 && first_patch_snapshot(
                    history[target].parts@,
                ) == Some(s@),
                None => plan.restores@.len() > 0 || first_patch_snapshot(
                    history[target].parts@,
                ) is None,
            }
        }
}

/// Plans an undo of everything that happened after the message `message_id`: the changes
/// of later turns, of the session and of its child sessions, last one first. Where no
/// change is recorded, the state recorded at the message itself is to be restored.
pub fn plan_undo(
    session_id: &str,
    history: &Vec<AgentMessage>,
    message_id: &str,
    children: &Vec<ChildHistory>,
) -> (plan: Result<UndoPlan, UndoError>)
    ensures
        match plan {
            Ok(plan) => is_plan(session_id@, history@, message_id@, children@, plan),
            Err(error) => !has_message(history@, message_id@) && error is MessageNotFound
                && error->message_id@ == message_id@,
        },
{
    let target: usize = match position_of(history, message_id) {
        Some(target) => target,
        None => {
            return Err(UndoError::MessageNotFound { message_id: message_id.to_owned() });
        },
    };
    let total: usize = history.len();
    let next: usize = if target < total {
        target + 1
    } else {
        total
    };
    let ghost after = history@.subrange(target + 1, history@.len() as int);
    let mut starts: StringMap<String> = StringMap::new();
    let mut found: Vec<TurnRestore> = Vec::new();
    assert(text_map(starts@) =~= Map::<Seq<char>, Seq<char>>::empty());
    assert(restores_view(found@) =~= Seq::<Restore>::empty());
    scan(history, next, &mut starts, &mut found);
    assert(restores_view(found@) =~= found_patches(session_id@, after, Seq::empty()));
    let mut i: usize = 0;
    assert(children@.subrange(0, 0) =~= Seq::empty());
    while i < children.len()
        invariant
            i <= children@.len(),
            target < history@.len(),
            next == target + 1,
            after == history@.subrange(target + 1, history@.len() as int),
            starts.wf(),
            text_map(starts@) == known_starts(
                session_id@,
                after,
                children@.subrange(0, i as int),
            ),
            restores_view(found@) == found_patches(
                session_id@,
                after,
                children@.subrange(0, i as int),
            ),
        decreases children@.len() - i,
    {
        proof {
            let longer = children@.subrange(0, i + 1);
            assert(longer.drop_last() =~= children@.subrange(0, i as int));
            assert(longer.last() == children@[i as int]);
        }
        if str_eq(children[i].session_id.as_str(), session_id) {
            scan(history, next, &mut starts, &mut found);
        } else {
            match &children[i].history {
                Some(child) => {
                    assert(child@.subrange(0, child@.len() as int) =~= child@);
                    scan(child, 0, &mut starts, &mut found);
                },
                None => {
                    assert(parts_of(Seq::empty()) =~= Seq::empty());
                    assert(restores_view(found@) + Seq::<Restore>::empty() =~= restores_view(
                        found@,
                    ));
                },
            }
        }
        i = i + 1;
    }
    assert(children@.subrange(0, i as int) =~= children@);
    let fallback = if found.len() == 0 {
        fallback_snapshot(&history[target].parts)
    } else {
        None
    };
    let ghost listed = found@;
    let restores = reversed(found);
    proof {
        assert(restores_view(restores@) =~= restores_view(listed).reverse());
        assert(first_at(history@, message_id@, target as int));
    }
    Ok(UndoPlan { restores, fallback })
}

/// The paths of the restores that succeeded, in order.
pub open spec fn reverted(restores: Seq<Restore>, succeeded: Seq<bool>) -> Seq<Seq<char>>
    decreases restores.len(),
{
    if restores.len() == 0 {
        Seq::empty()
    } else {
        let before = reverted(restores.drop_last(), succeeded);
        if succeeded[restores.len() - 1] {
            before + restores.last().paths
        } else {
            before
        }
    }
}

fn append_all(into: &mut Vec<String>, from: &Vec<String>)
    ensures
        final(into)@ == old(into)@ + from@,
{
    let ghost before = into@;
    let mut i: usize = 0;
    while i < from.len()
        invariant
            i <= from@.len(),
            into@ == before + from@.subrange(0, i as int),
        decreases from@.len() - i,
    {
        into.push(from[i].clone());
        assert(into@ =~= before + from@.subrange(0, i + 1));
        i = i + 1;
    }
    assert(from@.subrange(0, i as int) =~= from@);
}

/// The files that an undo reverted, given which of its restores succeeded. A restore that
/// failed is passed over.
pub fn reverted_files(restores: &Vec<TurnRestore>, succeeded: &Vec<bool>) -> (files: Vec<String>)
    requires
        succeeded@.len() == restores@.len(),
    ensures
        text::texts(files@) == reverted(restores_view(restores@), succeeded@),
{
    let mut files: Vec<String> = Vec::new();
    let mut i: usize = 0;
    let ghost all = restores_view(restores@);
    assert(all.subrange(0, 0) =~= Seq::empty());
    assert(text::texts(files@) =~= Seq::empty());
    while i < restores.len()
        invariant
            i <= restores@.len(),
            succeeded@.len() == restores@.len(),
            all == restores_view(restores@),
            text::texts(files@) == reverted(all.subrange(0, i as int), succeeded@),
        decreases restores@.len() - i,
    {
        proof {
            let longer = all.subrange(0, i + 1);
            assert(longer.drop_last() =~= all.subrange(0, i as int));
            assert(longer.last() == restore_view(restores@[i as int]));
        }
        if succeeded[i] {
            let ghost before = files@;
            append_all(&mut files, &restores[i].paths);
            assert(text::texts(files@) =~= text::texts(before) + text::texts(restores@[i as int].paths@));
        }
        i = i + 1;
    }
    assert(all.subrange(0, i as int) =~= all);
    files
}

/// The outcome of an undo that went through its plan. `fallback_changed` is what differed
/// from the fallback snapshot and was restored from it, where the plan had to fall back.
pub fn undo_result(
    plan: &UndoPlan,
    succeeded: &Vec<bool>,
    fallback_changed: &Vec<String>,
    message_id: &str,
) -> (result: UndoResult)
    requires
        succeeded@.len() == plan.restores@.len(),
    ensures
        result.message_id@ == message_id@,
        text::texts(result.reverted_files@) == reverted(restores_view(plan.restores@), succeeded@)
            + if plan.fallback is Some {
            text::texts(fallback_changed@)
        } else {
            Seq::empty()
        },
{
    let mut files = reverted_files(&plan.restores, succeeded);
    let ghost before = files@;
    if plan.fallback.is_some() {
        append_all(&mut files, fallback_changed);
        assert(text::texts(files@) =~= text::texts(before) + text::texts(fallback_changed@));
    } else {
        assert(text::texts(files@) =~= text::texts(before) + Seq::<Seq<char>>::empty());
    }
    UndoResult { reverted_files: files, message_id: message_id.to_owned() }
}

/// A frame of the redo stack: the state before an undo.
#[derive(Debug, PartialEq, Eq)]
pub struct RevertState {
    pub public_id: String,
    pub session_id: String,
    pub message_id: String,
    /// The snapshot that was taken before the undo.
    pub snapshot_id: String,
    pub backend_id: String,
    pub created_at: i64,
}

/// The frame for an undo in `session_id` back to `message_id`.
pub fn revert_state(
    public_id: String,
    session_id: &str,
    message_id: &str,
    pre_revert_snapshot: String,
    created_at: i64,
) -> (state: RevertState)
    ensures
        state.public_id == public_id,
        state.session_id@ == session_id@,
        state.message_id@ == message_id@,
        state.snapshot_id == pre_revert_snapshot,
        state.backend_id@ == "git"@,
        state.created_at == created_at,
{
    RevertState {
        public_id,
        session_id: session_id.to_owned(),
        message_id: message_id.to_owned(),
        snapshot_id: pre_revert_snapshot,
        backend_id: "git".to_string(),
        created_at,
    }
}

/// What is asked of the snapshot backend and the history store during a redo.
#[derive(Debug, PartialEq, Eq)]
pub enum RedoStep {
    /// Restore these paths to the snapshot, then drop the newest frame.
    RestoreThenPop { snapshot_id: String, paths: Vec<String> },
    /// The work tree is as it was before the undo: only drop the newest frame.
    Pop,
}

/// The newest frame, which a redo goes back to. Without one there is nothing to redo.
pub fn redo_frame(newest: Option<RevertState>) -> (frame: Result<RevertState, UndoError>)
    ensures
        frame == match newest {
            Some(state) => Ok::<RevertState, UndoError>(state),
            None => Err(UndoError::NothingToRedo),
        },
{
    match newest {
        Some(state) => Ok(state),
        None => Err(UndoError::NothingToRedo),
    }
}

/// What a redo does, given the paths that differ between the work tree and the frame.
pub fn redo_step(frame: &RevertState, changed: Vec<String>) -> (step: RedoStep)
    ensures
        step == if changed@.len() > 0 {
            RedoStep::RestoreThenPop { snapshot_id: frame.snapshot_id, paths: changed }
        } else {
            RedoStep::Pop
        },
{
    if changed.len() > 0 {
        RedoStep::RestoreThenPop { snapshot_id: frame.snapshot_id.clone(), paths: changed }
    } else {
        RedoStep::Pop
    }
}

/// The stacked frames of a session, newest last.
#[derive(Debug)]
pub struct RevertStack {
    pub frames: Vec<RevertState>,
}

impl RevertStack {
    /// A stack without frames.
    pub fn new() -> (stack: Self)
        ensures
            stack.frames@ == Seq::<RevertState>::empty(),
    {
        RevertStack { frames: Vec::new() }
    }

    /// Puts a frame on top, as every undo does.
    pub fn push(&mut self, frame: RevertState)
        ensures
            final(self).frames@ == old(self).frames@.push(frame),
    {
        self.frames.push(frame);
    }

    /// Takes the newest frame off, as every redo does.
    pub fn pop(&mut self) -> (frame: Result<RevertState, UndoError>)
        ensures
            match frame {
                Ok(frame) => old(self).frames@.len() > 0 && frame == old(self).frames@.last()
                    && final(self).frames@ == old(self).frames@.drop_last(),
                Err(error) => old(self).frames@.len() == 0 && error == UndoError::NothingToRedo
                    && final(self).frames@ == old(self).frames@,
            },
    {
        match self.frames.pop() {
            Some(frame) => Ok(frame),
            None => Err(UndoError::NothingToRedo),
        }
    }

    /// Takes every frame off, as a new prompt does.
    pub fn clear(&mut self)
        ensures
            final(self).frames@.len() == 0,
    {
        self.frames.clear();
    }
}

/// An event of a session's journal.
#[derive(Debug, PartialEq, Eq)]
pub struct JournalEvent {
    pub stream_seq: i64,
    /// The message that a received prompt was stored as, for an event of that kind.
    pub prompt_message_id: Option<String>,
}

/// The event that records the prompt `message_id`.
pub open spec fn records_prompt(event: JournalEvent, message_id: Seq<char>) -> bool {
    match event.prompt_message_id {
        Some(id) => id@ == message_id,
        None => false,
    }
}

/// `at` is the first event in `journal` that records the prompt `message_id`.
pub open spec fn first_prompt_at(
    journal: Seq<JournalEvent>,
    message_id: Seq<char>,
    at: int,
) -> bool {
    &&& 0 <= at < journal.len()
    &&& records_prompt(journal[at], message_id)
    &&& forall|i: int| 0 <= i < at ==> !records_prompt(#[trigger] journal[i], message_id)
}

/// `from` is the number of the first event that records the prompt `message_id`, if one does.
pub open spec fn is_prune_point(
    journal: Seq<JournalEvent>,
    message_id: Seq<char>,
    from: Option<i64>,
) -> bool {
    match from {
        Some(seq) => exists|at: int| #[trigger]
            first_prompt_at(journal, message_id, at) && journal[at].stream_seq == seq,
        None => forall|i: int|
            0 <= i < journal.len() ==> !records_prompt(#[trigger] journal[i], message_id),
    }
}

/// The number of the first event that records the prompt `message_id`, if one does.
pub fn prune_point(journal: &Vec<JournalEvent>, message_id: &str) -> (from: Option<i64>)
    ensures
        is_prune_point(journal@, message_id@, from),
{
    let mut i: usize = 0;
    while i < journal.len()
        invariant
            i <= journal@.len(),
            forall|j: int| 0 <= j < i ==> !records_prompt(#[trigger] journal@[j], message_id@),
        decreases journal@.len() - i,
    {
        let found = match &journal[i].prompt_message_id {
            Some(id) => str_eq(id.as_str(), message_id),
            None => false,
        };
        if found {
            assert(first_prompt_at(journal@, message_id@, i as int));
            return Some(journal[i].stream_seq);
        }
        i = i + 1;
    }
    None
}

/// The events of `journal` with a number below `from`.
pub open spec fn pruned(journal: Seq<JournalEvent>, from: i64) -> Seq<JournalEvent>
    decreases journal.len(),
{
    if journal.len() == 0 {
        Seq::empty()
    } else {
        let before = pruned(journal.drop_last(), from);
        if journal.last().stream_seq < from {
            before.push(journal.last())
        } else {
            before
        }
    }
}

fn prune(journal: &mut Vec<JournalEvent>, from: i64)
    ensures
        final(journal)@ == pruned(old(journal)@, from),
{
    let mut rest: Vec<JournalEvent> = Vec::new();
    std::mem::swap(&mut rest, journal);
    let ghost all = rest@;
    let ghost mut taken: int = 0;
    assert(all.take(0) =~= Seq::empty());
    while rest.len() > 0
        invariant
            0 <= taken <= all.len(),
            rest@ == all.skip(taken),
            journal@ == pruned(all.take(taken), from),
        decreases rest@.len(),
    {
        let event = rest.remove(0);
        proof {
            assert(all.take(taken + 1).drop_last() =~= all.take(taken));
            assert(rest@ =~= all.skip(taken + 1));
            taken = taken + 1;
        }
        if event.stream_seq < from {
            journal.push(event);
        }
    }
    assert(all.take(taken) =~= all);
}

/// What is left of a session's history, journal and redo stack once a new prompt came after
/// an undo: the message that was undone and everything after it is gone, in the history and
/// in the journal, and so is every frame. Without an undo nothing changes.
pub open spec fn cleaned_up(
    frames: Seq<RevertState>,
    history: Seq<AgentMessage>,
    journal: Seq<JournalEvent>,
    frames_after: Seq<RevertState>,
    history_after: Seq<AgentMessage>,
    journal_after: Seq<JournalEvent>,
) -> bool {
    if frames.len() == 0 {
        &&& frames_after == frames
        &&& history_after == history
        &&& journal_after == journal
    } else {
        let message_id = frames.last().message_id@;
        &&& frames_after.len() == 0
        &&& if has_message(history, message_id) {
            exists|at: int| #[trigger]
                first_at(history, message_id, at) && history_after == history.take(at)
        } else {
            history_after == history
        }
        &&& exists|from: Option<i64>|
            {
                &&& #[trigger] is_prune_point(journal, message_id, from)
                &&& journal_after == match from {
                    Some(from) => pruned(journal, from),
                    None => journal,
                }
            }
    }
}

/// Removes what an undo has left behind, when a new prompt comes: the message back to which
/// the newest undo went and everything after it, in the history and in the journal, and all
/// frames. Says whether there was an undo.
pub fn cleanup_revert_on_prompt(
    frames: &mut RevertStack,
    history: &mut Vec<AgentMessage>,
    journal: &mut Vec<JournalEvent>,
) -> (cleaned: bool)
    ensures
        cleaned == (old(frames).frames@.len() > 0),
        cleaned_up(
            old(frames).frames@,
            old(history)@,
            old(journal)@,
            final(frames).frames@,
            final(history)@,
            final(journal)@,
        ),
{
    let count: usize = frames.frames.len();
    if count == 0 {
        return false;
    }
    let message_id = frames.frames[count - 1].message_id.clone();
    if let Some(at) = position_of(history, message_id.as_str()) {
        let ghost before = history@;
        history.truncate(at);
        assert(history@ =~= before.take(at as int));
        assert(first_at(before, message_id@, at as int));
    }
    let from = prune_point(journal, message_id.as_str());
    assert(is_prune_point(old(journal)@, message_id@, from));
    if let Some(from) = from {
        prune(journal, from);
    }
    frames.clear();
    proof {
        let id = old(frames).frames@.last().message_id@;
        assert(id == message_id@);
        if has_message(old(history)@, id) {
            assert(exists|at: int| #[trigger]
                first_at(old(history)@, id, at) && history@ == old(history)@.take(at));
        } else {
            assert(history@ == old(history)@);
        }
    }
    true
}

/// The numbers of a journal's events grow.
pub open spec fn in_order(journal: Seq<JournalEvent>) -> bool {
    forall|i: int, j: int|
        0 <= i < j < journal.len() ==> (#[trigger] journal[i]).stream_seq < (
        #[trigger] journal[j]).stream_seq
}

proof fn lemma_pruned_is_a_prefix(journal: Seq<JournalEvent>, at: int)
    requires
        in_order(journal),
        0 <= at < journal.len(),
    ensures
        pruned(journal, journal[at].stream_seq) == journal.take(at),
    decreases journal.len(),
{
    let shorter = journal.drop_last();
    assert forall|i: int, j: int| 0 <= i < j < shorter.len() implies (
    #[trigger] shorter[i]).stream_seq < (#[trigger] shorter[j]).stream_seq by {
        assert(journal[i].stream_seq < journal[j].stream_seq);
    }
    if at < shorter.len() {
        lemma_pruned_is_a_prefix(shorter, at);
        assert(shorter.take(at) =~= journal.take(at));
    } else {
        lemma_pruned_keeps(shorter, journal[at].stream_seq);
        assert(shorter =~= journal.take(at));
    }
}

proof fn lemma_pruned_keeps(journal: Seq<JournalEvent>, from: i64)
    requires
        forall|i: int| 0 <= i < journal.len() ==> (#[trigger] journal[i]).stream_seq < from,
    ensures
        pruned(journal, from) == journal,
    decreases journal.len(),
{
    if journal.len() > 0 {
        lemma_pruned_keeps(journal.drop_last(), from);
        assert(journal.drop_last().push(journal.last()) =~= journal);
    } else {
        assert(pruned(journal, from) =~= journal);
    }
}

/// After the clean-up nothing tells of the prompt that was undone: no frame is left, the
/// message is not in the history, no event of the journal records it, and what came before
/// it is as it was.
pub proof fn law_undone_prompts_are_forgotten(
    frames: Seq<RevertState>,
    history: Seq<AgentMessage>,
    journal: Seq<JournalEvent>,
    frames_after: Seq<RevertState>,
    history_after: Seq<AgentMessage>,
    journal_after: Seq<JournalEvent>,
)
    requires
        frames.len() > 0,
        in_order(journal),
        cleaned_up(frames, history, journal, frames_after, history_after, journal_after),
    ensures
        frames_after.len() == 0,
        !has_message(history_after, frames.last().message_id@),
        history_after.is_prefix_of(history),
        forall|i: int|
            0 <= i < journal_after.len() ==> !records_prompt(
                #[trigger] journal_after[i],
                frames.last().message_id@,
            ),
        journal_after.is_prefix_of(journal),
{
    let id = frames.last().message_id@;
    assert(history_after =~= history.subrange(0, history_after.len() as int));
    let from = choose|from: Option<i64>|
        {
            &&& #[trigger] is_prune_point(journal, id, from)
            &&& journal_after == match from {
                Some(from) => pruned(journal, from),
                None => journal,
            }
        };
    if from is Some {
        let at = choose|at: int| #[trigger]
            first_prompt_at(journal, id, at) && journal[at].stream_seq == from->Some_0;
        lemma_pruned_is_a_prefix(journal, at);
        assert forall|i: int| 0 <= i < journal_after.len() implies !records_prompt(
            #[trigger] journal_after[i],
            id,
        ) by {
            assert(!records_prompt(journal[i], id));
        }
    }
    assert(journal_after =~= journal.subrange(0, journal_after.len() as int));
}

/// The content of a work tree by path.
pub type Files = Map<Seq<char>, Seq<u8>>;

/// `files` after the given paths were restored from a snapshot: each has the content
/// that it had in the snapshot, or is gone where it was not there.
pub open spec fn restored(files: Files, snapshot: Files, paths: Seq<Seq<char>>) -> Files
    decreases paths.len(),
{
    if paths.len() == 0 {
        files
    } else {
        let before = restored(files, snapshot, paths.drop_last());
        let path = paths.last();
        if snapshot.dom().contains(path) {
            before.insert(path, snapshot[path])
        } else {
            before.remove(path)
        }
    }
}

/// The content of `path`, if the work tree has it.
pub open spec fn content(files: Files, path: Seq<char>) -> Option<Seq<u8>> {
    if files.dom().contains(path) {
        Some(files[path])
    } else {
        None
    }
}

proof fn lemma_restored_at(files: Files, snapshot: Files, paths: Seq<Seq<char>>, path: Seq<char>)
    ensures
        content(restored(files, snapshot, paths), path) == if paths.contains(path) {
            content(snapshot, path)
        } else {
            content(files, path)
        },
    decreases paths.len(),
{
    if paths.len() > 0 {
        let shorter = paths.drop_last();
        lemma_restored_at(files, snapshot, shorter, path);
        if shorter.contains(path) {
            let i = choose|i: int| 0 <= i < shorter.len() && shorter[i] == path;
            assert(paths[i] == path);
        }
        if paths.contains(path) && path != paths.last() {
            let i = choose|i: int| 0 <= i < paths.len() && paths[i] == path;
            assert(shorter[i] == path);
        }
    }
}

/// `paths` names every path on which the two work trees differ.
pub open spec fn covers_changes(before: Files, after: Files, paths: Seq<Seq<char>>) -> bool {
    forall|path: Seq<char>| #[trigger]
        content(before, path) != content(after, path) ==> paths.contains(path)
}

/// `files` after the restores, performed first to last, where `snapshots` says what each
/// snapshot holds.
pub open spec fn after_restores(
    files: Files,
    snapshots: Map<Seq<char>, Files>,
    restores: Seq<Restore>,
) -> Files
    decreases restores.len(),
{
    if restores.len() == 0 {
        files
    } else {
        let before = after_restores(files, snapshots, restores.drop_last());
        restored(before, snapshots[restores.last().snapshot], restores.last().paths)
    }
}

proof fn lemma_same_content(a: Files, b: Files)
    requires
        forall|path: Seq<char>| #[trigger] content(a, path) == content(b, path),
    ensures
        a == b,
{
    assert forall|path: Seq<char>| a.dom().contains(path) <==> b.dom().contains(path) by {
        assert(content(a, path) == content(b, path));
    }
    assert forall|path: Seq<char>| a.dom().contains(path) implies a[path] == b[path] by {
        assert(content(a, path) == content(b, path));
    }
    assert(a =~= b);
}

/// Undo reverts every change: when the work tree went through the states `states`, one
/// turn after the other, and each turn's record holds the snapshot before it and all the
/// paths that it changed, then the restores of an undo, which take the records last one
/// first, bring the work tree back to the state before the first turn.
pub proof fn law_undo_reverts_every_turn(
    states: Seq<Files>,
    found: Seq<Restore>,
    snapshots: Map<Seq<char>, Files>,
)
    requires
        states.len() == found.len() + 1,
        forall|i: int|
            0 <= i < found.len() ==> snapshots[(#[trigger] found[i]).snapshot] == states[i]
                && covers_changes(states[i], states[i + 1], found[i].paths),
    ensures
        after_restores(states.last(), snapshots, found.reverse()) == states.first(),
    decreases found.len(),
{
    let n = found.len() as int;
    if n > 0 {
        let plan = found.reverse();
        let earlier_states = states.subrange(1, n + 1);
        let earlier = found.subrange(1, n);
        assert forall|i: int| 0 <= i < earlier.len() implies snapshots[(
        #[trigger] earlier[i]).snapshot] == earlier_states[i] && covers_changes(
            earlier_states[i],
            earlier_states[i + 1],
            earlier[i].paths,
        ) by {
            assert(earlier[i] == found[i + 1]);
        }
        law_undo_reverts_every_turn(earlier_states, earlier, snapshots);
        assert(plan.drop_last() =~= earlier.reverse());
        assert(plan.last() == found[0]);
        let reached = after_restores(states.last(), snapshots, plan.drop_last());
        assert(earlier_states.last() == states.last());
        assert(earlier_states.first() == states[1]);
        assert(reached == states[1]);
        let result = restored(reached, states[0], found[0].paths);
        assert forall|path: Seq<char>| #[trigger] content(result, path) == content(
            states[0],
            path,
        ) by {
            lemma_restored_at(reached, states[0], found[0].paths, path);
            if content(states[0], path) != content(states[1], path) {
                assert(found[0].paths.contains(path));
            }
        }
        lemma_same_content(result, states[0]);
    }
}

/// Redo restores the state before the undo: restoring the paths that differ from a
/// snapshot gives the work tree of the snapshot.
pub proof fn law_redo_restores_the_state_before_the_undo(
    files: Files,
    before_undo: Files,
    changed: Seq<Seq<char>>,
)
    requires
        covers_changes(files, before_undo, changed),
    ensures
        restored(files, before_undo, changed) == before_undo,
{
    let result = restored(files, before_undo, changed);
    assert forall|path: Seq<char>| #[trigger] content(result, path) == content(
        before_undo,
        path,
    ) by {
        lemma_restored_at(files, before_undo, changed, path);
        if content(files, path) != content(before_undo, path) {
            assert(changed.contains(path));
        }
    }
    lemma_same_content(result, before_undo);
}

/// A redo takes back the newest undo and no other: what an undo put on the stack is what
/// the next redo takes off.
pub proof fn law_redo_takes_the_newest_frame(frames: Seq<RevertState>, frame: RevertState)
    ensures
        frames.push(frame).last() == frame,
        frames.push(frame).drop_last() == frames,
{
    assert(frames.push(frame).drop_last() =~= frames);
}

/// The place in all the parts of a history where those of message `i` begin.
spec fn offset(history: Seq<AgentMessage>, i: int) -> int {
    parts_of(history.take(i)).len() as int
}

/// Every part of every message stands among the parts of the history, in order.
proof fn lemma_part_at(history: Seq<AgentMessage>, i: int, p: int)
    requires
        0 <= i < history.len(),
        0 <= p < history[i].parts@.len(),
    ensures
        0 <= offset(history, i) + p < parts_of(history).len(),
        parts_of(history)[offset(history, i) + p] == history[i].parts@[p],
    decreases history.len(),
{
    let before = history.drop_last();
    if i < before.len() {
        lemma_part_at(before, i, p);
        assert(before.take(i) =~= history.take(i));
        assert(before[i] == history[i]);
    } else {
        assert(history.take(i) =~= before);
    }
}

/// Every one of the parts of a history is a part of one of its messages; `(j, q)` is a part
/// behind which `x` stands, where there is one.
proof fn lemma_part_from(history: Seq<AgentMessage>, x: int, j: int, q: int) -> (at: (int, int))
    requires
        0 <= x < parts_of(history).len(),
    ensures
        0 <= at.0 < history.len(),
        0 <= at.1 < history[at.0].parts@.len(),
        parts_of(history)[x] == history[at.0].parts@[at.1],
        x == offset(history, at.0) + at.1,
        0 <= j < history.len() && 0 <= q < history[j].parts@.len() && x > offset(history, j) + q
            ==> at.0 > j || at.0 == j && at.1 > q,
    decreases history.len(),
{
    let before = history.drop_last();
    let last = history.len() - 1;
    assert(history.take(last) =~= before);
    if x < parts_of(before).len() {
        let at = lemma_part_from(before, x, j, q);
        assert(before.take(at.0) =~= history.take(at.0));
        if 0 <= j < before.len() {
            assert(before.take(j) =~= history.take(j));
            assert(before[j] == history[j]);
        }
        at
    } else {
        (last, x - parts_of(before).len())
    }
}

/// The last start of a turn is the one that is known of it afterwards.
proof fn lemma_last_start(
    known: Map<Seq<char>, Seq<char>>,
    parts: Seq<MessagePart>,
    x: int,
)
    requires
        0 <= x < parts.len(),
        parts[x] is TurnSnapshotStart,
        forall|y: int|
            x < y < parts.len() && (#[trigger] parts[y]) is TurnSnapshotStart
                ==> parts[y]->TurnSnapshotStart_turn_id@ != parts[x]->TurnSnapshotStart_turn_id@,
    ensures
        turn_starts(known, parts).dom().contains(parts[x]->TurnSnapshotStart_turn_id@),
        turn_starts(known, parts)[parts[x]->TurnSnapshotStart_turn_id@]
            == parts[x]->TurnSnapshotStart_snapshot_id@,
    decreases parts.len(),
{
    if x < parts.len() - 1 {
        lemma_last_start(known, parts.drop_last(), x);
        assert(parts.last() == parts[parts.len() - 1]);
    }
}

/// What is known of a turn stays known where no part starts it.
proof fn lemma_no_start(known: Map<Seq<char>, Seq<char>>, parts: Seq<MessagePart>, turn: Seq<char>)
    requires
        forall|y: int|
            0 <= y < parts.len() && (#[trigger] parts[y]) is TurnSnapshotStart
                ==> parts[y]->TurnSnapshotStart_turn_id@ != turn,
    ensures
        turn_starts(known, parts).dom().contains(turn) == known.dom().contains(turn),
        known.dom().contains(turn) ==> turn_starts(known, parts)[turn] == known[turn],
    decreases parts.len(),
{
    if parts.len() > 0 {
        let before = parts.drop_last();
        assert forall|y: int|
            0 <= y < before.len() && (#[trigger] before[y]) is TurnSnapshotStart implies before[y]->TurnSnapshotStart_turn_id@
            != turn by {
            assert(before[y] == parts[y]);
        }
        lemma_no_start(known, before, turn);
        assert(parts.last() == parts[parts.len() - 1]);
    }
}

/// Every patch of a turn whose start is known is found.
proof fn lemma_patch_found(
    starts: Map<Seq<char>, Seq<char>>,
    parts: Seq<MessagePart>,
    x: int,
) -> (y: int)
    requires
        0 <= x < parts.len(),
        parts[x] is TurnSnapshotPatch,
        starts.dom().contains(parts[x]->TurnSnapshotPatch_turn_id@),
    ensures
        0 <= y < patches(starts, parts).len(),
        patches(starts, parts)[y].turn == parts[x]->TurnSnapshotPatch_turn_id@,
        patches(starts, parts)[y].snapshot == starts[parts[x]->TurnSnapshotPatch_turn_id@],
        patches(starts, parts)[y].paths == text::texts(
            parts[x]->TurnSnapshotPatch_changed_paths@,
        ),
    decreases parts.len(),
{
    if x < parts.len() - 1 {
        lemma_patch_found(starts, parts.drop_last(), x)
    } else {
        patches(starts, parts.drop_last()).len() as int
    }
}

/// What is found is a patch of a turn whose start is known.
proof fn lemma_found_patch(
    starts: Map<Seq<char>, Seq<char>>,
    parts: Seq<MessagePart>,
    y: int,
) -> (x: int)
    requires
        0 <= y < patches(starts, parts).len(),
    ensures
        0 <= x < parts.len(),
        parts[x] is TurnSnapshotPatch,
        starts.dom().contains(parts[x]->TurnSnapshotPatch_turn_id@),
        patches(starts, parts)[y].turn == parts[x]->TurnSnapshotPatch_turn_id@,
        patches(starts, parts)[y].snapshot == starts[parts[x]->TurnSnapshotPatch_turn_id@],
        patches(starts, parts)[y].paths == text::texts(
            parts[x]->TurnSnapshotPatch_changed_paths@,
        ),
    decreases parts.len(),
{
    let before = patches(starts, parts.drop_last());
    if y < before.len() {
        lemma_found_patch(starts, parts.drop_last(), y)
    } else {
        parts.len() - 1
    }
}

/// What is found in the history of child `c` is found in all of them.
proof fn lemma_found_in_child(
    session_id: Seq<char>,
    after: Seq<AgentMessage>,
    children: Seq<ChildHistory>,
    c: int,
    y: int,
) -> (z: int)
    requires
        0 <= c < children.len(),
        0 <= y < patches(
            known_starts(session_id, after, children.take(c + 1)),
            parts_of(scanned(session_id, after, children[c])),
        ).len(),
    ensures
        0 <= z < found_patches(session_id, after, children).len(),
        found_patches(session_id, after, children)[z] == patches(
            known_starts(session_id, after, children.take(c + 1)),
            parts_of(scanned(session_id, after, children[c])),
        )[y],
    decreases children.len(),
{
    let before = children.drop_last();
    if c < before.len() {
        assert(before.take(c + 1) =~= children.take(c + 1));
        lemma_found_in_child(session_id, after, before, c, y)
    } else {
        assert(children.take(c + 1) =~= children);
        found_patches(session_id, after, before).len() + y
    }
}

/// What is found in the session's own messages is found whatever its children are.
proof fn lemma_found_in_session(
    session_id: Seq<char>,
    after: Seq<AgentMessage>,
    children: Seq<ChildHistory>,
    y: int,
) -> (z: int)
    requires
        0 <= y < found_patches(session_id, after, Seq::empty()).len(),
    ensures
        0 <= z < found_patches(session_id, after, children).len(),
        found_patches(session_id, after, children)[z] == found_patches(
            session_id,
            after,
            Seq::empty(),
        )[y],
    decreases children.len(),
{
    if children.len() > 0 {
        lemma_found_in_session(session_id, after, children.drop_last(), y)
    } else {
        assert(children =~= Seq::<ChildHistory>::empty());
        y
    }
}

/// What is found is one of the restores of the plan.
proof fn lemma_found_is_restored(
    session_id: Seq<char>,
    history: Seq<AgentMessage>,
    message_id: Seq<char>,
    children: Seq<ChildHistory>,
    plan: UndoPlan,
    at: int,
    z: int,
) -> (r: int)
    requires
        is_plan(session_id, history, message_id, children, plan),
        0 <= at < history.len(),
        history[at].id@ == message_id,
        forall|m: int| 0 <= m < at ==> (#[trigger] history[m]).id@ != message_id,
        0 <= z < found_patches(
            session_id,
            history.subrange(at + 1, history.len() as int),
            children,
        ).len(),
    ensures
        0 <= r < plan.restores@.len(),
        restore_view(plan.restores@[r]) == found_patches(
            session_id,
            history.subrange(at + 1, history.len() as int),
            children,
        )[z],
{
    let target = choose|target: int|
        {
            &&& #[trigger] first_at(history, message_id, target)
            &&& restores_view(plan.restores@) == restores_after(
                session_id,
                history,
                target,
                children,
            )
            &&& match plan.fallback {
                Some(s) => plan.restores@.len() == 0 && first_patch_snapshot(
                    history[target].parts@,
                ) == Some(s@),
                None => plan.restores@.len() > 0 || first_patch_snapshot(
                    history[target].parts@,
                ) is None,
            }
        };
    assert(target == at) by {
        assert(history[target].id@ == message_id);
        assert(history[at].id@ == message_id);
    }
    let found = found_patches(
        session_id,
        history.subrange(at + 1, history.len() as int),
        children,
    );
    let r = found.len() - 1 - z;
    assert(restores_view(plan.restores@).len() == plan.restores@.len());
    assert(restores_view(plan.restores@)[r] == found.reverse()[r]);
    r
}

/// Whether part `q` of message `j` starts the turn, and no part behind it starts it again.
spec fn starts_last(history: Seq<AgentMessage>, turn: Seq<char>, j: int, q: int) -> bool {
    &&& 0 <= j < history.len()
    &&& 0 <= q < history[j].parts@.len()
    &&& history[j].parts@[q] is TurnSnapshotStart
    &&& history[j].parts@[q]->TurnSnapshotStart_turn_id@ == turn
    &&& forall|m: int, n: int|
        #![trigger history[m].parts@[n]]
        j <= m < history.len() && 0 <= n < history[m].parts@.len() && (m > j || n > q)
            && history[m].parts@[n] is TurnSnapshotStart
            ==> history[m].parts@[n]->TurnSnapshotStart_turn_id@ != turn
}

proof fn lemma_starts_last(
    known: Map<Seq<char>, Seq<char>>,
    history: Seq<AgentMessage>,
    turn: Seq<char>,
    j: int,
    q: int,
)
    requires
        starts_last(history, turn, j, q),
    ensures
        turn_starts(known, parts_of(history)).dom().contains(turn),
        turn_starts(known, parts_of(history))[turn]
            == history[j].parts@[q]->TurnSnapshotStart_snapshot_id@,
{
    let parts = parts_of(history);
    lemma_part_at(history, j, q);
    let x = offset(history, j) + q;
    assert forall|y: int|
        x < y < parts.len() && (#[trigger] parts[y]) is TurnSnapshotStart implies parts[y]->TurnSnapshotStart_turn_id@
        != parts[x]->TurnSnapshotStart_turn_id@ by {
        let at = lemma_part_from(history, y, j, q);
        assert(history[at.0].parts@[at.1] is TurnSnapshotStart);
    }
    lemma_last_start(known, parts, x);
}

/// Every change that a child of the session made is undone, wherever in the child's history
/// it stands: where message `i` of a child holds the changed paths of a turn in part `p`, and
/// part `q` of message `j` of that history is the last that says from which snapshot the turn
/// started, the plan puts exactly those paths back to that snapshot.
pub proof fn law_changes_of_children_are_undone(
    session_id: Seq<char>,
    history: Seq<AgentMessage>,
    message_id: Seq<char>,
    children: Seq<ChildHistory>,
    plan: UndoPlan,
    c: int,
    told: Seq<AgentMessage>,
    i: int,
    p: int,
    j: int,
    q: int,
)
    requires
        is_plan(session_id, history, message_id, children, plan),
        0 <= c < children.len(),
        children[c].session_id@ != session_id,
        children[c].history is Some,
        children[c].history->Some_0@ == told,
        0 <= i < told.len(),
        0 <= p < told[i].parts@.len(),
        told[i].parts@[p] is TurnSnapshotPatch,
        0 <= j < told.len(),
        0 <= q < told[j].parts@.len(),
        told[j].parts@[q] is TurnSnapshotStart,
        told[j].parts@[q]->TurnSnapshotStart_turn_id@
            == told[i].parts@[p]->TurnSnapshotPatch_turn_id@,
        forall|m: int, n: int|
            #![trigger told[m].parts@[n]]
            j <= m < told.len() && 0 <= n < told[m].parts@.len() && (m > j || n > q)
                && told[m].parts@[n] is TurnSnapshotStart
                ==> told[m].parts@[n]->TurnSnapshotStart_turn_id@
                != told[i].parts@[p]->TurnSnapshotPatch_turn_id@,
    ensures
        exists|r: int|
            {
                &&& 0 <= r < plan.restores@.len()
                &&& (#[trigger] plan.restores@[r]).turn_id@
                    == told[i].parts@[p]->TurnSnapshotPatch_turn_id@
                &&& plan.restores@[r].snapshot_id@
                    == told[j].parts@[q]->TurnSnapshotStart_snapshot_id@
                &&& plan.restores@[r].paths@.len()
                    == told[i].parts@[p]->TurnSnapshotPatch_changed_paths@.len()
                &&& forall|k: int|
                    0 <= k < plan.restores@[r].paths@.len() ==> (
                    #[trigger] plan.restores@[r].paths@[k])@
                        == told[i].parts@[p]->TurnSnapshotPatch_changed_paths@[k]@
            },
{
    let turn = told[i].parts@[p]->TurnSnapshotPatch_turn_id@;
    let target = choose|target: int|
        #![trigger first_at(history, message_id, target)]
        first_at(history, message_id, target) && restores_view(plan.restores@) == restores_after(
            session_id,
            history,
            target,
            children,
        );
    let after = history.subrange(target + 1, history.len() as int);
    assert(scanned(session_id, after, children[c]) == told);
    let upto = children.take(c + 1);
    assert(upto.drop_last() =~= children.take(c));
    assert(upto.last() == children[c]);
    assert(starts_last(told, turn, j, q));
    lemma_starts_last(known_starts(session_id, after, children.take(c)), told, turn, j, q);
    lemma_part_at(told, i, p);
    let y = lemma_patch_found(
        known_starts(session_id, after, upto),
        parts_of(told),
        offset(told, i) + p,
    );
    let z = lemma_found_in_child(session_id, after, children, c, y);
    let r = lemma_found_is_restored(session_id, history, message_id, children, plan, target, z);
    lemma_same_paths(
        plan.restores@[r].paths@,
        told[i].parts@[p]->TurnSnapshotPatch_changed_paths@,
    );
    assert(plan.restores@[r].turn_id@ == turn);
}

proof fn lemma_same_paths(a: Seq<String>, b: Seq<String>)
    requires
        text::texts(a) == text::texts(b),
    ensures
        a.len() == b.len(),
        forall|k: int| 0 <= k < a.len() ==> (#[trigger] a[k])@ == b[k]@,
{
    assert(text::texts(a).len() == a.len());
    assert(text::texts(b).len() == b.len());
    assert forall|k: int| 0 <= k < a.len() implies (#[trigger] a[k])@ == b[k]@ by {
        assert(text::texts(a)[k] == a[k]@);
        assert(text::texts(b)[k] == b[k]@);
    }
}

/// Every change that the session itself made behind the message to which it goes back is
/// undone: the plan puts exactly its paths back to the snapshot that its turn started from.
/// `at` is where the message stands, `i` and `p` are where the change stands, and `j` and `q`
/// are where the turn's last start stands.
pub proof fn law_changes_after_the_message_are_undone(
    session_id: Seq<char>,
    history: Seq<AgentMessage>,
    message_id: Seq<char>,
    children: Seq<ChildHistory>,
    plan: UndoPlan,
    at: int,
    i: int,
    p: int,
    j: int,
    q: int,
)
    requires
        is_plan(session_id, history, message_id, children, plan),
        0 <= at < i < history.len(),
        history[at].id@ == message_id,
        forall|m: int| 0 <= m < at ==> (#[trigger] history[m]).id@ != message_id,
        0 <= p < history[i].parts@.len(),
        history[i].parts@[p] is TurnSnapshotPatch,
        at < j < history.len(),
        0 <= q < history[j].parts@.len(),
        history[j].parts@[q] is TurnSnapshotStart,
        history[j].parts@[q]->TurnSnapshotStart_turn_id@
            == history[i].parts@[p]->TurnSnapshotPatch_turn_id@,
        forall|m: int, n: int|
            #![trigger history[m].parts@[n]]
            j <= m < history.len() && 0 <= n < history[m].parts@.len() && (m > j || n > q)
                && history[m].parts@[n] is TurnSnapshotStart
                ==> history[m].parts@[n]->TurnSnapshotStart_turn_id@
                != history[i].parts@[p]->TurnSnapshotPatch_turn_id@,
    ensures
        exists|r: int|
            {
                &&& 0 <= r < plan.restores@.len()
                &&& (#[trigger] plan.restores@[r]).turn_id@
                    == history[i].parts@[p]->TurnSnapshotPatch_turn_id@
                &&& plan.restores@[r].snapshot_id@
                    == history[j].parts@[q]->TurnSnapshotStart_snapshot_id@
                &&& plan.restores@[r].paths@.len()
                    == history[i].parts@[p]->TurnSnapshotPatch_changed_paths@.len()
                &&& forall|k: int|
                    0 <= k < plan.restores@[r].paths@.len() ==> (
                    #[trigger] plan.restores@[r].paths@[k])@
                        == history[i].parts@[p]->TurnSnapshotPatch_changed_paths@[k]@
            },
{
    let turn = history[i].parts@[p]->TurnSnapshotPatch_turn_id@;
    let after = history.subrange(at + 1, history.len() as int);
    let none = Seq::<ChildHistory>::empty();
    assert(after[j - at - 1] == history[j]);
    assert(after[i - at - 1] == history[i]);
    assert forall|m: int, n: int|
        #![trigger after[m].parts@[n]]
        j - at - 1 <= m < after.len() && 0 <= n < after[m].parts@.len() && (m > j - at - 1 || n
            > q) && after[m].parts@[n] is TurnSnapshotStart implies after[m].parts@[n]->TurnSnapshotStart_turn_id@
        != turn by {
        assert(after[m].parts@[n] == history[m + at + 1].parts@[n]);
    }
    assert(starts_last(after, turn, j - at - 1, q));
    lemma_starts_last(Map::empty(), after, turn, j - at - 1, q);
    lemma_part_at(after, i - at - 1, p);
    let y = lemma_patch_found(
        known_starts(session_id, after, none),
        parts_of(after),
        offset(after, i - at - 1) + p,
    );
    let z = lemma_found_in_session(session_id, after, children, y);
    let r = lemma_found_is_restored(session_id, history, message_id, children, plan, at, z);
    lemma_same_paths(
        plan.restores@[r].paths@,
        history[i].parts@[p]->TurnSnapshotPatch_changed_paths@,
    );
    assert(plan.restores@[r].turn_id@ == turn);
}

/// A child that goes on with a turn that the session itself started has its changes put back
/// to the snapshot with which the session started the turn, where no child has started it
/// anew.
pub proof fn law_children_go_on_with_turns_of_the_session(
    session_id: Seq<char>,
    history: Seq<AgentMessage>,
    message_id: Seq<char>,
    child: ChildHistory,
    plan: UndoPlan,
    at: int,
    told: Seq<AgentMessage>,
    i: int,
    p: int,
    j: int,
    q: int,
)
    requires
        is_plan(session_id, history, message_id, seq![child], plan),
        0 <= at < history.len(),
        history[at].id@ == message_id,
        forall|m: int| 0 <= m < at ==> (#[trigger] history[m]).id@ != message_id,
        child.session_id@ != session_id,
        child.history is Some,
        child.history->Some_0@ == told,
        0 <= i < told.len(),
        0 <= p < told[i].parts@.len(),
        told[i].parts@[p] is TurnSnapshotPatch,
        forall|m: int, n: int|
            #![trigger told[m].parts@[n]]
            0 <= m < told.len() && 0 <= n < told[m].parts@.len()
                && told[m].parts@[n] is TurnSnapshotStart
                ==> told[m].parts@[n]->TurnSnapshotStart_turn_id@
                != told[i].parts@[p]->TurnSnapshotPatch_turn_id@,
        at < j < history.len(),
        0 <= q < history[j].parts@.len(),
        history[j].parts@[q] is TurnSnapshotStart,
        history[j].parts@[q]->TurnSnapshotStart_turn_id@
            == told[i].parts@[p]->TurnSnapshotPatch_turn_id@,
        forall|m: int, n: int|
            #![trigger history[m].parts@[n]]
            j <= m < history.len() && 0 <= n < history[m].parts@.len() && (m > j || n > q)
                && history[m].parts@[n] is TurnSnapshotStart
                ==> history[m].parts@[n]->TurnSnapshotStart_turn_id@
                != told[i].parts@[p]->TurnSnapshotPatch_turn_id@,
    ensures
        exists|r: int|
            {
                &&& 0 <= r < plan.restores@.len()
                &&& (#[trigger] plan.restores@[r]).turn_id@
                    == told[i].parts@[p]->TurnSnapshotPatch_turn_id@
                &&& plan.restores@[r].snapshot_id@
                    == history[j].parts@[q]->TurnSnapshotStart_snapshot_id@
            },
{
    let children = seq![child];
    let turn = told[i].parts@[p]->TurnSnapshotPatch_turn_id@;
    let after = history.subrange(at + 1, history.len() as int);
    assert(after[j - at - 1] == history[j]);
    assert forall|m: int, n: int|
        #![trigger after[m].parts@[n]]
        j - at - 1 <= m < after.len() && 0 <= n < after[m].parts@.len() && (m > j - at - 1 || n
            > q) && after[m].parts@[n] is TurnSnapshotStart implies after[m].parts@[n]->TurnSnapshotStart_turn_id@
        != turn by {
        assert(after[m].parts@[n] == history[m + at + 1].parts@[n]);
    }
    assert(starts_last(after, turn, j - at - 1, q));
    lemma_starts_last(Map::empty(), after, turn, j - at - 1, q);
    assert(children.drop_last() =~= Seq::<ChildHistory>::empty());
    let known = known_starts(session_id, after, Seq::empty());
    let parts = parts_of(told);
    assert forall|y: int|
        0 <= y < parts.len() && (#[trigger] parts[y]) is TurnSnapshotStart implies parts[y]->TurnSnapshotStart_turn_id@
        != turn by {
        let from = lemma_part_from(told, y, 0, 0);
        assert(told[from.0].parts@[from.1] is TurnSnapshotStart);
    }
    lemma_no_start(known, parts, turn);
    assert(children.take(1) =~= children);
    assert(scanned(session_id, after, children[0]) == told);
    lemma_part_at(told, i, p);
    let y = lemma_patch_found(
        known_starts(session_id, after, children),
        parts,
        offset(told, i) + p,
    );
    let z = lemma_found_in_child(session_id, after, children, 0, y);
    let r = lemma_found_is_restored(session_id, history, message_id, children, plan, at, z);
    assert(plan.restores@[r].turn_id@ == turn);
}

/// Whether message `i` holds the change of a turn with these paths in part `p`.
spec fn is_change(history: Seq<AgentMessage>, i: int, p: int, restore: Restore) -> bool {
    &&& 0 <= i < history.len()
    &&& 0 <= p < history[i].parts@.len()
    &&& history[i].parts@[p] is TurnSnapshotPatch
    &&& history[i].parts@[p]->TurnSnapshotPatch_turn_id@ == restore.turn
    &&& text::texts(history[i].parts@[p]->TurnSnapshotPatch_changed_paths@) == restore.paths
}

proof fn lemma_found_from(
    session_id: Seq<char>,
    after: Seq<AgentMessage>,
    children: Seq<ChildHistory>,
    z: int,
) -> (at: (int, int, int))
    requires
        0 <= z < found_patches(session_id, after, children).len(),
    ensures
        ({
            let found = found_patches(session_id, after, children)[z];
            ||| at.0 == -1 && is_change(after, at.1, at.2, found)
            ||| 0 <= at.0 < children.len() && children[at.0].session_id@ != session_id
                && children[at.0].history is Some && is_change(
                children[at.0].history->Some_0@,
                at.1,
                at.2,
                found,
            )
        }),
    decreases children.len(),
{
    let own = found_patches(session_id, after, children)[z];
    if children.len() == 0 {
        let x = lemma_found_patch(
            known_starts(session_id, after, children),
            parts_of(after),
            z,
        );
        let at = lemma_part_from(after, x, 0, 0);
        assert(is_change(after, at.0, at.1, own));
        (-1, at.0, at.1)
    } else {
        let before = found_patches(session_id, after, children.drop_last());
        if z < before.len() {
            let at = lemma_found_from(session_id, after, children.drop_last(), z);
            if at.0 >= 0 {
                assert(children.drop_last()[at.0] == children[at.0]);
            }
            at
        } else {
            let child = children.last();
            let history = scanned(session_id, after, child);
            let x = lemma_found_patch(
                known_starts(session_id, after, children),
                parts_of(history),
                z - before.len(),
            );
            let at = lemma_part_from(history, x, 0, 0);
            assert(is_change(history, at.0, at.1, own));
            if child.session_id@ == session_id {
                (-1, at.0, at.1)
            } else {
                (children.len() - 1, at.0, at.1)
            }
        }
    }
}

/// Nothing else is undone: every restore of a plan is of a change that the session made
/// behind the message, or of one that a child of another id made. `found` tells where the
/// change stands: the child, or -1 for the session itself, the message and the part.
pub proof fn law_only_changes_are_undone(
    session_id: Seq<char>,
    history: Seq<AgentMessage>,
    message_id: Seq<char>,
    children: Seq<ChildHistory>,
    plan: UndoPlan,
    at: int,
    r: int,
) -> (found: (int, int, int))
    requires
        is_plan(session_id, history, message_id, children, plan),
        0 <= at < history.len(),
        history[at].id@ == message_id,
        forall|m: int| 0 <= m < at ==> (#[trigger] history[m]).id@ != message_id,
        0 <= r < plan.restores@.len(),
    ensures
        ({
            let told = if found.0 == -1 {
                history
            } else {
                children[found.0].history->Some_0@
            };
            &&& found.0 == -1 ==> found.1 > at
            &&& found.0 != -1 ==> 0 <= found.0 < children.len() && children[found.0].session_id@
                != session_id && children[found.0].history is Some
            &&& 0 <= found.1 < told.len()
            &&& 0 <= found.2 < told[found.1].parts@.len()
            &&& told[found.1].parts@[found.2] matches MessagePart::TurnSnapshotPatch {
                turn_id,
                changed_paths,
                ..
            }
            &&& plan.restores@[r].turn_id@ == turn_id@
            &&& plan.restores@[r].paths@.len() == changed_paths@.len()
            &&& forall|k: int|
                0 <= k < changed_paths@.len() ==> (#[trigger] plan.restores@[r].paths@[k])@
                    == changed_paths@[k]@
        }),
{
    let target = choose|target: int|
        #![trigger first_at(history, message_id, target)]
        first_at(history, message_id, target) && restores_view(plan.restores@) == restores_after(
            session_id,
            history,
            target,
            children,
        );
    assert(target == at) by {
        assert(history[target].id@ == message_id);
        assert(history[at].id@ == message_id);
    }
    let after = history.subrange(at + 1, history.len() as int);
    let all = found_patches(session_id, after, children);
    let z = all.len() - 1 - r;
    assert(restores_view(plan.restores@)[r] == restore_view(plan.restores@[r]));
    assert(restores_view(plan.restores@).len() == plan.restores@.len());
    assert(all.reverse()[r] == all[z]);
    let from = lemma_found_from(session_id, after, children, z);
    if from.0 == -1 {
        assert(after[from.1] == history[from.1 + at + 1]);
        lemma_same_paths(
            plan.restores@[r].paths@,
            after[from.1].parts@[from.2]->TurnSnapshotPatch_changed_paths@,
        );
        (-1, from.1 + at + 1, from.2)
    } else {
        lemma_same_paths(
            plan.restores@[r].paths@,
            children[from.0].history->Some_0@[from.1].parts@[from.2]->TurnSnapshotPatch_changed_paths@,
        );
        from
    }
}

/// What was changed last is undone first: where one more message with a change is stored, of
/// a turn that has been started behind the message, its restore comes before all that were
/// due without it.
pub proof fn law_the_last_change_is_undone_first(
    session_id: Seq<char>,
    history: Seq<AgentMessage>,
    target: int,
    message: AgentMessage,
    j: int,
    q: int,
)
    requires
        0 <= target < j < history.len(),
        message.parts@.len() == 1,
        message.parts@[0] is TurnSnapshotPatch,
        0 <= q < history[j].parts@.len(),
        history[j].parts@[q] is TurnSnapshotStart,
        history[j].parts@[q]->TurnSnapshotStart_turn_id@
            == message.parts@[0]->TurnSnapshotPatch_turn_id@,
        forall|m: int, n: int|
            #![trigger history[m].parts@[n]]
            j <= m < history.len() && 0 <= n < history[m].parts@.len() && (m > j || n > q)
                && history[m].parts@[n] is TurnSnapshotStart
                ==> history[m].parts@[n]->TurnSnapshotStart_turn_id@
                != message.parts@[0]->TurnSnapshotPatch_turn_id@,
    ensures
        ({
            let before = restores_after(session_id, history, target, Seq::empty());
            let now = restores_after(session_id, history.push(message), target, Seq::empty());
            &&& now.len() == before.len() + 1
            &&& now[0].turn == message.parts@[0]->TurnSnapshotPatch_turn_id@
            &&& now[0].snapshot == history[j].parts@[q]->TurnSnapshotStart_snapshot_id@
            &&& now[0].paths == text::texts(message.parts@[0]->TurnSnapshotPatch_changed_paths@)
            &&& now.drop_first() == before
        }),
{
    let turn = message.parts@[0]->TurnSnapshotPatch_turn_id@;
    let after = history.subrange(target + 1, history.len() as int);
    let longer = history.push(message).subrange(target + 1, history.len() as int + 1);
    assert(longer =~= after.push(message));
    assert(longer.drop_last() =~= after);
    let parts = parts_of(after);
    assert(parts_of(longer) =~= parts.push(message.parts@[0]));
    assert(after[j - target - 1] == history[j]);
    assert forall|m: int, n: int|
        #![trigger after[m].parts@[n]]
        j - target - 1 <= m < after.len() && 0 <= n < after[m].parts@.len() && (m > j - target - 1
            || n > q) && after[m].parts@[n] is TurnSnapshotStart implies after[m].parts@[n]->TurnSnapshotStart_turn_id@
        != turn by {
        assert(after[m].parts@[n] == history[m + target + 1].parts@[n]);
    }
    assert(starts_last(after, turn, j - target - 1, q));
    lemma_starts_last(Map::empty(), after, turn, j - target - 1, q);
    assert(parts.push(message.parts@[0]).drop_last() =~= parts);
    let none = Seq::<ChildHistory>::empty();
    let known = known_starts(session_id, after, none);
    assert(known_starts(session_id, longer, none) == known);
    let found = found_patches(session_id, after, none);
    let all = found_patches(session_id, longer, none);
    assert(all.len() == found.len() + 1);
    assert(all.drop_last() =~= found);
    assert(all.reverse().drop_first() =~= found.reverse());
}

/// Where no change is to be put back turn by turn, the plan falls back on the first snapshot
/// that the message itself tells of, and on nothing where it tells of none.
pub proof fn law_plans_fall_back_on_the_message(
    session_id: Seq<char>,
    history: Seq<AgentMessage>,
    message_id: Seq<char>,
    children: Seq<ChildHistory>,
    plan: UndoPlan,
    at: int,
    p: int,
)
    requires
        is_plan(session_id, history, message_id, children, plan),
        0 <= at < history.len(),
        history[at].id@ == message_id,
        forall|m: int| 0 <= m < at ==> (#[trigger] history[m]).id@ != message_id,
        0 <= p <= history[at].parts@.len(),
        forall|n: int|
            0 <= n < p ==> !((#[trigger] history[at].parts@[n]) is TurnSnapshotPatch),
        p < history[at].parts@.len() ==> history[at].parts@[p] is TurnSnapshotPatch,
    ensures
        plan.restores@.len() > 0 ==> plan.fallback is None,
        plan.restores@.len() == 0 && p < history[at].parts@.len() ==> (plan.fallback matches Some(
            snapshot,
        ) && snapshot@ == history[at].parts@[p]->TurnSnapshotPatch_snapshot_id@),
        plan.restores@.len() == 0 && p == history[at].parts@.len() ==> plan.fallback is None,
{
    let target = choose|target: int|
        {
            &&& #[trigger] first_at(history, message_id, target)
            &&& restores_view(plan.restores@) == restores_after(
                session_id,
                history,
                target,
                children,
            )
            &&& match plan.fallback {
                Some(s) => plan.restores@.len() == 0 && first_patch_snapshot(
                    history[target].parts@,
                ) == Some(s@),
                None => plan.restores@.len() > 0 || first_patch_snapshot(
                    history[target].parts@,
                ) is None,
            }
        };
    assert(target == at) by {
        assert(history[target].id@ == message_id);
        assert(history[at].id@ == message_id);
    }
    lemma_first_patch(history[at].parts@, p);
}

proof fn lemma_first_patch(parts: Seq<MessagePart>, p: int)
    requires
        0 <= p <= parts.len(),
        forall|n: int| 0 <= n < p ==> !((#[trigger] parts[n]) is TurnSnapshotPatch),
        p < parts.len() ==> parts[p] is TurnSnapshotPatch,
    ensures
        p < parts.len() ==> first_patch_snapshot(parts) == Some(
            parts[p]->TurnSnapshotPatch_snapshot_id@,
        ),
        p == parts.len() ==> first_patch_snapshot(parts) is None,
    decreases parts.len(),
{
    if p > 0 {
        let rest = parts.drop_first();
        assert(parts.first() == parts[0]);
        assert forall|n: int| 0 <= n < p - 1 implies !((
        #[trigger] rest[n]) is TurnSnapshotPatch) by {
            assert(rest[n] == parts[n + 1]);
        }
        lemma_first_patch(rest, p - 1);
    }
}

/// A session can go back exactly to the messages of its history.
pub proof fn law_messages_are_known_by_their_ids(history: Seq<AgentMessage>, message_id: Seq<char>)
    ensures
        has_message(history, message_id) <==> history.map_values(
            |m: AgentMessage| m.id@,
        ).contains(message_id),
{
    let ids = history.map_values(|m: AgentMessage| m.id@);
    if has_message(history, message_id) {
        let i = choose|i: int| 0 <= i < history.len() && (#[trigger] history[i]).id@ == message_id;
        assert(ids[i] == message_id);
    }
    if ids.contains(message_id) {
        let i = choose|i: int| 0 <= i < ids.len() && ids[i] == message_id;
        assert(history[i].id@ == message_id);
    }
}

/// A failed undo or redo says what failed in its own words, but for a session that has no
/// snapshots or no work tree, of which nothing is said.
pub proof fn law_undo_failures_say_what_failed(error: UndoError)
    ensures
        error matches UndoError::MessageNotFound { message_id } ==> failure_text(error) == Some(
            "Message not found: "@ + message_id@,
        ),
        error is NothingToRedo ==> failure_text(error) == Some("Nothing to redo"@),
        error matches UndoError::Backend(reason) ==> failure_text(error) == Some(reason@),
        error is NoSnapshotBackend || error is NoWorkingDirectory ==> failure_text(error) is None,
{
}

/// The files that are told as reverted are those of the restores that succeeded: each
/// restore that did adds its paths at the end, and one that failed adds none.
pub proof fn law_successful_restores_are_told(restores: Seq<Restore>, succeeded: Seq<bool>)
    requires
        restores.len() == succeeded.len(),
    ensures
        restores.len() == 0 ==> reverted(restores, succeeded).len() == 0,
        restores.len() > 0 && succeeded.last() ==> reverted(restores, succeeded) == reverted(
            restores.drop_last(),
            succeeded.drop_last(),
        ) + restores.last().paths,
        restores.len() > 0 && !succeeded.last() ==> reverted(restores, succeeded) == reverted(
            restores.drop_last(),
            succeeded.drop_last(),
        ),
{
    if restores.len() > 0 {
        lemma_reverted_depends(restores.drop_last(), succeeded, succeeded.drop_last());
    }
}

proof fn lemma_reverted_depends(restores: Seq<Restore>, a: Seq<bool>, b: Seq<bool>)
    requires
        restores.len() <= a.len(),
        restores.len() <= b.len(),
        forall|i: int| 0 <= i < restores.len() ==> a[i] == b[i],
    ensures
        reverted(restores, a) == reverted(restores, b),
    decreases restores.len(),
{
    if restores.len() > 0 {
        lemma_reverted_depends(restores.drop_last(), a, b);
        assert(a[restores.len() - 1] == b[restores.len() - 1]);
    }
}

/// A new prompt after an undo cuts the history off right before the message that the undo
/// went back to, and the journal where it tells of that message's prompt first; without an
/// undo it leaves both alone.
pub proof fn law_prompts_cut_off_what_was_undone(
    frames: Seq<RevertState>,
    history: Seq<AgentMessage>,
    journal: Seq<JournalEvent>,
    frames_after: Seq<RevertState>,
    history_after: Seq<AgentMessage>,
    journal_after: Seq<JournalEvent>,
    at: int,
)
    requires
        cleaned_up(frames, history, journal, frames_after, history_after, journal_after),
        0 <= at < history.len(),
    ensures
        frames.len() == 0 ==> frames_after == frames && history_after == history && journal_after
            == journal,
        frames.len() > 0 && history[at].id@ == frames.last().message_id@ && (forall|i: int|
            0 <= i < at ==> (#[trigger] history[i]).id@ != frames.last().message_id@)
            ==> history_after == history.take(at),
        frames.len() > 0 && (forall|i: int|
            0 <= i < history.len() ==> (#[trigger] history[i]).id@ != frames.last().message_id@)
            ==> history_after == history,
{
    if frames.len() > 0 && history[at].id@ == frames.last().message_id@ {
        let id = frames.last().message_id@;
        assert(has_message(history, id));
        let cut = choose|cut: int| #[trigger]
            first_at(history, id, cut) && history_after == history.take(cut);
        assert(history[cut].id@ == id);
    }
}

/// The journal keeps, in order, exactly what it told before the prompt that was undone.
pub proof fn law_journals_keep_what_came_before(
    frames: Seq<RevertState>,
    history: Seq<AgentMessage>,
    journal: Seq<JournalEvent>,
    frames_after: Seq<RevertState>,
    history_after: Seq<AgentMessage>,
    journal_after: Seq<JournalEvent>,
    at: int,
)
    requires
        cleaned_up(frames, history, journal, frames_after, history_after, journal_after),
        in_order(journal),
        frames.len() > 0,
        0 <= at <= journal.len(),
        forall|i: int|
            0 <= i < at ==> ((#[trigger] journal[i]).prompt_message_id matches Some(id) ==> id@
                != frames.last().message_id@),
        at < journal.len() ==> (journal[at].prompt_message_id matches Some(id) && id@
            == frames.last().message_id@),
    ensures
        journal_after == journal.take(at),
{
    let id = frames.last().message_id@;
    let from = choose|from: Option<i64>|
        {
            &&& #[trigger] is_prune_point(journal, id, from)
            &&& journal_after == match from {
                Some(from) => pruned(journal, from),
                None => journal,
            }
        };
    if at < journal.len() {
        assert(records_prompt(journal[at], id));
        assert(from is Some);
        let point = choose|point: int| #[trigger]
            first_prompt_at(journal, id, point) && journal[point].stream_seq == from->Some_0;
        assert(records_prompt(journal[point], id));
        assert(point == at);
        lemma_pruned_is_a_prefix(journal, at);
    } else {
        if from is Some {
            let point = choose|point: int| #[trigger]
                first_prompt_at(journal, id, point) && journal[point].stream_seq == from->Some_0;
            assert(records_prompt(journal[point], id));
            assert(false);
        }
        assert(journal.take(at) =~= journal);
    }
}

} // verus!
