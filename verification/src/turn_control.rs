//! Steering of a running turn: a bounded inbox for inputs that arrive while it runs.
use vstd::prelude::*;

use crate::model::ContentBlock;
use crate::text;
use crate::text::{decimal_string, trim_start};
use std::collections::VecDeque;
use std::time::{Duration, SystemTime};
use tokio_util::sync::CancellationToken;

verus! {

/// The number of inputs that an inbox holds at most.
pub const MAX_STEERING_MESSAGES: usize = 32;

/// The number of bytes that the inputs of an inbox have at most, together.
pub const MAX_STEERING_BYTES: usize = 262_144;

/// The number of bytes that one input has at most.
pub const MAX_STEERING_INPUT_BYTES: usize = 65_536;

/// A point of time of the system clock.
#[verifier::external_type_specification]
#[verifier::external_body]
pub struct ExSystemTime(std::time::SystemTime);

/// Calls `SystemTime::now`. Nothing is claimed of the time it gives.
#[verifier::external_body]
fn system_now() -> SystemTime {
    SystemTime::now()
}

/// Calls `SystemTime::duration_since` with the Unix epoch. A clock that is set before the
/// epoch gives nothing. Nothing is claimed of the span it gives.
#[verifier::external_body]
fn since_unix_epoch(time: SystemTime) -> Option<Duration> {
    time.duration_since(std::time::UNIX_EPOCH).ok()
}

/// Calls `Duration::as_millis`. Nothing is claimed of the count it gives.
#[verifier::external_body]
fn whole_millis(span: Duration) -> u128 {
    span.as_millis()
}

/// How an input is to reach the agent.
#[derive(Debug, Clone, Copy, PartialEq, Eq, Structural)]
pub enum InputDelivery {
    Steer,
    Queue,
}

/// An input that a client submits.
#[derive(Debug)]
pub struct SubmitInput {
    pub session_id: String,
    pub client_input_id: Option<String>,
    pub expected_run_id: Option<String>,
    pub delivery: InputDelivery,
    pub prompt: Vec<ContentBlock>,
}

/// What became of a submitted input.
#[derive(Debug, Clone, PartialEq, Eq)]
pub enum SubmitInputResult {
    Steered { run_id: String, input_id: String, position: u32 },
    Queued { input_id: String, position: u32 },
    Started { run_id: String, input_id: String },
}

/// Where a run stands.
#[derive(Debug, Clone, Copy, PartialEq, Eq, Structural)]
pub enum RunPhase {
    Starting,
    Model,
    Tools,
    Waiting,
    Closing,
}

/// Why an input was not taken.
#[derive(Debug, Clone, PartialEq, Eq)]
pub enum TurnControlError {
    NoActiveRun,
    ExpectedRunIdRequired,
    RunMismatch { expected: String, active: String },
    RunClosing { run_id: String },
    QueueFull,
    InputTooLarge { bytes: usize, max_bytes: usize },
    SlashCommandNotSteerable,
    SessionMismatch { expected: String, received: String },
}

/// The words for an error.
pub open spec fn error_text(error: TurnControlError) -> Seq<char> {
    match error {
        TurnControlError::NoActiveRun => "there is no active run to steer"@,
        TurnControlError::ExpectedRunIdRequired => "expected_run_id is required for steering"@,
        TurnControlError::RunMismatch { expected, active } => "active run mismatch: expected "@
            + expected@ + ", active "@ + active@,
        TurnControlError::RunClosing { run_id } => "run "@ + run_id@
            + " is closing and no longer accepts steering"@,
        TurnControlError::QueueFull => "steering queue is full"@,
        TurnControlError::InputTooLarge { bytes, max_bytes } => "steering input is too large ("@
            + text::decimal(bytes as nat) + " bytes, maximum "@ + text::decimal(max_bytes as nat)
            + ")"@,
        TurnControlError::SlashCommandNotSteerable =>
            "slash commands cannot be delivered as steering; queue the input instead"@,
        TurnControlError::SessionMismatch { expected, received } =>
            "submission session mismatch: expected "@ + expected@ + ", received "@ + received@,
    }
}

impl TurnControlError {
    /// The words for the error.
    pub fn message(&self) -> (out: String)
        ensures
            out@ == error_text(*self),
    {
        match self {
            TurnControlError::NoActiveRun => "there is no active run to steer".to_string(),
            TurnControlError::ExpectedRunIdRequired => {
                "expected_run_id is required for steering".to_string()
            },
            TurnControlError::RunMismatch { expected, active } => {
                let mut out = "active run mismatch: expected ".to_string();
                out.append(expected.as_str());
                out.append(", active ");
                out.append(active.as_str());
                out
            },
            TurnControlError::RunClosing { run_id } => {
                let mut out = "run ".to_string();
                out.append(run_id.as_str());
                out.append(" is closing and no longer accepts steering");
                out
            },
            TurnControlError::QueueFull => "steering queue is full".to_string(),
            TurnControlError::InputTooLarge { bytes, max_bytes } => {
                let mut out = "steering input is too large (".to_string();
                let bytes_text = decimal_string(*bytes as u64);
                let max_text = decimal_string(*max_bytes as u64);
                out.append(bytes_text.as_str());
                out.append(" bytes, maximum ");
                out.append(max_text.as_str());
                out.append(")");
                out
            },
            TurnControlError::SlashCommandNotSteerable => {
                "slash commands cannot be delivered as steering; queue the input instead".to_string()
            },
            TurnControlError::SessionMismatch { expected, received } => {
                let mut out = "submission session mismatch: expected ".to_string();
                out.append(expected.as_str());
                out.append(", received ");
                out.append(received.as_str());
                out
            },
        }
    }
}

/// An input that waits in an inbox.
#[derive(Debug)]
pub struct SteeringInput {
    pub input_id: String,
    pub client_input_id: Option<String>,
    pub blocks: Vec<ContentBlock>,
    pub accepted_at_ms: u64,
}

/// A block that reads as a slash command: text whose first character that is no white
/// space is a slash.
pub open spec fn is_slash_command(block: ContentBlock) -> bool {
    match block {
        ContentBlock::Text(text) => {
            let trimmed = text::trimmed_start(text@);
            trimmed.len() > 0 && trimmed[0] == '/'
        },
        _ => false,
    }
}

/// One of the blocks reads as a slash command.
pub open spec fn has_slash_command(blocks: Seq<ContentBlock>) -> bool {
    exists|i: int| 0 <= i < blocks.len() && is_slash_command(#[trigger] blocks[i])
}

fn any_slash_command(blocks: &Vec<ContentBlock>) -> (yes: bool)
    ensures
        yes == has_slash_command(blocks@),
{
    let mut i: usize = 0;
    while i < blocks.len()
        invariant
            i <= blocks@.len(),
            forall|j: int| 0 <= j < i ==> !is_slash_command(#[trigger] blocks@[j]),
        decreases blocks@.len() - i,
    {
        let slash = match &blocks[i] {
            ContentBlock::Text(text) => {
                let trimmed = trim_start(text.as_str());
                !trimmed.as_str().is_empty() && trimmed.as_str().get_char(0) == '/'
            },
            _ => false,
        };
        if slash {
            assert(is_slash_command(blocks@[i as int]));
            return true;
        }
        i = i + 1;
    }
    false
}

/// A bounded inbox for inputs to a running turn. It keeps them in the order in which they
/// came, and takes no more once it is closed.
#[derive(Debug)]
pub struct SteeringInbox {
    pub accepting: bool,
    pub total_bytes: usize,
    pub pending: VecDeque<SteeringInput>,
}

/// Why an inbox refuses an input.
pub ghost enum Refusal {
    TooLarge,
    SlashCommand,
    Closing,
    Full,
}

/// Why an inbox refuses an input of `bytes` bytes, if it does. The input itself is looked
/// at first, then whether the inbox is open, then whether it has room.
pub open spec fn refusal(
    inbox: SteeringInbox,
    blocks: Seq<ContentBlock>,
    bytes: usize,
) -> Option<Refusal> {
    if bytes > MAX_STEERING_INPUT_BYTES {
        Some(Refusal::TooLarge)
    } else if has_slash_command(blocks) {
        Some(Refusal::SlashCommand)
    } else if !inbox.accepting {
        Some(Refusal::Closing)
    } else if inbox.pending@.len() >= MAX_STEERING_MESSAGES || inbox.total_bytes + bytes
        > MAX_STEERING_BYTES {
        Some(Refusal::Full)
    } else {
        None
    }
}

/// `error` tells of `refusal`. The inbox does not know the run that is closing.
pub open spec fn tells(error: TurnControlError, refusal: Refusal, bytes: usize) -> bool {
    match refusal {
        Refusal::TooLarge => error == (TurnControlError::InputTooLarge {
            bytes,
            max_bytes: MAX_STEERING_INPUT_BYTES,
        }),
        Refusal::SlashCommand => error == TurnControlError::SlashCommandNotSteerable,
        Refusal::Closing => error is RunClosing && error->RunClosing_run_id@ == Seq::<
            char,
        >::empty(),
        Refusal::Full => error == TurnControlError::QueueFull,
    }
}

/// `after` is `before` with one more input, of `bytes` bytes, behind the others.
pub open spec fn takes(
    before: SteeringInbox,
    input: SteeringInput,
    bytes: usize,
    after: SteeringInbox,
) -> bool {
    &&& refusal(before, input.blocks@, bytes) is None
    &&& after.accepting
    &&& after.total_bytes == before.total_bytes + bytes
    &&& after.pending@ == before.pending@.push(input)
}

/// Every input was handed out, oldest first, and none waits any more.
pub open spec fn hands_out(
    before: SteeringInbox,
    inputs: Seq<SteeringInput>,
    after: SteeringInbox,
) -> bool {
    &&& inputs == before.pending@
    &&& after.pending@ == Seq::<SteeringInput>::empty()
    &&& after.total_bytes == 0
}

impl SteeringInbox {
    /// The inbox is within its limits.
    pub open spec fn wf(&self) -> bool {
        &&& self.pending@.len() <= MAX_STEERING_MESSAGES
        &&& self.total_bytes <= MAX_STEERING_BYTES
    }

    /// An open inbox without inputs.
    pub fn new() -> (inbox: Self)
        ensures
            inbox.wf(),
            inbox.accepting,
            inbox.total_bytes == 0,
            inbox.pending@ == Seq::<SteeringInput>::empty(),
    {
        SteeringInbox { accepting: true, total_bytes: 0, pending: VecDeque::new() }
    }

    /// Takes an input that was accepted at the given time, and returns its position in the
    /// inbox, counted from one. `bytes` is the size of the input as it is transmitted.
    pub fn push_at(
        &mut self,
        input_id: String,
        client_input_id: Option<String>,
        blocks: Vec<ContentBlock>,
        bytes: usize,
        accepted_at_ms: u64,
    ) -> (position: Result<usize, TurnControlError>)
        requires
            old(self).wf(),
        ensures
            final(self).wf(),
            match position {
                Ok(position) => {
                    &&& takes(
                        *old(self),
                        SteeringInput { input_id, client_input_id, blocks, accepted_at_ms },
                        bytes,
                        *final(self),
                    )
                    &&& position == final(self).pending@.len()
                },
                Err(error) => {
                    &&& *final(self) == *old(self)
                    &&& refusal(*old(self), blocks@, bytes) matches Some(refusal)
                    &&& tells(error, refusal, bytes)
                },
            },
    {
        if bytes > MAX_STEERING_INPUT_BYTES {
            return Err(
                TurnControlError::InputTooLarge { bytes, max_bytes: MAX_STEERING_INPUT_BYTES },
            );
        }
        if any_slash_command(&blocks) {
            return Err(TurnControlError::SlashCommandNotSteerable);
        }
        if !self.accepting {
            return Err(TurnControlError::RunClosing { run_id: String::new() });
        }
        if self.pending.len() >= MAX_STEERING_MESSAGES || self.total_bytes.saturating_add(bytes)
            > MAX_STEERING_BYTES {
            return Err(TurnControlError::QueueFull);
        }
        self.total_bytes = self.total_bytes + bytes;
        self.pending.push_back(SteeringInput { input_id, client_input_id, blocks, accepted_at_ms });
        Ok(self.pending.len())
    }

    /// Takes an input at the current time, and returns its position in the inbox, counted
    /// from one. The time that is noted is what the system clock says.
    pub fn push(
        &mut self,
        input_id: String,
        client_input_id: Option<String>,
        blocks: Vec<ContentBlock>,
        bytes: usize,
    ) -> (position: Result<usize, TurnControlError>)
        requires
            old(self).wf(),
        ensures
            final(self).wf(),
            match position {
                Ok(position) => {
                    &&& takes(*old(self), final(self).pending@.last(), bytes, *final(self))
                    &&& position == final(self).pending@.len()
                    &&& final(self).pending@.last().input_id == input_id
                    &&& final(self).pending@.last().client_input_id == client_input_id
                    &&& final(self).pending@.last().blocks == blocks
                },
                Err(error) => {
                    &&& *final(self) == *old(self)
                    &&& refusal(*old(self), blocks@, bytes) matches Some(refusal)
                    &&& tells(error, refusal, bytes)
                },
            },
    {
        let now: u64 = now_ms();
        self.push_at(input_id, client_input_id, blocks, bytes, now)
    }

    /// Hands out every input that waits, oldest first.
    pub fn drain(&mut self) -> (inputs: Vec<SteeringInput>)
        ensures
            hands_out(*old(self), inputs@, *final(self)),
            final(self).accepting == old(self).accepting,
            final(self).wf(),
    {
        self.total_bytes = 0;
        let mut inputs: Vec<SteeringInput> = Vec::new();
        let ghost all = self.pending@;
        let ghost accepting = self.accepting;
        while self.pending.len() > 0
            invariant
                inputs@ + self.pending@ == all,
                self.total_bytes == 0,
                self.accepting == accepting,
            decreases self.pending@.len(),
        {
            match self.pending.pop_front() {
                Some(input) => {
                    inputs.push(input);
                    assert(inputs@ + self.pending@ =~= all);
                },
                None => {},
            }
        }
        assert(self.pending@ =~= Seq::empty());
        assert(inputs@ =~= all);
        inputs
    }

    /// The number of inputs that wait.
    pub fn pending_count(&self) -> (n: usize)
        ensures
            n == self.pending@.len(),
    {
        self.pending.len()
    }

    /// Closes the inbox and hands out every input that waits, oldest first.
    pub fn begin_closing_and_drain(&mut self) -> (inputs: Vec<SteeringInput>)
        ensures
            hands_out(*old(self), inputs@, *final(self)),
            !final(self).accepting,
            final(self).wf(),
    {
        self.accepting = false;
        self.drain()
    }

    /// Closes the inbox and hands out every input that waits, oldest first.
    pub fn discard(&mut self) -> (inputs: Vec<SteeringInput>)
        ensures
            hands_out(*old(self), inputs@, *final(self)),
            !final(self).accepting,
            final(self).wf(),
    {
        self.begin_closing_and_drain()
    }
}

impl Default for SteeringInbox {
    fn default() -> (inbox: Self)
        ensures
            inbox.wf(),
            inbox.accepting,
            inbox.total_bytes == 0,
            inbox.pending@ == Seq::<SteeringInput>::empty(),
    {
        SteeringInbox::new()
    }
}

/// A run that is under way.
#[derive(Debug)]
pub struct ActiveRun {
    pub run_id: String,
    pub generation: u64,
    pub cancellation: CancellationToken,
    pub steering: SteeringInbox,
    pub phase: RunPhase,
    pub started_at_ms: u64,
}

impl ActiveRun {
    /// A run that starts at the given time.
    pub fn starting_at(
        run_id: String,
        generation: u64,
        cancellation: CancellationToken,
        started_at_ms: u64,
    ) -> (run: Self)
        ensures
            run.run_id == run_id,
            run.generation == generation,
            run.cancellation == cancellation,
            run.phase == RunPhase::Starting,
            run.started_at_ms == started_at_ms,
            run.steering.wf(),
            run.steering.accepting,
            run.steering.pending@ == Seq::<SteeringInput>::empty(),
            run.steering.total_bytes == 0,
    {
        ActiveRun {
            run_id,
            generation,
            cancellation,
            steering: SteeringInbox::new(),
            phase: RunPhase::Starting,
            started_at_ms,
        }
    }

    /// A run that starts now, by the system clock.
    pub fn new(run_id: String, generation: u64, cancellation: CancellationToken) -> (run: Self)
        ensures
            run.run_id == run_id,
            run.generation == generation,
            run.cancellation == cancellation,
            run.phase == RunPhase::Starting,
            run.steering.wf(),
            run.steering.accepting,
            run.steering.pending@ == Seq::<SteeringInput>::empty(),
            run.steering.total_bytes == 0,
    {
        ActiveRun::starting_at(run_id, generation, cancellation, now_ms())
    }
}

/// A count of milliseconds as it is stored: zero where there is none, and the largest
/// number where it does not fit.
pub fn stored_millis(millis: Option<u128>) -> (stored: u64)
    ensures
        stored == match millis {
            None => 0,
            Some(m) => if m <= u64::MAX {
                m as u64
            } else {
                u64::MAX
            },
        },
{
    match millis {
        None => 0,
        Some(m) => if m <= u64::MAX as u128 {
            m as u64
        } else {
            u64::MAX
        },
    }
}

/// Milliseconds since the Unix epoch by the system clock, zero for a clock that is set
/// before the epoch.
pub fn now_ms() -> (millis: u64) {
    match since_unix_epoch(system_now()) {
        Some(span) => stored_millis(Some(whole_millis(span))),
        None => stored_millis(None),
    }
}

/// Inputs come out in the order in which they went in, and none is lost: whatever is handed
/// out after some inputs were taken is what waited before, and then those inputs.
pub proof fn law_inbox_preserves_order(
    states: Seq<SteeringInbox>,
    inputs: Seq<SteeringInput>,
    sizes: Seq<usize>,
    handed_out: Seq<SteeringInput>,
    after: SteeringInbox,
)
    requires
        states.len() == inputs.len() + 1,
        sizes.len() == inputs.len(),
        forall|i: int|
            0 <= i < inputs.len() ==> takes(
                states[i],
                #[trigger] inputs[i],
                sizes[i],
                states[i + 1],
            ),
        hands_out(states.last(), handed_out, after),
    ensures
        handed_out == states[0].pending@ + inputs,
    decreases inputs.len(),
{
    if inputs.len() == 0 {
        assert(handed_out =~= states[0].pending@ + inputs);
    } else {
        let n = inputs.len() - 1;
        assert(takes(states[n], inputs[n], sizes[n], states[n + 1]));
        let between = SteeringInbox { total_bytes: 0, pending: after.pending, ..states[n] };
        assert forall|i: int| 0 <= i < inputs.drop_last().len() implies takes(
            states.drop_last()[i],
            #[trigger] inputs.drop_last()[i],
            sizes.drop_last()[i],
            states.drop_last()[i + 1],
        ) by {
            assert(takes(states[i], inputs[i], sizes[i], states[i + 1]));
        }
        law_inbox_preserves_order(
            states.drop_last(),
            inputs.drop_last(),
            sizes.drop_last(),
            states[n].pending@,
            between,
        );
        assert(handed_out =~= states[0].pending@ + inputs);
    }
}

/// No input is ever refused for want of room while the inbox is empty and open, unless it is
/// too large by itself or is a command.
pub proof fn law_empty_inbox_has_room(
    before: SteeringInbox,
    handed_out: Seq<SteeringInput>,
    inbox: SteeringInbox,
    blocks: Seq<ContentBlock>,
    bytes: usize,
)
    requires
        hands_out(before, handed_out, inbox),
        inbox.accepting,
        bytes <= MAX_STEERING_INPUT_BYTES,
        !has_slash_command(blocks),
    ensures
        refusal(inbox, blocks, bytes) is None,
{
}

/// A closed inbox takes nothing: every input is refused.
pub proof fn law_closed_inbox_refuses_everything(
    inbox: SteeringInbox,
    blocks: Seq<ContentBlock>,
    bytes: usize,
)
    requires
        !inbox.accepting,
    ensures
        refusal(inbox, blocks, bytes) is Some,
{
}

/// A slash command is never taken for steering, whatever the state of the inbox.
pub proof fn law_slash_commands_are_never_steered(
    inbox: SteeringInbox,
    blocks: Seq<ContentBlock>,
    bytes: usize,
)
    requires
        has_slash_command(blocks),
    ensures
        refusal(inbox, blocks, bytes) is Some,
{
}

/// An input is steered exactly where it is small enough, holds no slash command, the run
/// still takes input, and there is room for it; what stands in the way is told in that order.
pub proof fn law_inputs_are_refused_for_a_reason(
    inbox: SteeringInbox,
    blocks: Seq<ContentBlock>,
    bytes: usize,
)
    ensures
        refusal(inbox, blocks, bytes) is None <==> bytes <= 65_536 && !has_slash_command(blocks)
            && inbox.accepting && inbox.pending@.len() < 32 && inbox.total_bytes + bytes
            <= 262_144,
        bytes > 65_536 ==> refusal(inbox, blocks, bytes) == Some(Refusal::TooLarge),
        bytes <= 65_536 && has_slash_command(blocks) ==> refusal(inbox, blocks, bytes) == Some(
            Refusal::SlashCommand,
        ),
        bytes <= 65_536 && !has_slash_command(blocks) && !inbox.accepting ==> refusal(
            inbox,
            blocks,
            bytes,
        ) == Some(Refusal::Closing),
        bytes <= 65_536 && !has_slash_command(blocks) && inbox.accepting && (inbox.pending@.len()
            >= 32 || inbox.total_bytes + bytes > 262_144) ==> refusal(inbox, blocks, bytes)
            == Some(Refusal::Full),
{
}

/// The error of a refused input names its reason.
pub proof fn law_refusals_are_told(error: TurnControlError, refused: Refusal, bytes: usize)
    requires
        tells(error, refused, bytes),
    ensures
        refused == Refusal::TooLarge <==> error is InputTooLarge,
        refused == Refusal::SlashCommand <==> error is SlashCommandNotSteerable,
        refused == Refusal::Closing <==> error is RunClosing,
        refused == Refusal::Full <==> error is QueueFull,
        error matches TurnControlError::InputTooLarge { bytes: told, max_bytes } ==> told == bytes
            && max_bytes == 65_536,
{
}

/// A block is a slash command exactly where its text starts with a slash behind any white
/// space, and an input holds one where any of its blocks is one.
pub proof fn law_slash_commands_start_with_a_slash(blocks: Seq<ContentBlock>, i: int)
    requires
        0 <= i < blocks.len(),
    ensures
        is_slash_command(blocks[i]) <==> (blocks[i] matches ContentBlock::Text(words)
            && text::trimmed_start(words@).len() > 0 && text::trimmed_start(words@)[0] == '/'),
        is_slash_command(blocks[i]) ==> has_slash_command(blocks),
        has_slash_command(blocks) ==> exists|j: int|
            0 <= j < blocks.len() && (#[trigger] blocks[j] matches ContentBlock::Text(words)
                && text::trimmed_start(words@).len() > 0 && text::trimmed_start(words@)[0]
                == '/'),
{
    if has_slash_command(blocks) {
        let j = choose|j: int| 0 <= j < blocks.len() && is_slash_command(#[trigger] blocks[j]);
        assert(blocks[j] matches ContentBlock::Text(words));
    }
}

/// A steered input waits behind the others, its size counts, and the run goes on taking
/// input; handing out empties the inbox.
pub proof fn law_steered_inputs_wait_their_turn(
    before: SteeringInbox,
    input: SteeringInput,
    bytes: usize,
    after: SteeringInbox,
    handed_out: Seq<SteeringInput>,
    emptied: SteeringInbox,
)
    requires
        takes(before, input, bytes, after),
        hands_out(after, handed_out, emptied),
    ensures
        after.pending@.len() == before.pending@.len() + 1,
        after.pending@.last() == input,
        after.pending@.drop_last() == before.pending@,
        after.total_bytes == before.total_bytes + bytes,
        after.accepting == before.accepting,
        handed_out.len() == before.pending@.len() + 1,
        handed_out.last() == input,
        emptied.pending@.len() == 0,
        emptied.total_bytes == 0,
{
    assert(after.pending@.drop_last() =~= before.pending@);
}

/// An error says what is wrong with the submission.
pub proof fn law_errors_say_what_is_wrong(error: TurnControlError)
    ensures
        error is NoActiveRun ==> error_text(error) == "there is no active run to steer"@,
        error is ExpectedRunIdRequired ==> error_text(error)
            == "expected_run_id is required for steering"@,
        error matches TurnControlError::RunMismatch { expected, active } ==> error_text(error)
            == "active run mismatch: expected "@ + expected@ + ", active "@ + active@,
        error matches TurnControlError::RunClosing { run_id } ==> error_text(error) == "run "@
            + run_id@ + " is closing and no longer accepts steering"@,
        error is QueueFull ==> error_text(error) == "steering queue is full"@,
        error matches TurnControlError::InputTooLarge { bytes, max_bytes } ==> error_text(error)
            == "steering input is too large ("@ + text::decimal(bytes as nat)
            + " bytes, maximum "@ + text::decimal(max_bytes as nat) + ")"@,
        error is SlashCommandNotSteerable ==> error_text(error)
            == "slash commands cannot be delivered as steering; queue the input instead"@,
        error matches TurnControlError::SessionMismatch { expected, received } ==> error_text(error)
            == "submission session mismatch: expected "@ + expected@ + ", received "@ + received@,
{
}

/// An inbox holds no more than thirty-two inputs, and no more than a quarter of a mebibyte.
pub proof fn law_inboxes_are_bounded(inbox: SteeringInbox)
    requires
        inbox.wf(),
    ensures
        inbox.pending@.len() <= 32,
        inbox.total_bytes <= 256 * 1024,
{
}

/// An inbox that is closing does not know the run's id, and names none.
pub proof fn law_closing_inboxes_name_no_run(error: TurnControlError, bytes: usize)
    requires
        tells(error, Refusal::Closing, bytes),
    ensures
        error matches TurnControlError::RunClosing { run_id } && run_id@.len() == 0,
{
}

} // verus!
