//! The state of a run.

use crate::agent_loop::protocol::{Reply, ReplyView, Request, RequestView};
use crate::types::config::{AgentLoopConfig, HookId};
use crate::types::content::{ToolCallContent, ToolCallContentView};
use crate::types::event::{AgentEvent, AgentEventView};
use crate::types::message::{
    AgentMessage, AgentMessageView, AssistantMessage, AssistantMessageView, Message, MessageView,
    ToolResultMessage, ToolResultMessageView,
};
use crate::types::tool::{
    AgentContext, AgentContextView, AgentTool, AgentToolResult, AgentToolResultView, AgentToolView,
    ToolExecutionMode,
};
use serde_json::Value;
use tokio_util::sync::CancellationToken;
use vstd::prelude::*;

verus! {

/// A tool call that was prepared to run at the same time as others.
pub enum ToolSlot {
    /// The call will not run; this is what came of it.
    Closed { result: AgentToolResult, is_error: bool },
    /// The call may run, with these arguments.
    Runnable { tool: HookId, args: Value },
}

/// How far the current tool call, or the batch, has come: what the run waits for.
pub enum ToolStage {
    /// Before the call at the cursor: waits for a checkpoint.
    Gate,
    /// The call was announced: waits for a checkpoint.
    Started,
    /// Waits for the tool to prepare the arguments.
    Preparing { tool: AgentTool },
    /// Waits for the hook's leave.
    Asking { handle: HookId },
    /// Waits for the tool to return.
    Executing { args: Value },
    /// Waits for the call in the slot at the cursor to be started.
    Spawning,
    /// Waits for the call in the slot at the cursor to return.
    Joining,
    /// Waits for the hook to override what came of the call.
    Finalizing { result: AgentToolResult, is_error: bool },
    /// The end of the call was announced: waits for a checkpoint. The last call of the batch
    /// where `stop` is set.
    Ending { result: AgentToolResult, is_error: bool, stop: bool },
    /// Every call is dealt with: waits for a checkpoint.
    Done,
}

/// The tool calls of one message of the model, under way.
pub struct ToolBatch {
    pub message: AssistantMessage,
    pub calls: Vec<ToolCallContent>,
    pub cursor: usize,
    /// In parallel mode: what the preparation made of the first calls.
    pub slots: Vec<ToolSlot>,
    /// In parallel mode: the runnable calls in slots below this one were started.
    pub spawned: usize,
    pub results: Vec<ToolResultMessage>,
    pub stage: ToolStage,
}

/// What a run waits for.
pub enum Phase {
    /// Waits for steering messages. `after_tools` tells whether the model is due another turn
    /// even if there are none.
    Steering { after_tools: bool },
    /// Waits for follow-up messages.
    FollowUp,
    /// Waits for the transformed context.
    Transform,
    /// Waits for the messages for the model.
    Convert,
    /// Waits for the key for the provider.
    ApiKey { messages: Vec<Message> },
    /// Waits for the model's stream to open.
    Open,
    /// Waits for the next event of the model's stream. `partial` is the message so far; `shown`
    /// tells whether it stands in the context.
    Stream { partial: Option<AssistantMessage>, shown: bool },
    /// Waits for something that a tool call needs.
    Tools { batch: ToolBatch },
    /// Waits for nothing.
    Finished,
}

/// A run of the agent loop, waiting for the answer to its last request.
pub struct AgentLoop {
    pub config: AgentLoopConfig,
    pub cancel: CancellationToken,
    pub context: AgentContext,
    pub new_messages: Vec<AgentMessage>,
    pub first_turn: bool,
    pub phase: Phase,
}

/// A run after a step, with the events to deliver and the request to carry out.
pub struct Progress {
    pub run: AgentLoop,
    pub events: Vec<AgentEvent>,
    pub request: Request,
}

// ---- Views ----

#[verifier::ext_equal]
pub enum ToolSlotView {
    Closed { result: AgentToolResultView, is_error: bool },
    Runnable { tool: HookId, args: Value },
}

#[verifier::ext_equal]
pub enum ToolStageView {
    Gate,
    Started,
    Preparing { tool: AgentToolView },
    Asking { handle: HookId },
    Executing { args: Value },
    Spawning,
    Joining,
    Finalizing { result: AgentToolResultView, is_error: bool },
    Ending { result: AgentToolResultView, is_error: bool, stop: bool },
    Done,
}

#[verifier::ext_equal]
pub struct ToolBatchView {
    pub message: AssistantMessageView,
    pub calls: Seq<ToolCallContentView>,
    pub cursor: nat,
    pub slots: Seq<ToolSlotView>,
    pub spawned: nat,
    pub results: Seq<ToolResultMessageView>,
    pub stage: ToolStageView,
}

#[verifier::ext_equal]
pub enum PhaseView {
    Steering { after_tools: bool },
    FollowUp,
    Transform,
    Convert,
    ApiKey { messages: Seq<MessageView> },
    Open,
    Stream { partial: Option<AssistantMessageView>, shown: bool },
    Tools { batch: ToolBatchView },
    Finished,
}

#[verifier::ext_equal]
pub struct RunView {
    pub config: AgentLoopConfig,
    pub cancel: CancellationToken,
    pub context: AgentContextView,
    pub new_messages: Seq<AgentMessageView>,
    pub first_turn: bool,
    pub phase: PhaseView,
}

#[verifier::ext_equal]
pub struct ProgressView {
    pub run: RunView,
    pub events: Seq<AgentEventView>,
    pub request: RequestView,
}

impl DeepView for ToolSlot {
    type V = ToolSlotView;

    open spec fn deep_view(&self) -> ToolSlotView {
        match self {
            ToolSlot::Closed { result, is_error } => ToolSlotView::Closed {
                result: result.deep_view(),
                is_error: *is_error,
            },
            ToolSlot::Runnable { tool, args } => ToolSlotView::Runnable {
                tool: *tool,
                args: *args,
            },
        }
    }
}

impl DeepView for ToolStage {
    type V = ToolStageView;

    open spec fn deep_view(&self) -> ToolStageView {
        match self {
            ToolStage::Gate => ToolStageView::Gate,
            ToolStage::Started => ToolStageView::Started,
            ToolStage::Preparing { tool } => ToolStageView::Preparing { tool: tool.deep_view() },
            ToolStage::Asking { handle } => ToolStageView::Asking { handle: *handle },
            ToolStage::Executing { args } => ToolStageView::Executing { args: *args },
            ToolStage::Spawning => ToolStageView::Spawning,
            ToolStage::Joining => ToolStageView::Joining,
            ToolStage::Finalizing { result, is_error } => ToolStageView::Finalizing {
                result: result.deep_view(),
                is_error: *is_error,
            },
            ToolStage::Ending { result, is_error, stop } => ToolStageView::Ending {
                result: result.deep_view(),
                is_error: *is_error,
                stop: *stop,
            },
            ToolStage::Done => ToolStageView::Done,
        }
    }
}

impl DeepView for ToolBatch {
    type V = ToolBatchView;

    open spec fn deep_view(&self) -> ToolBatchView {
        ToolBatchView {
            message: self.message.deep_view(),
            calls: self.calls.deep_view(),
            cursor: self.cursor as nat,
            slots: self.slots.deep_view(),
            spawned: self.spawned as nat,
            results: self.results.deep_view(),
            stage: self.stage.deep_view(),
        }
    }
}

impl DeepView for Phase {
    type V = PhaseView;

    open spec fn deep_view(&self) -> PhaseView {
        match self {
            Phase::Steering { after_tools } => PhaseView::Steering { after_tools: *after_tools },
            Phase::FollowUp => PhaseView::FollowUp,
            Phase::Transform => PhaseView::Transform,
            Phase::Convert => PhaseView::Convert,
            Phase::ApiKey { messages } => PhaseView::ApiKey { messages: messages.deep_view() },
            Phase::Open => PhaseView::Open,
            Phase::Stream { partial, shown } => PhaseView::Stream {
                partial: partial.deep_view(),
                shown: *shown,
            },
            Phase::Tools { batch } => PhaseView::Tools { batch: batch.deep_view() },
            Phase::Finished => PhaseView::Finished,
        }
    }
}

impl DeepView for AgentLoop {
    type V = RunView;

    open spec fn deep_view(&self) -> RunView {
        RunView {
            config: self.config,
            cancel: self.cancel,
            context: self.context.deep_view(),
            new_messages: self.new_messages.deep_view(),
            first_turn: self.first_turn,
            phase: self.phase.deep_view(),
        }
    }
}

impl DeepView for Progress {
    type V = ProgressView;

    open spec fn deep_view(&self) -> ProgressView {
        ProgressView {
            run: self.run.deep_view(),
            events: self.events.deep_view(),
            request: self.request.deep_view(),
        }
    }
}

// ---- Well-formedness ----

impl ToolBatchView {
    /// Whether the cursor and the slots fit the calls and the stage.
    pub open spec fn wf(self, sequential: bool) -> bool {
        &&& self.slots.len() <= self.calls.len()
        &&& match self.stage {
            ToolStageView::Gate => {
                &&& self.cursor <= self.calls.len()
                &&& !sequential ==> self.slots.len() == self.cursor
            },
            ToolStageView::Started
            | ToolStageView::Preparing { .. }
            | ToolStageView::Asking { .. } => {
                &&& self.cursor < self.calls.len()
                &&& !sequential ==> self.slots.len() == self.cursor
            },
            ToolStageView::Executing { .. } => {
                &&& self.cursor < self.calls.len()
                &&& sequential
            },
            ToolStageView::Spawning => {
                &&& self.cursor < self.slots.len()
                &&& self.slots[self.cursor as int] is Runnable
                &&& !sequential
            },
            ToolStageView::Joining => {
                &&& self.cursor < self.slots.len()
                &&& self.slots[self.cursor as int] is Runnable
                &&& !sequential
            },
            ToolStageView::Finalizing { .. } | ToolStageView::Ending { .. } => {
                &&& self.cursor < self.calls.len()
                &&& !sequential ==> self.cursor < self.slots.len()
            },
            ToolStageView::Done => true,
        }
    }

    /// The call at the cursor.
    pub open spec fn call(self) -> ToolCallContentView {
        self.calls[self.cursor as int]
    }
}

impl ToolBatch {
    /// Whether the cursor and the slots fit the calls and the stage.
    fn is_sound(&self, sequential: bool) -> (yes: bool)
        ensures
            yes == self.deep_view().wf(sequential),
    {
        let calls: usize = self.calls.len();
        let slots: usize = self.slots.len();
        let cursor: usize = self.cursor;
        let runnable = if cursor < slots {
            assert(self.slots.deep_view()[cursor as int] == self.slots@[cursor as int].deep_view());
            matches!(self.slots[cursor], ToolSlot::Runnable { .. })
        } else {
            false
        };
        slots <= calls && match &self.stage {
            ToolStage::Gate => cursor <= calls && (sequential || slots == cursor),
            ToolStage::Started => cursor < calls && (sequential || slots == cursor),
            ToolStage::Preparing { .. } => cursor < calls && (sequential || slots == cursor),
            ToolStage::Asking { .. } => cursor < calls && (sequential || slots == cursor),
            ToolStage::Executing { .. } => cursor < calls && sequential,
            ToolStage::Spawning => runnable && !sequential,
            ToolStage::Joining => runnable && !sequential,
            ToolStage::Finalizing { .. } => cursor < calls && (sequential || cursor < slots),
            ToolStage::Ending { .. } => cursor < calls && (sequential || cursor < slots),
            ToolStage::Done => true,
        }
    }
}

impl RunView {
    /// Whether tool calls run one after the other.
    pub open spec fn sequential(self) -> bool {
        self.config.tool_execution == ToolExecutionMode::Sequential
    }

    /// Whether a run's state is one that a run can be in.
    pub open spec fn wf(self) -> bool {
        self.phase matches PhaseView::Tools { batch } ==> batch.wf(self.sequential())
    }

    /// Whether the run waits for an answer of this kind.
    pub open spec fn accepts(self, reply: ReplyView) -> bool {
        match self.phase {
            PhaseView::Steering { .. } => if self.config.get_steering_messages is Some {
                reply is Messages
            } else {
                reply is Done
            },
            PhaseView::FollowUp => if self.config.get_follow_up_messages is Some {
                reply is Messages
            } else {
                reply is Done
            },
            PhaseView::Transform => reply is Messages,
            PhaseView::Convert => reply is LlmMessages,
            PhaseView::ApiKey { .. } => reply is ApiKey,
            PhaseView::Open => reply is Opened,
            PhaseView::Stream { .. } => reply is Streamed,
            PhaseView::Tools { batch } => match batch.stage {
                ToolStageView::Gate
                | ToolStageView::Started
                | ToolStageView::Spawning
                | ToolStageView::Ending { .. }
                | ToolStageView::Done => reply is Done,
                ToolStageView::Preparing { .. } => reply is Arguments,
                ToolStageView::Asking { .. } => reply is Before,
                ToolStageView::Executing { .. } => reply is Executed,
                ToolStageView::Joining => reply is Joined,
                ToolStageView::Finalizing { .. } => reply is After,
            },
            PhaseView::Finished => false,
        }
    }
}

impl AgentLoop {
    /// Whether the run can take this answer: its state is sound, and it waits for an answer of
    /// this kind.
    pub fn can_take(&self, reply: &Reply) -> (yes: bool)
        ensures
            yes == (self.deep_view().wf() && self.deep_view().accepts(reply.deep_view())),
    {
        let sound = match &self.phase {
            Phase::Tools { batch } => batch.is_sound(
                self.config.tool_execution == ToolExecutionMode::Sequential,
            ),
            _ => true,
        };
        sound && self.accepts(reply)
    }

    /// Whether the run waits for an answer of this kind.
    fn accepts(&self, reply: &Reply) -> (yes: bool)
        ensures
            yes == self.deep_view().accepts(reply.deep_view()),
    {
        match &self.phase {
            Phase::Steering { .. } => match reply {
                Reply::Messages(_) => self.config.get_steering_messages.is_some(),
                Reply::Done => self.config.get_steering_messages.is_none(),
                _ => false,
            },
            Phase::FollowUp => match reply {
                Reply::Messages(_) => self.config.get_follow_up_messages.is_some(),
                Reply::Done => self.config.get_follow_up_messages.is_none(),
                _ => false,
            },
            Phase::Transform => matches!(reply, Reply::Messages(_)),
            Phase::Convert => matches!(reply, Reply::LlmMessages(_)),
            Phase::ApiKey { .. } => matches!(reply, Reply::ApiKey(_)),
            Phase::Open => matches!(reply, Reply::Opened(_)),
            Phase::Stream { .. } => matches!(reply, Reply::Streamed(_)),
            Phase::Tools { batch } => match &batch.stage {
                ToolStage::Gate => matches!(reply, Reply::Done),
                ToolStage::Started => matches!(reply, Reply::Done),
                ToolStage::Spawning => matches!(reply, Reply::Done),
                ToolStage::Ending { .. } => matches!(reply, Reply::Done),
                ToolStage::Done => matches!(reply, Reply::Done),
                ToolStage::Preparing { .. } => matches!(reply, Reply::Arguments(_)),
                ToolStage::Asking { .. } => matches!(reply, Reply::Before { .. }),
                ToolStage::Executing { .. } => matches!(reply, Reply::Executed(_)),
                ToolStage::Joining => matches!(reply, Reply::Joined(_)),
                ToolStage::Finalizing { .. } => matches!(reply, Reply::After(_)),
            },
            Phase::Finished => false,
        }
    }

    /// Whether the run is over.
    pub fn is_finished(&self) -> (yes: bool)
        ensures
            yes == (self.deep_view().phase is Finished),
    {
        matches!(self.phase, Phase::Finished)
    }
}

// ---- Building events and transcripts ----

/// Adds an event.
pub fn emit(events: &mut Vec<AgentEvent>, event: AgentEvent)
    ensures
        final(events).deep_view() == old(events).deep_view().push(event.deep_view()),
{
    let ghost before = events.deep_view();
    events.push(event);
    assert(events.deep_view() =~= before.push(event.deep_view()));
}

/// Adds a message.
pub fn append(messages: &mut Vec<AgentMessage>, message: AgentMessage)
    ensures
        final(messages).deep_view() == old(messages).deep_view().push(message.deep_view()),
{
    let ghost before = messages.deep_view();
    messages.push(message);
    assert(messages.deep_view() =~= before.push(message.deep_view()));
}

} // verus!
