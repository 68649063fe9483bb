//! What a run asks of its driver, and what the driver answers.
//!
//! A run is a state machine. Each step of it hands out events, which the driver delivers in
//! order, and one request, which the driver then carries out. The answer, with the cancellation
//! signal and the clock as they stand after the request, leads to the next step.

use crate::clock::{now_millis, timestamp_at};
use crate::types::config::{HookId, MessageConverter, MessageSource};
use crate::types::content::{ToolCallContent, ToolCallContentView};
use crate::types::error::{AgentError, AgentErrorView};
use crate::types::event::{RunOutcome, RunOutcomeView};
use crate::types::message::{AgentMessage, AgentMessageView, Message, MessageView};
use crate::types::model::{Model, ModelView};
use crate::types::stream::{
    LlmContext, LlmContextView, StreamEvent, StreamEventView, StreamRequest, StreamRequestView,
};
use crate::types::tool::{
    AfterToolCallContext, AfterToolCallContextView, AfterToolCallResult, AfterToolCallResultView,
    AgentToolResult, AgentToolResultView, BeforeToolCallContext, BeforeToolCallContextView,
    BeforeToolCallResult, BeforeToolCallResultView,
};
use serde_json::Value;
use tokio_util::sync::CancellationToken;
use vstd::prelude::*;

verus! {

/// What the driver saw after it carried out a request.
#[derive(Debug, Clone, Copy, PartialEq, Eq, Structural)]
pub struct Observed {
    /// Whether the cancellation signal was given.
    pub cancelled: bool,
    /// The time, in milliseconds since the Unix epoch.
    pub now: i64,
}

/// What the driver has to do next, once it has delivered the events of the step.
pub enum Request {
    /// Nothing: only look at the cancellation signal and the clock.
    Checkpoint,
    /// Ask for steering messages.
    PollSteering { source: MessageSource },
    /// Ask for follow-up messages.
    PollFollowUp { source: MessageSource },
    /// Let the callback transform the context.
    TransformContext { hook: HookId, messages: Vec<AgentMessage>, cancel: CancellationToken },
    /// Convert the messages for the model.
    ConvertToLlm { converter: MessageConverter, messages: Vec<AgentMessage> },
    /// Let the callback find the key for the provider.
    ResolveApiKey { hook: HookId, provider: String },
    /// Call the model.
    OpenStream { model: Model, llm_context: LlmContext, request: StreamRequest },
    /// Wait for the next event of the model's stream, or for the cancellation signal.
    NextStreamEvent,
    /// Let the tool prepare raw arguments.
    PrepareArguments { tool: HookId, arguments: Value },
    /// Ask the callback whether the tool call may go on.
    BeforeToolCall {
        hook: HookId,
        before_context: BeforeToolCallContext,
        cancel: CancellationToken,
    },
    /// Execute the tool and wait for it.
    ExecuteTool {
        tool: HookId,
        tool_call: ToolCallContent,
        args: Value,
        cancel: CancellationToken,
    },
    /// Start to execute the tool, to be joined by its slot.
    SpawnTool {
        slot: usize,
        tool: HookId,
        tool_call: ToolCallContent,
        args: Value,
        cancel: CancellationToken,
    },
    /// Wait for the tool execution that was started in the slot.
    JoinTool { slot: usize },
    /// Let the callback override what came of the tool call.
    AfterToolCall {
        hook: HookId,
        after_context: AfterToolCallContext,
        cancel: CancellationToken,
    },
    /// Nothing more: the run is over.
    Finish { outcome: RunOutcome },
}

/// Whether a stream opened.
#[derive(Debug)]
pub enum Opening {
    Opened,
    Failed(AgentError),
}

/// What came of waiting for the next event of a stream.
#[derive(Debug)]
pub enum StreamPoll {
    Event(StreamEvent),
    Failed(AgentError),
    Ended,
    Cancelled,
}

/// What came of executing a tool.
#[derive(Debug)]
pub enum Execution {
    Returned(AgentToolResult),
    Failed(AgentError),
}

/// What came of waiting for a tool execution that was started.
#[derive(Debug)]
pub enum Join {
    Finished(Execution),
    Broken(String),
}

/// The driver's answer to a request.
#[derive(Debug)]
pub enum Reply {
    /// To `Checkpoint` and `SpawnTool`.
    Done,
    /// To `PollSteering`, `PollFollowUp` and `TransformContext`.
    Messages(Vec<AgentMessage>),
    /// To `ConvertToLlm`.
    LlmMessages(Vec<Message>),
    /// To `ResolveApiKey`.
    ApiKey(Option<String>),
    /// To `OpenStream`.
    Opened(Opening),
    /// To `NextStreamEvent`.
    Streamed(StreamPoll),
    /// To `PrepareArguments`.
    Arguments(Value),
    /// To `BeforeToolCall`, with the arguments as the callback left them.
    Before { result: Option<BeforeToolCallResult>, args: Value },
    /// To `ExecuteTool`.
    Executed(Execution),
    /// To `JoinTool`.
    Joined(Join),
    /// To `AfterToolCall`.
    After(Option<AfterToolCallResult>),
}

// ---- Views ----

#[verifier::ext_equal]
pub enum RequestView {
    Checkpoint,
    PollSteering { source: MessageSource },
    PollFollowUp { source: MessageSource },
    TransformContext { hook: HookId, messages: Seq<AgentMessageView>, cancel: CancellationToken },
    ConvertToLlm { converter: MessageConverter, messages: Seq<AgentMessageView> },
    ResolveApiKey { hook: HookId, provider: Seq<char> },
    OpenStream { model: ModelView, llm_context: LlmContextView, request: StreamRequestView },
    NextStreamEvent,
    PrepareArguments { tool: HookId, arguments: Value },
    BeforeToolCall {
        hook: HookId,
        before_context: BeforeToolCallContextView,
        cancel: CancellationToken,
    },
    ExecuteTool {
        tool: HookId,
        tool_call: ToolCallContentView,
        args: Value,
        cancel: CancellationToken,
    },
    SpawnTool {
        slot: nat,
        tool: HookId,
        tool_call: ToolCallContentView,
        args: Value,
        cancel: CancellationToken,
    },
    JoinTool { slot: nat },
    AfterToolCall {
        hook: HookId,
        after_context: AfterToolCallContextView,
        cancel: CancellationToken,
    },
    Finish { outcome: RunOutcomeView },
}

#[verifier::ext_equal]
pub enum OpeningView {
    Opened,
    Failed(AgentErrorView),
}

#[verifier::ext_equal]
pub enum StreamPollView {
    Event(StreamEventView),
    Failed(AgentErrorView),
    Ended,
    Cancelled,
}

#[verifier::ext_equal]
pub enum ExecutionView {
    Returned(AgentToolResultView),
    Failed(AgentErrorView),
}

#[verifier::ext_equal]
pub enum JoinView {
    Finished(ExecutionView),
    Broken(Seq<char>),
}

#[verifier::ext_equal]
pub enum ReplyView {
    Done,
    Messages(Seq<AgentMessageView>),
    LlmMessages(Seq<MessageView>),
    ApiKey(Option<Seq<char>>),
    Opened(OpeningView),
    Streamed(StreamPollView),
    Arguments(Value),
    Before { result: Option<BeforeToolCallResultView>, args: Value },
    Executed(ExecutionView),
    Joined(JoinView),
    After(Option<AfterToolCallResultView>),
}

impl DeepView for Request {
    type V = RequestView;

    open spec fn deep_view(&self) -> RequestView {
        match self {
            Request::Checkpoint => RequestView::Checkpoint,
            Request::PollSteering { source } => RequestView::PollSteering { source: *source },
            Request::PollFollowUp { source } => RequestView::PollFollowUp { source: *source },
            Request::TransformContext { hook, messages, cancel } => RequestView::TransformContext {
                hook: *hook,
                messages: messages.deep_view(),
                cancel: *cancel,
            },
            Request::ConvertToLlm { converter, messages } => RequestView::ConvertToLlm {
                converter: *converter,
                messages: messages.deep_view(),
            },
            Request::ResolveApiKey { hook, provider } => RequestView::ResolveApiKey {
                hook: *hook,
                provider: provider@,
            },
            Request::OpenStream { model, llm_context, request } => RequestView::OpenStream {
                model: model.deep_view(),
                llm_context: llm_context.deep_view(),
                request: request.deep_view(),
            },
            Request::NextStreamEvent => RequestView::NextStreamEvent,
            Request::PrepareArguments { tool, arguments } => RequestView::PrepareArguments {
                tool: *tool,
                arguments: *arguments,
            },
            Request::BeforeToolCall { hook, before_context, cancel } => {
                RequestView::BeforeToolCall {
                    hook: *hook,
                    before_context: before_context.deep_view(),
                    cancel: *cancel,
                }
            },
            Request::ExecuteTool { tool, tool_call, args, cancel } => RequestView::ExecuteTool {
                tool: *tool,
                tool_call: tool_call.deep_view(),
                args: *args,
                cancel: *cancel,
            },
            Request::SpawnTool { slot, tool, tool_call, args, cancel } => RequestView::SpawnTool {
                slot: *slot as nat,
                tool: *tool,
                tool_call: tool_call.deep_view(),
                args: *args,
                cancel: *cancel,
            },
            Request::JoinTool { slot } => RequestView::JoinTool { slot: *slot as nat },
            Request::AfterToolCall { hook, after_context, cancel } => {
                RequestView::AfterToolCall {
                    hook: *hook,
                    after_context: after_context.deep_view(),
                    cancel: *cancel,
                }
            },
            Request::Finish { outcome } => RequestView::Finish { outcome: outcome.deep_view() },
        }
    }
}

impl DeepView for Opening {
    type V = OpeningView;

    open spec fn deep_view(&self) -> OpeningView {
        match self {
            Opening::Opened => OpeningView::Opened,
            Opening::Failed(error) => OpeningView::Failed(error.deep_view()),
        }
    }
}

impl DeepView for StreamPoll {
    type V = StreamPollView;

    open spec fn deep_view(&self) -> StreamPollView {
        match self {
            StreamPoll::Event(event) => StreamPollView::Event(event.deep_view()),
            StreamPoll::Failed(error) => StreamPollView::Failed(error.deep_view()),
            StreamPoll::Ended => StreamPollView::Ended,
            StreamPoll::Cancelled => StreamPollView::Cancelled,
        }
    }
}

impl DeepView for Execution {
    type V = ExecutionView;

    open spec fn deep_view(&self) -> ExecutionView {
        match self {
            Execution::Returned(result) => ExecutionView::Returned(result.deep_view()),
            Execution::Failed(error) => ExecutionView::Failed(error.deep_view()),
        }
    }
}

impl DeepView for Join {
    type V = JoinView;

    open spec fn deep_view(&self) -> JoinView {
        match self {
            Join::Finished(execution) => JoinView::Finished(execution.deep_view()),
            Join::Broken(text) => JoinView::Broken(text@),
        }
    }
}

impl DeepView for Reply {
    type V = ReplyView;

    open spec fn deep_view(&self) -> ReplyView {
        match self {
            Reply::Done => ReplyView::Done,
            Reply::Messages(messages) => ReplyView::Messages(messages.deep_view()),
            Reply::LlmMessages(messages) => ReplyView::LlmMessages(messages.deep_view()),
            Reply::ApiKey(key) => ReplyView::ApiKey(key.deep_view()),
            Reply::Opened(opening) => ReplyView::Opened(opening.deep_view()),
            Reply::Streamed(poll) => ReplyView::Streamed(poll.deep_view()),
            Reply::Arguments(arguments) => ReplyView::Arguments(*arguments),
            Reply::Before { result, args } => ReplyView::Before {
                result: result.deep_view(),
                args: *args,
            },
            Reply::Executed(execution) => ReplyView::Executed(execution.deep_view()),
            Reply::Joined(join) => ReplyView::Joined(join.deep_view()),
            Reply::After(result) => ReplyView::After(result.deep_view()),
        }
    }
}

/// Looks at the cancellation signal and the clock.
pub fn observe(cancel: &CancellationToken) -> (observed: Observed)
    ensures
        exists|since_epoch: Option<std::time::Duration>|
            observed.now == #[trigger] timestamp_at(since_epoch),
{
    Observed { cancelled: cancel.is_cancelled(), now: now_millis() }
}

} // verus!
