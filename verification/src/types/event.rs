//! What a run tells its observers, and what it comes to.

use crate::types::content::ToolCallContent;
use crate::types::error::{AgentError, AgentErrorView};
use crate::types::message::{
    AgentMessage, AgentMessageView, ToolResultMessage, ToolResultMessageView,
};
use crate::types::stream::{StreamEvent, StreamEventView};
use crate::types::tool::{AgentToolResult, AgentToolResultView};
use serde_json::Value;
use vstd::prelude::*;

verus! {

/// Events emitted by the agent loop for UI updates and state synchronization.
///
/// Each run ends with exactly one explicit terminal event.
#[derive(Debug)]
#[non_exhaustive]
pub enum AgentEvent {
    AgentStart,
    RunCompleted { messages: Vec<AgentMessage> },
    RunFailed { messages: Vec<AgentMessage>, error_message: String },
    RunAborted { messages: Vec<AgentMessage> },
    TurnStart,
    TurnEnd { message: AgentMessage, tool_results: Vec<ToolResultMessage> },
    MessageStart { message: AgentMessage },
    MessageUpdate { message: AgentMessage, stream_event: StreamEvent },
    MessageEnd { message: AgentMessage },
    ToolExecutionStart { tool_call_id: String, tool_name: String, args: Value },
    ToolExecutionUpdate {
        tool_call_id: String,
        tool_name: String,
        args: Value,
        partial_result: AgentToolResult,
    },
    ToolExecutionEnd {
        tool_call_id: String,
        tool_name: String,
        result: AgentToolResult,
        is_error: bool,
    },
}

/// What a run came to, with the messages that it added.
#[derive(Debug)]
#[must_use]
#[non_exhaustive]
pub enum RunOutcome {
    Completed { new_messages: Vec<AgentMessage> },
    Failed { new_messages: Vec<AgentMessage>, error: AgentError },
    Aborted { new_messages: Vec<AgentMessage> },
}

#[verifier::ext_equal]
pub enum AgentEventView {
    AgentStart,
    RunCompleted { messages: Seq<AgentMessageView> },
    RunFailed { messages: Seq<AgentMessageView>, error_message: Seq<char> },
    RunAborted { messages: Seq<AgentMessageView> },
    TurnStart,
    TurnEnd { message: AgentMessageView, tool_results: Seq<ToolResultMessageView> },
    MessageStart { message: AgentMessageView },
    MessageUpdate { message: AgentMessageView, stream_event: StreamEventView },
    MessageEnd { message: AgentMessageView },
    ToolExecutionStart { tool_call_id: Seq<char>, tool_name: Seq<char>, args: Value },
    ToolExecutionUpdate {
        tool_call_id: Seq<char>,
        tool_name: Seq<char>,
        args: Value,
        partial_result: AgentToolResultView,
    },
    ToolExecutionEnd {
        tool_call_id: Seq<char>,
        tool_name: Seq<char>,
        result: AgentToolResultView,
        is_error: bool,
    },
}

#[verifier::ext_equal]
pub enum RunOutcomeView {
    Completed { new_messages: Seq<AgentMessageView> },
    Failed { new_messages: Seq<AgentMessageView>, error: AgentErrorView },
    Aborted { new_messages: Seq<AgentMessageView> },
}

impl DeepView for AgentEvent {
    type V = AgentEventView;

    open spec fn deep_view(&self) -> AgentEventView {
        match self {
            AgentEvent::AgentStart => AgentEventView::AgentStart,
            AgentEvent::RunCompleted { messages } => AgentEventView::RunCompleted {
                messages: messages.deep_view(),
            },
            AgentEvent::RunFailed { messages, error_message } => AgentEventView::RunFailed {
                messages: messages.deep_view(),
                error_message: error_message@,
            },
            AgentEvent::RunAborted { messages } => AgentEventView::RunAborted {
                messages: messages.deep_view(),
            },
            AgentEvent::TurnStart => AgentEventView::TurnStart,
            AgentEvent::TurnEnd { message, tool_results } => AgentEventView::TurnEnd {
                message: message.deep_view(),
                tool_results: tool_results.deep_view(),
            },
            AgentEvent::MessageStart { message } => AgentEventView::MessageStart {
                message: message.deep_view(),
            },
            AgentEvent::MessageUpdate { message, stream_event } => AgentEventView::MessageUpdate {
                message: message.deep_view(),
                stream_event: stream_event.deep_view(),
            },
            AgentEvent::MessageEnd { message } => AgentEventView::MessageEnd {
                message: message.deep_view(),
            },
            AgentEvent::ToolExecutionStart { tool_call_id, tool_name, args } => {
                AgentEventView::ToolExecutionStart {
                    tool_call_id: tool_call_id@,
                    tool_name: tool_name@,
                    args: *args,
                }
            },
            AgentEvent::ToolExecutionUpdate { tool_call_id, tool_name, args, partial_result } => {
                AgentEventView::ToolExecutionUpdate {
                    tool_call_id: tool_call_id@,
                    tool_name: tool_name@,
                    args: *args,
                    partial_result: partial_result.deep_view(),
                }
            },
            AgentEvent::ToolExecutionEnd { tool_call_id, tool_name, result, is_error } => {
                AgentEventView::ToolExecutionEnd {
                    tool_call_id: tool_call_id@,
                    tool_name: tool_name@,
                    result: result.deep_view(),
                    is_error: *is_error,
                }
            },
        }
    }
}

impl DeepView for RunOutcome {
    type V = RunOutcomeView;

    open spec fn deep_view(&self) -> RunOutcomeView {
        match self {
            RunOutcome::Completed { new_messages } => RunOutcomeView::Completed {
                new_messages: new_messages.deep_view(),
            },
            RunOutcome::Failed { new_messages, error } => RunOutcomeView::Failed {
                new_messages: new_messages.deep_view(),
                error: error.deep_view(),
            },
            RunOutcome::Aborted { new_messages } => RunOutcomeView::Aborted {
                new_messages: new_messages.deep_view(),
            },
        }
    }
}

impl Clone for AgentEvent {
    fn clone(&self) -> (copy: Self)
        ensures
            copy.deep_view() == self.deep_view(),
    {
        match self {
            AgentEvent::AgentStart => AgentEvent::AgentStart,
            AgentEvent::RunCompleted { messages } => AgentEvent::RunCompleted {
                messages: messages.clone(),
            },
            AgentEvent::RunFailed { messages, error_message } => AgentEvent::RunFailed {
                messages: messages.clone(),
                error_message: error_message.clone(),
            },
            AgentEvent::RunAborted { messages } => AgentEvent::RunAborted {
                messages: messages.clone(),
            },
            AgentEvent::TurnStart => AgentEvent::TurnStart,
            AgentEvent::TurnEnd { message, tool_results } => AgentEvent::TurnEnd {
                message: message.clone(),
                tool_results: tool_results.clone(),
            },
            AgentEvent::MessageStart { message } => AgentEvent::MessageStart {
                message: message.clone(),
            },
            AgentEvent::MessageUpdate { message, stream_event } => AgentEvent::MessageUpdate {
                message: message.clone(),
                stream_event: stream_event.clone(),
            },
            AgentEvent::MessageEnd { message } => AgentEvent::MessageEnd {
                message: message.clone(),
            },
            AgentEvent::ToolExecutionStart { tool_call_id, tool_name, args } => {
                AgentEvent::ToolExecutionStart {
                    tool_call_id: tool_call_id.clone(),
                    tool_name: tool_name.clone(),
                    args: args.clone(),
                }
            },
            AgentEvent::ToolExecutionUpdate { tool_call_id, tool_name, args, partial_result } => {
                AgentEvent::ToolExecutionUpdate {
                    tool_call_id: tool_call_id.clone(),
                    tool_name: tool_name.clone(),
                    args: args.clone(),
                    partial_result: partial_result.clone(),
                }
            },
            AgentEvent::ToolExecutionEnd { tool_call_id, tool_name, result, is_error } => {
                AgentEvent::ToolExecutionEnd {
                    tool_call_id: tool_call_id.clone(),
                    tool_name: tool_name.clone(),
                    result: result.clone(),
                    is_error: *is_error,
                }
            },
        }
    }
}

impl AgentEventView {
    /// Whether the event ends a run.
    pub open spec fn is_terminal(self) -> bool {
        ||| self is RunCompleted
        ||| self is RunFailed
        ||| self is RunAborted
    }
}

/// The event that tells of an intermediate result of a running tool call.
pub fn tool_update_event(call: &ToolCallContent, partial_result: AgentToolResult) -> (event:
    AgentEvent)
    ensures
        event.deep_view() == (AgentEventView::ToolExecutionUpdate {
            tool_call_id: call.deep_view().id,
            tool_name: call.deep_view().name,
            args: call.deep_view().arguments,
            partial_result: partial_result.deep_view(),
        }),
{
    AgentEvent::ToolExecutionUpdate {
        tool_call_id: call.id.clone(),
        tool_name: call.name.clone(),
        args: call.arguments.clone(),
        partial_result,
    }
}

} // verus!
