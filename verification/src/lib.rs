//! Generic stateful agent loop.
//!
//! # Overview
//!
//! The library decides; its driver acts. Two layers:
//!
//! - The **high-level [`Agent`]** owns state (messages, tools, model, queues), starts runs, takes
//!   their events into its state, and answers their polls for steering and follow-up messages.
//! - The **low-level [`run_agent_loop`] / [`run_agent_loop_continue`]** start a single run over
//!   an arbitrary [`AgentContext`]. A run is an [`AgentLoop`]: each [`AgentLoop::step`] takes the
//!   answer to the last request and hands out the events to deliver and the next request.
//!
//! Calling models and tools, waiting, and delivering events is the driver's part. Callbacks and
//! tools are named by a [`HookId`], which the driver looks up.

pub mod agent;
pub mod agent_loop;
pub mod cancellation;
pub mod clock;
pub mod json;
pub mod text;
pub mod types;
pub mod validate;
pub mod validate_laws;

pub use agent::handle::{
    create_prompt_message, outcome_to_result, Agent, AgentSettings, Listener, Subscription,
};
pub use agent::options::{AgentOptions, AgentOptionsBuilder, InitialAgentState};
pub use agent::queue::{PendingMessageQueue, QueueMode};
pub use agent::state::AgentState;
pub use agent_loop::protocol::{
    observe, Execution, Join, Observed, Opening, Reply, Request, StreamPoll,
};
pub use agent_loop::state::{AgentLoop, Progress};
pub use agent_loop::step::{check_continuable, run_agent_loop, run_agent_loop_continue};
pub use agent_loop::terminal::{
    create_abort_message, create_error_assistant_message, failure_from_terminal_message,
    normalize_terminal_assistant_message, terminal_error_message,
};
pub use clock::{now_millis, timestamp_from};
pub use types::config::{AgentLoopConfig, HookId, MessageConverter, MessageSource};
pub use types::content::{
    ContentBlock, ImageContent, TextContent, ThinkingContent, ToolCallContent,
};
pub use types::error::AgentError;
pub use types::event::{tool_update_event, AgentEvent, RunOutcome};
pub use types::message::{
    default_convert_to_llm, AgentMessage, AssistantMessage, CustomMessage, Message,
    ToolResultMessage, UserContent, UserContentBlock, UserContentBuildError, UserMessage,
};
pub use types::model::{
    Cost, DoubleBits, Model, ModelCost, StopReason, ThinkingBudgets, ThinkingLevel, Transport,
    Usage,
};
pub use types::stream::{
    stream_event_partial_for_update, LlmContext, StreamEvent, StreamOptions, StreamRequest,
};
pub use types::tool::{
    create_error_tool_result, AfterToolCallContext, AfterToolCallResult, AgentContext,
    AgentContextSnapshot, AgentTool, AgentToolResult, BeforeToolCallContext, BeforeToolCallResult,
    ToolDefinition, ToolExecutionMode,
};
pub use validate::validate_tool_arguments;
