//! What a run is configured with.

use crate::types::model::{
    DoubleBits, Model, ModelView, ThinkingBudgets, ThinkingLevel, Transport,
};
use crate::types::tool::ToolExecutionMode;
use vstd::prelude::*;

verus! {

/// Names a callback or a tool whose code the application holds.
#[derive(Debug, Clone, Copy, PartialEq, Eq, Structural)]
pub struct HookId {
    pub id: u64,
}

/// Where steering or follow-up messages come from.
#[derive(Debug, Clone, Copy, PartialEq, Eq, Structural)]
pub enum MessageSource {
    /// A callback of the application.
    Hook(HookId),
    /// The queue of the agent that runs the loop.
    AgentQueue,
}

/// What turns the transcript into messages for the model.
#[derive(Debug, Clone, Copy, PartialEq, Eq, Structural)]
pub enum MessageConverter {
    /// The library's own `default_convert_to_llm`.
    Standard,
    /// A callback of the application.
    Hook(HookId),
}

/// Configuration for the low-level agent loop. Callbacks are named by their [`HookId`].
pub struct AgentLoopConfig {
    pub model: Model,
    pub reasoning: Option<ThinkingLevel>,
    pub convert_to_llm: MessageConverter,
    pub transform_context: Option<HookId>,
    pub get_api_key: Option<HookId>,
    pub get_steering_messages: Option<MessageSource>,
    pub get_follow_up_messages: Option<MessageSource>,
    pub tool_execution: ToolExecutionMode,
    pub before_tool_call: Option<HookId>,
    pub after_tool_call: Option<HookId>,
    pub api_key: Option<String>,
    pub session_id: Option<String>,
    pub transport: Transport,
    pub temperature: Option<DoubleBits>,
    pub max_tokens: Option<u64>,
    pub thinking_budgets: Option<ThinkingBudgets>,
    pub max_retry_delay_ms: Option<u64>,
    pub on_payload: Option<HookId>,
}

#[verifier::ext_equal]
pub struct AgentLoopConfigView {
    pub model: ModelView,
    pub reasoning: Option<ThinkingLevel>,
    pub convert_to_llm: MessageConverter,
    pub transform_context: Option<HookId>,
    pub get_api_key: Option<HookId>,
    pub get_steering_messages: Option<MessageSource>,
    pub get_follow_up_messages: Option<MessageSource>,
    pub tool_execution: ToolExecutionMode,
    pub before_tool_call: Option<HookId>,
    pub after_tool_call: Option<HookId>,
    pub api_key: Option<Seq<char>>,
    pub session_id: Option<Seq<char>>,
    pub transport: Transport,
    pub temperature: Option<DoubleBits>,
    pub max_tokens: Option<u64>,
    pub thinking_budgets: Option<ThinkingBudgets>,
    pub max_retry_delay_ms: Option<u64>,
    pub on_payload: Option<HookId>,
}

impl DeepView for AgentLoopConfig {
    type V = AgentLoopConfigView;

    open spec fn deep_view(&self) -> AgentLoopConfigView {
        AgentLoopConfigView {
            model: self.model.deep_view(),
            reasoning: self.reasoning,
            convert_to_llm: self.convert_to_llm,
            transform_context: self.transform_context,
            get_api_key: self.get_api_key,
            get_steering_messages: self.get_steering_messages,
            get_follow_up_messages: self.get_follow_up_messages,
            tool_execution: self.tool_execution,
            before_tool_call: self.before_tool_call,
            after_tool_call: self.after_tool_call,
            api_key: self.api_key.deep_view(),
            session_id: self.session_id.deep_view(),
            transport: self.transport,
            temperature: self.temperature,
            max_tokens: self.max_tokens,
            thinking_budgets: self.thinking_budgets,
            max_retry_delay_ms: self.max_retry_delay_ms,
            on_payload: self.on_payload,
        }
    }
}

} // verus!
