//! What an agent is made with.

use crate::agent::queue::QueueMode;
use crate::types::config::HookId;
use crate::types::message::AgentMessage;
use crate::types::model::{DoubleBits, Model, ThinkingBudgets, ThinkingLevel, Transport};
use crate::types::tool::{AgentTool, ToolExecutionMode};
use vstd::prelude::*;

verus! {

/// Initial state for constructing an Agent.
pub struct InitialAgentState {
    pub system_prompt: Option<String>,
    pub model: Option<Model>,
    pub thinking_level: Option<ThinkingLevel>,
    pub tools: Option<Vec<AgentTool>>,
    pub messages: Option<Vec<AgentMessage>>,
}

impl Default for InitialAgentState {
    fn default() -> (initial: Self)
        ensures
            initial == (InitialAgentState {
                system_prompt: None,
                model: None,
                thinking_level: None,
                tools: None,
                messages: None,
            }),
    {
        InitialAgentState {
            system_prompt: None,
            model: None,
            thinking_level: None,
            tools: None,
            messages: None,
        }
    }
}

/// Options for constructing an `Agent`. Callbacks are named by their [`HookId`].
pub struct AgentOptions {
    pub initial_state: Option<InitialAgentState>,
    pub convert_to_llm: Option<HookId>,
    pub transform_context: Option<HookId>,
    pub stream_fn: HookId,
    pub get_api_key: Option<HookId>,
    pub before_tool_call: Option<HookId>,
    pub after_tool_call: Option<HookId>,
    pub steering_mode: Option<QueueMode>,
    pub follow_up_mode: Option<QueueMode>,
    pub session_id: Option<String>,
    pub transport: Option<Transport>,
    pub tool_execution: Option<ToolExecutionMode>,
    pub api_key: Option<String>,
    pub temperature: Option<DoubleBits>,
    pub max_tokens: Option<u64>,
    pub thinking_budgets: Option<ThinkingBudgets>,
    pub max_retry_delay_ms: Option<u64>,
    pub on_payload: Option<HookId>,
}

impl AgentOptions {
    /// The options that name the stream function and leave everything else open.
    pub open spec fn bare(stream_fn: HookId) -> AgentOptions {
        AgentOptions {
            initial_state: None,
            convert_to_llm: None,
            transform_context: None,
            stream_fn,
            get_api_key: None,
            before_tool_call: None,
            after_tool_call: None,
            steering_mode: None,
            follow_up_mode: None,
            session_id: None,
            transport: None,
            tool_execution: None,
            api_key: None,
            temperature: None,
            max_tokens: None,
            thinking_budgets: None,
            max_retry_delay_ms: None,
            on_payload: None,
        }
    }

    /// Start building an [`AgentOptions`] value. `stream_fn` is the only required field.
    pub fn builder(stream_fn: HookId) -> (builder: AgentOptionsBuilder)
        ensures
            builder@ == AgentOptions::bare(stream_fn),
    {
        AgentOptionsBuilder::new(stream_fn)
    }
}

/// Fluent builder for [`AgentOptions`].
#[must_use]
pub struct AgentOptionsBuilder {
    inner: AgentOptions,
}

impl View for AgentOptionsBuilder {
    type V = AgentOptions;

    closed spec fn view(&self) -> AgentOptions {
        self.inner
    }
}

impl AgentOptionsBuilder {
    /// Create a new builder with only the required `stream_fn` field set.
    pub fn new(stream_fn: HookId) -> (builder: Self)
        ensures
            builder@ == AgentOptions::bare(stream_fn),
    {
        AgentOptionsBuilder {
            inner: AgentOptions {
                initial_state: None,
                convert_to_llm: None,
                transform_context: None,
                stream_fn,
                get_api_key: None,
                before_tool_call: None,
                after_tool_call: None,
                steering_mode: None,
                follow_up_mode: None,
                session_id: None,
                transport: None,
                tool_execution: None,
                api_key: None,
                temperature: None,
                max_tokens: None,
                thinking_budgets: None,
                max_retry_delay_ms: None,
                on_payload: None,
            },
        }
    }

    /// What the agent starts with.
    pub fn initial_state(self, value: InitialAgentState) -> (builder: Self)
        ensures
            builder@ == (AgentOptions { initial_state: Some(value), ..self@ }),
    {
        let mut builder = self;
        builder.inner.initial_state = Some(value);
        builder
    }

    /// The callback that converts the transcript for the model.
    pub fn convert_to_llm(self, value: HookId) -> (builder: Self)
        ensures
            builder@ == (AgentOptions { convert_to_llm: Some(value), ..self@ }),
    {
        let mut builder = self;
        builder.inner.convert_to_llm = Some(value);
        builder
    }

    /// The callback that transforms the context before it is converted.
    pub fn transform_context(self, value: HookId) -> (builder: Self)
        ensures
            builder@ == (AgentOptions { transform_context: Some(value), ..self@ }),
    {
        let mut builder = self;
        builder.inner.transform_context = Some(value);
        builder
    }

    /// The callback that finds the key for a provider.
    pub fn get_api_key(self, value: HookId) -> (builder: Self)
        ensures
            builder@ == (AgentOptions { get_api_key: Some(value), ..self@ }),
    {
        let mut builder = self;
        builder.inner.get_api_key = Some(value);
        builder
    }

    /// The hook before each tool call.
    pub fn before_tool_call(self, value: HookId) -> (builder: Self)
        ensures
            builder@ == (AgentOptions { before_tool_call: Some(value), ..self@ }),
    {
        let mut builder = self;
        builder.inner.before_tool_call = Some(value);
        builder
    }

    /// The hook after each tool call.
    pub fn after_tool_call(self, value: HookId) -> (builder: Self)
        ensures
            builder@ == (AgentOptions { after_tool_call: Some(value), ..self@ }),
    {
        let mut builder = self;
        builder.inner.after_tool_call = Some(value);
        builder
    }

    /// How much of the steering queue one poll takes.
    pub fn steering_mode(self, value: QueueMode) -> (builder: Self)
        ensures
            builder@ == (AgentOptions { steering_mode: Some(value), ..self@ }),
    {
        let mut builder = self;
        builder.inner.steering_mode = Some(value);
        builder
    }

    /// How much of the follow-up queue one poll takes.
    pub fn follow_up_mode(self, value: QueueMode) -> (builder: Self)
        ensures
            builder@ == (AgentOptions { follow_up_mode: Some(value), ..self@ }),
    {
        let mut builder = self;
        builder.inner.follow_up_mode = Some(value);
        builder
    }

    /// The session that model calls belong to.
    pub fn session_id(self, value: String) -> (builder: Self)
        ensures
            builder@ == (AgentOptions { session_id: Some(value), ..self@ }),
    {
        let mut builder = self;
        builder.inner.session_id = Some(value);
        builder
    }

    /// How the model's replies are transported.
    pub fn transport(self, value: Transport) -> (builder: Self)
        ensures
            builder@ == (AgentOptions { transport: Some(value), ..self@ }),
    {
        let mut builder = self;
        builder.inner.transport = Some(value);
        builder
    }

    /// Whether tool calls run one after the other.
    pub fn tool_execution(self, value: ToolExecutionMode) -> (builder: Self)
        ensures
            builder@ == (AgentOptions { tool_execution: Some(value), ..self@ }),
    {
        let mut builder = self;
        builder.inner.tool_execution = Some(value);
        builder
    }

    /// The key for the provider where no callback names one.
    pub fn api_key(self, value: String) -> (builder: Self)
        ensures
            builder@ == (AgentOptions { api_key: Some(value), ..self@ }),
    {
        let mut builder = self;
        builder.inner.api_key = Some(value);
        builder
    }

    /// The temperature of model calls.
    pub fn temperature(self, value: DoubleBits) -> (builder: Self)
        ensures
            builder@ == (AgentOptions { temperature: Some(value), ..self@ }),
    {
        let mut builder = self;
        builder.inner.temperature = Some(value);
        builder
    }

    /// The most tokens that an answer may have.
    pub fn max_tokens(self, value: u64) -> (builder: Self)
        ensures
            builder@ == (AgentOptions { max_tokens: Some(value), ..self@ }),
    {
        let mut builder = self;
        builder.inner.max_tokens = Some(value);
        builder
    }

    /// The token budgets of the thinking levels.
    pub fn thinking_budgets(self, value: ThinkingBudgets) -> (builder: Self)
        ensures
            builder@ == (AgentOptions { thinking_budgets: Some(value), ..self@ }),
    {
        let mut builder = self;
        builder.inner.thinking_budgets = Some(value);
        builder
    }

    /// The longest wait before a retry.
    pub fn max_retry_delay_ms(self, value: u64) -> (builder: Self)
        ensures
            builder@ == (AgentOptions { max_retry_delay_ms: Some(value), ..self@ }),
    {
        let mut builder = self;
        builder.inner.max_retry_delay_ms = Some(value);
        builder
    }

    /// The hook that sees each request to a provider.
    pub fn on_payload(self, value: HookId) -> (builder: Self)
        ensures
            builder@ == (AgentOptions { on_payload: Some(value), ..self@ }),
    {
        let mut builder = self;
        builder.inner.on_payload = Some(value);
        builder
    }

    /// Finish building the [`AgentOptions`] value.
    pub fn build(self) -> (options: AgentOptions)
        ensures
            options == self@,
    {
        self.inner
    }
}

} // verus!
