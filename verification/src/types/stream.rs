//! The streaming interface of a model call.

use crate::types::config::HookId;
use crate::types::content::{ToolCallContent, ToolCallContentView};
use crate::types::message::{AssistantMessage, AssistantMessageView, Message, MessageView};
use crate::types::model::{DoubleBits, ThinkingBudgets, ThinkingLevel, Transport};
use crate::types::tool::{ToolDefinition, ToolDefinitionView};
use tokio_util::sync::CancellationToken;
use vstd::prelude::*;

verus! {

/// Context passed to the LLM stream function.
#[derive(Debug)]
pub struct LlmContext {
    pub system_prompt: String,
    pub messages: Vec<Message>,
    pub tools: Vec<ToolDefinition>,
}

/// Options forwarded to the LLM stream function.
pub struct StreamOptions {
    pub api_key: Option<String>,
    pub reasoning: Option<ThinkingLevel>,
    pub session_id: Option<String>,
    pub transport: Transport,
    pub temperature: Option<DoubleBits>,
    pub max_tokens: Option<u64>,
    pub thinking_budgets: Option<ThinkingBudgets>,
    pub max_retry_delay_ms: Option<u64>,
    pub on_payload: Option<HookId>,
}

/// What a stream function is asked with, besides the model and the context.
pub struct StreamRequest {
    pub options: StreamOptions,
    pub cancel: CancellationToken,
}

/// Events yielded by the LLM stream function.
///
/// Each incremental event carries the provider's current `partial` [`AssistantMessage`]; the
/// loop forwards that shape instead of reconstructing content locally.
#[derive(Debug)]
#[non_exhaustive]
pub enum StreamEvent {
    Start { partial: AssistantMessage },
    TextStart { content_index: usize, partial: AssistantMessage },
    TextDelta { content_index: usize, delta: String, partial: AssistantMessage },
    TextEnd { content_index: usize, content: String, partial: AssistantMessage },
    ThinkingStart { content_index: usize, partial: AssistantMessage },
    ThinkingDelta { content_index: usize, delta: String, partial: AssistantMessage },
    ThinkingEnd { content_index: usize, content: String, partial: AssistantMessage },
    ToolCallStart { content_index: usize, partial: AssistantMessage },
    ToolCallDelta { content_index: usize, delta: String, partial: AssistantMessage },
    ToolCallEnd { content_index: usize, tool_call: ToolCallContent, partial: AssistantMessage },
    Done { message: AssistantMessage },
    Error { message: AssistantMessage },
}

// ---- Views ----

#[verifier::ext_equal]
pub struct LlmContextView {
    pub system_prompt: Seq<char>,
    pub messages: Seq<MessageView>,
    pub tools: Seq<ToolDefinitionView>,
}

#[verifier::ext_equal]
pub struct StreamOptionsView {
    pub api_key: Option<Seq<char>>,
    pub reasoning: Option<ThinkingLevel>,
    pub session_id: Option<Seq<char>>,
    pub transport: Transport,
    pub temperature: Option<DoubleBits>,
    pub max_tokens: Option<u64>,
    pub thinking_budgets: Option<ThinkingBudgets>,
    pub max_retry_delay_ms: Option<u64>,
    pub on_payload: Option<HookId>,
}

#[verifier::ext_equal]
pub struct StreamRequestView {
    pub options: StreamOptionsView,
    pub cancel: CancellationToken,
}

#[verifier::ext_equal]
pub enum StreamEventView {
    Start { partial: AssistantMessageView },
    TextStart { content_index: usize, partial: AssistantMessageView },
    TextDelta { content_index: usize, delta: Seq<char>, partial: AssistantMessageView },
    TextEnd { content_index: usize, content: Seq<char>, partial: AssistantMessageView },
    ThinkingStart { content_index: usize, partial: AssistantMessageView },
    ThinkingDelta { content_index: usize, delta: Seq<char>, partial: AssistantMessageView },
    ThinkingEnd { content_index: usize, content: Seq<char>, partial: AssistantMessageView },
    ToolCallStart { content_index: usize, partial: AssistantMessageView },
    ToolCallDelta { content_index: usize, delta: Seq<char>, partial: AssistantMessageView },
    ToolCallEnd { content_index: usize, tool_call: ToolCallContentView, partial: AssistantMessageView },
    Done { message: AssistantMessageView },
    Error { message: AssistantMessageView },
}

impl DeepView for LlmContext {
    type V = LlmContextView;

    open spec fn deep_view(&self) -> LlmContextView {
        LlmContextView {
            system_prompt: self.system_prompt@,
            messages: self.messages.deep_view(),
            tools: self.tools.deep_view(),
        }
    }
}

impl DeepView for StreamOptions {
    type V = StreamOptionsView;

    open spec fn deep_view(&self) -> StreamOptionsView {
        StreamOptionsView {
            api_key: self.api_key.deep_view(),
            reasoning: self.reasoning,
            session_id: self.session_id.deep_view(),
            transport: self.transport,
            temperature: self.temperature,
            max_tokens: self.max_tokens,
            thinking_budgets: self.thinking_budgets,
            max_retry_delay_ms: self.max_retry_delay_ms,
            on_payload: self.on_payload,
        }
    }
}

impl DeepView for StreamRequest {
    type V = StreamRequestView;

    open spec fn deep_view(&self) -> StreamRequestView {
        StreamRequestView { options: self.options.deep_view(), cancel: self.cancel }
    }
}

impl DeepView for StreamEvent {
    type V = StreamEventView;

    open spec fn deep_view(&self) -> StreamEventView {
        match self {
            StreamEvent::Start { partial } => StreamEventView::Start {
                partial: partial.deep_view(),
            },
            StreamEvent::TextStart { content_index, partial } => StreamEventView::TextStart {
                content_index: *content_index,
                partial: partial.deep_view(),
            },
            StreamEvent::TextDelta { content_index, delta, partial } => StreamEventView::TextDelta {
                content_index: *content_index,
                delta: delta@,
                partial: partial.deep_view(),
            },
            StreamEvent::TextEnd { content_index, content, partial } => StreamEventView::TextEnd {
                content_index: *content_index,
                content: content@,
                partial: partial.deep_view(),
            },
            StreamEvent::ThinkingStart { content_index, partial } => StreamEventView::ThinkingStart {
                content_index: *content_index,
                partial: partial.deep_view(),
            },
            StreamEvent::ThinkingDelta { content_index, delta, partial } => StreamEventView::ThinkingDelta {
                content_index: *content_index,
                delta: delta@,
                partial: partial.deep_view(),
            },
            StreamEvent::ThinkingEnd { content_index, content, partial } => StreamEventView::ThinkingEnd {
                content_index: *content_index,
                content: content@,
                partial: partial.deep_view(),
            },
            StreamEvent::ToolCallStart { content_index, partial } => StreamEventView::ToolCallStart {
                content_index: *content_index,
                partial: partial.deep_view(),
            },
            StreamEvent::ToolCallDelta { content_index, delta, partial } => StreamEventView::ToolCallDelta {
                content_index: *content_index,
                delta: delta@,
                partial: partial.deep_view(),
            },
            StreamEvent::ToolCallEnd { content_index, tool_call, partial } => StreamEventView::ToolCallEnd {
                content_index: *content_index,
                tool_call: tool_call.deep_view(),
                partial: partial.deep_view(),
            },
            StreamEvent::Done { message } => StreamEventView::Done {
                message: message.deep_view(),
            },
            StreamEvent::Error { message } => StreamEventView::Error {
                message: message.deep_view(),
            },
        }
    }
}

impl Clone for StreamEvent {
    fn clone(&self) -> (copy: Self)
        ensures
            copy.deep_view() == self.deep_view(),
    {
        match self {
            StreamEvent::Start { partial } => StreamEvent::Start {
                partial: partial.clone(),
            },
            StreamEvent::TextStart { content_index, partial } => StreamEvent::TextStart {
                content_index: *content_index,
                partial: partial.clone(),
            },
            StreamEvent::TextDelta { content_index, delta, partial } => StreamEvent::TextDelta {
                content_index: *content_index,
                delta: delta.clone(),
                partial: partial.clone(),
            },
            StreamEvent::TextEnd { content_index, content, partial } => StreamEvent::TextEnd {
                content_index: *content_index,
                content: content.clone(),
                partial: partial.clone(),
            },
            StreamEvent::ThinkingStart { content_index, partial } => StreamEvent::ThinkingStart {
                content_index: *content_index,
                partial: partial.clone(),
            },
            StreamEvent::ThinkingDelta { content_index, delta, partial } => StreamEvent::ThinkingDelta {
                content_index: *content_index,
                delta: delta.clone(),
                partial: partial.clone(),
            },
            StreamEvent::ThinkingEnd { content_index, content, partial } => StreamEvent::ThinkingEnd {
                content_index: *content_index,
                content: content.clone(),
                partial: partial.clone(),
            },
            StreamEvent::ToolCallStart { content_index, partial } => StreamEvent::ToolCallStart {
                content_index: *content_index,
                partial: partial.clone(),
            },
            StreamEvent::ToolCallDelta { content_index, delta, partial } => StreamEvent::ToolCallDelta {
                content_index: *content_index,
                delta: delta.clone(),
                partial: partial.clone(),
            },
            StreamEvent::ToolCallEnd { content_index, tool_call, partial } => StreamEvent::ToolCallEnd {
                content_index: *content_index,
                tool_call: tool_call.clone(),
                partial: partial.clone(),
            },
            StreamEvent::Done { message } => StreamEvent::Done { message: message.clone() },
            StreamEvent::Error { message } => StreamEvent::Error { message: message.clone() },
        }
    }
}

impl StreamOptions {
    /// What may be printed of the key: that there is one.
    pub fn shown_api_key(&self) -> (shown: Option<&'static str>)
        ensures
            match shown {
                Some(text) => self.api_key is Some && text@ == "<redacted>"@,
                None => self.api_key is None,
            },
    {
        match &self.api_key {
            Some(_) => Some("<redacted>"),
            None => None,
        }
    }

    /// What may be printed of the payload hook: that there is one.
    pub fn shown_on_payload(&self) -> (shown: Option<&'static str>)
        ensures
            match shown {
                Some(text) => self.on_payload is Some && text@ == "<fn>"@,
                None => self.on_payload is None,
            },
    {
        match &self.on_payload {
            Some(_) => Some("<fn>"),
            None => None,
        }
    }
}

impl StreamEventView {
    /// The message so far that an incremental event carries; nothing for the first and the
    /// last event of a stream.
    pub open spec fn partial_for_update(self) -> Option<AssistantMessageView> {
        match self {
            StreamEventView::TextStart { partial, .. } => Some(partial),
            StreamEventView::TextDelta { partial, .. } => Some(partial),
            StreamEventView::TextEnd { partial, .. } => Some(partial),
            StreamEventView::ThinkingStart { partial, .. } => Some(partial),
            StreamEventView::ThinkingDelta { partial, .. } => Some(partial),
            StreamEventView::ThinkingEnd { partial, .. } => Some(partial),
            StreamEventView::ToolCallStart { partial, .. } => Some(partial),
            StreamEventView::ToolCallDelta { partial, .. } => Some(partial),
            StreamEventView::ToolCallEnd { partial, .. } => Some(partial),
            StreamEventView::Start { .. } => None,
            StreamEventView::Done { .. } => None,
            StreamEventView::Error { .. } => None,
        }
    }
}

/// The message so far that an incremental event carries; nothing for the first and the last
/// event of a stream.
pub fn stream_event_partial_for_update(event: &StreamEvent) -> (partial: Option<&AssistantMessage>)
    ensures
        partial.deep_view() == event.deep_view().partial_for_update(),
{
    match event {
        StreamEvent::TextStart { partial, .. } => Some(partial),
        StreamEvent::TextDelta { partial, .. } => Some(partial),
        StreamEvent::TextEnd { partial, .. } => Some(partial),
        StreamEvent::ThinkingStart { partial, .. } => Some(partial),
        StreamEvent::ThinkingDelta { partial, .. } => Some(partial),
        StreamEvent::ThinkingEnd { partial, .. } => Some(partial),
        StreamEvent::ToolCallStart { partial, .. } => Some(partial),
        StreamEvent::ToolCallDelta { partial, .. } => Some(partial),
        StreamEvent::ToolCallEnd { partial, .. } => Some(partial),
        StreamEvent::Start { .. } => None,
        StreamEvent::Done { .. } => None,
        StreamEvent::Error { .. } => None,
    }
}

} // verus!
