//! The messages that end a model's turn, and the errors that they tell of.

use crate::clock::{now_millis, timestamp_at};
use crate::types::content::{ContentBlock, ContentBlockView, TextContent, TextContentView};
use crate::types::error::{AgentError, AgentErrorView};
use crate::types::message::{
    AgentMessage, AgentMessageView, AssistantMessage, AssistantMessageView,
};
use crate::types::model::{Model, ModelView, StopReason, Usage};
use vstd::prelude::*;

verus! {

impl AgentMessageView {
    /// The error text that the message carries as a message of the model which stopped for the
    /// given reason.
    pub open spec fn error_text(self, reason: StopReason) -> Option<Seq<char>> {
        match self {
            AgentMessageView::Assistant(m) => if m.stop_reason == reason {
                m.error_message
            } else {
                None
            },
            _ => None,
        }
    }
}

/// The error text of the last message that carries one for the given reason.
pub open spec fn terminal_error(messages: Seq<AgentMessageView>, reason: StopReason) -> Option<
    Seq<char>,
>
    decreases messages.len(),
{
    if messages.len() == 0 {
        None
    } else if messages.last().error_text(reason) is Some {
        messages.last().error_text(reason)
    } else {
        terminal_error(messages.drop_last(), reason)
    }
}

/// The error text of the last message that carries one for the given reason.
pub fn terminal_error_message(messages: &Vec<AgentMessage>, stop_reason: StopReason) -> (text:
    Option<String>)
    ensures
        text.deep_view() == terminal_error(messages.deep_view(), stop_reason),
{
    let ghost all = messages.deep_view();
    let mut i: usize = messages.len();
    assert(all.take(i as int) =~= all);
    while i > 0
        invariant
            0 <= i <= messages.len(),
            all == messages.deep_view(),
            terminal_error(all, stop_reason) == terminal_error(all.take(i as int), stop_reason),
        decreases i,
    {
        i = i - 1;
        proof {
            assert(all.take(i as int + 1).drop_last() =~= all.take(i as int));
            assert(all.take(i as int + 1).last() == messages@[i as int].deep_view());
        }
        if let AgentMessage::Assistant(assistant) = &messages[i] {
            if assistant.stop_reason == stop_reason {
                if let Some(text) = &assistant.error_message {
                    return Some(text.clone());
                }
            }
        }
    }
    None
}

impl AssistantMessageView {
    /// The error with which a message of the model fails a run.
    pub open spec fn failure(self) -> AgentErrorView {
        AgentErrorView::Stream(
            match self.error_message {
                Some(text) => text,
                None => "Unknown stream error"@,
            },
        )
    }

    /// A message of the model that tells of an error.
    pub open spec fn error(model: ModelView, text: Seq<char>, now: i64) -> AssistantMessageView {
        AssistantMessageView {
            content: seq![
                ContentBlockView::Text(
                    TextContentView { text: Seq::empty(), text_signature: None },
                ),
            ],
            model: model.id,
            provider: model.provider,
            api: model.api,
            response_id: None,
            stop_reason: StopReason::Error,
            error_message: Some(text),
            usage: Usage::zero(),
            timestamp: now,
        }
    }

    /// The message that closes an aborted answer of the model: what had come of it, if anything
    /// had, marked as aborted.
    pub open spec fn aborted(
        model: ModelView,
        partial: Option<AssistantMessageView>,
        now: i64,
    ) -> AssistantMessageView {
        match partial {
            Some(message) => AssistantMessageView {
                stop_reason: StopReason::Aborted,
                error_message: Some("Aborted"@),
                ..message
            },
            None => AssistantMessageView {
                stop_reason: StopReason::Aborted,
                ..AssistantMessageView::error(model, "Aborted"@, now)
            },
        }
    }

    /// The message, with an error text wherever its stop reason calls for one.
    pub open spec fn normalized(self) -> AssistantMessageView {
        if self.error_message is None && self.stop_reason == StopReason::Aborted {
            AssistantMessageView { error_message: Some("Aborted"@), ..self }
        } else if self.error_message is None && self.stop_reason == StopReason::Error {
            AssistantMessageView { error_message: Some("Unknown stream error"@), ..self }
        } else {
            self
        }
    }

    /// The message of a stream's error event: stopped by an error, unless it was aborted.
    pub open spec fn as_stream_error(self) -> AssistantMessageView {
        if self.stop_reason == StopReason::Aborted {
            self
        } else {
            AssistantMessageView { stop_reason: StopReason::Error, ..self }
        }
    }
}

/// The error with which a message of the model fails a run.
pub fn failure_from_terminal_message(message: &AssistantMessage) -> (error: AgentError)
    ensures
        error.deep_view() == message.deep_view().failure(),
{
    match &message.error_message {
        Some(text) => AgentError::Stream(text.clone()),
        None => AgentError::Stream("Unknown stream error".to_owned()),
    }
}

/// A message of the model that tells of an error, made at the given time.
pub fn error_assistant_message_at(model: &Model, error: &str, now: i64) -> (message:
    AssistantMessage)
    ensures
        message.deep_view() == AssistantMessageView::error(model.deep_view(), error@, now),
{
    let block = ContentBlock::Text(TextContent { text: String::new(), text_signature: None });
    let mut content: Vec<ContentBlock> = Vec::new();
    content.push(block);
    assert(content.deep_view() =~= seq![block.deep_view()]);
    AssistantMessage {
        content,
        model: model.id.clone(),
        provider: model.provider.clone(),
        api: model.api.clone(),
        response_id: None,
        stop_reason: StopReason::Error,
        error_message: Some(error.to_owned()),
        usage: Usage::default(),
        timestamp: now,
    }
}

/// A message of the model that tells of an error, made now.
pub fn create_error_assistant_message(model: &Model, error: &str) -> (message: AssistantMessage)
    ensures
        message.deep_view() == AssistantMessageView::error(
            model.deep_view(),
            error@,
            message.timestamp,
        ),
        exists|since_epoch: Option<std::time::Duration>|
            message.timestamp == #[trigger] timestamp_at(since_epoch),
{
    error_assistant_message_at(model, error, now_millis())
}

/// The message that closes an aborted answer of the model, made at the given time.
pub fn create_abort_message(model: &Model, partial: Option<&AssistantMessage>, now: i64) -> (message:
    AssistantMessage)
    ensures
        message.deep_view() == AssistantMessageView::aborted(
            model.deep_view(),
            partial.deep_view(),
            now,
        ),
{
    match partial {
        Some(partial) => {
            let mut message = partial.clone();
            message.stop_reason = StopReason::Aborted;
            message.error_message = Some("Aborted".to_owned());
            message
        },
        None => {
            let mut message = error_assistant_message_at(model, "Aborted", now);
            message.stop_reason = StopReason::Aborted;
            message
        },
    }
}

/// Gives a message an error text wherever its stop reason calls for one.
pub fn normalize_terminal_assistant_message(message: AssistantMessage) -> (normalized:
    AssistantMessage)
    ensures
        normalized.deep_view() == message.deep_view().normalized(),
{
    let mut message = message;
    if message.error_message.is_none() {
        if message.stop_reason == StopReason::Aborted {
            message.error_message = Some("Aborted".to_owned());
        } else if message.stop_reason == StopReason::Error {
            message.error_message = Some("Unknown stream error".to_owned());
        }
    }
    message
}

/// The message of a stream's error event: stopped by an error, unless it was aborted.
pub fn stream_error_message(message: AssistantMessage) -> (marked: AssistantMessage)
    ensures
        marked.deep_view() == message.deep_view().as_stream_error(),
{
    let mut message = message;
    if message.stop_reason != StopReason::Aborted {
        message.stop_reason = StopReason::Error;
    }
    message
}

} // verus!
