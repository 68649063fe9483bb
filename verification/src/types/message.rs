//! Messages of a conversation.

use crate::json;
use crate::text::same_text;
use crate::types::content::{
    ContentBlock, ContentBlockView, ImageContent, ImageContentView, TextContent, TextContentView,
    ToolCallContent, ToolCallContentView,
};
use crate::types::model::{StopReason, Usage};
use serde_json::Value;
use vstd::prelude::*;

verus! {

/// A single block of a user message: text or an image.
#[derive(Debug, PartialEq)]
pub enum UserContentBlock {
    Text(TextContent),
    Image(ImageContent),
}

/// The body of a user message: a plain text or structured blocks.
#[derive(Debug, PartialEq)]
pub enum UserContent {
    Plain(String),
    Blocks(Vec<UserContentBlock>),
}

/// Why blocks do not make up a user message: those hold text and images only.
#[derive(Debug, Clone, Copy, PartialEq, Eq, Structural)]
pub enum UserContentBuildError {
    ThinkingBlock,
    ToolCallBlock,
}

/// A message of the user.
#[derive(Debug)]
pub struct UserMessage {
    pub content: UserContent,
    pub timestamp: i64,
}

/// A message of the model.
#[derive(Debug)]
pub struct AssistantMessage {
    pub content: Vec<ContentBlock>,
    pub model: String,
    pub provider: String,
    pub api: String,
    pub response_id: Option<String>,
    pub stop_reason: StopReason,
    pub error_message: Option<String>,
    pub usage: Usage,
    pub timestamp: i64,
}

/// What came of a tool call.
#[derive(Debug)]
pub struct ToolResultMessage {
    pub tool_call_id: String,
    pub tool_name: String,
    pub content: Vec<ContentBlock>,
    pub details: Option<Value>,
    pub is_error: bool,
    pub timestamp: i64,
}

/// Standard LLM message — what the model understands.
#[derive(Debug)]
pub enum Message {
    User(UserMessage),
    Assistant(AssistantMessage),
    ToolResult(ToolResultMessage),
}

/// A message of the application's own, kept out of what the model sees.
#[derive(Debug)]
pub struct CustomMessage {
    pub role: String,
    pub data: Value,
    pub timestamp: i64,
}

/// A message of the transcript: one that the model understands, or one of the application.
#[derive(Debug)]
pub enum AgentMessage {
    User(UserMessage),
    Assistant(AssistantMessage),
    ToolResult(ToolResultMessage),
    Custom(CustomMessage),
}

// ---- Views ----

#[verifier::ext_equal]
pub enum UserContentBlockView {
    Text(TextContentView),
    Image(ImageContentView),
}

#[verifier::ext_equal]
pub enum UserContentView {
    Plain(Seq<char>),
    Blocks(Seq<UserContentBlockView>),
}

#[verifier::ext_equal]
pub struct UserMessageView {
    pub content: UserContentView,
    pub timestamp: i64,
}

#[verifier::ext_equal]
pub struct AssistantMessageView {
    pub content: Seq<ContentBlockView>,
    pub model: Seq<char>,
    pub provider: Seq<char>,
    pub api: Seq<char>,
    pub response_id: Option<Seq<char>>,
    pub stop_reason: StopReason,
    pub error_message: Option<Seq<char>>,
    pub usage: Usage,
    pub timestamp: i64,
}

#[verifier::ext_equal]
pub struct ToolResultMessageView {
    pub tool_call_id: Seq<char>,
    pub tool_name: Seq<char>,
    pub content: Seq<ContentBlockView>,
    pub details: Option<Value>,
    pub is_error: bool,
    pub timestamp: i64,
}

#[verifier::ext_equal]
pub enum MessageView {
    User(UserMessageView),
    Assistant(AssistantMessageView),
    ToolResult(ToolResultMessageView),
}

#[verifier::ext_equal]
pub struct CustomMessageView {
    pub role: Seq<char>,
    pub data: Value,
    pub timestamp: i64,
}

#[verifier::ext_equal]
pub enum AgentMessageView {
    User(UserMessageView),
    Assistant(AssistantMessageView),
    ToolResult(ToolResultMessageView),
    Custom(CustomMessageView),
}

impl DeepView for UserContentBlock {
    type V = UserContentBlockView;

    open spec fn deep_view(&self) -> UserContentBlockView {
        match self {
            UserContentBlock::Text(t) => UserContentBlockView::Text(t.deep_view()),
            UserContentBlock::Image(i) => UserContentBlockView::Image(i.deep_view()),
        }
    }
}

impl DeepView for UserContent {
    type V = UserContentView;

    open spec fn deep_view(&self) -> UserContentView {
        match self {
            UserContent::Plain(text) => UserContentView::Plain(text@),
            UserContent::Blocks(blocks) => UserContentView::Blocks(blocks.deep_view()),
        }
    }
}

impl DeepView for UserMessage {
    type V = UserMessageView;

    open spec fn deep_view(&self) -> UserMessageView {
        UserMessageView { content: self.content.deep_view(), timestamp: self.timestamp }
    }
}

impl DeepView for AssistantMessage {
    type V = AssistantMessageView;

    open spec fn deep_view(&self) -> AssistantMessageView {
        AssistantMessageView {
            content: self.content.deep_view(),
            model: self.model@,
            provider: self.provider@,
            api: self.api@,
            response_id: self.response_id.deep_view(),
            stop_reason: self.stop_reason,
            error_message: self.error_message.deep_view(),
            usage: self.usage,
            timestamp: self.timestamp,
        }
    }
}

impl DeepView for ToolResultMessage {
    type V = ToolResultMessageView;

    open spec fn deep_view(&self) -> ToolResultMessageView {
        ToolResultMessageView {
            tool_call_id: self.tool_call_id@,
            tool_name: self.tool_name@,
            content: self.content.deep_view(),
            details: self.details,
            is_error: self.is_error,
            timestamp: self.timestamp,
        }
    }
}

impl DeepView for Message {
    type V = MessageView;

    open spec fn deep_view(&self) -> MessageView {
        match self {
            Message::User(m) => MessageView::User(m.deep_view()),
            Message::Assistant(m) => MessageView::Assistant(m.deep_view()),
            Message::ToolResult(m) => MessageView::ToolResult(m.deep_view()),
        }
    }
}

impl DeepView for CustomMessage {
    type V = CustomMessageView;

    open spec fn deep_view(&self) -> CustomMessageView {
        CustomMessageView { role: self.role@, data: self.data, timestamp: self.timestamp }
    }
}

impl DeepView for AgentMessage {
    type V = AgentMessageView;

    open spec fn deep_view(&self) -> AgentMessageView {
        match self {
            AgentMessage::User(m) => AgentMessageView::User(m.deep_view()),
            AgentMessage::Assistant(m) => AgentMessageView::Assistant(m.deep_view()),
            AgentMessage::ToolResult(m) => AgentMessageView::ToolResult(m.deep_view()),
            AgentMessage::Custom(m) => AgentMessageView::Custom(m.deep_view()),
        }
    }
}

// ---- Copies ----

impl Clone for UserContentBlock {
    fn clone(&self) -> (copy: Self)
        ensures
            copy.deep_view() == self.deep_view(),
    {
        match self {
            UserContentBlock::Text(t) => UserContentBlock::Text(t.clone()),
            UserContentBlock::Image(i) => UserContentBlock::Image(i.clone()),
        }
    }
}

impl Clone for UserContent {
    fn clone(&self) -> (copy: Self)
        ensures
            copy.deep_view() == self.deep_view(),
    {
        match self {
            UserContent::Plain(text) => UserContent::Plain(text.clone()),
            UserContent::Blocks(blocks) => UserContent::Blocks(blocks.clone()),
        }
    }
}

impl Clone for UserMessage {
    fn clone(&self) -> (copy: Self)
        ensures
            copy.deep_view() == self.deep_view(),
    {
        UserMessage { content: self.content.clone(), timestamp: self.timestamp }
    }
}

impl Clone for AssistantMessage {
    fn clone(&self) -> (copy: Self)
        ensures
            copy.deep_view() == self.deep_view(),
    {
        AssistantMessage {
            content: self.content.clone(),
            model: self.model.clone(),
            provider: self.provider.clone(),
            api: self.api.clone(),
            response_id: self.response_id.clone(),
            stop_reason: self.stop_reason,
            error_message: self.error_message.clone(),
            usage: self.usage,
            timestamp: self.timestamp,
        }
    }
}

impl Clone for ToolResultMessage {
    fn clone(&self) -> (copy: Self)
        ensures
            copy.deep_view() == self.deep_view(),
    {
        ToolResultMessage {
            tool_call_id: self.tool_call_id.clone(),
            tool_name: self.tool_name.clone(),
            content: self.content.clone(),
            details: json::clone_optional(&self.details),
            is_error: self.is_error,
            timestamp: self.timestamp,
        }
    }
}

impl Clone for Message {
    fn clone(&self) -> (copy: Self)
        ensures
            copy.deep_view() == self.deep_view(),
    {
        match self {
            Message::User(m) => Message::User(m.clone()),
            Message::Assistant(m) => Message::Assistant(m.clone()),
            Message::ToolResult(m) => Message::ToolResult(m.clone()),
        }
    }
}

impl Clone for CustomMessage {
    fn clone(&self) -> (copy: Self)
        ensures
            copy.deep_view() == self.deep_view(),
    {
        CustomMessage {
            role: self.role.clone(),
            data: self.data.clone(),
            timestamp: self.timestamp,
        }
    }
}

impl Clone for AgentMessage {
    fn clone(&self) -> (copy: Self)
        ensures
            copy.deep_view() == self.deep_view(),
    {
        match self {
            AgentMessage::User(m) => AgentMessage::User(m.clone()),
            AgentMessage::Assistant(m) => AgentMessage::Assistant(m.clone()),
            AgentMessage::ToolResult(m) => AgentMessage::ToolResult(m.clone()),
            AgentMessage::Custom(m) => AgentMessage::Custom(m.clone()),
        }
    }
}

// ---- User content ----

impl ContentBlockView {
    /// The block as a block of a user message, or why it cannot be one.
    pub open spec fn as_user_block(self) -> Result<UserContentBlockView, UserContentBuildError> {
        match self {
            ContentBlockView::Text(t) => Ok(UserContentBlockView::Text(t)),
            ContentBlockView::Image(i) => Ok(UserContentBlockView::Image(i)),
            ContentBlockView::Thinking(_) => Err(UserContentBuildError::ThinkingBlock),
            ContentBlockView::ToolCall(_) => Err(UserContentBuildError::ToolCallBlock),
        }
    }

    /// The tool call that the block holds, if it holds one.
    pub open spec fn as_tool_call(self) -> Option<ToolCallContentView> {
        match self {
            ContentBlockView::ToolCall(call) => Some(call),
            _ => None,
        }
    }
}

impl UserContentView {
    /// The body of a user message with the given blocks: a plain text where the only block is
    /// an unsigned text, the blocks themselves otherwise.
    pub open spec fn from_blocks(blocks: Seq<UserContentBlockView>) -> UserContentView {
        if blocks.len() == 1 && (blocks[0] matches UserContentBlockView::Text(t)
            && t.text_signature is None) {
            UserContentView::Plain(blocks[0]->Text_0.text)
        } else {
            UserContentView::Blocks(blocks)
        }
    }

    /// The blocks that a body stands for.
    pub open spec fn to_blocks(self) -> Seq<UserContentBlockView> {
        match self {
            UserContentView::Plain(text) => seq![
                UserContentBlockView::Text(TextContentView { text, text_signature: None }),
            ],
            UserContentView::Blocks(blocks) => blocks,
        }
    }
}

impl UserContent {
    /// Converts LLM [`ContentBlock`]s into user message content.
    ///
    /// Returns an error if any block is not text or image (no data is dropped): that of the
    /// first such block.
    pub fn try_from_llm_blocks(blocks: Vec<ContentBlock>) -> (result: Result<
        Self,
        UserContentBuildError,
    >)
        ensures
            match result {
                Ok(content) => {
                    &&& forall|i: int|
                        0 <= i < blocks@.len() ==> (#[trigger] blocks@[i]).deep_view().as_user_block() is Ok
                    &&& content.deep_view() == UserContentView::from_blocks(
                        blocks.deep_view().map_values(
                            |b: ContentBlockView| b.as_user_block()->Ok_0,
                        ),
                    )
                },
                Err(error) => exists|i: int|
                    {
                        &&& 0 <= i < blocks@.len()
                        &&& (#[trigger] blocks@[i]).deep_view().as_user_block() == Err::<
                            UserContentBlockView,
                            _,
                        >(error)
                        &&& forall|j: int|
                            0 <= j < i ==> (#[trigger] blocks@[j]).deep_view().as_user_block() is Ok
                    },
            },
    {
        let mut out: Vec<UserContentBlock> = Vec::new();
        let ghost user = |b: ContentBlockView| b.as_user_block()->Ok_0;
        let mut i: usize = 0;
        while i < blocks.len()
            invariant
                0 <= i <= blocks@.len(),
                user == (|b: ContentBlockView| b.as_user_block()->Ok_0),
                forall|j: int|
                    0 <= j < i ==> (#[trigger] blocks@[j]).deep_view().as_user_block() is Ok,
                out.deep_view() == blocks.deep_view().take(i as int).map_values(user),
            decreases blocks.len() - i,
        {
            let ghost before = out.deep_view();
            match &blocks[i] {
                ContentBlock::Text(t) => out.push(UserContentBlock::Text(t.clone())),
                ContentBlock::Image(image) => out.push(UserContentBlock::Image(image.clone())),
                ContentBlock::Thinking(_) => {
                    return Err(UserContentBuildError::ThinkingBlock);
                },
                ContentBlock::ToolCall(_) => {
                    return Err(UserContentBuildError::ToolCallBlock);
                },
            }
            assert(out.deep_view() =~= before.push(user(blocks@[i as int].deep_view())));
            assert(blocks.deep_view().take(i as int + 1).map_values(user)
                =~= blocks.deep_view().take(i as int).map_values(user).push(
                user(blocks@[i as int].deep_view()),
            ));
            i = i + 1;
        }
        assert(blocks.deep_view().take(i as int) =~= blocks.deep_view());
        if out.len() == 1 {
            assert(out.deep_view()[0] == out@[0].deep_view());
            if let UserContentBlock::Text(t) = &out[0] {
                if t.text_signature.is_none() {
                    return Ok(UserContent::Plain(t.text.clone()));
                }
            }
        }
        Ok(UserContent::Blocks(out))
    }
}

impl UserContentBuildError {
    /// The text of the error.
    pub open spec fn text(self) -> Seq<char> {
        match self {
            UserContentBuildError::ThinkingBlock => {
                "user message content cannot include a thinking block"@
            },
            UserContentBuildError::ToolCallBlock => {
                "user message content cannot include a tool call block"@
            },
        }
    }

    /// Says what went wrong.
    pub fn to_text(&self) -> (text: String)
        ensures
            text@ == self.text(),
    {
        match self {
            UserContentBuildError::ThinkingBlock => {
                "user message content cannot include a thinking block".to_owned()
            },
            UserContentBuildError::ToolCallBlock => {
                "user message content cannot include a tool call block".to_owned()
            },
        }
    }
}

// ---- Roles and conversions ----

impl MessageView {
    pub open spec fn role(self) -> Seq<char> {
        match self {
            MessageView::User(_) => "user"@,
            MessageView::Assistant(_) => "assistant"@,
            MessageView::ToolResult(_) => "toolResult"@,
        }
    }
}

impl Message {
    pub fn role(&self) -> (role: &str)
        ensures
            role@ == self.deep_view().role(),
    {
        match self {
            Message::User(_) => "user",
            Message::Assistant(_) => "assistant",
            Message::ToolResult(_) => "toolResult",
        }
    }
}

impl AgentMessageView {
    pub open spec fn role(self) -> Seq<char> {
        match self {
            AgentMessageView::User(_) => "user"@,
            AgentMessageView::Assistant(_) => "assistant"@,
            AgentMessageView::ToolResult(_) => "toolResult"@,
            AgentMessageView::Custom(c) => c.role,
        }
    }

    /// The message as the model understands it; nothing for a message of the application.
    pub open spec fn to_message(self) -> Option<MessageView> {
        match self {
            AgentMessageView::User(m) => Some(MessageView::User(m)),
            AgentMessageView::Assistant(m) => Some(MessageView::Assistant(m)),
            AgentMessageView::ToolResult(m) => Some(MessageView::ToolResult(m)),
            AgentMessageView::Custom(_) => None,
        }
    }

    pub open spec fn from_message(m: MessageView) -> AgentMessageView {
        match m {
            MessageView::User(m) => AgentMessageView::User(m),
            MessageView::Assistant(m) => AgentMessageView::Assistant(m),
            MessageView::ToolResult(m) => AgentMessageView::ToolResult(m),
        }
    }
}

impl AgentMessage {
    pub fn role(&self) -> (role: &str)
        ensures
            role@ == self.deep_view().role(),
    {
        match self {
            AgentMessage::User(_) => "user",
            AgentMessage::Assistant(_) => "assistant",
            AgentMessage::ToolResult(_) => "toolResult",
            AgentMessage::Custom(c) => c.role.as_str(),
        }
    }

    /// Whether the message stands in the role of the model.
    pub fn has_assistant_role(&self) -> (yes: bool)
        ensures
            yes == (self.deep_view().role() == "assistant"@),
    {
        same_text(self.role(), "assistant")
    }

    pub fn as_assistant(&self) -> (message: Option<&AssistantMessage>)
        ensures
            message == (match *self {
                AgentMessage::Assistant(m) => Some(&m),
                _ => None,
            }),
    {
        match self {
            AgentMessage::Assistant(m) => Some(m),
            _ => None,
        }
    }

    pub fn as_tool_result(&self) -> (message: Option<&ToolResultMessage>)
        ensures
            message == (match *self {
                AgentMessage::ToolResult(m) => Some(&m),
                _ => None,
            }),
    {
        match self {
            AgentMessage::ToolResult(m) => Some(m),
            _ => None,
        }
    }

    pub fn into_message(self) -> (message: Option<Message>)
        ensures
            message.deep_view() == self.deep_view().to_message(),
            message == (match self {
                AgentMessage::User(m) => Some(Message::User(m)),
                AgentMessage::Assistant(m) => Some(Message::Assistant(m)),
                AgentMessage::ToolResult(m) => Some(Message::ToolResult(m)),
                AgentMessage::Custom(_) => None,
            }),
    {
        match self {
            AgentMessage::User(m) => Some(Message::User(m)),
            AgentMessage::Assistant(m) => Some(Message::Assistant(m)),
            AgentMessage::ToolResult(m) => Some(Message::ToolResult(m)),
            AgentMessage::Custom(_) => None,
        }
    }
}

impl From<Message> for AgentMessage {
    fn from(m: Message) -> (message: Self) {
        match m {
            Message::User(u) => AgentMessage::User(u),
            Message::Assistant(a) => AgentMessage::Assistant(a),
            Message::ToolResult(t) => AgentMessage::ToolResult(t),
        }
    }
}

impl vstd::std_specs::convert::FromSpecImpl<Message> for AgentMessage {
    open spec fn obeys_from_spec() -> bool {
        true
    }

    open spec fn from_spec(m: Message) -> AgentMessage {
        match m {
            Message::User(u) => AgentMessage::User(u),
            Message::Assistant(a) => AgentMessage::Assistant(a),
            Message::ToolResult(t) => AgentMessage::ToolResult(t),
        }
    }
}

/// What the model gets to see of a transcript by default.
pub open spec fn to_llm(messages: Seq<AgentMessageView>) -> Seq<MessageView> {
    messages.filter_map(|m: AgentMessageView| m.to_message())
}

/// Default `convert_to_llm`: passes through standard messages, drops custom.
pub fn default_convert_to_llm(messages: Vec<AgentMessage>) -> (converted: Vec<Message>)
    ensures
        converted.deep_view() == to_llm(messages.deep_view()),
{
    let ghost all = messages.deep_view();
    let ghost keep = |m: AgentMessageView| m.to_message();
    let mut converted: Vec<Message> = Vec::new();
    let mut i: usize = 0;
    while i < messages.len()
        invariant
            0 <= i <= messages.len(),
            all == messages.deep_view(),
            keep == (|m: AgentMessageView| m.to_message()),
            converted.deep_view() == all.take(i as int).filter_map(keep),
        decreases messages.len() - i,
    {
        let ghost before = converted.deep_view();
        let message = messages[i].clone();
        if let Some(standard) = message.into_message() {
            converted.push(standard);
            assert(converted.deep_view() =~= before.push(standard.deep_view()));
        }
        proof {
            all.lemma_filter_map_take_succ(keep, i as int);
        }
        i = i + 1;
    }
    assert(all.take(i as int) =~= all);
    converted
}

// ---- Tool calls of a message ----

impl AssistantMessageView {
    /// The tool calls that a message asks for, in the order in which it asks.
    pub open spec fn tool_calls(self) -> Seq<ToolCallContentView> {
        self.content.filter_map(|b: ContentBlockView| b.as_tool_call())
    }
}

impl AssistantMessage {
    /// The tool calls that the message asks for, in the order in which it asks.
    pub fn tool_calls(&self) -> (calls: Vec<ToolCallContent>)
        ensures
            calls.deep_view() == self.deep_view().tool_calls(),
    {
        let ghost all = self.content.deep_view();
        let ghost keep = |b: ContentBlockView| b.as_tool_call();
        let mut calls: Vec<ToolCallContent> = Vec::new();
        let mut i: usize = 0;
        while i < self.content.len()
            invariant
                0 <= i <= self.content.len(),
                all == self.content.deep_view(),
                keep == (|b: ContentBlockView| b.as_tool_call()),
                calls.deep_view() == all.take(i as int).filter_map(keep),
            decreases self.content.len() - i,
        {
            let ghost before = calls.deep_view();
            if let ContentBlock::ToolCall(call) = &self.content[i] {
                calls.push(call.clone());
                assert(calls.deep_view() =~= before.push(call.deep_view()));
            }
            proof {
                all.lemma_filter_map_take_succ(keep, i as int);
            }
            i = i + 1;
        }
        assert(all.take(i as int) =~= all);
        calls
    }
}

} // verus!
