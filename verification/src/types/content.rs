//! Content blocks of messages.

use serde_json::Value;
use vstd::prelude::*;

verus! {

/// A piece of text.
#[derive(Debug, PartialEq)]
pub struct TextContent {
    pub text: String,
    pub text_signature: Option<String>,
}

/// An image, by its data and its MIME type.
#[derive(Debug, PartialEq)]
pub struct ImageContent {
    pub data: String,
    pub mime_type: String,
}

/// A piece of the model's reasoning.
#[derive(Debug)]
pub struct ThinkingContent {
    pub thinking: String,
    pub thinking_signature: Option<String>,
    pub redacted: Option<bool>,
}

/// A request of the model to call a tool.
#[derive(Debug)]
pub struct ToolCallContent {
    pub id: String,
    pub name: String,
    pub arguments: Value,
}

/// One block of a message's content.
#[derive(Debug)]
#[non_exhaustive]
pub enum ContentBlock {
    Text(TextContent),
    Image(ImageContent),
    Thinking(ThinkingContent),
    ToolCall(ToolCallContent),
}

#[verifier::ext_equal]
pub struct TextContentView {
    pub text: Seq<char>,
    pub text_signature: Option<Seq<char>>,
}

#[verifier::ext_equal]
pub struct ImageContentView {
    pub data: Seq<char>,
    pub mime_type: Seq<char>,
}

#[verifier::ext_equal]
pub struct ThinkingContentView {
    pub thinking: Seq<char>,
    pub thinking_signature: Option<Seq<char>>,
    pub redacted: Option<bool>,
}

#[verifier::ext_equal]
pub struct ToolCallContentView {
    pub id: Seq<char>,
    pub name: Seq<char>,
    pub arguments: Value,
}

#[verifier::ext_equal]
pub enum ContentBlockView {
    Text(TextContentView),
    Image(ImageContentView),
    Thinking(ThinkingContentView),
    ToolCall(ToolCallContentView),
}

impl DeepView for TextContent {
    type V = TextContentView;

    open spec fn deep_view(&self) -> TextContentView {
        TextContentView { text: self.text@, text_signature: self.text_signature.deep_view() }
    }
}

impl DeepView for ImageContent {
    type V = ImageContentView;

    open spec fn deep_view(&self) -> ImageContentView {
        ImageContentView { data: self.data@, mime_type: self.mime_type@ }
    }
}

impl DeepView for ThinkingContent {
    type V = ThinkingContentView;

    open spec fn deep_view(&self) -> ThinkingContentView {
        ThinkingContentView {
            thinking: self.thinking@,
            thinking_signature: self.thinking_signature.deep_view(),
            redacted: self.redacted,
        }
    }
}

impl DeepView for ToolCallContent {
    type V = ToolCallContentView;

    open spec fn deep_view(&self) -> ToolCallContentView {
        ToolCallContentView { id: self.id@, name: self.name@, arguments: self.arguments }
    }
}

impl DeepView for ContentBlock {
    type V = ContentBlockView;

    open spec fn deep_view(&self) -> ContentBlockView {
        match self {
            ContentBlock::Text(t) => ContentBlockView::Text(t.deep_view()),
            ContentBlock::Image(i) => ContentBlockView::Image(i.deep_view()),
            ContentBlock::Thinking(t) => ContentBlockView::Thinking(t.deep_view()),
            ContentBlock::ToolCall(c) => ContentBlockView::ToolCall(c.deep_view()),
        }
    }
}

impl Clone for TextContent {
    fn clone(&self) -> (copy: Self)
        ensures
            copy.deep_view() == self.deep_view(),
    {
        TextContent { text: self.text.clone(), text_signature: self.text_signature.clone() }
    }
}

impl Clone for ImageContent {
    fn clone(&self) -> (copy: Self)
        ensures
            copy.deep_view() == self.deep_view(),
    {
        ImageContent { data: self.data.clone(), mime_type: self.mime_type.clone() }
    }
}

impl Clone for ThinkingContent {
    fn clone(&self) -> (copy: Self)
        ensures
            copy.deep_view() == self.deep_view(),
    {
        ThinkingContent {
            thinking: self.thinking.clone(),
            thinking_signature: self.thinking_signature.clone(),
            redacted: self.redacted,
        }
    }
}

impl Clone for ToolCallContent {
    fn clone(&self) -> (copy: Self)
        ensures
            copy.deep_view() == self.deep_view(),
    {
        ToolCallContent {
            id: self.id.clone(),
            name: self.name.clone(),
            arguments: self.arguments.clone(),
        }
    }
}

impl Clone for ContentBlock {
    fn clone(&self) -> (copy: Self)
        ensures
            copy.deep_view() == self.deep_view(),
    {
        match self {
            ContentBlock::Text(t) => ContentBlock::Text(t.clone()),
            ContentBlock::Image(i) => ContentBlock::Image(i.clone()),
            ContentBlock::Thinking(t) => ContentBlock::Thinking(t.clone()),
            ContentBlock::ToolCall(c) => ContentBlock::ToolCall(c.clone()),
        }
    }
}

} // verus!
