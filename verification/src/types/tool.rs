//! Tools, what they return, and what the hooks around a tool call see and answer.

use crate::json;
use crate::types::config::HookId;
use crate::types::content::{
    ContentBlock, ContentBlockView, TextContent, TextContentView, ToolCallContent,
    ToolCallContentView,
};
use crate::types::message::{
    AgentMessage, AgentMessageView, AssistantMessage, AssistantMessageView,
};
use serde_json::Value;
use vstd::prelude::*;

verus! {

/// Final or partial result produced by a tool.
#[derive(Debug)]
pub struct AgentToolResult {
    pub content: Vec<ContentBlock>,
    pub details: Option<Value>,
}

/// Tool schema definition sent to the LLM.
#[derive(Debug)]
pub struct ToolDefinition {
    pub name: String,
    pub description: String,
    pub parameters: Value,
}

/// A tool as the runtime knows it. `handle` names the code of the application that prepares
/// the tool's arguments and executes it.
#[derive(Debug)]
pub struct AgentTool {
    pub handle: HookId,
    pub name: String,
    pub label: String,
    pub description: String,
    pub parameters: Value,
}

/// Context snapshot passed into the low-level agent loop.
#[derive(Debug)]
pub struct AgentContext {
    pub system_prompt: String,
    pub messages: Vec<AgentMessage>,
    pub tools: Vec<AgentTool>,
}

/// Whether the tool calls of one message run one after the other or at the same time.
#[derive(Debug, Clone, Copy, PartialEq, Eq, Structural)]
#[non_exhaustive]
pub enum ToolExecutionMode {
    Sequential,
    Parallel,
}

/// Snapshot of the agent context passed to tool hooks.
#[derive(Debug)]
pub struct AgentContextSnapshot {
    pub system_prompt: String,
    pub messages: Vec<AgentMessage>,
    pub tools: Vec<AgentTool>,
}

/// Context passed to `before_tool_call`.
///
/// `args` holds validated arguments (after `prepare_arguments` and JSON Schema validation).
/// The hook may change them; the changed arguments are used for execution without a second
/// validation pass.
#[derive(Debug)]
pub struct BeforeToolCallContext {
    pub assistant_message: AssistantMessage,
    pub tool_call: ToolCallContent,
    pub args: Value,
    pub context: AgentContextSnapshot,
}

/// Result from `before_tool_call`. Return `block: true` to prevent execution.
#[derive(Debug)]
pub struct BeforeToolCallResult {
    pub block: bool,
    pub reason: Option<String>,
}

/// Context passed to `after_tool_call`.
#[derive(Debug)]
pub struct AfterToolCallContext {
    pub assistant_message: AssistantMessage,
    pub tool_call: ToolCallContent,
    pub args: Value,
    pub result: AgentToolResult,
    pub is_error: bool,
    pub context: AgentContextSnapshot,
}

/// Partial override returned from `after_tool_call`.
/// Omitted fields keep original values. No deep merge.
#[derive(Debug)]
pub struct AfterToolCallResult {
    pub content: Option<Vec<ContentBlock>>,
    pub details: Option<Value>,
    pub is_error: Option<bool>,
}

// ---- Views ----

#[verifier::ext_equal]
pub struct AgentToolResultView {
    pub content: Seq<ContentBlockView>,
    pub details: Option<Value>,
}

#[verifier::ext_equal]
pub struct ToolDefinitionView {
    pub name: Seq<char>,
    pub description: Seq<char>,
    pub parameters: Value,
}

#[verifier::ext_equal]
pub struct AgentToolView {
    pub handle: HookId,
    pub name: Seq<char>,
    pub label: Seq<char>,
    pub description: Seq<char>,
    pub parameters: Value,
}

#[verifier::ext_equal]
pub struct AgentContextView {
    pub system_prompt: Seq<char>,
    pub messages: Seq<AgentMessageView>,
    pub tools: Seq<AgentToolView>,
}

#[verifier::ext_equal]
pub struct BeforeToolCallContextView {
    pub assistant_message: AssistantMessageView,
    pub tool_call: ToolCallContentView,
    pub args: Value,
    pub context: AgentContextView,
}

#[verifier::ext_equal]
pub struct BeforeToolCallResultView {
    pub block: bool,
    pub reason: Option<Seq<char>>,
}

#[verifier::ext_equal]
pub struct AfterToolCallContextView {
    pub assistant_message: AssistantMessageView,
    pub tool_call: ToolCallContentView,
    pub args: Value,
    pub result: AgentToolResultView,
    pub is_error: bool,
    pub context: AgentContextView,
}

#[verifier::ext_equal]
pub struct AfterToolCallResultView {
    pub content: Option<Seq<ContentBlockView>>,
    pub details: Option<Value>,
    pub is_error: Option<bool>,
}

impl DeepView for AgentToolResult {
    type V = AgentToolResultView;

    open spec fn deep_view(&self) -> AgentToolResultView {
        AgentToolResultView { content: self.content.deep_view(), details: self.details }
    }
}

impl DeepView for ToolDefinition {
    type V = ToolDefinitionView;

    open spec fn deep_view(&self) -> ToolDefinitionView {
        ToolDefinitionView {
            name: self.name@,
            description: self.description@,
            parameters: self.parameters,
        }
    }
}

impl DeepView for AgentTool {
    type V = AgentToolView;

    open spec fn deep_view(&self) -> AgentToolView {
        AgentToolView {
            handle: self.handle,
            name: self.name@,
            label: self.label@,
            description: self.description@,
            parameters: self.parameters,
        }
    }
}

impl DeepView for AgentContext {
    type V = AgentContextView;

    open spec fn deep_view(&self) -> AgentContextView {
        AgentContextView {
            system_prompt: self.system_prompt@,
            messages: self.messages.deep_view(),
            tools: self.tools.deep_view(),
        }
    }
}

impl DeepView for AgentContextSnapshot {
    type V = AgentContextView;

    open spec fn deep_view(&self) -> AgentContextView {
        AgentContextView {
            system_prompt: self.system_prompt@,
            messages: self.messages.deep_view(),
            tools: self.tools.deep_view(),
        }
    }
}

impl DeepView for BeforeToolCallContext {
    type V = BeforeToolCallContextView;

    open spec fn deep_view(&self) -> BeforeToolCallContextView {
        BeforeToolCallContextView {
            assistant_message: self.assistant_message.deep_view(),
            tool_call: self.tool_call.deep_view(),
            args: self.args,
            context: self.context.deep_view(),
        }
    }
}

impl DeepView for BeforeToolCallResult {
    type V = BeforeToolCallResultView;

    open spec fn deep_view(&self) -> BeforeToolCallResultView {
        BeforeToolCallResultView { block: self.block, reason: self.reason.deep_view() }
    }
}

impl DeepView for AfterToolCallContext {
    type V = AfterToolCallContextView;

    open spec fn deep_view(&self) -> AfterToolCallContextView {
        AfterToolCallContextView {
            assistant_message: self.assistant_message.deep_view(),
            tool_call: self.tool_call.deep_view(),
            args: self.args,
            result: self.result.deep_view(),
            is_error: self.is_error,
            context: self.context.deep_view(),
        }
    }
}

impl DeepView for AfterToolCallResult {
    type V = AfterToolCallResultView;

    open spec fn deep_view(&self) -> AfterToolCallResultView {
        AfterToolCallResultView {
            content: self.content.deep_view(),
            details: self.details,
            is_error: self.is_error,
        }
    }
}

// ---- Copies ----

impl Clone for AgentToolResult {
    fn clone(&self) -> (copy: Self)
        ensures
            copy.deep_view() == self.deep_view(),
    {
        AgentToolResult {
            content: self.content.clone(),
            details: json::clone_optional(&self.details),
        }
    }
}

impl Clone for ToolDefinition {
    fn clone(&self) -> (copy: Self)
        ensures
            copy.deep_view() == self.deep_view(),
    {
        ToolDefinition {
            name: self.name.clone(),
            description: self.description.clone(),
            parameters: self.parameters.clone(),
        }
    }
}

impl Clone for AgentTool {
    fn clone(&self) -> (copy: Self)
        ensures
            copy.deep_view() == self.deep_view(),
    {
        AgentTool {
            handle: self.handle,
            name: self.name.clone(),
            label: self.label.clone(),
            description: self.description.clone(),
            parameters: self.parameters.clone(),
        }
    }
}

impl Default for ToolExecutionMode {
    fn default() -> (mode: Self)
        ensures
            mode == ToolExecutionMode::Parallel,
    {
        ToolExecutionMode::Parallel
    }
}

// ---- Tools and results ----

impl AgentToolView {
    /// What the model is told of the tool.
    pub open spec fn definition(self) -> ToolDefinitionView {
        ToolDefinitionView {
            name: self.name,
            description: self.description,
            parameters: self.parameters,
        }
    }
}

impl AgentTool {
    pub fn name(&self) -> (name: &str)
        ensures
            name@ == self.deep_view().name,
    {
        self.name.as_str()
    }

    pub fn label(&self) -> (label: &str)
        ensures
            label@ == self.deep_view().label,
    {
        self.label.as_str()
    }

    pub fn description(&self) -> (description: &str)
        ensures
            description@ == self.deep_view().description,
    {
        self.description.as_str()
    }

    pub fn parameters(&self) -> (parameters: Value)
        ensures
            parameters == self.deep_view().parameters,
    {
        self.parameters.clone()
    }

    /// What the model is told of the tool.
    pub fn as_tool_definition(&self) -> (definition: ToolDefinition)
        ensures
            definition.deep_view() == self.deep_view().definition(),
    {
        ToolDefinition {
            name: self.name().to_owned(),
            description: self.description().to_owned(),
            parameters: self.parameters(),
        }
    }
}

/// What the model is told of the tools of a run.
pub fn tool_definitions(tools: &Vec<AgentTool>) -> (definitions: Vec<ToolDefinition>)
    ensures
        definitions.deep_view() == tools.deep_view().map_values(|t: AgentToolView| t.definition()),
{
    let mut definitions: Vec<ToolDefinition> = Vec::new();
    let mut i: usize = 0;
    while i < tools.len()
        invariant
            0 <= i <= tools.len(),
            definitions.len() == i,
            forall|j: int|
                0 <= j < i ==> (#[trigger] definitions@[j]).deep_view()
                    == tools@[j].deep_view().definition(),
        decreases tools.len() - i,
    {
        definitions.push(tools[i].as_tool_definition());
        i = i + 1;
    }
    assert(definitions.deep_view() =~= tools.deep_view().map_values(
        |t: AgentToolView| t.definition(),
    ));
    definitions
}

impl AgentToolResultView {
    /// The result that tells the model of an error.
    pub open spec fn error(message: Seq<char>) -> AgentToolResultView {
        AgentToolResultView {
            content: seq![
                ContentBlockView::Text(TextContentView { text: message, text_signature: None }),
            ],
            details: None,
        }
    }

    /// The result with what a hook overrides in it.
    pub open spec fn overridden(self, by: Option<AfterToolCallResultView>) -> AgentToolResultView {
        match by {
            Some(result) => AgentToolResultView {
                content: match result.content {
                    Some(content) => content,
                    None => self.content,
                },
                details: match result.details {
                    Some(details) => Some(details),
                    None => self.details,
                },
            },
            None => self,
        }
    }
}

/// The result that tells the model of an error: its text, as one block.
pub fn create_error_tool_result(message: &str) -> (result: AgentToolResult)
    ensures
        result.deep_view() == AgentToolResultView::error(message@),
{
    let block = ContentBlock::Text(TextContent { text: message.to_owned(), text_signature: None });
    let mut content: Vec<ContentBlock> = Vec::new();
    content.push(block);
    assert(content.deep_view() =~= seq![block.deep_view()]);
    AgentToolResult { content, details: None }
}

impl AgentContext {
    /// What tool hooks get to see of the context.
    pub fn snapshot(&self) -> (snapshot: AgentContextSnapshot)
        ensures
            snapshot.deep_view() == self.deep_view(),
    {
        AgentContextSnapshot {
            system_prompt: self.system_prompt.clone(),
            messages: self.messages.clone(),
            tools: self.tools.clone(),
        }
    }
}

} // verus!
