//! Laws of messages and their parts.

use crate::types::content::{ContentBlockView, TextContentView, ToolCallContentView};
use crate::types::error::AgentErrorView;
use crate::types::message::{
    to_llm, AgentMessage, AgentMessageView, AssistantMessageView, Message, MessageView,
    UserContentBlockView, UserContentBuildError, UserContentView,
};
use crate::types::model::StopReason;
use crate::types::stream::StreamEventView;
use crate::types::tool::{AfterToolCallResultView, AgentToolResultView, AgentToolView};
use vstd::prelude::*;
use vstd::std_specs::convert::FromSpec;

verus! {

/// No two stop reasons share a name on the wire, so a name that is written reads back as the
/// reason that it was written for.
pub proof fn law_wire_names_differ(a: StopReason, b: StopReason)
    ensures
        a.wire_name() == b.wire_name() ==> a == b,
{
    reveal_strlit("stop");
    reveal_strlit("length");
    reveal_strlit("toolUse");
    reveal_strlit("error");
    reveal_strlit("aborted");
    if a != b {
        assert("stop"@.len() == 4);
        assert("length"@.len() == 6);
        assert("toolUse"@.len() == 7 && "toolUse"@[0] == 't');
        assert("error"@.len() == 5);
        assert("aborted"@.len() == 7 && "aborted"@[0] == 'a');
    }
}

/// A user message's body made of blocks drops nothing: it stands for exactly these blocks.
pub proof fn law_user_content_drops_nothing(blocks: Seq<UserContentBlockView>)
    ensures
        UserContentView::from_blocks(blocks).to_blocks() == blocks,
{
    let content = UserContentView::from_blocks(blocks);
    if content is Plain {
        assert(blocks[0] == UserContentBlockView::Text(
            TextContentView { text: blocks[0]->Text_0.text, text_signature: None },
        ));
        assert(content.to_blocks() =~= blocks);
    }
}

/// A block of a message that fits a user message is one of text or an image, and none of
/// thinking or of a tool call.
pub proof fn law_user_blocks_are_text_or_image(block: ContentBlockView)
    ensures
        block.as_user_block() is Ok <==> (block is Text || block is Image),
        block.as_user_block() is Err <==> (block is Thinking || block is ToolCall),
{
}

/// A standard message keeps its content and its role on the way into the transcript and back.
pub proof fn law_standard_messages_convert_back(message: Message)
    ensures
        <AgentMessage as FromSpec<Message>>::from_spec(message).deep_view()
            == AgentMessageView::from_message(message.deep_view()),
        AgentMessageView::from_message(message.deep_view()).to_message() == Some(
            message.deep_view(),
        ),
        AgentMessageView::from_message(message.deep_view()).role() == message.deep_view().role(),
{
}

/// Mapping and filtering two sequences one behind the other.
proof fn lemma_convert_add(a: Seq<AgentMessageView>, b: Seq<AgentMessageView>)
    ensures
        to_llm(a + b) == to_llm(a) + to_llm(b),
    decreases b.len(),
{
    if b.len() == 0 {
        assert(a + b =~= a);
        assert(to_llm(a) + to_llm(b) =~= to_llm(a));
    } else {
        lemma_convert_add(a, b.drop_last());
        assert((a + b).drop_last() =~= a + b.drop_last());
        assert((a + b).last() == b.last());
        if let Some(message) = b.last().to_message() {
            assert((to_llm(a) + to_llm(b.drop_last())) + seq![message] =~= to_llm(a) + (to_llm(
                b.drop_last(),
            ) + seq![message]));
        }
    }
}

/// By default the model sees nothing of the application's own messages: with or without them,
/// wherever they stand, it sees the same.
pub proof fn law_custom_messages_stay_out(
    before: Seq<AgentMessageView>,
    custom: AgentMessageView,
    after: Seq<AgentMessageView>,
)
    requires
        custom is Custom,
    ensures
        to_llm(before + seq![custom] + after) == to_llm(before + after),
{
    lemma_convert_add(before + seq![custom], after);
    lemma_convert_add(before, seq![custom]);
    lemma_convert_add(before, after);
    assert(seq![custom].drop_last() =~= Seq::<AgentMessageView>::empty());
    assert(to_llm(seq![custom]) =~= Seq::<MessageView>::empty()) by {
        reveal_with_fuel(Seq::filter_map, 2);
        assert(seq![custom].last().to_message() is None);
    }
    assert(to_llm(before) + to_llm(seq![custom]) =~= to_llm(before));
}

/// By default the model sees every standard message, in order.
pub proof fn law_standard_messages_pass(messages: Seq<MessageView>)
    ensures
        to_llm(messages.map_values(|m: MessageView| AgentMessageView::from_message(m)))
            == messages,
    decreases messages.len(),
{
    let entries = messages.map_values(|m: MessageView| AgentMessageView::from_message(m));
    if messages.len() > 0 {
        let rest = messages.drop_last();
        law_standard_messages_pass(rest);
        assert(entries.drop_last() =~= rest.map_values(
            |m: MessageView| AgentMessageView::from_message(m),
        ));
        assert(entries.last().to_message() == Some(messages.last()));
        assert(rest + seq![messages.last()] =~= messages);
    }
}

/// A message that ends an answer is brought into its final form once and for all: it keeps all
/// but the error text, has one wherever it stopped by an error or an abort, and keeps any that
/// it had.
pub proof fn law_normalized_once(message: AssistantMessageView)
    ensures
        message.normalized().normalized() == message.normalized(),
        message.normalized() == (AssistantMessageView {
            error_message: message.normalized().error_message,
            ..message
        }),
        (message.stop_reason == StopReason::Error || message.stop_reason == StopReason::Aborted)
            ==> message.normalized().error_message is Some,
        message.error_message is Some ==> message.normalized() == message,
        message.as_stream_error().normalized().stop_reason == StopReason::Error
            || message.as_stream_error().normalized().stop_reason == StopReason::Aborted,
{
}

/// The body of a user message is a plain text exactly where its only block is an unsigned text,
/// and then it is that text; otherwise it is the blocks themselves.
pub proof fn law_plain_body_is_one_unsigned_text(blocks: Seq<UserContentBlockView>, text: Seq<char>)
    ensures
        UserContentView::from_blocks(blocks) == UserContentView::Plain(text) <==> {
            &&& blocks.len() == 1
            &&& blocks[0] == UserContentBlockView::Text(
                TextContentView { text, text_signature: None },
            )
        },
        UserContentView::from_blocks(blocks) is Blocks ==> UserContentView::from_blocks(blocks)
            == UserContentView::Blocks(blocks),
        UserContentView::Plain(text).to_blocks().len() == 1,
        UserContentView::Plain(text).to_blocks()[0] == UserContentBlockView::Text(
            TextContentView { text, text_signature: None },
        ),
        UserContentView::Blocks(blocks).to_blocks() == blocks,
{
}

/// A block that fits a user message goes into it as it is; any other is refused, with an error
/// that names its kind.
pub proof fn law_user_blocks_stay_as_they_are(block: ContentBlockView)
    ensures
        block matches ContentBlockView::Text(text) ==> block.as_user_block() == Ok::<
            UserContentBlockView,
            UserContentBuildError,
        >(UserContentBlockView::Text(text)),
        block matches ContentBlockView::Image(image) ==> block.as_user_block() == Ok::<
            UserContentBlockView,
            UserContentBuildError,
        >(UserContentBlockView::Image(image)),
        block is Thinking ==> block.as_user_block() == Err::<
            UserContentBlockView,
            UserContentBuildError,
        >(UserContentBuildError::ThinkingBlock),
        block is ToolCall ==> block.as_user_block() == Err::<
            UserContentBlockView,
            UserContentBuildError,
        >(UserContentBuildError::ToolCallBlock),
{
}

/// The model sees each message on its own: what it sees of two stretches of a transcript, one
/// behind the other, is what it sees of each. A standard message it sees as it is.
pub proof fn law_messages_convert_one_by_one(
    a: Seq<AgentMessageView>,
    b: Seq<AgentMessageView>,
    message: AgentMessageView,
)
    ensures
        to_llm(a + b) == to_llm(a) + to_llm(b),
        message matches AgentMessageView::User(m) ==> to_llm(seq![message]) == seq![
            MessageView::User(m),
        ],
        message matches AgentMessageView::Assistant(m) ==> to_llm(seq![message]) == seq![
            MessageView::Assistant(m),
        ],
        message matches AgentMessageView::ToolResult(m) ==> to_llm(seq![message]) == seq![
            MessageView::ToolResult(m),
        ],
        message is Custom ==> to_llm(seq![message]).len() == 0,
{
    lemma_convert_add(a, b);
    Seq::lemma_filter_map_singleton(message, |m: AgentMessageView| m.to_message());
}

/// The tool calls that content asks for.
spec fn calls_in(content: Seq<ContentBlockView>) -> Seq<ToolCallContentView> {
    content.filter_map(|b: ContentBlockView| b.as_tool_call())
}

/// Two stretches of content, one behind the other.
proof fn lemma_calls_add(a: Seq<ContentBlockView>, b: Seq<ContentBlockView>)
    ensures
        calls_in(a + b) == calls_in(a) + calls_in(b),
    decreases b.len(),
{
    if b.len() == 0 {
        assert(a + b =~= a);
        assert(calls_in(a) + calls_in(b) =~= calls_in(a));
    } else {
        lemma_calls_add(a, b.drop_last());
        assert((a + b).drop_last() =~= a + b.drop_last());
        assert((a + b).last() == b.last());
        if let Some(call) = b.last().as_tool_call() {
            assert((calls_in(a) + calls_in(b.drop_last())) + seq![call] =~= calls_in(a) + (calls_in(
                b.drop_last(),
            ) + seq![call]));
        }
    }
}

/// The tool calls of a message are those of its blocks that are tool calls, as they are and in
/// order: those of two stretches of content, one behind the other, are those of the first and
/// then those of the second, and a block that is no tool call adds none.
pub proof fn law_tool_calls_are_those_of_the_blocks(
    message: AssistantMessageView,
    a: Seq<ContentBlockView>,
    b: Seq<ContentBlockView>,
    block: ContentBlockView,
)
    ensures
        (AssistantMessageView { content: a + b, ..message }).tool_calls() == (AssistantMessageView {
            content: a,
            ..message
        }).tool_calls() + (AssistantMessageView { content: b, ..message }).tool_calls(),
        block matches ContentBlockView::ToolCall(call) ==> (AssistantMessageView {
            content: seq![block],
            ..message
        }).tool_calls() == seq![call],
        !(block is ToolCall) ==> (AssistantMessageView {
            content: seq![block],
            ..message
        }).tool_calls().len() == 0,
{
    lemma_calls_add(a, b);
    Seq::lemma_filter_map_singleton(block, |b: ContentBlockView| b.as_tool_call());
}

/// A message asks for no tool call exactly where none of its blocks is one.
pub proof fn law_no_call_without_a_block(message: AssistantMessageView)
    ensures
        message.tool_calls().len() == 0 <==> (forall|i: int|
            0 <= i < message.content.len() ==> !(#[trigger] message.content[i] is ToolCall)),
    decreases message.content.len(),
{
    let content = message.content;
    if content.len() > 0 {
        let rest = AssistantMessageView { content: content.drop_last(), ..message };
        law_no_call_without_a_block(rest);
        assert(content.last() == content[content.len() - 1]);
        assert forall|i: int| 0 <= i < rest.content.len() implies #[trigger] rest.content[i]
            == content[i] by {}
        if content.last() is ToolCall {
            assert(message.tool_calls().len() == rest.tool_calls().len() + 1);
        } else {
            assert(message.tool_calls() == rest.tool_calls());
            assert forall|i: int| 0 <= i < content.len() && !(content.last() is ToolCall)
                && rest.tool_calls().len() == 0 implies !(#[trigger] content[i] is ToolCall) by {
                if i < content.len() - 1 {
                    assert(rest.content[i] == content[i]);
                }
            }
        }
    }
}

/// What a hook overrides in a result, it overrides field by field: what its answer sets, the
/// outcome has; what its answer omits, the outcome has from the result, whatever else the answer
/// sets; and an answer that sets nothing, like none at all, changes nothing.
pub proof fn law_overriding_goes_by_field(
    result: AgentToolResultView,
    by: Option<AfterToolCallResultView>,
)
    ensures
        by is None ==> result.overridden(by) == result,
        by matches Some(answer) ==> {
            let outcome = result.overridden(by);
            &&& answer.content is None ==> outcome.content == result.content
            &&& answer.content is Some ==> Some(outcome.content) == answer.content
            &&& answer.details is None ==> outcome.details == result.details
            &&& answer.details is Some ==> outcome.details == answer.details
        },
{
}

/// The model is told a tool's name, description and parameters as they are.
pub proof fn law_definition_tells_of_the_tool(tool: AgentToolView)
    ensures
        tool.definition().name == tool.name,
        tool.definition().description == tool.description,
        tool.definition().parameters == tool.parameters,
{
}

/// Every incremental event of a stream carries the message so far; the first and the last event
/// of a stream are none of these.
pub proof fn law_incremental_events_carry_the_message(
    index: usize,
    text: Seq<char>,
    call: ToolCallContentView,
    current: AssistantMessageView,
)
    ensures
        ({
            let partial = current;
            let content_index = index;
            &&& (StreamEventView::TextStart { content_index, partial }).partial_for_update()
                == Some(current)
            &&& (StreamEventView::TextDelta {
                content_index,
                delta: text,
                partial,
            }).partial_for_update() == Some(current)
            &&& (StreamEventView::TextEnd {
                content_index,
                content: text,
                partial,
            }).partial_for_update() == Some(current)
            &&& (StreamEventView::ThinkingStart { content_index, partial }).partial_for_update()
                == Some(current)
            &&& (StreamEventView::ThinkingDelta {
                content_index,
                delta: text,
                partial,
            }).partial_for_update() == Some(current)
            &&& (StreamEventView::ThinkingEnd {
                content_index,
                content: text,
                partial,
            }).partial_for_update() == Some(current)
            &&& (StreamEventView::ToolCallStart { content_index, partial }).partial_for_update()
                == Some(current)
            &&& (StreamEventView::ToolCallDelta {
                content_index,
                delta: text,
                partial,
            }).partial_for_update() == Some(current)
            &&& (StreamEventView::ToolCallEnd {
                content_index,
                tool_call: call,
                partial,
            }).partial_for_update() == Some(current)
            &&& (StreamEventView::Start { partial }).partial_for_update() is None
            &&& (StreamEventView::Done { message: current }).partial_for_update() is None
            &&& (StreamEventView::Error { message: current }).partial_for_update() is None
        }),
{
}

/// A message of a stream's error event keeps all but the reason why it stopped, and stops by an
/// error unless it was aborted; where it has no text for that, it gets one by the reason.
pub proof fn law_error_events_tell_of_an_error(message: AssistantMessageView)
    ensures
        message.as_stream_error().stop_reason == (if message.stop_reason == StopReason::Aborted {
            StopReason::Aborted
        } else {
            StopReason::Error
        }),
        message.as_stream_error() == (AssistantMessageView {
            stop_reason: message.as_stream_error().stop_reason,
            ..message
        }),
        message.error_message is None && message.stop_reason == StopReason::Aborted
            ==> message.normalized().error_message == Some("Aborted"@),
        message.error_message is None && message.stop_reason == StopReason::Error
            ==> message.normalized().error_message == Some("Unknown stream error"@),
        message.stop_reason != StopReason::Error && message.stop_reason != StopReason::Aborted
            ==> message.normalized() == message,
        message.error_message matches Some(text) ==> message.failure() == AgentErrorView::Stream(
            text,
        ),
{
}

/// The text of an error that has a cause is the name of its kind and then that cause; an error of
/// no kind of its own is told by its cause alone, and one of a body that cannot be built by what
/// is wrong with the body.
pub proof fn law_error_text_tells_the_cause(cause: Seq<char>)
    ensures
        AgentErrorView::Other(cause).text() == cause,
        ({
            let stream = AgentErrorView::Stream(cause).text();
            let join = AgentErrorView::JoinError(cause).text();
            let internal = AgentErrorView::Internal(cause).text();
            &&& stream.len() >= cause.len() && stream.skip(stream.len() - cause.len()) == cause
            &&& join.len() >= cause.len() && join.skip(join.len() - cause.len()) == cause
            &&& internal.len() >= cause.len() && internal.skip(internal.len() - cause.len())
                == cause
            &&& stream.take(stream.len() - cause.len()) == "Stream error: "@
            &&& join.take(join.len() - cause.len()) == "Task join error: "@
            &&& internal.take(internal.len() - cause.len()) == "Internal error: "@
        }),
        forall|error: UserContentBuildError| #[trigger]
            AgentErrorView::UserContent(error).text() == error.text(),
{
    let stream = AgentErrorView::Stream(cause).text();
    let join = AgentErrorView::JoinError(cause).text();
    let internal = AgentErrorView::Internal(cause).text();
    assert(stream.skip(stream.len() - cause.len()) =~= cause);
    assert(join.skip(join.len() - cause.len()) =~= cause);
    assert(internal.skip(internal.len() - cause.len()) =~= cause);
    assert(stream.take(stream.len() - cause.len()) =~= "Stream error: "@);
    assert(join.take(join.len() - cause.len()) =~= "Task join error: "@);
    assert(internal.take(internal.len() - cause.len()) =~= "Internal error: "@);
}

/// A message stands in the role of its kind; a message of the application, in the role that it
/// names.
pub proof fn law_role_goes_by_kind(message: AgentMessageView)
    ensures
        message matches AgentMessageView::Custom(custom) ==> message.role() == custom.role,
        message is User ==> message.role() == "user"@,
        message is Assistant ==> message.role() == "assistant"@,
        message is ToolResult ==> message.role() == "toolResult"@,
        message.to_message() matches Some(standard) ==> standard.role() == message.role(),
{
}

/// An error told to the model is one block of text, with that text and without a signature, and
/// no details.
pub proof fn law_error_result_is_one_text(text: Seq<char>)
    ensures
        ({
            let result = AgentToolResultView::error(text);
            &&& result.content.len() == 1
            &&& result.content[0] == ContentBlockView::Text(
                TextContentView { text, text_signature: None },
            )
            &&& result.details is None
        }),
{
}

} // verus!
