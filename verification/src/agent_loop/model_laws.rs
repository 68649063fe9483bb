//! Laws of the model's turn: how its context is made ready, how it is called, and what comes of
//! its answer, step by step.

use crate::agent_loop::protocol::{
    Observed, OpeningView, ReplyView, RequestView, StreamPollView,
};
use crate::agent_loop::state::{PhaseView, ProgressView, RunView};
use crate::agent_loop::tool_laws::only_phase;
use crate::types::content::ContentBlockView;
use crate::types::error::AgentErrorView;
use crate::types::event::{AgentEventView, RunOutcomeView};
use crate::types::laws::law_no_call_without_a_block;
use crate::types::message::{AgentMessageView, AssistantMessageView};
use crate::types::model::StopReason;
use crate::types::stream::StreamEventView;
use vstd::prelude::*;

verus! {

/// A transformed context is converted as it is: the messages of the answer, and no others, go to
/// the configured converter. The run's own context stays as it is.
pub proof fn law_transformed_context_is_converted(
    run: RunView,
    reply: ReplyView,
    observed: Observed,
    complaint: Seq<char>,
)
    requires
        run.phase is Transform,
        reply is Messages,
    ensures
        ({
            let next = run.step(reply, observed, complaint);
            &&& next.request == (RequestView::ConvertToLlm {
                converter: run.config.convert_to_llm,
                messages: reply->Messages_0,
            })
            &&& only_phase(run, next.run)
            &&& next.run.phase is Convert
            &&& next.events.len() == 0
        }),
{
    reveal(RunView::transformed);
}

/// With the messages for the model ready, the callback that finds keys is asked about the
/// provider of the model, where there is such a callback; otherwise the model is called.
pub proof fn law_key_is_looked_up(
    run: RunView,
    reply: ReplyView,
    observed: Observed,
    complaint: Seq<char>,
)
    requires
        run.phase is Convert,
        reply is LlmMessages,
    ensures
        ({
            let next = run.step(reply, observed, complaint);
            &&& only_phase(run, next.run)
            &&& next.events.len() == 0
            &&& match run.config.get_api_key {
                Some(hook) => {
                    &&& next.request == (RequestView::ResolveApiKey {
                        hook,
                        provider: run.config.model.provider@,
                    })
                    &&& next.run.phase == (PhaseView::ApiKey { messages: reply->LlmMessages_0 })
                },
                None => next.request is OpenStream && next.run.phase is Open,
            }
        }),
{
    reveal(RunView::converted);
}

/// With the key looked up, the model is called.
pub proof fn law_model_is_called(
    run: RunView,
    reply: ReplyView,
    observed: Observed,
    complaint: Seq<char>,
)
    requires
        run.phase is ApiKey,
        reply is ApiKey,
    ensures
        ({
            let next = run.step(reply, observed, complaint);
            &&& only_phase(run, next.run)
            &&& next.events.len() == 0
            &&& next.request is OpenStream
            &&& next.run.phase is Open
        }),
{
    reveal(RunView::key_resolved);
}

/// Whether a request calls the model as the run is configured: the model, the system prompt, what
/// the model is told of each tool, and each option but the key, one by one.
pub open spec fn calls_as_configured(run: RunView, request: RequestView) -> bool {
    request matches RequestView::OpenStream { model, llm_context, request: call } ==> {
        let options = call.options;
        &&& model == run.config.model.deep_view()
        &&& llm_context.system_prompt == run.context.system_prompt
        &&& llm_context.tools.len() == run.context.tools.len()
        &&& forall|i: int|
            #![trigger llm_context.tools[i]]
            0 <= i < run.context.tools.len() ==> {
                &&& llm_context.tools[i].name == run.context.tools[i].name
                &&& llm_context.tools[i].description == run.context.tools[i].description
                &&& llm_context.tools[i].parameters == run.context.tools[i].parameters
            }
        &&& call.cancel == run.cancel
        &&& options.reasoning == run.config.reasoning
        &&& options.session_id == run.config.session_id.deep_view()
        &&& options.transport == run.config.transport
        &&& options.temperature == run.config.temperature
        &&& options.max_tokens == run.config.max_tokens
        &&& options.thinking_budgets == run.config.thinking_budgets
        &&& options.max_retry_delay_ms == run.config.max_retry_delay_ms
        &&& options.on_payload == run.config.on_payload
    }
}

/// The model is only called as the run is configured, with the messages that the converter
/// returned, and with the key that the callback named, or else the configured one.
pub proof fn law_model_is_called_as_configured(
    run: RunView,
    reply: ReplyView,
    observed: Observed,
    complaint: Seq<char>,
)
    requires
        run.wf(),
        run.accepts(reply),
    ensures
        ({
            let next = run.step(reply, observed, complaint);
            &&& calls_as_configured(run, next.request)
            &&& next.request matches RequestView::OpenStream { llm_context, request, .. } ==> {
                let key = request.options.api_key;
                let configured = match run.config.api_key {
                    Some(text) => Some(text@),
                    None => None,
                };
                match reply {
                    ReplyView::LlmMessages(messages) => {
                        &&& run.phase is Convert
                        &&& llm_context.messages == messages
                        &&& key == configured
                    },
                    ReplyView::ApiKey(named) => {
                        &&& run.phase == (PhaseView::ApiKey { messages: llm_context.messages })
                        &&& key == (if named is Some {
                            named
                        } else {
                            configured
                        })
                    },
                    _ => false,
                }
            }
        }),
{
    match run.phase {
        PhaseView::Convert => {
            reveal(RunView::converted);
        },
        PhaseView::ApiKey { .. } => {
            reveal(RunView::key_resolved);
        },
        PhaseView::Tools { .. } => {
            lemma_tools_call_no_model(run, reply, observed, complaint);
        },
        _ => {
            reveal(RunView::steered);
            reveal(RunView::followed_up);
            reveal(RunView::transformed);
            reveal(RunView::opened);
            reveal(RunView::streamed);
        },
    }
}

/// Tool calls do not call the model.
proof fn lemma_tools_call_no_model(
    run: RunView,
    reply: ReplyView,
    observed: Observed,
    complaint: Seq<char>,
)
    requires
        run.phase is Tools,
    ensures
        !(run.step(reply, observed, complaint).request is OpenStream),
{
    reveal(RunView::tool_gate);
    reveal(RunView::tool_started);
    reveal(RunView::tool_prepared);
    reveal(RunView::tool_asked);
    reveal(RunView::tool_executed);
    reveal(RunView::tool_spawned);
    reveal(RunView::tool_joined);
    reveal(RunView::tool_finalized);
    reveal(RunView::tool_ended);
    reveal(RunView::settle);
}

// ---- The answer ----

/// Whether two messages of the model are the same but for the reason why they stopped and the
/// text of an error.
pub open spec fn same_answer(one: AssistantMessageView, other: AssistantMessageView) -> bool {
    &&& one.content == other.content
    &&& one.model == other.model
    &&& one.provider == other.provider
    &&& one.api == other.api
    &&& one.response_id == other.response_id
    &&& one.usage == other.usage
    &&& one.timestamp == other.timestamp
}

/// Whether a message of the model stands in for an answer that never came: it names the model of
/// the run, holds one empty text, counts no tokens, and was made now.
pub open spec fn stands_in(run: RunView, message: AssistantMessageView, now: i64) -> bool {
    &&& message.content.len() == 1
    &&& message.content[0] matches ContentBlockView::Text(block)
        && block.text.len() == 0 && block.text_signature is None
    &&& message.model == run.config.model.id@
    &&& message.provider == run.config.model.provider@
    &&& message.api == run.config.model.api@
    &&& message.response_id is None
    &&& message.usage.input == 0
    &&& message.usage.output == 0
    &&& message.usage.cache_read == 0
    &&& message.usage.cache_write == 0
    &&& message.usage.total_tokens == 0
    &&& message.usage.cost.input.bits == 0
    &&& message.usage.cost.output.bits == 0
    &&& message.usage.cost.cache_read.bits == 0
    &&& message.usage.cost.cache_write.bits == 0
    &&& message.usage.cost.total.bits == 0
    &&& message.timestamp == now
}

/// Whether a message closes the model's answer: it is the last one of the transcript, in place of
/// the shown one where one was shown, and it is the one message that the run added. It is shown,
/// where it was not, and completed. The run ends where the message tells of an error or was
/// aborted; otherwise its tool calls are dealt with, or else the turn ends without any.
pub open spec fn concludes(
    run: RunView,
    shown: bool,
    next: ProgressView,
    message: AssistantMessageView,
) -> bool {
    let entry = AgentMessageView::Assistant(message);
    let shows: int = if shown {
        1
    } else {
        2
    };
    let kept = if shown && run.context.messages.len() > 0 {
        run.context.messages.drop_last()
    } else {
        run.context.messages
    };
    let turn_end = AgentEventView::TurnEnd { message: entry, tool_results: Seq::empty() };
    &&& next.run.config == run.config
    &&& next.run.cancel == run.cancel
    &&& next.run.first_turn == run.first_turn
    &&& next.run.context.system_prompt == run.context.system_prompt
    &&& next.run.context.tools == run.context.tools
    &&& next.run.new_messages == run.new_messages.push(entry)
    &&& !shown || run.context.messages.len() > 0 ==> next.run.context.messages == kept.push(entry)
    &&& next.events.len() >= shows
    &&& !shown ==> next.events[0] == (AgentEventView::MessageStart { message: entry })
    &&& next.events[shows - 1] == (AgentEventView::MessageEnd { message: entry })
    &&& if message.stop_reason == StopReason::Error {
        &&& next.events.len() == shows + 2
        &&& next.events[shows] == turn_end
        &&& next.request matches RequestView::Finish { outcome }
            && outcome matches RunOutcomeView::Failed { error, .. }
            && message.error_message matches Some(text) && error == AgentErrorView::Stream(text)
    } else if message.stop_reason == StopReason::Aborted {
        &&& next.events.len() == shows + 2
        &&& next.events[shows] == turn_end
        &&& next.request matches RequestView::Finish { outcome } && outcome is Aborted
    } else if exists|i: int|
        0 <= i < message.content.len() && #[trigger] message.content[i] is ToolCall {
        &&& next.events.len() == shows
        &&& next.request is Checkpoint
        &&& next.run.phase matches PhaseView::Tools { batch }
            && batch.message == message && batch.calls == message.tool_calls()
            && batch.cursor == 0 && batch.slots.len() == 0 && batch.spawned == 0
            && batch.results.len() == 0 && batch.stage is Gate
    } else {
        &&& next.events.len() == shows + 1
        &&& next.events[shows] == turn_end
        &&& next.run.phase == (PhaseView::Steering { after_tools: false })
        &&& next.request == match run.config.get_steering_messages {
            Some(source) => RequestView::PollSteering { source },
            None => RequestView::Checkpoint,
        }
    }
}

/// Whether a run fails by an error that no message tells of yet: a message that does is added,
/// shown and completed, and ends the turn.
pub open spec fn fails(run: RunView, next: ProgressView, error: AgentErrorView, now: i64) -> bool {
    let entry = next.run.new_messages.last();
    &&& next.run.new_messages == run.new_messages.push(entry)
    &&& next.run.context.messages == run.context.messages.push(entry)
    &&& entry matches AgentMessageView::Assistant(message) && stands_in(run, message, now)
        && message.stop_reason == StopReason::Error && message.error_message == Some(error.text())
    &&& next.events.len() == 4
    &&& next.events[0] == (AgentEventView::MessageStart { message: entry })
    &&& next.events[1] == (AgentEventView::MessageEnd { message: entry })
    &&& next.events[2] == (AgentEventView::TurnEnd { message: entry, tool_results: Seq::empty() })
    &&& next.request matches RequestView::Finish { outcome }
        && outcome matches RunOutcomeView::Failed { error: told, .. } && told == error
}

/// Whether an answer is closed as aborted: what had come of it stays, where anything had.
pub open spec fn aborts(
    run: RunView,
    partial: Option<AssistantMessageView>,
    shown: bool,
    next: ProgressView,
    now: i64,
) -> bool {
    &&& next.run.new_messages.len() > 0
    &&& next.run.new_messages.last() matches AgentMessageView::Assistant(message)
        && message.stop_reason == StopReason::Aborted && message.error_message == Some("Aborted"@)
        && concludes(run, shown, next, message) && match partial {
        Some(so_far) => same_answer(message, so_far),
        None => stands_in(run, message, now),
    }
}

/// What the step that closes an answer makes of the message.
proof fn lemma_concludes(run: RunView, message: AssistantMessageView, shown: bool)
    requires
        message.stop_reason == StopReason::Error ==> message.error_message is Some,
    ensures
        concludes(run, shown, run.idle().conclude(message, shown), message),
{
    law_no_call_without_a_block(message);
    let next = run.idle().conclude(message, shown);
    let entry = AgentMessageView::Assistant(message);
    if shown && run.context.messages.len() > 0 {
        assert(next.run.context.messages == run.context.messages.drop_last().push(entry));
    }
}

/// What a step that fails the run comes to.
proof fn lemma_fails(run: RunView, error: AgentErrorView, observed: Observed)
    ensures
        fails(
            run,
            run.idle().fail(Seq::empty(), Seq::empty(), error, observed),
            error,
            observed.now,
        ),
{
    let next = run.idle().fail(Seq::empty(), Seq::empty(), error, observed);
    let entry = next.run.new_messages.last();
    assert(next.run.new_messages =~= run.new_messages.push(entry));
    assert(next.run.context.messages =~= run.context.messages.push(entry));
}

/// Once a stream is open, its first event is waited for. Where it does not open, the run fails
/// by the error; where that tells of an abort, the answer is closed as aborted.
pub proof fn law_opened_stream_is_followed(
    run: RunView,
    reply: ReplyView,
    observed: Observed,
    complaint: Seq<char>,
)
    requires
        run.phase is Open,
        reply is Opened,
    ensures
        ({
            let next = run.step(reply, observed, complaint);
            match reply->Opened_0 {
                OpeningView::Opened => {
                    &&& only_phase(run, next.run)
                    &&& next.run.phase == (PhaseView::Stream { partial: None, shown: false })
                    &&& next.request is NextStreamEvent
                    &&& next.events.len() == 0
                },
                OpeningView::Failed(error) => if error is Aborted {
                    aborts(run, None, false, next, observed.now)
                } else {
                    fails(run, next, error, observed.now)
                },
            }
        }),
{
    reveal(RunView::opened);
    if let OpeningView::Failed(error) = reply->Opened_0 {
        lemma_fails(run, error, observed);
    }
    lemma_concludes(
        run,
        AssistantMessageView::aborted(run.config.model.deep_view(), None, observed.now),
        false,
    );
}

/// The first event of a stream shows the message so far: it is announced, and it is the last one
/// of the transcript until more comes.
pub proof fn law_first_event_shows_the_message(
    run: RunView,
    first: AssistantMessageView,
    observed: Observed,
    complaint: Seq<char>,
)
    requires
        run.phase is Stream,
    ensures
        ({
            let event = StreamEventView::Start { partial: first };
            let next = run.step(
                ReplyView::Streamed(StreamPollView::Event(event)),
                observed,
                complaint,
            );
            let entry = AgentMessageView::Assistant(first);
            if observed.cancelled {
                aborts(run, Some(first), run.phase->shown, next, observed.now)
            } else {
                &&& next.request is NextStreamEvent
                &&& next.run.phase == (PhaseView::Stream { partial: Some(first), shown: true })
                &&& next.events.len() == 1
                &&& next.events[0] == (AgentEventView::MessageStart { message: entry })
                &&& next.run.context.messages == run.context.messages.push(entry)
                &&& next.run.context.system_prompt == run.context.system_prompt
                &&& next.run.context.tools == run.context.tools
                &&& next.run.new_messages == run.new_messages
            }
        }),
{
    reveal(RunView::streamed);
    lemma_concludes(
        run,
        AssistantMessageView::aborted(
            run.config.model.deep_view(),
            Some(first),
            observed.now,
        ),
        run.phase->shown,
    );
}

/// Whether an event of a stream is one of those that carry the message so far.
pub open spec fn carries(event: StreamEventView, current: AssistantMessageView) -> bool {
    match event {
        StreamEventView::TextStart { partial, .. } => partial == current,
        StreamEventView::TextDelta { partial, .. } => partial == current,
        StreamEventView::TextEnd { partial, .. } => partial == current,
        StreamEventView::ThinkingStart { partial, .. } => partial == current,
        StreamEventView::ThinkingDelta { partial, .. } => partial == current,
        StreamEventView::ThinkingEnd { partial, .. } => partial == current,
        StreamEventView::ToolCallStart { partial, .. } => partial == current,
        StreamEventView::ToolCallDelta { partial, .. } => partial == current,
        StreamEventView::ToolCallEnd { partial, .. } => partial == current,
        _ => false,
    }
}

/// Every further event of a stream is passed on as it is, with the message so far, which takes
/// the place of the one before; as long as no message was shown, such events change nothing.
pub proof fn law_updates_are_passed_on(
    run: RunView,
    event: StreamEventView,
    current: AssistantMessageView,
    observed: Observed,
    complaint: Seq<char>,
)
    requires
        run.phase is Stream,
        carries(event, current),
    ensures
        ({
            let next = run.step(
                ReplyView::Streamed(StreamPollView::Event(event)),
                observed,
                complaint,
            );
            let entry = AgentMessageView::Assistant(current);
            if observed.cancelled {
                aborts(run, Some(current), run.phase->shown, next, observed.now)
            } else if run.phase->shown {
                &&& next.request is NextStreamEvent
                &&& next.run.phase == (PhaseView::Stream { partial: Some(current), shown: true })
                &&& next.events.len() == 1
                &&& next.events[0] == (AgentEventView::MessageUpdate {
                    message: entry,
                    stream_event: event,
                })
                &&& run.context.messages.len() > 0 ==> next.run.context.messages
                    == run.context.messages.drop_last().push(entry)
                &&& next.run.context.system_prompt == run.context.system_prompt
                &&& next.run.context.tools == run.context.tools
                &&& next.run.new_messages == run.new_messages
            } else {
                &&& next.request is NextStreamEvent
                &&& next.events.len() == 0
                &&& next.run == run
            }
        }),
{
    reveal(RunView::streamed);
    lemma_concludes(
        run,
        AssistantMessageView::aborted(
            run.config.model.deep_view(),
            Some(current),
            observed.now,
        ),
        run.phase->shown,
    );
}

/// The last event of a stream closes the answer with its message. It keeps the message as it is,
/// but for the reason why it stopped, which an error event sets, and for the text of an error,
/// which is added where the reason calls for one and there is none.
pub proof fn law_last_event_closes_the_answer(
    run: RunView,
    message: AssistantMessageView,
    by_error: bool,
    observed: Observed,
    complaint: Seq<char>,
)
    requires
        run.phase is Stream,
    ensures
        ({
            let event = if by_error {
                StreamEventView::Error { message }
            } else {
                StreamEventView::Done { message }
            };
            let next = run.step(
                ReplyView::Streamed(StreamPollView::Event(event)),
                observed,
                complaint,
            );
            &&& next.run.new_messages.len() > 0
            &&& next.run.new_messages.last() matches AgentMessageView::Assistant(closed)
                && concludes(run, run.phase->shown, next, closed) && same_answer(closed, message)
                && closed.stop_reason == (if by_error && message.stop_reason != StopReason::Aborted {
                StopReason::Error
            } else {
                message.stop_reason
            }) && closed.error_message == (if message.error_message is Some {
                message.error_message
            } else if closed.stop_reason == StopReason::Aborted {
                Some("Aborted"@)
            } else if closed.stop_reason == StopReason::Error {
                Some("Unknown stream error"@)
            } else {
                None
            })
        }),
{
    reveal(RunView::streamed);
    lemma_concludes(run, message.normalized(), run.phase->shown);
    lemma_concludes(run, message.as_stream_error().normalized(), run.phase->shown);
}

/// A cancelled answer, and one whose stream fails by an abort, is closed as aborted, with what
/// had come of it. A stream that ends early fails the answer, and any other error fails the run.
pub proof fn law_broken_stream_closes_the_answer(
    run: RunView,
    poll: StreamPollView,
    observed: Observed,
    complaint: Seq<char>,
)
    requires
        run.phase is Stream,
        !(poll is Event),
    ensures
        ({
            let next = run.step(ReplyView::Streamed(poll), observed, complaint);
            let partial = run.phase->partial;
            let shown = run.phase->shown;
            match poll {
                StreamPollView::Cancelled => aborts(run, partial, shown, next, observed.now),
                StreamPollView::Failed(error) => if error is Aborted {
                    aborts(run, partial, shown, next, observed.now)
                } else {
                    fails(run, next, error, observed.now)
                },
                _ => {
                    &&& next.run.new_messages.len() > 0
                    &&& next.run.new_messages.last() matches AgentMessageView::Assistant(message)
                        && concludes(run, shown, next, message)
                        && stands_in(run, message, observed.now)
                        && message.stop_reason == StopReason::Error && message.error_message
                        == Some("Stream ended without terminal event"@)
                },
            }
        }),
{
    reveal(RunView::streamed);
    if let StreamPollView::Failed(error) = poll {
        lemma_fails(run, error, observed);
    }
    let model = run.config.model.deep_view();
    lemma_concludes(
        run,
        AssistantMessageView::aborted(model, run.phase->partial, observed.now),
        run.phase->shown,
    );
    lemma_concludes(
        run,
        AssistantMessageView::error(model, "Stream ended without terminal event"@, observed.now),
        run.phase->shown,
    );
}

} // verus!
