//! Laws of an agent's state, settings and queues: what each of them is made of, and what each
//! operation changes.

use crate::agent::handle::{
    is_first_free, is_taken, prompt_images, prompt_message, AgentView, Listener,
};
use crate::agent::options::AgentOptions;
use crate::agent::queue::{drained_until_empty, law_queue_is_fifo, QueueMode, QueueView};
use crate::agent::state::AgentStateView;
use crate::agent_loop::laws::{fitting, progress_after, Answer};
use crate::agent_loop::protocol::RequestView;
use crate::agent_loop::run_laws::law_every_model_call_is_as_configured;
use crate::agent_loop::state::Progress;
use crate::agent_loop::turn_laws::{
    law_last_error_counts, law_run_starts_with_prompts, tells_error,
};
use crate::types::config::{HookId, MessageConverter, MessageSource};
use crate::types::content::{ImageContent, ImageContentView, TextContentView};
use crate::types::event::AgentEventView;
use crate::types::message::{AgentMessageView, UserContentBlockView, UserContentView};
use crate::types::model::{StopReason, ThinkingLevel, Transport};
use crate::types::tool::ToolExecutionMode;
use tokio_util::sync::CancellationToken;
use vstd::prelude::*;

verus! {

// ---- Settings ----

/// A run of an agent is configured by the agent, setting by setting: with its model, with its
/// thinking level unless that is off, with its own queues as the sources of messages, and with
/// everything else as the agent has it.
pub proof fn law_run_is_configured_by_the_agent(agent: AgentView)
    ensures
        ({
            let config = agent.loop_config();
            let settings = agent.settings;
            &&& config.model == agent.state.model
            &&& agent.state.thinking_level == ThinkingLevel::Off ==> config.reasoning is None
            &&& agent.state.thinking_level != ThinkingLevel::Off ==> config.reasoning == Some(
                agent.state.thinking_level,
            )
            &&& config.get_steering_messages == Some(MessageSource::AgentQueue)
            &&& config.get_follow_up_messages == Some(MessageSource::AgentQueue)
            &&& config.convert_to_llm == settings.convert_to_llm
            &&& config.transform_context == settings.transform_context
            &&& config.get_api_key == settings.get_api_key
            &&& config.tool_execution == settings.tool_execution
            &&& config.before_tool_call == settings.before_tool_call
            &&& config.after_tool_call == settings.after_tool_call
            &&& settings.api_key matches Some(key) ==> config.api_key == Some(key@)
            &&& settings.api_key is None ==> config.api_key is None
            &&& settings.session_id matches Some(id) ==> config.session_id == Some(id@)
            &&& settings.session_id is None ==> config.session_id is None
            &&& config.transport == settings.transport
            &&& config.temperature == settings.temperature
            &&& config.max_tokens == settings.max_tokens
            &&& config.thinking_budgets == settings.thinking_budgets
            &&& config.max_retry_delay_ms == settings.max_retry_delay_ms
            &&& config.on_payload == settings.on_payload
        }),
{
}

/// What the options name, a new agent has; what they leave open, it has by default. Its queues
/// are empty, nobody listens to it, and no run is active.
pub proof fn law_new_agent_has_its_options(options: AgentOptions)
    ensures
        ({
            let agent = AgentView::initial(options);
            let settings = agent.settings;
            &&& agent.active is None
            &&& !agent.skip_steering_poll
            &&& agent.listeners.len() == 0
            &&& agent.steering.messages.len() == 0
            &&& agent.follow_up.messages.len() == 0
            &&& agent.steering.mode == (match options.steering_mode {
                Some(mode) => mode,
                None => QueueMode::OneAtATime,
            })
            &&& agent.follow_up.mode == (match options.follow_up_mode {
                Some(mode) => mode,
                None => QueueMode::OneAtATime,
            })
            &&& settings.stream_fn == options.stream_fn
            &&& options.convert_to_llm matches Some(hook) ==> settings.convert_to_llm
                == MessageConverter::Hook(hook)
            &&& options.convert_to_llm is None ==> settings.convert_to_llm
                == MessageConverter::Standard
            &&& settings.transform_context == options.transform_context
            &&& settings.get_api_key == options.get_api_key
            &&& settings.before_tool_call == options.before_tool_call
            &&& settings.after_tool_call == options.after_tool_call
            &&& settings.session_id == options.session_id
            &&& settings.on_payload == options.on_payload
            &&& options.transport matches Some(transport) ==> settings.transport == transport
            &&& options.transport is None ==> settings.transport == Transport::Sse
            &&& options.tool_execution matches Some(mode) ==> settings.tool_execution == mode
            &&& options.tool_execution is None ==> settings.tool_execution
                == ToolExecutionMode::Parallel
            &&& settings.api_key == options.api_key
            &&& settings.temperature == options.temperature
            &&& settings.max_tokens == options.max_tokens
            &&& settings.thinking_budgets == options.thinking_budgets
            &&& settings.max_retry_delay_ms == options.max_retry_delay_ms
        }),
{
}

/// What the initial state names, a new agent's state has; what it leaves open is empty, with the
/// thinking level off and a model of which nothing is known. Nothing is under way.
pub proof fn law_new_agent_has_its_initial_state(options: AgentOptions)
    ensures
        ({
            let state = AgentView::initial(options).state;
            &&& !state.is_streaming
            &&& state.streaming_message is None
            &&& state.error_message is None
            &&& forall|id: Seq<char>| !#[trigger] state.pending_tool_calls.contains(id)
            &&& options.initial_state matches Some(initial) ==> {
                &&& initial.system_prompt matches Some(prompt) ==> state.system_prompt == prompt@
                &&& initial.model matches Some(model) ==> state.model == model.deep_view()
                &&& initial.thinking_level matches Some(level) ==> state.thinking_level == level
                &&& initial.tools matches Some(tools) ==> state.tools == tools.deep_view()
                &&& initial.messages matches Some(messages) ==> state.messages
                    == messages.deep_view()
            }
            &&& (options.initial_state is None || options.initial_state->0.system_prompt is None)
                ==> state.system_prompt.len() == 0
            &&& (options.initial_state is None || options.initial_state->0.model is None) ==> {
                &&& state.model.id == "unknown"@
                &&& state.model.name == "unknown"@
                &&& state.model.api == "unknown"@
                &&& state.model.provider == "unknown"@
                &&& state.model.base_url.len() == 0
                &&& !state.model.reasoning
                &&& state.model.input.len() == 0
                &&& state.model.context_window == 0
                &&& state.model.max_tokens == 0
                &&& state.model.cost.input.bits == 0
                &&& state.model.cost.output.bits == 0
                &&& state.model.cost.cache_read.bits == 0
                &&& state.model.cost.cache_write.bits == 0
            }
            &&& (options.initial_state is None || options.initial_state->0.thinking_level is None)
                ==> state.thinking_level == ThinkingLevel::Off
            &&& (options.initial_state is None || options.initial_state->0.tools is None)
                ==> state.tools.len() == 0
            &&& (options.initial_state is None || options.initial_state->0.messages is None)
                ==> state.messages.len() == 0
        }),
{
}

/// In every call of the model in a run of an agent, the level of thinking is the agent's, unless
/// that is off: then there is none. The model, the system prompt and the session are the agent's.
pub proof fn law_agent_calls_its_model(
    agent: AgentView,
    after: AgentView,
    prompts: Seq<AgentMessageView>,
    skip_steering_poll: bool,
    progress: Progress,
    answers: Seq<Answer>,
)
    requires
        agent.runs(after, prompts, skip_steering_poll, progress),
        fitting(progress.deep_view(), answers),
    ensures
        progress_after(progress.deep_view(), answers).request matches RequestView::OpenStream {
            model,
            llm_context,
            request,
        } ==> {
            &&& agent.state.thinking_level == ThinkingLevel::Off
                ==> request.options.reasoning is None
            &&& agent.state.thinking_level != ThinkingLevel::Off
                ==> request.options.reasoning == Some(agent.state.thinking_level)
            &&& model == agent.state.model
            &&& llm_context.system_prompt == agent.state.system_prompt
            &&& llm_context.tools.len() == agent.state.tools.len()
            &&& request.options.session_id == agent.settings.session_id.deep_view()
            &&& request.options.transport == agent.settings.transport
            &&& request.options.temperature == agent.settings.temperature
            &&& request.options.max_tokens == agent.settings.max_tokens
            &&& request.options.thinking_budgets == agent.settings.thinking_budgets
            &&& request.options.max_retry_delay_ms == agent.settings.max_retry_delay_ms
            &&& request.options.on_payload == agent.settings.on_payload
            &&& after.active == Some(request.cancel)
        },
{
    let config = progress.run.config;
    law_every_model_call_is_as_configured(
        prompts,
        agent.state.context(),
        config,
        progress.run.cancel,
        answers,
    );
    assert(config.deep_view().reasoning == config.reasoning);
}

/// A run of an agent starts from the agent's prompt, transcript and tools, with the prompts
/// behind the transcript, and becomes the agent's active run.
pub proof fn law_agent_starts_its_run(
    agent: AgentView,
    after: AgentView,
    prompts: Seq<AgentMessageView>,
    skip_steering_poll: bool,
    progress: Progress,
)
    requires
        agent.runs(after, prompts, skip_steering_poll, progress),
    ensures
        ({
            let start = progress.deep_view();
            &&& start.run.context.system_prompt == agent.state.system_prompt
            &&& start.run.context.tools == agent.state.tools
            &&& start.run.context.messages == agent.state.messages + prompts
            &&& start.run.new_messages == prompts
            &&& start.request == (RequestView::PollSteering { source: MessageSource::AgentQueue })
            &&& start.run.config.deep_view() == agent.loop_config()
            &&& after.active == Some(start.run.cancel)
            &&& after.skip_steering_poll == skip_steering_poll
            &&& after.steering == agent.steering
            &&& after.follow_up == agent.follow_up
            &&& after.listeners == agent.listeners
            &&& after.settings == agent.settings
            &&& after.state.messages == agent.state.messages
            &&& after.state.is_streaming
        }),
{
    law_run_starts_with_prompts(
        prompts,
        agent.state.context(),
        progress.run.config,
        progress.run.cancel,
    );
    assert(progress.run.config.deep_view().get_steering_messages
        == progress.run.config.get_steering_messages);
}

/// Options that name nothing but the stream function leave everything else open.
pub proof fn law_bare_options_leave_all_open(stream_fn: HookId)
    ensures
        ({
            let options = AgentOptions::bare(stream_fn);
            &&& options.stream_fn == stream_fn
            &&& options.initial_state is None
            &&& options.convert_to_llm is None
            &&& options.transform_context is None
            &&& options.get_api_key is None
            &&& options.before_tool_call is None
            &&& options.after_tool_call is None
            &&& options.steering_mode is None
            &&& options.follow_up_mode is None
            &&& options.session_id is None
            &&& options.transport is None
            &&& options.tool_execution is None
            &&& options.api_key is None
            &&& options.temperature is None
            &&& options.max_tokens is None
            &&& options.thinking_budgets is None
            &&& options.max_retry_delay_ms is None
            &&& options.on_payload is None
        }),
{
}

/// A new listener gets a place that no other listener has, and all lower places are taken.
pub proof fn law_new_listener_gets_its_own_place(
    listeners: Seq<Listener>,
    place: u64,
    lower: u64,
)
    requires
        is_first_free(listeners, place),
    ensures
        forall|i: int| 0 <= i < listeners.len() ==> (#[trigger] listeners[i]).place != place,
        lower < place ==> exists|i: int|
            0 <= i < listeners.len() && (#[trigger] listeners[i]).place == lower,
{
    if lower < place {
        assert(is_taken(listeners, lower));
    }
}

// ---- The state ----

/// Whether two states have the same prompt, model, thinking level and tools.
pub open spec fn same_fittings(one: AgentStateView, other: AgentStateView) -> bool {
    &&& one.system_prompt == other.system_prompt
    &&& one.model == other.model
    &&& one.thinking_level == other.thinking_level
    &&& one.tools == other.tools
}

/// Each event changes what it tells of and nothing else: the message under way follows the start,
/// the updates and the end of a message, and is gone with the run; a completed message enters the
/// transcript; a tool call is pending from its start to its end.
pub proof fn law_each_event_changes_its_part(state: AgentStateView, event: AgentEventView)
    ensures
        ({
            let next = state.reduce(event);
            &&& same_fittings(next, state)
            &&& next.is_streaming == state.is_streaming
            &&& next.messages == (match event {
                AgentEventView::MessageEnd { message } => state.messages.push(message),
                _ => state.messages,
            })
            &&& next.streaming_message == (match event {
                AgentEventView::MessageStart { message } => Some(message),
                AgentEventView::MessageUpdate { message, .. } => Some(message),
                AgentEventView::MessageEnd { .. } => None,
                AgentEventView::RunCompleted { .. } => None,
                AgentEventView::RunFailed { .. } => None,
                AgentEventView::RunAborted { .. } => None,
                _ => state.streaming_message,
            })
            &&& forall|id: Seq<char>| #[trigger]
                next.pending_tool_calls.contains(id) == match event {
                    AgentEventView::ToolExecutionStart { tool_call_id, .. } => tool_call_id == id
                        || state.pending_tool_calls.contains(id),
                    AgentEventView::ToolExecutionEnd { tool_call_id, .. } => tool_call_id != id
                        && state.pending_tool_calls.contains(id),
                    _ => state.pending_tool_calls.contains(id),
                }
            &&& !(event is RunFailed) && !(event is RunAborted) ==> next.error_message
                == state.error_message
        }),
{
}

/// A failed or aborted run leaves an error text: that of the last message of the run that tells
/// of such an end, or else the text that the event has for a failed run, and a fixed one for an
/// aborted run.
pub proof fn law_failed_run_leaves_its_error(
    state: AgentStateView,
    messages: Seq<AgentMessageView>,
    text: Seq<char>,
)
    ensures
        ({
            let failed = state.reduce(
                AgentEventView::RunFailed { messages, error_message: text },
            ).error_message;
            let aborted = state.reduce(AgentEventView::RunAborted { messages }).error_message;
            &&& failed is Some
            &&& aborted is Some
            &&& forall|i: int, told: Seq<char>|
                0 <= i < messages.len() && #[trigger] tells_error(
                    messages[i],
                    StopReason::Error,
                    told,
                ) && (forall|j: int, other: Seq<char>|
                    i < j < messages.len() ==> !#[trigger] tells_error(
                        messages[j],
                        StopReason::Error,
                        other,
                    )) ==> failed == Some(told)
            &&& (forall|j: int, other: Seq<char>|
                0 <= j < messages.len() ==> !#[trigger] tells_error(
                    messages[j],
                    StopReason::Error,
                    other,
                )) ==> failed == Some(text)
            &&& forall|i: int, told: Seq<char>|
                0 <= i < messages.len() && #[trigger] tells_error(
                    messages[i],
                    StopReason::Aborted,
                    told,
                ) && (forall|j: int, other: Seq<char>|
                    i < j < messages.len() ==> !#[trigger] tells_error(
                        messages[j],
                        StopReason::Aborted,
                        other,
                    )) ==> aborted == Some(told)
            &&& (forall|j: int, other: Seq<char>|
                0 <= j < messages.len() ==> !#[trigger] tells_error(
                    messages[j],
                    StopReason::Aborted,
                    other,
                )) ==> aborted == Some("Run aborted"@)
        }),
{
    law_last_error_counts(messages, StopReason::Error);
    law_last_error_counts(messages, StopReason::Aborted);
}

/// A run that begins marks the state as streaming and drops the last message under way and the
/// last error; one that settled marks it as idle, with no message and no tool call under way.
/// Neither touches the transcript, nor the prompt, the model, the thinking level or the tools.
pub proof fn law_runs_begin_and_settle(state: AgentStateView)
    ensures
        same_fittings(state.begun(), state),
        state.begun().messages == state.messages,
        state.begun().is_streaming,
        state.begun().streaming_message is None,
        state.begun().error_message is None,
        state.begun().pending_tool_calls == state.pending_tool_calls,
        same_fittings(state.settled(), state),
        state.settled().messages == state.messages,
        !state.settled().is_streaming,
        state.settled().streaming_message is None,
        state.settled().error_message == state.error_message,
        forall|id: Seq<char>| !#[trigger] state.settled().pending_tool_calls.contains(id),
{
}

/// A cleared state has no transcript, no error, and nothing under way. It keeps its prompt, its
/// model, its thinking level and its tools.
pub proof fn law_clearing_keeps_the_fittings(state: AgentStateView)
    ensures
        same_fittings(state.cleared(), state),
        state.cleared().messages.len() == 0,
        !state.cleared().is_streaming,
        state.cleared().streaming_message is None,
        state.cleared().error_message is None,
        forall|id: Seq<char>| !#[trigger] state.cleared().pending_tool_calls.contains(id),
        state.cleared().cleared() == state.cleared(),
{
}

/// A run works with the agent's prompt, transcript and tools.
pub proof fn law_run_works_with_the_state(state: AgentStateView)
    ensures
        state.context().system_prompt == state.system_prompt,
        state.context().messages == state.messages,
        state.context().tools == state.tools,
{
}

/// A run that begins becomes the active one; it touches neither the queues, nor the listeners,
/// nor the settings.
pub proof fn law_beginning_marks_the_agent(
    agent: AgentView,
    cancel: CancellationToken,
    skip_steering_poll: bool,
)
    ensures
        ({
            let after = agent.begun(cancel, skip_steering_poll);
            &&& after.active == Some(cancel)
            &&& after.skip_steering_poll == skip_steering_poll
            &&& after.steering == agent.steering
            &&& after.follow_up == agent.follow_up
            &&& after.listeners == agent.listeners
            &&& after.settings == agent.settings
            &&& same_fittings(after.state, agent.state)
            &&& after.state.messages == agent.state.messages
            &&& after.state.is_streaming
        }),
{
}

// ---- Queues ----

/// A message that is put into a queue comes out last, behind all that waited before it; the mode
/// of the queue stays.
pub proof fn law_queued_message_comes_last(queue: QueueView, message: AgentMessageView)
    ensures
        drained_until_empty(queue.with(message)) == drained_until_empty(queue).push(message),
        queue.with(message).messages == queue.messages.push(message),
        queue.with(message).mode == queue.mode,
        queue.emptied().messages.len() == 0,
        queue.emptied().mode == queue.mode,
        drained_until_empty(queue.emptied()).len() == 0,
{
    law_queue_is_fifo(queue);
    law_queue_is_fifo(queue.with(message));
}

/// A poll takes all messages of a queue, or the first one, by its mode.
pub proof fn law_poll_takes_its_share(queue: QueueView)
    ensures
        queue.mode == QueueMode::All ==> queue.drained() == queue.messages,
        queue.mode == QueueMode::OneAtATime && queue.messages.len() > 0 ==> {
            &&& queue.drained().len() == 1
            &&& queue.drained()[0] == queue.messages[0]
            &&& queue.rest().messages == queue.messages.skip(1)
        },
        queue.messages.len() == 0 ==> queue.drained().len() == 0,
        queue.drained() + queue.rest().messages == queue.messages,
        queue.rest().mode == queue.mode,
{
    assert(queue.mode == QueueMode::All ==> queue.drained() =~= queue.messages);
    assert(queue.drained() + queue.rest().messages =~= queue.messages);
}

/// A poll for steering messages that is to be skipped takes nothing, and only that one is
/// skipped; any other takes its share of the queue. Nothing else of the agent changes.
pub proof fn law_one_steering_poll_is_skipped(agent: AgentView)
    ensures
        ({
            let after = agent.steering_polled();
            &&& !after.skip_steering_poll
            &&& agent.polled_steering() + after.steering.messages == agent.steering.messages
            &&& agent.skip_steering_poll ==> agent.polled_steering().len() == 0
            &&& !agent.skip_steering_poll && agent.steering.messages.len() > 0
                ==> agent.polled_steering().len() > 0
            &&& !agent.skip_steering_poll && agent.steering.mode == QueueMode::OneAtATime
                ==> agent.polled_steering().len() <= 1
            &&& !agent.skip_steering_poll && agent.steering.mode == QueueMode::All
                ==> after.steering.messages.len() == 0
            &&& after.steering.mode == agent.steering.mode
            &&& after.state == agent.state
            &&& after.follow_up == agent.follow_up
            &&& after.listeners == agent.listeners
            &&& after.active == agent.active
            &&& after.settings == agent.settings
        }),
{
    law_poll_takes_its_share(agent.steering);
    if agent.skip_steering_poll {
        assert(agent.polled_steering() + agent.steering.messages =~= agent.steering.messages);
    }
}

// ---- Prompts ----

/// A prompt is a message of the user, made at the given time. Without images its body is the
/// text; with images it is the text, unsigned, and then the images, in order.
pub proof fn law_prompt_is_text_and_images(
    text: Seq<char>,
    images: Seq<ImageContentView>,
    now: i64,
)
    ensures
        prompt_message(text, images, now) matches AgentMessageView::User(message)
            && message.timestamp == now && if images.len() == 0 {
            message.content == UserContentView::Plain(text)
        } else {
            &&& message.content matches UserContentView::Blocks(blocks)
                && blocks.len() == images.len() + 1
                && blocks[0] == UserContentBlockView::Text(
                TextContentView { text, text_signature: None },
            ) && forall|i: int|
                0 <= i < images.len() ==> blocks[i + 1] == UserContentBlockView::Image(
                    #[trigger] images[i],
                )
        },
{
}

/// The images of a prompt are those that it names, in order, and none where it names none.
pub proof fn law_prompt_takes_its_images(images: Option<Vec<ImageContent>>)
    ensures
        images is None ==> prompt_images(images).len() == 0,
        images matches Some(list) ==> {
            &&& prompt_images(images).len() == list@.len()
            &&& forall|i: int|
                0 <= i < list@.len() ==> #[trigger] prompt_images(images)[i]
                    == list@[i].deep_view()
        },
{
}

} // verus!
