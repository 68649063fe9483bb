//! The stateful agent around the loop.

use crate::agent::options::{AgentOptions, InitialAgentState};
use crate::agent::queue::{PendingMessageQueue, QueueMode, QueueView};
use crate::agent::state::{AgentState, AgentStateView};
use crate::agent_loop::state::Progress;
use crate::agent_loop::step::{continuation_error, run_agent_loop, run_agent_loop_continue};
use crate::agent_loop::state::RunView;
use crate::cancellation;
use crate::clock::{now_millis, timestamp_at};
use crate::types::config::{
    AgentLoopConfig, AgentLoopConfigView, HookId, MessageConverter, MessageSource,
};
use crate::types::content::{
    ContentBlock, ContentBlockView, ImageContent, ImageContentView, TextContent, TextContentView,
};
use crate::types::error::{AgentError, AgentErrorView};
use crate::types::event::{AgentEvent, RunOutcome};
use crate::types::message::{
    AgentMessage, AgentMessageView, UserContent, UserContentBlockView, UserContentView,
    UserMessage, UserMessageView,
};
use crate::types::model::{DoubleBits, Model, ThinkingBudgets, ThinkingLevel, Transport};
use crate::types::tool::{AgentContext, AgentTool, ToolExecutionMode};
use tokio_util::sync::CancellationToken;
use vstd::prelude::*;

verus! {

/// A listener of an agent, at a place of its own.
#[derive(Debug, Clone, Copy, PartialEq, Eq, Structural)]
pub struct Listener {
    pub place: u64,
    pub hook: HookId,
}

/// A listener's place among the listeners of an agent, which the agent gave out. The listener
/// hears of events until [`Agent::unsubscribe`] takes the place back.
#[must_use]
#[derive(Debug)]
pub struct Subscription {
    place: u64,
}

impl View for Subscription {
    type V = u64;

    closed spec fn view(&self) -> u64 {
        self.place
    }
}

/// Whether a place is taken.
pub open spec fn is_taken(listeners: Seq<Listener>, place: u64) -> bool {
    exists|i: int| 0 <= i < listeners.len() && (#[trigger] listeners[i]).place == place
}

/// Whether a place is the first that is not taken.
pub open spec fn is_first_free(listeners: Seq<Listener>, place: u64) -> bool {
    &&& !is_taken(listeners, place)
    &&& forall|lower: u64| lower < place ==> #[trigger] is_taken(listeners, lower)
}

/// Whether no two listeners have the same place.
pub open spec fn are_apart(listeners: Seq<Listener>) -> bool {
    forall|i: int, j: int|
        0 <= i < j < listeners.len() ==> (#[trigger] listeners[i]).place != (
        #[trigger] listeners[j]).place
}

/// The listeners without the one at the given place.
pub open spec fn without_place(listeners: Seq<Listener>, place: u64) -> Seq<Listener> {
    listeners.filter(|l: Listener| l.place != place)
}

/// Where the first places are all taken, there are as many listeners at least.
proof fn lemma_taken_places(listeners: Seq<Listener>, count: nat)
    requires
        count <= u64::MAX + 1,
        forall|place: u64| place < count ==> #[trigger] is_taken(listeners, place),
    ensures
        count <= listeners.len(),
    decreases count,
{
    if count > 0 {
        let last = (count - 1) as u64;
        assert(is_taken(listeners, last));
        let i = choose|i: int| 0 <= i < listeners.len() && (#[trigger] listeners[i]).place == last;
        let rest = listeners.remove(i);
        assert forall|place: u64| place < count - 1 implies #[trigger] is_taken(rest, place) by {
            assert(is_taken(listeners, place));
            let j = choose|j: int|
                0 <= j < listeners.len() && (#[trigger] listeners[j]).place == place;
            if j < i {
                assert(rest[j] == listeners[j]);
            } else {
                assert(rest[j - 1] == listeners[j]);
            }
        }
        lemma_taken_places(rest, (count - 1) as nat);
    }
}

/// Listeners that are apart stay apart without one of them.
proof fn lemma_still_apart(listeners: Seq<Listener>, place: u64)
    requires
        are_apart(listeners),
    ensures
        are_apart(without_place(listeners, place)),
        forall|other: u64|
            #[trigger] is_taken(without_place(listeners, place), other) ==> is_taken(
                listeners,
                other,
            ),
    decreases listeners.len(),
{
    reveal(Seq::filter);
    if listeners.len() > 0 {
        let rest = listeners.drop_last();
        assert(are_apart(rest)) by {
            assert forall|i: int, j: int| 0 <= i < j < rest.len() implies (
            #[trigger] rest[i]).place != (#[trigger] rest[j]).place by {
                assert(rest[i] == listeners[i] && rest[j] == listeners[j]);
            }
        }
        lemma_still_apart(rest, place);
        let kept = without_place(rest, place);
        let last = listeners.last();
        assert forall|other: u64| is_taken(rest, other) implies is_taken(listeners, other)
            && other != last.place by {
            let i = choose|i: int| 0 <= i < rest.len() && (#[trigger] rest[i]).place == other;
            assert(rest[i] == listeners[i]);
            assert(listeners[listeners.len() - 1] == last);
        }
        let all = without_place(listeners, place);
        if last.place != place {
            assert(all =~= kept.push(last));
            assert forall|i: int, j: int| 0 <= i < j < all.len() implies (
            #[trigger] all[i]).place != (#[trigger] all[j]).place by {
                assert(all[i] == kept[i]);
                assert(is_taken(kept, kept[i].place));
                if j < kept.len() {
                    assert(all[j] == kept[j]);
                }
            }
            assert forall|other: u64| #[trigger] is_taken(all, other) implies is_taken(
                listeners,
                other,
            ) by {
                let i = choose|i: int| 0 <= i < all.len() && (#[trigger] all[i]).place == other;
                if i < kept.len() {
                    assert(all[i] == kept[i]);
                    assert(is_taken(kept, other));
                } else {
                    assert(listeners[listeners.len() - 1].place == other);
                }
            }
        } else {
            assert(all =~= kept);
        }
    }
}

/// What an agent runs its loops with, besides its state.
pub struct AgentSettings {
    pub convert_to_llm: MessageConverter,
    pub transform_context: Option<HookId>,
    pub stream_fn: HookId,
    pub get_api_key: Option<HookId>,
    pub before_tool_call: Option<HookId>,
    pub after_tool_call: Option<HookId>,
    pub session_id: Option<String>,
    pub on_payload: Option<HookId>,
    pub transport: Transport,
    pub tool_execution: ToolExecutionMode,
    pub api_key: Option<String>,
    pub temperature: Option<DoubleBits>,
    pub max_tokens: Option<u64>,
    pub thinking_budgets: Option<ThinkingBudgets>,
    pub max_retry_delay_ms: Option<u64>,
}

/// Stateful wrapper around the low-level agent loop.
///
/// `Agent` owns the current transcript, hands out runs, takes their events into its state, and
/// exposes queueing APIs for steering and follow-up messages.
pub struct Agent {
    state: AgentState,
    steering_queue: PendingMessageQueue,
    follow_up_queue: PendingMessageQueue,
    listeners: Vec<Listener>,
    /// The cancellation signal of the active run, if one is active.
    active: Option<CancellationToken>,
    /// Whether the next poll for steering finds nothing, whatever is queued.
    skip_steering_poll: bool,
    settings: AgentSettings,
}

#[verifier::ext_equal]
pub struct AgentView {
    pub state: AgentStateView,
    pub steering: QueueView,
    pub follow_up: QueueView,
    pub listeners: Seq<Listener>,
    pub active: Option<CancellationToken>,
    pub skip_steering_poll: bool,
    pub settings: AgentSettings,
}

impl View for Agent {
    type V = AgentView;

    closed spec fn view(&self) -> AgentView {
        AgentView {
            state: self.state.deep_view(),
            steering: self.steering_queue.deep_view(),
            follow_up: self.follow_up_queue.deep_view(),
            listeners: self.listeners@,
            active: self.active,
            skip_steering_poll: self.skip_steering_poll,
            settings: self.settings,
        }
    }
}

impl AgentView {
    /// A new agent.
    pub open spec fn initial(options: AgentOptions) -> AgentView {
        let initial = match options.initial_state {
            Some(initial) => initial,
            None => InitialAgentState {
                system_prompt: None,
                model: None,
                thinking_level: None,
                tools: None,
                messages: None,
            },
        };
        AgentView {
            state: AgentStateView {
                system_prompt: match initial.system_prompt {
                    Some(prompt) => prompt@,
                    None => Seq::empty(),
                },
                model: match initial.model {
                    Some(model) => model.deep_view(),
                    None => Model::unknown(),
                },
                thinking_level: match initial.thinking_level {
                    Some(level) => level,
                    None => ThinkingLevel::Off,
                },
                tools: match initial.tools {
                    Some(tools) => tools.deep_view(),
                    None => Seq::empty(),
                },
                messages: match initial.messages {
                    Some(messages) => messages.deep_view(),
                    None => Seq::empty(),
                },
                is_streaming: false,
                streaming_message: None,
                pending_tool_calls: Set::empty(),
                error_message: None,
            },
            steering: QueueView {
                messages: Seq::empty(),
                mode: match options.steering_mode {
                    Some(mode) => mode,
                    None => QueueMode::OneAtATime,
                },
            },
            follow_up: QueueView {
                messages: Seq::empty(),
                mode: match options.follow_up_mode {
                    Some(mode) => mode,
                    None => QueueMode::OneAtATime,
                },
            },
            listeners: Seq::empty(),
            active: None,
            skip_steering_poll: false,
            settings: AgentSettings {
                convert_to_llm: match options.convert_to_llm {
                    Some(hook) => MessageConverter::Hook(hook),
                    None => MessageConverter::Standard,
                },
                transform_context: options.transform_context,
                stream_fn: options.stream_fn,
                get_api_key: options.get_api_key,
                before_tool_call: options.before_tool_call,
                after_tool_call: options.after_tool_call,
                session_id: options.session_id,
                on_payload: options.on_payload,
                transport: match options.transport {
                    Some(transport) => transport,
                    None => Transport::Sse,
                },
                tool_execution: match options.tool_execution {
                    Some(mode) => mode,
                    None => ToolExecutionMode::Parallel,
                },
                api_key: options.api_key,
                temperature: options.temperature,
                max_tokens: options.max_tokens,
                thinking_budgets: options.thinking_budgets,
                max_retry_delay_ms: options.max_retry_delay_ms,
            },
        }
    }

    /// What the next run is configured with: the settings as they stand, the model and the
    /// thinking level of the state, and the queues of the agent.
    pub open spec fn loop_config(self) -> AgentLoopConfigView {
        AgentLoopConfigView {
            model: self.state.model,
            reasoning: if self.state.thinking_level == ThinkingLevel::Off {
                None
            } else {
                Some(self.state.thinking_level)
            },
            convert_to_llm: self.settings.convert_to_llm,
            transform_context: self.settings.transform_context,
            get_api_key: self.settings.get_api_key,
            get_steering_messages: Some(MessageSource::AgentQueue),
            get_follow_up_messages: Some(MessageSource::AgentQueue),
            tool_execution: self.settings.tool_execution,
            before_tool_call: self.settings.before_tool_call,
            after_tool_call: self.settings.after_tool_call,
            api_key: self.settings.api_key.deep_view(),
            session_id: self.settings.session_id.deep_view(),
            transport: self.settings.transport,
            temperature: self.settings.temperature,
            max_tokens: self.settings.max_tokens,
            thinking_budgets: self.settings.thinking_budgets,
            max_retry_delay_ms: self.settings.max_retry_delay_ms,
            on_payload: self.settings.on_payload,
        }
    }

    /// The agent with an active run.
    pub open spec fn begun(self, cancel: CancellationToken, skip_steering_poll: bool) -> AgentView {
        AgentView {
            state: self.state.begun(),
            active: Some(cancel),
            skip_steering_poll,
            ..self
        }
    }

    /// Whether a run was started on prompts, with the agent's state, settings and queues.
    pub open spec fn runs(
        self,
        after: AgentView,
        prompts: Seq<AgentMessageView>,
        skip_steering_poll: bool,
        progress: Progress,
    ) -> bool {
        &&& progress.run.config.deep_view() == self.loop_config()
        &&& progress.deep_view() == RunView::start(
            prompts,
            self.state.context(),
            progress.run.config,
            progress.run.cancel,
        )
        &&& progress.deep_view().run.wf()
        &&& after == self.begun(progress.run.cancel, skip_steering_poll)
    }

    /// The agent after a poll for steering messages.
    pub open spec fn steering_polled(self) -> AgentView {
        if self.skip_steering_poll {
            AgentView { skip_steering_poll: false, ..self }
        } else {
            AgentView { steering: self.steering.rest(), ..self }
        }
    }

    /// The steering messages that a poll takes.
    pub open spec fn polled_steering(self) -> Seq<AgentMessageView> {
        if self.skip_steering_poll {
            Seq::empty()
        } else {
            self.steering.drained()
        }
    }
}

/// The message that a prompt of text and images makes.
pub open spec fn prompt_message(
    text: Seq<char>,
    images: Seq<ImageContentView>,
    now: i64,
) -> AgentMessageView {
    let first = UserContentBlockView::Text(TextContentView { text, text_signature: None });
    AgentMessageView::User(
        UserMessageView {
            content: UserContentView::from_blocks(
                seq![first] + images.map_values(
                    |i: ImageContentView| UserContentBlockView::Image(i),
                ),
            ),
            timestamp: now,
        },
    )
}

/// The images of a prompt, none where it has none.
pub open spec fn prompt_images(images: Option<Vec<ImageContent>>) -> Seq<ImageContentView> {
    match images {
        Some(images) => images.deep_view(),
        None => Seq::empty(),
    }
}

/// Makes the message of a prompt of text and images.
pub fn create_prompt_message(text: &str, images: Option<Vec<ImageContent>>, now: i64) -> (message:
    Result<AgentMessage, AgentError>)
    ensures
        message matches Ok(m) && m.deep_view() == prompt_message(text@, prompt_images(images), now),
{
    let mut content: Vec<ContentBlock> = Vec::new();
    content.push(ContentBlock::Text(TextContent { text: text.to_owned(), text_signature: None }));
    let ghost pictures = prompt_images(images);
    let ghost first = ContentBlockView::Text(TextContentView { text: text@, text_signature: None });
    let ghost block = |i: ImageContentView| ContentBlockView::Image(i);
    assert(content.deep_view() =~= seq![first] + pictures.take(0).map_values(block));
    if let Some(images) = images {
        let mut i: usize = 0;
        while i < images.len()
            invariant
                0 <= i <= images@.len(),
                pictures == images.deep_view(),
                block == (|i: ImageContentView| ContentBlockView::Image(i)),
                content.deep_view() == seq![first] + pictures.take(i as int).map_values(block),
            decreases images.len() - i,
        {
            let ghost before = content.deep_view();
            content.push(ContentBlock::Image(images[i].clone()));
            assert(content.deep_view() =~= before.push(block(pictures[i as int])));
            assert(pictures.take(i as int + 1).map_values(block) =~= pictures.take(
                i as int,
            ).map_values(block).push(block(pictures[i as int])));
            i = i + 1;
        }
        assert(pictures.take(i as int) =~= pictures);
    } else {
        assert(pictures.take(0) =~= pictures);
    }
    proof {
        let blocks = content.deep_view();
        assert(blocks == seq![first] + pictures.map_values(block));
        assert forall|j: int| 0 <= j < content@.len() implies (
        #[trigger] content@[j]).deep_view().as_user_block() is Ok by {
            assert(content@[j].deep_view() == blocks[j]);
            if j > 0 {
                assert(blocks[j] == block(pictures[j - 1]));
            }
        }
        let user = |b: ContentBlockView| b.as_user_block()->Ok_0;
        let text_block = UserContentBlockView::Text(
            TextContentView { text: text@, text_signature: None },
        );
        assert(blocks.map_values(user) =~= seq![text_block] + pictures.map_values(
            |i: ImageContentView| UserContentBlockView::Image(i),
        ));
    }
    match UserContent::try_from_llm_blocks(content) {
        Ok(content) => Ok(AgentMessage::User(UserMessage { content, timestamp: now })),
        Err(error) => Err(AgentError::from(error)),
    }
}

/// What a run's outcome means for the caller who started it.
pub fn outcome_to_result(outcome: RunOutcome) -> (result: Result<(), AgentError>)
    ensures
        match outcome {
            RunOutcome::Completed { .. } => result is Ok,
            RunOutcome::Failed { error, .. } => result == Err::<(), AgentError>(error),
            RunOutcome::Aborted { .. } => result == Err::<(), AgentError>(AgentError::Aborted),
        },
{
    match outcome {
        RunOutcome::Completed { .. } => Ok(()),
        RunOutcome::Failed { error, .. } => Err(error),
        RunOutcome::Aborted { .. } => Err(AgentError::Aborted),
    }
}

impl Agent {
    /// Whether no tool call is pending twice.
    pub closed spec fn tracks_calls(&self) -> bool {
        self.state.wf()
    }

    /// Whether no tool call is pending twice, and every listener has a place of its own.
    pub open spec fn wf(&self) -> bool {
        self.tracks_calls() && are_apart(self@.listeners)
    }

    pub fn new(options: AgentOptions) -> (agent: Self)
        ensures
            agent@ == AgentView::initial(options),
            agent.wf(),
    {
        let initial = match options.initial_state {
            Some(initial) => initial,
            None => InitialAgentState::default(),
        };
        let state = AgentState {
            system_prompt: match initial.system_prompt {
                Some(prompt) => prompt,
                None => String::new(),
            },
            model: match initial.model {
                Some(model) => model,
                None => Model::default(),
            },
            thinking_level: match initial.thinking_level {
                Some(level) => level,
                None => ThinkingLevel::default(),
            },
            tools: match initial.tools {
                Some(tools) => tools,
                None => Vec::new(),
            },
            messages: match initial.messages {
                Some(messages) => messages,
                None => Vec::new(),
            },
            is_streaming: false,
            streaming_message: None,
            pending_tool_calls: Vec::new(),
            error_message: None,
        };
        assert(state.deep_view() =~= AgentView::initial(options).state);
        Agent {
            state,
            steering_queue: PendingMessageQueue::new(
                match options.steering_mode {
                    Some(mode) => mode,
                    None => QueueMode::default(),
                },
            ),
            follow_up_queue: PendingMessageQueue::new(
                match options.follow_up_mode {
                    Some(mode) => mode,
                    None => QueueMode::default(),
                },
            ),
            listeners: Vec::new(),
            active: None,
            skip_steering_poll: false,
            settings: AgentSettings {
                convert_to_llm: match options.convert_to_llm {
                    Some(hook) => MessageConverter::Hook(hook),
                    None => MessageConverter::Standard,
                },
                transform_context: options.transform_context,
                stream_fn: options.stream_fn,
                get_api_key: options.get_api_key,
                before_tool_call: options.before_tool_call,
                after_tool_call: options.after_tool_call,
                session_id: options.session_id,
                on_payload: options.on_payload,
                transport: match options.transport {
                    Some(transport) => transport,
                    None => Transport::default(),
                },
                tool_execution: match options.tool_execution {
                    Some(mode) => mode,
                    None => ToolExecutionMode::default(),
                },
                api_key: options.api_key,
                temperature: options.temperature,
                max_tokens: options.max_tokens,
                thinking_budgets: options.thinking_budgets,
                max_retry_delay_ms: options.max_retry_delay_ms,
            },
        }
    }

    // ---- Public State Access ----

    pub fn state(&self) -> (state: AgentState)
        ensures
            state.deep_view() == self@.state,
            self.wf() ==> state.wf(),
    {
        self.state.clone()
    }

    pub fn is_streaming(&self) -> (yes: bool)
        ensures
            yes == self@.state.is_streaming,
    {
        self.state.is_streaming
    }

    /// The ids of the tool calls under way.
    pub fn pending_tool_calls(&self) -> (ids: Vec<String>)
        ensures
            ids.deep_view().to_set() == self@.state.pending_tool_calls,
            self.wf() ==> ids.deep_view().no_duplicates(),
    {
        self.state.pending_tool_calls.clone()
    }

    /// The callback that calls models.
    pub fn stream_fn(&self) -> (hook: HookId)
        ensures
            hook == self@.settings.stream_fn,
    {
        self.settings.stream_fn
    }

    // ---- Mutable State Setters ----
    //
    // Setters mutate state *without* emitting `AgentEvent`s. Subscribed UIs should
    // treat these as explicit, user-initiated changes and re-render on their own.

    pub fn set_system_prompt(&mut self, prompt: String)
        ensures
            final(self)@ == (AgentView {
                state: AgentStateView { system_prompt: prompt@, ..old(self)@.state },
                ..old(self)@
            }),
            old(self).wf() ==> final(self).wf(),
    {
        self.state.system_prompt = prompt;
    }

    pub fn set_model(&mut self, model: Model)
        ensures
            final(self)@ == (AgentView {
                state: AgentStateView { model: model.deep_view(), ..old(self)@.state },
                ..old(self)@
            }),
            old(self).wf() ==> final(self).wf(),
    {
        self.state.model = model;
    }

    pub fn set_thinking_level(&mut self, level: ThinkingLevel)
        ensures
            final(self)@ == (AgentView {
                state: AgentStateView { thinking_level: level, ..old(self)@.state },
                ..old(self)@
            }),
            old(self).wf() ==> final(self).wf(),
    {
        self.state.thinking_level = level;
    }

    pub fn set_tools(&mut self, tools: Vec<AgentTool>)
        ensures
            final(self)@ == (AgentView {
                state: AgentStateView { tools: tools.deep_view(), ..old(self)@.state },
                ..old(self)@
            }),
            old(self).wf() ==> final(self).wf(),
    {
        self.state.tools = tools;
    }

    pub fn set_messages(&mut self, messages: Vec<AgentMessage>)
        ensures
            final(self)@ == (AgentView {
                state: AgentStateView { messages: messages.deep_view(), ..old(self)@.state },
                ..old(self)@
            }),
            old(self).wf() ==> final(self).wf(),
    {
        self.state.messages = messages;
    }

    pub fn set_before_tool_call(&mut self, hook: Option<HookId>)
        ensures
            final(self)@ == (AgentView {
                settings: AgentSettings { before_tool_call: hook, ..old(self)@.settings },
                ..old(self)@
            }),
            old(self).wf() ==> final(self).wf(),
    {
        self.settings.before_tool_call = hook;
    }

    pub fn set_after_tool_call(&mut self, hook: Option<HookId>)
        ensures
            final(self)@ == (AgentView {
                settings: AgentSettings { after_tool_call: hook, ..old(self)@.settings },
                ..old(self)@
            }),
            old(self).wf() ==> final(self).wf(),
    {
        self.settings.after_tool_call = hook;
    }

    /// Update the session id forwarded to the stream function on subsequent runs.
    pub fn set_session_id(&mut self, session_id: String)
        ensures
            final(self)@ == (AgentView {
                settings: AgentSettings { session_id: Some(session_id), ..old(self)@.settings },
                ..old(self)@
            }),
            old(self).wf() ==> final(self).wf(),
    {
        self.settings.session_id = Some(session_id);
    }

    // ---- Queue Mode ----

    pub fn set_steering_mode(&mut self, mode: QueueMode)
        ensures
            final(self)@ == (AgentView {
                steering: QueueView { mode, ..old(self)@.steering },
                ..old(self)@
            }),
            old(self).wf() ==> final(self).wf(),
    {
        self.steering_queue.mode = mode;
    }

    pub fn steering_mode(&self) -> (mode: QueueMode)
        ensures
            mode == self@.steering.mode,
    {
        self.steering_queue.mode
    }

    pub fn set_follow_up_mode(&mut self, mode: QueueMode)
        ensures
            final(self)@ == (AgentView {
                follow_up: QueueView { mode, ..old(self)@.follow_up },
                ..old(self)@
            }),
            old(self).wf() ==> final(self).wf(),
    {
        self.follow_up_queue.mode = mode;
    }

    pub fn follow_up_mode(&self) -> (mode: QueueMode)
        ensures
            mode == self@.follow_up.mode,
    {
        self.follow_up_queue.mode
    }

    // ---- Steering & Follow-up ----

    /// Queue a message to be injected after the current assistant turn finishes.
    pub fn steer(&mut self, message: AgentMessage)
        ensures
            final(self)@ == (AgentView {
                steering: old(self)@.steering.with(message.deep_view()),
                ..old(self)@
            }),
            old(self).wf() ==> final(self).wf(),
    {
        self.steering_queue.enqueue(message);
    }

    /// Queue a message to run only after the agent would otherwise stop.
    pub fn follow_up(&mut self, message: AgentMessage)
        ensures
            final(self)@ == (AgentView {
                follow_up: old(self)@.follow_up.with(message.deep_view()),
                ..old(self)@
            }),
            old(self).wf() ==> final(self).wf(),
    {
        self.follow_up_queue.enqueue(message);
    }

    pub fn clear_steering_queue(&mut self)
        ensures
            final(self)@ == (AgentView { steering: old(self)@.steering.emptied(), ..old(self)@ }),
            old(self).wf() ==> final(self).wf(),
    {
        self.steering_queue.clear();
    }

    pub fn clear_follow_up_queue(&mut self)
        ensures
            final(self)@ == (AgentView { follow_up: old(self)@.follow_up.emptied(), ..old(self)@ }),
            old(self).wf() ==> final(self).wf(),
    {
        self.follow_up_queue.clear();
    }

    pub fn clear_all_queues(&mut self)
        ensures
            final(self)@ == (AgentView {
                steering: old(self)@.steering.emptied(),
                follow_up: old(self)@.follow_up.emptied(),
                ..old(self)@
            }),
            old(self).wf() ==> final(self).wf(),
    {
        self.clear_steering_queue();
        self.clear_follow_up_queue();
    }

    pub fn has_queued_messages(&self) -> (yes: bool)
        ensures
            yes == (self@.steering.messages.len() > 0 || self@.follow_up.messages.len() > 0),
    {
        self.steering_queue.has_items() || self.follow_up_queue.has_items()
    }

    /// Answers the active run's poll for steering messages.
    pub fn poll_steering(&mut self) -> (messages: Vec<AgentMessage>)
        ensures
            messages.deep_view() == old(self)@.polled_steering(),
            final(self)@ == old(self)@.steering_polled(),
            old(self).wf() ==> final(self).wf(),
    {
        if self.skip_steering_poll {
            self.skip_steering_poll = false;
            let none: Vec<AgentMessage> = Vec::new();
            assert(none.deep_view() =~= Seq::<AgentMessageView>::empty());
            none
        } else {
            self.steering_queue.drain()
        }
    }

    /// Answers the active run's poll for follow-up messages.
    pub fn poll_follow_up(&mut self) -> (messages: Vec<AgentMessage>)
        ensures
            messages.deep_view() == old(self)@.follow_up.drained(),
            final(self)@ == (AgentView { follow_up: old(self)@.follow_up.rest(), ..old(self)@ }),
            old(self).wf() ==> final(self).wf(),
    {
        self.follow_up_queue.drain()
    }

    // ---- Lifecycle ----

    /// Active cancellation token for the current run, if any.
    pub fn signal(&self) -> (signal: Option<CancellationToken>)
        ensures
            signal == self@.active,
    {
        cancellation::clone_optional(&self.active)
    }

    /// The cancellation token that listeners get to see: that of the active run, or one of its
    /// own where no run is active.
    pub fn listener_signal(&self) -> (signal: CancellationToken)
        ensures
            self@.active matches Some(active) ==> signal == active,
    {
        match &self.active {
            Some(signal) => signal.clone(),
            None => CancellationToken::new(),
        }
    }

    /// Whether no run is active.
    pub fn is_idle(&self) -> (yes: bool)
        ensures
            yes == (self@.active is None),
    {
        self.active.is_none()
    }

    /// Abort the current run, if one is active: returns the signal that was given, which is that
    /// of the run. That it was given is no part of the agent's value, nor of the signal's: the
    /// run's driver reads it from the signal.
    pub fn abort(&self) -> (aborted: Option<CancellationToken>)
        ensures
            aborted == self@.active,
    {
        match &self.active {
            Some(signal) => {
                signal.cancel();
                Some(signal.clone())
            },
            None => None,
        }
    }

    /// Clear transcript state, runtime state, and queued messages.
    pub fn reset(&mut self)
        ensures
            final(self)@ == (AgentView {
                state: old(self)@.state.cleared(),
                steering: old(self)@.steering.emptied(),
                follow_up: old(self)@.follow_up.emptied(),
                ..old(self)@
            }),
            final(self).tracks_calls(),
            old(self).wf() ==> final(self).wf(),
    {
        self.state.clear();
        self.steering_queue.clear();
        self.follow_up_queue.clear();
    }

    // ---- Subscribe ----

    /// Subscribe to agent lifecycle events. Listeners hear of an event in the order in which they
    /// subscribed. One callback may subscribe several times, at a place of its own each time.
    pub fn subscribe(&mut self, listener: HookId) -> (subscription: Subscription)
        ensures
            is_first_free(old(self)@.listeners, subscription@),
            final(self)@ == (AgentView {
                listeners: old(self)@.listeners.push(
                    Listener { place: subscription@, hook: listener },
                ),
                ..old(self)@
            }),
            old(self).wf() ==> final(self).wf(),
    {
        let mut place: u64 = 0;
        while self.takes_place(place)
            invariant
                self@ == old(self)@,
                self.wf() == old(self).wf(),
                place <= self.listeners@.len(),
                forall|lower: u64| lower < place ==> #[trigger] is_taken(self@.listeners, lower),
            decreases self.listeners@.len() - place,
        {
            proof {
                lemma_taken_places(self.listeners@, place as nat + 1);
                assert(self.listeners.len() <= usize::MAX);
            }
            place = place + 1;
        }
        self.listeners.push(Listener { place, hook: listener });
        Subscription { place }
    }

    /// Whether a place among the listeners is taken.
    fn takes_place(&self, place: u64) -> (yes: bool)
        ensures
            yes == is_taken(self@.listeners, place),
    {
        let mut i: usize = 0;
        while i < self.listeners.len()
            invariant
                0 <= i <= self.listeners@.len(),
                forall|j: int| 0 <= j < i ==> (#[trigger] self.listeners@[j]).place != place,
            decreases self.listeners.len() - i,
        {
            if self.listeners[i].place == place {
                return true;
            }
            i = i + 1;
        }
        false
    }

    /// Takes the listener at the subscription's place out.
    pub fn unsubscribe(&mut self, subscription: Subscription)
        ensures
            final(self)@ == (AgentView {
                listeners: without_place(old(self)@.listeners, subscription@),
                ..old(self)@
            }),
            old(self).wf() ==> final(self).wf(),
    {
        let place: u64 = subscription.place;
        let ghost all = self.listeners@;
        let ghost others = |l: Listener| l.place != place;
        let mut kept: Vec<Listener> = Vec::new();
        let mut i: usize = 0;
        assert(all.take(0).filter(others) =~= Seq::<Listener>::empty());
        while i < self.listeners.len()
            invariant
                0 <= i <= self.listeners@.len(),
                all == self.listeners@,
                others == (|l: Listener| l.place != place),
                kept@ == all.take(i as int).filter(others),
                self@ == old(self)@,
                self.wf() == old(self).wf(),
            decreases self.listeners.len() - i,
        {
            proof {
                all.take(i as int).lemma_filter_push(all[i as int], others);
                assert(all.take(i as int + 1) =~= all.take(i as int).push(all[i as int]));
            }
            if self.listeners[i].place != place {
                kept.push(self.listeners[i]);
            }
            i = i + 1;
        }
        assert(all.take(i as int) =~= all);
        proof {
            if are_apart(all) {
                lemma_still_apart(all, place);
            }
        }
        self.listeners = kept;
    }

    /// The listeners, in the order in which they hear of an event.
    pub fn listeners(&self) -> (listeners: Vec<HookId>)
        ensures
            listeners@ == self@.listeners.map_values(|l: Listener| l.hook),
    {
        let mut listeners: Vec<HookId> = Vec::new();
        let mut i: usize = 0;
        while i < self.listeners.len()
            invariant
                0 <= i <= self.listeners@.len(),
                listeners@.len() == i,
                forall|j: int| 0 <= j < i ==> #[trigger] listeners@[j] == self.listeners@[j].hook,
            decreases self.listeners.len() - i,
        {
            listeners.push(self.listeners[i].hook);
            i = i + 1;
        }
        assert(listeners@ =~= self.listeners@.map_values(|l: Listener| l.hook));
        listeners
    }

    // ---- Prompt & Continue ----

    /// Start a new prompt with a text string and optional images.
    pub fn prompt_text(&mut self, text: &str, images: Option<Vec<ImageContent>>) -> (started:
        Result<Progress, AgentError>)
        ensures
            old(self).wf() ==> final(self).wf(),
            match started {
                Ok(progress) => {
                    &&& old(self)@.active is None
                    &&& exists|since_epoch: Option<std::time::Duration>|
                        old(self)@.runs(
                            final(self)@,
                            seq![
                                prompt_message(
                                    text@,
                                    prompt_images(images),
                                    #[trigger] timestamp_at(since_epoch),
                                ),
                            ],
                            false,
                            progress,
                        )
                },
                Err(error) => {
                    &&& old(self)@.active is Some
                    &&& error.deep_view() == AgentErrorView::AlreadyProcessing
                    &&& final(self)@ == old(self)@
                },
            },
    {
        let now: i64 = now_millis();
        self.prompt_text_at(text, images, now)
    }

    /// Start a new prompt with a text string and optional images, made at the given time.
    pub fn prompt_text_at(&mut self, text: &str, images: Option<Vec<ImageContent>>, now: i64) -> (started:
        Result<Progress, AgentError>)
        ensures
            old(self).wf() ==> final(self).wf(),
            match started {
                Ok(progress) => {
                    &&& old(self)@.active is None
                    &&& old(self)@.runs(
                        final(self)@,
                        seq![prompt_message(text@, prompt_images(images), now)],
                        false,
                        progress,
                    )
                },
                Err(error) => {
                    &&& old(self)@.active is Some
                    &&& error.deep_view() == AgentErrorView::AlreadyProcessing
                    &&& final(self)@ == old(self)@
                },
            },
    {
        match create_prompt_message(text, images, now) {
            Ok(message) => {
                let ghost view = message.deep_view();
                let mut messages: Vec<AgentMessage> = Vec::new();
                messages.push(message);
                assert(messages.deep_view() =~= seq![view]);
                self.prompt(messages)
            },
            Err(error) => Err(error),
        }
    }

    /// Start a new prompt from one or more messages.
    pub fn prompt(&mut self, messages: Vec<AgentMessage>) -> (started: Result<Progress, AgentError>)
        ensures
            old(self).wf() ==> final(self).wf(),
            match started {
                Ok(progress) => {
                    &&& old(self)@.active is None
                    &&& old(self)@.runs(final(self)@, messages.deep_view(), false, progress)
                },
                Err(error) => {
                    &&& old(self)@.active is Some
                    &&& error.deep_view() == AgentErrorView::AlreadyProcessing
                    &&& final(self)@ == old(self)@
                },
            },
    {
        if self.active.is_some() {
            return Err(AgentError::AlreadyProcessing);
        }
        Ok(self.run_prompt_messages(messages, false))
    }

    /// Continue from the current transcript.
    /// The last message must be a user or tool-result message; where it is one of the model,
    /// queued steering messages are taken as prompts, or else queued follow-up messages.
    pub fn continue_run(&mut self) -> (started: Result<Progress, AgentError>)
        ensures
            old(self).wf() ==> final(self).wf(),
            ({
                let agent = old(self)@;
                let steering = agent.steering.drained();
                let follow_up = agent.follow_up.drained();
                match started {
                    Ok(progress) => {
                        &&& agent.active is None
                        &&& match continuation_error(agent.state.messages) {
                            None => agent.runs(final(self)@, Seq::empty(), false, progress),
                            Some(error) => {
                                &&& error is ContinueFromAssistant
                                &&& if steering.len() > 0 {
                                    (AgentView { steering: agent.steering.rest(), ..agent }).runs(
                                        final(self)@,
                                        steering,
                                        true,
                                        progress,
                                    )
                                } else {
                                    &&& follow_up.len() > 0
                                    &&& (AgentView {
                                        follow_up: agent.follow_up.rest(),
                                        ..agent
                                    }).runs(final(self)@, follow_up, false, progress)
                                }
                            },
                        }
                    },
                    Err(error) => {
                        &&& final(self)@ == agent
                        &&& if agent.active is Some {
                            error.deep_view() == AgentErrorView::AlreadyProcessing
                        } else {
                            &&& continuation_error(agent.state.messages) == Some(error.deep_view())
                            &&& error.deep_view() is ContinueFromAssistant ==> steering.len() == 0
                                && follow_up.len() == 0
                        }
                    },
                }
            }),
    {
        if self.active.is_some() {
            return Err(AgentError::AlreadyProcessing);
        }
        let count: usize = self.state.messages.len();
        if count == 0 {
            return Err(AgentError::NoMessages);
        }
        if self.state.messages[count - 1].has_assistant_role() {
            let ghost agent = self@;
            let steering = self.steering_queue.drain();
            assert(steering.deep_view().len() == steering@.len());
            if steering.len() > 0 {
                return Ok(self.run_prompt_messages(steering, true));
            }
            proof {
                assert(agent.steering.messages.len() == 0);
                assert(agent.steering.rest() =~= agent.steering);
            }
            let follow_ups = self.follow_up_queue.drain();
            assert(follow_ups.deep_view().len() == follow_ups@.len());
            if follow_ups.len() > 0 {
                return Ok(self.run_prompt_messages(follow_ups, false));
            }
            proof {
                assert(agent.follow_up.messages.len() == 0);
                assert(agent.follow_up.rest() =~= agent.follow_up);
            }
            return Err(AgentError::ContinueFromAssistant);
        }
        Ok(self.run_continuation())
    }

    // ---- Runs ----

    fn run_prompt_messages(&mut self, messages: Vec<AgentMessage>, skip_initial_steering_poll: bool) -> (progress:
        Progress)
        requires
            old(self)@.active is None,
        ensures
            old(self)@.runs(
                final(self)@,
                messages.deep_view(),
                skip_initial_steering_poll,
                progress,
            ),
            old(self).wf() ==> final(self).wf(),
    {
        let context = self.create_context_snapshot();
        let config = self.create_loop_config();
        let cancel = self.begin_run(skip_initial_steering_poll);
        run_agent_loop(messages, context, config, cancel)
    }

    fn run_continuation(&mut self) -> (progress: Progress)
        requires
            old(self)@.active is None,
            continuation_error(old(self)@.state.messages) is None,
        ensures
            old(self)@.runs(final(self)@, Seq::empty(), false, progress),
            old(self).wf() ==> final(self).wf(),
    {
        let context = self.create_context_snapshot();
        let config = self.create_loop_config();
        let cancel = self.begin_run(false);
        match run_agent_loop_continue(context, config, cancel) {
            Ok(progress) => progress,
            Err(_) => vstd::pervasive::unreached(),
        }
    }

    /// Registers a run and marks the state.
    fn begin_run(&mut self, skip_initial_steering_poll: bool) -> (cancel: CancellationToken)
        ensures
            final(self)@ == old(self)@.begun(cancel, skip_initial_steering_poll),
            old(self).wf() ==> final(self).wf(),
    {
        let cancel = CancellationToken::new();
        self.active = Some(cancel.clone());
        self.skip_steering_poll = skip_initial_steering_poll;
        self.state.begin();
        cancel
    }

    /// Marks that the active run has settled.
    pub fn finish_run(&mut self)
        ensures
            final(self)@ == (AgentView {
                state: old(self)@.state.settled(),
                active: None,
                ..old(self)@
            }),
            final(self).tracks_calls(),
            old(self).wf() ==> final(self).wf(),
    {
        self.state.settle();
        self.active = None;
    }

    /// What the next run gets to work with.
    pub fn create_context_snapshot(&self) -> (context: AgentContext)
        ensures
            context.deep_view() == self@.state.context(),
    {
        self.state.context()
    }

    /// What the next run is configured with.
    pub fn create_loop_config(&self) -> (config: AgentLoopConfig)
        ensures
            config.deep_view() == self@.loop_config(),
    {
        AgentLoopConfig {
            model: self.state.model.clone(),
            reasoning: if self.state.thinking_level == ThinkingLevel::Off {
                None
            } else {
                Some(self.state.thinking_level)
            },
            convert_to_llm: self.settings.convert_to_llm,
            transform_context: self.settings.transform_context,
            get_api_key: self.settings.get_api_key,
            get_steering_messages: Some(MessageSource::AgentQueue),
            get_follow_up_messages: Some(MessageSource::AgentQueue),
            tool_execution: self.settings.tool_execution,
            before_tool_call: self.settings.before_tool_call,
            after_tool_call: self.settings.after_tool_call,
            api_key: self.settings.api_key.clone(),
            session_id: self.settings.session_id.clone(),
            transport: self.settings.transport,
            temperature: self.settings.temperature,
            max_tokens: self.settings.max_tokens,
            thinking_budgets: self.settings.thinking_budgets,
            max_retry_delay_ms: self.settings.max_retry_delay_ms,
            on_payload: self.settings.on_payload,
        }
    }

    /// Takes an event of the active run into the state. The listeners are to hear of it next.
    pub fn process_event(&mut self, event: &AgentEvent)
        ensures
            final(self)@ == (AgentView {
                state: old(self)@.state.reduce(event.deep_view()),
                ..old(self)@
            }),
            old(self).wf() ==> final(self).wf(),
    {
        self.state.reduce(event);
    }
}

} // verus!
