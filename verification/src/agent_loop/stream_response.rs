//! One answer of the model: calling it, following its stream, and closing the message.

use crate::agent_loop::protocol::{
    Observed, Opening, OpeningView, Request, RequestView, StreamPoll, StreamPollView,
};
use crate::agent_loop::state::{
    append, emit, AgentLoop, Phase, PhaseView, Progress, ProgressView, RunView, ToolBatch,
    ToolBatchView, ToolStage, ToolStageView,
};
use crate::agent_loop::terminal::{
    create_abort_message, error_assistant_message_at, failure_from_terminal_message,
    normalize_terminal_assistant_message, stream_error_message,
};
use crate::agent_loop::turn::{LoopExit, LoopExitView};
use crate::types::error::{AgentError, AgentErrorView};
use crate::types::event::{AgentEvent, AgentEventView};
use crate::types::message::{
    AgentMessage, AgentMessageView, AssistantMessage, AssistantMessageView, Message, MessageView,
    ToolResultMessage, ToolResultMessageView,
};
use crate::types::model::StopReason;
use crate::types::stream::{
    stream_event_partial_for_update, LlmContext, LlmContextView, StreamEvent, StreamEventView,
    StreamOptions, StreamOptionsView, StreamRequest, StreamRequestView,
};
use crate::types::tool::{tool_definitions, AgentContextView, AgentToolView};
use vstd::prelude::*;

verus! {

/// The messages with the last one replaced, where there is one.
pub open spec fn with_last(
    messages: Seq<AgentMessageView>,
    message: AgentMessageView,
) -> Seq<AgentMessageView> {
    if messages.len() > 0 {
        messages.drop_last().push(message)
    } else {
        messages
    }
}

impl RunView {
    /// The run with other messages in its context.
    pub open spec fn with_context(self, messages: Seq<AgentMessageView>) -> RunView {
        RunView { context: AgentContextView { messages, ..self.context }, ..self }
    }

    /// The context was transformed: it is converted for the model.
    #[verifier::opaque]
    pub open spec fn transformed(self, messages: Seq<AgentMessageView>) -> ProgressView {
        ProgressView {
            run: RunView { phase: PhaseView::Convert, ..self },
            events: Seq::empty(),
            request: RequestView::ConvertToLlm { converter: self.config.convert_to_llm, messages },
        }
    }

    /// The messages for the model are ready: the key for the provider is looked up, if there is
    /// a callback for that.
    #[verifier::opaque]
    pub open spec fn converted(self, messages: Seq<MessageView>) -> ProgressView {
        match self.config.get_api_key {
            Some(hook) => ProgressView {
                run: RunView { phase: PhaseView::ApiKey { messages }, ..self },
                events: Seq::empty(),
                request: RequestView::ResolveApiKey {
                    hook,
                    provider: self.config.model.provider@,
                },
            },
            None => self.call_model(messages, self.config.api_key.deep_view()),
        }
    }

    /// The callback named a key, or none: then the configured one stands.
    #[verifier::opaque]
    pub open spec fn key_resolved(
        self,
        messages: Seq<MessageView>,
        key: Option<Seq<char>>,
    ) -> ProgressView {
        match key {
            Some(_) => self.call_model(messages, key),
            None => self.call_model(messages, self.config.api_key.deep_view()),
        }
    }

    /// The options of a model call with the given key.
    pub open spec fn stream_options(self, api_key: Option<Seq<char>>) -> StreamOptionsView {
        StreamOptionsView {
            api_key,
            reasoning: self.config.reasoning,
            session_id: self.config.session_id.deep_view(),
            transport: self.config.transport,
            temperature: self.config.temperature,
            max_tokens: self.config.max_tokens,
            thinking_budgets: self.config.thinking_budgets,
            max_retry_delay_ms: self.config.max_retry_delay_ms,
            on_payload: self.config.on_payload,
        }
    }

    /// The model is called.
    pub open spec fn call_model(
        self,
        messages: Seq<MessageView>,
        api_key: Option<Seq<char>>,
    ) -> ProgressView {
        ProgressView {
            run: RunView { phase: PhaseView::Open, ..self },
            events: Seq::empty(),
            request: RequestView::OpenStream {
                model: self.config.model.deep_view(),
                llm_context: LlmContextView {
                    system_prompt: self.context.system_prompt,
                    messages,
                    tools: self.context.tools.map_values(|t: AgentToolView| t.definition()),
                },
                request: StreamRequestView {
                    options: self.stream_options(api_key),
                    cancel: self.cancel,
                },
            },
        }
    }

    /// The stream opened, or did not.
    #[verifier::opaque]
    pub open spec fn opened(self, opening: OpeningView, observed: Observed) -> ProgressView {
        match opening {
            OpeningView::Opened => self.await_event(None, false, Seq::empty()),
            OpeningView::Failed(AgentErrorView::Aborted) => self.abort_answer(
                None,
                false,
                observed,
            ),
            OpeningView::Failed(error) => self.fail(
                Seq::empty(),
                Seq::empty(),
                error,
                observed,
            ),
        }
    }

    /// The run waits for the next event of the stream.
    pub open spec fn await_event(
        self,
        partial: Option<AssistantMessageView>,
        shown: bool,
        events: Seq<AgentEventView>,
    ) -> ProgressView {
        ProgressView {
            run: RunView { phase: PhaseView::Stream { partial, shown }, ..self },
            events,
            request: RequestView::NextStreamEvent,
        }
    }

    /// The answer is closed as aborted.
    pub open spec fn abort_answer(
        self,
        partial: Option<AssistantMessageView>,
        shown: bool,
        observed: Observed,
    ) -> ProgressView {
        self.conclude(
            AssistantMessageView::aborted(self.config.model.deep_view(), partial, observed.now),
            shown,
        )
    }

    /// Something came of waiting for the next event of the stream.
    #[verifier::opaque]
    pub open spec fn streamed(
        self,
        partial: Option<AssistantMessageView>,
        shown: bool,
        poll: StreamPollView,
        observed: Observed,
    ) -> ProgressView {
        match poll {
            StreamPollView::Cancelled => self.abort_answer(partial, shown, observed),
            StreamPollView::Ended => self.conclude(
                AssistantMessageView::error(
                    self.config.model.deep_view(),
                    "Stream ended without terminal event"@,
                    observed.now,
                ),
                shown,
            ),
            StreamPollView::Failed(AgentErrorView::Aborted) => self.abort_answer(
                partial,
                shown,
                observed,
            ),
            StreamPollView::Failed(error) => self.fail(
                Seq::empty(),
                Seq::empty(),
                error,
                observed,
            ),
            StreamPollView::Event(event) => self.followed(partial, shown, event, observed),
        }
    }

    /// The next event of the stream came.
    pub open spec fn followed(
        self,
        partial: Option<AssistantMessageView>,
        shown: bool,
        event: StreamEventView,
        observed: Observed,
    ) -> ProgressView {
        match event {
            StreamEventView::Start { partial: first } => if observed.cancelled {
                self.abort_answer(Some(first), shown, observed)
            } else {
                let message = AgentMessageView::Assistant(first);
                self.with_context(self.context.messages.push(message)).await_event(
                    Some(first),
                    true,
                    seq![AgentEventView::MessageStart { message }],
                )
            },
            StreamEventView::Done { message } => self.conclude(message.normalized(), shown),
            StreamEventView::Error { message } => self.conclude(
                message.as_stream_error().normalized(),
                shown,
            ),
            update => {
                let current = update.partial_for_update()->Some_0;
                if observed.cancelled {
                    self.abort_answer(Some(current), shown, observed)
                } else if !shown {
                    self.await_event(partial, shown, Seq::empty())
                } else {
                    let message = AgentMessageView::Assistant(current);
                    self.with_context(with_last(self.context.messages, message)).await_event(
                        Some(current),
                        true,
                        seq![AgentEventView::MessageUpdate { message, stream_event: update }],
                    )
                }
            },
        }
    }

    /// The answer of the model is complete: it enters the transcript, and the turn ends or goes
    /// on with the tool calls that it asks for.
    pub open spec fn conclude(self, message: AssistantMessageView, shown: bool) -> ProgressView {
        let entry = AgentMessageView::Assistant(message);
        let run = RunView {
            new_messages: self.new_messages.push(entry),
            ..self.with_context(
                if shown {
                    with_last(self.context.messages, entry)
                } else {
                    self.context.messages.push(entry)
                },
            )
        };
        let closing = if shown {
            seq![AgentEventView::MessageEnd { message: entry }]
        } else {
            seq![
                AgentEventView::MessageStart { message: entry },
                AgentEventView::MessageEnd { message: entry },
            ]
        };
        let turn_end = AgentEventView::TurnEnd { message: entry, tool_results: Seq::empty() };
        if message.stop_reason == StopReason::Error {
            run.finish(closing.push(turn_end), LoopExitView::Failed(message.failure()))
        } else if message.stop_reason == StopReason::Aborted {
            run.finish(closing.push(turn_end), LoopExitView::Aborted)
        } else if message.tool_calls().len() == 0 {
            run.poll_steering(false, closing.push(turn_end))
        } else {
            ProgressView {
                run: RunView {
                    phase: PhaseView::Tools { batch: ToolBatchView::of(message) },
                    ..run
                },
                events: closing,
                request: RequestView::Checkpoint,
            }
        }
    }
}

impl ToolBatchView {
    /// The tool calls of a message, before the first of them.
    pub open spec fn of(message: AssistantMessageView) -> ToolBatchView {
        ToolBatchView {
            message,
            calls: message.tool_calls(),
            cursor: 0,
            slots: Seq::empty(),
            spawned: 0,
            results: Seq::empty(),
            stage: ToolStageView::Gate,
        }
    }
}

/// Replaces the last message, where there is one.
fn replace_last(messages: &mut Vec<AgentMessage>, message: AgentMessage)
    ensures
        final(messages).deep_view() == with_last(old(messages).deep_view(), message.deep_view()),
{
    let ghost before = messages.deep_view();
    if messages.len() > 0 {
        let _ = messages.pop();
        assert(messages.deep_view() =~= before.drop_last());
        append(messages, message);
    }
}

impl AgentLoop {
    pub(crate) fn transformed(self, messages: Vec<AgentMessage>) -> (progress: Progress)
        ensures
            progress.deep_view() == self.deep_view().transformed(messages.deep_view()),
            progress.deep_view().run.wf(),
    {
        proof {
            reveal(RunView::transformed);
        }
        let mut run = self;
        let request = Request::ConvertToLlm { converter: run.config.convert_to_llm, messages };
        run.phase = Phase::Convert;
        Progress { run, events: Vec::new(), request }
    }

    pub(crate) fn converted(self, messages: Vec<Message>) -> (progress: Progress)
        ensures
            progress.deep_view() == self.deep_view().converted(messages.deep_view()),
            progress.deep_view().run.wf(),
    {
        proof {
            reveal(RunView::converted);
        }
        let mut run = self;
        match run.config.get_api_key {
            Some(hook) => {
                let request = Request::ResolveApiKey {
                    hook,
                    provider: run.config.model.provider.clone(),
                };
                run.phase = Phase::ApiKey { messages };
                Progress { run, events: Vec::new(), request }
            },
            None => {
                let key = run.config.api_key.clone();
                run.call_model(messages, key)
            },
        }
    }

    pub(crate) fn key_resolved(self, messages: Vec<Message>, key: Option<String>) -> (progress:
        Progress)
        ensures
            progress.deep_view() == self.deep_view().key_resolved(
                messages.deep_view(),
                key.deep_view(),
            ),
            progress.deep_view().run.wf(),
    {
        proof {
            reveal(RunView::key_resolved);
        }
        match key {
            Some(key) => self.call_model(messages, Some(key)),
            None => {
                let key = self.config.api_key.clone();
                self.call_model(messages, key)
            },
        }
    }

    fn stream_options(&self, api_key: Option<String>) -> (options: StreamOptions)
        ensures
            options.deep_view() == self.deep_view().stream_options(api_key.deep_view()),
    {
        StreamOptions {
            api_key,
            reasoning: self.config.reasoning,
            session_id: self.config.session_id.clone(),
            transport: self.config.transport,
            temperature: self.config.temperature,
            max_tokens: self.config.max_tokens,
            thinking_budgets: self.config.thinking_budgets,
            max_retry_delay_ms: self.config.max_retry_delay_ms,
            on_payload: self.config.on_payload,
        }
    }

    fn call_model(self, messages: Vec<Message>, api_key: Option<String>) -> (progress: Progress)
        ensures
            progress.deep_view() == self.deep_view().call_model(
                messages.deep_view(),
                api_key.deep_view(),
            ),
            progress.deep_view().run.wf(),
    {
        let mut run = self;
        let request = Request::OpenStream {
            model: run.config.model.clone(),
            llm_context: LlmContext {
                system_prompt: run.context.system_prompt.clone(),
                messages,
                tools: tool_definitions(&run.context.tools),
            },
            request: StreamRequest {
                options: run.stream_options(api_key),
                cancel: run.cancel.clone(),
            },
        };
        run.phase = Phase::Open;
        Progress { run, events: Vec::new(), request }
    }

    pub(crate) fn opened(self, opening: Opening, observed: Observed) -> (progress: Progress)
        ensures
            progress.deep_view() == self.deep_view().opened(opening.deep_view(), observed),
            progress.deep_view().run.wf(),
    {
        proof {
            reveal(RunView::opened);
        }
        match opening {
            Opening::Opened => self.await_event(None, false, Vec::new()),
            Opening::Failed(AgentError::Aborted) => self.abort_answer(None, false, observed),
            Opening::Failed(error) => self.fail_answer(error, observed),
        }
    }

    fn await_event(
        self,
        partial: Option<AssistantMessage>,
        shown: bool,
        events: Vec<AgentEvent>,
    ) -> (progress: Progress)
        ensures
            progress.deep_view() == self.deep_view().await_event(
                partial.deep_view(),
                shown,
                events.deep_view(),
            ),
            progress.deep_view().run.wf(),
    {
        let mut run = self;
        run.phase = Phase::Stream { partial, shown };
        Progress { run, events, request: Request::NextStreamEvent }
    }

    fn abort_answer(self, partial: Option<&AssistantMessage>, shown: bool, observed: Observed) -> (progress:
        Progress)
        ensures
            progress.deep_view() == self.deep_view().abort_answer(
                partial.deep_view(),
                shown,
                observed,
            ),
            progress.deep_view().run.wf(),
    {
        let message = create_abort_message(&self.config.model, partial, observed.now);
        self.conclude(message, shown)
    }

    fn fail_answer(self, error: AgentError, observed: Observed) -> (progress: Progress)
        ensures
            progress.deep_view() == self.deep_view().fail(
                Seq::empty(),
                Seq::empty(),
                error.deep_view(),
                observed,
            ),
            progress.deep_view().run.wf(),
    {
        let none: Vec<ToolResultMessage> = Vec::new();
        assert(none.deep_view() =~= Seq::<ToolResultMessageView>::empty());
        let silence: Vec<AgentEvent> = Vec::new();
        assert(silence.deep_view() =~= Seq::<AgentEventView>::empty());
        self.fail(silence, none, error, observed)
    }

    pub(crate) fn streamed(
        self,
        partial: Option<AssistantMessage>,
        shown: bool,
        poll: StreamPoll,
        observed: Observed,
    ) -> (progress: Progress)
        ensures
            progress.deep_view() == self.deep_view().streamed(
                partial.deep_view(),
                shown,
                poll.deep_view(),
                observed,
            ),
            progress.deep_view().run.wf(),
    {
        proof {
            reveal(RunView::streamed);
        }
        match poll {
            StreamPoll::Cancelled => self.abort_answer(partial.as_ref(), shown, observed),
            StreamPoll::Ended => {
                let message = error_assistant_message_at(
                    &self.config.model,
                    "Stream ended without terminal event",
                    observed.now,
                );
                self.conclude(message, shown)
            },
            StreamPoll::Failed(AgentError::Aborted) => {
                self.abort_answer(partial.as_ref(), shown, observed)
            },
            StreamPoll::Failed(error) => self.fail_answer(error, observed),
            StreamPoll::Event(event) => self.followed(partial, shown, event, observed),
        }
    }

    fn followed(
        self,
        partial: Option<AssistantMessage>,
        shown: bool,
        event: StreamEvent,
        observed: Observed,
    ) -> (progress: Progress)
        ensures
            progress.deep_view() == self.deep_view().followed(
                partial.deep_view(),
                shown,
                event.deep_view(),
                observed,
            ),
            progress.deep_view().run.wf(),
    {
        match event {
            StreamEvent::Start { partial: first } => self.started(first, shown, observed),
            StreamEvent::Done { message } => self.conclude(
                normalize_terminal_assistant_message(message),
                shown,
            ),
            StreamEvent::Error { message } => self.conclude(
                normalize_terminal_assistant_message(stream_error_message(message)),
                shown,
            ),
            update => match stream_event_partial_for_update(&update) {
                Some(current) => {
                    let current = current.clone();
                    self.updated(partial, shown, current, update, observed)
                },
                None => self.await_event(partial, shown, Vec::new()),
            },
        }
    }

    fn started(self, first: AssistantMessage, shown: bool, observed: Observed) -> (progress:
        Progress)
        ensures
            progress.deep_view() == self.deep_view().followed(
                None,
                shown,
                StreamEventView::Start { partial: first.deep_view() },
                observed,
            ),
            progress.deep_view().run.wf(),
    {
        if observed.cancelled {
            return self.abort_answer(Some(&first), shown, observed);
        }
        let mut run = self;
        let message = AgentMessage::Assistant(first.clone());
        append(&mut run.context.messages, message.clone());
        let mut events: Vec<AgentEvent> = Vec::new();
        emit(&mut events, AgentEvent::MessageStart { message });
        run.await_event(Some(first), true, events)
    }

    fn updated(
        self,
        partial: Option<AssistantMessage>,
        shown: bool,
        current: AssistantMessage,
        update: StreamEvent,
        observed: Observed,
    ) -> (progress: Progress)
        requires
            update.deep_view().partial_for_update() == Some(current.deep_view()),
        ensures
            progress.deep_view() == self.deep_view().followed(
                partial.deep_view(),
                shown,
                update.deep_view(),
                observed,
            ),
            progress.deep_view().run.wf(),
    {
        if observed.cancelled {
            return self.abort_answer(Some(&current), shown, observed);
        }
        if !shown {
            return self.await_event(partial, shown, Vec::new());
        }
        let mut run = self;
        let message = AgentMessage::Assistant(current.clone());
        replace_last(&mut run.context.messages, message.clone());
        let mut events: Vec<AgentEvent> = Vec::new();
        emit(&mut events, AgentEvent::MessageUpdate { message, stream_event: update });
        run.await_event(Some(current), true, events)
    }

    fn conclude(self, message: AssistantMessage, shown: bool) -> (progress: Progress)
        ensures
            progress.deep_view() == self.deep_view().conclude(message.deep_view(), shown),
            progress.deep_view().run.wf(),
    {
        let mut run = self;
        let entry = AgentMessage::Assistant(message.clone());
        let ghost entry_view = entry.deep_view();
        let mut events: Vec<AgentEvent> = Vec::new();
        if shown {
            replace_last(&mut run.context.messages, entry.clone());
        } else {
            append(&mut run.context.messages, entry.clone());
            emit(&mut events, AgentEvent::MessageStart { message: entry.clone() });
        }
        emit(&mut events, AgentEvent::MessageEnd { message: entry.clone() });
        append(&mut run.new_messages, entry.clone());
        let ghost closing = events.deep_view();
        if message.stop_reason == StopReason::Error || message.stop_reason == StopReason::Aborted {
            let exit = if message.stop_reason == StopReason::Error {
                LoopExit::Failed(failure_from_terminal_message(&message))
            } else {
                LoopExit::Aborted
            };
            emit(&mut events, AgentEvent::TurnEnd { message: entry, tool_results: Vec::new() });
            assert(events.deep_view().last() =~~= AgentEventView::TurnEnd {
                message: entry_view,
                tool_results: Seq::empty(),
            });
            return run.finish(events, exit);
        }
        let calls = message.tool_calls();
        if calls.len() == 0 {
            emit(&mut events, AgentEvent::TurnEnd { message: entry, tool_results: Vec::new() });
            assert(events.deep_view().last() =~~= AgentEventView::TurnEnd {
                message: entry_view,
                tool_results: Seq::empty(),
            });
            return run.poll_steering(false, events);
        }
        run.phase =
        Phase::Tools {
            batch: ToolBatch {
                message,
                calls,
                cursor: 0,
                slots: Vec::new(),
                spawned: 0,
                results: Vec::new(),
                stage: ToolStage::Gate,
            },
        };
        Progress { run, events, request: Request::Checkpoint }
    }
}

} // verus!
