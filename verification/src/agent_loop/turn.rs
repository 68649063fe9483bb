//! The loop over turns: when the model is due another turn, and how a run ends.

use crate::agent_loop::protocol::{Observed, Request, RequestView};
use crate::agent_loop::state::{append, emit, AgentLoop, Phase, PhaseView, Progress, ProgressView, RunView};
use crate::agent_loop::terminal::{
    error_assistant_message_at, terminal_error, terminal_error_message,
};
use crate::types::error::{AgentError, AgentErrorView};
use crate::types::event::{AgentEvent, AgentEventView, RunOutcome, RunOutcomeView};
use crate::types::message::{
    AgentMessage, AgentMessageView, AssistantMessageView, ToolResultMessage, ToolResultMessageView,
};
use crate::types::model::StopReason;
use vstd::prelude::*;

verus! {

/// How the loop over turns ends.
pub enum LoopExit {
    Completed,
    Aborted,
    Failed(AgentError),
}

#[verifier::ext_equal]
pub enum LoopExitView {
    Completed,
    Aborted,
    Failed(AgentErrorView),
}

impl DeepView for LoopExit {
    type V = LoopExitView;

    open spec fn deep_view(&self) -> LoopExitView {
        match self {
            LoopExit::Completed => LoopExitView::Completed,
            LoopExit::Aborted => LoopExitView::Aborted,
            LoopExit::Failed(error) => LoopExitView::Failed(error.deep_view()),
        }
    }
}

/// The events that show messages as they enter the transcript: a start and an end for each.
pub open spec fn shown_messages(messages: Seq<AgentMessageView>) -> Seq<AgentEventView>
    decreases messages.len(),
{
    if messages.len() == 0 {
        Seq::empty()
    } else {
        shown_messages(messages.drop_last()).push(
            AgentEventView::MessageStart { message: messages.last() },
        ).push(AgentEventView::MessageEnd { message: messages.last() })
    }
}

impl RunOutcomeView {
    /// The event that tells of the outcome.
    pub open spec fn terminal_event(self) -> AgentEventView {
        match self {
            RunOutcomeView::Completed { new_messages } => AgentEventView::RunCompleted {
                messages: new_messages,
            },
            RunOutcomeView::Failed { new_messages, error } => AgentEventView::RunFailed {
                messages: new_messages,
                error_message: match terminal_error(new_messages, StopReason::Error) {
                    Some(text) => text,
                    None => error.text(),
                },
            },
            RunOutcomeView::Aborted { new_messages } => AgentEventView::RunAborted {
                messages: new_messages,
            },
        }
    }

    /// The messages that the run added.
    pub open spec fn new_messages(self) -> Seq<AgentMessageView> {
        match self {
            RunOutcomeView::Completed { new_messages } => new_messages,
            RunOutcomeView::Failed { new_messages, .. } => new_messages,
            RunOutcomeView::Aborted { new_messages } => new_messages,
        }
    }
}

impl RunView {
    /// The run waits for steering messages.
    pub open spec fn poll_steering(
        self,
        after_tools: bool,
        events: Seq<AgentEventView>,
    ) -> ProgressView {
        ProgressView {
            run: RunView { phase: PhaseView::Steering { after_tools }, ..self },
            events,
            request: match self.config.get_steering_messages {
                Some(source) => RequestView::PollSteering { source },
                None => RequestView::Checkpoint,
            },
        }
    }

    /// The run would stop: it waits for follow-up messages.
    pub open spec fn poll_follow_up(self) -> ProgressView {
        ProgressView {
            run: RunView { phase: PhaseView::FollowUp, ..self },
            events: Seq::empty(),
            request: match self.config.get_follow_up_messages {
                Some(source) => RequestView::PollFollowUp { source },
                None => RequestView::Checkpoint,
            },
        }
    }

    /// The run ends.
    pub open spec fn finish(self, events: Seq<AgentEventView>, exit: LoopExitView) -> ProgressView {
        let outcome = match exit {
            LoopExitView::Completed => RunOutcomeView::Completed {
                new_messages: self.new_messages,
            },
            LoopExitView::Aborted => RunOutcomeView::Aborted { new_messages: self.new_messages },
            LoopExitView::Failed(error) => RunOutcomeView::Failed {
                new_messages: self.new_messages,
                error,
            },
        };
        ProgressView {
            run: RunView { phase: PhaseView::Finished, ..self },
            events: events.push(outcome.terminal_event()),
            request: RequestView::Finish { outcome },
        }
    }

    /// The run fails by an error that no message tells of yet: behind the given events, a message
    /// that does is added, and ends the turn, with the tool results that the turn came to.
    pub open spec fn fail(
        self,
        events: Seq<AgentEventView>,
        results: Seq<ToolResultMessageView>,
        error: AgentErrorView,
        observed: Observed,
    ) -> ProgressView {
        let message = AgentMessageView::Assistant(
            AssistantMessageView::error(self.config.model.deep_view(), error.text(), observed.now),
        );
        let run = self.with_message(message);
        run.finish(
            events.push(AgentEventView::MessageStart { message }).push(
                AgentEventView::MessageEnd { message },
            ).push(AgentEventView::TurnEnd { message, tool_results: results }),
            LoopExitView::Failed(error),
        )
    }

    /// The run with a message added to the context and to what the run added.
    pub open spec fn with_message(self, message: AgentMessageView) -> RunView {
        self.with_messages(seq![message])
    }

    /// The run with messages added to the context and to what the run added.
    pub open spec fn with_messages(self, messages: Seq<AgentMessageView>) -> RunView {
        RunView {
            context: crate::types::tool::AgentContextView {
                messages: self.context.messages + messages,
                ..self.context
            },
            new_messages: self.new_messages + messages,
            ..self
        }
    }

    /// A turn begins, unless the run was cancelled: the pending messages enter the transcript,
    /// and the context is made ready for the model.
    pub open spec fn begin_turn(
        self,
        pending: Seq<AgentMessageView>,
        observed: Observed,
    ) -> ProgressView {
        if observed.cancelled {
            self.finish(Seq::empty(), LoopExitView::Aborted)
        } else {
            let run = RunView { first_turn: false, ..self.with_messages(pending) };
            let opening = if self.first_turn {
                Seq::empty()
            } else {
                seq![AgentEventView::TurnStart]
            };
            match self.config.transform_context {
                Some(hook) => ProgressView {
                    run: RunView { phase: PhaseView::Transform, ..run },
                    events: opening + shown_messages(pending),
                    request: RequestView::TransformContext {
                        hook,
                        messages: run.context.messages,
                        cancel: self.cancel,
                    },
                },
                None => ProgressView {
                    run: RunView { phase: PhaseView::Convert, ..run },
                    events: opening + shown_messages(pending),
                    request: RequestView::ConvertToLlm {
                        converter: self.config.convert_to_llm,
                        messages: run.context.messages,
                    },
                },
            }
        }
    }

    /// Steering messages came in, or none.
    #[verifier::opaque]
    pub open spec fn steered(
        self,
        after_tools: bool,
        messages: Seq<AgentMessageView>,
        observed: Observed,
    ) -> ProgressView {
        if after_tools || messages.len() > 0 {
            self.begin_turn(messages, observed)
        } else {
            self.poll_follow_up()
        }
    }

    /// Follow-up messages came in, or none.
    #[verifier::opaque]
    pub open spec fn followed_up(
        self,
        messages: Seq<AgentMessageView>,
        observed: Observed,
    ) -> ProgressView {
        if messages.len() > 0 {
            self.begin_turn(messages, observed)
        } else {
            self.finish(Seq::empty(), LoopExitView::Completed)
        }
    }
}

/// The event that tells of an outcome.
pub fn terminal_event(outcome: &RunOutcome) -> (event: AgentEvent)
    ensures
        event.deep_view() == outcome.deep_view().terminal_event(),
{
    match outcome {
        RunOutcome::Completed { new_messages } => AgentEvent::RunCompleted {
            messages: new_messages.clone(),
        },
        RunOutcome::Failed { new_messages, error } => AgentEvent::RunFailed {
            messages: new_messages.clone(),
            error_message: match terminal_error_message(new_messages, StopReason::Error) {
                Some(text) => text,
                None => error.to_text(),
            },
        },
        RunOutcome::Aborted { new_messages } => AgentEvent::RunAborted {
            messages: new_messages.clone(),
        },
    }
}

/// Adds the events that show messages as they enter the transcript.
pub fn show_messages(events: &mut Vec<AgentEvent>, messages: &Vec<AgentMessage>)
    ensures
        final(events).deep_view() == old(events).deep_view() + shown_messages(messages.deep_view()),
{
    let ghost before = events.deep_view();
    let ghost all = messages.deep_view();
    let mut i: usize = 0;
    assert(before + shown_messages(all.take(0)) =~= before);
    while i < messages.len()
        invariant
            0 <= i <= messages.len(),
            all == messages.deep_view(),
            events.deep_view() == before + shown_messages(all.take(i as int)),
        decreases messages.len() - i,
    {
        emit(events, AgentEvent::MessageStart { message: messages[i].clone() });
        emit(events, AgentEvent::MessageEnd { message: messages[i].clone() });
        proof {
            let next = all.take(i as int + 1);
            assert(next.drop_last() =~= all.take(i as int));
            assert(next.last() == messages@[i as int].deep_view());
            assert(before + shown_messages(next) =~= (before + shown_messages(
                all.take(i as int),
            )).push(AgentEventView::MessageStart { message: next.last() }).push(
                AgentEventView::MessageEnd { message: next.last() },
            ));
        }
        i = i + 1;
    }
    assert(all.take(i as int) =~= all);
}

/// Adds copies of messages.
pub fn append_all(messages: &mut Vec<AgentMessage>, added: &Vec<AgentMessage>)
    ensures
        final(messages).deep_view() == old(messages).deep_view() + added.deep_view(),
{
    let ghost before = messages.deep_view();
    let ghost all = added.deep_view();
    let mut i: usize = 0;
    assert(before + all.take(0) =~= before);
    while i < added.len()
        invariant
            0 <= i <= added.len(),
            all == added.deep_view(),
            messages.deep_view() == before + all.take(i as int),
        decreases added.len() - i,
    {
        append(messages, added[i].clone());
        assert(before + all.take(i as int + 1) =~= (before + all.take(i as int)).push(
            added@[i as int].deep_view(),
        ));
        i = i + 1;
    }
    assert(all.take(i as int) =~= all);
}

impl AgentLoop {
    pub(crate) fn poll_steering(self, after_tools: bool, events: Vec<AgentEvent>) -> (progress:
        Progress)
        ensures
            progress.deep_view() == self.deep_view().poll_steering(
                after_tools,
                events.deep_view(),
            ),
            progress.deep_view().run.wf(),
    {
        let mut run = self;
        let request = match run.config.get_steering_messages {
            Some(source) => Request::PollSteering { source },
            None => Request::Checkpoint,
        };
        run.phase = Phase::Steering { after_tools };
        Progress { run, events, request }
    }

    fn poll_follow_up(self) -> (progress: Progress)
        ensures
            progress.deep_view() == self.deep_view().poll_follow_up(),
            progress.deep_view().run.wf(),
    {
        let mut run = self;
        let request = match run.config.get_follow_up_messages {
            Some(source) => Request::PollFollowUp { source },
            None => Request::Checkpoint,
        };
        run.phase = Phase::FollowUp;
        Progress { run, events: Vec::new(), request }
    }

    pub(crate) fn finish(self, events: Vec<AgentEvent>, exit: LoopExit) -> (progress: Progress)
        ensures
            progress.deep_view() == self.deep_view().finish(events.deep_view(), exit.deep_view()),
            progress.deep_view().run.wf(),
    {
        let mut run = self;
        let mut events = events;
        let new_messages = run.new_messages.clone();
        let outcome = match exit {
            LoopExit::Completed => RunOutcome::Completed { new_messages },
            LoopExit::Aborted => RunOutcome::Aborted { new_messages },
            LoopExit::Failed(error) => RunOutcome::Failed { new_messages, error },
        };
        emit(&mut events, terminal_event(&outcome));
        run.phase = Phase::Finished;
        Progress { run, events, request: Request::Finish { outcome } }
    }

    pub(crate) fn fail(
        self,
        events: Vec<AgentEvent>,
        results: Vec<ToolResultMessage>,
        error: AgentError,
        observed: Observed,
    ) -> (progress: Progress)
        ensures
            progress.deep_view() == self.deep_view().fail(
                events.deep_view(),
                results.deep_view(),
                error.deep_view(),
                observed,
            ),
            progress.deep_view().run.wf(),
    {
        let mut run = self;
        let message = AgentMessage::Assistant(
            error_assistant_message_at(
                &run.config.model,
                error.to_text().as_str(),
                observed.now,
            ),
        );
        let ghost added = message.deep_view();
        append(&mut run.context.messages, message.clone());
        append(&mut run.new_messages, message.clone());
        proof {
            let before = self.deep_view();
            assert(run.context.messages.deep_view() =~= before.context.messages + seq![added]);
            assert(run.new_messages.deep_view() =~= before.new_messages + seq![added]);
        }
        let mut events = events;
        emit(&mut events, AgentEvent::MessageStart { message: message.clone() });
        emit(&mut events, AgentEvent::MessageEnd { message: message.clone() });
        emit(&mut events, AgentEvent::TurnEnd { message, tool_results: results });
        run.finish(events, LoopExit::Failed(error))
    }

    fn begin_turn(self, pending: Vec<AgentMessage>, observed: Observed) -> (progress: Progress)
        ensures
            progress.deep_view() == self.deep_view().begin_turn(pending.deep_view(), observed),
            progress.deep_view().run.wf(),
    {
        if observed.cancelled {
            return self.finish(Vec::new(), LoopExit::Aborted);
        }
        let mut run = self;
        let mut events: Vec<AgentEvent> = Vec::new();
        if !run.first_turn {
            emit(&mut events, AgentEvent::TurnStart);
        }
        run.first_turn = false;
        show_messages(&mut events, &pending);
        append_all(&mut run.context.messages, &pending);
        append_all(&mut run.new_messages, &pending);
        match run.config.transform_context {
            Some(hook) => {
                let request = Request::TransformContext {
                    hook,
                    messages: run.context.messages.clone(),
                    cancel: run.cancel.clone(),
                };
                run.phase = Phase::Transform;
                Progress { run, events, request }
            },
            None => {
                let request = Request::ConvertToLlm {
                    converter: run.config.convert_to_llm,
                    messages: run.context.messages.clone(),
                };
                run.phase = Phase::Convert;
                Progress { run, events, request }
            },
        }
    }

    pub(crate) fn steered(
        self,
        after_tools: bool,
        messages: Vec<AgentMessage>,
        observed: Observed,
    ) -> (progress: Progress)
        ensures
            progress.deep_view() == self.deep_view().steered(
                after_tools,
                messages.deep_view(),
                observed,
            ),
            progress.deep_view().run.wf(),
    {
        proof {
            reveal(RunView::steered);
        }
        if after_tools || messages.len() > 0 {
            self.begin_turn(messages, observed)
        } else {
            self.poll_follow_up()
        }
    }

    pub(crate) fn followed_up(self, messages: Vec<AgentMessage>, observed: Observed) -> (progress:
        Progress)
        ensures
            progress.deep_view() == self.deep_view().followed_up(messages.deep_view(), observed),
            progress.deep_view().run.wf(),
    {
        proof {
            reveal(RunView::followed_up);
        }
        if messages.len() > 0 {
            self.begin_turn(messages, observed)
        } else {
            self.finish(Vec::new(), LoopExit::Completed)
        }
    }
}

} // verus!
