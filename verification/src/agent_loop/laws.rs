//! Laws of runs, over every sequence of answers that a driver can give.

use crate::agent_loop::history::{
    announced_calls, call_keys, closed_calls, completed_messages, lemma_add_events,
    lemma_broken_step, lemma_start, lemma_step, ordinary, result_keys,
};
use crate::agent_loop::protocol::{
    JoinView, Observed, OpeningView, ReplyView, RequestView, StreamPollView,
};
use crate::agent_loop::state::{
    PhaseView, ProgressView, RunView, ToolBatchView, ToolSlotView, ToolStageView,
};
use crate::agent_loop::stream_response::with_last;
use crate::agent_loop::tool_calls::{aborted_result, hook_refusal, result_entries};
use crate::types::config::{AgentLoopConfig, HookId};
use crate::types::error::AgentErrorView;
use crate::types::event::{AgentEventView, RunOutcomeView};
use crate::types::message::{AgentMessageView, AssistantMessageView, ToolResultMessageView};
use crate::types::model::StopReason;
use crate::types::stream::StreamEventView;
use crate::types::tool::{AgentContextView, AgentToolResultView};
use crate::validate::verdict;
use serde_json::Value;
use tokio_util::sync::CancellationToken;
use vstd::prelude::*;

verus! {

/// An answer of the driver, with what it saw after it carried out the request, and with the
/// complaint about a tool's schema, where the step that takes the answer finds one that does not
/// compile.
pub struct Answer {
    pub reply: ReplyView,
    pub observed: Observed,
    pub complaint: Seq<char>,
}

/// A run as it stands after the given answers.
pub open spec fn progress_after(start: ProgressView, answers: Seq<Answer>) -> ProgressView
    decreases answers.len(),
{
    if answers.len() == 0 {
        start
    } else {
        progress_after(start, answers.drop_last()).run.step(
            answers.last().reply,
            answers.last().observed,
            answers.last().complaint,
        )
    }
}

/// All events of a run up to the given answers.
pub open spec fn events_after(start: ProgressView, answers: Seq<Answer>) -> Seq<AgentEventView>
    decreases answers.len(),
{
    if answers.len() == 0 {
        start.events
    } else {
        events_after(start, answers.drop_last()) + progress_after(start, answers).events
    }
}

/// Whether each answer fits the request that it answers.
pub open spec fn fitting(start: ProgressView, answers: Seq<Answer>) -> bool
    decreases answers.len(),
{
    answers.len() > 0 ==> {
        &&& fitting(start, answers.drop_last())
        &&& progress_after(start, answers.drop_last()).run.accepts(answers.last().reply)
    }
}

/// Whether no answer tells of a tool execution whose task broke.
pub open spec fn unbroken(answers: Seq<Answer>) -> bool {
    forall|i: int| 0 <= i < answers.len() ==> !(#[trigger] answers[i]).reply.is_broken_join()
}

/// The history of a run ends at most once, and whatever holds before the end holds throughout.
pub proof fn lemma_history(
    prompts: Seq<AgentMessageView>,
    context: AgentContextView,
    config: AgentLoopConfig,
    cancel: CancellationToken,
    answers: Seq<Answer>,
)
    requires
        fitting(RunView::start(prompts, context, config, cancel), answers),
    ensures
        ({
            let start = RunView::start(prompts, context, config, cancel);
            let now = progress_after(start, answers);
            let events = events_after(start, answers);
            &&& now.run.wf()
            &&& now.run.in_order()
            &&& now.run.same_setup(start.run)
            &&& now.ends_properly()
            &&& now.asks_properly()
            &&& now.run.phase is Finished ==> {
                &&& events.len() > 0
                &&& events.last() == now.events.last()
                &&& ordinary(events.drop_last())
            }
            &&& !(now.run.phase is Finished) ==> ordinary(events)
        }),
    decreases answers.len(),
{
    let start = RunView::start(prompts, context, config, cancel);
    let now = progress_after(start, answers);
    let events = events_after(start, answers);
    lemma_start(prompts, context, config, cancel);
    if answers.len() > 0 {
        let earlier = answers.drop_last();
        let last = answers.last();
        lemma_history(prompts, context, config, cancel, earlier);
        let before = progress_after(start, earlier);
        if last.reply.is_broken_join() {
            lemma_broken_step(before.run, last.reply, last.observed, last.complaint);
        } else {
            lemma_step(before.run, last.reply, last.observed, last.complaint);
        }
        let past = events_after(start, earlier);
        if now.run.phase is Finished {
            lemma_add_events(past, now.events.drop_last());
            assert(events.drop_last() =~= past + now.events.drop_last());
        } else {
            lemma_add_events(past, now.events);
        }
    }
}

/// What a run completed so far.
proof fn lemma_completed(
    prompts: Seq<AgentMessageView>,
    context: AgentContextView,
    config: AgentLoopConfig,
    cancel: CancellationToken,
    answers: Seq<Answer>,
)
    requires
        fitting(RunView::start(prompts, context, config, cancel), answers),
    ensures
        ({
            let start = RunView::start(prompts, context, config, cancel);
            let now = progress_after(start, answers);
            completed_messages(events_after(start, answers)) == now.run.entered()
        }),
    decreases answers.len(),
{
    let start = RunView::start(prompts, context, config, cancel);
    let now = progress_after(start, answers);
    let events = events_after(start, answers);
    lemma_start(prompts, context, config, cancel);
    if answers.len() == 0 {
        assert(Seq::empty() + completed_messages(events) =~= completed_messages(events));
    } else {
        let earlier = answers.drop_last();
        let last = answers.last();
        lemma_completed(prompts, context, config, cancel, earlier);
        lemma_history(prompts, context, config, cancel, earlier);
        let before = progress_after(start, earlier);
        if last.reply.is_broken_join() {
            lemma_broken_step(before.run, last.reply, last.observed, last.complaint);
        } else {
            lemma_step(before.run, last.reply, last.observed, last.complaint);
        }
        lemma_add_events(events_after(start, earlier), now.events);
    }
}

/// What a run announced and closed so far, where no task broke.
proof fn lemma_balance(
    prompts: Seq<AgentMessageView>,
    context: AgentContextView,
    config: AgentLoopConfig,
    cancel: CancellationToken,
    answers: Seq<Answer>,
)
    requires
        fitting(RunView::start(prompts, context, config, cancel), answers),
        unbroken(answers),
    ensures
        ({
            let start = RunView::start(prompts, context, config, cancel);
            let now = progress_after(start, answers);
            let events = events_after(start, answers);
            announced_calls(events) == closed_calls(events) + now.run.open_calls()
        }),
    decreases answers.len(),
{
    let start = RunView::start(prompts, context, config, cancel);
    let now = progress_after(start, answers);
    let events = events_after(start, answers);
    lemma_start(prompts, context, config, cancel);
    if answers.len() == 0 {
        assert(Seq::empty() + announced_calls(events) =~= announced_calls(events));
    } else {
        let earlier = answers.drop_last();
        let last = answers.last();
        assert(unbroken(earlier)) by {
            assert forall|i: int| 0 <= i < earlier.len() implies !(
            #[trigger] earlier[i]).reply.is_broken_join() by {
                assert(earlier[i] == answers[i]);
            }
        }
        lemma_balance(prompts, context, config, cancel, earlier);
        lemma_history(prompts, context, config, cancel, earlier);
        let before = progress_after(start, earlier);
        let past = events_after(start, earlier);
        lemma_step(before.run, last.reply, last.observed, last.complaint);
        lemma_add_events(past, now.events);
        assert(announced_calls(events) =~= closed_calls(past) + (before.run.open_calls()
            + announced_calls(now.events)));
        assert(announced_calls(events) =~= closed_calls(events) + now.run.open_calls());
    }
}

/// Each run ends with exactly one terminal event: none comes before the run is over, and once it
/// is over, the last event is the only terminal one and tells of the outcome.
pub proof fn law_one_terminal_event(
    prompts: Seq<AgentMessageView>,
    context: AgentContextView,
    config: AgentLoopConfig,
    cancel: CancellationToken,
    answers: Seq<Answer>,
)
    requires
        fitting(RunView::start(prompts, context, config, cancel), answers),
    ensures
        ({
            let start = RunView::start(prompts, context, config, cancel);
            let events = events_after(start, answers);
            match progress_after(start, answers).request {
                RequestView::Finish { outcome } => {
                    &&& events.len() > 0
                    &&& events.last() == outcome.terminal_event()
                    &&& forall|i: int|
                        0 <= i < events.len() - 1 ==> !(#[trigger] events[i]).is_terminal()
                },
                _ => forall|i: int|
                    0 <= i < events.len() ==> !(#[trigger] events[i]).is_terminal(),
            }
        }),
{
    lemma_history(prompts, context, config, cancel, answers);
    let start = RunView::start(prompts, context, config, cancel);
    let events = events_after(start, answers);
    if progress_after(start, answers).run.phase is Finished {
        assert forall|i: int| 0 <= i < events.len() - 1 implies !(
        #[trigger] events[i]).is_terminal() by {
            assert(events.drop_last()[i] == events[i]);
        }
    }
}

/// Every announced tool call is closed, in the order in which the calls were announced: at any
/// time the announced calls are the closed ones and those still open, and none is open once the
/// run is over or steering is polled. This holds unless the task of a tool execution breaks.
pub proof fn law_tool_calls_are_closed(
    prompts: Seq<AgentMessageView>,
    context: AgentContextView,
    config: AgentLoopConfig,
    cancel: CancellationToken,
    answers: Seq<Answer>,
)
    requires
        fitting(RunView::start(prompts, context, config, cancel), answers),
        unbroken(answers),
    ensures
        ({
            let start = RunView::start(prompts, context, config, cancel);
            let now = progress_after(start, answers);
            let events = events_after(start, answers);
            &&& announced_calls(events) == closed_calls(events) + now.run.open_calls()
            &&& !(now.run.phase is Tools) ==> announced_calls(events) == closed_calls(events)
            &&& now.request is Finish ==> announced_calls(events) == closed_calls(events)
            &&& now.request is PollSteering ==> announced_calls(events) == closed_calls(events)
        }),
{
    lemma_history(prompts, context, config, cancel, answers);
    lemma_balance(prompts, context, config, cancel, answers);
    let start = RunView::start(prompts, context, config, cancel);
    let now = progress_after(start, answers);
    let events = events_after(start, answers);
    if !(now.run.phase is Tools) {
        assert(closed_calls(events) + now.run.open_calls() =~= closed_calls(events));
    }
}

/// The messages that a run completes, in order, are those that it reports as added: at its end,
/// however it ends, the two are the same.
pub proof fn law_completed_messages_are_reported(
    prompts: Seq<AgentMessageView>,
    context: AgentContextView,
    config: AgentLoopConfig,
    cancel: CancellationToken,
    answers: Seq<Answer>,
)
    requires
        fitting(RunView::start(prompts, context, config, cancel), answers),
    ensures
        ({
            let start = RunView::start(prompts, context, config, cancel);
            let now = progress_after(start, answers);
            let events = events_after(start, answers);
            &&& completed_messages(events) == now.run.entered()
            &&& now.request matches RequestView::Finish { outcome }
                ==> completed_messages(events) == outcome.new_messages()
        }),
{
    lemma_history(prompts, context, config, cancel, answers);
    lemma_completed(prompts, context, config, cancel, answers);
}

/// Whatever the mode of execution, the tool results of every turn answer the tool calls of the
/// model's message in the order in which it asks. Where a broken task fails the run, the turn
/// ends on another message: what its results answer then, [`law_broken_task_keeps_results`]
/// tells.
pub proof fn law_results_in_call_order(
    prompts: Seq<AgentMessageView>,
    context: AgentContextView,
    config: AgentLoopConfig,
    cancel: CancellationToken,
    answers: Seq<Answer>,
)
    requires
        fitting(RunView::start(prompts, context, config, cancel), answers),
    ensures
        ({
            let events = events_after(RunView::start(prompts, context, config, cancel), answers);
            forall|i: int| 0 <= i < events.len() ==> (#[trigger] events[i]).answers_in_order()
        }),
{
    lemma_history(prompts, context, config, cancel, answers);
    let start = RunView::start(prompts, context, config, cancel);
    let events = events_after(start, answers);
    if progress_after(start, answers).run.phase is Finished {
        assert forall|i: int| 0 <= i < events.len() implies (
        #[trigger] events[i]).answers_in_order() by {
            if i < events.len() - 1 {
                assert(events.drop_last()[i] == events[i]);
            }
        }
    }
}

/// Where the task of a tool execution breaks, the run closes the refused calls behind it, fails,
/// and keeps all that it showed. The results that the turn came to stay behind the message that
/// asked for them, in the order of its tool calls: those of the first calls, and those of the
/// refused ones among the calls behind the broken one. The end of the turn tells of them; a
/// message with the error follows.
pub proof fn law_broken_task_keeps_results(
    prompts: Seq<AgentMessageView>,
    context: AgentContextView,
    config: AgentLoopConfig,
    cancel: CancellationToken,
    answers: Seq<Answer>,
    last: Answer,
)
    requires
        fitting(RunView::start(prompts, context, config, cancel), answers),
        progress_after(RunView::start(prompts, context, config, cancel), answers).run.accepts(
            last.reply,
        ),
        last.reply.is_broken_join(),
    ensures
        ({
            let run = progress_after(RunView::start(prompts, context, config, cancel), answers).run;
            let error = AgentErrorView::JoinError(last.reply->Joined_0->Broken_0);
            let failure = AgentMessageView::Assistant(
                AssistantMessageView::error(config.model.deep_view(), error.text(), last.observed.now),
            );
            let batch = run.phase->batch;
            let results = batch.results + batch.late_results(last.observed.now);
            let next = run.step(last.reply, last.observed, last.complaint);
            let added = (run.new_messages + result_entries(results)).push(failure);
            &&& run.phase is Tools
            &&& run.new_messages.len() > 0
            &&& run.new_messages.last() == AgentMessageView::Assistant(batch.message)
            &&& batch.calls == batch.message.tool_calls()
            &&& result_keys(batch.results) == call_keys(batch.calls).take(batch.cursor as int)
            &&& closed_calls(next.events) == result_keys(batch.late_results(last.observed.now))
            &&& next.request == (RequestView::Finish {
                outcome: RunOutcomeView::Failed { new_messages: added, error },
            })
            &&& next.events == batch.late_events(last.observed.now) + seq![
                AgentEventView::MessageStart { message: failure },
                AgentEventView::MessageEnd { message: failure },
                AgentEventView::TurnEnd { message: failure, tool_results: results },
                AgentEventView::RunFailed { messages: added, error_message: error.text() },
            ]
        }),
{
    let run = progress_after(RunView::start(prompts, context, config, cancel), answers).run;
    lemma_history(prompts, context, config, cancel, answers);
    lemma_acts_on_last(prompts, context, config, cancel, answers);
    lemma_broken_step(run, last.reply, last.observed, last.complaint);
    let error = AgentErrorView::JoinError(last.reply->Joined_0->Broken_0);
    let failure = AgentMessageView::Assistant(
        AssistantMessageView::error(config.model.deep_view(), error.text(), last.observed.now),
    );
    let batch = run.phase->batch;
    let kept = run.new_messages + result_entries(batch.final_results(last.observed.now));
    assert(result_keys(batch.results) =~= call_keys(batch.calls).take(batch.cursor as int));
    assert(kept + seq![failure] =~= kept.push(failure));
    assert(kept.push(failure).last().error_text(StopReason::Error) == Some(error.text()));
}

/// Where tool calls are under way, the last message that the run added asks for them.
proof fn lemma_acts_on_last(
    prompts: Seq<AgentMessageView>,
    context: AgentContextView,
    config: AgentLoopConfig,
    cancel: CancellationToken,
    answers: Seq<Answer>,
)
    requires
        fitting(RunView::start(prompts, context, config, cancel), answers),
    ensures
        progress_after(
            RunView::start(prompts, context, config, cancel),
            answers,
        ).run.acts_on_last(),
    decreases answers.len(),
{
    let start = RunView::start(prompts, context, config, cancel);
    if answers.len() > 0 {
        lemma_acts_on_last(prompts, context, config, cancel, answers.drop_last());
        let run = progress_after(start, answers.drop_last()).run;
        let last = answers.last();
        match run.phase {
            PhaseView::Steering { .. } => {
                reveal(RunView::steered);
            },
            PhaseView::FollowUp => {
                reveal(RunView::followed_up);
            },
            PhaseView::Tools { batch } => {
                lemma_leaving_tools(run.idle(), batch, last.reply, last.observed, last.complaint);
            },
            _ => {
                lemma_leaving_answer(run, last.reply, last.observed, last.complaint);
            },
        }
    }
}

/// A run waits for exactly the answers that its request calls for, and for none once it is over.
pub proof fn law_requests_and_answers_fit(
    prompts: Seq<AgentMessageView>,
    context: AgentContextView,
    config: AgentLoopConfig,
    cancel: CancellationToken,
    answers: Seq<Answer>,
    reply: ReplyView,
)
    requires
        fitting(RunView::start(prompts, context, config, cancel), answers),
    ensures
        ({
            let now = progress_after(RunView::start(prompts, context, config, cancel), answers);
            &&& now.run.wf()
            &&& now.run.accepts(reply) == now.request.calls_for(reply)
        }),
{
    lemma_history(prompts, context, config, cancel, answers);
}

/// A run keeps its configuration, its cancellation signal, the system prompt and the tools.
pub proof fn law_setup_stays(
    prompts: Seq<AgentMessageView>,
    context: AgentContextView,
    config: AgentLoopConfig,
    cancel: CancellationToken,
    answers: Seq<Answer>,
)
    requires
        fitting(RunView::start(prompts, context, config, cancel), answers),
    ensures
        ({
            let now = progress_after(RunView::start(prompts, context, config, cancel), answers);
            &&& now.run.config == config
            &&& now.run.cancel == cancel
            &&& now.run.context.system_prompt == context.system_prompt
            &&& now.run.context.tools == context.tools
        }),
{
    lemma_history(prompts, context, config, cancel, answers);
}

// ---- Single steps ----

/// Follow-up messages are polled only when the agent would stop: after a turn without tool
/// calls, and only where no steering message is pending.
pub proof fn law_follow_up_only_when_idle(
    run: RunView,
    reply: ReplyView,
    observed: Observed,
    complaint: Seq<char>,
)
    requires
        run.wf(),
        run.in_order(),
        run.accepts(reply),
        run.step(reply, observed, complaint).run.phase is FollowUp,
    ensures
        run.phase == (PhaseView::Steering { after_tools: false }),
        reply.messages().len() == 0,
        run.step(reply, observed, complaint).events.len() == 0,
{
    match run.phase {
        PhaseView::Steering { .. } => {
            reveal(RunView::steered);
        },
        PhaseView::FollowUp => {
            reveal(RunView::followed_up);
        },
        PhaseView::Tools { batch } => {
            lemma_leaving_tools(run.idle(), batch, reply, observed, complaint);
        },
        _ => {
            lemma_leaving_answer(run, reply, observed, complaint);
        },
    }
}

/// A run completes only where it would stop and no follow-up message is pending.
pub proof fn law_completion_needs_empty_queues(
    run: RunView,
    reply: ReplyView,
    observed: Observed,
    complaint: Seq<char>,
)
    requires
        run.wf(),
        run.in_order(),
        run.accepts(reply),
        run.step(reply, observed, complaint).request matches RequestView::Finish { outcome }
            && outcome is Completed,
    ensures
        run.phase is FollowUp,
        reply.messages().len() == 0,
{
    match run.phase {
        PhaseView::Steering { .. } => {
            reveal(RunView::steered);
        },
        PhaseView::FollowUp => {
            reveal(RunView::followed_up);
        },
        PhaseView::Tools { batch } => {
            lemma_leaving_tools(run.idle(), batch, reply, observed, complaint);
        },
        _ => {
            lemma_leaving_answer(run, reply, observed, complaint);
        },
    }
}

/// Whether the last message is one of the model that stopped for the given reason and carries
/// an error text.
pub open spec fn ends_on(messages: Seq<AgentMessageView>, reason: StopReason) -> bool {
    messages.len() > 0 && messages.last().error_text(reason) is Some
}

/// A run that fails tells why in its transcript: the last message that it added is one of the
/// model that stopped for an error, and the terminal event carries the text of that message.
pub proof fn law_failure_is_told(
    run: RunView,
    reply: ReplyView,
    observed: Observed,
    complaint: Seq<char>,
)
    requires
        run.wf(),
        run.accepts(reply),
        run.step(reply, observed, complaint).request matches RequestView::Finish { outcome }
            && outcome is Failed,
    ensures
        ({
            let outcome = run.step(reply, observed, complaint).request->outcome;
            &&& ends_on(outcome.new_messages(), StopReason::Error)
            &&& outcome.terminal_event() == (AgentEventView::RunFailed {
                messages: outcome.new_messages(),
                error_message: outcome.new_messages().last().error_text(StopReason::Error)->Some_0,
            })
        }),
{
    match run.phase {
        PhaseView::Steering { .. } => {
            reveal(RunView::steered);
        },
        PhaseView::FollowUp => {
            reveal(RunView::followed_up);
        },
        PhaseView::Tools { batch } => {
            lemma_leaving_tools(run.idle(), batch, reply, observed, complaint);
        },
        _ => {
            lemma_leaving_answer(run, reply, observed, complaint);
        },
    }
}

/// An answer of the model that is aborted stays in the transcript: where a run is aborted while
/// it waits for the model, the last message that it added is one of the model that stopped as
/// aborted.
pub proof fn law_aborted_answer_is_told(
    run: RunView,
    reply: ReplyView,
    observed: Observed,
    complaint: Seq<char>,
)
    requires
        run.wf(),
        run.accepts(reply),
        run.phase is Open || run.phase is Stream,
        run.step(reply, observed, complaint).request matches RequestView::Finish { outcome }
            && outcome is Aborted,
    ensures
        ends_on(
            run.step(reply, observed, complaint).request->outcome.new_messages(),
            StopReason::Aborted,
        ),
{
    lemma_leaving_answer(run, reply, observed, complaint);
}

/// Nothing that goes wrong with a tool call ends a run: not an unknown tool, refused arguments, a
/// hook that blocks the call, or a tool that fails. Only cancellation does, or a tool execution
/// whose task breaks.
pub proof fn law_tool_trouble_goes_on(
    run: RunView,
    reply: ReplyView,
    observed: Observed,
    complaint: Seq<char>,
)
    requires
        run.wf(),
        run.accepts(reply),
        run.phase is Tools,
        !reply.is_broken_join(),
        !observed.cancelled,
    ensures
        !(run.step(reply, observed, complaint).request is Finish),
{
    if let PhaseView::Tools { batch } = run.phase {
        lemma_leaving_tools(run.idle(), batch, reply, observed, complaint);
    }
}

/// Steering messages that come in are part of the context of the model's next turn, behind all
/// that the turn before added.
pub proof fn law_steering_enters_next_turn(
    run: RunView,
    reply: ReplyView,
    observed: Observed,
    complaint: Seq<char>,
)
    requires
        run.wf(),
        run.phase is Steering,
        run.accepts(reply),
        reply.messages().len() > 0,
        !observed.cancelled,
    ensures
        ({
            let next = run.step(reply, observed, complaint);
            let messages = run.context.messages + reply.messages();
            &&& next.run.context.messages == messages
            &&& next.run.new_messages == run.new_messages + reply.messages()
            &&& next.request == (match run.config.transform_context {
                Some(hook) => RequestView::TransformContext { hook, messages, cancel: run.cancel },
                None => RequestView::ConvertToLlm { converter: run.config.convert_to_llm, messages },
            })
        }),
{
    reveal(RunView::steered);
}

/// Whether no event announces a tool call or begins a turn.
pub open spec fn starts_nothing(events: Seq<AgentEventView>) -> bool {
    forall|i: int|
        0 <= i < events.len() ==> !(#[trigger] events[i] is ToolExecutionStart) && !(
        events[i] is TurnStart)
}

/// Once cancellation is seen, a step starts nothing: it announces no tool call, executes none,
/// and begins no turn.
pub proof fn law_cancellation_starts_nothing(
    run: RunView,
    reply: ReplyView,
    observed: Observed,
    complaint: Seq<char>,
)
    requires
        run.wf(),
        run.accepts(reply),
        observed.cancelled,
    ensures
        ({
            let next = run.step(reply, observed, complaint);
            &&& starts_nothing(next.events)
            &&& !(next.request is ExecuteTool)
            &&& !(next.request is SpawnTool)
        }),
{
    match run.phase {
        PhaseView::Steering { .. } => {
            reveal(RunView::steered);
        },
        PhaseView::FollowUp => {
            reveal(RunView::followed_up);
        },
        PhaseView::Tools { batch } => {
            lemma_leaving_tools(run.idle(), batch, reply, observed, complaint);
        },
        _ => {
            lemma_leaving_answer(run, reply, observed, complaint);
        },
    }
}

impl RunView {
    /// Whether the last message that the run added asks for the tool calls under way, if any are.
    pub open spec fn acts_on_last(self) -> bool {
        self.phase matches PhaseView::Tools { batch } ==> {
            &&& self.new_messages.len() > 0
            &&& self.new_messages.last() == AgentMessageView::Assistant(batch.message)
        }
    }

    /// Whether the message of the model under way stands in the context.
    pub open spec fn shows_partial(self) -> bool {
        self.phase matches PhaseView::Stream { shown, .. } && shown
    }

    /// Whether the context holds the given messages, then those that the run added, and then,
    /// if `shown`, the message of the model under way.
    pub open spec fn context_is(self, base: Seq<AgentMessageView>, shown: bool) -> bool {
        if shown {
            &&& self.context.messages.len() > 0
            &&& self.context.messages.drop_last() == base + self.new_messages
        } else {
            self.context.messages == base + self.new_messages
        }
    }

    /// Whether an answer keeps the order of a stream: once a message is under way, no other one
    /// starts, and the stream does not break off.
    pub open spec fn is_tidy(self, reply: ReplyView) -> bool {
        self.shows_partial() ==> match reply {
            ReplyView::Streamed(StreamPollView::Event(event)) => !(event is Start),
            ReplyView::Streamed(StreamPollView::Failed(error)) => error is Aborted,
            _ => true,
        }
    }
}

/// Whether what the run added still stands in the context behind what stood there before.
spec fn keeps_context(p: ProgressView, run: RunView, shown: bool) -> bool {
    forall|base: Seq<AgentMessageView>| #[trigger]
        run.context_is(base, shown) ==> p.run.context_is(base, p.run.shows_partial())
}

/// The context of a run holds what it was started with, then all that the run added, and then
/// the message of the model under way, if one is: as long as every stream is tidy.
pub proof fn law_context_follows(
    prompts: Seq<AgentMessageView>,
    context: AgentContextView,
    config: AgentLoopConfig,
    cancel: CancellationToken,
    answers: Seq<Answer>,
)
    requires
        fitting(RunView::start(prompts, context, config, cancel), answers),
        tidy(RunView::start(prompts, context, config, cancel), answers),
    ensures
        ({
            let now = progress_after(RunView::start(prompts, context, config, cancel), answers);
            now.run.context_is(context.messages, now.run.shows_partial())
        }),
    decreases answers.len(),
{
    let start = RunView::start(prompts, context, config, cancel);
    if answers.len() == 0 {
        assert(Seq::empty() + prompts =~= prompts);
        assert(start.run.context_is(context.messages, false));
    } else {
        law_context_follows(prompts, context, config, cancel, answers.drop_last());
        let run = progress_after(start, answers.drop_last()).run;
        let last = answers.last();
        assert(run.idle().context_is(context.messages, run.shows_partial()));
        match run.phase {
            PhaseView::Steering { .. } => {
                reveal(RunView::steered);
                lemma_turn_keeps_context(run.idle(), last.reply.messages(), last.observed);
            },
            PhaseView::FollowUp => {
                reveal(RunView::followed_up);
                lemma_turn_keeps_context(run.idle(), last.reply.messages(), last.observed);
            },
            PhaseView::Tools { batch } => {
                lemma_leaving_tools(run.idle(), batch, last.reply, last.observed, last.complaint);
            },
            _ => {
                lemma_leaving_answer(run, last.reply, last.observed, last.complaint);
            },
        }
    }
}

/// Whether every stream is tidy.
pub open spec fn tidy(start: ProgressView, answers: Seq<Answer>) -> bool
    decreases answers.len(),
{
    answers.len() > 0 ==> {
        &&& tidy(start, answers.drop_last())
        &&& progress_after(start, answers.drop_last()).run.is_tidy(answers.last().reply)
    }
}

proof fn lemma_turn_keeps_context(
    run: RunView,
    pending: Seq<AgentMessageView>,
    observed: Observed,
)
    ensures
        keeps_context(run.begin_turn(pending, observed), run, false),
{
    assert forall|base: Seq<AgentMessageView>| #[trigger]
        run.context_is(base, false) implies run.begin_turn(pending, observed).run.context_is(
        base,
        false,
    ) by {
        assert(run.context.messages + pending =~= base + (run.new_messages + pending));
    }
}

/// Where an answer of the model leads: to its next event, to its tool calls, to a poll for
/// steering, or to a run that ends without being complete, which its last message tells of; and
/// never to anything that starts.
spec fn leaves_answer(p: ProgressView) -> bool {
    &&& !(p.run.phase is FollowUp)
    &&& p.run.acts_on_last()
    &&& p.request matches RequestView::Finish { outcome } ==> match outcome {
        RunOutcomeView::Completed { .. } => false,
        RunOutcomeView::Failed { new_messages, .. } => ends_on(new_messages, StopReason::Error),
        RunOutcomeView::Aborted { new_messages } => ends_on(new_messages, StopReason::Aborted),
    }
    &&& starts_nothing(p.events)
    &&& !(p.request is ExecuteTool)
    &&& !(p.request is SpawnTool)
}

proof fn lemma_leaving_by_concluding(run: RunView, message: AssistantMessageView, shown: bool)
    requires
        message.stop_reason == StopReason::Error ==> message.error_message is Some,
        message.stop_reason == StopReason::Aborted ==> message.error_message is Some,
    ensures
        leaves_answer(run.conclude(message, shown)),
        keeps_context(run.conclude(message, shown), run, shown),
{
    let entry = AgentMessageView::Assistant(message);
    assert forall|base: Seq<AgentMessageView>| #[trigger]
        run.context_is(base, shown) implies run.conclude(message, shown).run.context_is(
        base,
        false,
    ) by {
        assert((base + run.new_messages).push(entry) =~= base + run.new_messages.push(entry));
    }
}

/// The closing of refused calls starts nothing.
proof fn lemma_refused_start_nothing(batch: ToolBatchView, from: nat, to: nat, now: i64)
    ensures
        starts_nothing(batch.refused_events(from, to, now)),
    decreases to,
{
    if to > from {
        lemma_refused_start_nothing(batch, from, (to - 1) as nat, now);
    }
}

proof fn lemma_leaving_by_failing(
    run: RunView,
    events: Seq<AgentEventView>,
    results: Seq<ToolResultMessageView>,
    error: AgentErrorView,
    observed: Observed,
)
    requires
        starts_nothing(events),
    ensures
        leaves_answer(run.fail(events, results, error, observed)),
        keeps_context(run.fail(events, results, error, observed), run, false),
{
    let message = AgentMessageView::Assistant(
        AssistantMessageView::error(run.config.model.deep_view(), error.text(), observed.now),
    );
    assert forall|base: Seq<AgentMessageView>| #[trigger]
        run.context_is(base, false) implies run.fail(
        events,
        results,
        error,
        observed,
    ).run.context_is(base, false) by {
        assert(run.context.messages + seq![message] =~= base + (run.new_messages + seq![message]));
    }
}

proof fn lemma_leaving_by_aborting(
    run: RunView,
    partial: Option<AssistantMessageView>,
    shown: bool,
    observed: Observed,
)
    ensures
        leaves_answer(run.abort_answer(partial, shown, observed)),
        keeps_context(run.abort_answer(partial, shown, observed), run, shown),
{
    lemma_leaving_by_concluding(
        run,
        AssistantMessageView::aborted(run.config.model.deep_view(), partial, observed.now),
        shown,
    );
}

proof fn lemma_leaving_by_event(
    run: RunView,
    partial: Option<AssistantMessageView>,
    shown: bool,
    event: StreamEventView,
    observed: Observed,
)
    ensures
        leaves_answer(run.followed(partial, shown, event, observed)),
        !(event is Start && shown) ==> keeps_context(
            run.followed(partial, shown, event, observed),
            run,
            shown,
        ),
{
    match event {
        StreamEventView::Start { partial: first } => {
            lemma_leaving_by_aborting(run, Some(first), shown, observed);
            assert(run.context.messages.push(AgentMessageView::Assistant(first)).drop_last()
                =~= run.context.messages);
        },
        StreamEventView::Done { message } => {
            lemma_leaving_by_concluding(run, message.normalized(), shown);
        },
        StreamEventView::Error { message } => {
            lemma_leaving_by_concluding(run, message.as_stream_error().normalized(), shown);
        },
        _ => {
            lemma_leaving_by_aborting(
                run,
                Some(event.partial_for_update()->Some_0),
                shown,
                observed,
            );
            let message = AgentMessageView::Assistant(event.partial_for_update()->Some_0);
            assert(with_last(run.context.messages, message).drop_last()
                =~= run.context.messages.drop_last());
        },
    }
}

proof fn lemma_leaving_answer(
    run: RunView,
    reply: ReplyView,
    observed: Observed,
    complaint: Seq<char>,
)
    requires
        run.accepts(reply),
        !(run.phase is Steering),
        !(run.phase is FollowUp),
        !(run.phase is Tools),
    ensures
        leaves_answer(run.step(reply, observed, complaint)),
        run.is_tidy(reply) ==> keeps_context(run.step(reply, observed, complaint), run, run.shows_partial()),
{
    let idle = run.idle();
    let shown = run.shows_partial();
    assert forall|base: Seq<AgentMessageView>| #[trigger]
        run.context_is(base, shown) implies idle.context_is(base, shown) by {}
    match run.phase {
        PhaseView::Transform => {
            reveal(RunView::transformed);
        },
        PhaseView::Convert => {
            reveal(RunView::converted);
        },
        PhaseView::ApiKey { .. } => {
            reveal(RunView::key_resolved);
        },
        PhaseView::Open => {
            reveal(RunView::opened);
            lemma_leaving_by_aborting(idle, None, false, observed);
            if let OpeningView::Failed(error) = reply->Opened_0 {
                lemma_leaving_by_failing(idle, Seq::empty(), Seq::empty(), error, observed);
            }
        },
        PhaseView::Stream { partial, shown } => {
            reveal(RunView::streamed);
            match reply->Streamed_0 {
                StreamPollView::Event(event) => {
                    lemma_leaving_by_event(idle, partial, shown, event, observed);
                },
                StreamPollView::Failed(error) => {
                    lemma_leaving_by_aborting(idle, partial, shown, observed);
                    lemma_leaving_by_failing(idle, Seq::empty(), Seq::empty(), error, observed);
                },
                StreamPollView::Ended => {
                    lemma_leaving_by_concluding(
                        idle,
                        AssistantMessageView::error(
                            run.config.model.deep_view(),
                            "Stream ended without terminal event"@,
                            observed.now,
                        ),
                        shown,
                    );
                },
                StreamPollView::Cancelled => {
                    lemma_leaving_by_aborting(idle, partial, shown, observed);
                },
            }
        },
        _ => {},
    }
}

/// Where tool calls lead: to more of them, to the model's next turn, or, once cancellation is
/// seen, to a run that ends as aborted, and to nothing that starts.
spec fn leaves_tools(
    p: ProgressView,
    run: RunView,
    message: AssistantMessageView,
    observed: Observed,
) -> bool {
    &&& keeps_context(p, run, false)
    &&& {
        ||| {
            &&& p.run.phase is Tools
            &&& p.run.phase->batch.message == message
            &&& p.run.new_messages == run.new_messages
        }
        ||| p.run.phase == (PhaseView::Steering { after_tools: true })
        ||| p.run.phase is Finished && p.request->outcome is Aborted && observed.cancelled
    }
    &&& p.request is Finish <==> p.run.phase is Finished
    &&& observed.cancelled ==> {
        &&& starts_nothing(p.events)
        &&& !(p.request is ExecuteTool)
        &&& !(p.request is SpawnTool)
    }
}

proof fn lemma_leaving_by_settling(run: RunView, batch: ToolBatchView, observed: Observed)
    ensures
        leaves_tools(run.settle(batch, observed), run, batch.message, observed),
{
    reveal(RunView::settle);
    let entries = result_entries(batch.results);
    assert forall|base: Seq<AgentMessageView>| #[trigger]
        run.context_is(base, false) implies run.settle(batch, observed).run.context_is(
        base,
        false,
    ) by {
        assert(run.context.messages + entries =~= base + (run.new_messages + entries));
    }
}

proof fn lemma_leaving_slots(
    run: RunView,
    batch: ToolBatchView,
    events: Seq<AgentEventView>,
    observed: Observed,
)
    requires
        starts_nothing(events),
    ensures
        leaves_tools(run.close_slots(batch, events), run, batch.message, observed),
{
}

proof fn lemma_leaving_by_spawning(
    run: RunView,
    batch: ToolBatchView,
    from: nat,
    observed: Observed,
)
    ensures
        leaves_tools(run.spawn_from(batch, from, observed), run, batch.message, observed),
{
    lemma_leaving_slots(run, ToolBatchView { cursor: 0, ..batch }, Seq::empty(), observed);
}

proof fn lemma_leaving_gate(run: RunView, batch: ToolBatchView, observed: Observed)
    ensures
        leaves_tools(run.tool_gate(batch, observed), run, batch.message, observed),
{
    reveal(RunView::tool_gate);
    lemma_leaving_by_settling(run, batch, observed);
    lemma_leaving_by_spawning(run, batch, 0, observed);
}

proof fn lemma_leaving_by_refusing(
    run: RunView,
    batch: ToolBatchView,
    result: AgentToolResultView,
    stop: bool,
    observed: Observed,
)
    ensures
        leaves_tools(run.refuse_call(batch, result, stop, observed), run, batch.message, observed),
{
    let next = batch.with_slot(ToolSlotView::Closed { result, is_error: true });
    lemma_leaving_by_spawning(run, next, 0, observed);
    lemma_leaving_gate(run, next, observed);
}

proof fn lemma_leaving_by_running(
    run: RunView,
    batch: ToolBatchView,
    handle: HookId,
    args: Value,
    observed: Observed,
)
    ensures
        leaves_tools(run.run_call(batch, handle, args, observed), run, batch.message, observed),
{
    lemma_leaving_by_refusing(run, batch, aborted_result(), true, observed);
    lemma_leaving_gate(
        run,
        batch.with_slot(ToolSlotView::Runnable { tool: handle, args }),
        observed,
    );
}

proof fn lemma_leaving_tools(
    run: RunView,
    batch: ToolBatchView,
    reply: ReplyView,
    observed: Observed,
    complaint: Seq<char>,
)
    requires
        batch.stage is Joining ==> reply is Joined,
    ensures
        ({
            let p = run.tool_step(batch, reply, observed, complaint);
            ||| leaves_tools(p, run, batch.message, observed)
            ||| reply.is_broken_join() && leaves_answer(p) && keeps_context(p, run, false)
        }),
{
    let rest = batch.at(ToolStageView::Done);
    match batch.stage {
        ToolStageView::Gate => {
            lemma_leaving_gate(run, rest, observed);
        },
        ToolStageView::Started => {
            reveal(RunView::tool_started);
            lemma_leaving_by_refusing(run, rest, aborted_result(), true, observed);
            lemma_leaving_by_refusing(
                run,
                rest,
                AgentToolResultView::error("Tool "@ + rest.call().name + " not found"@),
                false,
                observed,
            );
        },
        ToolStageView::Preparing { tool } => {
            reveal(RunView::tool_prepared);
            match verdict(tool, reply->Arguments_0, complaint) {
                Err(message) => {
                    lemma_leaving_by_refusing(
                        run,
                        rest,
                        AgentToolResultView::error(message),
                        false,
                        observed,
                    );
                },
                Ok(args) => {
                    lemma_leaving_by_running(run, rest, tool.handle, args, observed);
                },
            }
        },
        ToolStageView::Asking { handle } => {
            reveal(RunView::tool_asked);
            lemma_leaving_by_running(run, rest, handle, reply->args, observed);
            if let Some(reason) = hook_refusal(reply->result) {
                lemma_leaving_by_refusing(
                    run,
                    rest,
                    AgentToolResultView::error(reason),
                    false,
                    observed,
                );
            }
        },
        ToolStageView::Executing { .. } => {
            reveal(RunView::tool_executed);
        },
        ToolStageView::Spawning => {
            reveal(RunView::tool_spawned);
            lemma_leaving_by_spawning(
                run,
                ToolBatchView { spawned: rest.cursor + 1, ..rest },
                rest.cursor + 1,
                observed,
            );
        },
        ToolStageView::Joining => {
            reveal(RunView::tool_joined);
            reveal(RunView::tool_executed);
            if let JoinView::Broken(text) = reply->Joined_0 {
                let results = rest.final_results(observed.now);
                let entries = result_entries(results);
                lemma_refused_start_nothing(
                    rest,
                    rest.cursor + 1,
                    rest.slots.len(),
                    observed.now,
                );
                lemma_leaving_by_failing(
                    run.with_messages(entries),
                    rest.late_events(observed.now),
                    results,
                    AgentErrorView::JoinError(text),
                    observed,
                );
                assert forall|base: Seq<AgentMessageView>| #[trigger]
                    run.context_is(base, false) implies run.with_messages(entries).context_is(
                    base,
                    false,
                ) by {
                    assert(run.context.messages + entries =~= base + (run.new_messages + entries));
                }
            }
        },
        ToolStageView::Finalizing { .. } => {
            reveal(RunView::tool_finalized);
        },
        ToolStageView::Ending { result, is_error, stop } => {
            reveal(RunView::tool_ended);
            let message = rest.call().result_message(result, is_error, observed.now);
            let entry = AgentMessageView::ToolResult(message);
            let events = seq![
                AgentEventView::MessageStart { message: entry },
                AgentEventView::MessageEnd { message: entry },
            ];
            lemma_leaving_slots(
                run,
                ToolBatchView {
                    results: rest.results.push(message),
                    cursor: rest.cursor + 1,
                    ..rest
                },
                events,
                observed,
            );
        },
        ToolStageView::Done => {
            lemma_leaving_by_settling(run, rest, observed);
        },
    }
}

} // verus!
