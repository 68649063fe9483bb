//! Runs on prompts, and runs that continue from a transcript which holds these prompts already.

use crate::agent_loop::laws::{
    ends_on, events_after, fitting, law_failure_is_told, lemma_history, progress_after, Answer,
};
use crate::agent_loop::protocol::{
    JoinView, Observed, OpeningView, ReplyView, RequestView, StreamPollView,
};
use crate::agent_loop::state::{
    PhaseView, ProgressView, RunView, ToolBatchView, ToolSlotView, ToolStageView,
};
use crate::agent_loop::tool_calls::{aborted_result, hook_refusal, result_entries};
use crate::agent_loop::turn::{shown_messages, LoopExitView};
use crate::types::config::{AgentLoopConfig, HookId};
use crate::types::error::AgentErrorView;
use crate::types::event::{AgentEventView, RunOutcomeView};
use crate::types::message::{AgentMessageView, AssistantMessageView, ToolResultMessageView};
use crate::types::model::StopReason;
use crate::types::stream::StreamEventView;
use crate::types::tool::{AgentContextView, AgentToolResultView};
use crate::validate::verdict;
use serde_json::Value;
use tokio_util::sync::CancellationToken;
use vstd::prelude::*;

verus! {

// ---- Prompts as added messages ----

impl RunOutcomeView {
    /// The outcome, with prompts in front of the messages that the run added.
    pub open spec fn with_prompts(self, prompts: Seq<AgentMessageView>) -> RunOutcomeView {
        match self {
            RunOutcomeView::Completed { new_messages } => RunOutcomeView::Completed {
                new_messages: prompts + new_messages,
            },
            RunOutcomeView::Failed { new_messages, error } => RunOutcomeView::Failed {
                new_messages: prompts + new_messages,
                error,
            },
            RunOutcomeView::Aborted { new_messages } => RunOutcomeView::Aborted {
                new_messages: prompts + new_messages,
            },
        }
    }
}

impl AgentEventView {
    /// The event; if it is a terminal one, with prompts in front of the messages that it tells
    /// of.
    pub open spec fn with_prompts(self, prompts: Seq<AgentMessageView>) -> AgentEventView {
        match self {
            AgentEventView::RunCompleted { messages } => AgentEventView::RunCompleted {
                messages: prompts + messages,
            },
            AgentEventView::RunFailed { messages, error_message } => AgentEventView::RunFailed {
                messages: prompts + messages,
                error_message,
            },
            AgentEventView::RunAborted { messages } => AgentEventView::RunAborted {
                messages: prompts + messages,
            },
            other => other,
        }
    }
}

impl RequestView {
    /// The request; if it tells of an outcome, with prompts in front of the messages that the
    /// run added.
    pub open spec fn with_prompts(self, prompts: Seq<AgentMessageView>) -> RequestView {
        match self {
            RequestView::Finish { outcome } => RequestView::Finish {
                outcome: outcome.with_prompts(prompts),
            },
            other => other,
        }
    }
}

impl RunView {
    /// The run, with prompts in front of the messages that it added.
    pub open spec fn with_prompts(self, prompts: Seq<AgentMessageView>) -> RunView {
        RunView { new_messages: prompts + self.new_messages, ..self }
    }
}

impl ProgressView {
    /// The step, with prompts in front of the messages that the run added.
    spec fn with_prompts(self, prompts: Seq<AgentMessageView>) -> ProgressView {
        ProgressView {
            run: self.run.with_prompts(prompts),
            events: match self.request {
                RequestView::Finish { outcome } => self.events.drop_last().push(
                    outcome.with_prompts(prompts).terminal_event(),
                ),
                _ => self.events,
            },
            request: self.request.with_prompts(prompts),
        }
    }
}

/// The context with prompts at the end of its messages.
pub open spec fn prompted_context(
    context: AgentContextView,
    prompts: Seq<AgentMessageView>,
) -> AgentContextView {
    AgentContextView { messages: context.messages + prompts, ..context }
}

// ---- The law ----

/// A run on prompts does what a run does that continues from the transcript with these prompts
/// at its end. Given the same answers, the two ask for the same and tell of the same events, but
/// for two things: the first one shows its prompts behind the start of its first turn, and counts
/// them among the messages that it added, in front of all others.
pub proof fn law_prompted_run_continues(
    prompts: Seq<AgentMessageView>,
    context: AgentContextView,
    config: AgentLoopConfig,
    cancel: CancellationToken,
    answers: Seq<Answer>,
)
    requires
        ({
            let prompted = RunView::start(prompts, context, config, cancel);
            let continued = RunView::start(
                Seq::empty(),
                prompted_context(context, prompts),
                config,
                cancel,
            );
            fitting(prompted, answers) || fitting(continued, answers)
        }),
    ensures
        ({
            let prompted = RunView::start(prompts, context, config, cancel);
            let continued = RunView::start(
                Seq::empty(),
                prompted_context(context, prompts),
                config,
                cancel,
            );
            let run = progress_after(prompted, answers);
            let other = progress_after(continued, answers);
            let told = events_after(prompted, answers);
            let told_other = events_after(continued, answers);
            &&& fitting(prompted, answers) && fitting(continued, answers)
            &&& run.run == other.run.with_prompts(prompts)
            &&& run.request == other.request.with_prompts(prompts)
            &&& told_other.len() >= 2
            &&& told == told_other.take(2) + shown_messages(prompts) + (
            if other.request is Finish {
                told_other.skip(2).drop_last().push(told_other.last().with_prompts(prompts))
            } else {
                told_other.skip(2)
            })
        }),
{
    lemma_same_course(prompts, context, config, cancel, answers);
    let continued = RunView::start(
        Seq::empty(),
        prompted_context(context, prompts),
        config,
        cancel,
    );
    let other = progress_after(continued, answers);
    let told_other = events_after(continued, answers);
    lemma_history(Seq::empty(), prompted_context(context, prompts), config, cancel, answers);
    if let RequestView::Finish { outcome } = other.request {
        assert(told_other.last() == outcome.terminal_event());
        if outcome is Failed {
            let earlier = answers.drop_last();
            lemma_history(
                Seq::empty(),
                prompted_context(context, prompts),
                config,
                cancel,
                earlier,
            );
            law_failure_is_told(
                progress_after(continued, earlier).run,
                answers.last().reply,
                answers.last().observed,
                answers.last().complaint,
            );
            assert(ends_on(outcome.new_messages(), StopReason::Error));
            assert((prompts + outcome.new_messages()).last() == outcome.new_messages().last());
        }
    }
}

/// The events of a run on prompts, given those of the run that continues.
spec fn prompted_events(
    told: Seq<AgentEventView>,
    prompts: Seq<AgentMessageView>,
    request: RequestView,
) -> Seq<AgentEventView> {
    told.take(2) + shown_messages(prompts) + (match request {
        RequestView::Finish { outcome } => told.skip(2).drop_last().push(
            outcome.with_prompts(prompts).terminal_event(),
        ),
        _ => told.skip(2),
    })
}

proof fn lemma_same_course(
    prompts: Seq<AgentMessageView>,
    context: AgentContextView,
    config: AgentLoopConfig,
    cancel: CancellationToken,
    answers: Seq<Answer>,
)
    requires
        ({
            let prompted = RunView::start(prompts, context, config, cancel);
            let continued = RunView::start(
                Seq::empty(),
                prompted_context(context, prompts),
                config,
                cancel,
            );
            fitting(prompted, answers) || fitting(continued, answers)
        }),
    ensures
        ({
            let prompted = RunView::start(prompts, context, config, cancel);
            let continued = RunView::start(
                Seq::empty(),
                prompted_context(context, prompts),
                config,
                cancel,
            );
            let run = progress_after(prompted, answers);
            let other = progress_after(continued, answers);
            let told_other = events_after(continued, answers);
            &&& fitting(prompted, answers) && fitting(continued, answers)
            &&& run.run == other.run.with_prompts(prompts)
            &&& run.request == other.request.with_prompts(prompts)
            &&& told_other.len() >= 2
            &&& other.request is Finish ==> told_other.len() > 2
            &&& events_after(prompted, answers) == prompted_events(
                told_other,
                prompts,
                other.request,
            )
        }),
    decreases answers.len(),
{
    let prompted = RunView::start(prompts, context, config, cancel);
    let continued = RunView::start(
        Seq::empty(),
        prompted_context(context, prompts),
        config,
        cancel,
    );
    if answers.len() == 0 {
        let opening = seq![AgentEventView::AgentStart, AgentEventView::TurnStart];
        assert(continued.events =~= opening);
        assert(continued.run.context.messages =~= prompted.run.context.messages);
        assert(continued.run.with_prompts(prompts).new_messages =~= prompted.run.new_messages);
        assert(opening.take(2) =~= opening);
        assert(prompted_events(opening, prompts, continued.request) =~= prompted.events);
    } else {
        let earlier = answers.drop_last();
        let last = answers.last();
        lemma_same_course(prompts, context, config, cancel, earlier);
        let before = progress_after(continued, earlier);
        lemma_step_prompted(before.run, prompts, last.reply, last.observed, last.complaint);
        lemma_history(Seq::empty(), prompted_context(context, prompts), config, cancel, answers);
        lemma_history(Seq::empty(), prompted_context(context, prompts), config, cancel, earlier);
        let now = progress_after(continued, answers);
        let past = events_after(continued, earlier);
        let told = events_after(continued, answers);
        assert(told.take(2) =~= past.take(2));
        assert(told.skip(2) =~= past.skip(2) + now.events);
        if now.request is Finish {
            assert(told.skip(2).drop_last() =~= past.skip(2) + now.events.drop_last());
        }
        assert(events_after(prompted, answers) =~= prompted_events(told, prompts, now.request));
    }
}

// ---- Steps ----

proof fn lemma_finish_prompted(
    run: RunView,
    prompts: Seq<AgentMessageView>,
    events: Seq<AgentEventView>,
    exit: LoopExitView,
)
    ensures
        run.with_prompts(prompts).finish(events, exit) == run.finish(events, exit).with_prompts(
            prompts,
        ),
{
    assert(run.finish(events, exit).events.drop_last() =~= events);
}

proof fn lemma_messages_prompted(
    run: RunView,
    prompts: Seq<AgentMessageView>,
    messages: Seq<AgentMessageView>,
)
    ensures
        run.with_prompts(prompts).with_messages(messages) == run.with_messages(
            messages,
        ).with_prompts(prompts),
{
    assert(prompts + run.new_messages + messages =~= prompts + (run.new_messages + messages));
}

proof fn lemma_fail_prompted(
    run: RunView,
    prompts: Seq<AgentMessageView>,
    events: Seq<AgentEventView>,
    results: Seq<ToolResultMessageView>,
    error: AgentErrorView,
    observed: Observed,
)
    ensures
        run.with_prompts(prompts).fail(events, results, error, observed) == run.fail(
            events,
            results,
            error,
            observed,
        ).with_prompts(prompts),
{
    let message = AgentMessageView::Assistant(
        AssistantMessageView::error(run.config.model.deep_view(), error.text(), observed.now),
    );
    lemma_messages_prompted(run, prompts, seq![message]);
    lemma_finish_prompted(
        run.with_message(message),
        prompts,
        events.push(AgentEventView::MessageStart { message }).push(
            AgentEventView::MessageEnd { message },
        ).push(AgentEventView::TurnEnd { message, tool_results: results }),
        LoopExitView::Failed(error),
    );
}

proof fn lemma_turn_prompted(
    run: RunView,
    prompts: Seq<AgentMessageView>,
    pending: Seq<AgentMessageView>,
    observed: Observed,
)
    ensures
        run.with_prompts(prompts).begin_turn(pending, observed) == run.begin_turn(
            pending,
            observed,
        ).with_prompts(prompts),
{
    lemma_finish_prompted(run, prompts, Seq::empty(), LoopExitView::Aborted);
    lemma_messages_prompted(run, prompts, pending);
}

proof fn lemma_conclude_prompted(
    run: RunView,
    prompts: Seq<AgentMessageView>,
    message: AssistantMessageView,
    shown: bool,
)
    ensures
        run.with_prompts(prompts).conclude(message, shown) == run.conclude(
            message,
            shown,
        ).with_prompts(prompts),
{
    let entry = AgentMessageView::Assistant(message);
    assert((prompts + run.new_messages).push(entry) =~= prompts + run.new_messages.push(entry));
    let closing = if shown {
        seq![AgentEventView::MessageEnd { message: entry }]
    } else {
        seq![
            AgentEventView::MessageStart { message: entry },
            AgentEventView::MessageEnd { message: entry },
        ]
    };
    let turn_end = AgentEventView::TurnEnd { message: entry, tool_results: Seq::empty() };
    let events = closing.push(turn_end);
    let done = run.conclude(message, shown).run;
    let concluded = RunView { phase: run.phase, ..done };
    lemma_finish_prompted(concluded, prompts, events, LoopExitView::Failed(message.failure()));
    lemma_finish_prompted(concluded, prompts, events, LoopExitView::Aborted);
}

proof fn lemma_abort_prompted(
    run: RunView,
    prompts: Seq<AgentMessageView>,
    partial: Option<AssistantMessageView>,
    shown: bool,
    observed: Observed,
)
    ensures
        run.with_prompts(prompts).abort_answer(partial, shown, observed) == run.abort_answer(
            partial,
            shown,
            observed,
        ).with_prompts(prompts),
{
    lemma_conclude_prompted(
        run,
        prompts,
        AssistantMessageView::aborted(run.config.model.deep_view(), partial, observed.now),
        shown,
    );
}

proof fn lemma_event_prompted(
    run: RunView,
    prompts: Seq<AgentMessageView>,
    partial: Option<AssistantMessageView>,
    shown: bool,
    event: StreamEventView,
    observed: Observed,
)
    ensures
        run.with_prompts(prompts).followed(partial, shown, event, observed) == run.followed(
            partial,
            shown,
            event,
            observed,
        ).with_prompts(prompts),
{
    match event {
        StreamEventView::Start { partial: first } => {
            lemma_abort_prompted(run, prompts, Some(first), shown, observed);
        },
        StreamEventView::Done { message } => {
            lemma_conclude_prompted(run, prompts, message.normalized(), shown);
        },
        StreamEventView::Error { message } => {
            lemma_conclude_prompted(run, prompts, message.as_stream_error().normalized(), shown);
        },
        _ => {
            lemma_abort_prompted(
                run,
                prompts,
                Some(event.partial_for_update()->Some_0),
                shown,
                observed,
            );
        },
    }
}

proof fn lemma_step_prompted(
    run: RunView,
    prompts: Seq<AgentMessageView>,
    reply: ReplyView,
    observed: Observed,
    complaint: Seq<char>,
)
    requires
        run.accepts(reply),
    ensures
        run.with_prompts(prompts).accepts(reply),
        run.with_prompts(prompts).step(reply, observed, complaint) == run.step(reply, observed, complaint).with_prompts(
            prompts,
        ),
{
    let idle = run.idle();
    assert(run.with_prompts(prompts).idle() == idle.with_prompts(prompts));
    match run.phase {
        PhaseView::Steering { .. } => {
            reveal(RunView::steered);
            lemma_turn_prompted(idle, prompts, reply.messages(), observed);
        },
        PhaseView::FollowUp => {
            reveal(RunView::followed_up);
            lemma_turn_prompted(idle, prompts, reply.messages(), observed);
            lemma_finish_prompted(idle, prompts, Seq::empty(), LoopExitView::Completed);
        },
        PhaseView::Transform => {
            reveal(RunView::transformed);
        },
        PhaseView::Convert => {
            reveal(RunView::converted);
        },
        PhaseView::ApiKey { .. } => {
            reveal(RunView::key_resolved);
        },
        PhaseView::Open => {
            reveal(RunView::opened);
            lemma_abort_prompted(idle, prompts, None, false, observed);
            if let OpeningView::Failed(error) = reply->Opened_0 {
                lemma_fail_prompted(
                    idle,
                    prompts,
                    Seq::empty(),
                    Seq::empty(),
                    error,
                    observed,
                );
            }
        },
        PhaseView::Stream { partial, shown } => {
            reveal(RunView::streamed);
            match reply->Streamed_0 {
                StreamPollView::Event(event) => {
                    lemma_event_prompted(idle, prompts, partial, shown, event, observed);
                },
                StreamPollView::Failed(error) => {
                    lemma_abort_prompted(idle, prompts, partial, shown, observed);
                    lemma_fail_prompted(
                    idle,
                    prompts,
                    Seq::empty(),
                    Seq::empty(),
                    error,
                    observed,
                );
                },
                StreamPollView::Ended => {
                    lemma_conclude_prompted(
                        idle,
                        prompts,
                        AssistantMessageView::error(
                            run.config.model.deep_view(),
                            "Stream ended without terminal event"@,
                            observed.now,
                        ),
                        shown,
                    );
                },
                StreamPollView::Cancelled => {
                    lemma_abort_prompted(idle, prompts, partial, shown, observed);
                },
            }
        },
        PhaseView::Tools { batch } => {
            lemma_tools_prompted(idle, prompts, batch, reply, observed, complaint);
        },
        PhaseView::Finished => {},
    }
}

// ---- Tool calls ----

proof fn lemma_settle_prompted(
    run: RunView,
    prompts: Seq<AgentMessageView>,
    batch: ToolBatchView,
    observed: Observed,
)
    ensures
        run.with_prompts(prompts).settle(batch, observed) == run.settle(
            batch,
            observed,
        ).with_prompts(prompts),
{
    reveal(RunView::settle);
    let entries = result_entries(batch.results);
    lemma_messages_prompted(run, prompts, entries);
    lemma_finish_prompted(
        run.with_messages(entries),
        prompts,
        seq![
            AgentEventView::TurnEnd {
                message: AgentMessageView::Assistant(batch.message),
                tool_results: batch.results,
            },
        ],
        LoopExitView::Aborted,
    );
}

proof fn lemma_gate_prompted(
    run: RunView,
    prompts: Seq<AgentMessageView>,
    batch: ToolBatchView,
    observed: Observed,
)
    ensures
        run.with_prompts(prompts).tool_gate(batch, observed) == run.tool_gate(
            batch,
            observed,
        ).with_prompts(prompts),
{
    reveal(RunView::tool_gate);
    lemma_settle_prompted(run, prompts, batch, observed);
}

proof fn lemma_refuse_prompted(
    run: RunView,
    prompts: Seq<AgentMessageView>,
    batch: ToolBatchView,
    result: AgentToolResultView,
    stop: bool,
    observed: Observed,
)
    ensures
        run.with_prompts(prompts).refuse_call(batch, result, stop, observed) == run.refuse_call(
            batch,
            result,
            stop,
            observed,
        ).with_prompts(prompts),
{
    lemma_gate_prompted(
        run,
        prompts,
        batch.with_slot(ToolSlotView::Closed { result, is_error: true }),
        observed,
    );
}

proof fn lemma_run_call_prompted(
    run: RunView,
    prompts: Seq<AgentMessageView>,
    batch: ToolBatchView,
    handle: HookId,
    args: Value,
    observed: Observed,
)
    ensures
        run.with_prompts(prompts).run_call(batch, handle, args, observed) == run.run_call(
            batch,
            handle,
            args,
            observed,
        ).with_prompts(prompts),
{
    lemma_refuse_prompted(run, prompts, batch, aborted_result(), true, observed);
    lemma_gate_prompted(
        run,
        prompts,
        batch.with_slot(ToolSlotView::Runnable { tool: handle, args }),
        observed,
    );
}

proof fn lemma_tools_prompted(
    run: RunView,
    prompts: Seq<AgentMessageView>,
    batch: ToolBatchView,
    reply: ReplyView,
    observed: Observed,
    complaint: Seq<char>,
)
    ensures
        run.with_prompts(prompts).tool_step(batch, reply, observed, complaint) == run.tool_step(
            batch,
            reply,
            observed,
            complaint,
        ).with_prompts(prompts),
{
    let rest = batch.at(ToolStageView::Done);
    match batch.stage {
        ToolStageView::Gate => {
            lemma_gate_prompted(run, prompts, rest, observed);
        },
        ToolStageView::Started => {
            reveal(RunView::tool_started);
            lemma_refuse_prompted(run, prompts, rest, aborted_result(), true, observed);
            lemma_refuse_prompted(
                run,
                prompts,
                rest,
                AgentToolResultView::error("Tool "@ + rest.call().name + " not found"@),
                false,
                observed,
            );
        },
        ToolStageView::Preparing { tool } => {
            reveal(RunView::tool_prepared);
            match verdict(tool, reply->Arguments_0, complaint) {
                Err(message) => {
                    lemma_refuse_prompted(
                        run,
                        prompts,
                        rest,
                        AgentToolResultView::error(message),
                        false,
                        observed,
                    );
                },
                Ok(args) => {
                    lemma_run_call_prompted(run, prompts, rest, tool.handle, args, observed);
                },
            }
        },
        ToolStageView::Asking { handle } => {
            reveal(RunView::tool_asked);
            lemma_run_call_prompted(run, prompts, rest, handle, reply->args, observed);
            if let Some(reason) = hook_refusal(reply->result) {
                lemma_refuse_prompted(
                    run,
                    prompts,
                    rest,
                    AgentToolResultView::error(reason),
                    false,
                    observed,
                );
            }
        },
        ToolStageView::Executing { .. } => {
            reveal(RunView::tool_executed);
        },
        ToolStageView::Spawning => {
            reveal(RunView::tool_spawned);
        },
        ToolStageView::Joining => {
            reveal(RunView::tool_joined);
            reveal(RunView::tool_executed);
            if let JoinView::Broken(text) = reply->Joined_0 {
                let results = rest.final_results(observed.now);
                let entries = result_entries(results);
                lemma_messages_prompted(run, prompts, entries);
                lemma_fail_prompted(
                    run.with_messages(entries),
                    prompts,
                    rest.late_events(observed.now),
                    results,
                    AgentErrorView::JoinError(text),
                    observed,
                );
            }
        },
        ToolStageView::Finalizing { .. } => {
            reveal(RunView::tool_finalized);
        },
        ToolStageView::Ending { .. } => {
            reveal(RunView::tool_ended);
        },
        ToolStageView::Done => {
            lemma_settle_prompted(run, prompts, rest, observed);
        },
    }
}

} // verus!
