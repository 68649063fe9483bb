//! Runs that nobody cancels: every tool call is answered.

use crate::agent_loop::laws::{events_after, fitting, lemma_history, progress_after, Answer};
use crate::agent_loop::protocol::{JoinView, Observed, OpeningView, ReplyView, StreamPollView};
use crate::agent_loop::state::{
    PhaseView, ProgressView, RunView, ToolBatchView, ToolSlotView, ToolStageView,
};
use crate::agent_loop::tool_calls::{hook_refusal, result_entries};
use crate::agent_loop::turn::shown_messages;
use crate::types::config::{AgentLoopConfig, HookId};
use crate::types::error::AgentErrorView;
use crate::types::event::AgentEventView;
use crate::types::message::{AgentMessageView, AssistantMessageView, ToolResultMessageView};
use crate::types::stream::StreamEventView;
use crate::types::tool::{AgentContextView, AgentToolResultView};
use crate::validate::verdict;
use serde_json::Value;
use tokio_util::sync::CancellationToken;
use vstd::prelude::*;

verus! {

/// Whether the turns that the events end answer all their tool calls.
spec fn all_answered(events: Seq<AgentEventView>) -> bool {
    forall|i: int| 0 <= i < events.len() ==> (#[trigger] events[i]).answers_all()
}

/// Whether no answer came with the cancellation signal given.
pub open spec fn uncancelled(answers: Seq<Answer>) -> bool {
    forall|i: int| 0 <= i < answers.len() ==> !(#[trigger] answers[i]).observed.cancelled
}

impl ToolBatchView {
    /// Whether no call of the batch was passed over.
    spec fn whole(self, sequential: bool) -> bool {
        match self.stage {
            ToolStageView::Spawning | ToolStageView::Joining => {
                self.slots.len() == self.calls.len()
            },
            ToolStageView::Finalizing { .. } => {
                !sequential ==> self.slots.len() == self.calls.len()
            },
            ToolStageView::Ending { stop, .. } => if sequential {
                !stop
            } else {
                self.slots.len() == self.calls.len()
            },
            ToolStageView::Done => self.results.len() == self.calls.len(),
            _ => true,
        }
    }
}

/// Whether a step passes no tool call over.
spec fn passes_none_over(p: ProgressView) -> bool {
    &&& all_answered(p.events)
    &&& p.run.phase matches PhaseView::Tools { batch } ==> batch.whole(p.run.sequential())
}

proof fn lemma_settled(run: RunView, batch: ToolBatchView, observed: Observed)
    requires
        batch.calls == batch.message.tool_calls(),
        batch.results.len() == batch.calls.len(),
    ensures
        passes_none_over(run.settle(batch, observed)),
{
    reveal(RunView::settle);
}

proof fn lemma_slots_closed(run: RunView, batch: ToolBatchView, events: Seq<AgentEventView>)
    requires
        !run.sequential(),
        all_answered(events),
        batch.slots.len() == batch.calls.len(),
        batch.cursor == batch.results.len(),
        batch.cursor <= batch.slots.len(),
    ensures
        passes_none_over(run.close_slots(batch, events)),
{
}

proof fn lemma_spawned(run: RunView, batch: ToolBatchView, from: nat, observed: Observed)
    requires
        !run.sequential(),
        batch.slots.len() == batch.calls.len(),
        batch.results.len() == 0,
    ensures
        passes_none_over(run.spawn_from(batch, from, observed)),
{
    lemma_slots_closed(run, ToolBatchView { cursor: 0, ..batch }, Seq::empty());
}

proof fn lemma_gate_passed(run: RunView, batch: ToolBatchView, observed: Observed)
    requires
        !observed.cancelled,
        batch.at(ToolStageView::Gate).in_order(run.sequential()),
    ensures
        passes_none_over(run.tool_gate(batch, observed)),
{
    reveal(RunView::tool_gate);
    if batch.cursor >= batch.calls.len() {
        if run.sequential() {
            lemma_settled(run, batch, observed);
        } else {
            lemma_spawned(run, batch, 0, observed);
        }
    }
}

proof fn lemma_refused(
    run: RunView,
    batch: ToolBatchView,
    result: AgentToolResultView,
    observed: Observed,
)
    requires
        !observed.cancelled,
        batch.at(ToolStageView::Started).in_order(run.sequential()),
        batch.cursor < batch.calls.len(),
    ensures
        passes_none_over(run.refuse_call(batch, result, false, observed)),
{
    if !run.sequential() {
        lemma_gate_passed(
            run,
            batch.with_slot(ToolSlotView::Closed { result, is_error: true }),
            observed,
        );
    }
}

proof fn lemma_run_or_queued(
    run: RunView,
    batch: ToolBatchView,
    handle: HookId,
    args: Value,
    observed: Observed,
)
    requires
        !observed.cancelled,
        batch.at(ToolStageView::Started).in_order(run.sequential()),
        batch.cursor < batch.calls.len(),
    ensures
        passes_none_over(run.run_call(batch, handle, args, observed)),
{
    if !run.sequential() {
        lemma_gate_passed(
            run,
            batch.with_slot(ToolSlotView::Runnable { tool: handle, args }),
            observed,
        );
    }
}

/// The closing of refused calls ends no turn.
proof fn lemma_refused_closed(batch: ToolBatchView, from: nat, to: nat, now: i64)
    ensures
        all_answered(batch.refused_events(from, to, now)),
    decreases to,
{
    if to > from {
        lemma_refused_closed(batch, from, (to - 1) as nat, now);
    }
}

proof fn lemma_failed(
    run: RunView,
    events: Seq<AgentEventView>,
    results: Seq<ToolResultMessageView>,
    error: AgentErrorView,
    observed: Observed,
)
    requires
        all_answered(events),
    ensures
        passes_none_over(run.fail(events, results, error, observed)),
{
}

proof fn lemma_concluded(run: RunView, message: AssistantMessageView, shown: bool)
    ensures
        passes_none_over(run.conclude(message, shown)),
{
}

proof fn lemma_turn_begun(run: RunView, pending: Seq<AgentMessageView>, observed: Observed)
    ensures
        passes_none_over(run.begin_turn(pending, observed)),
{
    lemma_shown_answered(pending);
}

proof fn lemma_shown_answered(messages: Seq<AgentMessageView>)
    ensures
        all_answered(shown_messages(messages)),
    decreases messages.len(),
{
    if messages.len() > 0 {
        lemma_shown_answered(messages.drop_last());
    }
}

proof fn lemma_tool_step_whole(
    run: RunView,
    batch: ToolBatchView,
    reply: ReplyView,
    observed: Observed,
    complaint: Seq<char>,
)
    requires
        !observed.cancelled,
        batch.in_order(run.sequential()),
        batch.whole(run.sequential()),
    ensures
        passes_none_over(run.tool_step(batch, reply, observed, complaint)),
{
    let rest = batch.at(ToolStageView::Done);
    match batch.stage {
        ToolStageView::Gate => {
            assert(rest.at(ToolStageView::Gate) == batch);
            lemma_gate_passed(run, rest, observed);
        },
        ToolStageView::Started => {
            reveal(RunView::tool_started);
            lemma_refused(
                run,
                rest,
                AgentToolResultView::error("Tool "@ + rest.call().name + " not found"@),
                observed,
            );
        },
        ToolStageView::Preparing { tool } => {
            reveal(RunView::tool_prepared);
            match verdict(tool, reply->Arguments_0, complaint) {
                Err(message) => {
                    lemma_refused(run, rest, AgentToolResultView::error(message), observed);
                },
                Ok(args) => {
                    lemma_run_or_queued(run, rest, tool.handle, args, observed);
                },
            }
        },
        ToolStageView::Asking { handle } => {
            reveal(RunView::tool_asked);
            lemma_run_or_queued(run, rest, handle, reply->args, observed);
            if let Some(reason) = hook_refusal(reply->result) {
                lemma_refused(run, rest, AgentToolResultView::error(reason), observed);
            }
        },
        ToolStageView::Executing { .. } => {
            reveal(RunView::tool_executed);
        },
        ToolStageView::Spawning => {
            reveal(RunView::tool_spawned);
            lemma_spawned(
                run,
                ToolBatchView { spawned: rest.cursor + 1, ..rest },
                rest.cursor + 1,
                observed,
            );
        },
        ToolStageView::Joining => {
            reveal(RunView::tool_joined);
            reveal(RunView::tool_executed);
            if let JoinView::Broken(text) = reply->Joined_0 {
                let results = rest.final_results(observed.now);
                lemma_refused_closed(rest, rest.cursor + 1, rest.slots.len(), observed.now);
                lemma_failed(
                    run.with_messages(result_entries(results)),
                    rest.late_events(observed.now),
                    results,
                    AgentErrorView::JoinError(text),
                    observed,
                );
            }
        },
        ToolStageView::Finalizing { .. } => {
            reveal(RunView::tool_finalized);
        },
        ToolStageView::Ending { result, is_error, stop } => {
            reveal(RunView::tool_ended);
            let message = rest.call().result_message(result, is_error, observed.now);
            let entry = AgentMessageView::ToolResult(message);
            let events = seq![
                AgentEventView::MessageStart { message: entry },
                AgentEventView::MessageEnd { message: entry },
            ];
            if !run.sequential() {
                lemma_slots_closed(
                    run,
                    ToolBatchView {
                        results: rest.results.push(message),
                        cursor: rest.cursor + 1,
                        ..rest
                    },
                    events,
                );
            }
        },
        ToolStageView::Done => {
            lemma_settled(run, rest, observed);
        },
    }
}

proof fn lemma_event_whole(
    run: RunView,
    partial: Option<AssistantMessageView>,
    shown: bool,
    event: StreamEventView,
    observed: Observed,
)
    requires
        !observed.cancelled,
    ensures
        passes_none_over(run.followed(partial, shown, event, observed)),
{
    match event {
        StreamEventView::Done { message } => {
            lemma_concluded(run, message.normalized(), shown);
        },
        StreamEventView::Error { message } => {
            lemma_concluded(run, message.as_stream_error().normalized(), shown);
        },
        _ => {},
    }
}

proof fn lemma_step_whole(
    run: RunView,
    reply: ReplyView,
    observed: Observed,
    complaint: Seq<char>,
)
    requires
        !observed.cancelled,
        run.accepts(reply),
        run.in_order(),
        run.phase matches PhaseView::Tools { batch } ==> batch.whole(run.sequential()),
    ensures
        passes_none_over(run.step(reply, observed, complaint)),
{
    let idle = run.idle();
    let model = run.config.model.deep_view();
    match run.phase {
        PhaseView::Steering { .. } => {
            reveal(RunView::steered);
            lemma_turn_begun(idle, reply.messages(), observed);
        },
        PhaseView::FollowUp => {
            reveal(RunView::followed_up);
            lemma_turn_begun(idle, reply.messages(), observed);
        },
        PhaseView::Transform => {
            reveal(RunView::transformed);
        },
        PhaseView::Convert => {
            reveal(RunView::converted);
        },
        PhaseView::ApiKey { .. } => {
            reveal(RunView::key_resolved);
        },
        PhaseView::Open => {
            reveal(RunView::opened);
            lemma_concluded(
                idle,
                AssistantMessageView::aborted(model, None, observed.now),
                false,
            );
            if let OpeningView::Failed(error) = reply->Opened_0 {
                lemma_failed(idle, Seq::empty(), Seq::empty(), error, observed);
            }
        },
        PhaseView::Stream { partial, shown } => {
            reveal(RunView::streamed);
            lemma_concluded(
                idle,
                AssistantMessageView::aborted(model, partial, observed.now),
                shown,
            );
            match reply->Streamed_0 {
                StreamPollView::Event(event) => {
                    lemma_event_whole(idle, partial, shown, event, observed);
                },
                StreamPollView::Failed(error) => {
                    lemma_failed(idle, Seq::empty(), Seq::empty(), error, observed);
                },
                StreamPollView::Ended => {
                    lemma_concluded(
                        idle,
                        AssistantMessageView::error(
                            model,
                            "Stream ended without terminal event"@,
                            observed.now,
                        ),
                        shown,
                    );
                },
                StreamPollView::Cancelled => {},
            }
        },
        PhaseView::Tools { batch } => {
            lemma_tool_step_whole(idle, batch, reply, observed, complaint);
        },
        PhaseView::Finished => {},
    }
}

proof fn lemma_whole(
    prompts: Seq<AgentMessageView>,
    context: AgentContextView,
    config: AgentLoopConfig,
    cancel: CancellationToken,
    answers: Seq<Answer>,
)
    requires
        fitting(RunView::start(prompts, context, config, cancel), answers),
        uncancelled(answers),
    ensures
        all_answered(events_after(RunView::start(prompts, context, config, cancel), answers)),
        passes_none_over(
            progress_after(RunView::start(prompts, context, config, cancel), answers),
        ),
    decreases answers.len(),
{
    let start = RunView::start(prompts, context, config, cancel);
    if answers.len() == 0 {
        lemma_shown_answered(prompts);
    } else {
        let earlier = answers.drop_last();
        assert(uncancelled(earlier)) by {
            assert forall|i: int| 0 <= i < earlier.len() implies !(
            #[trigger] earlier[i]).observed.cancelled by {
                assert(earlier[i] == answers[i]);
            }
        }
        lemma_whole(prompts, context, config, cancel, earlier);
        lemma_history(prompts, context, config, cancel, earlier);
        lemma_step_whole(
            progress_after(start, earlier).run,
            answers.last().reply,
            answers.last().observed,
            answers.last().complaint,
        );
    }
}

/// In a run that nobody cancels, every turn that does not end the run answers all tool calls of
/// the model's message: each call has its result.
pub proof fn law_every_call_is_answered(
    prompts: Seq<AgentMessageView>,
    context: AgentContextView,
    config: AgentLoopConfig,
    cancel: CancellationToken,
    answers: Seq<Answer>,
)
    requires
        fitting(RunView::start(prompts, context, config, cancel), answers),
        uncancelled(answers),
    ensures
        ({
            let events = events_after(RunView::start(prompts, context, config, cancel), answers);
            forall|i: int| 0 <= i < events.len() ==> (#[trigger] events[i]).answers_all()
        }),
{
    lemma_whole(prompts, context, config, cancel, answers);
}

} // verus!
