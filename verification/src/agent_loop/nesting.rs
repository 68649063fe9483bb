//! How the events of a run nest: turns one after the other, and messages one after the other.

use crate::agent_loop::laws::{events_after, fitting, progress_after, tidy, Answer};
use crate::agent_loop::protocol::{JoinView, Observed, OpeningView, ReplyView, StreamPollView};
use crate::agent_loop::state::{
    PhaseView, ProgressView, RunView, ToolBatchView, ToolSlotView, ToolStageView,
};
use crate::agent_loop::tool_calls::{aborted_result, hook_refusal, result_entries};
use crate::agent_loop::turn::{shown_messages, LoopExitView};
use crate::types::config::{AgentLoopConfig, HookId};
use crate::types::error::AgentErrorView;
use crate::types::event::AgentEventView;
use crate::types::message::{AgentMessageView, AssistantMessageView, ToolResultMessageView};
use crate::types::stream::StreamEventView;
use crate::types::tool::{AgentContextView, AgentToolResultView};
use crate::validate::verdict;
use serde_json::Value;
use tokio_util::sync::CancellationToken;
use vstd::prelude::*;

verus! {

// ---- Brackets ----

/// Whether a turn is under way after an event, given whether one was before; nothing where the
/// event does not fit.
pub open spec fn turn_step(under_way: Option<bool>, event: AgentEventView) -> Option<bool> {
    match (under_way, event) {
        (None, _) => None,
        (Some(open), AgentEventView::TurnStart) => if open {
            None
        } else {
            Some(true)
        },
        (Some(open), AgentEventView::TurnEnd { .. }) => if open {
            Some(false)
        } else {
            None
        },
        _ => under_way,
    }
}

/// Whether a turn is under way after events, given whether one was before; nothing where a turn
/// begins within another or ends where none is under way.
pub open spec fn turns_after(under_way: bool, events: Seq<AgentEventView>) -> Option<bool>
    decreases events.len(),
{
    if events.len() == 0 {
        Some(under_way)
    } else {
        turn_step(turns_after(under_way, events.drop_last()), events.last())
    }
}

/// Whether a message is under way after an event, given whether one was before; nothing where
/// the event does not fit.
pub open spec fn message_step(under_way: Option<bool>, event: AgentEventView) -> Option<bool> {
    match (under_way, event) {
        (None, _) => None,
        (Some(open), AgentEventView::MessageStart { .. }) => if open {
            None
        } else {
            Some(true)
        },
        (Some(open), AgentEventView::MessageUpdate { .. }) => if open {
            Some(true)
        } else {
            None
        },
        (Some(open), AgentEventView::MessageEnd { .. }) => if open {
            Some(false)
        } else {
            None
        },
        _ => under_way,
    }
}

/// Whether a message is under way after events, given whether one was before; nothing where a
/// message begins within another, or is updated or ends where none is under way.
pub open spec fn messages_after(under_way: bool, events: Seq<AgentEventView>) -> Option<bool>
    decreases events.len(),
{
    if events.len() == 0 {
        Some(under_way)
    } else {
        message_step(messages_after(under_way, events.drop_last()), events.last())
    }
}

impl RunView {
    /// Whether a turn is under way: the first one from the start of the run on, and any other
    /// from the model's call on.
    pub open spec fn in_turn(self) -> bool {
        self.first_turn || match self.phase {
            PhaseView::Steering { .. } | PhaseView::FollowUp | PhaseView::Finished => false,
            _ => true,
        }
    }

    /// Whether the run is before its first call of the model only where it can be.
    pub open spec fn marks_first_turn(self) -> bool {
        self.first_turn ==> {
            ||| self.phase == (PhaseView::Steering { after_tools: true })
            ||| self.phase is Finished
        }
    }
}

// ---- Laws ----

/// Turns follow one another: none begins within another, and none ends that did not begin. Once
/// the run is over, no turn is under way, unless the run was aborted before its first call of
/// the model.
pub proof fn law_turns_nest(
    prompts: Seq<AgentMessageView>,
    context: AgentContextView,
    config: AgentLoopConfig,
    cancel: CancellationToken,
    answers: Seq<Answer>,
)
    requires
        fitting(RunView::start(prompts, context, config, cancel), answers),
    ensures
        ({
            let start = RunView::start(prompts, context, config, cancel);
            let now = progress_after(start, answers);
            turns_after(false, events_after(start, answers)) == Some(now.run.in_turn())
        }),
{
    lemma_turns_nest(prompts, context, config, cancel, answers);
}

/// A run announces its start once, by its first event.
pub proof fn law_starts_once(
    prompts: Seq<AgentMessageView>,
    context: AgentContextView,
    config: AgentLoopConfig,
    cancel: CancellationToken,
    answers: Seq<Answer>,
)
    requires
        fitting(RunView::start(prompts, context, config, cancel), answers),
    ensures
        ({
            let events = events_after(RunView::start(prompts, context, config, cancel), answers);
            &&& events.len() > 0
            &&& forall|i: int|
                0 <= i < events.len() ==> (#[trigger] events[i] is AgentStart <==> i == 0)
        }),
    decreases answers.len(),
{
    let start = RunView::start(prompts, context, config, cancel);
    if answers.len() == 0 {
        lemma_shown_messages_nest(true, prompts);
        let shown = shown_messages(prompts);
        assert forall|i: int| 0 <= i < start.events.len() implies (
        #[trigger] start.events[i] is AgentStart <==> i == 0) by {
            if i >= 2 {
                assert(start.events[i] == shown[i - 2]);
            }
        }
    } else {
        let earlier = answers.drop_last();
        law_starts_once(prompts, context, config, cancel, earlier);
        lemma_turns_nest(prompts, context, config, cancel, earlier);
        lemma_step_nests(
            progress_after(start, earlier).run,
            answers.last().reply,
            answers.last().observed,
            answers.last().complaint,
        );
        let past = events_after(start, earlier);
        let more = progress_after(start, answers).events;
        assert forall|i: int| 0 <= i < (past + more).len() implies (
        #[trigger] (past + more)[i] is AgentStart <==> i == 0) by {
            if i < past.len() {
                assert((past + more)[i] == past[i]);
            } else {
                assert((past + more)[i] == more[i - past.len()]);
            }
        }
    }
}

/// Messages follow one another: none begins within another, and none is updated or ends that did
/// not begin. A message is under way exactly while the model's partial message is shown, so none
/// is once the run is over. This holds as long as every stream is tidy.
pub proof fn law_messages_nest(
    prompts: Seq<AgentMessageView>,
    context: AgentContextView,
    config: AgentLoopConfig,
    cancel: CancellationToken,
    answers: Seq<Answer>,
)
    requires
        fitting(RunView::start(prompts, context, config, cancel), answers),
        tidy(RunView::start(prompts, context, config, cancel), answers),
    ensures
        ({
            let start = RunView::start(prompts, context, config, cancel);
            let now = progress_after(start, answers);
            messages_after(false, events_after(start, answers)) == Some(now.run.shows_partial())
        }),
    decreases answers.len(),
{
    let start = RunView::start(prompts, context, config, cancel);
    if answers.len() == 0 {
        lemma_start_nests(prompts, context, config, cancel);
    } else {
        let earlier = answers.drop_last();
        law_messages_nest(prompts, context, config, cancel, earlier);
        lemma_turns_nest(prompts, context, config, cancel, earlier);
        lemma_step_nests(
            progress_after(start, earlier).run,
            answers.last().reply,
            answers.last().observed,
            answers.last().complaint,
        );
        lemma_messages_add(
            false,
            events_after(start, earlier),
            progress_after(start, answers).events,
        );
    }
}

proof fn lemma_turns_nest(
    prompts: Seq<AgentMessageView>,
    context: AgentContextView,
    config: AgentLoopConfig,
    cancel: CancellationToken,
    answers: Seq<Answer>,
)
    requires
        fitting(RunView::start(prompts, context, config, cancel), answers),
    ensures
        ({
            let start = RunView::start(prompts, context, config, cancel);
            let now = progress_after(start, answers);
            &&& now.run.marks_first_turn()
            &&& turns_after(false, events_after(start, answers)) == Some(now.run.in_turn())
        }),
    decreases answers.len(),
{
    let start = RunView::start(prompts, context, config, cancel);
    if answers.len() == 0 {
        lemma_start_nests(prompts, context, config, cancel);
    } else {
        let earlier = answers.drop_last();
        lemma_turns_nest(prompts, context, config, cancel, earlier);
        lemma_step_nests(
            progress_after(start, earlier).run,
            answers.last().reply,
            answers.last().observed,
            answers.last().complaint,
        );
        lemma_turns_add(
            false,
            events_after(start, earlier),
            progress_after(start, answers).events,
        );
    }
}

// ---- Sequences of events ----

broadcast proof fn lemma_turns_push(
    under_way: bool,
    events: Seq<AgentEventView>,
    event: AgentEventView,
)
    ensures
        #[trigger] turns_after(under_way, events.push(event)) == turn_step(
            turns_after(under_way, events),
            event,
        ),
{
    assert(events.push(event).drop_last() =~= events);
}

broadcast proof fn lemma_messages_push(
    under_way: bool,
    events: Seq<AgentEventView>,
    event: AgentEventView,
)
    ensures
        #[trigger] messages_after(under_way, events.push(event)) == message_step(
            messages_after(under_way, events),
            event,
        ),
{
    assert(events.push(event).drop_last() =~= events);
}

proof fn lemma_turns_add(under_way: bool, past: Seq<AgentEventView>, more: Seq<AgentEventView>)
    ensures
        turns_after(under_way, past + more) == (match turns_after(under_way, past) {
            Some(between) => turns_after(between, more),
            None => None,
        }),
    decreases more.len(),
{
    if more.len() == 0 {
        assert(past + more =~= past);
    } else {
        lemma_turns_add(under_way, past, more.drop_last());
        assert((past + more).drop_last() =~= past + more.drop_last());
    }
}

proof fn lemma_messages_add(under_way: bool, past: Seq<AgentEventView>, more: Seq<AgentEventView>)
    ensures
        messages_after(under_way, past + more) == (match messages_after(under_way, past) {
            Some(between) => messages_after(between, more),
            None => None,
        }),
    decreases more.len(),
{
    if more.len() == 0 {
        assert(past + more =~= past);
    } else {
        lemma_messages_add(under_way, past, more.drop_last());
        assert((past + more).drop_last() =~= past + more.drop_last());
    }
}

proof fn lemma_shown_messages_nest(under_way: bool, messages: Seq<AgentMessageView>)
    ensures
        turns_after(under_way, shown_messages(messages)) == Some(under_way),
        messages_after(false, shown_messages(messages)) == Some(false),
        without_start(shown_messages(messages)),
    decreases messages.len(),
{
    broadcast use {lemma_turns_push, lemma_messages_push};

    if messages.len() > 0 {
        lemma_shown_messages_nest(under_way, messages.drop_last());
    }
}

/// Events written out.
proof fn lemma_written_out(a: AgentEventView, b: AgentEventView, c: AgentEventView)
    ensures
        seq![a] == Seq::empty().push(a),
        seq![a, b] == Seq::empty().push(a).push(b),
        seq![a, b, c] == Seq::empty().push(a).push(b).push(c),
{
    assert(seq![a] =~= Seq::empty().push(a));
    assert(seq![a, b] =~= Seq::empty().push(a).push(b));
    assert(seq![a, b, c] =~= Seq::empty().push(a).push(b).push(c));
}

// ---- Steps ----

/// Whether no event announces the start of a run.
spec fn without_start(events: Seq<AgentEventView>) -> bool {
    forall|i: int| 0 <= i < events.len() ==> !(#[trigger] events[i] is AgentStart)
}

/// Whether the turns still nest after a step, which announces no start of a run.
spec fn nests_turns(p: ProgressView, under_way: bool) -> bool {
    &&& turns_after(under_way, p.events) == Some(p.run.in_turn())
    &&& p.run.marks_first_turn()
    &&& without_start(p.events)
}

/// Whether the messages still nest after a step.
spec fn nests_messages(p: ProgressView, under_way: bool) -> bool {
    messages_after(under_way, p.events) == Some(p.run.shows_partial())
}

proof fn lemma_start_nests(
    prompts: Seq<AgentMessageView>,
    context: AgentContextView,
    config: AgentLoopConfig,
    cancel: CancellationToken,
)
    ensures
        ({
            let start = RunView::start(prompts, context, config, cancel);
            &&& turns_after(false, start.events) == Some(start.run.in_turn())
            &&& start.run.marks_first_turn()
            &&& nests_messages(start, false)
        }),
{
    broadcast use {lemma_turns_push, lemma_messages_push};

    let first = seq![AgentEventView::AgentStart, AgentEventView::TurnStart];
    lemma_written_out(first[0], first[1], first[1]);
    lemma_shown_messages_nest(true, prompts);
    lemma_turns_add(false, first, shown_messages(prompts));
    lemma_messages_add(false, first, shown_messages(prompts));
}

proof fn lemma_turn_nests(run: RunView, pending: Seq<AgentMessageView>, observed: Observed)
    ensures
        nests_turns(run.begin_turn(pending, observed), run.first_turn),
        nests_messages(run.begin_turn(pending, observed), false),
{
    broadcast use {lemma_turns_push, lemma_messages_push};

    if !observed.cancelled {
        let opening = if run.first_turn {
            Seq::empty()
        } else {
            seq![AgentEventView::TurnStart]
        };
        lemma_written_out(
            AgentEventView::TurnStart,
            AgentEventView::TurnStart,
            AgentEventView::TurnStart,
        );
        lemma_shown_messages_nest(true, pending);
        lemma_turns_add(run.first_turn, opening, shown_messages(pending));
        lemma_messages_add(false, opening, shown_messages(pending));
    }
}

proof fn lemma_concluding_nests(run: RunView, message: AssistantMessageView, shown: bool)
    requires
        !run.first_turn,
    ensures
        nests_turns(run.conclude(message, shown), true),
        nests_messages(run.conclude(message, shown), shown),
{
    broadcast use {lemma_turns_push, lemma_messages_push};

    let entry = AgentMessageView::Assistant(message);
    lemma_written_out(
        AgentEventView::MessageStart { message: entry },
        AgentEventView::MessageEnd { message: entry },
        AgentEventView::MessageEnd { message: entry },
    );
    lemma_written_out(
        AgentEventView::MessageEnd { message: entry },
        AgentEventView::MessageEnd { message: entry },
        AgentEventView::MessageEnd { message: entry },
    );
}

proof fn lemma_refused_nest(batch: ToolBatchView, from: nat, to: nat, now: i64)
    ensures
        turns_after(true, batch.refused_events(from, to, now)) == Some(true),
        messages_after(false, batch.refused_events(from, to, now)) == Some(false),
        without_start(batch.refused_events(from, to, now)),
    decreases to,
{
    broadcast use {lemma_turns_push, lemma_messages_push};

    if to > from {
        lemma_refused_nest(batch, from, (to - 1) as nat, now);
    }
}

proof fn lemma_failing_nests(
    run: RunView,
    events: Seq<AgentEventView>,
    results: Seq<ToolResultMessageView>,
    error: AgentErrorView,
    observed: Observed,
)
    requires
        !run.first_turn,
        turns_after(true, events) == Some(true),
        messages_after(false, events) == Some(false),
        without_start(events),
    ensures
        nests_turns(run.fail(events, results, error, observed), true),
        nests_messages(run.fail(events, results, error, observed), false),
{
    broadcast use {lemma_turns_push, lemma_messages_push};

}

proof fn lemma_aborting_nests(
    run: RunView,
    partial: Option<AssistantMessageView>,
    shown: bool,
    observed: Observed,
)
    requires
        !run.first_turn,
    ensures
        nests_turns(run.abort_answer(partial, shown, observed), true),
        nests_messages(run.abort_answer(partial, shown, observed), shown),
{
    lemma_concluding_nests(
        run,
        AssistantMessageView::aborted(run.config.model.deep_view(), partial, observed.now),
        shown,
    );
}

proof fn lemma_event_nests(
    run: RunView,
    partial: Option<AssistantMessageView>,
    shown: bool,
    event: StreamEventView,
    observed: Observed,
)
    requires
        !run.first_turn,
    ensures
        nests_turns(run.followed(partial, shown, event, observed), true),
        !(event is Start && shown) ==> nests_messages(
            run.followed(partial, shown, event, observed),
            shown,
        ),
{
    broadcast use {lemma_turns_push, lemma_messages_push};

    match event {
        StreamEventView::Start { partial: first } => {
            lemma_aborting_nests(run, Some(first), shown, observed);
            let started = AgentEventView::MessageStart {
                message: AgentMessageView::Assistant(first),
            };
            lemma_written_out(started, started, started);
        },
        StreamEventView::Done { message } => {
            lemma_concluding_nests(run, message.normalized(), shown);
        },
        StreamEventView::Error { message } => {
            lemma_concluding_nests(run, message.as_stream_error().normalized(), shown);
        },
        _ => {
            let current = event.partial_for_update()->Some_0;
            lemma_aborting_nests(run, Some(current), shown, observed);
            let updated = AgentEventView::MessageUpdate {
                message: AgentMessageView::Assistant(current),
                stream_event: event,
            };
            lemma_written_out(updated, updated, updated);
        },
    }
}

proof fn lemma_step_nests(
    run: RunView,
    reply: ReplyView,
    observed: Observed,
    complaint: Seq<char>,
)
    requires
        run.accepts(reply),
        run.marks_first_turn(),
    ensures
        nests_turns(run.step(reply, observed, complaint), run.in_turn()),
        run.is_tidy(reply) ==> nests_messages(run.step(reply, observed, complaint), run.shows_partial()),
{
    let idle = run.idle();
    match run.phase {
        PhaseView::Steering { .. } => {
            reveal(RunView::steered);
            lemma_turn_nests(idle, reply.messages(), observed);
        },
        PhaseView::FollowUp => {
            reveal(RunView::followed_up);
            lemma_turn_nests(idle, reply.messages(), observed);
            lemma_finishing_nests(idle);
        },
        PhaseView::Transform => {
            reveal(RunView::transformed);
        },
        PhaseView::Convert => {
            reveal(RunView::converted);
        },
        PhaseView::ApiKey { .. } => {
            reveal(RunView::key_resolved);
        },
        PhaseView::Open => {
            reveal(RunView::opened);
            lemma_aborting_nests(idle, None, false, observed);
            if let OpeningView::Failed(error) = reply->Opened_0 {
                lemma_failing_nests(idle, Seq::empty(), Seq::empty(), error, observed);
            }
        },
        PhaseView::Stream { partial, shown } => {
            reveal(RunView::streamed);
            match reply->Streamed_0 {
                StreamPollView::Event(event) => {
                    lemma_event_nests(idle, partial, shown, event, observed);
                },
                StreamPollView::Failed(error) => {
                    lemma_aborting_nests(idle, partial, shown, observed);
                    lemma_failing_nests(idle, Seq::empty(), Seq::empty(), error, observed);
                },
                StreamPollView::Ended => {
                    lemma_concluding_nests(
                        idle,
                        AssistantMessageView::error(
                            run.config.model.deep_view(),
                            "Stream ended without terminal event"@,
                            observed.now,
                        ),
                        shown,
                    );
                },
                StreamPollView::Cancelled => {
                    lemma_aborting_nests(idle, partial, shown, observed);
                },
            }
        },
        PhaseView::Tools { batch } => {
            lemma_tools_nest(idle, batch, reply, observed, complaint);
        },
        PhaseView::Finished => {},
    }
}

proof fn lemma_finishing_nests(run: RunView)
    requires
        !run.first_turn,
    ensures
        nests_turns(run.finish(Seq::empty(), LoopExitView::Completed), false),
        nests_messages(run.finish(Seq::empty(), LoopExitView::Completed), false),
{
    broadcast use {lemma_turns_push, lemma_messages_push};

}

// ---- Tool calls ----

/// Whether turns and messages still nest after a step of tool calls.
spec fn nests(p: ProgressView) -> bool {
    nests_turns(p, true) && nests_messages(p, false)
}

proof fn lemma_settling_nests(run: RunView, batch: ToolBatchView, observed: Observed)
    requires
        !run.first_turn,
    ensures
        nests(run.settle(batch, observed)),
{
    broadcast use {lemma_turns_push, lemma_messages_push};

    reveal(RunView::settle);
    let ended = AgentEventView::TurnEnd {
        message: AgentMessageView::Assistant(batch.message),
        tool_results: batch.results,
    };
    lemma_written_out(ended, ended, ended);
}

proof fn lemma_slots_nest(run: RunView, batch: ToolBatchView, events: Seq<AgentEventView>)
    requires
        !run.first_turn,
        turns_after(true, events) == Some(true),
        messages_after(false, events) == Some(false),
        without_start(events),
    ensures
        nests(run.close_slots(batch, events)),
{
    broadcast use {lemma_turns_push, lemma_messages_push};

}

proof fn lemma_spawning_nests(run: RunView, batch: ToolBatchView, from: nat, observed: Observed)
    requires
        !run.first_turn,
    ensures
        nests(run.spawn_from(batch, from, observed)),
{
    lemma_slots_nest(run, ToolBatchView { cursor: 0, ..batch }, Seq::empty());
}

proof fn lemma_gate_nests(run: RunView, batch: ToolBatchView, observed: Observed)
    requires
        !run.first_turn,
    ensures
        nests(run.tool_gate(batch, observed)),
{
    broadcast use {lemma_turns_push, lemma_messages_push};

    reveal(RunView::tool_gate);
    lemma_settling_nests(run, batch, observed);
    lemma_spawning_nests(run, batch, 0, observed);
    let announced = batch.call().start_event();
    lemma_written_out(announced, announced, announced);
}

proof fn lemma_refusing_nests(
    run: RunView,
    batch: ToolBatchView,
    result: AgentToolResultView,
    stop: bool,
    observed: Observed,
)
    requires
        !run.first_turn,
    ensures
        nests(run.refuse_call(batch, result, stop, observed)),
{
    broadcast use {lemma_turns_push, lemma_messages_push};

    let next = batch.with_slot(ToolSlotView::Closed { result, is_error: true });
    lemma_spawning_nests(run, next, 0, observed);
    lemma_gate_nests(run, next, observed);
}

proof fn lemma_running_nests(
    run: RunView,
    batch: ToolBatchView,
    handle: HookId,
    args: Value,
    observed: Observed,
)
    requires
        !run.first_turn,
    ensures
        nests(run.run_call(batch, handle, args, observed)),
{
    lemma_refusing_nests(run, batch, aborted_result(), true, observed);
    lemma_gate_nests(
        run,
        batch.with_slot(ToolSlotView::Runnable { tool: handle, args }),
        observed,
    );
}

proof fn lemma_tools_nest(
    run: RunView,
    batch: ToolBatchView,
    reply: ReplyView,
    observed: Observed,
    complaint: Seq<char>,
)
    requires
        !run.first_turn,
    ensures
        nests(run.tool_step(batch, reply, observed, complaint)),
{
    broadcast use {lemma_turns_push, lemma_messages_push};

    let rest = batch.at(ToolStageView::Done);
    match batch.stage {
        ToolStageView::Gate => {
            lemma_gate_nests(run, rest, observed);
        },
        ToolStageView::Started => {
            reveal(RunView::tool_started);
            lemma_refusing_nests(run, rest, aborted_result(), true, observed);
            lemma_refusing_nests(
                run,
                rest,
                AgentToolResultView::error("Tool "@ + rest.call().name + " not found"@),
                false,
                observed,
            );
        },
        ToolStageView::Preparing { tool } => {
            reveal(RunView::tool_prepared);
            match verdict(tool, reply->Arguments_0, complaint) {
                Err(message) => {
                    lemma_refusing_nests(
                        run,
                        rest,
                        AgentToolResultView::error(message),
                        false,
                        observed,
                    );
                },
                Ok(args) => {
                    lemma_running_nests(run, rest, tool.handle, args, observed);
                },
            }
        },
        ToolStageView::Asking { handle } => {
            reveal(RunView::tool_asked);
            lemma_running_nests(run, rest, handle, reply->args, observed);
            if let Some(reason) = hook_refusal(reply->result) {
                lemma_refusing_nests(
                    run,
                    rest,
                    AgentToolResultView::error(reason),
                    false,
                    observed,
                );
            }
        },
        ToolStageView::Executing { .. } => {
            reveal(RunView::tool_executed);
        },
        ToolStageView::Spawning => {
            reveal(RunView::tool_spawned);
            lemma_spawning_nests(
                run,
                ToolBatchView { spawned: rest.cursor + 1, ..rest },
                rest.cursor + 1,
                observed,
            );
        },
        ToolStageView::Joining => {
            reveal(RunView::tool_joined);
            reveal(RunView::tool_executed);
            if let JoinView::Broken(text) = reply->Joined_0 {
                let results = rest.final_results(observed.now);
                lemma_refused_nest(rest, rest.cursor + 1, rest.slots.len(), observed.now);
                lemma_failing_nests(
                    run.with_messages(result_entries(results)),
                    rest.late_events(observed.now),
                    results,
                    AgentErrorView::JoinError(text),
                    observed,
                );
            }
        },
        ToolStageView::Finalizing { .. } => {
            reveal(RunView::tool_finalized);
        },
        ToolStageView::Ending { result, is_error, .. } => {
            reveal(RunView::tool_ended);
            let message = rest.call().result_message(result, is_error, observed.now);
            let entry = AgentMessageView::ToolResult(message);
            let started = AgentEventView::MessageStart { message: entry };
            let ended = AgentEventView::MessageEnd { message: entry };
            lemma_written_out(started, ended, ended);
            lemma_slots_nest(
                run,
                ToolBatchView {
                    results: rest.results.push(message),
                    cursor: rest.cursor + 1,
                    ..rest
                },
                seq![started, ended],
            );
        },
        ToolStageView::Done => {
            lemma_settling_nests(run, rest, observed);
        },
    }
}

} // verus!
