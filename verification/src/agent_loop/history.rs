//! Whole runs: what the events of a run say together, from its start on.

use crate::agent_loop::protocol::{
    ExecutionView, Observed, OpeningView, ReplyView, RequestView, StreamPollView,
};
use crate::agent_loop::state::{
    PhaseView, ProgressView, RunView, ToolBatchView, ToolSlotView, ToolStageView,
};
use crate::agent_loop::stream_response::with_last;
use crate::agent_loop::tool_calls::{
    aborted_result, hook_refusal, next_runnable, result_entries, tool_named,
};
use crate::agent_loop::turn::{shown_messages, LoopExitView};
use crate::types::config::{AgentLoopConfig, HookId};
use crate::types::content::ToolCallContentView;
use crate::types::error::AgentErrorView;
use crate::types::event::AgentEventView;
use crate::types::message::{AgentMessageView, AssistantMessageView, ToolResultMessageView};
use crate::types::model::StopReason;
use crate::types::stream::StreamEventView;
use crate::types::tool::{
    AfterToolCallResultView, AgentContextView, AgentToolResultView, AgentToolView,
    BeforeToolCallResultView,
};
use crate::validate::verdict;
use serde_json::Value;
use tokio_util::sync::CancellationToken;
use vstd::prelude::*;

verus! {

// ---- What events tell ----

/// A tool call, by its id and the tool's name.
pub struct CallKey {
    pub id: Seq<char>,
    pub name: Seq<char>,
}

impl ToolCallContentView {
    pub open spec fn key(self) -> CallKey {
        CallKey { id: self.id, name: self.name }
    }
}

impl AgentEventView {
    /// The message that the event completes, if it does.
    pub open spec fn completed_message(self) -> Option<AgentMessageView> {
        match self {
            AgentEventView::MessageEnd { message } => Some(message),
            _ => None,
        }
    }

    /// The tool call that the event announces, if it does.
    pub open spec fn announced_call(self) -> Option<CallKey> {
        match self {
            AgentEventView::ToolExecutionStart { tool_call_id, tool_name, .. } => Some(
                CallKey { id: tool_call_id, name: tool_name },
            ),
            _ => None,
        }
    }

    /// The tool call that the event closes, if it does.
    pub open spec fn closed_call(self) -> Option<CallKey> {
        match self {
            AgentEventView::ToolExecutionEnd { tool_call_id, tool_name, .. } => Some(
                CallKey { id: tool_call_id, name: tool_name },
            ),
            _ => None,
        }
    }

    /// Whether the results that the end of a turn tells of answer the first tool calls of the
    /// model's message, in the order in which it asks; where the turn ends on a message that
    /// tells of a failure, the calls are those of the message before it.
    pub open spec fn answers_in_order(self) -> bool {
        match self {
            AgentEventView::TurnEnd { message: AgentMessageView::Assistant(message), tool_results } => {
                ||| message.stop_reason == StopReason::Error
                ||| result_keys(tool_results).is_prefix_of(call_keys(message.tool_calls()))
            },
            _ => true,
        }
    }

    /// Whether the end of a turn tells of a result for every tool call of the model's message,
    /// unless that message ends the run.
    pub open spec fn answers_all(self) -> bool {
        match self {
            AgentEventView::TurnEnd { message: AgentMessageView::Assistant(message), tool_results } => {
                ||| message.stop_reason == StopReason::Error
                ||| message.stop_reason == StopReason::Aborted
                ||| tool_results.len() == message.tool_calls().len()
            },
            _ => true,
        }
    }

    pub open spec fn is_ordinary(self) -> bool {
        !self.is_terminal() && self.answers_in_order()
    }
}

/// The messages that events complete.
pub open spec fn completed_messages(events: Seq<AgentEventView>) -> Seq<AgentMessageView> {
    events.filter_map(|e: AgentEventView| e.completed_message())
}

/// The tool calls that events announce.
pub open spec fn announced_calls(events: Seq<AgentEventView>) -> Seq<CallKey> {
    events.filter_map(|e: AgentEventView| e.announced_call())
}

/// The tool calls that events close.
pub open spec fn closed_calls(events: Seq<AgentEventView>) -> Seq<CallKey> {
    events.filter_map(|e: AgentEventView| e.closed_call())
}

/// Whether no event ends a run, and the results of every turn answer its tool calls in order.
pub open spec fn ordinary(events: Seq<AgentEventView>) -> bool {
    forall|i: int| 0 <= i < events.len() ==> (#[trigger] events[i]).is_ordinary()
}

/// Whether no event announces or closes a tool call.
pub open spec fn without_calls(events: Seq<AgentEventView>) -> bool {
    announced_calls(events).len() == 0 && closed_calls(events).len() == 0
}

// ---- What a state tells ----

impl ToolBatchView {
    /// How many calls were announced.
    pub open spec fn announced(self, sequential: bool) -> nat {
        match self.stage {
            ToolStageView::Gate => self.cursor,
            ToolStageView::Started
            | ToolStageView::Preparing { .. }
            | ToolStageView::Asking { .. }
            | ToolStageView::Executing { .. } => self.cursor + 1,
            ToolStageView::Spawning | ToolStageView::Joining => self.slots.len(),
            ToolStageView::Finalizing { .. } | ToolStageView::Ending { .. } => if sequential {
                self.cursor + 1
            } else {
                self.slots.len()
            },
            ToolStageView::Done => self.cursor,
        }
    }

    /// How many calls were closed.
    pub open spec fn closed(self, sequential: bool) -> nat {
        match self.stage {
            ToolStageView::Gate
            | ToolStageView::Started
            | ToolStageView::Preparing { .. }
            | ToolStageView::Asking { .. } => if sequential {
                self.cursor
            } else {
                0
            },
            ToolStageView::Spawning => 0,
            ToolStageView::Executing { .. }
            | ToolStageView::Joining
            | ToolStageView::Finalizing { .. }
            | ToolStageView::Done => self.cursor,
            ToolStageView::Ending { .. } => self.cursor + 1,
        }
    }

    /// How many results the batch has: one for each closed call whose end was delivered.
    pub open spec fn answered(self, sequential: bool) -> nat {
        if self.stage is Ending {
            self.cursor
        } else {
            self.closed(sequential)
        }
    }

    /// The announced calls that are not closed yet.
    pub open spec fn open_calls(self, sequential: bool) -> Seq<CallKey> {
        call_keys(self.calls).subrange(
            self.closed(sequential) as int,
            self.announced(sequential) as int,
        )
    }

    /// Whether the results answer the first calls, in order.
    pub open spec fn in_order(self, sequential: bool) -> bool {
        &&& self.wf(sequential)
        &&& self.cursor <= self.calls.len()
        &&& self.calls == self.message.tool_calls()
        &&& self.results.len() == self.answered(sequential)
        &&& (self.stage is Done && !sequential) ==> self.cursor == self.slots.len()
        &&& result_keys(self.results).is_prefix_of(call_keys(self.calls))
    }
}

impl ToolResultMessageView {
    /// The tool call that the result answers.
    pub open spec fn key(self) -> CallKey {
        CallKey { id: self.tool_call_id, name: self.tool_name }
    }
}

/// The tool calls that results answer.
pub open spec fn result_keys(results: Seq<ToolResultMessageView>) -> Seq<CallKey> {
    results.map_values(|r: ToolResultMessageView| r.key())
}

/// The keys of tool calls.
pub open spec fn call_keys(calls: Seq<ToolCallContentView>) -> Seq<CallKey> {
    calls.map_values(|c: ToolCallContentView| c.key())
}

impl RunView {
    /// Whether a run's state is one that a run reaches: results of tools answer the calls in
    /// order.
    pub open spec fn in_order(self) -> bool {
        self.phase matches PhaseView::Tools { batch } ==> batch.in_order(self.sequential())
    }

    /// The announced tool calls that are not closed yet.
    pub open spec fn open_calls(self) -> Seq<CallKey> {
        match self.phase {
            PhaseView::Tools { batch } => batch.open_calls(self.sequential()),
            _ => Seq::empty(),
        }
    }

    /// The messages that the run has completed: those that it added, and the results of tools
    /// in the turn under way.
    pub open spec fn entered(self) -> Seq<AgentMessageView> {
        match self.phase {
            PhaseView::Tools { batch } => self.new_messages + result_entries(batch.results),
            _ => self.new_messages,
        }
    }

    /// Whether what a run is made with stands as it stood before.
    pub open spec fn same_setup(self, before: RunView) -> bool {
        &&& self.config == before.config
        &&& self.cancel == before.cancel
        &&& self.context.system_prompt == before.context.system_prompt
        &&& self.context.tools == before.context.tools
    }
}

impl RequestView {
    /// Whether an answer of this kind answers the request.
    pub open spec fn calls_for(self, reply: ReplyView) -> bool {
        match self {
            RequestView::Checkpoint | RequestView::SpawnTool { .. } => reply is Done,
            RequestView::PollSteering { .. }
            | RequestView::PollFollowUp { .. }
            | RequestView::TransformContext { .. } => reply is Messages,
            RequestView::ConvertToLlm { .. } => reply is LlmMessages,
            RequestView::ResolveApiKey { .. } => reply is ApiKey,
            RequestView::OpenStream { .. } => reply is Opened,
            RequestView::NextStreamEvent => reply is Streamed,
            RequestView::PrepareArguments { .. } => reply is Arguments,
            RequestView::BeforeToolCall { .. } => reply is Before,
            RequestView::ExecuteTool { .. } => reply is Executed,
            RequestView::JoinTool { .. } => reply is Joined,
            RequestView::AfterToolCall { .. } => reply is After,
            RequestView::Finish { .. } => false,
        }
    }
}

impl ProgressView {
    /// Whether the events end the run exactly where it is over: by one terminal event, the last,
    /// that tells of the outcome.
    pub open spec fn ends_properly(self) -> bool {
        &&& self.run.phase is Finished <==> self.request is Finish
        &&& match self.request {
            RequestView::Finish { outcome } => {
                &&& self.events.len() > 0
                &&& self.events.last() == outcome.terminal_event()
                &&& ordinary(self.events.drop_last())
                &&& outcome.new_messages() == self.run.new_messages
            },
            _ => ordinary(self.events),
        }
    }

    /// Whether the run waits for exactly the answers that its request calls for.
    pub open spec fn asks_properly(self) -> bool {
        &&& forall|reply: ReplyView| #[trigger]
            self.run.accepts(reply) == self.request.calls_for(reply)
        &&& self.request is PollSteering ==> self.run.phase is Steering
        &&& self.request is PollFollowUp ==> self.run.phase is FollowUp
    }

    /// Whether the step follows on a run with the given setup and completed messages.
    pub open spec fn continues(self, before: RunView, entered: Seq<AgentMessageView>) -> bool {
        &&& self.ends_properly()
        &&& self.asks_properly()
        &&& self.run.wf()
        &&& self.run.in_order()
        &&& self.run.same_setup(before)
        &&& entered + completed_messages(self.events) == self.run.entered()
    }

    /// Whether the step follows on a run with the given setup, open calls and completed
    /// messages.
    pub open spec fn follows(
        self,
        before: RunView,
        open: Seq<CallKey>,
        entered: Seq<AgentMessageView>,
    ) -> bool {
        &&& self.continues(before, entered)
        &&& open + announced_calls(self.events) == closed_calls(self.events)
            + self.run.open_calls()
        &&& announced_calls(self.events).len() + closed_calls(self.events).len() <= 1
    }
}

// ---- Sequences of events ----

/// Mapping and filtering a sequence with one more element.
proof fn lemma_filter_map_push<A, B>(s: Seq<A>, x: A, f: spec_fn(A) -> Option<B>)
    ensures
        s.push(x).filter_map(f) == (match f(x) {
            Some(y) => s.filter_map(f).push(y),
            None => s.filter_map(f),
        }),
{
    assert(s.push(x).drop_last() =~= s);
    assert(s.push(x).last() == x);
    if let Some(y) = f(x) {
        assert(s.filter_map(f) + seq![y] =~= s.filter_map(f).push(y));
    }
}

/// Mapping and filtering two sequences one behind the other.
proof fn lemma_filter_map_add<A, B>(s: Seq<A>, t: Seq<A>, f: spec_fn(A) -> Option<B>)
    ensures
        (s + t).filter_map(f) == s.filter_map(f) + t.filter_map(f),
    decreases t.len(),
{
    if t.len() == 0 {
        assert(s + t =~= s);
        assert(s.filter_map(f) + t.filter_map(f) =~= s.filter_map(f));
    } else {
        let rest = t.drop_last();
        let x = t.last();
        lemma_filter_map_add(s, rest, f);
        assert(s + t =~= (s + rest).push(x));
        assert(t =~= rest.push(x));
        lemma_filter_map_push(s + rest, x, f);
        lemma_filter_map_push(rest, x, f);
        if let Some(y) = f(x) {
            assert((s.filter_map(f) + rest.filter_map(f)).push(y) =~= s.filter_map(f)
                + rest.filter_map(f).push(y));
        }
    }
}

/// What events tell, with one more event.
pub broadcast proof fn lemma_push_event(events: Seq<AgentEventView>, event: AgentEventView)
    ensures
        #![trigger events.push(event)]
        completed_messages(events.push(event)) == (match event.completed_message() {
            Some(message) => completed_messages(events).push(message),
            None => completed_messages(events),
        }),
        announced_calls(events.push(event)) == (match event.announced_call() {
            Some(call) => announced_calls(events).push(call),
            None => announced_calls(events),
        }),
        closed_calls(events.push(event)) == (match event.closed_call() {
            Some(call) => closed_calls(events).push(call),
            None => closed_calls(events),
        }),
        ordinary(events.push(event)) == (ordinary(events) && event.is_ordinary()),
{
    lemma_filter_map_push(events, event, |e: AgentEventView| e.completed_message());
    lemma_filter_map_push(events, event, |e: AgentEventView| e.announced_call());
    lemma_filter_map_push(events, event, |e: AgentEventView| e.closed_call());
    let all = events.push(event);
    if ordinary(all) {
        assert forall|i: int| 0 <= i < events.len() implies (#[trigger] events[i]).is_ordinary() by {
            assert(all[i] == events[i]);
        }
        assert(all[events.len() as int].is_ordinary());
    }
}

/// What two runs of events tell, one behind the other.
pub proof fn lemma_add_events(a: Seq<AgentEventView>, b: Seq<AgentEventView>)
    ensures
        completed_messages(a + b) == completed_messages(a) + completed_messages(b),
        announced_calls(a + b) == announced_calls(a) + announced_calls(b),
        closed_calls(a + b) == closed_calls(a) + closed_calls(b),
        ordinary(a + b) == (ordinary(a) && ordinary(b)),
{
    lemma_filter_map_add(a, b, |e: AgentEventView| e.completed_message());
    lemma_filter_map_add(a, b, |e: AgentEventView| e.announced_call());
    lemma_filter_map_add(a, b, |e: AgentEventView| e.closed_call());
    if ordinary(a + b) {
        assert forall|i: int| 0 <= i < a.len() implies (#[trigger] a[i]).is_ordinary() by {
            assert((a + b)[i] == a[i]);
        }
        assert forall|i: int| 0 <= i < b.len() implies (#[trigger] b[i]).is_ordinary() by {
            assert((a + b)[a.len() + i] == b[i]);
        }
    }
}

/// No events tell nothing.
pub broadcast proof fn lemma_no_events(events: Seq<AgentEventView>)
    requires
        events.len() == 0,
    ensures
        #![trigger completed_messages(events)]
        #![trigger announced_calls(events)]
        #![trigger closed_calls(events)]
        completed_messages(events) == Seq::<AgentMessageView>::empty(),
        announced_calls(events) == Seq::<CallKey>::empty(),
        closed_calls(events) == Seq::<CallKey>::empty(),
{
}

/// The events that show messages complete exactly these.
pub proof fn lemma_shown_messages(messages: Seq<AgentMessageView>)
    ensures
        completed_messages(shown_messages(messages)) == messages,
        announced_calls(shown_messages(messages)) == Seq::<CallKey>::empty(),
        closed_calls(shown_messages(messages)) == Seq::<CallKey>::empty(),
        ordinary(shown_messages(messages)),
    decreases messages.len(),
{
    broadcast use {lemma_push_event, lemma_no_events};

    if messages.len() > 0 {
        lemma_shown_messages(messages.drop_last());
        assert(messages =~= messages.drop_last().push(messages.last()));
    }
}

// ---- The loop over turns ----

proof fn lemma_finish(
    run: RunView,
    events: Seq<AgentEventView>,
    exit: LoopExitView,
    before: RunView,
    open: Seq<CallKey>,
    entered: Seq<AgentMessageView>,
)
    requires
        ordinary(events),
        without_calls(events),
        run.same_setup(before),
        open + announced_calls(events) == closed_calls(events),
        entered + completed_messages(events) == run.new_messages,
    ensures
        run.finish(events, exit).follows(before, open, entered),
{
    lemma_finish_continues(run, events, exit, before, entered);
    assert(closed_calls(events) + Seq::<CallKey>::empty() =~= closed_calls(events));
}

/// A run that ends, whatever tool calls the events tell of.
proof fn lemma_finish_continues(
    run: RunView,
    events: Seq<AgentEventView>,
    exit: LoopExitView,
    before: RunView,
    entered: Seq<AgentMessageView>,
)
    requires
        ordinary(events),
        run.same_setup(before),
        entered + completed_messages(events) == run.new_messages,
    ensures
        run.finish(events, exit).continues(before, entered),
        announced_calls(run.finish(events, exit).events) == announced_calls(events),
        closed_calls(run.finish(events, exit).events) == closed_calls(events),
{
    broadcast use {lemma_push_event, lemma_no_events};

    let p = run.finish(events, exit);
    assert(p.events.drop_last() =~= events);
}

proof fn lemma_poll_steering(
    run: RunView,
    after_tools: bool,
    events: Seq<AgentEventView>,
    before: RunView,
    open: Seq<CallKey>,
    entered: Seq<AgentMessageView>,
)
    requires
        ordinary(events),
        without_calls(events),
        run.same_setup(before),
        open + announced_calls(events) == closed_calls(events),
        entered + completed_messages(events) == run.new_messages,
    ensures
        run.poll_steering(after_tools, events).follows(before, open, entered),
{
    assert(closed_calls(events) + Seq::<CallKey>::empty() =~= closed_calls(events));
}

proof fn lemma_fail(run: RunView, error: AgentErrorView, observed: Observed, before: RunView)
    requires
        run.same_setup(before),
    ensures
        run.fail(Seq::empty(), Seq::empty(), error, observed).follows(
            before,
            Seq::empty(),
            run.new_messages,
        ),
{
    broadcast use {lemma_push_event, lemma_no_events};

    let none = Seq::<AgentEventView>::empty();
    assert(run.new_messages + completed_messages(none) =~= run.new_messages);
    lemma_fail_continues(run, none, Seq::empty(), error, observed, before, run.new_messages);
    let p = run.fail(none, Seq::empty(), error, observed);
    assert(Seq::<CallKey>::empty() + announced_calls(p.events) =~= closed_calls(p.events)
        + Seq::<CallKey>::empty());
}

/// A run that fails, whatever tool calls the events before tell of.
proof fn lemma_fail_continues(
    run: RunView,
    events: Seq<AgentEventView>,
    results: Seq<ToolResultMessageView>,
    error: AgentErrorView,
    observed: Observed,
    before: RunView,
    entered: Seq<AgentMessageView>,
)
    requires
        ordinary(events),
        run.same_setup(before),
        entered + completed_messages(events) == run.new_messages,
    ensures
        run.fail(events, results, error, observed).continues(before, entered),
        announced_calls(run.fail(events, results, error, observed).events) == announced_calls(
            events,
        ),
        closed_calls(run.fail(events, results, error, observed).events) == closed_calls(events),
{
    broadcast use {lemma_push_event, lemma_no_events};

    let message = AgentMessageView::Assistant(
        AssistantMessageView::error(run.config.model.deep_view(), error.text(), observed.now),
    );
    let told = events.push(AgentEventView::MessageStart { message }).push(
        AgentEventView::MessageEnd { message },
    ).push(AgentEventView::TurnEnd { message, tool_results: results });
    assert(completed_messages(told) == completed_messages(events).push(message));
    assert(entered + completed_messages(events).push(message) =~= run.new_messages
        + seq![message]);
    lemma_finish_continues(
        run.with_message(message),
        told,
        LoopExitView::Failed(error),
        before,
        entered,
    );
}

/// What the closing of refused calls tells.
pub proof fn lemma_refused_events(batch: ToolBatchView, from: nat, to: nat, now: i64)
    ensures
        completed_messages(batch.refused_events(from, to, now)) == result_entries(
            batch.refused_results(from, to, now),
        ),
        announced_calls(batch.refused_events(from, to, now)) == Seq::<CallKey>::empty(),
        closed_calls(batch.refused_events(from, to, now)) == result_keys(
            batch.refused_results(from, to, now),
        ),
        ordinary(batch.refused_events(from, to, now)),
    decreases to,
{
    broadcast use {lemma_push_event, lemma_no_events};

    let results = batch.refused_results(from, to, now);
    if to <= from {
        assert(result_entries(results) =~= Seq::<AgentMessageView>::empty());
        assert(result_keys(results) =~= Seq::<CallKey>::empty());
    } else {
        lemma_refused_events(batch, from, (to - 1) as nat, now);
        let earlier = batch.refused_results(from, (to - 1) as nat, now);
        if let ToolSlotView::Closed { result, is_error } = batch.slots[to - 1] {
            let message = batch.calls[to - 1].result_message(result, is_error, now);
            assert(result_entries(results) =~= result_entries(earlier).push(
                AgentMessageView::ToolResult(message),
            ));
            assert(result_keys(results) =~= result_keys(earlier).push(message.key()));
        }
    }
}

proof fn lemma_begin_turn(
    run: RunView,
    pending: Seq<AgentMessageView>,
    observed: Observed,
    before: RunView,
)
    requires
        run.same_setup(before),
    ensures
        run.begin_turn(pending, observed).follows(before, Seq::empty(), run.new_messages),
{
    broadcast use {lemma_push_event, lemma_no_events};

    let none = Seq::<AgentEventView>::empty();
    assert(Seq::<CallKey>::empty() + announced_calls(none) =~= closed_calls(none));
    assert(run.new_messages + completed_messages(none) =~= run.new_messages);
    if observed.cancelled {
        lemma_finish(run, none, LoopExitView::Aborted, before, Seq::empty(), run.new_messages);
    } else {
        let opening = if run.first_turn {
            none
        } else {
            seq![AgentEventView::TurnStart]
        };
        lemma_shown_messages(pending);
        lemma_add_events(opening, shown_messages(pending));
        let events = opening + shown_messages(pending);
        assert(completed_messages(events) =~= pending);
        assert(Seq::<CallKey>::empty() + announced_calls(events) =~= closed_calls(events)
            + Seq::<CallKey>::empty());
    }
}

proof fn lemma_steered(
    run: RunView,
    after_tools: bool,
    messages: Seq<AgentMessageView>,
    observed: Observed,
)
    ensures
        run.steered(after_tools, messages, observed).follows(
            run,
            Seq::empty(),
            run.new_messages,
        ),
{
    broadcast use {lemma_push_event, lemma_no_events};

    reveal(RunView::steered);
    if after_tools || messages.len() > 0 {
        lemma_begin_turn(run, messages, observed, run);
    } else {
        let none = Seq::<AgentEventView>::empty();
        assert(Seq::<CallKey>::empty() + announced_calls(none) =~= closed_calls(none)
            + Seq::<CallKey>::empty());
        assert(run.new_messages + completed_messages(none) =~= run.new_messages);
    }
}

proof fn lemma_followed_up(run: RunView, messages: Seq<AgentMessageView>, observed: Observed)
    ensures
        run.followed_up(messages, observed).follows(run, Seq::empty(), run.new_messages),
{
    broadcast use {lemma_push_event, lemma_no_events};

    reveal(RunView::followed_up);
    if messages.len() > 0 {
        lemma_begin_turn(run, messages, observed, run);
    } else {
        let none = Seq::<AgentEventView>::empty();
        assert(Seq::<CallKey>::empty() + announced_calls(none) =~= closed_calls(none));
        assert(run.new_messages + completed_messages(none) =~= run.new_messages);
        lemma_finish(run, none, LoopExitView::Completed, run, Seq::empty(), run.new_messages);
    }
}

// ---- One answer of the model ----

/// A step that hands out no events, keeps what the run added, and opens no tool call.
proof fn lemma_silent(run: RunView, p: ProgressView)
    requires
        p.events.len() == 0,
        p.run.same_setup(run),
        p.run.new_messages == run.new_messages,
        !(p.run.phase is Tools),
        !(p.run.phase is Finished),
        !(p.request is Finish),
        p.asks_properly(),
    ensures
        p.follows(run, Seq::empty(), run.new_messages),
{
    broadcast use lemma_no_events;

    assert(Seq::<CallKey>::empty() + announced_calls(p.events) =~= closed_calls(p.events)
        + p.run.open_calls());
    assert(run.new_messages + completed_messages(p.events) =~= run.new_messages);
}

/// A step that hands out one event which neither completes a message nor tells of a tool call.
proof fn lemma_one_event(run: RunView, p: ProgressView, event: AgentEventView)
    requires
        p.events == seq![event],
        event.completed_message() is None,
        event.announced_call() is None,
        event.closed_call() is None,
        event.is_ordinary(),
        p.run.same_setup(run),
        p.run.new_messages == run.new_messages,
        !(p.run.phase is Tools),
        !(p.run.phase is Finished),
        !(p.request is Finish),
        p.asks_properly(),
    ensures
        p.follows(run, Seq::empty(), run.new_messages),
{
    broadcast use {lemma_push_event, lemma_no_events};

    assert(Seq::<CallKey>::empty() + announced_calls(p.events) =~= closed_calls(p.events)
        + p.run.open_calls());
    assert(run.new_messages + completed_messages(p.events) =~= run.new_messages);
}

proof fn lemma_conclude(run: RunView, message: AssistantMessageView, shown: bool)
    ensures
        run.conclude(message, shown).follows(run, Seq::empty(), run.new_messages),
{
    broadcast use {lemma_push_event, lemma_no_events};

    let entry = AgentMessageView::Assistant(message);
    let done = RunView {
        new_messages: run.new_messages.push(entry),
        ..run.with_context(
            if shown {
                with_last(run.context.messages, entry)
            } else {
                run.context.messages.push(entry)
            },
        )
    };
    let closing = if shown {
        seq![AgentEventView::MessageEnd { message: entry }]
    } else {
        seq![
            AgentEventView::MessageStart { message: entry },
            AgentEventView::MessageEnd { message: entry },
        ]
    };
    let turn_end = AgentEventView::TurnEnd { message: entry, tool_results: Seq::empty() };
    if !shown {
        assert(closing =~= seq![closing[0]].push(closing[1]));
    }
    assert(completed_messages(closing) =~= seq![entry]);
    assert(run.new_messages + completed_messages(closing) =~= done.new_messages);
    assert(Seq::<CallKey>::empty() + announced_calls(closing) =~= closed_calls(closing));
    let events = closing.push(turn_end);
    assert(completed_messages(events) == completed_messages(closing));
    assert(announced_calls(events) == announced_calls(closing));
    assert(closed_calls(events) == closed_calls(closing));
    let none = Seq::<CallKey>::empty();
    if message.stop_reason == StopReason::Error {
        lemma_finish(
            done,
            events,
            LoopExitView::Failed(message.failure()),
            run,
            none,
            run.new_messages,
        );
    } else if message.stop_reason == StopReason::Aborted {
        lemma_finish(done, events, LoopExitView::Aborted, run, none, run.new_messages);
    } else if message.tool_calls().len() == 0 {
        lemma_poll_steering(done, false, events, run, none, run.new_messages);
    } else {
        let p = run.conclude(message, shown);
        let batch = ToolBatchView::of(message);
        assert(result_keys(batch.results).is_prefix_of(call_keys(batch.calls)));
        assert(batch.in_order(run.sequential()));
        assert(p.run.open_calls() =~= none);
        assert(none + announced_calls(closing) =~= closed_calls(closing) + p.run.open_calls());
        assert(result_entries(batch.results) =~= Seq::<AgentMessageView>::empty());
        assert(p.run.entered() =~= done.new_messages);
    }
}

proof fn lemma_streamed(
    run: RunView,
    partial: Option<AssistantMessageView>,
    shown: bool,
    poll: StreamPollView,
    observed: Observed,
)
    ensures
        run.streamed(partial, shown, poll, observed).follows(
            run,
            Seq::empty(),
            run.new_messages,
        ),
{
    reveal(RunView::streamed);
    let model = run.config.model.deep_view();
    match poll {
        StreamPollView::Cancelled => {
            lemma_conclude(run, AssistantMessageView::aborted(model, partial, observed.now), shown);
        },
        StreamPollView::Ended => {
            lemma_conclude(
                run,
                AssistantMessageView::error(
                    model,
                    "Stream ended without terminal event"@,
                    observed.now,
                ),
                shown,
            );
        },
        StreamPollView::Failed(error) => {
            if error is Aborted {
                lemma_conclude(
                    run,
                    AssistantMessageView::aborted(model, partial, observed.now),
                    shown,
                );
            } else {
                lemma_fail(run, error, observed, run);
            }
        },
        StreamPollView::Event(event) => {
            lemma_event(run, partial, shown, event, observed);
        },
    }
}

proof fn lemma_event(
    run: RunView,
    partial: Option<AssistantMessageView>,
    shown: bool,
    event: StreamEventView,
    observed: Observed,
)
    ensures
        run.followed(partial, shown, event, observed).follows(
            run,
            Seq::empty(),
            run.new_messages,
        ),
{
    let model = run.config.model.deep_view();
    let p = run.followed(partial, shown, event, observed);
    match event {
        StreamEventView::Start { partial: first } => {
            if observed.cancelled {
                lemma_conclude(
                    run,
                    AssistantMessageView::aborted(model, Some(first), observed.now),
                    shown,
                );
            } else {
                lemma_one_event(
                    run,
                    p,
                    AgentEventView::MessageStart { message: AgentMessageView::Assistant(first) },
                );
            }
        },
        StreamEventView::Done { message } => {
            lemma_conclude(run, message.normalized(), shown);
        },
        StreamEventView::Error { message } => {
            lemma_conclude(run, message.as_stream_error().normalized(), shown);
        },
        _ => {
            let current = event.partial_for_update()->Some_0;
            if observed.cancelled {
                lemma_conclude(
                    run,
                    AssistantMessageView::aborted(model, Some(current), observed.now),
                    shown,
                );
            } else if !shown {
                lemma_silent(run, p);
            } else {
                lemma_one_event(
                    run,
                    p,
                    AgentEventView::MessageUpdate {
                        message: AgentMessageView::Assistant(current),
                        stream_event: event,
                    },
                );
            }
        },
    }
}

proof fn lemma_opened(run: RunView, opening: OpeningView, observed: Observed)
    ensures
        run.opened(opening, observed).follows(run, Seq::empty(), run.new_messages),
{
    reveal(RunView::opened);
    match opening {
        OpeningView::Opened => {
            lemma_silent(run, run.opened(opening, observed));
        },
        OpeningView::Failed(error) => {
            if error is Aborted {
                lemma_conclude(
                    run,
                    AssistantMessageView::aborted(
                        run.config.model.deep_view(),
                        None,
                        observed.now,
                    ),
                    false,
                );
            } else {
                lemma_fail(run, error, observed, run);
            }
        },
    }
}

// ---- Tool calls ----

/// The batch with the cursor and the results where they stand while calls are prepared.
spec fn preparing(batch: ToolBatchView, sequential: bool) -> bool {
    batch.at(ToolStageView::Gate).in_order(sequential)
}

proof fn lemma_end_call(
    run: RunView,
    batch: ToolBatchView,
    events: Seq<AgentEventView>,
    result: AgentToolResultView,
    is_error: bool,
    stop: bool,
    before: RunView,
    open: Seq<CallKey>,
    entered: Seq<AgentMessageView>,
)
    requires
        ordinary(events),
        without_calls(events),
        run.same_setup(before),
        ({
            let ended = batch.at(ToolStageView::Ending { result, is_error, stop });
            let keys = call_keys(batch.calls);
            &&& ended.in_order(run.sequential())
            &&& open + announced_calls(events) == closed_calls(events) + keys.subrange(
                batch.cursor as int,
                ended.announced(run.sequential()) as int,
            )
            &&& entered + completed_messages(events) == run.new_messages + result_entries(
                batch.results,
            )
        }),
    ensures
        run.end_call(batch, events, result, is_error, stop).follows(before, open, entered),
{
    broadcast use lemma_push_event;

    let p = run.end_call(batch, events, result, is_error, stop);
    let ended = batch.at(ToolStageView::Ending { result, is_error, stop });
    let keys = call_keys(batch.calls);
    let to = ended.announced(run.sequential()) as int;
    assert(keys[batch.cursor as int] == batch.call().key());
    assert(p.run.open_calls() == keys.subrange(batch.cursor as int + 1, to));
    assert(closed_calls(p.events) == closed_calls(events).push(batch.call().key()));
    assert(closed_calls(events) + keys.subrange(batch.cursor as int, to) =~= closed_calls(
        p.events,
    ) + p.run.open_calls());
}

proof fn lemma_close_slots(
    run: RunView,
    batch: ToolBatchView,
    events: Seq<AgentEventView>,
    before: RunView,
    open: Seq<CallKey>,
    entered: Seq<AgentMessageView>,
)
    requires
        ordinary(events),
        without_calls(events),
        run.same_setup(before),
        !run.sequential(),
        batch.slots.len() <= batch.calls.len(),
        batch.cursor <= batch.slots.len(),
        batch.results.len() == batch.cursor,
        batch.calls == batch.message.tool_calls(),
        result_keys(batch.results).is_prefix_of(call_keys(batch.calls)),
        open + announced_calls(events) == closed_calls(events) + call_keys(batch.calls).subrange(
            batch.cursor as int,
            batch.slots.len() as int,
        ),
        entered + completed_messages(events) == run.new_messages + result_entries(batch.results),
    ensures
        run.close_slots(batch, events).follows(before, open, entered),
{
    let p = run.close_slots(batch, events);
    if batch.cursor >= batch.slots.len() {
        assert(batch.at(ToolStageView::Done).in_order(false));
    } else {
        match batch.slots[batch.cursor as int] {
            ToolSlotView::Closed { result, is_error } => {
                lemma_end_call(run, batch, events, result, is_error, false, before, open, entered);
            },
            ToolSlotView::Runnable { .. } => {
                if batch.cursor < batch.spawned {
                    assert(batch.at(ToolStageView::Joining).in_order(false));
                } else {
                    lemma_end_call(
                        run,
                        batch,
                        events,
                        aborted_result(),
                        true,
                        false,
                        before,
                        open,
                        entered,
                    );
                }
            },
        }
    }
}

proof fn lemma_next_runnable(slots: Seq<ToolSlotView>, from: nat)
    ensures
        next_runnable(slots, from) <= slots.len(),
        next_runnable(slots, from) < slots.len() ==> slots[next_runnable(
            slots,
            from,
        ) as int] is Runnable,
    decreases slots.len() - from,
{
    if from < slots.len() && !(slots[from as int] is Runnable) {
        lemma_next_runnable(slots, from + 1);
    }
}

/// From the end of the preparation on, with every announced call open.
proof fn lemma_spawn_from(
    run: RunView,
    batch: ToolBatchView,
    from: nat,
    observed: Observed,
    before: RunView,
    entered: Seq<AgentMessageView>,
)
    requires
        run.same_setup(before),
        !run.sequential(),
        batch.slots.len() <= batch.calls.len(),
        batch.results.len() == 0,
        batch.calls == batch.message.tool_calls(),
        entered == run.new_messages,
    ensures
        run.spawn_from(batch, from, observed).follows(
            before,
            call_keys(batch.calls).subrange(0, batch.slots.len() as int),
            entered,
        ),
{
    broadcast use lemma_no_events;

    let none = Seq::<AgentEventView>::empty();
    let open = call_keys(batch.calls).subrange(0, batch.slots.len() as int);
    let slot = next_runnable(batch.slots, from);
    lemma_next_runnable(batch.slots, from);
    assert(result_entries(batch.results) =~= Seq::<AgentMessageView>::empty());
    assert(result_keys(batch.results).is_prefix_of(call_keys(batch.calls)));
    assert(open + announced_calls(none) =~= closed_calls(none) + open);
    assert(entered + completed_messages(none) =~= run.new_messages + result_entries(
        batch.results,
    ));
    if observed.cancelled || slot >= batch.slots.len() {
        lemma_close_slots(
            run,
            ToolBatchView { cursor: 0, ..batch },
            none,
            before,
            open,
            entered,
        );
    } else {
        let next = ToolBatchView { cursor: slot, stage: ToolStageView::Spawning, ..batch };
        assert(next.in_order(false));
    }
}

proof fn lemma_settle(
    run: RunView,
    batch: ToolBatchView,
    observed: Observed,
    before: RunView,
)
    requires
        run.same_setup(before),
        batch.calls == batch.message.tool_calls(),
        result_keys(batch.results).is_prefix_of(call_keys(batch.calls)),
    ensures
        run.settle(batch, observed).follows(
            before,
            Seq::empty(),
            run.new_messages + result_entries(batch.results),
        ),
{
    broadcast use {lemma_push_event, lemma_no_events};

    reveal(RunView::settle);
    let settled = run.with_messages(result_entries(batch.results));
    let events = seq![
        AgentEventView::TurnEnd {
            message: AgentMessageView::Assistant(batch.message),
            tool_results: batch.results,
        },
    ];
    let none = Seq::<CallKey>::empty();
    assert(none + announced_calls(events) =~= closed_calls(events));
    assert(settled.new_messages + completed_messages(events) =~= settled.new_messages);
    if observed.cancelled {
        lemma_finish(
            settled,
            events,
            LoopExitView::Aborted,
            before,
            none,
            settled.new_messages,
        );
    } else {
        lemma_poll_steering(settled, true, events, before, none, settled.new_messages);
    }
}

proof fn lemma_tool_gate(run: RunView, batch: ToolBatchView, observed: Observed)
    requires
        preparing(batch, run.sequential()),
    ensures
        run.tool_gate(batch, observed).follows(
            run,
            batch.at(ToolStageView::Gate).open_calls(run.sequential()),
            run.new_messages + result_entries(batch.results),
        ),
{
    broadcast use {lemma_push_event, lemma_no_events};

    reveal(RunView::tool_gate);
    let sequential = run.sequential();
    let open = batch.at(ToolStageView::Gate).open_calls(sequential);
    let entered = run.new_messages + result_entries(batch.results);
    let keys = call_keys(batch.calls);
    if observed.cancelled || batch.cursor >= batch.calls.len() {
        if sequential {
            assert(open =~= Seq::<CallKey>::empty());
            lemma_settle(run, batch, observed, run);
        } else {
            assert(result_entries(batch.results) =~= Seq::<AgentMessageView>::empty());
            assert(entered =~= run.new_messages);
            lemma_spawn_from(run, batch, 0, observed, run, entered);
        }
    } else {
        let p = run.tool_gate(batch, observed);
        let started = batch.at(ToolStageView::Started);
        assert(started.in_order(sequential));
        assert(keys[batch.cursor as int] == batch.call().key());
        assert(p.events == seq![batch.call().start_event()]);
        assert(open + announced_calls(p.events) =~= closed_calls(p.events) + p.run.open_calls());
        assert(entered + completed_messages(p.events) =~= entered);
    }
}

proof fn lemma_refuse_call(
    run: RunView,
    batch: ToolBatchView,
    result: AgentToolResultView,
    stop: bool,
    observed: Observed,
)
    requires
        batch.at(ToolStageView::Started).in_order(run.sequential()),
        batch.cursor < batch.calls.len(),
    ensures
        run.refuse_call(batch, result, stop, observed).follows(
            run,
            batch.at(ToolStageView::Started).open_calls(run.sequential()),
            run.new_messages + result_entries(batch.results),
        ),
{
    broadcast use lemma_no_events;

    let sequential = run.sequential();
    let open = batch.at(ToolStageView::Started).open_calls(sequential);
    let entered = run.new_messages + result_entries(batch.results);
    let none = Seq::<AgentEventView>::empty();
    if sequential {
        assert(open + announced_calls(none) =~= closed_calls(none) + open);
        assert(entered + completed_messages(none) =~= entered);
        lemma_end_call(run, batch, none, result, true, stop, run, open, entered);
    } else {
        let next = batch.with_slot(ToolSlotView::Closed { result, is_error: true });
        assert(next.at(ToolStageView::Gate).open_calls(false) == open);
        if stop {
            assert(result_entries(batch.results) =~= Seq::<AgentMessageView>::empty());
            assert(entered =~= run.new_messages);
            lemma_spawn_from(run, next, 0, observed, run, entered);
        } else {
            lemma_tool_gate(run, next, observed);
        }
    }
}

/// A step that hands out no events and changes only the stage of a batch.
proof fn lemma_next_stage(
    run: RunView,
    batch: ToolBatchView,
    stage: ToolStageView,
    next: ToolStageView,
    request: RequestView,
)
    requires
        batch.at(next).in_order(run.sequential()),
        batch.at(next).open_calls(run.sequential()) == batch.at(stage).open_calls(
            run.sequential(),
        ),
        !(request is Finish),
        run.await_tools(batch.at(next), Seq::empty(), request).asks_properly(),
    ensures
        run.await_tools(batch.at(next), Seq::empty(), request).follows(
            run,
            batch.at(stage).open_calls(run.sequential()),
            run.new_messages + result_entries(batch.results),
        ),
{
    broadcast use lemma_no_events;

    let none = Seq::<AgentEventView>::empty();
    let open = batch.at(stage).open_calls(run.sequential());
    let entered = run.new_messages + result_entries(batch.results);
    assert(open + announced_calls(none) =~= closed_calls(none) + open);
    assert(entered + completed_messages(none) =~= entered);
}

proof fn lemma_run_call(
    run: RunView,
    batch: ToolBatchView,
    handle: HookId,
    args: Value,
    observed: Observed,
)
    requires
        batch.at(ToolStageView::Started).in_order(run.sequential()),
        batch.cursor < batch.calls.len(),
    ensures
        run.run_call(batch, handle, args, observed).follows(
            run,
            batch.at(ToolStageView::Started).open_calls(run.sequential()),
            run.new_messages + result_entries(batch.results),
        ),
{
    if observed.cancelled {
        lemma_refuse_call(run, batch, aborted_result(), true, observed);
    } else if run.sequential() {
        lemma_next_stage(
            run,
            batch,
            ToolStageView::Started,
            ToolStageView::Executing { args },
            RequestView::ExecuteTool {
                tool: handle,
                tool_call: batch.call(),
                args,
                cancel: run.cancel,
            },
        );
    } else {
        let next = batch.with_slot(ToolSlotView::Runnable { tool: handle, args });
        lemma_tool_gate(run, next, observed);
    }
}

proof fn lemma_tool_started(run: RunView, batch: ToolBatchView, observed: Observed)
    requires
        batch.at(ToolStageView::Started).in_order(run.sequential()),
        batch.cursor < batch.calls.len(),
    ensures
        run.tool_started(batch, observed).follows(
            run,
            batch.at(ToolStageView::Started).open_calls(run.sequential()),
            run.new_messages + result_entries(batch.results),
        ),
{
    reveal(RunView::tool_started);
    if observed.cancelled {
        lemma_refuse_call(run, batch, aborted_result(), true, observed);
    } else {
        match tool_named(run.context.tools, batch.call().name) {
            Some(tool) => {
                lemma_next_stage(
                    run,
                    batch,
                    ToolStageView::Started,
                    ToolStageView::Preparing { tool },
                    RequestView::PrepareArguments {
                        tool: tool.handle,
                        arguments: batch.call().arguments,
                    },
                );
            },
            None => {
                lemma_refuse_call(
                    run,
                    batch,
                    AgentToolResultView::error("Tool "@ + batch.call().name + " not found"@),
                    false,
                    observed,
                );
            },
        }
    }
}

proof fn lemma_tool_prepared(
    run: RunView,
    batch: ToolBatchView,
    tool: AgentToolView,
    arguments: Value,
    observed: Observed,
    complaint: Seq<char>,
)
    requires
        batch.at(ToolStageView::Started).in_order(run.sequential()),
        batch.cursor < batch.calls.len(),
    ensures
        run.tool_prepared(batch, tool, arguments, observed, complaint).follows(
            run,
            batch.at(ToolStageView::Started).open_calls(run.sequential()),
            run.new_messages + result_entries(batch.results),
        ),
{
    reveal(RunView::tool_prepared);
    match verdict(tool, arguments, complaint) {
        Err(message) => {
            lemma_refuse_call(run, batch, AgentToolResultView::error(message), false, observed);
        },
        Ok(args) => match run.config.before_tool_call {
            Some(hook) => {
                lemma_next_stage(
                    run,
                    batch,
                    ToolStageView::Started,
                    ToolStageView::Asking { handle: tool.handle },
                    run.tool_prepared(batch, tool, arguments, observed, complaint).request,
                );
            },
            None => {
                lemma_run_call(run, batch, tool.handle, args, observed);
            },
        },
    }
}

proof fn lemma_tool_asked(
    run: RunView,
    batch: ToolBatchView,
    handle: HookId,
    result: Option<BeforeToolCallResultView>,
    args: Value,
    observed: Observed,
)
    requires
        batch.at(ToolStageView::Started).in_order(run.sequential()),
        batch.cursor < batch.calls.len(),
    ensures
        run.tool_asked(batch, handle, result, args, observed).follows(
            run,
            batch.at(ToolStageView::Started).open_calls(run.sequential()),
            run.new_messages + result_entries(batch.results),
        ),
{
    reveal(RunView::tool_asked);
    match hook_refusal(result) {
        Some(reason) => {
            lemma_refuse_call(run, batch, AgentToolResultView::error(reason), false, observed);
        },
        None => {
            lemma_run_call(run, batch, handle, args, observed);
        },
    }
}

/// The stage of a call that returned, before its end is announced.
spec fn returned(result: AgentToolResultView, is_error: bool) -> ToolStageView {
    ToolStageView::Finalizing { result, is_error }
}

proof fn lemma_return_call(
    run: RunView,
    batch: ToolBatchView,
    result: AgentToolResultView,
    is_error: bool,
    final_result: AgentToolResultView,
    final_is_error: bool,
)
    requires
        batch.at(returned(result, is_error)).in_order(run.sequential()),
    ensures
        run.end_call(batch, Seq::empty(), final_result, final_is_error, false).follows(
            run,
            batch.at(returned(result, is_error)).open_calls(run.sequential()),
            run.new_messages + result_entries(batch.results),
        ),
{
    broadcast use lemma_no_events;

    let none = Seq::<AgentEventView>::empty();
    let open = batch.at(returned(result, is_error)).open_calls(run.sequential());
    let entered = run.new_messages + result_entries(batch.results);
    assert(open + announced_calls(none) =~= closed_calls(none) + open);
    assert(entered + completed_messages(none) =~= entered);
    lemma_end_call(run, batch, none, final_result, final_is_error, false, run, open, entered);
}

proof fn lemma_tool_executed(
    run: RunView,
    batch: ToolBatchView,
    args: Value,
    execution: ExecutionView,
)
    requires
        batch.at(returned(execution.result(), execution.is_error())).in_order(run.sequential()),
    ensures
        run.tool_executed(batch, args, execution).follows(
            run,
            batch.at(returned(execution.result(), execution.is_error())).open_calls(
                run.sequential(),
            ),
            run.new_messages + result_entries(batch.results),
        ),
{
    reveal(RunView::tool_executed);
    let stage = returned(execution.result(), execution.is_error());
    match run.config.after_tool_call {
        Some(hook) => {
            lemma_next_stage(
                run,
                batch,
                stage,
                stage,
                run.tool_executed(batch, args, execution).request,
            );
        },
        None => {
            lemma_return_call(
                run,
                batch,
                execution.result(),
                execution.is_error(),
                execution.result(),
                execution.is_error(),
            );
        },
    }
}

proof fn lemma_tool_ended(
    run: RunView,
    batch: ToolBatchView,
    result: AgentToolResultView,
    is_error: bool,
    stop: bool,
    observed: Observed,
)
    requires
        batch.at(ToolStageView::Ending { result, is_error, stop }).in_order(run.sequential()),
    ensures
        run.tool_ended(batch, result, is_error, stop, observed).follows(
            run,
            batch.at(ToolStageView::Ending { result, is_error, stop }).open_calls(
                run.sequential(),
            ),
            run.new_messages + result_entries(batch.results),
        ),
{
    broadcast use {lemma_push_event, lemma_no_events};

    reveal(RunView::tool_ended);
    let sequential = run.sequential();
    let message = batch.call().result_message(result, is_error, observed.now);
    let entry = AgentMessageView::ToolResult(message);
    let events = seq![
        AgentEventView::MessageStart { message: entry },
        AgentEventView::MessageEnd { message: entry },
    ];
    assert(events =~= seq![events[0]].push(events[1]));
    let next = ToolBatchView {
        results: batch.results.push(message),
        cursor: batch.cursor + 1,
        ..batch
    };
    let open = batch.at(ToolStageView::Ending { result, is_error, stop }).open_calls(sequential);
    let entered = run.new_messages + result_entries(batch.results);
    assert(completed_messages(events) =~= seq![entry]);
    assert(result_entries(next.results) =~= result_entries(batch.results).push(entry));
    assert(entered + completed_messages(events) =~= run.new_messages + result_entries(
        next.results,
    ));
    assert(open + announced_calls(events) =~= closed_calls(events) + open);
    assert(result_keys(next.results) =~= result_keys(batch.results).push(batch.call().key()));
    assert(call_keys(batch.calls)[batch.cursor as int] == batch.call().key());
    assert(result_keys(next.results).is_prefix_of(call_keys(next.calls)));
    if !sequential {
        lemma_close_slots(run, next, events, run, open, entered);
    } else if stop {
        assert(next.at(ToolStageView::Done).in_order(true));
    } else {
        assert(next.at(ToolStageView::Gate).in_order(true));
    }
}

// ---- Steps ----

proof fn lemma_tool_step(
    run: RunView,
    batch: ToolBatchView,
    reply: ReplyView,
    observed: Observed,
    complaint: Seq<char>,
)
    requires
        batch.in_order(run.sequential()),
        (RunView { phase: PhaseView::Tools { batch }, ..run }).accepts(reply),
        !reply.is_broken_join(),
    ensures
        run.tool_step(batch, reply, observed, complaint).follows(
            run,
            batch.open_calls(run.sequential()),
            run.new_messages + result_entries(batch.results),
        ),
{
    let rest = batch.at(ToolStageView::Done);
    let sequential = run.sequential();
    match batch.stage {
        ToolStageView::Gate => {
            assert(rest.at(ToolStageView::Gate) == batch);
            lemma_tool_gate(run, rest, observed);
        },
        ToolStageView::Started => {
            assert(rest.at(ToolStageView::Started) == batch);
            lemma_tool_started(run, rest, observed);
        },
        ToolStageView::Preparing { tool } => {
            lemma_tool_prepared(run, rest, tool, reply->Arguments_0, observed, complaint);
        },
        ToolStageView::Asking { handle } => {
            lemma_tool_asked(run, rest, handle, reply->result, reply->args, observed);
        },
        ToolStageView::Executing { args } => {
            lemma_tool_executed(run, rest, args, reply->Executed_0);
        },
        ToolStageView::Spawning => {
            reveal(RunView::tool_spawned);
            assert(result_entries(batch.results) =~= Seq::<AgentMessageView>::empty());
            assert(run.new_messages + result_entries(batch.results) =~= run.new_messages);
            lemma_spawn_from(
                run,
                ToolBatchView { spawned: rest.cursor + 1, ..rest },
                rest.cursor + 1,
                observed,
                run,
                run.new_messages,
            );
        },
        ToolStageView::Joining => {
            reveal(RunView::tool_joined);
            let execution = reply->Joined_0->Finished_0;
            lemma_tool_executed(
                run,
                rest,
                rest.slots[rest.cursor as int]->args,
                execution,
            );
        },
        ToolStageView::Finalizing { result, is_error } => {
            reveal(RunView::tool_finalized);
            let by = reply->After_0;
            let overriding = match by {
                Some(AfterToolCallResultView { is_error: Some(overriding), .. }) => overriding,
                _ => is_error,
            };
            assert(rest.at(returned(result, is_error)) == batch);
            lemma_return_call(run, rest, result, is_error, result.overridden(by), overriding);
        },
        ToolStageView::Ending { result, is_error, stop } => {
            assert(rest.at(batch.stage) == batch);
            lemma_tool_ended(run, rest, result, is_error, stop, observed);
        },
        ToolStageView::Done => {
            assert(batch.open_calls(sequential) =~= Seq::<CallKey>::empty());
            lemma_settle(run, rest, observed, run);
        },
    }
}

/// A step follows on the state before it, unless the answer tells of a broken task.
pub proof fn lemma_step(
    run: RunView,
    reply: ReplyView,
    observed: Observed,
    complaint: Seq<char>,
)
    requires
        run.wf(),
        run.in_order(),
        run.accepts(reply),
        !reply.is_broken_join(),
    ensures
        run.step(reply, observed, complaint).follows(run, run.open_calls(), run.entered()),
{
    let idle = run.idle();
    match run.phase {
        PhaseView::Steering { after_tools } => {
            lemma_steered(idle, after_tools, reply.messages(), observed);
        },
        PhaseView::FollowUp => {
            lemma_followed_up(idle, reply.messages(), observed);
        },
        PhaseView::Transform => {
            reveal(RunView::transformed);
            lemma_silent(idle, idle.transformed(reply.messages()));
        },
        PhaseView::Convert => {
            reveal(RunView::converted);
            lemma_silent(idle, idle.converted(reply->LlmMessages_0));
        },
        PhaseView::ApiKey { messages } => {
            reveal(RunView::key_resolved);
            lemma_silent(idle, idle.key_resolved(messages, reply->ApiKey_0));
        },
        PhaseView::Open => {
            lemma_opened(idle, reply->Opened_0, observed);
        },
        PhaseView::Stream { partial, shown } => {
            lemma_streamed(idle, partial, shown, reply->Streamed_0, observed);
        },
        PhaseView::Tools { batch } => {
            assert(RunView { phase: PhaseView::Tools { batch }, ..idle } == run);
            lemma_tool_step(idle, batch, reply, observed, complaint);
        },
        PhaseView::Finished => {},
    }
}

/// A step by a broken task closes the refused calls behind it and fails the run: all results of
/// the turn stay, and an error message follows.
pub proof fn lemma_broken_step(
    run: RunView,
    reply: ReplyView,
    observed: Observed,
    complaint: Seq<char>,
)
    requires
        run.wf(),
        run.accepts(reply),
        reply.is_broken_join(),
    ensures
        run.phase is Tools,
        ({
            let batch = run.phase->batch;
            let results = batch.final_results(observed.now);
            let p = run.step(reply, observed, complaint);
            &&& p == run.idle().with_messages(result_entries(results)).fail(
                batch.late_events(observed.now),
                results,
                AgentErrorView::JoinError(reply->Joined_0->Broken_0),
                observed,
            )
            &&& p.continues(run, run.entered())
            &&& announced_calls(p.events) == Seq::<CallKey>::empty()
            &&& closed_calls(p.events) == result_keys(batch.late_results(observed.now))
            &&& p.run.phase is Finished
        }),
{
    reveal(RunView::tool_joined);
    let batch = run.phase->batch;
    let rest = batch.at(ToolStageView::Done);
    let now = observed.now;
    lemma_refused_same(batch, rest, batch.cursor + 1, batch.slots.len(), now);
    lemma_refused_events(batch, batch.cursor + 1, batch.slots.len(), now);
    let results = batch.final_results(now);
    assert(result_entries(results) =~= result_entries(batch.results) + result_entries(
        batch.late_results(now),
    ));
    assert(run.new_messages + result_entries(results) =~= run.entered() + result_entries(
        batch.late_results(now),
    ));
    lemma_fail_continues(
        run.idle().with_messages(result_entries(results)),
        batch.late_events(now),
        results,
        AgentErrorView::JoinError(reply->Joined_0->Broken_0),
        observed,
        run,
        run.entered(),
    );
}

/// The stage that a batch is at does not matter to its refused calls.
proof fn lemma_refused_same(a: ToolBatchView, b: ToolBatchView, from: nat, to: nat, now: i64)
    requires
        a.slots == b.slots,
        a.calls == b.calls,
    ensures
        a.refused_results(from, to, now) == b.refused_results(from, to, now),
        a.refused_events(from, to, now) == b.refused_events(from, to, now),
    decreases to,
{
    if to > from {
        lemma_refused_same(a, b, from, (to - 1) as nat, now);
    }
}

/// The start of a run follows on nothing.
pub proof fn lemma_start(
    prompts: Seq<AgentMessageView>,
    context: AgentContextView,
    config: AgentLoopConfig,
    cancel: CancellationToken,
)
    ensures
        ({
            let p = RunView::start(prompts, context, config, cancel);
            p.follows(p.run, Seq::empty(), Seq::empty())
        }),
{
    broadcast use {lemma_push_event, lemma_no_events};

    let p = RunView::start(prompts, context, config, cancel);
    let first = seq![AgentEventView::AgentStart, AgentEventView::TurnStart];
    assert(first =~= seq![first[0]].push(first[1]));
    let events = first + shown_messages(prompts);
    lemma_shown_messages(prompts);
    lemma_add_events(first, shown_messages(prompts));
    assert(completed_messages(events) =~= prompts);
    assert(Seq::<AgentMessageView>::empty() + prompts =~= prompts);
    assert(Seq::<CallKey>::empty() + announced_calls(events) =~= closed_calls(events)
        + Seq::<CallKey>::empty());
}

} // verus!
