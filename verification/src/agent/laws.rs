//! Laws of agents: what a run leaves in an agent's state, and what subscriptions do.

use crate::agent::handle::{are_apart, is_first_free, without_place, Listener};
use crate::agent::state::AgentStateView;
use crate::agent_loop::history::{
    announced_calls, closed_calls, completed_messages, lemma_no_events, lemma_push_event,
    lemma_start, lemma_step, ordinary, CallKey,
};
use crate::agent_loop::laws::{
    events_after, fitting, law_completed_messages_are_reported, lemma_history, progress_after,
    unbroken, Answer,
};
use crate::agent_loop::protocol::RequestView;
use crate::agent_loop::state::RunView;
use crate::agent_loop::terminal::terminal_error;
use crate::types::config::{AgentLoopConfig, HookId};
use crate::types::error::AgentErrorView;
use crate::types::event::{AgentEventView, RunOutcomeView};
use crate::types::message::AgentMessageView;
use crate::types::model::StopReason;
use crate::types::tool::AgentContextView;
use tokio_util::sync::CancellationToken;
use vstd::prelude::*;

verus! {

impl AgentStateView {
    /// The state after the events, one after the other.
    pub open spec fn reduce_all(self, events: Seq<AgentEventView>) -> AgentStateView
        decreases events.len(),
    {
        if events.len() == 0 {
            self
        } else {
            self.reduce_all(events.drop_last()).reduce(events.last())
        }
    }
}

impl RunOutcomeView {
    /// The error text that a run leaves behind.
    pub open spec fn error_text(self) -> Option<Seq<char>> {
        match self {
            RunOutcomeView::Completed { .. } => None,
            RunOutcomeView::Failed { new_messages, error } => match terminal_error(
                new_messages,
                StopReason::Error,
            ) {
                Some(text) => Some(text),
                None => Some(error.text()),
            },
            RunOutcomeView::Aborted { new_messages } => match terminal_error(
                new_messages,
                StopReason::Aborted,
            ) {
                Some(text) => Some(text),
                None => Some(AgentErrorView::Aborted.text()),
            },
        }
    }
}

/// Dropping a subscription ends that subscription and no other, whatever callbacks subscribed:
/// exactly the listener at its place is gone, and the others keep their order.
pub proof fn law_unsubscribing_ends_one(listeners: Seq<Listener>, index: int)
    requires
        are_apart(listeners),
        0 <= index < listeners.len(),
    ensures
        without_place(listeners, listeners[index].place) == listeners.remove(index),
    decreases listeners.len(),
{
    reveal(Seq::filter);
    let place = listeners[index].place;
    let rest = listeners.drop_last();
    let last = listeners.last();
    assert(last == listeners[listeners.len() - 1]);
    if index == rest.len() {
        lemma_place_absent(rest, place);
        assert(listeners.remove(index) =~= rest);
    } else {
        assert(rest[index] == listeners[index]);
        law_unsubscribing_ends_one(rest, index);
        assert(listeners.remove(index) =~= rest.remove(index).push(last));
    }
}

/// Without a place that nobody has, all listeners stay.
proof fn lemma_place_absent(listeners: Seq<Listener>, place: u64)
    requires
        forall|i: int| 0 <= i < listeners.len() ==> (#[trigger] listeners[i]).place != place,
    ensures
        without_place(listeners, place) == listeners,
    decreases listeners.len(),
{
    reveal(Seq::filter);
    if listeners.len() > 0 {
        let rest = listeners.drop_last();
        assert forall|i: int| 0 <= i < rest.len() implies (#[trigger] rest[i]).place != place by {
            assert(rest[i] == listeners[i]);
        }
        lemma_place_absent(rest, place);
        assert(listeners.last() == listeners[listeners.len() - 1]);
        assert(rest.push(listeners.last()) =~= listeners);
    }
}

/// A subscription that is dropped again leaves the listeners as they were.
pub proof fn law_subscription_comes_and_goes(listeners: Seq<Listener>, place: u64, hook: HookId)
    requires
        are_apart(listeners),
        is_first_free(listeners, place),
    ensures
        are_apart(listeners.push(Listener { place, hook })),
        without_place(listeners.push(Listener { place, hook }), place) == listeners,
{
    let more = listeners.push(Listener { place, hook });
    assert forall|i: int, j: int| 0 <= i < j < more.len() implies (#[trigger] more[i]).place != (
    #[trigger] more[j]).place by {
        assert(more[i] == listeners[i]);
    }
    law_unsubscribing_ends_one(more, listeners.len() as int);
    assert(more.remove(listeners.len() as int) =~= listeners);
}

/// Events add the messages that they complete, in order, and change nothing but the transcript,
/// the message under way, the pending tool calls and, at the end of a run, the error text.
pub proof fn law_state_follows_events(state: AgentStateView, events: Seq<AgentEventView>)
    ensures
        state.reduce_all(events).messages == state.messages + completed_messages(events),
        state.reduce_all(events).system_prompt == state.system_prompt,
        state.reduce_all(events).model == state.model,
        state.reduce_all(events).thinking_level == state.thinking_level,
        state.reduce_all(events).tools == state.tools,
        state.reduce_all(events).is_streaming == state.is_streaming,
        ordinary(events) ==> state.reduce_all(events).error_message == state.error_message,
    decreases events.len(),
{
    broadcast use {lemma_push_event, lemma_no_events};

    if events.len() == 0 {
        assert(state.messages + completed_messages(events) =~= state.messages);
    } else {
        let rest = events.drop_last();
        law_state_follows_events(state, rest);
        assert(events =~= rest.push(events.last()));
        if let Some(message) = events.last().completed_message() {
            assert((state.messages + completed_messages(rest)).push(message) =~= state.messages
                + completed_messages(rest).push(message));
        }
    }
}

/// Reducing two runs of events, one behind the other.
pub proof fn lemma_reduce_add(
    state: AgentStateView,
    a: Seq<AgentEventView>,
    b: Seq<AgentEventView>,
)
    ensures
        state.reduce_all(a + b) == state.reduce_all(a).reduce_all(b),
    decreases b.len(),
{
    if b.len() == 0 {
        assert(a + b =~= a);
    } else {
        lemma_reduce_add(state, a, b.drop_last());
        assert((a + b).drop_last() =~= a + b.drop_last());
        assert((a + b).last() == b.last());
    }
}

/// Once a run is over and has settled, the agent's transcript is the one before with the
/// messages that the run reports, no message and no tool call is under way, and the error text
/// is the one of the outcome, however the run ends.
pub proof fn law_state_after_run(
    state: AgentStateView,
    prompts: Seq<AgentMessageView>,
    config: AgentLoopConfig,
    cancel: CancellationToken,
    answers: Seq<Answer>,
)
    requires
        fitting(RunView::start(prompts, state.context(), config, cancel), answers),
    ensures
        ({
            let start = RunView::start(prompts, state.context(), config, cancel);
            let events = events_after(start, answers);
            let after = state.begun().reduce_all(events).settled();
            progress_after(start, answers).request matches RequestView::Finish { outcome } ==> {
                after == (AgentStateView {
                    messages: state.messages + outcome.new_messages(),
                    is_streaming: false,
                    streaming_message: None,
                    pending_tool_calls: Set::empty(),
                    error_message: outcome.error_text(),
                    ..state
                })
            }
        }),
{
    let start = RunView::start(prompts, state.context(), config, cancel);
    let events = events_after(start, answers);
    lemma_history(prompts, state.context(), config, cancel, answers);
    law_completed_messages_are_reported(prompts, state.context(), config, cancel, answers);
    law_state_follows_events(state.begun(), events);
    if progress_after(start, answers).request is Finish {
        law_state_follows_events(state.begun(), events.drop_last());
    }
}

/// The ids of tool calls, in order.
pub open spec fn id_list(calls: Seq<CallKey>) -> Seq<Seq<char>> {
    calls.map_values(|c: CallKey| c.id)
}

/// The ids of tool calls.
pub open spec fn call_ids(calls: Seq<CallKey>) -> Set<Seq<char>> {
    id_list(calls).to_set()
}

/// Where at most one tool call is announced or closed, pending calls stay among the open ones.
proof fn lemma_pending_step(
    state: AgentStateView,
    events: Seq<AgentEventView>,
    open: Seq<CallKey>,
    next: Seq<CallKey>,
)
    requires
        state.pending_tool_calls.subset_of(call_ids(open)),
        open + announced_calls(events) == closed_calls(events) + next,
        announced_calls(events).len() + closed_calls(events).len() <= 1,
    ensures
        state.reduce_all(events).pending_tool_calls.subset_of(call_ids(next)),
{
    lemma_pending_events(state, events);
    let started = announced_calls(events);
    let ended = closed_calls(events);
    let after = state.reduce_all(events).pending_tool_calls;
    assert forall|id: Seq<char>| after.contains(id) implies call_ids(next).contains(id) by {
        if started.len() == 1 {
            assert(open + started =~= next);
            if id == started[0].id {
                assert(next[open.len() as int] == started[0]);
                assert(id_list(next)[open.len() as int] == id);
            } else {
                assert(call_ids(open).contains(id));
                let ids = id_list(open);
                assert(ids.contains(id));
                let i = choose|i: int| 0 <= i < ids.len() && ids[i] == id;
                assert(next[i] == open[i]);
                assert(id_list(next)[i] == id);
            }
        } else if ended.len() == 1 {
            assert(open =~= ended + next);
            assert(call_ids(open).contains(id));
            let ids = id_list(open);
            assert(ids.contains(id));
            let i = choose|i: int| 0 <= i < ids.len() && ids[i] == id;
            assert(i != 0);
            assert(next[i - 1] == open[i]);
            assert(id_list(next)[i - 1] == id);
        } else {
            assert(open =~= next);
        }
    }
}

/// What at most one announced or closed call does to the pending calls.
proof fn lemma_pending_events(state: AgentStateView, events: Seq<AgentEventView>)
    requires
        announced_calls(events).len() + closed_calls(events).len() <= 1,
    ensures
        state.reduce_all(events).pending_tool_calls == (if announced_calls(events).len() == 1 {
            state.pending_tool_calls.insert(announced_calls(events)[0].id)
        } else if closed_calls(events).len() == 1 {
            state.pending_tool_calls.remove(closed_calls(events)[0].id)
        } else {
            state.pending_tool_calls
        }),
    decreases events.len(),
{
    broadcast use {lemma_push_event, lemma_no_events};

    if events.len() > 0 {
        let rest = events.drop_last();
        assert(events =~= rest.push(events.last()));
        lemma_pending_events(state, rest);
    }
}

/// During a run, only announced calls that are not closed yet are pending, and none is pending
/// once the run is over: no announced tool call dangles. This holds unless the task of a tool
/// execution breaks.
pub proof fn law_no_tool_call_dangles(
    state: AgentStateView,
    prompts: Seq<AgentMessageView>,
    context: AgentContextView,
    config: AgentLoopConfig,
    cancel: CancellationToken,
    answers: Seq<Answer>,
)
    requires
        state.pending_tool_calls == Set::<Seq<char>>::empty(),
        fitting(RunView::start(prompts, context, config, cancel), answers),
        unbroken(answers),
    ensures
        ({
            let start = RunView::start(prompts, context, config, cancel);
            let now = progress_after(start, answers);
            let pending = state.reduce_all(events_after(start, answers)).pending_tool_calls;
            &&& pending.subset_of(call_ids(now.run.open_calls()))
            &&& now.request is Finish ==> pending == Set::<Seq<char>>::empty()
        }),
    decreases answers.len(),
{
    let start = RunView::start(prompts, context, config, cancel);
    let now = progress_after(start, answers);
    let events = events_after(start, answers);
    lemma_start(prompts, context, config, cancel);
    lemma_history(prompts, context, config, cancel, answers);
    if answers.len() == 0 {
        lemma_pending_step(state, events, Seq::empty(), now.run.open_calls());
    } else {
        let earlier = answers.drop_last();
        let last = answers.last();
        assert(unbroken(earlier)) by {
            assert forall|i: int| 0 <= i < earlier.len() implies !(
            #[trigger] earlier[i]).reply.is_broken_join() by {
                assert(earlier[i] == answers[i]);
            }
        }
        law_no_tool_call_dangles(state, prompts, context, config, cancel, earlier);
        lemma_history(prompts, context, config, cancel, earlier);
        let before = progress_after(start, earlier);
        lemma_step(before.run, last.reply, last.observed, last.complaint);
        lemma_reduce_add(state, events_after(start, earlier), now.events);
        lemma_pending_step(
            state.reduce_all(events_after(start, earlier)),
            now.events,
            before.run.open_calls(),
            now.run.open_calls(),
        );
    }
    if now.request is Finish {
        assert(call_ids(now.run.open_calls()) =~= Set::<Seq<char>>::empty());
        assert(state.reduce_all(events).pending_tool_calls =~= Set::<Seq<char>>::empty());
    }
}

} // verus!
