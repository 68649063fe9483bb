//! Laws of tool calls: what each call is run with, and what comes of it, step by step.
//!
//! Each law tells of one step of a run that deals with tool calls, in terms of what the run
//! holds, of the answer, and of the events, the request and the state that follow.

use crate::agent_loop::protocol::{ExecutionView, Observed, ReplyView, RequestView};
use crate::agent_loop::state::{
    PhaseView, ProgressView, RunView, ToolBatchView, ToolSlotView, ToolStageView,
};
use crate::agent_loop::tool_calls::{next_runnable, tool_named};
use crate::types::config::HookId;
use crate::types::content::{ContentBlockView, ToolCallContentView};
use crate::types::error::AgentErrorView;
use crate::types::event::{AgentEventView, RunOutcomeView};
use crate::types::message::{AgentMessageView, ToolResultMessageView};
use crate::types::tool::{AgentToolResultView, AgentToolView, ToolExecutionMode};
use crate::validate::{compiled_schema, is_accepted, verdict};
use serde_json::Value;
use vstd::prelude::*;

verus! {

/// Whether a result tells of an error by one block of text and nothing else.
pub open spec fn tells(result: AgentToolResultView, text: Seq<char>) -> bool {
    &&& result.content.len() == 1
    &&& result.content[0] matches ContentBlockView::Text(block)
        && block.text == text && block.text_signature is None
    &&& result.details is None
}

/// Whether an event announces a call, with the arguments that the model gave.
pub open spec fn announces(event: AgentEventView, call: ToolCallContentView) -> bool {
    event matches AgentEventView::ToolExecutionStart { tool_call_id, tool_name, args }
        && tool_call_id == call.id && tool_name == call.name && args == call.arguments
}

/// Whether an event announces what came of a call.
pub open spec fn announces_end(
    event: AgentEventView,
    call: ToolCallContentView,
    came: AgentToolResultView,
    error: bool,
) -> bool {
    event matches AgentEventView::ToolExecutionEnd { tool_call_id, tool_name, result, is_error }
        && tool_call_id == call.id && tool_name == call.name && result == came && is_error == error
}

/// Whether a batch still is about the same calls, of the same message.
pub open spec fn same_calls(batch: ToolBatchView, after: ToolBatchView) -> bool {
    &&& after.message == batch.message
    &&& after.calls == batch.calls
}

/// Whether nothing of a run changed but what it waits for.
pub open spec fn only_phase(run: RunView, next: RunView) -> bool {
    &&& next.config == run.config
    &&& next.cancel == run.cancel
    &&& next.context == run.context
    &&& next.new_messages == run.new_messages
    &&& next.first_turn == run.first_turn
}

/// Whether the end of the call at the cursor is announced, behind other events.
pub open spec fn ends(
    run: RunView,
    batch: ToolBatchView,
    cursor: nat,
    next: ProgressView,
    came: AgentToolResultView,
    error: bool,
) -> bool {
    &&& only_phase(run, next.run)
    &&& next.request is Checkpoint
    &&& next.events.len() > 0
    &&& announces_end(next.events.last(), batch.calls[cursor as int], came, error)
    &&& next.run.phase matches PhaseView::Tools { batch: after }
        && same_calls(batch, after) && after.cursor == cursor
        && (after.stage matches ToolStageView::Ending { result, is_error, .. }
            && result == came && is_error == error)
}

/// Whether the call at the cursor is refused with an error of this text: at once where calls run
/// one after the other, in a slot of its own where they run together. Where calls run one after
/// the other, `last` tells whether no further call is looked at.
pub open spec fn refuses(
    run: RunView,
    batch: ToolBatchView,
    next: ProgressView,
    text: Seq<char>,
    last: bool,
) -> bool {
    if run.config.tool_execution == ToolExecutionMode::Sequential {
        &&& next.run.phase matches PhaseView::Tools { batch: after }
            && after.results == batch.results
            && (after.stage matches ToolStageView::Ending { result, stop, .. } && tells(result, text)
                && stop == last && ends(run, batch, batch.cursor, next, result, true))
        &&& next.events.len() == 1
    } else {
        &&& only_phase(run, next.run)
        &&& next.run.phase matches PhaseView::Tools { batch: after }
            && same_calls(batch, after) && after.results == batch.results
            && after.slots.len() == batch.slots.len() + 1
            && after.slots.drop_last() == batch.slots
            && (after.slots.last() matches ToolSlotView::Closed { result, is_error }
                && tells(result, text) && is_error)
    }
}

/// Whether the call at the cursor goes on to run, with this tool and these arguments: at once
/// where calls run one after the other, from a slot of its own where they run together.
pub open spec fn clears(
    run: RunView,
    batch: ToolBatchView,
    next: ProgressView,
    tool: HookId,
    args: Value,
) -> bool {
    &&& only_phase(run, next.run)
    &&& next.run.phase matches PhaseView::Tools { batch: after }
        && same_calls(batch, after) && after.results == batch.results
        && if run.config.tool_execution == ToolExecutionMode::Sequential {
            &&& next.request == (RequestView::ExecuteTool {
                tool,
                tool_call: batch.calls[batch.cursor as int],
                args,
                cancel: run.cancel,
            })
            &&& next.events.len() == 0
            &&& after.cursor == batch.cursor
            &&& after.stage == (ToolStageView::Executing { args })
        } else {
            &&& after.slots.len() == batch.slots.len() + 1
            &&& after.slots.drop_last() == batch.slots
            &&& after.slots.last() == (ToolSlotView::Runnable { tool, args })
        }
}

/// The tool of a given name is the first of the tools that has that name; there is none exactly
/// where no tool has it.
pub proof fn law_tool_is_found_by_name(tools: Seq<AgentToolView>, name: Seq<char>)
    ensures
        match tool_named(tools, name) {
            Some(tool) => exists|i: int|
                #![trigger tools[i]]
                {
                    &&& 0 <= i < tools.len()
                    &&& tools[i] == tool
                    &&& tools[i].name == name
                    &&& forall|j: int| 0 <= j < i ==> (#[trigger] tools[j]).name != name
                },
            None => forall|i: int| 0 <= i < tools.len() ==> (#[trigger] tools[i]).name != name,
        },
    decreases tools.len(),
{
    if tools.len() > 0 && tools[0].name != name {
        let rest = tools.skip(1);
        law_tool_is_found_by_name(rest, name);
        assert forall|j: int| 1 <= j < tools.len() implies #[trigger] tools[j] == rest[j - 1] by {}
        if let Some(tool) = tool_named(rest, name) {
            let k = choose|k: int|
                #![trigger rest[k]]
                {
                    &&& 0 <= k < rest.len()
                    &&& rest[k] == tool
                    &&& rest[k].name == name
                    &&& forall|j: int| 0 <= j < k ==> (#[trigger] rest[j]).name != name
                };
            assert(tools[k + 1] == tool);
            assert forall|j: int| 0 <= j < k + 1 implies (#[trigger] tools[j]).name != name by {
                if j > 0 {
                    assert(tools[j] == rest[j - 1]);
                }
            }
        }
    }
}

/// Before each call, unless the run was cancelled: the call at the cursor is announced as the
/// model gave it, and nothing else happens.
pub proof fn law_call_is_announced(run: RunView, observed: Observed, complaint: Seq<char>)
    requires
        run.phase is Tools,
        run.phase->batch.stage is Gate,
        run.phase->batch.cursor < run.phase->batch.calls.len(),
        !observed.cancelled,
    ensures
        ({
            let batch = run.phase->batch;
            let next = run.step(ReplyView::Done, observed, complaint);
            &&& only_phase(run, next.run)
            &&& next.request is Checkpoint
            &&& next.events.len() == 1
            &&& announces(next.events[0], batch.calls[batch.cursor as int])
            &&& next.run.phase == (PhaseView::Tools {
                batch: ToolBatchView { stage: ToolStageView::Started, ..batch },
            })
        }),
{
    reveal(RunView::tool_gate);
}

/// An announced call goes to the first tool of its name, which prepares the arguments that the
/// model gave. Where no tool has that name, and where the run was cancelled, the call is refused,
/// and the refusal says so.
pub proof fn law_call_goes_to_named_tool(run: RunView, observed: Observed, complaint: Seq<char>)
    requires
        run.wf(),
        run.phase is Tools,
        run.phase->batch.stage is Started,
    ensures
        ({
            let batch = run.phase->batch;
            let tools = run.context.tools;
            let call = batch.calls[batch.cursor as int];
            let next = run.step(ReplyView::Done, observed, complaint);
            &&& observed.cancelled ==> refuses(run, batch, next, AgentErrorView::Aborted.text(), true)
            &&& !observed.cancelled && (forall|i: int|
                0 <= i < tools.len() ==> (#[trigger] tools[i]).name != call.name) ==> refuses(
                run,
                batch,
                next,
                "Tool "@ + call.name + " not found"@,
                false,
            )
            &&& forall|i: int|
                #![trigger tools[i]]
                0 <= i < tools.len() && tools[i].name == call.name && (forall|j: int|
                    0 <= j < i ==> (#[trigger] tools[j]).name != call.name) && !observed.cancelled
                    ==> {
                    &&& only_phase(run, next.run)
                    &&& next.events.len() == 0
                    &&& next.request == (RequestView::PrepareArguments {
                        tool: tools[i].handle,
                        arguments: call.arguments,
                    })
                    &&& next.run.phase == (PhaseView::Tools {
                        batch: ToolBatchView {
                            stage: ToolStageView::Preparing { tool: tools[i] },
                            ..batch
                        },
                    })
                }
        }),
{
    reveal(RunView::tool_started);
    reveal(RunView::tool_gate);
    let batch = run.phase->batch;
    let tools = run.context.tools;
    let call = batch.calls[batch.cursor as int];
    let next = run.step(ReplyView::Done, observed, complaint);
    law_tool_is_found_by_name(tools, call.name);
    if next.run.phase is Tools && run.config.tool_execution != ToolExecutionMode::Sequential {
        lemma_slot_added(batch.slots, next.run.phase->batch.slots);
    }
}

/// What pushing a slot leaves.
proof fn lemma_slot_added(slots: Seq<ToolSlotView>, more: Seq<ToolSlotView>)
    ensures
        forall|slot: ToolSlotView| more == #[trigger] slots.push(slot) ==> {
            &&& more.len() == slots.len() + 1
            &&& more.drop_last() == slots
            &&& more.last() == slot
        },
{
    assert forall|slot: ToolSlotView| more == #[trigger] slots.push(slot) implies {
        &&& more.len() == slots.len() + 1
        &&& more.drop_last() == slots
        &&& more.last() == slot
    } by {
        assert(slots.push(slot).drop_last() =~= slots);
    }
}

/// Prepared arguments are checked against the schema of the tool. Where they satisfy it, they go
/// on unchanged: to the hook before tool calls, together with the call, the message and the
/// context, where there is such a hook, and into the call otherwise. Where they do not, or where
/// the schema does not compile, the call is refused with what the check says.
pub proof fn law_checked_arguments_go_on(
    run: RunView,
    reply: ReplyView,
    observed: Observed,
    complaint: Seq<char>,
)
    requires
        run.wf(),
        run.phase is Tools,
        run.phase->batch.stage is Preparing,
        reply is Arguments,
    ensures
        ({
            let batch = run.phase->batch;
            let tool = batch.stage->tool;
            let args = reply->Arguments_0;
            let next = run.step(reply, observed, complaint);
            let accepted = compiled_schema(tool.parameters) matches Some(validator)
                && is_accepted(validator, args);
            &&& !accepted ==> {
                &&& verdict(tool, args, complaint) is Err
                &&& refuses(run, batch, next, verdict(tool, args, complaint)->Err_0, false)
            }
            &&& accepted ==> match run.config.before_tool_call {
                Some(hook) => {
                    &&& only_phase(run, next.run)
                    &&& next.events.len() == 0
                    &&& next.run.phase == (PhaseView::Tools {
                        batch: ToolBatchView {
                            stage: ToolStageView::Asking { handle: tool.handle },
                            ..batch
                        },
                    })
                    &&& next.request matches RequestView::BeforeToolCall {
                        hook: asked,
                        before_context,
                        cancel,
                    } && asked == hook && cancel == run.cancel
                        && before_context.assistant_message == batch.message
                        && before_context.tool_call == batch.calls[batch.cursor as int]
                        && before_context.args == args && before_context.context == run.context
                },
                None => if observed.cancelled {
                    refuses(run, batch, next, AgentErrorView::Aborted.text(), true)
                } else {
                    clears(run, batch, next, tool.handle, args)
                },
            }
        }),
{
    reveal(RunView::tool_prepared);
    reveal(RunView::tool_gate);
    let batch = run.phase->batch;
    let next = run.step(reply, observed, complaint);
    if run.config.tool_execution != ToolExecutionMode::Sequential && next.run.phase is Tools {
        lemma_slot_added(batch.slots, next.run.phase->batch.slots);
    }
}

/// A call that the hook before tool calls blocks is refused, with the reason that the hook gives,
/// if it gives one. Any other call runs with the arguments in the hook's answer, as they are,
/// unless the run was cancelled.
pub proof fn law_hook_has_its_say(
    run: RunView,
    reply: ReplyView,
    observed: Observed,
    complaint: Seq<char>,
)
    requires
        run.wf(),
        run.phase is Tools,
        run.phase->batch.stage is Asking,
        reply is Before,
    ensures
        ({
            let batch = run.phase->batch;
            let handle = batch.stage->handle;
            let next = run.step(reply, observed, complaint);
            match reply->result {
                Some(answer) if answer.block => refuses(
                    run,
                    batch,
                    next,
                    match answer.reason {
                        Some(reason) => reason,
                        None => "Tool execution was blocked"@,
                    },
                    false,
                ),
                _ => if observed.cancelled {
                    refuses(run, batch, next, AgentErrorView::Aborted.text(), true)
                } else {
                    clears(run, batch, next, handle, reply->args)
                },
            }
        }),
{
    reveal(RunView::tool_asked);
    reveal(RunView::tool_gate);
    let batch = run.phase->batch;
    let next = run.step(reply, observed, complaint);
    if run.config.tool_execution != ToolExecutionMode::Sequential && next.run.phase is Tools {
        lemma_slot_added(batch.slots, next.run.phase->batch.slots);
    }
}

/// Whether an answer lets the call at the given place go on to run, with this tool and these
/// arguments: they are the prepared ones, accepted by the schema, where no hook is asked, and
/// those in the answer of the hook where one is.
pub open spec fn grants(
    run: RunView,
    reply: ReplyView,
    place: nat,
    tool: HookId,
    args: Value,
) -> bool {
    &&& run.phase is Tools
    &&& run.phase->batch.cursor == place
    &&& match run.phase->batch.stage {
        ToolStageView::Preparing { tool: prepared } => {
            &&& run.config.before_tool_call is None
            &&& reply == ReplyView::Arguments(args)
            &&& tool == prepared.handle
            &&& compiled_schema(prepared.parameters) matches Some(validator)
                && is_accepted(validator, args)
        },
        ToolStageView::Asking { handle } => {
            &&& reply matches ReplyView::Before { result, args: given }
                && given == args && !(result matches Some(answer) && answer.block)
            &&& tool == handle
        },
        _ => false,
    }
}

/// Whether a step runs tools only with what was granted, and keeps what is in the slots.
pub open spec fn runs_as_granted(
    run: RunView,
    reply: ReplyView,
    observed: Observed,
    next: ProgressView,
) -> bool {
    &&& next.request matches RequestView::ExecuteTool { tool, tool_call, args, cancel } ==> {
        &&& run.phase is Tools
        &&& run.config.tool_execution == ToolExecutionMode::Sequential
        &&& grants(run, reply, run.phase->batch.cursor, tool, args)
        &&& next.run.phase is Tools
        &&& next.run.phase->batch.cursor == run.phase->batch.cursor
        &&& next.run.phase->batch.stage == (ToolStageView::Executing { args })
        &&& tool_call == run.phase->batch.calls[run.phase->batch.cursor as int]
        &&& cancel == run.cancel
        &&& !observed.cancelled
    }
    &&& next.request matches RequestView::SpawnTool { slot, tool, tool_call, args, cancel } ==> {
        &&& run.phase is Tools
        &&& next.run.phase is Tools
        &&& run.config.tool_execution != ToolExecutionMode::Sequential
        &&& slot < next.run.phase->batch.slots.len()
        &&& next.run.phase->batch.slots[slot as int] == (ToolSlotView::Runnable { tool, args })
        &&& tool_call == run.phase->batch.calls[slot as int]
        &&& cancel == run.cancel
        &&& !observed.cancelled
    }
    &&& run.phase is Tools && next.run.phase is Tools ==> {
        let slots = run.phase->batch.slots;
        let more = next.run.phase->batch.slots;
        &&& same_calls(run.phase->batch, next.run.phase->batch)
        &&& slots.len() <= more.len() <= slots.len() + 1
        &&& more.take(slots.len() as int) == slots
        &&& slots.len() < more.len() ==> {
            &&& run.phase->batch.cursor == slots.len()
            &&& more.last() matches ToolSlotView::Runnable { tool, args } ==> grants(
                run,
                reply,
                slots.len(),
                tool,
                args,
            )
        }
    }
    &&& !(run.phase is Tools) && next.run.phase is Tools
        ==> next.run.phase->batch.slots.len() == 0
}

/// A tool is only run with the arguments that the answer led to: those that the schema accepted
/// where no hook is asked, those in the hook's answer where one is. Calls that run one after the
/// other run at once; calls that run together run from their slots, which keep what was put in.
pub proof fn law_tools_get_granted_arguments(
    run: RunView,
    reply: ReplyView,
    observed: Observed,
    complaint: Seq<char>,
)
    requires
        run.wf(),
        run.accepts(reply),
    ensures
        runs_as_granted(run, reply, observed, run.step(reply, observed, complaint)),
{
    if run.phase is Tools {
        match run.phase->batch.stage {
            ToolStageView::Gate | ToolStageView::Started => {
                lemma_granted_before(run, reply, observed, complaint);
            },
            ToolStageView::Preparing { .. } => {
                lemma_granted_prepared(run, reply, observed, complaint);
            },
            ToolStageView::Asking { .. } => {
                lemma_granted_asked(run, reply, observed, complaint);
            },
            _ => {
                lemma_granted_after(run, reply, observed, complaint);
            },
        }
    } else {
        reveal(RunView::steered);
        reveal(RunView::followed_up);
        reveal(RunView::transformed);
        reveal(RunView::converted);
        reveal(RunView::key_resolved);
        reveal(RunView::opened);
        reveal(RunView::streamed);
    }
}

/// Before and at the announcement of a call.
proof fn lemma_granted_before(
    run: RunView,
    reply: ReplyView,
    observed: Observed,
    complaint: Seq<char>,
)
    requires
        run.wf(),
        run.accepts(reply),
        run.phase is Tools,
        run.phase->batch.stage is Gate || run.phase->batch.stage is Started,
    ensures
        runs_as_granted(run, reply, observed, run.step(reply, observed, complaint)),
{
    reveal(RunView::tool_gate);
    reveal(RunView::tool_started);
    reveal(RunView::settle);
    let batch = run.phase->batch;
    let next = run.step(reply, observed, complaint);
    if next.run.phase is Tools {
        let after = next.run.phase->batch;
        lemma_slot_added(batch.slots, after.slots);
        lemma_next_runnable(after.slots, 0);
        lemma_next_runnable(after.slots, batch.cursor + 1);
        assert(after.slots.take(batch.slots.len() as int) =~= batch.slots);
    }
}

/// With the arguments of a call prepared.
proof fn lemma_granted_prepared(
    run: RunView,
    reply: ReplyView,
    observed: Observed,
    complaint: Seq<char>,
)
    requires
        run.wf(),
        run.accepts(reply),
        run.phase is Tools,
        run.phase->batch.stage is Preparing,
    ensures
        runs_as_granted(run, reply, observed, run.step(reply, observed, complaint)),
{
    reveal(RunView::tool_prepared);
    reveal(RunView::tool_gate);
    let batch = run.phase->batch;
    let next = run.step(reply, observed, complaint);
    if next.run.phase is Tools {
        let after = next.run.phase->batch;
        lemma_slot_added(batch.slots, after.slots);
        lemma_next_runnable(after.slots, 0);
        lemma_next_runnable(after.slots, batch.cursor + 1);
        assert(after.slots.take(batch.slots.len() as int) =~= batch.slots);
    }
}

/// With the hook asked about a call.
proof fn lemma_granted_asked(
    run: RunView,
    reply: ReplyView,
    observed: Observed,
    complaint: Seq<char>,
)
    requires
        run.wf(),
        run.accepts(reply),
        run.phase is Tools,
        run.phase->batch.stage is Asking,
    ensures
        runs_as_granted(run, reply, observed, run.step(reply, observed, complaint)),
{
    reveal(RunView::tool_asked);
    reveal(RunView::tool_gate);
    let batch = run.phase->batch;
    let next = run.step(reply, observed, complaint);
    if next.run.phase is Tools {
        let after = next.run.phase->batch;
        lemma_slot_added(batch.slots, after.slots);
        lemma_next_runnable(after.slots, 0);
        lemma_next_runnable(after.slots, batch.cursor + 1);
        assert(after.slots.take(batch.slots.len() as int) =~= batch.slots);
    }
}

/// With calls that run or have run.
proof fn lemma_granted_after(
    run: RunView,
    reply: ReplyView,
    observed: Observed,
    complaint: Seq<char>,
)
    requires
        run.wf(),
        run.accepts(reply),
        run.phase is Tools,
        !(run.phase->batch.stage is Gate),
        !(run.phase->batch.stage is Started),
        !(run.phase->batch.stage is Preparing),
        !(run.phase->batch.stage is Asking),
    ensures
        runs_as_granted(run, reply, observed, run.step(reply, observed, complaint)),
{
    reveal(RunView::tool_executed);
    reveal(RunView::tool_spawned);
    reveal(RunView::tool_joined);
    reveal(RunView::tool_finalized);
    reveal(RunView::tool_ended);
    reveal(RunView::settle);
    let batch = run.phase->batch;
    let next = run.step(reply, observed, complaint);
    if next.run.phase is Tools {
        let after = next.run.phase->batch;
        lemma_slot_added(batch.slots, after.slots);
        lemma_next_runnable(after.slots, 0);
        lemma_next_runnable(after.slots, batch.cursor + 1);
        assert(after.slots.take(batch.slots.len() as int) =~= batch.slots);
    }
}

/// The next runnable slot is the first one from there on that holds a runnable call.
proof fn lemma_next_runnable(slots: Seq<ToolSlotView>, from: nat)
    ensures
        ({
            let slot = next_runnable(slots, from);
            &&& slot <= slots.len()
            &&& slot < slots.len() ==> slots[slot as int] is Runnable && from <= slot
            &&& forall|j: int| from <= j < slot && j < slots.len() ==> !(
            #[trigger] slots[j] is Runnable)
        }),
    decreases slots.len() - from,
{
    if from < slots.len() && !(slots[from as int] is Runnable) {
        lemma_next_runnable(slots, from + 1);
    }
}

/// The sequential and the parallel mode hand a tool the same arguments: of two runs that differ
/// in nothing else, an answer that has the one run a tool at once puts the same tool with the
/// same arguments into a slot of the other.
pub proof fn law_modes_agree_on_arguments(
    one: RunView,
    other: RunView,
    reply: ReplyView,
    observed: Observed,
    complaint: Seq<char>,
)
    requires
        one.wf(),
        other.wf(),
        one.accepts(reply),
        one.phase is Tools,
        one.config.tool_execution == ToolExecutionMode::Sequential,
        other.config.tool_execution == ToolExecutionMode::Parallel,
        other.phase == one.phase,
        other.config.before_tool_call == one.config.before_tool_call,
    ensures
        ({
            let at_once = one.step(reply, observed, complaint);
            let slotted = other.step(reply, observed, complaint);
            at_once.request matches RequestView::ExecuteTool { tool, args, .. } ==> {
                &&& slotted.run.phase is Tools
                &&& slotted.run.phase->batch.slots.len() == one.phase->batch.slots.len() + 1
                &&& slotted.run.phase->batch.slots.last() == (ToolSlotView::Runnable {
                    tool,
                    args,
                })
            }
        }),
{
    law_tools_get_granted_arguments(one, reply, observed, complaint);
    if one.step(reply, observed, complaint).request is ExecuteTool {
        if one.phase->batch.stage is Preparing {
            law_checked_arguments_go_on(other, reply, observed, complaint);
        } else {
            law_hook_has_its_say(other, reply, observed, complaint);
        }
    }
}

/// Whether the calls in the slots are closed from the given one on: where that slot holds a
/// refused call, its end is announced; where it holds a started call, that call is waited for;
/// where it holds one that was never started, its end is announced as aborted; and behind the
/// last slot nothing is left to close.
pub open spec fn closes_from(run: RunView, cursor: nat, next: ProgressView) -> bool {
    &&& only_phase(run, next.run)
    &&& next.run.phase matches PhaseView::Tools { batch: after }
        && after.cursor == cursor && if cursor >= after.slots.len() {
            &&& after.stage is Done
            &&& next.request is Checkpoint
        } else {
            match after.slots[cursor as int] {
                ToolSlotView::Closed { result, is_error } => ends(
                    run,
                    after,
                    cursor,
                    next,
                    result,
                    is_error,
                ),
                ToolSlotView::Runnable { .. } => if cursor < after.spawned {
                    &&& after.stage is Joining
                    &&& next.request == (RequestView::JoinTool { slot: cursor })
                } else {
                    &&& after.stage matches ToolStageView::Ending { result, .. }
                        && tells(result, AgentErrorView::Aborted.text())
                        && ends(run, after, cursor, next, result, true)
                },
            }
        }
}

/// Calls that run together start in the order of their slots, and none that may run is left out:
/// behind a started call comes the next runnable one. Once the last of them was started, or the
/// run was cancelled, the calls are closed, from the first one on.
pub proof fn law_calls_start_in_order(run: RunView, observed: Observed, complaint: Seq<char>)
    requires
        run.wf(),
        run.phase is Tools,
        run.phase->batch.stage is Spawning,
    ensures
        ({
            let batch = run.phase->batch;
            let slots = batch.slots;
            let next = run.step(ReplyView::Done, observed, complaint);
            &&& next.run.phase is Tools
            &&& same_calls(batch, next.run.phase->batch)
            &&& next.run.phase->batch.slots == slots
            &&& next.run.phase->batch.results == batch.results
            &&& next.run.phase->batch.spawned == batch.cursor + 1
            &&& observed.cancelled || (forall|j: int|
                batch.cursor < j < slots.len() ==> !(#[trigger] slots[j] is Runnable))
                ==> closes_from(run, 0, next)
            &&& forall|i: int|
                #![trigger slots[i]]
                batch.cursor < i < slots.len() && slots[i] is Runnable && (forall|j: int|
                    batch.cursor < j < i ==> !(#[trigger] slots[j] is Runnable))
                    && !observed.cancelled ==> {
                    &&& only_phase(run, next.run)
                    &&& next.events.len() == 0
                    &&& next.request matches RequestView::SpawnTool { slot, .. } && slot == i
                    &&& next.run.phase->batch.cursor == i
                    &&& next.run.phase->batch.stage is Spawning
                }
        }),
{
    reveal(RunView::tool_spawned);
    let batch = run.phase->batch;
    lemma_next_runnable(batch.slots, batch.cursor + 1);
}

/// Where calls run together, preparing them comes first: behind a call that has its slot, the
/// next call is announced. Once each call has its slot, or the run was cancelled, the first
/// runnable call starts; where none may run, or the run was cancelled, the calls are closed, from
/// the first one on.
pub proof fn law_prepared_calls_start(
    run: RunView,
    reply: ReplyView,
    observed: Observed,
    complaint: Seq<char>,
)
    requires
        run.wf(),
        run.accepts(reply),
        run.phase is Tools,
        run.config.tool_execution != ToolExecutionMode::Sequential,
        ({
            let stage = run.phase->batch.stage;
            stage is Gate || stage is Started || stage is Preparing || stage is Asking
        }),
    ensures
        ({
            let batch = run.phase->batch;
            let next = run.step(reply, observed, complaint);
            let after = next.run.phase->batch;
            let slots = after.slots;
            &&& next.run.phase is Tools
            &&& after.results == batch.results
            &&& after.spawned == batch.spawned
            &&& slots.len() > batch.slots.len() && slots.len() < batch.calls.len()
                && !observed.cancelled ==> {
                &&& next.request is Checkpoint
                &&& next.events.len() == 1
                &&& announces(next.events[0], batch.calls[slots.len() as int])
                &&& after.stage is Started
                &&& after.cursor == slots.len()
            }
            &&& slots.len() == batch.calls.len() && !observed.cancelled ==> {
                &&& forall|i: int|
                    #![trigger slots[i]]
                    0 <= i < slots.len() && slots[i] is Runnable && (forall|j: int|
                        0 <= j < i ==> !(#[trigger] slots[j] is Runnable)) ==> {
                        &&& next.events.len() == 0
                        &&& next.request matches RequestView::SpawnTool { slot, .. } && slot == i
                        &&& after.cursor == i
                        &&& after.stage is Spawning
                    }
                &&& (forall|j: int| 0 <= j < slots.len() ==> !(#[trigger] slots[j] is Runnable))
                    ==> closes_from(run, 0, next)
            }
            &&& observed.cancelled && (batch.stage is Gate || slots.len() > batch.slots.len())
                ==> closes_from(run, 0, next)
        }),
{
    let batch = run.phase->batch;
    let next = run.step(reply, observed, complaint);
    let after = next.run.phase->batch;
    match batch.stage {
        ToolStageView::Gate => {
            reveal(RunView::tool_gate);
        },
        ToolStageView::Started => {
            reveal(RunView::tool_started);
            reveal(RunView::tool_gate);
        },
        ToolStageView::Preparing { .. } => {
            reveal(RunView::tool_prepared);
            reveal(RunView::tool_gate);
        },
        _ => {
            reveal(RunView::tool_asked);
            reveal(RunView::tool_gate);
        },
    }
    lemma_slot_added(batch.slots, after.slots);
    lemma_next_runnable(after.slots, 0);
}

/// Whether this is what came of an execution: what the tool returned, or the text of the error
/// with which it failed.
pub open spec fn came_of(
    execution: ExecutionView,
    result: AgentToolResultView,
    is_error: bool,
) -> bool {
    match execution {
        ExecutionView::Returned(returned) => result == returned && !is_error,
        ExecutionView::Failed(error) => tells(result, error.text()) && is_error,
    }
}

/// What comes of a call that ran is what its tool returned, or the error with which it failed. It
/// goes to the hook after tool calls, where there is one, together with the call, the arguments
/// that the call ran with, the message and the context; otherwise the call ends with it.
pub proof fn law_execution_is_told(
    run: RunView,
    reply: ReplyView,
    observed: Observed,
    complaint: Seq<char>,
)
    requires
        run.wf(),
        run.accepts(reply),
        run.phase is Tools,
        run.phase->batch.stage is Executing || run.phase->batch.stage is Joining,
        !reply.is_broken_join(),
    ensures
        ({
            let batch = run.phase->batch;
            let call = batch.calls[batch.cursor as int];
            let execution = match reply {
                ReplyView::Executed(execution) => execution,
                _ => reply->Joined_0->Finished_0,
            };
            let ran_with = match batch.stage {
                ToolStageView::Executing { args } => args,
                _ => batch.slots[batch.cursor as int]->args,
            };
            let next = run.step(reply, observed, complaint);
            let after = next.run.phase->batch;
            &&& only_phase(run, next.run)
            &&& next.run.phase is Tools
            &&& same_calls(batch, after)
            &&& after.cursor == batch.cursor
            &&& after.slots == batch.slots
            &&& after.spawned == batch.spawned
            &&& after.results == batch.results
            &&& match run.config.after_tool_call {
                Some(hook) => {
                    &&& next.events.len() == 0
                    &&& next.request matches RequestView::AfterToolCall {
                        hook: asked,
                        after_context,
                        cancel,
                    } && asked == hook && cancel == run.cancel
                        && after_context.assistant_message == batch.message
                        && after_context.tool_call == call && after_context.args == ran_with
                        && after_context.context == run.context
                        && came_of(execution, after_context.result, after_context.is_error)
                        && after.stage == (ToolStageView::Finalizing {
                        result: after_context.result,
                        is_error: after_context.is_error,
                    })
                },
                None => {
                    &&& next.events.len() == 1
                    &&& after.stage matches ToolStageView::Ending { result, is_error, stop }
                        && came_of(execution, result, is_error) && !stop
                        && ends(run, batch, batch.cursor, next, result, is_error)
                },
            }
        }),
{
    reveal(RunView::tool_executed);
    reveal(RunView::tool_joined);
}

/// The hook after tool calls overrides what came of a call field by field: what its answer sets,
/// the outcome has; what its answer omits, the outcome has from the tool, whatever else the
/// answer sets.
pub proof fn law_after_hook_overrides_fields(
    run: RunView,
    reply: ReplyView,
    observed: Observed,
    complaint: Seq<char>,
)
    requires
        run.wf(),
        run.phase is Tools,
        run.phase->batch.stage is Finalizing,
        reply is After,
    ensures
        ({
            let batch = run.phase->batch;
            let next = run.step(reply, observed, complaint);
            let before = batch.stage->Finalizing_result;
            let was_error = batch.stage->Finalizing_is_error;
            &&& next.events.len() == 1
            &&& next.run.phase is Tools
            &&& next.run.phase->batch.slots == batch.slots
            &&& next.run.phase->batch.spawned == batch.spawned
            &&& next.run.phase->batch.results == batch.results
            &&& next.run.phase->batch.stage matches ToolStageView::Ending { result, is_error, stop }
                && !stop && ends(run, batch, batch.cursor, next, result, is_error)
                && match reply->After_0 {
                None => result == before && is_error == was_error,
                Some(by) => {
                    &&& by.content is None ==> result.content == before.content
                    &&& by.content matches Some(content) ==> result.content == content
                    &&& by.details is None ==> result.details == before.details
                    &&& by.details is Some ==> result.details == by.details
                    &&& by.is_error is None ==> is_error == was_error
                    &&& by.is_error matches Some(overriding) ==> is_error == overriding
                },
            }
        }),
{
    reveal(RunView::tool_finalized);
}

/// Once the end of a call was announced, a message with what came of it is shown, made now, and
/// kept among the results of the turn. The next call follows, unless no further one is looked at.
pub proof fn law_result_message_tells_what_came(
    run: RunView,
    observed: Observed,
    complaint: Seq<char>,
)
    requires
        run.wf(),
        run.phase is Tools,
        run.phase->batch.stage is Ending,
    ensures
        ({
            let batch = run.phase->batch;
            let call = batch.calls[batch.cursor as int];
            let came = batch.stage->Ending_result;
            let error = batch.stage->Ending_is_error;
            let next = run.step(ReplyView::Done, observed, complaint);
            let after = next.run.phase->batch;
            let message = after.results.last();
            &&& only_phase(run, next.run)
            &&& next.run.phase is Tools
            &&& same_calls(batch, after)
            &&& after.slots == batch.slots
            &&& after.spawned == batch.spawned
            &&& after.results.len() == batch.results.len() + 1
            &&& after.results.drop_last() == batch.results
            &&& message.tool_call_id == call.id
            &&& message.tool_name == call.name
            &&& message.content == came.content
            &&& message.details == came.details
            &&& message.is_error == error
            &&& message.timestamp == observed.now
            &&& next.events.len() >= 2
            &&& next.events[0] == (AgentEventView::MessageStart {
                message: AgentMessageView::ToolResult(message),
            })
            &&& next.events[1] == (AgentEventView::MessageEnd {
                message: AgentMessageView::ToolResult(message),
            })
            &&& if run.config.tool_execution == ToolExecutionMode::Sequential {
                &&& next.events.len() == 2
                &&& next.request is Checkpoint
                &&& after.cursor == batch.cursor + 1
                &&& if batch.stage->stop {
                    after.stage is Done
                } else {
                    after.stage is Gate
                }
            } else {
                &&& closes_from(run, batch.cursor + 1, next)
                &&& next.events.len() == 2 || (next.events.len() == 3 && after.stage is Ending)
            }
        }),
{
    reveal(RunView::tool_ended);
    let batch = run.phase->batch;
    let next = run.step(ReplyView::Done, observed, complaint);
    let after = next.run.phase->batch;
    assert(after.results.drop_last() =~= batch.results);
}

/// With every call dealt with, the turn ends: its end tells of the model's message and of all
/// results, and the results enter the transcript in order. A run that was cancelled ends as
/// aborted; any other polls steering.
pub proof fn law_turn_ends_with_results(
    run: RunView,
    observed: Observed,
    complaint: Seq<char>,
)
    requires
        run.wf(),
        run.phase is Tools,
        ({
            let batch = run.phase->batch;
            ||| batch.stage is Done
            ||| {
                &&& batch.stage is Gate
                &&& run.config.tool_execution == ToolExecutionMode::Sequential
                &&& observed.cancelled || batch.cursor >= batch.calls.len()
            }
        }),
    ensures
        ({
            let batch = run.phase->batch;
            let next = run.step(ReplyView::Done, observed, complaint);
            let messages = next.run.context.messages;
            let added = next.run.new_messages;
            &&& next.events.len() >= 1
            &&& next.events[0] == (AgentEventView::TurnEnd {
                message: AgentMessageView::Assistant(batch.message),
                tool_results: batch.results,
            })
            &&& messages.len() == run.context.messages.len() + batch.results.len()
            &&& messages.take(run.context.messages.len() as int) == run.context.messages
            &&& added.len() == run.new_messages.len() + batch.results.len()
            &&& added.take(run.new_messages.len() as int) == run.new_messages
            &&& forall|i: int|
                #![trigger batch.results[i]]
                0 <= i < batch.results.len() ==> {
                    let entry = AgentMessageView::ToolResult(batch.results[i]);
                    &&& messages[run.context.messages.len() + i] == entry
                    &&& added[run.new_messages.len() + i] == entry
                }
            &&& if observed.cancelled {
                &&& next.events.len() == 2
                &&& next.events[1] == (AgentEventView::RunAborted { messages: added })
                &&& next.request is Finish
            } else {
                &&& next.events.len() == 1
                &&& next.run.phase == (PhaseView::Steering { after_tools: true })
                &&& next.request == match run.config.get_steering_messages {
                    Some(source) => RequestView::PollSteering { source },
                    None => RequestView::Checkpoint,
                }
            }
        }),
{
    reveal(RunView::tool_gate);
    reveal(RunView::settle);
    let batch = run.phase->batch;
    let next = run.step(ReplyView::Done, observed, complaint);
    assert(next.run.context.messages.take(run.context.messages.len() as int)
        =~= run.context.messages);
    assert(next.run.new_messages.take(run.new_messages.len() as int) =~= run.new_messages);
}

/// Whether results tell what came of the refused calls at the given places: one for each, with
/// the call's id and name, in the order of the calls, made at the given time.
pub open spec fn tells_refused(
    batch: ToolBatchView,
    places: Seq<int>,
    results: Seq<ToolResultMessageView>,
    now: i64,
) -> bool {
    &&& results.len() == places.len()
    &&& forall|k: int|
        #![trigger places[k]]
        0 <= k < places.len() ==> {
            &&& batch.slots[places[k]] matches ToolSlotView::Closed { result, is_error }
                && results[k].content == result.content && results[k].details == result.details
                && results[k].is_error == is_error
            &&& results[k].tool_call_id == batch.calls[places[k]].id
            &&& results[k].tool_name == batch.calls[places[k]].name
            &&& results[k].timestamp == now
        }
}

/// Whether these are the places of all refused calls from one slot up to another, in order.
pub open spec fn are_refused_places(
    batch: ToolBatchView,
    places: Seq<int>,
    from: int,
    to: int,
) -> bool {
    &&& forall|k: int|
        0 <= k < places.len() ==> from <= #[trigger] places[k] < to
            && batch.slots[places[k]] is Closed
    &&& forall|j: int, k: int|
        0 <= j < k < places.len() ==> #[trigger] places[j] < #[trigger] places[k]
    &&& forall|i: int|
        from <= i < to && #[trigger] batch.slots[i] is Closed ==> places.contains(i)
}

/// The refused calls behind a broken one are closed in order, each by the announcement of its end
/// and by a message with what came of it.
proof fn lemma_refused_places(batch: ToolBatchView, from: nat, to: nat, now: i64)
    ensures
        exists|places: Seq<int>|
            {
                &&& #[trigger] are_refused_places(batch, places, from as int, to as int)
                &&& tells_refused(batch, places, batch.refused_results(from, to, now), now)
            },
        ({
            let results = batch.refused_results(from, to, now);
            let events = batch.refused_events(from, to, now);
            &&& events.len() == 3 * results.len()
            &&& forall|k: int|
                #![trigger results[k]]
                0 <= k < results.len() ==> {
                    let entry = AgentMessageView::ToolResult(results[k]);
                    &&& events[3 * k] == (AgentEventView::ToolExecutionEnd {
                        tool_call_id: results[k].tool_call_id,
                        tool_name: results[k].tool_name,
                        result: AgentToolResultView {
                            content: results[k].content,
                            details: results[k].details,
                        },
                        is_error: results[k].is_error,
                    })
                    &&& events[3 * k + 1] == (AgentEventView::MessageStart { message: entry })
                    &&& events[3 * k + 2] == (AgentEventView::MessageEnd { message: entry })
                }
        }),
    decreases to,
{
    if to <= from {
        let places = Seq::<int>::empty();
        assert(are_refused_places(batch, places, from as int, to as int));
    } else {
        let most = (to - 1) as nat;
        lemma_refused_places(batch, from, most, now);
        let earlier = choose|places: Seq<int>|
            {
                &&& #[trigger] are_refused_places(batch, places, from as int, most as int)
                &&& tells_refused(batch, places, batch.refused_results(from, most, now), now)
            };
        if batch.slots[to - 1] is Closed {
            let places = earlier.push(to - 1);
            assert forall|i: int| from <= i < to && #[trigger] batch.slots[i] is Closed implies
                places.contains(i) by {
                if i < to - 1 {
                    let k = choose|k: int| 0 <= k < earlier.len() && earlier[k] == i;
                    assert(places[k] == i);
                } else {
                    assert(places[earlier.len() as int] == i);
                }
            }
            assert(are_refused_places(batch, places, from as int, to as int));
            assert forall|k: int| #![trigger places[k]] 0 <= k < places.len() implies {
                let result = batch.refused_results(from, to, now)[k];
                &&& batch.slots[places[k]] matches ToolSlotView::Closed { result: came, is_error }
                    && result.content == came.content && result.details == came.details
                    && result.is_error == is_error
                &&& result.tool_call_id == batch.calls[places[k]].id
                &&& result.tool_name == batch.calls[places[k]].name
                &&& result.timestamp == now
            } by {
                if k < earlier.len() {
                    assert(places[k] == earlier[k]);
                }
            }
            assert(tells_refused(batch, places, batch.refused_results(from, to, now), now));
        } else {
            assert(are_refused_places(batch, earlier, from as int, to as int));
        }
    }
}

/// Where the task of a call breaks, the run fails with that error and starts nothing more. The
/// refused calls behind that call are closed first, in order, each by the announcement of its end
/// and by a message made now; the end of the turn tells of all results.
pub proof fn law_broken_task_closes_refused_calls(
    run: RunView,
    reply: ReplyView,
    observed: Observed,
    complaint: Seq<char>,
)
    requires
        run.wf(),
        run.accepts(reply),
        reply.is_broken_join(),
    ensures
        ({
            let batch = run.phase->batch;
            let next = run.step(reply, observed, complaint);
            let error = AgentErrorView::JoinError(reply->Joined_0->Broken_0);
            let count = next.events.len() - 4;
            let turn_end = next.events[count + 2];
            let all = turn_end->tool_results;
            let late = all.skip(batch.results.len() as int);
            &&& next.request matches RequestView::Finish { outcome }
                && outcome matches RunOutcomeView::Failed { error: told, .. } && told == error
            &&& count >= 0
            &&& turn_end is TurnEnd
            &&& all.len() >= batch.results.len()
            &&& all.take(batch.results.len() as int) == batch.results
            &&& count == 3 * late.len()
            &&& exists|places: Seq<int>|
                {
                    &&& #[trigger] are_refused_places(
                        batch,
                        places,
                        batch.cursor as int + 1,
                        batch.slots.len() as int,
                    )
                    &&& tells_refused(batch, places, late, observed.now)
                }
            &&& forall|k: int|
                #![trigger late[k]]
                0 <= k < late.len() ==> {
                    let entry = AgentMessageView::ToolResult(late[k]);
                    &&& next.events[3 * k] == (AgentEventView::ToolExecutionEnd {
                        tool_call_id: late[k].tool_call_id,
                        tool_name: late[k].tool_name,
                        result: AgentToolResultView {
                            content: late[k].content,
                            details: late[k].details,
                        },
                        is_error: late[k].is_error,
                    })
                    &&& next.events[3 * k + 1] == (AgentEventView::MessageStart { message: entry })
                    &&& next.events[3 * k + 2] == (AgentEventView::MessageEnd { message: entry })
                }
        }),
{
    reveal(RunView::tool_joined);
    let batch = run.phase->batch;
    let rest = batch.at(ToolStageView::Done);
    let late = rest.refused_results(batch.cursor + 1, batch.slots.len(), observed.now);
    let events = rest.refused_events(batch.cursor + 1, batch.slots.len(), observed.now);
    let next = run.step(reply, observed, complaint);
    lemma_refused_places(rest, batch.cursor + 1, batch.slots.len(), observed.now);
    let places = choose|places: Seq<int>|
        {
            &&& #[trigger] are_refused_places(
                rest,
                places,
                batch.cursor as int + 1,
                batch.slots.len() as int,
            )
            &&& tells_refused(rest, places, late, observed.now)
        };
    assert(are_refused_places(batch, places, batch.cursor as int + 1, batch.slots.len() as int));
    let all = batch.results + late;
    assert(all.skip(batch.results.len() as int) =~= late);
    assert(all.take(batch.results.len() as int) =~= batch.results);
    assert(next.events.len() == events.len() + 4);
    assert(tells_refused(batch, places, late, observed.now));
}

} // verus!
