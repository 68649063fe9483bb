//! Laws of whole runs on what tools and the model are called with, over every sequence of answers
//! that a driver can give.

use crate::agent_loop::laws::{fitting, lemma_history, progress_after, Answer};
use crate::agent_loop::model_laws::{calls_as_configured, law_model_is_called_as_configured};
use crate::agent_loop::protocol::RequestView;
use crate::agent_loop::state::{ProgressView, RunView, ToolSlotView};
use crate::agent_loop::tool_laws::{grants, law_tools_get_granted_arguments};
use crate::types::config::{AgentLoopConfig, HookId};
use crate::types::content::ToolCallContentView;
use crate::types::message::AgentMessageView;
use crate::types::tool::AgentContextView;
use serde_json::Value;
use tokio_util::sync::CancellationToken;
use vstd::prelude::*;

verus! {

/// Whether one of the answers let the call at the given place of these calls go on to run, with
/// this tool and these arguments.
pub open spec fn granted(
    start: ProgressView,
    answers: Seq<Answer>,
    calls: Seq<ToolCallContentView>,
    place: nat,
    tool: HookId,
    args: Value,
) -> bool
    decreases answers.len(),
{
    &&& answers.len() > 0
    &&& {
        let before = progress_after(start, answers.drop_last()).run;
        ||| granted(start, answers.drop_last(), calls, place, tool, args)
        ||| grants(before, answers.last().reply, place, tool, args)
            && before.phase->batch.calls == calls
    }
}

/// What the slots of a run hold was granted.
proof fn lemma_slots_are_granted(
    prompts: Seq<AgentMessageView>,
    context: AgentContextView,
    config: AgentLoopConfig,
    cancel: CancellationToken,
    answers: Seq<Answer>,
)
    requires
        fitting(RunView::start(prompts, context, config, cancel), answers),
    ensures
        ({
            let start = RunView::start(prompts, context, config, cancel);
            let now = progress_after(start, answers);
            now.run.phase is Tools ==> {
                let batch = now.run.phase->batch;
                forall|i: int|
                    #![trigger batch.slots[i]]
                    0 <= i < batch.slots.len() ==> (batch.slots[i] matches ToolSlotView::Runnable {
                        tool,
                        args,
                    } ==> granted(start, answers, batch.calls, i as nat, tool, args))
            }
        }),
    decreases answers.len(),
{
    let start = RunView::start(prompts, context, config, cancel);
    let now = progress_after(start, answers);
    if answers.len() > 0 && now.run.phase is Tools {
        let earlier = answers.drop_last();
        let last = answers.last();
        let before = progress_after(start, earlier).run;
        lemma_slots_are_granted(prompts, context, config, cancel, earlier);
        lemma_history(prompts, context, config, cancel, earlier);
        law_tools_get_granted_arguments(before, last.reply, last.observed, last.complaint);
        let batch = now.run.phase->batch;
        assert forall|i: int| #![trigger batch.slots[i]] 0 <= i < batch.slots.len() implies (
        batch.slots[i] matches ToolSlotView::Runnable { tool, args } ==> granted(
            start,
            answers,
            batch.calls,
            i as nat,
            tool,
            args,
        )) by {
            if before.phase is Tools {
                let slots = before.phase->batch.slots;
                if i < slots.len() {
                    assert(batch.slots.take(slots.len() as int)[i] == slots[i]);
                }
            }
        }
    }
}

/// In either mode of execution, whatever a run has a tool run with was granted by one of the
/// answers, for that very call: arguments that the schema accepted where no hook is asked, and
/// those in the hook's answer where one is.
pub proof fn law_every_call_runs_as_granted(
    prompts: Seq<AgentMessageView>,
    context: AgentContextView,
    config: AgentLoopConfig,
    cancel: CancellationToken,
    answers: Seq<Answer>,
)
    requires
        fitting(RunView::start(prompts, context, config, cancel), answers),
    ensures
        ({
            let start = RunView::start(prompts, context, config, cancel);
            let now = progress_after(start, answers);
            &&& now.request matches RequestView::ExecuteTool { tool, tool_call, args, .. } ==> {
                let batch = now.run.phase->batch;
                &&& now.run.phase is Tools
                &&& tool_call == batch.calls[batch.cursor as int]
                &&& granted(start, answers, batch.calls, batch.cursor, tool, args)
            }
            &&& now.request matches RequestView::SpawnTool { slot, tool, tool_call, args, .. } ==> {
                let batch = now.run.phase->batch;
                &&& now.run.phase is Tools
                &&& tool_call == batch.calls[slot as int]
                &&& granted(start, answers, batch.calls, slot, tool, args)
            }
        }),
{
    let start = RunView::start(prompts, context, config, cancel);
    let now = progress_after(start, answers);
    lemma_history(prompts, context, config, cancel, answers);
    if answers.len() > 0 {
        let earlier = answers.drop_last();
        let last = answers.last();
        let before = progress_after(start, earlier).run;
        lemma_history(prompts, context, config, cancel, earlier);
        law_tools_get_granted_arguments(before, last.reply, last.observed, last.complaint);
        lemma_slots_are_granted(prompts, context, config, cancel, answers);
    }
}

/// Every call of the model in a run is made as the run was configured at its start: with that
/// model, system prompt and tools, and with each option but the key as configured.
pub proof fn law_every_model_call_is_as_configured(
    prompts: Seq<AgentMessageView>,
    context: AgentContextView,
    config: AgentLoopConfig,
    cancel: CancellationToken,
    answers: Seq<Answer>,
)
    requires
        fitting(RunView::start(prompts, context, config, cancel), answers),
    ensures
        ({
            let start = RunView::start(prompts, context, config, cancel);
            let now = progress_after(start, answers);
            &&& calls_as_configured(start.run, now.request)
            &&& now.request matches RequestView::OpenStream { model, llm_context, request } ==> {
                &&& model == config.model.deep_view()
                &&& llm_context.system_prompt == context.system_prompt
                &&& request.cancel == cancel
                &&& request.options.reasoning == config.reasoning
            }
        }),
{
    let start = RunView::start(prompts, context, config, cancel);
    lemma_history(prompts, context, config, cancel, answers);
    if answers.len() > 0 {
        let earlier = answers.drop_last();
        let last = answers.last();
        let before = progress_after(start, earlier).run;
        lemma_history(prompts, context, config, cancel, earlier);
        law_model_is_called_as_configured(before, last.reply, last.observed, last.complaint);
    }
}

} // verus!
