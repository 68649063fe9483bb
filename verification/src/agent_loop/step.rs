//! Starting a run, and taking it one step further.

use crate::agent_loop::protocol::{
    Execution, Join, Observed, Opening, Reply, ReplyView, StreamPoll,
};
use crate::agent_loop::state::{
    emit, AgentLoop, Phase, PhaseView, Progress, ProgressView, RunView, ToolBatch, ToolBatchView,
    ToolStage, ToolStageView,
};
use crate::agent_loop::turn::{append_all, show_messages, shown_messages};
use crate::types::config::AgentLoopConfig;
use crate::types::error::{AgentError, AgentErrorView};
use crate::types::event::{AgentEvent, AgentEventView};
use crate::types::message::{AgentMessage, AgentMessageView, Message};
use crate::types::tool::{
    AfterToolCallResult, AgentContext, AgentContextView, BeforeToolCallResult,
};
use serde_json::Value;
use tokio_util::sync::CancellationToken;
use vstd::prelude::*;

verus! {

impl RunView {
    /// The run at its start: the prompts enter the transcript, and steering is polled.
    pub open spec fn start(
        prompts: Seq<AgentMessageView>,
        context: AgentContextView,
        config: AgentLoopConfig,
        cancel: CancellationToken,
    ) -> ProgressView {
        let run = RunView {
            config,
            cancel,
            context,
            new_messages: Seq::empty(),
            first_turn: true,
            phase: PhaseView::Finished,
        };
        run.with_messages(prompts).poll_steering(
            true,
            seq![AgentEventView::AgentStart, AgentEventView::TurnStart] + shown_messages(prompts),
        )
    }

    /// The run, waiting for nothing.
    pub open spec fn idle(self) -> RunView {
        RunView { phase: PhaseView::Finished, ..self }
    }

    /// The run, taken one step further by an answer to its request. The complaint tells of the
    /// schema of a tool, where the step checks arguments against one that does not compile.
    pub open spec fn step(
        self,
        reply: ReplyView,
        observed: Observed,
        complaint: Seq<char>,
    ) -> ProgressView {
        let run = self.idle();
        match self.phase {
            PhaseView::Steering { after_tools } => run.steered(
                after_tools,
                reply.messages(),
                observed,
            ),
            PhaseView::FollowUp => run.followed_up(reply.messages(), observed),
            PhaseView::Transform => run.transformed(reply.messages()),
            PhaseView::Convert => run.converted(reply->LlmMessages_0),
            PhaseView::ApiKey { messages } => run.key_resolved(messages, reply->ApiKey_0),
            PhaseView::Open => run.opened(reply->Opened_0, observed),
            PhaseView::Stream { partial, shown } => run.streamed(
                partial,
                shown,
                reply->Streamed_0,
                observed,
            ),
            PhaseView::Tools { batch } => run.tool_step(batch, reply, observed, complaint),
            PhaseView::Finished => arbitrary(),
        }
    }

    /// The tool calls of the run, taken one step further.
    pub open spec fn tool_step(
        self,
        batch: ToolBatchView,
        reply: ReplyView,
        observed: Observed,
        complaint: Seq<char>,
    ) -> ProgressView {
        let rest = batch.at(ToolStageView::Done);
        match batch.stage {
            ToolStageView::Gate => self.tool_gate(rest, observed),
            ToolStageView::Started => self.tool_started(rest, observed),
            ToolStageView::Preparing { tool } => self.tool_prepared(
                rest,
                tool,
                reply->Arguments_0,
                observed,
                complaint,
            ),
            ToolStageView::Asking { handle } => self.tool_asked(
                rest,
                handle,
                reply->result,
                reply->args,
                observed,
            ),
            ToolStageView::Executing { args } => self.tool_executed(rest, args, reply->Executed_0),
            ToolStageView::Spawning => self.tool_spawned(rest, observed),
            ToolStageView::Joining => self.tool_joined(rest, reply->Joined_0, observed),
            ToolStageView::Finalizing { result, is_error } => self.tool_finalized(
                rest,
                result,
                is_error,
                reply->After_0,
            ),
            ToolStageView::Ending { result, is_error, stop } => self.tool_ended(
                rest,
                result,
                is_error,
                stop,
                observed,
            ),
            ToolStageView::Done => self.settle(rest, observed),
        }
    }
}

impl ReplyView {
    /// The messages that an answer brings.
    pub open spec fn messages(self) -> Seq<AgentMessageView> {
        match self {
            ReplyView::Messages(messages) => messages,
            _ => Seq::empty(),
        }
    }

    /// Whether the answer tells of a tool execution whose task broke.
    pub open spec fn is_broken_join(self) -> bool {
        self matches ReplyView::Joined(join) && join is Broken
    }
}

/// Why a run cannot go on from a transcript, if it cannot.
pub open spec fn continuation_error(messages: Seq<AgentMessageView>) -> Option<AgentErrorView> {
    if messages.len() == 0 {
        Some(AgentErrorView::NoMessages)
    } else if messages.last().role() == "assistant"@ {
        Some(AgentErrorView::ContinueFromAssistant)
    } else {
        None
    }
}

/// Checks that a run can go on from a transcript: it holds messages, and the last of them does
/// not stand in the role of the model.
pub fn check_continuable(messages: &Vec<AgentMessage>) -> (checked: Result<(), AgentError>)
    ensures
        match checked {
            Ok(_) => continuation_error(messages.deep_view()) is None,
            Err(error) => continuation_error(messages.deep_view()) == Some(error.deep_view()),
        },
{
    if messages.len() == 0 {
        return Err(AgentError::NoMessages);
    }
    if messages[messages.len() - 1].has_assistant_role() {
        return Err(AgentError::ContinueFromAssistant);
    }
    Ok(())
}

/// Starts an agent loop with new prompt messages.
/// The prompts are added to the context and events are emitted for them.
pub fn run_agent_loop(
    prompts: Vec<AgentMessage>,
    context: AgentContext,
    config: AgentLoopConfig,
    cancel: CancellationToken,
) -> (progress: Progress)
    ensures
        progress.deep_view() == RunView::start(
            prompts.deep_view(),
            context.deep_view(),
            config,
            cancel,
        ),
        progress.deep_view().run.wf(),
{
    let mut context = context;
    let mut events: Vec<AgentEvent> = Vec::new();
    emit(&mut events, AgentEvent::AgentStart);
    emit(&mut events, AgentEvent::TurnStart);
    assert(events.deep_view() =~= seq![AgentEventView::AgentStart, AgentEventView::TurnStart]);
    show_messages(&mut events, &prompts);
    append_all(&mut context.messages, &prompts);
    let run = AgentLoop {
        config,
        cancel,
        context,
        new_messages: prompts,
        first_turn: true,
        phase: Phase::Finished,
    };
    assert(run.new_messages.deep_view() =~= Seq::<AgentMessageView>::empty() + prompts.deep_view());
    run.poll_steering(true, events)
}

/// Continues an agent loop from the current context without adding a new message.
/// Used for retries — context already has user message or tool results.
///
/// The last message in context must convert to a `user` or `toolResult` message
/// via `convert_to_llm`. If it doesn't, the LLM provider will reject the request.
pub fn run_agent_loop_continue(
    context: AgentContext,
    config: AgentLoopConfig,
    cancel: CancellationToken,
) -> (started: Result<Progress, AgentError>)
    ensures
        match started {
            Ok(progress) => {
                &&& continuation_error(context.deep_view().messages) is None
                &&& progress.deep_view() == RunView::start(
                    Seq::empty(),
                    context.deep_view(),
                    config,
                    cancel,
                )
                &&& progress.deep_view().run.wf()
            },
            Err(error) => continuation_error(context.deep_view().messages) == Some(
                error.deep_view(),
            ),
        },
{
    match check_continuable(&context.messages) {
        Err(error) => Err(error),
        Ok(_) => {
            let prompts: Vec<AgentMessage> = Vec::new();
            assert(prompts.deep_view() =~= Seq::<AgentMessageView>::empty());
            Ok(run_agent_loop(prompts, context, config, cancel))
        },
    }
}

/// The messages that an answer brings.
fn reply_messages(reply: Reply) -> (messages: Vec<AgentMessage>)
    ensures
        messages.deep_view() == reply.deep_view().messages(),
{
    match reply {
        Reply::Messages(messages) => messages,
        _ => {
            let none: Vec<AgentMessage> = Vec::new();
            assert(none.deep_view() =~= Seq::<AgentMessageView>::empty());
            none
        },
    }
}

/// The messages for the model that an answer brings.
fn reply_llm_messages(reply: Reply) -> (taken: Vec<Message>)
    requires
        reply.deep_view() is LlmMessages,
    ensures
        taken.deep_view() == reply.deep_view()->LlmMessages_0,
{
    match reply {
        Reply::LlmMessages(taken) => taken,
        _ => vstd::pervasive::unreached(),
    }
}

/// The key that an answer brings.
fn reply_key(reply: Reply) -> (taken: Option<String>)
    requires
        reply.deep_view() is ApiKey,
    ensures
        taken.deep_view() == reply.deep_view()->ApiKey_0,
{
    match reply {
        Reply::ApiKey(taken) => taken,
        _ => vstd::pervasive::unreached(),
    }
}

/// Whether a stream opened, by an answer.
fn reply_opening(reply: Reply) -> (taken: Opening)
    requires
        reply.deep_view() is Opened,
    ensures
        taken.deep_view() == reply.deep_view()->Opened_0,
{
    match reply {
        Reply::Opened(taken) => taken,
        _ => vstd::pervasive::unreached(),
    }
}

/// What came of waiting for a stream's next event, by an answer.
fn reply_poll(reply: Reply) -> (taken: StreamPoll)
    requires
        reply.deep_view() is Streamed,
    ensures
        taken.deep_view() == reply.deep_view()->Streamed_0,
{
    match reply {
        Reply::Streamed(taken) => taken,
        _ => vstd::pervasive::unreached(),
    }
}

/// What came of executing a tool, by an answer.
fn reply_execution(reply: Reply) -> (taken: Execution)
    requires
        reply.deep_view() is Executed,
    ensures
        taken.deep_view() == reply.deep_view()->Executed_0,
{
    match reply {
        Reply::Executed(taken) => taken,
        _ => vstd::pervasive::unreached(),
    }
}

/// What came of waiting for a started tool, by an answer.
fn reply_join(reply: Reply) -> (taken: Join)
    requires
        reply.deep_view() is Joined,
    ensures
        taken.deep_view() == reply.deep_view()->Joined_0,
{
    match reply {
        Reply::Joined(taken) => taken,
        _ => vstd::pervasive::unreached(),
    }
}

/// What a hook overrides, by an answer.
fn reply_after(reply: Reply) -> (taken: Option<AfterToolCallResult>)
    requires
        reply.deep_view() is After,
    ensures
        taken.deep_view() == reply.deep_view()->After_0,
{
    match reply {
        Reply::After(taken) => taken,
        _ => vstd::pervasive::unreached(),
    }
}

/// The prepared arguments that an answer brings.
fn reply_arguments(reply: Reply) -> (taken: Value)
    requires
        reply.deep_view() is Arguments,
    ensures
        taken == reply.deep_view()->Arguments_0,
{
    match reply {
        Reply::Arguments(taken) => taken,
        _ => vstd::pervasive::unreached(),
    }
}

/// What a hook says before a tool call, and the arguments that it leaves, by an answer.
fn reply_before(reply: Reply) -> (taken: (Option<BeforeToolCallResult>, Value))
    requires
        reply.deep_view() is Before,
    ensures
        taken.0.deep_view() == reply.deep_view()->result,
        taken.1 == reply.deep_view()->args,
{
    match reply {
        Reply::Before { result, args } => (result, args),
        _ => vstd::pervasive::unreached(),
    }
}

/// The batch at its end, and the stage that it was at.
fn take_stage(batch: ToolBatch) -> (parts: (ToolBatch, ToolStage))
    ensures
        parts.0.deep_view() == batch.deep_view().at(ToolStageView::Done),
        parts.1.deep_view() == batch.deep_view().stage,
{
    let ToolBatch { message, calls, cursor, slots, spawned, results, stage } = batch;
    (
        ToolBatch { message, calls, cursor, slots, spawned, results, stage: ToolStage::Done },
        stage,
    )
}

impl AgentLoop {
    /// The run without its phase, and the phase.
    fn take_phase(self) -> (parts: (AgentLoop, Phase))
        ensures
            parts.0.deep_view() == self.deep_view().idle(),
            parts.1.deep_view() == self.deep_view().phase,
    {
        let AgentLoop { config, cancel, context, new_messages, first_turn, phase } = self;
        (
            AgentLoop { config, cancel, context, new_messages, first_turn, phase: Phase::Finished },
            phase,
        )
    }

    /// Takes the run one step further by the answer to its last request. The step is fixed but
    /// for the text of the complaint about a tool's schema that does not compile.
    pub fn step(self, reply: Reply, observed: Observed) -> (progress: Progress)
        requires
            self.deep_view().wf(),
            self.deep_view().accepts(reply.deep_view()),
        ensures
            exists|complaint: Seq<char>|
                progress.deep_view() == #[trigger] self.deep_view().step(
                    reply.deep_view(),
                    observed,
                    complaint,
                ),
            progress.deep_view().run.wf(),
    {
        let ghost before = self.deep_view();
        let ghost answer = reply.deep_view();
        let (run, phase) = self.take_phase();
        let progress = match phase {
            Phase::Steering { after_tools } => run.steered(
                after_tools,
                reply_messages(reply),
                observed,
            ),
            Phase::FollowUp => run.followed_up(reply_messages(reply), observed),
            Phase::Transform => run.transformed(reply_messages(reply)),
            Phase::Convert => run.converted(reply_llm_messages(reply)),
            Phase::ApiKey { messages } => run.key_resolved(messages, reply_key(reply)),
            Phase::Open => run.opened(reply_opening(reply), observed),
            Phase::Stream { partial, shown } => run.streamed(
                partial,
                shown,
                reply_poll(reply),
                observed,
            ),
            Phase::Tools { batch } => run.tool_step(batch, reply, observed),
            Phase::Finished => {
                assert(false);
                run.poll_steering(false, Vec::new())
            },
        };
        proof {
            if let PhaseView::Tools { batch } = before.phase {
                let complaint = choose|complaint: Seq<char>|
                    progress.deep_view() == #[trigger] before.idle().tool_step(
                        batch,
                        answer,
                        observed,
                        complaint,
                    );
                assert(progress.deep_view() == before.step(answer, observed, complaint));
            } else {
                assert(progress.deep_view() == before.step(answer, observed, Seq::empty()));
            }
        }
        progress
    }

    fn tool_step(self, batch: ToolBatch, reply: Reply, observed: Observed) -> (progress: Progress)
        requires
            batch.deep_view().wf(self.deep_view().sequential()),
            (RunView {
                phase: PhaseView::Tools { batch: batch.deep_view() },
                ..self.deep_view()
            }).accepts(reply.deep_view()),
        ensures
            exists|complaint: Seq<char>|
                progress.deep_view() == #[trigger] self.deep_view().tool_step(
                    batch.deep_view(),
                    reply.deep_view(),
                    observed,
                    complaint,
                ),
            progress.deep_view().run.wf(),
    {
        let ghost before = self.deep_view();
        let ghost calls = batch.deep_view();
        let ghost answer = reply.deep_view();
        let (batch, stage) = take_stage(batch);
        let progress = match stage {
            ToolStage::Gate => self.tool_gate(batch, observed),
            ToolStage::Started => self.tool_started(batch, observed),
            ToolStage::Preparing { tool } => self.tool_prepared(
                batch,
                tool,
                reply_arguments(reply),
                observed,
            ),
            ToolStage::Asking { handle } => {
                let (result, args) = reply_before(reply);
                self.tool_asked(batch, handle, result, args, observed)
            },
            ToolStage::Executing { args } => self.tool_executed(
                batch,
                args,
                reply_execution(reply),
            ),
            ToolStage::Spawning => self.tool_spawned(batch, observed),
            ToolStage::Joining => self.tool_joined(batch, reply_join(reply), observed),
            ToolStage::Finalizing { result, is_error } => self.tool_finalized(
                batch,
                result,
                is_error,
                reply_after(reply),
            ),
            ToolStage::Ending { result, is_error, stop } => self.tool_ended(
                batch,
                result,
                is_error,
                stop,
                observed,
            ),
            ToolStage::Done => self.settle(batch, observed),
        };
        proof {
            if let ToolStageView::Preparing { tool } = calls.stage {
                let complaint = choose|complaint: Seq<char>|
                    progress.deep_view() == #[trigger] before.tool_prepared(
                        calls.at(ToolStageView::Done),
                        tool,
                        answer->Arguments_0,
                        observed,
                        complaint,
                    );
                assert(progress.deep_view() == before.tool_step(
                    calls,
                    answer,
                    observed,
                    complaint,
                ));
            } else {
                assert(progress.deep_view() == before.tool_step(
                    calls,
                    answer,
                    observed,
                    Seq::empty(),
                ));
            }
        }
        progress
    }
}

} // verus!
