//! The tool calls of one message of the model: preparing, running and closing them, one after
//! the other or at the same time.
//!
//! Whatever the mode, every announced call is closed by a result, and the results stand in the
//! order of the calls. Where the task of a call breaks, the run fails there: the results so far
//! stay, and of the calls from that one on only the refused ones are closed.

use crate::agent_loop::protocol::{
    Execution, ExecutionView, Join, JoinView, Observed, Request, RequestView,
};
use crate::agent_loop::state::{
    emit, AgentLoop, Phase, PhaseView, Progress, ProgressView, RunView, ToolBatch, ToolBatchView,
    ToolSlot, ToolSlotView, ToolStage, ToolStageView,
};
use crate::agent_loop::turn::{LoopExit, LoopExitView};
use crate::text::{concat3, same_text};
use crate::types::config::HookId;
use crate::types::content::ToolCallContentView;
use crate::types::error::{AgentError, AgentErrorView};
use crate::types::event::{AgentEvent, AgentEventView};
use crate::types::message::{
    AgentMessage, AgentMessageView, ToolResultMessage, ToolResultMessageView,
};
use crate::types::tool::{
    create_error_tool_result, AfterToolCallContext, AfterToolCallContextView, AfterToolCallResult,
    AfterToolCallResultView, AgentTool, AgentToolResult, AgentToolResultView, AgentToolView,
    BeforeToolCallContext, BeforeToolCallContextView, BeforeToolCallResult,
    BeforeToolCallResultView, ToolExecutionMode,
};
use crate::validate::{checked_view, validate_tool_arguments, verdict};
use serde_json::Value;
use vstd::prelude::*;

verus! {

/// The first tool of the given name.
pub open spec fn tool_named(tools: Seq<AgentToolView>, name: Seq<char>) -> Option<AgentToolView>
    decreases tools.len(),
{
    if tools.len() == 0 {
        None
    } else if tools[0].name == name {
        Some(tools[0])
    } else {
        tool_named(tools.skip(1), name)
    }
}

/// The first slot from the given one on that holds a runnable call; the number of slots where
/// there is none.
pub open spec fn next_runnable(slots: Seq<ToolSlotView>, from: nat) -> nat
    decreases slots.len() - from,
{
    if from >= slots.len() {
        slots.len()
    } else if slots[from as int] is Runnable {
        from
    } else {
        next_runnable(slots, from + 1)
    }
}

/// The result of a call that cancellation kept from running.
pub open spec fn aborted_result() -> AgentToolResultView {
    AgentToolResultView::error(AgentErrorView::Aborted.text())
}

impl ExecutionView {
    /// The result that an execution leads to.
    pub open spec fn result(self) -> AgentToolResultView {
        match self {
            ExecutionView::Returned(result) => result,
            ExecutionView::Failed(error) => AgentToolResultView::error(error.text()),
        }
    }

    pub open spec fn is_error(self) -> bool {
        self is Failed
    }
}

/// What a hook's verdict lets stand against a tool call, if anything: the text of the refusal.
pub open spec fn hook_refusal(verdict: Option<BeforeToolCallResultView>) -> Option<Seq<char>> {
    match verdict {
        Some(result) => if result.block {
            match result.reason {
                Some(reason) => Some(reason),
                None => Some("Tool execution was blocked"@),
            }
        } else {
            None
        },
        None => None,
    }
}

impl ToolCallContentView {
    /// The event that announces the call.
    pub open spec fn start_event(self) -> AgentEventView {
        AgentEventView::ToolExecutionStart {
            tool_call_id: self.id,
            tool_name: self.name,
            args: self.arguments,
        }
    }

    /// The event that announces what came of the call.
    pub open spec fn end_event(self, result: AgentToolResultView, is_error: bool) -> AgentEventView {
        AgentEventView::ToolExecutionEnd {
            tool_call_id: self.id,
            tool_name: self.name,
            result,
            is_error,
        }
    }

    /// The message that tells the model what came of the call.
    pub open spec fn result_message(
        self,
        result: AgentToolResultView,
        is_error: bool,
        now: i64,
    ) -> ToolResultMessageView {
        ToolResultMessageView {
            tool_call_id: self.id,
            tool_name: self.name,
            content: result.content,
            details: result.details,
            is_error,
            timestamp: now,
        }
    }
}

/// Results of tools, as messages of the transcript.
pub open spec fn result_entries(results: Seq<ToolResultMessageView>) -> Seq<AgentMessageView> {
    results.map_values(|r: ToolResultMessageView| AgentMessageView::ToolResult(r))
}

impl ToolBatchView {
    /// The results of the refused calls in the slots from one up to another, made now.
    pub open spec fn refused_results(self, from: nat, to: nat, now: i64) -> Seq<
        ToolResultMessageView,
    >
        decreases to,
    {
        if to <= from {
            Seq::empty()
        } else {
            let earlier = self.refused_results(from, (to - 1) as nat, now);
            match self.slots[to - 1] {
                ToolSlotView::Closed { result, is_error } => earlier.push(
                    self.calls[to - 1].result_message(result, is_error, now),
                ),
                ToolSlotView::Runnable { .. } => earlier,
            }
        }
    }

    /// The events that close the refused calls in the slots from one up to another.
    pub open spec fn refused_events(self, from: nat, to: nat, now: i64) -> Seq<AgentEventView>
        decreases to,
    {
        if to <= from {
            Seq::empty()
        } else {
            let earlier = self.refused_events(from, (to - 1) as nat, now);
            match self.slots[to - 1] {
                ToolSlotView::Closed { result, is_error } => {
                    let call = self.calls[to - 1];
                    let message = AgentMessageView::ToolResult(
                        call.result_message(result, is_error, now),
                    );
                    earlier.push(call.end_event(result, is_error)).push(
                        AgentEventView::MessageStart { message },
                    ).push(AgentEventView::MessageEnd { message })
                },
                ToolSlotView::Runnable { .. } => earlier,
            }
        }
    }

    /// The results of the refused calls behind the call at the cursor.
    pub open spec fn late_results(self, now: i64) -> Seq<ToolResultMessageView> {
        self.refused_results(self.cursor + 1, self.slots.len(), now)
    }

    /// The events that close the refused calls behind the call at the cursor.
    pub open spec fn late_events(self, now: i64) -> Seq<AgentEventView> {
        self.refused_events(self.cursor + 1, self.slots.len(), now)
    }

    /// All results of a batch whose call at the cursor has none.
    pub open spec fn final_results(self, now: i64) -> Seq<ToolResultMessageView> {
        self.results + self.late_results(now)
    }

    pub open spec fn at(self, stage: ToolStageView) -> ToolBatchView {
        ToolBatchView { stage, ..self }
    }

    /// The batch with a slot for the call at the cursor, before the next call.
    pub open spec fn with_slot(self, slot: ToolSlotView) -> ToolBatchView {
        ToolBatchView {
            slots: self.slots.push(slot),
            cursor: self.cursor + 1,
            stage: ToolStageView::Gate,
            ..self
        }
    }
}

impl RunView {
    /// The run waits for something that a tool call needs.
    pub open spec fn await_tools(
        self,
        batch: ToolBatchView,
        events: Seq<AgentEventView>,
        request: RequestView,
    ) -> ProgressView {
        ProgressView { run: RunView { phase: PhaseView::Tools { batch }, ..self }, events, request }
    }

    /// Before the call at the cursor: it is announced, unless there is none or the run was
    /// cancelled.
    #[verifier::opaque]
    pub open spec fn tool_gate(self, batch: ToolBatchView, observed: Observed) -> ProgressView {
        if observed.cancelled || batch.cursor >= batch.calls.len() {
            if self.sequential() {
                self.settle(batch, observed)
            } else {
                self.spawn_from(batch, 0, observed)
            }
        } else {
            self.await_tools(
                batch.at(ToolStageView::Started),
                seq![batch.call().start_event()],
                RequestView::Checkpoint,
            )
        }
    }

    /// The call was announced: its tool prepares the arguments, unless there is no such tool or
    /// the run was cancelled.
    #[verifier::opaque]
    pub open spec fn tool_started(self, batch: ToolBatchView, observed: Observed) -> ProgressView {
        if observed.cancelled {
            self.refuse_call(batch, aborted_result(), true, observed)
        } else {
            match tool_named(self.context.tools, batch.call().name) {
                Some(tool) => self.await_tools(
                    batch.at(ToolStageView::Preparing { tool }),
                    Seq::empty(),
                    RequestView::PrepareArguments {
                        tool: tool.handle,
                        arguments: batch.call().arguments,
                    },
                ),
                None => self.refuse_call(
                    batch,
                    AgentToolResultView::error("Tool "@ + batch.call().name + " not found"@),
                    false,
                    observed,
                ),
            }
        }
    }

    /// The call will not run; this is what came of it. With `stop`, no further call is looked at.
    pub open spec fn refuse_call(
        self,
        batch: ToolBatchView,
        result: AgentToolResultView,
        stop: bool,
        observed: Observed,
    ) -> ProgressView {
        if self.sequential() {
            self.end_call(batch, Seq::empty(), result, true, stop)
        } else {
            let next = batch.with_slot(ToolSlotView::Closed { result, is_error: true });
            if stop {
                self.spawn_from(next, 0, observed)
            } else {
                self.tool_gate(next, observed)
            }
        }
    }

    /// The arguments are prepared: they are checked. The complaint tells of the tool's schema
    /// where that does not compile.
    #[verifier::opaque]
    pub open spec fn tool_prepared(
        self,
        batch: ToolBatchView,
        tool: AgentToolView,
        arguments: Value,
        observed: Observed,
        complaint: Seq<char>,
    ) -> ProgressView {
        self.tool_checked(batch, tool.handle, verdict(tool, arguments, complaint), observed)
    }

    /// The arguments are checked: a hook may have its say on a call that may run.
    pub open spec fn tool_checked(
        self,
        batch: ToolBatchView,
        handle: HookId,
        checked: Result<Value, Seq<char>>,
        observed: Observed,
    ) -> ProgressView {
        match checked {
            Err(message) => self.refuse_call(
                batch,
                AgentToolResultView::error(message),
                false,
                observed,
            ),
            Ok(args) => match self.config.before_tool_call {
                Some(hook) => self.await_tools(
                    batch.at(ToolStageView::Asking { handle }),
                    Seq::empty(),
                    RequestView::BeforeToolCall {
                        hook,
                        before_context: BeforeToolCallContextView {
                            assistant_message: batch.message,
                            tool_call: batch.call(),
                            args,
                            context: self.context,
                        },
                        cancel: self.cancel,
                    },
                ),
                None => self.run_call(batch, handle, args, observed),
            },
        }
    }

    /// The hook had its say: its arguments are used as they are.
    #[verifier::opaque]
    pub open spec fn tool_asked(
        self,
        batch: ToolBatchView,
        handle: HookId,
        result: Option<BeforeToolCallResultView>,
        args: Value,
        observed: Observed,
    ) -> ProgressView {
        match hook_refusal(result) {
            Some(reason) => self.refuse_call(
                batch,
                AgentToolResultView::error(reason),
                false,
                observed,
            ),
            None => self.run_call(batch, handle, args, observed),
        }
    }

    /// The call may run, unless the run was cancelled: now, or together with the others.
    pub open spec fn run_call(
        self,
        batch: ToolBatchView,
        handle: HookId,
        args: Value,
        observed: Observed,
    ) -> ProgressView {
        if observed.cancelled {
            self.refuse_call(batch, aborted_result(), true, observed)
        } else if self.sequential() {
            self.await_tools(
                batch.at(ToolStageView::Executing { args }),
                Seq::empty(),
                RequestView::ExecuteTool {
                    tool: handle,
                    tool_call: batch.call(),
                    args,
                    cancel: self.cancel,
                },
            )
        } else {
            self.tool_gate(
                batch.with_slot(ToolSlotView::Runnable { tool: handle, args }),
                observed,
            )
        }
    }

    /// The runnable calls from the given slot on are started, one after the other, until the run
    /// is cancelled.
    pub open spec fn spawn_from(
        self,
        batch: ToolBatchView,
        from: nat,
        observed: Observed,
    ) -> ProgressView {
        let slot = next_runnable(batch.slots, from);
        if observed.cancelled || slot >= batch.slots.len() {
            self.close_slots(ToolBatchView { cursor: 0, ..batch }, Seq::empty())
        } else {
            self.await_tools(
                ToolBatchView { cursor: slot, stage: ToolStageView::Spawning, ..batch },
                Seq::empty(),
                RequestView::SpawnTool {
                    slot,
                    tool: batch.slots[slot as int]->tool,
                    tool_call: batch.calls[slot as int],
                    args: batch.slots[slot as int]->args,
                    cancel: self.cancel,
                },
            )
        }
    }

    /// The call in the slot at the cursor was started.
    #[verifier::opaque]
    pub open spec fn tool_spawned(self, batch: ToolBatchView, observed: Observed) -> ProgressView {
        self.spawn_from(
            ToolBatchView { spawned: batch.cursor + 1, ..batch },
            batch.cursor + 1,
            observed,
        )
    }

    /// The call in the slot at the cursor is closed: with what came of it, once it has returned,
    /// or as aborted if it was never started.
    pub open spec fn close_slots(
        self,
        batch: ToolBatchView,
        events: Seq<AgentEventView>,
    ) -> ProgressView {
        if batch.cursor >= batch.slots.len() {
            self.await_tools(batch.at(ToolStageView::Done), events, RequestView::Checkpoint)
        } else {
            match batch.slots[batch.cursor as int] {
                ToolSlotView::Closed { result, is_error } => self.end_call(
                    batch,
                    events,
                    result,
                    is_error,
                    false,
                ),
                ToolSlotView::Runnable { .. } => if batch.cursor < batch.spawned {
                    self.await_tools(
                        batch.at(ToolStageView::Joining),
                        events,
                        RequestView::JoinTool { slot: batch.cursor },
                    )
                } else {
                    self.end_call(batch, events, aborted_result(), true, false)
                },
            }
        }
    }

    /// The call in the slot at the cursor returned, or its task broke: then the refused calls
    /// behind it are closed, and the run fails, and keeps the results that the turn came to.
    #[verifier::opaque]
    pub open spec fn tool_joined(
        self,
        batch: ToolBatchView,
        join: JoinView,
        observed: Observed,
    ) -> ProgressView {
        match join {
            JoinView::Broken(text) => self.with_messages(
                result_entries(batch.final_results(observed.now)),
            ).fail(
                batch.late_events(observed.now),
                batch.final_results(observed.now),
                AgentErrorView::JoinError(text),
                observed,
            ),
            JoinView::Finished(execution) => self.tool_executed(
                batch,
                batch.slots[batch.cursor as int]->args,
                execution,
            ),
        }
    }

    /// The tool returned: a hook may override what came of it.
    #[verifier::opaque]
    pub open spec fn tool_executed(
        self,
        batch: ToolBatchView,
        args: Value,
        execution: ExecutionView,
    ) -> ProgressView {
        match self.config.after_tool_call {
            Some(hook) => self.await_tools(
                batch.at(
                    ToolStageView::Finalizing {
                        result: execution.result(),
                        is_error: execution.is_error(),
                    },
                ),
                Seq::empty(),
                RequestView::AfterToolCall {
                    hook,
                    after_context: AfterToolCallContextView {
                        assistant_message: batch.message,
                        tool_call: batch.call(),
                        args,
                        result: execution.result(),
                        is_error: execution.is_error(),
                        context: self.context,
                    },
                    cancel: self.cancel,
                },
            ),
            None => self.end_call(
                batch,
                Seq::empty(),
                execution.result(),
                execution.is_error(),
                false,
            ),
        }
    }

    /// The hook overrode what came of the call, or did not.
    #[verifier::opaque]
    pub open spec fn tool_finalized(
        self,
        batch: ToolBatchView,
        result: AgentToolResultView,
        is_error: bool,
        by: Option<AfterToolCallResultView>,
    ) -> ProgressView {
        self.end_call(
            batch,
            Seq::empty(),
            result.overridden(by),
            match by {
                Some(AfterToolCallResultView { is_error: Some(overriding), .. }) => overriding,
                _ => is_error,
            },
            false,
        )
    }

    /// The end of the call at the cursor is announced.
    pub open spec fn end_call(
        self,
        batch: ToolBatchView,
        events: Seq<AgentEventView>,
        result: AgentToolResultView,
        is_error: bool,
        stop: bool,
    ) -> ProgressView {
        self.await_tools(
            batch.at(ToolStageView::Ending { result, is_error, stop }),
            events.push(batch.call().end_event(result, is_error)),
            RequestView::Checkpoint,
        )
    }

    /// The end of the call was announced: its result enters the transcript.
    #[verifier::opaque]
    pub open spec fn tool_ended(
        self,
        batch: ToolBatchView,
        result: AgentToolResultView,
        is_error: bool,
        stop: bool,
        observed: Observed,
    ) -> ProgressView {
        let message = batch.call().result_message(result, is_error, observed.now);
        let entry = AgentMessageView::ToolResult(message);
        let events = seq![
            AgentEventView::MessageStart { message: entry },
            AgentEventView::MessageEnd { message: entry },
        ];
        let next = ToolBatchView {
            results: batch.results.push(message),
            cursor: batch.cursor + 1,
            ..batch
        };
        if !self.sequential() {
            self.close_slots(next, events)
        } else if stop {
            self.await_tools(next.at(ToolStageView::Done), events, RequestView::Checkpoint)
        } else {
            self.await_tools(next.at(ToolStageView::Gate), events, RequestView::Checkpoint)
        }
    }

    /// Every call of the batch is dealt with: the turn ends, and the run goes on unless it was
    /// cancelled.
    #[verifier::opaque]
    pub open spec fn settle(self, batch: ToolBatchView, observed: Observed) -> ProgressView {
        let run = self.with_messages(result_entries(batch.results));
        let events = seq![
            AgentEventView::TurnEnd {
                message: AgentMessageView::Assistant(batch.message),
                tool_results: batch.results,
            },
        ];
        if observed.cancelled {
            run.finish(events, LoopExitView::Aborted)
        } else {
            run.poll_steering(true, events)
        }
    }
}

/// The first tool of the given name.
pub fn find_tool(tools: &Vec<AgentTool>, name: &str) -> (tool: Option<AgentTool>)
    ensures
        tool.deep_view() == tool_named(tools.deep_view(), name@),
        match tool {
            Some(found) => exists|i: int|
                #![trigger tools@[i]]
                {
                    &&& 0 <= i < tools@.len()
                    &&& found.deep_view() == tools@[i].deep_view()
                    &&& tools@[i].deep_view().name == name@
                    &&& forall|j: int|
                        0 <= j < i ==> (#[trigger] tools@[j]).deep_view().name != name@
                },
            None => forall|i: int|
                0 <= i < tools@.len() ==> (#[trigger] tools@[i]).deep_view().name != name@,
        },
{
    let ghost all = tools.deep_view();
    let mut i: usize = 0;
    assert(all.skip(0) =~= all);
    while i < tools.len()
        invariant
            0 <= i <= tools.len(),
            all == tools.deep_view(),
            forall|j: int| 0 <= j < i ==> (#[trigger] tools@[j]).deep_view().name != name@,
            tool_named(all, name@) == tool_named(all.skip(i as int), name@),
        decreases tools.len() - i,
    {
        proof {
            assert(all.skip(i as int)[0] == tools@[i as int].deep_view());
            assert(all.skip(i as int).skip(1) =~= all.skip(i as int + 1));
        }
        if same_text(tools[i].name(), name) {
            return Some(tools[i].clone());
        }
        i = i + 1;
    }
    assert(all.skip(i as int).len() == 0);
    None
}

/// The first slot from the given one on that holds a runnable call; the number of slots where
/// there is none.
fn find_runnable(slots: &Vec<ToolSlot>, from: usize) -> (slot: usize)
    ensures
        slot == next_runnable(slots.deep_view(), from as nat),
        slot < slots@.len() ==> slots@[slot as int] is Runnable,
        slot <= slots@.len(),
{
    let mut slot: usize = from;
    while slot < slots.len()
        invariant
            next_runnable(slots.deep_view(), from as nat) == next_runnable(
                slots.deep_view(),
                slot as nat,
            ),
        decreases slots.len() - slot,
    {
        assert(slots.deep_view()[slot as int] == slots@[slot as int].deep_view());
        match &slots[slot] {
            ToolSlot::Runnable { .. } => {
                return slot;
            },
            ToolSlot::Closed { .. } => {},
        }
        slot = slot + 1;
    }
    slots.len()
}

/// The result of a call that cancellation kept from running.
pub fn create_aborted_result() -> (result: AgentToolResult)
    ensures
        result.deep_view() == aborted_result(),
{
    create_error_tool_result(AgentError::Aborted.to_text().as_str())
}

/// What came of executing a tool: its result, and whether that tells of an error.
pub fn execution_outcome(execution: Execution) -> (outcome: (AgentToolResult, bool))
    ensures
        outcome.0.deep_view() == execution.deep_view().result(),
        outcome.1 == execution.deep_view().is_error(),
{
    match execution {
        Execution::Returned(result) => (result, false),
        Execution::Failed(error) => (create_error_tool_result(error.to_text().as_str()), true),
    }
}

/// The text with which a hook refuses a tool call, if it does.
pub fn before_hook_refusal(verdict: Option<BeforeToolCallResult>) -> (reason: Option<String>)
    ensures
        reason.deep_view() == hook_refusal(verdict.deep_view()),
{
    match verdict {
        Some(result) => if result.block {
            match result.reason {
                Some(reason) => Some(reason),
                None => Some("Tool execution was blocked".to_owned()),
            }
        } else {
            None
        },
        None => None,
    }
}

/// What came of a call, with what a hook overrides in it.
pub fn apply_after_hook(
    result: AgentToolResult,
    is_error: bool,
    by: Option<AfterToolCallResult>,
) -> (outcome: (AgentToolResult, bool))
    ensures
        outcome.0.deep_view() == result.deep_view().overridden(by.deep_view()),
        by is None ==> outcome.0 == result,
        by matches Some(answer) ==> {
            &&& answer.content is None ==> outcome.0.content == result.content
            &&& answer.content matches Some(content) ==> outcome.0.content == content
            &&& answer.details is None ==> outcome.0.details == result.details
            &&& answer.details is Some ==> outcome.0.details == answer.details
        },
        outcome.1 == (match by {
            Some(AfterToolCallResult { is_error: Some(overriding), .. }) => overriding,
            _ => is_error,
        }),
{
    let mut result = result;
    let mut is_error = is_error;
    if let Some(by) = by {
        if let Some(content) = by.content {
            result.content = content;
        }
        if let Some(details) = by.details {
            result.details = Some(details);
        }
        if let Some(overriding) = by.is_error {
            is_error = overriding;
        }
    }
    (result, is_error)
}

impl AgentLoop {
    fn is_sequential(&self) -> (yes: bool)
        ensures
            yes == self.deep_view().sequential(),
    {
        self.config.tool_execution == ToolExecutionMode::Sequential
    }

    fn await_tools(self, batch: ToolBatch, events: Vec<AgentEvent>, request: Request) -> (progress:
        Progress)
        ensures
            progress.deep_view() == self.deep_view().await_tools(
                batch.deep_view(),
                events.deep_view(),
                request.deep_view(),
            ),
    {
        let mut run = self;
        run.phase = Phase::Tools { batch };
        Progress { run, events, request }
    }

    pub(crate) fn tool_gate(self, batch: ToolBatch, observed: Observed) -> (progress: Progress)
        requires
            batch.deep_view().at(ToolStageView::Gate).wf(self.deep_view().sequential()),
        ensures
            progress.deep_view() == self.deep_view().tool_gate(batch.deep_view(), observed),
            progress.deep_view().run.wf(),
    {
        proof {
            reveal(RunView::tool_gate);
        }
        let mut batch = batch;
        if observed.cancelled || batch.cursor >= batch.calls.len() {
            if self.is_sequential() {
                self.settle(batch, observed)
            } else {
                self.spawn_from(batch, 0, observed)
            }
        } else {
            let mut events: Vec<AgentEvent> = Vec::new();
            let call = &batch.calls[batch.cursor];
            emit(
                &mut events,
                AgentEvent::ToolExecutionStart {
                    tool_call_id: call.id.clone(),
                    tool_name: call.name.clone(),
                    args: call.arguments.clone(),
                },
            );
            batch.stage = ToolStage::Started;
            self.await_tools(batch, events, Request::Checkpoint)
        }
    }

    pub(crate) fn tool_started(self, batch: ToolBatch, observed: Observed) -> (progress: Progress)
        requires
            batch.deep_view().at(ToolStageView::Started).wf(self.deep_view().sequential()),
        ensures
            progress.deep_view() == self.deep_view().tool_started(batch.deep_view(), observed),
            progress.deep_view().run.wf(),
    {
        proof {
            reveal(RunView::tool_started);
        }
        let mut batch = batch;
        if observed.cancelled {
            return self.refuse_call(batch, create_aborted_result(), true, observed);
        }
        let call = batch.calls[batch.cursor].clone();
        match find_tool(&self.context.tools, call.name.as_str()) {
            Some(tool) => {
                let request = Request::PrepareArguments {
                    tool: tool.handle,
                    arguments: call.arguments,
                };
                batch.stage = ToolStage::Preparing { tool };
                self.await_tools(batch, Vec::new(), request)
            },
            None => {
                let text = concat3("Tool ", call.name.as_str(), " not found");
                self.refuse_call(batch, create_error_tool_result(text.as_str()), false, observed)
            },
        }
    }

    fn refuse_call(self, batch: ToolBatch, result: AgentToolResult, stop: bool, observed: Observed) -> (progress:
        Progress)
        requires
            batch.deep_view().at(ToolStageView::Started).wf(self.deep_view().sequential()),
        ensures
            progress.deep_view() == self.deep_view().refuse_call(
                batch.deep_view(),
                result.deep_view(),
                stop,
                observed,
            ),
            progress.deep_view().run.wf(),
    {
        if self.is_sequential() {
            self.end_call(batch, Vec::new(), result, true, stop)
        } else {
            let next = add_slot(batch, ToolSlot::Closed { result, is_error: true });
            if stop {
                self.spawn_from(next, 0, observed)
            } else {
                self.tool_gate(next, observed)
            }
        }
    }

    pub(crate) fn tool_prepared(
        self,
        batch: ToolBatch,
        tool: AgentTool,
        arguments: Value,
        observed: Observed,
    ) -> (progress: Progress)
        requires
            batch.deep_view().at(ToolStageView::Started).wf(self.deep_view().sequential()),
        ensures
            exists|complaint: Seq<char>|
                progress.deep_view() == #[trigger] self.deep_view().tool_prepared(
                    batch.deep_view(),
                    tool.deep_view(),
                    arguments,
                    observed,
                    complaint,
                ),
            progress.deep_view().run.wf(),
    {
        let checked = validate_tool_arguments(&tool, &arguments);
        let ghost complaint = choose|complaint: Seq<char>|
            checked_view(checked) == #[trigger] verdict(tool.deep_view(), arguments, complaint);
        proof {
            reveal(RunView::tool_prepared);
        }
        let progress = self.tool_checked(batch, tool.handle, checked, observed);
        assert(progress.deep_view() == self.deep_view().tool_prepared(
            batch.deep_view(),
            tool.deep_view(),
            arguments,
            observed,
            complaint,
        ));
        progress
    }

    /// Goes on with a tool call whose arguments were checked, with what the check came to.
    pub fn tool_checked(
        self,
        batch: ToolBatch,
        handle: HookId,
        checked: Result<Value, String>,
        observed: Observed,
    ) -> (progress: Progress)
        requires
            batch.deep_view().at(ToolStageView::Started).wf(self.deep_view().sequential()),
        ensures
            progress.deep_view() == self.deep_view().tool_checked(
                batch.deep_view(),
                handle,
                checked_view(checked),
                observed,
            ),
            progress.deep_view().run.wf(),
    {
        let mut batch = batch;
        match checked {
            Err(message) => self.refuse_call(
                batch,
                create_error_tool_result(message.as_str()),
                false,
                observed,
            ),
            Ok(args) => match self.config.before_tool_call {
                Some(hook) => {
                    let request = Request::BeforeToolCall {
                        hook,
                        before_context: BeforeToolCallContext {
                            assistant_message: batch.message.clone(),
                            tool_call: batch.calls[batch.cursor].clone(),
                            args,
                            context: self.context.snapshot(),
                        },
                        cancel: self.cancel.clone(),
                    };
                    batch.stage = ToolStage::Asking { handle };
                    self.await_tools(batch, Vec::new(), request)
                },
                None => self.run_call(batch, handle, args, observed),
            },
        }
    }

    pub(crate) fn tool_asked(
        self,
        batch: ToolBatch,
        handle: HookId,
        result: Option<BeforeToolCallResult>,
        args: Value,
        observed: Observed,
    ) -> (progress: Progress)
        requires
            batch.deep_view().at(ToolStageView::Started).wf(self.deep_view().sequential()),
        ensures
            progress.deep_view() == self.deep_view().tool_asked(
                batch.deep_view(),
                handle,
                result.deep_view(),
                args,
                observed,
            ),
            progress.deep_view().run.wf(),
    {
        proof {
            reveal(RunView::tool_asked);
        }
        match before_hook_refusal(result) {
            Some(reason) => self.refuse_call(
                batch,
                create_error_tool_result(reason.as_str()),
                false,
                observed,
            ),
            None => self.run_call(batch, handle, args, observed),
        }
    }

    fn run_call(self, batch: ToolBatch, handle: HookId, args: Value, observed: Observed) -> (progress:
        Progress)
        requires
            batch.deep_view().at(ToolStageView::Started).wf(self.deep_view().sequential()),
        ensures
            progress.deep_view() == self.deep_view().run_call(
                batch.deep_view(),
                handle,
                args,
                observed,
            ),
            progress.deep_view().run.wf(),
    {
        let mut batch = batch;
        if observed.cancelled {
            self.refuse_call(batch, create_aborted_result(), true, observed)
        } else if self.is_sequential() {
            let request = Request::ExecuteTool {
                tool: handle,
                tool_call: batch.calls[batch.cursor].clone(),
                args: args.clone(),
                cancel: self.cancel.clone(),
            };
            batch.stage = ToolStage::Executing { args };
            self.await_tools(batch, Vec::new(), request)
        } else {
            let next = add_slot(batch, ToolSlot::Runnable { tool: handle, args });
            self.tool_gate(next, observed)
        }
    }

    fn spawn_from(self, batch: ToolBatch, from: usize, observed: Observed) -> (progress: Progress)
        requires
            batch.slots@.len() <= batch.calls@.len(),
            !self.deep_view().sequential(),
        ensures
            progress.deep_view() == self.deep_view().spawn_from(
                batch.deep_view(),
                from as nat,
                observed,
            ),
            progress.deep_view().run.wf(),
    {
        let mut batch = batch;
        let slot: usize = find_runnable(&batch.slots, from);
        if !observed.cancelled && slot < batch.slots.len() {
            assert(batch.slots.deep_view()[slot as int] == batch.slots@[slot as int].deep_view());
            if let ToolSlot::Runnable { tool, args } = &batch.slots[slot] {
                let request = Request::SpawnTool {
                    slot,
                    tool: *tool,
                    tool_call: batch.calls[slot].clone(),
                    args: args.clone(),
                    cancel: self.cancel.clone(),
                };
                batch.cursor = slot;
                batch.stage = ToolStage::Spawning;
                return self.await_tools(batch, Vec::new(), request);
            }
        }
        batch.cursor = 0;
        self.close_slots(batch, Vec::new())
    }

    pub(crate) fn tool_spawned(self, batch: ToolBatch, observed: Observed) -> (progress: Progress)
        requires
            batch.deep_view().at(ToolStageView::Spawning).wf(self.deep_view().sequential()),
        ensures
            progress.deep_view() == self.deep_view().tool_spawned(batch.deep_view(), observed),
            progress.deep_view().run.wf(),
    {
        proof {
            reveal(RunView::tool_spawned);
        }
        let mut batch = batch;
        assert(batch.cursor < batch.slots.len());
        let next: usize = batch.cursor + 1;
        batch.spawned = next;
        self.spawn_from(batch, next, observed)
    }

    fn close_slots(self, batch: ToolBatch, events: Vec<AgentEvent>) -> (progress: Progress)
        requires
            batch.slots@.len() <= batch.calls@.len(),
            !self.deep_view().sequential(),
        ensures
            progress.deep_view() == self.deep_view().close_slots(
                batch.deep_view(),
                events.deep_view(),
            ),
            progress.deep_view().run.wf(),
    {
        let mut batch = batch;
        if batch.cursor >= batch.slots.len() {
            batch.stage = ToolStage::Done;
            return self.await_tools(batch, events, Request::Checkpoint);
        }
        let cursor: usize = batch.cursor;
        assert(batch.slots.deep_view()[cursor as int] == batch.slots@[cursor as int].deep_view());
        match &batch.slots[cursor] {
            ToolSlot::Closed { result, is_error } => {
                let result = result.clone();
                let is_error = *is_error;
                self.end_call(batch, events, result, is_error, false)
            },
            ToolSlot::Runnable { .. } => if cursor < batch.spawned {
                batch.stage = ToolStage::Joining;
                self.await_tools(batch, events, Request::JoinTool { slot: cursor })
            } else {
                self.end_call(batch, events, create_aborted_result(), true, false)
            },
        }
    }

    pub(crate) fn tool_joined(self, batch: ToolBatch, join: Join, observed: Observed) -> (progress:
        Progress)
        requires
            batch.deep_view().at(ToolStageView::Joining).wf(self.deep_view().sequential()),
        ensures
            progress.deep_view() == self.deep_view().tool_joined(
                batch.deep_view(),
                join.deep_view(),
                observed,
            ),
            progress.deep_view().run.wf(),
    {
        proof {
            reveal(RunView::tool_joined);
        }
        match join {
            Join::Broken(text) => {
                let mut run = self;
                let (results, events) = close_refused(batch, observed.now);
                append_results(&mut run.context.messages, &results);
                append_results(&mut run.new_messages, &results);
                run.fail(events, results, AgentError::JoinError(text), observed)
            },
            Join::Finished(execution) => {
                assert(batch.slots.deep_view()[batch.cursor as int]
                    == batch.slots@[batch.cursor as int].deep_view());
                let args = match &batch.slots[batch.cursor] {
                    ToolSlot::Runnable { args, .. } => args.clone(),
                    ToolSlot::Closed { .. } => batch.calls[batch.cursor].arguments.clone(),
                };
                self.tool_executed(batch, args, execution)
            },
        }
    }

    pub(crate) fn tool_executed(self, batch: ToolBatch, args: Value, execution: Execution) -> (progress:
        Progress)
        requires
            batch.cursor < batch.calls@.len(),
            batch.slots@.len() <= batch.calls@.len(),
            !self.deep_view().sequential() ==> batch.cursor < batch.slots@.len(),
        ensures
            progress.deep_view() == self.deep_view().tool_executed(
                batch.deep_view(),
                args,
                execution.deep_view(),
            ),
            progress.deep_view().run.wf(),
    {
        proof {
            reveal(RunView::tool_executed);
        }
        let mut batch = batch;
        let (result, is_error) = execution_outcome(execution);
        match self.config.after_tool_call {
            Some(hook) => {
                let request = Request::AfterToolCall {
                    hook,
                    after_context: AfterToolCallContext {
                        assistant_message: batch.message.clone(),
                        tool_call: batch.calls[batch.cursor].clone(),
                        args,
                        result: result.clone(),
                        is_error,
                        context: self.context.snapshot(),
                    },
                    cancel: self.cancel.clone(),
                };
                batch.stage = ToolStage::Finalizing { result, is_error };
                self.await_tools(batch, Vec::new(), request)
            },
            None => self.end_call(batch, Vec::new(), result, is_error, false),
        }
    }

    pub(crate) fn tool_finalized(
        self,
        batch: ToolBatch,
        result: AgentToolResult,
        is_error: bool,
        by: Option<AfterToolCallResult>,
    ) -> (progress: Progress)
        requires
            batch.cursor < batch.calls@.len(),
            batch.slots@.len() <= batch.calls@.len(),
            !self.deep_view().sequential() ==> batch.cursor < batch.slots@.len(),
        ensures
            progress.deep_view() == self.deep_view().tool_finalized(
                batch.deep_view(),
                result.deep_view(),
                is_error,
                by.deep_view(),
            ),
            progress.deep_view().run.wf(),
    {
        proof {
            reveal(RunView::tool_finalized);
        }
        let (result, is_error) = apply_after_hook(result, is_error, by);
        self.end_call(batch, Vec::new(), result, is_error, false)
    }

    fn end_call(
        self,
        batch: ToolBatch,
        events: Vec<AgentEvent>,
        result: AgentToolResult,
        is_error: bool,
        stop: bool,
    ) -> (progress: Progress)
        requires
            batch.cursor < batch.calls@.len(),
            batch.slots@.len() <= batch.calls@.len(),
            !self.deep_view().sequential() ==> batch.cursor < batch.slots@.len(),
        ensures
            progress.deep_view() == self.deep_view().end_call(
                batch.deep_view(),
                events.deep_view(),
                result.deep_view(),
                is_error,
                stop,
            ),
            progress.deep_view().run.wf(),
    {
        let mut batch = batch;
        let mut events = events;
        let call = &batch.calls[batch.cursor];
        emit(
            &mut events,
            AgentEvent::ToolExecutionEnd {
                tool_call_id: call.id.clone(),
                tool_name: call.name.clone(),
                result: result.clone(),
                is_error,
            },
        );
        batch.stage = ToolStage::Ending { result, is_error, stop };
        self.await_tools(batch, events, Request::Checkpoint)
    }

    pub(crate) fn tool_ended(
        self,
        batch: ToolBatch,
        result: AgentToolResult,
        is_error: bool,
        stop: bool,
        observed: Observed,
    ) -> (progress: Progress)
        requires
            batch.cursor < batch.calls@.len(),
            batch.slots@.len() <= batch.calls@.len(),
        ensures
            progress.deep_view() == self.deep_view().tool_ended(
                batch.deep_view(),
                result.deep_view(),
                is_error,
                stop,
                observed,
            ),
            progress.deep_view().run.wf(),
    {
        proof {
            reveal(RunView::tool_ended);
        }
        let mut batch = batch;
        let call = &batch.calls[batch.cursor];
        let message = ToolResultMessage {
            tool_call_id: call.id.clone(),
            tool_name: call.name.clone(),
            content: result.content,
            details: result.details,
            is_error,
            timestamp: observed.now,
        };
        let mut events: Vec<AgentEvent> = Vec::new();
        emit(
            &mut events,
            AgentEvent::MessageStart { message: AgentMessage::ToolResult(message.clone()) },
        );
        emit(
            &mut events,
            AgentEvent::MessageEnd { message: AgentMessage::ToolResult(message.clone()) },
        );
        let ghost before = batch.results.deep_view();
        batch.results.push(message);
        assert(batch.results.deep_view() =~= before.push(message.deep_view()));
        assert(batch.cursor < batch.calls.len());
        batch.cursor = batch.cursor + 1;
        if !self.is_sequential() {
            self.close_slots(batch, events)
        } else if stop {
            batch.stage = ToolStage::Done;
            self.await_tools(batch, events, Request::Checkpoint)
        } else {
            batch.stage = ToolStage::Gate;
            self.await_tools(batch, events, Request::Checkpoint)
        }
    }

    pub(crate) fn settle(self, batch: ToolBatch, observed: Observed) -> (progress: Progress)
        ensures
            progress.deep_view() == self.deep_view().settle(batch.deep_view(), observed),
            progress.deep_view().run.wf(),
    {
        proof {
            reveal(RunView::settle);
        }
        let mut run = self;
        append_results(&mut run.context.messages, &batch.results);
        append_results(&mut run.new_messages, &batch.results);
        let mut events: Vec<AgentEvent> = Vec::new();
        emit(
            &mut events,
            AgentEvent::TurnEnd {
                message: AgentMessage::Assistant(batch.message),
                tool_results: batch.results,
            },
        );
        if observed.cancelled {
            run.finish(events, LoopExit::Aborted)
        } else {
            run.poll_steering(true, events)
        }
    }
}

/// The batch with a slot for the call at the cursor, before the next call.
fn add_slot(batch: ToolBatch, slot: ToolSlot) -> (next: ToolBatch)
    requires
        batch.cursor < batch.calls@.len(),
    ensures
        next.deep_view() == batch.deep_view().with_slot(slot.deep_view()),
{
    let mut batch = batch;
    let ghost before = batch.slots.deep_view();
    batch.slots.push(slot);
    assert(batch.slots.deep_view() =~= before.push(slot.deep_view()));
    assert(batch.cursor < batch.calls.len());
    batch.cursor = batch.cursor + 1;
    batch.stage = ToolStage::Gate;
    batch
}

/// Closes the refused calls behind the call at the cursor, whose task broke: all results of the
/// batch then, and the events that tell of the late ones.
fn close_refused(batch: ToolBatch, now: i64) -> (closed: (Vec<ToolResultMessage>, Vec<AgentEvent>))
    requires
        batch.cursor < batch.slots@.len(),
        batch.slots@.len() <= batch.calls@.len(),
    ensures
        closed.0.deep_view() == batch.deep_view().final_results(now),
        closed.1.deep_view() == batch.deep_view().late_events(now),
{
    let ghost view = batch.deep_view();
    let from: usize = batch.cursor + 1;
    let mut results = batch.results.clone();
    let mut events: Vec<AgentEvent> = Vec::new();
    let mut slot: usize = from;
    assert(results.deep_view() =~= view.results + view.refused_results(
        from as nat,
        slot as nat,
        now,
    ));
    assert(events.deep_view() =~= view.refused_events(from as nat, slot as nat, now));
    while slot < batch.slots.len()
        invariant
            view == batch.deep_view(),
            from <= slot <= batch.slots@.len(),
            batch.slots@.len() <= batch.calls@.len(),
            results.deep_view() == view.results + view.refused_results(
                from as nat,
                slot as nat,
                now,
            ),
            events.deep_view() == view.refused_events(from as nat, slot as nat, now),
        decreases batch.slots.len() - slot,
    {
        assert(view.slots[slot as int] == batch.slots@[slot as int].deep_view());
        assert(view.calls[slot as int] == batch.calls@[slot as int].deep_view());
        if let ToolSlot::Closed { result, is_error } = &batch.slots[slot] {
            let call = &batch.calls[slot];
            let ghost before = results.deep_view();
            let message = ToolResultMessage {
                tool_call_id: call.id.clone(),
                tool_name: call.name.clone(),
                content: result.content.clone(),
                details: crate::json::clone_optional(&result.details),
                is_error: *is_error,
                timestamp: now,
            };
            let ghost added = message.deep_view();
            emit(
                &mut events,
                AgentEvent::ToolExecutionEnd {
                    tool_call_id: call.id.clone(),
                    tool_name: call.name.clone(),
                    result: result.clone(),
                    is_error: *is_error,
                },
            );
            emit(
                &mut events,
                AgentEvent::MessageStart { message: AgentMessage::ToolResult(message.clone()) },
            );
            emit(
                &mut events,
                AgentEvent::MessageEnd { message: AgentMessage::ToolResult(message.clone()) },
            );
            results.push(message);
            proof {
                assert(added =~= view.calls[slot as int].result_message(
                    result.deep_view(),
                    *is_error,
                    now,
                ));
                assert(results.deep_view() =~= before.push(added));
                assert(results.deep_view() =~= view.results + view.refused_results(
                    from as nat,
                    slot as nat + 1,
                    now,
                ));
            }
        }
        slot = slot + 1;
    }
    (results, events)
}

/// Adds results of tools to a transcript.
fn append_results(messages: &mut Vec<AgentMessage>, results: &Vec<ToolResultMessage>)
    ensures
        final(messages).deep_view() == old(messages).deep_view() + result_entries(
            results.deep_view(),
        ),
{
    let ghost before = messages.deep_view();
    let ghost all = result_entries(results.deep_view());
    let mut i: usize = 0;
    assert(before + all.take(0) =~= before);
    while i < results.len()
        invariant
            0 <= i <= results.len(),
            all == result_entries(results.deep_view()),
            messages.deep_view() == before + all.take(i as int),
        decreases results.len() - i,
    {
        let ghost current = messages.deep_view();
        let entry = AgentMessage::ToolResult(results[i].clone());
        messages.push(entry);
        proof {
            assert(messages.deep_view() =~= current.push(entry.deep_view()));
            assert(all[i as int] == entry.deep_view());
            assert(before + all.take(i as int + 1) =~= (before + all.take(i as int)).push(
                all[i as int],
            ));
        }
        i = i + 1;
    }
    assert(all.take(i as int) =~= all);
}

} // verus!
