//! The state of an agent, and how the events of a run change it.

use crate::agent_loop::terminal::{terminal_error, terminal_error_message};
use crate::types::error::{AgentError, AgentErrorView};
use crate::types::event::{AgentEvent, AgentEventView};
use crate::types::message::{AgentMessage, AgentMessageView};
use crate::types::model::{Model, ModelView, StopReason, ThinkingLevel};
use crate::types::tool::{AgentContext, AgentContextView, AgentTool, AgentToolView};
use vstd::prelude::*;

verus! {

/// Public agent state exposed by the high-level `Agent`.
///
/// `is_streaming` stays true until the current run finishes and subscribed listeners have
/// settled for all emitted events (including the terminal run event).
#[derive(Debug)]
pub struct AgentState {
    pub system_prompt: String,
    pub model: Model,
    pub thinking_level: ThinkingLevel,
    pub tools: Vec<AgentTool>,
    pub messages: Vec<AgentMessage>,
    /// True while a prompt/continuation is running and until event listeners have completed.
    pub is_streaming: bool,
    pub streaming_message: Option<AgentMessage>,
    /// The ids of the tool calls under way, none of them twice.
    pub pending_tool_calls: Vec<String>,
    pub error_message: Option<String>,
}

#[verifier::ext_equal]
pub struct AgentStateView {
    pub system_prompt: Seq<char>,
    pub model: ModelView,
    pub thinking_level: ThinkingLevel,
    pub tools: Seq<AgentToolView>,
    pub messages: Seq<AgentMessageView>,
    pub is_streaming: bool,
    pub streaming_message: Option<AgentMessageView>,
    pub pending_tool_calls: Set<Seq<char>>,
    pub error_message: Option<Seq<char>>,
}

impl DeepView for AgentState {
    type V = AgentStateView;

    open spec fn deep_view(&self) -> AgentStateView {
        AgentStateView {
            system_prompt: self.system_prompt@,
            model: self.model.deep_view(),
            thinking_level: self.thinking_level,
            tools: self.tools.deep_view(),
            messages: self.messages.deep_view(),
            is_streaming: self.is_streaming,
            streaming_message: self.streaming_message.deep_view(),
            pending_tool_calls: self.pending_tool_calls.deep_view().to_set(),
            error_message: self.error_message.deep_view(),
        }
    }
}

impl AgentState {
    /// Whether no tool call is pending twice.
    pub open spec fn wf(&self) -> bool {
        self.pending_tool_calls.deep_view().no_duplicates()
    }
}

impl Clone for AgentState {
    fn clone(&self) -> (copy: Self)
        ensures
            copy.deep_view() == self.deep_view(),
            copy.pending_tool_calls.deep_view() == self.pending_tool_calls.deep_view(),
            self.wf() ==> copy.wf(),
    {
        AgentState {
            system_prompt: self.system_prompt.clone(),
            model: self.model.clone(),
            thinking_level: self.thinking_level,
            tools: self.tools.clone(),
            messages: self.messages.clone(),
            is_streaming: self.is_streaming,
            streaming_message: match &self.streaming_message {
                Some(message) => Some(message.clone()),
                None => None,
            },
            pending_tool_calls: self.pending_tool_calls.clone(),
            error_message: self.error_message.clone(),
        }
    }
}

impl AgentStateView {
    /// The state after an event of a run.
    pub open spec fn reduce(self, event: AgentEventView) -> AgentStateView {
        match event {
            AgentEventView::MessageStart { message } => AgentStateView {
                streaming_message: Some(message),
                ..self
            },
            AgentEventView::MessageUpdate { message, .. } => AgentStateView {
                streaming_message: Some(message),
                ..self
            },
            AgentEventView::MessageEnd { message } => AgentStateView {
                streaming_message: None,
                messages: self.messages.push(message),
                ..self
            },
            AgentEventView::ToolExecutionStart { tool_call_id, .. } => AgentStateView {
                pending_tool_calls: self.pending_tool_calls.insert(tool_call_id),
                ..self
            },
            AgentEventView::ToolExecutionEnd { tool_call_id, .. } => AgentStateView {
                pending_tool_calls: self.pending_tool_calls.remove(tool_call_id),
                ..self
            },
            AgentEventView::RunCompleted { .. } => AgentStateView {
                streaming_message: None,
                ..self
            },
            AgentEventView::RunFailed { messages, error_message } => AgentStateView {
                streaming_message: None,
                error_message: match terminal_error(messages, StopReason::Error) {
                    Some(text) => Some(text),
                    None => Some(error_message),
                },
                ..self
            },
            AgentEventView::RunAborted { messages } => AgentStateView {
                streaming_message: None,
                error_message: match terminal_error(messages, StopReason::Aborted) {
                    Some(text) => Some(text),
                    None => Some(AgentErrorView::Aborted.text()),
                },
                ..self
            },
            _ => self,
        }
    }

    /// The state at the start of a run.
    pub open spec fn begun(self) -> AgentStateView {
        AgentStateView {
            is_streaming: true,
            streaming_message: None,
            error_message: None,
            ..self
        }
    }

    /// The state once a run has settled.
    pub open spec fn settled(self) -> AgentStateView {
        AgentStateView {
            is_streaming: false,
            streaming_message: None,
            pending_tool_calls: Set::empty(),
            ..self
        }
    }

    /// The state without transcript and without what a run leaves behind.
    pub open spec fn cleared(self) -> AgentStateView {
        AgentStateView {
            messages: Seq::empty(),
            is_streaming: false,
            streaming_message: None,
            pending_tool_calls: Set::empty(),
            error_message: None,
            ..self
        }
    }

    /// What a run gets to work with.
    pub open spec fn context(self) -> AgentContextView {
        AgentContextView {
            system_prompt: self.system_prompt,
            messages: self.messages,
            tools: self.tools,
        }
    }
}

/// Where a text stands in a list of texts; the length of the list if it does not.
fn find_text(texts: &Vec<String>, text: &String) -> (index: usize)
    ensures
        index <= texts@.len(),
        index < texts@.len() ==> texts.deep_view()[index as int] == text@,
        index == texts@.len() ==> !texts.deep_view().contains(text@),
{
    let mut i: usize = 0;
    while i < texts.len()
        invariant
            0 <= i <= texts@.len(),
            forall|j: int| 0 <= j < i ==> #[trigger] texts.deep_view()[j] != text@,
        decreases texts.len() - i,
    {
        assert(texts.deep_view()[i as int] == texts@[i as int]@);
        if texts[i] == *text {
            return i;
        }
        i = i + 1;
    }
    i
}

/// Adds a text to a list, unless it is there.
fn insert_text(texts: &mut Vec<String>, text: &String)
    ensures
        final(texts).deep_view().to_set() == old(texts).deep_view().to_set().insert(text@),
        old(texts).deep_view().no_duplicates() ==> final(texts).deep_view().no_duplicates(),
{
    let ghost before = texts.deep_view();
    let index: usize = find_text(texts, text);
    if index == texts.len() {
        texts.push(text.clone());
        proof {
            let after = texts.deep_view();
            assert(after =~= before.push(text@));
            assert forall|x: Seq<char>| #[trigger] after.contains(x) == (before.contains(x) || x
                == text@) by {
                if before.contains(x) {
                    let i = choose|i: int| 0 <= i < before.len() && before[i] == x;
                    assert(after[i] == x);
                }
                assert(after[before.len() as int] == text@);
            }
            assert(after.to_set() =~= before.to_set().insert(text@));
        }
    } else {
        assert(before.contains(text@));
        assert(before.to_set() =~= before.to_set().insert(text@));
    }
}

/// Takes a text out of a list, wherever it stands.
fn remove_text(texts: &mut Vec<String>, text: &String)
    ensures
        final(texts).deep_view().to_set() == old(texts).deep_view().to_set().remove(text@),
        old(texts).deep_view().no_duplicates() ==> final(texts).deep_view().no_duplicates(),
{
    let ghost before = texts.deep_view();
    let mut kept: Vec<String> = Vec::new();
    let mut i: usize = 0;
    while i < texts.len()
        invariant
            0 <= i <= texts@.len(),
            before == texts.deep_view(),
            forall|x: Seq<char>| #[trigger]
                kept.deep_view().contains(x) ==> before.take(i as int).contains(x) && x != text@,
            forall|j: int|
                0 <= j < i && #[trigger] before[j] != text@ ==> kept.deep_view().contains(
                    before[j],
                ),
            before.no_duplicates() ==> kept.deep_view().no_duplicates(),
        decreases texts.len() - i,
    {
        let ghost current = kept.deep_view();
        let ghost next = before.take(i as int + 1);
        assert(next =~= before.take(i as int).push(before[i as int]));
        assert(before[i as int] == texts@[i as int]@);
        if texts[i] != *text {
            kept.push(texts[i].clone());
        }
        proof {
            let after = kept.deep_view();
            assert forall|x: Seq<char>| #[trigger] after.contains(x) implies next.contains(x) && x
                != text@ by {
                let k = choose|k: int| 0 <= k < after.len() && after[k] == x;
                if k < current.len() {
                    assert(current[k] == x);
                    assert(current.contains(x));
                    let m = choose|m: int|
                        0 <= m < before.take(i as int).len() && before.take(i as int)[m] == x;
                    assert(next[m] == x);
                } else {
                    assert(next[i as int] == x);
                }
            }
            assert forall|j: int| 0 <= j < i + 1 && #[trigger] before[j] != text@ implies after.contains(
                before[j],
            ) by {
                if j < i {
                    let k = choose|k: int| 0 <= k < current.len() && current[k] == before[j];
                    assert(after[k] == before[j]);
                } else {
                    assert(after[current.len() as int] == before[j]);
                }
            }
            if before.no_duplicates() && after.len() > current.len() {
                assert(after =~= current.push(before[i as int]));
                assert(!current.contains(before[i as int])) by {
                    if current.contains(before[i as int]) {
                        let m = choose|m: int|
                            0 <= m < before.take(i as int).len() && before.take(i as int)[m]
                                == before[i as int];
                        assert(before[m] == before[i as int]);
                    }
                }
            } else {
                assert(after =~= current || !before.no_duplicates());
            }
        }
        i = i + 1;
    }
    proof {
        let after = kept.deep_view();
        assert(before.take(i as int) =~= before);
        assert forall|x: Seq<char>| #[trigger] after.contains(x) == (before.contains(x) && x
            != text@) by {
            if before.contains(x) && x != text@ {
                let j = choose|j: int| 0 <= j < before.len() && before[j] == x;
                assert(after.contains(before[j]));
            }
        }
        assert(after.to_set() =~= before.to_set().remove(text@));
    }
    *texts = kept;
}

impl AgentState {
    /// Takes an event of a run into the state.
    pub fn reduce(&mut self, event: &AgentEvent)
        ensures
            old(self).wf() ==> final(self).wf(),
            final(self).deep_view() == old(self).deep_view().reduce(event.deep_view()),
    {
        match event {
            AgentEvent::MessageStart { message } => {
                self.streaming_message = Some(message.clone());
            },
            AgentEvent::MessageUpdate { message, .. } => {
                self.streaming_message = Some(message.clone());
            },
            AgentEvent::MessageEnd { message } => {
                let ghost before = self.messages.deep_view();
                self.streaming_message = None;
                self.messages.push(message.clone());
                assert(self.messages.deep_view() =~= before.push(message.deep_view()));
            },
            AgentEvent::ToolExecutionStart { tool_call_id, .. } => {
                insert_text(&mut self.pending_tool_calls, tool_call_id);
            },
            AgentEvent::ToolExecutionEnd { tool_call_id, .. } => {
                remove_text(&mut self.pending_tool_calls, tool_call_id);
            },
            AgentEvent::RunCompleted { .. } => {
                self.streaming_message = None;
            },
            AgentEvent::RunFailed { messages, error_message } => {
                self.streaming_message = None;
                self.error_message =
                match terminal_error_message(messages, StopReason::Error) {
                    Some(text) => Some(text),
                    None => Some(error_message.clone()),
                };
            },
            AgentEvent::RunAborted { messages } => {
                self.streaming_message = None;
                self.error_message =
                match terminal_error_message(messages, StopReason::Aborted) {
                    Some(text) => Some(text),
                    None => Some(AgentError::Aborted.to_text()),
                };
            },
            AgentEvent::AgentStart => {},
            AgentEvent::TurnStart => {},
            AgentEvent::TurnEnd { .. } => {},
            AgentEvent::ToolExecutionUpdate { .. } => {},
        }
    }

    /// Marks the start of a run.
    pub fn begin(&mut self)
        ensures
            old(self).wf() ==> final(self).wf(),
            final(self).deep_view() == old(self).deep_view().begun(),
    {
        self.is_streaming = true;
        self.streaming_message = None;
        self.error_message = None;
    }

    /// Marks that a run has settled.
    pub fn settle(&mut self)
        ensures
            final(self).wf(),
            final(self).deep_view() == old(self).deep_view().settled(),
    {
        self.is_streaming = false;
        self.streaming_message = None;
        self.pending_tool_calls.clear();
        assert(self.pending_tool_calls.deep_view().to_set() =~= Set::empty());
    }

    /// Forgets the transcript and what runs left behind.
    pub fn clear(&mut self)
        ensures
            final(self).wf(),
            final(self).deep_view() == old(self).deep_view().cleared(),
    {
        self.messages.clear();
        self.is_streaming = false;
        self.streaming_message = None;
        self.pending_tool_calls.clear();
        self.error_message = None;
        assert(self.messages.deep_view() =~= Seq::empty());
        assert(self.pending_tool_calls.deep_view().to_set() =~= Set::empty());
    }

    /// What a run gets to work with.
    pub fn context(&self) -> (context: AgentContext)
        ensures
            context.deep_view() == self.deep_view().context(),
    {
        AgentContext {
            system_prompt: self.system_prompt.clone(),
            messages: self.messages.clone(),
            tools: self.tools.clone(),
        }
    }
}

} // verus!
