//! Errors of runs.

use crate::types::message::UserContentBuildError;
use vstd::prelude::*;

verus! {

/// Why a run could not start, or failed.
#[derive(Debug)]
#[non_exhaustive]
pub enum AgentError {
    AlreadyProcessing,
    NoMessages,
    ContinueFromAssistant,
    Aborted,
    Stream(String),
    JoinError(String),
    UserContent(UserContentBuildError),
    Internal(String),
    Other(String),
}

#[verifier::ext_equal]
pub enum AgentErrorView {
    AlreadyProcessing,
    NoMessages,
    ContinueFromAssistant,
    Aborted,
    Stream(Seq<char>),
    JoinError(Seq<char>),
    UserContent(UserContentBuildError),
    Internal(Seq<char>),
    Other(Seq<char>),
}

impl DeepView for AgentError {
    type V = AgentErrorView;

    open spec fn deep_view(&self) -> AgentErrorView {
        match self {
            AgentError::AlreadyProcessing => AgentErrorView::AlreadyProcessing,
            AgentError::NoMessages => AgentErrorView::NoMessages,
            AgentError::ContinueFromAssistant => AgentErrorView::ContinueFromAssistant,
            AgentError::Aborted => AgentErrorView::Aborted,
            AgentError::Stream(text) => AgentErrorView::Stream(text@),
            AgentError::JoinError(text) => AgentErrorView::JoinError(text@),
            AgentError::UserContent(error) => AgentErrorView::UserContent(*error),
            AgentError::Internal(text) => AgentErrorView::Internal(text@),
            AgentError::Other(text) => AgentErrorView::Other(text@),
        }
    }
}

impl AgentErrorView {
    /// The text of the error.
    pub open spec fn text(self) -> Seq<char> {
        match self {
            AgentErrorView::AlreadyProcessing => {
                "Agent is already processing a prompt. Use steer() or follow_up() to queue messages."@
            },
            AgentErrorView::NoMessages => "Cannot continue: no messages in context"@,
            AgentErrorView::ContinueFromAssistant => {
                "Cannot continue from message role: assistant"@
            },
            AgentErrorView::Aborted => "Run aborted"@,
            AgentErrorView::Stream(text) => "Stream error: "@ + text,
            AgentErrorView::JoinError(text) => "Task join error: "@ + text,
            AgentErrorView::UserContent(error) => error.text(),
            AgentErrorView::Internal(text) => "Internal error: "@ + text,
            AgentErrorView::Other(text) => text,
        }
    }
}

impl AgentError {
    /// Says what went wrong.
    pub fn to_text(&self) -> (text: String)
        ensures
            text@ == self.deep_view().text(),
    {
        match self {
            AgentError::AlreadyProcessing => {
                "Agent is already processing a prompt. Use steer() or follow_up() to queue messages.".to_owned()
            },
            AgentError::NoMessages => "Cannot continue: no messages in context".to_owned(),
            AgentError::ContinueFromAssistant => {
                "Cannot continue from message role: assistant".to_owned()
            },
            AgentError::Aborted => "Run aborted".to_owned(),
            AgentError::Stream(text) => "Stream error: ".to_owned().concat(text.as_str()),
            AgentError::JoinError(text) => "Task join error: ".to_owned().concat(text.as_str()),
            AgentError::UserContent(error) => error.to_text(),
            AgentError::Internal(text) => "Internal error: ".to_owned().concat(text.as_str()),
            AgentError::Other(text) => text.clone(),
        }
    }
}

impl From<UserContentBuildError> for AgentError {
    fn from(error: UserContentBuildError) -> (wrapped: Self) {
        AgentError::UserContent(error)
    }
}

impl vstd::std_specs::convert::FromSpecImpl<UserContentBuildError> for AgentError {
    open spec fn obeys_from_spec() -> bool {
        true
    }

    open spec fn from_spec(error: UserContentBuildError) -> AgentError {
        AgentError::UserContent(error)
    }
}

} // verus!
