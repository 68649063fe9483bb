//! Laws of turns: how a run starts, when a turn begins and with what, and how a run ends.

use crate::agent_loop::protocol::{Observed, ReplyView, RequestView};
use crate::agent_loop::state::{PhaseView, ProgressView, RunView};
use crate::agent_loop::step::continuation_error;
use crate::agent_loop::terminal::terminal_error;
use crate::agent_loop::tool_laws::only_phase;
use crate::agent_loop::turn::shown_messages;
use crate::types::config::AgentLoopConfig;
use crate::types::error::AgentErrorView;
use crate::types::event::{AgentEventView, RunOutcomeView};
use crate::types::message::AgentMessageView;
use crate::types::model::StopReason;
use crate::types::tool::AgentContextView;
use tokio_util::sync::CancellationToken;
use vstd::prelude::*;

verus! {

/// Whether the events from one on show messages, one after the other: a start and an end for
/// each, and nothing else behind.
pub open spec fn shows_from(
    events: Seq<AgentEventView>,
    from: int,
    messages: Seq<AgentMessageView>,
) -> bool {
    &&& events.len() == from + 2 * messages.len()
    &&& forall|i: int|
        #![trigger messages[i]]
        0 <= i < messages.len() ==> {
            &&& events[from + 2 * i] == (AgentEventView::MessageStart { message: messages[i] })
            &&& events[from + 2 * i + 1] == (AgentEventView::MessageEnd { message: messages[i] })
        }
}

/// Showing messages one after the other.
proof fn lemma_shows(before: Seq<AgentEventView>, messages: Seq<AgentMessageView>)
    ensures
        shows_from(before + shown_messages(messages), before.len() as int, messages),
    decreases messages.len(),
{
    let events = before + shown_messages(messages);
    if messages.len() > 0 {
        let rest = messages.drop_last();
        lemma_shows(before, rest);
        let fewer = before + shown_messages(rest);
        assert(shown_messages(messages).len() == shown_messages(rest).len() + 2);
        assert forall|i: int| #![trigger messages[i]] 0 <= i < messages.len() implies {
            let from = before.len() as int;
            &&& events[from + 2 * i] == (AgentEventView::MessageStart { message: messages[i] })
            &&& events[from + 2 * i + 1] == (AgentEventView::MessageEnd { message: messages[i] })
        } by {
            if i < rest.len() {
                assert(rest[i] == messages[i]);
                let at = before.len() + 2 * i;
                assert(events[at] == fewer[at]);
                assert(events[at + 1] == fewer[at + 1]);
            } else {
                assert(messages.last() == messages[i]);
            }
        }
    }
}

/// A run starts with its start and the start of its first turn, shows the prompts, and adds them
/// to the transcript and to what it reports, in order. Then it polls steering; the model gets its
/// turn whatever that brings.
pub proof fn law_run_starts_with_prompts(
    prompts: Seq<AgentMessageView>,
    context: AgentContextView,
    config: AgentLoopConfig,
    cancel: CancellationToken,
)
    ensures
        ({
            let start = RunView::start(prompts, context, config, cancel);
            &&& start.events.len() >= 2
            &&& start.events[0] is AgentStart
            &&& start.events[1] is TurnStart
            &&& shows_from(start.events, 2, prompts)
            &&& start.run.config == config
            &&& start.run.cancel == cancel
            &&& start.run.context.system_prompt == context.system_prompt
            &&& start.run.context.tools == context.tools
            &&& start.run.context.messages == context.messages + prompts
            &&& start.run.new_messages == prompts
            &&& start.run.first_turn
            &&& start.run.phase == (PhaseView::Steering { after_tools: true })
            &&& start.request == match config.get_steering_messages {
                Some(source) => RequestView::PollSteering { source },
                None => RequestView::Checkpoint,
            }
        }),
{
    let start = RunView::start(prompts, context, config, cancel);
    let opening = seq![AgentEventView::AgentStart, AgentEventView::TurnStart];
    lemma_shows(opening, prompts);
    assert(start.run.new_messages =~= prompts);
}

/// Whether a turn begins with the given messages: its start is told, unless it is the first turn
/// of the run, whose start was told already; the messages are shown, and enter the transcript
/// and what the run reports; and the transcript goes to the hook that transforms it, where there
/// is one, and to the converter otherwise.
pub open spec fn begins_turn(
    run: RunView,
    pending: Seq<AgentMessageView>,
    next: ProgressView,
) -> bool {
    let messages = run.context.messages + pending;
    &&& !run.first_turn ==> next.events.len() > 0 && next.events[0] is TurnStart
    &&& shows_from(
        next.events,
        if run.first_turn {
            0
        } else {
            1
        },
        pending,
    )
    &&& next.run.config == run.config
    &&& next.run.cancel == run.cancel
    &&& next.run.context.system_prompt == run.context.system_prompt
    &&& next.run.context.tools == run.context.tools
    &&& next.run.context.messages == messages
    &&& next.run.new_messages == run.new_messages + pending
    &&& !next.run.first_turn
    &&& match run.config.transform_context {
        Some(hook) => {
            &&& next.run.phase is Transform
            &&& next.request == (RequestView::TransformContext {
                hook,
                messages,
                cancel: run.cancel,
            })
        },
        None => {
            &&& next.run.phase is Convert
            &&& next.request == (RequestView::ConvertToLlm {
                converter: run.config.convert_to_llm,
                messages,
            })
        },
    }
}

/// Whether a run ends as aborted, with nothing added.
pub open spec fn ends_aborted(run: RunView, next: ProgressView) -> bool {
    &&& only_phase(run, next.run)
    &&& next.events.len() == 1
    &&& next.events[0] == (AgentEventView::RunAborted { messages: run.new_messages })
    &&& next.request == (RequestView::Finish {
        outcome: RunOutcomeView::Aborted { new_messages: run.new_messages },
    })
}

/// What beginning a turn comes to.
proof fn lemma_begins(run: RunView, pending: Seq<AgentMessageView>, observed: Observed)
    ensures
        observed.cancelled ==> ends_aborted(run, run.idle().begin_turn(pending, observed)),
        !observed.cancelled ==> begins_turn(
            run,
            pending,
            run.idle().begin_turn(pending, observed),
        ),
{
    if run.first_turn {
        lemma_shows(Seq::empty(), pending);
    } else {
        lemma_shows(seq![AgentEventView::TurnStart], pending);
    }
}

/// After a poll for steering messages, the model gets another turn where tools ran before it or
/// messages came in: exactly these messages enter the transcript. Otherwise follow-up messages
/// are polled, and nothing else happens. A run that was cancelled begins no turn.
pub proof fn law_steering_begins_a_turn(
    run: RunView,
    reply: ReplyView,
    observed: Observed,
    complaint: Seq<char>,
)
    requires
        run.phase is Steering,
        run.accepts(reply),
    ensures
        ({
            let pending = match reply {
                ReplyView::Messages(messages) => messages,
                _ => Seq::empty(),
            };
            let next = run.step(reply, observed, complaint);
            if run.phase->after_tools || pending.len() > 0 {
                if observed.cancelled {
                    ends_aborted(run, next)
                } else {
                    begins_turn(run, pending, next)
                }
            } else {
                &&& only_phase(run, next.run)
                &&& next.run.phase is FollowUp
                &&& next.events.len() == 0
                &&& next.request == match run.config.get_follow_up_messages {
                    Some(source) => RequestView::PollFollowUp { source },
                    None => RequestView::Checkpoint,
                }
            }
        }),
{
    reveal(RunView::steered);
    lemma_begins(run, reply.messages(), observed);
}

/// After a poll for follow-up messages, the model gets another turn where messages came in:
/// exactly these enter the transcript. Otherwise the run is completed, and nothing else happens.
/// A run that was cancelled begins no turn.
pub proof fn law_follow_up_begins_a_turn(
    run: RunView,
    reply: ReplyView,
    observed: Observed,
    complaint: Seq<char>,
)
    requires
        run.phase is FollowUp,
        run.accepts(reply),
    ensures
        ({
            let pending = match reply {
                ReplyView::Messages(messages) => messages,
                _ => Seq::empty(),
            };
            let next = run.step(reply, observed, complaint);
            if pending.len() > 0 {
                if observed.cancelled {
                    ends_aborted(run, next)
                } else {
                    begins_turn(run, pending, next)
                }
            } else {
                &&& only_phase(run, next.run)
                &&& next.events.len() == 1
                &&& next.events[0] == (AgentEventView::RunCompleted { messages: run.new_messages })
                &&& next.request == (RequestView::Finish {
                    outcome: RunOutcomeView::Completed { new_messages: run.new_messages },
                })
            }
        }),
{
    reveal(RunView::followed_up);
    lemma_begins(run, reply.messages(), observed);
}

/// Whether a message tells of an error, as a message of the model that stopped for the reason.
pub open spec fn tells_error(
    message: AgentMessageView,
    reason: StopReason,
    text: Seq<char>,
) -> bool {
    message matches AgentMessageView::Assistant(answer)
        && answer.stop_reason == reason && answer.error_message == Some(text)
}

/// The error that messages tell of is that of the last one of the model which stopped for the
/// given reason and has an error text; there is none exactly where no message is of that kind.
pub proof fn law_last_error_counts(messages: Seq<AgentMessageView>, reason: StopReason)
    ensures
        match terminal_error(messages, reason) {
            Some(text) => exists|i: int|
                #![trigger messages[i]]
                {
                    &&& 0 <= i < messages.len()
                    &&& tells_error(messages[i], reason, text)
                    &&& forall|j: int, other: Seq<char>|
                        i < j < messages.len() ==> !#[trigger] tells_error(
                            messages[j],
                            reason,
                            other,
                        )
                },
            None => forall|j: int, other: Seq<char>|
                0 <= j < messages.len() ==> !#[trigger] tells_error(messages[j], reason, other),
        },
    decreases messages.len(),
{
    if messages.len() > 0 {
        let rest = messages.drop_last();
        let last = messages.len() - 1;
        law_last_error_counts(rest, reason);
        if messages.last().error_text(reason) is Some {
            assert(tells_error(messages[last], reason, messages.last().error_text(reason)->0));
        } else {
            assert forall|j: int, other: Seq<char>|
                0 <= j < messages.len() && (j < last ==> !tells_error(
                    rest[j],
                    reason,
                    other,
                )) implies !#[trigger] tells_error(messages[j], reason, other) by {
                if j < last {
                    assert(rest[j] == messages[j]);
                }
            }
            if let Some(text) = terminal_error(rest, reason) {
                let i = choose|i: int|
                    #![trigger rest[i]]
                    {
                        &&& 0 <= i < rest.len()
                        &&& tells_error(rest[i], reason, text)
                        &&& forall|j: int, other: Seq<char>|
                            i < j < rest.len() ==> !#[trigger] tells_error(rest[j], reason, other)
                    };
                assert(messages[i] == rest[i]);
                assert forall|j: int, other: Seq<char>|
                    i < j < messages.len() implies !#[trigger] tells_error(
                        messages[j],
                        reason,
                        other,
                    ) by {
                    if j < last {
                        assert(rest[j] == messages[j]);
                        assert(!tells_error(rest[j], reason, other));
                    }
                }
            } else {
                assert forall|j: int, other: Seq<char>| 0 <= j < messages.len() implies
                    !#[trigger] tells_error(messages[j], reason, other) by {
                    if j < last {
                        assert(rest[j] == messages[j]);
                        assert(!tells_error(rest[j], reason, other));
                    }
                }
            }
        }
    }
}

/// The event that tells of an outcome has its messages. Where the run failed, its text is that of
/// the last message with an error; where there is none, it is that of the error itself.
pub proof fn law_outcome_is_told(outcome: RunOutcomeView)
    ensures
        match outcome {
            RunOutcomeView::Completed { new_messages } => outcome.terminal_event() == (
            AgentEventView::RunCompleted { messages: new_messages }),
            RunOutcomeView::Aborted { new_messages } => outcome.terminal_event() == (
            AgentEventView::RunAborted { messages: new_messages }),
            RunOutcomeView::Failed { new_messages, error } => {
                &&& outcome.terminal_event() matches AgentEventView::RunFailed {
                    messages,
                    error_message,
                } && messages == new_messages && {
                    ||| exists|i: int|
                        #![trigger new_messages[i]]
                        {
                            &&& 0 <= i < new_messages.len()
                            &&& tells_error(new_messages[i], StopReason::Error, error_message)
                            &&& forall|j: int, other: Seq<char>|
                                i < j < new_messages.len() ==> !#[trigger] tells_error(
                                    new_messages[j],
                                    StopReason::Error,
                                    other,
                                )
                        }
                    ||| {
                        &&& error_message == error.text()
                        &&& forall|j: int, other: Seq<char>|
                            0 <= j < new_messages.len() ==> !#[trigger] tells_error(
                                new_messages[j],
                                StopReason::Error,
                                other,
                            )
                    }
                }
            },
        },
{
    if let RunOutcomeView::Failed { new_messages, .. } = outcome {
        law_last_error_counts(new_messages, StopReason::Error);
    }
}

/// A run can go on from a transcript exactly where that holds a message and the last one does not
/// stand in the role of the model: neither a message of the model, nor one of the application
/// that takes that role.
pub proof fn law_run_goes_on_from_the_user(messages: Seq<AgentMessageView>)
    ensures
        messages.len() == 0 <==> continuation_error(messages) == Some(AgentErrorView::NoMessages),
        messages.len() > 0 ==> {
            let last = messages[messages.len() - 1];
            let by_model = last is Assistant || (last matches AgentMessageView::Custom(custom)
                && custom.role == "assistant"@);
            &&& by_model <==> continuation_error(messages) == Some(
                AgentErrorView::ContinueFromAssistant,
            )
            &&& !by_model <==> continuation_error(messages) is None
        },
{
    reveal_strlit("assistant");
    reveal_strlit("user");
    reveal_strlit("toolResult");
    assert("assistant"@.len() == 9);
    assert("user"@.len() == 4);
    assert("toolResult"@.len() == 10);
}

} // verus!
