//! Queues of messages that wait for their turn.

use crate::agent_loop::state::append;
use crate::types::message::{AgentMessage, AgentMessageView};
use vstd::prelude::*;

verus! {

/// How much of a queue one poll takes.
#[derive(Debug, Clone, Copy, PartialEq, Eq, Structural)]
#[non_exhaustive]
pub enum QueueMode {
    All,
    OneAtATime,
}

impl Default for QueueMode {
    fn default() -> (mode: Self)
        ensures
            mode == QueueMode::OneAtATime,
    {
        QueueMode::OneAtATime
    }
}

/// Messages that wait for their turn, first come first served.
pub struct PendingMessageQueue {
    pub messages: Vec<AgentMessage>,
    pub mode: QueueMode,
}

#[verifier::ext_equal]
pub struct QueueView {
    pub messages: Seq<AgentMessageView>,
    pub mode: QueueMode,
}

impl DeepView for PendingMessageQueue {
    type V = QueueView;

    open spec fn deep_view(&self) -> QueueView {
        QueueView { messages: self.messages.deep_view(), mode: self.mode }
    }
}

impl QueueView {
    /// How many messages one poll takes.
    pub open spec fn share(self) -> int {
        if self.mode == QueueMode::All || self.messages.len() == 0 {
            self.messages.len() as int
        } else {
            1
        }
    }

    /// What one poll takes: all messages, or the first.
    pub open spec fn drained(self) -> Seq<AgentMessageView> {
        self.messages.take(self.share())
    }

    /// What one poll leaves.
    pub open spec fn rest(self) -> QueueView {
        QueueView { messages: self.messages.skip(self.share()), ..self }
    }

    /// The queue with a message at its end.
    pub open spec fn with(self, message: AgentMessageView) -> QueueView {
        QueueView { messages: self.messages.push(message), ..self }
    }

    /// The queue without messages.
    pub open spec fn emptied(self) -> QueueView {
        QueueView { messages: Seq::empty(), ..self }
    }
}

impl PendingMessageQueue {
    pub fn new(mode: QueueMode) -> (queue: Self)
        ensures
            queue.deep_view() == (QueueView { messages: Seq::empty(), mode }),
    {
        PendingMessageQueue { messages: Vec::new(), mode }
    }

    pub fn enqueue(&mut self, message: AgentMessage)
        ensures
            final(self).deep_view() == old(self).deep_view().with(message.deep_view()),
    {
        append(&mut self.messages, message);
    }

    pub fn has_items(&self) -> (yes: bool)
        ensures
            yes == (self.deep_view().messages.len() > 0),
    {
        self.messages.len() > 0
    }

    /// Takes what one poll takes.
    pub fn drain(&mut self) -> (drained: Vec<AgentMessage>)
        ensures
            drained.deep_view() == old(self).deep_view().drained(),
            final(self).deep_view() == old(self).deep_view().rest(),
    {
        let ghost all = self.messages.deep_view();
        let mut drained: Vec<AgentMessage> = Vec::new();
        if self.mode == QueueMode::All {
            std::mem::swap(&mut self.messages, &mut drained);
            assert(drained.deep_view() =~= all.take(all.len() as int));
            assert(self.messages.deep_view() =~= all.skip(all.len() as int));
        } else if self.messages.len() > 0 {
            let first = self.messages.remove(0);
            drained.push(first);
            assert(drained.deep_view() =~= all.take(1));
            assert(self.messages.deep_view() =~= all.skip(1));
        } else {
            assert(drained.deep_view() =~= all.take(0));
            assert(self.messages.deep_view() =~= all.skip(0));
        }
        drained
    }

    pub fn clear(&mut self)
        ensures
            final(self).deep_view() == old(self).deep_view().emptied(),
    {
        self.messages.clear();
        assert(self.messages.deep_view() =~= Seq::<AgentMessageView>::empty());
    }
}

/// A poll loses and reorders nothing: what it takes and what it leaves make up the queue.
pub proof fn law_drain_keeps_order(queue: QueueView)
    ensures
        queue.drained() + queue.rest().messages == queue.messages,
        queue.messages.len() > 0 ==> queue.drained().len() > 0,
        queue.mode == QueueMode::OneAtATime ==> queue.drained().len() <= 1,
        queue.mode == QueueMode::All ==> queue.rest().messages.len() == 0,
        queue.rest().mode == queue.mode,
{
    assert(queue.drained() + queue.rest().messages =~= queue.messages);
}

/// The messages that polls take from a queue until it is empty, in order.
pub open spec fn drained_until_empty(queue: QueueView) -> Seq<AgentMessageView>
    decreases queue.messages.len(),
{
    if queue.messages.len() == 0 {
        Seq::empty()
    } else {
        queue.drained() + drained_until_empty(queue.rest())
    }
}

/// Polled until it is empty, a queue hands out every message once, in the order in which they
/// were put in, whatever its mode.
pub proof fn law_queue_is_fifo(queue: QueueView)
    ensures
        drained_until_empty(queue) == queue.messages,
    decreases queue.messages.len(),
{
    law_drain_keeps_order(queue);
    if queue.messages.len() > 0 {
        law_queue_is_fifo(queue.rest());
    }
}

} // verus!
