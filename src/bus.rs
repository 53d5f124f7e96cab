//! The aggregated event stream: one publisher, many independently paced
//! subscribers, each behind by at most the buffer's capacity.

use vstd::prelude::*;
use crate::events::ApiEvent;
use crate::process::clone_opt;
use std::collections::VecDeque;

verus! {

/// What a subscriber receives on one read.
#[derive(Debug, Clone)]
pub enum Received {
    /// The next event, in publication order.
    Event(ApiEvent),
    /// The subscriber fell behind: this many of the oldest unread events
    /// were dropped for it.
    Lagged(u64),
    /// Nothing new yet.
    Empty,
    /// The publisher is gone and every retained event has been read.
    Closed,
}

/// A subscriber's position: the publication number of the next event it
/// reads.
#[derive(Debug, Clone, Copy)]
pub struct Subscription {
    pub next: u64,
}

/// Bounded broadcast buffer of the most recent events.
pub struct EventBus {
    buffer: VecDeque<ApiEvent>,
    capacity: usize,
    published: u64,
    closed: bool,
    log: Ghost<Seq<ApiEvent>>,
}

/// A copy of an event.
pub fn clone_event(e: &ApiEvent) -> (r: ApiEvent)
    ensures
        r == *e,
{
    match e {
        ApiEvent::InboundMessage { agent_id, channel_id, sender_id, text } => ApiEvent::InboundMessage {
            agent_id: agent_id.clone(),
            channel_id: channel_id.clone(),
            sender_id: sender_id.clone(),
            text: text.clone(),
        },
        ApiEvent::OutboundMessage { agent_id, channel_id, text } => ApiEvent::OutboundMessage {
            agent_id: agent_id.clone(),
            channel_id: channel_id.clone(),
            text: text.clone(),
        },
        ApiEvent::TypingState { agent_id, channel_id, is_typing } => ApiEvent::TypingState {
            agent_id: agent_id.clone(),
            channel_id: channel_id.clone(),
            is_typing: *is_typing,
        },
        ApiEvent::WorkerStarted { agent_id, channel_id, worker_id, task } => ApiEvent::WorkerStarted {
            agent_id: agent_id.clone(),
            channel_id: clone_opt(channel_id),
            worker_id: worker_id.clone(),
            task: task.clone(),
        },
        ApiEvent::WorkerStatusUpdate { agent_id, channel_id, worker_id, status } =>
            ApiEvent::WorkerStatusUpdate {
            agent_id: agent_id.clone(),
            channel_id: clone_opt(channel_id),
            worker_id: worker_id.clone(),
            status: status.clone(),
        },
        ApiEvent::WorkerCompleted { agent_id, channel_id, worker_id, result } => ApiEvent::WorkerCompleted {
            agent_id: agent_id.clone(),
            channel_id: clone_opt(channel_id),
            worker_id: worker_id.clone(),
            result: result.clone(),
        },
        ApiEvent::BranchStarted { agent_id, channel_id, branch_id, description } => ApiEvent::BranchStarted {
            agent_id: agent_id.clone(),
            channel_id: channel_id.clone(),
            branch_id: branch_id.clone(),
            description: description.clone(),
        },
        ApiEvent::BranchCompleted { agent_id, channel_id, branch_id, conclusion } =>
            ApiEvent::BranchCompleted {
            agent_id: agent_id.clone(),
            channel_id: channel_id.clone(),
            branch_id: branch_id.clone(),
            conclusion: conclusion.clone(),
        },
        ApiEvent::ToolStarted { agent_id, channel_id, process_type, process_id, tool_name } =>
            ApiEvent::ToolStarted {
            agent_id: agent_id.clone(),
            channel_id: clone_opt(channel_id),
            process_type: process_type.clone(),
            process_id: process_id.clone(),
            tool_name: tool_name.clone(),
        },
        ApiEvent::ToolCompleted { agent_id, channel_id, process_type, process_id, tool_name } =>
            ApiEvent::ToolCompleted {
            agent_id: agent_id.clone(),
            channel_id: clone_opt(channel_id),
            process_type: process_type.clone(),
            process_id: process_id.clone(),
            tool_name: tool_name.clone(),
        },
    }
}

impl EventBus {
    /// Every event published so far, in order.
    pub closed spec fn log(&self) -> Seq<ApiEvent> {
        self.log@
    }

    pub closed spec fn capacity(&self) -> nat {
        self.capacity as nat
    }

    pub closed spec fn is_closed(&self) -> bool {
        self.closed
    }

    /// The number of events published so far.
    pub open spec fn published(&self) -> nat {
        self.log().len()
    }

    /// The publication number of the oldest event still retained.
    pub open spec fn oldest(&self) -> nat {
        if self.published() > self.capacity() {
            (self.published() - self.capacity()) as nat
        } else {
            0
        }
    }

    /// The buffer holds exactly the last `capacity` events published.
    pub closed spec fn wf(&self) -> bool {
        &&& self.capacity > 0
        &&& self.published as nat == self.log@.len()
        &&& self.buffer@ == self.log@.subrange(self.oldest() as int, self.published() as int)
    }

    /// What a subscriber at position `next` receives, and its next position.
    pub open spec fn recv_spec(&self, next: u64) -> (Received, u64) {
        if next < self.oldest() {
            (Received::Lagged((self.oldest() - next) as u64), self.oldest() as u64)
        } else if next < self.published() {
            (Received::Event(self.log()[next as int]), (next + 1) as u64)
        } else if self.is_closed() {
            (Received::Closed, next)
        } else {
            (Received::Empty, next)
        }
    }

    /// An open bus that retains the last `capacity` events.
    pub fn new(capacity: usize) -> (r: EventBus)
        requires
            capacity > 0,
        ensures
            r.wf(),
            r.log() == Seq::<ApiEvent>::empty(),
            r.capacity() == capacity,
            !r.is_closed(),
    {
        let r = EventBus {
            buffer: VecDeque::new(),
            capacity,
            published: 0,
            closed: false,
            log: Ghost(Seq::empty()),
        };
        assert(r.buffer@ =~= r.log@.subrange(0, 0));
        r
    }

    /// The number of events published so far.
    pub fn published_count(&self) -> (r: u64)
        requires
            self.wf(),
        ensures
            r == self.published(),
    {
        self.published
    }

    /// A subscription that receives the events published from now on.
    pub fn subscribe(&self) -> (r: Subscription)
        requires
            self.wf(),
        ensures
            r.next == self.published(),
    {
        Subscription { next: self.published }
    }

    /// Publishes an event; the oldest retained event is dropped when the
    /// buffer is full. Publishing never waits for subscribers.
    pub fn publish(&mut self, e: ApiEvent)
        requires
            old(self).wf(),
            old(self).published() < u64::MAX,
        ensures
            final(self).wf(),
            final(self).log() == old(self).log().push(e),
            final(self).capacity() == old(self).capacity(),
            final(self).is_closed() == old(self).is_closed(),
    {
        let ghost old_log = self.log@;
        self.buffer.push_back(e);
        if self.buffer.len() > self.capacity {
            let _ = self.buffer.pop_front();
        }
        self.published = self.published + 1;
        self.log = Ghost(self.log@.push(e));
        assert(self.buffer@ =~= self.log@.subrange(self.oldest() as int, self.published() as int));
    }

    /// Tears down the publishing side: subscribers read what is retained,
    /// then observe `Closed`.
    pub fn close(&mut self)
        requires
            old(self).wf(),
        ensures
            final(self).wf(),
            final(self).log() == old(self).log(),
            final(self).capacity() == old(self).capacity(),
            final(self).is_closed(),
    {
        self.closed = true;
    }

    /// Reads for the subscriber at `sub`. A subscriber that fell behind by
    /// more than the capacity gets one `Lagged` marker with the number of
    /// events it missed and then resumes at the oldest retained event.
    pub fn recv(&self, sub: &mut Subscription) -> (r: Received)
        requires
            self.wf(),
        ensures
            (r, final(sub).next) == self.recv_spec(old(sub).next),
    {
        let len = self.buffer.len() as u64;
        let oldest = self.published - len;
        if sub.next < oldest {
            let skipped = oldest - sub.next;
            sub.next = oldest;
            Received::Lagged(skipped)
        } else if sub.next < self.published {
            let idx = (sub.next - oldest) as usize;
            let e = clone_event(&self.buffer[idx]);
            sub.next = sub.next + 1;
            Received::Event(e)
        } else if self.closed {
            Received::Closed
        } else {
            Received::Empty
        }
    }
}

/// A subscriber that fell behind receives exactly one lag marker carrying
/// the number of events it missed; its next read is the oldest retained
/// event, and from there it reads events in publication order, each once.
pub proof fn lemma_lag_marker_then_in_order(bus: EventBus, next: u64)
    requires
        bus.wf(),
    ensures
        next < bus.oldest() ==> bus.recv_spec(next) == (
            Received::Lagged((bus.oldest() - next) as u64),
            bus.oldest() as u64,
        ) && bus.recv_spec(bus.oldest() as u64) == (
            Received::Event(bus.log()[bus.oldest() as int]),
            (bus.oldest() + 1) as u64,
        ),
        bus.oldest() <= next < bus.published() ==> bus.recv_spec(next) == (
            Received::Event(bus.log()[next as int]),
            (next + 1) as u64,
        ),
        bus.recv_spec(next).1 >= next,
{
}

} // verus!
