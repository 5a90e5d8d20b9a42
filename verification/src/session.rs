//! A device session's decode pipeline and its bounded-channel backpressure.
//!
//! A session's background task decodes every inbound notification and offers
//! the result to a bounded queue of capacity [`SESSION_QUEUE_CAPACITY`]. The
//! backpressure policy is drop-newest: when the queue is full the freshly
//! decoded state is discarded silently, so at most two states are ever
//! buffered and the consumer drains them in arrival order. A queue whose
//! receiving side is gone is closed; offering to it fails, which is the
//! task's sole signal to terminate. A full queue is never an error and never
//! stops the task.

use crate::state::{
    decode_left_report, decode_right_report, left_state_of, right_state_of, Controller,
    ControllerState,
};
use vstd::prelude::*;

verus! {

/// Capacity of a session's state queue.
pub const SESSION_QUEUE_CAPACITY: usize = 2;

/// Outcome of offering one decoded state to the queue.
#[derive(Clone, Copy, Debug, PartialEq, Eq, Structural)]
pub enum OfferOutcome {
    /// The state was queued.
    Accepted,
    /// The queue was full; the offered state was dropped silently.
    DroppedNewest,
    /// The receiving side is gone; the task must terminate.
    Closed,
}

/// The pending contents after one state is offered to an open queue:
/// appended if there is room, dropped if the queue is full.
pub open spec fn offered(pending: Seq<ControllerState>, s: ControllerState) -> Seq<ControllerState> {
    if pending.len() < SESSION_QUEUE_CAPACITY {
        pending.push(s)
    } else {
        pending
    }
}

/// The bounded single-producer single-consumer queue between a session's
/// decode task and its consumer.
pub struct SessionQueue {
    items: Vec<ControllerState>,
    closed: bool,
}

impl SessionQueue {
    /// The states buffered for the consumer, oldest first.
    pub closed spec fn pending(self) -> Seq<ControllerState> {
        self.items@
    }

    /// Whether the receiving side is gone.
    pub closed spec fn is_closed(self) -> bool {
        self.closed
    }

    /// The queue never buffers more than its capacity.
    pub closed spec fn wf(self) -> bool {
        self.items@.len() <= SESSION_QUEUE_CAPACITY
    }

    /// A fresh, open, empty queue.
    pub fn new() -> (q: SessionQueue)
        ensures
            q.wf(),
            !q.is_closed(),
            q.pending() == Seq::<ControllerState>::empty(),
    {
        let q = SessionQueue { items: Vec::new(), closed: false };
        proof {
            assert(q.pending() =~= Seq::<ControllerState>::empty());
        }
        q
    }

    /// Offer one decoded state. On an open queue the contents become
    /// [`offered`] of the old contents; on a closed queue nothing changes and
    /// the producer learns it must stop.
    pub fn offer(&mut self, s: ControllerState) -> (o: OfferOutcome)
        requires
            old(self).wf(),
        ensures
            final(self).wf(),
            final(self).is_closed() == old(self).is_closed(),
            old(self).is_closed() ==> o == OfferOutcome::Closed
                && final(self).pending() == old(self).pending(),
            !old(self).is_closed() ==> final(self).pending() == offered(old(self).pending(), s),
            !old(self).is_closed() && old(self).pending().len() < SESSION_QUEUE_CAPACITY
                ==> o == OfferOutcome::Accepted,
            !old(self).is_closed() && old(self).pending().len() >= SESSION_QUEUE_CAPACITY
                ==> o == OfferOutcome::DroppedNewest,
    {
        if self.closed {
            OfferOutcome::Closed
        } else if self.items.len() < SESSION_QUEUE_CAPACITY {
            self.items.push(s);
            OfferOutcome::Accepted
        } else {
            OfferOutcome::DroppedNewest
        }
    }

    /// Take the oldest buffered state, if any. The queue delivers states in
    /// arrival order.
    pub fn take(&mut self) -> (r: Option<ControllerState>)
        requires
            old(self).wf(),
        ensures
            final(self).wf(),
            final(self).is_closed() == old(self).is_closed(),
            old(self).pending().len() == 0 ==> r is None
                && final(self).pending() == old(self).pending(),
            old(self).pending().len() > 0 ==> r == Some(old(self).pending()[0])
                && final(self).pending() == old(self).pending().skip(1),
    {
        if self.items.len() == 0 {
            None
        } else {
            let s = self.items.remove(0);
            proof {
                assert(self.items@ =~= old(self).pending().skip(1));
            }
            Some(s)
        }
    }

    /// Mark the receiving side gone. Pending states stay but every later
    /// offer fails, which terminates the producer task.
    pub fn close(&mut self)
        requires
            old(self).wf(),
        ensures
            final(self).wf(),
            final(self).is_closed(),
            final(self).pending() == old(self).pending(),
    {
        self.closed = true;
    }
}

/// The typed state one notification decodes to for the given half.
pub open spec fn state_of_notification(half: Controller, bytes: Seq<u8>) -> ControllerState
    recommends
        bytes.len() >= 8,
{
    match half {
        Controller::JoyconLeft => ControllerState::Left(left_state_of(bytes)),
        Controller::JoyconRight => ControllerState::Right(right_state_of(bytes)),
    }
}

/// Decode one notification into the typed state of the session's half.
pub fn decode_notification(half: Controller, value: &Vec<u8>) -> (s: ControllerState)
    requires
        value@.len() >= 8,
    ensures
        s == state_of_notification(half, value@),
{
    match half {
        Controller::JoyconLeft => ControllerState::Left(decode_left_report(value)),
        Controller::JoyconRight => ControllerState::Right(decode_right_report(value)),
    }
}

/// One step of a session's decode task: decode the notification, offer the
/// state to the queue, and report whether the task goes on. It stops exactly
/// when the queue is closed; a full queue only drops the new state.
pub fn session_step(queue: &mut SessionQueue, half: Controller, value: &Vec<u8>) -> (cont: bool)
    requires
        old(queue).wf(),
        value@.len() >= 8,
    ensures
        final(queue).wf(),
        final(queue).is_closed() == old(queue).is_closed(),
        cont == !old(queue).is_closed(),
        old(queue).is_closed() ==> final(queue).pending() == old(queue).pending(),
        !old(queue).is_closed() ==> final(queue).pending() == offered(
            old(queue).pending(),
            state_of_notification(half, value@),
        ),
{
    let state = decode_notification(half, value);
    let outcome = queue.offer(state);
    !matches!(outcome, OfferOutcome::Closed)
}

/// Law: backpressure is bounded and drop-newest. Three states offered to a
/// fresh queue with no drain leave exactly the first two pending — the third
/// is dropped silently, and the consumer never sees a third buffered state.
pub proof fn lemma_backpressure_drops_newest(
    s1: ControllerState,
    s2: ControllerState,
    s3: ControllerState,
)
    ensures
        offered(offered(offered(Seq::empty(), s1), s2), s3) == seq![s1, s2],
        offered(offered(offered(Seq::empty(), s1), s2), s3).len() <= SESSION_QUEUE_CAPACITY,
{
    assert(offered(offered(offered(Seq::empty(), s1), s2), s3) =~= seq![s1, s2]);
}

/// Law: however many states are offered with no drain, the queue never holds
/// more than its capacity.
pub proof fn lemma_offer_preserves_bound(pending: Seq<ControllerState>, s: ControllerState)
    requires
        pending.len() <= SESSION_QUEUE_CAPACITY,
    ensures
        offered(pending, s).len() <= SESSION_QUEUE_CAPACITY,
{
}

} // verus!
