//! The pipeline's ingress: a bounded first-in, first-out queue of events.
//!
//! A full queue hands an offered event back instead of taking it; nothing
//! that was taken ever leaves other than at the front.

use std::collections::VecDeque;
use vstd::prelude::*;
use crate::models::UpdateEvent;

verus! {

/// The number of pending events that the ingress holds unless told otherwise.
pub const DEFAULT_QUEUE_CAPACITY: usize = 1000;

/// What offering `event` to a queue that holds `pending` and has room for
/// `capacity` gives: the queue afterwards, and whether it took the event.
pub open spec fn offered(pending: Seq<UpdateEvent>, capacity: nat, event: UpdateEvent) -> (
    Seq<UpdateEvent>,
    bool,
) {
    if pending.len() < capacity {
        (pending.push(event), true)
    } else {
        (pending, false)
    }
}

/// What taking from a queue that holds `pending` gives: the queue
/// afterwards, and the event taken, if there was one.
pub open spec fn taken(pending: Seq<UpdateEvent>) -> (Seq<UpdateEvent>, Option<UpdateEvent>) {
    if pending.len() > 0 {
        (pending.drop_first(), Some(pending[0]))
    } else {
        (pending, None)
    }
}

/// A full queue refuses an event and keeps what it holds. Once its front
/// event is taken, it accepts the same event, behind all that was pending.
pub proof fn law_backpressure_then_progress(
    pending: Seq<UpdateEvent>,
    capacity: nat,
    event: UpdateEvent,
)
    requires
        0 < capacity,
        pending.len() == capacity,
    ensures
        offered(pending, capacity, event) == (pending, false),
        taken(pending).1 == Some(pending[0]),
        offered(taken(pending).0, capacity, event) == (pending.drop_first().push(event), true),
{
}

/// Events leave in the order in which they were taken in: after all of
/// `events` are offered to an empty queue with room for them, taking one by
/// one gives them back first to last.
pub proof fn law_first_in_first_out(events: Seq<UpdateEvent>, capacity: nat, k: int)
    requires
        events.len() <= capacity,
        0 <= k < events.len(),
    ensures
        offer_all(Seq::empty(), capacity, events) == events,
        take_n(events, k as nat).0 == events.skip(k),
        taken(take_n(events, k as nat).0).1 == Some(events[k]),
{
    lemma_offer_all(Seq::empty(), capacity, events);
    lemma_take_n(events, k as nat);
}

/// One use of the queue: a producer offers an event, or the worker takes
/// one.
pub enum QueueUse {
    Offer(UpdateEvent),
    Take,
}

/// What a run of uses comes to.
pub struct QueueRun {
    /// What is pending after the run.
    pub pending: Seq<UpdateEvent>,
    /// The events that the queue took in during the run, in the order in
    /// which it took them.
    pub accepted: Seq<UpdateEvent>,
    /// The events that the queue handed out during the run, in the order in
    /// which it handed them out.
    pub delivered: Seq<UpdateEvent>,
}

/// What the uses of `uses`, made in order on a queue that holds `pending`
/// and has room for `capacity`, come to. Offers and takes may alternate in
/// any way, and offers may be refused any number of times.
pub open spec fn run(pending: Seq<UpdateEvent>, capacity: nat, uses: Seq<QueueUse>) -> QueueRun
    decreases uses.len(),
{
    if uses.len() == 0 {
        QueueRun { pending, accepted: Seq::empty(), delivered: Seq::empty() }
    } else {
        let before = run(pending, capacity, uses.drop_last());
        match uses.last() {
            QueueUse::Offer(event) => {
                let (after, took) = offered(before.pending, capacity, event);
                QueueRun {
                    pending: after,
                    accepted: if took {
                        before.accepted.push(event)
                    } else {
                        before.accepted
                    },
                    delivered: before.delivered,
                }
            },
            QueueUse::Take => {
                let (after, got) = taken(before.pending);
                QueueRun {
                    pending: after,
                    accepted: before.accepted,
                    delivered: match got {
                        Some(event) => before.delivered.push(event),
                        None => before.delivered,
                    },
                }
            },
        }
    }
}

/// Whatever the uses of a queue, nothing is lost, nothing comes twice and
/// nothing overtakes: what was pending at first and what the queue took in
/// since is, in that order, what it handed out followed by what is still
/// pending. So the events handed out are the first of those that came, in
/// the order in which they came, and the events of one producer leave in
/// the order in which that producer's offers were taken. The queue never
/// holds more than it has room for.
pub proof fn law_nothing_lost_nothing_twice(
    pending: Seq<UpdateEvent>,
    capacity: nat,
    uses: Seq<QueueUse>,
)
    requires
        pending.len() <= capacity,
    ensures
        run(pending, capacity, uses).delivered + run(pending, capacity, uses).pending == pending
            + run(pending, capacity, uses).accepted,
        run(pending, capacity, uses).delivered == (pending + run(
            pending,
            capacity,
            uses,
        ).accepted).take(run(pending, capacity, uses).delivered.len() as int),
        run(pending, capacity, uses).pending.len() <= capacity,
    decreases uses.len(),
{
    let r = run(pending, capacity, uses);
    if uses.len() == 0 {
        assert(r.delivered + r.pending =~= pending + r.accepted);
    } else {
        law_nothing_lost_nothing_twice(pending, capacity, uses.drop_last());
        let before = run(pending, capacity, uses.drop_last());
        match uses.last() {
            QueueUse::Offer(event) => {
                if before.pending.len() < capacity {
                    assert(before.delivered + before.pending.push(event) =~= (before.delivered
                        + before.pending).push(event));
                    assert(pending + before.accepted.push(event) =~= (pending
                        + before.accepted).push(event));
                }
            },
            QueueUse::Take => {
                if before.pending.len() > 0 {
                    assert(before.delivered.push(before.pending[0]) + before.pending.drop_first()
                        =~= before.delivered + before.pending);
                }
            },
        }
    }
    assert(r.delivered =~= (r.delivered + r.pending).take(r.delivered.len() as int));
}

/// The queue after each of `events` was offered in turn.
pub open spec fn offer_all(pending: Seq<UpdateEvent>, capacity: nat, events: Seq<UpdateEvent>) -> Seq<
    UpdateEvent,
>
    decreases events.len(),
{
    if events.len() == 0 {
        pending
    } else {
        offered(offer_all(pending, capacity, events.drop_last()), capacity, events.last()).0
    }
}

/// The queue after `n` events were taken, and the last of them.
pub open spec fn take_n(pending: Seq<UpdateEvent>, n: nat) -> (Seq<UpdateEvent>, Option<UpdateEvent>)
    decreases n,
{
    if n == 0 {
        (pending, None)
    } else {
        taken(take_n(pending, (n - 1) as nat).0)
    }
}

/// Offering events for which there is room appends them.
pub proof fn lemma_offer_all(pending: Seq<UpdateEvent>, capacity: nat, events: Seq<UpdateEvent>)
    requires
        pending.len() + events.len() <= capacity,
    ensures
        offer_all(pending, capacity, events) == pending + events,
    decreases events.len(),
{
    if events.len() > 0 {
        lemma_offer_all(pending, capacity, events.drop_last());
    }
}

/// Taking `n` of the events that are there leaves the rest.
pub proof fn lemma_take_n(pending: Seq<UpdateEvent>, n: nat)
    requires
        n <= pending.len(),
    ensures
        take_n(pending, n).0 == pending.skip(n as int),
    decreases n,
{
    if n > 0 {
        lemma_take_n(pending, (n - 1) as nat);
    }
}

/// The bounded queue between the providers and the worker.
pub struct UpdateQueue {
    pending: VecDeque<UpdateEvent>,
    capacity: usize,
}

impl View for UpdateQueue {
    type V = Seq<UpdateEvent>;

    closed spec fn view(&self) -> Seq<UpdateEvent> {
        self.pending@
    }
}

impl UpdateQueue {
    /// Never more is pending than there is room for.
    #[verifier::type_invariant]
    spec fn bounded(self) -> bool {
        self.pending@.len() <= self.capacity
    }

    /// The number of events that the queue has room for.
    pub closed spec fn capacity(&self) -> nat {
        self.capacity as nat
    }

    /// An empty queue with room for `capacity` events.
    pub fn new(capacity: usize) -> (q: Self)
        ensures
            q@ == Seq::<UpdateEvent>::empty(),
            q.capacity() == capacity,
    {
        UpdateQueue { pending: VecDeque::new(), capacity }
    }

    /// An empty queue with room for [`DEFAULT_QUEUE_CAPACITY`] events.
    pub fn with_default_capacity() -> (q: Self)
        ensures
            q@ == Seq::<UpdateEvent>::empty(),
            q.capacity() == DEFAULT_QUEUE_CAPACITY,
    {
        UpdateQueue::new(DEFAULT_QUEUE_CAPACITY)
    }

    /// The number of pending events; never more than the capacity.
    pub fn len(&self) -> (n: usize)
        ensures
            n == self@.len(),
            n <= self.capacity(),
    {
        proof {
            use_type_invariant(self);
        }
        self.pending.len()
    }

    /// The number of events that the queue has room for.
    pub fn max_len(&self) -> (n: usize)
        ensures
            n == self.capacity(),
    {
        self.capacity
    }

    /// Whether nothing is pending.
    pub fn is_empty(&self) -> (r: bool)
        ensures
            r == (self@.len() == 0),
    {
        self.pending.len() == 0
    }

    /// Whether the queue has no room left.
    pub fn is_full(&self) -> (r: bool)
        ensures
            r == (self@.len() >= self.capacity()),
    {
        self.pending.len() >= self.capacity
    }

    /// Offers an event. A queue with room takes it in at the back; a full
    /// queue stays as it is and hands the event back, for the producer to
    /// offer again once there is room.
    pub fn try_enqueue(&mut self, event: UpdateEvent) -> (r: Result<(), UpdateEvent>)
        ensures
            final(self).capacity() == old(self).capacity(),
            final(self)@ == offered(old(self)@, old(self).capacity(), event).0,
            match r {
                Ok(()) => offered(old(self)@, old(self).capacity(), event).1,
                Err(back) => back == event && !offered(old(self)@, old(self).capacity(), event).1,
            },
    {
        proof {
            use_type_invariant(&*self);
        }
        if self.pending.len() >= self.capacity {
            return Err(event);
        }
        let mut pending: VecDeque<UpdateEvent> = VecDeque::new();
        std::mem::swap(&mut pending, &mut self.pending);
        pending.push_back(event);
        self.pending = pending;
        Ok(())
    }

    /// Takes the event at the front, if there is one.
    pub fn dequeue(&mut self) -> (r: Option<UpdateEvent>)
        ensures
            final(self).capacity() == old(self).capacity(),
            final(self)@ == taken(old(self)@).0,
            r == taken(old(self)@).1,
    {
        proof {
            use_type_invariant(&*self);
        }
        let mut pending: VecDeque<UpdateEvent> = VecDeque::new();
        std::mem::swap(&mut pending, &mut self.pending);
        let front = pending.pop_front();
        self.pending = pending;
        front
    }
}

} // verus!
