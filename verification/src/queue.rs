//! The bounded event queue.
//!
//! A fixed-capacity FIFO between one producer and its consumers. Each side
//! has a credit counter and a closed flag of its own: a queue that the
//! producer closed still lets the backlog drain, and the consumer side closes
//! only when a consumer reaches the `Closed` sentinel.

use crate::subscription::{guard_receiver, offer, open_channel, Subscription, SUBSCRIPTION_BUFFER};
use std::collections::VecDeque;
use std::sync::Arc;
use vstd::pervasive::unreached;
use vstd::prelude::*;

verus! {

/// Why an operation on the queue did not go through.
#[derive(Debug, Clone, Copy, PartialEq, Eq)]
pub enum QueueError {
    /// Every slot is taken.
    QueueFull,
    /// The producer side was closed.
    EnqueueClosed,
    /// Nothing is buffered right now; poll again later.
    QueueEmpty,
    /// The consumer side was closed by an earlier `QueueClosed`.
    DequeueClosed,
    /// The consumer reached the sentinel: the backlog is drained.
    QueueClosed,
}

/// How long a caller waits before it makes a refused call again, in
/// milliseconds.
pub const POLL_INTERVAL_MILLIS: u64 = 100;

/// What a producer does with an item that the queue refused.
#[derive(Debug, Clone, Copy, PartialEq, Eq)]
pub enum ProducerMove {
    /// Wait for `POLL_INTERVAL_MILLIS` and offer the item again.
    OfferAgain,
    /// Give the item up: the queue takes no more.
    Drop,
}

/// What a consumer does after a `dequeue` that gave no item.
#[derive(Debug, Clone, Copy, PartialEq, Eq)]
pub enum ConsumerMove {
    /// Wait for `POLL_INTERVAL_MILLIS`, or for a notification, and ask again.
    Wait,
    /// Stop asking: the queue is drained for good.
    Stop,
    /// Ask again at once.
    GoOn,
}

impl QueueError {
    /// A full queue is worth another try; any other refusal is final.
    pub open spec fn spec_producer_move(&self) -> ProducerMove {
        match self {
            QueueError::QueueFull => ProducerMove::OfferAgain,
            _ => ProducerMove::Drop,
        }
    }

    /// An empty queue is no fault and worth the wait; a queue whose consumer
    /// side is closed, or closes with this answer, gives nothing any more.
    pub open spec fn spec_consumer_move(&self) -> ConsumerMove {
        match self {
            QueueError::QueueEmpty => ConsumerMove::Wait,
            QueueError::QueueClosed => ConsumerMove::Stop,
            QueueError::DequeueClosed => ConsumerMove::Stop,
            _ => ConsumerMove::GoOn,
        }
    }

    /// What a producer does next with the item that met this refusal.
    #[verifier::when_used_as_spec(spec_producer_move)]
    pub fn producer_move(&self) -> (next: ProducerMove)
        ensures
            next == self.spec_producer_move(),
    {
        match self {
            QueueError::QueueFull => ProducerMove::OfferAgain,
            _ => ProducerMove::Drop,
        }
    }

    /// What a consumer does next after this answer of `dequeue`.
    #[verifier::when_used_as_spec(spec_consumer_move)]
    pub fn consumer_move(&self) -> (next: ConsumerMove)
        ensures
            next == self.spec_consumer_move(),
    {
        match self {
            QueueError::QueueEmpty => ConsumerMove::Wait,
            QueueError::QueueClosed => ConsumerMove::Stop,
            QueueError::DequeueClosed => ConsumerMove::Stop,
            _ => ConsumerMove::GoOn,
        }
    }
}

/// One buffered entry: a data item or the terminal sentinel.
#[derive(Debug, PartialEq, Eq)]
pub enum QueueItem<T> {
    Item(T),
    Closed,
}

/// The queue as a mathematical value.
pub struct QueueModel<T> {
    /// The buffered entries, oldest first.
    pub items: Seq<QueueItem<T>>,
    /// How many more items the producer may add.
    pub enq_capacity: nat,
    /// How many items the consumer may take.
    pub deq_capacity: nat,
    pub enq_closed: bool,
    pub deq_closed: bool,
}

impl<T> QueueModel<T> {
    /// A fresh queue of the given capacity: empty, both sides open, all the
    /// credit on the producer side.
    pub open spec fn empty(max_size: nat) -> Self {
        QueueModel {
            items: Seq::empty(),
            enq_capacity: max_size,
            deq_capacity: 0,
            enq_closed: false,
            deq_closed: false,
        }
    }

    /// The buffer is a run of data items followed by the sentinels, the
    /// consumer's credit counts the data items, and a sentinel is there
    /// exactly when the producer side is closed.
    pub open spec fn wf(self) -> bool {
        &&& self.deq_capacity <= self.items.len()
        &&& forall|i: int| 0 <= i < self.deq_capacity ==> (#[trigger] self.items[i]) is Item
        &&& forall|i: int|
            self.deq_capacity <= i < self.items.len() ==> (#[trigger] self.items[i]) is Closed
        &&& self.enq_closed <==> self.deq_capacity < self.items.len()
    }

    /// The configured capacity: the credit of both sides together.
    pub open spec fn capacity(self) -> nat {
        self.enq_capacity + self.deq_capacity
    }

    /// The number of buffered data items.
    pub open spec fn len(self) -> nat {
        self.deq_capacity
    }

    /// What `enqueue` answers in this state: it refuses on a closed producer
    /// side first, and then where the length has reached the capacity.
    pub open spec fn enqueue_outcome(self) -> Result<(), QueueError> {
        if self.enq_closed {
            Err(QueueError::EnqueueClosed)
        } else if self.len() == self.capacity() {
            Err(QueueError::QueueFull)
        } else {
            Ok(())
        }
    }

    /// The state after `enqueue(item)`.
    pub open spec fn enqueue(self, item: T) -> Self {
        if self.enqueue_outcome() is Ok {
            QueueModel {
                items: self.items.push(QueueItem::Item(item)),
                enq_capacity: (self.enq_capacity - 1) as nat,
                deq_capacity: self.deq_capacity + 1,
                ..self
            }
        } else {
            self
        }
    }

    /// What `dequeue` answers in this state.
    pub open spec fn dequeue_outcome(self) -> Result<T, QueueError> {
        if self.deq_closed {
            Err(QueueError::DequeueClosed)
        } else if self.items.len() == 0 {
            Err(QueueError::QueueEmpty)
        } else {
            match self.items[0] {
                QueueItem::Closed => Err(QueueError::QueueClosed),
                QueueItem::Item(x) => Ok(x),
            }
        }
    }

    /// The state after `dequeue()`.
    pub open spec fn dequeue(self) -> Self {
        match self.dequeue_outcome() {
            Ok(_) => QueueModel {
                items: self.items.subrange(1, self.items.len() as int),
                enq_capacity: self.enq_capacity + 1,
                deq_capacity: (self.deq_capacity - 1) as nat,
                ..self
            },
            Err(QueueError::QueueClosed) => QueueModel { deq_closed: true, ..self },
            Err(_) => self,
        }
    }

    /// The state after `close()`.
    pub open spec fn close(self) -> Self {
        QueueModel { items: self.items.push(QueueItem::Closed), enq_closed: true, ..self }
    }
}

/// One call on a queue, as a value: what a history of calls is made of.
pub enum QueueOp<T> {
    Enqueue(T),
    Dequeue,
    Close,
}

impl<T> QueueModel<T> {
    /// The state after one call.
    pub open spec fn apply(self, op: QueueOp<T>) -> Self {
        match op {
            QueueOp::Enqueue(item) => self.enqueue(item),
            QueueOp::Dequeue => self.dequeue(),
            QueueOp::Close => self.close(),
        }
    }

    /// The state after a history of calls, the oldest first.
    pub open spec fn run(self, ops: Seq<QueueOp<T>>) -> Self
        decreases ops.len(),
    {
        if ops.len() == 0 {
            self
        } else {
            self.run(ops.drop_last()).apply(ops.last())
        }
    }
}

/// No call breaks the queue: it stays well formed, keeps the capacity it was
/// created with, never buffers more items than that, and a consumer side that
/// is closed stays closed.
pub proof fn lemma_call_keeps_queue<T>(q: QueueModel<T>, op: QueueOp<T>)
    requires
        q.wf(),
    ensures
        q.apply(op).wf(),
        q.apply(op).capacity() == q.capacity(),
        q.apply(op).len() <= q.capacity(),
        q.deq_closed ==> q.apply(op).deq_closed,
{
}

/// Whatever is called on a queue, in whatever order, the length it reports
/// never exceeds the capacity it was created with.
pub proof fn lemma_length_within_capacity<T>(max_size: nat, ops: Seq<QueueOp<T>>)
    ensures
        QueueModel::<T>::empty(max_size).run(ops).wf(),
        QueueModel::<T>::empty(max_size).run(ops).capacity() == max_size,
        QueueModel::<T>::empty(max_size).run(ops).len() <= max_size,
    decreases ops.len(),
{
    if ops.len() > 0 {
        lemma_length_within_capacity(max_size, ops.drop_last());
        lemma_call_keeps_queue(QueueModel::<T>::empty(max_size).run(ops.drop_last()), ops.last());
    }
}

/// Once the consumer side is closed, every later `dequeue` answers
/// `DequeueClosed`, whatever was called in between.
pub proof fn lemma_dequeue_closed_for_good<T>(q: QueueModel<T>, ops: Seq<QueueOp<T>>)
    requires
        q.wf(),
        q.deq_closed,
    ensures
        q.run(ops).wf(),
        q.run(ops).deq_closed,
        q.run(ops).dequeue_outcome() == Err::<T, QueueError>(QueueError::DequeueClosed),
    decreases ops.len(),
{
    if ops.len() > 0 {
        lemma_dequeue_closed_for_good(q, ops.drop_last());
        lemma_call_keeps_queue(q.run(ops.drop_last()), ops.last());
    }
}

/// Closing a queue that holds no item and whose consumer side is open makes
/// the next `dequeue` fail with `QueueClosed`, once; from then on every
/// `dequeue` fails with `DequeueClosed`.
pub proof fn lemma_close_then_drain<T>(q: QueueModel<T>, later: Seq<QueueOp<T>>)
    requires
        q.wf(),
        q.len() == 0,
        !q.deq_closed,
    ensures
        q.close().dequeue_outcome() == Err::<T, QueueError>(QueueError::QueueClosed),
        q.close().dequeue().run(later).dequeue_outcome() == Err::<T, QueueError>(
            QueueError::DequeueClosed,
        ),
{
    lemma_call_keeps_queue(q, QueueOp::Close);
    lemma_call_keeps_queue(q.close(), QueueOp::Dequeue);
    lemma_dequeue_closed_for_good(q.close().dequeue(), later);
}

/// A `dequeue` that gives no item tells the consumer to wait or to stop:
/// it waits on a queue that holds nothing yet, and stops where the consumer
/// side is closed or closes with this call. After a stop every later
/// `dequeue` says stop again.
pub proof fn lemma_consumer_waits_or_stops<T>(q: QueueModel<T>)
    requires
        q.wf(),
    ensures
        q.dequeue_outcome() matches Err(e) ==> {
            &&& e.consumer_move() != ConsumerMove::GoOn
            &&& e.consumer_move() == ConsumerMove::Wait <==> (!q.deq_closed && q.items.len() == 0)
            &&& e.consumer_move() == ConsumerMove::Stop ==> q.dequeue().deq_closed
        },
{
}

/// An `enqueue` that is refused tells the producer to offer again exactly
/// where the queue is open and full, and to give up where it is closed.
pub proof fn lemma_producer_retries_when_full<T>(q: QueueModel<T>)
    ensures
        q.enqueue_outcome() matches Err(e) ==> {
            &&& e.producer_move() == ProducerMove::OfferAgain <==> !q.enq_closed
            &&& e.producer_move() == ProducerMove::Drop <==> q.enq_closed
        },
{
}

/// A bounded FIFO of `T` with a notification channel beside it.
#[verifier::reject_recursive_types(T)]
pub struct Queue<T> {
    queue: VecDeque<QueueItem<T>>,
    enq_capacity: usize,
    deq_capacity: usize,
    enq_closed: bool,
    deq_closed: bool,
    queue_subscription_receiver: Subscription<T>,
    queue_subscription_sender: tokio::sync::mpsc::Sender<T>,
}

impl<T> View for Queue<T> {
    type V = QueueModel<T>;

    closed spec fn view(&self) -> QueueModel<T> {
        QueueModel {
            items: self.queue@,
            enq_capacity: self.enq_capacity as nat,
            deq_capacity: self.deq_capacity as nat,
            enq_closed: self.enq_closed,
            deq_closed: self.deq_closed,
        }
    }
}

impl<T: Clone> Queue<T> {
    /// The invariant of the queue: its model is well formed and its capacity
    /// is one that a machine word holds.
    pub open spec fn wf(&self) -> bool {
        &&& self@.wf()
        &&& self@.capacity() <= usize::MAX
    }

    /// Creates an empty queue that holds up to `max_size` items.
    pub fn new(max_size: usize) -> (q: Self)
        ensures
            q.wf(),
            q@ == QueueModel::<T>::empty(max_size as nat),
    {
        let ghost most: usize = usize::MAX;
        assert(most >> 3 >= 100usize) by (bit_vector)
            requires
                most >= 0xffff_ffffusize,
        ;
        let (sender, receiver) = open_channel(SUBSCRIPTION_BUFFER);
        Queue {
            queue: VecDeque::new(),
            enq_capacity: max_size,
            deq_capacity: 0,
            enq_closed: false,
            deq_closed: false,
            queue_subscription_receiver: Arc::new(guard_receiver(receiver)),
            queue_subscription_sender: sender,
        }
    }

    /// The receiving end of the queue's notification stream. A queue has one
    /// stream, made with the queue, and no operation gives it another.
    pub closed spec fn subscription(&self) -> Subscription<T> {
        self.queue_subscription_receiver
    }

    /// The handle of the notification stream. All subscribers share the one
    /// stream; the queue does not fan out.
    pub fn subscribe(&self) -> (handle: Subscription<T>)
        ensures
            handle == self.subscription(),
    {
        self.queue_subscription_receiver.clone()
    }

    /// The number of buffered data items.
    pub fn len(&self) -> (n: usize)
        requires
            self.wf(),
        ensures
            n == self@.len(),
            n <= self@.capacity(),
    {
        self.deq_capacity
    }

    /// The capacity the queue was created with.
    pub fn capacity(&self) -> (n: usize)
        requires
            self.wf(),
        ensures
            n == self@.capacity(),
    {
        self.enq_capacity + self.deq_capacity
    }

    /// Whether the queue would take an item now, and if not, why.
    pub fn accepts(&self) -> (r: Result<(), QueueError>)
        ensures
            r == self@.enqueue_outcome(),
    {
        if self.enq_closed {
            Err(QueueError::EnqueueClosed)
        } else if self.enq_capacity == 0 {
            Err(QueueError::QueueFull)
        } else {
            Ok(())
        }
    }

    /// Appends `item`, or says why it cannot: the producer side is closed, or
    /// no slot is free. On success a copy of the item is offered to the
    /// notification channel, which drops it when it is full.
    pub fn enqueue(&mut self, item: T) -> (r: Result<(), QueueError>)
        requires
            old(self).wf(),
        ensures
            final(self).wf(),
            r == old(self)@.enqueue_outcome(),
            final(self)@ == old(self)@.enqueue(item),
            final(self).subscription() == old(self).subscription(),
    {
        if self.enq_closed {
            return Err(QueueError::EnqueueClosed);
        }
        if self.enq_capacity == 0 {
            return Err(QueueError::QueueFull);
        }
        offer(&self.queue_subscription_sender, item.clone());
        self.queue.push_back(QueueItem::Item(item));
        self.enq_capacity = self.enq_capacity - 1;
        self.deq_capacity = self.deq_capacity + 1;
        Ok(())
    }

    /// Takes the oldest item, or says why there is none: the consumer side
    /// is closed, nothing is buffered, or the head is the sentinel, which
    /// closes the consumer side for good.
    pub fn dequeue(&mut self) -> (r: Result<T, QueueError>)
        requires
            old(self).wf(),
        ensures
            final(self).wf(),
            r == old(self)@.dequeue_outcome(),
            final(self)@ == old(self)@.dequeue(),
            final(self).subscription() == old(self).subscription(),
    {
        if self.deq_closed {
            return Err(QueueError::DequeueClosed);
        }
        if self.queue.len() == 0 {
            return Err(QueueError::QueueEmpty);
        }
        if let QueueItem::Closed = &self.queue[0] {
            self.deq_closed = true;
            return Err(QueueError::QueueClosed);
        }
        let item = self.queue.pop_front();
        self.deq_capacity = self.deq_capacity - 1;
        self.enq_capacity = self.enq_capacity + 1;
        match item {
            Some(QueueItem::Item(x)) => Ok(x),
            _ => unreached(),
        }
    }

    /// Closes the producer side: appends the sentinel behind the backlog,
    /// which stays there for the consumers to drain.
    pub fn close(&mut self)
        requires
            old(self).wf(),
        ensures
            final(self).wf(),
            final(self)@ == old(self)@.close(),
            final(self).subscription() == old(self).subscription(),
    {
        self.queue.push_back(QueueItem::Closed);
        self.enq_closed = true;
    }
}

} // verus!
