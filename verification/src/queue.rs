//! The queue that runs IRP work strictly one item at a time, in arrival
//! order, with a single worker started on demand.

use std::collections::VecDeque;

use vstd::prelude::*;

verus! {

/// Work items waiting to run, oldest first, and whether a worker is
/// currently draining them.
///
/// A worker is started only when [`SerialQueue::enqueue`] says so; it takes
/// items with [`SerialQueue::next`] until that returns `None`, which also
/// marks the queue as having no worker.
#[derive(Debug)]
pub struct SerialQueue<T> {
    items: VecDeque<T>,
    draining: bool,
}

/// The abstract state of a [`SerialQueue`].
pub struct SerialQueueView<T> {
    pub items: Seq<T>,
    pub draining: bool,
}

impl<T> View for SerialQueue<T> {
    type V = SerialQueueView<T>;

    closed spec fn view(&self) -> SerialQueueView<T> {
        SerialQueueView { items: self.items@, draining: self.draining }
    }
}

impl<T> SerialQueue<T> {
    /// An empty queue with no worker.
    pub fn new() -> (q: Self)
        ensures
            q@.items == Seq::<T>::empty(),
            !q@.draining,
    {
        SerialQueue { items: VecDeque::new(), draining: false }
    }

    /// Appends `item` behind everything already waiting. Returns `true` when
    /// no worker is draining the queue, in which case the caller must start
    /// one; the queue then counts as being drained.
    pub fn enqueue(&mut self, item: T) -> (start_worker: bool)
        ensures
            final(self)@.items == old(self)@.items.push(item),
            final(self)@.draining,
            start_worker == !old(self)@.draining,
            queue_step(old(self)@, QueueEvent::Enqueue { item, start_worker }, final(self)@),
    {
        self.items.push_back(item);
        if self.draining {
            return false;
        }
        self.draining = true;
        true
    }

    /// Takes the oldest waiting item. `None` when nothing waits, which also
    /// ends the current worker: the next [`Self::enqueue`] starts a new one.
    pub fn next(&mut self) -> (r: Option<T>)
        ensures
            match r {
                Some(x) => {
                    &&& old(self)@.items.len() > 0
                    &&& x == old(self)@.items[0]
                    &&& final(self)@.items == old(self)@.items.drop_first()
                    &&& final(self)@.draining == old(self)@.draining
                },
                None => {
                    &&& old(self)@.items.len() == 0
                    &&& final(self)@.items == old(self)@.items
                    &&& !final(self)@.draining
                },
            },
            queue_step(old(self)@, QueueEvent::Next { taken: r }, final(self)@),
    {
        match self.items.pop_front() {
            Some(item) => {
                assert(self.items@ =~= old(self)@.items.drop_first());
                Some(item)
            },
            None => {
                self.draining = false;
                None
            },
        }
    }

    /// How many items wait.
    pub fn len(&self) -> (n: usize)
        ensures
            n == self@.items.len(),
    {
        self.items.len()
    }
}

/// One call on a [`SerialQueue`], with what it returned.
pub enum QueueEvent<T> {
    Enqueue { item: T, start_worker: bool },
    Next { taken: Option<T> },
}

/// What one call does to the queue, as its contract states it.
pub open spec fn queue_step<T>(v: SerialQueueView<T>, e: QueueEvent<T>, w: SerialQueueView<T>) -> bool {
    match e {
        QueueEvent::Enqueue { item, start_worker } => {
            &&& w.items == v.items.push(item)
            &&& w.draining
            &&& start_worker == !v.draining
        },
        QueueEvent::Next { taken } => match taken {
            Some(x) => {
                &&& v.items.len() > 0
                &&& x == v.items[0]
                &&& w.items == v.items.drop_first()
                &&& w.draining == v.draining
            },
            None => {
                &&& v.items.len() == 0
                &&& w.items == v.items
                &&& !w.draining
            },
        },
    }
}

/// A run of calls from a fresh queue: `es[k]` takes the queue from `vs[k]`
/// to `vs[k + 1]`.
pub open spec fn queue_trace<T>(vs: Seq<SerialQueueView<T>>, es: Seq<QueueEvent<T>>) -> bool {
    &&& vs.len() == es.len() + 1
    &&& vs[0].items.len() == 0
    &&& !vs[0].draining
    &&& forall|k: int| #![trigger es[k]] 0 <= k < es.len() ==> queue_step(vs[k], es[k], vs[k + 1])
}

/// The items enqueued by the first `n` calls, in order.
pub open spec fn enqueued<T>(es: Seq<QueueEvent<T>>, n: int) -> Seq<T>
    decreases n,
{
    if n <= 0 {
        Seq::empty()
    } else {
        match es[n - 1] {
            QueueEvent::Enqueue { item, .. } => enqueued(es, n - 1).push(item),
            QueueEvent::Next { .. } => enqueued(es, n - 1),
        }
    }
}

/// The items taken by the first `n` calls, in order.
pub open spec fn taken<T>(es: Seq<QueueEvent<T>>, n: int) -> Seq<T>
    decreases n,
{
    if n <= 0 {
        Seq::empty()
    } else {
        match es[n - 1] {
            QueueEvent::Next { taken: Some(x) } => taken(es, n - 1).push(x),
            _ => taken(es, n - 1),
        }
    }
}

/// How many workers the first `n` calls started.
pub open spec fn workers_started<T>(es: Seq<QueueEvent<T>>, n: int) -> nat
    decreases n,
{
    if n <= 0 {
        0
    } else {
        match es[n - 1] {
            QueueEvent::Enqueue { start_worker: true, .. } => workers_started(es, n - 1) + 1,
            _ => workers_started(es, n - 1),
        }
    }
}

/// How many workers the first `n` calls ended: a worker ends when it finds
/// the queue empty.
pub open spec fn workers_ended<T>(vs: Seq<SerialQueueView<T>>, es: Seq<QueueEvent<T>>, n: int) -> nat
    decreases n,
{
    if n <= 0 {
        0
    } else {
        match es[n - 1] {
            QueueEvent::Next { taken: None } => if vs[n - 1].draining {
                workers_ended(vs, es, n - 1) + 1
            } else {
                workers_ended(vs, es, n - 1)
            },
            _ => workers_ended(vs, es, n - 1),
        }
    }
}

/// The queue runs its work first in first out, one worker at a time: after
/// any run of calls from a fresh queue, what was enqueued is exactly what was
/// taken, in the same order, followed by what still waits; and every worker
/// started has ended except the one draining now, if any, so no two workers
/// ever run at once (this holds after every prefix of the run).
pub proof fn lemma_queue_runs_in_order_one_worker<T>(vs: Seq<SerialQueueView<T>>, es: Seq<QueueEvent<T>>, n: int)
    requires
        queue_trace(vs, es),
        0 <= n <= es.len(),
    ensures
        enqueued(es, n) == taken(es, n) + vs[n].items,
        workers_started(es, n) == workers_ended(vs, es, n) + (if vs[n].draining {
            1nat
        } else {
            0nat
        }),
    decreases n,
{
    if n == 0 {
        assert(taken(es, 0) + vs[0].items =~= Seq::<T>::empty());
    } else {
        let k = n - 1;
        lemma_queue_runs_in_order_one_worker(vs, es, k);
        assert(queue_step(vs[k], es[k], vs[k + 1]));
        match es[k] {
            QueueEvent::Enqueue { item, .. } => {
                assert(taken(es, k) + vs[k].items.push(item) =~= (taken(es, k) + vs[k].items).push(item));
            },
            QueueEvent::Next { taken: Some(x) } => {
                assert(vs[k].items =~= seq![x] + vs[k].items.drop_first());
                assert(taken(es, k) + vs[k].items =~= taken(es, k).push(x) + vs[k].items.drop_first());
            },
            QueueEvent::Next { taken: None } => {
            },
        }
    }
}

} // verus!
