//! The shared FIFO buffer: a capacity-capped double-ended queue behind a
//! lock. Waiting and waking are the token's business — the queue is a pure
//! container, and no lock is ever held across a wait.
//!
//! The container logic lives in [`push_step`] and [`pop_step`], verified
//! against the spec-level [`model_push`] and [`model_pop`]; the lock's
//! invariant keeps every buffer the lock can ever hold within its capacity.
use vstd::prelude::*;

use std::collections::VecDeque;
use vstd::rwlock::RwLock;
use vstd::rwlock::RwLockPredicate;

verus! {

/// Whether a buffer of length `len` may accept one more item under `cap`:
/// always, when unbounded; below the cap, when bounded.
pub open spec fn may_accept(cap: Option<usize>, len: nat) -> bool {
    match cap {
        Some(k) => len < k,
        None => true,
    }
}

/// A push against the buffer model: append if the capacity allows it,
/// returning whether the value was accepted.
pub open spec fn model_push<T>(cap: Option<usize>, buf: Seq<T>, value: T) -> (Seq<T>, bool) {
    if may_accept(cap, buf.len()) {
        (buf.push(value), true)
    } else {
        (buf, false)
    }
}

/// A pop against the buffer model: remove and yield the front item, if any.
pub open spec fn model_pop<T>(buf: Seq<T>) -> (Seq<T>, Option<T>) {
    if buf.len() == 0 {
        (buf, None)
    } else {
        (buf.drop_first(), Some(buf[0]))
    }
}

/// Append `value` if the capacity allows it, else hand it back unchanged —
/// exactly a `model_push`.
pub fn push_step<T>(cap: Option<usize>, buffer: &mut VecDeque<T>, value: T) -> (r: Result<(), T>)
    ensures
        final(buffer)@ == model_push(cap, old(buffer)@, value).0,
        r is Ok <==> model_push(cap, old(buffer)@, value).1,
        r matches Err(ret) ==> ret == value,
{
    if let Some(limit) = cap {
        if buffer.len() >= limit {
            return Err(value);
        }
    }
    buffer.push_back(value);
    Ok(())
}

/// Remove and return the front item, if any — exactly a `model_pop`.
pub fn pop_step<T>(buffer: &mut VecDeque<T>) -> (r: Option<T>)
    ensures
        final(buffer)@ == model_pop(old(buffer)@).0,
        r == model_pop(old(buffer)@).1,
{
    let r = buffer.pop_front();
    proof {
        assert(final(buffer)@ =~= model_pop(old(buffer)@).0);
    }
    r
}

/// The lock invariant: a bounded buffer never holds more than its capacity.
pub struct CapacityPred {
    pub cap: Option<usize>,
}

impl<T> RwLockPredicate<VecDeque<T>> for CapacityPred {
    open spec fn inv(self, buffer: VecDeque<T>) -> bool {
        match self.cap {
            Some(k) => buffer@.len() <= k,
            None => true,
        }
    }
}

/// A FIFO buffer with an optional capacity cap, shared behind a lock.
pub struct Queue<T> {
    bounded: Option<usize>,
    buffer: RwLock<VecDeque<T>, CapacityPred>,
}

impl<T> Queue<T> {
    /// The lock's invariant is the one for this queue's advertised capacity.
    pub closed spec fn wf(self) -> bool {
        self.buffer.pred() == (CapacityPred { cap: self.bounded })
    }

    /// The capacity this queue was built with; `None` means unbounded.
    pub closed spec fn capacity(self) -> Option<usize> {
        self.bounded
    }

    /// Whether a buffer is one this queue's lock can hold.
    pub closed spec fn can_hold(self, buf: Seq<T>) -> bool {
        match self.bounded {
            Some(k) => buf.len() <= k,
            None => true,
        }
    }

    /// A queue whose buffer grows without limit.
    pub fn unbounded() -> (q: Queue<T>)
        ensures
            q.wf(),
            q.capacity() is None,
    {
        Queue {
            bounded: None,
            buffer: RwLock::new(VecDeque::new(), Ghost(CapacityPred { cap: None })),
        }
    }

    /// A queue that accepts at most `capacity` items at a time.
    pub fn bounded(capacity: usize) -> (q: Queue<T>)
        ensures
            q.wf(),
            q.capacity() == Some(capacity),
    {
        Queue {
            bounded: Some(capacity),
            buffer: RwLock::new(
                VecDeque::with_capacity(capacity),
                Ghost(CapacityPred { cap: Some(capacity) }),
            ),
        }
    }

    /// Push under the lock. Fails only on a bounded queue whose buffer is at
    /// capacity at this instant, and then the value comes back intact: an
    /// unbounded queue accepts every push.
    pub fn push(&self, value: T) -> (r: Result<(), T>)
        requires
            self.wf(),
        ensures
            r matches Err(ret) ==> ret == value && self.capacity() is Some,
            self.capacity() is None ==> r is Ok,
    {
        let (mut buffer, handle) = self.buffer.acquire_write();
        let r = push_step(self.bounded, &mut buffer, value);
        handle.release_write(buffer);
        r
    }

    /// Pop under the lock: the front item, in insertion order, if any.
    pub fn pop(&self) -> (r: Option<T>)
        requires
            self.wf(),
    {
        let (mut buffer, handle) = self.buffer.acquire_write();
        let r = pop_step(&mut buffer);
        handle.release_write(buffer);
        r
    }
}

/// Capacity bound: whatever buffer a bounded queue's lock holds, at any
/// instant, its length is at most the capacity the queue was built with.
pub proof fn lemma_capacity_bound<T>(q: Queue<T>, buf: Seq<T>, k: usize)
    requires
        q.wf(),
        q.capacity() == Some(k),
        q.can_hold(buf),
    ensures
        buf.len() <= k,
{
}

/// One operation against the queue model.
pub enum QueueOp<T> {
    Push(T),
    Pop,
}

/// Run a sequence of operations against the model, from an empty buffer.
/// Yields the final buffer, the accepted pushes and the delivered pops, the
/// latter two in operation order.
pub open spec fn run<T>(cap: Option<usize>, ops: Seq<QueueOp<T>>) -> (Seq<T>, Seq<T>, Seq<T>)
    decreases ops.len(),
{
    if ops.len() == 0 {
        (Seq::empty(), Seq::empty(), Seq::empty())
    } else {
        let (buf, acc, del) = run(cap, ops.drop_last());
        match ops.last() {
            QueueOp::Push(v) => {
                let (buf2, ok) = model_push(cap, buf, v);
                (buf2, if ok { acc.push(v) } else { acc }, del)
            },
            QueueOp::Pop => {
                let (buf2, out) = model_pop(buf);
                match out {
                    Some(v) => (buf2, acc, del.push(v)),
                    None => (buf2, acc, del),
                }
            },
        }
    }
}

/// FIFO conservation: after any sequence of operations, the values accepted
/// so far are exactly the values delivered so far followed by the values
/// still buffered, in order. Delivery order equals acceptance order, and no
/// accepted value is lost, duplicated or reordered while it sits in the
/// buffer.
pub proof fn lemma_fifo<T>(cap: Option<usize>, ops: Seq<QueueOp<T>>)
    ensures
        run(cap, ops).1 == run(cap, ops).2 + run(cap, ops).0,
    decreases ops.len(),
{
    if ops.len() == 0 {
        assert(run(cap, ops).1 =~= run(cap, ops).2 + run(cap, ops).0);
    } else {
        let prev = ops.drop_last();
        lemma_fifo(cap, prev);
        let (buf, acc, del) = run(cap, prev);
        match ops.last() {
            QueueOp::Push(v) => {
                if may_accept(cap, buf.len()) {
                    assert(acc.push(v) =~= del + buf.push(v));
                }
            },
            QueueOp::Pop => {
                if buf.len() > 0 {
                    assert(acc =~= del.push(buf[0]) + buf.drop_first());
                }
            },
        }
    }
}

/// At-most-once, on the model: what has been delivered is a prefix of what
/// was accepted - the k-th delivery is exactly the k-th accepted value, so
/// no accepted value is ever delivered twice, and nothing is delivered that
/// was never accepted.
pub proof fn lemma_at_most_once<T>(cap: Option<usize>, ops: Seq<QueueOp<T>>)
    ensures
        run(cap, ops).2.len() <= run(cap, ops).1.len(),
        run(cap, ops).2 == run(cap, ops).1.take(run(cap, ops).2.len() as int),
{
    lemma_fifo(cap, ops);
    let acc = run(cap, ops).1;
    let del = run(cap, ops).2;
    let buf = run(cap, ops).0;
    assert(acc.take(del.len() as int) =~= del);
}

/// Capacity bound along any run: a bounded model buffer never exceeds its
/// capacity at any point.
pub proof fn lemma_run_capacity<T>(k: usize, ops: Seq<QueueOp<T>>)
    ensures
        run(Some(k), ops).0.len() <= k,
    decreases ops.len(),
{
    if ops.len() > 0 {
        lemma_run_capacity(k, ops.drop_last());
    }
}


/// FIFO per sender: pick one sender's values out of a run by any predicate
/// - delivery preserves that sender's own order, whatever the interleaving
/// with other senders' values: what has been delivered of them is exactly
/// the first so-many of them, in acceptance order.
pub proof fn lemma_fifo_per_sender<T>(
    cap: Option<usize>,
    ops: Seq<QueueOp<T>>,
    pred: spec_fn(T) -> bool,
)
    ensures
        run(cap, ops).2.filter(pred) == run(cap, ops).1.filter(pred).take(
            run(cap, ops).2.filter(pred).len() as int,
        ),
{
    lemma_fifo(cap, ops);
    let buf = run(cap, ops).0;
    let acc = run(cap, ops).1;
    let del = run(cap, ops).2;
    Seq::filter_distributes_over_add(del, buf, pred);
    assert(acc.filter(pred).take(del.filter(pred).len() as int) =~= del.filter(pred));
}

} // verus!
