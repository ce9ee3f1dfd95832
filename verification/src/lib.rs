//! A multi-producer, single-consumer channel library with three flavors
//! sharing one receiver type: unbounded asynchronous, bounded asynchronous,
//! and rendezvous (capacity zero), where every delivery is a direct
//! hand-off.
//!
//! The synchronization protocol — presence tracking, queue-and-wait
//! coordination, and the rendezvous state machine — is written as verified
//! transitions on plain data; the trusted remainder is the thin shell that
//! takes the locks, parks on the condition variable, and repeats a verified
//! attempt until it produces an answer.
use vstd::prelude::*;

pub mod clock;
pub mod queue;
pub mod rendezvous;
pub mod token;

use queue::Queue;
use token::Token;

use std::sync::Arc;
use std::time::Duration;
use std::time::Instant;

verus! {

/// Relies on Arc::clone: a second handle to the same shared value.
#[verifier::external_body]
pub(crate) fn share<T>(x: &Arc<T>) -> (r: Arc<T>)
    ensures
        *r == **x,
{
    x.clone()
}

/// A `try_send` that could not deliver: the channel was full, or the
/// receiver is gone. Either way the value comes back to the caller intact.
#[derive(Debug, PartialEq, Eq)]
pub enum TrySendError<T> {
    Full(T),
    Disconnected(T),
}

/// A blocking send that could not deliver: the receiver is gone. The value
/// comes back to the caller intact.
#[derive(Debug, PartialEq, Eq)]
pub struct SendError<T>(pub T);

/// A `try_recv` that yielded nothing: no value right now but senders
/// remain, or every sender is gone and nothing is buffered.
#[derive(PartialEq, Eq, Copy, Clone, Debug)]
pub enum TryRecvError {
    Empty,
    Disconnected,
}

/// A timed receive that yielded nothing: the deadline passed, or every
/// sender is gone and nothing is buffered.
#[derive(PartialEq, Eq, Copy, Clone, Debug)]
pub enum RecvTimeoutError {
    Timeout,
    Disconnected,
}

/// A blocking receive that can no longer yield: every sender is gone and
/// nothing is buffered.
#[derive(Debug, PartialEq, Eq, Clone)]
pub struct RecvError;

impl From<RecvError> for RecvTimeoutError {
    /// A receive that failed for good, seen from a timed receive: the
    /// timeout never fired, the senders are simply gone.
    fn from(err: RecvError) -> (r: RecvTimeoutError)
        ensures
            r == RecvTimeoutError::Disconnected,
    {
        match err {
            RecvError => RecvTimeoutError::Disconnected,
        }
    }
}

impl vstd::std_specs::convert::FromSpecImpl<RecvError> for RecvTimeoutError {
    open spec fn obeys_from_spec() -> bool {
        true
    }

    open spec fn from_spec(err: RecvError) -> RecvTimeoutError {
        RecvTimeoutError::Disconnected
    }
}

/// Classify a failed send attempt by the peer's presence, as it was
/// observed: a present receiver means the channel was merely full.
pub fn classify_send_failure<T>(present: bool, value: T) -> (r: TrySendError<T>)
    ensures
        present ==> r == TrySendError::Full(value),
        !present ==> r == TrySendError::Disconnected(value),
{
    if present {
        TrySendError::Full(value)
    } else {
        TrySendError::Disconnected(value)
    }
}

/// Classify an empty-handed receive attempt by the peer's presence, as it
/// was observed: senders still present means merely `Empty`; all of them
/// gone means `Disconnected`.
pub fn classify_recv_failure(present: bool) -> (r: TryRecvError)
    ensures
        present ==> r == TryRecvError::Empty,
        !present ==> r == TryRecvError::Disconnected,
{
    if present {
        TryRecvError::Empty
    } else {
        TryRecvError::Disconnected
    }
}

/// Classify a receive attempt from the presence snapshot taken *before* the
/// pop and the pop's outcome. A value always wins; an empty pop is `Empty`
/// only if the peer was present at the snapshot, else `Disconnected`.
pub fn classify_recv<T>(present: bool, popped: Option<T>) -> (r: Result<T, TryRecvError>)
    ensures
        popped matches Some(v) ==> r == Ok::<T, TryRecvError>(v),
        popped is None && present ==> r == Err::<T, TryRecvError>(TryRecvError::Empty),
        popped is None && !present ==> r == Err::<T, TryRecvError>(TryRecvError::Disconnected),
{
    match popped {
        Some(v) => Ok(v),
        None => Err(classify_recv_failure(present)),
    }
}

/// Classify a buffered send attempt from the presence snapshot taken
/// *before* the push and the push's outcome. A receiver observed absent
/// never gets a push, so its refused value arrives here as `Err`: an
/// accepted push is `Ok`, a refused one is `Full` while the receiver was
/// present and `Disconnected` once it was gone, the value intact either
/// way.
pub fn classify_push<T>(present: bool, pushed: Result<(), T>) -> (r: Result<(), TrySendError<T>>)
    ensures
        pushed is Ok ==> r is Ok,
        present ==> (pushed matches Err(v) ==> r == Err::<(), TrySendError<T>>(
            TrySendError::Full(v),
        )),
        !present ==> (pushed matches Err(v) ==> r == Err::<(), TrySendError<T>>(
            TrySendError::Disconnected(v),
        )),
{
    match pushed {
        Ok(()) => Ok(()),
        Err(v) => Err(classify_send_failure(present, v)),
    }
}

/// A receive attempt against the buffered model: pop, then classify by the
/// presence snapshot that was taken before the pop.
pub open spec fn recv_outcome<T>(present: bool, buf: Seq<T>) -> (Seq<T>, Result<T, TryRecvError>) {
    let popped = queue::model_pop(buf);
    (
        popped.0,
        match popped.1 {
            Some(v) => Ok(v),
            None => if present {
                Err(TryRecvError::Empty)
            } else {
                Err(TryRecvError::Disconnected)
            },
        },
    )
}

/// Disconnection completeness, on the buffered model: with every sender
/// gone, a receive still delivers the oldest buffered value, and
/// Disconnected appears exactly when the buffer has run empty.
pub proof fn lemma_disconnection_completeness<T>(buf: Seq<T>)
    ensures
        buf.len() > 0 ==> recv_outcome::<T>(false, buf).1 == Ok::<T, TryRecvError>(buf[0])
            && recv_outcome::<T>(false, buf).0 == buf.drop_first(),
        recv_outcome::<T>(false, buf).1 == Err::<T, TryRecvError>(TryRecvError::Disconnected)
            <==> buf.len() == 0,
{
}

/// The buffered flavors' sending half: the shared queue and this side's
/// token endpoint.
struct SenderInner<T> {
    inner: Arc<Queue<T>>,
    token: Token,
}

/// What one iteration of the buffered blocking send decided.
enum SendStep<T> {
    Done(Result<(), SendError<T>>),
    Park(T),
}

impl<T> SenderInner<T> {
    /// The shared queue is well formed.
    spec fn wf(self) -> bool {
        (*self.inner).wf()
    }

    /// The shared queue's capacity; `None` means unbounded.
    spec fn capacity(self) -> Option<usize> {
        (*self.inner).capacity()
    }

    /// Try to deliver without blocking. The receiver's presence is checked
    /// *before* the push: a sender that pushed first could succeed after
    /// the receiver left and never observe the disconnection. A receiver
    /// observed absent gets no push at all; a successful push wakes the
    /// receiver; `classify_push` decides the rest.
    fn try_send(&self, value: T) -> (r: Result<(), TrySendError<T>>)
        requires
            self.wf(),
        ensures
            r matches Err(TrySendError::Full(x)) ==> x == value && self.capacity() is Some,
            r matches Err(TrySendError::Disconnected(x)) ==> x == value,
    {
        let present = self.token.is_present();
        let pushed = if present {
            self.inner.push(value)
        } else {
            Err(value)
        };
        if pushed.is_ok() {
            self.token.wake();
        }
        classify_push(present, pushed)
    }

    /// One iteration of the blocking send: a failed push on a full buffer
    /// asks to park until the receiver frees room — which only a bounded
    /// queue can ask for: an unbounded send never parks.
    fn send_attempt(&self, value: T) -> (r: SendStep<T>)
        requires
            self.wf(),
        ensures
            r matches SendStep::Park(x) ==> x == value && self.capacity() is Some,
            r matches SendStep::Done(res) ==> (res matches Err(e) ==> e == SendError(value)),
    {
        match self.try_send(value) {
            Ok(()) => SendStep::Done(Ok(())),
            Err(TrySendError::Full(ret)) => SendStep::Park(ret),
            Err(TrySendError::Disconnected(ret)) => SendStep::Done(Err(SendError(ret))),
        }
    }

    /// Relies on Token::wait to park between attempts. The retry loop
    /// carries no termination measure - it blocks until the receiver makes
    /// room or leaves - so it repeats the verified `send_attempt` unchanged
    /// and adds nothing of its own.
    #[verifier::external_body]
    fn send(&self, value: T) -> (r: Result<(), SendError<T>>)
        requires
            self.wf(),
        ensures
            r matches Err(e) ==> e == SendError(value),
    {
        let mut value = value;
        loop {
            match self.send_attempt(value) {
                SendStep::Done(res) => return res,
                SendStep::Park(ret) => {
                    value = ret;
                    self.token.wait();
                },
            }
        }
    }
}

/// The sending half of an unbounded channel: sends never block, and fail
/// only once the receiver is gone. Cloning yields another handle to the
/// same channel; each handle is meant to be used by one thread at a time,
/// so give a thread its own clone rather than sharing one.
#[derive(Clone)]
pub struct Sender<T>(Arc<SenderInner<T>>);

impl<T> Sender<T> {
    /// The shared queue is well formed; `channel` establishes this.
    pub closed spec fn wf(self) -> bool {
        (*self.0).wf()
    }

    /// The shared queue's capacity: `None` on every sender `channel`
    /// builds, which is what makes its sends non-blocking.
    pub closed spec fn capacity(self) -> Option<usize> {
        (*self.0).capacity()
    }

    /// Deliver `value`, or return it inside the error once the receiver is
    /// gone. On an unbounded channel this never blocks.
    pub fn send(&self, value: T) -> (r: Result<(), SendError<T>>)
        requires
            self.wf(),
        ensures
            r matches Err(e) ==> e == SendError(value),
    {
        self.0.send(value)
    }
}

/// The buffered flavors' receiving half: the shared queue and this side's
/// token endpoint.
struct ReceiverInner<T> {
    inner: Arc<Queue<T>>,
    token: Token,
}

/// What one iteration of the buffered blocking receive decided.
enum RecvStep<T> {
    Done(Result<T, RecvError>),
    Park,
}

impl<T> ReceiverInner<T> {
    /// The shared queue is well formed.
    spec fn wf(self) -> bool {
        (*self.inner).wf()
    }

    /// The shared queue's capacity; `None` means unbounded.
    spec fn capacity(self) -> Option<usize> {
        (*self.inner).capacity()
    }

    /// Try to take a value without blocking. The presence snapshot is taken
    /// *before* the pop: read afterwards, a sender could push and leave
    /// between the empty pop and the read, and an item would sit in the
    /// buffer behind a Disconnected answer. Popping a value wakes a blocked
    /// sender.
    fn try_recv(&self) -> (r: Result<T, TryRecvError>)
        requires
            self.wf(),
    {
        let present = self.token.is_present();
        let popped = self.inner.pop();
        if popped.is_some() {
            self.token.wake();
        }
        classify_recv(present, popped)
    }

    /// One iteration of the blocking receive: an empty buffer with senders
    /// still present asks to park until one of them pushes or leaves.
    fn recv_attempt(&self) -> (r: RecvStep<T>)
        requires
            self.wf(),
    {
        match self.try_recv() {
            Ok(value) => RecvStep::Done(Ok(value)),
            Err(TryRecvError::Disconnected) => RecvStep::Done(Err(RecvError)),
            Err(TryRecvError::Empty) => RecvStep::Park,
        }
    }

    /// Relies on Token::wait to park between attempts. The retry loop
    /// carries no termination measure - it blocks until a sender pushes or
    /// every sender leaves - so it repeats the verified `recv_attempt`
    /// unchanged and adds nothing of its own.
    #[verifier::external_body]
    fn recv(&self) -> Result<T, RecvError>
        requires
            self.wf(),
    {
        loop {
            match self.recv_attempt() {
                RecvStep::Done(res) => return res,
                RecvStep::Park => self.token.wait(),
            }
        }
    }

    /// Relies on Token::wait_until to park between attempts, as `recv`
    /// does, and gives up once the deadline passes with no wake and the
    /// senders still present.
    #[verifier::external_body]
    fn recv_deadline(&self, deadline: Instant) -> Result<T, RecvTimeoutError>
        requires
            self.wf(),
    {
        loop {
            match self.recv_attempt() {
                RecvStep::Done(Ok(value)) => return Ok(value),
                RecvStep::Done(Err(err)) => return Err(RecvTimeoutError::from(err)),
                RecvStep::Park => {
                    if self.token.wait_until(deadline) {
                        return Err(RecvTimeoutError::Timeout);
                    }
                },
            }
        }
    }
}

/// A fresh unbounded channel: the sender never blocks, the receiver blocks
/// only while the channel is empty and senders remain.
pub fn channel<T>() -> (r: (Sender<T>, Receiver<T>))
    ensures
        r.0.wf(),
        r.1.wf(),
        r.0.capacity() is None,
        !r.1.is_rendezvous(),
        r.1.capacity() is None,
{
    let inner = Arc::new(Queue::unbounded());
    let (sender, receiver) = token::tokens();
    (
        Sender(Arc::new(SenderInner { inner: share(&inner), token: sender })),
        Receiver(Receiver_::Normal(ReceiverInner { inner, token: receiver })),
    )
}

/// The sending half of a bounded or rendezvous channel. Cloning yields
/// another handle to the same channel; each handle is meant to be used by
/// one thread at a time, so give a thread its own clone rather than
/// sharing one.
#[derive(Clone)]
pub struct SyncSender<T>(SyncSenderInner<T>);

#[derive(Clone)]
enum SyncSenderInner<T> {
    Normal(Arc<SenderInner<T>>),
    Rendezvous(Arc<rendezvous::Sender<T>>),
}

impl<T> SyncSender<T> {
    /// The shared state is well formed; `sync_channel` establishes this.
    pub closed spec fn wf(self) -> bool {
        match self.0 {
            SyncSenderInner::Normal(n) => (*n).wf(),
            SyncSenderInner::Rendezvous(_) => true,
        }
    }

    /// Whether this sender belongs to the rendezvous flavor, where every
    /// delivery is a direct hand-off.
    pub closed spec fn is_rendezvous(self) -> bool {
        self.0 is Rendezvous
    }

    /// The buffered flavor's queue capacity; the rendezvous flavor holds
    /// no buffer at all.
    pub closed spec fn capacity(self) -> Option<usize> {
        match self.0 {
            SyncSenderInner::Normal(n) => (*n).capacity(),
            SyncSenderInner::Rendezvous(_) => None,
        }
    }

    /// Try to deliver without blocking: `Full` hands the value back while
    /// the receiver is present, `Disconnected` once it is gone.
    pub fn try_send(&self, value: T) -> (r: Result<(), TrySendError<T>>)
        requires
            self.wf(),
        ensures
            r matches Err(TrySendError::Full(x)) ==> x == value,
            r matches Err(TrySendError::Disconnected(x)) ==> x == value,
    {
        match &self.0 {
            SyncSenderInner::Normal(n) => n.try_send(value),
            SyncSenderInner::Rendezvous(n) => n.try_send(value),
        }
    }

    /// Deliver `value`, blocking while the buffer is full - or, on a
    /// rendezvous channel, until the receiver takes it. An error returns
    /// the value intact.
    pub fn send(&self, value: T) -> (r: Result<(), SendError<T>>)
        requires
            self.wf(),
        ensures
            r matches Err(e) ==> e == SendError(value),
    {
        match &self.0 {
            SyncSenderInner::Normal(n) => n.send(value),
            SyncSenderInner::Rendezvous(n) => match n.send(value) {
                Ok(()) => Ok(()),
                Err(ret) => Err(SendError(ret)),
            },
        }
    }
}

/// The receiving half every flavor shares: a unique handle — there is one
/// consumer. It may move between threads, but it must not be used from two
/// threads at once; the protocols assume a single receiver, and sharing a
/// reference across threads voids that assumption (on the rendezvous
/// flavor it can end in the fatal protocol-violation exit). The type
/// cannot enforce this here, so the rule stands with the caller.
pub struct Receiver<T>(Receiver_<T>);

enum Receiver_<T> {
    Normal(ReceiverInner<T>),
    Rendezvous(rendezvous::Receiver<T>),
}

impl<T> Receiver<T> {
    /// The shared state is well formed; the constructors establish this.
    pub closed spec fn wf(self) -> bool {
        match self.0 {
            Receiver_::Normal(n) => n.wf(),
            Receiver_::Rendezvous(_) => true,
        }
    }

    /// Whether this receiver belongs to the rendezvous flavor, where every
    /// delivery is a direct hand-off.
    pub closed spec fn is_rendezvous(self) -> bool {
        self.0 is Rendezvous
    }

    /// The buffered flavor's queue capacity; the rendezvous flavor holds
    /// no buffer at all.
    pub closed spec fn capacity(self) -> Option<usize> {
        match self.0 {
            Receiver_::Normal(n) => n.capacity(),
            Receiver_::Rendezvous(_) => None,
        }
    }

    /// Try to take a value without blocking: `Empty` while senders remain,
    /// `Disconnected` once every sender is gone and nothing is buffered.
    pub fn try_recv(&self) -> (r: Result<T, TryRecvError>)
        requires
            self.wf(),
    {
        match &self.0 {
            Receiver_::Normal(n) => n.try_recv(),
            Receiver_::Rendezvous(n) => n.try_recv(),
        }
    }

    /// Block until a value arrives or every sender is gone.
    pub fn recv(&self) -> (r: Result<T, RecvError>)
        requires
            self.wf(),
    {
        match &self.0 {
            Receiver_::Normal(n) => n.recv(),
            Receiver_::Rendezvous(n) => n.recv(),
        }
    }

    /// As `recv`, but give up `timeout` from now. When now-plus-timeout
    /// cannot be represented on the clock, fall back to the unbounded wait.
    pub fn recv_timeout(&self, timeout: Duration) -> (r: Result<T, RecvTimeoutError>)
        requires
            self.wf(),
    {
        // An optimistic first try, before consulting the clock at all.
        match self.try_recv() {
            Ok(item) => {
                return Ok(item);
            },
            Err(TryRecvError::Disconnected) => {
                return Err(RecvTimeoutError::Disconnected);
            },
            Err(TryRecvError::Empty) => {},
        }
        match Instant::now().checked_add(timeout) {
            Some(deadline) => self.recv_deadline(deadline),
            None => match self.recv() {
                Ok(value) => Ok(value),
                Err(err) => Err(RecvTimeoutError::from(err)),
            },
        }
    }

    /// As `recv`, but give up at `deadline` with a Timeout error.
    pub fn recv_deadline(&self, deadline: Instant) -> (r: Result<T, RecvTimeoutError>)
        requires
            self.wf(),
    {
        match &self.0 {
            Receiver_::Normal(n) => n.recv_deadline(deadline),
            Receiver_::Rendezvous(n) => n.recv_deadline(deadline),
        }
    }

    /// A non-blocking iterator: each step is one `try_recv`, and anything
    /// but a value ends it.
    pub fn try_iter<'a>(&'a self) -> (it: TryIter<'a, T>)
        requires
            self.wf(),
        ensures
            it.wf(),
    {
        TryIter { receiver: self }
    }

    /// A blocking iterator: each step is one blocking `recv`, and it ends
    /// once every sender is gone.
    pub fn iter<'a>(&'a self) -> (it: Iter<'a, T>)
        requires
            self.wf(),
        ensures
            it.wf(),
    {
        Iter { receiver: self }
    }

    /// As `iter`, but owning the receiver.
    pub fn into_iter(self) -> (it: IntoIter<T>)
        requires
            self.wf(),
        ensures
            it.wf(),
    {
        IntoIter { receiver: self }
    }
}

/// A fresh bounded channel when `capacity > 0`; any capacity-zero
/// construction dispatches to the rendezvous flavor, where every delivery
/// is a direct hand-off.
pub fn sync_channel<T>(capacity: usize) -> (r: (SyncSender<T>, Receiver<T>))
    ensures
        r.0.wf(),
        r.1.wf(),
        capacity > 0 ==> !r.0.is_rendezvous() && r.0.capacity() == Some(capacity)
            && !r.1.is_rendezvous() && r.1.capacity() == Some(capacity),
        capacity == 0 ==> r.0.is_rendezvous() && r.1.is_rendezvous(),
{
    if capacity > 0 {
        let inner = Arc::new(Queue::bounded(capacity));
        let (sender, receiver) = token::tokens();
        (
            SyncSender(
                SyncSenderInner::Normal(Arc::new(SenderInner { inner: share(&inner), token: sender })),
            ),
            Receiver(Receiver_::Normal(ReceiverInner { inner, token: receiver })),
        )
    } else {
        let (sender, receiver) = rendezvous::channel();
        (
            SyncSender(SyncSenderInner::Rendezvous(sender)),
            Receiver(Receiver_::Rendezvous(receiver)),
        )
    }
}

/// The blocking iterator `Receiver::iter` hands out.
pub struct Iter<'a, T> {
    receiver: &'a Receiver<T>,
}

impl<'a, T> Iter<'a, T> {
    /// The underlying receiver is well formed.
    pub closed spec fn wf(self) -> bool {
        (*self.receiver).wf()
    }

    /// The next value, blocking for it; `None` once every sender is gone.
    pub fn next(&mut self) -> (r: Option<T>)
        requires
            old(self).wf(),
        ensures
            *final(self) == *old(self),
    {
        match self.receiver.recv() {
            Ok(value) => Some(value),
            Err(_) => None,
        }
    }
}

/// The owning iterator `Receiver::into_iter` hands out.
pub struct IntoIter<T> {
    receiver: Receiver<T>,
}

impl<T> IntoIter<T> {
    /// The underlying receiver is well formed.
    pub closed spec fn wf(self) -> bool {
        self.receiver.wf()
    }

    /// The next value, blocking for it; `None` once every sender is gone.
    pub fn next(&mut self) -> (r: Option<T>)
        requires
            old(self).wf(),
        ensures
            *final(self) == *old(self),
    {
        match self.receiver.recv() {
            Ok(value) => Some(value),
            Err(_) => None,
        }
    }
}

/// The non-blocking iterator `Receiver::try_iter` hands out.
pub struct TryIter<'a, T> {
    receiver: &'a Receiver<T>,
}

impl<'a, T> TryIter<'a, T> {
    /// The underlying receiver is well formed.
    pub closed spec fn wf(self) -> bool {
        (*self.receiver).wf()
    }

    /// The next immediately available value; `None` on an empty or
    /// disconnected channel.
    pub fn next(&mut self) -> (r: Option<T>)
        requires
            old(self).wf(),
        ensures
            *final(self) == *old(self),
    {
        match self.receiver.try_recv() {
            Ok(value) => Some(value),
            Err(_) => None,
        }
    }
}

} // verus!


