//! The rendezvous flavor: capacity zero, no buffer. Every successful
//! delivery is a direct hand-off through a single slot ("place"), driven by
//! a small state machine that elects one winning sender among any number of
//! racing ones and lets the unique receiver take exactly what that sender
//! deposited.
//!
//! The state machine and the place live together behind a verified lock
//! whose invariant couples them: the place holds a value only while a
//! hand-off is in flight, and in SENT it always holds one. Each transition
//! of the machine is its own locked step; between steps the other parties
//! run freely.
use vstd::prelude::*;

use crate::share;
use crate::token;
use crate::token::Token;
use crate::RecvError;
use crate::RecvTimeoutError;
use crate::TryRecvError;
use crate::TrySendError;

use std::sync::Arc;
use std::time::Instant;
use vstd::rwlock::RwLock;
use vstd::rwlock::RwLockPredicate;

verus! {

/// The hand-off state machine's states.
///
/// A sender or receiver that arrives first advertises itself; once both
/// sides are there, one sender wins the right to deposit, deposits, and
/// finalizes; the receiver then takes the value and the machine is empty
/// again.
#[derive(Copy, Clone, PartialEq, Eq, Structural, Debug)]
pub enum State {
    Empty,
    SenderAvailable,
    ReceiverAvailable,
    BothAvailable,
    Sending,
    Sent,
}

/// The shared rendezvous record: the machine's state and the single slot a
/// value is handed over in.
pub struct Core<T> {
    pub state: State,
    pub place: Option<T>,
}

/// The protocol invariant: the place holds a value only while a hand-off is
/// in flight (SENDING or SENT), and in SENT it always holds one — the
/// winning sender deposited before finalizing.
pub open spec fn core_inv<T>(c: Core<T>) -> bool {
    &&& c.place is Some ==> c.state == State::Sending || c.state == State::Sent
    &&& c.state == State::Sent ==> c.place is Some
}

/// The lock predicate that pins `core_inv` to every value the lock holds.
pub struct CoreInv;

impl<T> RwLockPredicate<Core<T>> for CoreInv {
    open spec fn inv(self, c: Core<T>) -> bool {
        core_inv(c)
    }
}

/// Relies on Option::unwrap to abort the process: a protocol violation —
/// the state machine and the place disagree in a way the transitions rule
/// out — has no recovery path.
#[verifier::external_body]
fn protocol_violation() {
    None::<()>.unwrap();
}

/// The compare-and-swap transition on the model: `from` becomes `to`, any
/// other state stands; the place is never touched.
pub open spec fn spec_cas<T>(c: Core<T>, from: State, to: State) -> Core<T> {
    if c.state == from {
        Core { state: to, ..c }
    } else {
        c
    }
}

/// The deposit transition on the model: what the winning sender does under
/// the lock — fill the empty place and finalize, in one locked step.
pub open spec fn spec_deposit<T>(c: Core<T>, value: T) -> (Core<T>, Option<T>) {
    if c.state == State::Sending && c.place is None {
        (Core { state: State::Sent, place: Some(value) }, None)
    } else {
        (c, Some(value))
    }
}

/// The take transition on the model: what the receiver does under the lock
/// — in SENT, empty the place and the machine together.
pub open spec fn spec_take<T>(c: Core<T>) -> (Core<T>, Option<T>) {
    if c.state == State::Sent {
        (Core { state: State::Empty, place: None }, c.place)
    } else {
        (c, None)
    }
}

/// Compare-and-swap on the record — exactly a `spec_cas`. The transitions
/// that move a hand-off in or out of flight are not expressible here: the
/// states around SENDING and SENT belong to `deposit_step` and
/// `take_step`, which is what keeps the invariant standing.
pub fn cas_step<T>(core: &mut Core<T>, from: State, to: State) -> (prev: State)
    requires
        core_inv(*old(core)),
        !(from is Sending),
        !(from is Sent),
        !(to is Sent),
    ensures
        *final(core) == spec_cas(*old(core), from, to),
        prev == old(core).state,
        core_inv(*final(core)),
{
    let prev = core.state;
    if core.state == from {
        core.state = to;
    }
    prev
}

/// The winning sender's deposit — exactly a `spec_deposit`: with the
/// machine in SENDING and the place empty, fill the place and finalize to
/// SENT; anything else changes nothing and hands the value back.
pub fn deposit_step<T>(core: &mut Core<T>, value: T) -> (r: Option<T>)
    requires
        core_inv(*old(core)),
    ensures
        *final(core) == spec_deposit(*old(core), value).0,
        r == spec_deposit(*old(core), value).1,
        core_inv(*final(core)),
{
    if core.state == State::Sending && core.place.is_none() {
        core.place = Some(value);
        core.state = State::Sent;
        None
    } else {
        Some(value)
    }
}

/// The receiver's take — exactly a `spec_take`: in SENT the place
/// necessarily holds a value, the invariant says so, and taking it returns
/// the machine to EMPTY; in any other state nothing is taken.
pub fn take_step<T>(core: &mut Core<T>) -> (r: Option<T>)
    requires
        core_inv(*old(core)),
    ensures
        *final(core) == spec_take(*old(core)).0,
        r == spec_take(*old(core)).1,
        core_inv(*final(core)),
        old(core).state == State::Sent ==> r is Some,
{
    if core.state == State::Sent {
        let value = core.place.take();
        core.state = State::Empty;
        value
    } else {
        None
    }
}

/// The record both ends share.
pub struct Shared<T> {
    cell: RwLock<Core<T>, CoreInv>,
}

impl<T> Shared<T> {
    /// A fresh record: empty machine, empty place.
    fn new() -> Shared<T> {
        Shared { cell: RwLock::new(Core { state: State::Empty, place: None }, Ghost(CoreInv)) }
    }

    /// Compare-and-swap on the state under the lock: one `cas_step`
    /// against whatever the record holds at this instant.
    fn cas(&self, from: State, to: State) -> (prev: State)
        requires
            !(from is Sending),
            !(from is Sent),
            !(to is Sent),
    {
        let (mut core, handle) = self.cell.acquire_write();
        let prev = cas_step(&mut core, from, to);
        handle.release_write(core);
        prev
    }

    /// Read the current state under the lock.
    fn load(&self) -> (s: State) {
        let read_handle = self.cell.acquire_read();
        let s = read_handle.borrow().state;
        read_handle.release_read();
        s
    }

    /// The sender's readiness check: RECEIVER_AVAILABLE becomes
    /// BOTH_AVAILABLE; only a sender that saw the receiver advertised may
    /// proceed toward the hand-off.
    fn sender_ready(&self) -> (r: bool) {
        let prev = self.cas(State::ReceiverAvailable, State::BothAvailable);
        matches!(prev, State::ReceiverAvailable)
    }

    /// The receiver's readiness check: SENDER_AVAILABLE becomes
    /// BOTH_AVAILABLE, and any state at or past the hand-off also counts —
    /// a sender is about to deposit, or already has.
    fn receiver_ready(&self) -> (r: bool) {
        let prev = self.cas(State::SenderAvailable, State::BothAvailable);
        matches!(
            prev,
            State::SenderAvailable | State::BothAvailable | State::Sent | State::Sending,
        )
    }

    /// The winning sender's deposit: one `deposit_step` under the lock.
    /// A `Some` means the record was not where the election left it — a
    /// protocol violation for the caller to treat as fatal — and carries
    /// the value back.
    fn deposit(&self, value: T) -> (r: Option<T>)
        ensures
            r matches Some(ret) ==> ret == value,
    {
        let (mut core, handle) = self.cell.acquire_write();
        let r = deposit_step(&mut core, value);
        handle.release_write(core);
        r
    }

    /// The receiver's take: one `take_step` under the lock.
    fn take(&self) -> (r: Option<T>) {
        let (mut core, handle) = self.cell.acquire_write();
        let r = take_step(&mut core);
        handle.release_write(core);
        r
    }
}

/// The sending end of a rendezvous channel. Senders share one `Sender`
/// through the reference-counted handle `channel` returns.
pub struct Sender<T> {
    token: Token,
    inner: Arc<Shared<T>>,
}

/// The receiving end of a rendezvous channel: a unique handle.
pub struct Receiver<T> {
    inner: Arc<Shared<T>>,
    token: Token,
}

/// A fresh rendezvous channel.
pub fn channel<T>() -> (r: (Arc<Sender<T>>, Receiver<T>)) {
    let inner = Arc::new(Shared::new());
    let (sender, receiver) = token::tokens();
    (
        Arc::new(Sender { inner: share(&inner), token: sender }),
        Receiver { inner, token: receiver },
    )
}

/// What one iteration of the blocking send decided.
enum SendAttempt<T> {
    Done(Result<(), T>),
    Park(T),
}

impl<T> Sender<T> {
    /// Classify a failed attempt by the receiver's presence, as observed
    /// after the failure: a present receiver means legitimate contention.
    fn err(&self, value: T) -> (r: TrySendError<T>)
        ensures
            r matches TrySendError::Full(x) ==> x == value,
            r matches TrySendError::Disconnected(x) ==> x == value,
    {
        let present = self.token.is_present();
        crate::classify_send_failure(present, value)
    }

    /// Try the hand-off without blocking: win the receiver's availability,
    /// win the election among senders, deposit and finalize, wake the
    /// receiver. A failed attempt returns the value, as Full while the
    /// receiver is present, as Disconnected once it is gone.
    pub fn try_send(&self, value: T) -> (r: Result<(), TrySendError<T>>)
        ensures
            r matches Err(TrySendError::Full(x)) ==> x == value,
            r matches Err(TrySendError::Disconnected(x)) ==> x == value,
    {
        if !self.inner.sender_ready() {
            return Err(self.err(value));
        }
        let prev = self.inner.cas(State::BothAvailable, State::Sending);
        if !matches!(prev, State::BothAvailable) {
            // Another sender won the election for this hand-off.
            return Err(self.err(value));
        }
        match self.inner.deposit(value) {
            None => {
                self.token.wake();
                Ok(())
            },
            Some(ret) => {
                // The machine left SENDING, or the place was full, though
                // this sender held the election: fatal, and `ret` is dead.
                protocol_violation();
                Err(TrySendError::Full(ret))
            },
        }
    }

    /// One iteration of the blocking send: advertise availability, try the
    /// hand-off; on contention wake the peer — a parked receiver may need
    /// to notice the fresh offer — and ask to park.
    fn send_attempt(&self, value: T) -> (r: SendAttempt<T>)
        ensures
            r matches SendAttempt::Park(x) ==> x == value,
            r matches SendAttempt::Done(res) ==> (res matches Err(x) ==> x == value),
    {
        let _ = self.inner.cas(State::Empty, State::SenderAvailable);
        match self.try_send(value) {
            Ok(()) => SendAttempt::Done(Ok(())),
            Err(TrySendError::Full(ret)) => {
                self.token.wake();
                SendAttempt::Park(ret)
            },
            Err(TrySendError::Disconnected(ret)) => SendAttempt::Done(Err(ret)),
        }
    }

    /// Relies on Token::wait to park between attempts. The retry loop
    /// carries no termination measure — it blocks until the receiver acts
    /// or leaves — so it repeats the verified `send_attempt` unchanged and
    /// adds nothing of its own.
    #[verifier::external_body]
    fn send_loop(&self, value: T) -> (r: Result<(), T>)
        ensures
            r matches Err(x) ==> x == value,
    {
        let mut value = value;
        loop {
            match self.send_attempt(value) {
                SendAttempt::Done(res) => return res,
                SendAttempt::Park(ret) => {
                    value = ret;
                    self.token.wait();
                },
            }
        }
    }

    /// Block until the hand-off completes or the receiver is gone. An error
    /// returns the value intact. Success means this sender won the hand-off
    /// and finalized it for the receiver that had committed to take it: the
    /// machine leaves the finalized state only through that receiver's
    /// take, though the return itself may narrowly precede the take.
    pub fn send(&self, value: T) -> (r: Result<(), T>)
        ensures
            r matches Err(x) ==> x == value,
    {
        self.send_loop(value)
    }
}

/// What one iteration of the blocking receive decided.
enum RecvAttempt<T> {
    Done(Result<T, RecvError>),
    Park,
}

impl<T> Receiver<T> {
    /// Classify a failed attempt by the senders' presence, as observed
    /// after the failure: senders still present means merely `Empty`.
    fn err(&self) -> (r: TryRecvError) {
        let present = self.token.is_present();
        crate::classify_recv_failure(present)
    }

    /// Take the hand-off without blocking: win the sender's availability,
    /// and take the value if the winning sender has finalized; wake the
    /// senders afterwards, since the machine is empty again.
    pub fn try_recv(&self) -> (r: Result<T, TryRecvError>) {
        if !self.inner.receiver_ready() {
            return Err(self.err());
        }
        let state = self.inner.load();
        if !matches!(state, State::Sent) {
            // The winning sender has not finished depositing.
            return Err(self.err());
        }
        match self.inner.take() {
            Some(value) => {
                self.token.wake();
                Ok(value)
            },
            None => {
                // The machine left SENT with the unique receiver standing
                // here: fatal, and the error below is dead.
                protocol_violation();
                Err(TryRecvError::Empty)
            },
        }
    }

    /// Undo this receiver's advertisement, if it still stands: hygiene for
    /// the paths that leave without taking a value.
    fn revert_offer(&self) {
        let _ = self.inner.cas(State::ReceiverAvailable, State::Empty);
    }

    /// One iteration of the blocking receive: advertise availability, try
    /// the take; when nothing is there yet, wake the peer — a parked sender
    /// may need to notice the fresh offer — and ask to park.
    fn recv_attempt(&self) -> (r: RecvAttempt<T>) {
        let _ = self.inner.cas(State::Empty, State::ReceiverAvailable);
        match self.try_recv() {
            Ok(value) => RecvAttempt::Done(Ok(value)),
            Err(TryRecvError::Empty) => {
                self.token.wake();
                RecvAttempt::Park
            },
            Err(TryRecvError::Disconnected) => {
                self.revert_offer();
                RecvAttempt::Done(Err(RecvError))
            },
        }
    }

    /// Relies on Token::wait to park between attempts. The retry loop
    /// carries no termination measure — it blocks until a sender acts or
    /// every sender leaves — so it repeats the verified `recv_attempt`
    /// unchanged and adds nothing of its own.
    #[verifier::external_body]
    fn recv_loop(&self) -> Result<T, RecvError> {
        loop {
            match self.recv_attempt() {
                RecvAttempt::Done(res) => return res,
                RecvAttempt::Park => self.token.wait(),
            }
        }
    }

    /// Block until a hand-off completes or every sender is gone.
    pub fn recv(&self) -> Result<T, RecvError> {
        self.recv_loop()
    }

    /// Relies on Token::wait_until to park between attempts, as `recv_loop`
    /// does, and gives up once the deadline passes with no wake and the
    /// peer still present, reverting this receiver's advertisement.
    #[verifier::external_body]
    fn recv_deadline_loop(&self, deadline: Instant) -> Result<T, RecvTimeoutError> {
        loop {
            match self.recv_attempt() {
                RecvAttempt::Done(Ok(value)) => return Ok(value),
                RecvAttempt::Done(Err(err)) => return Err(RecvTimeoutError::from(err)),
                RecvAttempt::Park => {
                    if self.token.wait_until(deadline) {
                        self.revert_offer();
                        return Err(RecvTimeoutError::Timeout);
                    }
                },
            }
        }
    }

    /// As `recv`, but give up at `deadline` with a Timeout error.
    pub fn recv_deadline(&self, deadline: Instant) -> Result<T, RecvTimeoutError> {
        self.recv_deadline_loop(deadline)
    }
}

/// Rendezvous synchrony, on the model: taking is the only transition out of
/// SENT, it yields exactly the value the winning sender deposited, and it
/// leaves the machine empty — so a deposited value is taken once, by the
/// receiver, before any further hand-off can begin.
pub proof fn lemma_handoff<T>(c: Core<T>, value: T)
    requires
        core_inv(c),
        c.state == State::Sent,
        c.place == Some(value),
    ensures
        spec_take(c).0 == (Core::<T> { state: State::Empty, place: None }),
        spec_take(c).1 == Some(value),
        core_inv(spec_take(c).0),
{
}

/// Election exclusivity, on the model: a deposit succeeds only from
/// SENDING with an empty place, so no deposit can overwrite a value that
/// has not been taken, and a second sender cannot finalize the same
/// hand-off.
pub proof fn lemma_no_overwrite<T>(c: Core<T>, value: T)
    requires
        core_inv(c),
        c.place is Some,
    ensures
        spec_deposit(c, value).1 == Some(value),
        spec_deposit(c, value).0 == c,
{
}


/// One transition against the hand-off model.
pub enum CoreOp<T> {
    Cas(State, State),
    Deposit(T),
    Take,
}

/// Whether a compare-and-swap belongs to the protocol: the transitions in
/// and out of the in-flight states belong to the deposit and the take
/// alone, which is what `cas_step` requires of its callers.
pub open spec fn legal_cas(from: State, to: State) -> bool {
    !(from is Sending) && !(from is Sent) && !(to is Sent)
}

/// What the place holds, as a sequence: the at-most-one value in flight.
pub open spec fn in_flight<T>(c: Core<T>) -> Seq<T> {
    match c.place {
        Some(v) => seq![v],
        None => Seq::empty(),
    }
}

/// Run a sequence of transitions against the model, from a fresh record,
/// recording every deposited and every taken value in order. A
/// compare-and-swap outside the protocol changes nothing, as `cas_step`
/// refuses it.
pub open spec fn run_core<T>(ops: Seq<CoreOp<T>>) -> (Core<T>, Seq<T>, Seq<T>)
    decreases ops.len(),
{
    if ops.len() == 0 {
        (Core { state: State::Empty, place: None }, Seq::empty(), Seq::empty())
    } else {
        let (c, deposited, taken) = run_core(ops.drop_last());
        match ops.last() {
            CoreOp::Cas(from, to) => {
                if legal_cas(from, to) {
                    (spec_cas(c, from, to), deposited, taken)
                } else {
                    (c, deposited, taken)
                }
            },
            CoreOp::Deposit(v) => {
                let stepped = spec_deposit(c, v);
                (stepped.0, if stepped.1 is None { deposited.push(v) } else { deposited }, taken)
            },
            CoreOp::Take => {
                let stepped = spec_take(c);
                match stepped.1 {
                    Some(v) => (stepped.0, deposited, taken.push(v)),
                    None => (stepped.0, deposited, taken),
                }
            },
        }
    }
}

/// Hand-off conservation, along any run: the protocol invariant holds at
/// every point, and the values deposited so far are exactly the values
/// taken so far, in deposit order, followed by the at-most-one value still
/// in flight. So every hand-off delivers the winning sender's value
/// exactly once, and no deposit can begin until the previous value has
/// been taken.
pub proof fn lemma_handoff_conservation<T>(ops: Seq<CoreOp<T>>)
    ensures
        core_inv(run_core(ops).0),
        run_core(ops).1 == run_core(ops).2 + in_flight(run_core(ops).0),
    decreases ops.len(),
{
    if ops.len() == 0 {
        assert(run_core::<T>(ops).1 =~= run_core::<T>(ops).2 + in_flight(run_core::<T>(ops).0));
    } else {
        lemma_handoff_conservation::<T>(ops.drop_last());
        let (c, deposited, taken) = run_core(ops.drop_last());
        match ops.last() {
            CoreOp::Cas(from, to) => {
                assert(run_core(ops).1 =~= run_core(ops).2 + in_flight(run_core(ops).0));
            },
            CoreOp::Deposit(v) => {
                if c.state == State::Sending && c.place is None {
                    assert(deposited.push(v) =~= taken + in_flight(spec_deposit(c, v).0));
                } else {
                    assert(run_core(ops).1 =~= run_core(ops).2 + in_flight(run_core(ops).0));
                }
            },
            CoreOp::Take => {
                if c.state == State::Sent {
                    assert(deposited =~= taken.push(c.place->0) + in_flight(spec_take(c).0));
                } else {
                    assert(run_core(ops).1 =~= run_core(ops).2 + in_flight(run_core(ops).0));
                }
            },
        }
    }
}

} // verus!
