//! The signaling primitive: a pair of endpoints, each able to wake its peer,
//! report that it is still there, and wait — plainly or with a deadline —
//! for the peer's signal.
//!
//! Each direction of the pair is a shared record holding two booleans: the
//! signaling side's presence and a wake latch. The record's transitions are
//! verified functions on [`RecordState`]; the parking itself — taking the
//! mutex and blocking on the condition variable — is the trusted shell
//! around them. The latch is examined and changed only under the mutex the
//! condition variable is associated with, so wake-ups cannot be lost.
use vstd::prelude::*;

use std::sync::Arc;
use std::sync::Condvar;
use std::sync::Mutex;
use std::time::Instant;

verus! {

/// What one direction of the pair remembers: whether the signaling side is
/// still present, and whether it has woken the waiting side.
pub struct RecordState {
    pub present: bool,
    pub woke: bool,
}

/// The waiting side may stop waiting once it has been woken or its peer has
/// left; as long as neither has happened it must keep waiting.
pub open spec fn stop_waiting(s: RecordState) -> bool {
    s.woke || !s.present
}

/// Wake the waiting side: set the latch. Setting it again changes nothing,
/// so wake-ups before a wait collapse to one; presence is never touched.
fn wake_step(s: &mut RecordState)
    ensures
        final(s).woke == true,
        final(s).present == old(s).present,
{
    s.woke = true;
}

/// The signaling side leaves: presence flips to false. Returns whether the
/// side was present before; a second leave is a protocol violation that the
/// caller must treat as fatal.
fn leave_step(s: &mut RecordState) -> (was: bool)
    ensures
        final(s).present == false,
        final(s).woke == old(s).woke,
        was == old(s).present,
{
    let was = s.present;
    s.present = false;
    was
}

/// Clear the latch after a timed wait, so a stale wake cannot cut the next
/// timed wait short. The plain wait deliberately leaves the latch alone.
fn clear_woke_step(s: &mut RecordState)
    ensures
        final(s).woke == false,
        final(s).present == old(s).present,
{
    s.woke = false;
}

/// The wait loop's predicate, re-checked under the mutex after every
/// wake-up: keep waiting while un-woken and the peer is still present.
fn keep_waiting(s: &RecordState) -> (r: bool)
    ensures
        r == !stop_waiting(*s),
{
    s.present && !s.woke
}

/// Wake liveness at the record level: after a wake, and likewise after the
/// signaling side leaves, the predicate tells the waiting side to stop
/// waiting, whatever the rest of the record holds.
pub proof fn lemma_wake_liveness(s: RecordState)
    ensures
        stop_waiting(RecordState { woke: true, ..s }),
        stop_waiting(RecordState { present: false, ..s }),
{
}

/// Relies on std::sync::Mutex: mutual exclusion around the value it holds.
#[verifier::external_type_specification]
#[verifier::external_body]
#[verifier::reject_recursive_types(T)]
pub struct ExMutex<T: ?Sized>(Mutex<T>);

/// Relies on std::sync::Condvar: the parking primitive the waiting side
/// blocks on.
#[verifier::external_type_specification]
#[verifier::external_body]
pub struct ExCondvar(Condvar);

/// Relies on std::sync::Mutex::new: a fresh mutex around the given value.
pub assume_specification<T>[ Mutex::<T>::new ](t: T) -> Mutex<T>;

/// Relies on std::sync::Condvar::new: a fresh condition variable.
pub assume_specification[ Condvar::new ]() -> Condvar;

/// One direction of the pair: the record both sides share and the condition
/// variable its waiting side parks on. The record is examined and changed
/// only under `state`'s mutex, the one `cv` is associated with.
struct Record {
    state: Mutex<RecordState>,
    cv: Condvar,
}

impl Record {
    /// A fresh direction: the signaling side is present, no wake pending.
    fn new() -> Record {
        Record { state: Mutex::new(RecordState { present: true, woke: false }), cv: Condvar::new() }
    }

    /// Relies on std::sync::Mutex::lock: runs `wake_step` on the shared
    /// record under the mutex.
    #[verifier::external_body]
    fn locked_wake(&self) {
        let mut guard = self.state.lock().unwrap();
        wake_step(&mut *guard);
    }

    /// Relies on std::sync::Condvar::notify_all: unparks every thread
    /// blocked on this record.
    #[verifier::external_body]
    fn notify_all_waiters(&self) {
        self.cv.notify_all();
    }

    /// Relies on std::sync::Mutex::lock: reads the presence flag under the
    /// mutex. The flag is shared, so nothing can be promised of the value.
    #[verifier::external_body]
    fn locked_is_present(&self) -> bool {
        self.state.lock().unwrap().present
    }

    /// Relies on std::sync::Condvar::wait_while: parks until `keep_waiting`
    /// turns false, re-checking the predicate under the mutex after every
    /// wake-up, so a leave that races with the wait is never missed. The
    /// latch is left as it is.
    #[verifier::external_body]
    fn park(&self) {
        let guard = self.state.lock().unwrap();
        let _guard = self.cv.wait_while(guard, |s: &mut RecordState| keep_waiting(s)).unwrap();
    }

    /// Relies on std::sync::Condvar::wait_timeout_while and the monotonic
    /// clock: parks until `keep_waiting` turns false or the deadline passes,
    /// re-checking the predicate under the mutex after every wake-up.
    /// Returns true only if the deadline passed with the predicate still
    /// holding — neither woken nor peer-departed in time. Clears the latch
    /// on the way out, so a stale wake cannot cut the next timed wait short.
    #[verifier::external_body]
    fn park_until(&self, deadline: Instant) -> bool {
        let guard = self.state.lock().unwrap();
        let left = match deadline.checked_duration_since(Instant::now()) {
            Some(d) => d,
            None => core::time::Duration::from_millis(0),
        };
        let waited = self.cv.wait_timeout_while(guard, left, |s: &mut RecordState| keep_waiting(s));
        let (mut guard, res) = waited.unwrap();
        clear_woke_step(&mut *guard);
        res.timed_out()
    }

    /// Relies on std::sync::Mutex::lock and std::sync::Condvar::notify_all:
    /// runs `leave_step` under the mutex, then unparks every waiter so the
    /// departure is noticed promptly. Aborts if this side had already left:
    /// a second leave is a protocol violation, and the only caller is an
    /// endpoint's drop, which runs once.
    #[verifier::external_body]
    fn leave(&self) {
        let mut guard = self.state.lock().unwrap();
        let was = leave_step(&mut *guard);
        drop(guard);
        if !was {
            None::<()>.unwrap();
        }
        self.cv.notify_all();
    }
}

/// The half of an endpoint that signals the peer.
struct SignalToken {
    inner: Arc<Record>,
}

impl SignalToken {
    /// Set the peer's latch under the mutex, then notify all of its waiters.
    fn wake(&self) {
        self.inner.locked_wake();
        self.inner.notify_all_waiters();
    }
}

/// The half of an endpoint that observes the peer and waits for it.
struct WaitToken {
    inner: Arc<Record>,
}

impl WaitToken {
    fn is_present(&self) -> bool {
        self.inner.locked_is_present()
    }

    fn wait(&self) {
        self.inner.park()
    }

    fn wait_until(&self, deadline: Instant) -> bool {
        self.inner.park_until(deadline)
    }
}

/// One end of a channel's signaling pair: it signals the peer through one
/// direction's record and waits on the other's.
pub struct Token {
    signal: SignalToken,
    wait: WaitToken,
}

impl Token {
    /// Wake the peer: set its latch and notify its waiters. Idempotent.
    pub fn wake(&self) {
        self.signal.wake();
    }

    /// Whether the peer endpoint is still there. The flag is shared, so the
    /// answer may be stale by the time it is used; the channel protocols
    /// order this read against their buffer reads to stay correct.
    pub fn is_present(&self) -> bool {
        self.wait.is_present()
    }

    /// Block until the peer has woken this endpoint or has left.
    pub fn wait(&self) {
        self.wait.wait()
    }

    /// As `wait`, but give up at `deadline`. Returns true if this operation
    /// timed out: the deadline passed with no wake and the peer still there.
    pub fn wait_until(&self, deadline: Instant) -> bool {
        self.wait.wait_until(deadline)
    }
}

impl Drop for Token {
    /// Relies on drop running exactly once per endpoint: marks this side
    /// gone and broadcasts, so peers blocked in a wait unblock promptly.
    #[verifier::external_body]
    fn drop(&mut self)
        opens_invariants none
        no_unwind
    {
        self.signal.inner.leave();
    }
}

/// One direction of the pair: the signal half and the wait half share a
/// fresh record.
fn make_token_pair() -> (r: (SignalToken, WaitToken)) {
    let record = Arc::new(Record::new());
    let signal = SignalToken { inner: crate::share(&record) };
    (signal, WaitToken { inner: record })
}

/// A fresh pair of endpoints, cross-wired: each one's signal half feeds the
/// record the other waits on.
pub fn tokens() -> (r: (Token, Token)) {
    let (signal_a, wait_a) = make_token_pair();
    let (signal_b, wait_b) = make_token_pair();
    (Token { signal: signal_a, wait: wait_b }, Token { signal: signal_b, wait: wait_a })
}

} // verus!
