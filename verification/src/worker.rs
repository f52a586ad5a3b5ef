//! Smart workers: concurrently running work whose handle knows when the
//! work is finished.
//!
//! A smart worker is like an ordinary worker thread, except that its
//! handle may poll the worker's status at any time, from any observer.
//! The worker records how it ended in a shared, lock protected
//! [`StatusCell`]; a [`SmartHandle`] reads that cell through
//! [`SmartHandle::status`] and collects the worker's value through
//! [`SmartHandle::join`].
//!
//! The status cell starts at [`ThreadStatus::Running`] and is written at
//! most once, to either [`ThreadStatus::Finished`] or
//! [`ThreadStatus::Panicked`]; it never leaves a terminal state. That
//! walk is captured by [`valid_trace`], enforced by the cell's lock
//! invariant, and its consequence is stated by [`lemma_status_monotone`].
//!
//! Starting an operating-system thread, and catching an abnormal unwind
//! of the user's code, are beyond what verified code can express; they
//! belong to a thin unverified rim around this library. The rim's whole
//! duty is three calls: turn the work's end into a [`WorkOutcome`]
//! (translating a caught panic into [`WorkOutcome::Aborted`]), hand it to
//! [`StatusCell::record`], and send it down the channel a
//! [`SmartHandle`] was built over. Everything the outcome decides — what
//! status is recorded, what a join yields — is decided here, verified.

use std::sync::Arc;
use std::sync::mpsc::Receiver;
use vstd::prelude::*;
use vstd::rwlock::{RwLock, RwLockPredicate};

verus! {

/// The execution status of a worker thread.
#[derive(Clone, Copy, Debug, PartialEq, Eq, Structural)]
pub enum ThreadStatus {
    /// The thread is running.
    Running,
    /// The thread finished running.
    Finished,
    /// The thread was cut short by an abnormal termination.
    Panicked,
}

impl ThreadStatus {
    /// Check if the status indicates the thread is running.
    pub fn is_running(self) -> (r: bool)
        ensures
            r == (self == ThreadStatus::Running),
    {
        self == ThreadStatus::Running
    }

    /// Check if the status indicates the thread finished successfully.
    pub fn finished(self) -> (r: bool)
        ensures
            r == (self == ThreadStatus::Finished),
    {
        self == ThreadStatus::Finished
    }

    /// Check if the status indicates the thread panicked.
    pub fn panicked(self) -> (r: bool)
        ensures
            r == (self == ThreadStatus::Panicked),
    {
        self == ThreadStatus::Panicked
    }
}

/// The one transition a status cell may make: away from `Running`, never
/// back, and never between terminal states.
pub open spec fn status_step(from: ThreadStatus, to: ThreadStatus) -> bool {
    from == ThreadStatus::Running && to != ThreadStatus::Running
}

/// The history of values a status cell has held: it starts at `Running`
/// and every later entry comes from a [`status_step`].
pub open spec fn valid_trace(t: Seq<ThreadStatus>) -> bool {
    &&& t.len() >= 1
    &&& t[0] == ThreadStatus::Running
    &&& forall|i: int| 0 <= i < t.len() - 1 ==> #[trigger] status_step(t[i], t[i + 1])
}

/// A status cell is written at most once: its history never holds more
/// than the initial `Running` and one terminal value.
pub proof fn lemma_trace_writes_once(t: Seq<ThreadStatus>)
    requires
        valid_trace(t),
    ensures
        t.len() <= 2,
{
    if t.len() > 2 {
        let i0: int = 0;
        let i1: int = 1;
        assert(status_step(t[i0], t[i0 + 1]));
        assert(status_step(t[i1], t[i1 + 1]));
    }
}

/// Monotonicity: once a status history has left `Running`, every later
/// entry is the same terminal value; the walk never revisits `Running`
/// and never moves between `Finished` and `Panicked`.
pub proof fn lemma_status_monotone(t: Seq<ThreadStatus>, i: int, j: int)
    requires
        valid_trace(t),
        0 <= i <= j < t.len(),
        t[i] != ThreadStatus::Running,
    ensures
        t[j] == t[i],
{
    lemma_trace_writes_once(t);
}

/// What the status lock protects: the current status together with the
/// history of every value the cell has held.
struct StatusSlot {
    status: ThreadStatus,
    trace: Ghost<Seq<ThreadStatus>>,
}

/// The lock invariant of a status cell: the history is a valid trace and
/// ends at the value the cell holds now.
spec fn slot_inv(s: StatusSlot) -> bool {
    valid_trace(s.trace@) && s.trace@.last() == s.status
}

/// The predicate every status lock is constructed with; baking it into
/// the lock's type means every `StatusCell` maintains it, with nothing to
/// require of callers.
struct StatusPred;

impl RwLockPredicate<StatusSlot> for StatusPred {
    closed spec fn inv(self, s: StatusSlot) -> bool {
        slot_inv(s)
    }
}

/// How a piece of work ended: with a value, or cut short.
///
/// Catching an unwind mid-flight is outside what verified code can
/// express, so work run on a smart worker reports an abnormal end
/// through this type; the unverified rim translates a caught panic into
/// [`WorkOutcome::Aborted`] before anything here sees it.
#[derive(Debug, PartialEq, Eq)]
pub enum WorkOutcome<T> {
    /// The work ran to completion and produced a value.
    Completed(T),
    /// The work was cut short; the message describes what happened.
    Aborted(String),
}

/// Why joining a smart worker yielded no value.
#[derive(Debug, PartialEq, Eq)]
pub enum JoinError {
    /// The worker reported an abnormal termination, with its message.
    Aborted(String),
    /// The worker went away without handing an outcome back at all.
    Lost,
}

/// The status a given outcome is recorded as: a completion reads as
/// `Finished`, an abort as `Panicked` — never `Running` again.
pub open spec fn status_of<T>(out: WorkOutcome<T>) -> ThreadStatus {
    match out {
        WorkOutcome::Completed(_) => ThreadStatus::Finished,
        WorkOutcome::Aborted(_) => ThreadStatus::Panicked,
    }
}

/// The join result a given outcome is delivered as: a completion yields
/// its value, an abort yields [`JoinError::Aborted`] with its message.
pub open spec fn delivery_of<T>(out: WorkOutcome<T>) -> Result<T, JoinError> {
    match out {
        WorkOutcome::Completed(v) => Ok(v),
        WorkOutcome::Aborted(m) => Err(JoinError::Aborted(m)),
    }
}

/// A shared, lock protected cell holding a [`ThreadStatus`].
///
/// The cell is created at `Running` and shared between the worker, its
/// [`SmartHandle`], and any observers the handle gives out. The worker
/// writes the cell at most once, through [`StatusCell::record`], when
/// its work ends; everyone else only reads. Reading never fails and
/// never blocks beyond the lock's brief critical section.
pub struct StatusCell {
    lock: Arc<RwLock<StatusSlot, StatusPred>>,
}

impl StatusCell {
    /// Create a fresh cell holding `Running`.
    pub fn new() -> StatusCell {
        let ghost initial = seq![ThreadStatus::Running];
        let slot = StatusSlot { status: ThreadStatus::Running, trace: Ghost(initial) };
        StatusCell { lock: Arc::new(RwLock::new(slot, Ghost(StatusPred))) }
    }

    /// Read the status the cell holds now.
    ///
    /// This is a snapshot, not a guarantee: the worker may write the cell
    /// between this read and anything the caller does next. What every
    /// snapshot does come from is a [`valid_trace`].
    pub fn read(&self) -> (s: ThreadStatus)
        ensures
            exists|t: Seq<ThreadStatus>| valid_trace(t) && t.last() == s,
    {
        let handle = (*self.lock).acquire_read();
        let slot = handle.borrow();
        let s = slot.status;
        proof {
            let t = slot.trace@;
            assert(valid_trace(t) && t.last() == s);
        }
        handle.release_read();
        s
    }

    /// Make another reference to the same cell, for a further observer.
    pub fn duplicate(&self) -> StatusCell {
        StatusCell { lock: self.lock.clone() }
    }

    /// Record how the worker's work ended, and return the status that
    /// stands for it. Only the first record moves the cell: one that has
    /// already left `Running` keeps its value, so no sequence of calls
    /// can make the status walk back.
    pub fn record<T>(&self, out: &WorkOutcome<T>) -> (s: ThreadStatus)
        ensures
            s == status_of(*out),
    {
        let status = match out {
            WorkOutcome::Completed(_) => ThreadStatus::Finished,
            WorkOutcome::Aborted(_) => ThreadStatus::Panicked,
        };
        self.write(status);
        status
    }

    /// Write a terminal status, first write wins.
    fn write(&self, status: ThreadStatus)
        requires
            status != ThreadStatus::Running,
    {
        let (slot, write_handle) = (*self.lock).acquire_write();
        let slot = if slot.status.is_running() {
            StatusSlot { status, trace: Ghost(slot.trace@.push(status)) }
        } else {
            slot
        };
        write_handle.release_write(slot);
    }
}

/// Translate an outcome into what a join yields: exactly its delivery —
/// the completed value as `Ok`, the abort as its error, nothing else.
pub fn settle<T>(out: WorkOutcome<T>) -> (r: Result<T, JoinError>)
    ensures
        r == delivery_of(out),
{
    match out {
        WorkOutcome::Completed(v) => Ok(v),
        WorkOutcome::Aborted(m) => Err(JoinError::Aborted(m)),
    }
}

/// std's channel receiver, the conduit a worker's outcome arrives by.
#[verifier::external_type_specification]
#[verifier::external_body]
#[verifier::reject_recursive_types(T)]
pub struct ExReceiver<T>(Receiver<T>);

/// Relies on std's `Receiver::recv`: it blocks until a value arrives
/// (`Some`) or every sender is gone (`None`). Nothing is assumed about
/// which value arrives.
#[verifier::external_body]
fn recv_value<T>(receiver: &Receiver<T>) -> (r: Option<T>) {
    receiver.recv().ok()
}

/// A worker handle that knows when the worker is finished executing.
///
/// Built by the spawning rim from the receiving end of the worker's
/// outcome channel and a reference to its status cell; consumed by
/// [`SmartHandle::join`], or dropped, in which case the worker runs on
/// detached and its completion still reaches every [`StatusCell`]
/// observer taken from the handle.
#[verifier::reject_recursive_types(T)]
pub struct SmartHandle<T> {
    receiver: Receiver<WorkOutcome<T>>,
    cell: StatusCell,
}

impl<T> SmartHandle<T> {
    /// Assemble a handle for a worker that reports through `receiver`
    /// and records its status in the cell `cell` came from.
    pub fn new(receiver: Receiver<WorkOutcome<T>>, cell: StatusCell) -> SmartHandle<T> {
        SmartHandle { receiver, cell }
    }

    /// Join the worker, blocking until it has terminated.
    ///
    /// Whatever outcome the worker reported is delivered faithfully: a
    /// completed value as `Ok`, an abort as its [`JoinError::Aborted`].
    /// A worker that went away without reporting — its thread unwound
    /// outside the outcome protocol — yields [`JoinError::Lost`]; a join
    /// never panics and never invents a value.
    pub fn join(self) -> (r: Result<T, JoinError>)
        ensures
            (exists|out: WorkOutcome<T>| r == #[trigger] delivery_of(out)) || r == Err::<
                T,
                JoinError,
            >(JoinError::Lost),
    {
        let SmartHandle { receiver, cell: _ } = self;
        match recv_value(&receiver) {
            Some(out) => settle(out),
            None => Err(JoinError::Lost),
        }
    }

    /// Check the worker's status without blocking beyond the status
    /// lock's brief critical section. A snapshot, not a guarantee: see
    /// [`StatusCell::read`].
    pub fn status(&self) -> (s: ThreadStatus)
        ensures
            exists|t: Seq<ThreadStatus>| valid_trace(t) && t.last() == s,
    {
        self.cell.read()
    }

    /// A further reference to the worker's status cell, so that the
    /// status stays observable after the handle is consumed or dropped.
    pub fn observer(&self) -> StatusCell {
        self.cell.duplicate()
    }

    /// Consume this handle and get the inner receiving end of the
    /// worker's outcome channel.
    pub fn into_inner(self) -> Receiver<WorkOutcome<T>> {
        let SmartHandle { receiver, cell: _ } = self;
        receiver
    }
}

/// Law: recording and delivering agree. For every outcome, the recorded
/// status is terminal, and it reads `Finished` exactly when the delivery
/// carries a value and `Panicked` exactly when it carries an error.
pub proof fn lemma_status_matches_delivery<T>(out: WorkOutcome<T>)
    ensures
        status_of(out) != ThreadStatus::Running,
        status_of(out) == ThreadStatus::Finished <==> delivery_of(out) is Ok,
        status_of(out) == ThreadStatus::Panicked <==> delivery_of(out) is Err,
{
}

/// Law: a join that yields a value can only have been handed a completed
/// outcome with exactly that value, and a join that was handed an abort
/// yields exactly its message — never a panic, never an invented value.
pub proof fn lemma_join_faithful<T>(r: Result<T, JoinError>)
    requires
        (exists|out: WorkOutcome<T>| r == #[trigger] delivery_of(out)) || r == Err::<
            T,
            JoinError,
        >(JoinError::Lost),
    ensures
        r matches Ok(v) ==> (exists|out: WorkOutcome<T>|
            out == WorkOutcome::Completed(v) && r == #[trigger] delivery_of(out)),
        r matches Err(e) ==> (e == JoinError::Lost || e matches JoinError::Aborted(_)),
{
    if r is Ok {
        let out = choose|out: WorkOutcome<T>| r == #[trigger] delivery_of(out);
        assert(out == WorkOutcome::Completed(r->Ok_0) && r == delivery_of(out));
    }
}

} // verus!

