//! The collector: a mutex-protected log of records, shared by every thread that ends a guard.
use vstd::prelude::*;
use std::sync::{LockResult, Mutex, MutexGuard, PoisonError};
use core::ops::DerefMut;
use crate::timing::Timing;

verus! {

#[verifier::external_type_specification]
#[verifier::external_body]
#[verifier::reject_recursive_types(T)]
pub struct ExMutex<T: ?Sized>(Mutex<T>);

#[verifier::external_type_specification]
#[verifier::external_body]
#[verifier::reject_recursive_types(T)]
pub struct ExMutexGuard<'a, T: ?Sized + 'a>(MutexGuard<'a, T>);

#[verifier::external_type_specification]
#[verifier::external_body]
#[verifier::reject_recursive_types(T)]
pub struct ExPoisonError<T>(PoisonError<T>);

/// Relies on `Mutex::new`: wraps the value in a fresh, unlocked, unpoisoned mutex.
pub assume_specification<T>[ Mutex::<T>::new ](t: T) -> Mutex<T>;

/// Relies on `Mutex::lock`: blocks until the lock is held; `Err` where an earlier holder
/// panicked. Which of the two comes back depends on the other threads, so nothing is promised.
/// A thread that already holds the lock must not ask for it again: std leaves that call
/// unfinished (a deadlock or a panic). No function of this crate holds the lock across a call.
pub assume_specification<T: ?Sized>[ Mutex::<T>::lock ](m: &Mutex<T>) -> LockResult<MutexGuard<'_, T>>;

/// The log that a held guard gives access to.
pub uninterp spec fn guarded(g: MutexGuard<'_, Vec<Timing>>) -> Seq<Timing>;

/// Relies on `MutexGuard`'s `DerefMut`: exclusive access to the protected log while the lock
/// is held; what is written through the reference is what the guard holds afterwards.
#[verifier::external_body]
fn log_of<'a, 'b>(g: &'b mut MutexGuard<'a, Vec<Timing>>) -> (r: &'b mut Vec<Timing>)
    ensures
        r@ == guarded(*old(g)),
        guarded(*final(g)) == final(r)@,
{
    g.deref_mut()
}

/// The log after one record arrives: it goes to the back, so the log keeps arrival order.
pub open spec fn recorded(log: Seq<Timing>, timing: Timing) -> Seq<Timing> {
    log.push(timing)
}

/// The log after a run of records arrives one by one, in the order given.
pub open spec fn recorded_each(log: Seq<Timing>, arrivals: Seq<Timing>) -> Seq<Timing>
    decreases arrivals.len(),
{
    if arrivals.len() == 0 {
        log
    } else {
        recorded_each(recorded(log, arrivals[0]), arrivals.drop_first())
    }
}

/// What a drain hands out, and what it leaves behind: everything, and nothing.
pub open spec fn drained(log: Seq<Timing>) -> (Seq<Timing>, Seq<Timing>) {
    (log, Seq::empty())
}

/// Appends one record to a log that the caller holds exclusively.
pub fn record(log: &mut Vec<Timing>, timing: Timing)
    ensures
        final(log)@ == recorded(old(log)@, timing),
{
    log.push(timing);
}

/// Moves every record out of a log that the caller holds exclusively, leaving it empty.
pub fn take_all(log: &mut Vec<Timing>) -> (r: Vec<Timing>)
    ensures
        (r@, final(log)@) == drained(old(log)@),
{
    let mut out: Vec<Timing> = Vec::new();
    core::mem::swap(&mut out, log);
    out
}

/// Records that arrive one by one, each appended as `deliver` appends it on a held lock, are
/// all kept and none is kept twice, in whatever order the delivering threads reach the lock:
/// the log grows by exactly those records, after what it held before.
pub proof fn lemma_arrivals_all_kept(log: Seq<Timing>, arrivals: Seq<Timing>)
    ensures
        recorded_each(log, arrivals) == log + arrivals,
        recorded_each(log, arrivals).len() == log.len() + arrivals.len(),
        recorded_each(log, arrivals).to_multiset() == log.to_multiset().add(
            arrivals.to_multiset(),
        ),
    decreases arrivals.len(),
{
    if arrivals.len() == 0 {
        assert(log + arrivals =~= log);
    } else {
        lemma_arrivals_all_kept(recorded(log, arrivals[0]), arrivals.drop_first());
        assert(log.push(arrivals[0]) + arrivals.drop_first() =~= log + arrivals);
    }
    vstd::seq_lib::lemma_multiset_commutative(log, arrivals);
}

/// Draining twice with nothing recorded in between: the first drain hands out the whole
/// log, the second hands out nothing.
pub proof fn lemma_drain_twice(log: Seq<Timing>)
    ensures
        drained(log).0 == log,
        drained(drained(log).1).0 == Seq::<Timing>::empty(),
        drained(drained(log).1).1 == Seq::<Timing>::empty(),
{
}

/// The lock on the collector could not be taken, because an earlier holder panicked.
pub struct Poisoned;

/// The process-wide collector of records. Every thread may deliver to it at once; each
/// delivery holds the lock only long enough to append one record.
pub struct Timer {
    queue: Mutex<Vec<Timing>>,
}

impl Timer {
    /// Creates an empty collector.
    pub fn new() -> (r: Timer) {
        Timer { queue: Mutex::new(Vec::new()) }
    }

    /// Delivers one record: it is appended behind those already collected (see `deliver`).
    /// Where the lock is poisoned the record comes back unchanged in `Err`, so that the caller
    /// can report it by name and drop it; nothing panics.
    pub fn queue(&self, timing: Timing) -> (r: Result<(), Timing>)
        ensures
            r matches Err(t) ==> t == timing,
    {
        let mut outcome = self.lock();
        deliver(&mut outcome, timing)
    }

    /// Locks the log, blocking until the lock is held, for a reader to look through it.
    /// While the returned guard is alive, calling `lock`, `queue` or `drain` on this collector
    /// from the same thread deadlocks or panics: drop the guard first.
    pub fn lock(&self) -> (r: LockResult<MutexGuard<'_, Vec<Timing>>>) {
        self.queue.lock()
    }

    /// Hands out every record collected so far and empties the log, so a second drain with
    /// nothing delivered in between returns no record. `Err` where the lock is poisoned.
    pub fn drain(&self) -> (r: Result<Vec<Timing>, Poisoned>) {
        let mut outcome = self.lock();
        collect(&mut outcome)
    }
}

/// Acts on the outcome of locking the log for one delivery. With the lock held the record is
/// appended at the back of the log behind the guard, every earlier record kept in place, and
/// `Ok` comes back. With a poisoned lock the record comes back in `Err` and the outcome, log
/// included, is left as it was.
pub fn deliver(outcome: &mut LockResult<MutexGuard<'_, Vec<Timing>>>, timing: Timing) -> (r:
    Result<(), Timing>)
    ensures
        *old(outcome) matches Ok(g) ==> {
            &&& r is Ok
            &&& *final(outcome) matches Ok(h)
            &&& guarded(h) == recorded(guarded(g), timing)
        },
        (*old(outcome)) is Err ==> {
            &&& r == Err::<(), Timing>(timing)
            &&& *final(outcome) == *old(outcome)
        },
{
    match outcome {
        Ok(guard) => {
            record(log_of(guard), timing);
            Ok(())
        },
        Err(_) => Err(timing),
    }
}

/// Acts on the outcome of locking the log for a drain. With the lock held every record of the
/// log behind the guard is moved, in order, into the result and the log is left empty. With a
/// poisoned lock nothing is taken, the outcome is left as it was, and `Err` comes back.
pub fn collect(outcome: &mut LockResult<MutexGuard<'_, Vec<Timing>>>) -> (r: Result<
    Vec<Timing>,
    Poisoned,
>)
    ensures
        *old(outcome) matches Ok(g) ==> {
            &&& r is Ok
            &&& *final(outcome) matches Ok(h)
            &&& (r->Ok_0@, guarded(h)) == drained(guarded(g))
        },
        (*old(outcome)) is Err ==> {
            &&& r is Err
            &&& *final(outcome) == *old(outcome)
        },
{
    match outcome {
        Ok(guard) => Ok(take_all(log_of(guard))),
        Err(_) => Err(Poisoned),
    }
}

} // verus!
