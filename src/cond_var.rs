//! The condition variable.

use crate::lock::MutexGuard;
use crate::protocol::{advance, ProtocolState, Step};
use std::sync::atomic::Ordering;
use std::sync::atomic::{AtomicU32, AtomicUsize};
use vstd::prelude::*;

verus! {

/// Relies on atomic_wait::wait: blocks the calling thread while `atomic`
/// still holds `value`, returning at once if it differs; it may also return
/// without any wake.
#[verifier::external_body]
fn block_while_equal(atomic: &AtomicU32, value: u32) {
    atomic_wait::wait(atomic, value)
}

/// Relies on atomic_wait::wake_one: unblocks one thread waiting on `atomic`,
/// if there is one.
#[verifier::external_body]
fn wake_one_on(atomic: &AtomicU32) {
    atomic_wait::wake_one(atomic)
}

/// Relies on atomic_wait::wake_all: unblocks every thread waiting on
/// `atomic`.
#[verifier::external_body]
fn wake_all_on(atomic: &AtomicU32) {
    atomic_wait::wake_all(atomic)
}

/// Whether a notification that read `num_waiters` from the waiter count
/// goes on to advance the generation and wake. This is the decision of the
/// steps `Step::NotifyOne` and `Step::NotifyAll` of the model: with no
/// waiter they leave every state as it was, and otherwise they advance the
/// generation by exactly one, wrapping at 2^32.
pub fn notify_needed(num_waiters: usize) -> (r: bool)
    ensures
        r == (num_waiters > 0),
        forall|s: ProtocolState, pick: int|
            #![trigger s.next(Step::NotifyOne(pick))]
            s.num_waiters == num_waiters ==> if r {
                &&& s.next(Step::NotifyOne(pick)).counter == advance(s.counter)
                &&& s.next(Step::NotifyAll).counter == advance(s.counter)
            } else {
                &&& s.next(Step::NotifyOne(pick)) == s
                &&& s.next(Step::NotifyAll) == s
            },
{
    num_waiters > 0
}

/// A condition variable: threads holding a lock wait on it, giving up the
/// lock while they are blocked, until another thread notifies it.
pub struct Condvar {
    /// Generation number, advanced by each notification that has waiters
    /// to wake; wraps around.
    counter: AtomicU32,
    /// Number of threads inside `wait`; only used to skip needless wakes.
    num_waiters: AtomicUsize,
}

impl Condvar {
    /// A condition variable with no waiters, at generation zero.
    pub fn new() -> (r: Condvar) {
        Condvar { counter: AtomicU32::new(0), num_waiters: AtomicUsize::new(0) }
    }

    /// Wakes at most one thread blocked in `wait`. Does nothing when no
    /// thread is waiting.
    ///
    /// This is the model's step `Step::NotifyOne`: the decision is
    /// `notify_needed`, and `fetch_add` of one on the counter, which wraps,
    /// is `advance`.
    pub fn notify_one(&self) {
        if notify_needed(self.num_waiters.load(Ordering::Relaxed)) {
            self.counter.fetch_add(1, Ordering::Relaxed);
            wake_one_on(&self.counter);
        }
    }

    /// Wakes every thread blocked in `wait`. Does nothing when no thread is
    /// waiting.
    ///
    /// This is the model's step `Step::NotifyAll`, decided by
    /// `notify_needed` as for `notify_one`.
    pub fn notify_all(&self) {
        if notify_needed(self.num_waiters.load(Ordering::Relaxed)) {
            self.counter.fetch_add(1, Ordering::Relaxed);
            wake_all_on(&self.counter);
        }
    }

    /// Releases the lock held by `guard`, blocks until notified (or woken
    /// spuriously), then takes the same lock again and returns its guard.
    ///
    /// In the model this is `Step::BeginWait` (count, snapshot, release),
    /// then `Step::Block`, where the wait primitive compares the counter
    /// with the snapshot, then `Step::FinishWait` once it returns, and
    /// `Step::Acquire` in `Mutex::lock`.
    pub fn wait<'a, T>(&self, guard: MutexGuard<'a, T>) -> (r: MutexGuard<'a, T>)
        ensures
            r.lock_of() == guard.lock_of(),
    {
        self.num_waiters.fetch_add(1, Ordering::Relaxed);
        let counter_value = self.counter.load(Ordering::Relaxed);

        let mutex = guard.unlock();

        block_while_equal(&self.counter, counter_value);

        self.num_waiters.fetch_sub(1, Ordering::Relaxed);

        mutex.lock()
    }
}

} // verus!
