//! A model of the wait/notify handshake as a state machine over every
//! thread that uses one condition variable and the mutex that goes with it.
//!
//! Each step is one action of `Condvar::wait`, `Condvar::notify_one`,
//! `Condvar::notify_all`, `Mutex::lock` or the release of a guard. Threads
//! are named by integers. The laws below are proved over all states that
//! satisfy `ProtocolState::inv`, which every step preserves.
//!
//! Steps are taken one at a time, so the model reads the atomics as if
//! sequentially consistent. Two steps stand for several actions of the
//! code: `BeginWait` for the first three of `wait` (see there), and a
//! notification's check of the waiter count, advance of the generation and
//! wake for one step `NotifyOne` or `NotifyAll`.

use vstd::prelude::*;

verus! {

/// Where one thread stands with respect to the condition variable.
pub enum Phase {
    /// Outside `wait`; it holds the lock exactly when it is the holder.
    Running,
    /// Inside `wait`: counted as a waiter, generation read, lock released.
    Registered { snapshot: u32 },
    /// Inside the wait primitive, asleep on the generation `snapshot`.
    Blocked { snapshot: u32 },
    /// Back from the wait primitive, for whatever reason.
    Woken,
    /// No longer counted as a waiter; taking the lock again.
    Reacquiring,
}

impl Phase {
    /// Counted in the waiter count.
    pub open spec fn is_waiting(self) -> bool {
        self is Registered || self is Blocked || self is Woken
    }
}

/// The shared state of one condition variable and its mutex.
pub struct ProtocolState {
    /// The generation counter.
    pub counter: u32,
    /// The waiter count.
    pub num_waiters: nat,
    /// The threads that the waiter count counts.
    pub waiting: Set<int>,
    /// The phase of each thread taking part.
    pub phases: Map<int, Phase>,
    /// The thread that holds the lock, if any.
    pub holder: Option<int>,
}

/// One atomic action of one thread.
pub enum Step {
    /// `Mutex::lock` succeeds for the thread.
    Acquire(int),
    /// The thread drops its guard.
    Release(int),
    /// `wait`: count the thread, read the generation, release the lock.
    ///
    /// The code takes these as three actions; the model folds them into
    /// one. Nothing is lost by that: the waiter still holds the lock until
    /// the release, and a notification that lands between the count and
    /// the read of the generation comes before the snapshot, so the waiter
    /// reads the generation it produced, exactly as if the notification had
    /// come before the whole step.
    BeginWait(int),
    /// `wait`: the wait primitive compares the generation with the snapshot.
    Block(int),
    /// The wait primitive returns without a wake.
    SpuriousWake(int),
    /// `wait`: the thread stops counting itself as a waiter.
    FinishWait(int),
    /// `notify_one`, whose wake reaches the given thread if it is blocked.
    NotifyOne(int),
    /// `notify_all`.
    NotifyAll,
}

/// The generation that follows `c`, wrapping around at 2^32.
pub open spec fn advance(c: u32) -> u32 {
    if c == 0xffff_ffff {
        0
    } else {
        (c + 1) as u32
    }
}

impl ProtocolState {
    /// A fresh condition variable, an unlocked mutex, and the threads `ts`,
    /// none of them waiting.
    pub open spec fn initial(ts: Set<int>) -> ProtocolState {
        ProtocolState {
            counter: 0,
            num_waiters: 0,
            waiting: Set::empty(),
            phases: Map::new(|t: int| ts.contains(t), |t: int| Phase::Running),
            holder: None,
        }
    }

    /// The thread `t` is inside `wait` and counted as a waiter.
    pub open spec fn phase_is_waiting(self, t: int) -> bool {
        self.phases.contains_key(t) && self.phases[t].is_waiting()
    }

    /// The thread `t` is asleep in the wait primitive.
    pub open spec fn is_blocked(self, t: int) -> bool {
        self.phases.contains_key(t) && self.phases[t] is Blocked
    }

    /// The waiter count is the number of threads inside `wait` that have
    /// not yet left it, and only a running thread can hold the lock.
    pub open spec fn inv(self) -> bool {
        &&& self.waiting.finite()
        &&& self.num_waiters == self.waiting.len()
        &&& forall|t: int| #[trigger]
            self.waiting.contains(t) <==> self.phase_is_waiting(t)
        &&& self.holder matches Some(h) ==> self.phases.contains_key(h)
            && self.phases[h] is Running
    }

    /// Whether `step` can be taken now.
    pub open spec fn enabled(self, step: Step) -> bool {
        match step {
            Step::Acquire(t) => self.holder is None && self.phases.contains_key(t) && (
            self.phases[t] is Running || self.phases[t] is Reacquiring),
            Step::Release(t) => self.holder == Some(t),
            Step::BeginWait(t) => self.holder == Some(t),
            Step::Block(t) => self.phases.contains_key(t) && self.phases[t] is Registered,
            Step::SpuriousWake(t) => self.is_blocked(t),
            Step::FinishWait(t) => self.phases.contains_key(t) && self.phases[t] is Woken,
            Step::NotifyOne(t) => self.is_blocked(t) || !(exists|u: int|
                #[trigger] self.is_blocked(u)),
            Step::NotifyAll => true,
        }
    }

    /// The state after `step`.
    pub open spec fn next(self, step: Step) -> ProtocolState {
        match step {
            Step::Acquire(t) => ProtocolState {
                holder: Some(t),
                phases: self.phases.insert(t, Phase::Running),
                ..self
            },
            Step::Release(t) => ProtocolState { holder: None, ..self },
            Step::BeginWait(t) => ProtocolState {
                num_waiters: self.num_waiters + 1,
                waiting: self.waiting.insert(t),
                phases: self.phases.insert(t, Phase::Registered { snapshot: self.counter }),
                holder: None,
                ..self
            },
            Step::Block(t) => {
                let snapshot = self.phases[t]->Registered_snapshot;
                let p = if self.counter == snapshot {
                    Phase::Blocked { snapshot }
                } else {
                    Phase::Woken
                };
                ProtocolState { phases: self.phases.insert(t, p), ..self }
            },
            Step::SpuriousWake(t) => ProtocolState {
                phases: self.phases.insert(t, Phase::Woken),
                ..self
            },
            Step::FinishWait(t) => ProtocolState {
                num_waiters: (self.num_waiters - 1) as nat,
                waiting: self.waiting.remove(t),
                phases: self.phases.insert(t, Phase::Reacquiring),
                ..self
            },
            Step::NotifyOne(t) => if self.num_waiters > 0 {
                ProtocolState {
                    counter: advance(self.counter),
                    phases: if self.is_blocked(t) {
                        self.phases.insert(t, Phase::Woken)
                    } else {
                        self.phases
                    },
                    ..self
                }
            } else {
                self
            },
            Step::NotifyAll => if self.num_waiters > 0 {
                ProtocolState {
                    counter: advance(self.counter),
                    phases: Map::new(
                        |u: int| self.phases.contains_key(u),
                        |u: int|
                            if self.phases[u] is Blocked {
                                Phase::Woken
                            } else {
                                self.phases[u]
                            },
                    ),
                    ..self
                }
            } else {
                self
            },
        }
    }
}

/// The initial state satisfies the invariant.
pub proof fn lemma_initial_inv(ts: Set<int>)
    ensures
        ProtocolState::initial(ts).inv(),
{
}

/// The waiting set still names exactly the waiting threads after a step
/// that changes at most the thread `t`'s membership and waiting status.
proof fn lemma_waiting_set_kept(s: ProtocolState, s2: ProtocolState, t: int)
    requires
        s.inv(),
        forall|u: int|
            u != t ==> (#[trigger] s2.waiting.contains(u) == s.waiting.contains(u)
                && s2.phase_is_waiting(u) == s.phase_is_waiting(u)),
        s2.waiting.contains(t) <==> s2.phase_is_waiting(t),
    ensures
        forall|u: int| #[trigger] s2.waiting.contains(u) <==> s2.phase_is_waiting(u),
{
    assert forall|u: int| #[trigger] s2.waiting.contains(u) <==> s2.phase_is_waiting(u) by {
        if u != t {
            assert(s2.waiting.contains(u) == s.waiting.contains(u));
        }
    }
}

/// Every enabled step preserves the invariant: the waiter count stays
/// exact, and the lock is only ever held by one running thread.
pub proof fn lemma_step_preserves_inv(s: ProtocolState, step: Step)
    requires
        s.inv(),
        s.enabled(step),
    ensures
        s.next(step).inv(),
{
    let s2 = s.next(step);
    match step {
        Step::BeginWait(t) => lemma_waiting_set_kept(s, s2, t),
        Step::FinishWait(t) => lemma_waiting_set_kept(s, s2, t),
        Step::Acquire(t) => lemma_waiting_set_kept(s, s2, t),
        Step::Block(t) => lemma_waiting_set_kept(s, s2, t),
        Step::SpuriousWake(t) => lemma_waiting_set_kept(s, s2, t),
        Step::NotifyOne(t) => lemma_waiting_set_kept(s, s2, t),
        Step::NotifyAll => lemma_waiting_set_kept(s, s2, 0),
        Step::Release(t) => {},
    }
}

/// A generation never equals the one it was advanced from.
pub proof fn lemma_advance_changes(c: u32)
    ensures
        advance(c) != c,
{
}

/// The generation after `k` notifications starting from `c`.
pub open spec fn advance_by(c: u32, k: nat) -> u32
    decreases k,
{
    if k == 0 {
        c
    } else {
        advance(advance_by(c, (k - 1) as nat))
    }
}

/// `k` notifications add `k` to the generation, modulo 2^32.
pub proof fn lemma_advance_by(c: u32, k: nat)
    ensures
        advance_by(c, k) as int == (c + k) % 0x1_0000_0000,
    decreases k,
{
    if k > 0 {
        lemma_advance_by(c, (k - 1) as nat);
        let p = advance_by(c, (k - 1) as nat);
        assert(advance(p) as int == (p + 1) % 0x1_0000_0000);
        vstd::arithmetic::div_mod::lemma_add_mod_noop(c + (k - 1), 1, 0x1_0000_0000);
        vstd::arithmetic::div_mod::lemma_small_mod(1, 0x1_0000_0000);
    }
}

/// A waiter's snapshot differs from the generation after any number of
/// notifications, from one up to 2^32 - 1: wrapping around cannot hide them.
pub proof fn lemma_generation_changes(c: u32, k: nat)
    requires
        0 < k < 0x1_0000_0000,
    ensures
        advance_by(c, k) != c,
{
    lemma_advance_by(c, k);
    if c + k < 0x1_0000_0000 {
        vstd::arithmetic::div_mod::lemma_small_mod((c + k) as nat, 0x1_0000_0000);
    } else {
        vstd::arithmetic::div_mod::lemma_mod_sub_multiples_vanish((c + k) as int, 0x1_0000_0000);
        vstd::arithmetic::div_mod::lemma_small_mod((c + k - 0x1_0000_0000) as nat, 0x1_0000_0000);
    }
}

/// No wakeup is missed: once a waiter has read the generation (and no
/// notification has come since), the next notification either wakes it
/// if it is already blocked or keeps it from blocking at all. A waiter
/// that is alone in the wait primitive is woken by `notify_one` too.
pub proof fn lemma_no_missed_wakeup(s: ProtocolState, t: int, pick: int)
    requires
        s.inv(),
        s.phases.contains_key(t),
        s.phases[t] == (Phase::Registered { snapshot: s.counter }) || s.phases[t] is Blocked,
        s.enabled(Step::NotifyOne(pick)),
    ensures
        s.phases[t] is Registered ==> s.next(Step::NotifyAll).next(Step::Block(t)).phases[t] is Woken,
        s.phases[t] is Blocked ==> s.next(Step::NotifyAll).phases[t] is Woken,
        s.phases[t] is Registered ==> s.next(Step::NotifyOne(pick)).next(
            Step::Block(t),
        ).phases[t] is Woken,
        s.phases[t] is Blocked ==> s.is_blocked(pick) && s.next(Step::NotifyOne(pick)).phases[pick] is Woken,
        (s.phases[t] is Blocked && forall|u: int| #[trigger] s.is_blocked(u) ==> u == t) ==> s.next(
            Step::NotifyOne(pick),
        ).phases[t] is Woken,
{
    assert(s.waiting.contains(t));
    assert(s.num_waiters > 0);
    lemma_advance_changes(s.counter);
    if s.phases[t] is Blocked {
        assert(s.is_blocked(t));
    }
}

/// A waiter that has read the generation and was passed by one or more
/// notifications (fewer than 2^32) before reaching the wait primitive does
/// not go to sleep.
pub proof fn lemma_late_waiter_not_blocked(s: ProtocolState, t: int, k: nat)
    requires
        s.inv(),
        s.phases.contains_key(t),
        s.phases[t] is Registered,
        s.counter == advance_by(s.phases[t]->Registered_snapshot, k),
        0 < k < 0x1_0000_0000,
    ensures
        s.next(Step::Block(t)).phases[t] is Woken,
{
    lemma_generation_changes(s.phases[t]->Registered_snapshot, k);
}

/// Mutual exclusion: the lock is taken only when it is free, and then
/// exactly the taking thread holds it and is running; a thread that
/// returns from `wait` returns holding the lock.
pub proof fn lemma_lock_exclusive(s: ProtocolState, t: int)
    requires
        s.inv(),
        s.enabled(Step::Acquire(t)),
    ensures
        s.holder is None,
        s.next(Step::Acquire(t)).holder == Some(t),
        s.next(Step::Acquire(t)).phases[t] is Running,
        s.next(Step::Acquire(t)).inv(),
        forall|u: int| u != t ==> !#[trigger] s.next(Step::Acquire(t)).enabled(Step::Acquire(u)),
{
    lemma_step_preserves_inv(s, Step::Acquire(t));
}

/// The lock is free while a thread waits: a thread inside `wait` never
/// holds the lock, and right after a thread begins to wait any other
/// thread that wants the lock can take it.
pub proof fn lemma_lock_released_while_waiting(s: ProtocolState, t: int, u: int)
    requires
        s.inv(),
        s.enabled(Step::BeginWait(t)),
        s.phases.contains_key(u),
        u != t,
        s.phases[u] is Running || s.phases[u] is Reacquiring,
    ensures
        s.next(Step::BeginWait(t)).enabled(Step::Acquire(u)),
        s.next(Step::BeginWait(t)).phase_is_waiting(t),
        forall|w: int| #[trigger] s.phase_is_waiting(w) ==> s.holder != Some(w),
{
}

/// A wait primitive that returns without a wake changes neither the
/// generation nor the waiter count, so a waiter that then waits again is
/// still reached by later notifications.
pub proof fn lemma_spurious_wake_harmless(s: ProtocolState, t: int)
    requires
        s.inv(),
        s.enabled(Step::SpuriousWake(t)),
    ensures
        s.next(Step::SpuriousWake(t)).inv(),
        s.next(Step::SpuriousWake(t)).counter == s.counter,
        s.next(Step::SpuriousWake(t)).num_waiters == s.num_waiters,
        s.next(Step::SpuriousWake(t)).phases[t] is Woken,
{
    lemma_step_preserves_inv(s, Step::SpuriousWake(t));
}

/// A notification with no thread waiting changes nothing at all.
pub proof fn lemma_notify_without_waiters(s: ProtocolState, pick: int)
    requires
        s.inv(),
        s.num_waiters == 0,
    ensures
        s.next(Step::NotifyOne(pick)) == s,
        s.next(Step::NotifyAll) == s,
{
}

} // verus!
