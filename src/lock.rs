//! A mutual-exclusion lock over `std::sync::Mutex` whose guard keeps a
//! reference to the lock it came from, so that a guard can be given up and
//! the same lock taken again later.

use vstd::prelude::*;

verus! {

#[verifier::external_type_specification]
#[verifier::external_body]
#[verifier::reject_recursive_types(T)]
pub struct ExStdMutex<T: ?Sized>(std::sync::Mutex<T>);

#[verifier::external_type_specification]
#[verifier::external_body]
#[verifier::reject_recursive_types(T)]
pub struct ExStdMutexGuard<'a, T: ?Sized + 'a>(std::sync::MutexGuard<'a, T>);

/// Relies on std::sync::Mutex::new: a fresh, unlocked mutex around `value`.
#[verifier::external_body]
fn new_std_mutex<T>(value: T) -> std::sync::Mutex<T> {
    std::sync::Mutex::new(value)
}

/// Relies on std::sync::Mutex::lock: blocks until the lock is free and
/// takes it. A lock poisoned by a panicking holder is taken all the same.
#[verifier::external_body]
fn acquire_std<'a, T>(m: &'a std::sync::Mutex<T>) -> std::sync::MutexGuard<'a, T> {
    match m.lock() {
        Ok(g) => g,
        Err(e) => e.into_inner(),
    }
}

/// Relies on Deref of std::sync::MutexGuard: the value under the held lock.
#[verifier::external_body]
fn guarded_ref<'b, 'a, T>(g: &'b std::sync::MutexGuard<'a, T>) -> &'b T {
    &**g
}

/// Relies on DerefMut of std::sync::MutexGuard: overwrites the value under
/// the held lock.
#[verifier::external_body]
fn guarded_store<'a, T>(g: &mut std::sync::MutexGuard<'a, T>, value: T) {
    **g = value;
}

/// Relies on dropping a std::sync::MutexGuard: the lock is released.
#[verifier::external_body]
fn release_std<'a, T>(g: std::sync::MutexGuard<'a, T>) {
    drop(g);
}

/// A mutual-exclusion lock protecting a value of type `T`.
#[verifier::reject_recursive_types(T)]
pub struct Mutex<T> {
    inner: std::sync::Mutex<T>,
}

/// Proof that the lock `lock_of()` is held; the lock is released when the
/// guard is dropped or given up with `unlock`.
#[verifier::reject_recursive_types(T)]
pub struct MutexGuard<'a, T> {
    mutex: &'a Mutex<T>,
    inner: std::sync::MutexGuard<'a, T>,
}

impl<T> Mutex<T> {
    /// An unlocked mutex holding `value`.
    pub fn new(value: T) -> (r: Mutex<T>) {
        Mutex { inner: new_std_mutex(value) }
    }

    /// Blocks until the lock is free, then takes it. The guard refers back
    /// to this very mutex.
    ///
    /// A thread that already holds this lock must not call it: the
    /// underlying `std::sync::Mutex::lock` then never returns.
    pub fn lock(&self) -> (r: MutexGuard<'_, T>)
        ensures
            r.lock_of() == self,
    {
        let inner = acquire_std(&self.inner);
        MutexGuard { mutex: self, inner }
    }
}

impl<'a, T> MutexGuard<'a, T> {
    /// The mutex whose lock this guard holds.
    pub closed spec fn lock_of(&self) -> &'a Mutex<T> {
        self.mutex
    }

    /// Gives up the guard, releasing the lock, and hands back the mutex it
    /// came from so that the lock can be taken again.
    pub(crate) fn unlock(self) -> (r: &'a Mutex<T>)
        ensures
            r == self.lock_of(),
    {
        let mutex = self.mutex;
        release_std(self.inner);
        mutex
    }

    /// The protected value.
    pub fn get(&self) -> &T {
        guarded_ref(&self.inner)
    }

    /// Replaces the protected value by `value`, keeping the lock.
    pub fn set(&mut self, value: T)
        ensures
            final(self).lock_of() == old(self).lock_of(),
    {
        guarded_store(&mut self.inner, value);
    }
}

} // verus!
