use condvar::{notify_needed, Condvar, Mutex};

#[test]
fn notify_without_waiters_does_nothing() {
    let condvar = Condvar::new();
    condvar.notify_one();
    condvar.notify_all();
    condvar.notify_one();
    condvar.notify_all();

    // The lock that goes with it is untouched and still usable.
    let mutex = Mutex::new(1u32);
    let mut g = mutex.lock();
    condvar.notify_one();
    g.set(2);
    condvar.notify_all();
    assert_eq!(*g.get(), 2);
}

#[test]
fn notify_wakes_only_with_waiters() {
    assert!(!notify_needed(0));
    assert!(notify_needed(1));
    assert!(notify_needed(7));
    assert!(notify_needed(usize::MAX));
}

#[test]
fn dropping_the_guard_releases_the_lock() {
    let mutex = Mutex::new(vec![1, 2, 3]);
    {
        let mut g = mutex.lock();
        assert_eq!(g.get().len(), 3);
        g.set(vec![4]);
    }
    let g = mutex.lock();
    assert_eq!(*g.get(), vec![4]);
}

#[test]
fn set_overwrites_the_value() {
    let mutex = Mutex::new(0i64);
    let mut g = mutex.lock();
    g.set(123);
    assert_eq!(*g.get(), 123);
    g.set(-1);
    assert_eq!(*g.get(), -1);
}
