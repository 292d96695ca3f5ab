use slave_pool::spin::Lock;

#[test]
fn lock_is_exclusive_until_guard_dropped() {
    let lock = Lock::new();
    assert!(!lock.is_locked());
    let guard = lock.try_lock();
    assert!(guard.is_some());
    assert!(lock.is_locked());
    assert!(lock.try_lock().is_none());
    drop(guard);
    assert!(!lock.is_locked());
    let again = lock.try_lock();
    assert!(again.is_some());
}
