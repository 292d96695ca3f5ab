//! The spin lock that serialises changes of the pool's thread count.

use vstd::prelude::*;

use core::sync::atomic::AtomicBool;

verus! {

/// A spin lock: one flag, set while a guard exists.
pub struct Lock {
    lock: AtomicBool,
}

/// Proof of holding the lock; dropping it releases the lock.
pub struct LockGuard<'a> {
    lock: &'a AtomicBool,
}

impl<'a> LockGuard<'a> {
    /// This guard holds `lock`.
    pub closed spec fn guards(self, lock: &Lock) -> bool {
        self.lock == &lock.lock
    }
}

impl Lock {
    /// Creates a lock that nobody holds.
    pub fn new() -> (r: Lock) {
        Lock { lock: AtomicBool::new(false) }
    }

    /// One attempt to obtain the lock: it succeeds, and hands out a guard of
    /// this lock, exactly when the lock was free at that moment.
    pub fn try_lock(&self) -> (r: Option<LockGuard<'_>>)
        ensures
            r matches Some(guard) ==> guard.guards(self),
    {
        match self.lock.compare_exchange(
            false,
            true,
            core::sync::atomic::Ordering::Acquire,
            core::sync::atomic::Ordering::Acquire,
        ) {
            Ok(_) => Some(LockGuard { lock: &self.lock }),
            Err(_) => None,
        }
    }

    /// Whether the lock looks held (a relaxed read, used to wait before the
    /// next attempt).
    pub fn is_locked(&self) -> bool {
        self.lock.load(core::sync::atomic::Ordering::Relaxed)
    }
}

/// Clears the lock flag (`AtomicBool::store` with release ordering). The
/// contract claims only that the store neither unwinds nor opens an
/// invariant: a release store cannot panic.
#[verifier::external_body]
fn unlock(flag: &AtomicBool)
    opens_invariants none
    no_unwind
{
    flag.store(false, core::sync::atomic::Ordering::Release);
}

impl<'a> Drop for LockGuard<'a> {
    fn drop(&mut self)
        opens_invariants none
        no_unwind
    {
        unlock(self.lock);
    }
}

} // verus!
