//! The shared storage primitive: a reference-counted allocation holding a
//! mutual-exclusion lock around a content slot.
//!
//! This module is the trusted boundary of the crate. Everything above it
//! (the strong and weak handle types) is verified against the contracts
//! stated here. The contracts deliberately say nothing about *which* value
//! the lock guards at any moment: any other handle to the same storage may
//! change the content between two calls, so each operation's contract only
//! relates its result to the content the lock handed it, through the
//! existentially quantified borrow of that content.

use std::sync::Arc;
use std::sync::Mutex;
use std::sync::Weak;
use vstd::prelude::*;

verus! {

/// A strong, owning handle to a shared storage allocation. The allocation
/// holds a mutual-exclusion lock around one content slot of type `T` and is
/// freed when the last strong handle is dropped, regardless of outstanding
/// weak handles.
#[derive(Debug)]
#[verifier::external_body]
#[verifier::reject_recursive_types(T)]
pub struct Storage<T> {
    inner: Arc<Mutex<T>>,
}

/// A non-owning observer of a storage allocation. It never keeps the
/// allocation alive; each access must first reacquire a strong handle.
#[derive(Debug)]
#[verifier::external_body]
#[verifier::reject_recursive_types(T)]
pub struct WeakStorage<T> {
    inner: Weak<Mutex<T>>,
}

impl<T> Storage<T> {
    /// Relies on `Arc::new` and `Mutex::new`: allocates fresh storage whose
    /// slot holds `value`, with an ownership count of one.
    #[verifier::external_body]
    pub fn new(value: T) -> (s: Storage<T>) {
        Storage { inner: Arc::new(Mutex::new(value)) }
    }

    /// Relies on `Arc::clone`: returns a second strong handle to the same
    /// allocation, incrementing the ownership count. The content is shared,
    /// not copied.
    #[verifier::external_body]
    pub fn share(&self) -> (s: Storage<T>) {
        Storage { inner: Arc::clone(&self.inner) }
    }

    /// Relies on `Arc::downgrade`: returns a non-owning observer of the same
    /// allocation. The ownership count is unchanged.
    #[verifier::external_body]
    pub fn observe(&self) -> (w: WeakStorage<T>) {
        WeakStorage { inner: Arc::downgrade(&self.inner) }
    }

    /// Relies on `Mutex::lock` and `PoisonError::into_inner`: acquires the
    /// lock, discarding a poison marker left behind by a panicked holder,
    /// applies `f` once to the guarded content in place, and releases the
    /// lock. The critical section is exactly the call of `f`.
    ///
    /// The content found under the lock is arbitrary (any handle may have
    /// changed it), so `f` must be callable on every value of `T`, and all
    /// that is promised is that some borrow of the content, together with the
    /// returned result, satisfies `f`'s postcondition.
    ///
    /// A panic inside `f` propagates to the caller; the lock is then marked
    /// poisoned, and the next acquisition, by any handle, clears the marker
    /// and finds whatever content the panicking `f` left behind.
    #[verifier::external_body]
    pub fn apply<R, F: FnOnce(&mut T) -> R>(&self, f: F) -> (r: R)
        requires
            forall|m: &mut T| call_requires(f, (m,)),
        ensures
            exists|m: &mut T| #[trigger] call_ensures(f, (m,), r),
    {
        let mut guard = self.inner.lock().unwrap_or_else(|poisoned| poisoned.into_inner());
        f(&mut *guard)
    }
}

impl<T> WeakStorage<T> {
    /// Relies on `Weak::upgrade`: returns a strong handle to the allocation
    /// if its ownership count is still positive, and `None` once the last
    /// strong handle has been dropped.
    #[verifier::external_body]
    pub fn acquire(&self) -> (s: Option<Storage<T>>) {
        self.inner.upgrade().map(|inner| Storage { inner })
    }
}

} // verus!
