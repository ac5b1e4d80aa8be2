//! A mutual-exclusion cell for a kernel without a scheduler.
//!
//! The value lives in the lock while it is free. Acquiring the lock moves the
//! value into a [`Guard`], the one handle that grants access to it; releasing
//! moves it back. "Locked" is therefore exactly "the value is out in a guard",
//! and at most one guard per lock can exist. A context that waits for a lock
//! it holds itself would spin forever, so `lock` asks for a free lock, while
//! `try_lock` may be called on any.
//!
//! Releasing is explicit: a guard goes back through [`SpinLock::unlock`].
//! Verus has no destructors, so a guard that is dropped instead leaves its
//! lock held for good, as a leaked guard would.
use vstd::prelude::*;

verus! {

/// A lock around a value of type `T`.
pub struct SpinLock<T> {
    value: Option<T>,
}

/// Exclusive access to the value of a held [`SpinLock`]. It is not `Clone`;
/// handing it to [`SpinLock::unlock`] releases the lock.
pub struct Guard<T> {
    value: T,
}

impl<T> View for Guard<T> {
    type V = T;

    closed spec fn view(&self) -> T {
        self.value
    }
}

impl<T> Guard<T> {
    /// Shared access to the protected value.
    pub fn get(&self) -> (r: &T)
        ensures
            *r == self@,
    {
        &self.value
    }

    /// Mutable access to the protected value.
    pub fn get_mut(&mut self) -> (r: &mut T)
        ensures
            *r == old(self)@,
            final(self)@ == *final(r),
    {
        &mut self.value
    }
}

impl<T> SpinLock<T> {
    /// The lock is held: its value is out in a guard.
    pub closed spec fn held(&self) -> bool {
        self.value is None
    }

    /// The protected value of a free lock.
    pub closed spec fn inner(&self) -> T
        recommends
            !self.held(),
    {
        self.value->Some_0
    }

    /// A free lock around `value`.
    pub fn new(value: T) -> (s: Self)
        ensures
            !s.held(),
            s.inner() == value,
    {
        SpinLock { value: Some(value) }
    }

    /// Acquires the lock and returns the guard of its value.
    ///
    /// A context that acquires a lock it already holds spins forever, so the
    /// lock must be free here.
    pub fn lock(&mut self) -> (g: Guard<T>)
        requires
            !old(self).held(),
        ensures
            final(self).held(),
            g@ == old(self).inner(),
    {
        let value = self.value.take().unwrap();
        Guard { value }
    }

    /// Acquires the lock if it is free; a held lock gives `None` and is left
    /// as it was.
    pub fn try_lock(&mut self) -> (r: Option<Guard<T>>)
        ensures
            old(self).held() ==> r is None && *final(self) == *old(self),
            !old(self).held() ==> r is Some && final(self).held() && r->Some_0@
                == old(self).inner(),
    {
        match self.value.take() {
            Some(value) => Some(Guard { value }),
            None => None,
        }
    }

    /// Direct access to the value of a free lock, which needs no guard since
    /// `&mut self` is already exclusive.
    pub fn get_mut(&mut self) -> (r: &mut T)
        requires
            !old(self).held(),
        ensures
            *r == old(self).inner(),
            !final(self).held(),
            final(self).inner() == *final(r),
    {
        self.value.as_mut().unwrap()
    }

    /// Releases the lock, storing back the value of its guard.
    pub fn unlock(&mut self, guard: Guard<T>)
        requires
            old(self).held(),
        ensures
            !final(self).held(),
            final(self).inner() == guard@,
    {
        self.value = Some(guard.value);
    }

    /// Whether the lock is held.
    pub fn is_locked(&self) -> (r: bool)
        ensures
            r == self.held(),
    {
        self.value.is_none()
    }

    /// Consumes a free lock and returns its value.
    pub fn into_inner(self) -> (r: T)
        requires
            !self.held(),
        ensures
            r == self.inner(),
    {
        self.value.unwrap()
    }
}

} // verus!
