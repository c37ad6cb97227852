//! Synchronization primitives that keep code in an interrupt and normal code from using the
//! same data at once.
//!
//! These primitives do not block: taking a lock that is already held fails.
use vstd::prelude::*;

verus! {

/// A mutex that prevents code from running in both an IRQ and normal code at the same time.
///
/// Note that this does not support blocking like a typical mutex, and instead mainly exists for
/// memory safety reasons.
pub struct RawMutex {
    locked: bool,
}

/// A token representing an active lock on a [`RawMutex`].
///
/// It is handed back to [`RawMutex::unlock`] to release the lock.
pub struct RawMutexGuard {
    _private: (),
}

impl RawMutex {
    /// Whether the mutex is currently locked.
    pub closed spec fn is_locked(&self) -> bool {
        self.locked
    }

    /// Creates a new lock.
    pub fn new() -> (r: Self)
        ensures
            !r.is_locked(),
    {
        RawMutex { locked: false }
    }

    /// Locks the mutex and returns whether a lock was successfully acquired.
    fn raw_lock(&mut self) -> (r: bool)
        ensures
            r == !old(self).is_locked(),
            final(self).is_locked(),
    {
        let was_locked = self.locked;
        self.locked = true;
        !was_locked
    }

    /// Unlocks the mutex.
    fn raw_unlock(&mut self)
        requires
            old(self).is_locked(),
        ensures
            !final(self).is_locked(),
    {
        self.locked = false;
    }

    /// Returns whether the mutex is currently locked.
    pub fn locked(&self) -> (r: bool)
        ensures
            r == self.is_locked(),
    {
        self.locked
    }

    /// Returns a guard for this lock. The lock must not already be held.
    pub fn lock(&mut self) -> (r: RawMutexGuard)
        requires
            !old(self).is_locked(),
        ensures
            final(self).is_locked(),
    {
        self.raw_lock();
        RawMutexGuard { _private: () }
    }

    /// Returns a guard for this lock, or `None` if there is another lock active.
    pub fn try_lock(&mut self) -> (r: Option<RawMutexGuard>)
        ensures
            r.is_some() == !old(self).is_locked(),
            final(self).is_locked(),
    {
        if self.raw_lock() {
            Some(RawMutexGuard { _private: () })
        } else {
            None
        }
    }

    /// Releases the lock a guard stands for.
    pub fn unlock(&mut self, guard: RawMutexGuard)
        requires
            old(self).is_locked(),
        ensures
            !final(self).is_locked(),
    {
        self.raw_unlock();
    }
}

/// The locks of the four numbered units of one kind of hardware (DMA channels, timers), one
/// lock per unit: a unit is controlled by one object at a time.
pub struct LockSet {
    l0: RawMutex,
    l1: RawMutex,
    l2: RawMutex,
    l3: RawMutex,
}

impl LockSet {
    /// Whether the lock of unit `i` is held.
    pub closed spec fn is_locked(&self, i: int) -> bool {
        if i == 0 {
            self.l0.is_locked()
        } else if i == 1 {
            self.l1.is_locked()
        } else if i == 2 {
            self.l2.is_locked()
        } else {
            self.l3.is_locked()
        }
    }

    /// Whether two lock sets differ at most in the lock of unit `i`.
    pub open spec fn same_except(&self, other: &LockSet, i: int) -> bool {
        forall|j: int| 0 <= j < 4 && j != i ==> #[trigger] self.is_locked(j) == other.is_locked(j)
    }

    /// Four free locks.
    pub fn new() -> (r: Self)
        ensures
            forall|i: int| 0 <= i < 4 ==> !#[trigger] r.is_locked(i),
    {
        LockSet { l0: RawMutex::new(), l1: RawMutex::new(), l2: RawMutex::new(), l3: RawMutex::new() }
    }

    /// Whether the lock of unit `i` is held.
    pub fn locked(&self, i: usize) -> (r: bool)
        requires
            i < 4,
        ensures
            r == self.is_locked(i as int),
    {
        match i {
            0 => self.l0.locked(),
            1 => self.l1.locked(),
            2 => self.l2.locked(),
            _ => self.l3.locked(),
        }
    }

    /// Takes the lock of unit `i`, which must be free; the other locks stay as they are.
    pub fn lock(&mut self, i: usize) -> (r: RawMutexGuard)
        requires
            i < 4,
            !old(self).is_locked(i as int),
        ensures
            final(self).is_locked(i as int),
            final(self).same_except(old(self), i as int),
    {
        match i {
            0 => self.l0.lock(),
            1 => self.l1.lock(),
            2 => self.l2.lock(),
            _ => self.l3.lock(),
        }
    }

    /// Releases the lock of unit `i`, which a guard stands for; the other locks stay as they
    /// are.
    pub fn unlock(&mut self, i: usize, guard: RawMutexGuard)
        requires
            i < 4,
            old(self).is_locked(i as int),
        ensures
            !final(self).is_locked(i as int),
            final(self).same_except(old(self), i as int),
    {
        match i {
            0 => self.l0.unlock(guard),
            1 => self.l1.unlock(guard),
            2 => self.l2.unlock(guard),
            _ => self.l3.unlock(guard),
        }
    }
}

/// A mutex that protects an object from being accessed in both an IRQ and normal code at once.
///
/// While the mutex is locked, the protected value lives in the [`MutexGuard`].
pub struct Mutex<T> {
    raw: RawMutex,
    data: Option<T>,
}

/// A guard representing an active lock on a [`Mutex`]; it holds the protected value.
pub struct MutexGuard<T> {
    value: T,
}

impl<T> MutexGuard<T> {
    /// The protected value.
    pub closed spec fn value(&self) -> T {
        self.value
    }

    /// A reference to the protected value.
    pub fn get(&self) -> (r: &T)
        ensures
            *r == self.value(),
    {
        &self.value
    }

    /// Replaces the protected value.
    pub fn set(&mut self, value: T)
        ensures
            final(self).value() == value,
    {
        self.value = value;
    }
}

impl<T> Mutex<T> {
    /// Whether the mutex is currently locked.
    pub closed spec fn is_locked(&self) -> bool {
        self.raw.is_locked()
    }

    /// The protected value while the mutex is unlocked.
    pub closed spec fn value(&self) -> Option<T> {
        self.data
    }

    /// The mutex's data is present exactly while it is unlocked.
    pub closed spec fn wf(&self) -> bool {
        self.raw.is_locked() == self.data.is_none()
    }

    /// Creates a new lock containing a given value.
    pub fn new(t: T) -> (r: Self)
        ensures
            r.wf(),
            !r.is_locked(),
            r.value() == Some(t),
    {
        Mutex { raw: RawMutex::new(), data: Some(t) }
    }

    /// Returns a guard for this lock. The lock must not already be held.
    pub fn lock(&mut self) -> (r: MutexGuard<T>)
        requires
            old(self).wf(),
            !old(self).is_locked(),
        ensures
            final(self).wf(),
            final(self).is_locked(),
            Some(r.value()) == old(self).value(),
    {
        self.try_lock().unwrap()
    }

    /// Returns a guard for this lock or `None` if there is another lock active.
    pub fn try_lock(&mut self) -> (r: Option<MutexGuard<T>>)
        requires
            old(self).wf(),
        ensures
            final(self).wf(),
            final(self).is_locked(),
            r.is_some() == !old(self).is_locked(),
            r matches Some(g) ==> Some(g.value()) == old(self).value(),
    {
        if self.raw.raw_lock() {
            let data = self.data.take();
            match data {
                Some(value) => Some(MutexGuard { value }),
                None => {
                    proof {
                        assert(false);
                    }
                    None
                },
            }
        } else {
            None
        }
    }

    /// Releases the lock, putting the guard's value back into the mutex.
    pub fn unlock(&mut self, guard: MutexGuard<T>)
        requires
            old(self).wf(),
            old(self).is_locked(),
        ensures
            final(self).wf(),
            !final(self).is_locked(),
            final(self).value() == Some(guard.value()),
    {
        self.data = Some(guard.value);
        self.raw.raw_unlock();
    }
}

/// A helper type that ensures a particular value is only initialized once.
pub struct InitOnce<T> {
    value: Option<T>,
}

impl<T> InitOnce<T> {
    /// The value, once initialized.
    pub closed spec fn value(&self) -> Option<T> {
        self.value
    }

    /// Creates a new uninitialized object.
    pub fn new() -> (r: Self)
        ensures
            r.value() is None,
    {
        InitOnce { value: None }
    }

    /// Returns whether the contents of the cell have already been initialized.
    pub fn is_initialized(&self) -> (r: bool)
        ensures
            r == self.value().is_some(),
    {
        self.value.is_some()
    }

    /// Gets the contents of this state, or initializes it if it has not already been
    /// initialized.
    ///
    /// The initializer function is only called if the value is not yet initialized.
    pub fn get<F: FnOnce() -> T>(&mut self, initializer: F) -> (r: &T)
        requires
            old(self).value() is None ==> initializer.requires(()),
        ensures
            old(self).value() matches Some(v) ==> final(self).value() == Some(v),
            old(self).value() is None ==> (final(self).value() matches Some(v) && initializer.ensures(
                (),
                v,
            )),
            final(self).value() == Some(*r),
    {
        if self.value.is_none() {
            let v = initializer();
            self.value = Some(v);
        }
        self.get_existing()
    }

    /// Gets the contents of this state, or tries to initialize it if it has not already been
    /// initialized.
    ///
    /// If the initializer returns `Err`, the value stays uninitialized and the error is returned.
    pub fn try_get<E, F: FnOnce() -> Result<T, E>>(&mut self, initializer: F) -> (r: Result<&T, E>)
        requires
            old(self).value() is None ==> initializer.requires(()),
        ensures
            old(self).value() matches Some(v) ==> (final(self).value() == Some(v) && r == Ok::<
                &T,
                E,
            >(&v)),
            old(self).value() is None ==> (exists|res: Result<T, E>|
                initializer.ensures((), res) && match res {
                    Ok(v) => final(self).value() == Some(v) && r == Ok::<&T, E>(&v),
                    Err(e) => final(self).value() is None && r == Err::<&T, E>(e),
                }),
    {
        if self.value.is_none() {
            match initializer() {
                Ok(v) => {
                    self.value = Some(v);
                },
                Err(e) => {
                    return Err(e);
                },
            }
        }
        Ok(self.get_existing())
    }

    /// Returns the contents of the cell. The cell must already be initialized.
    pub fn get_existing(&self) -> (r: &T)
        requires
            self.value().is_some(),
        ensures
            self.value() == Some(*r),
    {
        self.value.as_ref().unwrap()
    }

    /// Returns the contents of the cell, or `None` if it is not initialized yet.
    pub fn try_get_existing(&self) -> (r: Option<&T>)
        ensures
            match self.value() {
                Some(v) => r == Some(&v),
                None => r is None,
            },
    {
        match &self.value {
            Some(v) => Some(v),
            None => None,
        }
    }
}

} // verus!
