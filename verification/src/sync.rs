//! Mutual exclusion and one-time initialisation for a single owner: the lock
//! state and the initialisation state are plain fields, changed through
//! exclusive references.
use vstd::prelude::*;

verus! {

/// Data guarded by a lock.
pub struct Mutex<T> {
    data: T,
    locked: bool,
}

impl<T> Mutex<T> {
    /// The guarded data.
    pub closed spec fn value(&self) -> T {
        self.data
    }

    /// Whether a guard holds the lock.
    pub closed spec fn is_locked(&self) -> bool {
        self.locked
    }

    /// An unlocked mutex around `data`.
    pub fn new(data: T) -> (r: Mutex<T>)
        ensures
            r.value() == data,
            !r.is_locked(),
    {
        Mutex { data, locked: false }
    }

    /// The data, consuming the mutex.
    pub fn into_inner(self) -> (r: T)
        ensures
            r == self.value(),
    {
        self.data
    }

    /// The data, reached through the exclusive reference without locking.
    pub fn get_mut(&mut self) -> (r: &mut T)
        ensures
            *r == old(self).value(),
            final(self).value() == *final(r),
            final(self).is_locked() == old(self).is_locked(),
    {
        &mut self.data
    }

    /// A guard over the data when the mutex is unlocked, which locks it;
    /// `None` when it is locked.
    pub fn try_lock(&mut self) -> (r: Option<MutexGuard<'_, T>>)
        ensures
            old(self).is_locked() ==> r is None && *final(self) == *old(self),
            !old(self).is_locked() ==> (r matches Some(g) && g.mutex.value() == old(self).value()
                && g.mutex.is_locked() && *final(self) == *final(g.mutex)),
    {
        if self.locked {
            None
        } else {
            self.locked = true;
            Some(MutexGuard { mutex: self })
        }
    }
}

/// Access to the data of a locked mutex; `unlock` gives the lock back.
pub struct MutexGuard<'a, T> {
    pub mutex: &'a mut Mutex<T>,
}

impl<'a, T> MutexGuard<'a, T> {
    /// The guarded data.
    pub fn get(&self) -> (r: &T)
        ensures
            *r == old(self.mutex).value(),
    {
        &self.mutex.data
    }

    /// Replaces the guarded data.
    pub fn set(&mut self, data: T)
        ensures
            final(self).mutex.value() == data,
            final(self).mutex.is_locked() == old(self).mutex.is_locked(),
            *final(final(self).mutex) == *final(old(self).mutex),
    {
        self.mutex.data = data;
    }

    /// Gives the lock back.
    pub fn unlock(self)
        ensures
            final(self.mutex).value() == old(self.mutex).value(),
            !final(self.mutex).is_locked(),
    {
        self.mutex.locked = false;
    }
}

/// Whether a one-time value has been set.
#[derive(Clone, Copy, Debug, PartialEq, Eq, Structural)]
pub enum OnceStatus {
    Complete,
    Incomplete,
}

/// A value that is computed the first time it is asked for.
pub struct Once<T> {
    status: OnceStatus,
    data: Option<T>,
}

impl<T> Once<T> {
    /// The value, once it has been computed.
    pub closed spec fn value(&self) -> Option<T> {
        self.data
    }

    /// The status agrees with the value.
    pub closed spec fn wf(&self) -> bool {
        (self.status == OnceStatus::Complete) == self.data.is_some()
    }

    /// A value not computed yet.
    pub fn new() -> (r: Once<T>)
        ensures
            r.wf(),
            r.value() is None,
    {
        Once { status: OnceStatus::Incomplete, data: None }
    }

    /// The value: computed by `f` the first time, the same value after.
    pub fn call_once<F: FnOnce() -> T>(&mut self, f: F) -> (r: &T)
        requires
            old(self).wf(),
            old(self).value() is None ==> call_requires(f, ()),
        ensures
            final(self).wf(),
            final(self).value() == Some(*r),
            old(self).value() matches Some(v) ==> *r == v,
            old(self).value() is None ==> call_ensures(f, (), *r),
    {
        if self.status == OnceStatus::Incomplete {
            let val = f();
            self.data = Some(val);
            self.status = OnceStatus::Complete;
        }
        self.data.as_ref().unwrap()
    }

    /// The value, if it has been computed.
    pub fn get(&self) -> (r: Option<&T>)
        requires
            self.wf(),
        ensures
            r == match self.value() {
                Some(v) => Some(&v),
                None => None::<&T>,
            },
    {
        match &self.data {
            Some(v) => Some(v),
            None => None,
        }
    }
}

/// A value computed the first time it is read.
pub struct Lazy<T>(pub Once<T>);

impl<T> Lazy<T> {
    /// A value not computed yet.
    pub fn new() -> (r: Lazy<T>)
        ensures
            r.0.wf(),
            r.0.value() is None,
    {
        Lazy(Once::new())
    }

    /// The value: computed by `initializer` on the first read only.
    pub fn get<F: FnOnce() -> T>(&mut self, initializer: F) -> (r: &T)
        requires
            old(self).0.wf(),
            old(self).0.value() is None ==> call_requires(initializer, ()),
        ensures
            final(self).0.wf(),
            final(self).0.value() == Some(*r),
            old(self).0.value() matches Some(v) ==> *r == v,
            old(self).0.value() is None ==> call_ensures(initializer, (), *r),
    {
        self.0.call_once(initializer)
    }
}

} // verus!
