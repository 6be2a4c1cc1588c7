//! Handing a request's value to the code that handles it.
use vstd::prelude::*;

verus! {

/// Holds a value until it is taken.
pub struct DataManager<T> {
    inner: Option<T>,
}

impl<T> DataManager<T> {
    /// The value, or `None` once it was taken.
    pub closed spec fn value(&self) -> Option<T> {
        self.inner
    }

    pub fn new(val: T) -> (r: Self)
        ensures
            r.value() == Some(val),
    {
        DataManager { inner: Some(val) }
    }

    /// Whether the value was taken.
    pub fn is_taken(&self) -> (r: bool)
        ensures
            r == self.value() is None,
    {
        self.inner.is_none()
    }

    /// Takes the value out.
    pub fn take(&mut self) -> (r: T)
        requires
            old(self).value() is Some,
        ensures
            r == old(self).value()->0,
            final(self).value() is None,
    {
        self.inner.take().unwrap()
    }

    /// The value, which stays.
    pub fn as_ref(&self) -> (r: &T)
        requires
            self.value() is Some,
        ensures
            *r == self.value()->0,
    {
        self.inner.as_ref().unwrap()
    }

    /// Takes the value out of a manager that is not needed anymore.
    pub fn take_owned(self) -> (r: T)
        requires
            self.value() is Some,
        ensures
            r == self.value()->0,
    {
        let mut me = self;
        me.inner.take().unwrap()
    }
}

} // verus!
