//! A wrapper that allows consuming transformations on borrowed data.

use vstd::prelude::*;

verus! {

/// Wrapper that allows consuming transformations on borrowed data.
///
/// This is useful when you have a mutable interface wrapping a functional
/// one: [`Swap::hold`] takes the inner value out, passes it through an
/// owning function, and puts the result back in place.
#[derive(Clone, Copy, Debug, PartialEq, Eq, PartialOrd, Ord, Hash)]
pub struct Swap<T>(Option<T>);

impl<T> Swap<T> {
    /// A swap made by this module always holds a value.
    pub closed spec fn wf(self) -> bool {
        self.0 is Some
    }

    /// The value held.
    pub closed spec fn val(self) -> T {
        self.0->0
    }

    /// Create a new `Swap`.
    pub fn new(inner: T) -> (s: Self)
        ensures
            s.wf(),
            s.val() == inner,
    {
        Swap::from(inner)
    }

    /// Take the inner value, transform it, and put it back in place.
    pub fn hold<F: FnOnce(T) -> T>(&mut self, f: F)
        requires
            old(self).wf(),
            f.requires((old(self).val(),)),
        ensures
            final(self).wf(),
            f.ensures((old(self).val(),), final(self).val()),
    {
        let inner = self.0.take();
        let res = f(inner.unwrap());
        self.0 = Some(res);
    }

    /// Take the inner value.
    pub fn into_inner(self) -> (inner: T)
        requires
            self.wf(),
        ensures
            inner == self.val(),
    {
        self.0.unwrap()
    }

    /// Borrow the inner value.
    pub fn get(&self) -> (inner: &T)
        requires
            self.wf(),
        ensures
            *inner == self.val(),
    {
        self.0.as_ref().unwrap()
    }
}

impl<T> From<T> for Swap<T> {
    /// Wrap a value.
    fn from(inner: T) -> (s: Self)
        ensures
            s.wf(),
            s.val() == inner,
    {
        Swap(Some(inner))
    }
}

impl<T> vstd::std_specs::convert::FromSpecImpl<T> for Swap<T> {
    closed spec fn obeys_from_spec() -> bool {
        true
    }

    closed spec fn from_spec(inner: T) -> Self {
        Swap(Some(inner))
    }
}

impl<T: Default> Default for Swap<T> {
    /// A swap around the inner type's default value.
    fn default() -> (s: Self)
        ensures
            s.wf(),
    {
        Swap(Some(T::default()))
    }
}

} // verus!
