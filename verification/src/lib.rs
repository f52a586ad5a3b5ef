//! A small prelude of everyday conveniences, centred on *smart threads*:
//! worker threads whose handles can report, at any time and from any
//! observer, whether the worker is still running, finished normally, or
//! was cut short.
//!
//! The [`worker`] module holds the core: a [`worker::SmartHandle`] can be
//! polled for a [`worker::ThreadStatus`] at any time or joined for the
//! worker's value, and the shared [`worker::StatusCell`] behind it is
//! proved to move away from `Running` at most once.
//!
//! Around it sit a few utilities: [`Swap`](swap::Swap) for consuming
//! transformations on borrowed data, the [`order`] functions for fully
//! ordering partially ordered types, and the [`BoolMap`] and [`Bind`]
//! traits for one-line plumbing.

use vstd::prelude::*;

pub mod order;
pub mod swap;
pub mod worker;

verus! {

/// Maps `bool`s to `Option`s in one line.
///
/// `condition.map(value)` stands for
/// `if condition { Some(value) } else { None }`.
pub trait BoolMap: Sized {
    /// The condition this value stands for.
    spec fn truth(self) -> bool;

    /// Map to an optional value.
    fn map<T>(self, value: T) -> (r: Option<T>)
        ensures
            r == if self.truth() {
                Some(value)
            } else {
                None::<T>
            },
    ;

    /// Map to an optional value produced by a function, which is only run
    /// when the condition holds.
    fn map_with<T, F: FnOnce() -> T>(self, f: F) -> (r: Option<T>)
        requires
            self.truth() ==> f.requires(()),
        ensures
            self.truth() ==> (r matches Some(v) && f.ensures((), v)),
            !self.truth() ==> r is None,
    ;
}

impl BoolMap for bool {
    open spec fn truth(self) -> bool {
        self
    }

    fn map<T>(self, value: T) -> (r: Option<T>) {
        if self {
            Some(value)
        } else {
            None
        }
    }

    fn map_with<T, F: FnOnce() -> T>(self, f: F) -> (r: Option<T>) {
        if self {
            Some(f())
        } else {
            None
        }
    }
}

/// Allows the binding and transformation of a value in a single line.
///
/// This is useful when you want a functional interface wrapping a mutable
/// one, or when you really feel like doing something in one line.
pub trait Bind: Sized {
    /// Binds the value, transforms it in place, and returns it.
    fn bind_mut<F: FnOnce(Self) -> Self>(self, f: F) -> (r: Self)
        requires
            f.requires((self,)),
        ensures
            f.ensures((self,), r),
    ;

    /// Binds the value, maps it with the function, and returns the mapped
    /// value.
    fn bind_map<R, F: FnOnce(Self) -> R>(self, f: F) -> (r: R)
        requires
            f.requires((self,)),
        ensures
            f.ensures((self,), r),
    ;
}

impl<T> Bind for T {
    fn bind_mut<F: FnOnce(Self) -> Self>(self, f: F) -> (r: Self) {
        f(self)
    }

    fn bind_map<R, F: FnOnce(Self) -> R>(self, f: F) -> (r: R) {
        f(self)
    }
}

} // verus!
