//! Functions for fully ordering `PartialOrd` types.
//!
//! These functions are intended for use with standard library functions
//! that take a `Fn(&T, &T) -> Ordering` to order items, such as
//! `Iterator::max_by`, `Iterator::min_by`, and `Vec::sort_by`. Where the
//! two values do not compare, the named default steps in.

use std::cmp::Ordering;
use vstd::prelude::*;
use vstd::std_specs::cmp::PartialOrdSpec;

verus! {

/// The ordering `o` holds, or `alt` where there is none.
pub open spec fn ordering_or(o: Option<Ordering>, alt: Ordering) -> Ordering {
    match o {
        Some(x) => x,
        None => alt,
    }
}

/// Order and use `Ordering::Less` as a default.
pub fn or_less<T: PartialOrd>(a: &T, b: &T) -> (r: Ordering)
    ensures
        T::obeys_partial_cmp_spec() ==> r == ordering_or(
            a.partial_cmp_spec(b),
            Ordering::Less,
        ),
        exists|o: Option<Ordering>|
            #[trigger] call_ensures(T::partial_cmp, (a, b), o) && r == ordering_or(
                o,
                Ordering::Less,
            ),
{
    match a.partial_cmp(b) {
        Some(o) => o,
        None => Ordering::Less,
    }
}

/// Order and use `Ordering::Greater` as a default.
pub fn or_greater<T: PartialOrd>(a: &T, b: &T) -> (r: Ordering)
    ensures
        T::obeys_partial_cmp_spec() ==> r == ordering_or(
            a.partial_cmp_spec(b),
            Ordering::Greater,
        ),
        exists|o: Option<Ordering>|
            #[trigger] call_ensures(T::partial_cmp, (a, b), o) && r == ordering_or(
                o,
                Ordering::Greater,
            ),
{
    match a.partial_cmp(b) {
        Some(o) => o,
        None => Ordering::Greater,
    }
}

/// Order and use `Ordering::Equal` as a default.
pub fn or_equal<T: PartialOrd>(a: &T, b: &T) -> (r: Ordering)
    ensures
        T::obeys_partial_cmp_spec() ==> r == ordering_or(
            a.partial_cmp_spec(b),
            Ordering::Equal,
        ),
        exists|o: Option<Ordering>|
            #[trigger] call_ensures(T::partial_cmp, (a, b), o) && r == ordering_or(
                o,
                Ordering::Equal,
            ),
{
    match a.partial_cmp(b) {
        Some(o) => o,
        None => Ordering::Equal,
    }
}

} // verus!

