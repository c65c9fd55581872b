//! Helpers that come up again and again in grid and number puzzles: absolute
//! values over every integer width, ordering of pairs, conversion of string and
//! value sequences, collection into fixed-size arrays, and a small algebra of
//! directions and positions on a two-dimensional grid.
use vstd::prelude::*;
use vstd::laws_cmp::{obeys_cmp, obeys_partial_cmp_spec_properties};
use vstd::std_specs::cmp::PartialOrdSpec;
use core::cmp::Ordering;

pub mod absolute;
pub mod convert;
pub mod movement;
pub mod number;

verus! {

/// Whether `a` is strictly greater than `b` by the order of `T`.
pub open spec fn greater<T: PartialOrd>(a: T, b: T) -> bool {
    a.partial_cmp_spec(&b) == Some(Ordering::Greater)
}

/// Whether `a` is strictly less than `b` by the order of `T`.
pub open spec fn less<T: PartialOrd>(a: T, b: T) -> bool {
    a.partial_cmp_spec(&b) == Some(Ordering::Less)
}

/// Hands its argument back; forces a move where a reborrow would be taken.
pub fn moved<T>(x: T) -> (r: T)
    ensures
        r == x,
{
    x
}

/// A copy of the value behind the reference.
pub fn copy<T: Copy>(x: &T) -> (r: T)
    ensures
        r == *x,
{
    *x
}

/// A clone of the value behind the reference.
pub fn clone<T: Clone>(x: &T) -> (r: T)
    ensures
        cloned(*x, r),
{
    x.clone()
}

/// The pair with the greater value first: `(a, b)` where `a > b`, else
/// `(b, a)`.
pub fn sort_biggest<T: Ord>(a: T, b: T) -> (r: (T, T))
    ensures
        r == (a, b) || r == (b, a),
        T::obeys_partial_cmp_spec() ==> r == (if greater(a, b) {
            (a, b)
        } else {
            (b, a)
        }),
{
    if a > b {
        (a, b)
    } else {
        (b, a)
    }
}

/// The pair with the smaller value first: `(a, b)` where `a <= b`, else
/// `(b, a)`.
pub fn sort_smallest<T: Ord>(a: T, b: T) -> (r: (T, T))
    ensures
        r == (a, b) || r == (b, a),
        T::obeys_partial_cmp_spec() ==> r == (if greater(a, b) {
            (b, a)
        } else {
            (a, b)
        }),
{
    if a > b {
        (b, a)
    } else {
        (a, b)
    }
}

/// Ordering of a pair: `minmax` puts the smaller value first, `maxmin` the
/// greater; equal values keep their places.
pub trait MinMax<T: Ord>: Sized {
    /// The ascending arrangement of `self`.
    spec fn ascending(self) -> Self;

    /// The descending arrangement of `self`.
    spec fn descending(self) -> Self;

    fn minmax(self) -> (r: Self)
        ensures
            T::obeys_partial_cmp_spec() ==> r == self.ascending(),
    ;

    fn maxmin(self) -> (r: Self)
        ensures
            T::obeys_partial_cmp_spec() ==> r == self.descending(),
    ;
}

impl<T: Ord> MinMax<T> for (T, T) {
    open spec fn ascending(self) -> (T, T) {
        if greater(self.0, self.1) {
            (self.1, self.0)
        } else {
            self
        }
    }

    open spec fn descending(self) -> (T, T) {
        if less(self.0, self.1) {
            (self.1, self.0)
        } else {
            self
        }
    }

    fn minmax(self) -> (r: (T, T)) {
        if self.0 > self.1 {
            (self.1, self.0)
        } else {
            self
        }
    }

    fn maxmin(self) -> (r: (T, T)) {
        if self.0 < self.1 {
            (self.1, self.0)
        } else {
            self
        }
    }
}

/// Under a lawful total order, `minmax` gives the two values in ascending
/// order and `maxmin` in descending order, each as a rearrangement of `a` and
/// `b`.
pub proof fn lemma_minmax_sorted<T: Ord>(a: T, b: T)
    requires
        obeys_cmp::<T>(),
    ensures
        (a, b).ascending() == (a, b) || (a, b).ascending() == (b, a),
        (a, b).descending() == (a, b) || (a, b).descending() == (b, a),
        !greater((a, b).ascending().0, (a, b).ascending().1),
        !less((a, b).descending().0, (a, b).descending().1),
{
    reveal(obeys_partial_cmp_spec_properties);
}

} // verus!
