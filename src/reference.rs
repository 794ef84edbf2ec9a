//! Iteration over a borrowed `&[T; N]`.
use vstd::prelude::*;

use crate::{ArrayIterator, IntoArrayIterator};

verus! {

/// Yields a shared reference to each value of a borrowed array.
pub struct ArrayIter<'a, T, const N: usize> {
    data: &'a [T; N],
    i: usize,
}

impl<'a, T, const N: usize> ArrayIter<'a, T, N> {
    /// The borrowed array's values.
    pub closed spec fn source(&self) -> Seq<T> {
        self.data@
    }
}

impl<'a, T, const N: usize> ArrayIterator<N> for ArrayIter<'a, T, N> {
    type Item = &'a T;

    closed spec fn pulled(&self) -> nat {
        self.i as nat
    }

    closed spec fn ready(&self) -> bool {
        self.i <= N
    }

    open spec fn yields(&self, k: int, x: &'a T) -> bool {
        0 <= k < N && *x == self.source()[k]
    }

    fn next(&mut self) -> (r: &'a T) {
        let d: &'a [T; N] = self.data;
        let n = self.i;
        self.i = n + 1;
        &d[n]
    }
}

impl<'a, T, const N: usize> IntoArrayIterator<N> for &'a [T; N] {
    type Item = &'a T;

    type ArrayIter = ArrayIter<'a, T, N>;

    open spec fn converts_to(self, r: ArrayIter<'a, T, N>) -> bool {
        &&& r.source() == self@
        &&& r.ready()
        &&& r.pulled() == 0
    }

    fn into_array_iter(self) -> (r: ArrayIter<'a, T, N>) {
        ArrayIter { data: self, i: 0 }
    }
}

} // verus!
