//! Iteration over a mutably borrowed `&mut [T; N]`.
use vstd::prelude::*;

use crate::{ArrayIterator, IntoArrayIterator};

verus! {

/// Yields an exclusive reference to each value of a mutably borrowed array.
///
/// `rest` is the part of the array not yet handed out; each pull splits off
/// its first element.
pub struct ArrayIter<'a, T, const N: usize> {
    rest: &'a mut [T],
    i: usize,
    source: Ghost<Seq<T>>,
}

impl<'a, T, const N: usize> ArrayIter<'a, T, N> {
    /// The array's values when it was borrowed.
    pub closed spec fn source(&self) -> Seq<T> {
        self.source@
    }
}

impl<'a, T, const N: usize> ArrayIterator<N> for ArrayIter<'a, T, N> {
    type Item = &'a mut T;

    closed spec fn pulled(&self) -> nat {
        self.i as nat
    }

    closed spec fn ready(&self) -> bool {
        &&& self.source@.len() == N
        &&& self.i <= N
        &&& self.rest@.len() == N - self.i
        &&& forall|k: int| 0 <= k < self.rest@.len() ==> #[trigger] self.rest@[k] == self.source@[self.i + k]
    }

    /// The reference handed out at `k` first reads the array's value there.
    open spec fn yields(&self, k: int, x: &'a mut T) -> bool {
        0 <= k < N && *x == self.source()[k]
    }

    fn next(&mut self) -> (r: &'a mut T) {
        let mut s: &'a mut [T] = &mut [];
        std::mem::swap(&mut s, &mut self.rest);
        let (head, tail) = s.split_at_mut(1);
        self.rest = tail;
        self.i = self.i + 1;
        head.first_mut().unwrap()
    }
}

impl<'a, T, const N: usize> IntoArrayIterator<N> for &'a mut [T; N] {
    type Item = &'a mut T;

    type ArrayIter = ArrayIter<'a, T, N>;

    open spec fn converts_to(self, r: ArrayIter<'a, T, N>) -> bool {
        &&& r.source() == self@
        &&& r.ready()
        &&& r.pulled() == 0
    }

    fn into_array_iter(self) -> (r: ArrayIter<'a, T, N>) {
        let ghost a = self@;
        let s: &'a mut [T] = self;
        ArrayIter { rest: s, i: 0, source: Ghost(a) }
    }
}

} // verus!
