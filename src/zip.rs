//! The adapter behind [`ArrayIterator::zip`](crate::ArrayIterator::zip).
use vstd::prelude::*;

use crate::ArrayIterator;

verus! {

/// Pairs the items of two iterators position by position.
pub struct Zip<A, B> {
    a: A,
    b: B,
}

impl<A, B> Zip<A, B> {
    /// The iterator giving the first component of each pair.
    pub closed spec fn first(&self) -> A {
        self.a
    }

    /// The iterator giving the second component of each pair.
    pub closed spec fn second(&self) -> B {
        self.b
    }

    /// Creates a new `Zip`. See [`ArrayIterator::zip`](crate::ArrayIterator::zip).
    pub fn new(a: A, b: B) -> (r: Self)
        ensures
            r.first() == a,
            r.second() == b,
    {
        Zip { a, b }
    }
}

impl<A, B, const N: usize> ArrayIterator<N> for Zip<A, B> where
    A: ArrayIterator<N>,
    B: ArrayIterator<N>,
 {
    type Item = (A::Item, B::Item);

    open spec fn pulled(&self) -> nat {
        self.first().pulled()
    }

    open spec fn ready(&self) -> bool {
        &&& self.first().ready()
        &&& self.second().ready()
        &&& self.first().pulled() == self.second().pulled()
    }

    open spec fn yields(&self, k: int, p: (A::Item, B::Item)) -> bool {
        self.first().yields(k, p.0) && self.second().yields(k, p.1)
    }

    /// Pulls from the first iterator, then from the second.
    fn next(&mut self) -> (r: (A::Item, B::Item)) {
        let x = self.a.next();
        let y = self.b.next();
        (x, y)
    }
}

} // verus!
