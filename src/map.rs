//! The adapter behind [`ArrayIterator::map`](crate::ArrayIterator::map).
use vstd::prelude::*;

use core::marker::PhantomData;

use crate::ArrayIterator;

verus! {

/// Applies a function to each item of an inner iterator, as it is pulled.
///
/// `U` is the function's result type.
pub struct MapIter<A, F, U> {
    a: A,
    f: F,
    out: PhantomData<U>,
}

impl<A, F, U> MapIter<A, F, U> {
    /// The inner iterator.
    pub closed spec fn inner(&self) -> A {
        self.a
    }

    /// The function applied to each item.
    pub closed spec fn func(&self) -> F {
        self.f
    }

    /// Creates a new `MapIter`. See [`ArrayIterator::map`](crate::ArrayIterator::map).
    pub fn new(a: A, f: F) -> (r: Self)
        ensures
            r.inner() == a,
            r.func() == f,
    {
        MapIter { a, f, out: PhantomData }
    }
}

impl<U, A, F, const N: usize> ArrayIterator<N> for MapIter<A, F, U> where
    A: ArrayIterator<N>,
    F: Fn(A::Item) -> U,
 {
    type Item = U;

    open spec fn pulled(&self) -> nat {
        self.inner().pulled()
    }

    open spec fn ready(&self) -> bool {
        &&& self.inner().ready()
        &&& forall|k: int, t: A::Item|
            self.inner().pulled() <= k < N && #[trigger] self.inner().yields(k, t)
                ==> self.func().requires((t,))
    }

    open spec fn yields(&self, k: int, u: U) -> bool {
        exists|t: A::Item| #[trigger] self.inner().yields(k, t) && self.func().ensures((t,), u)
    }

    fn next(&mut self) -> (r: U) {
        let ghost pre = *self;
        let t = self.a.next();
        proof {
            assert forall|k: int, u: U| #[trigger] self.yields(k, u) == pre.yields(k, u) by {
                if self.yields(k, u) {
                    let w = choose|w: A::Item| self.inner().yields(k, w) && self.func().ensures((w,), u);
                    assert(pre.inner().yields(k, w));
                }
                if pre.yields(k, u) {
                    let w = choose|w: A::Item| pre.inner().yields(k, w) && pre.func().ensures((w,), u);
                    assert(self.inner().yields(k, w));
                }
            }
        }
        (self.f)(t)
    }
}

} // verus!
