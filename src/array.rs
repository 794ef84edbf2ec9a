//! Iteration over an owned `[T; N]`.
use vstd::prelude::*;

use crate::{ArrayIterator, IntoArrayIterator};

verus! {

/// Yields the values of an owned array by value.
///
/// The values not yet pulled are kept in `rest`, last one first, so that each
/// pull takes the last element of `rest`. Values that are never pulled are
/// dropped with the iterator, exactly once.
#[verifier::reject_recursive_types(T)]
pub struct ArrayIter<T, const N: usize> {
    rest: Vec<T>,
    i: usize,
    source: Ghost<Seq<T>>,
}

impl<T, const N: usize> ArrayIter<T, N> {
    /// The array this iterator was made from.
    pub closed spec fn source(&self) -> Seq<T> {
        self.source@
    }

    /// The values this iterator still owns, in array order: those that
    /// dropping it destroys.
    pub closed spec fn held(&self) -> Seq<T> {
        Seq::new(self.rest@.len(), |k: int| self.rest@[self.rest@.len() - 1 - k])
    }

    /// An iterator that has handed out its first values owns exactly the
    /// others, each once and in order, so dropping it part-way destroys
    /// precisely the values not yet pulled.
    pub proof fn lemma_holds_unpulled(&self)
        requires
            self.ready(),
        ensures
            self.held() == self.source().subrange(self.pulled() as int, N as int),
    {
        assert(self.held() =~= self.source().subrange(self.pulled() as int, N as int));
    }
}

impl<T, const N: usize> ArrayIterator<N> for ArrayIter<T, N> {
    type Item = T;

    closed spec fn pulled(&self) -> nat {
        self.i as nat
    }

    closed spec fn ready(&self) -> bool {
        &&& self.source@.len() == N
        &&& self.i <= N
        &&& self.rest@.len() == N - self.i
        &&& forall|k: int| 0 <= k < self.rest@.len() ==> #[trigger] self.rest@[k] == self.source@[N - 1 - k]
    }

    open spec fn yields(&self, k: int, x: T) -> bool {
        0 <= k < N && x == self.source()[k]
    }

    fn next(&mut self) -> (r: T) {
        let x = self.rest.pop().unwrap();
        self.i = self.i + 1;
        x
    }
}

impl<T, const N: usize> IntoArrayIterator<N> for [T; N] {
    type Item = T;

    type ArrayIter = ArrayIter<T, N>;

    open spec fn converts_to(self, r: ArrayIter<T, N>) -> bool {
        &&& r.source() == self@
        &&& r.ready()
        &&& r.pulled() == 0
    }

    fn into_array_iter(self) -> (r: ArrayIter<T, N>) {
        let ghost a = self@;
        let mut v = vec_from_array(self);
        let mut rest: Vec<T> = Vec::new();
        let mut j: usize = 0;
        while j < N
            invariant
                a.len() == N,
                j <= N,
                v@ == a.take(N - j),
                rest@.len() == j,
                forall|k: int| 0 <= k < j ==> #[trigger] rest@[k] == a[N - 1 - k],
            decreases N - j,
        {
            let x = v.pop();
            rest.push(x.unwrap());
            j = j + 1;
        }
        ArrayIter { rest, i: 0, source: Ghost(a) }
    }
}

/// Relies on std's `From<[T; N]> for Vec<T>`: the vector holds the array's
/// values, moved, in order.
#[verifier::external_body]
fn vec_from_array<T, const N: usize>(a: [T; N]) -> (r: Vec<T>)
    ensures
        r@ == a@,
{
    Vec::from(a)
}

} // verus!
