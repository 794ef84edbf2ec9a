//! Lazy, composable iteration over fixed-length arrays.
//!
//! A chain of adapters is built from an array (owned, borrowed or mutably
//! borrowed), transformed with `map` and combined with `zip`, and is only run
//! when `collect` or `unzip` drains it into new arrays of the same length.
use vstd::prelude::*;

mod builder;
pub mod array;
pub mod reference;
pub mod mut_ref;
pub mod map;
pub mod zip;
pub mod laws;

use crate::builder::Collector;
use crate::map::MapIter;
use crate::zip::Zip;

verus! {

/// `(ra, rb)` is what splitting the pairs of `it` may give.
pub open spec fn unzips_to<A, B, I: ArrayIterator<N, Item = (A, B)>, const N: usize>(
    it: I,
    ra: Seq<A>,
    rb: Seq<B>,
) -> bool {
    &&& ra.len() == N
    &&& rb.len() == N
    &&& forall|k: int|
        #![trigger ra[k]]
        #![trigger rb[k]]
        0 <= k < N ==> it.yields(k, (ra[k], rb[k]))
}

/// Like `IntoIterator`: a value that can become an [`ArrayIterator`] over `N` items.
pub trait IntoArrayIterator<const N: usize>: Sized {
    /// Item produced by the resulting iterator.
    type Item;

    /// The iterator produced.
    type ArrayIter: ArrayIterator<N, Item = Self::Item>;

    /// `r` is an iterator that `self` may turn into.
    spec fn converts_to(self, r: Self::ArrayIter) -> bool;

    /// Turns `self` into an iterator.
    fn into_array_iter(self) -> (r: Self::ArrayIter)
        ensures
            self.converts_to(r),
    ;
}

/// Like `Iterator`, over exactly `N` items, each pulled once, in order.
pub trait ArrayIterator<const N: usize>: Sized {
    /// Item produced by this iterator.
    type Item;

    /// How many items have been pulled so far.
    spec fn pulled(&self) -> nat;

    /// The iterator's invariant holds and every remaining pull can be made.
    spec fn ready(&self) -> bool;

    /// `item` may be the item at position `k`. This does not change as items
    /// are pulled.
    spec fn yields(&self, k: int, item: Self::Item) -> bool;

    /// Pulls the next item; at most `N` pulls can be made. `collect` and
    /// `unzip` expect an iterator from which nothing has been pulled yet.
    fn next(&mut self) -> (r: Self::Item)
        requires
            old(self).ready(),
            old(self).pulled() < N,
        ensures
            final(self).ready(),
            final(self).pulled() == old(self).pulled() + 1,
            old(self).yields(old(self).pulled() as int, r),
            forall|k: int, x: Self::Item|
                #[trigger] final(self).yields(k, x) == old(self).yields(k, x),
    ;

    /// Lazily transforms each item with `f`.
    fn map<U, F: Fn(Self::Item) -> U>(self, f: F) -> (r: MapIter<Self, F, U>)
        ensures
            r.inner() == self,
            r.func() == f,
    {
        MapIter::new(self, f)
    }

    /// Drains all `N` items, in order, into an array.
    fn collect(self) -> (r: [Self::Item; N])
        requires
            self.ready(),
            self.pulled() == 0,
        ensures
            forall|k: int| 0 <= k < N ==> self.yields(k, #[trigger] r@[k]),
    {
        let ghost start = self;
        let mut it = self;
        let mut out: Collector<Self::Item, N> = Collector::new();
        let mut j: usize = 0;
        while j < N
            invariant
                j <= N,
                it.ready(),
                it.pulled() == j,
                out.items().len() == j,
                forall|k: int, x: Self::Item| #[trigger] it.yields(k, x) == start.yields(k, x),
                forall|k: int| 0 <= k < j ==> start.yields(k, #[trigger] out.items()[k]),
            decreases N - j,
        {
            let x = it.next();
            out.push(x);
            j = j + 1;
        }
        let r = out.build();
        r.unwrap()
    }
}

/// Pairing with a second iterator, for every [`ArrayIterator`].
pub trait ArrayZip<const N: usize>: ArrayIterator<N> {
    /// Lazily pairs each item with the item of `b` at the same position.
    fn zip<B: IntoArrayIterator<N>>(self, b: B) -> (r: Zip<Self, B::ArrayIter>)
        ensures
            r.first() == self,
            b.converts_to(r.second()),
    {
        Zip::new(self, b.into_array_iter())
    }
}

impl<I: ArrayIterator<N>, const N: usize> ArrayZip<N> for I {
}

/// Splitting an iterator of pairs, for every [`ArrayIterator`] whose items are pairs.
pub trait ArrayUnzip<A, B, const N: usize>: ArrayIterator<N, Item = (A, B)> {
    /// Drains all `N` pairs, in order, into an array of first components and
    /// an array of second components.
    fn unzip(self) -> (r: ([A; N], [B; N]))
        requires
            self.ready(),
            self.pulled() == 0,
        ensures
            unzips_to(self, r.0@, r.1@),
    {
        let ghost start = self;
        let mut it = self;
        let mut outa: Collector<A, N> = Collector::new();
        let mut outb: Collector<B, N> = Collector::new();
        let mut j: usize = 0;
        while j < N
            invariant
                j <= N,
                it.ready(),
                it.pulled() == j,
                outa.items().len() == j,
                outb.items().len() == j,
                forall|k: int, x: (A, B)| #[trigger] it.yields(k, x) == start.yields(k, x),
                forall|k: int|
                    0 <= k < j ==> start.yields(k, (#[trigger] outa.items()[k], outb.items()[k])),
            decreases N - j,
        {
            let (a, b) = it.next();
            outa.push(a);
            outb.push(b);
            j = j + 1;
        }
        let ra = outa.build();
        let rb = outb.build();
        (ra.unwrap(), rb.unwrap())
    }
}

impl<A, B, I: ArrayIterator<N, Item = (A, B)>, const N: usize> ArrayUnzip<A, B, N> for I {
}

/// Every iterator turns into itself.
impl<I: ArrayIterator<N>, const N: usize> IntoArrayIterator<N> for I {
    type Item = I::Item;

    type ArrayIter = I;

    open spec fn converts_to(self, r: I) -> bool {
        r == self
    }

    fn into_array_iter(self) -> (r: I) {
        self
    }
}

} // verus!
