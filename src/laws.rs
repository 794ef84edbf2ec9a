//! What chains of adapters give when drained, stated over arrays.
use vstd::prelude::*;

use crate::array::ArrayIter;
use crate::map::MapIter;
use crate::zip::Zip;
use crate::{unzips_to, ArrayIterator, IntoArrayIterator};

verus! {

/// Collecting an owned array through a function that returns its argument
/// unchanged gives back the same array, element for element, in order.
pub proof fn lemma_collect_identity<T, F: Fn(T) -> T, const N: usize>(
    a: [T; N],
    it: MapIter<ArrayIter<T, N>, F, T>,
    r: [T; N],
)
    requires
        <[T; N] as IntoArrayIterator<N>>::converts_to(a, it.inner()),
        forall|x: T, y: T| #[trigger] it.func().ensures((x,), y) ==> y == x,
        forall|k: int| 0 <= k < N ==> it.yields(k, #[trigger] r@[k]),
    ensures
        r@ == a@,
{
    assert(r@ =~= a@);
}

/// Zipping two owned arrays and collecting gives, at each index, the pair of
/// their elements at that index.
pub proof fn lemma_zip_collect<A, B, const N: usize>(
    a: [A; N],
    b: [B; N],
    it: Zip<ArrayIter<A, N>, ArrayIter<B, N>>,
    r: [(A, B); N],
)
    requires
        <[A; N] as IntoArrayIterator<N>>::converts_to(a, it.first()),
        <[B; N] as IntoArrayIterator<N>>::converts_to(b, it.second()),
        forall|k: int| 0 <= k < N ==> it.yields(k, #[trigger] r@[k]),
    ensures
        forall|k: int| 0 <= k < N ==> #[trigger] r@[k] == (a@[k], b@[k]),
{
}

/// Unzipping the pairs of two zipped owned arrays, passed through a function
/// that returns each pair unchanged, gives back the two arrays.
pub proof fn lemma_unzip_inverts_zip<A, B, F: Fn((A, B)) -> (A, B), const N: usize>(
    a: [A; N],
    b: [B; N],
    it: MapIter<Zip<ArrayIter<A, N>, ArrayIter<B, N>>, F, (A, B)>,
    ra: [A; N],
    rb: [B; N],
)
    requires
        <[A; N] as IntoArrayIterator<N>>::converts_to(a, it.inner().first()),
        <[B; N] as IntoArrayIterator<N>>::converts_to(b, it.inner().second()),
        forall|x: (A, B), y: (A, B)| #[trigger] it.func().ensures((x,), y) ==> y == x,
        unzips_to(it, ra@, rb@),
    ensures
        ra@ == a@,
        rb@ == b@,
{
    assert forall|k: int| 0 <= k < N implies ra@[k] == a@[k] && rb@[k] == b@[k] by {
        assert(it.yields(k, (ra@[k], rb@[k])));
    }
    assert(ra@ =~= a@);
    assert(rb@ =~= b@);
}

} // verus!
