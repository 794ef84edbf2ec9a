//! An incremental array accumulator, backed by `array_builder::ArrayBuilder`.
use vstd::prelude::*;

verus! {

/// `array_builder::ArrayBuilder`, opaque here: what it holds is tracked by
/// [`Collector`].
#[verifier::external_type_specification]
#[verifier::external_body]
#[verifier::reject_recursive_types(T)]
pub struct ExArrayBuilder<T, const N: usize>(array_builder::ArrayBuilder<T, N>);

/// Accumulates up to `N` values and turns them into a `[T; N]` once full.
///
/// `items` records, in order, the values that the builder currently holds.
#[verifier::reject_recursive_types(T)]
pub(crate) struct Collector<T, const N: usize> {
    builder: array_builder::ArrayBuilder<T, N>,
    items: Ghost<Seq<T>>,
}

impl<T, const N: usize> Collector<T, N> {
    /// The values held, in the order they were pushed.
    pub(crate) closed spec fn items(&self) -> Seq<T> {
        self.items@
    }

    /// Relies on `ArrayBuilder::new`: the builder starts out empty.
    #[verifier::external_body]
    pub(crate) fn new() -> (r: Self)
        ensures
            r.items() == Seq::<T>::empty(),
    {
        Collector { builder: array_builder::ArrayBuilder::new(), items: Ghost(Seq::empty()) }
    }

    /// Relies on `ArrayBuilder::push`: appends `t`; it panics only when full.
    #[verifier::external_body]
    pub(crate) fn push(&mut self, t: T)
        requires
            old(self).items().len() < N,
        ensures
            final(self).items() == old(self).items().push(t),
    {
        self.builder.push(t)
    }

    /// Relies on `ArrayBuilder::build`: the array of the held values when
    /// exactly `N` are held, nothing otherwise.
    #[verifier::external_body]
    pub(crate) fn build(self) -> (r: Option<[T; N]>)
        ensures
            self.items().len() == N <==> r is Some,
            r is Some ==> r->Some_0@ == self.items(),
    {
        self.builder.build().ok()
    }
}

} // verus!
