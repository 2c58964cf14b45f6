//! Leaf nodes that draw from a distribution.

use crate::rng::Rng;
use crate::Uncertain;
use core::marker::PhantomData;
use vstd::prelude::*;

verus! {

/// A leaf node: every sample is a fresh draw from a variate generator, a
/// function from the random source to a value.
///
/// The node has no cache of its own and ignores the epoch. To use it several
/// times within one graph, wrap it with `into_ref` or `into_boxed`.
pub struct Distribution<T, D> {
    draw: D,
    _p: PhantomData<T>,
}

impl<T, D> Distribution<T, D> {
    /// The variate generator of the node.
    pub closed spec fn generator(&self) -> D {
        self.draw
    }
}

impl<T, D: Fn(&mut Rng) -> T> Distribution<T, D> {
    /// A leaf node that draws by calling `draw`.
    pub fn new(draw: D) -> (node: Self)
        ensures
            node.generator() == draw,
            node.ready() <==> forall|source: &mut Rng| call_requires(draw, (source,)),
    {
        let node = Distribution { draw, _p: PhantomData };
        assert(node.ready() <==> forall|source: &mut Rng| call_requires(node.generator(), (source,)));
        node
    }
}

impl<T> Distribution<T, ()> {
    /// A leaf node that draws from a distribution of the `rand` crate.
    pub fn from<N>(dist: N) -> (node: Distribution<T, impl Fn(&mut Rng) -> T>) where
        N: rand::distributions::Distribution<T>,

        ensures
            node.ready(),
    {
        Distribution::new(sampler(dist))
    }
}

/// Wraps `rand::distributions::Distribution::sample` of `dist` into a
/// variate generator.
///
/// Trusted: the generator may be called on any source. Nothing is claimed of
/// the values it returns, nor of the state it leaves the source in.
#[verifier::external_body]
fn sampler<T, N: rand::distributions::Distribution<T>>(dist: N) -> (draw: impl Fn(&mut Rng) -> T)
    ensures
        forall|source: &mut Rng| call_requires(draw, (source,)),
{
    move |rng: &mut Rng| dist.sample(rng)
}

impl<T, D: Fn(&mut Rng) -> T> Uncertain for Distribution<T, D> {
    type Value = T;

    open spec fn ready(&self) -> bool {
        forall|source: &mut Rng| call_requires(self.generator(), (source,))
    }

    open spec fn yields(&self, before: Rng, epoch: usize, after: Rng, value: T) -> bool {
        exists|source: &mut Rng|
            *source == before && call_ensures(self.generator(), (source,), value)
    }

    fn sample(&self, rng: &mut Rng, epoch: usize) -> (value: T) {
        (self.draw)(rng)
    }
}

} // verus!
