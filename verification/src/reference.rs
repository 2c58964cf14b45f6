//! A node bundled with a cache, so that it can be used several times within
//! one graph.
//!
//! References to a [`RefUncertain`] are nodes themselves. All of them read and
//! fill the one cache of the node they point to, so that within one epoch
//! every one of them sees the same value.

use crate::cache::{holds_a_draw, sample_through, through_cache};
use crate::rng::Rng;
use crate::{clones_faithfully, Uncertain};
use vstd::cell::invcell::InvCell;
use vstd::predicate::Predicate;
use vstd::prelude::*;

verus! {

/// What a cache may hold: nothing, or a value that `node` yielded for the
/// epoch it is filed under.
struct Drawn<U> {
    node: U,
}

impl<U: Uncertain> Predicate<Option<(usize, U::Value)>> for Drawn<U> {
    closed spec fn predicate(&self, held: Option<(usize, U::Value)>) -> bool {
        holds_a_draw(&self.node, held)
    }
}

/// A node with a cache of its latest draw.
///
/// The node itself is owned by the wrapper; the graph uses references to the
/// wrapper wherever the value is needed.
pub struct RefUncertain<U> where U: Uncertain, U::Value: Clone {
    uncertain: U,
    cache: InvCell<Option<(usize, U::Value)>, Drawn<U>>,
}

/// Another name for [`RefUncertain`].
pub type CachedUncertain<U> = RefUncertain<U>;

impl<U> RefUncertain<U> where U: Uncertain, U::Value: Clone {
    /// The cache only ever holds draws of the wrapped node.
    #[verifier::type_invariant]
    spec fn coherent(&self) -> bool {
        self.cache.predicate().node == self.uncertain
    }

    /// The wrapped node.
    pub closed spec fn inner(&self) -> U {
        self.uncertain
    }

    /// Bundle `contained` with an empty cache.
    pub fn new(contained: U) -> (node: Self)
        ensures
            node.inner() == contained,
    {
        let ghost only_draws = Drawn { node: contained };
        let cache = InvCell::new(None, Ghost(only_draws));
        Self { uncertain: contained, cache }
    }

    /// Empty the cache, and let the wrapped node forget what it caches.
    fn forget(&self) {
        proof {
            use_type_invariant(self);
        }
        self.cache.replace(None);
        self.uncertain.reset();
    }

    /// Sample the wrapped node through the cache.
    fn sample_cached(&self, rng: &mut Rng, epoch: usize) -> (value: U::Value)
        requires
            self.inner().ready(),
            clones_faithfully::<U::Value>(),
        ensures
            through_cache(&self.inner(), *old(rng), epoch, *final(rng), value),
    {
        proof {
            use_type_invariant(self);
        }
        let held = self.cache.replace(None);
        let (value, kept) = sample_through(&self.uncertain, held, rng, epoch);
        self.cache.replace(kept);
        value
    }
}

impl<U> Uncertain for &RefUncertain<U> where U: Uncertain, U::Value: Clone {
    type Value = U::Value;

    open spec fn ready(&self) -> bool {
        self.inner().ready() && clones_faithfully::<U::Value>()
    }

    /// A draw goes through the cache: it is a fresh draw of the wrapped node,
    /// unless the cache holds a draw of the same epoch, which is then
    /// returned and leaves the source untouched.
    open spec fn yields(&self, before: Rng, epoch: usize, after: Rng, value: U::Value) -> bool {
        through_cache(&self.inner(), before, epoch, after, value)
    }

    fn sample(&self, rng: &mut Rng, epoch: usize) -> (value: U::Value) {
        self.sample_cached(rng, epoch)
    }

    fn reset(&self) {
        self.forget();
    }
}

impl<U> Uncertain for RefUncertain<U> where U: Uncertain, U::Value: Clone {
    type Value = U::Value;

    open spec fn ready(&self) -> bool {
        self.inner().ready() && clones_faithfully::<U::Value>()
    }

    open spec fn yields(&self, before: Rng, epoch: usize, after: Rng, value: U::Value) -> bool {
        through_cache(&self.inner(), before, epoch, after, value)
    }

    fn sample(&self, rng: &mut Rng, epoch: usize) -> (value: U::Value) {
        self.sample_cached(rng, epoch)
    }

    fn reset(&self) {
        self.forget();
    }
}

} // verus!
