//! A node that always yields the same value.

use crate::rng::Rng;
use crate::{clones_faithfully, Uncertain};
use vstd::prelude::*;

verus! {

/// An uncertain value which always yields the same value.
///
/// Sampling it consumes no randomness and ignores the epoch, so it may be
/// copied and reused freely within one graph.
#[derive(Clone, Copy)]
pub struct PointMass<T> where T: Clone {
    value: T,
}

impl<T> PointMass<T> where T: Clone {
    /// The value every draw is a clone of.
    pub closed spec fn center(&self) -> T {
        self.value
    }

    /// Create a new `PointMass` centered on the given value.
    pub fn new(value: T) -> (node: Self)
        ensures
            node.center() == value,
    {
        Self { value }
    }
}

impl<T> Uncertain for PointMass<T> where T: Clone {
    type Value = T;

    open spec fn ready(&self) -> bool {
        true
    }

    open spec fn yields(&self, before: Rng, epoch: usize, after: Rng, value: T) -> bool {
        after == before && cloned(self.center(), value)
    }

    fn sample(&self, rng: &mut Rng, epoch: usize) -> (value: T) {
        self.value.clone()
    }
}

/// A point mass is repeatable: all of its draws give the same value, at
/// every epoch and whatever state the source is in, and none of them touches
/// the source.
pub proof fn lemma_point_mass_repeats<T: Clone>(
    node: PointMass<T>,
    first_before: Rng,
    first_epoch: usize,
    first_after: Rng,
    first: T,
    second_before: Rng,
    second_epoch: usize,
    second_after: Rng,
    second: T,
)
    requires
        clones_faithfully::<T>(),
        node.yields(first_before, first_epoch, first_after, first),
        node.yields(second_before, second_epoch, second_after, second),
    ensures
        second == first,
        first_after == first_before,
        second_after == second_before,
{
}

} // verus!
