//! A node whose value decides which node is sampled next.

use crate::rng::Rng;
use crate::{can_yield, may_yield, Uncertain};
use vstd::prelude::*;

verus! {

/// A node that samples its operand, builds a fresh node from the value and
/// samples that node once, within the same epoch.
pub struct FlatMap<U, F> {
    uncertain: U,
    func: F,
}

impl<U, F> FlatMap<U, F> {
    /// The node that is sampled first.
    pub closed spec fn operand(&self) -> U {
        self.uncertain
    }

    /// The function that builds the second node.
    pub closed spec fn function(&self) -> F {
        self.func
    }
}

impl<O, U, F> FlatMap<U, F> where U: Uncertain, O: Uncertain, F: Fn(U::Value) -> O {
    /// A node that yields what `func(v)` yields, whenever `uncertain` yields
    /// `v`.
    pub fn new(uncertain: U, func: F) -> (node: Self)
        ensures
            node.operand() == uncertain,
            node.function() == func,
    {
        Self { uncertain, func }
    }

    /// Starting from `mid`, some node that the function builds from `v`
    /// yields `value` at `epoch` and leaves the source as `after`.
    pub open spec fn continues(
        &self,
        v: U::Value,
        mid: Rng,
        epoch: usize,
        after: Rng,
        value: O::Value,
    ) -> bool {
        exists|next: O| #[trigger]
            call_ensures(self.function(), (v,), next) && next.yields(mid, epoch, after, value)
    }
}

impl<O, U, F> Uncertain for FlatMap<U, F> where U: Uncertain, O: Uncertain, F: Fn(U::Value) -> O {
    type Value = O::Value;

    open spec fn ready(&self) -> bool {
        &&& self.operand().ready()
        &&& forall|v: U::Value| #[trigger]
            can_yield(&self.operand(), v) ==> call_requires(self.function(), (v,))
        &&& forall|v: U::Value, next: O| #[trigger]
            call_ensures(self.function(), (v,), next) ==> next.ready()
    }

    /// One draw of the operand, then one draw of the node built from its
    /// value, which starts where the first draw left the source.
    open spec fn yields(&self, before: Rng, epoch: usize, after: Rng, value: O::Value) -> bool {
        exists|v: U::Value, mid: Rng| #[trigger]
            self.operand().yields(before, epoch, mid, v) && self.continues(
                v,
                mid,
                epoch,
                after,
                value,
            )
    }

    fn sample(&self, rng: &mut Rng, epoch: usize) -> (value: O::Value) {
        let v = self.uncertain.sample(rng, epoch);
        let ghost mid = *rng;
        assert(may_yield(&self.uncertain, epoch, v));
        assert(can_yield(&self.uncertain, v));
        let next = (self.func)(v);
        let value = next.sample(rng, epoch);
        assert(self.continues(v, mid, epoch, *rng, value));
        value
    }

    fn reset(&self) {
        self.uncertain.reset();
    }
}

} // verus!
