//! A node that applies a function to the value of another node.

use crate::rng::Rng;
use crate::{can_yield, may_yield, Uncertain};
use vstd::prelude::*;

verus! {

/// The value of a node, passed through a function.
pub struct Mapped<U, F> {
    uncertain: U,
    func: F,
}

impl<U, F> Mapped<U, F> {
    /// The node whose value is passed on.
    pub closed spec fn operand(&self) -> U {
        self.uncertain
    }

    /// The function the value is passed through.
    pub closed spec fn function(&self) -> F {
        self.func
    }
}

impl<T, U, F> Mapped<U, F> where U: Uncertain, F: Fn(U::Value) -> T {
    /// A node that yields `func(v)` whenever `uncertain` yields `v`.
    pub fn new(uncertain: U, func: F) -> (node: Self)
        ensures
            node.operand() == uncertain,
            node.function() == func,
    {
        Self { uncertain, func }
    }
}

impl<T, U, F> Uncertain for Mapped<U, F> where U: Uncertain, F: Fn(U::Value) -> T {
    type Value = T;

    open spec fn ready(&self) -> bool {
        &&& self.operand().ready()
        &&& forall|v: U::Value| #[trigger]
            can_yield(&self.operand(), v) ==> call_requires(self.function(), (v,))
    }

    /// One draw of the operand, then one call of the function on its value.
    open spec fn yields(&self, before: Rng, epoch: usize, after: Rng, value: T) -> bool {
        exists|v: U::Value| #[trigger]
            self.operand().yields(before, epoch, after, v) && call_ensures(
                self.function(),
                (v,),
                value,
            )
    }

    fn sample(&self, rng: &mut Rng, epoch: usize) -> (value: T) {
        let v = self.uncertain.sample(rng, epoch);
        assert(may_yield(&self.uncertain, epoch, v));
        assert(can_yield(&self.uncertain, v));
        (self.func)(v)
    }

    fn reset(&self) {
        self.uncertain.reset();
    }
}

} // verus!
