//! A node that combines the values of two nodes.

use crate::rng::Rng;
use crate::{can_yield, may_yield, Uncertain};
use vstd::prelude::*;

verus! {

/// The values of two nodes, combined by a function.
pub struct Join<A, B, F> {
    a: A,
    b: B,
    func: F,
}

impl<A, B, F> Join<A, B, F> {
    /// The node that is sampled first.
    pub closed spec fn left(&self) -> A {
        self.a
    }

    /// The node that is sampled second.
    pub closed spec fn right(&self) -> B {
        self.b
    }

    /// The function that combines the two values.
    pub closed spec fn function(&self) -> F {
        self.func
    }
}

impl<O, A, B, F> Join<A, B, F> where A: Uncertain, B: Uncertain, F: Fn(A::Value, B::Value) -> O {
    /// A node that yields `func(x, y)` whenever `a` yields `x` and `b` then
    /// yields `y`.
    pub fn new(a: A, b: B, func: F) -> (node: Self)
        ensures
            node.left() == a,
            node.right() == b,
            node.function() == func,
    {
        Self { a, b, func }
    }
}

impl<O, A, B, F> Uncertain for Join<A, B, F> where
    A: Uncertain,
    B: Uncertain,
    F: Fn(A::Value, B::Value) -> O,
 {
    type Value = O;

    open spec fn ready(&self) -> bool {
        &&& self.left().ready()
        &&& self.right().ready()
        &&& forall|x: A::Value, y: B::Value|
            #![trigger can_yield(&self.left(), x), can_yield(&self.right(), y)]
            can_yield(&self.left(), x) && can_yield(&self.right(), y) ==> call_requires(
                self.function(),
                (x, y),
            )
    }

    /// One draw of the left node, then one draw of the right node, which
    /// starts where the first draw left the source, then one call of the
    /// function.
    open spec fn yields(&self, before: Rng, epoch: usize, after: Rng, value: O) -> bool {
        exists|x: A::Value, mid: Rng, y: B::Value|
            #![trigger self.left().yields(before, epoch, mid, x), self.right().yields(mid, epoch, after, y)]
            {
                &&& self.left().yields(before, epoch, mid, x)
                &&& self.right().yields(mid, epoch, after, y)
                &&& call_ensures(self.function(), (x, y), value)
            }
    }

    fn sample(&self, rng: &mut Rng, epoch: usize) -> (value: O) {
        let x = self.a.sample(rng, epoch);
        assert(may_yield(&self.a, epoch, x));
        assert(can_yield(&self.a, x));
        let y = self.b.sample(rng, epoch);
        assert(may_yield(&self.b, epoch, y));
        assert(can_yield(&self.b, y));
        (self.func)(x, y)
    }

    fn reset(&self) {
        self.a.reset();
        self.b.reset();
    }
}

} // verus!
