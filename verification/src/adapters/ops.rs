//! Logic and arithmetic on nodes.
//!
//! The logic nodes work on any value that converts into `bool`. `And` and `Or`
//! sample their left operand first and leave the right operand alone when the
//! left value already decides the result. The arithmetic nodes sample both
//! operands, left before right, and apply the operator of the value type.

use crate::rng::Rng;
use crate::{can_yield, may_yield, Uncertain};
use std::ops::{Add, Div, Mul, Sub};
use vstd::prelude::*;
use vstd::std_specs::ops::{AddSpec, DivSpec, MulSpec, SubSpec};

verus! {

/// `From::from` of a type on itself, the conversion behind `bool::into`
/// for `bool`.
///
/// Trusted: the standard library documents that this conversion returns its
/// argument unchanged.
pub assume_specification<X>[ <X as std::convert::From<X>>::from ](t: X) -> (r: X)
    ensures
        r == t,
;

/// Converting `v` into `bool` may give `b`.
pub open spec fn converts<V: Into<bool>>(v: V, b: bool) -> bool {
    call_ensures(<V as Into<bool>>::into, (v,), b)
}

/// Starting from `before`, a draw of `node` at `epoch` leaves the source as
/// `after` and produces a value that converts into `b`.
pub open spec fn decides<U: Uncertain>(node: &U, before: Rng, epoch: usize, after: Rng, b: bool) -> bool where
    U::Value: Into<bool>,
 {
    exists|v: U::Value| #[trigger] node.yields(before, epoch, after, v) && converts(v, b)
}

/// The negation of a node.
pub struct Not<U> where U: Uncertain, U::Value: Into<bool> {
    uncertain: U,
}

impl<U> Not<U> where U: Uncertain, U::Value: Into<bool> {
    /// The node that is negated.
    pub closed spec fn operand(&self) -> U {
        self.uncertain
    }

    /// A node that yields `!b` whenever `uncertain` yields `b`.
    pub fn new(uncertain: U) -> (node: Self)
        ensures
            node.operand() == uncertain,
    {
        Self { uncertain }
    }
}

impl<U> Uncertain for Not<U> where U: Uncertain, U::Value: Into<bool> {
    type Value = bool;

    open spec fn ready(&self) -> bool {
        self.operand().ready()
    }

    open spec fn yields(&self, before: Rng, epoch: usize, after: Rng, value: bool) -> bool {
        decides(&self.operand(), before, epoch, after, !value)
    }

    fn sample(&self, rng: &mut Rng, epoch: usize) -> (value: bool) {
        let v = self.uncertain.sample(rng, epoch);
        let b: bool = v.into();
        !b
    }

    fn reset(&self) {
        self.uncertain.reset();
    }
}

/// The conjunction of two nodes.
pub struct And<A, B> where A: Uncertain, B: Uncertain, A::Value: Into<bool>, B::Value: Into<bool> {
    a: A,
    b: B,
}

impl<A, B> And<A, B> where
    A: Uncertain,
    B: Uncertain,
    A::Value: Into<bool>,
    B::Value: Into<bool>,
 {
    /// The node that is sampled first.
    pub closed spec fn left(&self) -> A {
        self.a
    }

    /// The node that is sampled only if the first does not decide.
    pub closed spec fn right(&self) -> B {
        self.b
    }

    /// A node that yields `x && y`: `b` is sampled only if `a` yields true.
    pub fn new(a: A, b: B) -> (node: Self)
        ensures
            node.left() == a,
            node.right() == b,
    {
        Self { a, b }
    }
}

impl<A, B> Uncertain for And<A, B> where
    A: Uncertain,
    B: Uncertain,
    A::Value: Into<bool>,
    B::Value: Into<bool>,
 {
    type Value = bool;

    open spec fn ready(&self) -> bool {
        self.left().ready() && self.right().ready()
    }

    /// Either the left node yields false, which is the result and the end of
    /// the draw, or it yields true and the right node, sampled next, gives the
    /// result.
    open spec fn yields(&self, before: Rng, epoch: usize, after: Rng, value: bool) -> bool {
        ||| (decides(&self.left(), before, epoch, after, false) && value == false)
        ||| exists|mid: Rng| #[trigger]
            decides(&self.left(), before, epoch, mid, true) && decides(
                &self.right(),
                mid,
                epoch,
                after,
                value,
            )
    }

    fn sample(&self, rng: &mut Rng, epoch: usize) -> (value: bool) {
        let x = self.a.sample(rng, epoch);
        let first: bool = x.into();
        let ghost mid = *rng;
        assert(decides(&self.a, *old(rng), epoch, mid, first));
        if first {
            let y = self.b.sample(rng, epoch);
            let second: bool = y.into();
            second
        } else {
            false
        }
    }

    fn reset(&self) {
        self.a.reset();
        self.b.reset();
    }
}

/// The disjunction of two nodes.
pub struct Or<A, B> where A: Uncertain, B: Uncertain, A::Value: Into<bool>, B::Value: Into<bool> {
    a: A,
    b: B,
}

impl<A, B> Or<A, B> where
    A: Uncertain,
    B: Uncertain,
    A::Value: Into<bool>,
    B::Value: Into<bool>,
 {
    /// The node that is sampled first.
    pub closed spec fn left(&self) -> A {
        self.a
    }

    /// The node that is sampled only if the first does not decide.
    pub closed spec fn right(&self) -> B {
        self.b
    }

    /// A node that yields `x || y`: `b` is sampled only if `a` yields false.
    pub fn new(a: A, b: B) -> (node: Self)
        ensures
            node.left() == a,
            node.right() == b,
    {
        Self { a, b }
    }
}

impl<A, B> Uncertain for Or<A, B> where
    A: Uncertain,
    B: Uncertain,
    A::Value: Into<bool>,
    B::Value: Into<bool>,
 {
    type Value = bool;

    open spec fn ready(&self) -> bool {
        self.left().ready() && self.right().ready()
    }

    /// Either the left node yields true, which is the result and the end of
    /// the draw, or it yields false and the right node, sampled next, gives the
    /// result.
    open spec fn yields(&self, before: Rng, epoch: usize, after: Rng, value: bool) -> bool {
        ||| (decides(&self.left(), before, epoch, after, true) && value == true)
        ||| exists|mid: Rng| #[trigger]
            decides(&self.left(), before, epoch, mid, false) && decides(
                &self.right(),
                mid,
                epoch,
                after,
                value,
            )
    }

    fn sample(&self, rng: &mut Rng, epoch: usize) -> (value: bool) {
        let x = self.a.sample(rng, epoch);
        let first: bool = x.into();
        let ghost mid = *rng;
        assert(decides(&self.a, *old(rng), epoch, mid, first));
        if !first {
            let y = self.b.sample(rng, epoch);
            let second: bool = y.into();
            second
        } else {
            true
        }
    }

    fn reset(&self) {
        self.a.reset();
        self.b.reset();
    }
}

/// The sum of two nodes.
pub struct Sum<A, B> where A: Uncertain, B: Uncertain, A::Value: Add<B::Value> {
    a: A,
    b: B,
}

impl<A, B> Sum<A, B> where A: Uncertain, B: Uncertain, A::Value: Add<B::Value> {
    /// The node that is sampled first.
    pub closed spec fn left(&self) -> A {
        self.a
    }

    /// The node that is sampled second.
    pub closed spec fn right(&self) -> B {
        self.b
    }

    /// A node that yields `x + y` whenever `a` yields `x` and `b` then yields
    /// `y`.
    pub fn new(a: A, b: B) -> (node: Self)
        ensures
            node.left() == a,
            node.right() == b,
    {
        Self { a, b }
    }
}

impl<A, B> Uncertain for Sum<A, B> where A: Uncertain, B: Uncertain, A::Value: Add<B::Value> {
    type Value = <A::Value as Add<B::Value>>::Output;

    /// Both operands can be sampled, and the operator is defined on every
    /// pair of values that they can yield.
    open spec fn ready(&self) -> bool {
        &&& self.left().ready()
        &&& self.right().ready()
        &&& forall|x: A::Value, y: B::Value|
            #![trigger can_yield(&self.left(), x), can_yield(&self.right(), y)]
            can_yield(&self.left(), x) && can_yield(&self.right(), y) ==> x.add_req(y)
    }

    /// One draw of the left node, then one draw of the right node, which
    /// starts where the first draw left the source, then the operator.
    open spec fn yields(&self, before: Rng, epoch: usize, after: Rng, value: Self::Value) -> bool {
        exists|x: A::Value, mid: Rng, y: B::Value|
            #![trigger self.left().yields(before, epoch, mid, x), self.right().yields(mid, epoch, after, y)]
            {
                &&& self.left().yields(before, epoch, mid, x)
                &&& self.right().yields(mid, epoch, after, y)
                &&& call_ensures(<A::Value as Add<B::Value>>::add, (x, y), value)
            }
    }

    fn sample(&self, rng: &mut Rng, epoch: usize) -> (value: Self::Value) {
        let x = self.a.sample(rng, epoch);
        assert(may_yield(&self.a, epoch, x));
        assert(can_yield(&self.a, x));
        let y = self.b.sample(rng, epoch);
        assert(may_yield(&self.b, epoch, y));
        assert(can_yield(&self.b, y));
        x + y
    }

    fn reset(&self) {
        self.a.reset();
        self.b.reset();
    }
}

/// The difference of two nodes.
pub struct Difference<A, B> where A: Uncertain, B: Uncertain, A::Value: Sub<B::Value> {
    a: A,
    b: B,
}

impl<A, B> Difference<A, B> where A: Uncertain, B: Uncertain, A::Value: Sub<B::Value> {
    /// The node that is sampled first.
    pub closed spec fn left(&self) -> A {
        self.a
    }

    /// The node that is sampled second.
    pub closed spec fn right(&self) -> B {
        self.b
    }

    /// A node that yields `x - y` whenever `a` yields `x` and `b` then yields
    /// `y`.
    pub fn new(a: A, b: B) -> (node: Self)
        ensures
            node.left() == a,
            node.right() == b,
    {
        Self { a, b }
    }
}

impl<A, B> Uncertain for Difference<A, B> where A: Uncertain, B: Uncertain, A::Value: Sub<B::Value> {
    type Value = <A::Value as Sub<B::Value>>::Output;

    /// Both operands can be sampled, and the operator is defined on every
    /// pair of values that they can yield.
    open spec fn ready(&self) -> bool {
        &&& self.left().ready()
        &&& self.right().ready()
        &&& forall|x: A::Value, y: B::Value|
            #![trigger can_yield(&self.left(), x), can_yield(&self.right(), y)]
            can_yield(&self.left(), x) && can_yield(&self.right(), y) ==> x.sub_req(y)
    }

    /// One draw of the left node, then one draw of the right node, which
    /// starts where the first draw left the source, then the operator.
    open spec fn yields(&self, before: Rng, epoch: usize, after: Rng, value: Self::Value) -> bool {
        exists|x: A::Value, mid: Rng, y: B::Value|
            #![trigger self.left().yields(before, epoch, mid, x), self.right().yields(mid, epoch, after, y)]
            {
                &&& self.left().yields(before, epoch, mid, x)
                &&& self.right().yields(mid, epoch, after, y)
                &&& call_ensures(<A::Value as Sub<B::Value>>::sub, (x, y), value)
            }
    }

    fn sample(&self, rng: &mut Rng, epoch: usize) -> (value: Self::Value) {
        let x = self.a.sample(rng, epoch);
        assert(may_yield(&self.a, epoch, x));
        assert(can_yield(&self.a, x));
        let y = self.b.sample(rng, epoch);
        assert(may_yield(&self.b, epoch, y));
        assert(can_yield(&self.b, y));
        x - y
    }

    fn reset(&self) {
        self.a.reset();
        self.b.reset();
    }
}

/// The product of two nodes.
pub struct Product<A, B> where A: Uncertain, B: Uncertain, A::Value: Mul<B::Value> {
    a: A,
    b: B,
}

impl<A, B> Product<A, B> where A: Uncertain, B: Uncertain, A::Value: Mul<B::Value> {
    /// The node that is sampled first.
    pub closed spec fn left(&self) -> A {
        self.a
    }

    /// The node that is sampled second.
    pub closed spec fn right(&self) -> B {
        self.b
    }

    /// A node that yields `x * y` whenever `a` yields `x` and `b` then yields
    /// `y`.
    pub fn new(a: A, b: B) -> (node: Self)
        ensures
            node.left() == a,
            node.right() == b,
    {
        Self { a, b }
    }
}

impl<A, B> Uncertain for Product<A, B> where A: Uncertain, B: Uncertain, A::Value: Mul<B::Value> {
    type Value = <A::Value as Mul<B::Value>>::Output;

    /// Both operands can be sampled, and the operator is defined on every
    /// pair of values that they can yield.
    open spec fn ready(&self) -> bool {
        &&& self.left().ready()
        &&& self.right().ready()
        &&& forall|x: A::Value, y: B::Value|
            #![trigger can_yield(&self.left(), x), can_yield(&self.right(), y)]
            can_yield(&self.left(), x) && can_yield(&self.right(), y) ==> x.mul_req(y)
    }

    /// One draw of the left node, then one draw of the right node, which
    /// starts where the first draw left the source, then the operator.
    open spec fn yields(&self, before: Rng, epoch: usize, after: Rng, value: Self::Value) -> bool {
        exists|x: A::Value, mid: Rng, y: B::Value|
            #![trigger self.left().yields(before, epoch, mid, x), self.right().yields(mid, epoch, after, y)]
            {
                &&& self.left().yields(before, epoch, mid, x)
                &&& self.right().yields(mid, epoch, after, y)
                &&& call_ensures(<A::Value as Mul<B::Value>>::mul, (x, y), value)
            }
    }

    fn sample(&self, rng: &mut Rng, epoch: usize) -> (value: Self::Value) {
        let x = self.a.sample(rng, epoch);
        assert(may_yield(&self.a, epoch, x));
        assert(can_yield(&self.a, x));
        let y = self.b.sample(rng, epoch);
        assert(may_yield(&self.b, epoch, y));
        assert(can_yield(&self.b, y));
        x * y
    }

    fn reset(&self) {
        self.a.reset();
        self.b.reset();
    }
}

/// The ratio of two nodes.
pub struct Ratio<A, B> where A: Uncertain, B: Uncertain, A::Value: Div<B::Value> {
    a: A,
    b: B,
}

impl<A, B> Ratio<A, B> where A: Uncertain, B: Uncertain, A::Value: Div<B::Value> {
    /// The node that is sampled first.
    pub closed spec fn left(&self) -> A {
        self.a
    }

    /// The node that is sampled second.
    pub closed spec fn right(&self) -> B {
        self.b
    }

    /// A node that yields `x / y` whenever `a` yields `x` and `b` then yields
    /// `y`.
    pub fn new(a: A, b: B) -> (node: Self)
        ensures
            node.left() == a,
            node.right() == b,
    {
        Self { a, b }
    }
}

impl<A, B> Uncertain for Ratio<A, B> where A: Uncertain, B: Uncertain, A::Value: Div<B::Value> {
    type Value = <A::Value as Div<B::Value>>::Output;

    /// Both operands can be sampled, and the operator is defined on every
    /// pair of values that they can yield.
    open spec fn ready(&self) -> bool {
        &&& self.left().ready()
        &&& self.right().ready()
        &&& forall|x: A::Value, y: B::Value|
            #![trigger can_yield(&self.left(), x), can_yield(&self.right(), y)]
            can_yield(&self.left(), x) && can_yield(&self.right(), y) ==> x.div_req(y)
    }

    /// One draw of the left node, then one draw of the right node, which
    /// starts where the first draw left the source, then the operator.
    open spec fn yields(&self, before: Rng, epoch: usize, after: Rng, value: Self::Value) -> bool {
        exists|x: A::Value, mid: Rng, y: B::Value|
            #![trigger self.left().yields(before, epoch, mid, x), self.right().yields(mid, epoch, after, y)]
            {
                &&& self.left().yields(before, epoch, mid, x)
                &&& self.right().yields(mid, epoch, after, y)
                &&& call_ensures(<A::Value as Div<B::Value>>::div, (x, y), value)
            }
    }

    fn sample(&self, rng: &mut Rng, epoch: usize) -> (value: Self::Value) {
        let x = self.a.sample(rng, epoch);
        assert(may_yield(&self.a, epoch, x));
        assert(can_yield(&self.a, x));
        let y = self.b.sample(rng, epoch);
        assert(may_yield(&self.b, epoch, y));
        assert(can_yield(&self.b, y));
        x / y
    }

    fn reset(&self) {
        self.a.reset();
        self.b.reset();
    }
}

/// `And` does not sample its right operand when the left operand comes out
/// false: if, from `before`, the left operand cannot come out true, every draw
/// of the conjunction is false and leaves the source where the draw of the
/// left operand left it.
pub proof fn lemma_and_short_circuits<A, B>(
    node: And<A, B>,
    before: Rng,
    epoch: usize,
    after: Rng,
    value: bool,
) where A: Uncertain, B: Uncertain, A::Value: Into<bool>, B::Value: Into<bool>
    requires
        node.yields(before, epoch, after, value),
        forall|mid: Rng| !decides(&node.left(), before, epoch, mid, true),
    ensures
        !value,
        decides(&node.left(), before, epoch, after, false),
{
}

/// `Or` does not sample its right operand when the left operand comes out
/// true: if, from `before`, the left operand cannot come out false, every draw
/// of the disjunction is true and leaves the source where the draw of the
/// left operand left it.
pub proof fn lemma_or_short_circuits<A, B>(
    node: Or<A, B>,
    before: Rng,
    epoch: usize,
    after: Rng,
    value: bool,
) where A: Uncertain, B: Uncertain, A::Value: Into<bool>, B::Value: Into<bool>
    requires
        node.yields(before, epoch, after, value),
        forall|mid: Rng| !decides(&node.left(), before, epoch, mid, false),
    ensures
        value,
        decides(&node.left(), before, epoch, after, true),
{
}

} // verus!
