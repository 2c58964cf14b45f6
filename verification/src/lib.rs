//! Computation with uncertain values.
//!
//! An uncertain value is a node of a lazily sampled graph: a leaf draws from a
//! distribution, a combinator derives its value from the values of its
//! operands. Two queries turn such a graph into an answer: `pr` decides whether
//! a boolean node is true with at least a given probability, `expect` estimates
//! the mean of a numeric node to a given precision.
//!
//! Every node is sampled through [`Uncertain::sample`], once per *epoch*. The
//! contracts describe a draw as a relation between the random source before
//! the draw, the epoch, the source after the draw and the value obtained.

use crate::adapters::{And, Difference, Not, Or, Product, Ratio, Sum};
use crate::arith::{less_than, less_than_is, one, one_is, zero, zero_is};
use crate::rng::{seeded_source, DEFAULT_STATE, DEFAULT_STREAM};
use num_traits::Float;
use vstd::prelude::*;

pub mod adapters;
pub mod arith;
pub mod boxed;
pub mod cache;
pub mod dist;
pub mod expectation;
pub mod point;
pub mod reference;
pub mod rng;
pub mod sprt;
pub mod trace;

pub use adapters::{FlatMap, Join, Mapped};
pub use boxed::BoxedUncertain;
pub use dist::Distribution;
pub use expectation::ConvergenceError;
pub use point::PointMass;
pub use reference::{CachedUncertain, RefUncertain};
pub use rng::Rng;

verus! {

/// A node that can be sampled.
pub trait Uncertain {
    /// The type of the contained value.
    type Value;

    /// Whether the node can be sampled at all: what its closures and operators
    /// demand of their arguments holds for every value that can reach them.
    ///
    /// A node that says nothing else can always be sampled.
    open spec fn ready(&self) -> bool {
        true
    }

    /// The draws this node admits: starting from the source `before`, a draw at
    /// `epoch` may leave the source as `after` and produce `value`.
    ///
    /// A node that says nothing else admits every draw.
    open spec fn yields(&self, before: Rng, epoch: usize, after: Rng, value: Self::Value) -> bool {
        true
    }

    /// Draw one value for the given epoch.
    ///
    /// A node that can be reached twice within one graph (through a shared
    /// reference or a clone) must return the same value for the same epoch,
    /// whatever state the source is in.
    fn sample(&self, rng: &mut Rng, epoch: usize) -> (value: Self::Value)
        requires
            self.ready(),
        ensures
            self.yields(*old(rng), epoch, *final(rng), value),
    ;

    /// Forget every value that is cached for an epoch of an earlier query.
    ///
    /// A query calls this before it samples epoch 0, so that its epochs are
    /// not mistaken for those of the query before. A node with a cache
    /// empties it; a node with operands passes the call on to them; any other
    /// node has nothing to do.
    fn reset(&self) {
    }
}

/// Some draw of `node` at `epoch` produces `value`.
pub open spec fn may_yield<U: Uncertain + ?Sized>(node: &U, epoch: usize, value: U::Value) -> bool {
    exists|before: Rng, after: Rng| node.yields(before, epoch, after, value)
}

/// Some draw of `node`, at whatever epoch, produces `value`.
pub open spec fn can_yield<U: Uncertain + ?Sized>(node: &U, value: U::Value) -> bool {
    exists|epoch: usize| may_yield(node, epoch, value)
}

/// Cloning a `V` gives back an equal value.
pub open spec fn clones_faithfully<V: Clone>() -> bool {
    forall|a: V, b: V| cloned(a, b) ==> a == b
}

/// A query was asked with an argument outside of its domain.
#[derive(Debug, Clone, Copy, PartialEq, Eq, Structural)]
pub enum InvalidArgument {
    /// The probability handed to `pr` does not lie strictly between 0 and 1.
    Probability,
    /// The precision handed to `expect` is not positive.
    Precision,
}

impl InvalidArgument {
    /// The refusal of a probability that compares to 0 and to 1 as given:
    /// `pr` takes what is above 0 and below 1, and refuses everything else.
    pub fn of_probability(above_zero: bool, below_one: bool) -> (refusal: Option<Self>)
        ensures
            refusal == if above_zero && below_one {
                None
            } else {
                Some(InvalidArgument::Probability)
            },
    {
        if above_zero && below_one {
            None
        } else {
            Some(InvalidArgument::Probability)
        }
    }

    /// The refusal of a precision that compares to 0 as given: `expect`
    /// takes what is above 0, and refuses everything else.
    pub fn of_precision(above_zero: bool) -> (refusal: Option<Self>)
        ensures
            refusal == if above_zero {
                None
            } else {
                Some(InvalidArgument::Precision)
            },
    {
        if above_zero {
            None
        } else {
            Some(InvalidArgument::Precision)
        }
    }
}

/// `refused` says whether `probability` is not known to lie in the open
/// interval between 0 and 1: it is refused unless `0 < probability` and
/// `probability < 1` both came out true. A value that has no order, such as
/// a NaN, is refused.
pub open spec fn probability_refused<P: Float>(probability: P, refused: bool) -> bool {
    exists|nothing: P, unit: P, above: bool, below: bool|
        #![trigger less_than_is(nothing, probability, above), less_than_is(probability, unit, below)]
        {
            &&& zero_is(nothing)
            &&& one_is(unit)
            &&& less_than_is(nothing, probability, above)
            &&& less_than_is(probability, unit, below)
            &&& refused == !(above && below)
        }
}

/// `refused` says whether `precision` is not known to be positive: it is
/// refused unless `0 < precision` came out true. A value that has no order,
/// such as a NaN, is refused.
pub open spec fn precision_refused<F: Float>(precision: F, refused: bool) -> bool {
    exists|nothing: F, above: bool|
        #![trigger less_than_is(nothing, precision, above)]
        zero_is(nothing) && less_than_is(nothing, precision, above) && refused == !above
}

/// Queries and combinators, available on every node.
pub trait UncertainExt: Uncertain {
    /// Determine if the probability of obtaining `true` from this uncertain
    /// value is at least `probability`.
    ///
    /// The answer comes from a sequential probability ratio test (see
    /// [`sprt`]) on draws from a source seeded with the default seed. A
    /// `probability` that does not lie strictly between 0 and 1 is refused.
    fn pr<P>(&self, probability: P) -> (answer: Result<bool, InvalidArgument>) where
        Self::Value: Into<bool>,
        P: Float,

        requires
            self.ready(),
        ensures
            probability_refused(probability, answer is Err),
            match answer {
                Ok(accepted) => sprt::decided_by_default(self, probability, accepted),
                Err(refusal) => refusal == InvalidArgument::Probability,
            },
            answer is Ok ==> exists|after: Rng| #[trigger]
                sprt::tested(self, seeded_source(DEFAULT_STATE, DEFAULT_STREAM), after),
    {
        let nothing: P = zero();
        let above_zero = less_than(nothing, probability);
        let unit: P = one();
        let below_one = less_than(probability, unit);
        match InvalidArgument::of_probability(above_zero, below_one) {
            Some(refusal) => Err(refusal),
            None => {
                let accepted = sprt::compute(self, probability);
                Ok(accepted)
            },
        }
    }

    /// As [`pr`](Self::pr), on draws from the given source.
    ///
    /// A refusal comes before anything is drawn: it leaves the source as it
    /// was.
    fn pr_with<P>(&self, probability: P, rng: &mut Rng) -> (answer: Result<
        bool,
        InvalidArgument,
    >) where Self::Value: Into<bool>, P: Float
        requires
            self.ready(),
        ensures
            probability_refused(probability, answer is Err),
            match answer {
                Ok(accepted) => sprt::decided(
                    self,
                    probability,
                    *old(rng),
                    *final(rng),
                    accepted,
                ),
                Err(refusal) => refusal == InvalidArgument::Probability && *final(rng) == *old(
                    rng,
                ),
            },
    {
        let nothing: P = zero();
        let above_zero = less_than(nothing, probability);
        let unit: P = one();
        let below_one = less_than(probability, unit);
        match InvalidArgument::of_probability(above_zero, below_one) {
            Some(refusal) => Err(refusal),
            None => {
                let accepted = sprt::compute_with(self, probability, rng);
                Ok(accepted)
            },
        }
    }

    /// Calculate the expectation of this uncertain value to the desired
    /// precision.
    ///
    /// The estimate comes from the online estimator of [`expectation`], on
    /// draws from a source seeded with the default seed. If it does not
    /// converge to within `precision`, the inner result is the record of the
    /// estimate that was reached. A `precision` that is not positive is refused.
    fn expect(&self, precision: Self::Value) -> (answer: Result<
        Result<Self::Value, ConvergenceError<Self::Value>>,
        InvalidArgument,
    >) where Self::Value: Float
        requires
            self.ready(),
        ensures
            precision_refused(precision, answer is Err),
            answer matches Err(refusal) ==> refusal == InvalidArgument::Precision,
            answer matches Ok(outcome) ==> expectation::estimated_by_default(
                self,
                precision,
                outcome,
            ),
            answer matches Ok(outcome) ==> match outcome {
                Ok(_) => exists|after: Rng| #[trigger]
                    expectation::converged(
                        self,
                        seeded_source(DEFAULT_STATE, DEFAULT_STREAM),
                        after,
                    ),
                Err(failure) => failure.precision() == precision && exists|after: Rng| #[trigger]
                    expectation::exhausted(
                        self,
                        seeded_source(DEFAULT_STATE, DEFAULT_STREAM),
                        after,
                    ),
            },
    {
        let nothing: Self::Value = zero();
        let above_zero = less_than(nothing, precision);
        match InvalidArgument::of_precision(above_zero) {
            Some(refusal) => Err(refusal),
            None => Ok(expectation::compute(self, precision)),
        }
    }

    /// As [`expect`](Self::expect), on draws from the given source.
    ///
    /// A refusal comes before anything is drawn: it leaves the source as it
    /// was.
    fn expect_with(&self, precision: Self::Value, rng: &mut Rng) -> (answer: Result<
        Result<Self::Value, ConvergenceError<Self::Value>>,
        InvalidArgument,
    >) where Self::Value: Float
        requires
            self.ready(),
        ensures
            precision_refused(precision, answer is Err),
            match answer {
                Ok(outcome) => expectation::estimated(
                    self,
                    precision,
                    *old(rng),
                    *final(rng),
                    outcome,
                ),
                Err(refusal) => refusal == InvalidArgument::Precision && *final(rng) == *old(rng),
            },
    {
        let nothing: Self::Value = zero();
        let above_zero = less_than(nothing, precision);
        match InvalidArgument::of_precision(above_zero) {
            Some(refusal) => Err(refusal),
            None => {
                let outcome = expectation::compute_with(self, precision, rng);
                Ok(outcome)
            },
        }
    }

    /// Box this uncertain value, such that its type becomes opaque and the
    /// handle can be cloned. The clones share one cache.
    fn into_boxed(self) -> (node: BoxedUncertain<Self::Value>) where
        Self: 'static + Sized,
        Self::Value: Clone,

        ensures
            node.contained().ready() == self.ready(),
            forall|before: Rng, epoch: usize, after: Rng, value: Self::Value| #[trigger]
                node.contained().yields(before, epoch, after, value) == self.yields(
                    before,
                    epoch,
                    after,
                    value,
                ),
    {
        BoxedUncertain::new(self)
    }

    /// Bundle this uncertain value with a cache, so it can be reused in a
    /// calculation through references.
    fn into_ref(self) -> (node: RefUncertain<Self>) where Self: Sized, Self::Value: Clone
        ensures
            node.inner() == self,
    {
        RefUncertain::new(self)
    }

    /// Bundle this uncertain value with a cache: another name for
    /// [`into_ref`](Self::into_ref).
    fn into_cached(self) -> (node: CachedUncertain<Self>) where Self: Sized, Self::Value: Clone
        ensures
            node.inner() == self,
    {
        RefUncertain::new(self)
    }

    /// Takes an uncertain value and produces another which generates values
    /// by calling a closure.
    fn map<O, F>(self, func: F) -> (node: Mapped<Self, F>) where
        Self: Sized,
        F: Fn(Self::Value) -> O,

        ensures
            node.operand() == self,
            node.function() == func,
    {
        Mapped::new(self, func)
    }

    /// Takes an uncertain value and produces another which generates values
    /// by calling a closure to build a fresh uncertain value that can depend
    /// on the value contained in self.
    fn flat_map<O, F>(self, func: F) -> (node: FlatMap<Self, F>) where
        Self: Sized,
        O: Uncertain,
        F: Fn(Self::Value) -> O,

        ensures
            node.operand() == self,
            node.function() == func,
    {
        FlatMap::new(self, func)
    }

    /// Combine two uncertain values using a closure. The closure receives
    /// `self` as the first, and `other` as the second argument.
    fn join<O, U, F>(self, other: U, func: F) -> (node: Join<Self, U, F>) where
        Self: Sized,
        U: Uncertain,
        F: Fn(Self::Value, U::Value) -> O,

        ensures
            node.left() == self,
            node.right() == other,
            node.function() == func,
    {
        Join::new(self, other, func)
    }

    /// Negate the boolean contained in self.
    fn not(self) -> (node: Not<Self>) where Self: Sized, Self::Value: Into<bool>
        ensures
            node.operand() == self,
    {
        Not::new(self)
    }

    /// Combines two boolean values. `other` is not sampled in an epoch in
    /// which `self` is already false.
    fn and<U>(self, other: U) -> (node: And<Self, U>) where
        Self: Sized,
        Self::Value: Into<bool>,
        U: Uncertain,
        U::Value: Into<bool>,

        ensures
            node.left() == self,
            node.right() == other,
    {
        And::new(self, other)
    }

    /// Combines two boolean values. `other` is not sampled in an epoch in
    /// which `self` is already true.
    fn or<U>(self, other: U) -> (node: Or<Self, U>) where
        Self: Sized,
        Self::Value: Into<bool>,
        U: Uncertain,
        U::Value: Into<bool>,

        ensures
            node.left() == self,
            node.right() == other,
    {
        Or::new(self, other)
    }

    /// Add two uncertain values.
    fn add<U>(self, other: U) -> (node: Sum<Self, U>) where
        Self: Sized,
        U: Uncertain,
        Self::Value: std::ops::Add<U::Value>,

        ensures
            node.left() == self,
            node.right() == other,
    {
        Sum::new(self, other)
    }

    /// Subtract two uncertain values.
    fn sub<U>(self, other: U) -> (node: Difference<Self, U>) where
        Self: Sized,
        U: Uncertain,
        Self::Value: std::ops::Sub<U::Value>,

        ensures
            node.left() == self,
            node.right() == other,
    {
        Difference::new(self, other)
    }

    /// Multiply two uncertain values.
    fn mul<U>(self, other: U) -> (node: Product<Self, U>) where
        Self: Sized,
        U: Uncertain,
        Self::Value: std::ops::Mul<U::Value>,

        ensures
            node.left() == self,
            node.right() == other,
    {
        Product::new(self, other)
    }

    /// Divide two uncertain values.
    fn div<U>(self, other: U) -> (node: Ratio<Self, U>) where
        Self: Sized,
        U: Uncertain,
        Self::Value: std::ops::Div<U::Value>,

        ensures
            node.left() == self,
            node.right() == other,
    {
        Ratio::new(self, other)
    }
}

impl<U: Uncertain + ?Sized> UncertainExt for U {

}

} // verus!
