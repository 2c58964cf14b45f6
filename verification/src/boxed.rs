//! A node whose type is hidden and whose cache is shared.
//!
//! Boxing a node erases its type, so that nodes built in different ways can
//! stand for one another, for example as the two branches of a `flat_map`.
//! A boxed node can be cloned; the clones share the node and its cache, so
//! that within one epoch all of them see the same value.

use crate::reference::RefUncertain;
use crate::rng::Rng;
use crate::cache::through_cache;
use crate::{clones_faithfully, Uncertain};
use std::rc::Rc;
use vstd::prelude::*;

verus! {

/// The sampling interface with the value type as a parameter: what every node
/// offers once its own type is forgotten.
pub trait Sampler<T> {
    /// Whether the node can be sampled.
    spec fn able(&self) -> bool;

    /// The draws of the node.
    spec fn gives(&self, before: Rng, epoch: usize, after: Rng, value: T) -> bool;

    /// Draw one value for the given epoch.
    fn draw(&self, rng: &mut Rng, epoch: usize) -> (value: T)
        requires
            self.able(),
        ensures
            self.gives(*old(rng), epoch, *final(rng), value),
    ;

    /// Forget every value that is cached for an epoch of an earlier query.
    fn forget(&self);
}

impl<U: Uncertain> Sampler<U::Value> for U {
    open spec fn able(&self) -> bool {
        self.ready()
    }

    open spec fn gives(&self, before: Rng, epoch: usize, after: Rng, value: U::Value) -> bool {
        self.yields(before, epoch, after, value)
    }

    fn draw(&self, rng: &mut Rng, epoch: usize) -> (value: U::Value) {
        self.sample(rng, epoch)
    }

    fn forget(&self) {
        self.reset();
    }
}

/// A node behind a pointer that hides its type.
#[verifier::reject_recursive_types(T)]
pub struct Erased<T> {
    ptr: Box<dyn Sampler<T>>,
}

impl<T> Uncertain for Erased<T> {
    type Value = T;

    closed spec fn ready(&self) -> bool {
        self.ptr.able()
    }

    closed spec fn yields(&self, before: Rng, epoch: usize, after: Rng, value: T) -> bool {
        self.ptr.gives(before, epoch, after, value)
    }

    fn sample(&self, rng: &mut Rng, epoch: usize) -> (value: T) {
        self.ptr.draw(rng, epoch)
    }

    fn reset(&self) {
        self.ptr.forget();
    }
}

/// An opaque uncertain value with shared ownership. This is useful when you
/// need to conditionally return different uncertain values.
#[verifier::reject_recursive_types(T)]
pub struct BoxedUncertain<T: Clone> {
    ptr: Rc<RefUncertain<Erased<T>>>,
}

impl<T: Clone> BoxedUncertain<T> {
    /// The node behind the pointer, its type forgotten.
    pub closed spec fn contained(&self) -> Erased<T> {
        self.ptr.inner()
    }

    /// Box `contained` and give it an empty cache.
    pub fn new<U>(contained: U) -> (node: Self) where U: 'static + Uncertain<Value = T>
        ensures
            node.contained().ready() == contained.ready(),
            forall|before: Rng, epoch: usize, after: Rng, value: T| #[trigger]
                node.contained().yields(before, epoch, after, value) == contained.yields(
                    before,
                    epoch,
                    after,
                    value,
                ),
    {
        let erased = Erased { ptr: Box::new(contained) };
        assert(erased.ptr.able() == contained.able());
        assert forall|before: Rng, epoch: usize, after: Rng, value: T| #[trigger]
            erased.yields(before, epoch, after, value) == contained.yields(
                before,
                epoch,
                after,
                value,
            ) by {
            assert(erased.ptr.gives(before, epoch, after, value) == contained.gives(
                before,
                epoch,
                after,
                value,
            ));
        }
        Self { ptr: Rc::new(RefUncertain::new(erased)) }
    }
}

impl<T: Clone> Clone for BoxedUncertain<T> {
    /// Another handle to the same node and the same cache.
    fn clone(&self) -> (other: Self)
        ensures
            other == *self,
    {
        Self { ptr: self.ptr.clone() }
    }
}

impl<T: Clone> Uncertain for BoxedUncertain<T> {
    type Value = T;

    open spec fn ready(&self) -> bool {
        self.contained().ready() && clones_faithfully::<T>()
    }

    /// A draw goes through the shared cache: it is a fresh draw of the
    /// contained node, unless the cache holds a draw of the same epoch, which
    /// is then returned and leaves the source untouched.
    open spec fn yields(&self, before: Rng, epoch: usize, after: Rng, value: T) -> bool {
        through_cache(&self.contained(), before, epoch, after, value)
    }

    fn sample(&self, rng: &mut Rng, epoch: usize) -> (value: T) {
        self.ptr.sample(rng, epoch)
    }

    fn reset(&self) {
        self.ptr.reset();
    }
}

} // verus!
