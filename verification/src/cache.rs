//! The single-slot cache that makes a node repeatable.
//!
//! A node that is reachable from several places of one graph is sampled
//! several times per epoch. The cache holds the value of the latest draw
//! together with the epoch it was drawn for; a request for the same epoch is
//! answered from the slot, without touching the random source, and a request
//! for another epoch draws afresh and overwrites the slot.

use crate::rng::Rng;
use crate::{clones_faithfully, may_yield, Uncertain};
use vstd::prelude::*;

verus! {

/// What the slot holds for `epoch`: the cached value if it was drawn for
/// `epoch`, nothing otherwise.
pub open spec fn recalled<V>(held: Option<(usize, V)>, epoch: usize) -> Option<V> {
    match held {
        Some(entry) => if entry.0 == epoch {
            Some(entry.1)
        } else {
            None
        },
        None => None,
    }
}

/// One draw through a slot: with `held` in the slot, a request at `epoch`
/// takes the source from `before` to `after`, returns `value` and leaves
/// `kept` in the slot.
///
/// If the slot holds a value for `epoch`, that value is returned and the
/// source is left alone; otherwise the value is a fresh draw from `node`. In
/// both cases the slot ends up holding a clone of the value, for `epoch`.
pub open spec fn replays<U: Uncertain + ?Sized>(
    node: &U,
    held: Option<(usize, U::Value)>,
    before: Rng,
    epoch: usize,
    after: Rng,
    value: U::Value,
    kept: Option<(usize, U::Value)>,
) -> bool where U::Value: Clone {
    &&& match recalled(held, epoch) {
        Some(cached) => value == cached && after == before,
        None => node.yields(before, epoch, after, value),
    }
    &&& kept matches Some(entry) && entry.0 == epoch && cloned(value, entry.1)
}

/// What a slot in front of `node` may hold: nothing, or a value that `node`
/// yielded for the epoch it is filed under.
pub open spec fn holds_a_draw<U: Uncertain + ?Sized>(
    node: &U,
    held: Option<(usize, U::Value)>,
) -> bool {
    held matches Some(entry) ==> may_yield(node, entry.0, entry.1)
}

/// A draw of `node` through a slot of which only so much is known: it holds
/// nothing but draws of `node`.
pub open spec fn through_cache<U: Uncertain + ?Sized>(
    node: &U,
    before: Rng,
    epoch: usize,
    after: Rng,
    value: U::Value,
) -> bool where U::Value: Clone {
    exists|held: Option<(usize, U::Value)>, kept: Option<(usize, U::Value)>|
        holds_a_draw(node, held) && #[trigger] replays(
            node,
            held,
            before,
            epoch,
            after,
            value,
            kept,
        )
}

/// Take the value that the slot holds for `epoch`, if it holds one.
pub fn recall<V>(held: Option<(usize, V)>, epoch: usize) -> (hit: Option<V>)
    ensures
        hit == recalled(held, epoch),
{
    match held {
        Some((cache_epoch, cache_value)) => {
            if cache_epoch == epoch {
                Some(cache_value)
            } else {
                None
            }
        },
        None => None,
    }
}

/// Sample `node` at `epoch` through the slot `held`.
///
/// Returns the value together with the new content of the slot.
pub fn sample_through<U>(
    node: &U,
    held: Option<(usize, U::Value)>,
    rng: &mut Rng,
    epoch: usize,
) -> (out: (U::Value, Option<(usize, U::Value)>)) where U: Uncertain + ?Sized, U::Value: Clone
    requires
        node.ready(),
    ensures
        replays(node, held, *old(rng), epoch, *final(rng), out.0, out.1),
        holds_a_draw(node, held) && clones_faithfully::<U::Value>() ==> holds_a_draw(node, out.1),
{
    let value = match recall(held, epoch) {
        Some(cache_value) => cache_value,
        None => node.sample(rng, epoch),
    };
    let kept = Some((epoch, value.clone()));
    assert(holds_a_draw(node, held) ==> may_yield(node, epoch, value));
    (value, kept)
}

/// Sampling twice at the same epoch gives the same value, and the second
/// request leaves the random source alone, whatever state the source is in.
pub proof fn lemma_same_epoch_same_value<U: Uncertain + ?Sized>(
    node: &U,
    held: Option<(usize, U::Value)>,
    epoch: usize,
    first_before: Rng,
    first_after: Rng,
    first: U::Value,
    between: Option<(usize, U::Value)>,
    second_before: Rng,
    second_after: Rng,
    second: U::Value,
    kept: Option<(usize, U::Value)>,
) where U::Value: Clone
    requires
        clones_faithfully::<U::Value>(),
        replays(node, held, first_before, epoch, first_after, first, between),
        replays(node, between, second_before, epoch, second_after, second, kept),
    ensures
        second == first,
        second_after == second_before,
        kept == between,
{
}

/// Sampling at another epoch than the one in the slot is a fresh draw from
/// the node, independent of what the slot held.
pub proof fn lemma_other_epoch_fresh_draw<U: Uncertain + ?Sized>(
    node: &U,
    held: Option<(usize, U::Value)>,
    epoch: usize,
    before: Rng,
    after: Rng,
    value: U::Value,
    kept: Option<(usize, U::Value)>,
) where U::Value: Clone
    requires
        replays(node, held, before, epoch, after, value, kept),
        held matches Some(entry) ==> entry.0 != epoch,
    ensures
        node.yields(before, epoch, after, value),
{
}

/// Whatever a slot in front of `node` held, a draw through it is a draw of
/// `node`: a fresh one, or an earlier one of the same epoch, which costs the
/// source nothing.
pub proof fn lemma_cached_draw_is_a_draw<U: Uncertain + ?Sized>(
    node: &U,
    before: Rng,
    epoch: usize,
    after: Rng,
    value: U::Value,
) where U::Value: Clone
    requires
        through_cache(node, before, epoch, after, value),
    ensures
        may_yield(node, epoch, value),
        node.yields(before, epoch, after, value) || after == before,
{
}

} // verus!
