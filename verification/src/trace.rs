//! Runs of consecutive draws.
//!
//! A query samples its node once per epoch, at epochs 0, 1, 2, ... in this
//! order, and threads one random source through all of the draws. The
//! predicates of this module say so.

use crate::rng::Rng;
use crate::Uncertain;
use vstd::prelude::*;

verus! {

/// The `i`-th draw of a run: made at epoch `i`, it took the source from
/// `states[i]` to `states[i + 1]` and produced `values[i]`.
pub open spec fn draw_at<U: Uncertain + ?Sized>(
    node: &U,
    states: Seq<Rng>,
    values: Seq<U::Value>,
    i: int,
) -> bool {
    node.yields(states[i], i as usize, states[i + 1], values[i])
}

/// `values` were drawn from `node` one after the other, the `i`-th of them at
/// epoch `i`, and `states` are the states the source went through.
pub open spec fn in_sequence<U: Uncertain + ?Sized>(node: &U, states: Seq<Rng>, values: Seq<U::Value>) -> bool {
    &&& states.len() == values.len() + 1
    &&& forall|i: int| 0 <= i < values.len() ==> #[trigger] draw_at(node, states, values, i)
}

/// `count` consecutive draws from `node`, at epochs `0 .. count`, lead the
/// source from `before` to `after`.
pub open spec fn ran<U: Uncertain + ?Sized>(node: &U, before: Rng, after: Rng, count: nat) -> bool {
    exists|states: Seq<Rng>, values: Seq<U::Value>|
        {
            &&& #[trigger] in_sequence(node, states, values)
            &&& values.len() == count
            &&& states[0] == before
            &&& states[count as int] == after
        }
}

/// `batches` whole batches of `step` draws each, at epochs
/// `0 .. step * batches`, lead the source from `before` to `after`.
pub open spec fn ran_batches<U: Uncertain + ?Sized>(
    node: &U,
    before: Rng,
    after: Rng,
    step: nat,
    batches: nat,
) -> bool {
    ran(node, before, after, step * batches)
}

/// At least one and at most `most` whole batches of `step` draws each lead
/// the source from `before` to `after`.
pub open spec fn ran_some_batches<U: Uncertain + ?Sized>(
    node: &U,
    before: Rng,
    after: Rng,
    step: nat,
    most: nat,
) -> bool {
    exists|batches: nat|
        1 <= batches <= most && #[trigger] ran_batches(node, before, after, step, batches)
}

/// A run grows by one draw at the next epoch.
pub proof fn lemma_one_more<U: Uncertain + ?Sized>(
    node: &U,
    states: Seq<Rng>,
    values: Seq<U::Value>,
    after: Rng,
    value: U::Value,
)
    requires
        in_sequence(node, states, values),
        values.len() <= usize::MAX,
        node.yields(states[values.len() as int], values.len() as usize, after, value),
    ensures
        in_sequence(node, states.push(after), values.push(value)),
{
    let longer_states = states.push(after);
    let longer_values = values.push(value);
    assert forall|i: int| 0 <= i < longer_values.len() implies #[trigger] draw_at(
        node,
        longer_states,
        longer_values,
        i,
    ) by {
        if i < values.len() {
            assert(draw_at(node, states, values, i));
        }
    }
}

/// A run of draws that leave the source alone leaves the source alone: if no
/// draw of `node` consumes randomness, the source is after the run what it
/// was before.
pub proof fn lemma_still_draws_still_run<U: Uncertain + ?Sized>(
    node: &U,
    before: Rng,
    after: Rng,
    count: nat,
)
    requires
        ran(node, before, after, count),
        forall|from: Rng, epoch: usize, to: Rng, value: U::Value| #[trigger]
            node.yields(from, epoch, to, value) ==> to == from,
    ensures
        after == before,
{
    let (states, values) = choose|states: Seq<Rng>, values: Seq<U::Value>|
        {
            &&& #[trigger] in_sequence(node, states, values)
            &&& values.len() == count
            &&& states[0] == before
            &&& states[count as int] == after
        };
    lemma_states_stand_still(node, states, values, count);
}

/// Within a run of draws that leave the source alone, every state is the
/// first one.
proof fn lemma_states_stand_still<U: Uncertain + ?Sized>(
    node: &U,
    states: Seq<Rng>,
    values: Seq<U::Value>,
    upto: nat,
)
    requires
        in_sequence(node, states, values),
        upto <= values.len(),
        forall|from: Rng, epoch: usize, to: Rng, value: U::Value| #[trigger]
            node.yields(from, epoch, to, value) ==> to == from,
    ensures
        states[upto as int] == states[0],
    decreases upto,
{
    if upto > 0 {
        lemma_states_stand_still(node, states, values, (upto - 1) as nat);
        assert(draw_at(node, states, values, upto - 1));
    }
}

} // verus!
