//! The sequential probability ratio test behind `pr`.
//!
//! The test weighs two hypotheses about the rate at which a boolean node comes
//! out true: that the rate is at least the threshold, and that it is below it.
//! Each hypothesis is a Bernoulli law halfway between the threshold and the
//! end of the unit interval on its side. Every draw adds the logarithm of the
//! ratio of the two likelihoods of its outcome to a running sum; after each
//! batch of [`STEP`] draws the sum is held against two boundaries, which stand
//! for an indifference of 0.999 on either side, and the test stops as soon as
//! the sum lies outside them. After [`MAXS`] batches it stops anyway.

use crate::adapters::ops::converts;
use crate::arith::{
    difference, difference_is, half, half_is, less_than, less_than_is, log_is, natural_log, one,
    one_is, product, product_is, quotient, quotient_is, sum, sum_is, two, two_is, zero, zero_is,
};
use crate::rng::{seeded, seeded_source, Rng, DEFAULT_STATE, DEFAULT_STREAM};
use crate::trace::{in_sequence, lemma_one_more, ran_batches, ran_some_batches};
use crate::Uncertain;
use num_traits::Float;
use vstd::prelude::*;

verus! {

/// Draws per batch: the boundaries are looked at after every `STEP` draws.
pub const STEP: usize = 10;

/// Batches after which the test gives up.
pub const MAXS: usize = 1000;

/// The test ran from `before` to `after`: it drew at least one and at most
/// [`MAXS`] whole batches of [`STEP`] values, one value per epoch, at epochs
/// 0, 1, 2, ... in this order.
pub open spec fn tested<U: Uncertain + ?Sized>(node: &U, before: Rng, after: Rng) -> bool {
    ran_some_batches(node, before, after, STEP as nat, MAXS as nat)
}

/// `r` is a ten of `F`: `(2 * 2 + 1) * 2`.
pub open spec fn ten_is<F: Float>(r: F) -> bool {
    exists|pair: F, four: F, unit: F, five: F|
        #![trigger product_is(pair, pair, four), sum_is(four, unit, five)]
        {
            &&& two_is(pair)
            &&& product_is(pair, pair, four)
            &&& one_is(unit)
            &&& sum_is(four, unit, five)
            &&& product_is(five, pair, r)
        }
}

/// `r` is a thousand of `F`: `10 * 10 * 10`.
pub open spec fn thousand_is<F: Float>(r: F) -> bool {
    exists|ten: F, hundred: F|
        #![trigger product_is(ten, ten, hundred)]
        ten_is(ten) && product_is(ten, ten, hundred) && product_is(hundred, ten, r)
}

/// `d` is the indifference of both hypotheses: `(1000 - 1) / 1000`.
pub open spec fn indifference_is<F: Float>(d: F) -> bool {
    exists|thousand: F, unit: F, below: F|
        #![trigger difference_is(thousand, unit, below)]
        {
            &&& thousand_is(thousand)
            &&& one_is(unit)
            &&& difference_is(thousand, unit, below)
            &&& quotient_is(below, thousand, d)
        }
}

/// `p` is the rate of the hypothesis that accepts the threshold `prob`:
/// halfway between `prob` and one, `0.5 * (1 + prob)`.
pub open spec fn accept_rate_is<F: Float>(prob: F, p: F) -> bool {
    exists|h: F, unit: F, above: F|
        #![trigger half_is(h), sum_is(unit, prob, above)]
        half_is(h) && one_is(unit) && sum_is(unit, prob, above) && product_is(h, above, p)
}

/// `p` is the rate of the hypothesis that rejects the threshold `prob`:
/// halfway between zero and `prob`, `0.5 * prob`.
pub open spec fn reject_rate_is<F: Float>(prob: F, p: F) -> bool {
    exists|h: F| #![trigger half_is(h)] half_is(h) && product_is(h, prob, p)
}

/// `r` is the likelihood of the outcome `val` under a Bernoulli law of rate
/// `p`: `p` for `true`, `1 - p` for `false`.
pub open spec fn likelihood_is<F: Float>(p: F, val: bool, r: F) -> bool {
    if val {
        r == p
    } else {
        exists|unit: F| #![trigger one_is(unit)] one_is(unit) && difference_is(unit, p, r)
    }
}

/// `r` is the likelihood of the outcome `val` under the hypothesis that
/// accepts the threshold `prob`.
pub open spec fn accept_likelihood_is<F: Float>(prob: F, val: bool, r: F) -> bool {
    exists|p: F| #![trigger accept_rate_is(prob, p)] accept_rate_is(prob, p) && likelihood_is(p, val, r)
}

/// `r` is the likelihood of the outcome `val` under the hypothesis that
/// rejects the threshold `prob`.
pub open spec fn reject_likelihood_is<F: Float>(prob: F, val: bool, r: F) -> bool {
    exists|p: F| #![trigger reject_rate_is(prob, p)] reject_rate_is(prob, p) && likelihood_is(p, val, r)
}

/// `r` is what a draw with outcome `val` adds to the running sum: the
/// logarithm of its likelihood under the rejecting hypothesis, minus the
/// logarithm of its likelihood under the accepting one.
pub open spec fn log_likelihood_ratio_is<F: Float>(prob: F, val: bool, r: F) -> bool {
    exists|rejecting: F, accepting: F, log_rejecting: F, log_accepting: F|
        #![trigger log_is(rejecting, log_rejecting), log_is(accepting, log_accepting)]
        {
            &&& reject_likelihood_is(prob, val, rejecting)
            &&& accept_likelihood_is(prob, val, accepting)
            &&& log_is(rejecting, log_rejecting)
            &&& log_is(accepting, log_accepting)
            &&& difference_is(log_rejecting, log_accepting, r)
        }
}

/// Ten, as `(2 * 2 + 1) * 2`.
fn ten<F: Float>() -> (r: F)
    ensures
        ten_is(r),
{
    let pair: F = two();
    let four: F = product(pair, pair);
    let unit: F = one();
    let five: F = sum(four, unit);
    product(five, pair)
}

/// A thousand, as `10 * 10 * 10`.
fn thousand<F: Float>() -> (r: F)
    ensures
        thousand_is(r),
{
    let base: F = ten();
    let hundred: F = product(base, base);
    product(hundred, base)
}

/// The indifference 0.999 of both hypotheses, as `(1000 - 1) / 1000`.
///
/// The upper boundary of the running sum is `ln(d / (1 - d))` and the lower
/// one `ln((1 - d) / d)`, with `d` the indifference.
pub fn indifference<F: Float>() -> (d: F)
    ensures
        indifference_is(d),
{
    let all: F = thousand();
    let unit: F = one();
    let below: F = difference(all, unit);
    quotient(below, all)
}

/// The likelihood of the outcome `val` under a Bernoulli law of rate `p`.
fn likelihood<F: Float>(p: F, val: bool) -> (r: F)
    ensures
        likelihood_is(p, val, r),
{
    if val {
        p
    } else {
        let unit: F = one();
        difference(unit, p)
    }
}

/// Likelihood of the outcome `val` if the rate lies halfway between `prob`
/// and one.
pub fn accept_likelyhood<F: Float>(prob: F, val: bool) -> (r: F)
    ensures
        accept_likelihood_is(prob, val, r),
{
    let h: F = half();
    let unit: F = one();
    let above: F = sum(unit, prob);
    let p: F = product(h, above);
    assert(accept_rate_is(prob, p));
    likelihood(p, val)
}

/// Likelihood of the outcome `val` if the rate lies halfway between zero and
/// `prob`.
pub fn reject_likelyhood<F: Float>(prob: F, val: bool) -> (r: F)
    ensures
        reject_likelihood_is(prob, val, r),
{
    let h: F = half();
    let p: F = product(h, prob);
    assert(reject_rate_is(prob, p));
    likelihood(p, val)
}

/// What one draw with outcome `val` adds to the running sum.
pub fn log_likelyhood_ratio<F: Float>(prob: F, val: bool) -> (r: F)
    ensures
        log_likelihood_ratio_is(prob, val, r),
{
    let rejecting: F = reject_likelyhood(prob, val);
    let log_rejecting: F = natural_log(rejecting);
    let accepting: F = accept_likelyhood(prob, val);
    let log_accepting: F = natural_log(accepting);
    difference(log_rejecting, log_accepting)
}

/// What the test concludes once `batches` batches are drawn and the running
/// sum has been held against the boundaries: a crossed boundary ends the test,
/// with `true` if it is the lower one; the end of the budget ends it with
/// `false`; otherwise the test goes on.
pub open spec fn concluded(above_upper: bool, below_lower: bool, batches: usize) -> Option<bool> {
    if above_upper || below_lower {
        Some(below_lower)
    } else if batches >= MAXS {
        Some(false)
    } else {
        None
    }
}

/// Decide, after a batch, whether the test ends and with what answer.
///
/// `above_upper` and `below_lower` say on which side of the two boundaries the
/// running sum lies; `batches` is the number of batches drawn so far.
pub fn after_batch(above_upper: bool, below_lower: bool, batches: usize) -> (verdict: Option<bool>)
    ensures
        verdict == concluded(above_upper, below_lower, batches),
{
    if above_upper || below_lower {
        Some(below_lower)
    } else if batches >= MAXS {
        Some(false)
    } else {
        None
    }
}

/// `r` is the upper boundary of the running sum for the indifference `d`:
/// `ln(d / (1 - d))`.
pub open spec fn upper_boundary_is<F: Float>(d: F, r: F) -> bool {
    exists|unit: F, rest: F, odds: F|
        #![trigger difference_is(unit, d, rest), quotient_is(d, rest, odds)]
        {
            &&& one_is(unit)
            &&& difference_is(unit, d, rest)
            &&& quotient_is(d, rest, odds)
            &&& log_is(odds, r)
        }
}

/// `r` is the lower boundary of the running sum for the indifference `d`:
/// `ln((1 - d) / d)`.
pub open spec fn lower_boundary_is<F: Float>(d: F, r: F) -> bool {
    exists|unit: F, rest: F, odds: F|
        #![trigger difference_is(unit, d, rest), quotient_is(rest, d, odds)]
        {
            &&& one_is(unit)
            &&& difference_is(unit, d, rest)
            &&& quotient_is(rest, d, odds)
            &&& log_is(odds, r)
        }
}

/// `upper` and `lower` are the two boundaries of the test, made from one
/// indifference.
pub open spec fn boundaries_are<F: Float>(upper: F, lower: F) -> bool {
    exists|d: F|
        #![trigger indifference_is(d)]
        indifference_is(d) && upper_boundary_is(d, upper) && lower_boundary_is(d, lower)
}

/// The `i`-th draw of a test: `values[i]` converts into an outcome whose
/// logarithmic likelihood ratio, added to `sums[i]`, gives `sums[i + 1]`.
pub open spec fn added_at<V: Into<bool>, F: Float>(
    prob: F,
    values: Seq<V>,
    sums: Seq<F>,
    i: int,
) -> bool {
    exists|outcome: bool, weight: F|
        #![trigger log_likelihood_ratio_is(prob, outcome, weight)]
        {
            &&& converts(values[i], outcome)
            &&& log_likelihood_ratio_is(prob, outcome, weight)
            &&& sum_is(sums[i], weight, sums[i + 1])
        }
}

/// `sums` is the running sum of a test of the threshold `prob` on `values`:
/// it starts from zero and grows by the logarithmic likelihood ratio of each
/// value in turn.
pub open spec fn summed<V: Into<bool>, F: Float>(prob: F, values: Seq<V>, sums: Seq<F>) -> bool {
    &&& sums.len() == values.len() + 1
    &&& zero_is(sums[0])
    &&& forall|i: int| 0 <= i < values.len() ==> #[trigger] added_at(prob, values, sums, i)
}

/// What the end of batch `batch` (counted from 1) must conclude in a test of
/// `batches` batches that answers `accepted`: the answer at the last batch,
/// nothing before.
pub open spec fn due_at(batch: int, batches: int, accepted: bool) -> Option<bool> {
    if batch == batches {
        Some(accepted)
    } else {
        None
    }
}

/// The end of batch `batch` (counted from 1): the running sum after
/// `STEP * batch` draws was held against both boundaries, the comparisons
/// came out as `aboves` and `belows` record, and the test concluded `verdict`
/// from them.
pub open spec fn batch_end<F: Float>(
    upper: F,
    lower: F,
    sums: Seq<F>,
    aboves: Seq<bool>,
    belows: Seq<bool>,
    batch: int,
    verdict: Option<bool>,
) -> bool {
    &&& less_than_is(upper, sums[STEP * batch], aboves[batch - 1])
    &&& less_than_is(sums[STEP * batch], lower, belows[batch - 1])
    &&& concluded(aboves[batch - 1], belows[batch - 1], batch as usize) == verdict
}

/// The running sum `sums` was judged batch by batch and led to the answer
/// `accepted`: after every batch but the last the test went on, and the last
/// batch concluded `accepted`.
pub open spec fn judged<F: Float>(
    upper: F,
    lower: F,
    sums: Seq<F>,
    aboves: Seq<bool>,
    belows: Seq<bool>,
    accepted: bool,
) -> bool {
    &&& aboves.len() == belows.len()
    &&& 1 <= aboves.len() <= MAXS
    &&& sums.len() == STEP * aboves.len() + 1
    &&& forall|batch: int|
        1 <= batch <= aboves.len() ==> #[trigger] batch_end(
            upper,
            lower,
            sums,
            aboves,
            belows,
            batch,
            due_at(batch, aboves.len() as int, accepted),
        )
}

/// The test of the threshold `prob` on `node` ran from `before` to `after`
/// and answered `accepted`: the values were drawn at epochs 0, 1, 2, ... in
/// this order, the running sum was made of them, and the end of the last
/// batch drawn concluded `accepted`.
pub open spec fn decided<U: Uncertain + ?Sized, F: Float>(
    node: &U,
    prob: F,
    before: Rng,
    after: Rng,
    accepted: bool,
) -> bool where U::Value: Into<bool> {
    exists|
        states: Seq<Rng>,
        values: Seq<U::Value>,
        sums: Seq<F>,
        upper: F,
        lower: F,
        aboves: Seq<bool>,
        belows: Seq<bool>,
    |
        #![trigger in_sequence(node, states, values), summed(prob, values, sums), judged(upper, lower, sums, aboves, belows, accepted)]
        {
            &&& in_sequence(node, states, values)
            &&& states[0] == before
            &&& states[values.len() as int] == after
            &&& summed(prob, values, sums)
            &&& boundaries_are(upper, lower)
            &&& judged(upper, lower, sums, aboves, belows, accepted)
        }
}

/// The test of the threshold `prob` on `node` answered `accepted` on draws
/// from a source seeded with [`DEFAULT_STATE`] and [`DEFAULT_STREAM`].
pub open spec fn decided_by_default<U: Uncertain + ?Sized, F: Float>(
    node: &U,
    prob: F,
    accepted: bool,
) -> bool where U::Value: Into<bool> {
    exists|after: Rng| #[trigger]
        decided(node, prob, seeded_source(DEFAULT_STATE, DEFAULT_STREAM), after, accepted)
}

/// A test that was decided drew whole batches, at least one and at most
/// [`MAXS`].
pub proof fn lemma_decided_is_tested<U: Uncertain + ?Sized, F: Float>(
    node: &U,
    prob: F,
    before: Rng,
    after: Rng,
    accepted: bool,
) where U::Value: Into<bool>
    requires
        decided(node, prob, before, after, accepted),
    ensures
        tested(node, before, after),
{
    let (states, values, sums, upper, lower, aboves, belows) = choose|
        states: Seq<Rng>,
        values: Seq<U::Value>,
        sums: Seq<F>,
        upper: F,
        lower: F,
        aboves: Seq<bool>,
        belows: Seq<bool>,
    |
        #![trigger in_sequence(node, states, values), summed(prob, values, sums), judged(upper, lower, sums, aboves, belows, accepted)]
        {
            &&& in_sequence(node, states, values)
            &&& states[0] == before
            &&& states[values.len() as int] == after
            &&& summed(prob, values, sums)
            &&& boundaries_are(upper, lower)
            &&& judged(upper, lower, sums, aboves, belows, accepted)
        };
    assert(ran_batches(node, before, after, STEP as nat, aboves.len()));
}

/// The running sum grows by one draw.
proof fn lemma_summed_more<V: Into<bool>, F: Float>(
    prob: F,
    values: Seq<V>,
    sums: Seq<F>,
    value: V,
    outcome: bool,
    weight: F,
    next: F,
)
    requires
        summed(prob, values, sums),
        converts(value, outcome),
        log_likelihood_ratio_is(prob, outcome, weight),
        sum_is(sums[values.len() as int], weight, next),
    ensures
        summed(prob, values.push(value), sums.push(next)),
{
    let longer_values = values.push(value);
    let longer_sums = sums.push(next);
    assert forall|i: int| 0 <= i < longer_values.len() implies #[trigger] added_at(
        prob,
        longer_values,
        longer_sums,
        i,
    ) by {
        if i < values.len() {
            assert(added_at(prob, values, sums, i));
        }
    }
}

/// Batch ends that were recorded stay what they were when the running sum
/// grows.
proof fn lemma_batch_ends_stay<F: Float>(
    upper: F,
    lower: F,
    sums: Seq<F>,
    aboves: Seq<bool>,
    belows: Seq<bool>,
    next: F,
)
    requires
        aboves.len() == belows.len(),
        STEP * aboves.len() < sums.len(),
        forall|batch: int|
            1 <= batch <= aboves.len() ==> #[trigger] batch_end(
                upper,
                lower,
                sums,
                aboves,
                belows,
                batch,
                None,
            ),
    ensures
        forall|batch: int|
            1 <= batch <= aboves.len() ==> #[trigger] batch_end(
                upper,
                lower,
                sums.push(next),
                aboves,
                belows,
                batch,
                None,
            ),
{
    assert forall|batch: int| 1 <= batch <= aboves.len() implies #[trigger] batch_end(
        upper,
        lower,
        sums.push(next),
        aboves,
        belows,
        batch,
        None,
    ) by {
        assert(batch_end(upper, lower, sums, aboves, belows, batch, None));
    }
}

/// The two boundaries of the running sum: `ln(d / (1 - d))` above and
/// `ln((1 - d) / d)` below, with `d` the indifference.
pub fn boundaries<F: Float>() -> (both: (F, F))
    ensures
        boundaries_are(both.0, both.1),
{
    let d: F = indifference();
    let unit: F = one();
    let rest: F = difference(unit, d);
    let odds: F = quotient(d, rest);
    let upper: F = natural_log(odds);
    assert(upper_boundary_is(d, upper));
    let unit: F = one();
    let rest: F = difference(unit, d);
    let odds: F = quotient(rest, d);
    let lower: F = natural_log(odds);
    assert(lower_boundary_is(d, lower));
    (upper, lower)
}

/// Run the test on draws from the given source.
///
/// Returns `true` if the running sum ends below the lower boundary, that is
/// if the node is taken to be true with probability at least `prob`. A test
/// that exhausts its budget undecided returns `false`.
pub fn compute_with<U, F>(src: &U, prob: F, rng: &mut Rng) -> (accepted: bool) where
    U: Uncertain + ?Sized,
    U::Value: Into<bool>,
    F: Float,

    requires
        src.ready(),
    ensures
        decided(src, prob, *old(rng), *final(rng), accepted),
        tested(src, *old(rng), *final(rng)),
{
    src.reset();
    let (upper_ln, lower_ln) = boundaries::<F>();
    let mut ratio_ln: F = zero();

    let ghost mut states: Seq<Rng> = seq![*rng];
    let ghost mut values: Seq<U::Value> = Seq::empty();
    let ghost mut sums: Seq<F> = seq![ratio_ln];
    let ghost mut aboves: Seq<bool> = Seq::empty();
    let ghost mut belows: Seq<bool> = Seq::empty();

    let mut batch: usize = 0;
    loop
        invariant
            batch < MAXS,
            values.len() == STEP * batch,
            src.ready(),
            in_sequence(src, states, values),
            states[0] == *old(rng),
            states[values.len() as int] == *rng,
            summed(prob, values, sums),
            sums[values.len() as int] == ratio_ln,
            boundaries_are(upper_ln, lower_ln),
            aboves.len() == batch,
            belows.len() == batch,
            forall|done: int|
                1 <= done <= batch ==> #[trigger] batch_end(
                    upper_ln,
                    lower_ln,
                    sums,
                    aboves,
                    belows,
                    done,
                    None,
                ),
        decreases MAXS - batch,
    {
        let mut batch_step: usize = 0;
        while batch_step < STEP
            invariant
                batch < MAXS,
                batch_step <= STEP,
                values.len() == STEP * batch + batch_step,
                src.ready(),
                in_sequence(src, states, values),
                states[0] == *old(rng),
                states[values.len() as int] == *rng,
                summed(prob, values, sums),
                sums[values.len() as int] == ratio_ln,
                aboves.len() == batch,
                belows.len() == batch,
                forall|done: int|
                    1 <= done <= batch ==> #[trigger] batch_end(
                        upper_ln,
                        lower_ln,
                        sums,
                        aboves,
                        belows,
                        done,
                        None,
                    ),
            decreases STEP - batch_step,
        {
            let epoch: usize = STEP * batch + batch_step;
            let drawn = src.sample(rng, epoch);
            let ghost value = drawn;
            proof {
                lemma_one_more(src, states, values, *rng, drawn);
                states = states.push(*rng);
            }
            let val: bool = drawn.into();
            let weight: F = log_likelyhood_ratio(prob, val);
            let next: F = sum(ratio_ln, weight);
            proof {
                lemma_summed_more(prob, values, sums, value, val, weight, next);
                lemma_batch_ends_stay(upper_ln, lower_ln, sums, aboves, belows, next);
                values = values.push(value);
                sums = sums.push(next);
            }
            ratio_ln = next;
            batch_step += 1;
        }
        batch += 1;

        let above_upper = less_than(upper_ln, ratio_ln);
        let below_lower = less_than(ratio_ln, lower_ln);
        let verdict = after_batch(above_upper, below_lower, batch);
        proof {
            let earlier_aboves = aboves;
            let earlier_belows = belows;
            aboves = aboves.push(above_upper);
            belows = belows.push(below_lower);
            assert forall|done: int| 1 <= done < batch implies #[trigger] batch_end(
                upper_ln,
                lower_ln,
                sums,
                aboves,
                belows,
                done,
                None,
            ) by {
                assert(batch_end(upper_ln, lower_ln, sums, earlier_aboves, earlier_belows, done, None));
            }
            assert(batch_end(upper_ln, lower_ln, sums, aboves, belows, batch as int, verdict));
        }
        match verdict {
            Some(accepted) => {
                proof {
                    assert forall|done: int| 1 <= done <= aboves.len() implies #[trigger] batch_end(
                        upper_ln,
                        lower_ln,
                        sums,
                        aboves,
                        belows,
                        done,
                        due_at(done, aboves.len() as int, accepted),
                    ) by {
                        if done < batch {
                            assert(batch_end(upper_ln, lower_ln, sums, aboves, belows, done, None));
                        }
                    }
                    assert(judged(upper_ln, lower_ln, sums, aboves, belows, accepted));
                    assert(ran_batches(src, *old(rng), *rng, STEP as nat, batch as nat));
                }
                return accepted;
            },
            None => {},
        }
    }
}

/// Run the test with a source of its own, seeded with [`DEFAULT_STATE`] and
/// [`DEFAULT_STREAM`].
pub fn compute<U, F>(src: &U, prob: F) -> (accepted: bool) where
    U: Uncertain + ?Sized,
    U::Value: Into<bool>,
    F: Float,

    requires
        src.ready(),
    ensures
        decided_by_default(src, prob, accepted),
        exists|after: Rng| #[trigger] tested(src, seeded_source(DEFAULT_STATE, DEFAULT_STREAM), after),
{
    let mut rng = seeded(DEFAULT_STATE, DEFAULT_STREAM);
    compute_with(src, prob, &mut rng)
}

} // verus!
