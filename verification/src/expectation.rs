//! The estimator behind `expect`.
//!
//! The estimator keeps a running mean and a running sum of squared deviations
//! of the values drawn so far (Welford's online algorithm), one draw per
//! epoch. After each batch of [`STEP`] draws it computes the two-sigma
//! half-width of the mean, `2 * sqrt(sum of squared deviations / steps) /
//! steps`, and returns the mean once the half-width is at most the precision
//! asked for.
//! After [`MAXS`] batches it gives up and hands back what it has.

use crate::arith::{
    at_most, at_most_is, difference, difference_is, one, one_is, product, product_is, quotient,
    quotient_is, root_is, square_root, sum, sum_is, zero, zero_is,
};
use crate::rng::{seeded, seeded_source, Rng, DEFAULT_STATE, DEFAULT_STREAM};
use crate::trace::{in_sequence, lemma_one_more, ran_batches, ran_some_batches};
use crate::Uncertain;
use num_traits::Float;
use vstd::prelude::*;
use vstd::string::{to_string_from_display_ensures, StringExecFns};

verus! {

/// Draws per batch: convergence is looked at after every `STEP` draws.
pub const STEP: usize = 10;

/// Batches after which the estimator gives up.
pub const MAXS: usize = 1000;

/// What the estimator had when its budget ran out: an estimate that did not
/// converge to the precision asked for.
#[derive(Debug, Clone)]
pub struct ConvergenceError<F> {
    sample_mean: F,
    diff_sum: F,
    steps: F,
    precision: F,
}

impl<F> ConvergenceError<F> {
    /// The running mean when the estimator gave up.
    pub closed spec fn mean(&self) -> F {
        self.sample_mean
    }

    /// The running sum of squared deviations when the estimator gave up.
    pub closed spec fn deviation_sum(&self) -> F {
        self.diff_sum
    }

    /// The number of values drawn, as the estimator counted them in `F`.
    pub closed spec fn step_count(&self) -> F {
        self.steps
    }

    /// The precision that was asked for.
    pub closed spec fn precision(&self) -> F {
        self.precision
    }
}

impl<F: Float> ConvergenceError<F> {
    /// The estimate of the mean that did not converge.
    pub fn non_converged_value(&self) -> (value: F)
        ensures
            value == self.mean(),
    {
        self.sample_mean
    }

    /// The two-sigma half-width of the estimate: twice the deviation of the
    /// mean, `2 * sqrt(sum of squared deviations / steps) / steps`.
    pub fn two_sigma_error(&self) -> (error: F)
        ensures
            two_sigma_is(self.deviation_sum(), self.step_count(), error),
    {
        let std: F = mean_standard_deviation(self.diff_sum, self.steps);
        sum(std, std)
    }

    /// The precision that was asked for and not reached.
    pub fn desired_precision(&self) -> (precision: F)
        ensures
            precision == self.precision(),
    {
        self.precision
    }

    /// The failure in words: the estimate, its two-sigma half-width and the
    /// precision that was asked for, each as its `Display` shows it.
    pub fn message(&self) -> (text: String) where F: core::fmt::Display
        ensures
            message_is(
                self.mean(),
                self.deviation_sum(),
                self.step_count(),
                self.precision(),
                text@,
            ),
    {
        let error: F = self.two_sigma_error();
        let estimate = self.sample_mean.to_string();
        let width = error.to_string();
        let wanted = self.precision.to_string();
        let mut text = String::from_str("Expected value ");
        text.append(estimate.as_str());
        text.append(" +/- ");
        text.append(width.as_str());
        text.append(" did not converge to desired precision ");
        text.append(wanted.as_str());
        assert(text@ == worded(estimate, width, wanted));
        text
    }
}

/// The sentence that reports a failure, around the three numbers as they are
/// shown.
pub open spec fn worded(estimate: String, width: String, wanted: String) -> Seq<char> {
    "Expected value "@ + estimate@ + " +/- "@ + width@
        + " did not converge to desired precision "@ + wanted@
}

/// `text` reports the failure of an estimate: the sentence around the mean,
/// the two-sigma half-width of the mean and the precision asked for, each
/// number as its `Display` shows it.
pub open spec fn message_is<F: Float + core::fmt::Display>(
    sample_mean: F,
    diff_sum: F,
    steps: F,
    precision: F,
    text: Seq<char>,
) -> bool {
    exists|error: F, estimate: String, width: String, wanted: String|
        #![trigger two_sigma_is(diff_sum, steps, error), worded(estimate, width, wanted)]
        {
            &&& two_sigma_is(diff_sum, steps, error)
            &&& to_string_from_display_ensures::<F>(&sample_mean, estimate)
            &&& to_string_from_display_ensures::<F>(&error, width)
            &&& to_string_from_display_ensures::<F>(&precision, wanted)
            &&& text == worded(estimate, width, wanted)
        }
}

/// `r` is the deviation of the mean of `steps` values whose squared
/// deviations sum to `diff_sum`: `sqrt(diff_sum / steps) / steps`.
pub open spec fn mean_deviation_is<F: Float>(diff_sum: F, steps: F, r: F) -> bool {
    exists|variance: F, root: F|
        #![trigger quotient_is(diff_sum, steps, variance), root_is(variance, root)]
        {
            &&& quotient_is(diff_sum, steps, variance)
            &&& root_is(variance, root)
            &&& quotient_is(root, steps, r)
        }
}

/// `r` is the two-sigma half-width of the mean of `steps` values whose
/// squared deviations sum to `diff_sum`: the deviation of the mean, added to
/// itself, `2 * sqrt(diff_sum / steps) / steps`.
pub open spec fn two_sigma_is<F: Float>(diff_sum: F, steps: F, r: F) -> bool {
    exists|std: F|
        #![trigger mean_deviation_is(diff_sum, steps, std)]
        mean_deviation_is(diff_sum, steps, std) && sum_is(std, std, r)
}

/// The deviation of the mean of `steps` values whose squared deviations sum
/// to `diff_sum`: `sqrt(diff_sum / steps) / steps`.
fn mean_standard_deviation<F: Float>(diff_sum: F, steps: F) -> (std: F)
    ensures
        mean_deviation_is(diff_sum, steps, std),
{
    let variance: F = quotient(diff_sum, steps);
    let root: F = square_root(variance);
    quotient(root, steps)
}

/// The estimator ran from `before` to `after` and converged: it drew at least
/// one and at most [`MAXS`] whole batches of [`STEP`] values, one value per
/// epoch, at epochs 0, 1, 2, ... in this order.
pub open spec fn converged<U: Uncertain + ?Sized>(node: &U, before: Rng, after: Rng) -> bool {
    ran_some_batches(node, before, after, STEP as nat, MAXS as nat)
}

/// The estimator ran from `before` to `after` and used up its budget: it drew
/// all of its [`MAXS`] batches of [`STEP`] values.
pub open spec fn exhausted<U: Uncertain + ?Sized>(node: &U, before: Rng, after: Rng) -> bool {
    ran_batches(node, before, after, STEP as nat, MAXS as nat)
}

/// `verdict` is what the estimator concludes once `batches` batches are
/// drawn: if the half-width is `within` the precision, the running mean; if
/// not and the budget is used up, the record of the estimate, with all that
/// the estimator holds; otherwise nothing, and it goes on.
pub open spec fn concludes<F>(
    verdict: Option<Result<F, ConvergenceError<F>>>,
    within: bool,
    batches: usize,
    sample_mean: F,
    diff_sum: F,
    steps: F,
    precision: F,
) -> bool {
    if within {
        verdict == Some(Ok::<F, ConvergenceError<F>>(sample_mean))
    } else if batches >= MAXS {
        &&& verdict matches Some(Err(failure))
        &&& failure.mean() == sample_mean
        &&& failure.deviation_sum() == diff_sum
        &&& failure.step_count() == steps
        &&& failure.precision() == precision
    } else {
        verdict is None
    }
}

/// Decide, after a batch, whether the estimator ends and with what result.
///
/// `within` says whether the two-sigma half-width of the mean is at most the
/// precision; `batches` is the number of batches drawn so far.
pub fn after_batch<F: Float>(
    within: bool,
    batches: usize,
    sample_mean: F,
    diff_sum: F,
    steps: F,
    precision: F,
) -> (verdict: Option<Result<F, ConvergenceError<F>>>)
    ensures
        concludes(verdict, within, batches, sample_mean, diff_sum, steps, precision),
{
    if within {
        Some(Ok(sample_mean))
    } else if batches >= MAXS {
        Some(Err(ConvergenceError { sample_mean, diff_sum, steps, precision }))
    } else {
        None
    }
}

/// One step of the running estimate: the value `x` takes the mean, the sum
/// of squared deviations and the count from `(mean, dev, count)` to
/// `(next_mean, next_dev, next_count)`.
///
/// The count grows by one; the mean grows by the gap between `x` and the
/// mean, divided by the new count; the sum of squared deviations grows by
/// that gap times the gap between `x` and the new mean.
pub open spec fn welford_step_is<F: Float>(
    mean: F,
    dev: F,
    count: F,
    x: F,
    next_mean: F,
    next_dev: F,
    next_count: F,
) -> bool {
    exists|unit: F, gap: F, share: F, gap_again: F, rest: F, weight: F|
        #![trigger one_is(unit), quotient_is(gap, next_count, share), product_is(gap_again, rest, weight)]
        {
            &&& one_is(unit)
            &&& sum_is(count, unit, next_count)
            &&& difference_is(x, mean, gap)
            &&& quotient_is(gap, next_count, share)
            &&& sum_is(mean, share, next_mean)
            &&& difference_is(x, mean, gap_again)
            &&& difference_is(x, next_mean, rest)
            &&& product_is(gap_again, rest, weight)
            &&& sum_is(dev, weight, next_dev)
        }
}

/// The `i`-th draw of an estimate: `values[i]` takes the three tracks one
/// step on.
pub open spec fn stepped_at<F: Float>(
    values: Seq<F>,
    means: Seq<F>,
    devs: Seq<F>,
    counts: Seq<F>,
    i: int,
) -> bool {
    welford_step_is(
        means[i],
        devs[i],
        counts[i],
        values[i],
        means[i + 1],
        devs[i + 1],
        counts[i + 1],
    )
}

/// `means`, `devs` and `counts` are the running mean, the running sum of
/// squared deviations and the running count of `values`: all three start
/// from zero and take one step for each value in turn.
pub open spec fn followed<F: Float>(
    values: Seq<F>,
    means: Seq<F>,
    devs: Seq<F>,
    counts: Seq<F>,
) -> bool {
    &&& means.len() == values.len() + 1
    &&& devs.len() == values.len() + 1
    &&& counts.len() == values.len() + 1
    &&& zero_is(means[0])
    &&& zero_is(devs[0])
    &&& zero_is(counts[0])
    &&& forall|i: int|
        0 <= i < values.len() ==> #[trigger] stepped_at(values, means, devs, counts, i)
}

/// What the end of batch `batch` (counted from 1) must conclude in an
/// estimate of `batches` batches that ends in `outcome`: the outcome at the
/// last batch, nothing before.
pub open spec fn due_at<F>(
    batch: int,
    batches: int,
    outcome: Result<F, ConvergenceError<F>>,
) -> Option<Result<F, ConvergenceError<F>>> {
    if batch == batches {
        Some(outcome)
    } else {
        None
    }
}

/// The end of batch `batch` (counted from 1): the two-sigma half-width of the
/// mean after `STEP * batch` draws is `widths[batch - 1]`, its comparison
/// with the precision came out as `withins` records, and the estimator
/// concluded `verdict` from it and from what the tracks hold.
pub open spec fn batch_end<F: Float>(
    precision: F,
    means: Seq<F>,
    devs: Seq<F>,
    counts: Seq<F>,
    widths: Seq<F>,
    withins: Seq<bool>,
    batch: int,
    verdict: Option<Result<F, ConvergenceError<F>>>,
) -> bool {
    &&& two_sigma_is(devs[STEP * batch], counts[STEP * batch], widths[batch - 1])
    &&& at_most_is(widths[batch - 1], precision, withins[batch - 1])
    &&& concludes(
        verdict,
        withins[batch - 1],
        batch as usize,
        means[STEP * batch],
        devs[STEP * batch],
        counts[STEP * batch],
        precision,
    )
}

/// The tracks were judged batch by batch and led to `outcome`: after every
/// batch but the last the estimator went on, and the last batch concluded
/// `outcome`.
pub open spec fn judged<F: Float>(
    precision: F,
    means: Seq<F>,
    devs: Seq<F>,
    counts: Seq<F>,
    widths: Seq<F>,
    withins: Seq<bool>,
    outcome: Result<F, ConvergenceError<F>>,
) -> bool {
    &&& widths.len() == withins.len()
    &&& 1 <= widths.len() <= MAXS
    &&& means.len() == STEP * widths.len() + 1
    &&& forall|batch: int|
        1 <= batch <= widths.len() ==> #[trigger] batch_end(
            precision,
            means,
            devs,
            counts,
            widths,
            withins,
            batch,
            due_at(batch, widths.len() as int, outcome),
        )
}

/// The estimator ran on `node` from `before` to `after` and ended in
/// `outcome`: the values were drawn at epochs 0, 1, 2, ... in this order, the
/// running mean, sum of squared deviations and count were made of them, and
/// the end of the last batch drawn concluded `outcome`.
pub open spec fn estimated<U: Uncertain + ?Sized>(
    node: &U,
    precision: U::Value,
    before: Rng,
    after: Rng,
    outcome: Result<U::Value, ConvergenceError<U::Value>>,
) -> bool where U::Value: Float {
    exists|
        states: Seq<Rng>,
        values: Seq<U::Value>,
        means: Seq<U::Value>,
        devs: Seq<U::Value>,
        counts: Seq<U::Value>,
        widths: Seq<U::Value>,
        withins: Seq<bool>,
    |
        #![trigger in_sequence(node, states, values), followed(values, means, devs, counts), judged(precision, means, devs, counts, widths, withins, outcome)]
        {
            &&& in_sequence(node, states, values)
            &&& states[0] == before
            &&& states[values.len() as int] == after
            &&& followed(values, means, devs, counts)
            &&& judged(precision, means, devs, counts, widths, withins, outcome)
        }
}

/// The estimator ended in `outcome` on draws from a source seeded with
/// [`DEFAULT_STATE`] and [`DEFAULT_STREAM`].
pub open spec fn estimated_by_default<U: Uncertain + ?Sized>(
    node: &U,
    precision: U::Value,
    outcome: Result<U::Value, ConvergenceError<U::Value>>,
) -> bool where U::Value: Float {
    exists|after: Rng| #[trigger]
        estimated(node, precision, seeded_source(DEFAULT_STATE, DEFAULT_STREAM), after, outcome)
}

/// A failure comes only after the whole budget, carries what the estimator
/// held at the end, and its own two-sigma half-width was compared with the
/// precision and found larger: `width <= precision` came out false.
pub proof fn lemma_failure_missed_precision<U: Uncertain + ?Sized>(
    node: &U,
    precision: U::Value,
    before: Rng,
    after: Rng,
    failure: ConvergenceError<U::Value>,
) where U::Value: Float
    requires
        estimated(node, precision, before, after, Err(failure)),
    ensures
        exhausted(node, before, after),
        failure.precision() == precision,
        exists|width: U::Value| #[trigger]
            two_sigma_is(failure.deviation_sum(), failure.step_count(), width) && at_most_is(
                width,
                precision,
                false,
            ),
{
    let outcome = Err::<U::Value, ConvergenceError<U::Value>>(failure);
    let (states, values, means, devs, counts, widths, withins) = choose|
        states: Seq<Rng>,
        values: Seq<U::Value>,
        means: Seq<U::Value>,
        devs: Seq<U::Value>,
        counts: Seq<U::Value>,
        widths: Seq<U::Value>,
        withins: Seq<bool>,
    |
        #![trigger in_sequence(node, states, values), followed(values, means, devs, counts), judged(precision, means, devs, counts, widths, withins, outcome)]
        {
            &&& in_sequence(node, states, values)
            &&& states[0] == before
            &&& states[values.len() as int] == after
            &&& followed(values, means, devs, counts)
            &&& judged(precision, means, devs, counts, widths, withins, outcome)
        };
    let batches = widths.len() as int;
    assert(batch_end(
        precision,
        means,
        devs,
        counts,
        widths,
        withins,
        batches,
        due_at(batches, batches, outcome),
    ));
    assert(batches == MAXS);
    assert(two_sigma_is(failure.deviation_sum(), failure.step_count(), widths[batches - 1]));
    assert(ran_batches(node, before, after, STEP as nat, MAXS as nat));
}

/// An estimate is returned only when its two-sigma half-width was compared
/// with the precision and found small enough: `width <= precision` came out
/// true.
pub proof fn lemma_estimate_met_precision<U: Uncertain + ?Sized>(
    node: &U,
    precision: U::Value,
    before: Rng,
    after: Rng,
    estimate: U::Value,
) where U::Value: Float
    requires
        estimated(node, precision, before, after, Ok(estimate)),
    ensures
        converged(node, before, after),
        exists|dev: U::Value, count: U::Value, width: U::Value|
            #![trigger two_sigma_is(dev, count, width)]
            two_sigma_is(dev, count, width) && at_most_is(width, precision, true),
{
    let outcome = Ok::<U::Value, ConvergenceError<U::Value>>(estimate);
    let (states, values, means, devs, counts, widths, withins) = choose|
        states: Seq<Rng>,
        values: Seq<U::Value>,
        means: Seq<U::Value>,
        devs: Seq<U::Value>,
        counts: Seq<U::Value>,
        widths: Seq<U::Value>,
        withins: Seq<bool>,
    |
        #![trigger in_sequence(node, states, values), followed(values, means, devs, counts), judged(precision, means, devs, counts, widths, withins, outcome)]
        {
            &&& in_sequence(node, states, values)
            &&& states[0] == before
            &&& states[values.len() as int] == after
            &&& followed(values, means, devs, counts)
            &&& judged(precision, means, devs, counts, widths, withins, outcome)
        };
    let batches = widths.len() as int;
    assert(batch_end(
        precision,
        means,
        devs,
        counts,
        widths,
        withins,
        batches,
        due_at(batches, batches, outcome),
    ));
    assert(two_sigma_is(devs[STEP * batches], counts[STEP * batches], widths[batches - 1]));
    assert(ran_batches(node, before, after, STEP as nat, batches as nat));
}

/// The tracks grow by one step.
proof fn lemma_followed_more<F: Float>(
    values: Seq<F>,
    means: Seq<F>,
    devs: Seq<F>,
    counts: Seq<F>,
    x: F,
    next_mean: F,
    next_dev: F,
    next_count: F,
)
    requires
        followed(values, means, devs, counts),
        welford_step_is(
            means[values.len() as int],
            devs[values.len() as int],
            counts[values.len() as int],
            x,
            next_mean,
            next_dev,
            next_count,
        ),
    ensures
        followed(values.push(x), means.push(next_mean), devs.push(next_dev), counts.push(next_count)),
{
    let longer_values = values.push(x);
    let longer_means = means.push(next_mean);
    let longer_devs = devs.push(next_dev);
    let longer_counts = counts.push(next_count);
    assert forall|i: int| 0 <= i < longer_values.len() implies #[trigger] stepped_at(
        longer_values,
        longer_means,
        longer_devs,
        longer_counts,
        i,
    ) by {
        if i < values.len() {
            assert(stepped_at(values, means, devs, counts, i));
        }
    }
}

/// Batch ends that were recorded stay what they were when the tracks grow.
proof fn lemma_batch_ends_stay<F: Float>(
    precision: F,
    means: Seq<F>,
    devs: Seq<F>,
    counts: Seq<F>,
    widths: Seq<F>,
    withins: Seq<bool>,
    next_mean: F,
    next_dev: F,
    next_count: F,
)
    requires
        widths.len() == withins.len(),
        STEP * widths.len() < means.len(),
        means.len() == devs.len(),
        means.len() == counts.len(),
        forall|batch: int|
            1 <= batch <= widths.len() ==> #[trigger] batch_end(
                precision,
                means,
                devs,
                counts,
                widths,
                withins,
                batch,
                None,
            ),
    ensures
        forall|batch: int|
            1 <= batch <= widths.len() ==> #[trigger] batch_end(
                precision,
                means.push(next_mean),
                devs.push(next_dev),
                counts.push(next_count),
                widths,
                withins,
                batch,
                None,
            ),
{
    assert forall|batch: int| 1 <= batch <= widths.len() implies #[trigger] batch_end(
        precision,
        means.push(next_mean),
        devs.push(next_dev),
        counts.push(next_count),
        widths,
        withins,
        batch,
        None,
    ) by {
        assert(batch_end(precision, means, devs, counts, widths, withins, batch, None));
    }
}

/// Take the running estimate one step on, by the value `x`.
///
/// Returns the new mean, the new sum of squared deviations and the new
/// count.
pub fn welford_step<F: Float>(mean: F, dev: F, count: F, x: F) -> (next: (F, F, F))
    ensures
        welford_step_is(mean, dev, count, x, next.0, next.1, next.2),
{
    let unit: F = one();
    let next_count: F = sum(count, unit);
    let gap: F = difference(x, mean);
    let share: F = quotient(gap, next_count);
    let next_mean: F = sum(mean, share);
    let gap_again: F = difference(x, mean);
    let rest: F = difference(x, next_mean);
    let weight: F = product(gap_again, rest);
    let next_dev: F = sum(dev, weight);
    (next_mean, next_dev, next_count)
}

/// Estimate the mean of `src` on draws from the given source.
///
/// Returns the running mean as soon as, after a whole batch, its two-sigma
/// half-width is at most `precision`. If that has not happened when the
/// budget is used up, returns the record of the estimate as it stands.
pub fn compute_with<U>(src: &U, precision: U::Value, rng: &mut Rng) -> (outcome: Result<
    U::Value,
    ConvergenceError<U::Value>,
>) where U: Uncertain + ?Sized, U::Value: Float
    requires
        src.ready(),
    ensures
        estimated(src, precision, *old(rng), *final(rng), outcome),
        match outcome {
            Ok(_) => converged(src, *old(rng), *final(rng)),
            Err(failure) => exhausted(src, *old(rng), *final(rng)) && failure.precision()
                == precision,
        },
{
    src.reset();
    let mut sample_mean: U::Value = zero();
    let mut diff_sum: U::Value = zero();
    let mut steps: U::Value = zero();

    let ghost mut states: Seq<Rng> = seq![*rng];
    let ghost mut values: Seq<U::Value> = Seq::empty();
    let ghost mut means: Seq<U::Value> = seq![sample_mean];
    let ghost mut devs: Seq<U::Value> = seq![diff_sum];
    let ghost mut counts: Seq<U::Value> = seq![steps];
    let ghost mut widths: Seq<U::Value> = Seq::empty();
    let ghost mut withins: Seq<bool> = Seq::empty();

    let mut batch: usize = 0;
    loop
        invariant
            batch < MAXS,
            values.len() == STEP * batch,
            src.ready(),
            in_sequence(src, states, values),
            states[0] == *old(rng),
            states[values.len() as int] == *rng,
            followed(values, means, devs, counts),
            means[values.len() as int] == sample_mean,
            devs[values.len() as int] == diff_sum,
            counts[values.len() as int] == steps,
            widths.len() == batch,
            withins.len() == batch,
            forall|done: int|
                1 <= done <= batch ==> #[trigger] batch_end(
                    precision,
                    means,
                    devs,
                    counts,
                    widths,
                    withins,
                    done,
                    None,
                ),
        decreases MAXS - batch,
    {
        let mut batch_step: usize = 0;
        while batch_step < STEP
            invariant
                batch < MAXS,
                batch_step <= STEP,
                values.len() == STEP * batch + batch_step,
                src.ready(),
                in_sequence(src, states, values),
                states[0] == *old(rng),
                states[values.len() as int] == *rng,
                followed(values, means, devs, counts),
                means[values.len() as int] == sample_mean,
                devs[values.len() as int] == diff_sum,
                counts[values.len() as int] == steps,
                widths.len() == batch,
                withins.len() == batch,
                forall|done: int|
                    1 <= done <= batch ==> #[trigger] batch_end(
                        precision,
                        means,
                        devs,
                        counts,
                        widths,
                        withins,
                        done,
                        None,
                    ),
            decreases STEP - batch_step,
        {
            let epoch: usize = STEP * batch + batch_step;
            let sample = src.sample(rng, epoch);
            proof {
                lemma_one_more(src, states, values, *rng, sample);
                states = states.push(*rng);
            }
            let (next_mean, next_dev, next_count) = welford_step(
                sample_mean,
                diff_sum,
                steps,
                sample,
            );
            proof {
                lemma_followed_more(values, means, devs, counts, sample, next_mean, next_dev, next_count);
                lemma_batch_ends_stay(
                    precision,
                    means,
                    devs,
                    counts,
                    widths,
                    withins,
                    next_mean,
                    next_dev,
                    next_count,
                );
                values = values.push(sample);
                means = means.push(next_mean);
                devs = devs.push(next_dev);
                counts = counts.push(next_count);
            }
            sample_mean = next_mean;
            diff_sum = next_dev;
            steps = next_count;
            batch_step += 1;
        }
        batch += 1;

        let std: U::Value = mean_standard_deviation(diff_sum, steps);
        let width: U::Value = sum(std, std);
        let within = at_most(width, precision);
        let verdict = after_batch(within, batch, sample_mean, diff_sum, steps, precision);
        proof {
            let earlier_widths = widths;
            let earlier_withins = withins;
            widths = widths.push(width);
            withins = withins.push(within);
            assert forall|done: int| 1 <= done < batch implies #[trigger] batch_end(
                precision,
                means,
                devs,
                counts,
                widths,
                withins,
                done,
                None,
            ) by {
                assert(batch_end(
                    precision,
                    means,
                    devs,
                    counts,
                    earlier_widths,
                    earlier_withins,
                    done,
                    None,
                ));
            }
            assert(two_sigma_is(diff_sum, steps, width));
            assert(batch_end(
                precision,
                means,
                devs,
                counts,
                widths,
                withins,
                batch as int,
                verdict,
            ));
        }
        match verdict {
            Some(outcome) => {
                proof {
                    assert forall|done: int| 1 <= done <= widths.len() implies #[trigger] batch_end(
                        precision,
                        means,
                        devs,
                        counts,
                        widths,
                        withins,
                        done,
                        due_at(done, widths.len() as int, outcome),
                    ) by {
                        if done < batch {
                            assert(batch_end(
                                precision,
                                means,
                                devs,
                                counts,
                                widths,
                                withins,
                                done,
                                None,
                            ));
                        }
                    }
                    assert(judged(precision, means, devs, counts, widths, withins, outcome));
                    assert(ran_batches(src, *old(rng), *rng, STEP as nat, batch as nat));
                }
                return outcome;
            },
            None => {},
        }
    }
}

/// Estimate the mean of `src` with a source of its own, seeded with
/// [`DEFAULT_STATE`] and [`DEFAULT_STREAM`].
pub fn compute<U>(src: &U, precision: U::Value) -> (outcome: Result<
    U::Value,
    ConvergenceError<U::Value>,
>) where U: Uncertain + ?Sized, U::Value: Float
    requires
        src.ready(),
    ensures
        estimated_by_default(src, precision, outcome),
        match outcome {
            Ok(_) => exists|after: Rng| #[trigger]
                converged(src, seeded_source(DEFAULT_STATE, DEFAULT_STREAM), after),
            Err(failure) => failure.precision() == precision && exists|after: Rng| #[trigger]
                exhausted(src, seeded_source(DEFAULT_STATE, DEFAULT_STREAM), after),
        },
{
    let mut rng = seeded(DEFAULT_STATE, DEFAULT_STREAM);
    compute_with(src, precision, &mut rng)
}

} // verus!
