use rand::RngCore;
use rand_distr::{Bernoulli, Normal};
use rand_pcg::Pcg32;
use std::cell::{Cell, RefCell};
use uncertain::cache::{recall, sample_through};
use uncertain::rng::{DEFAULT_STATE, DEFAULT_STREAM};
use uncertain::sprt::{accept_likelyhood, indifference, log_likelyhood_ratio, reject_likelyhood};
use uncertain::{
    BoxedUncertain, Distribution, InvalidArgument, Join, Mapped, PointMass, Uncertain, UncertainExt,
};

/// A boolean node that counts how often it is sampled.
struct Counted<'a> {
    hits: &'a Cell<usize>,
    value: bool,
}

impl Uncertain for Counted<'_> {
    type Value = bool;

    fn sample(&self, _: &mut Pcg32, _: usize) -> bool {
        self.hits.set(self.hits.get() + 1);
        self.value
    }
}

/// A node that yields the epoch and keeps a log of the epochs it was asked for.
struct Logged<'a> {
    epochs: &'a RefCell<Vec<usize>>,
}

impl Uncertain for Logged<'_> {
    type Value = f64;

    fn sample(&self, _: &mut Pcg32, epoch: usize) -> f64 {
        self.epochs.borrow_mut().push(epoch);
        epoch as f64
    }
}

/// A node that is always true and keeps a log of the epochs it was asked for.
struct LoggedTrue<'a> {
    epochs: &'a RefCell<Vec<usize>>,
}

impl Uncertain for LoggedTrue<'_> {
    type Value = bool;

    fn sample(&self, _: &mut Pcg32, epoch: usize) -> bool {
        self.epochs.borrow_mut().push(epoch);
        true
    }
}

fn default_source() -> Pcg32 {
    Pcg32::new(DEFAULT_STATE, DEFAULT_STREAM)
}

#[test]
fn and_leaves_right_operand_alone_when_left_is_false() {
    let hits = Cell::new(0);
    let node = PointMass::new(false).and(Counted { hits: &hits, value: true });
    let mut rng = default_source();
    for epoch in 0..50 {
        assert_eq!(node.sample(&mut rng, epoch), false);
    }
    assert_eq!(hits.get(), 0);
}

#[test]
fn and_samples_right_operand_when_left_is_true() {
    let hits = Cell::new(0);
    let node = PointMass::new(true).and(Counted { hits: &hits, value: false });
    let mut rng = default_source();
    for epoch in 0..50 {
        assert_eq!(node.sample(&mut rng, epoch), false);
    }
    assert_eq!(hits.get(), 50);
}

#[test]
fn or_leaves_right_operand_alone_when_left_is_true() {
    let hits = Cell::new(0);
    let node = PointMass::new(true).or(Counted { hits: &hits, value: false });
    let mut rng = default_source();
    for epoch in 0..50 {
        assert_eq!(node.sample(&mut rng, epoch), true);
    }
    assert_eq!(hits.get(), 0);
}

#[test]
fn or_samples_right_operand_when_left_is_false() {
    let hits = Cell::new(0);
    let node = PointMass::new(false).or(Counted { hits: &hits, value: true });
    let mut rng = default_source();
    for epoch in 0..50 {
        assert_eq!(node.sample(&mut rng, epoch), true);
    }
    assert_eq!(hits.get(), 50);
}

#[test]
fn short_circuit_holds_inside_a_query() {
    let hits = Cell::new(0);
    let node = PointMass::new(false).and(Counted { hits: &hits, value: true });
    assert_eq!(node.pr(0.5_f32), Ok(false));
    assert_eq!(hits.get(), 0);

    let hits = Cell::new(0);
    let node = PointMass::new(true).or(Counted { hits: &hits, value: false });
    assert_eq!(node.pr(0.5_f32), Ok(true));
    assert_eq!(hits.get(), 0);
}

#[test]
fn pr_refuses_probabilities_outside_the_unit_interval() {
    let x = PointMass::new(true);
    assert_eq!(x.pr(0.0_f32), Err(InvalidArgument::Probability));
    assert_eq!(x.pr(1.0_f32), Err(InvalidArgument::Probability));
    assert_eq!(x.pr(-0.3_f32), Err(InvalidArgument::Probability));
    assert_eq!(x.pr(1.2_f32), Err(InvalidArgument::Probability));
    assert_eq!(x.pr(f64::NEG_INFINITY), Err(InvalidArgument::Probability));
    assert_eq!(x.pr(f64::INFINITY), Err(InvalidArgument::Probability));
    assert_eq!(x.pr(f32::NAN), Err(InvalidArgument::Probability));
    assert_eq!(x.pr(f64::NAN), Err(InvalidArgument::Probability));
    assert_eq!(x.pr(0.5_f32), Ok(true));
    assert_eq!(x.pr(1e-5_f32), Ok(true));
    assert_eq!(x.pr(0.99999_f64), Ok(true));
}

#[test]
fn expect_refuses_precisions_that_are_not_positive() {
    let x = PointMass::new(1.5_f64);
    assert!(matches!(x.expect(0.0), Err(InvalidArgument::Precision)));
    assert!(matches!(x.expect(-0.1), Err(InvalidArgument::Precision)));
    assert!(matches!(x.expect(f64::NEG_INFINITY), Err(InvalidArgument::Precision)));
    assert!(matches!(x.expect(f64::NAN), Err(InvalidArgument::Precision)));
    assert!(matches!(x.expect(0.01), Ok(Ok(_))));
    assert_eq!(x.expect(1e-9).unwrap().unwrap(), 1.5);
}

#[test]
fn refusals_follow_the_comparisons() {
    assert_eq!(InvalidArgument::of_probability(true, true), None);
    assert_eq!(
        InvalidArgument::of_probability(true, false),
        Some(InvalidArgument::Probability)
    );
    assert_eq!(
        InvalidArgument::of_probability(false, true),
        Some(InvalidArgument::Probability)
    );
    assert_eq!(
        InvalidArgument::of_probability(false, false),
        Some(InvalidArgument::Probability)
    );
    assert_eq!(InvalidArgument::of_precision(true), None);
    assert_eq!(InvalidArgument::of_precision(false), Some(InvalidArgument::Precision));
}

#[test]
fn sprt_ends_on_a_crossed_boundary_or_an_empty_budget() {
    assert_eq!(uncertain::sprt::after_batch(false, false, 1), None);
    assert_eq!(uncertain::sprt::after_batch(false, false, uncertain::sprt::MAXS - 1), None);
    assert_eq!(uncertain::sprt::after_batch(false, false, uncertain::sprt::MAXS), Some(false));
    assert_eq!(uncertain::sprt::after_batch(true, false, 1), Some(false));
    assert_eq!(uncertain::sprt::after_batch(false, true, 1), Some(true));
    assert_eq!(uncertain::sprt::after_batch(true, true, 7), Some(true));
    assert_eq!(uncertain::sprt::after_batch(false, true, uncertain::sprt::MAXS), Some(true));
    assert_eq!(uncertain::sprt::after_batch(true, false, uncertain::sprt::MAXS), Some(false));
}

#[test]
fn estimator_ends_on_convergence_or_an_empty_budget() {
    assert!(uncertain::expectation::after_batch(false, 1, 2.0, 3.0, 10.0, 0.5).is_none());
    assert!(uncertain::expectation::after_batch(false, uncertain::expectation::MAXS - 1, 2.0, 3.0, 10.0, 0.5).is_none());
    assert_eq!(uncertain::expectation::after_batch(true, 1, 2.0, 3.0, 10.0, 0.5).unwrap().unwrap(), 2.0);
    assert_eq!(uncertain::expectation::after_batch(true, uncertain::expectation::MAXS, 2.0, 3.0, 10.0, 0.5).unwrap().unwrap(), 2.0);

    let failure = uncertain::expectation::after_batch(false, uncertain::expectation::MAXS, 2.0_f64, 40.0, 10.0, 0.5)
        .unwrap()
        .unwrap_err();
    assert_eq!(failure.non_converged_value(), 2.0);
    assert_eq!(failure.desired_precision(), 0.5);
    // 2 * sqrt(40 / 10) / 10
    assert_eq!(failure.two_sigma_error(), 0.4);
}

#[test]
fn failure_in_words() {
    let failure = uncertain::expectation::after_batch(false, uncertain::expectation::MAXS, 2.0_f64, 40.0, 10.0, 0.5)
        .unwrap()
        .unwrap_err();
    assert_eq!(
        failure.message(),
        "Expected value 2 +/- 0.4 did not converge to desired precision 0.5"
    );
}

#[test]
fn likelihoods_of_both_hypotheses() {
    assert_eq!(accept_likelyhood(0.5_f64, true), 0.75);
    assert_eq!(accept_likelyhood(0.5_f64, false), 0.25);
    assert_eq!(reject_likelyhood(0.5_f64, true), 0.25);
    assert_eq!(reject_likelyhood(0.5_f64, false), 0.75);
    assert_eq!(accept_likelyhood(0.2_f32, true), 0.5 * (1.0 + 0.2_f32));
    assert_eq!(reject_likelyhood(0.2_f32, false), 1.0 - 0.5 * 0.2_f32);
}

#[test]
fn indifference_of_the_hypotheses() {
    assert_eq!(indifference::<f32>(), 0.999_f32);
    assert_eq!(indifference::<f64>(), 0.999_f64);
}

#[test]
fn log_likelihood_ratio_of_one_draw() {
    assert_eq!(
        log_likelyhood_ratio(0.5_f64, true),
        0.25_f64.ln() - 0.75_f64.ln()
    );
    assert_eq!(
        log_likelyhood_ratio(0.5_f64, false),
        0.75_f64.ln() - 0.25_f64.ln()
    );
    assert_eq!(
        log_likelyhood_ratio(0.3_f32, true),
        (0.5 * 0.3_f32).ln() - (0.5 * (1.0 + 0.3_f32)).ln()
    );
}

#[test]
fn test_draws_whole_batches_at_consecutive_epochs() {
    // ten draws of `true` take the sum to 10 * ln(1/3), below ln(0.001/0.999)
    let epochs = RefCell::new(Vec::new());
    let node = LoggedTrue { epochs: &epochs };
    let mut rng = default_source();
    assert!(uncertain::sprt::compute_with(&node, 0.5_f32, &mut rng));
    assert_eq!(*epochs.borrow(), (0..10).collect::<Vec<usize>>());
    assert!(rng == default_source());
}

#[test]
fn undecided_test_uses_up_its_budget_and_answers_false() {
    // outcomes alternate, so the sum returns to zero after every batch
    struct Alternating<'a> {
        epochs: &'a RefCell<Vec<usize>>,
    }
    impl Uncertain for Alternating<'_> {
        type Value = bool;
        fn sample(&self, _: &mut Pcg32, epoch: usize) -> bool {
            self.epochs.borrow_mut().push(epoch);
            epoch % 2 == 0
        }
    }
    let epochs = RefCell::new(Vec::new());
    let node = Alternating { epochs: &epochs };
    assert!(!uncertain::sprt::compute(&node, 0.5_f64));
    assert_eq!(*epochs.borrow(), (0..10_000).collect::<Vec<usize>>());
}

#[test]
fn estimator_draws_one_value_per_epoch_until_the_budget_is_empty() {
    let epochs = RefCell::new(Vec::new());
    let node = Logged { epochs: &epochs };
    let failure = node.expect(0.1).unwrap().unwrap_err();
    assert_eq!(*epochs.borrow(), (0..10_000).collect::<Vec<usize>>());

    assert_eq!(failure.desired_precision(), 0.1);
    // mean of 0, 1, ..., 9999
    assert!((failure.non_converged_value() - 4999.5).abs() < 1e-6);
    // squared deviations of 0, 1, ..., 9999 sum to n (n^2 - 1) / 12
    let want = 2.0 * (83_333_332_500.0_f64 / 10_000.0).sqrt() / 10_000.0;
    assert!((failure.two_sigma_error() - want).abs() / want < 1e-9);
}

#[test]
fn estimator_stops_after_the_first_batch_that_converges() {
    struct Constant<'a> {
        epochs: &'a RefCell<Vec<usize>>,
    }
    impl Uncertain for Constant<'_> {
        type Value = f32;
        fn sample(&self, _: &mut Pcg32, epoch: usize) -> f32 {
            self.epochs.borrow_mut().push(epoch);
            2.5
        }
    }
    let epochs = RefCell::new(Vec::new());
    let node = Constant { epochs: &epochs };
    assert_eq!(node.expect(0.01).unwrap().unwrap(), 2.5);
    assert_eq!(*epochs.borrow(), (0..10).collect::<Vec<usize>>());
}

#[test]
fn queries_use_the_default_seed() {
    let x = Distribution::from(Normal::new(3.0_f64, 2.0).unwrap());
    let own = uncertain::expectation::compute(&x, 0.001).unwrap();
    let mut rng = default_source();
    let with = uncertain::expectation::compute_with(&x, 0.001, &mut rng).unwrap();
    assert_eq!(own, with);
    assert_eq!(x.expect(0.001).unwrap().unwrap(), own);
    assert!(rng != default_source());

    // a source in another state gives another estimate
    let mut other = Pcg32::new(1, 2);
    let elsewhere = uncertain::expectation::compute_with(&x, 0.001, &mut other).unwrap();
    assert!(elsewhere != own);
    assert!((elsewhere - 3.0).abs() < 0.1);
}

#[test]
fn queries_start_afresh_every_time() {
    let x = Distribution::from(Normal::new(3.0_f64, 2.0).unwrap()).into_ref();
    let first = (&x).expect(0.1).unwrap().unwrap();
    let second = (&x).expect(0.1).unwrap().unwrap();
    assert_eq!(first, second);

    let b = Distribution::from(Bernoulli::new(0.55).unwrap()).into_boxed();
    assert_eq!(b.pr(0.5_f32), b.clone().pr(0.5_f32));
}

#[test]
fn bernoulli_rates_against_thresholds() {
    let x = Distribution::from(Bernoulli::new(0.7).unwrap());
    assert_eq!(x.pr(0.2_f32), Ok(true));
    assert_eq!(x.pr(0.6_f32), Ok(true));

    let y = Distribution::from(Bernoulli::new(0.1).unwrap());
    assert_eq!(y.pr(0.9_f32), Ok(false));
}

#[test]
fn sum_of_two_normals() {
    let a = Distribution::from(Normal::new(5.0_f64, 1.0).unwrap());
    let b = Distribution::from(Normal::new(3.0_f64, 1.0).unwrap());
    // a half-width of 0.001 takes some 2830 draws, whose mean lies well
    // within 0.1 of the sum of the two means
    let mu = a.add(b).expect(0.001).unwrap().unwrap();
    assert!((mu - 8.0).abs() < 0.1);
}

#[test]
fn slot_answers_for_its_own_epoch_only() {
    assert_eq!(recall::<char>(None, 3), None);
    assert_eq!(recall(Some((3, 'a')), 3), Some('a'));
    assert_eq!(recall(Some((3, 'a')), 4), None);
    assert_eq!(recall(Some((0, 'a')), usize::MAX), None);
}

#[test]
fn draw_through_a_slot() {
    let hits = Cell::new(0);
    let node = Counted { hits: &hits, value: true };
    let mut rng = default_source();

    // an empty slot: a fresh draw, which is kept
    let (value, kept) = sample_through(&node, None, &mut rng, 4);
    assert_eq!((value, kept, hits.get()), (true, Some((4, true)), 1));

    // the same epoch: the kept value, whatever it is, and no draw
    let (value, kept) = sample_through(&node, Some((4, false)), &mut rng, 4);
    assert_eq!((value, kept, hits.get()), (false, Some((4, false)), 1));

    // another epoch: a fresh draw, which replaces what was kept
    let (value, kept) = sample_through(&node, Some((4, false)), &mut rng, 5);
    assert_eq!((value, kept, hits.get()), (true, Some((5, true)), 2));
}

#[test]
fn same_epoch_same_value_and_no_randomness_used() {
    let x = Distribution::from(Normal::new(10.0_f64, 1.0).unwrap()).into_ref();
    let mut rng = default_source();
    let mut seen = Vec::new();
    for epoch in 0..100 {
        let first = (&x).sample(&mut rng, epoch);
        let after_first = rng.clone();
        // disturb the source between the two requests
        let mut elsewhere = Pcg32::new(epoch as u64, 17);
        let second = (&x).sample(&mut elsewhere, epoch);
        assert_eq!(first, second);
        assert!(elsewhere == Pcg32::new(epoch as u64, 17));
        let third = x.sample(&mut rng, epoch);
        assert_eq!(first, third);
        assert!(rng == after_first);
        seen.push(first);
    }
    // other epochs are drawn afresh
    for pair in seen.windows(2) {
        assert!(pair[0] != pair[1]);
    }
}

#[test]
fn clones_of_a_boxed_node_share_one_cache() {
    let x: BoxedUncertain<f64> =
        Distribution::from(Normal::new(0.0_f64, 1.0).unwrap()).into_boxed();
    let y = x.clone();
    let mut rng = default_source();
    for epoch in 0..100 {
        let first = x.sample(&mut rng, epoch);
        let after_first = rng.clone();
        assert_eq!(y.sample(&mut rng, epoch), first);
        assert!(rng == after_first);
    }
    let diff = x.clone().sub(y);
    assert_eq!(diff.expect(0.01).unwrap().unwrap(), 0.0);
}

#[test]
fn unshared_leaf_is_drawn_twice() {
    let x = Distribution::new(|rng: &mut Pcg32| rng.next_u32());
    let mut rng = default_source();
    let first = x.sample(&mut rng, 0);
    let second = x.sample(&mut rng, 0);
    let mut check = default_source();
    assert_eq!((first, second), (check.next_u32(), check.next_u32()));
}

#[test]
fn map_applies_the_function() {
    let node = Mapped::new(PointMass::new(3_u32), |x: u32| x + 1);
    let mut rng = default_source();
    assert_eq!(node.sample(&mut rng, 0), 4);
    assert_eq!(PointMass::new(3_u32).map(|x| x * 2).sample(&mut rng, 9), 6);
    assert!(rng == default_source());
}

#[test]
fn flat_map_samples_the_node_it_builds() {
    let node = PointMass::new(true).flat_map(|c| PointMass::new(if c { 1 } else { 2 }));
    let mut rng = default_source();
    assert_eq!(node.sample(&mut rng, 0), 1);
    let node = PointMass::new(false).flat_map(|c| PointMass::new(if c { 1 } else { 2 }));
    assert_eq!(node.sample(&mut rng, 0), 2);

    // the second draw starts where the first left the source
    let node = Distribution::new(|rng: &mut Pcg32| rng.next_u32())
        .flat_map(|first| Distribution::new(move |rng: &mut Pcg32| (first, rng.next_u32())));
    let mut check = default_source();
    let want = (check.next_u32(), check.next_u32());
    assert_eq!(node.sample(&mut rng, 3), want);
}

#[test]
fn binary_nodes_sample_left_before_right() {
    let left = Distribution::new(|rng: &mut Pcg32| rng.next_u32());
    let right = Distribution::new(|rng: &mut Pcg32| rng.next_u32());
    let node = Join::new(left, right, |a: u32, b: u32| (a, b));
    let mut rng = default_source();
    let mut check = default_source();
    let want = (check.next_u32(), check.next_u32());
    assert_eq!(node.sample(&mut rng, 0), want);
    assert!(rng == check);

    let left = Distribution::new(|rng: &mut Pcg32| rng.next_u32() as i64);
    let right = Distribution::new(|rng: &mut Pcg32| rng.next_u32() as i64);
    let node = left.sub(right);
    let mut rng = default_source();
    assert_eq!(node.sample(&mut rng, 0), want.0 as i64 - want.1 as i64);
}

#[test]
fn arithmetic_on_point_masses() {
    let mut rng = default_source();
    assert_eq!(PointMass::new(5).add(PointMass::new(9)).sample(&mut rng, 0), 14);
    assert_eq!(PointMass::new(5).sub(PointMass::new(9)).sample(&mut rng, 0), -4);
    assert_eq!(PointMass::new(5).mul(PointMass::new(9)).sample(&mut rng, 0), 45);
    assert_eq!(PointMass::new(45).div(PointMass::new(9)).sample(&mut rng, 0), 5);
    assert_eq!(PointMass::new(1.0).div(PointMass::new(0.0)).sample(&mut rng, 0), f64::INFINITY);
    assert_eq!(PointMass::new(true).not().sample(&mut rng, 0), false);
    assert_eq!(PointMass::new(false).not().sample(&mut rng, 0), true);
}

#[test]
fn cached_values_do_not_leak_into_the_next_query() {
    // true for its first ten draws, false ever after
    struct Fading<'a> {
        epochs: &'a RefCell<Vec<usize>>,
    }
    impl Uncertain for Fading<'_> {
        type Value = bool;
        fn sample(&self, _: &mut Pcg32, epoch: usize) -> bool {
            self.epochs.borrow_mut().push(epoch);
            self.epochs.borrow().len() <= 10
        }
    }
    // true at the last epoch of every batch only
    struct Gate;
    impl Uncertain for Gate {
        type Value = bool;
        fn sample(&self, _: &mut Pcg32, epoch: usize) -> bool {
            epoch % 10 == 9
        }
    }

    let epochs = RefCell::new(Vec::new());
    let x = Fading { epochs: &epochs }.into_ref();

    // the first query ends after one batch and leaves the draw of epoch 9 in the cache
    assert_eq!((&x).pr(0.5_f32), Ok(true));
    assert_eq!(*epochs.borrow(), (0..10).collect::<Vec<usize>>());

    // the second query reaches `x` at epoch 9 first: it must draw afresh there
    let node = Gate.and(&x);
    let mut rng = default_source();
    let accepted = uncertain::sprt::compute_with(&node, 0.5_f32, &mut rng);
    assert!(!accepted);
    assert_eq!(epochs.borrow()[10], 9);
    assert!(epochs.borrow()[10..].iter().all(|epoch| epoch % 10 == 9));
}

#[test]
fn reset_empties_the_caches_it_can_reach() {
    let hits = Cell::new(0);
    let x = Counted { hits: &hits, value: true }.into_ref();
    let mut rng = default_source();
    assert!((&x).sample(&mut rng, 3));
    assert!((&x).sample(&mut rng, 3));
    assert_eq!(hits.get(), 1);

    // through a combinator
    let node = PointMass::new(true).and(&x);
    node.reset();
    assert!(node.sample(&mut rng, 3));
    assert!(node.sample(&mut rng, 3));
    assert_eq!(hits.get(), 2);

    // through a boxed node and its clones
    let hits = Cell::new(0);
    let shared = Shared { hits: std::rc::Rc::new(Cell::new(0)) };
    let count = shared.hits.clone();
    let boxed = shared.into_boxed();
    let other = boxed.clone();
    assert!(boxed.sample(&mut rng, 7));
    assert!(other.sample(&mut rng, 7));
    assert_eq!(count.get(), 1);
    other.reset();
    assert!(boxed.sample(&mut rng, 7));
    assert_eq!(count.get(), 2);
    assert_eq!(hits.get(), 0);
}

/// A node that counts its draws in a shared counter.
struct Shared {
    hits: std::rc::Rc<Cell<usize>>,
}

impl Uncertain for Shared {
    type Value = bool;

    fn sample(&self, _: &mut Pcg32, _: usize) -> bool {
        self.hits.set(self.hits.get() + 1);
        true
    }
}

#[test]
fn steps_of_the_running_estimate() {
    // from nothing, the first value is the mean
    assert_eq!(
        uncertain::expectation::welford_step(0.0_f64, 0.0, 0.0, 4.0),
        (4.0, 0.0, 1.0)
    );
    // mean 4 of one value, then 8: mean 6, squared deviations 2 * 2^2
    assert_eq!(
        uncertain::expectation::welford_step(4.0_f64, 0.0, 1.0, 8.0),
        (6.0, 8.0, 2.0)
    );
    // mean 6 of two values, then 3: mean 5, squared deviations 8 + (-3)(-2)
    assert_eq!(
        uncertain::expectation::welford_step(6.0_f64, 8.0, 2.0, 3.0),
        (5.0, 14.0, 3.0)
    );
}

#[test]
fn boundaries_of_the_running_sum() {
    let (upper, lower) = uncertain::sprt::boundaries::<f32>();
    assert_eq!(upper, (0.999_f32 / (1.0 - 0.999_f32)).ln());
    assert_eq!(lower, ((1.0 - 0.999_f32) / 0.999_f32).ln());
    let (upper, lower) = uncertain::sprt::boundaries::<f64>();
    assert_eq!(upper, (0.999_f64 / (1.0 - 0.999_f64)).ln());
    assert_eq!(lower, ((1.0 - 0.999_f64) / 0.999_f64).ln());
}

#[test]
fn refused_query_draws_nothing() {
    let hits = Cell::new(0);
    let node = Counted { hits: &hits, value: true };
    let mut rng = default_source();
    for probability in [0.0_f32, 1.0, -0.3, 1.2, f32::NAN] {
        assert_eq!(
            node.pr_with(probability, &mut rng),
            Err(InvalidArgument::Probability)
        );
        assert_eq!(node.pr(probability), Err(InvalidArgument::Probability));
    }
    assert_eq!(hits.get(), 0);
    assert!(rng == default_source());
    assert_eq!(node.pr_with(0.5_f32, &mut rng), Ok(true));
    assert_eq!(hits.get(), 10);

    let epochs = RefCell::new(Vec::new());
    let node = Logged { epochs: &epochs };
    for precision in [0.0, -0.1, f64::NAN] {
        assert!(matches!(
            node.expect_with(precision, &mut rng),
            Err(InvalidArgument::Precision)
        ));
        assert!(matches!(node.expect(precision), Err(InvalidArgument::Precision)));
    }
    assert!(epochs.borrow().is_empty());
}

#[test]
fn queries_on_a_given_source() {
    let x = Distribution::from(Normal::new(3.0_f64, 2.0).unwrap());
    let mut rng = default_source();
    let with = x.expect_with(0.1, &mut rng).unwrap().unwrap();
    assert_eq!(with, x.expect(0.1).unwrap().unwrap());

    let b = Distribution::from(Bernoulli::new(0.7).unwrap());
    let mut rng = default_source();
    assert_eq!(b.pr_with(0.6_f32, &mut rng), b.pr(0.6_f32));
    assert!(rng != default_source());
}

#[test]
fn estimator_stops_at_the_first_half_width_within_the_precision() {
    // 0, 1, 0, 1, ...: after ten draws the mean is 0.5, the squared
    // deviations sum to 2.5 and the half-width is 2 * sqrt(2.5 / 10) / 10 = 0.1
    struct Alternating<'a> {
        epochs: &'a RefCell<Vec<usize>>,
    }
    impl Uncertain for Alternating<'_> {
        type Value = f64;
        fn sample(&self, _: &mut Pcg32, epoch: usize) -> f64 {
            self.epochs.borrow_mut().push(epoch);
            (epoch % 2) as f64
        }
    }
    let epochs = RefCell::new(Vec::new());
    let node = Alternating { epochs: &epochs };
    let mean = uncertain::expectation::compute(&node, 0.15).unwrap();
    assert!((mean - 0.5).abs() < 1e-9);
    assert_eq!(*epochs.borrow(), (0..10).collect::<Vec<usize>>());

    // a precision just below that half-width takes one more batch:
    // 2 * sqrt(5 / 20) / 20 = 0.05
    let epochs = RefCell::new(Vec::new());
    let node = Alternating { epochs: &epochs };
    let mean = uncertain::expectation::compute(&node, 0.09).unwrap();
    assert!((mean - 0.5).abs() < 1e-9);
    assert_eq!(*epochs.borrow(), (0..20).collect::<Vec<usize>>());
}
