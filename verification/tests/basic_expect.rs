use rand_distr::{Normal, Poisson};
use rand_pcg::Pcg32;
use uncertain::{Distribution, PointMass, Uncertain, UncertainExt};

/// What the estimator owes for `precision` on the values that `draw` hands
/// out one after the other from the default source: the mean of the first
/// whole batches of ten after which `2 * sqrt(S / n) / n` is at most the
/// precision, `S` being the sum of the squared deviations of the `n` values.
fn mean_by_the_rule(mut draw: impl FnMut(&mut Pcg32) -> f64, precision: f64) -> Option<f64> {
    let mut rng = Pcg32::new(0xcafef00dd15ea5e5, 0xa02bdbf7bb3c0a7);
    let mut values = Vec::new();
    for _ in 0..1000 {
        for _ in 0..10 {
            values.push(draw(&mut rng));
        }
        let n = values.len() as f64;
        let mean = values.iter().sum::<f64>() / n;
        let s: f64 = values.iter().map(|v| (v - mean) * (v - mean)).sum();
        if 2.0 * (s / n).sqrt() / n <= precision {
            return Some(mean);
        }
    }
    None
}

#[test]
fn basic_gaussian() {
    let centers: Vec<f64> = vec![0.0, 3.5, 1.73, 234.23235];
    for center in centers {
        let x = Distribution::from(Normal::new(center, 1.0).unwrap());
        let mu = x.expect(0.1).unwrap();
        assert!(mu.is_ok());
        assert!((mu.unwrap() - center).abs() < 0.1);
    }
    let centers: Vec<f32> = vec![0.0, 3.5, 1.73, 234.23235];
    for center in centers {
        let x = Distribution::from(Normal::new(center, 1.0).unwrap());
        let mu = x.expect(0.1).unwrap();
        assert!(mu.is_ok());
        assert!((mu.unwrap() - center).abs() < 0.1);
    }
}

#[test]
fn basic_poisson() {
    let centers: Vec<f64> = vec![1.0, 2.0, 3.0, 5.0, 15.0];
    for center in centers {
        let x = Distribution::from(Poisson::new(center).unwrap());
        let mu = x.expect(0.1).unwrap();
        assert!(mu.is_ok());
        let law = Poisson::new(center).unwrap();
        let want = mean_by_the_rule(|rng| rand::distributions::Distribution::sample(&law, rng), 0.1);
        assert!((mu.unwrap() - want.unwrap()).abs() < 1e-9);
    }

    let centers: Vec<f64> = vec![100.0, 200.0, 300.0, 400.0, 500.0];
    for center in centers {
        let x = Distribution::from(Poisson::new(center).unwrap());
        let mu = x.expect(10.0).unwrap();
        assert!(mu.is_ok());
        let law = Poisson::new(center).unwrap();
        let want = mean_by_the_rule(|rng| rand::distributions::Distribution::sample(&law, rng), 10.0);
        assert!((mu.unwrap() - want.unwrap()).abs() < 1e-9);
    }

    let centers: Vec<f64> = vec![0.35235, 1.234, 4.324234, 6.3435];
    for center in centers {
        let x = Distribution::from(Poisson::new(center).unwrap());
        let mu = x.expect(0.1).unwrap();
        assert!(mu.is_ok());
        let law = Poisson::new(center).unwrap();
        let want = mean_by_the_rule(|rng| rand::distributions::Distribution::sample(&law, rng), 0.1);
        assert!((mu.unwrap() - want.unwrap()).abs() < 1e-9);
    }
}

#[test]
fn very_easy() {
    let x = PointMass::new(5.0);
    assert_eq!(x.expect(0.01).unwrap().unwrap(), 5.0);

    let x = Distribution::from(Normal::new(5.0, 2.0).unwrap()).into_ref();
    let y = (&x).sub(&x);
    assert_eq!(y.expect(0.01).unwrap().unwrap(), 0.0);
}

#[test]
fn very_hard() {
    struct UncertainCounter;
    impl Uncertain for UncertainCounter {
        type Value = f64;

        fn sample(&self, _: &mut Pcg32, epoch: usize) -> Self::Value {
            epoch as f64
        }
    }

    let c = UncertainCounter;
    let mu = c.expect(0.1).unwrap(); // should not converge (!)
    assert!(mu.is_err());
}

#[test]
fn composite_gaussian_poisson() {
    let g = Distribution::from(Normal::new(5.0, 2.0).unwrap());
    let p = Distribution::from(Poisson::new(3.0).unwrap());
    let s = g.add(p);

    let mu = s.expect(0.1 as f64).unwrap();
    assert!(mu.is_ok());
    let normal = Normal::new(5.0, 2.0).unwrap();
    let poisson = Poisson::new(3.0).unwrap();
    let want = mean_by_the_rule(
        |rng| {
            let left: f64 = rand::distributions::Distribution::sample(&normal, rng);
            let right: f64 = rand::distributions::Distribution::sample(&poisson, rng);
            left + right
        },
        0.1,
    );
    assert!((mu.unwrap() - want.unwrap()).abs() < 1e-9);
}
