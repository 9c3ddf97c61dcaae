use glissando::{QuantileSearch, SearchStep};

/// Runs the search against a predicate, counting evaluations.
fn run(reaches: impl Fn(u64) -> bool) -> (u64, usize) {
    let mut s = QuantileSearch::new();
    let mut evaluations = 0;
    loop {
        match s.step() {
            SearchStep::Evaluate(k) => {
                evaluations += 1;
                s = s.advance(reaches(k));
            }
            SearchStep::Finish(k) => return (k, evaluations),
        }
    }
}

#[test]
fn finds_zero_when_the_first_point_reaches() {
    assert_eq!(run(|_| true).0, 0);
}

#[test]
fn finds_the_least_reaching_point() {
    for target in [1u64, 2, 3, 7, 8, 9, 37, 1000, 123_456_789] {
        let (k, _) = run(|x| x >= target);
        assert_eq!(k, target);
    }
}

#[test]
fn search_is_logarithmic() {
    let (k, evaluations) = run(|x| x >= 1_000_000);
    assert_eq!(k, 1_000_000);
    assert!(evaluations <= 2 * 64 + 1, "{evaluations} evaluations");
}

#[test]
fn saturates_at_the_top_of_the_range() {
    assert_eq!(run(|_| false).0, u64::MAX);
    assert_eq!(run(|x| x == u64::MAX).0, u64::MAX);
    assert_eq!(run(|x| x >= u64::MAX - 5).0, u64::MAX - 5);
}

#[test]
fn matches_a_discrete_cdf() {
    // Poisson(mu = 3.2) CDF, smallest k with F(k) >= p.
    let mu: f64 = 3.2;
    let cdf = |k: u64| {
        let mut term = (-mu).exp();
        let mut total = term;
        for i in 1..=k {
            term *= mu / i as f64;
            total += term;
        }
        total
    };
    for p in [0.01, 0.2, 0.5, 0.9, 0.999] {
        let (k, _) = run(|x| cdf(x) >= p);
        assert!(cdf(k) >= p);
        if k > 0 {
            assert!(cdf(k - 1) < p);
        }
    }
}
