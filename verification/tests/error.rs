use glissando::{check_state_len, GamlssError};

#[test]
fn display_optimization() {
    let s = GamlssError::Optimization("lbfgs failed".into()).message();
    assert!(s.contains("Optimization failed"));
    assert!(s.contains("lbfgs failed"));
}

#[test]
fn display_shape() {
    let s = GamlssError::Shape("bad dim".into()).message();
    assert!(s.contains("Array shape error"));
}

#[test]
fn display_convergence() {
    let s = GamlssError::Convergence(42).message();
    assert!(s.contains("42"));
}

#[test]
fn display_input() {
    let s = GamlssError::Input("bad".into()).message();
    assert!(s.contains("Invalid input"));
}

#[test]
fn display_unknown_parameter() {
    let s = GamlssError::UnknownParameter {
        distribution: "Gaussian".into(),
        param: "zeta".into(),
    }
    .message();
    assert!(s.contains("zeta"));
    assert!(s.contains("Gaussian"));
}

#[test]
fn display_missing_variable() {
    let s = GamlssError::MissingVariable { name: "x".into() }.message();
    assert!(s.contains("'x'"));
}

#[test]
fn display_non_finite_values() {
    let s = GamlssError::NonFiniteValues {
        name: "y".into(),
        count: 3,
    }
    .message();
    assert!(s.contains("3"));
    assert!(s.contains("'y'"));
}

#[test]
fn display_missing_formula() {
    let s = GamlssError::MissingFormula {
        param: "sigma".into(),
    }
    .message();
    assert!(s.contains("sigma"));
}

#[test]
fn display_empty_data() {
    let s = GamlssError::EmptyData.message();
    assert!(s.contains("Empty"));
}

#[test]
fn from_shape_error() {
    // Force a real ShapeError by reshaping to a size that can't fit.
    let res: Result<_, _> = ndarray::Array2::<f64>::zeros((2, 3)).into_shape_with_order((4, 4));
    let err = res.unwrap_err();
    let g = GamlssError::from_shape_error(&err);
    assert!(matches!(g, GamlssError::Shape(_)));
}

#[test]
fn shape_error_keeps_the_ndarray_text() {
    let err = ndarray::ShapeError::from_kind(ndarray::ErrorKind::IncompatibleShape);
    match GamlssError::from_shape_error(&err) {
        GamlssError::Shape(s) => assert_eq!(s, "ShapeError/IncompatibleShape: incompatible shapes"),
        other => panic!("expected Shape, got {:?}", other),
    }
}

#[test]
fn optimization_error_keeps_the_whole_chain() {
    let inner = argmin::core::Error::msg("line search did not converge");
    let outer = inner.context("L-BFGS step failed");
    match GamlssError::from_optimization_error(&outer) {
        GamlssError::Optimization(s) => {
            assert_eq!(s, "L-BFGS step failed: line search did not converge")
        }
        other => panic!("expected Optimization, got {:?}", other),
    }
}

#[test]
fn every_variant_displays_its_exact_text() {
    let cases: Vec<(GamlssError, &str)> = vec![
        (GamlssError::Optimization("x".into()), "Optimization failed: x"),
        (GamlssError::Linalg("singular".into()), "Linear algebra error: singular"),
        (
            GamlssError::PosteriorNotPositiveDefinite,
            "Posterior covariance is not positive definite (Cholesky failed)",
        ),
        (GamlssError::Shape("s".into()), "Array shape error: s"),
        (
            GamlssError::Convergence(200),
            "RS algorithm failed to converge after 200 iterations",
        ),
        (GamlssError::Input("bad".into()), "Invalid input: bad"),
        (
            GamlssError::UnknownParameter {
                distribution: "Gaussian".into(),
                param: "zeta".into(),
            },
            "Unknown parameter 'zeta' for distribution 'Gaussian'",
        ),
        (
            GamlssError::FamilyMismatch {
                expected: "Gaussian".into(),
                actual: "Poisson".into(),
            },
            "Family mismatch: model was fit with Gaussian but predict was called with a different family (Poisson)",
        ),
        (GamlssError::Internal("oops".into()), "Internal error: oops"),
        (
            GamlssError::MissingVariable { name: "x".into() },
            "Variable 'x' not found in data",
        ),
        (
            GamlssError::NonFiniteValues {
                name: "y".into(),
                count: 0,
            },
            "Variable 'y' contains 0 non-finite values (NaN or Inf)",
        ),
        (
            GamlssError::MissingFormula {
                param: "nu".into(),
            },
            "Formula missing terms for distribution parameter 'nu'",
        ),
        (GamlssError::EmptyData, "Empty dataset: no observations provided"),
    ];
    for (e, expected) in cases {
        assert_eq!(e.message(), expected);
    }
}

#[test]
fn convergence_count_is_written_in_decimal() {
    assert_eq!(
        GamlssError::Convergence(1_000_007).message(),
        "RS algorithm failed to converge after 1000007 iterations"
    );
    assert_eq!(
        GamlssError::Convergence(usize::MAX).message(),
        format!("RS algorithm failed to converge after {} iterations", usize::MAX)
    );
}

#[test]
fn check_state_len_accepts_matching_lengths() {
    assert!(check_state_len("Censored: status", 4, 4).is_ok());
    assert!(check_state_len("Truncated: lower bound", 0, 0).is_ok());
}

#[test]
fn check_state_len_reports_both_lengths() {
    match check_state_len("Censored: status", 3, 2) {
        Err(GamlssError::Input(m)) => {
            assert_eq!(m, "Censored: status length 3 does not match response length 2")
        }
        other => panic!("expected Input, got {:?}", other),
    }
}
