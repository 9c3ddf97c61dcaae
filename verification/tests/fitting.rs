use glissando::{
    plan_links, resolve_link, term_column_blocks, validate_link_overrides, Family, GamlssError, Gaussian,
    LinkKind, LinkOverrides, NaAction, Ocat, SmoothingCriterion, StudentT, Beta,
};

#[test]
fn criterion_default_is_reml() {
    assert_eq!(SmoothingCriterion::default(), SmoothingCriterion::Reml);
    assert_eq!(NaAction::default(), NaAction::DropRows);
}

#[test]
fn criterion_from_name_reads_wire_names_in_any_case() {
    assert_eq!(SmoothingCriterion::from_name("gcv").unwrap(), SmoothingCriterion::Gcv);
    assert_eq!(SmoothingCriterion::from_name("REML").unwrap(), SmoothingCriterion::Reml);
    assert_eq!(
        SmoothingCriterion::from_name("Fellner_Schall").unwrap(),
        SmoothingCriterion::FellnerSchall
    );
}

#[test]
fn criterion_from_name_reports_the_lowercased_name() {
    match SmoothingCriterion::from_name("AIC") {
        Err(GamlssError::Input(m)) => assert_eq!(
            m,
            "Unknown criterion 'aic', expected 'gcv', 'reml', or 'fellner_schall'"
        ),
        other => panic!("expected Input, got {:?}", other),
    }
    assert!(SmoothingCriterion::from_name("fellner-schall").is_err());
}

#[test]
fn overrides_keep_insertion_order_and_replace_in_place() {
    let o = LinkOverrides::new()
        .with_link("sigma".to_string(), "sqrt".to_string())
        .with_link("mu".to_string(), "probit".to_string())
        .with_link("sigma".to_string(), "log".to_string());
    assert_eq!(o.params(), vec!["sigma".to_string(), "mu".to_string()]);
    assert_eq!(o.get("sigma"), Some("log".to_string()));
    assert_eq!(o.get("mu"), Some("probit".to_string()));
    assert_eq!(o.get("nu"), None);
}

#[test]
fn with_links_applies_pairs_in_order() {
    let o = LinkOverrides::new().with_links(vec![
        ("mu".to_string(), "logit".to_string()),
        ("nu".to_string(), "log".to_string()),
        ("mu".to_string(), "cloglog".to_string()),
    ]);
    assert_eq!(o.params(), vec!["mu".to_string(), "nu".to_string()]);
    assert_eq!(o.get("mu"), Some("cloglog".to_string()));
}

#[test]
fn validate_accepts_known_overridable_parameters() {
    let o = LinkOverrides::new().with_link("mu".to_string(), "probit".to_string());
    assert!(validate_link_overrides(&Family::Gaussian(Gaussian), &o).is_ok());
    assert!(validate_link_overrides(&Family::Gaussian(Gaussian), &LinkOverrides::new()).is_ok());
}

#[test]
fn validate_reports_an_unknown_parameter_first() {
    // Beta's second parameter is `phi`, so a `sigma` override is a misspelling.
    let o = LinkOverrides::new().with_link("sigma".to_string(), "log".to_string());
    match validate_link_overrides(&Family::Beta(Beta), &o) {
        Err(GamlssError::Input(m)) => assert_eq!(
            m,
            "link override for unknown parameter 'sigma': Beta has parameters [mu, phi]"
        ),
        other => panic!("expected Input, got {:?}", other),
    }
    // On a family that refuses every parameter, a misspelling is still reported as such.
    let o = LinkOverrides::new().with_link("zeta".to_string(), "log".to_string());
    match validate_link_overrides(&Family::Ocat(Ocat::new(3)), &o) {
        Err(GamlssError::Input(m)) => assert_eq!(
            m,
            "link override for unknown parameter 'zeta': Ocat has parameters [mu, delta_1, delta_2]"
        ),
        other => panic!("expected Input, got {:?}", other),
    }
}

#[test]
fn validate_reports_a_refused_override() {
    let o = LinkOverrides::new()
        .with_link("mu".to_string(), "identity".to_string())
        .with_link("nu".to_string(), "log".to_string());
    match validate_link_overrides(&Family::StudentT(StudentT), &o) {
        Err(GamlssError::Input(m)) => {
            assert!(m.starts_with("StudentT does not support a link override for 'nu'"));
            assert!(m.ends_with("model the parameter with a family that supports one."));
        }
        other => panic!("expected Input, got {:?}", other),
    }
}

#[test]
fn resolve_link_prefers_the_override() {
    let family = Family::Gaussian(Gaussian);
    let o = LinkOverrides::new().with_link("mu".to_string(), "probit".to_string());
    assert_eq!(resolve_link(&family, &o, "mu").unwrap(), LinkKind::Probit);
    assert_eq!(resolve_link(&family, &o, "sigma").unwrap(), LinkKind::Log);
    assert!(resolve_link(&family, &o, "nu").is_err());
    let bad = LinkOverrides::new().with_link("mu".to_string(), "floored_log".to_string());
    assert!(matches!(
        resolve_link(&family, &bad, "mu"),
        Err(GamlssError::Input(_))
    ));
}

#[test]
fn term_blocks_are_contiguous() {
    let names = vec!["(Intercept)".to_string(), "x".to_string(), "s(z)".to_string()];
    let widths = vec![1usize, 1, 10];
    let blocks = term_column_blocks(&names, &widths);
    assert_eq!(
        blocks,
        vec![
            ("(Intercept)".to_string(), 0, 1),
            ("x".to_string(), 1, 2),
            ("s(z)".to_string(), 2, 12),
        ]
    );
    assert!(term_column_blocks(&vec![], &vec![]).is_empty());
    let empty_middle = term_column_blocks(
        &vec!["a".to_string(), "b".to_string(), "c".to_string()],
        &vec![2, 0, 3],
    );
    assert_eq!(empty_middle[1], ("b".to_string(), 2, 2));
    assert_eq!(empty_middle[2], ("c".to_string(), 2, 5));
}

#[test]
fn plan_links_follows_family_order_and_records_overrides() {
    let family = Family::Gaussian(Gaussian);
    let o = LinkOverrides::new().with_link("mu".to_string(), "probit".to_string());
    let plan = plan_links(&family, &o).unwrap();
    assert_eq!(plan.len(), 2);
    assert_eq!(plan[0].param, "mu");
    assert_eq!(plan[0].link, LinkKind::Probit);
    assert_eq!(plan[0].override_name, Some("probit".to_string()));
    assert_eq!(plan[1].param, "sigma");
    assert_eq!(plan[1].link, LinkKind::Log);
    assert_eq!(plan[1].override_name, None);
}

#[test]
fn plan_links_uses_defaults_without_overrides() {
    let plan = plan_links(&Family::StudentT(StudentT), &LinkOverrides::new()).unwrap();
    let links: Vec<LinkKind> = plan.iter().map(|p| p.link).collect();
    assert_eq!(links, vec![LinkKind::Identity, LinkKind::Log, LinkKind::FlooredLog]);
    assert!(plan.iter().all(|p| p.override_name.is_none()));
}

#[test]
fn plan_links_rejects_an_unknown_link_name() {
    let o = LinkOverrides::new().with_link("sigma".to_string(), "exp".to_string());
    match plan_links(&Family::Gaussian(Gaussian), &o) {
        Err(GamlssError::Input(m)) => assert_eq!(
            m,
            "Unknown link: 'exp'. Supported: identity, log, logit, probit, cloglog, inverse, inverse_square, sqrt, cauchit"
        ),
        other => panic!("expected Input, got {:?}", other),
    }
}

#[test]
fn plan_links_validates_keys_before_link_names() {
    // The bad link name on `mu` comes first, but the unknown key is reported.
    let o = LinkOverrides::new()
        .with_link("mu".to_string(), "exp".to_string())
        .with_link("phi".to_string(), "log".to_string());
    match plan_links(&Family::Gaussian(Gaussian), &o) {
        Err(GamlssError::Input(m)) => assert_eq!(
            m,
            "link override for unknown parameter 'phi': Gaussian has parameters [mu, sigma]"
        ),
        other => panic!("expected Input, got {:?}", other),
    }
}

#[test]
fn fit_defaults_are_two_hundred_cycles_with_step_halving() {
    assert_eq!(glissando::default_max_iter(), 200);
    assert_eq!(glissando::DEFAULT_MAX_ITER, 200);
    assert!(glissando::default_true());
}
