use glissando::{
    CensorStatus, Censored,
    from_name, Beta, Family, GamlssError, Gamma, Gaussian, Hurdle, LinkKind, NegativeBinomial,
    Ocat, Poisson, StudentT, Weibull, BCCG, BCPE, BCT,
};

#[test]
fn mod_from_name_returns_expected_variants() {
    for name in &[
        "Gaussian",
        "Poisson",
        "StudentT",
        "Gamma",
        "NegativeBinomial",
        "Beta",
        "Weibull",
        "BCCG",
        "BCT",
        "BCPE",
    ] {
        let d = from_name(name).unwrap();
        assert_eq!(d.name(), *name);
    }
}

#[test]
fn mod_from_name_unknown_returns_input_error() {
    let err = from_name("Wishart").unwrap_err();
    assert!(matches!(err, GamlssError::Input(_)));
}

#[test]
fn distributions_from_name_returns_expected_variants() {
    for name in &[
        "Gaussian",
        "Poisson",
        "StudentT",
        "Gamma",
        "NegativeBinomial",
        "Beta",
    ] {
        let d = from_name(name).unwrap();
        assert_eq!(d.name(), *name);
    }
}

#[test]
fn distributions_from_name_unknown_returns_input_error() {
    let err = from_name("Wishart").unwrap_err();
    assert!(matches!(err, GamlssError::Input(_)));
}

#[test]
fn mod_unknown_param_carries_distribution_name() {
    let err = Family::Gaussian(Gaussian).unknown_param("zeta");
    match err {
        GamlssError::UnknownParameter {
            distribution,
            param,
        } => {
            assert_eq!(distribution, "Gaussian");
            assert_eq!(param, "zeta");
        }
        other => panic!("expected UnknownParameter, got {:?}", other),
    }
}

#[test]
fn distributions_unknown_param_carries_distribution_name() {
    let err = Family::Gaussian(Gaussian).unknown_param("zeta");
    match err {
        GamlssError::UnknownParameter {
            distribution,
            param,
        } => {
            assert_eq!(distribution, "Gaussian");
            assert_eq!(param, "zeta");
        }
        other => panic!("expected UnknownParameter, got {:?}", other),
    }
}

#[test]
fn parameters_append_xi() {
    let h = Family::Hurdle(Hurdle::new(Family::Gamma(Gamma::new())));
    assert_eq!(h.parameters(), vec!["mu", "sigma", "xi"]);
    assert_eq!(h.default_link("xi").unwrap(), LinkKind::Logit); // logit(0.5) = 0
}

#[test]
fn default_link_is_log_for_both_and_errs_on_unknown() {
    let w = Family::Weibull(Weibull);
    assert!(w.default_link("mu").is_ok());
    assert!(w.default_link("sigma").is_ok());
    assert!(w.default_link("nu").is_err());
}

#[test]
fn from_name_error_lists_the_supported_families() {
    match from_name("Wishart") {
        Err(GamlssError::Input(m)) => assert_eq!(
            m,
            "Unknown distribution: 'Wishart'. Supported: Gaussian, Poisson, StudentT, Gamma, NegativeBinomial, Beta, Weibull, BCCG, BCT, BCPE"
        ),
        other => panic!("expected Input, got {:?}", other),
    }
}

#[test]
fn stateful_families_are_not_reachable_by_name() {
    for name in ["Binomial", "Ocat", "Censored", "Truncated", "Hurdle", "gaussian", ""] {
        assert!(from_name(name).is_err(), "{name} should not resolve");
    }
}

#[test]
fn parameters_of_each_family() {
    let cases: Vec<(Family, Vec<&str>)> = vec![
        (Family::Poisson(Poisson::new()), vec!["mu"]),
        (Family::Binomial, vec!["mu"]),
        (Family::Gaussian(Gaussian::new()), vec!["mu", "sigma"]),
        (Family::StudentT(StudentT::new()), vec!["mu", "sigma", "nu"]),
        (Family::Gamma(Gamma::new()), vec!["mu", "sigma"]),
        (Family::NegativeBinomial(NegativeBinomial::new()), vec!["mu", "sigma"]),
        (Family::Beta(Beta::new()), vec!["mu", "phi"]),
        (Family::Weibull(Weibull::new()), vec!["mu", "sigma"]),
        (Family::Bccg(BCCG::new()), vec!["mu", "sigma", "nu"]),
        (Family::Bct(BCT::new()), vec!["mu", "sigma", "nu", "tau"]),
        (Family::Bcpe(BCPE::new()), vec!["mu", "sigma", "nu", "tau"]),
    ];
    for (family, expected) in cases {
        assert_eq!(family.parameters(), expected, "{}", family.name());
    }
}

#[test]
fn default_links_of_each_family() {
    let g = Family::Gaussian(Gaussian);
    assert_eq!(g.default_link("mu").unwrap(), LinkKind::Identity);
    assert_eq!(g.default_link("sigma").unwrap(), LinkKind::Log);
    let t = Family::StudentT(StudentT);
    assert_eq!(t.default_link("nu").unwrap(), LinkKind::FlooredLog);
    let b = Family::Beta(Beta);
    assert_eq!(b.default_link("mu").unwrap(), LinkKind::Logit);
    assert_eq!(b.default_link("phi").unwrap(), LinkKind::Log);
    assert_eq!(Family::Binomial.default_link("mu").unwrap(), LinkKind::Logit);
    assert_eq!(Family::Poisson(Poisson).default_link("mu").unwrap(), LinkKind::Log);
    let bct = Family::Bct(BCT);
    assert_eq!(bct.default_link("nu").unwrap(), LinkKind::Identity);
    assert_eq!(bct.default_link("tau").unwrap(), LinkKind::Log);
    assert_eq!(Family::Bccg(BCCG).default_link("nu").unwrap(), LinkKind::Identity);
}

#[test]
fn unknown_parameter_error_names_the_family() {
    match Family::Beta(Beta).default_link("sigma") {
        Err(GamlssError::UnknownParameter {
            distribution,
            param,
        }) => {
            assert_eq!(distribution, "Beta");
            assert_eq!(param, "sigma");
        }
        other => panic!("expected UnknownParameter, got {:?}", other),
    }
}

#[test]
fn wrappers_delegate_to_their_base() {
    let c = Family::Censored(Censored::new(Family::Gaussian(Gaussian), vec![]));
    assert_eq!(c.parameters(), vec!["mu", "sigma"]);
    assert_eq!(c.default_link("sigma").unwrap(), LinkKind::Log);
    assert!(!c.is_discrete());
    assert!(c.needs_second_order_links());
    let t = Family::Truncated(Box::new(Family::Poisson(Poisson)));
    assert_eq!(t.parameters(), vec!["mu"]);
    assert!(t.is_discrete());
    // An unknown name is reported against the base family.
    match t.default_link("zeta") {
        Err(GamlssError::UnknownParameter { distribution, .. }) => {
            assert_eq!(distribution, "Poisson")
        }
        other => panic!("expected UnknownParameter, got {:?}", other),
    }
    let h = Family::Hurdle(Hurdle::new(Family::NegativeBinomial(NegativeBinomial)));
    assert_eq!(h.name(), "Hurdle");
    assert!(h.is_discrete());
    assert_eq!(h.default_link("mu").unwrap(), LinkKind::Log);
}

#[test]
fn ocat_parameters_follow_the_level_count() {
    assert_eq!(Family::Ocat(Ocat::new(2)).parameters(), vec!["mu", "delta_1"]);
    assert_eq!(
        Family::Ocat(Ocat::new(4)).parameters(),
        vec!["mu", "delta_1", "delta_2", "delta_3"]
    );
    assert_eq!(
        Family::Ocat(Ocat::new(5)).parameters(),
        vec!["mu", "delta_1", "delta_2", "delta_3", "delta_4"]
    );
    let o = Ocat::new(3);
    assert_eq!(o.n_categories(), 3);
    assert_eq!(o.n_thresholds(), 2);
    assert_eq!(Ocat::threshold_param_name(1), "delta_1");
    assert_eq!(Ocat::threshold_param_name(4), "delta_4");
}

#[test]
fn ocat_links_and_overrides() {
    let o = Family::Ocat(Ocat::new(4));
    assert_eq!(o.default_link("mu").unwrap(), LinkKind::Identity);
    assert_eq!(o.default_link("delta_1").unwrap(), LinkKind::Identity);
    assert_eq!(o.default_link("delta_3").unwrap(), LinkKind::Log);
    assert!(o.default_link("sigma").is_err());
    assert!(!o.allows_link_override("mu"));
    assert!(!o.allows_link_override("delta_2"));
    assert!(o.is_discrete());
    assert_eq!(o.as_ocat().map(|x| x.n_categories()), Some(4));
    assert!(Family::Gaussian(Gaussian).as_ocat().is_none());
}

#[test]
fn only_student_t_nu_refuses_an_override_among_the_continuous_families() {
    let t = Family::StudentT(StudentT);
    assert!(t.allows_link_override("mu"));
    assert!(t.allows_link_override("sigma"));
    assert!(!t.allows_link_override("nu"));
    assert!(Family::Gaussian(Gaussian).allows_link_override("mu"));
    assert!(Family::Bct(BCT).allows_link_override("nu"));
}

#[test]
fn discreteness_of_each_family() {
    assert!(Family::Poisson(Poisson).is_discrete());
    assert!(Family::Binomial.is_discrete());
    assert!(Family::NegativeBinomial(NegativeBinomial).is_discrete());
    assert!(!Family::Gaussian(Gaussian).is_discrete());
    assert!(!Family::Beta(Beta).is_discrete());
    assert!(!Family::Weibull(Weibull).is_discrete());
    assert!(!Family::Gaussian(Gaussian).needs_second_order_links());
}

#[test]
fn hurdle_keeps_its_base() {
    let h = Hurdle::new(Family::Gamma(Gamma));
    assert_eq!(h.base().name(), "Gamma");
}

#[test]
fn wrappers_accept_every_override() {
    let c = Family::Censored(Censored::new(Family::StudentT(StudentT), vec![CensorStatus::Event]));
    assert!(c.allows_link_override("nu"));
    assert!(c.allows_link_override("sigma"));
    let t = Family::Truncated(Box::new(Family::Ocat(Ocat::new(3))));
    assert!(t.allows_link_override("mu"));
    let h = Family::Hurdle(Hurdle::new(Family::StudentT(StudentT)));
    assert!(h.allows_link_override("xi"));
    assert!(h.allows_link_override("nu"));
}

#[test]
fn censored_checks_the_response_length() {
    let c = Censored::new(Family::Gaussian(Gaussian), vec![CensorStatus::Event; 3]);
    assert!(c.check_len(3).is_ok());
    match c.check_len(2) {
        Err(GamlssError::Input(m)) => {
            assert_eq!(m, "Censored: status length 3 does not match response length 2")
        }
        other => panic!("expected Input, got {:?}", other),
    }
}
