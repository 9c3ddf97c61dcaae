use glissando::{
    CensorStatus, Censored, Family, FamilyDescriptor, GamlssError, Gaussian, Hurdle, NegativeBinomial, Ocat, Poisson,
    StudentT, BCPE,
};

fn named(n: &str) -> FamilyDescriptor {
    FamilyDescriptor::Named(n.to_string())
}

#[test]
fn named_descriptor_builds_the_stateless_family() {
    let f = named("StudentT").build().unwrap();
    assert_eq!(f.name(), "StudentT");
    assert_eq!(f.parameters(), vec!["mu", "sigma", "nu"]);
}

#[test]
fn unknown_name_is_an_input_error_naming_it() {
    match named("Wishart").build() {
        Err(GamlssError::Input(m)) => assert_eq!(
            m,
            "Unknown distribution: 'Wishart'. Supported: Gaussian, Poisson, StudentT, Gamma, NegativeBinomial, Beta, Weibull, BCCG, BCT, BCPE"
        ),
        other => panic!("expected an input error, got {:?}", other),
    }
}

#[test]
fn binomial_and_ocat_are_not_reachable_by_name() {
    assert!(named("Binomial").build().is_err());
    assert!(named("Ocat").build().is_err());
}

#[test]
fn ocat_descriptor_keeps_its_level_count() {
    let f = FamilyDescriptor::Ocat { n_categories: 4 }.build().unwrap();
    assert_eq!(f.as_ocat().unwrap().n_categories(), 4);
    assert_eq!(f.parameters(), vec!["mu", "delta_1", "delta_2", "delta_3"]);
}

#[test]
fn wrappers_rebuild_their_base_recursively() {
    let d = FamilyDescriptor::Hurdle {
        base: Box::new(FamilyDescriptor::Censored {
            base: Box::new(named("NegativeBinomial")),
            status: vec![CensorStatus::Event, CensorStatus::Right],
        }),
    };
    let f = d.build().unwrap();
    assert_eq!(f.name(), "Hurdle");
    assert_eq!(f.parameters(), vec!["mu", "sigma", "xi"]);
    match f {
        Family::Hurdle(h) => match h.base() {
            Family::Censored(c) => {
                assert_eq!(c.base().name(), "NegativeBinomial");
                assert_eq!(c.status(), &vec![CensorStatus::Event, CensorStatus::Right]);
            }
            other => panic!("expected a censored base, got {:?}", other),
        },
        other => panic!("expected a hurdle, got {:?}", other),
    }
}

#[test]
fn unknown_name_inside_a_wrapper_is_reported() {
    let d = FamilyDescriptor::Truncated { base: Box::new(named("Bogus")) };
    match d.build() {
        Err(GamlssError::Input(m)) => assert!(m.starts_with("Unknown distribution: 'Bogus'.")),
        other => panic!("expected an input error, got {:?}", other),
    }
}

#[test]
fn descriptor_of_a_family_rebuilds_it() {
    let families = vec![
        Family::Gaussian(Gaussian::new()),
        Family::Poisson(Poisson::new()),
        Family::Bcpe(BCPE::new()),
        Family::Binomial,
        Family::Ocat(Ocat::new(5)),
        Family::Censored(Censored::new(
            Family::StudentT(StudentT::new()),
            vec![CensorStatus::Left, CensorStatus::Interval, CensorStatus::Event],
        )),
        Family::Truncated(Box::new(Family::Ocat(Ocat::new(2)))),
        Family::Hurdle(Hurdle::new(Family::NegativeBinomial(NegativeBinomial::new()))),
    ];
    for f in &families {
        let d = f.descriptor();
        let g = d.build().unwrap();
        assert_eq!(g.name(), f.name());
        assert_eq!(g.parameters(), f.parameters());
        assert_eq!(g.descriptor(), d);
    }
}

#[test]
fn stateless_family_is_described_by_its_name() {
    assert_eq!(Family::Gaussian(Gaussian::new()).descriptor(), named("Gaussian"));
    assert_eq!(Family::Binomial.descriptor(), FamilyDescriptor::Binomial);
    assert_eq!(
        Family::Ocat(Ocat::new(3)).descriptor(),
        FamilyDescriptor::Ocat { n_categories: 3 }
    );
}

#[test]
fn censoring_codes_travel_in_the_description() {
    let f = Family::Censored(Censored::new(
        Family::Gaussian(Gaussian::new()),
        vec![CensorStatus::Right, CensorStatus::Left],
    ));
    let d = f.descriptor();
    assert_eq!(
        d,
        FamilyDescriptor::Censored {
            base: Box::new(named("Gaussian")),
            status: vec![CensorStatus::Right, CensorStatus::Left],
        }
    );
    match d.build().unwrap() {
        Family::Censored(c) => assert_eq!(c.status(), &vec![CensorStatus::Right, CensorStatus::Left]),
        other => panic!("expected a censored family, got {:?}", other),
    }
}
