use glissando::{
    link_from_name, CauchitLink, CloglogLink, GamlssError, IdentityLink, InverseLink,
    InverseSquareLink, LinkKind, LogLink, LogitLink, ProbitLink, SqrtLink,
};

#[test]
fn link_from_name_round_trips_every_selectable_link() {
    for name in [
        IdentityLink.name(),
        LogLink.name(),
        LogitLink.name(),
        ProbitLink.name(),
        CloglogLink.name(),
        InverseLink.name(),
        InverseSquareLink.name(),
        SqrtLink.name(),
        CauchitLink.name(),
    ] {
        let rebuilt = link_from_name(name).expect("registered link");
        assert_eq!(rebuilt.name(), name);
    }
    assert!(link_from_name("nonexistent").is_err());
    // The internal floored-log link is deliberately not user-selectable.
    assert!(link_from_name("floored_log").is_err());
}

#[test]
fn link_names_are_canonical_lowercase() {
    assert_eq!(IdentityLink.name(), "identity");
    assert_eq!(LogLink.name(), "log");
    assert_eq!(LogitLink.name(), "logit");
    assert_eq!(ProbitLink.name(), "probit");
    assert_eq!(CloglogLink.name(), "cloglog");
    assert_eq!(InverseLink.name(), "inverse");
    assert_eq!(InverseSquareLink.name(), "inverse_square");
    assert_eq!(SqrtLink.name(), "sqrt");
    assert_eq!(CauchitLink.name(), "cauchit");
    assert_eq!(LinkKind::FlooredLog.name(), "floored_log");
}

#[test]
fn link_from_name_selects_each_kind() {
    assert_eq!(link_from_name("identity").unwrap(), LinkKind::Identity);
    assert_eq!(link_from_name("log").unwrap(), LinkKind::Log);
    assert_eq!(link_from_name("logit").unwrap(), LinkKind::Logit);
    assert_eq!(link_from_name("probit").unwrap(), LinkKind::Probit);
    assert_eq!(link_from_name("cloglog").unwrap(), LinkKind::Cloglog);
    assert_eq!(link_from_name("inverse").unwrap(), LinkKind::Inverse);
    assert_eq!(link_from_name("inverse_square").unwrap(), LinkKind::InverseSquare);
    assert_eq!(link_from_name("sqrt").unwrap(), LinkKind::Sqrt);
    assert_eq!(link_from_name("cauchit").unwrap(), LinkKind::Cauchit);
}

#[test]
fn link_from_name_is_case_sensitive_and_reports_the_name() {
    match link_from_name("Log") {
        Err(GamlssError::Input(m)) => assert_eq!(
            m,
            "Unknown link: 'Log'. Supported: identity, log, logit, probit, cloglog, inverse, inverse_square, sqrt, cauchit"
        ),
        other => panic!("expected Input, got {:?}", other),
    }
    assert!(link_from_name("").is_err());
}
