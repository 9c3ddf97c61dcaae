//! Link functions by name: which link a parameter uses, and the string registry
//! that selects one. The numeric maps themselves (`g`, `g⁻¹` and their
//! derivatives) are evaluated outside this crate on these descriptions.

use vstd::prelude::*;
use vstd::string::*;

use crate::error::GamlssError;
use crate::text::same_text;

verus! {

/// Which link function maps a response-scale parameter to its linear predictor.
#[derive(Debug, Clone, Copy, PartialEq, Eq, Structural)]
pub enum LinkKind {
    /// `η = μ`.
    Identity,
    /// `η = log(μ)`.
    Log,
    /// `μ = max(exp(η), floor)`: the log link with a lower bound applied after
    /// inversion (Student-t `ν`, floored at 2). Internal: never user-selectable.
    FlooredLog,
    /// `η = log(μ / (1 − μ))`.
    Logit,
    /// `η = Φ⁻¹(μ)`.
    Probit,
    /// `η = log(−log(1 − μ))`.
    Cloglog,
    /// `η = 1/μ`.
    Inverse,
    /// `η = 1/μ²`.
    InverseSquare,
    /// `η = √μ`.
    Sqrt,
    /// `η = tan(π(μ − ½))`.
    Cauchit,
}

/// Canonical lowercase name of a link, as persisted in a fitted model.
pub open spec fn link_name(k: LinkKind) -> Seq<char> {
    match k {
        LinkKind::Identity => "identity"@,
        LinkKind::Log => "log"@,
        LinkKind::FlooredLog => "floored_log"@,
        LinkKind::Logit => "logit"@,
        LinkKind::Probit => "probit"@,
        LinkKind::Cloglog => "cloglog"@,
        LinkKind::Inverse => "inverse"@,
        LinkKind::InverseSquare => "inverse_square"@,
        LinkKind::Sqrt => "sqrt"@,
        LinkKind::Cauchit => "cauchit"@,
    }
}

/// Whether a link can be chosen by name (everything but the internal floored log).
pub open spec fn is_selectable(k: LinkKind) -> bool {
    k != LinkKind::FlooredLog
}

/// The message of the error for an unknown link name.
pub open spec fn unknown_link_message(name: Seq<char>) -> Seq<char> {
    "Unknown link: '"@ + name
        + "'. Supported: identity, log, logit, probit, cloglog, inverse, inverse_square, sqrt, cauchit"@
}

impl LinkKind {
    /// Canonical lowercase name of this link.
    pub fn name(&self) -> (r: &'static str)
        ensures
            r@ == link_name(*self),
    {
        match self {
            LinkKind::Identity => "identity",
            LinkKind::Log => "log",
            LinkKind::FlooredLog => "floored_log",
            LinkKind::Logit => "logit",
            LinkKind::Probit => "probit",
            LinkKind::Cloglog => "cloglog",
            LinkKind::Inverse => "inverse",
            LinkKind::InverseSquare => "inverse_square",
            LinkKind::Sqrt => "sqrt",
            LinkKind::Cauchit => "cauchit",
        }
    }
}

/// Identity link: `η = μ`. Used for unbounded continuous parameters.
#[derive(Debug, Clone, Copy, Default)]
pub struct IdentityLink;

/// Log link: `η = log(μ)`. Used for positive parameters.
#[derive(Debug, Clone, Copy, Default)]
pub struct LogLink;

/// Logit link: `η = log(μ / (1 − μ))`. Used for `(0, 1)` probabilities.
#[derive(Debug, Clone, Copy, Default)]
pub struct LogitLink;

/// Probit link: `η = Φ⁻¹(μ)`, with `Φ` the standard-normal CDF.
#[derive(Debug, Clone, Copy, Default)]
pub struct ProbitLink;

/// Complementary log-log link: `η = log(−log(1 − μ))`.
#[derive(Debug, Clone, Copy, Default)]
pub struct CloglogLink;

/// Inverse link: `η = 1/μ`.
#[derive(Debug, Clone, Copy, Default)]
pub struct InverseLink;

/// Inverse-square link: `η = 1/μ²`.
#[derive(Debug, Clone, Copy, Default)]
pub struct InverseSquareLink;

/// Square-root link: `η = √μ`.
#[derive(Debug, Clone, Copy, Default)]
pub struct SqrtLink;

/// Cauchit link: `η = tan(π(μ − ½))`, the Cauchy quantile.
#[derive(Debug, Clone, Copy, Default)]
pub struct CauchitLink;

impl IdentityLink {
    /// Canonical name, `"identity"`.
    pub fn name(&self) -> (r: &'static str)
        ensures
            r@ == link_name(LinkKind::Identity),
    {
        "identity"
    }
}

impl LogLink {
    /// Canonical name, `"log"`.
    pub fn name(&self) -> (r: &'static str)
        ensures
            r@ == link_name(LinkKind::Log),
    {
        "log"
    }
}

impl LogitLink {
    /// Canonical name, `"logit"`.
    pub fn name(&self) -> (r: &'static str)
        ensures
            r@ == link_name(LinkKind::Logit),
    {
        "logit"
    }
}

impl ProbitLink {
    /// Canonical name, `"probit"`.
    pub fn name(&self) -> (r: &'static str)
        ensures
            r@ == link_name(LinkKind::Probit),
    {
        "probit"
    }
}

impl CloglogLink {
    /// Canonical name, `"cloglog"`.
    pub fn name(&self) -> (r: &'static str)
        ensures
            r@ == link_name(LinkKind::Cloglog),
    {
        "cloglog"
    }
}

impl InverseLink {
    /// Canonical name, `"inverse"`.
    pub fn name(&self) -> (r: &'static str)
        ensures
            r@ == link_name(LinkKind::Inverse),
    {
        "inverse"
    }
}

impl InverseSquareLink {
    /// Canonical name, `"inverse_square"`.
    pub fn name(&self) -> (r: &'static str)
        ensures
            r@ == link_name(LinkKind::InverseSquare),
    {
        "inverse_square"
    }
}

impl SqrtLink {
    /// Canonical name, `"sqrt"`.
    pub fn name(&self) -> (r: &'static str)
        ensures
            r@ == link_name(LinkKind::Sqrt),
    {
        "sqrt"
    }
}

impl CauchitLink {
    /// Canonical name, `"cauchit"`.
    pub fn name(&self) -> (r: &'static str)
        ensures
            r@ == link_name(LinkKind::Cauchit),
    {
        "cauchit"
    }
}

/// Selects a link by its canonical name (the registry behind per-parameter link
/// overrides). The internal `floored_log` link is never selectable.
pub fn link_from_name(name: &str) -> (r: Result<LinkKind, GamlssError>)
    ensures
        r matches Ok(k) ==> is_selectable(k) && link_name(k) == name@,
        r is Err <==> (forall|k: LinkKind| is_selectable(k) ==> link_name(k) != name@),
        r matches Err(e) ==> (e matches GamlssError::Input(m) && m@ == unknown_link_message(
            name@,
        )),
{
    let r = if same_text(name, "identity") {
        Ok(LinkKind::Identity)
    } else if same_text(name, "log") {
        Ok(LinkKind::Log)
    } else if same_text(name, "logit") {
        Ok(LinkKind::Logit)
    } else if same_text(name, "probit") {
        Ok(LinkKind::Probit)
    } else if same_text(name, "cloglog") {
        Ok(LinkKind::Cloglog)
    } else if same_text(name, "inverse") {
        Ok(LinkKind::Inverse)
    } else if same_text(name, "inverse_square") {
        Ok(LinkKind::InverseSquare)
    } else if same_text(name, "sqrt") {
        Ok(LinkKind::Sqrt)
    } else if same_text(name, "cauchit") {
        Ok(LinkKind::Cauchit)
    } else {
        let mut m = String::new();
        m.append("Unknown link: '");
        m.append(name);
        m.append(
            "'. Supported: identity, log, logit, probit, cloglog, inverse, inverse_square, sqrt, cauchit",
        );
        assert(m@ =~= unknown_link_message(name@));
        assert forall|k: LinkKind| is_selectable(k) implies link_name(k) != name@ by {
            match k {
                LinkKind::Identity => {},
                LinkKind::Log => {},
                LinkKind::FlooredLog => {},
                LinkKind::Logit => {},
                LinkKind::Probit => {},
                LinkKind::Cloglog => {},
                LinkKind::Inverse => {},
                LinkKind::InverseSquare => {},
                LinkKind::Sqrt => {},
                LinkKind::Cauchit => {},
            }
        }
        Err(GamlssError::Input(m))
    };
    proof {
        if let Ok(k) = r {
            assert(is_selectable(k) && link_name(k) == name@);
        }
    }
    r
}

/// Law: the canonical name of every link, as a fixed table; every link but
/// the internal floored log can be selected by name.
pub proof fn link_names_table(k: LinkKind)
    ensures
        k == LinkKind::Identity ==> link_name(k) == "identity"@,
        k == LinkKind::Log ==> link_name(k) == "log"@,
        k == LinkKind::FlooredLog ==> link_name(k) == "floored_log"@ && !is_selectable(k),
        k == LinkKind::Logit ==> link_name(k) == "logit"@,
        k == LinkKind::Probit ==> link_name(k) == "probit"@,
        k == LinkKind::Cloglog ==> link_name(k) == "cloglog"@,
        k == LinkKind::Inverse ==> link_name(k) == "inverse"@,
        k == LinkKind::InverseSquare ==> link_name(k) == "inverse_square"@,
        k == LinkKind::Sqrt ==> link_name(k) == "sqrt"@,
        k == LinkKind::Cauchit ==> link_name(k) == "cauchit"@,
        k != LinkKind::FlooredLog ==> is_selectable(k),
{
}

/// Law: distinct links have distinct canonical names. With the contract of
/// [`link_from_name`], selecting a link by its own name gives that link back,
/// and the internal floored-log link can never be selected by name.
pub proof fn link_names_are_distinct(a: LinkKind, b: LinkKind)
    ensures
        link_name(a) == link_name(b) ==> a == b,
{
    reveal_strlit("identity");
    reveal_strlit("log");
    reveal_strlit("floored_log");
    reveal_strlit("logit");
    reveal_strlit("probit");
    reveal_strlit("cloglog");
    reveal_strlit("inverse");
    reveal_strlit("inverse_square");
    reveal_strlit("sqrt");
    reveal_strlit("cauchit");
    if link_name(a) == link_name(b) {
        assert(link_name(a).len() == link_name(b).len());
        assert(link_name(a)[0] == link_name(b)[0]);
        if link_name(a).len() > 1 {
            assert(link_name(a)[1] == link_name(b)[1]);
        }
        if link_name(a).len() > 3 {
            assert(link_name(a)[3] == link_name(b)[3]);
        }
    }
}

} // verus!
