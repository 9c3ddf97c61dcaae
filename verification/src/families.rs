//! The family registry: every distribution family the library fits, described by
//! its name, its distribution parameters, the default link of each parameter,
//! whether a parameter accepts a link override, and whether the response is
//! discrete. The densities, scores and CDFs of each family are numeric and are
//! evaluated outside this crate on these descriptions.

use vstd::prelude::*;
use vstd::string::*;

use crate::error::{check_state_len, state_len_message, GamlssError};
use crate::links::LinkKind;
use crate::text::same_text;

verus! {

/// Poisson distribution for count data: parameter `mu` (log link).
#[derive(Debug, Clone, Copy, Default)]
pub struct Poisson;

/// Gaussian distribution: `mu` (identity link), `sigma` (log link).
#[derive(Debug, Clone, Copy, Default)]
pub struct Gaussian;

/// Student-t distribution: `mu` (identity), `sigma` (log), `nu` (floored log).
#[derive(Debug, Clone, Copy, Default)]
pub struct StudentT;

/// Gamma distribution for positive continuous data: `mu`, `sigma` (both log).
#[derive(Debug, Clone, Copy, Default)]
pub struct Gamma;

/// Negative binomial (NB2) for overdispersed counts: `mu`, `sigma` (both log).
#[derive(Debug, Clone, Copy, Default)]
pub struct NegativeBinomial;

/// Beta distribution for proportions: `mu` (logit), `phi` (log).
#[derive(Debug, Clone, Copy, Default)]
pub struct Beta;

/// Weibull distribution: scale `mu`, shape `sigma` (both log).
#[derive(Debug, Clone, Copy, Default)]
pub struct Weibull;

/// Box-Cox Cole-Green: `mu`, `sigma` (log), `nu` (identity).
#[derive(Debug, Clone, Copy, Default)]
pub struct BCCG;

/// Box-Cox t: `mu`, `sigma` (log), `nu` (identity), `tau` (log).
#[derive(Debug, Clone, Copy, Default)]
pub struct BCT;

/// Box-Cox power exponential: `mu`, `sigma` (log), `nu` (identity), `tau` (log).
#[derive(Debug, Clone, Copy, Default)]
pub struct BCPE;

impl Poisson {
    /// The Poisson family.
    pub fn new() -> (r: Self)
        ensures
            r == Poisson,
    {
        Poisson
    }
}

impl Gaussian {
    /// The Gaussian family.
    pub fn new() -> (r: Self)
        ensures
            r == Gaussian,
    {
        Gaussian
    }
}

impl StudentT {
    /// The StudentT family.
    pub fn new() -> (r: Self)
        ensures
            r == StudentT,
    {
        StudentT
    }
}

impl Gamma {
    /// The Gamma family.
    pub fn new() -> (r: Self)
        ensures
            r == Gamma,
    {
        Gamma
    }
}

impl NegativeBinomial {
    /// The NegativeBinomial family.
    pub fn new() -> (r: Self)
        ensures
            r == NegativeBinomial,
    {
        NegativeBinomial
    }
}

impl Beta {
    /// The Beta family.
    pub fn new() -> (r: Self)
        ensures
            r == Beta,
    {
        Beta
    }
}

impl Weibull {
    /// The Weibull family.
    pub fn new() -> (r: Self)
        ensures
            r == Weibull,
    {
        Weibull
    }
}

impl BCCG {
    /// The BCCG family.
    pub fn new() -> (r: Self)
        ensures
            r == BCCG,
    {
        BCCG
    }
}

impl BCT {
    /// The BCT family.
    pub fn new() -> (r: Self)
        ensures
            r == BCT,
    {
        BCT
    }
}

impl BCPE {
    /// The BCPE family.
    pub fn new() -> (r: Self)
        ensures
            r == BCPE,
    {
        BCPE
    }
}

/// Per-observation censoring code.
#[derive(Debug, Clone, Copy, PartialEq, Eq, Structural)]
pub enum CensorStatus {
    /// Observed exactly at `y`. Likelihood contribution is the base density.
    Event,
    /// Left-censored: the true value is `≤ y`. Contribution is `F(y)`.
    Left,
    /// Right-censored: the true value is `> y` (survival). Contribution is `1 − F(y)`.
    Right,
    /// Interval-censored: the true value lies in `[y, upper]`. Contribution is
    /// `F(upper) − F(y)`.
    Interval,
}

/// Ordered-categorical (proportional-odds) family with `R` ordered levels,
/// `2 <= R <= 5`. Parameters: the latent predictor `mu` (identity link) and the
/// threshold increments `delta_1` (identity) … `delta_{R-1}` (log).
#[derive(Debug, Clone, Copy)]
pub struct Ocat {
    n_categories: usize,
}

impl View for Ocat {
    type V = nat;

    /// The number of ordered response levels.
    closed spec fn view(&self) -> nat {
        self.n_categories as nat
    }
}

impl Ocat {
    #[verifier::type_invariant]
    closed spec fn supported_levels(self) -> bool {
        2 <= self.n_categories <= 5
    }

    /// Creates an `Ocat` family with `n_categories` ordered response levels.
    pub fn new(n_categories: usize) -> (r: Self)
        requires
            2 <= n_categories <= 5,
        ensures
            r@ == n_categories,
    {
        Ocat { n_categories }
    }

    /// Number of ordered response levels, between 2 and 5.
    pub fn n_categories(&self) -> (r: usize)
        ensures
            r == self@,
            2 <= r <= 5,
    {
        proof {
            use_type_invariant(self);
        }
        self.n_categories
    }

    /// Number of threshold parameters, one fewer than the levels.
    pub fn n_thresholds(&self) -> (r: usize)
        ensures
            r == self@ - 1,
            1 <= r <= 4,
    {
        proof {
            use_type_invariant(self);
        }
        self.n_categories - 1
    }

    /// Parameter name of the `k`-th threshold, `k` in `1..=4`.
    pub fn threshold_param_name(k: usize) -> (r: &'static str)
        requires
            1 <= k <= 4,
        ensures
            r@ == threshold_name(k as nat),
    {
        if k == 1 {
            "delta_1"
        } else if k == 2 {
            "delta_2"
        } else if k == 3 {
            "delta_3"
        } else {
            "delta_4"
        }
    }
}

/// Two `Ocat` families with the same level count are the same family.
pub proof fn ocat_levels_identify(a: Ocat, b: Ocat)
    requires
        a@ == b@,
    ensures
        a == b,
{
}

/// Parameter name of the `k`-th Ocat threshold (`k` in `1..=4`).
pub open spec fn threshold_name(k: nat) -> Seq<char> {
    if k == 1 {
        "delta_1"@
    } else if k == 2 {
        "delta_2"@
    } else if k == 3 {
        "delta_3"@
    } else {
        "delta_4"@
    }
}

/// Parameters of an `Ocat` family with `n` levels: `mu`, then `delta_1` … `delta_{n-1}`.
pub open spec fn ocat_parameters(n: nat) -> Seq<Seq<char>> {
    seq!["mu"@] + Seq::new((n - 1) as nat, |i: int| threshold_name((i + 1) as nat))
}

/// A base family augmented with a zero atom: zeros come from a logit-linked
/// probability `xi`, positive values from the zero-truncated base.
#[derive(Debug)]
pub struct Hurdle {
    pub base: Box<Family>,
}

/// A base family observed under per-row censoring. The response carries the
/// observed value (for interval rows the interval's lower bound); `status`
/// holds each row's censoring code. The interval upper bounds are numeric and
/// travel with the response data. Censoring only reshapes the likelihood, so
/// the wrapper fits the base family's parameters.
#[derive(Debug)]
pub struct Censored {
    pub base: Box<Family>,
    pub status: Vec<CensorStatus>,
}

impl Censored {
    /// Wraps `base` with per-row censoring `status`.
    pub fn new(base: Family, status: Vec<CensorStatus>) -> (r: Self)
        ensures
            *r.base == base,
            r.status@ == status@,
    {
        Censored { base: Box::new(base), status }
    }

    /// The wrapped base family.
    pub fn base(&self) -> (r: &Family)
        ensures
            *r == *self.base,
    {
        &self.base
    }

    /// Per-observation censoring codes.
    pub fn status(&self) -> (r: &Vec<CensorStatus>)
        ensures
            r@ == self.status@,
    {
        &self.status
    }

    /// Rejects a response of length `n` that does not match the stored
    /// `status` vector.
    pub fn check_len(&self, n: usize) -> (r: Result<(), GamlssError>)
        ensures
            r is Ok <==> self.status@.len() == n,
            r matches Err(e) ==> (e matches GamlssError::Input(m) && m@ == state_len_message(
                "Censored: status"@,
                self.status@.len(),
                n as nat,
            )),
    {
        check_state_len("Censored: status", self.status.len(), n)
    }
}

/// A distribution family: which family, its category count or censoring codes
/// where it has them, and the family it wraps where it is a structural wrapper.
#[derive(Debug)]
pub enum Family {
    Poisson(Poisson),
    /// Binomial with known trial counts (the counts travel with the numeric data).
    Binomial,
    Gaussian(Gaussian),
    StudentT(StudentT),
    Gamma(Gamma),
    NegativeBinomial(NegativeBinomial),
    Beta(Beta),
    Weibull(Weibull),
    Bccg(BCCG),
    Bct(BCT),
    Bcpe(BCPE),
    Ocat(Ocat),
    /// A base family observed under per-row censoring.
    Censored(Censored),
    /// A base family restricted to per-row truncation bounds.
    Truncated(Box<Family>),
    /// A base family with a structural zero atom.
    Hurdle(Hurdle),
}

/// Stable family name, as used in error messages and name lookups.
pub open spec fn family_name(f: Family) -> Seq<char> {
    match f {
        Family::Poisson(_) => "Poisson"@,
        Family::Binomial => "Binomial"@,
        Family::Gaussian(_) => "Gaussian"@,
        Family::StudentT(_) => "StudentT"@,
        Family::Gamma(_) => "Gamma"@,
        Family::NegativeBinomial(_) => "NegativeBinomial"@,
        Family::Beta(_) => "Beta"@,
        Family::Weibull(_) => "Weibull"@,
        Family::Bccg(_) => "BCCG"@,
        Family::Bct(_) => "BCT"@,
        Family::Bcpe(_) => "BCPE"@,
        Family::Ocat(_) => "Ocat"@,
        Family::Censored(_) => "Censored"@,
        Family::Truncated(_) => "Truncated"@,
        Family::Hurdle(_) => "Hurdle"@,
    }
}

/// The distribution parameters of a family, in fitting order.
pub open spec fn family_parameters(f: Family) -> Seq<Seq<char>>
    decreases f,
{
    match f {
        Family::Poisson(_) => seq!["mu"@],
        Family::Binomial => seq!["mu"@],
        Family::Gaussian(_) => seq!["mu"@, "sigma"@],
        Family::StudentT(_) => seq!["mu"@, "sigma"@, "nu"@],
        Family::Gamma(_) => seq!["mu"@, "sigma"@],
        Family::NegativeBinomial(_) => seq!["mu"@, "sigma"@],
        Family::Beta(_) => seq!["mu"@, "phi"@],
        Family::Weibull(_) => seq!["mu"@, "sigma"@],
        Family::Bccg(_) => seq!["mu"@, "sigma"@, "nu"@],
        Family::Bct(_) => seq!["mu"@, "sigma"@, "nu"@, "tau"@],
        Family::Bcpe(_) => seq!["mu"@, "sigma"@, "nu"@, "tau"@],
        Family::Ocat(o) => ocat_parameters(o@),
        Family::Censored(c) => family_parameters(*c.base),
        Family::Truncated(base) => family_parameters(*base),
        Family::Hurdle(h) => family_parameters(*h.base).push("xi"@),
    }
}

/// The default link of parameter `p`, or `None` where the family does not know `p`.
pub open spec fn family_default_link(f: Family, p: Seq<char>) -> Option<LinkKind>
    decreases f,
{
    match f {
        Family::Poisson(_) => if p == "mu"@ {
            Some(LinkKind::Log)
        } else {
            None
        },
        Family::Binomial => if p == "mu"@ {
            Some(LinkKind::Logit)
        } else {
            None
        },
        Family::Gaussian(_) => if p == "mu"@ {
            Some(LinkKind::Identity)
        } else if p == "sigma"@ {
            Some(LinkKind::Log)
        } else {
            None
        },
        Family::StudentT(_) => if p == "mu"@ {
            Some(LinkKind::Identity)
        } else if p == "sigma"@ {
            Some(LinkKind::Log)
        } else if p == "nu"@ {
            Some(LinkKind::FlooredLog)
        } else {
            None
        },
        Family::Gamma(_) => if p == "mu"@ || p == "sigma"@ {
            Some(LinkKind::Log)
        } else {
            None
        },
        Family::NegativeBinomial(_) => if p == "mu"@ || p == "sigma"@ {
            Some(LinkKind::Log)
        } else {
            None
        },
        Family::Beta(_) => if p == "mu"@ {
            Some(LinkKind::Logit)
        } else if p == "phi"@ {
            Some(LinkKind::Log)
        } else {
            None
        },
        Family::Weibull(_) => if p == "mu"@ || p == "sigma"@ {
            Some(LinkKind::Log)
        } else {
            None
        },
        Family::Bccg(_) => if p == "mu"@ || p == "sigma"@ {
            Some(LinkKind::Log)
        } else if p == "nu"@ {
            Some(LinkKind::Identity)
        } else {
            None
        },
        Family::Bct(_) => box_cox_tau_link(p),
        Family::Bcpe(_) => box_cox_tau_link(p),
        Family::Ocat(_) => if p == "mu"@ || p == "delta_1"@ {
            Some(LinkKind::Identity)
        } else if p == "delta_2"@ || p == "delta_3"@ || p == "delta_4"@ {
            Some(LinkKind::Log)
        } else {
            None
        },
        Family::Censored(c) => family_default_link(*c.base, p),
        Family::Truncated(base) => family_default_link(*base, p),
        Family::Hurdle(h) => if p == "xi"@ {
            Some(LinkKind::Logit)
        } else {
            family_default_link(*h.base, p)
        },
    }
}

/// Default links of the four-parameter Box-Cox families (BCT, BCPE).
pub open spec fn box_cox_tau_link(p: Seq<char>) -> Option<LinkKind> {
    if p == "mu"@ || p == "sigma"@ {
        Some(LinkKind::Log)
    } else if p == "nu"@ {
        Some(LinkKind::Identity)
    } else if p == "tau"@ {
        Some(LinkKind::Log)
    } else {
        None
    }
}

/// The family whose name an unknown-parameter error from `default_link` carries:
/// the wrappers delegate the lookup to their base (the hurdle for every
/// parameter but its own `xi`).
pub open spec fn link_owner_name(f: Family) -> Seq<char>
    decreases f,
{
    match f {
        Family::Censored(c) => link_owner_name(*c.base),
        Family::Truncated(base) => link_owner_name(*base),
        Family::Hurdle(h) => link_owner_name(*h.base),
        _ => family_name(f),
    }
}

/// Whether parameter `p` accepts a link override. Every built-in parameter does
/// except Student-t's `nu` (its floor projection is written against the floored
/// log link) and every `Ocat` parameter (its `mu` slot holds the linear
/// predictor, and its threshold Jacobian holds only under the default links).
/// The structural wrappers chain their CDF derivatives through whichever link
/// the fit resolves, so they accept an override for every parameter.
pub open spec fn family_allows_override(f: Family, p: Seq<char>) -> bool {
    match f {
        Family::StudentT(_) => p != "nu"@,
        Family::Ocat(_) => false,
        _ => true,
    }
}

/// Whether the response is discrete (counts or categories).
pub open spec fn family_is_discrete(f: Family) -> bool
    decreases f,
{
    match f {
        Family::Poisson(_) => true,
        Family::Binomial => true,
        Family::NegativeBinomial(_) => true,
        Family::Ocat(_) => true,
        Family::Censored(c) => family_is_discrete(*c.base),
        Family::Truncated(base) => family_is_discrete(*base),
        Family::Hurdle(h) => family_is_discrete(*h.base),
        _ => false,
    }
}

/// Whether the family's η-scale derivatives read the second link derivative:
/// only the structural wrappers, which chain a CDF rather than a likelihood.
pub open spec fn family_needs_second_order_links(f: Family) -> bool {
    match f {
        Family::Censored(_) => true,
        Family::Truncated(_) => true,
        Family::Hurdle(_) => true,
        _ => false,
    }
}

/// The stateless families, which a bare name reconstructs.
pub open spec fn is_named_family(f: Family) -> bool {
    match f {
        Family::Poisson(_) => true,
        Family::Gaussian(_) => true,
        Family::StudentT(_) => true,
        Family::Gamma(_) => true,
        Family::NegativeBinomial(_) => true,
        Family::Beta(_) => true,
        Family::Weibull(_) => true,
        Family::Bccg(_) => true,
        Family::Bct(_) => true,
        Family::Bcpe(_) => true,
        _ => false,
    }
}

/// Every `Ocat` inside the family supports its level count (2 to 5); true of
/// every family value that executable code holds.
pub open spec fn family_wf(f: Family) -> bool
    decreases f,
{
    match f {
        Family::Ocat(o) => 2 <= o@ <= 5,
        Family::Censored(c) => family_wf(*c.base),
        Family::Truncated(base) => family_wf(*base),
        Family::Hurdle(h) => family_wf(*h.base),
        _ => true,
    }
}

/// The text views of a list of static names.
pub open spec fn names_view(v: Seq<&'static str>) -> Seq<Seq<char>> {
    v.map_values(|s: &'static str| s@)
}

/// Whether `e` is the unknown-parameter error naming `distribution` and `param`.
pub open spec fn is_unknown_parameter(e: GamlssError, distribution: Seq<char>, param: Seq<char>) -> bool {
    e matches GamlssError::UnknownParameter { distribution: d, param: p } && d@ == distribution
        && p@ == param
}

/// The message of the error for an unknown family name.
pub open spec fn unknown_family_message(name: Seq<char>) -> Seq<char> {
    "Unknown distribution: '"@ + name
        + "'. Supported: Gaussian, Poisson, StudentT, Gamma, NegativeBinomial, Beta, Weibull, BCCG, BCT, BCPE"@
}

impl Family {
    /// Stable family name (e.g. `"Gaussian"`).
    pub fn name(&self) -> (r: &'static str)
        ensures
            r@ == family_name(*self),
    {
        match self {
            Family::Poisson(_) => "Poisson",
            Family::Binomial => "Binomial",
            Family::Gaussian(_) => "Gaussian",
            Family::StudentT(_) => "StudentT",
            Family::Gamma(_) => "Gamma",
            Family::NegativeBinomial(_) => "NegativeBinomial",
            Family::Beta(_) => "Beta",
            Family::Weibull(_) => "Weibull",
            Family::Bccg(_) => "BCCG",
            Family::Bct(_) => "BCT",
            Family::Bcpe(_) => "BCPE",
            Family::Ocat(_) => "Ocat",
            Family::Censored(_) => "Censored",
            Family::Truncated(_) => "Truncated",
            Family::Hurdle(_) => "Hurdle",
        }
    }

    /// Distribution-parameter names, in fitting order (e.g. `["mu", "sigma"]`).
    pub fn parameters(&self) -> (r: Vec<&'static str>)
        ensures
            names_view(r@) == family_parameters(*self),
            family_wf(*self),
        decreases self,
    {
        let r = match self {
            Family::Poisson(_) => vec!["mu"],
            Family::Binomial => vec!["mu"],
            Family::Gaussian(_) => vec!["mu", "sigma"],
            Family::StudentT(_) => vec!["mu", "sigma", "nu"],
            Family::Gamma(_) => vec!["mu", "sigma"],
            Family::NegativeBinomial(_) => vec!["mu", "sigma"],
            Family::Beta(_) => vec!["mu", "phi"],
            Family::Weibull(_) => vec!["mu", "sigma"],
            Family::Bccg(_) => vec!["mu", "sigma", "nu"],
            Family::Bct(_) => vec!["mu", "sigma", "nu", "tau"],
            Family::Bcpe(_) => vec!["mu", "sigma", "nu", "tau"],
            Family::Ocat(o) => {
                let n = o.n_categories();
                let v = if n == 2 {
                    vec!["mu", "delta_1"]
                } else if n == 3 {
                    vec!["mu", "delta_1", "delta_2"]
                } else if n == 4 {
                    vec!["mu", "delta_1", "delta_2", "delta_3"]
                } else {
                    vec!["mu", "delta_1", "delta_2", "delta_3", "delta_4"]
                };
                assert(names_view(v@) =~= ocat_parameters(o@));
                v
            },
            Family::Censored(c) => c.base.parameters(),
            Family::Truncated(base) => base.parameters(),
            Family::Hurdle(h) => {
                let mut v = h.base.parameters();
                v.push("xi");
                assert(names_view(v@) =~= family_parameters(*h.base).push("xi"@));
                v
            },
        };
        assert(names_view(r@) =~= family_parameters(*self));
        r
    }

    /// The error naming this family and an unknown parameter `param`.
    pub fn unknown_param(&self, param: &str) -> (e: GamlssError)
        ensures
            is_unknown_parameter(e, family_name(*self), param@),
    {
        GamlssError::UnknownParameter {
            distribution: self.name().to_owned(),
            param: param.to_owned(),
        }
    }

    /// Default link of the named parameter. A name the family does not know gives
    /// `UnknownParameter`; the structural wrappers ask their base family.
    pub fn default_link(&self, param: &str) -> (r: Result<LinkKind, GamlssError>)
        ensures
            r matches Ok(k) ==> family_default_link(*self, param@) == Some(k),
            r is Err <==> family_default_link(*self, param@) is None,
            r matches Err(e) ==> is_unknown_parameter(e, link_owner_name(*self), param@),
        decreases self,
    {
        let found = match self {
            Family::Poisson(_) => if same_text(param, "mu") {
                Some(LinkKind::Log)
            } else {
                None
            },
            Family::Binomial => if same_text(param, "mu") {
                Some(LinkKind::Logit)
            } else {
                None
            },
            Family::Gaussian(_) => if same_text(param, "mu") {
                Some(LinkKind::Identity)
            } else if same_text(param, "sigma") {
                Some(LinkKind::Log)
            } else {
                None
            },
            Family::StudentT(_) => if same_text(param, "mu") {
                Some(LinkKind::Identity)
            } else if same_text(param, "sigma") {
                Some(LinkKind::Log)
            } else if same_text(param, "nu") {
                Some(LinkKind::FlooredLog)
            } else {
                None
            },
            Family::Gamma(_) | Family::NegativeBinomial(_) | Family::Weibull(_) => if same_text(
                param,
                "mu",
            ) || same_text(param, "sigma") {
                Some(LinkKind::Log)
            } else {
                None
            },
            Family::Beta(_) => if same_text(param, "mu") {
                Some(LinkKind::Logit)
            } else if same_text(param, "phi") {
                Some(LinkKind::Log)
            } else {
                None
            },
            Family::Bccg(_) => if same_text(param, "mu") || same_text(param, "sigma") {
                Some(LinkKind::Log)
            } else if same_text(param, "nu") {
                Some(LinkKind::Identity)
            } else {
                None
            },
            Family::Bct(_) | Family::Bcpe(_) => if same_text(param, "mu") || same_text(
                param,
                "sigma",
            ) {
                Some(LinkKind::Log)
            } else if same_text(param, "nu") {
                Some(LinkKind::Identity)
            } else if same_text(param, "tau") {
                Some(LinkKind::Log)
            } else {
                None
            },
            Family::Ocat(_) => if same_text(param, "mu") || same_text(param, "delta_1") {
                Some(LinkKind::Identity)
            } else if same_text(param, "delta_2") || same_text(param, "delta_3") || same_text(
                param,
                "delta_4",
            ) {
                Some(LinkKind::Log)
            } else {
                None
            },
            Family::Censored(c) => {
                return c.base.default_link(param);
            },
            Family::Truncated(base) => {
                return base.default_link(param);
            },
            Family::Hurdle(h) => {
                if same_text(param, "xi") {
                    Some(LinkKind::Logit)
                } else {
                    return h.base.default_link(param);
                }
            },
        };
        match found {
            Some(k) => Ok(k),
            None => Err(self.unknown_param(param)),
        }
    }

    /// Whether parameter `param` accepts a link override at fit time.
    pub fn allows_link_override(&self, param: &str) -> (r: bool)
        ensures
            r == family_allows_override(*self, param@),
    {
        match self {
            Family::StudentT(_) => !same_text(param, "nu"),
            Family::Ocat(_) => false,
            _ => true,
        }
    }

    /// Whether the response is discrete (counts or categories).
    pub fn is_discrete(&self) -> (r: bool)
        ensures
            r == family_is_discrete(*self),
        decreases self,
    {
        match self {
            Family::Poisson(_) => true,
            Family::Binomial => true,
            Family::NegativeBinomial(_) => true,
            Family::Ocat(_) => true,
            Family::Censored(c) => c.base.is_discrete(),
            Family::Truncated(base) => base.is_discrete(),
            Family::Hurdle(h) => h.base.is_discrete(),
            _ => false,
        }
    }

    /// Whether the family's η-scale derivatives read the second link derivative.
    pub fn needs_second_order_links(&self) -> (r: bool)
        ensures
            r == family_needs_second_order_links(*self),
    {
        match self {
            Family::Censored(_) => true,
            Family::Truncated(_) => true,
            Family::Hurdle(_) => true,
            _ => false,
        }
    }

    /// The `Ocat` this family is, if it is one.
    pub fn as_ocat(&self) -> (r: Option<Ocat>)
        ensures
            r matches Some(o) ==> *self == Family::Ocat(o),
            r is None <==> !(*self is Ocat),
    {
        match self {
            Family::Ocat(o) => Some(*o),
            _ => None,
        }
    }
}

impl Hurdle {
    /// Wraps `base` with a logit-linked zero atom `xi = P(Y = 0)`.
    pub fn new(base: Family) -> (r: Self)
        ensures
            *r.base == base,
    {
        Hurdle { base: Box::new(base) }
    }

    /// The wrapped (positive-part) base family.
    pub fn base(&self) -> (r: &Family)
        ensures
            *r == *self.base,
    {
        &self.base
    }
}

/// Constructs a stateless family from its name. `Binomial`, `Ocat` and the
/// structural wrappers carry state that a name cannot recover, so they are not
/// reachable here.
pub fn from_name(name: &str) -> (r: Result<Family, GamlssError>)
    ensures
        r matches Ok(f) ==> is_named_family(f) && family_name(f) == name@,
        r is Err <==> (forall|f: Family| is_named_family(f) ==> family_name(f) != name@),
        r matches Err(e) ==> (e matches GamlssError::Input(m) && m@ == unknown_family_message(
            name@,
        )),
        name@ == "Gaussian"@ ==> r matches Ok(Family::Gaussian(_)),
        name@ == "Poisson"@ ==> r matches Ok(Family::Poisson(_)),
        name@ == "StudentT"@ ==> r matches Ok(Family::StudentT(_)),
        name@ == "Gamma"@ ==> r matches Ok(Family::Gamma(_)),
        name@ == "NegativeBinomial"@ ==> r matches Ok(Family::NegativeBinomial(_)),
        name@ == "Beta"@ ==> r matches Ok(Family::Beta(_)),
        name@ == "Weibull"@ ==> r matches Ok(Family::Weibull(_)),
        name@ == "BCCG"@ ==> r matches Ok(Family::Bccg(_)),
        name@ == "BCT"@ ==> r matches Ok(Family::Bct(_)),
        name@ == "BCPE"@ ==> r matches Ok(Family::Bcpe(_)),
{
    let r = if same_text(name, "Gaussian") {
        Ok(Family::Gaussian(Gaussian))
    } else if same_text(name, "Poisson") {
        Ok(Family::Poisson(Poisson))
    } else if same_text(name, "StudentT") {
        Ok(Family::StudentT(StudentT))
    } else if same_text(name, "Gamma") {
        Ok(Family::Gamma(Gamma))
    } else if same_text(name, "NegativeBinomial") {
        Ok(Family::NegativeBinomial(NegativeBinomial))
    } else if same_text(name, "Beta") {
        Ok(Family::Beta(Beta))
    } else if same_text(name, "Weibull") {
        Ok(Family::Weibull(Weibull))
    } else if same_text(name, "BCCG") {
        Ok(Family::Bccg(BCCG))
    } else if same_text(name, "BCT") {
        Ok(Family::Bct(BCT))
    } else if same_text(name, "BCPE") {
        Ok(Family::Bcpe(BCPE))
    } else {
        let mut m = String::new();
        m.append("Unknown distribution: '");
        m.append(name);
        m.append(
            "'. Supported: Gaussian, Poisson, StudentT, Gamma, NegativeBinomial, Beta, Weibull, BCCG, BCT, BCPE",
        );
        assert(m@ =~= unknown_family_message(name@));
        assert forall|f: Family| is_named_family(f) implies family_name(f) != name@ by {
            match f {
                Family::Poisson(_) => {},
                Family::Gaussian(_) => {},
                Family::StudentT(_) => {},
                Family::Gamma(_) => {},
                Family::NegativeBinomial(_) => {},
                Family::Beta(_) => {},
                Family::Weibull(_) => {},
                Family::Bccg(_) => {},
                Family::Bct(_) => {},
                Family::Bcpe(_) => {},
                _ => {},
            }
        }
        Err(GamlssError::Input(m))
    };
    proof {
        if r is Ok {
            let f = r->Ok_0;
            assert(is_named_family(f) && family_name(f) == name@);
            family_names_identify_named_families(f, Family::Gaussian(Gaussian));
            family_names_identify_named_families(f, Family::Poisson(Poisson));
            family_names_identify_named_families(f, Family::StudentT(StudentT));
            family_names_identify_named_families(f, Family::Gamma(Gamma));
            family_names_identify_named_families(f, Family::NegativeBinomial(NegativeBinomial));
            family_names_identify_named_families(f, Family::Beta(Beta));
            family_names_identify_named_families(f, Family::Weibull(Weibull));
            family_names_identify_named_families(f, Family::Bccg(BCCG));
            family_names_identify_named_families(f, Family::Bct(BCT));
            family_names_identify_named_families(f, Family::Bcpe(BCPE));
        }
    }
    r
}

/// Law: a stateless family's name identifies it among all families. With the
/// contract of [`from_name`], `from_name(f.name())` gives `f` back for every
/// stateless family, and the names of the stateful families (`Binomial`,
/// `Ocat`) and of the structural wrappers are refused.
pub proof fn family_names_identify_named_families(a: Family, b: Family)
    requires
        is_named_family(a),
    ensures
        family_name(a) == family_name(b) ==> a == b,
{
    reveal_strlit("Poisson");
    reveal_strlit("Binomial");
    reveal_strlit("Gaussian");
    reveal_strlit("StudentT");
    reveal_strlit("Gamma");
    reveal_strlit("NegativeBinomial");
    reveal_strlit("Beta");
    reveal_strlit("Weibull");
    reveal_strlit("BCCG");
    reveal_strlit("BCT");
    reveal_strlit("BCPE");
    reveal_strlit("Ocat");
    reveal_strlit("Censored");
    reveal_strlit("Truncated");
    reveal_strlit("Hurdle");
    if family_name(a) == family_name(b) {
        assert(family_name(a).len() == family_name(b).len());
        assert(family_name(a)[0] == family_name(b)[0]);
        assert(family_name(a)[1] == family_name(b)[1]);
        if family_name(a).len() > 3 {
            assert(family_name(a)[3] == family_name(b)[3]);
        }
    }
}

/// Law: every parameter of a family has a default link, so seeding a fit with
/// the family defaults never fails on a parameter the family itself lists.
pub proof fn every_parameter_has_a_default_link(f: Family, i: int)
    requires
        family_wf(f),
        0 <= i < family_parameters(f).len(),
    ensures
        family_default_link(f, family_parameters(f)[i]) is Some,
    decreases f,
{
    match f {
        Family::Ocat(o) => {
            if i >= 1 {
                assert(family_parameters(f)[i] == threshold_name(i as nat));
            }
        },
        Family::Censored(c) => {
            every_parameter_has_a_default_link(*c.base, i);
        },
        Family::Truncated(base) => {
            every_parameter_has_a_default_link(*base, i);
        },
        Family::Hurdle(h) => {
            if i < family_parameters(*h.base).len() {
                every_parameter_has_a_default_link(*h.base, i);
            }
        },
        _ => {},
    }
}

/// No hurdle sits anywhere below another hurdle (a nested hurdle would list
/// `xi` twice).
pub open spec fn no_nested_hurdle(f: Family) -> bool
    decreases f,
{
    match f {
        Family::Censored(c) => no_nested_hurdle(*c.base),
        Family::Truncated(base) => no_nested_hurdle(*base),
        Family::Hurdle(h) => no_hurdle(*h.base),
        _ => true,
    }
}

/// The family is not a hurdle and wraps none.
pub open spec fn no_hurdle(f: Family) -> bool
    decreases f,
{
    match f {
        Family::Censored(c) => no_hurdle(*c.base),
        Family::Truncated(base) => no_hurdle(*base),
        Family::Hurdle(_) => false,
        _ => true,
    }
}

/// No name occurs twice in `s`.
pub open spec fn names_distinct(s: Seq<Seq<char>>) -> bool {
    forall|i: int, j: int| 0 <= i < s.len() && 0 <= j < s.len() && i != j ==> s[i] != s[j]
}

proof fn lemma_no_xi_without_hurdle(f: Family, i: int)
    requires
        family_wf(f),
        no_hurdle(f),
        0 <= i < family_parameters(f).len(),
    ensures
        family_parameters(f)[i] != "xi"@,
    decreases f,
{
    reveal_strlit("mu");
    reveal_strlit("sigma");
    reveal_strlit("nu");
    reveal_strlit("tau");
    reveal_strlit("phi");
    reveal_strlit("xi");
    reveal_strlit("delta_1");
    reveal_strlit("delta_2");
    reveal_strlit("delta_3");
    reveal_strlit("delta_4");
    match f {
        Family::Ocat(o) => {
            if i >= 1 {
                assert(family_parameters(f)[i] == threshold_name(i as nat));
            }
            assert(family_parameters(f)[i].len() != 2 || family_parameters(f)[i][0] != 'x');
        },
        Family::Censored(c) => {
            lemma_no_xi_without_hurdle(*c.base, i);
        },
        Family::Truncated(base) => {
            lemma_no_xi_without_hurdle(*base, i);
        },
        _ => {
            assert(family_parameters(f)[i].len() != 2 || family_parameters(f)[i][0] != 'x');
        },
    }
}

/// Law: a family lists each of its parameters once, so the per-parameter fit
/// state keyed by parameter name holds one entry per parameter. It fails only
/// for a hurdle nested inside a hurdle, which lists `xi` twice.
pub proof fn family_parameters_are_distinct(f: Family)
    requires
        family_wf(f),
        no_nested_hurdle(f),
    ensures
        names_distinct(family_parameters(f)),
    decreases f,
{
    reveal_strlit("mu");
    reveal_strlit("sigma");
    reveal_strlit("nu");
    reveal_strlit("tau");
    reveal_strlit("phi");
    reveal_strlit("xi");
    reveal_strlit("delta_1");
    reveal_strlit("delta_2");
    reveal_strlit("delta_3");
    reveal_strlit("delta_4");
    match f {
        Family::Ocat(o) => {
            let s = family_parameters(f);
            assert forall|i: int, j: int| 0 <= i < s.len() && 0 <= j < s.len() && i != j implies s[i] != s[j] by {
                if i >= 1 {
                    assert(s[i] == threshold_name(i as nat));
                }
                if j >= 1 {
                    assert(s[j] == threshold_name(j as nat));
                }
                if s[i] == s[j] {
                    assert(s[i].len() == s[j].len());
                    if s[i].len() == 7 {
                        assert(s[i][6] == s[j][6]);
                    }
                }
            }
        },
        Family::Censored(c) => {
            family_parameters_are_distinct(*c.base);
        },
        Family::Truncated(base) => {
            family_parameters_are_distinct(*base);
        },
        Family::Hurdle(h) => {
            let b = family_parameters(*h.base);
            assert(no_nested_hurdle(*h.base)) by {
                lemma_no_hurdle_has_no_nested_hurdle(*h.base);
            }
            family_parameters_are_distinct(*h.base);
            let s = family_parameters(f);
            assert forall|i: int, j: int| 0 <= i < s.len() && 0 <= j < s.len() && i != j implies s[i] != s[j] by {
                if i < b.len() && j < b.len() {
                } else if i < b.len() {
                    lemma_no_xi_without_hurdle(*h.base, i);
                } else if j < b.len() {
                    lemma_no_xi_without_hurdle(*h.base, j);
                }
            }
        },
        _ => {
            let s = family_parameters(f);
            assert forall|i: int, j: int| 0 <= i < s.len() && 0 <= j < s.len() && i != j implies s[i] != s[j] by {
                if s[i] == s[j] {
                    assert(s[i].len() == s[j].len());
                    assert(s[i][0] == s[j][0]);
                }
            }
        },
    }
}

proof fn lemma_no_hurdle_has_no_nested_hurdle(f: Family)
    requires
        no_hurdle(f),
    ensures
        no_nested_hurdle(f),
    decreases f,
{
    match f {
        Family::Censored(c) => lemma_no_hurdle_has_no_nested_hurdle(*c.base),
        Family::Truncated(base) => lemma_no_hurdle_has_no_nested_hurdle(*base),
        _ => {},
    }
}

/// Law: the name of every family, as a fixed table.
pub proof fn family_names_table(f: Family)
    ensures
        f is Poisson ==> family_name(f) == "Poisson"@,
        f is Binomial ==> family_name(f) == "Binomial"@,
        f is Gaussian ==> family_name(f) == "Gaussian"@,
        f is StudentT ==> family_name(f) == "StudentT"@,
        f is Gamma ==> family_name(f) == "Gamma"@,
        f is NegativeBinomial ==> family_name(f) == "NegativeBinomial"@,
        f is Beta ==> family_name(f) == "Beta"@,
        f is Weibull ==> family_name(f) == "Weibull"@,
        f is Bccg ==> family_name(f) == "BCCG"@,
        f is Bct ==> family_name(f) == "BCT"@,
        f is Bcpe ==> family_name(f) == "BCPE"@,
        f is Ocat ==> family_name(f) == "Ocat"@,
        f is Censored ==> family_name(f) == "Censored"@,
        f is Truncated ==> family_name(f) == "Truncated"@,
        f is Hurdle ==> family_name(f) == "Hurdle"@,
{
}

/// Law: the parameters of every family and the default link of each, as a
/// fixed table; the structural wrappers keep their base's parameters and
/// links, and the hurdle adds `xi` with the logit link.
pub proof fn default_links_table(f: Family, p: Seq<char>)
    ensures
        f is Poisson ==> family_parameters(f) == seq!["mu"@] && family_default_link(f, "mu"@)
            == Some(LinkKind::Log),
        f is Binomial ==> family_parameters(f) == seq!["mu"@] && family_default_link(f, "mu"@)
            == Some(LinkKind::Logit),
        f is Gaussian ==> family_parameters(f) == seq!["mu"@, "sigma"@] && family_default_link(
            f,
            "mu"@,
        ) == Some(LinkKind::Identity) && family_default_link(f, "sigma"@) == Some(LinkKind::Log),
        f is StudentT ==> family_parameters(f) == seq!["mu"@, "sigma"@, "nu"@]
            && family_default_link(f, "mu"@) == Some(LinkKind::Identity) && family_default_link(
            f,
            "sigma"@,
        ) == Some(LinkKind::Log) && family_default_link(f, "nu"@) == Some(LinkKind::FlooredLog),
        f is Gamma ==> family_parameters(f) == seq!["mu"@, "sigma"@] && family_default_link(
            f,
            "mu"@,
        ) == Some(LinkKind::Log) && family_default_link(f, "sigma"@) == Some(LinkKind::Log),
        f is NegativeBinomial ==> family_parameters(f) == seq!["mu"@, "sigma"@]
            && family_default_link(f, "mu"@) == Some(LinkKind::Log) && family_default_link(
            f,
            "sigma"@,
        ) == Some(LinkKind::Log),
        f is Beta ==> family_parameters(f) == seq!["mu"@, "phi"@] && family_default_link(f, "mu"@)
            == Some(LinkKind::Logit) && family_default_link(f, "phi"@) == Some(LinkKind::Log),
        f is Weibull ==> family_parameters(f) == seq!["mu"@, "sigma"@] && family_default_link(
            f,
            "mu"@,
        ) == Some(LinkKind::Log) && family_default_link(f, "sigma"@) == Some(LinkKind::Log),
        f is Bccg ==> family_parameters(f) == seq!["mu"@, "sigma"@, "nu"@] && family_default_link(
            f,
            "mu"@,
        ) == Some(LinkKind::Log) && family_default_link(f, "sigma"@) == Some(LinkKind::Log)
            && family_default_link(f, "nu"@) == Some(LinkKind::Identity),
        f is Bct || f is Bcpe ==> family_parameters(f) == seq!["mu"@, "sigma"@, "nu"@, "tau"@]
            && family_default_link(f, "mu"@) == Some(LinkKind::Log) && family_default_link(
            f,
            "sigma"@,
        ) == Some(LinkKind::Log) && family_default_link(f, "nu"@) == Some(LinkKind::Identity)
            && family_default_link(f, "tau"@) == Some(LinkKind::Log),
        f is Ocat ==> family_default_link(f, "mu"@) == Some(LinkKind::Identity)
            && family_default_link(f, "delta_1"@) == Some(LinkKind::Identity) && family_default_link(
            f,
            "delta_2"@,
        ) == Some(LinkKind::Log) && family_default_link(f, "delta_3"@) == Some(LinkKind::Log)
            && family_default_link(f, "delta_4"@) == Some(LinkKind::Log),
        f matches Family::Censored(c) ==> family_parameters(f) == family_parameters(*c.base)
            && family_default_link(f, p) == family_default_link(*c.base, p),
        f matches Family::Truncated(b) ==> family_parameters(f) == family_parameters(*b)
            && family_default_link(f, p) == family_default_link(*b, p),
        f matches Family::Hurdle(h) ==> family_parameters(f) == family_parameters(*h.base).push(
            "xi"@,
        ) && family_default_link(f, "xi"@) == Some(LinkKind::Logit) && (p != "xi"@
            ==> family_default_link(f, p) == family_default_link(*h.base, p)),
{
    reveal_strlit("mu");
    reveal_strlit("sigma");
    reveal_strlit("nu");
    reveal_strlit("tau");
    reveal_strlit("phi");
    reveal_strlit("delta_1");
    reveal_strlit("delta_2");
    reveal_strlit("delta_3");
    reveal_strlit("delta_4");
    assert("sigma"@ != "mu"@) by {
        assert("sigma"@.len() != "mu"@.len());
    }
    assert("nu"@ != "mu"@) by {
        assert("nu"@[0] != "mu"@[0]);
    }
    assert("nu"@ != "sigma"@) by {
        assert("nu"@.len() != "sigma"@.len());
    }
    assert("phi"@ != "mu"@) by {
        assert("phi"@.len() != "mu"@.len());
    }
    assert("tau"@ != "mu"@ && "tau"@ != "sigma"@ && "tau"@ != "nu"@) by {
        assert("tau"@.len() != "mu"@.len());
        assert("tau"@.len() != "sigma"@.len());
        assert("tau"@.len() != "nu"@.len());
    }
    assert("delta_1"@ != "mu"@ && "delta_2"@ != "mu"@ && "delta_3"@ != "mu"@ && "delta_4"@
        != "mu"@) by {
        assert("delta_1"@.len() != "mu"@.len());
    }
    assert("delta_2"@ != "delta_1"@ && "delta_3"@ != "delta_1"@ && "delta_4"@ != "delta_1"@) by {
        assert("delta_2"@[6] != "delta_1"@[6]);
        assert("delta_3"@[6] != "delta_1"@[6]);
        assert("delta_4"@[6] != "delta_1"@[6]);
    }
}

/// Law: among all families only `Ocat` (every parameter) and Student-t (its
/// `nu`) refuse a link override; every parameter of every other family,
/// structural wrappers included, accepts one.
pub proof fn overrides_refused_only_by_ocat_and_student_t_nu(f: Family, p: Seq<char>)
    requires
        family_parameters(f).contains(p),
    ensures
        family_allows_override(f, p) <==> !(f is Ocat) && !(f is StudentT && p == "nu"@),
        override_is_accepted(f, p) <==> !(f is Ocat) && !(f is StudentT && p == "nu"@),
{
}

/// A fit accepts an override of parameter `p` of family `f`: `p` is one of
/// the family's parameters and the family allows an override there.
pub open spec fn override_is_accepted(f: Family, p: Seq<char>) -> bool {
    family_parameters(f).contains(p) && family_allows_override(f, p)
}

/// Law: the discrete families are exactly Poisson, Binomial, negative binomial
/// and `Ocat`; the continuous ones are Gaussian, Student-t, Gamma, Beta,
/// Weibull and the Box-Cox families; a structural wrapper is discrete exactly
/// when its base is.
pub proof fn discrete_families_table(f: Family)
    ensures
        f is Poisson || f is Binomial || f is NegativeBinomial || f is Ocat ==> family_is_discrete(f),
        f is Gaussian || f is StudentT || f is Gamma || f is Beta || f is Weibull || f is Bccg
            || f is Bct || f is Bcpe ==> !family_is_discrete(f),
        f matches Family::Censored(c) ==> family_is_discrete(f) == family_is_discrete(*c.base),
        f matches Family::Truncated(b) ==> family_is_discrete(f) == family_is_discrete(*b),
        f matches Family::Hurdle(h) ==> family_is_discrete(f) == family_is_discrete(*h.base),
{
}

/// Law: an `Ocat` family with `R` levels has `R` parameters: the latent `mu`
/// followed by the `R − 1` thresholds `delta_1` … `delta_{R−1}`.
pub proof fn ocat_has_one_parameter_per_level(o: Ocat, k: int)
    requires
        2 <= o@ <= 5,
        1 <= k < o@,
    ensures
        family_parameters(Family::Ocat(o)).len() == o@,
        family_parameters(Family::Ocat(o))[0] == "mu"@,
        family_parameters(Family::Ocat(o))[k] == threshold_name(k as nat),
{
}

} // verus!
