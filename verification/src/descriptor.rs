//! Serializable descriptions of distribution families, and the rebuild of a
//! family from its description.
//!
//! A bare name rebuilds a stateless family; `Ocat` carries its level count;
//! `Censored` carries its per-row censoring codes; the structural wrappers carry
//! the description of the family they wrap. The numeric per-observation data of
//! `Binomial`, `Censored` and `Truncated` (trial counts, interval and truncation
//! bounds) travel with the response data, not in this description.

use vstd::prelude::*;

use crate::error::GamlssError;
use crate::families::{
    family_name, family_names_identify_named_families, family_wf, from_name, is_named_family,
    ocat_levels_identify, unknown_family_message, CensorStatus, Censored, Family, Hurdle, Ocat,
};

verus! {

/// A reconstructable description of a [`Family`].
#[derive(Debug, PartialEq, Eq)]
pub enum FamilyDescriptor {
    /// A stateless family addressed by name (see [`from_name`]).
    Named(String),
    /// The binomial family.
    Binomial,
    /// An ordered-categorical family with its level count.
    Ocat { n_categories: usize },
    /// A censored base family, with its per-row censoring codes.
    Censored { base: Box<FamilyDescriptor>, status: Vec<CensorStatus> },
    /// A truncated base family.
    Truncated { base: Box<FamilyDescriptor> },
    /// A hurdle over a base family (the positive part).
    Hurdle { base: Box<FamilyDescriptor> },
}

/// Description `d` describes family `f`.
pub open spec fn describes(d: FamilyDescriptor, f: Family) -> bool
    decreases d,
{
    match d {
        FamilyDescriptor::Named(n) => is_named_family(f) && family_name(f) == n@,
        FamilyDescriptor::Binomial => f is Binomial,
        FamilyDescriptor::Ocat { n_categories } => f matches Family::Ocat(o) && o@ == n_categories,
        FamilyDescriptor::Censored { base, status } => f matches Family::Censored(c) && describes(
            *base,
            *c.base,
        ) && c.status@ == status@,
        FamilyDescriptor::Truncated { base } => f matches Family::Truncated(b) && describes(
            *base,
            *b,
        ),
        FamilyDescriptor::Hurdle { base } => f matches Family::Hurdle(h) && describes(*base, *h.base),
    }
}

/// Some stateless family is called `n`.
pub open spec fn names_a_family(n: Seq<char>) -> bool {
    exists|f: Family| is_named_family(f) && family_name(f) == n
}

/// The name in `d` that calls no stateless family, if there is one (a
/// description holds at most one name, at its innermost level).
pub open spec fn unknown_name(d: FamilyDescriptor) -> Option<Seq<char>>
    decreases d,
{
    match d {
        FamilyDescriptor::Named(n) => if names_a_family(n@) {
            None
        } else {
            Some(n@)
        },
        FamilyDescriptor::Binomial => None,
        FamilyDescriptor::Ocat { .. } => None,
        FamilyDescriptor::Censored { base, .. } => unknown_name(*base),
        FamilyDescriptor::Truncated { base } => unknown_name(*base),
        FamilyDescriptor::Hurdle { base } => unknown_name(*base),
    }
}

/// Every `Ocat` level count in `d` is one the family supports (2 to 5).
pub open spec fn descriptor_wf(d: FamilyDescriptor) -> bool
    decreases d,
{
    match d {
        FamilyDescriptor::Ocat { n_categories } => 2 <= n_categories <= 5,
        FamilyDescriptor::Censored { base, .. } => descriptor_wf(*base),
        FamilyDescriptor::Truncated { base } => descriptor_wf(*base),
        FamilyDescriptor::Hurdle { base } => descriptor_wf(*base),
        _ => true,
    }
}

impl FamilyDescriptor {
    /// Rebuilds the family this description describes, recursively for the
    /// structural wrappers. A name that calls no stateless family is an input
    /// error.
    pub fn build(&self) -> (r: Result<Family, GamlssError>)
        requires
            descriptor_wf(*self),
        ensures
            r matches Ok(f) ==> describes(*self, f) && family_wf(f),
            r is Err <==> unknown_name(*self) is Some,
            r matches Err(e) ==> (e matches GamlssError::Input(m) && m@ == unknown_family_message(
                unknown_name(*self)->Some_0,
            )),
        decreases self,
    {
        match self {
            FamilyDescriptor::Named(n) => {
                let r = from_name(n.as_str());
                proof {
                    if r is Ok {
                        assert(is_named_family(r->Ok_0) && family_name(r->Ok_0) == n@);
                    }
                }
                r
            },
            FamilyDescriptor::Binomial => Ok(Family::Binomial),
            FamilyDescriptor::Ocat { n_categories } => Ok(Family::Ocat(Ocat::new(*n_categories))),
            FamilyDescriptor::Censored { base, status } => match base.build() {
                Ok(b) => Ok(Family::Censored(Censored::new(b, copy_statuses(status)))),
                Err(e) => Err(e),
            },
            FamilyDescriptor::Truncated { base } => match base.build() {
                Ok(b) => Ok(Family::Truncated(Box::new(b))),
                Err(e) => Err(e),
            },
            FamilyDescriptor::Hurdle { base } => match base.build() {
                Ok(b) => Ok(Family::Hurdle(Hurdle::new(b))),
                Err(e) => Err(e),
            },
        }
    }
}

impl Family {
    /// A description of this family, from which [`FamilyDescriptor::build`]
    /// rebuilds it: the name of a stateless family, the level count of an
    /// `Ocat`, and for a structural wrapper the description of its base.
    pub fn descriptor(&self) -> (r: FamilyDescriptor)
        ensures
            describes(r, *self),
            descriptor_wf(r),
        decreases self,
    {
        match self {
            Family::Binomial => FamilyDescriptor::Binomial,
            Family::Ocat(o) => FamilyDescriptor::Ocat { n_categories: o.n_categories() },
            Family::Censored(c) => FamilyDescriptor::Censored {
                base: Box::new(c.base.descriptor()),
                status: copy_statuses(&c.status),
            },
            Family::Truncated(b) => FamilyDescriptor::Truncated { base: Box::new(b.descriptor()) },
            Family::Hurdle(h) => FamilyDescriptor::Hurdle { base: Box::new(h.base.descriptor()) },
            _ => FamilyDescriptor::Named(self.name().to_owned()),
        }
    }
}

/// `a` and `b` are the same family: the same variants all the way down, with
/// equal level counts and equal censoring codes.
pub open spec fn same_family(a: Family, b: Family) -> bool
    decreases a,
{
    match a {
        Family::Censored(x) => b matches Family::Censored(y) && x.status@ == y.status@ && same_family(
            *x.base,
            *y.base,
        ),
        Family::Truncated(x) => b matches Family::Truncated(y) && same_family(*x, *y),
        Family::Hurdle(x) => b matches Family::Hurdle(y) && same_family(*x.base, *y.base),
        _ => a == b,
    }
}

/// A copy of a list of censoring codes.
fn copy_statuses(v: &Vec<CensorStatus>) -> (r: Vec<CensorStatus>)
    ensures
        r@ == v@,
{
    let mut r: Vec<CensorStatus> = Vec::new();
    let n = v.len();
    let mut i: usize = 0;
    while i < n
        invariant
            n == v@.len(),
            i <= n,
            r@ == v@.subrange(0, i as int),
        decreases n - i,
    {
        r.push(v[i]);
        i = i + 1;
    }
    assert(r@ =~= v@);
    r
}

/// Law: a family's description rebuilds that family and no other. A
/// description of a family is well formed and calls only known families, and
/// every family it describes is the same family.
pub proof fn descriptor_round_trips(d: FamilyDescriptor, f: Family, g: Family)
    requires
        family_wf(f),
        describes(d, f),
        describes(d, g),
    ensures
        descriptor_wf(d),
        unknown_name(d) is None,
        same_family(g, f),
    decreases d,
{
    match d {
        FamilyDescriptor::Named(n) => {
            family_names_identify_named_families(f, g);
            assert(names_a_family(n@));
        },
        FamilyDescriptor::Binomial => {},
        FamilyDescriptor::Ocat { n_categories } => {
            if let (Family::Ocat(a), Family::Ocat(b)) = (f, g) {
                ocat_levels_identify(a, b);
            }
        },
        FamilyDescriptor::Censored { base, .. } => {
            if let (Family::Censored(a), Family::Censored(b)) = (f, g) {
                descriptor_round_trips(*base, *a.base, *b.base);
            }
        },
        FamilyDescriptor::Truncated { base } => {
            if let (Family::Truncated(a), Family::Truncated(b)) = (f, g) {
                descriptor_round_trips(*base, *a, *b);
            }
        },
        FamilyDescriptor::Hurdle { base } => {
            if let (Family::Hurdle(a), Family::Hurdle(b)) = (f, g) {
                descriptor_round_trips(*base, *a.base, *b.base);
            }
        },
    }
}

} // verus!
