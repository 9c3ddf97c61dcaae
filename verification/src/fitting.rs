//! Fit-time configuration that is not numeric: the smoothing criterion, the
//! missing-value policy, per-parameter link overrides and their validation
//! against a family, and the term-to-column layout of a fitted parameter.

use vstd::prelude::*;
use vstd::string::*;

use indexmap::IndexMap;

use crate::error::GamlssError;
use crate::families::{
    every_parameter_has_a_default_link, family_allows_override, family_default_link, family_name,
    family_parameters, family_wf, is_unknown_parameter, link_owner_name, names_view, Family,
};
use crate::links::{
    is_selectable, link_from_name, link_name, link_names_are_distinct, unknown_link_message,
    LinkKind,
};
use crate::text::{ascii_lower, join_names, joined, lowercase_ascii, same_text};

verus! {

/// Smoothing-parameter selection criterion.
///
/// `Reml` (the default) minimizes the Laplace-approximate marginal likelihood
/// via L-BFGS; `Gcv` uses Generalized Cross-Validation; `FellnerSchall` chases
/// the same target as `Reml` through a deterministic fixed-point update.
#[derive(Debug, Clone, Copy, PartialEq, Eq, Structural)]
pub enum SmoothingCriterion {
    Gcv,
    Reml,
    /// Fellner-Schall fixed-point optimizer for the LAML target: same objective
    /// as `Reml`, no outer L-BFGS, no line search.
    FellnerSchall,
}

/// The wire name of a criterion (its snake-case serialized form).
pub open spec fn criterion_wire_name(c: SmoothingCriterion) -> Seq<char> {
    match c {
        SmoothingCriterion::Gcv => "gcv"@,
        SmoothingCriterion::Reml => "reml"@,
        SmoothingCriterion::FellnerSchall => "fellner_schall"@,
    }
}

/// The message of the error for an unknown criterion; `lowered` is the
/// lowercased name that was looked up.
pub open spec fn unknown_criterion_message(lowered: Seq<char>) -> Seq<char> {
    "Unknown criterion '"@ + lowered + "', expected 'gcv', 'reml', or 'fellner_schall'"@
}

impl SmoothingCriterion {
    /// Parses a criterion from its wire name (`"gcv"`, `"reml"`,
    /// `"fellner_schall"`), ignoring ASCII case.
    pub fn from_name(name: &str) -> (r: Result<SmoothingCriterion, GamlssError>)
        ensures
            r matches Ok(c) ==> criterion_wire_name(c) == ascii_lower(name@),
            r is Err <==> (forall|c: SmoothingCriterion|
                criterion_wire_name(c) != ascii_lower(name@)),
            r matches Err(e) ==> (e matches GamlssError::Input(m) && m@
                == unknown_criterion_message(ascii_lower(name@))),
    {
        let lowered = lowercase_ascii(name);
        let r = if same_text(lowered.as_str(), "gcv") {
            Ok(SmoothingCriterion::Gcv)
        } else if same_text(lowered.as_str(), "reml") {
            Ok(SmoothingCriterion::Reml)
        } else if same_text(lowered.as_str(), "fellner_schall") {
            Ok(SmoothingCriterion::FellnerSchall)
        } else {
            let mut m = String::new();
            m.append("Unknown criterion '");
            m.append(lowered.as_str());
            m.append("', expected 'gcv', 'reml', or 'fellner_schall'");
            assert(m@ =~= unknown_criterion_message(ascii_lower(name@)));
            assert forall|c: SmoothingCriterion|
                criterion_wire_name(c) != ascii_lower(name@) by {
                match c {
                    SmoothingCriterion::Gcv => {},
                    SmoothingCriterion::Reml => {},
                    SmoothingCriterion::FellnerSchall => {},
                }
            }
            Err(GamlssError::Input(m))
        };
        proof {
            if r is Ok {
                assert(criterion_wire_name(r->Ok_0) == ascii_lower(name@));
            }
        }
        r
    }
}

impl Default for SmoothingCriterion {
    /// REML: at moderate sample sizes the criterion least likely to wander into
    /// a local minimum or undersmooth.
    fn default() -> (r: Self)
        ensures
            r == SmoothingCriterion::Reml,
    {
        SmoothingCriterion::Reml
    }
}

/// Law: the wire name of every criterion, as a fixed table.
pub proof fn criterion_wire_names_table(c: SmoothingCriterion)
    ensures
        c == SmoothingCriterion::Gcv ==> criterion_wire_name(c) == "gcv"@,
        c == SmoothingCriterion::Reml ==> criterion_wire_name(c) == "reml"@,
        c == SmoothingCriterion::FellnerSchall ==> criterion_wire_name(c) == "fellner_schall"@,
{
}

/// Law: distinct criteria have distinct wire names. With the contract of
/// [`SmoothingCriterion::from_name`], parsing a criterion's wire name, in any
/// ASCII case, gives that criterion back.
pub proof fn criterion_wire_names_are_distinct(a: SmoothingCriterion, b: SmoothingCriterion)
    ensures
        criterion_wire_name(a) == criterion_wire_name(b) ==> a == b,
{
    reveal_strlit("gcv");
    reveal_strlit("reml");
    reveal_strlit("fellner_schall");
    if criterion_wire_name(a) == criterion_wire_name(b) {
        assert(criterion_wire_name(a).len() == criterion_wire_name(b).len());
        assert(criterion_wire_name(a)[0] == criterion_wire_name(b)[0]);
    }
}

/// The default cycle budget of a fit's outer loop.
pub const DEFAULT_MAX_ITER: usize = 200;

/// The default cycle budget of a fit's outer loop: 200 cycles.
pub fn default_max_iter() -> (r: usize)
    ensures
        r == 200,
{
    DEFAULT_MAX_ITER
}

/// The default of a fit's step-halving switch: on, so that every accepted
/// update descends the global deviance.
pub fn default_true() -> (r: bool)
    ensures
        r,
{
    true
}

/// What the fitter does with a row that carries a missing (non-finite) value in
/// the response or in any formula-referenced column.
#[derive(Debug, Clone, Copy, PartialEq, Eq, Structural)]
pub enum NaAction {
    /// Drop any row with a missing value before fitting (R's `na.omit`); the default.
    DropRows,
    /// Reject the fit the moment any model variable is non-finite.
    Fail,
}

impl Default for NaAction {
    /// Dropping rows, as R's `na.omit` does.
    fn default() -> (r: Self)
        ensures
            r == NaAction::DropRows,
    {
        NaAction::DropRows
    }
}

/// An insertion-ordered map of the `indexmap` crate.
#[verifier::external_type_specification]
#[verifier::external_body]
#[verifier::reject_recursive_types(K)]
#[verifier::reject_recursive_types(V)]
#[verifier::reject_recursive_types(S)]
pub struct ExIndexMap<K, V, S>(IndexMap<K, V, S>);

/// The entries of a string-to-string `IndexMap`, as `(key, value)` texts in the
/// map's order.
pub uninterp spec fn map_entries(m: IndexMap<String, String>) -> Seq<(Seq<char>, Seq<char>)>;

/// `IndexMap::new`: a map with no entries.
#[verifier::external_body]
fn map_new() -> (m: IndexMap<String, String>)
    ensures
        map_entries(m) == Seq::<(Seq<char>, Seq<char>)>::empty(),
{
    IndexMap::new()
}

/// `IndexMap::insert`: when an entry with an equal key exists, its value is
/// replaced in place and the order is unchanged; otherwise the pair is appended
/// last.
#[verifier::external_body]
fn map_insert(m: &mut IndexMap<String, String>, key: String, value: String)
    ensures
        (exists|i: int|
            0 <= i < map_entries(*old(m)).len() && map_entries(*old(m))[i].0 == key@
                && map_entries(*final(m)) == map_entries(*old(m)).update(i, (key@, value@)))
            || ((forall|i: int|
            0 <= i < map_entries(*old(m)).len() ==> map_entries(*old(m))[i].0 != key@)
            && map_entries(*final(m)) == map_entries(*old(m)).push((key@, value@))),
{
    m.insert(key, value);
}

/// `IndexMap::len`: the number of entries.
#[verifier::external_body]
fn map_len(m: &IndexMap<String, String>) -> (r: usize)
    ensures
        r == map_entries(*m).len(),
{
    m.len()
}

/// `IndexMap::get_index`: the entry at position `i` in the map's order, if any.
#[verifier::external_body]
fn map_get_index(m: &IndexMap<String, String>, i: usize) -> (r: Option<(String, String)>)
    ensures
        r matches Some(kv) ==> i < map_entries(*m).len() && (kv.0@, kv.1@) == map_entries(*m)[i as int],
        r is None ==> i >= map_entries(*m).len(),
{
    m.get_index(i).map(|(k, v)| (k.clone(), v.clone()))
}

/// `IndexMap::get`: the value stored under a key equal to `key`, if any.
#[verifier::external_body]
fn map_get(m: &IndexMap<String, String>, key: &str) -> (r: Option<String>)
    ensures
        r matches Some(v) ==> exists|i: int|
            0 <= i < map_entries(*m).len() && map_entries(*m)[i] == (key@, v@),
        r is None ==> forall|i: int|
            0 <= i < map_entries(*m).len() ==> map_entries(*m)[i].0 != key@,
{
    m.get(key).cloned()
}

/// An override list: `(parameter, link name)` texts in insertion order.
pub type OverrideEntries = Seq<(Seq<char>, Seq<char>)>;

/// Whether some entry has key `k`.
pub open spec fn has_key(e: OverrideEntries, k: Seq<char>) -> bool {
    exists|i: int| 0 <= i < e.len() && e[i].0 == k
}

/// The position of the entry with key `k` (meaningful when `has_key(e, k)`).
pub open spec fn key_index(e: OverrideEntries, k: Seq<char>) -> int {
    choose|i: int| 0 <= i < e.len() && e[i].0 == k
}

/// No two entries share a key.
pub open spec fn distinct_keys(e: OverrideEntries) -> bool {
    forall|i: int, j: int| 0 <= i < e.len() && 0 <= j < e.len() && i != j ==> e[i].0 != e[j].0
}

/// The entries after setting `k` to `v`: an existing entry keeps its place and
/// takes the new value; a new key is appended last.
pub open spec fn with_entry(e: OverrideEntries, k: Seq<char>, v: Seq<char>) -> OverrideEntries {
    if has_key(e, k) {
        e.update(key_index(e, k), (k, v))
    } else {
        e.push((k, v))
    }
}

/// The entries after setting each pair of `pairs` in turn.
pub open spec fn with_entries(e: OverrideEntries, pairs: OverrideEntries) -> OverrideEntries
    decreases pairs.len(),
{
    if pairs.len() == 0 {
        e
    } else {
        with_entry(with_entries(e, pairs.drop_last()), pairs.last().0, pairs.last().1)
    }
}

/// The value stored under key `k`, if any.
pub open spec fn lookup(e: OverrideEntries, k: Seq<char>) -> Option<Seq<char>> {
    if has_key(e, k) {
        Some(e[key_index(e, k)].1)
    } else {
        None
    }
}

/// Per-parameter link overrides for a fit, keyed by distribution-parameter name
/// (e.g. `"mu" → "probit"`), in insertion order. Empty means every parameter
/// uses its family's default link.
pub struct LinkOverrides {
    map: IndexMap<String, String>,
}

impl View for LinkOverrides {
    type V = OverrideEntries;

    closed spec fn view(&self) -> OverrideEntries {
        map_entries(self.map)
    }
}

proof fn lemma_with_entry_keeps_keys_distinct(e: OverrideEntries, k: Seq<char>, v: Seq<char>)
    requires
        distinct_keys(e),
    ensures
        distinct_keys(with_entry(e, k, v)),
        has_key(e, k) ==> with_entry(e, k, v).len() == e.len(),
{
}

impl LinkOverrides {
    #[verifier::type_invariant]
    closed spec fn unique_keys(self) -> bool {
        distinct_keys(map_entries(self.map))
    }

    /// No overrides: every parameter keeps its family's default link.
    pub fn new() -> (r: Self)
        ensures
            r@ == Seq::<(Seq<char>, Seq<char>)>::empty(),
            distinct_keys(r@),
    {
        LinkOverrides { map: map_new() }
    }

    /// Overrides the link of `param`, returning `self` for chaining:
    /// `LinkOverrides::new().with_link("mu", "probit")`.
    pub fn with_link(self, param: String, link: String) -> (r: Self)
        ensures
            r@ == with_entry(self@, param@, link@),
            distinct_keys(r@),
    {
        proof {
            use_type_invariant(&self);
        }
        let ghost before = self@;
        let mut map = self.map;
        map_insert(&mut map, param, link);
        proof {
            if has_key(before, param@) {
                let i = choose|i: int|
                    0 <= i < before.len() && before[i].0 == param@ && map_entries(map) == before.update(
                        i,
                        (param@, link@),
                    );
                let j = key_index(before, param@);
                assert(i == j);
            }
            lemma_with_entry_keeps_keys_distinct(before, param@, link@);
        }
        LinkOverrides { map }
    }

    /// Overrides several links at once, in order, returning `self` for chaining.
    pub fn with_links(self, links: Vec<(String, String)>) -> (r: Self)
        ensures
            r@ == with_entries(self@, links@.map_values(|kv: (String, String)| (kv.0@, kv.1@))),
            distinct_keys(r@),
    {
        proof {
            use_type_invariant(&self);
        }
        let ghost start = self@;
        let ghost pairs = links@.map_values(|kv: (String, String)| (kv.0@, kv.1@));
        let mut acc = self;
        let n = links.len();
        let mut i: usize = 0;
        while i < n
            invariant
                n == pairs.len(),
                n == links@.len(),
                pairs == links@.map_values(|kv: (String, String)| (kv.0@, kv.1@)),
                i <= n,
                acc@ == with_entries(start, pairs.subrange(0, i as int)),
                distinct_keys(acc@),
            decreases n - i,
        {
            let k = links[i].0.clone();
            let v = links[i].1.clone();
            assert(pairs.subrange(0, i + 1).drop_last() =~= pairs.subrange(0, i as int));
            assert(pairs[i as int] == (k@, v@));
            acc = acc.with_link(k, v);
            i = i + 1;
        }
        assert(pairs.subrange(0, n as int) =~= pairs);
        acc
    }

    /// The link name overriding `param`, if any.
    pub fn get(&self, param: &str) -> (r: Option<String>)
        ensures
            r matches Some(v) ==> lookup(self@, param@) == Some(v@),
            r is None <==> lookup(self@, param@) is None,
    {
        proof {
            use_type_invariant(self);
        }
        let r = map_get(&self.map, param);
        proof {
            if r is Some {
                let v = r->Some_0;
                let i = choose|i: int|
                    0 <= i < self@.len() && self@[i] == (param@, v@);
                assert(has_key(self@, param@));
                assert(key_index(self@, param@) == i);
            }
        }
        r
    }

    /// The overridden parameter names, in insertion order.
    pub fn params(&self) -> (r: Vec<String>)
        ensures
            r@.len() == self@.len(),
            forall|i: int| 0 <= i < r@.len() ==> #[trigger] r@[i]@ == self@[i].0,
    {
        let n = map_len(&self.map);
        let mut out: Vec<String> = Vec::new();
        let mut i: usize = 0;
        while i < n
            invariant
                n == self@.len(),
                i <= n,
                out@.len() == i,
                forall|j: int| 0 <= j < i ==> #[trigger] out@[j]@ == self@[j].0,
            decreases n - i,
        {
            match map_get_index(&self.map, i) {
                Some((k, _)) => {
                    out.push(k);
                },
                None => {
                    assert(false);
                },
            }
            i = i + 1;
        }
        out
    }
}

/// Law: a link set for a parameter is what a later lookup of that parameter
/// finds, and setting it leaves every other parameter's override unchanged.
pub proof fn link_override_read_after_write(
    e: OverrideEntries,
    k: Seq<char>,
    v: Seq<char>,
    other: Seq<char>,
)
    requires
        distinct_keys(e),
    ensures
        lookup(with_entry(e, k, v), k) == Some(v),
        other != k ==> lookup(with_entry(e, k, v), other) == lookup(e, other),
        distinct_keys(with_entry(e, k, v)),
{
    let e2 = with_entry(e, k, v);
    assert(e2[if has_key(e, k) { key_index(e, k) } else { e.len() as int }] == (k, v));
    assert(has_key(e2, k));
    if has_key(e, other) && other != k {
        let i = key_index(e, other);
        assert(e2[i] == e[i]);
        assert(has_key(e2, other));
    }
    if has_key(e2, other) && other != k {
        let i = key_index(e2, other);
        assert(e[i].0 == other);
        assert(has_key(e, other));
    }
}

/// Whether `names` holds the text of `key`.
fn contains_name(names: &Vec<&'static str>, key: &str) -> (r: bool)
    ensures
        r == names_view(names@).contains(key@),
{
    let n = names.len();
    let mut i: usize = 0;
    while i < n
        invariant
            n == names@.len(),
            i <= n,
            forall|j: int| 0 <= j < i ==> names@[j]@ != key@,
        decreases n - i,
    {
        if same_text(names[i], key) {
            assert(names_view(names@)[i as int] == key@);
            return true;
        }
        i = i + 1;
    }
    assert forall|j: int| 0 <= j < names_view(names@).len() implies names_view(names@)[j] != key@ by {
        assert(names_view(names@)[j] == names@[j]@);
    }
    false
}

/// Whether a fit may override the link of parameter `k` of family `f`: `k` must
/// be one of the family's parameters and the family must accept an override there.
pub open spec fn override_is_acceptable(f: Family, k: Seq<char>) -> bool {
    family_parameters(f).contains(k) && family_allows_override(f, k)
}

/// The message that rejects an override of parameter `k` of family `f`.
pub open spec fn override_rejection(f: Family, k: Seq<char>) -> Seq<char> {
    if !family_parameters(f).contains(k) {
        "link override for unknown parameter '"@ + k + "': "@ + family_name(f)
            + " has parameters ["@ + joined(family_parameters(f), ", "@) + "]"@
    } else {
        family_name(f) + " does not support a link override for '"@ + k
            + "': its score and weight are derived against that parameter's default link and cannot be re-chained generically. Remove the override, or model the parameter with a family that supports one."@
    }
}

/// `err` rejects the first override key of `e` that family `f` does not accept.
pub open spec fn is_first_rejection(f: Family, e: OverrideEntries, err: GamlssError) -> bool {
    exists|i: int|
        0 <= i < e.len() && (forall|j: int|
            0 <= j < i ==> override_is_acceptable(f, #[trigger] e[j].0)) && !override_is_acceptable(
            f,
            e[i].0,
        ) && (err matches GamlssError::Input(m) && m@ == override_rejection(f, e[i].0))
}

/// Checks every override key against the family before any fitting starts, in
/// the overrides' order. The first key that is not one of the family's
/// parameters, or whose parameter refuses an override, is reported; a
/// misspelled key is reported as unknown rather than as refused.
pub fn validate_link_overrides(family: &Family, overrides: &LinkOverrides) -> (r: Result<(), GamlssError>)
    ensures
        r is Ok <==> (forall|i: int|
            0 <= i < overrides@.len() ==> override_is_acceptable(*family, #[trigger] overrides@[i].0)),
        r matches Err(e) ==> is_first_rejection(*family, overrides@, e),
{
    let keys = overrides.params();
    let params = family.parameters();
    let n = keys.len();
    let mut i: usize = 0;
    while i < n
        invariant
            n == keys@.len(),
            n == overrides@.len(),
            forall|j: int| 0 <= j < n ==> #[trigger] keys@[j]@ == overrides@[j].0,
            names_view(params@) == family_parameters(*family),
            i <= n,
            forall|j: int| 0 <= j < i ==> override_is_acceptable(*family, #[trigger] overrides@[j].0),
        decreases n - i,
    {
        let key = keys[i].as_str();
        assert(key@ == overrides@[i as int].0);
        if !contains_name(&params, key) {
            let mut m = String::new();
            m.append("link override for unknown parameter '");
            m.append(key);
            m.append("': ");
            m.append(family.name());
            m.append(" has parameters [");
            let listed = join_names(&params, ", ");
            m.append(listed.as_str());
            m.append("]");
            assert(m@ =~= override_rejection(*family, key@));
            return Err(GamlssError::Input(m));
        }
        if !family.allows_link_override(key) {
            let mut m = String::new();
            m.append(family.name());
            m.append(" does not support a link override for '");
            m.append(key);
            m.append(
                "': its score and weight are derived against that parameter's default link and cannot be re-chained generically. Remove the override, or model the parameter with a family that supports one.",
            );
            assert(m@ =~= override_rejection(*family, key@));
            return Err(GamlssError::Input(m));
        }
        i = i + 1;
    }
    Ok(())
}

/// The link a fit uses for `param`: the overriding link when one is given (which
/// must name a selectable link), else the family's default link.
pub fn resolve_link(family: &Family, overrides: &LinkOverrides, param: &str) -> (r: Result<LinkKind, GamlssError>)
    ensures
        lookup(overrides@, param@) matches Some(name) ==> {
            &&& r matches Ok(k) ==> is_selectable(k) && link_name(k) == name
            &&& r is Err <==> (forall|k: LinkKind| is_selectable(k) ==> link_name(k) != name)
            &&& r matches Err(e) ==> (e matches GamlssError::Input(m) && m@ == unknown_link_message(
                name,
            ))
        },
        lookup(overrides@, param@) is None ==> {
            &&& r matches Ok(k) ==> family_default_link(*family, param@) == Some(k)
            &&& r is Err <==> family_default_link(*family, param@) is None
            &&& r matches Err(e) ==> is_unknown_parameter(e, link_owner_name(*family), param@)
        },
{
    match overrides.get(param) {
        Some(name) => link_from_name(name.as_str()),
        None => family.default_link(param),
    }
}

/// The selectable link named `n`, if any.
pub open spec fn selected_link(n: Seq<char>) -> Option<LinkKind> {
    if exists|k: LinkKind| is_selectable(k) && link_name(k) == n {
        Some(choose|k: LinkKind| is_selectable(k) && link_name(k) == n)
    } else {
        None
    }
}

/// The link a fit uses for parameter `p`: the override's link when one is
/// given, else the family default; `None` where neither exists.
pub open spec fn planned_link(f: Family, e: OverrideEntries, p: Seq<char>) -> Option<LinkKind> {
    match lookup(e, p) {
        Some(n) => selected_link(n),
        None => family_default_link(f, p),
    }
}

/// The text view of an optional string.
pub open spec fn opt_text(o: Option<String>) -> Option<Seq<char>> {
    match o {
        Some(s) => Some(s@),
        None => None,
    }
}

/// Every override key names one of the family's parameters that accepts one.
pub open spec fn overrides_acceptable(f: Family, e: OverrideEntries) -> bool {
    forall|i: int| 0 <= i < e.len() ==> override_is_acceptable(f, #[trigger] e[i].0)
}

/// How a fit links one distribution parameter.
#[derive(Debug)]
pub struct ParamLink {
    /// The distribution parameter.
    pub param: &'static str,
    /// The link the fit uses for it.
    pub link: LinkKind,
    /// The overriding link's name when the link was overridden; `None` when the
    /// family default is used, which is then re-derived at predict time.
    pub override_name: Option<String>,
}

proof fn lemma_resolved_is_planned(f: Family, e: OverrideEntries, p: Seq<char>, k: LinkKind)
    requires
        lookup(e, p) matches Some(n) ==> is_selectable(k) && link_name(k) == n,
        lookup(e, p) is None ==> family_default_link(f, p) == Some(k),
    ensures
        planned_link(f, e, p) == Some(k),
{
    if let Some(n) = lookup(e, p) {
        assert(is_selectable(k) && link_name(k) == n);
        let c = choose|c: LinkKind| is_selectable(c) && link_name(c) == n;
        link_names_are_distinct(c, k);
    }
}

/// The link of every parameter of `family`, in the family's order, as a fit sets
/// them up: the overrides are validated first (see
/// [`validate_link_overrides`]); then each parameter takes its override's link,
/// whose name must name a selectable link, or the family default.
pub fn plan_links(family: &Family, overrides: &LinkOverrides) -> (r: Result<Vec<ParamLink>, GamlssError>)
    ensures
        r is Ok <==> overrides_acceptable(*family, overrides@) && (forall|i: int|
            0 <= i < family_parameters(*family).len() ==> #[trigger] planned_link(
                *family,
                overrides@,
                family_parameters(*family)[i],
            ) is Some),
        r matches Ok(v) ==> {
            &&& v.len() == family_parameters(*family).len()
            &&& forall|i: int|
                0 <= i < v.len() ==> {
                    &&& (#[trigger] v@[i]).param@ == family_parameters(*family)[i]
                    &&& planned_link(*family, overrides@, v@[i].param@) == Some(v@[i].link)
                    &&& opt_text(v@[i].override_name) == lookup(overrides@, v@[i].param@)
                }
        },
        r matches Err(e) ==> !overrides_acceptable(*family, overrides@) ==> is_first_rejection(
            *family,
            overrides@,
            e,
        ),
        r matches Err(e) ==> overrides_acceptable(*family, overrides@) ==> exists|i: int|
            {
                &&& 0 <= i < family_parameters(*family).len()
                &&& forall|j: int|
                    0 <= j < i ==> #[trigger] planned_link(
                        *family,
                        overrides@,
                        family_parameters(*family)[j],
                    ) is Some
                &&& lookup(overrides@, #[trigger] family_parameters(*family)[i]) matches Some(n)
                &&& selected_link(n) is None
                &&& e matches GamlssError::Input(m)
                &&& m@ == unknown_link_message(n)
            },
{
    let checked = validate_link_overrides(family, overrides);
    if let Err(e) = checked {
        return Err(e);
    }
    let params = family.parameters();
    let n = params.len();
    let mut out: Vec<ParamLink> = Vec::new();
    let mut i: usize = 0;
    while i < n
        invariant
            n == params@.len(),
            names_view(params@) == family_parameters(*family),
            family_wf(*family),
            overrides_acceptable(*family, overrides@),
            i <= n,
            out.len() == i,
            forall|j: int|
                0 <= j < i ==> {
                    &&& (#[trigger] out@[j]).param@ == family_parameters(*family)[j]
                    &&& planned_link(*family, overrides@, out@[j].param@) == Some(out@[j].link)
                    &&& opt_text(out@[j].override_name) == lookup(overrides@, out@[j].param@)
                },
        decreases n - i,
    {
        let p = params[i];
        assert(p@ == family_parameters(*family)[i as int]);
        proof {
            every_parameter_has_a_default_link(*family, i as int);
        }
        match resolve_link(family, overrides, p) {
            Ok(k) => {
                proof {
                    lemma_resolved_is_planned(*family, overrides@, p@, k);
                }
                let override_name = overrides.get(p);
                out.push(ParamLink { param: p, link: k, override_name });
            },
            Err(e) => {
                proof {
                    let name = lookup(overrides@, p@)->Some_0;
                    assert forall|j: int|
                        0 <= j < i implies #[trigger] planned_link(
                        *family,
                        overrides@,
                        family_parameters(*family)[j],
                    ) is Some by {
                        assert(out@[j].param@ == family_parameters(*family)[j]);
                    }
                    if selected_link(name) is Some {
                        let c = choose|c: LinkKind| is_selectable(c) && link_name(c) == name;
                        assert(is_selectable(c) && link_name(c) == name);
                    }
                    assert(selected_link(name) is None);
                    assert(planned_link(*family, overrides@, family_parameters(*family)[i as int])
                        is None);
                }
                return Err(e);
            },
        }
        i = i + 1;
    }
    proof {
        assert forall|i: int|
            0 <= i < family_parameters(*family).len() implies #[trigger] planned_link(
            *family,
            overrides@,
            family_parameters(*family)[i],
        ) is Some by {
            assert(out@[i].param@ == family_parameters(*family)[i]);
        }
    }
    Ok(out)
}

/// Law: once the overrides pass validation, setting up a fit's links fails
/// only on an override that names no selectable link; every parameter left on
/// its family default has one.
pub proof fn planning_fails_only_on_unknown_link_names(f: Family, e: OverrideEntries, i: int)
    requires
        family_wf(f),
        0 <= i < family_parameters(f).len(),
        planned_link(f, e, family_parameters(f)[i]) is None,
    ensures
        lookup(e, family_parameters(f)[i]) matches Some(n) && selected_link(n) is None,
{
    every_parameter_has_a_default_link(f, i);
}

/// The first design-matrix column of term `i` when the terms have the column
/// counts `widths`, in order: the sum of the widths before it.
pub open spec fn column_offset(widths: Seq<usize>, i: int) -> int
    decreases i,
{
    if i <= 0 {
        0
    } else {
        column_offset(widths, i - 1) + widths[i - 1]
    }
}

proof fn lemma_column_offset_monotone(widths: Seq<usize>, i: int, j: int)
    requires
        0 <= i <= j <= widths.len(),
    ensures
        column_offset(widths, i) <= column_offset(widths, j),
    decreases j - i,
{
    if i < j {
        lemma_column_offset_monotone(widths, i, j - 1);
    }
}

/// The column block of each term of a fitted parameter: `(term name, first
/// column, last column exclusive)`, aligned with the terms, in the column order
/// of the coefficients and the design matrix.
pub fn term_column_blocks(names: &Vec<String>, widths: &Vec<usize>) -> (r: Vec<(String, usize, usize)>)
    requires
        names.len() == widths.len(),
        column_offset(widths@, widths@.len() as int) <= usize::MAX,
    ensures
        r.len() == names.len(),
        forall|i: int|
            0 <= i < r.len() ==> (#[trigger] r@[i]).0@ == names@[i]@ && r@[i].1 == column_offset(
                widths@,
                i,
            ) && r@[i].2 == column_offset(widths@, i + 1),
{
    let n = names.len();
    let mut out: Vec<(String, usize, usize)> = Vec::new();
    let mut offset: usize = 0;
    let mut i: usize = 0;
    while i < n
        invariant
            n == names.len(),
            n == widths.len(),
            column_offset(widths@, n as int) <= usize::MAX,
            i <= n,
            offset == column_offset(widths@, i as int),
            out.len() == i,
            forall|j: int|
                0 <= j < i ==> (#[trigger] out@[j]).0@ == names@[j]@ && out@[j].1 == column_offset(
                    widths@,
                    j,
                ) && out@[j].2 == column_offset(widths@, j + 1),
        decreases n - i,
    {
        proof {
            lemma_column_offset_monotone(widths@, i + 1, n as int);
        }
        let end = offset + widths[i];
        out.push((names[i].clone(), offset, end));
        offset = end;
        i = i + 1;
    }
    out
}

/// Law: the term blocks tile the columns. Every column `c` below the total
/// width falls in the block of exactly one term.
pub proof fn term_blocks_tile_the_columns(widths: Seq<usize>, c: int)
    requires
        0 <= c < column_offset(widths, widths.len() as int),
    ensures
        exists|i: int|
            0 <= i < widths.len() && #[trigger] column_offset(widths, i) <= c < column_offset(widths, i + 1),
        forall|i: int, j: int|
            #![trigger column_offset(widths, i), column_offset(widths, j)]
            0 <= i < widths.len() && 0 <= j < widths.len() && column_offset(widths, i) <= c
                < column_offset(widths, i + 1) && column_offset(widths, j) <= c < column_offset(
                widths,
                j + 1,
            ) ==> i == j,
    decreases widths.len(),
{
    let n = widths.len() as int;
    if c >= column_offset(widths, n - 1) {
        assert(column_offset(widths, n - 1) <= c < column_offset(widths, n));
    } else {
        let w = widths.drop_last();
        assert forall|k: int| 0 <= k <= w.len() implies column_offset(w, k) == column_offset(widths, k) by {
            lemma_prefix_offsets(widths, w, k);
        }
        term_blocks_tile_the_columns(w, c);
        let i = choose|i: int| 0 <= i < w.len() && #[trigger] column_offset(w, i) <= c < column_offset(w, i + 1);
        assert(column_offset(widths, i) <= c < column_offset(widths, i + 1));
    }
    assert forall|i: int, j: int|
        #![trigger column_offset(widths, i), column_offset(widths, j)]
        0 <= i < widths.len() && 0 <= j < widths.len() && column_offset(widths, i) <= c
            < column_offset(widths, i + 1) && column_offset(widths, j) <= c < column_offset(
            widths,
            j + 1,
        ) implies i == j by {
        if i < j {
            lemma_column_offset_monotone(widths, i + 1, j);
        } else if j < i {
            lemma_column_offset_monotone(widths, j + 1, i);
        }
    }
}

proof fn lemma_prefix_offsets(widths: Seq<usize>, w: Seq<usize>, k: int)
    requires
        widths.len() > 0,
        w == widths.drop_last(),
        0 <= k <= w.len(),
    ensures
        column_offset(w, k) == column_offset(widths, k),
    decreases k,
{
    if k > 0 {
        lemma_prefix_offsets(widths, w, k - 1);
        assert(w[k - 1] == widths[k - 1]);
    }
}

} // verus!
