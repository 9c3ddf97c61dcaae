# glissando

The verified core of a GAMLSS (Generalized Additive Models for Location, Scale
and Shape) library, written in Verus.

`src/` holds the parts of the library that are not floating-point arithmetic,
each function with a contract that Verus proves:

- `families.rs`: the family registry. Every family's name, its distribution
  parameters in fitting order, the default link of each parameter, which
  parameters accept a link override, discreteness, and lookup of the stateless
  families by name.
- `descriptor.rs`: the description of a family (a name, a level count,
  censoring codes, the description of a wrapped base) and the rebuild of a
  family from it.
- `links.rs`: link kinds, their canonical names and the name registry
  (`link_from_name`).
- `fitting.rs`: the smoothing criterion and its case-insensitive parser, the
  missing-value policy, per-parameter link overrides (an insertion-ordered map
  kept in an `indexmap::IndexMap`), their validation against a family, the link
  plan of a fit, and the term-to-column layout of a fitted parameter.
- `cycles.rs`: the control of the fit's outer loop (cycle budget, the
  two-test convergence rule), driven by the numeric results of each cycle.
- `quantile.rs`: the doubling-then-bisection search behind the quantile of a
  discrete family, as a state machine whose caller evaluates the CDF.
- `error.rs`: the error type, the exact text each variant displays, and
  conversions from `ndarray` shape errors and `argmin` optimizer errors.
- `text.rs`: decimal formatting, ASCII lower case and joining, used by the
  messages.

Properties that span several functions are stated as public proof functions
beside the functions they speak of.

`app/` is the numeric layer: link maps on `f64`, information criteria,
posterior sampling, the numeric driver of the quantile search, and the
serializable forms of the configuration and description types (`serde`,
`thiserror`).

`tests/` exercises the library on concrete values.
