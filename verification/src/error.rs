//! The library's error type and the text each variant displays.

use vstd::prelude::*;
use vstd::string::*;

use crate::text::{decimal_text, spec_decimal};

verus! {

/// Errors that can occur during GAMLSS model fitting, prediction, or serialization.
#[derive(Debug)]
pub enum GamlssError {
    /// The smoothing-parameter optimizer failed; the payload is its full message chain.
    Optimization(String),
    /// A linear-algebra backend failure, stringified at the backend boundary so a
    /// `match` on this variant reads the same under every backend.
    Linalg(String),
    /// Cholesky factorization of the posterior covariance failed. Usually that
    /// means a rank-deficient design, or a parameter sitting right at the
    /// boundary of its support.
    PosteriorNotPositiveDefinite,
    /// An array had the wrong shape or layout.
    Shape(String),
    /// The RS algorithm did not converge within the given number of iterations.
    Convergence(usize),
    /// The caller passed something the library cannot use.
    Input(String),
    /// A parameter name that the distribution does not have.
    UnknownParameter { distribution: String, param: String },
    /// A model was fit with one family and used with another.
    FamilyMismatch { expected: String, actual: String },
    /// A bug in the library, not bad input.
    Internal(String),
    /// A formula names a variable that the data does not hold.
    MissingVariable { name: String },
    /// A variable holds `count` NaN or infinite values.
    NonFiniteValues { name: String, count: usize },
    /// The formula has no terms for a distribution parameter.
    MissingFormula { param: String },
    /// No observations were provided.
    EmptyData,
}

/// The text a `GamlssError` displays.
pub open spec fn error_message(e: GamlssError) -> Seq<char> {
    match e {
        GamlssError::Optimization(s) => "Optimization failed: "@ + s@,
        GamlssError::Linalg(s) => "Linear algebra error: "@ + s@,
        GamlssError::PosteriorNotPositiveDefinite =>
            "Posterior covariance is not positive definite (Cholesky failed)"@,
        GamlssError::Shape(s) => "Array shape error: "@ + s@,
        GamlssError::Convergence(n) => "RS algorithm failed to converge after "@ + spec_decimal(
            n as nat,
        ) + " iterations"@,
        GamlssError::Input(s) => "Invalid input: "@ + s@,
        GamlssError::UnknownParameter { distribution, param } => "Unknown parameter '"@ + param@
            + "' for distribution '"@ + distribution@ + "'"@,
        GamlssError::FamilyMismatch { expected, actual } => "Family mismatch: model was fit with "@
            + expected@ + " but predict was called with a different family ("@ + actual@ + ")"@,
        GamlssError::Internal(s) => "Internal error: "@ + s@,
        GamlssError::MissingVariable { name } => "Variable '"@ + name@ + "' not found in data"@,
        GamlssError::NonFiniteValues { name, count } => "Variable '"@ + name@ + "' contains "@
            + spec_decimal(count as nat) + " non-finite values (NaN or Inf)"@,
        GamlssError::MissingFormula { param } =>
            "Formula missing terms for distribution parameter '"@ + param@ + "'"@,
        GamlssError::EmptyData => "Empty dataset: no observations provided"@,
    }
}

impl GamlssError {
    /// The human-readable message of this error.
    pub fn message(&self) -> (r: String)
        ensures
            r@ == error_message(*self),
    {
        let mut out = String::new();
        match self {
            GamlssError::Optimization(s) => {
                out.append("Optimization failed: ");
                out.append(s.as_str());
            },
            GamlssError::Linalg(s) => {
                out.append("Linear algebra error: ");
                out.append(s.as_str());
            },
            GamlssError::PosteriorNotPositiveDefinite => {
                out.append("Posterior covariance is not positive definite (Cholesky failed)");
            },
            GamlssError::Shape(s) => {
                out.append("Array shape error: ");
                out.append(s.as_str());
            },
            GamlssError::Convergence(n) => {
                out.append("RS algorithm failed to converge after ");
                let d = decimal_text(*n);
                out.append(d.as_str());
                out.append(" iterations");
            },
            GamlssError::Input(s) => {
                out.append("Invalid input: ");
                out.append(s.as_str());
            },
            GamlssError::UnknownParameter { distribution, param } => {
                out.append("Unknown parameter '");
                out.append(param.as_str());
                out.append("' for distribution '");
                out.append(distribution.as_str());
                out.append("'");
            },
            GamlssError::FamilyMismatch { expected, actual } => {
                out.append("Family mismatch: model was fit with ");
                out.append(expected.as_str());
                out.append(" but predict was called with a different family (");
                out.append(actual.as_str());
                out.append(")");
            },
            GamlssError::Internal(s) => {
                out.append("Internal error: ");
                out.append(s.as_str());
            },
            GamlssError::MissingVariable { name } => {
                out.append("Variable '");
                out.append(name.as_str());
                out.append("' not found in data");
            },
            GamlssError::NonFiniteValues { name, count } => {
                out.append("Variable '");
                out.append(name.as_str());
                out.append("' contains ");
                let d = decimal_text(*count);
                out.append(d.as_str());
                out.append(" non-finite values (NaN or Inf)");
            },
            GamlssError::MissingFormula { param } => {
                out.append("Formula missing terms for distribution parameter '");
                out.append(param.as_str());
                out.append("'");
            },
            GamlssError::EmptyData => {
                out.append("Empty dataset: no observations provided");
            },
        }
        assert(out@ =~= error_message(*self));
        out
    }
}

/// Carries an `ndarray` shape error through verified code.
#[verifier::external_type_specification]
#[verifier::external_body]
pub struct ExShapeError(ndarray::ShapeError);

/// Carries the optimizer's error (`argmin::core::Error`, an `anyhow::Error`).
#[verifier::external_type_specification]
#[verifier::external_body]
pub struct ExOptimizationError(argmin::core::Error);

/// The kinds of array shape error that `ndarray` distinguishes.
#[derive(Debug, Clone, Copy, PartialEq, Eq, Structural)]
pub enum ShapeErrorKind {
    IncompatibleShape,
    IncompatibleLayout,
    RangeLimited,
    OutOfBounds,
    Unsupported,
    Overflow,
}

/// The text `ndarray` displays for a shape error of kind `k`:
/// `"ShapeError/<kind>: <description>"`.
pub open spec fn shape_error_display(k: ShapeErrorKind) -> Seq<char> {
    match k {
        ShapeErrorKind::IncompatibleShape => "ShapeError/IncompatibleShape: incompatible shapes"@,
        ShapeErrorKind::IncompatibleLayout =>
            "ShapeError/IncompatibleLayout: incompatible memory layout"@,
        ShapeErrorKind::RangeLimited =>
            "ShapeError/RangeLimited: the shape does not fit in type limits"@,
        ShapeErrorKind::OutOfBounds => "ShapeError/OutOfBounds: out of bounds indexing"@,
        ShapeErrorKind::Unsupported => "ShapeError/Unsupported: unsupported operation"@,
        ShapeErrorKind::Overflow => "ShapeError/Overflow: arithmetic overflow"@,
    }
}

/// The text `ndarray` displays for shape error `e`.
pub uninterp spec fn shape_text(e: ndarray::ShapeError) -> Seq<char>;

/// The alternate `Display` text of optimizer error `e` (`format!("{:#}", e)`):
/// the error's message followed by `": "` and the message of each error in its
/// source chain.
pub uninterp spec fn chain_text(e: argmin::core::Error) -> Seq<char>;

/// The `Display` text of an `ndarray::ShapeError` (`err.to_string()`).
///
/// `ndarray` writes `"ShapeError/{kind:?}: {description}"`, which depends on the
/// error's kind alone: one of six fixed texts.
#[verifier::external_body]
fn shape_error_text(err: &ndarray::ShapeError) -> (r: String)
    ensures
        r@ == shape_text(*err),
        exists|k: ShapeErrorKind| r@ == shape_error_display(k),
{
    err.to_string()
}

/// The alternate `Display` of an `anyhow::Error` (`format!("{:#}", e)`), which
/// walks the whole source chain ("outer: inner: ...").
#[verifier::external_body]
fn optimization_error_text(err: &argmin::core::Error) -> (r: String)
    ensures
        r@ == chain_text(*err),
{
    format!("{:#}", err)
}

impl GamlssError {
    /// Converts an array shape error, keeping its displayed text.
    pub fn from_shape_error(err: &ndarray::ShapeError) -> (r: GamlssError)
        ensures
            r matches GamlssError::Shape(s) && s@ == shape_text(*err),
            exists|k: ShapeErrorKind| shape_text(*err) == shape_error_display(k),
    {
        GamlssError::Shape(shape_error_text(err))
    }

    /// Converts an optimizer error, keeping the text of its full source chain.
    pub fn from_optimization_error(err: &argmin::core::Error) -> (r: GamlssError)
        ensures
            r matches GamlssError::Optimization(s) && s@ == chain_text(*err),
    {
        GamlssError::Optimization(optimization_error_text(err))
    }
}

/// The message of the error that `check_state_len` reports.
pub open spec fn state_len_message(name: Seq<char>, stored: nat, n: nat) -> Seq<char> {
    name + " length "@ + spec_decimal(stored) + " does not match response length "@
        + spec_decimal(n)
}

/// Rejects a response whose length `n` differs from the length `stored` of a
/// wrapper's per-row state; `name` names the wrapper and the field
/// (e.g. `"Censored: status"`).
pub fn check_state_len(name: &str, stored: usize, n: usize) -> (r: Result<(), GamlssError>)
    ensures
        r is Ok <==> stored == n,
        r matches Err(e) ==> (e matches GamlssError::Input(m) && m@ == state_len_message(
            name@,
            stored as nat,
            n as nat,
        )),
{
    if stored != n {
        let mut m = name.to_owned();
        m.append(" length ");
        let a = decimal_text(stored);
        m.append(a.as_str());
        m.append(" does not match response length ");
        let b = decimal_text(n);
        m.append(b.as_str());
        assert(m@ =~= state_len_message(name@, stored as nat, n as nat));
        return Err(GamlssError::Input(m));
    }
    Ok(())
}

} // verus!
