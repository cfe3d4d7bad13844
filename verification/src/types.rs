//! Core error type shared across the crate.
//!
//! Thermodynamic failures originating in `vle-thermo` are wrapped as
//! [`StagesError::Thermo`] with the upstream message preserved, so callers see
//! one error type regardless of which layer failed.

use vstd::prelude::*;

verus! {

/// Errors surfaced by the stages-thermo engine.
#[derive(Debug, Clone)]
pub enum StagesError {
    /// A thermodynamic evaluation failed in the vle-thermo layer. The string
    /// carries the upstream error's text.
    Thermo(String),
    /// A dimension mismatch between, e.g., a composition vector and the
    /// component count, or an input outside its allowed range.
    Dimension(String),
    /// An iterative construction failed to converge within its budget.
    Convergence(String),
    /// The specification cannot be met (at any reflux, say) or is not
    /// supported by the method.
    Infeasible(String),
}

/// The human-readable text of an error: a fixed prefix naming the kind of
/// failure, followed by the detail carried in the variant.
pub open spec fn error_text(e: StagesError) -> Seq<char> {
    match e {
        StagesError::Thermo(m) => "thermo evaluation failed: "@ + m@,
        StagesError::Dimension(m) => "dimension mismatch: "@ + m@,
        StagesError::Convergence(m) => "solver did not converge: "@ + m@,
        StagesError::Infeasible(m) => "infeasible specification: "@ + m@,
    }
}

/// The detail string carried by an error, whatever its kind.
pub open spec fn error_detail(e: StagesError) -> Seq<char> {
    match e {
        StagesError::Thermo(m) => m@,
        StagesError::Dimension(m) => m@,
        StagesError::Convergence(m) => m@,
        StagesError::Infeasible(m) => m@,
    }
}

impl StagesError {
    /// The error's message — what `Display` prints for it: the kind prefix
    /// and then the detail.
    pub fn message(&self) -> (text: String)
        ensures
            text@ == error_text(*self),
    {
        let (prefix, detail) = match self {
            StagesError::Thermo(m) => ("thermo evaluation failed: ", m),
            StagesError::Dimension(m) => ("dimension mismatch: ", m),
            StagesError::Convergence(m) => ("solver did not converge: ", m),
            StagesError::Infeasible(m) => ("infeasible specification: ", m),
        };
        let mut text = prefix.to_owned();
        text.append(detail.as_str());
        text
    }
}

/// Every error's message ends with its detail, so no upstream text is lost
/// when an error is displayed.
pub proof fn law_message_ends_with_detail(e: StagesError)
    ensures
        error_text(e).len() >= error_detail(e).len(),
        error_text(e).subrange(
            error_text(e).len() - error_detail(e).len(),
            error_text(e).len() as int,
        ) == error_detail(e),
{
    let t = error_text(e);
    let d = error_detail(e);
    match e {
        StagesError::Thermo(m) => {
            assert(t.subrange(t.len() - d.len(), t.len() as int) =~= d);
        },
        StagesError::Dimension(m) => {
            assert(t.subrange(t.len() - d.len(), t.len() as int) =~= d);
        },
        StagesError::Convergence(m) => {
            assert(t.subrange(t.len() - d.len(), t.len() as int) =~= d);
        },
        StagesError::Infeasible(m) => {
            assert(t.subrange(t.len() - d.len(), t.len() as int) =~= d);
        },
    }
}

} // verus!
