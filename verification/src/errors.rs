//! Errors of the lowering core.
//!
//! Two categories exist.  An arity error is an ordinary, recoverable
//! compilation error: the construction expression does not carry exactly
//! one argument.  Every other variant is an internal defect: it reports a
//! broken contract between compilation stages — the upstream
//! type-inference stage promised an annotation that is missing or not of
//! the required form — never bad user input, and it aborts the current
//! compilation unit's traversal as the error propagates.

use vstd::prelude::*;

verus! {

/// Why lowering a (sub-)expression failed.
#[derive(Clone, Copy, Debug, PartialEq, Eq, Structural)]
pub enum LoweringError {
    /// The construction expression does not carry exactly one argument.
    /// Recoverable: reported to the caller as a compilation failure.
    ArityError,
    /// An expression node was never type-resolved: its entry is missing
    /// from the type-annotation table.  Internal defect.
    MissingAnnotation,
    /// A success or failure construction site is annotated with a type
    /// that is not a response type.  Internal defect.
    ExpectedResponseType,
    /// A leaf's machine values do not have the shape of its annotated
    /// type.  Internal defect.
    LeafShapeMismatch,
}

impl LoweringError {
    /// Whether the error reports an internal defect — a contract
    /// violation between compilation stages — rather than a recoverable
    /// compilation error attributable to the input.
    pub fn is_internal_defect(&self) -> (r: bool)
        ensures
            r == (*self != LoweringError::ArityError),
    {
        match self {
            LoweringError::ArityError => false,
            _ => true,
        }
    }
}

} // verus!
