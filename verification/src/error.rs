//! The error taxonomy of the interchange layer. Every failure is a
//! structural validation failure, returned to the immediate caller;
//! nothing is retried or logged.

use vstd::prelude::*;

verus! {

/// Why an interchange operation refused its input.
#[derive(Clone, Copy, PartialEq, Eq, Structural, Debug)]
pub enum MatError {
    /// The requested scalar type's depth tag does not equal the buffer's
    /// declared depth tag.
    DepthMismatch,
    /// The buffer's memory is not one flat run, so it cannot be viewed as
    /// a flat slice without copying.
    NonContiguous,
    /// A shape with no axes was given where a channel axis split was
    /// required.
    EmptyShape,
    /// The element count implied by a shape disagrees with the length of
    /// the flat data it is meant to describe.
    ShapeMismatch,
}

impl MatError {
    /// A short human-readable description of the error.
    pub fn describe(self) -> (r: &'static str)
    {
        match self {
            MatError::DepthMismatch => "element type mismatch",
            MatError::NonContiguous => "buffer memory must be continuous",
            MatError::EmptyShape => "shape has no axes",
            MatError::ShapeMismatch => "shape disagrees with element count",
        }
    }
}

} // verus!
