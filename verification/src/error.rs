//! The error taxonomy of the library. Every failing operation reports one of
//! these variants to the caller; nothing aborts.

use vstd::prelude::*;

verus! {

/// The axis of a matrix that an index ran past.
#[derive(Debug, Clone, Copy, PartialEq, Eq, Structural)]
pub enum Axis {
    Row,
    Col,
}

/// Every way an operation of this library can fail.
#[derive(Debug, Clone, Copy, PartialEq, Eq, Structural)]
pub enum MatrixError {
    /// A requested shape has a zero row or column count.
    DimensionError { rows: usize, cols: usize },
    /// Two operands to an elementwise operation have unequal shapes.
    ShapeMismatchError { left_rows: usize, left_cols: usize, right_rows: usize, right_cols: usize },
    /// Two counts that must agree (the inner dimensions of a product, or a
    /// buffer length against a shape) disagree.
    DimensionMismatchError { left: usize, right: usize },
    /// A matrix was constructed from an empty element collection.
    EmptyInputError,
    /// A `get`/`set` index exceeds its axis bound; `bound` is the valid
    /// inclusive upper bound.
    OutOfBoundsError { axis: Axis, index: usize, bound: usize },
}

} // verus!
