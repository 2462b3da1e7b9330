//! Validated `(rows, cols)` pairs. A shape is never constructed with a zero
//! dimension; every matrix operation validates its operand shapes here first.

use vstd::prelude::*;

use crate::error::MatrixError;

verus! {

/// The `(rows, cols)` dimensions of a matrix. A value produced by [`MatrixShape::parse`]
/// has both dimensions strictly positive; equality is structural.
#[derive(Debug, Clone, Copy, PartialEq, Eq, Structural)]
pub struct MatrixShape {
    pub rows: usize,
    pub cols: usize,
}

impl MatrixShape {
    /// Both dimensions are strictly positive.
    pub open spec fn valid(self) -> bool {
        self.rows > 0 && self.cols > 0
    }

    /// Validating factory: rejects a zero row or column count.
    pub fn parse(rows: usize, cols: usize) -> (r: Result<MatrixShape, MatrixError>)
        ensures
            r is Ok <==> rows > 0 && cols > 0,
            r matches Ok(s) ==> s == (MatrixShape { rows, cols }),
            r matches Err(e) ==> e == (MatrixError::DimensionError { rows, cols }),
    {
        if rows == 0 || cols == 0 {
            return Err(MatrixError::DimensionError { rows, cols });
        }
        Ok(MatrixShape { rows, cols })
    }

    /// Demands that two operand shapes agree exactly (elementwise operations),
    /// then revalidates the common shape.
    pub fn validate_equal(shape_a: &MatrixShape, shape_b: &MatrixShape) -> (r: Result<
        MatrixShape,
        MatrixError,
    >)
        ensures
            r is Ok <==> *shape_a == *shape_b && shape_a.valid(),
            r matches Ok(s) ==> s == *shape_a,
            *shape_a != *shape_b ==> r == Err::<MatrixShape, MatrixError>(
                MatrixError::ShapeMismatchError {
                    left_rows: shape_a.rows,
                    left_cols: shape_a.cols,
                    right_rows: shape_b.rows,
                    right_cols: shape_b.cols,
                },
            ),
            *shape_a == *shape_b && !shape_a.valid() ==> r == Err::<MatrixShape, MatrixError>(
                MatrixError::DimensionError { rows: shape_a.rows, cols: shape_a.cols },
            ),
    {
        if shape_a != shape_b {
            return Err(
                MatrixError::ShapeMismatchError {
                    left_rows: shape_a.rows,
                    left_cols: shape_a.cols,
                    right_rows: shape_b.rows,
                    right_cols: shape_b.cols,
                },
            );
        }
        MatrixShape::parse(shape_a.rows, shape_a.cols)
    }

    /// Demands that the inner dimensions of a matrix product agree
    /// (`shape_a.cols == shape_b.rows`), then validates the product's shape
    /// `(shape_a.rows, shape_b.cols)`.
    pub fn validate_dot_product_result(shape_a: &MatrixShape, shape_b: &MatrixShape) -> (r: Result<
        MatrixShape,
        MatrixError,
    >)
        ensures
            r is Ok <==> shape_a.cols == shape_b.rows && shape_a.rows > 0 && shape_b.cols > 0,
            r matches Ok(s) ==> s == (MatrixShape { rows: shape_a.rows, cols: shape_b.cols }),
            shape_a.cols != shape_b.rows ==> r == Err::<MatrixShape, MatrixError>(
                MatrixError::DimensionMismatchError { left: shape_a.cols, right: shape_b.rows },
            ),
            shape_a.cols == shape_b.rows && !(shape_a.rows > 0 && shape_b.cols > 0) ==> r
                == Err::<MatrixShape, MatrixError>(
                MatrixError::DimensionError { rows: shape_a.rows, cols: shape_b.cols },
            ),
    {
        if shape_a.cols != shape_b.rows {
            return Err(
                MatrixError::DimensionMismatchError { left: shape_a.cols, right: shape_b.rows },
            );
        }
        MatrixShape::parse(shape_a.rows, shape_b.cols)
    }
}

} // verus!
