//! Dense row-major matrices of `i64` elements: shape-validated storage,
//! bounds-checked indexing, and the arithmetic and structural operations.
//!
//! The mathematical model of a matrix is its flat element sequence (the view)
//! together with its shape; the logical cell `(row, col)` lives at flat index
//! `row * cols + col`. Each operation's contract pins the whole result
//! elementwise over that model.

use vstd::arithmetic::div_mod::lemma_fundamental_div_mod_converse;
use vstd::prelude::*;

use crate::error::Axis;
use crate::error::MatrixError;
use crate::random;
use crate::shape::MatrixShape;

verus! {

/// `x` is representable as an `i64`.
pub open spec fn fits_i64(x: int) -> bool {
    i64::MIN <= x <= i64::MAX
}

/// A dense matrix in row-major order. Invariant (see [`Matrix::wf`]): the
/// shape is valid and the buffer holds exactly `rows * cols` elements.
#[derive(Debug, Clone)]
pub struct Matrix {
    pub shape: MatrixShape,
    pub elements: Vec<i64>,
}

impl View for Matrix {
    type V = Seq<i64>;

    closed spec fn view(&self) -> Seq<i64> {
        self.elements@
    }
}

impl Matrix {
    /// Well-formedness: a valid (nonzero) shape and a buffer of exactly
    /// `rows * cols` elements. Constructors establish this and every
    /// operation preserves it.
    pub open spec fn wf(self) -> bool {
        &&& self.shape.valid()
        &&& self@.len() == self.shape.rows * self.shape.cols
    }

    /// The element at logical position `(row, col)`.
    pub open spec fn val(self, row: int, col: int) -> i64 {
        self@[row * self.shape.cols + col]
    }
}

/// Every element of `m` is the additive identity.
pub open spec fn all_zero(m: Matrix) -> bool {
    forall|i: int| 0 <= i < m@.len() ==> m@[i] == 0
}

/// `m` is the elementwise sum of the equally shaped `a` and `b`.
pub open spec fn add_result(a: Matrix, b: Matrix, m: Matrix) -> bool {
    &&& m.shape == a.shape
    &&& m@.len() == a@.len()
    &&& forall|i: int| 0 <= i < a@.len() ==> m@[i] == a@[i] + b@[i]
}

/// `m` is the elementwise difference of the equally shaped `a` and `b`.
pub open spec fn sub_result(a: Matrix, b: Matrix, m: Matrix) -> bool {
    &&& m.shape == a.shape
    &&& m@.len() == a@.len()
    &&& forall|i: int| 0 <= i < a@.len() ==> m@[i] == a@[i] - b@[i]
}

/// `m` is the elementwise product of the equally shaped `a` and `b`.
pub open spec fn mul_result(a: Matrix, b: Matrix, m: Matrix) -> bool {
    &&& m.shape == a.shape
    &&& m@.len() == a@.len()
    &&& forall|i: int| 0 <= i < a@.len() ==> m@[i] == a@[i] * b@[i]
}

/// `m` is `a` with every element multiplied by `scalar`.
pub open spec fn scale_result(a: Matrix, scalar: i64, m: Matrix) -> bool {
    &&& m.shape == a.shape
    &&& m@.len() == a@.len()
    &&& forall|i: int| 0 <= i < a@.len() ==> m@[i] == a@[i] * scalar
}

/// `m` is the transpose of `a`: shape `(cols, rows)`, and cell `(c, r)` of
/// `m` equals cell `(r, c)` of `a`.
pub open spec fn transpose_result(a: Matrix, m: Matrix) -> bool {
    &&& m.shape.rows == a.shape.cols
    &&& m.shape.cols == a.shape.rows
    &&& m@.len() == a@.len()
    &&& forall|r: int, c: int|
        0 <= r < a.shape.rows && 0 <= c < a.shape.cols ==> m.val(c, r) == a.val(r, c)
}

/// The sum of the first `n` terms of the inner product of row `i` of `a`
/// with column `j` of `b`, accumulated from the additive identity in
/// ascending index order.
pub open spec fn dot_sum(a: Matrix, b: Matrix, i: int, j: int, n: int) -> int
    decreases n,
{
    if n <= 0 {
        0
    } else {
        dot_sum(a, b, i, j, n - 1) + a.val(i, n - 1) * b.val(n - 1, j)
    }
}

/// `m` is the matrix product of the compatible `a` and `b`: shape
/// `(a.rows, b.cols)`, and cell `(i, j)` is the full inner-product sum.
pub open spec fn dot_result(a: Matrix, b: Matrix, m: Matrix) -> bool {
    &&& m.shape == (MatrixShape { rows: a.shape.rows, cols: b.shape.cols })
    &&& m@.len() == a.shape.rows * b.shape.cols
    &&& forall|i: int, j: int|
        0 <= i < a.shape.rows && 0 <= j < b.shape.cols ==> m.val(i, j) == dot_sum(
            a,
            b,
            i,
            j,
            a.shape.cols as int,
        )
}

/// The sum of the first `n` elements of column `j` of `a`, accumulated from
/// the additive identity in ascending row order.
pub open spec fn col_sum(a: Matrix, j: int, n: int) -> int
    decreases n,
{
    if n <= 0 {
        0
    } else {
        col_sum(a, j, n - 1) + a.val(n - 1, j)
    }
}

/// `m` is the row-sum reduction of `a`: shape `(1, cols)`, and column `j`
/// holds the sum of column `j` of `a` over all rows.
pub open spec fn sum_rows_result(a: Matrix, m: Matrix) -> bool {
    &&& m.shape == (MatrixShape { rows: 1, cols: a.shape.cols })
    &&& m@.len() == a.shape.cols
    &&& forall|j: int| 0 <= j < a.shape.cols ==> m.val(0, j) == col_sum(a, j, a.shape.rows as int)
}

/// A row-major flat index stays below the element count of its matrix.
pub proof fn lemma_flat_index(row: int, col: int, rows: int, cols: int)
    requires
        0 <= row < rows,
        0 <= col < cols,
    ensures
        0 <= row * cols + col < rows * cols,
{
    assert(0 <= row * cols + col < rows * cols) by (nonlinear_arith)
        requires
            0 <= row < rows,
            0 <= col < cols,
    ;
}

impl Matrix {
    /// Explicit constructor from caller-supplied elements. Rejects an empty
    /// buffer, a zero dimension, and a buffer whose length is not exactly
    /// `rows * cols`.
    pub fn new(rows: usize, cols: usize, elements: Vec<i64>) -> (r: Result<Matrix, MatrixError>)
        ensures
            r is Ok <==> elements@.len() > 0 && rows > 0 && cols > 0 && elements@.len() == rows
                * cols,
            r matches Ok(m) ==> m.wf() && m.shape == (MatrixShape { rows, cols }) && m@
                == elements@,
            elements@.len() == 0 ==> r == Err::<Matrix, MatrixError>(MatrixError::EmptyInputError),
            elements@.len() > 0 && (rows == 0 || cols == 0) ==> r == Err::<Matrix, MatrixError>(
                MatrixError::DimensionError { rows, cols },
            ),
            elements@.len() > 0 && rows > 0 && cols > 0 && elements@.len() != rows * cols ==> r
                == Err::<Matrix, MatrixError>(
                MatrixError::DimensionMismatchError {
                    left: if rows * cols > usize::MAX {
                        usize::MAX
                    } else {
                        (rows * cols) as usize
                    },
                    right: elements@.len() as usize,
                },
            ),
    {
        if elements.len() == 0 {
            return Err(MatrixError::EmptyInputError);
        }
        let shape = match MatrixShape::parse(rows, cols) {
            Ok(s) => s,
            Err(e) => {
                return Err(e);
            },
        };
        match rows.checked_mul(cols) {
            Some(count) if count == elements.len() => Ok(Matrix { shape, elements }),
            Some(count) => Err(
                MatrixError::DimensionMismatchError { left: count, right: elements.len() },
            ),
            None => Err(
                MatrixError::DimensionMismatchError { left: usize::MAX, right: elements.len() },
            ),
        }
    }

    /// Zero-fill factory: allocates `rows * cols` additive-identity elements.
    pub fn zeros(rows: usize, cols: usize) -> (r: Result<Matrix, MatrixError>)
        requires
            rows * cols <= usize::MAX,
        ensures
            r is Ok <==> rows > 0 && cols > 0,
            r matches Ok(m) ==> m.wf() && m.shape == (MatrixShape { rows, cols }) && all_zero(m),
            r matches Err(e) ==> e == (MatrixError::DimensionError { rows, cols }),
    {
        let shape = match MatrixShape::parse(rows, cols) {
            Ok(s) => s,
            Err(e) => {
                return Err(e);
            },
        };
        let count = rows * cols;
        let mut elements: Vec<i64> = Vec::new();
        let mut k: usize = 0;
        while k < count
            invariant
                k <= count,
                elements@.len() == k,
                forall|i: int| 0 <= i < k ==> elements@[i] == 0,
            decreases count - k,
        {
            elements.push(0);
            k = k + 1;
        }
        Ok(Matrix { shape, elements })
    }

    /// Row-major flat offset of `(row, col)`, or the out-of-bounds error
    /// naming the violated axis and its inclusive upper bound.
    fn get_index(&self, row: usize, col: usize) -> (r: Result<usize, MatrixError>)
        requires
            self.wf(),
        ensures
            r is Ok <==> row < self.shape.rows && col < self.shape.cols,
            r matches Ok(i) ==> i == row * self.shape.cols + col && i < self@.len(),
            row >= self.shape.rows ==> r == Err::<usize, MatrixError>(
                MatrixError::OutOfBoundsError {
                    axis: Axis::Row,
                    index: row,
                    bound: (self.shape.rows - 1) as usize,
                },
            ),
            row < self.shape.rows && col >= self.shape.cols ==> r == Err::<usize, MatrixError>(
                MatrixError::OutOfBoundsError {
                    axis: Axis::Col,
                    index: col,
                    bound: (self.shape.cols - 1) as usize,
                },
            ),
    {
        if row >= self.shape.rows {
            return Err(
                MatrixError::OutOfBoundsError {
                    axis: Axis::Row,
                    index: row,
                    bound: self.shape.rows - 1,
                },
            );
        }
        if col >= self.shape.cols {
            return Err(
                MatrixError::OutOfBoundsError {
                    axis: Axis::Col,
                    index: col,
                    bound: self.shape.cols - 1,
                },
            );
        }
        let len = self.elements.len();
        proof {
            lemma_flat_index(row as int, col as int, self.shape.rows as int, self.shape.cols as int);
        }
        assert(row * self.shape.cols + col < len);
        Ok(self.shape.cols * row + col)
    }

    /// The element at `(row, col)`; propagates bounds errors.
    pub fn get(&self, row: usize, col: usize) -> (r: Result<i64, MatrixError>)
        requires
            self.wf(),
        ensures
            r is Ok <==> row < self.shape.rows && col < self.shape.cols,
            r matches Ok(v) ==> v == self.val(row as int, col as int),
            row >= self.shape.rows ==> r == Err::<i64, MatrixError>(
                MatrixError::OutOfBoundsError {
                    axis: Axis::Row,
                    index: row,
                    bound: (self.shape.rows - 1) as usize,
                },
            ),
            row < self.shape.rows && col >= self.shape.cols ==> r == Err::<i64, MatrixError>(
                MatrixError::OutOfBoundsError {
                    axis: Axis::Col,
                    index: col,
                    bound: (self.shape.cols - 1) as usize,
                },
            ),
    {
        let index = match self.get_index(row, col) {
            Ok(i) => i,
            Err(e) => {
                return Err(e);
            },
        };
        Ok(self.elements[index])
    }

    /// Overwrites the element at `(row, col)` in place; the only mutating
    /// operation the library offers on a matrix's contents. On a bounds
    /// error the matrix is left unchanged.
    pub fn set(&mut self, row: usize, col: usize, value: i64) -> (r: Result<(), MatrixError>)
        requires
            old(self).wf(),
        ensures
            final(self).wf(),
            final(self).shape == old(self).shape,
            r is Ok <==> row < old(self).shape.rows && col < old(self).shape.cols,
            r is Ok ==> final(self)@ == old(self)@.update(
                row * old(self).shape.cols + col,
                value,
            ),
            r is Err ==> *final(self) == *old(self),
            row >= old(self).shape.rows ==> r == Err::<(), MatrixError>(
                MatrixError::OutOfBoundsError {
                    axis: Axis::Row,
                    index: row,
                    bound: (old(self).shape.rows - 1) as usize,
                },
            ),
            row < old(self).shape.rows && col >= old(self).shape.cols ==> r == Err::<
                (),
                MatrixError,
            >(
                MatrixError::OutOfBoundsError {
                    axis: Axis::Col,
                    index: col,
                    bound: (old(self).shape.cols - 1) as usize,
                },
            ),
    {
        let index = match self.get_index(row, col) {
            Ok(i) => i,
            Err(e) => {
                return Err(e);
            },
        };
        self.elements.set(index, value);
        Ok(())
    }

    /// Elementwise sum. Requires equal shapes; inputs are untouched and the
    /// output is a fresh matrix.
    pub fn add(&self, other: &Matrix) -> (r: Result<Matrix, MatrixError>)
        requires
            self.wf(),
            other.wf(),
            self.shape == other.shape ==> forall|i: int|
                0 <= i < self@.len() ==> fits_i64(self@[i] + other@[i]),
        ensures
            r is Ok <==> self.shape == other.shape,
            r matches Ok(m) ==> m.wf() && add_result(*self, *other, m),
            self.shape != other.shape ==> r == Err::<Matrix, MatrixError>(
                MatrixError::ShapeMismatchError {
                    left_rows: self.shape.rows,
                    left_cols: self.shape.cols,
                    right_rows: other.shape.rows,
                    right_cols: other.shape.cols,
                },
            ),
    {
        let shape = match MatrixShape::validate_equal(&self.shape, &other.shape) {
            Ok(s) => s,
            Err(e) => {
                return Err(e);
            },
        };
        let len = self.elements.len();
        let mut output_elements: Vec<i64> = Vec::new();
        let mut k: usize = 0;
        while k < len
            invariant
                self.wf(),
                other.wf(),
                self.shape == other.shape,
                forall|i: int| 0 <= i < self@.len() ==> fits_i64(self@[i] + other@[i]),
                len == self@.len(),
                len == other@.len(),
                k <= len,
                output_elements@.len() == k,
                forall|i: int| 0 <= i < k ==> output_elements@[i] == self@[i] + other@[i],
            decreases len - k,
        {
            output_elements.push(self.elements[k] + other.elements[k]);
            k = k + 1;
        }
        Ok(Matrix { shape, elements: output_elements })
    }

    /// Elementwise difference. Requires equal shapes; inputs are untouched
    /// and the output is a fresh matrix.
    pub fn sub(&self, other: &Matrix) -> (r: Result<Matrix, MatrixError>)
        requires
            self.wf(),
            other.wf(),
            self.shape == other.shape ==> forall|i: int|
                0 <= i < self@.len() ==> fits_i64(self@[i] - other@[i]),
        ensures
            r is Ok <==> self.shape == other.shape,
            r matches Ok(m) ==> m.wf() && sub_result(*self, *other, m),
            self.shape != other.shape ==> r == Err::<Matrix, MatrixError>(
                MatrixError::ShapeMismatchError {
                    left_rows: self.shape.rows,
                    left_cols: self.shape.cols,
                    right_rows: other.shape.rows,
                    right_cols: other.shape.cols,
                },
            ),
    {
        let shape = match MatrixShape::validate_equal(&self.shape, &other.shape) {
            Ok(s) => s,
            Err(e) => {
                return Err(e);
            },
        };
        let len = self.elements.len();
        let mut output_elements: Vec<i64> = Vec::new();
        let mut k: usize = 0;
        while k < len
            invariant
                self.wf(),
                other.wf(),
                self.shape == other.shape,
                forall|i: int| 0 <= i < self@.len() ==> fits_i64(self@[i] - other@[i]),
                len == self@.len(),
                len == other@.len(),
                k <= len,
                output_elements@.len() == k,
                forall|i: int| 0 <= i < k ==> output_elements@[i] == self@[i] - other@[i],
            decreases len - k,
        {
            output_elements.push(self.elements[k] - other.elements[k]);
            k = k + 1;
        }
        Ok(Matrix { shape, elements: output_elements })
    }

    /// Elementwise product. Requires equal shapes; inputs are untouched and
    /// the output is a fresh matrix.
    pub fn mul(&self, other: &Matrix) -> (r: Result<Matrix, MatrixError>)
        requires
            self.wf(),
            other.wf(),
            self.shape == other.shape ==> forall|i: int|
                0 <= i < self@.len() ==> fits_i64(self@[i] * other@[i]),
        ensures
            r is Ok <==> self.shape == other.shape,
            r matches Ok(m) ==> m.wf() && mul_result(*self, *other, m),
            self.shape != other.shape ==> r == Err::<Matrix, MatrixError>(
                MatrixError::ShapeMismatchError {
                    left_rows: self.shape.rows,
                    left_cols: self.shape.cols,
                    right_rows: other.shape.rows,
                    right_cols: other.shape.cols,
                },
            ),
    {
        let shape = match MatrixShape::validate_equal(&self.shape, &other.shape) {
            Ok(s) => s,
            Err(e) => {
                return Err(e);
            },
        };
        let len = self.elements.len();
        let mut output_elements: Vec<i64> = Vec::new();
        let mut k: usize = 0;
        while k < len
            invariant
                self.wf(),
                other.wf(),
                self.shape == other.shape,
                forall|i: int| 0 <= i < self@.len() ==> fits_i64(self@[i] * other@[i]),
                len == self@.len(),
                len == other@.len(),
                k <= len,
                output_elements@.len() == k,
                forall|i: int| 0 <= i < k ==> output_elements@[i] == self@[i] * other@[i],
            decreases len - k,
        {
            output_elements.push(self.elements[k] * other.elements[k]);
            k = k + 1;
        }
        Ok(Matrix { shape, elements: output_elements })
    }

    /// Every element multiplied by `scalar`. Never fails; the shape is
    /// copied as-is.
    pub fn scale(&self, scalar: i64) -> (r: Result<Matrix, MatrixError>)
        requires
            self.wf(),
            forall|i: int| 0 <= i < self@.len() ==> fits_i64(self@[i] * scalar),
        ensures
            r is Ok,
            r matches Ok(m) ==> m.wf() && scale_result(*self, scalar, m),
    {
        let len = self.elements.len();
        let mut output_elements: Vec<i64> = Vec::new();
        let mut k: usize = 0;
        while k < len
            invariant
                self.wf(),
                forall|i: int| 0 <= i < self@.len() ==> fits_i64(self@[i] * scalar),
                len == self@.len(),
                k <= len,
                output_elements@.len() == k,
                forall|i: int| 0 <= i < k ==> output_elements@[i] == self@[i] * scalar,
            decreases len - k,
        {
            output_elements.push(self.elements[k] * scalar);
            k = k + 1;
        }
        Ok(Matrix { shape: self.shape, elements: output_elements })
    }

    /// Full re-indexing transpose: a fresh `(cols, rows)` matrix whose cell
    /// `(c, r)` equals this matrix's cell `(r, c)`.
    pub fn transpose(&self) -> (r: Result<Matrix, MatrixError>)
        requires
            self.wf(),
        ensures
            r is Ok,
            r matches Ok(m) ==> m.wf() && transpose_result(*self, m),
    {
        let rows = self.shape.rows;
        let cols = self.shape.cols;
        let shape = match MatrixShape::parse(cols, rows) {
            Ok(s) => s,
            Err(e) => {
                return Err(e);
            },
        };
        let len = self.elements.len();
        let mut output_elements: Vec<i64> = Vec::new();
        let mut c: usize = 0;
        while c < cols
            invariant
                self.wf(),
                rows == self.shape.rows,
                cols == self.shape.cols,
                len == self@.len(),
                c <= cols,
                output_elements@.len() == c * rows,
                forall|t: int|
                    0 <= t < output_elements@.len() ==> #[trigger] output_elements@[t]
                        == self.val(t % (rows as int), t / (rows as int)),
            decreases cols - c,
        {
            let mut r: usize = 0;
            while r < rows
                invariant
                    self.wf(),
                    rows == self.shape.rows,
                    cols == self.shape.cols,
                    len == self@.len(),
                    c < cols,
                    r <= rows,
                    output_elements@.len() == c * rows + r,
                    forall|t: int|
                        0 <= t < output_elements@.len() ==> #[trigger] output_elements@[t]
                            == self.val(t % (rows as int), t / (rows as int)),
                decreases rows - r,
            {
                proof {
                    lemma_flat_index(r as int, c as int, rows as int, cols as int);
                    lemma_fundamental_div_mod_converse(
                        (c * rows + r) as int,
                        rows as int,
                        c as int,
                        r as int,
                    );
                }
                output_elements.push(self.elements[r * cols + c]);
                r = r + 1;
            }
            assert((c + 1) * rows == c * rows + rows) by (nonlinear_arith);
            c = c + 1;
        }
        proof {
            assert(cols * rows == rows * cols) by (nonlinear_arith);
        }
        let output = Matrix { shape, elements: output_elements };
        assert forall|r2: int, c2: int|
            0 <= r2 < self.shape.rows && 0 <= c2 < self.shape.cols implies output.val(c2, r2)
            == self.val(r2, c2) by {
            lemma_flat_index(c2, r2, cols as int, rows as int);
            lemma_fundamental_div_mod_converse(c2 * (rows as int) + r2, rows as int, c2, r2);
        }
        Ok(output)
    }

    /// Standard matrix product: output cell `(i, j)` is the inner product of
    /// row `i` of `self` with column `j` of `other`, accumulated from the
    /// additive identity in ascending order. Requires agreeing inner
    /// dimensions; post-validation accesses are proven in bounds.
    pub fn dot(&self, other: &Matrix) -> (r: Result<Matrix, MatrixError>)
        requires
            self.wf(),
            other.wf(),
            self.shape.cols == other.shape.rows ==> self.shape.rows * other.shape.cols
                <= usize::MAX,
            self.shape.cols == other.shape.rows ==> forall|i: int, j: int, k: int|
                0 <= i < self.shape.rows && 0 <= j < other.shape.cols && 0 <= k < self.shape.cols
                    ==> fits_i64(#[trigger] (self.val(i, k) * other.val(k, j))),
            self.shape.cols == other.shape.rows ==> forall|i: int, j: int, n: int|
                0 <= i < self.shape.rows && 0 <= j < other.shape.cols && 0 <= n <= self.shape.cols
                    ==> fits_i64(#[trigger] dot_sum(*self, *other, i, j, n)),
        ensures
            r is Ok <==> self.shape.cols == other.shape.rows,
            r matches Ok(m) ==> m.wf() && dot_result(*self, *other, m),
            self.shape.cols != other.shape.rows ==> r == Err::<Matrix, MatrixError>(
                MatrixError::DimensionMismatchError {
                    left: self.shape.cols,
                    right: other.shape.rows,
                },
            ),
    {
        let shape = match MatrixShape::validate_dot_product_result(&self.shape, &other.shape) {
            Ok(s) => s,
            Err(e) => {
                return Err(e);
            },
        };
        let rows_a = self.shape.rows;
        let cols_a = self.shape.cols;
        let cols_b = other.shape.cols;
        let len_a = self.elements.len();
        let len_b = other.elements.len();
        let mut output_elements: Vec<i64> = Vec::new();
        let mut i: usize = 0;
        while i < rows_a
            invariant
                self.wf(),
                other.wf(),
                rows_a == self.shape.rows,
                cols_a == self.shape.cols,
                cols_a == other.shape.rows,
                cols_b == other.shape.cols,
                len_a == self@.len(),
                len_b == other@.len(),
                forall|i2: int, j2: int, k2: int|
                    0 <= i2 < rows_a && 0 <= j2 < cols_b && 0 <= k2 < cols_a ==> fits_i64(
                        #[trigger] (self.val(i2, k2) * other.val(k2, j2)),
                    ),
                forall|i2: int, j2: int, n2: int|
                    0 <= i2 < rows_a && 0 <= j2 < cols_b && 0 <= n2 <= cols_a ==> fits_i64(
                        #[trigger] dot_sum(*self, *other, i2, j2, n2),
                    ),
                i <= rows_a,
                output_elements@.len() == i * cols_b,
                forall|t: int|
                    0 <= t < output_elements@.len() ==> #[trigger] output_elements@[t] == dot_sum(
                        *self,
                        *other,
                        t / (cols_b as int),
                        t % (cols_b as int),
                        cols_a as int,
                    ),
            decreases rows_a - i,
        {
            let mut j: usize = 0;
            while j < cols_b
                invariant
                    self.wf(),
                    other.wf(),
                    rows_a == self.shape.rows,
                    cols_a == self.shape.cols,
                    cols_a == other.shape.rows,
                    cols_b == other.shape.cols,
                    len_a == self@.len(),
                    len_b == other@.len(),
                    forall|i2: int, j2: int, k2: int|
                        0 <= i2 < rows_a && 0 <= j2 < cols_b && 0 <= k2 < cols_a ==> fits_i64(
                            #[trigger] (self.val(i2, k2) * other.val(k2, j2)),
                        ),
                    forall|i2: int, j2: int, n2: int|
                        0 <= i2 < rows_a && 0 <= j2 < cols_b && 0 <= n2 <= cols_a ==> fits_i64(
                            #[trigger] dot_sum(*self, *other, i2, j2, n2),
                        ),
                    i < rows_a,
                    j <= cols_b,
                    output_elements@.len() == i * cols_b + j,
                    forall|t: int|
                        0 <= t < output_elements@.len() ==> #[trigger] output_elements@[t]
                            == dot_sum(
                            *self,
                            *other,
                            t / (cols_b as int),
                            t % (cols_b as int),
                            cols_a as int,
                        ),
                decreases cols_b - j,
            {
                let mut accumulator: i64 = 0;
                let mut k: usize = 0;
                while k < cols_a
                    invariant
                        self.wf(),
                        other.wf(),
                        rows_a == self.shape.rows,
                        cols_a == self.shape.cols,
                        cols_a == other.shape.rows,
                        cols_b == other.shape.cols,
                        len_a == self@.len(),
                        len_b == other@.len(),
                        forall|i2: int, j2: int, k2: int|
                            0 <= i2 < rows_a && 0 <= j2 < cols_b && 0 <= k2 < cols_a ==> fits_i64(
                                #[trigger] (self.val(i2, k2) * other.val(k2, j2)),
                            ),
                        forall|i2: int, j2: int, n2: int|
                            0 <= i2 < rows_a && 0 <= j2 < cols_b && 0 <= n2 <= cols_a ==> fits_i64(
                                #[trigger] dot_sum(*self, *other, i2, j2, n2),
                            ),
                        i < rows_a,
                        j < cols_b,
                        k <= cols_a,
                        accumulator == dot_sum(*self, *other, i as int, j as int, k as int),
                    decreases cols_a - k,
                {
                    proof {
                        lemma_flat_index(i as int, k as int, rows_a as int, cols_a as int);
                        lemma_flat_index(k as int, j as int, cols_a as int, cols_b as int);
                        assert(dot_sum(*self, *other, i as int, j as int, (k + 1) as int) == dot_sum(
                            *self,
                            *other,
                            i as int,
                            j as int,
                            k as int,
                        ) + self.val(i as int, k as int) * other.val(k as int, j as int));
                    }
                    let a_ik = self.elements[i * cols_a + k];
                    let b_kj = other.elements[k * cols_b + j];
                    accumulator = accumulator + a_ik * b_kj;
                    k = k + 1;
                }
                proof {
                    lemma_fundamental_div_mod_converse(
                        (i * cols_b + j) as int,
                        cols_b as int,
                        i as int,
                        j as int,
                    );
                }
                output_elements.push(accumulator);
                j = j + 1;
            }
            assert((i + 1) * cols_b == i * cols_b + cols_b) by (nonlinear_arith);
            i = i + 1;
        }
        let output = Matrix { shape, elements: output_elements };
        assert forall|i2: int, j2: int|
            0 <= i2 < self.shape.rows && 0 <= j2 < other.shape.cols implies output.val(i2, j2)
            == dot_sum(*self, *other, i2, j2, self.shape.cols as int) by {
            lemma_flat_index(i2, j2, rows_a as int, cols_b as int);
            lemma_fundamental_div_mod_converse(i2 * (cols_b as int) + j2, cols_b as int, i2, j2);
        }
        Ok(output)
    }

    /// Row-sum reduction: a `(1, cols)` matrix whose column `j` holds the sum
    /// of column `j` over all rows, accumulated from the additive identity in
    /// ascending row order.
    pub fn sum_rows(&self) -> (r: Result<Matrix, MatrixError>)
        requires
            self.wf(),
            forall|j: int, n: int|
                0 <= j < self.shape.cols && 0 <= n <= self.shape.rows ==> fits_i64(
                    #[trigger] col_sum(*self, j, n),
                ),
        ensures
            r is Ok,
            r matches Ok(m) ==> m.wf() && sum_rows_result(*self, m),
    {
        let rows = self.shape.rows;
        let cols = self.shape.cols;
        let len = self.elements.len();
        let shape = match MatrixShape::parse(1, cols) {
            Ok(s) => s,
            Err(e) => {
                return Err(e);
            },
        };
        let mut output_elements: Vec<i64> = Vec::new();
        let mut j: usize = 0;
        while j < cols
            invariant
                self.wf(),
                rows == self.shape.rows,
                cols == self.shape.cols,
                len == self@.len(),
                forall|j2: int, n2: int|
                    0 <= j2 < cols && 0 <= n2 <= rows ==> fits_i64(#[trigger] col_sum(*self, j2, n2)),
                j <= cols,
                output_elements@.len() == j,
                forall|j2: int|
                    0 <= j2 < j ==> #[trigger] output_elements@[j2] == col_sum(
                        *self,
                        j2,
                        rows as int,
                    ),
            decreases cols - j,
        {
            let mut accumulator: i64 = 0;
            let mut i: usize = 0;
            while i < rows
                invariant
                    self.wf(),
                    rows == self.shape.rows,
                    cols == self.shape.cols,
                    len == self@.len(),
                    forall|j2: int, n2: int|
                        0 <= j2 < cols && 0 <= n2 <= rows ==> fits_i64(
                            #[trigger] col_sum(*self, j2, n2),
                        ),
                    j < cols,
                    i <= rows,
                    accumulator == col_sum(*self, j as int, i as int),
                decreases rows - i,
            {
                proof {
                    lemma_flat_index(i as int, j as int, rows as int, cols as int);
                    assert(col_sum(*self, j as int, (i + 1) as int) == col_sum(
                        *self,
                        j as int,
                        i as int,
                    ) + self.val(i as int, j as int));
                }
                accumulator = accumulator + self.elements[i * cols + j];
                i = i + 1;
            }
            output_elements.push(accumulator);
            j = j + 1;
        }
        Ok(Matrix { shape, elements: output_elements })
    }

    /// Consumes the matrix and returns it with every cell overwritten by an
    /// independent draw from the injected random source over `[-1, 1)`.
    pub fn randomize(self) -> (r: Result<Matrix, MatrixError>)
        requires
            self.wf(),
        ensures
            r is Ok,
            r matches Ok(m) ==> m.wf() && m.shape == self.shape && m@.len() == self@.len()
                && forall|i: int| 0 <= i < m@.len() ==> -1 <= #[trigger] m@[i] < 1,
    {
        let mut rng = random::fresh_rng();
        let count = self.elements.len();
        let mut elements: Vec<i64> = Vec::new();
        let mut k: usize = 0;
        while k < count
            invariant
                k <= count,
                elements@.len() == k,
                forall|i: int| 0 <= i < k ==> -1 <= #[trigger] elements@[i] < 1,
            decreases count - k,
        {
            elements.push(random::draw_unit(&mut rng));
            k = k + 1;
        }
        Ok(Matrix { shape: self.shape, elements })
    }
}

} // verus!
