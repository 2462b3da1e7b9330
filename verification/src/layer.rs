//! A thin feed-forward layer over the matrix engine: a weight matrix of
//! shape `(input_size, output_size)`, a row bias of shape `(1, output_size)`,
//! a linear forward pass `input.dot(weights).add(biases)`, and gradient
//! application `parameter := parameter - scaled gradient`.

use vstd::prelude::*;

use crate::error::MatrixError;
use crate::matrix::all_zero;
use crate::matrix::dot_sum;
use crate::matrix::fits_i64;
use crate::matrix::Matrix;
use crate::shape::MatrixShape;

verus! {

/// The validated `(input_size, output_size)` pair of a layer. A value
/// produced by [`LayerShape::parse`] has both sizes strictly positive.
#[derive(Debug, Clone, Copy, PartialEq, Eq, Structural)]
pub struct LayerShape {
    pub input_size: usize,
    pub output_size: usize,
}

impl LayerShape {
    /// Both sizes are strictly positive.
    pub open spec fn valid(self) -> bool {
        self.input_size > 0 && self.output_size > 0
    }

    /// Validating factory: rejects a zero input or output size.
    pub fn parse(input_size: usize, output_size: usize) -> (r: Result<LayerShape, MatrixError>)
        ensures
            r is Ok <==> input_size > 0 && output_size > 0,
            r matches Ok(s) ==> s == (LayerShape { input_size, output_size }),
            r matches Err(e) ==> e == (MatrixError::DimensionError {
                rows: input_size,
                cols: output_size,
            }),
    {
        if input_size == 0 || output_size == 0 {
            return Err(MatrixError::DimensionError { rows: input_size, cols: output_size });
        }
        Ok(LayerShape { input_size, output_size })
    }
}

/// A linear layer `y = x . W + b` with weights `W` of shape
/// `(input_size, output_size)` and row bias `b` of shape `(1, output_size)`.
#[derive(Debug, Clone)]
pub struct Layer {
    pub shape: LayerShape,
    pub weights: Matrix,
    pub biases: Matrix,
}

/// `y` is the forward pass of layer `l` on the `(1, input_size)` row `x`:
/// column `j` of `y` is the inner product of `x` with column `j` of the
/// weights, plus bias `j`.
pub open spec fn forward_result(l: Layer, x: Matrix, y: Matrix) -> bool {
    &&& y.shape == (MatrixShape { rows: 1, cols: l.shape.output_size })
    &&& y@.len() == l.shape.output_size
    &&& forall|j: int|
        0 <= j < l.shape.output_size ==> y.val(0, j) == dot_sum(
            x,
            l.weights,
            0,
            j,
            l.shape.input_size as int,
        ) + l.biases.val(0, j)
}

impl Layer {
    /// Well-formedness: a valid layer shape, well-formed weights of shape
    /// `(input_size, output_size)`, and a well-formed row bias of shape
    /// `(1, output_size)`.
    pub open spec fn wf(self) -> bool {
        &&& self.shape.valid()
        &&& self.weights.wf()
        &&& self.biases.wf()
        &&& self.weights.shape == (MatrixShape {
            rows: self.shape.input_size,
            cols: self.shape.output_size,
        })
        &&& self.biases.shape == (MatrixShape { rows: 1, cols: self.shape.output_size })
    }

    /// Zero-filled factory: validates both sizes, then allocates all-zero
    /// weights and biases.
    pub fn zeros(input_size: usize, output_size: usize) -> (r: Result<Layer, MatrixError>)
        requires
            input_size * output_size <= usize::MAX,
        ensures
            r is Ok <==> input_size > 0 && output_size > 0,
            r matches Ok(l) ==> l.wf() && l.shape == (LayerShape { input_size, output_size })
                && all_zero(l.weights) && all_zero(l.biases),
            r matches Err(e) ==> e == (MatrixError::DimensionError {
                rows: input_size,
                cols: output_size,
            }),
    {
        let shape = match LayerShape::parse(input_size, output_size) {
            Ok(s) => s,
            Err(e) => {
                return Err(e);
            },
        };
        let weights = match Matrix::zeros(input_size, output_size) {
            Ok(m) => m,
            Err(e) => {
                return Err(e);
            },
        };
        let biases = match Matrix::zeros(1, output_size) {
            Ok(m) => m,
            Err(e) => {
                return Err(e);
            },
        };
        Ok(Layer { shape, weights, biases })
    }

    /// Consumes the layer and returns it with every weight and bias
    /// overwritten by an independent draw from the injected random source
    /// over `[-1, 1)`.
    pub fn randomize(self) -> (r: Result<Layer, MatrixError>)
        requires
            self.wf(),
        ensures
            r is Ok,
            r matches Ok(l) ==> l.wf() && l.shape == self.shape && (forall|i: int|
                0 <= i < l.weights@.len() ==> -1 <= #[trigger] l.weights@[i] < 1) && (forall|i: int|
                0 <= i < l.biases@.len() ==> -1 <= #[trigger] l.biases@[i] < 1),
    {
        let weights = match self.weights.randomize() {
            Ok(m) => m,
            Err(e) => {
                return Err(e);
            },
        };
        let biases = match self.biases.randomize() {
            Ok(m) => m,
            Err(e) => {
                return Err(e);
            },
        };
        Ok(Layer { shape: self.shape, weights, biases })
    }

    /// The layer's only forward computation: `in_data.dot(weights).add(biases)`,
    /// with no activation function. Errors from the underlying operations
    /// propagate unchanged.
    pub fn forward(&self, in_data: Matrix) -> (r: Result<Matrix, MatrixError>)
        requires
            self.wf(),
            in_data.wf(),
            in_data.shape.cols == self.shape.input_size ==> in_data.shape.rows
                * self.shape.output_size <= usize::MAX,
            in_data.shape.cols == self.shape.input_size ==> forall|i: int, j: int, k: int|
                0 <= i < in_data.shape.rows && 0 <= j < self.shape.output_size && 0 <= k
                    < self.shape.input_size ==> fits_i64(
                    #[trigger] (in_data.val(i, k) * self.weights.val(k, j)),
                ),
            in_data.shape.cols == self.shape.input_size ==> forall|i: int, j: int, n: int|
                0 <= i < in_data.shape.rows && 0 <= j < self.shape.output_size && 0 <= n
                    <= self.shape.input_size ==> fits_i64(
                    #[trigger] dot_sum(in_data, self.weights, i, j, n),
                ),
            in_data.shape.cols == self.shape.input_size && in_data.shape.rows == 1 ==> forall|
                j: int,
            |
                0 <= j < self.shape.output_size ==> fits_i64(
                    dot_sum(in_data, self.weights, 0, j, self.shape.input_size as int)
                        + self.biases.val(0, j),
                ),
        ensures
            r is Ok <==> in_data.shape.cols == self.shape.input_size && in_data.shape.rows == 1,
            r matches Ok(m) ==> m.wf() && forward_result(*self, in_data, m),
            in_data.shape.cols != self.shape.input_size ==> r == Err::<Matrix, MatrixError>(
                MatrixError::DimensionMismatchError {
                    left: in_data.shape.cols,
                    right: self.shape.input_size,
                },
            ),
            in_data.shape.cols == self.shape.input_size && in_data.shape.rows != 1 ==> r == Err::<
                Matrix,
                MatrixError,
            >(
                MatrixError::ShapeMismatchError {
                    left_rows: in_data.shape.rows,
                    left_cols: self.shape.output_size,
                    right_rows: 1,
                    right_cols: self.shape.output_size,
                },
            ),
    {
        let activation = match in_data.dot(&self.weights) {
            Ok(m) => m,
            Err(e) => {
                return Err(e);
            },
        };
        proof {
            if activation.shape == self.biases.shape {
                assert forall|t: int| 0 <= t < activation@.len() implies fits_i64(
                    activation@[t] + self.biases@[t],
                ) by {
                    assert(activation.val(0, t) == activation@[t]);
                    assert(self.biases.val(0, t) == self.biases@[t]);
                }
            }
        }
        let out = match activation.add(&self.biases) {
            Ok(m) => m,
            Err(e) => {
                return Err(e);
            },
        };
        proof {
            assert forall|j: int| 0 <= j < self.shape.output_size implies out.val(0, j) == dot_sum(
                in_data,
                self.weights,
                0,
                j,
                self.shape.input_size as int,
            ) + self.biases.val(0, j) by {
                assert(out.val(0, j) == out@[j]);
                assert(activation.val(0, j) == activation@[j]);
                assert(self.biases.val(0, j) == self.biases@[j]);
            }
        }
        Ok(out)
    }

    /// Replaces each parameter with itself minus the learning-rate-scaled
    /// gradient. The weights are updated first; a bias-gradient shape
    /// mismatch therefore leaves the biases alone with the weights already
    /// replaced, exactly as the underlying operations propagate.
    pub fn apply_gradients(
        &mut self,
        weight_gradients: Matrix,
        bias_gradients: Matrix,
        learning_rate: i64,
    ) -> (r: Result<(), MatrixError>)
        requires
            old(self).wf(),
            weight_gradients.wf(),
            bias_gradients.wf(),
            forall|i: int|
                0 <= i < weight_gradients@.len() ==> fits_i64(
                    #[trigger] weight_gradients@[i] * learning_rate,
                ),
            weight_gradients.shape == old(self).weights.shape ==> forall|i: int|
                0 <= i < old(self).weights@.len() ==> fits_i64(
                    #[trigger] old(self).weights@[i] - weight_gradients@[i] * learning_rate,
                ),
            weight_gradients.shape == old(self).weights.shape ==> forall|i: int|
                0 <= i < bias_gradients@.len() ==> fits_i64(
                    #[trigger] bias_gradients@[i] * learning_rate,
                ),
            weight_gradients.shape == old(self).weights.shape && bias_gradients.shape == old(self).biases.shape ==> forall|i: int|
                0 <= i < old(self).biases@.len() ==> fits_i64(
                    #[trigger] old(self).biases@[i] - bias_gradients@[i] * learning_rate,
                ),
        ensures
            r is Ok <==> weight_gradients.shape == old(self).weights.shape
                && bias_gradients.shape == old(self).biases.shape,
            final(self).shape == old(self).shape,
            weight_gradients.shape != old(self).weights.shape ==> *final(self) == *old(self) && r
                == Err::<(), MatrixError>(
                MatrixError::ShapeMismatchError {
                    left_rows: old(self).weights.shape.rows,
                    left_cols: old(self).weights.shape.cols,
                    right_rows: weight_gradients.shape.rows,
                    right_cols: weight_gradients.shape.cols,
                },
            ),
            weight_gradients.shape == old(self).weights.shape ==> final(self).wf() && final(self).weights.shape == old(self).weights.shape && final(self).weights@.len() == old(self).weights@.len() && forall|i: int|
                0 <= i < old(self).weights@.len() ==> final(self).weights@[i] == old(self).weights@[i] - weight_gradients@[i] * learning_rate,
            weight_gradients.shape == old(self).weights.shape && bias_gradients.shape != old(self).biases.shape ==> final(self).biases == old(self).biases && r == Err::<
                (),
                MatrixError,
            >(
                MatrixError::ShapeMismatchError {
                    left_rows: old(self).biases.shape.rows,
                    left_cols: old(self).biases.shape.cols,
                    right_rows: bias_gradients.shape.rows,
                    right_cols: bias_gradients.shape.cols,
                },
            ),
            r is Ok ==> final(self).biases.shape == old(self).biases.shape && final(self).biases@.len() == old(self).biases@.len() && forall|i: int|
                0 <= i < old(self).biases@.len() ==> final(self).biases@[i] == old(self).biases@[i] - bias_gradients@[i] * learning_rate,
    {
        let scaled_weight_gradients = match weight_gradients.scale(learning_rate) {
            Ok(m) => m,
            Err(e) => {
                return Err(e);
            },
        };
        let new_weights = match self.weights.sub(&scaled_weight_gradients) {
            Ok(m) => m,
            Err(e) => {
                return Err(e);
            },
        };
        self.weights = new_weights;
        let scaled_bias_gradients = match bias_gradients.scale(learning_rate) {
            Ok(m) => m,
            Err(e) => {
                return Err(e);
            },
        };
        let new_biases = match self.biases.sub(&scaled_bias_gradients) {
            Ok(m) => m,
            Err(e) => {
                return Err(e);
            },
        };
        self.biases = new_biases;
        Ok(())
    }
}

} // verus!
