use matrix::Layer;
use matrix::LayerShape;
use matrix::Matrix;
use matrix::MatrixError;
use matrix::MatrixShape;

fn get(m: &Matrix, row: usize, col: usize) -> i64 {
    m.get(row, col).unwrap()
}

#[test]
fn layer_shape_parse_accepts_positive_sizes() {
    let s = LayerShape::parse(3, 2).unwrap();
    assert_eq!(s.input_size, 3);
    assert_eq!(s.output_size, 2);
}

#[test]
fn layer_shape_parse_rejects_zero_sizes() {
    assert_eq!(
        LayerShape::parse(0, 2).unwrap_err(),
        MatrixError::DimensionError { rows: 0, cols: 2 }
    );
    assert_eq!(
        LayerShape::parse(5, 0).unwrap_err(),
        MatrixError::DimensionError { rows: 5, cols: 0 }
    );
}

#[test]
fn layer_zeros_allocates_zero_parameters() {
    let l = Layer::zeros(3, 2).unwrap();
    assert_eq!(
        l.shape,
        LayerShape {
            input_size: 3,
            output_size: 2,
        }
    );
    assert_eq!(l.weights.shape, MatrixShape { rows: 3, cols: 2 });
    assert_eq!(l.biases.shape, MatrixShape { rows: 1, cols: 2 });
    for row in 0..3 {
        for col in 0..2 {
            assert_eq!(get(&l.weights, row, col), 0);
        }
    }
    for col in 0..2 {
        assert_eq!(get(&l.biases, 0, col), 0);
    }
}

#[test]
fn layer_zeros_rejects_zero_sizes() {
    assert_eq!(
        Layer::zeros(5, 0).unwrap_err(),
        MatrixError::DimensionError { rows: 5, cols: 0 }
    );
    assert_eq!(
        Layer::zeros(0, 5).unwrap_err(),
        MatrixError::DimensionError { rows: 0, cols: 5 }
    );
}

#[test]
fn layer_randomize_draws_every_parameter_from_unit_range() {
    let l = Layer::zeros(3, 2).unwrap().randomize().unwrap();
    assert_eq!(
        l.shape,
        LayerShape {
            input_size: 3,
            output_size: 2,
        }
    );
    for row in 0..3 {
        for col in 0..2 {
            let v = get(&l.weights, row, col);
            assert!(-1 <= v && v < 1);
        }
    }
    for col in 0..2 {
        let v = get(&l.biases, 0, col);
        assert!(-1 <= v && v < 1);
    }
}

#[test]
fn forward_of_zero_layer_is_zero() {
    let l = Layer::zeros(3, 2).unwrap();
    let input = Matrix::new(1, 3, vec![7, -9, 4]).unwrap();
    let out = l.forward(input).unwrap();
    assert_eq!(out.shape, MatrixShape { rows: 1, cols: 2 });
    assert_eq!(get(&out, 0, 0), 0);
    assert_eq!(get(&out, 0, 1), 0);
}

#[test]
fn forward_computes_affine_map() {
    let mut l = Layer::zeros(2, 2).unwrap();
    // weights [[1, 2], [3, 4]], biases [10, 20]
    l.weights.set(0, 0, 1).unwrap();
    l.weights.set(0, 1, 2).unwrap();
    l.weights.set(1, 0, 3).unwrap();
    l.weights.set(1, 1, 4).unwrap();
    l.biases.set(0, 0, 10).unwrap();
    l.biases.set(0, 1, 20).unwrap();
    let input = Matrix::new(1, 2, vec![5, 6]).unwrap();
    let out = l.forward(input).unwrap();
    assert_eq!(out.shape, MatrixShape { rows: 1, cols: 2 });
    // [5*1 + 6*3 + 10, 5*2 + 6*4 + 20]
    assert_eq!(get(&out, 0, 0), 33);
    assert_eq!(get(&out, 0, 1), 54);
}

#[test]
fn forward_rejects_input_width_mismatch() {
    let l = Layer::zeros(3, 2).unwrap();
    let input = Matrix::new(1, 2, vec![1, 2]).unwrap();
    assert_eq!(
        l.forward(input).unwrap_err(),
        MatrixError::DimensionMismatchError { left: 2, right: 3 }
    );
}

#[test]
fn forward_rejects_multi_row_input() {
    let l = Layer::zeros(3, 2).unwrap();
    let input = Matrix::zeros(2, 3).unwrap();
    assert_eq!(
        l.forward(input).unwrap_err(),
        MatrixError::ShapeMismatchError {
            left_rows: 2,
            left_cols: 2,
            right_rows: 1,
            right_cols: 2,
        }
    );
}

#[test]
fn apply_gradients_subtracts_scaled_gradients() {
    let mut l = Layer::zeros(2, 2).unwrap();
    let weight_gradients = Matrix::new(2, 2, vec![1, 2, 3, 4]).unwrap();
    let bias_gradients = Matrix::new(1, 2, vec![1, 1]).unwrap();
    l.apply_gradients(weight_gradients, bias_gradients, 2).unwrap();
    assert_eq!(get(&l.weights, 0, 0), -2);
    assert_eq!(get(&l.weights, 0, 1), -4);
    assert_eq!(get(&l.weights, 1, 0), -6);
    assert_eq!(get(&l.weights, 1, 1), -8);
    assert_eq!(get(&l.biases, 0, 0), -2);
    assert_eq!(get(&l.biases, 0, 1), -2);
}

#[test]
fn apply_gradients_rejects_weight_shape_mismatch_untouched() {
    let mut l = Layer::zeros(2, 2).unwrap();
    let weight_gradients = Matrix::new(1, 2, vec![1, 2]).unwrap();
    let bias_gradients = Matrix::new(1, 2, vec![1, 1]).unwrap();
    let r = l.apply_gradients(weight_gradients, bias_gradients, 2);
    assert!(matches!(r, Err(MatrixError::ShapeMismatchError { .. })));
    for row in 0..2 {
        for col in 0..2 {
            assert_eq!(get(&l.weights, row, col), 0);
        }
    }
    assert_eq!(get(&l.biases, 0, 0), 0);
    assert_eq!(get(&l.biases, 0, 1), 0);
}

#[test]
fn apply_gradients_bias_mismatch_updates_weights_only() {
    let mut l = Layer::zeros(2, 2).unwrap();
    let weight_gradients = Matrix::new(2, 2, vec![1, 2, 3, 4]).unwrap();
    let bias_gradients = Matrix::new(2, 1, vec![1, 1]).unwrap();
    let r = l.apply_gradients(weight_gradients, bias_gradients, 1);
    assert!(matches!(r, Err(MatrixError::ShapeMismatchError { .. })));
    // the weights were already replaced when the bias shapes were compared
    assert_eq!(get(&l.weights, 0, 0), -1);
    assert_eq!(get(&l.weights, 1, 1), -4);
    // the biases were left alone
    assert_eq!(get(&l.biases, 0, 0), 0);
    assert_eq!(get(&l.biases, 0, 1), 0);
}
