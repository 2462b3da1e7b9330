use matrix::Axis;
use matrix::Matrix;
use matrix::MatrixError;
use matrix::MatrixShape;

fn get(m: &Matrix, row: usize, col: usize) -> i64 {
    m.get(row, col).unwrap()
}

#[test]
fn shape_parse_accepts_positive_dimensions() {
    let s = MatrixShape::parse(2, 3).unwrap();
    assert_eq!(s.rows, 2);
    assert_eq!(s.cols, 3);
}

#[test]
fn shape_parse_rejects_zero_dimensions() {
    assert_eq!(
        MatrixShape::parse(0, 3).unwrap_err(),
        MatrixError::DimensionError { rows: 0, cols: 3 }
    );
    assert_eq!(
        MatrixShape::parse(3, 0).unwrap_err(),
        MatrixError::DimensionError { rows: 3, cols: 0 }
    );
}

#[test]
fn shape_validate_equal_accepts_matching_shapes() {
    let a = MatrixShape::parse(2, 3).unwrap();
    let b = MatrixShape::parse(2, 3).unwrap();
    let s = MatrixShape::validate_equal(&a, &b).unwrap();
    assert_eq!(s, a);
}

#[test]
fn shape_validate_equal_rejects_differing_shapes() {
    let a = MatrixShape::parse(2, 3).unwrap();
    let b = MatrixShape::parse(3, 2).unwrap();
    assert_eq!(
        MatrixShape::validate_equal(&a, &b).unwrap_err(),
        MatrixError::ShapeMismatchError {
            left_rows: 2,
            left_cols: 3,
            right_rows: 3,
            right_cols: 2,
        }
    );
}

#[test]
fn shape_validate_dot_product_result_builds_outer_shape() {
    let a = MatrixShape::parse(2, 3).unwrap();
    let b = MatrixShape::parse(3, 4).unwrap();
    let s = MatrixShape::validate_dot_product_result(&a, &b).unwrap();
    assert_eq!(s, MatrixShape { rows: 2, cols: 4 });
}

#[test]
fn shape_validate_dot_product_result_rejects_inner_mismatch() {
    let a = MatrixShape::parse(2, 3).unwrap();
    let b = MatrixShape::parse(2, 2).unwrap();
    assert_eq!(
        MatrixShape::validate_dot_product_result(&a, &b).unwrap_err(),
        MatrixError::DimensionMismatchError { left: 3, right: 2 }
    );
}

#[test]
fn new_stores_elements_row_major() {
    let m = Matrix::new(2, 3, vec![1, 2, 3, 4, 5, 6]).unwrap();
    assert_eq!(m.shape, MatrixShape { rows: 2, cols: 3 });
    assert_eq!(get(&m, 0, 0), 1);
    assert_eq!(get(&m, 0, 2), 3);
    assert_eq!(get(&m, 1, 0), 4);
    assert_eq!(get(&m, 1, 2), 6);
}

#[test]
fn new_rejects_empty_elements() {
    assert_eq!(
        Matrix::new(2, 2, vec![]).unwrap_err(),
        MatrixError::EmptyInputError
    );
    // emptiness is reported before the zero dimension
    assert_eq!(
        Matrix::new(0, 2, vec![]).unwrap_err(),
        MatrixError::EmptyInputError
    );
}

#[test]
fn new_rejects_zero_dimension() {
    assert_eq!(
        Matrix::new(0, 2, vec![1, 2]).unwrap_err(),
        MatrixError::DimensionError { rows: 0, cols: 2 }
    );
}

#[test]
fn new_rejects_wrongly_sized_elements() {
    assert_eq!(
        Matrix::new(2, 2, vec![1, 2, 3]).unwrap_err(),
        MatrixError::DimensionMismatchError { left: 4, right: 3 }
    );
}

#[test]
fn zeros_fills_with_additive_identity() {
    let m = Matrix::zeros(2, 3).unwrap();
    assert_eq!(m.shape, MatrixShape { rows: 2, cols: 3 });
    for row in 0..2 {
        for col in 0..3 {
            assert_eq!(get(&m, row, col), 0);
        }
    }
}

#[test]
fn zeros_rejects_zero_dimension() {
    assert_eq!(
        Matrix::zeros(0, 5).unwrap_err(),
        MatrixError::DimensionError { rows: 0, cols: 5 }
    );
    assert_eq!(
        Matrix::zeros(5, 0).unwrap_err(),
        MatrixError::DimensionError { rows: 5, cols: 0 }
    );
}

#[test]
fn get_rejects_out_of_bounds_per_axis() {
    let m = Matrix::zeros(3, 3).unwrap();
    assert_eq!(
        m.get(3, 0).unwrap_err(),
        MatrixError::OutOfBoundsError {
            axis: Axis::Row,
            index: 3,
            bound: 2,
        }
    );
    assert_eq!(
        m.get(0, 3).unwrap_err(),
        MatrixError::OutOfBoundsError {
            axis: Axis::Col,
            index: 3,
            bound: 2,
        }
    );
    assert!(m.get(2, 2).is_ok());
}

#[test]
fn set_overwrites_a_single_cell() {
    let mut m = Matrix::zeros(2, 2).unwrap();
    m.set(1, 0, 7).unwrap();
    assert_eq!(get(&m, 1, 0), 7);
    assert_eq!(get(&m, 0, 0), 0);
    assert_eq!(get(&m, 0, 1), 0);
    assert_eq!(get(&m, 1, 1), 0);
}

#[test]
fn set_rejects_out_of_bounds_and_leaves_matrix_unchanged() {
    let mut m = Matrix::new(2, 2, vec![1, 2, 3, 4]).unwrap();
    assert_eq!(
        m.set(2, 0, 9),
        Err(MatrixError::OutOfBoundsError {
            axis: Axis::Row,
            index: 2,
            bound: 1,
        })
    );
    assert_eq!(get(&m, 0, 0), 1);
    assert_eq!(get(&m, 1, 1), 4);
}

#[test]
fn add_is_elementwise() {
    let a = Matrix::new(2, 2, vec![1, 2, 3, 4]).unwrap();
    let b = Matrix::new(2, 2, vec![10, 20, 30, 40]).unwrap();
    let s = a.add(&b).unwrap();
    assert_eq!(s.shape, a.shape);
    assert_eq!(get(&s, 0, 0), 11);
    assert_eq!(get(&s, 0, 1), 22);
    assert_eq!(get(&s, 1, 0), 33);
    assert_eq!(get(&s, 1, 1), 44);
}

#[test]
fn add_rejects_shape_mismatch() {
    let a = Matrix::zeros(2, 3).unwrap();
    let b = Matrix::zeros(3, 2).unwrap();
    assert_eq!(
        a.add(&b).unwrap_err(),
        MatrixError::ShapeMismatchError {
            left_rows: 2,
            left_cols: 3,
            right_rows: 3,
            right_cols: 2,
        }
    );
}

#[test]
fn sub_is_elementwise() {
    let a = Matrix::new(2, 2, vec![10, 20, 30, 40]).unwrap();
    let b = Matrix::new(2, 2, vec![1, 2, 3, 4]).unwrap();
    let d = a.sub(&b).unwrap();
    assert_eq!(get(&d, 0, 0), 9);
    assert_eq!(get(&d, 0, 1), 18);
    assert_eq!(get(&d, 1, 0), 27);
    assert_eq!(get(&d, 1, 1), 36);
}

#[test]
fn sub_rejects_shape_mismatch() {
    let a = Matrix::zeros(1, 2).unwrap();
    let b = Matrix::zeros(2, 1).unwrap();
    assert!(matches!(
        a.sub(&b),
        Err(MatrixError::ShapeMismatchError { .. })
    ));
}

#[test]
fn mul_is_elementwise() {
    let a = Matrix::new(2, 2, vec![1, 2, 3, 4]).unwrap();
    let b = Matrix::new(2, 2, vec![5, 6, 7, 8]).unwrap();
    let p = a.mul(&b).unwrap();
    assert_eq!(get(&p, 0, 0), 5);
    assert_eq!(get(&p, 0, 1), 12);
    assert_eq!(get(&p, 1, 0), 21);
    assert_eq!(get(&p, 1, 1), 32);
}

#[test]
fn mul_rejects_shape_mismatch() {
    let a = Matrix::zeros(1, 2).unwrap();
    let b = Matrix::zeros(2, 1).unwrap();
    assert!(matches!(
        a.mul(&b),
        Err(MatrixError::ShapeMismatchError { .. })
    ));
}

#[test]
fn scale_multiplies_every_element() {
    let a = Matrix::new(2, 2, vec![1, -2, 3, -4]).unwrap();
    let s = a.scale(3).unwrap();
    assert_eq!(s.shape, a.shape);
    assert_eq!(get(&s, 0, 0), 3);
    assert_eq!(get(&s, 0, 1), -6);
    assert_eq!(get(&s, 1, 0), 9);
    assert_eq!(get(&s, 1, 1), -12);
}

#[test]
fn add_self_equals_scale_by_two() {
    let a = Matrix::new(2, 3, vec![1, -2, 3, -4, 5, -6]).unwrap();
    let doubled = a.add(&a).unwrap();
    let scaled = a.scale(2).unwrap();
    assert_eq!(doubled.shape, scaled.shape);
    for row in 0..2 {
        for col in 0..3 {
            assert_eq!(get(&doubled, row, col), get(&scaled, row, col));
        }
    }
}

#[test]
fn transpose_swaps_rows_and_columns() {
    let a = Matrix::new(2, 3, vec![1, 2, 3, 4, 5, 6]).unwrap();
    let t = a.transpose().unwrap();
    assert_eq!(t.shape, MatrixShape { rows: 3, cols: 2 });
    for row in 0..2 {
        for col in 0..3 {
            assert_eq!(get(&t, col, row), get(&a, row, col));
        }
    }
}

#[test]
fn transpose_is_involutive() {
    let a = Matrix::new(2, 3, vec![1, 2, 3, 4, 5, 6]).unwrap();
    let back = a.transpose().unwrap().transpose().unwrap();
    assert_eq!(back.shape, a.shape);
    for row in 0..2 {
        for col in 0..3 {
            assert_eq!(get(&back, row, col), get(&a, row, col));
        }
    }
}

#[test]
fn dot_two_by_two_product() {
    let a = Matrix::new(2, 2, vec![1, 2, 3, 4]).unwrap();
    let b = Matrix::new(2, 2, vec![5, 6, 7, 8]).unwrap();
    let p = a.dot(&b).unwrap();
    assert_eq!(p.shape, MatrixShape { rows: 2, cols: 2 });
    assert_eq!(get(&p, 0, 0), 19);
    assert_eq!(get(&p, 0, 1), 22);
    assert_eq!(get(&p, 1, 0), 43);
    assert_eq!(get(&p, 1, 1), 50);
}

#[test]
fn dot_has_outer_shape() {
    let a = Matrix::zeros(2, 3).unwrap();
    let b = Matrix::zeros(3, 4).unwrap();
    let p = a.dot(&b).unwrap();
    assert_eq!(p.shape, MatrixShape { rows: 2, cols: 4 });
}

#[test]
fn dot_with_identity_changes_nothing() {
    let a = Matrix::new(2, 2, vec![1, 2, 3, 4]).unwrap();
    let identity = Matrix::new(2, 2, vec![1, 0, 0, 1]).unwrap();
    let p = a.dot(&identity).unwrap();
    assert_eq!(p.shape, a.shape);
    for row in 0..2 {
        for col in 0..2 {
            assert_eq!(get(&p, row, col), get(&a, row, col));
        }
    }
}

#[test]
fn dot_rejects_inner_dimension_mismatch() {
    let a = Matrix::zeros(2, 3).unwrap();
    let b = Matrix::zeros(2, 2).unwrap();
    assert_eq!(
        a.dot(&b).unwrap_err(),
        MatrixError::DimensionMismatchError { left: 3, right: 2 }
    );
}

#[test]
fn sum_rows_adds_each_column() {
    let a = Matrix::new(2, 2, vec![1, 2, 3, 4]).unwrap();
    let s = a.sum_rows().unwrap();
    assert_eq!(s.shape, MatrixShape { rows: 1, cols: 2 });
    assert_eq!(get(&s, 0, 0), 4);
    assert_eq!(get(&s, 0, 1), 6);
}

#[test]
fn randomize_keeps_shape_and_draws_from_unit_range() {
    let m = Matrix::zeros(4, 5).unwrap().randomize().unwrap();
    assert_eq!(m.shape, MatrixShape { rows: 4, cols: 5 });
    for row in 0..4 {
        for col in 0..5 {
            let v = get(&m, row, col);
            assert!(-1 <= v && v < 1);
        }
    }
}
