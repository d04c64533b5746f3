use matrix::{Matrix, MatrixElement, MatrixError};

fn m(rows: Vec<Vec<i64>>) -> Matrix<i64> {
    Matrix::from_vec(rows).unwrap()
}

#[test]
fn build_size_is_width_times_height() {
    for (w, h) in [(1usize, 1usize), (1, 5), (4, 1), (3, 7), (10, 10)] {
        let a = Matrix::build(0i64, w, h).unwrap();
        assert_eq!(a.size(), w * h);
        assert_eq!(a.width(), w);
        assert_eq!(a.height(), h);
    }
}

#[test]
fn build_fills_every_cell() {
    let a = Matrix::build(7i32, 3, 2).unwrap();
    for r in 0..2 {
        for c in 0..3 {
            assert_eq!(a.get(r, c), Some(&7));
        }
    }
    assert_eq!(a.get(2, 0), None);
    assert_eq!(a.get(0, 3), None);
}

#[test]
fn build_rejects_zero_dimensions() {
    assert_eq!(Matrix::build(1i64, 0, 3).err(), Some(MatrixError::DimensionError));
    assert_eq!(Matrix::build(1i64, 3, 0).err(), Some(MatrixError::DimensionError));
    assert_eq!(Matrix::build(1i64, 0, 0).err(), Some(MatrixError::DimensionError));
}

#[test]
fn from_vec_rejects_ragged_rows() {
    let r = Matrix::from_vec(vec![vec![1i64, 2], vec![3]]);
    assert_eq!(r.err(), Some(MatrixError::RowSizeMismatchError));
}

#[test]
fn from_vec_rejects_empty_input() {
    let r = Matrix::<i64>::from_vec(vec![]);
    assert_eq!(r.err(), Some(MatrixError::DimensionError));
    let r = Matrix::<i64>::from_vec(vec![vec![]]);
    assert_eq!(r.err(), Some(MatrixError::DimensionError));
}

#[test]
fn from_vec_rejects_late_mismatch() {
    let r = Matrix::from_vec(vec![vec![1i64, 2], vec![3, 4], vec![5, 6, 7]]);
    assert_eq!(r.err(), Some(MatrixError::RowSizeMismatchError));
}

#[test]
fn from_vec_keeps_rows() {
    let a = m(vec![vec![1, 2, 3], vec![4, 5, 6]]);
    assert_eq!(a.width(), 3);
    assert_eq!(a.height(), 2);
    assert_eq!(a.get(1, 2), Some(&6));
    assert_eq!(a.get(0, 1), Some(&2));
}

#[test]
fn scalar_matrix_is_diagonal() {
    let s = Matrix::build_scalar_matrix(2i64, 3).unwrap();
    assert!(s == m(vec![vec![2, 0, 0], vec![0, 2, 0], vec![0, 0, 2]]));
}

#[test]
fn scalar_matrix_rejects_zero_width() {
    assert_eq!(Matrix::build_scalar_matrix(2i64, 0).err(), Some(MatrixError::DimensionError));
}

#[test]
fn product_with_scalar_matrix_is_scaling() {
    let a = m(vec![vec![1, 2, 3], vec![2, 1, 4], vec![7, -3, 2]]);
    let s = Matrix::build_scalar_matrix(2i64, 3).unwrap();
    let left = a.clone() * s;
    let right = a * 2;
    assert!(left == right);
    assert!(right == m(vec![vec![2, 4, 6], vec![4, 2, 8], vec![14, -6, 4]]));
}

#[test]
fn product_of_rectangular_matrices() {
    let a = m(vec![vec![1, 2, 3], vec![4, 5, 6]]);
    let b = m(vec![vec![7, 8], vec![9, 10], vec![11, 12]]);
    let p = a * b;
    assert!(p == m(vec![vec![58, 64], vec![139, 154]]));
}

#[test]
fn product_with_mismatched_inner_dimension_returns_left() {
    let a = m(vec![vec![1, 2, 3], vec![4, 5, 6]]);
    let b = m(vec![vec![1, 2], vec![3, 4]]);
    let p = a.clone() * b;
    assert!(p == a);
}

#[test]
fn scalar_multiply_in_place() {
    let mut a = m(vec![vec![1, -2], vec![3, 0]]);
    a *= -3;
    assert!(a == m(vec![vec![-3, 6], vec![-9, 0]]));
}

#[test]
fn det_of_2x2() {
    assert_eq!(m(vec![vec![2, -3], vec![-3, 2]]).det(), Some(-5));
}

#[test]
fn det_of_3x3_by_sarrus() {
    let a = m(vec![vec![-8, 3, 29], vec![300, 92, 74], vec![3, -145, 0]]);
    assert_eq!(a.det(), Some(-1354678));
}

#[test]
fn det_of_1x1_is_its_entry() {
    assert_eq!(m(vec![vec![-42]]).det(), Some(-42));
}

#[test]
fn det_of_non_square_is_none() {
    assert_eq!(m(vec![vec![1, 2, 3], vec![4, 5, 6]]).det(), None);
    assert_eq!(m(vec![vec![1], vec![2]]).det(), None);
}

#[test]
fn det_of_4x4_uses_row_echelon_diagonal() {
    let a = m(vec![vec![2, 1, 0, 0], vec![4, 3, 1, 0], vec![0, 1, 2, 1], vec![0, 0, 1, 3]]);
    assert_eq!(a.det(), Some(4));
    // the matrix itself is left as it was
    assert!(a == m(vec![vec![2, 1, 0, 0], vec![4, 3, 1, 0], vec![0, 1, 2, 1], vec![0, 0, 1, 3]]));
}

#[test]
fn det_of_4x4_ignores_row_swap_sign() {
    let a = m(vec![vec![0, 1, 0, 0], vec![1, 0, 0, 0], vec![0, 0, 1, 0], vec![0, 0, 0, 1]]);
    assert_eq!(a.det(), Some(1));
}

#[test]
fn row_echelon_skips_zero_column() {
    let mut a = m(vec![vec![0, 1, 2], vec![0, 3, 4], vec![0, 5, 6]]);
    a.to_row_echelon();
    assert!(a == m(vec![vec![0, 1, 2], vec![0, 3, 4], vec![0, 0, 2]]));
    for r in 0..3 {
        assert_eq!(a.get(r, 0), Some(&0));
    }
}

#[test]
fn row_echelon_swaps_in_nonzero_pivot() {
    let mut a = m(vec![vec![0, 2], vec![1, 3]]);
    a.to_row_echelon();
    assert!(a == m(vec![vec![1, 3], vec![0, 2]]));
}

#[test]
fn row_echelon_with_more_rows_than_columns() {
    let mut a = m(vec![vec![1, 2], vec![2, 4], vec![3, 7]]);
    a.to_row_echelon();
    assert!(a == m(vec![vec![1, 2], vec![0, 0], vec![0, 1]]));
}

#[test]
fn row_echelon_with_more_columns_than_rows() {
    let mut a = m(vec![vec![2, 1, 1, 0], vec![4, 3, 3, 1]]);
    a.to_row_echelon();
    assert!(a == m(vec![vec![2, 1, 1, 0], vec![0, 1, 1, 1]]));
}

#[test]
fn row_echelon_of_all_zero_matrix() {
    let mut a = Matrix::build(0i64, 3, 4).unwrap();
    a.to_row_echelon();
    assert!(a == Matrix::build(0i64, 3, 4).unwrap());
}

#[test]
fn add_and_sub_of_equal_shapes() {
    let a = m(vec![vec![1, 2], vec![3, 4]]);
    let b = m(vec![vec![10, 20], vec![30, 40]]);
    assert!(a.clone() + b.clone() == m(vec![vec![11, 22], vec![33, 44]]));
    assert!(b - a == m(vec![vec![9, 18], vec![27, 36]]));
}

#[test]
fn add_and_sub_with_mismatched_shapes_return_left() {
    let a = m(vec![vec![1, 2], vec![3, 4]]);
    let b = m(vec![vec![1, 2, 3], vec![4, 5, 6]]);
    assert!(a.clone() + b.clone() == a);
    assert!(a.clone() - b.clone() == a);
    let c = m(vec![vec![1, 2]]);
    assert!(a.clone() + c.clone() == a);
    assert!(a.clone() - c == a);
}

#[test]
fn add_assign_and_sub_assign() {
    let mut a = m(vec![vec![1, 2], vec![3, 4]]);
    a += m(vec![vec![1, 1], vec![1, 1]]);
    assert!(a == m(vec![vec![2, 3], vec![4, 5]]));
    a -= m(vec![vec![2, 2], vec![2, 2]]);
    assert!(a == m(vec![vec![0, 1], vec![2, 3]]));
    a += m(vec![vec![9]]);
    assert!(a == m(vec![vec![0, 1], vec![2, 3]]));
    a -= m(vec![vec![9, 9, 9], vec![9, 9, 9]]);
    assert!(a == m(vec![vec![0, 1], vec![2, 3]]));
}

#[test]
fn equality_laws() {
    let a = m(vec![vec![1, 2], vec![3, 4]]);
    let b = m(vec![vec![1, 2], vec![3, 4]]);
    let c = m(vec![vec![1, 2], vec![3, 5]]);
    let d = m(vec![vec![1, 2, 0], vec![3, 4, 0]]);
    assert!(a == a);
    assert!(a == b && b == a);
    assert!(a != c && c != a);
    assert!(a != d && d != a);
    assert!(m(vec![vec![1, 2]]) != m(vec![vec![1], vec![2]]));
}

#[test]
fn set_returns_previous_value() {
    let mut a = m(vec![vec![1, 2], vec![3, 4]]);
    assert_eq!(a.set(1, 0, 9), Some(3));
    assert_eq!(a.get(1, 0), Some(&9));
    assert_eq!(a.set(2, 0, 5), None);
    assert_eq!(a.set(0, 2, 5), None);
    assert!(a == m(vec![vec![1, 2], vec![9, 4]]));
}

#[test]
fn swap_rows_in_and_out_of_range() {
    let mut a = m(vec![vec![1, 2], vec![3, 4], vec![5, 6]]);
    a.swap_rows(0, 2);
    assert!(a == m(vec![vec![5, 6], vec![3, 4], vec![1, 2]]));
    a.swap_rows(1, 3);
    assert!(a == m(vec![vec![5, 6], vec![3, 4], vec![1, 2]]));
    a.swap_rows(1, 1);
    assert!(a == m(vec![vec![5, 6], vec![3, 4], vec![1, 2]]));
}

#[test]
fn clone_is_independent() {
    let a = m(vec![vec![1, 2], vec![3, 4]]);
    let mut b = a.clone();
    b.set(0, 0, 100);
    assert_eq!(a.get(0, 0), Some(&1));
    assert_eq!(b.get(0, 0), Some(&100));
}

#[test]
fn integer_arithmetic_wraps() {
    let a = Matrix::from_vec(vec![vec![127i8]]).unwrap();
    let b = Matrix::from_vec(vec![vec![1i8]]).unwrap();
    assert!(a + b == Matrix::from_vec(vec![vec![-128i8]]).unwrap());
    let c = Matrix::from_vec(vec![vec![200u8, 3]]).unwrap() * 2u8;
    assert!(c == Matrix::from_vec(vec![vec![144u8, 6]]).unwrap());
    assert_eq!(i64::MIN.div_value(-1), i64::MIN);
    assert_eq!((-7i64).div_value(2), -3);
    assert_eq!(7u32.div_value(2), 3);
}

#[test]
fn unsigned_matrices() {
    let a = Matrix::from_vec(vec![vec![3u64, 1], vec![4, 2]]).unwrap();
    assert_eq!(a.det(), Some(2));
    let b = Matrix::from_vec(vec![vec![1u32, 2], vec![3, 4]]).unwrap();
    assert!(b.clone() * b == Matrix::from_vec(vec![vec![7u32, 10], vec![15, 22]]).unwrap());
}

#[test]
fn rendering_pads_cells_and_separates_rows() {
    let a = m(vec![vec![1, 2], vec![3, -40]]);
    assert_eq!(a.to_string(), "[ 1  2 ]\n[ 3  -40 ]");
    assert_eq!(m(vec![vec![0]]).to_string(), "[ 0 ]");
    assert_eq!(m(vec![vec![5, 6, 7]]).to_string(), "[ 5  6  7 ]");
}

#[test]
fn element_text_is_decimal() {
    assert_eq!(0i64.to_text(), "0");
    assert_eq!((-7i8).to_text(), "-7");
    assert_eq!(i128::MIN.to_text(), "-170141183460469231731687303715884105728");
    assert_eq!(u128::MAX.to_text(), "340282366920938463463374607431768211455");
    assert_eq!(1234567890u64.to_text(), "1234567890");
    assert_eq!(i64::MIN.to_text(), "-9223372036854775808");
}
