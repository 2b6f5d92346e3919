use matrix::add_matrices;
use matrix::dot_matrices;
use matrix::sub_matrices;
use matrix::Matrix;
use matrix::MatrixError;

fn a() -> Matrix<i32> {
    Matrix { rows: 2, cols: 2, data: vec![2, 3, 54, 5] }
}

fn b() -> Matrix<i32> {
    Matrix { rows: 2, cols: 2, data: vec![4, 3, 1, 6] }
}

fn three_by_three() -> Matrix<i32> {
    Matrix { rows: 3, cols: 3, data: vec![1, 2, 3, 4, 5, 6, 7, 8, 9] }
}

fn filled(rows: usize, cols: usize, value: i32) -> Matrix<i32> {
    Matrix { rows, cols, data: vec![value; rows * cols] }
}

#[test]
fn add_matrices_adds_cell_by_cell() {
    let sum = add_matrices(&a(), &b()).unwrap();
    assert_eq!(sum.data, vec![6, 6, 55, 11]);
    assert_eq!((sum.rows, sum.cols), (2, 2));
}

#[test]
fn sub_matrices_subtracts_cell_by_cell() {
    let difference = sub_matrices(&a(), &b()).unwrap();
    assert_eq!(difference.data, vec![-2, 0, 53, -1]);
    assert_eq!((difference.rows, difference.cols), (2, 2));
}

#[test]
fn dot_matrices_multiplies_cell_by_cell() {
    let product = dot_matrices(&a(), &b()).unwrap();
    assert_eq!(product.data, vec![8, 9, 54, 30]);
    assert_eq!((product.rows, product.cols), (2, 2));
}

#[test]
fn dot_matrices_is_not_the_row_by_column_product() {
    let identity: Matrix<i32> = Matrix { rows: 2, cols: 2, data: vec![1, 0, 0, 1] };
    let product = dot_matrices(&a(), &identity).unwrap();
    assert_eq!(product.data, vec![2, 0, 0, 5]);
}

#[test]
fn pure_operations_leave_their_operands_untouched() {
    let left = a();
    let right = b();
    let _ = add_matrices(&left, &right);
    let _ = sub_matrices(&left, &right);
    let _ = dot_matrices(&left, &right);
    assert_eq!(left.data, vec![2, 3, 54, 5]);
    assert_eq!(right.data, vec![4, 3, 1, 6]);
}

#[test]
fn entries_of_results_combine_the_entries_of_the_operands() {
    let left = Matrix::<i32> { rows: 2, cols: 3, data: vec![9, -4, 0, 12, 7, -30] };
    let right = Matrix::<i32> { rows: 2, cols: 3, data: vec![1, 2, 3, -4, -5, -6] };
    let sum = add_matrices(&left, &right).unwrap();
    let difference = sub_matrices(&left, &right).unwrap();
    let product = dot_matrices(&left, &right).unwrap();
    for row in 1..=2 {
        for col in 1..=3 {
            let x = left.get(row, col).unwrap();
            let y = right.get(row, col).unwrap();
            assert_eq!(sum.get(row, col), Ok(x + y));
            assert_eq!(difference.get(row, col), Ok(x - y));
            assert_eq!(product.get(row, col), Ok(x * y));
        }
    }
    assert_eq!(sum.get(2, 1), Ok(8));
    assert_eq!(difference.get(2, 1), Ok(16));
    assert_eq!(product.get(2, 1), Ok(-48));
}

#[test]
fn addition_and_multiplication_commute() {
    let ab = add_matrices(&a(), &b()).unwrap();
    let ba = add_matrices(&b(), &a()).unwrap();
    assert_eq!(ab.data, ba.data);
    assert_eq!(ba.data, vec![6, 6, 55, 11]);

    let ab = dot_matrices(&a(), &b()).unwrap();
    let ba = dot_matrices(&b(), &a()).unwrap();
    assert_eq!(ab.data, ba.data);
    assert_eq!(ba.data, vec![8, 9, 54, 30]);
}

#[test]
fn swapping_the_operands_of_a_subtraction_negates_it() {
    let ab = sub_matrices(&a(), &b()).unwrap();
    let ba = sub_matrices(&b(), &a()).unwrap();
    assert_eq!(ba.data, vec![2, 0, -53, 1]);
    let negated: Vec<i32> = ba.data.iter().map(|x| -x).collect();
    assert_eq!(ab.data, negated);
    assert_ne!(ab.data, ba.data);
}

#[test]
fn adding_zeros_changes_nothing() {
    let sum = add_matrices(&a(), &filled(2, 2, 0)).unwrap();
    assert_eq!(sum.data, vec![2, 3, 54, 5]);
    let sum = add_matrices(&filled(2, 2, 0), &a()).unwrap();
    assert_eq!(sum.data, vec![2, 3, 54, 5]);
}

#[test]
fn multiplying_by_ones_changes_nothing() {
    let product = dot_matrices(&a(), &filled(2, 2, 1)).unwrap();
    assert_eq!(product.data, vec![2, 3, 54, 5]);
    let product = dot_matrices(&filled(2, 2, 1), &a()).unwrap();
    assert_eq!(product.data, vec![2, 3, 54, 5]);
}

#[test]
fn two_by_two_and_three_by_three_do_not_combine() {
    assert_eq!(add_matrices(&a(), &three_by_three()).err(), Some(MatrixError::ShapeMismatch));
    assert_eq!(sub_matrices(&a(), &three_by_three()).err(), Some(MatrixError::ShapeMismatch));
    assert_eq!(dot_matrices(&a(), &three_by_three()).err(), Some(MatrixError::ShapeMismatch));
    assert_eq!(add_matrices(&three_by_three(), &a()).err(), Some(MatrixError::ShapeMismatch));
    assert_eq!(sub_matrices(&three_by_three(), &a()).err(), Some(MatrixError::ShapeMismatch));
    assert_eq!(dot_matrices(&three_by_three(), &a()).err(), Some(MatrixError::ShapeMismatch));
}

#[test]
fn in_place_operations_refuse_a_mismatch_and_change_nothing() {
    let mut left = a();
    assert_eq!(left.add_matrix(&three_by_three()), Err(MatrixError::ShapeMismatch));
    assert_eq!(left.data, vec![2, 3, 54, 5]);
    assert_eq!((left.rows, left.cols), (2, 2));
    assert_eq!(left.sub_matrix(&three_by_three()), Err(MatrixError::ShapeMismatch));
    assert_eq!(left.data, vec![2, 3, 54, 5]);
    assert_eq!((left.rows, left.cols), (2, 2));
}

#[test]
fn same_cell_count_is_not_the_same_shape() {
    let wide: Matrix<i32> = Matrix { rows: 2, cols: 3, data: vec![1, 2, 3, 4, 5, 6] };
    let tall: Matrix<i32> = Matrix { rows: 3, cols: 2, data: vec![1, 2, 3, 4, 5, 6] };
    assert_eq!(add_matrices(&wide, &tall).err(), Some(MatrixError::ShapeMismatch));
    assert_eq!(sub_matrices(&wide, &tall).err(), Some(MatrixError::ShapeMismatch));
    assert_eq!(dot_matrices(&tall, &wide).err(), Some(MatrixError::ShapeMismatch));
    let mut receiver: Matrix<i32> = Matrix { rows: 2, cols: 3, data: vec![1, 2, 3, 4, 5, 6] };
    assert_eq!(receiver.add_matrix(&tall), Err(MatrixError::ShapeMismatch));
    assert_eq!(receiver.data, vec![1, 2, 3, 4, 5, 6]);
}

#[test]
fn columns_are_compared_with_columns() {
    // The left operand has as many columns as the right one has rows, and
    // the row counts agree; the column counts differ.
    let left: Matrix<i32> = Matrix { rows: 2, cols: 2, data: vec![1, 2, 3, 4] };
    let right: Matrix<i32> = Matrix { rows: 2, cols: 3, data: vec![1, 2, 3, 4, 5, 6] };
    assert_eq!(add_matrices(&left, &right).err(), Some(MatrixError::ShapeMismatch));
    let mut receiver: Matrix<i32> = Matrix { rows: 2, cols: 2, data: vec![1, 2, 3, 4] };
    assert_eq!(receiver.add_matrix(&right), Err(MatrixError::ShapeMismatch));
    assert_eq!(receiver.sub_matrix(&right), Err(MatrixError::ShapeMismatch));
    assert_eq!(receiver.data, vec![1, 2, 3, 4]);
}

#[test]
fn non_square_matrices_of_one_shape_combine() {
    let left: Matrix<i32> = Matrix { rows: 2, cols: 3, data: vec![1, 2, 3, 4, 5, 6] };
    let right: Matrix<i32> = Matrix { rows: 2, cols: 3, data: vec![6, 5, 4, 3, 2, 1] };
    assert_eq!(add_matrices(&left, &right).unwrap().data, vec![7, 7, 7, 7, 7, 7]);
    assert_eq!(sub_matrices(&left, &right).unwrap().data, vec![-5, -3, -1, 1, 3, 5]);
    assert_eq!(dot_matrices(&left, &right).unwrap().data, vec![6, 10, 12, 12, 10, 6]);

    let mut receiver: Matrix<i32> = Matrix { rows: 2, cols: 3, data: vec![1, 2, 3, 4, 5, 6] };
    assert_eq!(receiver.add_matrix(&right), Ok(()));
    assert_eq!(receiver.data, vec![7, 7, 7, 7, 7, 7]);
    assert_eq!((receiver.rows, receiver.cols), (2, 3));
    assert_eq!(receiver.sub_matrix(&right), Ok(()));
    assert_eq!(receiver.data, vec![1, 2, 3, 4, 5, 6]);
    assert_eq!((receiver.rows, receiver.cols), (2, 3));
}

#[test]
fn in_place_addition_matches_add_matrices() {
    let fresh = add_matrices(&a(), &b()).unwrap();
    let mut receiver = a();
    assert_eq!(receiver.add_matrix(&b()), Ok(()));
    assert_eq!(receiver.data, fresh.data);
    assert_eq!(receiver.data, vec![6, 6, 55, 11]);
}

#[test]
fn in_place_subtraction_matches_sub_matrices() {
    let fresh = sub_matrices(&a(), &b()).unwrap();
    let mut receiver = a();
    assert_eq!(receiver.sub_matrix(&b()), Ok(()));
    assert_eq!(receiver.data, fresh.data);
    assert_eq!(receiver.data, vec![-2, 0, 53, -1]);
}

#[test]
fn errors_compare_and_copy() {
    let e = MatrixError::ShapeMismatch;
    let copy = e;
    assert_eq!(e, copy);
    assert_ne!(MatrixError::ShapeMismatch, MatrixError::IndexOutOfRange);
    assert_eq!(format!("{:?}", MatrixError::IndexOutOfRange), "IndexOutOfRange");
}
