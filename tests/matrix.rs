use neural_network::Matrix;

fn rows_of(m: &Matrix<i64>) -> Vec<Vec<i64>> {
    m.rows().clone()
}

#[test]
fn matrix_from_rows_keeps_shape_and_entries() {
    let m = Matrix::from_rows(vec![vec![1, 2, 3], vec![4, 5, 6]], 3).unwrap();
    assert_eq!(m.shape(), (2, 3));
    assert_eq!(m.nrows(), 2);
    assert_eq!(m.ncols(), 3);
    assert_eq!(*m.get(1, 2), 6);
    assert_eq!(*m.get(0, 1), 2);
}

#[test]
fn matrix_from_rows_refuses_ragged_rows() {
    assert!(Matrix::from_rows(vec![vec![1, 2, 3], vec![4, 5]], 3).is_none());
    assert!(Matrix::from_rows(vec![vec![1, 2], vec![4, 5]], 3).is_none());
}

#[test]
fn matrix_without_rows_keeps_its_width() {
    let m: Matrix<i64> = Matrix::from_rows(Vec::new(), 4).unwrap();
    assert_eq!(m.shape(), (0, 4));
    let p = m.prepend_column(1);
    assert_eq!(p.shape(), (0, 5));
}

#[test]
fn matrix_prepend_column_puts_value_first() {
    let m = Matrix::from_rows(vec![vec![7, 8], vec![9, 10], vec![11, 12]], 2).unwrap();
    let p = m.prepend_column(1);
    assert_eq!(p.shape(), (3, 3));
    assert_eq!(rows_of(&p), vec![vec![1, 7, 8], vec![1, 9, 10], vec![1, 11, 12]]);
    assert_eq!(rows_of(&m), vec![vec![7, 8], vec![9, 10], vec![11, 12]]);
}

#[test]
fn matrix_prepend_column_on_empty_rows() {
    let m: Matrix<i64> = Matrix::from_rows(vec![Vec::new(), Vec::new()], 0).unwrap();
    let p = m.prepend_column(5);
    assert_eq!(p.shape(), (2, 1));
    assert_eq!(rows_of(&p), vec![vec![5], vec![5]]);
}

#[test]
fn matrix_duplicate_is_equal_and_independent() {
    let m = Matrix::from_rows(vec![vec![1, 2], vec![3, 4]], 2).unwrap();
    let d = m.duplicate();
    assert_eq!(d.shape(), m.shape());
    assert_eq!(rows_of(&d), rows_of(&m));
}
