use matrix::Matrix;
use matrix::MatrixError;

#[test]
pub fn it_works() {
    let matrix1 = Matrix::from_vec(vec![1, 2, 3, 4, 5, 6], 2, 3);
    let matrix2 = Matrix::from_vec(vec![1, 2, 3, 4, 5, 6], 3, 2);
    let zero_matrix = matrix1.scale(0);
    let result = matrix1.multiply(&matrix2).unwrap();

    assert_eq!(result, Matrix::from_vec_vec(vec![vec![22, 28], vec![49, 64]]));
    assert_eq!(zero_matrix, Matrix::new(zero_matrix.rows(), zero_matrix.cols(), 0));
}

#[test]
fn multiplication_known_product() {
    let a = Matrix::from_vec_vec(vec![vec![1, 2, 3], vec![4, 5, 6]]);
    let b = Matrix::from_vec_vec(vec![vec![1, 2], vec![3, 4], vec![5, 6]]);
    let c = a.multiply(&b).unwrap();
    assert_eq!(c.rows(), 2);
    assert_eq!(c.cols(), 2);
    assert_eq!(c.get(0, 0), 22);
    assert_eq!(c.get(0, 1), 28);
    assert_eq!(c.get(1, 0), 49);
    assert_eq!(c.get(1, 1), 64);
}

#[test]
fn scale_zero_gives_zero_matrix() {
    let m = Matrix::from_vec_vec(vec![vec![3, -1, 4], vec![-1, 5, 9]]);
    let z = m.scale(0);
    assert_eq!(z.rows(), m.rows());
    assert_eq!(z.cols(), m.cols());
    for i in 0..z.rows() {
        for j in 0..z.cols() {
            assert_eq!(z.get(i, j), 0);
        }
    }
}

#[test]
fn scale_exact_values() {
    let m = Matrix::from_vec_vec(vec![vec![1, -2], vec![0, 7]]);
    let r = m.scale(3);
    assert_eq!(r.get(0, 0), 3);
    assert_eq!(r.get(0, 1), -6);
    assert_eq!(r.get(1, 0), 0);
    assert_eq!(r.get(1, 1), 21);
    let neg = m.scale(-1);
    assert_eq!(neg.get(0, 1), 2);
    assert_eq!(neg.get(1, 1), -7);
    // the operand itself is unchanged
    assert_eq!(m.get(0, 0), 1);
    assert_eq!(m.get(1, 1), 7);
}

#[test]
fn dimension_mismatch_is_recoverable() {
    let a = Matrix::new(2, 3, 1);
    let b = Matrix::new(2, 2, 1);
    let r = a.multiply(&b);
    assert_eq!(r, Err(MatrixError::DimensionMismatch));
}

#[test]
fn from_rows_round_trip() {
    let data = vec![vec![11, -22, 33], vec![44, 55, -66], vec![0, 1, 2], vec![7, 8, 9]];
    let m = Matrix::from_vec_vec(data.clone());
    assert_eq!(m.rows(), data.len());
    assert_eq!(m.cols(), data[0].len());
    for i in 0..data.len() {
        for j in 0..data[i].len() {
            assert_eq!(m.get(i, j), data[i][j]);
        }
    }
}

#[test]
fn from_vec_reshapes_row_major() {
    let flat = vec![10, 20, 30, 40, 50, 60];
    let m = Matrix::from_vec(flat.clone(), 2, 3);
    assert_eq!(m.rows(), 2);
    assert_eq!(m.cols(), 3);
    for i in 0..2 {
        for j in 0..3 {
            assert_eq!(m.get(i, j), flat[i * 3 + j]);
        }
    }
}

#[test]
fn new_fills_uniformly() {
    let m = Matrix::new(3, 2, 9);
    assert_eq!(m.rows(), 3);
    assert_eq!(m.cols(), 2);
    for i in 0..3 {
        for j in 0..2 {
            assert_eq!(m.get(i, j), 9);
        }
    }
}

#[test]
fn set_overwrites_single_element() {
    let mut m = Matrix::new(2, 2, 5);
    m.set(1, 0, -8);
    assert_eq!(m.get(1, 0), -8);
    assert_eq!(m.get(0, 0), 5);
    assert_eq!(m.get(0, 1), 5);
    assert_eq!(m.get(1, 1), 5);
    assert_eq!(m.rows(), 2);
    assert_eq!(m.cols(), 2);
}

#[test]
fn zero_dimension_matrices() {
    let empty_rows = Matrix::new(0, 4, 0);
    assert_eq!(empty_rows.rows(), 0);
    assert_eq!(empty_rows.cols(), 4);

    // an empty inner dimension gives the empty sum, a zero matrix
    let a = Matrix::new(2, 0, 0);
    let b = Matrix::new(0, 3, 0);
    let c = a.multiply(&b).unwrap();
    assert_eq!(c.rows(), 2);
    assert_eq!(c.cols(), 3);
    for i in 0..2 {
        for j in 0..3 {
            assert_eq!(c.get(i, j), 0);
        }
    }
}

#[test]
fn one_by_one_product() {
    let a = Matrix::new(1, 1, 6);
    let b = Matrix::new(1, 1, 7);
    let c = a.multiply(&b).unwrap();
    assert_eq!(c.get(0, 0), 42);
}

#[test]
fn negative_values_multiply() {
    let a = Matrix::from_vec_vec(vec![vec![-1, 2], vec![3, -4]]);
    let b = Matrix::from_vec_vec(vec![vec![5, -6], vec![-7, 8]]);
    let c = a.multiply(&b).unwrap();
    assert_eq!(c.get(0, 0), -19);
    assert_eq!(c.get(0, 1), 22);
    assert_eq!(c.get(1, 0), 43);
    assert_eq!(c.get(1, 1), -50);
}
