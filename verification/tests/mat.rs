use linreg::mat::{Matrix, Vector, SCALAR_ONE, SCALAR_ZERO};

fn encode(rows: Vec<Vec<f64>>) -> Vec<Vec<u64>> {
    rows.into_iter()
        .map(|r| r.into_iter().map(f64::to_bits).collect())
        .collect()
}

fn decode(rows: Vec<Vec<u64>>) -> Vec<Vec<f64>> {
    rows.into_iter()
        .map(|r| r.into_iter().map(f64::from_bits).collect())
        .collect()
}

#[test]
fn zeros_encodes_zero() {
    let m = Matrix::<2, 3>::zeros();
    let rows = decode(m.to_data());
    assert_eq!(rows, vec![vec![0.0, 0.0, 0.0], vec![0.0, 0.0, 0.0]]);
    assert_eq!(SCALAR_ZERO, 0.0f64.to_bits());
}

#[test]
fn identity_diagonal() {
    assert_eq!(SCALAR_ONE, 1.0f64.to_bits());
    let m = Matrix::<3, 3>::identity();
    let rows = decode(m.to_data());
    let expected = vec![
        vec![1.0, 0.0, 0.0],
        vec![0.0, 1.0, 0.0],
        vec![0.0, 0.0, 1.0],
    ];
    assert_eq!(rows, expected);
}

#[test]
fn from_data_to_data_round_trip() {
    let rows = vec![vec![1.5, -2.25, 0.0], vec![3.0, 4.5, -6.75]];
    let m = Matrix::<2, 3>::from_data(encode(rows.clone()));
    assert_eq!(decode(m.to_data()), rows);
}

#[test]
fn entry_reads_row_then_column() {
    let rows = vec![vec![1.0, 2.0], vec![3.0, 4.0]];
    let m = Matrix::<2, 2>::from_data(encode(rows));
    assert_eq!(f64::from_bits(m.entry(1, 0)), 3.0);
    assert_eq!(f64::from_bits(m.entry(0, 1)), 2.0);
}

#[test]
fn transpose_moves_entries() {
    let rows = vec![vec![1.0, 2.0, 3.0], vec![4.0, 5.0, 6.0]];
    let t = Matrix::<2, 3>::from_data(encode(rows)).transpose();
    let expected = vec![vec![1.0, 4.0], vec![2.0, 5.0], vec![3.0, 6.0]];
    assert_eq!(decode(t.to_data()), expected);
}

#[test]
fn transpose_twice_is_original() {
    let rows = vec![vec![7.5, -1.0, 2.0], vec![0.25, 9.0, -3.5]];
    let m = Matrix::<2, 3>::from_data(encode(rows.clone()));
    let back = m.transpose().transpose();
    assert_eq!(decode(back.to_data()), rows);
}

#[test]
fn from_array_builds_column() {
    let v: Vector<3> = Matrix::from_array(vec![4.0, 3.0, -1.5].into_iter().map(f64::to_bits).collect());
    let rows = decode(v.to_data());
    assert_eq!(rows, vec![vec![4.0], vec![3.0], vec![-1.5]]);
}
