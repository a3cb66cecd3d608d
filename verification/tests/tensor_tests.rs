use cnn::tensor::{ConvLayer, ConvOutput, InputMatrix, OutputLayer, OutputVec};

#[test]
fn input_matrix_accepts_full_range_buffer() {
    let mut v: Vec<i64> = vec![0; 10_000];
    v[0] = 10_000;
    v[9_999] = -10_000;
    let m = InputMatrix::from_vec(v).expect("in-range buffer accepted");
    assert_eq!(m.at(0, 0), 10_000);
    assert_eq!(m.at(99, 99), -10_000);
}

#[test]
fn input_matrix_rejects_wrong_length() {
    assert!(InputMatrix::from_vec(vec![0; 9_999]).is_none());
    assert!(InputMatrix::from_vec(vec![0; 10_001]).is_none());
    assert!(InputMatrix::from_vec(Vec::new()).is_none());
}

#[test]
fn input_matrix_rejects_out_of_range_element() {
    let mut v: Vec<i64> = vec![0; 10_000];
    v[5_000] = 10_001;
    assert!(InputMatrix::from_vec(v).is_none());
    let mut w: Vec<i64> = vec![0; 10_000];
    w[0] = -10_001;
    assert!(InputMatrix::from_vec(w).is_none());
}

#[test]
fn filter_bank_checks_length_and_range() {
    assert!(ConvLayer::from_vec(vec![1; 250]).is_some());
    assert!(ConvLayer::from_vec(vec![1; 249]).is_none());
    assert!(ConvLayer::from_vec(vec![10_001; 250]).is_none());
}

#[test]
fn projection_weights_check_length_and_range() {
    assert!(OutputLayer::from_vec(vec![-10_000; 40_000]).is_some());
    assert!(OutputLayer::from_vec(vec![0; 39_999]).is_none());
    assert!(OutputLayer::from_vec(vec![-10_001; 40_000]).is_none());
}

#[test]
fn activation_tensor_checks_length_and_range() {
    assert!(ConvOutput::from_vec(vec![2_500_000_000; 4_000]).is_some());
    assert!(ConvOutput::from_vec(vec![0; 4_001]).is_none());
    assert!(ConvOutput::from_vec(vec![2_500_000_001; 4_000]).is_none());
}

#[test]
fn zero_tensors_are_zero() {
    let conv = ConvOutput::zeros();
    assert_eq!(conv.len(), 4_000);
    for v in conv.to_vec() {
        assert_eq!(v, 0);
    }
    assert_eq!(conv.at_flat(0), 0);
    assert_eq!(conv.at_flat(3_999), 0);
    let out = OutputVec::zeros();
    assert_eq!(out.to_vec(), vec![0i64; 10]);
    assert_eq!(out.at(9), 0);
}

#[test]
fn from_vec_keeps_the_buffer() {
    let mut v: Vec<i64> = vec![0; 4_000];
    let mut k: usize = 0;
    while k < 4_000 {
        v[k] = (k as i64) - 2_000;
        k += 1;
    }
    let t = ConvOutput::from_vec(v.clone()).expect("valid tensor");
    assert_eq!(t.to_vec(), v);
    assert_eq!(t.at_flat(0), -2_000);
    assert_eq!(t.at_flat(3_999), 1_999);
}
