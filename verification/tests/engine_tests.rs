use cnn::accel::{
    conv_stage, projection_baseline, projection_optimized, relu_stage, Accelerator,
    ProjectionStrategy,
};
use cnn::cpu::{compute, convolution_layer, output_layer, relu_layer, window_dot};
use cnn::tensor::{Cnn, ConvLayer, ConvOutput, InputMatrix, OutputLayer, OutputVec};

fn const_vec(n: usize, v: i64) -> Vec<i64> {
    vec![v; n]
}

fn varied_vec(n: usize, seed: i64, span: i64) -> Vec<i64> {
    let mut out: Vec<i64> = Vec::new();
    let mut s: i64 = seed;
    let mut k: usize = 0;
    while k < n {
        s = (s * 1103515245 + 12345) % 2147483648;
        out.push((s % (2 * span + 1)) - span);
        k += 1;
    }
    out
}

fn input_of(v: Vec<i64>) -> InputMatrix {
    InputMatrix::from_vec(v).expect("valid input matrix")
}

fn filters_of(v: Vec<i64>) -> ConvLayer {
    ConvLayer::from_vec(v).expect("valid filter bank")
}

fn weights_of(v: Vec<i64>) -> OutputLayer {
    OutputLayer::from_vec(v).expect("valid projection weights")
}

#[test]
fn all_ones_conv_values_are_25() {
    let input = input_of(const_vec(10_000, 1));
    let filters = filters_of(const_vec(250, 1));
    let mut conv = ConvOutput::zeros();
    convolution_layer(&input, &filters, &mut conv);
    let values = conv.to_vec();
    assert_eq!(values.len(), 4000);
    for v in values {
        assert_eq!(v, 25);
    }
}

#[test]
fn all_ones_outputs_are_100000() {
    let input = input_of(const_vec(10_000, 1));
    let cnn_model = Cnn::new(filters_of(const_vec(250, 1)), weights_of(const_vec(40_000, 1)));
    let out = compute(&input, &cnn_model);
    let mut n: usize = 0;
    while n < 10 {
        assert_eq!(out.at(n), 100_000);
        n += 1;
    }
}

#[test]
fn accelerator_matches_reference_on_all_ones() {
    let input = input_of(const_vec(10_000, 1));
    let cnn_model = Cnn::new(filters_of(const_vec(250, 1)), weights_of(const_vec(40_000, 1)));
    let reference = compute(&input, &cnn_model);
    let session = Accelerator::init(cnn_model, ProjectionStrategy::Baseline);
    let out = session.compute(&input).expect("accelerator call succeeds");
    assert_eq!(out.to_vec(), reference.to_vec());
    assert_eq!(out.at(0), 100_000);
}

#[test]
fn accelerator_matches_reference_on_varied_input() {
    let input = input_of(varied_vec(10_000, 7, 1_000));
    let cnn_model = Cnn::new(
        filters_of(varied_vec(250, 99, 1_000)),
        weights_of(varied_vec(40_000, 1234, 1_000)),
    );
    let reference = compute(&input, &cnn_model);
    let session = Accelerator::init(cnn_model, ProjectionStrategy::Baseline);
    let out = session.compute(&input).expect("accelerator call succeeds");
    assert_eq!(out.to_vec(), reference.to_vec());
}

#[test]
fn projection_strategies_agree_on_varied_input() {
    let input = input_of(varied_vec(10_000, 21, 1_000));
    let fvals = varied_vec(250, 5, 1_000);
    let wvals = varied_vec(40_000, 17, 1_000);
    let model_a = Cnn::new(filters_of(fvals.clone()), weights_of(wvals.clone()));
    let model_b = Cnn::new(filters_of(fvals), weights_of(wvals));
    let base = Accelerator::init(model_a, ProjectionStrategy::Baseline);
    let fast = Accelerator::init(model_b, ProjectionStrategy::Optimized);
    let a = base.compute(&input).expect("baseline succeeds");
    let b = fast.compute(&input).expect("optimized succeeds");
    assert_eq!(a.to_vec(), b.to_vec());
}

#[test]
fn projection_stages_match_sequential_projection() {
    let act = ConvOutput::from_vec(varied_vec(4_000, 3, 2_000_000)).expect("valid activation");
    let weights = weights_of(varied_vec(40_000, 11, 1_000));
    let mut seq_out = OutputVec::zeros();
    let mut base_out = OutputVec::zeros();
    let mut fast_out = OutputVec::zeros();
    output_layer(&act, &weights, &mut seq_out);
    projection_baseline(&act, &weights, &mut base_out);
    projection_optimized(&act, &weights, &mut fast_out);
    assert_eq!(seq_out.to_vec(), base_out.to_vec());
    assert_eq!(seq_out.to_vec(), fast_out.to_vec());

    // independent oracle: a plain dot product per output unit
    let a = act.to_vec();
    let w = varied_vec(40_000, 11, 1_000);
    let mut n: usize = 0;
    while n < 10 {
        let mut expect: i64 = 0;
        let mut k: usize = 0;
        while k < 4_000 {
            expect += a[k] * w[n * 4_000 + k];
            k += 1;
        }
        assert_eq!(seq_out.at(n), expect);
        n += 1;
    }
}

#[test]
fn zero_input_gives_zero_outputs() {
    let input = input_of(const_vec(10_000, 0));
    let cnn_model = Cnn::new(
        filters_of(varied_vec(250, 5, 1_000)),
        weights_of(varied_vec(40_000, 17, 1_000)),
    );
    let reference = compute(&input, &cnn_model);
    let mut n: usize = 0;
    while n < 10 {
        assert_eq!(reference.at(n), 0);
        n += 1;
    }
    let session = Accelerator::init(cnn_model, ProjectionStrategy::Optimized);
    let out = session.compute(&input).expect("accelerator call succeeds");
    assert_eq!(out.to_vec(), reference.to_vec());
}

#[test]
fn relu_is_idempotent_on_conv_output() {
    let values = varied_vec(4_000, 41, 2_000_000_000);
    let mut once = ConvOutput::from_vec(values.clone()).expect("valid activation tensor");
    let mut twice = ConvOutput::from_vec(values).expect("valid activation tensor");
    relu_layer(&mut once);
    relu_layer(&mut twice);
    relu_layer(&mut twice);
    assert_eq!(once.to_vec(), twice.to_vec());
    for v in once.to_vec() {
        assert!(v >= 0);
    }
}

#[test]
fn parallel_relu_matches_sequential_relu() {
    let values = varied_vec(4_000, 8, 2_000_000_000);
    let mut seq = ConvOutput::from_vec(values.clone()).expect("valid activation tensor");
    let mut par = ConvOutput::from_vec(values).expect("valid activation tensor");
    relu_layer(&mut seq);
    relu_stage(&mut par);
    assert_eq!(seq.to_vec(), par.to_vec());
}

#[test]
fn parallel_conv_matches_sequential_conv() {
    let input = input_of(varied_vec(10_000, 13, 1_000));
    let filters = filters_of(varied_vec(250, 29, 1_000));
    let mut seq = ConvOutput::zeros();
    let mut par = ConvOutput::zeros();
    convolution_layer(&input, &filters, &mut seq);
    conv_stage(&input, &filters, &mut par);
    assert_eq!(seq.to_vec(), par.to_vec());
}

#[test]
fn conv_produces_exactly_4000_values() {
    let input = input_of(varied_vec(10_000, 55, 1_000));
    let filters = filters_of(varied_vec(250, 77, 1_000));
    let mut conv = ConvOutput::zeros();
    convolution_layer(&input, &filters, &mut conv);
    assert_eq!(conv.len(), 4_000);
    assert_eq!(conv.to_vec().len(), 4_000);
}

#[test]
fn single_negative_cell_is_zeroed_and_outputs_match_reference() {
    let r: usize = 37;
    let c: usize = 42;
    let mut raw = const_vec(10_000, 0);
    raw[r * 100 + c] = -7;
    let input = input_of(raw);
    let filters = filters_of(const_vec(250, 1));

    let mut conv = ConvOutput::zeros();
    convolution_layer(&input, &filters, &mut conv);
    let values = conv.to_vec();
    // non-overlapping windows: exactly one negative cell per filter map
    let mut f: usize = 0;
    while f < 10 {
        let mut negatives: usize = 0;
        let mut k: usize = 0;
        while k < 400 {
            if values[f * 400 + k] < 0 {
                negatives += 1;
            }
            k += 1;
        }
        assert_eq!(negatives, 1);
        assert_eq!(values[f * 400 + (r / 5) * 20 + c / 5], -7);
        f += 1;
    }

    relu_layer(&mut conv);
    for v in conv.to_vec() {
        assert_eq!(v, 0);
    }

    let cnn_model = Cnn::new(filters, weights_of(varied_vec(40_000, 123, 1_000)));
    let reference = compute(&input, &cnn_model);
    let session = Accelerator::init(cnn_model, ProjectionStrategy::Baseline);
    let out = session.compute(&input).expect("accelerator call succeeds");
    assert_eq!(out.to_vec(), reference.to_vec());
    for v in reference.to_vec() {
        assert_eq!(v, 0);
    }
}

#[test]
fn non_zero_count_tracks_the_activation() {
    let input = input_of(const_vec(10_000, 1));
    let filters = filters_of(const_vec(250, 1));
    let mut conv = ConvOutput::zeros();
    assert_eq!(conv.non_zero_count(), 0);
    convolution_layer(&input, &filters, &mut conv);
    assert_eq!(conv.non_zero_count(), 4_000);

    let mut raw = const_vec(10_000, 0);
    raw[512] = -9;
    let negative_input = input_of(raw);
    let mut conv2 = ConvOutput::zeros();
    convolution_layer(&negative_input, &filters, &mut conv2);
    assert_eq!(conv2.non_zero_count(), 10);
    relu_layer(&mut conv2);
    assert_eq!(conv2.non_zero_count(), 0);
}

#[test]
fn window_dot_of_ones_is_25() {
    let input = input_of(const_vec(10_000, 1));
    let filters = filters_of(const_vec(250, 1));
    assert_eq!(window_dot(&input, &filters, 0, 0, 0), 25);
    assert_eq!(window_dot(&input, &filters, 9, 19, 19), 25);
}
