//! Sequential reference engine: a straight-line, single-threaded run of the
//! three pipeline stages.  Its spec functions — `conv_cell`, `relu_val`,
//! `output_val` and their composition `reference_output` — are the oracle
//! that the accelerator execution model is proved against.

use vstd::arithmetic::div_mod::{
    lemma_fundamental_div_mod, lemma_fundamental_div_mod_converse, lemma_mod_bound,
};
use vstd::pervasive::VecAdditionalExecFns;
use vstd::prelude::*;

use crate::sums::{ints, lemma_sum_prefix_snoc, sum};
use crate::tensor::{
    bounded, zero_vec, Cnn, ConvLayer, ConvOutput, InputMatrix, OutputLayer, OutputVec,
    CONV_LAYER_SIZE, CONV_OUT_DIM, CONV_VAL_LIMIT, FILTER_DIM, FLATTENED_DIM, OUTPUT_LIMIT,
    OUT_LAYER_SIZE, TERM_LIMIT,
};

verus! {

/// The filter a flat activation position belongs to.
pub open spec fn flat_f(k: int) -> int {
    k / 400
}

/// The row, within its 20x20 map, of a flat activation position.
pub open spec fn flat_i(k: int) -> int {
    (k % 400) / 20
}

/// The column, within its 20x20 map, of a flat activation position.
pub open spec fn flat_j(k: int) -> int {
    k % 20
}

/// The flat position of map cell `(f, i, j)`: filter-major, then row-major.
pub open spec fn flat_index(f: int, i: int, j: int) -> int {
    f * 400 + i * 20 + j
}

/// On the valid ranges, `flat_index` is inverted by the three projections.
pub proof fn lemma_flat_index(f: int, i: int, j: int)
    requires
        0 <= f < CONV_LAYER_SIZE,
        0 <= i < CONV_OUT_DIM,
        0 <= j < CONV_OUT_DIM,
    ensures
        0 <= flat_index(f, i, j) < FLATTENED_DIM,
        flat_f(flat_index(f, i, j)) == f,
        flat_i(flat_index(f, i, j)) == i,
        flat_j(flat_index(f, i, j)) == j,
{
    let k = flat_index(f, i, j);
    lemma_fundamental_div_mod_converse(k, 400, f, i * 20 + j);
    lemma_fundamental_div_mod_converse(i * 20 + j, 20, i, j);
    lemma_fundamental_div_mod_converse(k, 20, f * 20 + i, j);
}

/// Every flat position decomposes into an in-range cell `(f, i, j)`.
pub proof fn lemma_flat_decomp(k: int)
    requires
        0 <= k < FLATTENED_DIM,
    ensures
        0 <= flat_f(k) < CONV_LAYER_SIZE,
        0 <= flat_i(k) < CONV_OUT_DIM,
        0 <= flat_j(k) < CONV_OUT_DIM,
        flat_index(flat_f(k), flat_i(k), flat_j(k)) == k,
{
    lemma_fundamental_div_mod(k, 400);
    lemma_mod_bound(k, 400);
    lemma_fundamental_div_mod(k % 400, 20);
    lemma_mod_bound(k % 400, 20);
    lemma_fundamental_div_mod(k, 20);
    lemma_mod_bound(k, 20);
    assert(k == 400 * flat_f(k) + (k % 400));
    assert(k % 400 == 20 * flat_i(k) + (k % 400) % 20);
    lemma_fundamental_div_mod_converse(k, 20, flat_f(k) * 20 + flat_i(k), (k % 400) % 20);
}

/// The 25 products that one tiling window contributes to map cell
/// `(f, i, j)`: term `t` multiplies input row `5i + t / 5`, column
/// `5j + t % 5` with filter element `t` of filter `f`.
pub open spec fn conv_window_terms(input: Seq<i64>, filters: Seq<i64>, f: int, i: int, j: int) -> Seq<
    int,
> {
    Seq::new(
        25,
        |t: int|
            (input[(i * 5 + t / 5) * 100 + (j * 5 + t % 5)] as int) * (filters[f * 25 + t] as int),
    )
}

/// The convolution value of map cell `(f, i, j)`: the dot product of filter
/// `f` with the non-overlapping 5x5 window at tile `(i, j)`.
pub open spec fn conv_cell(input: Seq<i64>, filters: Seq<i64>, f: int, i: int, j: int) -> int {
    sum(conv_window_terms(input, filters, f, i, j))
}

/// All 4000 convolution values in flattening order.
pub open spec fn conv_map(input: Seq<i64>, filters: Seq<i64>) -> Seq<int> {
    Seq::new(4000, |k: int| conv_cell(input, filters, flat_f(k), flat_i(k), flat_j(k)))
}

/// The elementwise activation: `max(0, x)`.
pub open spec fn relu_val(x: int) -> int {
    if x < 0 {
        0
    } else {
        x
    }
}

/// The activation on a 64-bit word.
pub open spec fn relu_word(x: i64) -> i64 {
    if x < 0 {
        0i64
    } else {
        x
    }
}

/// The convolution values after activation, in flattening order.
pub open spec fn activated_map(input: Seq<i64>, filters: Seq<i64>) -> Seq<int> {
    conv_map(input, filters).map_values(|x: int| relu_val(x))
}

/// The 4000 products that output unit `n` sums: the flattened activation
/// vector against row `n` of the projection weights, positionally.
pub open spec fn proj_terms(act: Seq<int>, weights: Seq<i64>, n: int) -> Seq<int> {
    Seq::new(4000, |k: int| act[k] * (weights[n * 4000 + k] as int))
}

/// The value of output unit `n`: the full 4000-element dot product.
pub open spec fn output_val(act: Seq<int>, weights: Seq<i64>, n: int) -> int {
    sum(proj_terms(act, weights, n))
}

/// The value of output unit `n` for the whole pipeline: convolution, then
/// activation, then projection.
pub open spec fn reference_output(input: Seq<i64>, filters: Seq<i64>, weights: Seq<i64>, n: int) -> int {
    output_val(activated_map(input, filters), weights, n)
}

/// Stage 1, sequential: for each filter and each of the 400 non-overlapping
/// 5x5 windows (row-major tiles, stride 5, no padding), the 25-term dot
/// product of window and filter, stored at the cell's flat position.
pub fn convolution_layer(input: &InputMatrix, conv_filters: &ConvLayer, outputs: &mut ConvOutput)
    requires
        input.wf(),
        conv_filters.wf(),
    ensures
        final(outputs).wf(),
        final(outputs)@.len() == FLATTENED_DIM,
        forall|k: int|
            0 <= k < FLATTENED_DIM ==> (#[trigger] final(outputs)@[k]) as int == conv_map(
                input@,
                conv_filters@,
            )[k],
{
    let ghost cmap = conv_map(input@, conv_filters@);
    let mut buf = zero_vec(FLATTENED_DIM);
    let mut f: usize = 0;
    while f < CONV_LAYER_SIZE
        invariant
            f <= CONV_LAYER_SIZE,
            input.wf(),
            conv_filters.wf(),
            cmap == conv_map(input@, conv_filters@),
            buf@.len() == FLATTENED_DIM,
            bounded(buf@, CONV_VAL_LIMIT),
            forall|k: int| 0 <= k < f * 400 ==> (#[trigger] buf@[k]) as int == cmap[k],
        decreases CONV_LAYER_SIZE - f,
    {
        let mut i: usize = 0;
        while i < CONV_OUT_DIM
            invariant
                f < CONV_LAYER_SIZE,
                i <= CONV_OUT_DIM,
                input.wf(),
                conv_filters.wf(),
                cmap == conv_map(input@, conv_filters@),
                buf@.len() == FLATTENED_DIM,
                bounded(buf@, CONV_VAL_LIMIT),
                forall|k: int| 0 <= k < f * 400 + i * 20 ==> (#[trigger] buf@[k]) as int == cmap[k],
            decreases CONV_OUT_DIM - i,
        {
            let mut j: usize = 0;
            while j < CONV_OUT_DIM
                invariant
                    f < CONV_LAYER_SIZE,
                    i < CONV_OUT_DIM,
                    j <= CONV_OUT_DIM,
                    input.wf(),
                    conv_filters.wf(),
                    cmap == conv_map(input@, conv_filters@),
                    buf@.len() == FLATTENED_DIM,
                    bounded(buf@, CONV_VAL_LIMIT),
                    forall|k: int|
                        0 <= k < f * 400 + i * 20 + j ==> (#[trigger] buf@[k]) as int == cmap[k],
                decreases CONV_OUT_DIM - j,
            {
                let acc = window_dot(input, conv_filters, f, i, j);
                buf.set(f * 400 + i * 20 + j, acc);
                proof {
                    lemma_flat_index(f as int, i as int, j as int);
                }
                j += 1;
            }
            i += 1;
        }
        f += 1;
    }
    outputs.data = buf;
}

/// The 25-term dot product of the window at tile `(i, j)` with filter `f`,
/// summed in row-major term order.
pub fn window_dot(input: &InputMatrix, conv_filters: &ConvLayer, f: usize, i: usize, j: usize) -> (acc: i64)
    requires
        input.wf(),
        conv_filters.wf(),
        f < CONV_LAYER_SIZE,
        i < CONV_OUT_DIM,
        j < CONV_OUT_DIM,
    ensures
        acc as int == conv_cell(input@, conv_filters@, f as int, i as int, j as int),
        -CONV_VAL_LIMIT <= acc <= CONV_VAL_LIMIT,
{
    let ghost terms = conv_window_terms(input@, conv_filters@, f as int, i as int, j as int);
    let mut acc: i64 = 0;
    let mut x: usize = 0;
    while x < FILTER_DIM
        invariant
            f < CONV_LAYER_SIZE,
            i < CONV_OUT_DIM,
            j < CONV_OUT_DIM,
            x <= FILTER_DIM,
            input.wf(),
            conv_filters.wf(),
            terms == conv_window_terms(input@, conv_filters@, f as int, i as int, j as int),
            acc as int == sum(terms.subrange(0, x * 5)),
            -100_000_000 * (x * 5) <= acc <= 100_000_000 * (x * 5),
        decreases FILTER_DIM - x,
    {
        let mut y: usize = 0;
        while y < FILTER_DIM
            invariant
                f < CONV_LAYER_SIZE,
                i < CONV_OUT_DIM,
                j < CONV_OUT_DIM,
                x < FILTER_DIM,
                y <= FILTER_DIM,
                input.wf(),
                conv_filters.wf(),
                terms == conv_window_terms(input@, conv_filters@, f as int, i as int, j as int),
                acc as int == sum(terms.subrange(0, x * 5 + y)),
                -100_000_000 * (x * 5 + y) <= acc <= 100_000_000 * (x * 5 + y),
            decreases FILTER_DIM - y,
        {
            let a = input.data[(i * 5 + x) * 100 + (j * 5 + y)];
            let b = conv_filters.data[f * 25 + x * 5 + y];
            assert(-10_000 <= a <= 10_000) by {
                assert(input@[((i * 5 + x) * 100 + (j * 5 + y)) as int] == a);
            }
            let p = mul_bounded(a, b, 10_000, 10_000);
            proof {
                let t = (x * 5 + y) as int;
                lemma_fundamental_div_mod_converse(t, 5, x as int, y as int);
                assert(terms[t] == (a as int) * (b as int));
                lemma_sum_prefix_snoc(terms, t);
            }
            acc = acc + p;
            y += 1;
        }
        x += 1;
    }
    proof {
        assert(terms.subrange(0, 25) =~= terms);
    }
    acc
}

/// The product of two words whose magnitudes are within the given limits;
/// the result is within the product of the limits.
pub(crate) fn mul_bounded(a: i64, b: i64, la: i64, lb: i64) -> (p: i64)
    requires
        0 <= la <= 3_000_000_000,
        0 <= lb <= 3_000_000_000,
        -la <= a <= la,
        -lb <= b <= lb,
    ensures
        p as int == (a as int) * (b as int),
        -(la as int * lb as int) <= p as int <= la as int * lb as int,
{
    proof {
        assert((-(la as int * lb as int) <= (a as int) * (b as int) <= la as int * lb as int)
            && (a as int) * (b as int) <= 9_000_000_000_000_000_000
            && -9_000_000_000_000_000_000 <= (a as int) * (b as int)) by (nonlinear_arith)
            requires
                0 <= la <= 3_000_000_000,
                0 <= lb <= 3_000_000_000,
                -la <= a <= la,
                -lb <= b <= lb,
        ;
    }
    a * b
}

/// Stage 2, sequential: every value below zero becomes zero, in place.
pub fn relu_layer(conv_out: &mut ConvOutput)
    requires
        old(conv_out).wf(),
    ensures
        final(conv_out).wf(),
        final(conv_out)@.len() == old(conv_out)@.len(),
        forall|k: int|
            0 <= k < old(conv_out)@.len() ==> final(conv_out)@[k] == relu_word(
                #[trigger] old(conv_out)@[k],
            ),
{
    let ghost orig = conv_out.data@;
    let n = conv_out.data.len();
    let mut buf: Vec<i64> = Vec::new();
    let mut k: usize = 0;
    while k < n
        invariant
            k <= n,
            n == conv_out.data@.len(),
            conv_out.data@ == orig,
            buf@.len() == k,
            forall|t: int| 0 <= t < k ==> buf@[t] == relu_word(#[trigger] orig[t]),
        decreases n - k,
    {
        let v = conv_out.data[k];
        if v < 0 {
            buf.push(0);
        } else {
            buf.push(v);
        }
        k += 1;
    }
    proof {
        assert forall|t: int| 0 <= t < n implies -CONV_VAL_LIMIT <= #[trigger] buf@[t]
            <= CONV_VAL_LIMIT by {
            assert(-CONV_VAL_LIMIT <= orig[t] <= CONV_VAL_LIMIT);
        }
    }
    conv_out.data = buf;
}

/// Stage 3, sequential: for each output unit, the dot product of the
/// flattened activation vector with that unit's weight row — elementwise
/// multiply, sum of all 4000 terms, in positional order.
pub fn output_layer(input: &ConvOutput, weights: &OutputLayer, output: &mut OutputVec)
    requires
        input.wf(),
        weights.wf(),
    ensures
        final(output).wf(),
        final(output)@.len() == OUT_LAYER_SIZE,
        forall|n: int|
            0 <= n < OUT_LAYER_SIZE ==> (#[trigger] final(output)@[n]) as int == output_val(
                ints(input@),
                weights@,
                n,
            ),
{
    let mut buf: Vec<i64> = Vec::new();
    let mut n: usize = 0;
    while n < OUT_LAYER_SIZE
        invariant
            n <= OUT_LAYER_SIZE,
            input.wf(),
            weights.wf(),
            buf@.len() == n,
            bounded(buf@, OUTPUT_LIMIT),
            forall|m: int|
                0 <= m < n ==> (#[trigger] buf@[m]) as int == output_val(ints(input@), weights@, m),
        decreases OUT_LAYER_SIZE - n,
    {
        let acc = unit_dot(input, weights, n);
        buf.push(acc);
        n += 1;
    }
    output.data = buf;
}

/// The full 4000-element dot product for output unit `n`, summed in
/// positional order.
pub fn unit_dot(input: &ConvOutput, weights: &OutputLayer, n: usize) -> (acc: i64)
    requires
        input.wf(),
        weights.wf(),
        n < OUT_LAYER_SIZE,
    ensures
        acc as int == output_val(ints(input@), weights@, n as int),
        -OUTPUT_LIMIT <= acc <= OUTPUT_LIMIT,
{
    let ghost terms = proj_terms(ints(input@), weights@, n as int);
    let mut acc: i64 = 0;
    let mut k: usize = 0;
    while k < FLATTENED_DIM
        invariant
            n < OUT_LAYER_SIZE,
            k <= FLATTENED_DIM,
            input.wf(),
            weights.wf(),
            terms == proj_terms(ints(input@), weights@, n as int),
            acc as int == sum(terms.subrange(0, k as int)),
            -25_000_000_000_000 * k <= acc <= 25_000_000_000_000 * k,
        decreases FLATTENED_DIM - k,
    {
        let a = input.data[k];
        let w = weights.data[n * 4000 + k];
        let p = mul_bounded(a, w, CONV_VAL_LIMIT, 10_000);
        proof {
            assert(CONV_VAL_LIMIT as int * 10_000 == TERM_LIMIT as int);
            assert(-TERM_LIMIT <= p <= TERM_LIMIT);
            assert(terms[k as int] == (a as int) * (w as int));
            lemma_sum_prefix_snoc(terms, k as int);
        }
        acc = acc + p;
        k += 1;
    }
    proof {
        assert(terms.subrange(0, 4000) =~= terms);
    }
    acc
}

/// The whole pipeline, sequentially: convolution, then activation, then
/// projection.  Pure: the result is a function of the input and the loaded
/// model alone, and every output unit carries the reference value.
pub fn compute(input: &InputMatrix, cnn: &Cnn) -> (r: OutputVec)
    requires
        input.wf(),
        cnn.wf(),
    ensures
        r.wf(),
        r@.len() == OUT_LAYER_SIZE,
        forall|n: int|
            0 <= n < OUT_LAYER_SIZE ==> (#[trigger] r@[n]) as int == reference_output(
                input@,
                cnn.conv_layer@,
                cnn.output_layer@,
                n,
            ),
{
    let mut conv_output = ConvOutput::zeros();
    let mut output = OutputVec::zeros();
    convolution_layer(input, &cnn.conv_layer, &mut conv_output);
    let ghost v1 = conv_output@;
    relu_layer(&mut conv_output);
    proof {
        let am = activated_map(input@, cnn.conv_layer@);
        let cm = conv_map(input@, cnn.conv_layer@);
        assert forall|k: int| 0 <= k < FLATTENED_DIM implies ints(conv_output@)[k] == am[k] by {
            assert(v1[k] as int == cm[k]);
            assert(conv_output@[k] == relu_word(v1[k]));
            assert(am[k] == relu_val(cm[k]));
        }
        assert(ints(conv_output@) =~= am);
    }
    output_layer(&conv_output, &cnn.output_layer, &mut output);
    output
}

} // verus!
