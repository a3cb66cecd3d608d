//! Laws of the pipeline, stated over the spec functions that the engines'
//! contracts use: agreement of the two backends and of the two projection
//! strategies, idempotence of the activation, the zero-input and all-ones
//! scenarios, the single-negative-cell scenario, and the activation count.

use vstd::arithmetic::div_mod::{
    lemma_fundamental_div_mod, lemma_fundamental_div_mod_converse, lemma_mod_bound,
};
use vstd::prelude::*;

use crate::cpu::{
    activated_map, conv_cell, conv_map, conv_window_terms, flat_f, flat_i, flat_j,
    lemma_flat_decomp, output_val, proj_terms, reference_output, relu_val, relu_word,
};
use crate::sums::{ints, lemma_sum_const, lemma_sum_single_nonzero};
use crate::tensor::OutputVec;

verus! {

/// Any two output vectors that both carry the reference values for the same
/// input and model are equal: the accelerator engine and the sequential
/// reference agree on all 10 outputs, exactly.
pub proof fn lemma_backends_agree(
    input: Seq<i64>,
    filters: Seq<i64>,
    weights: Seq<i64>,
    a: OutputVec,
    b: OutputVec,
)
    requires
        a@.len() == 10,
        b@.len() == 10,
        forall|n: int|
            0 <= n < 10 ==> (#[trigger] a@[n]) as int == reference_output(input, filters, weights, n),
        forall|n: int|
            0 <= n < 10 ==> (#[trigger] b@[n]) as int == reference_output(input, filters, weights, n),
    ensures
        a@ == b@,
{
    assert forall|n: int| 0 <= n < 10 implies a@[n] == b@[n] by {
        assert(a@[n] as int == reference_output(input, filters, weights, n));
        assert(b@[n] as int == reference_output(input, filters, weights, n));
    }
    assert(a@ =~= b@);
}

/// Any two output vectors that both carry the projection of the same
/// activation vector against the same weights are equal: the baseline and
/// the optimized reduction strategies agree on all inputs, exactly.
pub proof fn lemma_projection_strategies_agree(
    act: Seq<i64>,
    weights: Seq<i64>,
    a: OutputVec,
    b: OutputVec,
)
    requires
        a@.len() == 10,
        b@.len() == 10,
        forall|n: int|
            0 <= n < 10 ==> (#[trigger] a@[n]) as int == output_val(ints(act), weights, n),
        forall|n: int|
            0 <= n < 10 ==> (#[trigger] b@[n]) as int == output_val(ints(act), weights, n),
    ensures
        a@ == b@,
{
    assert forall|n: int| 0 <= n < 10 implies a@[n] == b@[n] by {
        assert(a@[n] as int == output_val(ints(act), weights, n));
        assert(b@[n] as int == output_val(ints(act), weights, n));
    }
    assert(a@ =~= b@);
}

/// The activation applied twice is the activation applied once: non-negative
/// values are fixed points of `max(0, x)`.
pub proof fn lemma_activation_idempotent(x: int)
    ensures
        relu_val(relu_val(x)) == relu_val(x),
{
}

/// Idempotence at the word level, as the stage contracts state it.
pub proof fn lemma_activation_idempotent_word(x: i64)
    ensures
        relu_word(relu_word(x)) == relu_word(x),
{
}

/// Idempotence over a whole activation sequence.
pub proof fn lemma_activation_idempotent_seq(s: Seq<int>)
    ensures
        s.map_values(|x: int| relu_val(x)).map_values(|x: int| relu_val(x)) == s.map_values(
            |x: int| relu_val(x),
        ),
{
    let once = s.map_values(|x: int| relu_val(x));
    assert(once.map_values(|x: int| relu_val(x)) =~= once);
}

/// Exactly 10 x 20 x 20 = 4000 activation values are produced for every
/// input, before and after activation — never more or fewer.
pub proof fn lemma_conv_output_count(input: Seq<i64>, filters: Seq<i64>)
    ensures
        conv_map(input, filters).len() == 4000,
        activated_map(input, filters).len() == 4000,
{
}

/// A zero input matrix makes every convolution output zero, so the
/// activation leaves all 4000 values zero, so all 10 outputs are zero —
/// regardless of the filter and weight values.
pub proof fn lemma_zero_input_zero_output(input: Seq<i64>, filters: Seq<i64>, weights: Seq<i64>)
    requires
        input.len() == 10_000,
        forall|k: int| 0 <= k < 10_000 ==> input[k] == 0i64,
        filters.len() == 250,
        weights.len() == 40_000,
    ensures
        forall|k: int| 0 <= k < 4000 ==> conv_map(input, filters)[k] == 0,
        forall|k: int| 0 <= k < 4000 ==> activated_map(input, filters)[k] == 0,
        forall|n: int| 0 <= n < 10 ==> reference_output(input, filters, weights, n) == 0,
{
    assert forall|k: int| 0 <= k < 4000 implies conv_map(input, filters)[k] == 0 by {
        lemma_flat_decomp(k);
        let f = flat_f(k);
        let i = flat_i(k);
        let j = flat_j(k);
        let terms = conv_window_terms(input, filters, f, i, j);
        assert forall|t: int| 0 <= t < 25 implies terms[t] == 0 by {
            lemma_fundamental_div_mod(t, 5);
            lemma_mod_bound(t, 5);
            let idx = (i * 5 + t / 5) * 100 + (j * 5 + t % 5);
            assert(0 <= idx < 10_000);
            assert(input[idx] == 0i64);
        }
        lemma_sum_const(terms, 0);
    }
    assert forall|k: int| 0 <= k < 4000 implies activated_map(input, filters)[k] == 0 by {
        assert(conv_map(input, filters)[k] == 0);
    }
    assert forall|n: int| 0 <= n < 10 implies reference_output(input, filters, weights, n) == 0 by {
        let act = activated_map(input, filters);
        let pt = proj_terms(act, weights, n);
        assert forall|t: int| 0 <= t < 4000 implies pt[t] == 0 by {
            assert(act[t] == 0);
        }
        lemma_sum_const(pt, 0);
    }
}

/// With an all-ones input and an all-ones filter bank, every convolution
/// value is 25 — the 5x5 sum of products of ones — the activation changes
/// nothing, and with all-ones projection weights every output is
/// 4000 x 25 = 100000.
pub proof fn lemma_all_ones_scenario(input: Seq<i64>, filters: Seq<i64>, weights: Seq<i64>)
    requires
        input.len() == 10_000,
        forall|k: int| 0 <= k < 10_000 ==> input[k] == 1i64,
        filters.len() == 250,
        forall|k: int| 0 <= k < 250 ==> filters[k] == 1i64,
        weights.len() == 40_000,
        forall|k: int| 0 <= k < 40_000 ==> weights[k] == 1i64,
    ensures
        forall|k: int| 0 <= k < 4000 ==> conv_map(input, filters)[k] == 25,
        forall|k: int| 0 <= k < 4000 ==> activated_map(input, filters)[k] == 25,
        forall|n: int| 0 <= n < 10 ==> reference_output(input, filters, weights, n) == 100_000,
{
    assert forall|k: int| 0 <= k < 4000 implies conv_map(input, filters)[k] == 25 by {
        lemma_flat_decomp(k);
        let f = flat_f(k);
        let i = flat_i(k);
        let j = flat_j(k);
        let terms = conv_window_terms(input, filters, f, i, j);
        assert forall|t: int| 0 <= t < 25 implies terms[t] == 1 by {
            lemma_fundamental_div_mod(t, 5);
            lemma_mod_bound(t, 5);
            let idx = (i * 5 + t / 5) * 100 + (j * 5 + t % 5);
            assert(0 <= idx < 10_000);
            assert(input[idx] == 1i64);
            assert(filters[f * 25 + t] == 1i64);
        }
        lemma_sum_const(terms, 1);
    }
    assert forall|k: int| 0 <= k < 4000 implies activated_map(input, filters)[k] == 25 by {
        assert(conv_map(input, filters)[k] == 25);
    }
    assert forall|n: int| 0 <= n < 10 implies reference_output(input, filters, weights, n)
        == 100_000 by {
        let act = activated_map(input, filters);
        let pt = proj_terms(act, weights, n);
        assert forall|t: int| 0 <= t < 4000 implies pt[t] == 25 by {
            assert(act[t] == 25);
            assert(weights[n * 4000 + t] == 1i64);
        }
        lemma_sum_const(pt, 25);
    }
}

/// With an all-ones filter bank and an input that is zero except at one
/// cell `(r, c)`, the convolution value of filter `f` at map cell `(i, j)`
/// is the input's value at `(r, c)` when the cell's window holds `(r, c)` —
/// the windows do not overlap, so exactly one cell per filter sees it — and
/// zero everywhere else.
pub proof fn lemma_single_value_conv_cell(
    input: Seq<i64>,
    filters: Seq<i64>,
    f: int,
    i: int,
    j: int,
    r: int,
    c: int,
)
    requires
        input.len() == 10_000,
        0 <= r < 100,
        0 <= c < 100,
        forall|k: int| 0 <= k < 10_000 && k != r * 100 + c ==> input[k] == 0i64,
        filters.len() == 250,
        forall|k: int| 0 <= k < 250 ==> filters[k] == 1i64,
        0 <= f < 10,
        0 <= i < 20,
        0 <= j < 20,
    ensures
        conv_cell(input, filters, f, i, j) == if i == r / 5 && j == c / 5 {
            input[r * 100 + c] as int
        } else {
            0
        },
{
    let terms = conv_window_terms(input, filters, f, i, j);
    lemma_fundamental_div_mod(r, 5);
    lemma_mod_bound(r, 5);
    lemma_fundamental_div_mod(c, 5);
    lemma_mod_bound(c, 5);
    if i == r / 5 && j == c / 5 {
        let ts = (r % 5) * 5 + (c % 5);
        lemma_fundamental_div_mod_converse(ts, 5, r % 5, c % 5);
        assert((i * 5 + ts / 5) * 100 + (j * 5 + ts % 5) == r * 100 + c);
        assert(terms[ts] == input[r * 100 + c] as int) by {
            assert(filters[f * 25 + ts] == 1i64);
        }
        assert forall|t: int| 0 <= t < 25 && t != ts implies terms[t] == 0 by {
            lemma_fundamental_div_mod(t, 5);
            lemma_mod_bound(t, 5);
            let row = i * 5 + t / 5;
            let col = j * 5 + t % 5;
            let idx = row * 100 + col;
            assert(0 <= idx < 10_000);
            if idx == r * 100 + c {
                lemma_fundamental_div_mod_converse(idx, 100, row, col);
                lemma_fundamental_div_mod_converse(idx, 100, r, c);
                assert(row == r && col == c);
                assert(t == ts);
                assert(false);
            }
            assert(input[idx] == 0i64);
        }
        lemma_sum_single_nonzero(terms, ts);
    } else {
        assert forall|t: int| 0 <= t < 25 implies terms[t] == 0 by {
            lemma_fundamental_div_mod(t, 5);
            lemma_mod_bound(t, 5);
            let row = i * 5 + t / 5;
            let col = j * 5 + t % 5;
            let idx = row * 100 + col;
            assert(0 <= idx < 10_000);
            if idx == r * 100 + c {
                lemma_fundamental_div_mod_converse(idx, 100, row, col);
                lemma_fundamental_div_mod_converse(idx, 100, r, c);
                lemma_fundamental_div_mod_converse(row, 5, i, t / 5);
                lemma_fundamental_div_mod_converse(col, 5, j, t % 5);
                assert(false);
            }
            assert(input[idx] == 0i64);
        }
        lemma_sum_const(terms, 0);
    }
}

/// With an input holding a single negative value and zero elsewhere, and an
/// all-ones filter bank: each filter's map has exactly one negative cell —
/// the one whose non-overlapping window holds the value — the activation
/// zeroes it, so the whole activated tensor is zero and all 10 outputs are
/// zero, exactly as for the zero input.
pub proof fn lemma_single_negative_scenario(
    input: Seq<i64>,
    filters: Seq<i64>,
    weights: Seq<i64>,
    r: int,
    c: int,
)
    requires
        input.len() == 10_000,
        0 <= r < 100,
        0 <= c < 100,
        input[r * 100 + c] < 0,
        forall|k: int| 0 <= k < 10_000 && k != r * 100 + c ==> input[k] == 0i64,
        filters.len() == 250,
        forall|k: int| 0 <= k < 250 ==> filters[k] == 1i64,
        weights.len() == 40_000,
    ensures
        forall|f: int|
            0 <= f < 10 ==> #[trigger] conv_cell(input, filters, f, r / 5, c / 5) == input[r * 100
                + c] as int,
        forall|k: int|
            0 <= k < 4000 && !(flat_i(k) == r / 5 && flat_j(k) == c / 5) ==> conv_map(
                input,
                filters,
            )[k] == 0,
        forall|k: int| 0 <= k < 4000 ==> activated_map(input, filters)[k] == 0,
        forall|n: int| 0 <= n < 10 ==> reference_output(input, filters, weights, n) == 0,
{
    lemma_fundamental_div_mod(r, 5);
    lemma_mod_bound(r, 5);
    lemma_fundamental_div_mod(c, 5);
    lemma_mod_bound(c, 5);
    assert forall|f: int| 0 <= f < 10 implies #[trigger] conv_cell(input, filters, f, r / 5, c / 5)
        == input[r * 100 + c] as int by {
        lemma_single_value_conv_cell(input, filters, f, r / 5, c / 5, r, c);
    }
    assert forall|k: int|
        0 <= k < 4000 && !(flat_i(k) == r / 5 && flat_j(k) == c / 5) implies conv_map(
        input,
        filters,
    )[k] == 0 by {
        lemma_flat_decomp(k);
        lemma_single_value_conv_cell(input, filters, flat_f(k), flat_i(k), flat_j(k), r, c);
    }
    assert forall|k: int| 0 <= k < 4000 implies activated_map(input, filters)[k] == 0 by {
        lemma_flat_decomp(k);
        lemma_single_value_conv_cell(input, filters, flat_f(k), flat_i(k), flat_j(k), r, c);
        assert(activated_map(input, filters)[k] == relu_val(conv_map(input, filters)[k]));
    }
    assert forall|n: int| 0 <= n < 10 implies reference_output(input, filters, weights, n) == 0 by {
        let act = activated_map(input, filters);
        let pt = proj_terms(act, weights, n);
        assert forall|t: int| 0 <= t < 4000 implies pt[t] == 0 by {
            assert(act[t] == 0);
        }
        lemma_sum_const(pt, 0);
    }
}

} // verus!
