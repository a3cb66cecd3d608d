//! Accelerator execution model: the same three-stage pipeline as the
//! sequential reference, but partitioned the way the device grid runs it.
//! Stage 1 dispatches one block per filter and one sub-unit per output
//! position; stage 2 chunks the 4000 activation values into blocks of 256
//! units with a guard on the ragged end; stage 3 assigns one group of 256
//! units per output neuron, accumulates per-unit partial sums — strided in
//! the baseline strategy, contiguous runs in the optimized one — and then
//! combines the partials by a pairwise tree reduction.  Every stage is
//! proved to produce exactly the values of the reference engine's spec
//! functions, so the two backends agree on every input.

use vstd::arithmetic::div_mod::{lemma_fundamental_div_mod, lemma_mod_bound};
use vstd::pervasive::VecAdditionalExecFns;
use vstd::prelude::*;

use crate::cpu::{
    activated_map, conv_cell, conv_map, conv_window_terms, lemma_flat_index, mul_bounded,
    output_val, proj_terms, reference_output, relu_val, relu_word,
};
use crate::pipeline::{advance, PipelineState, RuntimeError, StageEvent};
use crate::sums::{
    ints, lemma_ints_update, lemma_sum_pointwise_add, lemma_sum_prefix_snoc, lemma_sum_prefix_split,
    lemma_sum_update, sum,
};
use crate::tensor::{
    bounded, zero_vec, Cnn, ConvLayer, ConvOutput, InputMatrix, OutputLayer, OutputVec,
    CONV_LAYER_SIZE, CONV_OUT_DIM, CONV_VAL_LIMIT, FILTER_ELEMS, FLATTENED_DIM, OUTPUT_LIMIT,
    OUT_LAYER_SIZE,
};

verus! {

/// The number of flat positions at or below `x` that stage work exists for:
/// unit indices past the tensor's end are guarded off.
pub open spec fn capped(x: int) -> int {
    if x <= 4000 {
        x
    } else {
        4000
    }
}

/// The work of one convolution sub-unit: the 25-term dot product of filter
/// `f` with the tiling window at position `(i, j)`.  No reduction with any
/// other sub-unit is needed: each produces one scalar.
pub fn conv_unit(input: &InputMatrix, filters: &ConvLayer, f: usize, i: usize, j: usize) -> (v: i64)
    requires
        input.wf(),
        filters.wf(),
        f < CONV_LAYER_SIZE,
        i < CONV_OUT_DIM,
        j < CONV_OUT_DIM,
    ensures
        v as int == conv_cell(input@, filters@, f as int, i as int, j as int),
        -CONV_VAL_LIMIT <= v <= CONV_VAL_LIMIT,
{
    let ghost terms = conv_window_terms(input@, filters@, f as int, i as int, j as int);
    let mut acc: i64 = 0;
    let mut t: usize = 0;
    while t < FILTER_ELEMS
        invariant
            f < CONV_LAYER_SIZE,
            i < CONV_OUT_DIM,
            j < CONV_OUT_DIM,
            t <= FILTER_ELEMS,
            input.wf(),
            filters.wf(),
            terms == conv_window_terms(input@, filters@, f as int, i as int, j as int),
            acc as int == sum(terms.subrange(0, t as int)),
            -100_000_000 * t <= acc <= 100_000_000 * t,
        decreases FILTER_ELEMS - t,
    {
        let x = t / 5;
        let y = t % 5;
        let a = input.data[(i * 5 + x) * 100 + (j * 5 + y)];
        let b = filters.data[f * 25 + t];
        let p = mul_bounded(a, b, 10_000, 10_000);
        proof {
            assert(terms[t as int] == (a as int) * (b as int));
            lemma_sum_prefix_snoc(terms, t as int);
        }
        acc = acc + p;
        t += 1;
    }
    proof {
        assert(terms.subrange(0, 25) =~= terms);
    }
    acc
}

/// Stage 1 of the accelerator model: one block per filter, one sub-unit per
/// output position of that filter's 20x20 grid, each writing its scalar to
/// the cell's flat position.  Matches the sequential reference exactly.
pub fn conv_stage(input: &InputMatrix, filters: &ConvLayer, outputs: &mut ConvOutput)
    requires
        input.wf(),
        filters.wf(),
    ensures
        final(outputs).wf(),
        final(outputs)@.len() == FLATTENED_DIM,
        forall|k: int|
            0 <= k < FLATTENED_DIM ==> (#[trigger] final(outputs)@[k]) as int == conv_map(
                input@,
                filters@,
            )[k],
{
    let ghost cmap = conv_map(input@, filters@);
    let mut buf = zero_vec(FLATTENED_DIM);
    let mut b: usize = 0;
    while b < CONV_LAYER_SIZE
        invariant
            b <= CONV_LAYER_SIZE,
            input.wf(),
            filters.wf(),
            cmap == conv_map(input@, filters@),
            buf@.len() == FLATTENED_DIM,
            bounded(buf@, CONV_VAL_LIMIT),
            forall|k: int| 0 <= k < b * 400 ==> (#[trigger] buf@[k]) as int == cmap[k],
        decreases CONV_LAYER_SIZE - b,
    {
        let mut t: usize = 0;
        while t < 400
            invariant
                b < CONV_LAYER_SIZE,
                t <= 400,
                input.wf(),
                filters.wf(),
                cmap == conv_map(input@, filters@),
                buf@.len() == FLATTENED_DIM,
                bounded(buf@, CONV_VAL_LIMIT),
                forall|k: int| 0 <= k < b * 400 + t ==> (#[trigger] buf@[k]) as int == cmap[k],
            decreases 400 - t,
        {
            let ti = t / 20;
            let tj = t % 20;
            proof {
                lemma_fundamental_div_mod(t as int, 20);
                lemma_mod_bound(t as int, 20);
            }
            let v = conv_unit(input, filters, b, ti, tj);
            buf.set(b * 400 + t, v);
            proof {
                lemma_flat_index(b as int, ti as int, tj as int);
            }
            t += 1;
        }
        b += 1;
    }
    outputs.data = buf;
}

/// Stage 2 of the accelerator model: the 4000 activation values are chunked
/// into 16 blocks of 256 units; each unit applies `max(0, x)` to its one
/// element, with units past the end guarded off.  Fully independent: no
/// reduction, no cross-unit dependency.
pub fn relu_stage(conv_out: &mut ConvOutput)
    requires
        old(conv_out).wf(),
    ensures
        final(conv_out).wf(),
        final(conv_out)@.len() == old(conv_out)@.len(),
        forall|k: int|
            0 <= k < old(conv_out)@.len() ==> final(conv_out)@[k] == relu_word(
                #[trigger] old(conv_out)@[k],
            ),
{
    let ghost orig = conv_out.data@;
    let mut buf: Vec<i64> = Vec::new();
    let mut b: usize = 0;
    while b < 16
        invariant
            b <= 16,
            conv_out.data@ == orig,
            orig.len() == FLATTENED_DIM,
            bounded(orig, CONV_VAL_LIMIT),
            buf@.len() == capped(b * 256),
            forall|k: int| 0 <= k < buf@.len() ==> #[trigger] buf@[k] == relu_word(orig[k]),
        decreases 16 - b,
    {
        let mut t: usize = 0;
        while t < 256
            invariant
                b < 16,
                t <= 256,
                conv_out.data@ == orig,
                orig.len() == FLATTENED_DIM,
                bounded(orig, CONV_VAL_LIMIT),
                buf@.len() == capped(b * 256 + t),
                forall|k: int| 0 <= k < buf@.len() ==> #[trigger] buf@[k] == relu_word(orig[k]),
            decreases 256 - t,
        {
            let g = b * 256 + t;
            if g < 4000 {
                let v = conv_out.data[g];
                if v < 0 {
                    buf.push(0);
                } else {
                    buf.push(v);
                }
            }
            t += 1;
        }
        b += 1;
    }
    proof {
        assert forall|k: int| 0 <= k < FLATTENED_DIM implies -CONV_VAL_LIMIT <= #[trigger] buf@[k]
            <= CONV_VAL_LIMIT by {
            assert(-CONV_VAL_LIMIT <= orig[k] <= CONV_VAL_LIMIT);
        }
    }
    conv_out.data = buf;
}

/// One level of the in-group tree reduction: each of the `s` active units
/// adds the partial of the unit `s` above it, halving the active count while
/// preserving the sum of the active region.
fn combine(p: Vec<i64>, s: usize, bound: i64) -> (r: Vec<i64>)
    requires
        p@.len() == 256,
        1 <= s,
        2 * s <= 256,
        0 < bound <= 72_057_594_037_927_936,
        forall|u: int| 0 <= u < 2 * (s as int) ==> -bound <= #[trigger] p@[u] <= bound,
    ensures
        r@.len() == 256,
        forall|u: int| 0 <= u < s ==> (#[trigger] r@[u]) as int == p@[u] + p@[u + s],
        forall|u: int| 0 <= u < s ==> -2 * (bound as int) <= #[trigger] r@[u] <= 2 * (bound as int),
        forall|u: int| s <= u < 256 ==> #[trigger] r@[u] == p@[u],
        sum(ints(r@).subrange(0, s as int)) == sum(ints(p@).subrange(0, 2 * (s as int))),
{
    let ghost orig = p@;
    let mut q = p;
    let mut u: usize = 0;
    while u < s
        invariant
            u <= s,
            1 <= s,
            2 * s <= 256,
            0 < bound <= 72_057_594_037_927_936,
            q@.len() == 256,
            forall|v: int| 0 <= v < 2 * (s as int) ==> -bound <= #[trigger] orig[v] <= bound,
            forall|v: int| 0 <= v < u ==> (#[trigger] q@[v]) as int == orig[v] + orig[v + s],
            forall|v: int| u <= v < 256 ==> #[trigger] q@[v] == orig[v],
        decreases s - u,
    {
        let a = q[u];
        let c = q[u + s];
        q.set(u, a + c);
        u += 1;
    }
    proof {
        let na = ints(q@).subrange(0, s as int);
        let a0 = ints(orig).subrange(0, s as int);
        let b0 = ints(orig).subrange(s as int, 2 * (s as int));
        assert forall|v: int| 0 <= v < s implies na[v] == a0[v] + b0[v] by {
            assert(q@[v] as int == orig[v] + orig[v + s]);
        }
        lemma_sum_pointwise_add(a0, b0, na);
        lemma_sum_prefix_split(ints(orig), s as int, 2 * (s as int));
    }
    q
}

/// Tree reduction of one group's 256 partial sums down to a single scalar:
/// pairwise combination across successive halvings of the active units.
/// The result is exactly the sum of all 256 partials.
pub fn tree_reduce(p: Vec<i64>) -> (r: i64)
    requires
        p@.len() == 256,
        forall|u: int|
            0 <= u < 256 ==> -400_000_000_000_000 <= #[trigger] p@[u] <= 400_000_000_000_000,
    ensures
        r as int == sum(ints(p@)),
{
    let ghost total = sum(ints(p@));
    proof {
        assert(ints(p@).subrange(0, 256) =~= ints(p@));
    }
    let q = combine(p, 128, 400_000_000_000_000);
    let q = combine(q, 64, 800_000_000_000_000);
    let q = combine(q, 32, 1_600_000_000_000_000);
    let q = combine(q, 16, 3_200_000_000_000_000);
    let q = combine(q, 8, 6_400_000_000_000_000);
    let q = combine(q, 4, 12_800_000_000_000_000);
    let q = combine(q, 2, 25_600_000_000_000_000);
    let q = combine(q, 1, 51_200_000_000_000_000);
    proof {
        let last1 = ints(q@).subrange(0, 1);
        assert(last1.drop_last() =~= Seq::<int>::empty());
        assert(sum(Seq::<int>::empty()) == 0);
        assert(sum(last1) == sum(last1.drop_last()) + last1.last());
        assert(last1.last() == q@[0] as int);
        assert(sum(last1) == q@[0] as int);
    }
    q[0]
}

/// The work of one baseline projection group, for output neuron `n`: each of
/// the 256 units accumulates a partial sum over the strided subset of the
/// 4000 flattened elements congruent to its index, iterated lock-step, and
/// the partials are combined by the tree reduction.
fn group_baseline(input: &ConvOutput, weights: &OutputLayer, n: usize) -> (r: i64)
    requires
        input.wf(),
        weights.wf(),
        n < OUT_LAYER_SIZE,
    ensures
        r as int == output_val(ints(input@), weights@, n as int),
        -OUTPUT_LIMIT <= r <= OUTPUT_LIMIT,
{
    let ghost terms = proj_terms(ints(input@), weights@, n as int);
    let mut partials = zero_vec(256);
    proof {
        crate::sums::lemma_sum_const(ints(partials@), 0);
        assert(terms.subrange(0, 0) =~= Seq::<int>::empty());
    }
    let mut step: usize = 0;
    while step < 16
        invariant
            step <= 16,
            n < OUT_LAYER_SIZE,
            input.wf(),
            weights.wf(),
            terms == proj_terms(ints(input@), weights@, n as int),
            partials@.len() == 256,
            forall|v: int|
                0 <= v < 256 ==> -(25_000_000_000_000 * step) <= #[trigger] partials@[v]
                    <= 25_000_000_000_000 * step,
            sum(ints(partials@)) == sum(terms.subrange(0, capped(step * 256))),
        decreases 16 - step,
    {
        let mut u: usize = 0;
        while u < 256
            invariant
                step < 16,
                u <= 256,
                n < OUT_LAYER_SIZE,
                input.wf(),
                weights.wf(),
                terms == proj_terms(ints(input@), weights@, n as int),
                partials@.len() == 256,
                forall|v: int|
                    0 <= v < u ==> -(25_000_000_000_000 * (step + 1)) <= #[trigger] partials@[v]
                        <= 25_000_000_000_000 * (step + 1),
                forall|v: int|
                    u <= v < 256 ==> -(25_000_000_000_000 * step) <= #[trigger] partials@[v]
                        <= 25_000_000_000_000 * step,
                sum(ints(partials@)) == sum(terms.subrange(0, capped(step * 256 + u))),
            decreases 256 - u,
        {
            let k = step * 256 + u;
            if k < 4000 {
                let a = input.data[k];
                let w = weights.data[n * 4000 + k];
                let p = mul_bounded(a, w, CONV_VAL_LIMIT, 10_000);
                let cur = partials[u];
                let nv = cur + p;
                proof {
                    assert(terms[k as int] == (a as int) * (w as int));
                    lemma_sum_prefix_snoc(terms, k as int);
                    lemma_ints_update(partials@, u as int, nv);
                    lemma_sum_update(ints(partials@), u as int, nv as int);
                }
                partials.set(u, nv);
            }
            u += 1;
        }
        step += 1;
    }
    proof {
        assert(terms.subrange(0, capped(4096int)) =~= terms);
        lemma_proj_terms_bounded(input@, weights@, n as int);
        crate::sums::lemma_sum_bound(terms, 25_000_000_000_000);
    }
    tree_reduce(partials)
}

/// The work of one optimized projection group, for output neuron `n`: the
/// same grouping and the same 4000 elements, but each unit reads one
/// contiguous run of 16 elements into its partial before the same tree
/// reduction — a locality change only, proved to leave the result identical.
fn group_optimized(input: &ConvOutput, weights: &OutputLayer, n: usize) -> (r: i64)
    requires
        input.wf(),
        weights.wf(),
        n < OUT_LAYER_SIZE,
    ensures
        r as int == output_val(ints(input@), weights@, n as int),
        -OUTPUT_LIMIT <= r <= OUTPUT_LIMIT,
{
    let ghost terms = proj_terms(ints(input@), weights@, n as int);
    let mut partials = zero_vec(256);
    proof {
        crate::sums::lemma_sum_const(ints(partials@), 0);
        assert(terms.subrange(0, 0) =~= Seq::<int>::empty());
    }
    let mut u: usize = 0;
    while u < 256
        invariant
            u <= 256,
            n < OUT_LAYER_SIZE,
            input.wf(),
            weights.wf(),
            terms == proj_terms(ints(input@), weights@, n as int),
            partials@.len() == 256,
            forall|v: int|
                0 <= v < 256 ==> -400_000_000_000_000 <= #[trigger] partials@[v]
                    <= 400_000_000_000_000,
            forall|v: int| u <= v < 256 ==> #[trigger] partials@[v] == 0i64,
            sum(ints(partials@)) == sum(terms.subrange(0, capped(16 * u))),
        decreases 256 - u,
    {
        let start = u * 16;
        let mut acc: i64 = 0;
        let mut off: usize = 0;
        while off < 16
            invariant
                off <= 16,
                u < 256,
                start == u * 16,
                n < OUT_LAYER_SIZE,
                input.wf(),
                weights.wf(),
                terms == proj_terms(ints(input@), weights@, n as int),
                acc as int == sum(terms.subrange(capped(start as int), capped(start as int + off))),
                -(25_000_000_000_000 * off) <= acc <= 25_000_000_000_000 * off,
            decreases 16 - off,
        {
            let k = start + off;
            if k < 4000 {
                let a = input.data[k];
                let w = weights.data[n * 4000 + k];
                let p = mul_bounded(a, w, CONV_VAL_LIMIT, 10_000);
                proof {
                    assert(terms[k as int] == (a as int) * (w as int));
                    crate::sums::lemma_sum_subrange_snoc(terms, capped(start as int), k as int);
                }
                acc = acc + p;
            }
            off += 1;
        }
        proof {
            lemma_ints_update(partials@, u as int, acc);
            lemma_sum_update(ints(partials@), u as int, acc as int);
            lemma_sum_prefix_split(terms, capped(16 * u), capped(16 * (u as int) + 16));
        }
        partials.set(u, acc);
        u += 1;
    }
    proof {
        assert(terms.subrange(0, capped(4096int)) =~= terms);
        lemma_proj_terms_bounded(input@, weights@, n as int);
        crate::sums::lemma_sum_bound(terms, 25_000_000_000_000);
    }
    tree_reduce(partials)
}

/// Every projection term of a well-formed activation tensor and weight
/// matrix lies within one term limit.
proof fn lemma_proj_terms_bounded(act: Seq<i64>, weights: Seq<i64>, n: int)
    requires
        act.len() == FLATTENED_DIM,
        bounded(act, CONV_VAL_LIMIT),
        weights.len() == 40_000,
        bounded(weights, 10_000),
        0 <= n < OUT_LAYER_SIZE,
    ensures
        forall|t: int|
            0 <= t < 4000 ==> -25_000_000_000_000 <= #[trigger] proj_terms(ints(act), weights, n)[t]
                <= 25_000_000_000_000,
{
    let terms = proj_terms(ints(act), weights, n);
    assert forall|t: int|
        0 <= t < 4000 implies -25_000_000_000_000 <= #[trigger] terms[t]
        <= 25_000_000_000_000 by {
        let a = act[t] as int;
        let w = weights[n * 4000 + t] as int;
        assert(-2_500_000_000 <= a <= 2_500_000_000);
        assert(-10_000 <= w <= 10_000);
        assert(-25_000_000_000_000 <= a * w <= 25_000_000_000_000) by (nonlinear_arith)
            requires
                -2_500_000_000 <= a <= 2_500_000_000,
                -10_000 <= w <= 10_000,
        ;
    }
}

/// Stage 3 of the accelerator model, baseline strategy: one group of 256
/// parallel units per output neuron; each unit accumulates a partial over a
/// disjoint strided subset of the flattened elements, and an in-group tree
/// reduction yields the neuron's value.  Groups of different neurons never
/// interact.
pub fn projection_baseline(input: &ConvOutput, weights: &OutputLayer, output: &mut OutputVec)
    requires
        input.wf(),
        weights.wf(),
    ensures
        final(output).wf(),
        final(output)@.len() == OUT_LAYER_SIZE,
        forall|n: int|
            0 <= n < OUT_LAYER_SIZE ==> (#[trigger] final(output)@[n]) as int == output_val(
                ints(input@),
                weights@,
                n,
            ),
{
    let mut buf: Vec<i64> = Vec::new();
    let mut n: usize = 0;
    while n < OUT_LAYER_SIZE
        invariant
            n <= OUT_LAYER_SIZE,
            input.wf(),
            weights.wf(),
            buf@.len() == n,
            bounded(buf@, OUTPUT_LIMIT),
            forall|m: int|
                0 <= m < n ==> (#[trigger] buf@[m]) as int == output_val(ints(input@), weights@, m),
        decreases OUT_LAYER_SIZE - n,
    {
        let r = group_baseline(input, weights, n);
        buf.push(r);
        n += 1;
    }
    output.data = buf;
}

/// Stage 3 of the accelerator model, optimized strategy: the same grouping
/// and the same elements per group as the baseline, organized for locality;
/// functionally identical by contract.
pub fn projection_optimized(input: &ConvOutput, weights: &OutputLayer, output: &mut OutputVec)
    requires
        input.wf(),
        weights.wf(),
    ensures
        final(output).wf(),
        final(output)@.len() == OUT_LAYER_SIZE,
        forall|n: int|
            0 <= n < OUT_LAYER_SIZE ==> (#[trigger] final(output)@[n]) as int == output_val(
                ints(input@),
                weights@,
                n,
            ),
{
    let mut buf: Vec<i64> = Vec::new();
    let mut n: usize = 0;
    while n < OUT_LAYER_SIZE
        invariant
            n <= OUT_LAYER_SIZE,
            input.wf(),
            weights.wf(),
            buf@.len() == n,
            bounded(buf@, OUTPUT_LIMIT),
            forall|m: int|
                0 <= m < n ==> (#[trigger] buf@[m]) as int == output_val(ints(input@), weights@, m),
        decreases OUT_LAYER_SIZE - n,
    {
        let r = group_optimized(input, weights, n);
        buf.push(r);
        n += 1;
    }
    output.data = buf;
}

/// Which projection strategy a session dispatches; both satisfy the same
/// contract, so the choice never changes the outputs.
#[derive(Clone, Copy, Debug, PartialEq, Eq, Structural)]
pub enum ProjectionStrategy {
    /// Strided per-unit partial sums, then the tree reduction.
    Baseline,
    /// Contiguous per-unit runs, then the same tree reduction.
    Optimized,
}

/// One accelerator execution session: holds the resident copies of the two
/// weight tensors for its whole lifetime — they are uploaded once and shared
/// read-only across calls — and the projection strategy fixed at
/// configuration time.
pub struct Accelerator {
    /// The resident weight tensors.
    pub cnn: Cnn,
    /// The projection strategy to dispatch.
    pub strategy: ProjectionStrategy,
}

impl Accelerator {
    /// The session's resident tensors are well formed.
    pub open spec fn wf(&self) -> bool {
        self.cnn.wf()
    }

    /// Builds one execution session around a loaded model.
    pub fn init(cnn: Cnn, strategy: ProjectionStrategy) -> (r: Accelerator)
        ensures
            r.cnn == cnn,
            r.strategy == strategy,
    {
        Accelerator { cnn, strategy }
    }

    /// One inference call: drives the three stage dispatches through the
    /// pipeline state machine, joining the synchronization barrier on every
    /// edge, and returns exactly the sequential reference's outputs —
    /// whichever projection strategy the session was configured with.
    pub fn compute(&self, input: &InputMatrix) -> (r: Result<OutputVec, RuntimeError>)
        requires
            self.wf(),
            input.wf(),
        ensures
            r matches Ok(out) && out.wf() && out@.len() == OUT_LAYER_SIZE && forall|n: int|
                0 <= n < OUT_LAYER_SIZE ==> (#[trigger] out@[n]) as int == reference_output(
                    input@,
                    self.cnn.conv_layer@,
                    self.cnn.output_layer@,
                    n,
                ),
    {
        let state = PipelineState::Idle;
        let mut conv_output = ConvOutput::zeros();
        let mut output = OutputVec::zeros();

        conv_stage(input, &self.cnn.conv_layer, &mut conv_output);
        let state = match advance(state, StageEvent::Synchronized) {
            Ok(s) => s,
            Err(e) => {
                return Err(e);
            },
        };
        let ghost v1 = conv_output@;

        relu_stage(&mut conv_output);
        let state = match advance(state, StageEvent::Synchronized) {
            Ok(s) => s,
            Err(e) => {
                return Err(e);
            },
        };
        proof {
            let am = activated_map(input@, self.cnn.conv_layer@);
            let cm = conv_map(input@, self.cnn.conv_layer@);
            assert forall|k: int| 0 <= k < FLATTENED_DIM implies ints(conv_output@)[k] == am[k] by {
                assert(v1[k] as int == cm[k]);
                assert(conv_output@[k] == relu_word(v1[k]));
                assert(am[k] == relu_val(cm[k]));
            }
            assert(ints(conv_output@) =~= am);
        }

        match self.strategy {
            ProjectionStrategy::Baseline => {
                projection_baseline(&conv_output, &self.cnn.output_layer, &mut output);
            },
            ProjectionStrategy::Optimized => {
                projection_optimized(&conv_output, &self.cnn.output_layer, &mut output);
            },
        }
        let state = match advance(state, StageEvent::Synchronized) {
            Ok(s) => s,
            Err(e) => {
                return Err(e);
            },
        };
        let state = match advance(state, StageEvent::Synchronized) {
            Ok(s) => s,
            Err(e) => {
                return Err(e);
            },
        };
        proof {
            assert(state == PipelineState::Done);
        }
        Ok(output)
    }
}

} // verus!
