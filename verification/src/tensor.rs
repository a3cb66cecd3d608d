//! Fixed-shape tensors of the network, each held as a flat contiguous buffer
//! with an explicit index mapping (filter-major, then row-major within each
//! map).  The dimensions are compile-time constants of the system, not
//! configurable parameters.  Every scalar is a 64-bit integer within a fixed
//! magnitude limit; the limits are chosen so that every sum formed by the
//! three pipeline stages provably fits in an `i64`.

use vstd::prelude::*;

verus! {

/// Side length of the square input matrix.
pub const INPUT_DIM: usize = 100;

/// Side length of one square convolution filter and of one tiling window.
pub const FILTER_DIM: usize = 5;

/// Side length of one activation map: `INPUT_DIM / FILTER_DIM` windows fit
/// across the input in each direction.
pub const CONV_OUT_DIM: usize = 20;

/// Number of convolution filters, and so of activation maps.
pub const CONV_LAYER_SIZE: usize = 10;

/// Number of output units of the dense projection.
pub const OUT_LAYER_SIZE: usize = 10;

/// Number of elements of the input matrix.
pub const INPUT_ELEMS: usize = 10_000;

/// Number of elements of one filter.
pub const FILTER_ELEMS: usize = 25;

/// Number of elements of the whole filter bank.
pub const FILTER_BANK_ELEMS: usize = 250;

/// Number of activation values: the length of the flattened vector that the
/// projection stage consumes.
pub const FLATTENED_DIM: usize = 4_000;

/// Number of elements of the projection weight matrix.
pub const WEIGHT_ELEMS: usize = 40_000;

/// Magnitude limit on every input, filter and projection-weight scalar.
pub const COEFF_LIMIT: i64 = 10_000;

/// Magnitude limit on one convolution value: a sum of 25 products of two
/// scalars within `COEFF_LIMIT`.
pub const CONV_VAL_LIMIT: i64 = 2_500_000_000;

/// Magnitude limit on one projection term: a convolution value times a
/// weight scalar.
pub const TERM_LIMIT: i64 = 25_000_000_000_000;

/// Magnitude limit on one output value: a sum of 4000 projection terms.
pub const OUTPUT_LIMIT: i64 = 100_000_000_000_000_000;

/// How many elements of `s` are not zero.
pub open spec fn count_nonzero(s: Seq<i64>) -> int
    decreases s.len(),
{
    if s.len() == 0 {
        0
    } else {
        count_nonzero(s.drop_last()) + if s.last() != 0i64 {
            1int
        } else {
            0int
        }
    }
}

/// Every element of `s` lies within `[-limit, limit]`.
pub open spec fn bounded(s: Seq<i64>, limit: i64) -> bool {
    forall|k: int| 0 <= k < s.len() ==> -limit <= #[trigger] s[k] <= limit
}

/// Decides `bounded(v@, limit)`.
fn all_within(v: &Vec<i64>, limit: i64) -> (r: bool)
    requires
        limit >= 0,
    ensures
        r == bounded(v@, limit),
{
    let n = v.len();
    let mut k: usize = 0;
    while k < n
        invariant
            k <= n,
            n == v@.len(),
            limit >= 0,
            forall|t: int| 0 <= t < k ==> -limit <= #[trigger] v@[t] <= limit,
        decreases n - k,
    {
        let x = v[k];
        if x < -limit || limit < x {
            return false;
        }
        k += 1;
    }
    true
}

/// A zero-filled buffer of `n` words.
pub(crate) fn zero_vec(n: usize) -> (v: Vec<i64>)
    ensures
        v@.len() == n,
        forall|t: int| 0 <= t < n ==> v@[t] == 0i64,
{
    let mut v: Vec<i64> = Vec::new();
    let mut k: usize = 0;
    while k < n
        invariant
            k <= n,
            v@.len() == k,
            forall|t: int| 0 <= t < k ==> v@[t] == 0i64,
        decreases n - k,
    {
        v.push(0);
        k += 1;
    }
    v
}

/// One inference sample: a 100x100 matrix, row-major.
pub struct InputMatrix {
    pub data: Vec<i64>,
}

/// The learned convolution weights: 10 filters of 5x5 scalars, filter-major
/// then row-major.
pub struct ConvLayer {
    pub data: Vec<i64>,
}

/// The 10 activation maps of 20x20 values, filter-major then row-major: the
/// buffer order is exactly the flattening order the projection stage reads.
pub struct ConvOutput {
    pub data: Vec<i64>,
}

/// The dense projection weights: one row of 4000 scalars per output unit,
/// laid out in the same flattening order as `ConvOutput`.
pub struct OutputLayer {
    pub data: Vec<i64>,
}

/// The final inference result: one value per output unit.
pub struct OutputVec {
    pub data: Vec<i64>,
}

/// A loaded model: both weight tensors, logically immutable once built.
pub struct Cnn {
    pub conv_layer: ConvLayer,
    pub output_layer: OutputLayer,
}

impl View for InputMatrix {
    type V = Seq<i64>;

    open spec fn view(&self) -> Seq<i64> {
        self.data@
    }
}

impl View for ConvLayer {
    type V = Seq<i64>;

    open spec fn view(&self) -> Seq<i64> {
        self.data@
    }
}

impl View for ConvOutput {
    type V = Seq<i64>;

    open spec fn view(&self) -> Seq<i64> {
        self.data@
    }
}

impl View for OutputLayer {
    type V = Seq<i64>;

    open spec fn view(&self) -> Seq<i64> {
        self.data@
    }
}

impl View for OutputVec {
    type V = Seq<i64>;

    open spec fn view(&self) -> Seq<i64> {
        self.data@
    }
}

impl InputMatrix {
    /// Shape and magnitude invariant.
    pub open spec fn wf(&self) -> bool {
        self@.len() == INPUT_ELEMS && bounded(self@, COEFF_LIMIT)
    }

    /// Accepts exactly the row-major buffers of the right length whose
    /// elements are within `COEFF_LIMIT`.
    pub fn from_vec(v: Vec<i64>) -> (r: Option<InputMatrix>)
        ensures
            r is Some <==> v@.len() == INPUT_ELEMS && bounded(v@, COEFF_LIMIT),
            r matches Some(m) ==> m@ == v@ && m.wf(),
    {
        if v.len() != INPUT_ELEMS {
            return None;
        }
        if !all_within(&v, COEFF_LIMIT) {
            return None;
        }
        Some(InputMatrix { data: v })
    }

    /// The element at row `r`, column `c`.
    pub fn at(&self, r: usize, c: usize) -> (x: i64)
        requires
            self.wf(),
            r < INPUT_DIM,
            c < INPUT_DIM,
        ensures
            x == self@[r as int * 100 + c as int],
    {
        self.data[r * 100 + c]
    }
}

impl ConvLayer {
    /// Shape and magnitude invariant.
    pub open spec fn wf(&self) -> bool {
        self@.len() == FILTER_BANK_ELEMS && bounded(self@, COEFF_LIMIT)
    }

    /// Accepts exactly the filter-major buffers of the right length whose
    /// elements are within `COEFF_LIMIT`.
    pub fn from_vec(v: Vec<i64>) -> (r: Option<ConvLayer>)
        ensures
            r is Some <==> v@.len() == FILTER_BANK_ELEMS && bounded(v@, COEFF_LIMIT),
            r matches Some(m) ==> m@ == v@ && m.wf(),
    {
        if v.len() != FILTER_BANK_ELEMS {
            return None;
        }
        if !all_within(&v, COEFF_LIMIT) {
            return None;
        }
        Some(ConvLayer { data: v })
    }
}

impl ConvOutput {
    /// Shape and magnitude invariant: every value a convolution stage can
    /// produce lies within `CONV_VAL_LIMIT`.
    pub open spec fn wf(&self) -> bool {
        self@.len() == FLATTENED_DIM && bounded(self@, CONV_VAL_LIMIT)
    }

    /// A zero-filled activation tensor.
    pub fn zeros() -> (r: ConvOutput)
        ensures
            r.wf(),
            r@.len() == FLATTENED_DIM,
            forall|k: int| 0 <= k < FLATTENED_DIM ==> r@[k] == 0i64,
    {
        ConvOutput { data: zero_vec(FLATTENED_DIM) }
    }

    /// Accepts exactly the buffers of the right length whose elements are
    /// within `CONV_VAL_LIMIT`.
    pub fn from_vec(v: Vec<i64>) -> (r: Option<ConvOutput>)
        ensures
            r is Some <==> v@.len() == FLATTENED_DIM && bounded(v@, CONV_VAL_LIMIT),
            r matches Some(m) ==> m@ == v@ && m.wf(),
    {
        if v.len() != FLATTENED_DIM {
            return None;
        }
        if !all_within(&v, CONV_VAL_LIMIT) {
            return None;
        }
        Some(ConvOutput { data: v })
    }

    /// The activation value at flat position `k` of the flattening order.
    pub fn at_flat(&self, k: usize) -> (x: i64)
        requires
            self@.len() == FLATTENED_DIM,
            k < FLATTENED_DIM,
        ensures
            x == self@[k as int],
    {
        self.data[k]
    }

    /// The number of activation values held.
    pub fn len(&self) -> (n: usize)
        ensures
            n == self@.len(),
    {
        self.data.len()
    }

    /// A copy of the flat buffer, in flattening order.
    pub fn to_vec(&self) -> (v: Vec<i64>)
        ensures
            v@ == self@,
    {
        let n = self.data.len();
        let mut v: Vec<i64> = Vec::new();
        let mut k: usize = 0;
        while k < n
            invariant
                k <= n,
                n == self.data@.len(),
                v@ =~= self.data@.subrange(0, k as int),
            decreases n - k,
        {
            v.push(self.data[k]);
            assert(v@ =~= self.data@.subrange(0, k + 1));
            k += 1;
        }
        assert(v@ =~= self.data@);
        v
    }

    /// How many activation values are not zero — the read-only diagnostic of
    /// the tensor, which mutates nothing.
    pub fn non_zero_count(&self) -> (n: usize)
        ensures
            n as int == count_nonzero(self@),
            n <= self@.len(),
    {
        let len = self.data.len();
        let mut count: usize = 0;
        let mut k: usize = 0;
        while k < len
            invariant
                k <= len,
                len == self.data@.len(),
                count as int == count_nonzero(self.data@.subrange(0, k as int)),
                count <= k,
            decreases len - k,
        {
            proof {
                assert(self.data@.subrange(0, k + 1).drop_last() =~= self.data@.subrange(
                    0,
                    k as int,
                ));
            }
            if self.data[k] != 0 {
                count += 1;
            }
            k += 1;
        }
        proof {
            assert(self.data@.subrange(0, len as int) =~= self.data@);
        }
        count
    }
}

impl OutputLayer {
    /// Shape and magnitude invariant.
    pub open spec fn wf(&self) -> bool {
        self@.len() == WEIGHT_ELEMS && bounded(self@, COEFF_LIMIT)
    }

    /// Accepts exactly the row-per-unit buffers of the right length whose
    /// elements are within `COEFF_LIMIT`.
    pub fn from_vec(v: Vec<i64>) -> (r: Option<OutputLayer>)
        ensures
            r is Some <==> v@.len() == WEIGHT_ELEMS && bounded(v@, COEFF_LIMIT),
            r matches Some(m) ==> m@ == v@ && m.wf(),
    {
        if v.len() != WEIGHT_ELEMS {
            return None;
        }
        if !all_within(&v, COEFF_LIMIT) {
            return None;
        }
        Some(OutputLayer { data: v })
    }
}

impl OutputVec {
    /// Shape and magnitude invariant: every value the projection stage can
    /// produce lies within `OUTPUT_LIMIT`.
    pub open spec fn wf(&self) -> bool {
        self@.len() == OUT_LAYER_SIZE && bounded(self@, OUTPUT_LIMIT)
    }

    /// A zero-filled output vector.
    pub fn zeros() -> (r: OutputVec)
        ensures
            r.wf(),
            r@.len() == OUT_LAYER_SIZE,
            forall|k: int| 0 <= k < OUT_LAYER_SIZE ==> r@[k] == 0i64,
    {
        OutputVec { data: zero_vec(OUT_LAYER_SIZE) }
    }

    /// The value of output unit `n`.
    pub fn at(&self, n: usize) -> (x: i64)
        requires
            self@.len() == OUT_LAYER_SIZE,
            n < OUT_LAYER_SIZE,
        ensures
            x == self@[n as int],
    {
        self.data[n]
    }

    /// A copy of the ten output values.
    pub fn to_vec(&self) -> (v: Vec<i64>)
        ensures
            v@ == self@,
    {
        let n = self.data.len();
        let mut v: Vec<i64> = Vec::new();
        let mut k: usize = 0;
        while k < n
            invariant
                k <= n,
                n == self.data@.len(),
                v@ =~= self.data@.subrange(0, k as int),
            decreases n - k,
        {
            v.push(self.data[k]);
            assert(v@ =~= self.data@.subrange(0, k + 1));
            k += 1;
        }
        assert(v@ =~= self.data@);
        v
    }
}

impl Cnn {
    /// Both weight tensors are well formed.
    pub open spec fn wf(&self) -> bool {
        self.conv_layer.wf() && self.output_layer.wf()
    }

    /// Assembles a loaded model from its two weight tensors.
    pub fn new(conv_layer: ConvLayer, output_layer: OutputLayer) -> (r: Cnn)
        ensures
            r.conv_layer == conv_layer,
            r.output_layer == output_layer,
    {
        Cnn { conv_layer, output_layer }
    }
}

} // verus!
