//! Forward-pass inference of a fixed-topology convolutional network: a
//! 100x100 input matrix is tiled into 400 non-overlapping 5x5 windows, each
//! of 10 filters is correlated with every window (stage 1), the resulting
//! 10x20x20 activation maps pass through an elementwise `max(0, x)` (stage 2),
//! and the flattened 4000-element vector is projected onto 10 output units by
//! dense dot products (stage 3).
//!
//! Two engines share one contract: a straight-line sequential reference
//! (`cpu`) and an accelerator execution model (`accel`) that partitions each
//! stage across parallel execution units and reduces partial sums by pairwise
//! tree combination.  Both are proved to return exactly the same outputs,
//! described by the spec functions of `cpu`.  Scalars are bounded 64-bit
//! integers; every sum in the pipeline is proved free of overflow.

pub mod accel;
pub mod cpu;
pub mod laws;
pub mod pipeline;
pub mod sums;
pub mod tensor;
