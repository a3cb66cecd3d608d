//! Stage sequencing of the accelerator pipeline as an explicit state
//! machine.  Parallel work is dispatched asynchronously, so the driver must
//! join a synchronization barrier after each stage before the next stage may
//! read its results; the machine makes that ordering explicit: an edge is
//! taken only when the driver reports the barrier drained, and a fault on an
//! edge aborts the call with the error of this module's taxonomy.

use vstd::prelude::*;

verus! {

/// Why a session could not be constructed: fatal, raised once at session
/// construction, never retried internally.
#[derive(Clone, Copy, Debug, PartialEq, Eq, Structural)]
pub enum InitializationError {
    /// No usable accelerator device was found.
    NoDevice,
    /// The kernel module failed to load.
    KernelLoadFailed,
    /// Device memory for a resident weight buffer could not be allocated.
    ResidentAllocationFailed,
}

/// Why one inference call failed: fatal to that call, surfaced to the
/// caller, never silently downgraded to a fallback inside the pipeline.
#[derive(Clone, Copy, Debug, PartialEq, Eq, Structural)]
pub enum RuntimeError {
    /// A per-call device buffer could not be allocated.
    AllocationFailed,
    /// A parallel stage failed to dispatch or to drain its stream.
    LaunchFailed,
}

/// Where one inference call stands: each stage is dispatched in order, and
/// the pipeline is `Done` once the projection's barrier has drained.
#[derive(Clone, Copy, Debug, PartialEq, Eq, Structural)]
pub enum PipelineState {
    /// No stage dispatched yet.
    Idle,
    /// Stage 1 dispatched and joined.
    ConvolutionDispatched,
    /// Stage 2 dispatched and joined.
    ActivationDispatched,
    /// Stage 3 dispatched and joined.
    ProjectionDispatched,
    /// All three stages complete; the output may be read.
    Done,
}

/// What the driver reports about the edge just attempted.
#[derive(Clone, Copy, Debug, PartialEq, Eq, Structural)]
pub enum StageEvent {
    /// The stage's work was dispatched and the stream drained through the
    /// synchronization barrier.
    Synchronized,
    /// A per-call device buffer allocation failed.
    AllocationFault,
    /// The stage failed to dispatch, or the stream faulted.
    LaunchFault,
}

/// The stage that follows each state in the fixed dispatch order.
pub open spec fn next_state(s: PipelineState) -> PipelineState {
    match s {
        PipelineState::Idle => PipelineState::ConvolutionDispatched,
        PipelineState::ConvolutionDispatched => PipelineState::ActivationDispatched,
        PipelineState::ActivationDispatched => PipelineState::ProjectionDispatched,
        PipelineState::ProjectionDispatched => PipelineState::Done,
        PipelineState::Done => PipelineState::Done,
    }
}

/// The exact transition table: a synchronized edge advances one stage, a
/// fault aborts the call with the matching error, and nothing else happens.
pub open spec fn advance_spec(s: PipelineState, e: StageEvent) -> Result<
    PipelineState,
    RuntimeError,
> {
    match e {
        StageEvent::Synchronized => Ok(next_state(s)),
        StageEvent::AllocationFault => Err(RuntimeError::AllocationFailed),
        StageEvent::LaunchFault => Err(RuntimeError::LaunchFailed),
    }
}

/// Takes one edge of the pipeline state machine.  `Done` has no outgoing
/// edge: a finished call hands nothing more to the driver.
pub fn advance(s: PipelineState, e: StageEvent) -> (r: Result<PipelineState, RuntimeError>)
    requires
        s != PipelineState::Done,
    ensures
        r == advance_spec(s, e),
{
    match e {
        StageEvent::Synchronized => Ok(
            match s {
                PipelineState::Idle => PipelineState::ConvolutionDispatched,
                PipelineState::ConvolutionDispatched => PipelineState::ActivationDispatched,
                PipelineState::ActivationDispatched => PipelineState::ProjectionDispatched,
                PipelineState::ProjectionDispatched => PipelineState::Done,
                PipelineState::Done => PipelineState::Done,
            },
        ),
        StageEvent::AllocationFault => Err(RuntimeError::AllocationFailed),
        StageEvent::LaunchFault => Err(RuntimeError::LaunchFailed),
    }
}

/// The three stages are strictly sequential: from `Idle`, four synchronized
/// edges pass through convolution, activation and projection dispatch, in
/// that order and no other, and end in `Done`; and any fault on the way
/// surfaces as the matching call error.
pub proof fn lemma_pipeline_order()
    ensures
        advance_spec(PipelineState::Idle, StageEvent::Synchronized) == Ok::<
            PipelineState,
            RuntimeError,
        >(PipelineState::ConvolutionDispatched),
        advance_spec(PipelineState::ConvolutionDispatched, StageEvent::Synchronized) == Ok::<
            PipelineState,
            RuntimeError,
        >(PipelineState::ActivationDispatched),
        advance_spec(PipelineState::ActivationDispatched, StageEvent::Synchronized) == Ok::<
            PipelineState,
            RuntimeError,
        >(PipelineState::ProjectionDispatched),
        advance_spec(PipelineState::ProjectionDispatched, StageEvent::Synchronized) == Ok::<
            PipelineState,
            RuntimeError,
        >(PipelineState::Done),
        forall|s: PipelineState|
            advance_spec(s, StageEvent::AllocationFault) == Err::<PipelineState, RuntimeError>(
                RuntimeError::AllocationFailed,
            ),
        forall|s: PipelineState|
            advance_spec(s, StageEvent::LaunchFault) == Err::<PipelineState, RuntimeError>(
                RuntimeError::LaunchFailed,
            ),
{
}

} // verus!
