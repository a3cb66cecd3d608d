use cnn::pipeline::{advance, PipelineState, RuntimeError, StageEvent};

#[test]
fn synchronized_edges_walk_the_stages_in_order() {
    let s1 = advance(PipelineState::Idle, StageEvent::Synchronized).expect("edge taken");
    assert_eq!(s1, PipelineState::ConvolutionDispatched);
    let s2 = advance(s1, StageEvent::Synchronized).expect("edge taken");
    assert_eq!(s2, PipelineState::ActivationDispatched);
    let s3 = advance(s2, StageEvent::Synchronized).expect("edge taken");
    assert_eq!(s3, PipelineState::ProjectionDispatched);
    let s4 = advance(s3, StageEvent::Synchronized).expect("edge taken");
    assert_eq!(s4, PipelineState::Done);
}

#[test]
fn allocation_fault_aborts_with_allocation_error() {
    let r = advance(PipelineState::Idle, StageEvent::AllocationFault);
    assert_eq!(r, Err(RuntimeError::AllocationFailed));
    let r2 = advance(PipelineState::ActivationDispatched, StageEvent::AllocationFault);
    assert_eq!(r2, Err(RuntimeError::AllocationFailed));
}

#[test]
fn launch_fault_aborts_with_launch_error() {
    let r = advance(PipelineState::ConvolutionDispatched, StageEvent::LaunchFault);
    assert_eq!(r, Err(RuntimeError::LaunchFailed));
    let r2 = advance(PipelineState::ProjectionDispatched, StageEvent::LaunchFault);
    assert_eq!(r2, Err(RuntimeError::LaunchFailed));
}
