use vstd::prelude::*;

use crate::error::CaptureError;
use crate::normalized::NormalizedImage;
use crate::target::CaptureTarget;

verus! {

/// The orchestrator's next move.  A capture either yields a fully normalized
/// image or a single typed error: no partial result is ever surfaced.
pub enum FlowStep {
    /// Attempt the composited backend.
    RunComposited,
    /// Attempt the blit backend.
    RunBlit,
    /// The capture is decided.
    Finished { result: Result<NormalizedImage, CaptureError> },
}

/// Whether the target's requested rectangle has no area.
pub open spec fn region_empty(target: CaptureTarget) -> bool {
    match target {
        CaptureTarget::Monitor { monitor: info } => info.bounds.width <= 0 || info.bounds.height <= 0,
        CaptureTarget::Window { .. } => false,
    }
}

/// What starting a capture decides.
pub open spec fn flow_begin(target: CaptureTarget) -> FlowStep {
    if region_empty(target) {
        FlowStep::Finished { result: Err(CaptureError::InvalidRegion) }
    } else {
        FlowStep::RunComposited
    }
}

/// What the composited backend's outcome decides: an image ends the capture;
/// any composited error is discarded and the blit backend is attempted.
pub open spec fn flow_after_composited(outcome: Result<NormalizedImage, CaptureError>) -> FlowStep {
    match outcome {
        Ok(image) => FlowStep::Finished { result: Ok(image) },
        Err(_) => FlowStep::RunBlit,
    }
}

/// What the blit backend's outcome decides: the blit backend is the
/// universally supported path, so its outcome — image or error — is the
/// capture's outcome.
pub open spec fn flow_after_blit(outcome: Result<NormalizedImage, CaptureError>) -> FlowStep {
    FlowStep::Finished { result: outcome }
}

/// Starts one capture.  A monitor region without area is rejected with
/// `InvalidRegion` before either backend is invoked; every other target goes
/// to the composited backend first.
pub fn capture_begin(target: &CaptureTarget) -> (r: FlowStep)
    ensures
        r == flow_begin(*target),
{
    match target {
        CaptureTarget::Monitor { monitor: info } => {
            if info.bounds.width <= 0 || info.bounds.height <= 0 {
                return FlowStep::Finished { result: Err(CaptureError::InvalidRegion) };
            }
        },
        CaptureTarget::Window { .. } => {},
    }
    FlowStep::RunComposited
}

/// Continues after the composited backend: its image ends the capture, and
/// any of its errors is discarded in favour of the blit attempt.
pub fn capture_after_composited(outcome: Result<NormalizedImage, CaptureError>) -> (r: FlowStep)
    ensures
        r == flow_after_composited(outcome),
{
    match outcome {
        Ok(image) => FlowStep::Finished { result: Ok(image) },
        Err(_) => FlowStep::RunBlit,
    }
}

/// Ends the capture with the blit backend's outcome, the outcome of record.
pub fn capture_after_blit(outcome: Result<NormalizedImage, CaptureError>) -> (r: FlowStep)
    ensures
        r == flow_after_blit(outcome),
{
    FlowStep::Finished { result: outcome }
}

/// The backend fallback is transparent to the caller: when the composited
/// backend fails with any error and the blit backend returns an image, the
/// capture returns exactly the blit backend's image.
pub proof fn lemma_fallback_transparent(
    target: CaptureTarget,
    error: CaptureError,
    image: NormalizedImage,
)
    requires
        !region_empty(target),
    ensures
        flow_begin(target) == FlowStep::RunComposited,
        flow_after_composited(Err(error)) == FlowStep::RunBlit,
        flow_after_blit(Ok(image)) == (FlowStep::Finished {
            result: Ok::<NormalizedImage, CaptureError>(image),
        }),
{
}

/// When both backends fail, the blit backend's error is the error of record:
/// the composited error never reaches the caller.
pub proof fn lemma_blit_error_is_error_of_record(
    composited_error: CaptureError,
    blit_error: CaptureError,
)
    ensures
        flow_after_composited(Err(composited_error)) == FlowStep::RunBlit,
        flow_after_blit(Err(blit_error)) == (FlowStep::Finished {
            result: Err::<NormalizedImage, CaptureError>(blit_error),
        }),
{
}

} // verus!
