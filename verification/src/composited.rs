use vstd::prelude::*;

use crate::error::CaptureError;
use crate::frame::{frame_pixels, frame_wf, normalize_frame, RawFrame};
use crate::normalize::ChannelOrder;
use crate::normalized::NormalizedImage;

verus! {

/// Where one composited capture stands.
pub enum CompositedPhase {
    /// Resolving a capturable-item handle for the target.
    ResolvingItem,
    /// Creating a GPU device: first with the hardware driver, then, if that
    /// reported "unsupported", once more with the software driver.
    CreatingDevice { software: bool },
    /// Creating the single-buffered frame pool and the capture session over
    /// the item, disabling the border decoration, and starting the session.
    StartingSession,
    /// Blocked on the single-slot handoff with a bounded wait, until the
    /// delivery thread pushes the one frame of this session.
    AwaitingFrame,
    /// Copying the delivered texture into a CPU-readable staging texture of
    /// identical dimensions, then closing the session and the frame pool —
    /// teardown must not depend on the mapped memory.
    Staging { width: u32, height: u32 },
    /// Mapping the staging texture for read access.
    Mapping { width: u32, height: u32 },
    /// The capture produced a normalized image.
    Done { image: NormalizedImage },
    /// The capture failed; every resource has been released.
    Failed { error: CaptureError },
}

/// One composited capture call: its phase and which compositor resources the
/// call still holds.  A session is one-shot: created at capture start, it
/// receives exactly one frame and is torn down before the call returns.
pub struct CompositedState {
    pub phase: CompositedPhase,
    /// The GPU device/context pair is held.
    pub device_open: bool,
    /// The single-buffered frame pool is held.
    pub pool_open: bool,
    /// The capture session — the compositor-side subscription — is held.
    pub session_open: bool,
    /// How long the call may block on the handoff before giving up.
    pub wait_millis: u64,
}

/// What the runner reports back after performing the pending action.
pub enum CompositedEvent {
    /// The target resolved to a capturable item.
    ItemResolved,
    /// The target cannot be captured (for example, it already closed).
    ItemUnavailable,
    /// The GPU device was created with the requested driver.
    DeviceCreated,
    /// Device creation reported "unsupported" for the requested driver.
    DeviceUnsupported,
    /// Device creation failed for another reason.
    DeviceFailed,
    /// Frame pool and session were created and the session was started.
    SessionStarted,
    /// Frame pool or session could not be created or started.
    SessionFailed,
    /// The delivery thread handed over a frame of the given dimensions.
    FrameArrived { width: u32, height: u32 },
    /// The bounded wait on the handoff elapsed without a frame.
    FrameTimedOut,
    /// The staging copy was issued and session and frame pool were closed.
    CopyCompleted,
    /// The staging texture could not be created or copied into.
    CopyFailed,
    /// The staging texture was mapped; `bytes` spans `height` rows that are
    /// `row_pitch` bytes apart.
    Mapped { row_pitch: u32, bytes: Vec<u8> },
    /// The staging texture could not be mapped.
    MapFailed,
}

/// What the runner must do next.
#[derive(Clone, Copy, Debug, PartialEq, Eq, Structural)]
pub enum CompositedAction {
    /// Resolve a capturable-item handle for the target.
    ResolveItem,
    /// Create a GPU device with the hardware or the software driver.
    CreateDevice { software: bool },
    /// Create the frame pool and session, disable the border, register the
    /// frame-arrived callback, and start the session.  The callback must not
    /// block the delivery thread: it pushes the frame and returns.
    StartSession,
    /// Block on the single-slot handoff for at most the given bound.
    AwaitFrame { wait_millis: u64 },
    /// Create the staging texture, issue the GPU-side copy, then close the
    /// session and the frame pool.
    CopyToStaging,
    /// Map the staging texture for CPU read access.
    MapStaging,
    /// Unmap the staging memory, then release the device.  Mapped memory
    /// must never outlive this step.
    UnmapAndRelease,
    /// Release everything still held, device included.
    ReleaseAll,
    /// Nothing is held and nothing is left to do.
    Stop,
}

impl CompositedState {
    /// The resources a call holds in each phase: the device from its creation
    /// to teardown, the frame pool and session only while a frame delivery is
    /// possible, and nothing once the call is over.
    pub open spec fn wf(self) -> bool {
        match self.phase {
            CompositedPhase::ResolvingItem => !self.device_open && !self.pool_open
                && !self.session_open,
            CompositedPhase::CreatingDevice { .. } => !self.device_open && !self.pool_open
                && !self.session_open,
            CompositedPhase::StartingSession => self.device_open && !self.pool_open
                && !self.session_open,
            CompositedPhase::AwaitingFrame => self.device_open && self.pool_open
                && self.session_open,
            CompositedPhase::Staging { .. } => self.device_open && self.pool_open
                && self.session_open,
            CompositedPhase::Mapping { .. } => self.device_open && !self.pool_open
                && !self.session_open,
            CompositedPhase::Done { .. } => !self.device_open && !self.pool_open
                && !self.session_open,
            CompositedPhase::Failed { .. } => !self.device_open && !self.pool_open
                && !self.session_open,
        }
    }

    /// Which events answer the pending action of each phase.
    pub open spec fn expects(self, event: CompositedEvent) -> bool {
        match (self.phase, event) {
            (CompositedPhase::ResolvingItem, CompositedEvent::ItemResolved) => true,
            (CompositedPhase::ResolvingItem, CompositedEvent::ItemUnavailable) => true,
            (CompositedPhase::CreatingDevice { .. }, CompositedEvent::DeviceCreated) => true,
            (CompositedPhase::CreatingDevice { .. }, CompositedEvent::DeviceUnsupported) => true,
            (CompositedPhase::CreatingDevice { .. }, CompositedEvent::DeviceFailed) => true,
            (CompositedPhase::StartingSession, CompositedEvent::SessionStarted) => true,
            (CompositedPhase::StartingSession, CompositedEvent::SessionFailed) => true,
            (CompositedPhase::AwaitingFrame, CompositedEvent::FrameArrived { .. }) => true,
            (CompositedPhase::AwaitingFrame, CompositedEvent::FrameTimedOut) => true,
            (CompositedPhase::Staging { .. }, CompositedEvent::CopyCompleted) => true,
            (CompositedPhase::Staging { .. }, CompositedEvent::CopyFailed) => true,
            (CompositedPhase::Mapping { .. }, CompositedEvent::Mapped { .. }) => true,
            (CompositedPhase::Mapping { .. }, CompositedEvent::MapFailed) => true,
            _ => false,
        }
    }
}

/// The state a capture fails into: the given error, with every resource
/// released and the configured bound kept.
pub open spec fn failed_state(pre: CompositedState, error: CaptureError) -> CompositedState {
    CompositedState {
        phase: CompositedPhase::Failed { error },
        device_open: false,
        pool_open: false,
        session_open: false,
        wait_millis: pre.wait_millis,
    }
}

/// The transition relation of one composited capture: what the state after
/// `event`, and the action it obliges the runner to, must be.
pub open spec fn step_spec(
    pre: CompositedState,
    event: CompositedEvent,
    post: CompositedState,
    action: CompositedAction,
) -> bool {
    match (pre.phase, event) {
        (CompositedPhase::ResolvingItem, CompositedEvent::ItemResolved) => post
            == (CompositedState { phase: CompositedPhase::CreatingDevice { software: false }, ..pre })
            && action == (CompositedAction::CreateDevice { software: false }),
        (CompositedPhase::ResolvingItem, CompositedEvent::ItemUnavailable) => post == failed_state(
            pre,
            CaptureError::UnsupportedTarget,
        ) && action == CompositedAction::Stop,
        (CompositedPhase::CreatingDevice { .. }, CompositedEvent::DeviceCreated) => post
            == (CompositedState {
            phase: CompositedPhase::StartingSession,
            device_open: true,
            ..pre
        }) && action == CompositedAction::StartSession,
        (CompositedPhase::CreatingDevice { software }, CompositedEvent::DeviceUnsupported) => if !software {
            post == (CompositedState {
                phase: CompositedPhase::CreatingDevice { software: true },
                ..pre
            }) && action == (CompositedAction::CreateDevice { software: true })
        } else {
            post == failed_state(pre, CaptureError::DeviceCreationFailed) && action
                == CompositedAction::Stop
        },
        (CompositedPhase::CreatingDevice { .. }, CompositedEvent::DeviceFailed) => post
            == failed_state(pre, CaptureError::DeviceCreationFailed) && action
            == CompositedAction::Stop,
        (CompositedPhase::StartingSession, CompositedEvent::SessionStarted) => post
            == (CompositedState {
            phase: CompositedPhase::AwaitingFrame,
            pool_open: true,
            session_open: true,
            ..pre
        }) && action == (CompositedAction::AwaitFrame { wait_millis: pre.wait_millis }),
        (CompositedPhase::StartingSession, CompositedEvent::SessionFailed) => post == failed_state(
            pre,
            CaptureError::UnsupportedTarget,
        ) && action == CompositedAction::ReleaseAll,
        (CompositedPhase::AwaitingFrame, CompositedEvent::FrameArrived { width, height }) => post
            == (CompositedState { phase: CompositedPhase::Staging { width, height }, ..pre })
            && action == CompositedAction::CopyToStaging,
        (CompositedPhase::AwaitingFrame, CompositedEvent::FrameTimedOut) => post == failed_state(
            pre,
            CaptureError::CaptureTimeout,
        ) && action == CompositedAction::ReleaseAll,
        (CompositedPhase::Staging { width, height }, CompositedEvent::CopyCompleted) => post
            == (CompositedState {
            phase: CompositedPhase::Mapping { width, height },
            pool_open: false,
            session_open: false,
            ..pre
        }) && action == CompositedAction::MapStaging,
        (CompositedPhase::Staging { .. }, CompositedEvent::CopyFailed) => post == failed_state(
            pre,
            CaptureError::UnsupportedTarget,
        ) && action == CompositedAction::ReleaseAll,
        (
            CompositedPhase::Mapping { width, height },
            CompositedEvent::Mapped { row_pitch, bytes },
        ) => {
            let frame = RawFrame::GpuTexture {
                width,
                height,
                row_pitch,
                order: ChannelOrder::Bgra,
                bytes,
            };
            &&& action == CompositedAction::UnmapAndRelease
            &&& !post.device_open
            &&& !post.pool_open
            &&& !post.session_open
            &&& post.wait_millis == pre.wait_millis
            &&& if frame_wf(frame) {
                post.phase matches CompositedPhase::Done { image } && image.wf() && image.width
                    == width && image.height == height && image.buffer@ == frame_pixels(frame)
            } else {
                post.phase == (CompositedPhase::Failed { error: CaptureError::BufferSizeMismatch })
            }
        },
        (CompositedPhase::Mapping { .. }, CompositedEvent::MapFailed) => post == failed_state(
            pre,
            CaptureError::UnsupportedTarget,
        ) && action == CompositedAction::ReleaseAll,
        _ => false,
    }
}

/// Starts one composited capture: the call holds nothing yet and must first
/// resolve a capturable-item handle for its target.
pub fn composited_begin(wait_millis: u64) -> (r: (CompositedState, CompositedAction))
    ensures
        r.0 == (CompositedState {
            phase: CompositedPhase::ResolvingItem,
            device_open: false,
            pool_open: false,
            session_open: false,
            wait_millis,
        }),
        r.1 == CompositedAction::ResolveItem,
        r.0.wf(),
{
    (
        CompositedState {
            phase: CompositedPhase::ResolvingItem,
            device_open: false,
            pool_open: false,
            session_open: false,
            wait_millis,
        },
        CompositedAction::ResolveItem,
    )
}

/// Advances one composited capture by one event: the runner's answer to the
/// pending action.  Returns the new state and the next action the runner
/// must perform; resource bookkeeping stays well-formed, so a capture that
/// ends — in an image or in an error — holds nothing.
pub fn composited_step(state: CompositedState, event: CompositedEvent) -> (r: (
    CompositedState,
    CompositedAction,
))
    requires
        state.wf(),
        state.expects(event),
    ensures
        step_spec(state, event, r.0, r.1),
        r.0.wf(),
{
    let wait_millis = state.wait_millis;
    let device_open = state.device_open;
    let pool_open = state.pool_open;
    let session_open = state.session_open;
    match (state.phase, event) {
        (CompositedPhase::ResolvingItem, CompositedEvent::ItemResolved) => (
            CompositedState {
                phase: CompositedPhase::CreatingDevice { software: false },
                device_open,
                pool_open,
                session_open,
                wait_millis,
            },
            CompositedAction::CreateDevice { software: false },
        ),
        (CompositedPhase::ResolvingItem, CompositedEvent::ItemUnavailable) => (
            fail_with(CaptureError::UnsupportedTarget, wait_millis),
            CompositedAction::Stop,
        ),
        (CompositedPhase::CreatingDevice { .. }, CompositedEvent::DeviceCreated) => (
            CompositedState {
                phase: CompositedPhase::StartingSession,
                device_open: true,
                pool_open,
                session_open,
                wait_millis,
            },
            CompositedAction::StartSession,
        ),
        (CompositedPhase::CreatingDevice { software }, CompositedEvent::DeviceUnsupported) => {
            if !software {
                (
                    CompositedState {
                        phase: CompositedPhase::CreatingDevice { software: true },
                        device_open,
                        pool_open,
                        session_open,
                        wait_millis,
                    },
                    CompositedAction::CreateDevice { software: true },
                )
            } else {
                (fail_with(CaptureError::DeviceCreationFailed, wait_millis), CompositedAction::Stop)
            }
        },
        (CompositedPhase::CreatingDevice { .. }, CompositedEvent::DeviceFailed) => (
            fail_with(CaptureError::DeviceCreationFailed, wait_millis),
            CompositedAction::Stop,
        ),
        (CompositedPhase::StartingSession, CompositedEvent::SessionStarted) => (
            CompositedState {
                phase: CompositedPhase::AwaitingFrame,
                device_open,
                pool_open: true,
                session_open: true,
                wait_millis,
            },
            CompositedAction::AwaitFrame { wait_millis },
        ),
        (CompositedPhase::StartingSession, CompositedEvent::SessionFailed) => (
            fail_with(CaptureError::UnsupportedTarget, wait_millis),
            CompositedAction::ReleaseAll,
        ),
        (CompositedPhase::AwaitingFrame, CompositedEvent::FrameArrived { width, height }) => (
            CompositedState {
                phase: CompositedPhase::Staging { width, height },
                device_open,
                pool_open,
                session_open,
                wait_millis,
            },
            CompositedAction::CopyToStaging,
        ),
        (CompositedPhase::AwaitingFrame, CompositedEvent::FrameTimedOut) => (
            fail_with(CaptureError::CaptureTimeout, wait_millis),
            CompositedAction::ReleaseAll,
        ),
        (CompositedPhase::Staging { width, height }, CompositedEvent::CopyCompleted) => (
            CompositedState {
                phase: CompositedPhase::Mapping { width, height },
                device_open,
                pool_open: false,
                session_open: false,
                wait_millis,
            },
            CompositedAction::MapStaging,
        ),
        (CompositedPhase::Staging { .. }, CompositedEvent::CopyFailed) => (
            fail_with(CaptureError::UnsupportedTarget, wait_millis),
            CompositedAction::ReleaseAll,
        ),
        (
            CompositedPhase::Mapping { width, height },
            CompositedEvent::Mapped { row_pitch, bytes },
        ) => {
            let frame = RawFrame::GpuTexture {
                width,
                height,
                row_pitch,
                order: ChannelOrder::Bgra,
                bytes,
            };
            match normalize_frame(frame) {
                Ok(image) => (
                    CompositedState {
                        phase: CompositedPhase::Done { image },
                        device_open: false,
                        pool_open: false,
                        session_open: false,
                        wait_millis,
                    },
                    CompositedAction::UnmapAndRelease,
                ),
                Err(error) => (
                    fail_with(error, wait_millis),
                    CompositedAction::UnmapAndRelease,
                ),
            }
        },
        (CompositedPhase::Mapping { .. }, CompositedEvent::MapFailed) => (
            fail_with(CaptureError::UnsupportedTarget, wait_millis),
            CompositedAction::ReleaseAll,
        ),
        _ => {
            proof {
                assert(false);
            }
            (fail_with(CaptureError::UnsupportedTarget, wait_millis), CompositedAction::Stop)
        },
    }
}

/// A failed capture holds nothing.
fn fail_with(error: CaptureError, wait_millis: u64) -> (r: CompositedState)
    ensures
        r == (CompositedState {
            phase: CompositedPhase::Failed { error },
            device_open: false,
            pool_open: false,
            session_open: false,
            wait_millis,
        }),
{
    CompositedState {
        phase: CompositedPhase::Failed { error },
        device_open: false,
        pool_open: false,
        session_open: false,
        wait_millis,
    }
}

/// A timeout while waiting on the handoff fails the capture with
/// `CaptureTimeout`, and the session, the frame pool and the device are
/// released even though no frame was consumed — the compositor-side
/// subscription never leaks.
pub proof fn lemma_timeout_releases_everything(
    pre: CompositedState,
    post: CompositedState,
    action: CompositedAction,
)
    requires
        pre.wf(),
        pre.phase is AwaitingFrame,
        step_spec(pre, CompositedEvent::FrameTimedOut, post, action),
    ensures
        post.phase == (CompositedPhase::Failed { error: CaptureError::CaptureTimeout }),
        !post.device_open && !post.pool_open && !post.session_open,
        action == CompositedAction::ReleaseAll,
{
}

/// However a composited capture ends — in an image or in an error — it ends
/// with every compositor resource released.
pub proof fn lemma_finished_capture_holds_nothing(
    pre: CompositedState,
    event: CompositedEvent,
    post: CompositedState,
    action: CompositedAction,
)
    requires
        pre.wf(),
        step_spec(pre, event, post, action),
        post.phase is Done || post.phase is Failed,
    ensures
        !post.device_open && !post.pool_open && !post.session_open,
{
}

/// Device creation falls back once, inside the backend: when the hardware
/// driver reports "unsupported", the capture retries with the software
/// driver instead of failing.  This decision is independent of the
/// orchestrator's backend fallback.
pub proof fn lemma_device_fallback_is_internal(
    pre: CompositedState,
    post: CompositedState,
    action: CompositedAction,
)
    requires
        pre.wf(),
        pre.phase == (CompositedPhase::CreatingDevice { software: false }),
        step_spec(pre, CompositedEvent::DeviceUnsupported, post, action),
    ensures
        post.phase == (CompositedPhase::CreatingDevice { software: true }),
        action == (CompositedAction::CreateDevice { software: true }),
        !(post.phase is Failed),
{
}

} // verus!
