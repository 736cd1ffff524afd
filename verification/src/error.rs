use vstd::prelude::*;

verus! {

/// The error kinds a capture call can surface.
#[derive(Clone, Copy, Debug, PartialEq, Eq, Structural)]
pub enum CaptureError {
    /// The compositor cannot produce a capturable item for this target.
    UnsupportedTarget,
    /// No GPU device, hardware or software, could be created.
    DeviceCreationFailed,
    /// No frame arrived within the configured bound.
    CaptureTimeout,
    /// The requested capture rectangle has no area.
    InvalidRegion,
    /// The target has no visible pixels.
    EmptySurface,
    /// An internal buffer did not have the size its dimensions demand.
    BufferSizeMismatch,
    /// The operating system could not list the top-level surfaces.
    EnumerationFailed,
}

impl CaptureError {
    /// A short description of the error, for callers that report it.
    pub fn describe(&self) -> (r: String)
        ensures r@.len() > 0,
    {
        let text = match self {
            CaptureError::UnsupportedTarget => "the compositor cannot capture this target",
            CaptureError::DeviceCreationFailed => "no GPU device could be created",
            CaptureError::CaptureTimeout => "no frame arrived within the configured bound",
            CaptureError::InvalidRegion => "the capture rectangle has no area",
            CaptureError::EmptySurface => "the target has no visible pixels",
            CaptureError::BufferSizeMismatch => "a pixel buffer did not match its dimensions",
            CaptureError::EnumerationFailed => "the top-level surfaces could not be listed",
        };
        proof {
            reveal_strlit("the compositor cannot capture this target");
            reveal_strlit("no GPU device could be created");
            reveal_strlit("no frame arrived within the configured bound");
            reveal_strlit("the capture rectangle has no area");
            reveal_strlit("the target has no visible pixels");
            reveal_strlit("a pixel buffer did not match its dimensions");
            reveal_strlit("the top-level surfaces could not be listed");
        }
        text.to_owned()
    }
}

} // verus!
