use vstd::prelude::*;

use crate::error::CaptureError;
use crate::frame::{frame_pixels, frame_wf, normalize_frame, RawFrame};
use crate::normalized::NormalizedImage;
use crate::target::CaptureTarget;

verus! {

/// The parameters of one blit capture: the rectangle the runner must copy
/// with a surface-to-surface block transfer, and the demand that the bitmap
/// bits be extracted top-down — the device convention is bottom-up, and an
/// unconverted result would be vertically mirrored.
#[derive(Clone, Copy, Debug, PartialEq, Eq, Structural)]
pub struct BlitPlan {
    pub x: i32,
    pub y: i32,
    pub width: i32,
    pub height: i32,
    pub top_down: bool,
}

/// Validates the target and plans the blit.  A monitor region without area
/// is rejected with `InvalidRegion` before any drawing-surface call is made;
/// a window that is minimized or has no client area is rejected with
/// `EmptySurface`.
pub fn blit_begin(target: &CaptureTarget) -> (r: Result<BlitPlan, CaptureError>)
    ensures
        match *target {
            CaptureTarget::Monitor { monitor: info } => if info.bounds.width <= 0 || info.bounds.height
                <= 0 {
                r == Err::<BlitPlan, CaptureError>(CaptureError::InvalidRegion)
            } else {
                r == Ok::<BlitPlan, CaptureError>(
                    BlitPlan {
                        x: info.bounds.x,
                        y: info.bounds.y,
                        width: info.bounds.width,
                        height: info.bounds.height,
                        top_down: true,
                    },
                )
            },
            CaptureTarget::Window { window: info } => if info.minimized || info.client.width <= 0
                || info.client.height <= 0 {
                r == Err::<BlitPlan, CaptureError>(CaptureError::EmptySurface)
            } else {
                r == Ok::<BlitPlan, CaptureError>(
                    BlitPlan {
                        x: info.client.x,
                        y: info.client.y,
                        width: info.client.width,
                        height: info.client.height,
                        top_down: true,
                    },
                )
            },
        },
{
    match target {
        CaptureTarget::Monitor { monitor: info } => {
            if info.bounds.width <= 0 || info.bounds.height <= 0 {
                Err(CaptureError::InvalidRegion)
            } else {
                Ok(
                    BlitPlan {
                        x: info.bounds.x,
                        y: info.bounds.y,
                        width: info.bounds.width,
                        height: info.bounds.height,
                        top_down: true,
                    },
                )
            }
        },
        CaptureTarget::Window { window: info } => {
            if info.minimized || info.client.width <= 0 || info.client.height <= 0 {
                Err(CaptureError::EmptySurface)
            } else {
                Ok(
                    BlitPlan {
                        x: info.client.x,
                        y: info.client.y,
                        width: info.client.width,
                        height: info.client.height,
                        top_down: true,
                    },
                )
            }
        },
    }
}

/// Finishes a blit capture: the bitmap bits the runner extracted become a
/// normalized image.  The bits carry blue-green-red-alpha pixels; when the
/// runner could not request top-down extraction, `bottom_up` says so and the
/// rows are reversed here.  Bits that do not amount to exactly
/// `width * height * 4` bytes are rejected with `BufferSizeMismatch`.
pub fn blit_finish(width: u32, height: u32, bottom_up: bool, bits: Vec<u8>) -> (r: Result<
    NormalizedImage,
    CaptureError,
>)
    ensures
        ({
            let frame = RawFrame::DeviceBitmap { width, height, bottom_up, bytes: bits };
            &&& frame_wf(frame) ==> (r matches Ok(img) && img.wf() && img.width == width
                && img.height == height && img.buffer@ == frame_pixels(frame))
            &&& !frame_wf(frame) ==> r == Err::<NormalizedImage, CaptureError>(
                CaptureError::BufferSizeMismatch,
            )
        }),
{
    normalize_frame(RawFrame::DeviceBitmap { width, height, bottom_up, bytes: bits })
}

} // verus!
