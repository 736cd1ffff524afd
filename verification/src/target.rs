use vstd::prelude::*;

verus! {

/// A rectangle in virtual-screen coordinates.
#[derive(Clone, Copy, Debug, PartialEq, Eq, Structural)]
pub struct Rect {
    pub x: i32,
    pub y: i32,
    pub width: i32,
    pub height: i32,
}

/// A monitor: its handle and its bounding rectangle in virtual-screen
/// coordinates.
#[derive(Clone, Copy, Debug, PartialEq, Eq, Structural)]
pub struct MonitorInfo {
    pub handle: u64,
    pub bounds: Rect,
}

/// A window: its handle, its owning process, its host monitor, its client
/// rectangle, and whether it is currently minimized.
#[derive(Clone, Copy, Debug, PartialEq, Eq, Structural)]
pub struct WindowInfo {
    pub handle: u64,
    pub pid: u32,
    pub monitor: MonitorInfo,
    pub client: Rect,
    pub minimized: bool,
}

/// What one capture call aims at.  A target is resolved fresh on every call
/// and never cached: it may move, resize or close between calls.
#[derive(Clone, Copy, Debug, PartialEq, Eq, Structural)]
pub enum CaptureTarget {
    Monitor { monitor: MonitorInfo },
    Window { window: WindowInfo },
}

} // verus!
