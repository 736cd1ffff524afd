use vstd::prelude::*;

verus! {

/// A tightly packed, top-down RGBA8 image.
///
/// This is the only pixel type that crosses the library boundary: every
/// successful capture ends in one of these.
#[derive(Clone, Debug)]
pub struct NormalizedImage {
    pub width: u32,
    pub height: u32,
    pub buffer: Vec<u8>,
}

impl NormalizedImage {
    /// The buffer holds exactly four bytes for every pixel.
    pub open spec fn wf(self) -> bool {
        self.buffer@.len() == self.width as int * self.height as int * 4
    }
}

} // verus!
