use vstd::prelude::*;

use crate::error::CaptureError;
use crate::normalized::NormalizedImage;

verus! {

/// The channel order of a raw capture buffer, four bytes per pixel.
#[derive(Clone, Copy, Debug, PartialEq, Eq, Structural)]
pub enum ChannelOrder {
    /// Already the canonical order: red, green, blue, alpha.
    Rgba,
    /// The order the compositor and the drawing surfaces deliver:
    /// blue, green, red, alpha.
    Bgra,
}

/// Byte `i` of a buffer whose first and third byte of every four-byte pixel
/// group have been exchanged.
pub open spec fn swapped_byte(s: Seq<u8>, i: int) -> u8 {
    if i % 4 == 0 {
        s[i + 2]
    } else if i % 4 == 2 {
        s[i - 2]
    } else {
        s[i]
    }
}

/// The buffer with the red and blue channel of every pixel exchanged.
pub open spec fn swap_red_blue(s: Seq<u8>) -> Seq<u8> {
    Seq::new(s.len(), |i: int| swapped_byte(s, i))
}

/// Exchanging the red and blue channels is its own inverse: doing it twice
/// returns the original buffer.
pub proof fn lemma_swap_red_blue_involutive(s: Seq<u8>)
    requires
        s.len() % 4 == 0,
    ensures
        swap_red_blue(swap_red_blue(s)) == s,
{
    let t = swap_red_blue(swap_red_blue(s));
    assert forall|i: int| 0 <= i < s.len() implies t[i] == s[i] by {
        if i % 4 == 0 {
            assert(i + 2 < s.len());
            assert((i + 2) % 4 == 2);
        } else if i % 4 == 2 {
            assert((i - 2) % 4 == 0);
        }
    }
    assert(t =~= s);
}

/// Exchanges the first and third byte of every four-byte pixel group in
/// place, turning a BGRA buffer into an RGBA one and the other way round.
pub fn swap_channels(buffer: Vec<u8>) -> (r: Vec<u8>)
    requires
        buffer@.len() % 4 == 0,
    ensures
        r@ == swap_red_blue(buffer@),
{
    let mut buf = buffer;
    let len = buf.len();
    let mut p: usize = 0;
    while p < len / 4
        invariant
            buf@.len() == len,
            len == buffer@.len(),
            len % 4 == 0,
            p <= len / 4,
            forall|i: int| 0 <= i < 4 * p ==> buf@[i] == swapped_byte(buffer@, i),
            forall|i: int| 4 * p <= i < len ==> buf@[i] == buffer@[i],
        decreases len / 4 - p,
    {
        assert(4 * p + 2 < len);
        let low = buf[4 * p];
        let high = buf[4 * p + 2];
        buf.set(4 * p, high);
        buf.set(4 * p + 2, low);
        p += 1;
    }
    assert(buf@ =~= swap_red_blue(buffer@));
    buf
}

/// Turns a raw capture buffer into the canonical image layout.
///
/// For BGRA input the red and blue channels of every pixel are exchanged;
/// RGBA input is kept as it is.  A buffer whose length does not equal
/// `width * height * 4` is rejected with `BufferSizeMismatch`.
pub fn normalize(buffer: Vec<u8>, order: ChannelOrder, width: u32, height: u32) -> (r: Result<
    NormalizedImage,
    CaptureError,
>)
    ensures
        buffer@.len() == width as int * height as int * 4 ==> (r matches Ok(img) && img.wf()
            && img.width == width && img.height == height && img.buffer@ == (match order {
            ChannelOrder::Bgra => swap_red_blue(buffer@),
            ChannelOrder::Rgba => buffer@,
        })),
        buffer@.len() != width as int * height as int * 4 ==> (r matches Err(e) && e
            == CaptureError::BufferSizeMismatch),
{
    let len = buffer.len();
    assert((width as u64) * (height as u64) <= u64::MAX) by (nonlinear_arith)
        requires
            width <= u32::MAX,
            height <= u32::MAX,
    ;
    let pixels: u64 = (width as u64) * (height as u64);
    if len % 4 != 0 || (len / 4) as u64 != pixels {
        return Err(CaptureError::BufferSizeMismatch);
    }
    let out = match order {
        ChannelOrder::Bgra => swap_channels(buffer),
        ChannelOrder::Rgba => buffer,
    };
    Ok(NormalizedImage { width, height, buffer: out })
}

} // verus!
