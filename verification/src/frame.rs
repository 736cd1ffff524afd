use vstd::prelude::*;

use crate::error::CaptureError;
use crate::normalize::{normalize, swap_red_blue, ChannelOrder};
use crate::normalized::NormalizedImage;

verus! {

/// A backend-specific capture result before normalization.
pub enum RawFrame {
    /// A GPU texture mapped for CPU reads.  Rows are `row_pitch` bytes apart,
    /// and the pitch may exceed the `width * 4` payload bytes of a row; the
    /// padding must never reach the normalized output.
    GpuTexture { width: u32, height: u32, row_pitch: u32, order: ChannelOrder, bytes: Vec<u8> },
    /// A device-context bitmap: tightly packed rows, delivered bottom-up when
    /// the drawing surface used its native row order.
    DeviceBitmap { width: u32, height: u32, bottom_up: bool, bytes: Vec<u8> },
}

/// The `width * 4` payload bytes of row `r` of a mapped texture whose rows
/// are `pitch` bytes apart.
pub open spec fn padded_row(src: Seq<u8>, r: int, width: int, pitch: int) -> Seq<u8> {
    src.subrange(r * pitch, r * pitch + width * 4)
}

/// The first `rows` rows of a mapped texture, tightly packed in order.
pub open spec fn repacked_rows(src: Seq<u8>, rows: int, width: int, pitch: int) -> Seq<u8>
    decreases rows,
{
    if rows <= 0 {
        Seq::empty()
    } else {
        repacked_rows(src, rows - 1, width, pitch) + padded_row(src, rows - 1, width, pitch)
    }
}

/// Row `r` of a tightly packed buffer of `width * 4`-byte rows.
pub open spec fn tight_row(src: Seq<u8>, r: int, width: int) -> Seq<u8> {
    src.subrange(r * (width * 4), r * (width * 4) + width * 4)
}

/// The first `rows` rows of a tightly packed buffer in reverse order: the
/// first row of the result is row `rows - 1` of the source.
pub open spec fn reversed_rows(src: Seq<u8>, rows: int, width: int) -> Seq<u8>
    decreases rows,
{
    if rows <= 0 {
        Seq::empty()
    } else {
        tight_row(src, rows - 1, width) + reversed_rows(src, rows - 1, width)
    }
}

/// Repacking `rows` rows yields exactly `rows * width * 4` bytes: the output
/// carries no padding.
pub proof fn lemma_repacked_rows_len(src: Seq<u8>, rows: int, width: int, pitch: int)
    requires
        0 <= rows,
        0 <= width,
        width * 4 <= pitch,
        rows * pitch <= src.len(),
    ensures
        repacked_rows(src, rows, width, pitch).len() == rows * (width * 4),
    decreases rows,
{
    if rows > 0 {
        assert((rows - 1) * pitch >= 0 && (rows - 1) * pitch + pitch == rows * pitch) by (nonlinear_arith)
            requires
                rows >= 1,
                pitch >= 0,
        ;
        lemma_repacked_rows_len(src, rows - 1, width, pitch);
        assert((rows - 1) * (width * 4) + width * 4 == rows * (width * 4)) by (nonlinear_arith);
        assert((rows - 1) * pitch + width * 4 <= src.len());
        assert(padded_row(src, rows - 1, width, pitch).len() == width * 4);
        assert(repacked_rows(src, rows, width, pitch) == repacked_rows(src, rows - 1, width, pitch)
            + padded_row(src, rows - 1, width, pitch));
        assert(repacked_rows(src, rows, width, pitch).len() == (rows - 1) * (width * 4) + width
            * 4);
    } else {
        assert(rows * (width * 4) == 0) by (nonlinear_arith)
            requires
                rows == 0,
        ;
    }
}

/// Reversing the rows of a tightly packed buffer keeps its length.
pub proof fn lemma_reversed_rows_len(src: Seq<u8>, rows: int, width: int)
    requires
        0 <= rows,
        0 <= width,
        rows * (width * 4) <= src.len(),
    ensures
        reversed_rows(src, rows, width).len() == rows * (width * 4),
    decreases rows,
{
    if rows > 0 {
        assert((rows - 1) * (width * 4) >= 0 && (rows - 1) * (width * 4) + width * 4 == rows * (
        width * 4)) by (nonlinear_arith)
            requires
                rows >= 1,
                width >= 0,
        ;
        lemma_reversed_rows_len(src, rows - 1, width);
        assert((rows - 1) * (width * 4) + width * 4 <= src.len());
        assert(tight_row(src, rows - 1, width).len() == width * 4);
        assert(reversed_rows(src, rows, width) == tight_row(src, rows - 1, width) + reversed_rows(
            src,
            rows - 1,
            width,
        ));
        assert(reversed_rows(src, rows, width).len() == width * 4 + (rows - 1) * (width * 4));
    } else {
        assert(rows * (width * 4) == 0) by (nonlinear_arith)
            requires
                rows == 0,
        ;
    }
}

/// The repacked buffer has no gaps: byte `c` of row `r` of the repacked
/// buffer is byte `c` of row `r` of the mapped texture, wherever the pitch
/// put that row.
pub proof fn lemma_repacked_rows_index(
    src: Seq<u8>,
    rows: int,
    width: int,
    pitch: int,
    r: int,
    c: int,
)
    requires
        0 <= r < rows,
        0 <= c < width * 4,
        width * 4 <= pitch,
        rows * pitch <= src.len(),
    ensures
        repacked_rows(src, rows, width, pitch)[r * (width * 4) + c] == src[r * pitch + c],
    decreases rows,
{
    assert((rows - 1) * pitch >= 0 && (rows - 1) * pitch + pitch == rows * pitch) by (nonlinear_arith)
        requires
            rows >= 1,
            pitch >= 0,
    ;
    assert((rows - 1) * (width * 4) + width * 4 == rows * (width * 4)) by (nonlinear_arith);
    lemma_repacked_rows_len(src, rows, width, pitch);
    lemma_repacked_rows_len(src, rows - 1, width, pitch);
    if r == rows - 1 {
        assert(r * (width * 4) + c >= (rows - 1) * (width * 4));
        assert(padded_row(src, r, width, pitch)[c] == src[r * pitch + c]);
    } else {
        assert(r * (width * 4) + c < (rows - 1) * (width * 4)) by (nonlinear_arith)
            requires
                0 <= r < rows - 1,
                0 <= c < width * 4,
        ;
        lemma_repacked_rows_index(src, rows - 1, width, pitch, r, c);
    }
}

/// Copies the payload of every row of a mapped texture into a tightly packed
/// buffer, using the source row stride and the destination row stride
/// independently, so that none of the pitch padding reaches the output.
#[verifier::loop_isolation(false)]
pub fn repack_rows(bytes: &Vec<u8>, width: u32, height: u32, row_pitch: u32) -> (r: Vec<u8>)
    requires
        width as int * 4 <= row_pitch as int,
        height as int * row_pitch as int <= bytes@.len(),
    ensures
        r@ == repacked_rows(bytes@, height as int, width as int, row_pitch as int),
        r@.len() == height as int * (width as int * 4),
{
    let len = bytes.len();
    assert(width as int * 4 <= usize::MAX as int);
    let row_bytes: usize = (width as usize) * 4;
    let pitch: usize = row_pitch as usize;
    let mut out: Vec<u8> = Vec::new();
    let mut row: usize = 0;
    let mut base: usize = 0;
    while row < height as usize
        invariant
            row <= height as int,
            base == row as int * row_pitch as int,
            out@ == repacked_rows(bytes@, row as int, width as int, row_pitch as int),
        decreases height as int - row,
    {
        proof {
            assert((row as int + 1) * (row_pitch as int) == row as int * row_pitch as int
                + row_pitch as int) by (nonlinear_arith);
            assert((row as int + 1) * (row_pitch as int) <= height as int * (row_pitch as int))
                by (nonlinear_arith)
                requires
                    row as int + 1 <= height as int,
                    row_pitch as int >= 0,
            ;
        }
        assert(base + row_bytes <= len);
        assert(base + pitch <= len);
        let ghost out0 = out@;
        let mut c: usize = 0;
        while c < row_bytes
            invariant
                c <= row_bytes,
                out@ == out0 + bytes@.subrange(base as int, base as int + c as int),
            decreases row_bytes - c,
        {
            let b = bytes[base + c];
            out.push(b);
            proof {
                assert(bytes@.subrange(base as int, base as int + c as int + 1) =~= bytes@
                    .subrange(base as int, base as int + c as int) + seq![b]);
                assert(out0 + bytes@.subrange(base as int, base as int + c as int + 1) =~= out0
                    + bytes@.subrange(base as int, base as int + c as int) + seq![b]);
            }
            c += 1;
        }
        proof {
            assert(bytes@.subrange(base as int, base as int + row_bytes as int) =~= padded_row(
                bytes@,
                row as int,
                width as int,
                row_pitch as int,
            ));
            assert(out@ =~= repacked_rows(
                bytes@,
                row as int + 1,
                width as int,
                row_pitch as int,
            ));
        }
        base += pitch;
        row += 1;
    }
    proof {
        lemma_repacked_rows_len(bytes@, height as int, width as int, row_pitch as int);
    }
    out
}

/// Reverses the row order of a tightly packed buffer, turning a bottom-up
/// bitmap into the canonical top-down layout.
#[verifier::loop_isolation(false)]
pub fn flip_rows(bytes: &Vec<u8>, width: u32, height: u32) -> (r: Vec<u8>)
    requires
        bytes@.len() == height as int * (width as int * 4),
    ensures
        r@ == reversed_rows(bytes@, height as int, width as int),
        r@.len() == bytes@.len(),
{
    proof {
        lemma_reversed_rows_len(bytes@, height as int, width as int);
    }
    if height == 0 {
        let out: Vec<u8> = Vec::new();
        return out;
    }
    proof {
        assert(width as int * 4 <= height as int * (width as int * 4)) by (nonlinear_arith)
            requires
                height as int >= 1,
                width as int >= 0,
        ;
    }
    let total = bytes.len();
    let row_bytes: usize = (width as usize) * 4;
    let mut out: Vec<u8> = Vec::new();
    let mut row: usize = height as usize;
    while row > 0
        invariant
            row <= height as int,
            out@ + reversed_rows(bytes@, row as int, width as int) == reversed_rows(
                bytes@,
                height as int,
                width as int,
            ),
        decreases row,
    {
        row -= 1;
        proof {
            assert(row as int * (width as int * 4) + (width as int * 4) == (row as int + 1) * (
            width as int * 4)) by (nonlinear_arith);
            assert((row as int + 1) * (width as int * 4) <= height as int * (width as int * 4))
                by (nonlinear_arith)
                requires
                    row as int + 1 <= height as int,
                    width as int >= 0,
            ;
            assert(row as int * (width as int * 4) >= 0) by (nonlinear_arith)
                requires
                    row as int >= 0,
                    width as int >= 0,
            ;
        }
        assert(row as int * row_bytes as int + row_bytes as int <= total as int);
        let base: usize = row * row_bytes;
        assert(base + row_bytes <= total);
        let ghost out0 = out@;
        let mut c: usize = 0;
        while c < row_bytes
            invariant
                c <= row_bytes,
                out@ == out0 + bytes@.subrange(base as int, base as int + c as int),
        decreases row_bytes - c,
        {
            let b = bytes[base + c];
            out.push(b);
            proof {
                assert(bytes@.subrange(base as int, base as int + c as int + 1) =~= bytes@
                    .subrange(base as int, base as int + c as int) + seq![b]);
                assert(out0 + bytes@.subrange(base as int, base as int + c as int + 1) =~= out0
                    + bytes@.subrange(base as int, base as int + c as int) + seq![b]);
            }
            c += 1;
        }
        proof {
            assert(bytes@.subrange(base as int, base as int + row_bytes as int) =~= tight_row(
                bytes@,
                row as int,
                width as int,
            ));
            assert(out0 + tight_row(bytes@, row as int, width as int) + reversed_rows(
                bytes@,
                row as int,
                width as int,
            ) =~= out0 + reversed_rows(bytes@, row as int + 1, width as int));
        }
    }
    proof {
        assert(out@ + reversed_rows(bytes@, 0, width as int) =~= out@);
    }
    out
}

/// Whether a raw frame's buffer is consistent with its dimensions: the row
/// pitch of a mapped texture covers a full row of pixels and the buffer
/// covers every row, and a device bitmap is exactly `width * height * 4`
/// bytes.
pub open spec fn frame_wf(f: RawFrame) -> bool {
    match f {
        RawFrame::GpuTexture { width, height, row_pitch, bytes, .. } => width as int * 4
            <= row_pitch as int && height as int * row_pitch as int <= bytes@.len(),
        RawFrame::DeviceBitmap { width, height, bytes, .. } => bytes@.len() == width as int
            * height as int * 4,
    }
}

pub open spec fn frame_width(f: RawFrame) -> u32 {
    match f {
        RawFrame::GpuTexture { width, .. } => width,
        RawFrame::DeviceBitmap { width, .. } => width,
    }
}

pub open spec fn frame_height(f: RawFrame) -> u32 {
    match f {
        RawFrame::GpuTexture { height, .. } => height,
        RawFrame::DeviceBitmap { height, .. } => height,
    }
}

/// The canonical RGBA bytes a raw frame normalizes to: rows repacked tightly
/// in top-down order, channels swapped where the source order asks for it.
pub open spec fn frame_pixels(f: RawFrame) -> Seq<u8> {
    match f {
        RawFrame::GpuTexture { width, height, row_pitch, order, bytes } => {
            let packed = repacked_rows(bytes@, height as int, width as int, row_pitch as int);
            match order {
                ChannelOrder::Bgra => swap_red_blue(packed),
                ChannelOrder::Rgba => packed,
            }
        },
        RawFrame::DeviceBitmap { width, height, bottom_up, bytes } => {
            let top_down = if bottom_up {
                reversed_rows(bytes@, height as int, width as int)
            } else {
                bytes@
            };
            swap_red_blue(top_down)
        },
    }
}

/// A well-formed frame normalizes to exactly `width * height * 4` bytes —
/// the buffer-length invariant every successful capture's image satisfies.
pub proof fn lemma_frame_pixels_len(f: RawFrame)
    requires
        frame_wf(f),
    ensures
        frame_pixels(f).len() == frame_width(f) as int * frame_height(f) as int * 4,
{
    match f {
        RawFrame::GpuTexture { width, height, row_pitch, order, bytes } => {
            lemma_repacked_rows_len(bytes@, height as int, width as int, row_pitch as int);
            assert(height as int * (width as int * 4) == width as int * height as int * 4)
                by (nonlinear_arith);
        },
        RawFrame::DeviceBitmap { width, height, bottom_up, bytes } => {
            if bottom_up {
                assert(height as int * (width as int * 4) == width as int * height as int * 4)
                    by (nonlinear_arith);
                lemma_reversed_rows_len(bytes@, height as int, width as int);
            }
        },
    }
}

/// Turns a backend's raw frame into a normalized image, rejecting a frame
/// whose buffer does not fit its stated dimensions with `BufferSizeMismatch`.
pub fn normalize_frame(frame: RawFrame) -> (r: Result<NormalizedImage, CaptureError>)
    ensures
        frame_wf(frame) ==> (r matches Ok(img) && img.wf() && img.width == frame_width(frame)
            && img.height == frame_height(frame) && img.buffer@ == frame_pixels(frame)),
        !frame_wf(frame) ==> r == Err::<NormalizedImage, CaptureError>(
            CaptureError::BufferSizeMismatch,
        ),
{
    match frame {
        RawFrame::GpuTexture { width, height, row_pitch, order, bytes } => {
            let wide: u64 = (width as u64) * 4;
            if wide > row_pitch as u64 {
                return Err(CaptureError::BufferSizeMismatch);
            }
            assert((height as u64) * (row_pitch as u64) <= u64::MAX) by (nonlinear_arith)
                requires
                    height <= u32::MAX,
                    row_pitch <= u32::MAX,
            ;
            let needed: u64 = (height as u64) * (row_pitch as u64);
            if needed > bytes.len() as u64 {
                return Err(CaptureError::BufferSizeMismatch);
            }
            let packed = repack_rows(&bytes, width, height, row_pitch);
            proof {
                assert(height as int * (width as int * 4) == width as int * height as int * 4)
                    by (nonlinear_arith);
            }
            normalize(packed, order, width, height)
        },
        RawFrame::DeviceBitmap { width, height, bottom_up, bytes } => {
            let len = bytes.len();
            assert((width as u64) * (height as u64) <= u64::MAX) by (nonlinear_arith)
                requires
                    width <= u32::MAX,
                    height <= u32::MAX,
            ;
            let pixels: u64 = (width as u64) * (height as u64);
            if len % 4 != 0 || (len / 4) as u64 != pixels {
                return Err(CaptureError::BufferSizeMismatch);
            }
            proof {
                assert(height as int * (width as int * 4) == width as int * height as int * 4)
                    by (nonlinear_arith);
            }
            let top_down = if bottom_up {
                flip_rows(&bytes, width, height)
            } else {
                bytes
            };
            normalize(top_down, ChannelOrder::Bgra, width, height)
        },
    }
}

} // verus!
