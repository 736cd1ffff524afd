use xcap::error::CaptureError;
use xcap::frame::{flip_rows, normalize_frame, repack_rows, RawFrame};
use xcap::normalize::ChannelOrder;

/// A 2x2 frame as a mapped GPU texture would deliver it: BGRA pixels with
/// distinct channel values, rows 12 bytes apart although a row holds only
/// 8 payload bytes.
fn padded_checkerboard() -> Vec<u8> {
    vec![
        1, 2, 3, 4, 5, 6, 7, 8, 0xAA, 0xAA, 0xAA, 0xAA, // row 0 + padding
        9, 10, 11, 12, 13, 14, 15, 16, 0xBB, 0xBB, 0xBB, 0xBB, // row 1 + padding
    ]
}

#[test]
fn repack_drops_the_row_padding() {
    let src = padded_checkerboard();
    let packed = repack_rows(&src, 2, 2, 12);
    assert_eq!(packed, vec![1u8, 2, 3, 4, 5, 6, 7, 8, 9, 10, 11, 12, 13, 14, 15, 16]);
}

#[test]
fn gpu_texture_with_padded_rows_normalizes_to_a_tight_buffer() {
    let frame = RawFrame::GpuTexture {
        width: 2,
        height: 2,
        row_pitch: 12,
        order: ChannelOrder::Bgra,
        bytes: padded_checkerboard(),
    };
    let image = normalize_frame(frame).unwrap();
    assert_eq!(image.width, 2);
    assert_eq!(image.height, 2);
    assert_eq!(image.buffer.len(), 2 * 2 * 4);
    // Independently computed reference: padding gone, red and blue swapped.
    assert_eq!(
        image.buffer,
        vec![3u8, 2, 1, 4, 7, 6, 5, 8, 11, 10, 9, 12, 15, 14, 13, 16]
    );
}

#[test]
fn flip_reverses_the_row_order() {
    let src = vec![1u8, 2, 3, 4, 5, 6, 7, 8];
    let flipped = flip_rows(&src, 1, 2);
    assert_eq!(flipped, vec![5u8, 6, 7, 8, 1, 2, 3, 4]);
}

#[test]
fn bottom_up_bitmap_is_flipped_and_swapped() {
    let frame = RawFrame::DeviceBitmap {
        width: 1,
        height: 2,
        bottom_up: true,
        bytes: vec![1, 2, 3, 4, 5, 6, 7, 8],
    };
    let image = normalize_frame(frame).unwrap();
    assert_eq!(image.buffer, vec![7u8, 6, 5, 8, 3, 2, 1, 4]);
}

#[test]
fn top_down_bitmap_is_only_swapped() {
    let frame = RawFrame::DeviceBitmap {
        width: 1,
        height: 2,
        bottom_up: false,
        bytes: vec![1, 2, 3, 4, 5, 6, 7, 8],
    };
    let image = normalize_frame(frame).unwrap();
    assert_eq!(image.buffer, vec![3u8, 2, 1, 4, 7, 6, 5, 8]);
}

#[test]
fn gpu_texture_with_a_short_pitch_is_rejected() {
    let frame = RawFrame::GpuTexture {
        width: 2,
        height: 1,
        row_pitch: 4, // smaller than width * 4
        order: ChannelOrder::Bgra,
        bytes: vec![0u8; 16],
    };
    assert_eq!(normalize_frame(frame).unwrap_err(), CaptureError::BufferSizeMismatch);
}

#[test]
fn gpu_texture_with_a_short_buffer_is_rejected() {
    let frame = RawFrame::GpuTexture {
        width: 2,
        height: 2,
        row_pitch: 12,
        order: ChannelOrder::Bgra,
        bytes: vec![0u8; 23], // one byte short of height * row_pitch
    };
    assert_eq!(normalize_frame(frame).unwrap_err(), CaptureError::BufferSizeMismatch);
}

#[test]
fn device_bitmap_of_the_wrong_size_is_rejected() {
    let frame = RawFrame::DeviceBitmap {
        width: 2,
        height: 2,
        bottom_up: false,
        bytes: vec![0u8; 15],
    };
    assert_eq!(normalize_frame(frame).unwrap_err(), CaptureError::BufferSizeMismatch);
}
