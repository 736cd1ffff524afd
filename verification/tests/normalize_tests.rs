use xcap::error::CaptureError;
use xcap::normalize::{normalize, swap_channels, ChannelOrder};

#[test]
fn swap_exchanges_first_and_third_byte_of_each_pixel() {
    let buffer = vec![1u8, 2, 3, 4, 5, 6, 7, 8];
    let swapped = swap_channels(buffer);
    assert_eq!(swapped, vec![3u8, 2, 1, 4, 7, 6, 5, 8]);
}

#[test]
fn swapping_twice_returns_the_original_buffer() {
    let buffer = vec![10u8, 20, 30, 40, 50, 60, 70, 80, 90, 100, 110, 120];
    let twice = swap_channels(swap_channels(buffer.clone()));
    assert_eq!(twice, buffer);
}

#[test]
fn normalize_bgra_swaps_red_and_blue() {
    let buffer = vec![1u8, 2, 3, 4];
    let image = normalize(buffer, ChannelOrder::Bgra, 1, 1).unwrap();
    assert_eq!(image.width, 1);
    assert_eq!(image.height, 1);
    assert_eq!(image.buffer, vec![3u8, 2, 1, 4]);
}

#[test]
fn normalize_rgba_keeps_the_buffer() {
    let buffer = vec![9u8, 8, 7, 6, 5, 4, 3, 2];
    let image = normalize(buffer.clone(), ChannelOrder::Rgba, 2, 1).unwrap();
    assert_eq!(image.buffer, buffer);
}

#[test]
fn normalize_rejects_a_buffer_of_the_wrong_length() {
    let buffer = vec![0u8; 12];
    let result = normalize(buffer, ChannelOrder::Bgra, 2, 2);
    assert_eq!(result.unwrap_err(), CaptureError::BufferSizeMismatch);
}

#[test]
fn normalized_buffer_length_is_width_times_height_times_four() {
    let image = normalize(vec![0u8; 24], ChannelOrder::Bgra, 3, 2).unwrap();
    assert_eq!(image.buffer.len(), 3 * 2 * 4);
    let image = normalize(vec![0u8; 0], ChannelOrder::Rgba, 0, 7).unwrap();
    assert_eq!(image.buffer.len(), 0);
}
