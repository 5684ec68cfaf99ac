use frame_capture::image_buffer::{ImageBuffer, PixelFormat};
use frame_capture::readback::{align_copy_bytes_per_row, strip_row_padding};
use frame_capture::text::{u32_to_decimal, u32_to_zero_padded6};

#[test]
fn alignment_rounds_up_to_256() {
    assert_eq!(align_copy_bytes_per_row(0), 0);
    assert_eq!(align_copy_bytes_per_row(1), 256);
    assert_eq!(align_copy_bytes_per_row(255), 256);
    assert_eq!(align_copy_bytes_per_row(256), 256);
    assert_eq!(align_copy_bytes_per_row(257), 512);
    assert_eq!(align_copy_bytes_per_row(1024), 1024);
}

#[test]
fn strip_is_identity_when_rows_are_tight() {
    // 64 pixels of 4 bytes: a 256-byte row needs no padding.
    let row = 256usize;
    let height = 3usize;
    let bytes: Vec<u8> = (0..row * height).map(|i| (i % 251) as u8).collect();
    let out = strip_row_padding(&bytes, row, row, height);
    assert_eq!(out, bytes);
}

#[test]
fn strip_drops_exactly_the_row_tails() {
    // One pixel per row: 4 tight bytes inside a 256-byte padded row.
    let aligned = 256usize;
    let unpadded = 4usize;
    let height = 2usize;
    let mut bytes = vec![0xEEu8; aligned * height];
    bytes[0] = 1;
    bytes[1] = 2;
    bytes[2] = 3;
    bytes[3] = 4;
    bytes[aligned] = 5;
    bytes[aligned + 1] = 6;
    bytes[aligned + 2] = 7;
    bytes[aligned + 3] = 8;
    let out = strip_row_padding(&bytes, aligned, unpadded, height);
    assert_eq!(out.len(), unpadded * height);
    assert_eq!(out, vec![1, 2, 3, 4, 5, 6, 7, 8]);
}

#[test]
fn strip_keeps_row_prefixes_in_order() {
    // Rows of 6 bytes padded to 8: the trailing 2 bytes of each row go.
    let aligned = 8usize;
    let unpadded = 6usize;
    let height = 3usize;
    let bytes: Vec<u8> = (0..(aligned * height) as u8).collect();
    let out = strip_row_padding(&bytes, aligned, unpadded, height);
    assert_eq!(out, vec![0, 1, 2, 3, 4, 5, 8, 9, 10, 11, 12, 13, 16, 17, 18, 19, 20, 21]);
}

#[test]
fn decimal_formatting() {
    assert_eq!(u32_to_decimal(0), "0");
    assert_eq!(u32_to_decimal(7), "7");
    assert_eq!(u32_to_decimal(10), "10");
    assert_eq!(u32_to_decimal(60), "60");
    assert_eq!(u32_to_decimal(1234567), "1234567");
    assert_eq!(u32_to_decimal(u32::MAX), "4294967295");
}

#[test]
fn zero_padding_to_six_digits() {
    assert_eq!(u32_to_zero_padded6(0), "000000");
    assert_eq!(u32_to_zero_padded6(7), "000007");
    assert_eq!(u32_to_zero_padded6(42), "000042");
    assert_eq!(u32_to_zero_padded6(999999), "999999");
    assert_eq!(u32_to_zero_padded6(1000000), "1000000");
}

#[test]
fn bgra_pixels_are_swizzled_to_rgba() {
    let data = vec![
        10, 20, 30, 40, // pixel 0: B G R A
        50, 60, 70, 80, // pixel 1
    ];
    let image = ImageBuffer::new(2, 1, PixelFormat::Bgra8, data);
    assert_eq!(image.to_rgba8(), vec![30, 20, 10, 40, 70, 60, 50, 80]);
}

#[test]
fn rgba_pixels_pass_through_unchanged() {
    let data = vec![1, 2, 3, 4, 5, 6, 7, 8];
    let image = ImageBuffer::new(1, 2, PixelFormat::Rgba8, data.clone());
    assert_eq!(image.to_rgba8(), data);
}
