use brother_ql::raster::{apply_threshold, img_to_lines, GrayImage};

fn gray(width: u32, height: u32, pixels: Vec<u8>) -> GrayImage {
    GrayImage::new(width, height, pixels).unwrap()
}

#[test]
fn gray_image_rejects_wrong_buffer_length() {
    assert!(GrayImage::new(2, 3, vec![0u8; 6]).is_some());
    assert!(GrayImage::new(2, 3, vec![0u8; 5]).is_none());
    assert!(GrayImage::new(2, 3, vec![0u8; 7]).is_none());
    assert!(GrayImage::new(0, 3, vec![]).is_some());
}

#[test]
fn threshold_cuts_at_128() {
    let img = gray(6, 1, vec![0, 127, 128, 129, 200, 255]);
    let out = apply_threshold(&img);
    assert_eq!(out.width, 6);
    assert_eq!(out.height, 1);
    assert_eq!(out.pixels, vec![0, 0, 0, 255, 255, 255]);
}

#[test]
fn threshold_is_idempotent() {
    let img = gray(8, 1, vec![0, 1, 64, 128, 129, 170, 254, 255]);
    let once = apply_threshold(&img);
    let twice = apply_threshold(&once);
    assert_eq!(once.pixels, twice.pixels);
    assert_eq!(once.width, twice.width);
    assert_eq!(once.height, twice.height);
}

#[test]
fn eight_black_pixels_with_zero_padding_pack_into_the_last_byte() {
    // An 8-pixel-wide all-black row packed for the full 720-dot width, so
    // the padding is zero: byte 89 holds all eight dots, the rest is clear.
    let img = gray(8, 1, vec![0u8; 8]);
    let lines = img_to_lines(&img, 720);
    assert_eq!(lines.len(), 1);
    let bytes = lines[0].as_bytes();
    assert_eq!(bytes.len(), 90);
    assert_eq!(bytes[89], 0xff);
    assert!(bytes[0..89].iter().all(|b| *b == 0));
}

#[test]
fn eight_white_pixels_pack_into_all_zero_bytes() {
    let img = gray(8, 1, vec![255u8; 8]);
    let lines = img_to_lines(&img, 720);
    assert_eq!(lines.len(), 1);
    assert!(lines[0].as_bytes().iter().all(|b| *b == 0));
}

#[test]
fn narrow_image_shifts_bits_by_the_padding() {
    // A single black pixel at dot 0 of a width-1 image lands, after the
    // 720 - 1 = 719 dot padding, in bit 7 of byte 0.
    let img = gray(1, 1, vec![0u8]);
    let lines = img_to_lines(&img, 1);
    assert_eq!(lines.len(), 1);
    let bytes = lines[0].as_bytes();
    assert_eq!(bytes[0], 0x80);
    assert!(bytes[1..].iter().all(|b| *b == 0));
}

#[test]
fn padding_moves_the_same_row_toward_the_high_end() {
    // The same 8-pixel pattern packed at two widths: the set bits shift by
    // exactly the difference of the paddings (16 dots = 2 bytes).
    let pattern = vec![0u8, 255, 0, 255, 0, 255, 0, 255];
    let img = gray(8, 1, pattern);
    let unpadded = img_to_lines(&img, 720);
    let padded = img_to_lines(&img, 24);
    let a = unpadded[0].as_bytes();
    let b = padded[0].as_bytes();
    // dots 0,2,4,6 are black: 0101_0101 = 0x55
    assert_eq!(a[89], 0x55);
    assert!(a[0..89].iter().all(|x| *x == 0));
    // padding 720 - 24 = 696 dots = 87 bytes: the pattern lands in byte 2
    assert_eq!(b[2], 0x55);
    assert!(b[0..2].iter().all(|x| *x == 0));
    assert!(b[3..].iter().all(|x| *x == 0));
}

#[test]
fn rows_pack_in_top_to_bottom_order() {
    // Row 0 black, row 1 white, row 2 black.
    let mut pixels = vec![0u8; 8];
    pixels.extend_from_slice(&[255u8; 8]);
    pixels.extend_from_slice(&[0u8; 8]);
    let img = gray(8, 3, pixels);
    let lines = img_to_lines(&img, 720);
    assert_eq!(lines.len(), 3);
    assert_eq!(lines[0].as_bytes()[89], 0xff);
    assert_eq!(lines[1].as_bytes()[89], 0x00);
    assert_eq!(lines[2].as_bytes()[89], 0xff);
}
