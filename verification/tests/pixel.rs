use xcolor::pixel::bytes_to_pixels;
use xcolor::pixel::ensure_odd;
use xcolor::pixel::pixels_to_bytes;
use xcolor::pixel::TRANSPARENT;

#[test]
fn ensure_odd_keeps_odd_input() {
    assert_eq!(ensure_odd(101), 101);
    assert_eq!(ensure_odd(7), 7);
    assert_eq!(ensure_odd(1), 1);
}

#[test]
fn ensure_odd_raises_even_input() {
    assert_eq!(ensure_odd(100), 101);
    assert_eq!(ensure_odd(0), 1);
    assert_eq!(ensure_odd(2), 3);
}

#[test]
fn transparent_is_all_zero() {
    assert_eq!(TRANSPARENT, 0);
}

#[test]
fn pixels_to_bytes_is_little_endian() {
    let pixels = vec![0x11223344u32, 0xAABBCCDDu32];
    let bytes = pixels_to_bytes(&pixels);
    assert_eq!(
        bytes,
        vec![0x44, 0x33, 0x22, 0x11, 0xDD, 0xCC, 0xBB, 0xAA]
    );
}

#[test]
fn pixels_to_bytes_empty() {
    let pixels: Vec<u32> = vec![];
    assert_eq!(pixels_to_bytes(&pixels), Vec::<u8>::new());
}

#[test]
fn bytes_to_pixels_decodes_little_endian() {
    let bytes = vec![0x44, 0x33, 0x22, 0x11, 0xDD, 0xCC, 0xBB, 0xAA];
    let pixels = bytes_to_pixels(&bytes).unwrap();
    assert_eq!(pixels, vec![0x11223344u32, 0xAABBCCDDu32]);
}

#[test]
fn bytes_to_pixels_rejects_ragged_length() {
    assert!(bytes_to_pixels(&vec![1, 2, 3]).is_none());
    assert!(bytes_to_pixels(&vec![1, 2, 3, 4, 5]).is_none());
}

#[test]
fn pixel_byte_round_trip() {
    let pixels = vec![0u32, 0xFFFFFFFF, 0x80000001, 0x00FF00FF, 12345678];
    let decoded = bytes_to_pixels(&pixels_to_bytes(&pixels)).unwrap();
    assert_eq!(decoded, pixels);
}
