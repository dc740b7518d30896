use dynamic_wallpaper::pixel::render_frame;

/// The gradient the renderer promises, recomputed independently for checks.
fn expected_channels(x: u32, y: u32, w: u32, h: u32) -> (u8, u8, u8, u8) {
    let r = u32::min(((w - x) * 0xFF) / w, ((h - y) * 0xFF) / h);
    let g = u32::min((x * 0xFF) / w, ((h - y) * 0xFF) / h);
    let b = u32::min(((w - x) * 0xFF) / w, (y * 0xFF) / h);
    (0xFF, r as u8, g as u8, b as u8)
}

#[test]
fn frame_has_four_bytes_per_pixel() {
    let frame = render_frame(7, 5, 3);
    assert_eq!(frame.len(), 7 * 5 * 4);
}

#[test]
fn fill_is_deterministic() {
    let first = render_frame(16, 9, 5);
    let second = render_frame(16, 9, 5);
    assert_eq!(first, second);
}

#[test]
fn every_alpha_byte_is_opaque() {
    for shift in [0u32, 2, 4] {
        let frame = render_frame(5, 3, shift);
        for pixel in frame.chunks_exact(4) {
            assert_eq!(pixel[3], 0xFF);
        }
    }
}

#[test]
fn exact_pixels_of_a_two_by_one_frame() {
    // x = 0: r = min(255, 255) = 255, g = min(0, 255) = 0, b = min(255, 0) = 0
    // x = 1: r = min(127, 255) = 127, g = min(127, 255) = 127, b = min(127, 0) = 0
    // little-endian ARGB words: bytes are b, g, r, a.
    let frame = render_frame(2, 1, 0);
    assert_eq!(frame, vec![0, 0, 255, 255, 0, 127, 127, 255]);
}

#[test]
fn shift_rotates_the_columns() {
    let frame = render_frame(2, 1, 1);
    // With shift 1 the two columns of the 2x1 frame swap places.
    assert_eq!(frame, vec![0, 127, 127, 255, 0, 0, 255, 255]);
}

#[test]
fn round_trip_through_le_argb_words() {
    let (w, h, shift) = (4u32, 3u32, 1u32);
    let frame = render_frame(w, h, shift);
    for p in 0..(w * h) {
        let i = (4 * p) as usize;
        let word = u32::from_le_bytes([frame[i], frame[i + 1], frame[i + 2], frame[i + 3]]);
        let a = (word >> 24) & 0xFF;
        let r = (word >> 16) & 0xFF;
        let g = (word >> 8) & 0xFF;
        let b = word & 0xFF;
        let x = (p + shift) % w;
        let y = p / w;
        let (ea, er, eg, eb) = expected_channels(x, y, w, h);
        assert_eq!(
            (a as u8, r as u8, g as u8, b as u8),
            (ea, er, eg, eb),
            "pixel {} at ({}, {})",
            p,
            x,
            y
        );
    }
}

#[test]
fn smallest_frame_is_one_opaque_pixel() {
    let frame = render_frame(1, 1, 0);
    assert_eq!(frame, vec![0, 0, 255, 255]);
}
