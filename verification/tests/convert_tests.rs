use cosmic_launcher::convert::{convert_reversed_to_rgba, thumbnail, thumbnail_dims};
use cosmic_launcher::WaylandImage;

fn solid_image(width: u32, height: u32, pixel: [u8; 4]) -> Vec<u8> {
    let mut data = Vec::new();
    for _ in 0..(width * height) {
        data.extend_from_slice(&pixel);
    }
    data
}

#[test]
fn reorder_swaps_red_and_blue_per_pixel() {
    // Two pixels in reversed-channel order: bytes are (b, g, r, a).
    let src = vec![1u8, 2, 3, 4, 10, 20, 30, 40];
    let out = convert_reversed_to_rgba(&src, 2, 1);
    assert_eq!(out.len(), src.len());
    // Pixel 0: output red == input byte at the blue offset, and so on.
    assert_eq!(out[0], src[2]);
    assert_eq!(out[1], src[1]);
    assert_eq!(out[2], src[0]);
    assert_eq!(out[3], src[3]);
    // Pixel 1.
    assert_eq!(out[4], src[6]);
    assert_eq!(out[5], src[5]);
    assert_eq!(out[6], src[4]);
    assert_eq!(out[7], src[7]);
    assert_eq!(out, vec![3u8, 2, 1, 4, 30, 20, 10, 40]);
}

#[test]
fn reorder_twice_is_identity() {
    let src = vec![9u8, 8, 7, 6, 5, 4, 3, 2, 1, 0, 11, 12];
    let once = convert_reversed_to_rgba(&src, 3, 1);
    let twice = convert_reversed_to_rgba(&once, 3, 1);
    assert_eq!(twice, src);
}

#[test]
fn thumbnail_within_bound_is_byte_identical() {
    let data = solid_image(64, 64, [1, 2, 3, 4]);
    let img = WaylandImage::new(data.clone(), 64, 64);
    let out = thumbnail(img, 128);
    assert_eq!(out.width, 64);
    assert_eq!(out.height, 64);
    assert_eq!(out.img, data);
}

#[test]
fn thumbnail_at_exact_bound_is_unchanged() {
    let data = solid_image(128, 100, [7, 7, 7, 255]);
    let img = WaylandImage::new(data.clone(), 128, 100);
    let out = thumbnail(img, 128);
    assert_eq!(out.width, 128);
    assert_eq!(out.height, 100);
    assert_eq!(out.img, data);
}

#[test]
fn thumbnail_downscales_oversized_image() {
    let data = solid_image(1024, 512, [100, 150, 200, 255]);
    let img = WaylandImage::new(data, 1024, 512);
    let out = thumbnail(img, 128);
    assert_eq!(out.width, 128);
    assert_eq!(out.height, 64);
    // The buffer was really replaced by a resampled one of the new size.
    assert_eq!(out.img.len(), 128 * 64 * 4);
}

#[test]
fn thumbnail_dims_scale_by_longer_side() {
    assert_eq!(thumbnail_dims(1024, 512, 128), (128, 64));
    assert_eq!(thumbnail_dims(512, 1024, 128), (64, 128));
    assert_eq!(thumbnail_dims(300, 200, 128), (128, 85));
    // round(200 * 128 / 300) = round(85.33) = 85
}

#[test]
fn thumbnail_dims_round_to_nearest() {
    // 1000 -> 100, 333 * 100 / 1000 = 33.3 -> 33
    assert_eq!(thumbnail_dims(1000, 333, 100), (100, 33));
    // 335 * 100 / 1000 = 33.5, half rounds up
    assert_eq!(thumbnail_dims(1000, 335, 100), (100, 34));
}

#[test]
fn thumbnail_dims_keep_aspect_within_tolerance() {
    let (w, h, b) = (1920u32, 1080u32, 128u32);
    let (nw, nh) = thumbnail_dims(w, h, b);
    assert_eq!(nw.max(nh), b);
    let cross = 2i64 * (nw as i64 * h as i64 - w as i64 * nh as i64);
    assert!(cross.abs() <= (w + h) as i64);
}
