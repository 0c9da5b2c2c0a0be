use screencap::errors::CaptureError;
use screencap::frame::{decode, crop, RawFrame, DecodedImage};
use screencap::geometry::{calculate_crop_bounds, CaptureRequest};

#[test]
fn negative_origin_clamps_to_zero() {
    let r = calculate_crop_bounds(
        1920,
        1080,
        CaptureRequest { x: -50, y: 10, width: 100, height: 100 },
    );
    assert_eq!(r.x, 0);
    assert_eq!(r.y, 10);
    assert_eq!(r.width, 100);
    assert_eq!(r.height, 100);
}

#[test]
fn origin_past_edge_gives_zero_area() {
    let r = calculate_crop_bounds(
        1920,
        1080,
        CaptureRequest { x: 1920, y: 10, width: 100, height: 100 },
    );
    assert_eq!(r.width, 0);
    let r = calculate_crop_bounds(
        1920,
        1080,
        CaptureRequest { x: 10, y: 5000, width: 100, height: 100 },
    );
    assert_eq!(r.height, 0);
}

#[test]
fn partial_overflow_truncates_to_remainder() {
    let r = calculate_crop_bounds(
        1920,
        1080,
        CaptureRequest { x: 1900, y: 1000, width: 100, height: 100 },
    );
    assert_eq!(r.x, 1900);
    assert_eq!(r.y, 1000);
    assert_eq!(r.width, 20);
    assert_eq!(r.height, 80);
}

#[test]
fn decode_accepts_consistent_buffer() {
    let frame = RawFrame { width: 2, height: 3, pixels: vec![7u8; 2 * 3 * 4] };
    let img = decode(frame).expect("consistent buffer must decode");
    assert_eq!(img.width, 2);
    assert_eq!(img.height, 3);
    assert_eq!(img.pixels.len(), 24);
}

#[test]
fn decode_rejects_inconsistent_buffer() {
    let frame = RawFrame { width: 2, height: 2, pixels: vec![0u8; 15] };
    let e = decode(frame).expect_err("short buffer must be rejected");
    assert_eq!(e, CaptureError::MalformedFrame);
    assert_eq!(e.message(), "Failed to create image from buffer");
}

#[test]
fn crop_extracts_exact_pixel_region() {
    // A 4-wide, 3-tall image whose pixel at (row, col) holds the channel
    // bytes [10*row + col, 100 + col, 200 + row, 255].
    let mut pixels: Vec<u8> = Vec::new();
    for row in 0u8..3 {
        for col in 0u8..4 {
            pixels.push(10 * row + col);
            pixels.push(100 + col);
            pixels.push(200 + row);
            pixels.push(255);
        }
    }
    let img = decode(RawFrame { width: 4, height: 3, pixels }).unwrap();
    let rect = calculate_crop_bounds(4, 3, CaptureRequest { x: 1, y: 1, width: 2, height: 2 });
    assert_eq!((rect.x, rect.y, rect.width, rect.height), (1, 1, 2, 2));
    let out = crop(&img, rect);
    assert_eq!(out.width, 2);
    assert_eq!(out.height, 2);
    assert_eq!(out.pixels.len(), 16);
    // Top-left of the crop is source pixel (1, 1).
    assert_eq!(&out.pixels[0..4], &[11, 101, 201, 255]);
    // Top-right is source (1, 2).
    assert_eq!(&out.pixels[4..8], &[12, 102, 201, 255]);
    // Bottom-left is source (2, 1).
    assert_eq!(&out.pixels[8..12], &[21, 101, 202, 255]);
    // Bottom-right is source (2, 2).
    assert_eq!(&out.pixels[12..16], &[22, 102, 202, 255]);
}

#[test]
fn crop_of_zero_area_rect_is_empty() {
    let img = DecodedImage { width: 4, height: 3, pixels: vec![0u8; 48] };
    let rect = calculate_crop_bounds(4, 3, CaptureRequest { x: 9, y: 0, width: 5, height: 5 });
    assert_eq!(rect.width, 0);
    let out = crop(&img, rect);
    assert_eq!(out.pixels.len(), 0);
}
