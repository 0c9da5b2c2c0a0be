use screencap::artifact::{screenshot_filename, screenshots_dir_path, ArtifactStore};
use screencap::errors::CaptureError;
use screencap::codec::png_round_trip_dims;
use screencap::frame::{DecodedImage, RawFrame};
use screencap::geometry::CaptureRequest;
use screencap::greet;
use screencap::pipeline::{capture_screenshot, process_frame, run_capture_pipeline, DisplayDescriptor};

fn solid_frame(width: u32, height: u32) -> RawFrame {
    RawFrame { width, height, pixels: vec![128u8; (width * height * 4) as usize] }
}

#[test]
fn filename_embeds_timestamp_in_fixed_pattern() {
    assert_eq!(screenshot_filename(0), "screenshot_0.png");
    assert_eq!(screenshot_filename(7), "screenshot_7.png");
    assert_eq!(screenshot_filename(1699999999), "screenshot_1699999999.png");
    assert_eq!(
        screenshot_filename(u64::MAX),
        "screenshot_18446744073709551615.png"
    );
}

#[test]
fn screenshots_subdirectory_is_appended_to_base() {
    assert_eq!(screenshots_dir_path("/data/app"), "/data/app/screenshots");
}

#[test]
fn greeting_embeds_the_name() {
    assert_eq!(greet("World"), "Hello, World! You've been greeted from Rust!");
}

#[test]
fn error_messages_are_descriptive() {
    assert_eq!(CaptureError::NoDisplaysFound.message(), "No screens found");
    assert_eq!(
        CaptureError::CaptureFailed("denied".to_string()).message(),
        "Failed to capture screen: denied"
    );
    assert_eq!(
        CaptureError::MalformedFrame.message(),
        "Failed to create image from buffer"
    );
    assert_eq!(
        CaptureError::DirectoryUnavailable("read-only".to_string()).message(),
        "Failed to create screenshots directory: read-only"
    );
    assert_eq!(
        CaptureError::EncodeFailed("disk full".to_string()).message(),
        "Failed to save screenshot: disk full"
    );
}

#[test]
fn png_round_trip_reproduces_dimensions() {
    let mut pixels: Vec<u8> = Vec::new();
    for i in 0..(3 * 2 * 4) {
        pixels.push((i * 11 % 256) as u8);
    }
    let img = DecodedImage { width: 3, height: 2, pixels };
    let dims = png_round_trip_dims(&img).expect("round trip through the encoder must succeed");
    assert_eq!(dims, (3, 2));
}

#[test]
fn processed_artifact_decodes_to_crop_dimensions() {
    let frame = solid_frame(64, 48);
    let request = CaptureRequest { x: 10, y: 8, width: 100, height: 100 };
    let a = process_frame(frame, request, 42).expect("processing must succeed");
    assert_eq!(a.filename, "screenshot_42.png");
    assert_eq!(a.image.width, 54);
    assert_eq!(a.image.height, 40);
    let decoded = image::load_from_memory(&a.png).expect("artifact must be a readable PNG");
    assert_eq!(decoded.width(), 54);
    assert_eq!(decoded.height(), 40);
}

#[test]
fn full_display_capture_keeps_exact_dimensions() {
    // A simulated single display of 1024x768 and a request for all of it.
    let mut store = ArtifactStore::new();
    let displays = vec![DisplayDescriptor { width: 1024, height: 768 }];
    let request = CaptureRequest { x: 0, y: 0, width: 1024, height: 768 };
    let r = run_capture_pipeline(&mut store, &displays, Ok(solid_frame(1024, 768)), request, 5);
    let a = r.expect("the simulated capture must succeed");
    assert_eq!(a.image.width, 1024);
    assert_eq!(a.image.height, 768);
    let decoded = image::load_from_memory(&a.png).expect("artifact must be a readable PNG");
    assert_eq!(decoded.width(), 1024);
    assert_eq!(decoded.height(), 768);
    assert_eq!(store.len(), 1);
    let entry = store.get(0);
    assert_eq!(
        (entry.timestamp, entry.width, entry.height),
        (5, 1024, 768)
    );
}

#[test]
fn zero_displays_writes_nothing() {
    let mut store = ArtifactStore::new();
    let displays: Vec<DisplayDescriptor> = Vec::new();
    let request = CaptureRequest { x: 0, y: 0, width: 10, height: 10 };
    let r = run_capture_pipeline(&mut store, &displays, Ok(solid_frame(10, 10)), request, 1);
    let e = r.expect_err("zero displays must fail");
    assert_eq!(e, CaptureError::NoDisplaysFound);
    assert_eq!(e.message(), "No screens found");
    assert_eq!(store.len(), 0);
}

#[test]
fn same_second_capture_overwrites_previous_file() {
    // Two captures with the identical timestamp produce one surviving file:
    // the second overwrites the first. This asserts current, documented
    // behavior rather than disambiguating the name further.
    let mut store = ArtifactStore::new();
    let displays = vec![DisplayDescriptor { width: 32, height: 32 }];
    let first = CaptureRequest { x: 0, y: 0, width: 32, height: 32 };
    let second = CaptureRequest { x: 0, y: 0, width: 16, height: 8 };
    run_capture_pipeline(&mut store, &displays, Ok(solid_frame(32, 32)), first, 99)
        .expect("first capture must succeed");
    assert_eq!(store.len(), 1);
    run_capture_pipeline(&mut store, &displays, Ok(solid_frame(32, 32)), second, 99)
        .expect("second capture must succeed");
    assert_eq!(store.len(), 1);
    let entry = store.get(0);
    assert_eq!((entry.timestamp, entry.width, entry.height), (99, 16, 8));
}

#[test]
fn zero_area_crop_cannot_be_encoded() {
    // The crop engine accepts an origin past the edge silently, but the
    // degenerate artifact cannot be encoded: the request fails as
    // EncodeFailed, not in the crop step.
    let frame = solid_frame(8, 8);
    let request = CaptureRequest { x: 8, y: 0, width: 4, height: 4 };
    let e = process_frame(frame, request, 1).expect_err("a zero-area artifact must be refused");
    match e {
        CaptureError::EncodeFailed(_) => {}
        other => panic!("expected EncodeFailed, got {:?}", other),
    }
}

#[test]
fn capture_failure_and_malformed_frame_save_nothing() {
    let mut store = ArtifactStore::new();
    let displays = vec![DisplayDescriptor { width: 8, height: 8 }];
    let request = CaptureRequest { x: 0, y: 0, width: 8, height: 8 };
    let r = run_capture_pipeline(
        &mut store,
        &displays,
        Err("permission denied".to_string()),
        request,
        3,
    );
    assert_eq!(
        r.expect_err("a denied capture must fail"),
        CaptureError::CaptureFailed("permission denied".to_string())
    );
    assert_eq!(store.len(), 0);
    let bad = RawFrame { width: 8, height: 8, pixels: vec![0u8; 5] };
    let r = run_capture_pipeline(&mut store, &displays, Ok(bad), request, 3);
    assert_eq!(
        r.expect_err("a malformed frame must be rejected"),
        CaptureError::MalformedFrame
    );
    assert_eq!(store.len(), 0);
}

#[test]
fn directory_setup_is_idempotent() {
    // Creating the directory a second time neither errors nor alters its
    // contents.
    let mut store = ArtifactStore::new();
    let displays = vec![DisplayDescriptor { width: 4, height: 4 }];
    let request = CaptureRequest { x: 0, y: 0, width: 4, height: 4 };
    run_capture_pipeline(&mut store, &displays, Ok(solid_frame(4, 4)), request, 12)
        .expect("capture must succeed");
    assert_eq!(store.len(), 1);
    let before = store.get(0);
    run_capture_pipeline(&mut store, &displays, Ok(solid_frame(4, 4)), request, 13)
        .expect("capture must succeed");
    assert_eq!(store.len(), 2);
    assert_eq!(store.get(0), before);
}

#[test]
fn live_capture_reports_an_error_or_an_artifact() {
    // On a headless machine this errors; on one with a display it yields a
    // consistent artifact. Either outcome is legitimate here.
    match capture_screenshot(0, 0, 16, 16) {
        Ok(a) => {
            assert!(a.filename.starts_with("screenshot_"));
            assert!(a.filename.ends_with(".png"));
        }
        Err(e) => {
            assert!(!e.message().is_empty());
        }
    }
}
