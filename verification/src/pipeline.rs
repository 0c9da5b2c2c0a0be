//! The capture pipeline end to end: select the primary display, validate the
//! captured frame, clamp and crop, then derive the artifact's name and
//! encoded bytes. One failure anywhere aborts the whole request; nothing is
//! retried.
use vstd::prelude::*;

use crate::artifact::ArtifactStore;
use crate::artifact::SavedEntry;
use crate::artifact::filename_chars;
use crate::artifact::saves_entry;
use crate::artifact::screenshot_filename;
use crate::capture::capture_screen;
use crate::capture::get_timestamp;
use crate::codec::encode_image;
use crate::codec::png_data_of;
use crate::errors::CaptureError;
use crate::frame::DecodedImage;
use crate::frame::RawFrame;
use crate::frame::crop;
use crate::frame::decode;
use crate::frame::flat_idx;
use crate::geometry::CaptureRequest;
use crate::geometry::calculate_crop_bounds;
use crate::geometry::spec_crop_bounds;

verus! {

/// What is known of one enumerated display.
#[derive(Clone, Copy, PartialEq, Eq, Structural, Debug)]
pub struct DisplayDescriptor {
    pub width: u32,
    pub height: u32,
}

/// One capture's result: the cropped image, the PNG bytes to persist, and the
/// timestamp-derived name to persist them under. Created once per capture
/// call and never mutated.
#[derive(Debug)]
pub struct ScreenshotArtifact {
    pub timestamp: u64,
    pub filename: String,
    pub image: DecodedImage,
    pub png: Vec<u8>,
}

impl ScreenshotArtifact {
    /// The artifact is consistent: a well-formed image, the name derived from
    /// the timestamp, and the bytes the PNG encoding of the image.
    pub open spec fn wf(self) -> bool {
        &&& self.image.wf()
        &&& self.filename@ == filename_chars(self.timestamp as int)
        &&& self.png@ == png_data_of(self.image.width, self.image.height, self.image.pixels@)
    }
}

/// `out` is exactly the safe crop of `frame` under `request`: its dimensions
/// are the clamped ones, and each of its pixels is the frame's pixel at the
/// clamped origin plus the same offset.
pub open spec fn is_cropped_frame(out: DecodedImage, frame: RawFrame, request: CaptureRequest) -> bool {
    let rect = spec_crop_bounds(frame.width, frame.height, request);
    &&& out.width == rect.width
    &&& out.height == rect.height
    &&& forall|row: int, col: int, ch: int|
        0 <= row < rect.height && 0 <= col < rect.width && 0 <= ch < 4 ==> #[trigger] out
            .pixel_byte(row, col, ch) == frame.pixels@[flat_idx(
            frame.width as int,
            rect.y + row,
            rect.x + col,
            ch,
        )]
}

/// Turns one captured frame into the artifact to persist: validates the
/// buffer against its dimensions, clamps and crops to the requested
/// rectangle, encodes the crop losslessly, and derives the artifact name from
/// the timestamp. A malformed buffer is rejected as `MalformedFrame`. The
/// crop engine accepts a zero-area crop silently, but no artifact can hold
/// one: encoding fails exactly on the degenerate crops, as `EncodeFailed`.
pub fn process_frame(frame: RawFrame, request: CaptureRequest, timestamp: u64) -> (r: Result<
    ScreenshotArtifact,
    CaptureError,
>)
    ensures
        !frame.wf() ==> r == Err::<ScreenshotArtifact, CaptureError>(CaptureError::MalformedFrame),
        frame.wf() ==> {
            let rect = spec_crop_bounds(frame.width, frame.height, request);
            (rect.width > 0 && rect.height > 0) <==> r is Ok
        },
        frame.wf() ==> match r {
            Ok(a) => {
                &&& a.wf()
                &&& a.timestamp == timestamp
                &&& is_cropped_frame(a.image, frame, request)
            },
            Err(e) => e matches CaptureError::EncodeFailed(_),
        },
{
    let img = match decode(frame) {
        Ok(img) => img,
        Err(e) => {
            return Err(e);
        },
    };
    let rect = calculate_crop_bounds(img.width, img.height, request);
    let cropped = crop(&img, rect);
    let png = match encode_image(&cropped) {
        Ok(b) => b,
        Err(e) => {
            return Err(e);
        },
    };
    let filename = screenshot_filename(timestamp);
    Ok(ScreenshotArtifact { timestamp, filename, image: cropped, png })
}

/// One full run of the pipeline's decisions over a directory state: the
/// directory is set up first (idempotently), the first enumerated display is
/// the one captured, and the artifact is saved under its timestamp-derived
/// name, overwriting a same-second artifact. The run succeeds exactly when a
/// display exists, the capture succeeded, the frame's buffer is consistent,
/// and the clamped crop has nonzero area. On any failure nothing is saved:
/// an empty display list yields `NoDisplaysFound`, a denied capture
/// `CaptureFailed`, an inconsistent buffer `MalformedFrame`, a degenerate or
/// failed encode `EncodeFailed`; the directory contents are then exactly
/// what they were.
pub fn run_capture_pipeline(
    store: &mut ArtifactStore,
    displays: &Vec<DisplayDescriptor>,
    capture: Result<RawFrame, String>,
    request: CaptureRequest,
    timestamp: u64,
) -> (r: Result<ScreenshotArtifact, CaptureError>)
    requires
        old(store).wf(),
    ensures
        final (store).wf(),
        final (store).is_created(),
        r is Err ==> final (store).entries_seq() == old(store).entries_seq(),
        displays@.len() == 0 ==> r == Err::<ScreenshotArtifact, CaptureError>(
            CaptureError::NoDisplaysFound,
        ),
        displays@.len() > 0 ==> match capture {
            Err(m) => r == Err::<ScreenshotArtifact, CaptureError>(
                CaptureError::CaptureFailed(m),
            ),
            Ok(frame) => {
                &&& !frame.wf() ==> r == Err::<ScreenshotArtifact, CaptureError>(
                    CaptureError::MalformedFrame,
                )
                &&& frame.wf() ==> {
                    let rect = spec_crop_bounds(frame.width, frame.height, request);
                    (rect.width > 0 && rect.height > 0) <==> r is Ok
                }
                &&& frame.wf() ==> match r {
                    Ok(a) => {
                        &&& a.wf()
                        &&& a.timestamp == timestamp
                        &&& is_cropped_frame(a.image, frame, request)
                        &&& saves_entry(
                            old(store).entries_seq(),
                            final (store).entries_seq(),
                            SavedEntry {
                                timestamp,
                                width: a.image.width,
                                height: a.image.height,
                            },
                        )
                    },
                    Err(e) => e matches CaptureError::EncodeFailed(_),
                }
            },
        },
{
    store.ensure_created();
    if displays.len() == 0 {
        return Err(CaptureError::NoDisplaysFound);
    }
    let frame = match capture {
        Ok(f) => f,
        Err(m) => {
            return Err(CaptureError::CaptureFailed(m));
        },
    };
    match process_frame(frame, request, timestamp) {
        Ok(a) => {
            store.save(SavedEntry { timestamp, width: a.image.width, height: a.image.height });
            Ok(a)
        },
        Err(e) => Err(e),
    }
}

/// Captures the primary display and computes the artifact to persist: the
/// live counterpart of `run_capture_pipeline`, with the display list, the
/// frame and the clock taken from the machine. Whatever came back, a
/// returned artifact is internally consistent and its image is the safe crop
/// of some well-formed captured frame under the caller's rectangle, and a
/// failure is one of the capture taxonomy's kinds — never
/// `DirectoryUnavailable`, which only the filesystem around the library can
/// raise.
pub fn capture_screenshot(x: i32, y: i32, width: u32, height: u32) -> (r: Result<
    ScreenshotArtifact,
    CaptureError,
>)
    ensures
        r matches Ok(a) ==> a.wf() && exists|frame: RawFrame|
            frame.wf() && #[trigger] is_cropped_frame(
                a.image,
                frame,
                CaptureRequest { x, y, width, height },
            ),
        r matches Err(e) ==> (e == CaptureError::NoDisplaysFound || e matches
            CaptureError::CaptureFailed(_) || e == CaptureError::MalformedFrame || e matches
            CaptureError::EncodeFailed(_)),
{
    let request = CaptureRequest { x, y, width, height };
    let timestamp = get_timestamp();
    let frame = match capture_screen() {
        Ok(f) => f,
        Err(e) => {
            return Err(e);
        },
    };
    let ghost captured = frame;
    let r = process_frame(frame, request, timestamp);
    proof {
        if r is Ok {
            assert(captured.wf() && is_cropped_frame(r->Ok_0.image, captured, request));
        }
    }
    r
}

} // verus!
