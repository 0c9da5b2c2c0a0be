//! Display enumeration and raw frame capture, through the `screenshots`
//! crate. What comes back depends on the machine's displays, so nothing is
//! promised of the values; the rest of the pipeline is verified for every
//! outcome.
use vstd::prelude::*;

use crate::errors::CaptureError;
use crate::frame::RawFrame;

verus! {

#[verifier::external_type_specification]
#[verifier::external_body]
pub struct ExScreen(screenshots::Screen);

/// Relies on `screenshots::Screen::all`: enumerates the available physical
/// displays. What it returns depends on the machine, so nothing is promised
/// of the list.
#[verifier::external_body]
fn screens_all() -> (r: Result<Vec<screenshots::Screen>, String>) {
    screenshots::Screen::all().map_err(|e| format!("{}", e))
}

/// Relies on `screenshots::Screen::capture`: snapshots one display as a
/// full-resolution RGBA buffer. The result depends on the screen's contents
/// at the moment of the call, so nothing is promised of the frame; its buffer
/// is validated against its stated dimensions downstream.
#[verifier::external_body]
fn screen_capture(screen: &screenshots::Screen) -> (r: Result<RawFrame, String>) {
    match screen.capture() {
        Ok(img) => {
            let width = img.width();
            let height = img.height();
            Ok(RawFrame { width, height, pixels: img.into_raw() })
        },
        Err(e) => Err(format!("{}", e)),
    }
}

/// Relies on `std::time::SystemTime::now` and `duration_since(UNIX_EPOCH)`:
/// the wall-clock seconds since the Unix epoch. Nothing can be promised of
/// the clock's value.
#[verifier::external_body]
fn unix_seconds_now() -> u64 {
    std::time::SystemTime::now().duration_since(std::time::UNIX_EPOCH).map(
        |d| d.as_secs(),
    ).unwrap_or(0)
}

/// The wall-clock timestamp from which an artifact's name is derived, in
/// seconds since the Unix epoch. Two calls within the same second return the
/// same value, so their artifacts share a name and the later overwrites the
/// earlier.
pub fn get_timestamp() -> u64 {
    unix_seconds_now()
}

/// Captures a full-resolution raw frame of the primary display: the first in
/// enumeration order. Fails with `NoDisplaysFound` when no display is
/// enumerated, and with `CaptureFailed` when the OS denies or errors either
/// the enumeration or the capture.
pub fn capture_screen() -> (r: Result<RawFrame, CaptureError>)
    ensures
        r matches Err(e) ==> (e == CaptureError::NoDisplaysFound || e matches
            CaptureError::CaptureFailed(_)),
{
    let screens = match screens_all() {
        Ok(s) => s,
        Err(m) => {
            return Err(CaptureError::CaptureFailed(m));
        },
    };
    if screens.len() == 0 {
        return Err(CaptureError::NoDisplaysFound);
    }
    match screen_capture(&screens[0]) {
        Ok(frame) => Ok(frame),
        Err(m) => Err(CaptureError::CaptureFailed(m)),
    }
}

} // verus!
