//! Crop-rectangle arithmetic: clamping a caller-requested region against the
//! dimensions of a captured frame.
use vstd::prelude::*;

verus! {

/// A caller-requested capture region, in screen pixel coordinates.
/// The origin may be negative or otherwise out of range; it is never trusted.
#[derive(Clone, Copy, PartialEq, Eq, Structural, Debug)]
pub struct CaptureRequest {
    pub x: i32,
    pub y: i32,
    pub width: u32,
    pub height: u32,
}

/// A crop region that is known to lie inside an image of some dimensions.
#[derive(Clone, Copy, PartialEq, Eq, Structural, Debug)]
pub struct CropRect {
    pub x: u32,
    pub y: u32,
    pub width: u32,
    pub height: u32,
}

impl CropRect {
    /// Every pixel the rectangle addresses lies inside an `img_width` by
    /// `img_height` image. A zero-area rectangle addresses no pixel, so its
    /// origin may stand anywhere.
    pub open spec fn in_bounds(self, img_width: u32, img_height: u32) -> bool {
        self.width > 0 && self.height > 0 ==> {
            &&& self.x + self.width <= img_width
            &&& self.y + self.height <= img_height
        }
    }
}

/// The clamped origin coordinate: negative offsets collapse to zero.
pub open spec fn clamp_origin(v: i32) -> u32 {
    if v < 0 {
        0u32
    } else {
        v as u32
    }
}

/// The room left between a clamped origin and the image edge, saturating at zero.
pub open spec fn avail(extent: u32, origin: u32) -> u32 {
    if origin >= extent {
        0u32
    } else {
        (extent - origin) as u32
    }
}

/// The side length actually cropped: the request truncated to what is available.
pub open spec fn crop_len(requested: u32, available: u32) -> u32 {
    if requested <= available {
        requested
    } else {
        available
    }
}

/// The safe crop rectangle for a request against an image of the given
/// dimensions: negative origins clamp to zero, and each side is the requested
/// length truncated to the room left up to the image edge.
pub open spec fn spec_crop_bounds(img_width: u32, img_height: u32, request: CaptureRequest) -> CropRect {
    let x = clamp_origin(request.x);
    let y = clamp_origin(request.y);
    CropRect {
        x,
        y,
        width: crop_len(request.width, avail(img_width, x)),
        height: crop_len(request.height, avail(img_height, y)),
    }
}

/// Computes the safe, in-bounds crop rectangle for a request against an image
/// of the given dimensions. A zero-area result is an ordinary value here, not
/// an error: callers must handle degenerate results themselves.
pub fn calculate_crop_bounds(
    img_width: u32,
    img_height: u32,
    request: CaptureRequest,
) -> (r: CropRect)
    ensures
        r == spec_crop_bounds(img_width, img_height, request),
        r.in_bounds(img_width, img_height),
{
    let x: u32 = if request.x < 0 {
        0
    } else {
        request.x as u32
    };
    let y: u32 = if request.y < 0 {
        0
    } else {
        request.y as u32
    };
    let avail_w: u32 = if x >= img_width {
        0
    } else {
        img_width - x
    };
    let avail_h: u32 = if y >= img_height {
        0
    } else {
        img_height - y
    };
    let crop_width: u32 = if request.width <= avail_w {
        request.width
    } else {
        avail_w
    };
    let crop_height: u32 = if request.height <= avail_h {
        request.height
    } else {
        avail_h
    };
    CropRect { x, y, width: crop_width, height: crop_height }
}

/// A negative origin coordinate clamps to zero and a non-negative one is kept
/// as it is: the effective crop origin is `(max(0, x), max(0, y))`.
pub proof fn lemma_negative_origin_clamps(img_width: u32, img_height: u32, request: CaptureRequest)
    ensures
        request.x < 0 ==> spec_crop_bounds(img_width, img_height, request).x == 0,
        request.y < 0 ==> spec_crop_bounds(img_width, img_height, request).y == 0,
        request.x >= 0 ==> spec_crop_bounds(img_width, img_height, request).x == request.x,
        request.y >= 0 ==> spec_crop_bounds(img_width, img_height, request).y == request.y,
{
}

/// A request whose origin lies at or beyond the image edge yields a zero-area
/// crop: its width or height is zero, and no error is raised anywhere.
pub proof fn lemma_origin_past_edge_zero_area(
    img_width: u32,
    img_height: u32,
    request: CaptureRequest,
)
    requires
        request.x >= img_width || request.y >= img_height,
    ensures
        spec_crop_bounds(img_width, img_height, request).width == 0
            || spec_crop_bounds(img_width, img_height, request).height == 0,
{
}

/// A request that partially exceeds the image is truncated to the available
/// remainder: whenever the requested size overshoots the room left from the
/// in-bounds clamped origin, the crop runs exactly to the image edge.
pub proof fn lemma_partial_overflow_truncates(
    img_width: u32,
    img_height: u32,
    request: CaptureRequest,
)
    ensures
        ({
            let r = spec_crop_bounds(img_width, img_height, request);
            &&& (r.x <= img_width && r.x + request.width > img_width) ==> r.width == img_width
                - r.x
            &&& (r.y <= img_height && r.y + request.height > img_height) ==> r.height == img_height
                - r.y
        }),
{
}

} // verus!
