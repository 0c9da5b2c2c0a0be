//! Lossless raster encoding of decoded images, through the `image` crate's
//! PNG codec.
use vstd::prelude::*;

use crate::errors::CaptureError;
use crate::frame::DecodedImage;

verus! {

/// A pixel-buffer size that every decoder allocation provably stays within:
/// a quarter of the decoder's default 512 MiB allocation cap. The headroom
/// covers the codec's own working buffers even at extreme aspect ratios,
/// where row and stream buffers approach the size of the image itself.
pub const SAFE_DECODE_BYTES: u64 = 134217728;

/// The PNG encoding of an image with the given dimensions and row-major RGBA
/// bytes. The encoder is deterministic, so the bytes are a function of the
/// arguments alone; what they are exactly is left unstated.
pub uninterp spec fn png_data_of(width: u32, height: u32, pixels: Seq<u8>) -> Seq<u8>;

/// Relies on `image::DynamicImage::write_to` with the PNG format (and
/// `image::RgbaImage::from_raw` to shape the buffer): encodes the pixels
/// losslessly and deterministically, depending on the arguments alone.
/// Writing into an in-memory buffer cannot fail, and the PNG encoder refuses
/// exactly the images with a zero dimension, so encoding succeeds if and only
/// if both dimensions are nonzero.
#[verifier::external_body]
fn encode_png(width: u32, height: u32, pixels: &Vec<u8>) -> (r: Result<Vec<u8>, String>)
    requires
        pixels@.len() == width * height * 4,
    ensures
        r matches Ok(b) ==> b@ == png_data_of(width, height, pixels@),
        (width > 0 && height > 0) <==> r is Ok,
{
    let img = match image::RgbaImage::from_raw(width, height, pixels.clone()) {
        Some(img) => img,
        None => {
            return Err(format!("image buffer does not match its dimensions"));
        },
    };
    let mut bytes: Vec<u8> = Vec::new();
    match image::DynamicImage::ImageRgba8(img).write_to(
        &mut std::io::Cursor::new(&mut bytes),
        image::ImageFormat::Png,
    ) {
        Ok(()) => Ok(bytes),
        Err(e) => Err(format!("{}", e)),
    }
}

/// Relies on `image::load_from_memory`: decoding a PNG artifact recovers the
/// pixel dimensions that were encoded, since the format stores them
/// losslessly in its header. Only nonzero dimensions are spoken of, since
/// the format can hold no others. The decoder applies a default allocation
/// cap, so success is only promised for artifacts whose pixel buffer stays
/// within `SAFE_DECODE_BYTES`; an oversized artifact may be refused.
#[verifier::external_body]
fn decode_png_dims(bytes: &Vec<u8>) -> (r: Result<(u32, u32), String>)
    ensures
        r matches Ok(d) ==> forall|w: u32, h: u32, p: Seq<u8>|
            w > 0 && h > 0 && p.len() == w * h * 4 && bytes@ == #[trigger] png_data_of(w, h, p)
                ==> d == (w, h),
        r matches Err(_) ==> !(exists|w: u32, h: u32, p: Seq<u8>|
            w > 0 && h > 0 && p.len() == w * h * 4 && p.len() <= SAFE_DECODE_BYTES && bytes@
                == #[trigger] png_data_of(w, h, p)),
{
    match image::load_from_memory(bytes.as_slice()) {
        Ok(img) => Ok((img.width(), img.height())),
        Err(e) => Err(format!("{}", e)),
    }
}

/// Encodes a decoded image as a PNG artifact held in memory: this succeeds
/// exactly when both dimensions are nonzero. An encoder error is reported as
/// `EncodeFailed`, never retried; a zero-area image is the one thing the
/// format cannot hold.
pub fn encode_image(img: &DecodedImage) -> (r: Result<Vec<u8>, CaptureError>)
    requires
        img.wf(),
    ensures
        r matches Ok(b) ==> b@ == png_data_of(img.width, img.height, img.pixels@),
        (img.width > 0 && img.height > 0) <==> r is Ok,
        r matches Err(e) ==> e matches CaptureError::EncodeFailed(_),
{
    match encode_png(img.width, img.height, &img.pixels) {
        Ok(b) => Ok(b),
        Err(m) => Err(CaptureError::EncodeFailed(m)),
    }
}

/// Measures the dimensions that come back from decoding a freshly encoded
/// artifact. The round trip through the lossless format loses nothing: it
/// succeeds for every encodable image within the decoder's allocation cap,
/// and the decoded dimensions are then exactly the dimensions of the image
/// that was encoded.
pub fn png_round_trip_dims(img: &DecodedImage) -> (r: Option<(u32, u32)>)
    requires
        img.wf(),
    ensures
        r matches Some(d) ==> d == (img.width, img.height),
        img.width > 0 && img.height > 0 && img.pixels@.len() <= SAFE_DECODE_BYTES ==> r is Some,
{
    match encode_image(img) {
        Ok(bytes) => match decode_png_dims(&bytes) {
            Ok(d) => Some(d),
            Err(_) => None,
        },
        Err(_) => None,
    }
}

} // verus!
