//! Raw captured frames and decoded images: buffer-size validation and pure
//! pixel-region extraction.
use vstd::prelude::*;

use crate::errors::CaptureError;
use crate::geometry::CropRect;

verus! {

/// The number of bytes per pixel: one each for red, green, blue and alpha.
pub const BYTES_PER_PIXEL: u32 = 4;

/// A full-resolution raster snapshot as handed back by the capture step.
/// Its buffer is untrusted until validated against the stated dimensions.
#[derive(Clone, Debug)]
pub struct RawFrame {
    pub width: u32,
    pub height: u32,
    pub pixels: Vec<u8>,
}

impl RawFrame {
    /// The buffer length exactly matches the stated dimensions.
    pub open spec fn wf(self) -> bool {
        self.pixels@.len() == self.width * self.height * 4
    }
}

/// A structured raster image: validated dimensions with a pixel-addressable
/// buffer of red, green, blue, alpha bytes in row-major order.
#[derive(Clone, Debug)]
pub struct DecodedImage {
    pub width: u32,
    pub height: u32,
    pub pixels: Vec<u8>,
}

/// The position of one channel byte of one pixel inside a row-major buffer of
/// the given width.
pub open spec fn flat_idx(width: int, row: int, col: int, ch: int) -> int {
    (row * width + col) * 4 + ch
}

impl DecodedImage {
    /// The buffer length exactly matches the dimensions.
    pub open spec fn wf(self) -> bool {
        self.pixels@.len() == self.width * self.height * 4
    }

    /// One channel byte of the pixel at the given row and column.
    pub open spec fn pixel_byte(self, row: int, col: int, ch: int) -> u8 {
        self.pixels@[flat_idx(self.width as int, row, col, ch)]
    }
}

/// Channel bytes of a pixel strictly before `(row, col)` in row-major order
/// over a `width`-wide grid lie strictly below the offset of `(row, col)`.
proof fn lemma_flat_idx_before(width: int, r: int, c: int, ch: int, row: int, col: int)
    requires
        0 <= r,
        0 <= c < width,
        0 <= ch < 4,
        0 <= row,
        0 <= col,
        r < row || (r == row && c < col),
    ensures
        0 <= flat_idx(width, r, c, ch) < row * width * 4 + col * 4,
{
    assert(0 <= (r * width + c) * 4 + ch < row * width * 4 + col * 4) by (nonlinear_arith)
        requires
            0 <= r,
            0 <= c < width,
            0 <= ch < 4,
            0 <= row,
            0 <= col,
            r < row || (r == row && c < col),
    ;
}

/// An in-bounds pixel's position in a row-major grid lies inside the grid,
/// and its channel bytes lie inside the full buffer.
proof fn lemma_flat_idx_at(width: int, height: int, row: int, col: int)
    requires
        0 <= row < height,
        0 <= col < width,
    ensures
        0 <= row * width + col < width * height,
        0 <= (row * width + col) * 4,
        (row * width + col) * 4 + 3 < width * height * 4,
        (row * width + col) * 4 == row * width * 4 + col * 4,
{
    assert(0 <= row * width + col < width * height && (row * width + col) * 4 + 3 < width * height
        * 4) by (nonlinear_arith)
        requires
            0 <= row < height,
            0 <= col < width,
    ;
}

/// Reconstructs a typed image from a raw frame, validating that the buffer
/// length is exactly consistent with the stated dimensions. Succeeds if and
/// only if the frame is well formed; a mismatch signals a driver or
/// environment inconsistency, never a caller error.
pub fn decode(frame: RawFrame) -> (r: Result<DecodedImage, CaptureError>)
    ensures
        frame.wf() <==> r is Ok,
        r matches Ok(img) ==> {
            &&& img.wf()
            &&& img.width == frame.width
            &&& img.height == frame.height
            &&& img.pixels@ == frame.pixels@
        },
        r matches Err(e) ==> e == CaptureError::MalformedFrame,
{
    proof {
        assert(frame.width as int * frame.height as int * 4 < 0x100000000000000000000000000000000)
            by (nonlinear_arith)
            requires
                frame.width <= u32::MAX,
                frame.height <= u32::MAX,
        ;
    }
    let expected: u128 = frame.width as u128 * frame.height as u128 * BYTES_PER_PIXEL as u128;
    if frame.pixels.len() as u128 == expected {
        Ok(DecodedImage { width: frame.width, height: frame.height, pixels: frame.pixels })
    } else {
        Err(CaptureError::MalformedFrame)
    }
}

/// Extracts the given in-bounds rectangle of an image as a new image: a pure
/// pixel-region extraction in top-left coordinates, with no rotation, scaling
/// or color conversion. A zero-area rectangle yields a zero-area image.
pub fn crop(img: &DecodedImage, rect: CropRect) -> (out: DecodedImage)
    requires
        img.wf(),
        rect.in_bounds(img.width, img.height),
    ensures
        out.wf(),
        out.width == rect.width,
        out.height == rect.height,
        forall|row: int, col: int, ch: int|
            0 <= row < rect.height && 0 <= col < rect.width && 0 <= ch < 4 ==> #[trigger] out
                .pixel_byte(row, col, ch) == img.pixel_byte(rect.y + row, rect.x + col, ch),
{
    let mut pixels: Vec<u8> = Vec::new();
    let mut row: u32 = 0;
    while row < rect.height
        invariant
            img.wf(),
            rect.in_bounds(img.width, img.height),
            row <= rect.height,
            pixels@.len() == row * rect.width * 4,
            forall|r: int, c: int, ch: int|
                0 <= r < row && 0 <= c < rect.width && 0 <= ch < 4 ==> pixels@[#[trigger] flat_idx(
                    rect.width as int,
                    r,
                    c,
                    ch,
                )] == img.pixel_byte(rect.y + r, rect.x + c, ch),
        decreases rect.height - row,
    {
        let mut col: u32 = 0;
        while col < rect.width
            invariant
                img.wf(),
                rect.in_bounds(img.width, img.height),
                row < rect.height,
                col <= rect.width,
                pixels@.len() == row * rect.width * 4 + col * 4,
                forall|r: int, c: int, ch: int|
                    0 <= r && 0 <= c < rect.width && 0 <= ch < 4 && (r < row || (r == row && c
                        < col)) ==> pixels@[#[trigger] flat_idx(rect.width as int, r, c, ch)]
                        == img.pixel_byte(rect.y + r, rect.x + c, ch),
            decreases rect.width - col,
        {
            let img_len: usize = img.pixels.len();
            let ghost pre = pixels@;
            let src_row: usize = rect.y as usize + row as usize;
            let src_col: usize = rect.x as usize + col as usize;
            proof {
                lemma_flat_idx_at(
                    img.width as int,
                    img.height as int,
                    rect.y + row as int,
                    rect.x + col as int,
                );
                assert(src_row as int == rect.y + row as int);
                assert(src_col as int == rect.x + col as int);
                assert(src_row * img.width + src_col < img.width * img.height);
                assert((src_row * img.width + src_col) * 4 + 3 < img_len);
            }
            let base: usize = (src_row * img.width as usize + src_col) * 4;
            pixels.push(img.pixels[base]);
            pixels.push(img.pixels[base + 1]);
            pixels.push(img.pixels[base + 2]);
            pixels.push(img.pixels[base + 3]);
            proof {
                lemma_flat_idx_at(rect.width as int, rect.height as int, row as int, col as int);
                assert forall|r: int, c: int, ch: int|
                    0 <= r && 0 <= c < rect.width && 0 <= ch < 4 && (r < row || (r == row && c
                        <= col)) implies pixels@[#[trigger] flat_idx(rect.width as int, r, c, ch)]
                    == img.pixel_byte(rect.y + r, rect.x + c, ch) by {
                    if r == row && c == col {
                        assert(flat_idx(rect.width as int, r, c, ch) == pre.len() + ch);
                        assert(pixels@[pre.len() + ch] == img.pixels@[base + ch]);
                        assert(img.pixels@[base + ch] == img.pixel_byte(
                            rect.y + r,
                            rect.x + c,
                            ch,
                        ));
                    } else {
                        lemma_flat_idx_before(rect.width as int, r, c, ch, row as int, col as int);
                        assert(pixels@[flat_idx(rect.width as int, r, c, ch)] == pre[flat_idx(
                            rect.width as int,
                            r,
                            c,
                            ch,
                        )]);
                    }
                }
            }
            col = col + 1;
        }
        proof {
            assert(row * rect.width * 4 + rect.width * 4 == (row + 1) * rect.width * 4)
                by (nonlinear_arith);
        }
        row = row + 1;
    }
    proof {
        assert(rect.height * rect.width * 4 == rect.width * rect.height * 4) by (nonlinear_arith);
    }
    let out = DecodedImage { width: rect.width, height: rect.height, pixels };
    proof {
        assert forall|row: int, col: int, ch: int|
            0 <= row < rect.height && 0 <= col < rect.width && 0 <= ch < 4 implies #[trigger] out
            .pixel_byte(row, col, ch) == img.pixel_byte(rect.y + row, rect.x + col, ch) by {
            assert(out.pixels@[flat_idx(rect.width as int, row, col, ch)] == img.pixel_byte(
                rect.y + row,
                rect.x + col,
                ch,
            ));
        }
    }
    out
}

} // verus!
