//! PNG encoding of BGRA frame crops.
//!
//! Byte arithmetic over an in-memory frame: crop a pixel rectangle out of
//! the BGRA buffer, convert it to RGB, and encode one PNG. Runs only on
//! the single capture worker behind the bounded queue, never on the tap
//! callback.

use vstd::prelude::*;

use crate::capture::broker::FrameData;
use crate::capture::geometry::CropPx;
use crate::text::{decimal, push_char, push_decimal};

verus! {

/// The RGB bytes of one crop row: for each of `w` BGRA pixels starting at
/// byte `start`, its red, green and blue bytes.
pub open spec fn row_rgb(pixels: Seq<u8>, start: int, w: int) -> Seq<u8> {
    Seq::new((3 * w) as nat, |i: int| pixels[start + 4 * (i / 3) + 2 - i % 3])
}

/// The byte where crop row `row` starts.
pub open spec fn row_start(bytes_per_row: int, x: int, row: int) -> int {
    row * bytes_per_row + x * 4
}

/// The RGB bytes of the first `rows` rows of the crop, top to bottom.
pub open spec fn crop_rgb(pixels: Seq<u8>, bytes_per_row: int, x: int, y: int, w: int, rows: nat) -> Seq<u8>
    decreases rows,
{
    if rows == 0 {
        Seq::empty()
    } else {
        crop_rgb(pixels, bytes_per_row, x, y, w, (rows - 1) as nat) + row_rgb(
            pixels,
            row_start(bytes_per_row, x, y + rows - 1),
            w,
        )
    }
}

/// The crop's RGB bytes hold three bytes for each of its `w * rows`
/// pixels.
pub proof fn lemma_crop_rgb_len(pixels: Seq<u8>, bytes_per_row: int, x: int, y: int, w: int, rows: nat)
    requires
        w >= 0,
    ensures
        crop_rgb(pixels, bytes_per_row, x, y, w, rows).len() == (3 * w) * rows,
    decreases rows,
{
    if rows > 0 {
        lemma_crop_rgb_len(pixels, bytes_per_row, x, y, w, (rows - 1) as nat);
        let last = row_rgb(pixels, row_start(bytes_per_row, x, y + rows - 1), w);
        assert(last.len() == 3 * w);
        assert((3 * w) * (rows - 1) + 3 * w == (3 * w) * rows) by (nonlinear_arith);
    } else {
        assert((3 * w) * rows == 0) by (nonlinear_arith)
            requires
                rows == 0,
        ;
    }
}

/// A crop row that runs past the end of the pixel buffer.
pub open spec fn row_truncated(len: int, bytes_per_row: int, x: int, w: int, row: int) -> bool {
    row_start(bytes_per_row, x, row) + w * 4 > len
}

/// The crop clamped to the frame: `(x, y, w, h)`.
pub open spec fn clamped(width: u32, height: u32, crop: CropPx) -> (int, int, int, int) {
    let x = if crop.x < width { crop.x as int } else { width as int };
    let y = if crop.y < height { crop.y as int } else { height as int };
    let w = if (crop.w as int) < width - x { crop.w as int } else { width - x };
    let h = if (crop.h as int) < height - y { crop.h as int } else { height - y };
    (x, y, w, h)
}

/// The error for a crop that is empty after clamping; the crop renders
/// as `{:?}` renders it.
pub open spec fn empty_crop_message(crop: CropPx, width: u32, height: u32) -> Seq<char> {
    "empty crop CropPx { x: "@ + decimal(crop.x as nat) + ", y: "@ + decimal(crop.y as nat)
        + ", w: "@ + decimal(crop.w as nat) + ", h: "@ + decimal(crop.h as nat) + " } for a "@ + decimal(width as nat) + seq!['x'] + decimal(
        height as nat,
    ) + " frame"@
}

/// The error for a crop row that runs past the pixel buffer.
pub open spec fn truncated_message(row: int, len: int, bytes_per_row: int) -> Seq<char> {
    "frame buffer truncated at row "@ + decimal(row as nat) + ": "@ + decimal(len as nat)
        + " bytes, bytes_per_row "@ + decimal(bytes_per_row as nat)
}

/// The PNG that `png` produces for an 8-bit RGB image of `width` x
/// `height` pixels with the given row-major pixel bytes, fast
/// compression.
pub uninterp spec fn png_rgb_encoding(width: u32, height: u32, rgb: Seq<u8>) -> Seq<u8>;

/// Encodes an 8-bit RGB image with `png` (`Encoder::new`, `set_color`,
/// `set_depth`, `set_compression(Fast)`, `write_header`,
/// `write_image_data`, `finish`) into memory. On success the bytes are the
/// encoding named by `png_rgb_encoding`. The crate refuses only a zero
/// width or height (`write_header`) and a buffer whose length is not
/// three bytes per pixel (`write_image_data`); writing into a `Vec`
/// cannot fail, so any other image is encoded. The error's text is left
/// open beyond its stage prefix.
#[verifier::external_body]
fn png_encode_rgb(width: u32, height: u32, rgb: &[u8]) -> (r: Result<Vec<u8>, String>)
    ensures
        r matches Ok(bytes) ==> bytes@ == png_rgb_encoding(width, height, rgb@),
        width > 0 && height > 0 && rgb@.len() == 3 * width * height ==> r is Ok,
{
    let mut bytes = Vec::new();
    {
        let mut encoder = png::Encoder::new(&mut bytes, width, height);
        encoder.set_color(png::ColorType::Rgb);
        encoder.set_depth(png::BitDepth::Eight);
        encoder.set_compression(png::Compression::Fast);
        let mut writer = encoder.write_header().map_err(|e| format!("png header: {e}"))?;
        writer.write_image_data(rgb).map_err(|e| format!("png data: {e}"))?;
        writer.finish().map_err(|e| format!("png finish: {e}"))?;
    }
    Ok(bytes)
}

fn empty_crop_error(crop: CropPx, width: u32, height: u32) -> (r: String)
    ensures
        r@ == empty_crop_message(crop, width, height),
{
    let mut s = String::from_str("empty crop CropPx { x: ");
    push_decimal(&mut s, crop.x as u64);
    s.append(", y: ");
    push_decimal(&mut s, crop.y as u64);
    s.append(", w: ");
    push_decimal(&mut s, crop.w as u64);
    s.append(", h: ");
    push_decimal(&mut s, crop.h as u64);
    s.append(" } for a ");
    push_decimal(&mut s, width as u64);
    push_char(&mut s, 'x');
    push_decimal(&mut s, height as u64);
    s.append(" frame");
    assert(s@ =~= empty_crop_message(crop, width, height));
    s
}

/// The byte range of crop row `row`, or `None` when its end lies beyond
/// the address space.
fn row_bounds(row: u32, bytes_per_row: usize, x: u32, w: u32) -> (r: Option<(usize, usize)>)
    ensures
        match r {
            Some((start, end)) => start == row_start(bytes_per_row as int, x as int, row as int)
                && end == start + w * 4,
            None => row_start(bytes_per_row as int, x as int, row as int) + w * 4 > usize::MAX,
        },
{
    let offset = match (row as usize).checked_mul(bytes_per_row) {
        Some(v) => v,
        None => {
            assert((row as int) * (bytes_per_row as int) > usize::MAX);
            return None;
        },
    };
    let x_bytes = match (x as usize).checked_mul(4) {
        Some(v) => v,
        None => return None,
    };
    let start = match offset.checked_add(x_bytes) {
        Some(v) => v,
        None => return None,
    };
    let w_bytes = match (w as usize).checked_mul(4) {
        Some(v) => v,
        None => return None,
    };
    match start.checked_add(w_bytes) {
        Some(end) => Some((start, end)),
        None => None,
    }
}

fn truncated_error(row: u32, len: usize, bytes_per_row: usize) -> (r: String)
    ensures
        r@ == truncated_message(row as int, len as int, bytes_per_row as int),
{
    let mut s = String::from_str("frame buffer truncated at row ");
    push_decimal(&mut s, row as u64);
    s.append(": ");
    push_decimal(&mut s, len as u64);
    s.append(" bytes, bytes_per_row ");
    push_decimal(&mut s, bytes_per_row as u64);
    s
}

/// A crop that encodes: non-empty after clamping, with every row inside
/// the pixel buffer.
pub open spec fn crop_encodable<D>(frame: FrameData<D>, crop: CropPx) -> bool {
    let (x, y, w, h) = clamped(frame.width_px, frame.height_px, crop);
    let len = frame.pixels@.len() as int;
    let bpr = frame.bytes_per_row as int;
    &&& w != 0
    &&& h != 0
    &&& !exists|row: int| y <= row < y + h && row_truncated(len, bpr, x, w, row)
}

/// The PNG of an encodable crop: its clamped rectangle's pixels as RGB.
pub open spec fn crop_png<D>(frame: FrameData<D>, crop: CropPx) -> Seq<u8> {
    let (x, y, w, h) = clamped(frame.width_px, frame.height_px, crop);
    png_rgb_encoding(w as u32, h as u32, crop_rgb(frame.pixels@, frame.bytes_per_row as int, x, y, w, h as nat))
}

/// The error of a crop that does not encode: the empty-crop message, or
/// the message of its first row that runs past the buffer.
pub open spec fn crop_error<D>(frame: FrameData<D>, crop: CropPx, e: Seq<char>) -> bool {
    let (x, y, w, h) = clamped(frame.width_px, frame.height_px, crop);
    let len = frame.pixels@.len() as int;
    let bpr = frame.bytes_per_row as int;
    if w == 0 || h == 0 {
        e == empty_crop_message(crop, frame.width_px, frame.height_px)
    } else {
        exists|row: int|
            y <= row < y + h && row_truncated(len, bpr, x, w, row) && (forall|earlier: int|
                y <= earlier < row ==> !row_truncated(len, bpr, x, w, earlier)) && e
                == truncated_message(row, len, bpr)
    }
}

/// Encodes `crop` of `frame` as an RGB PNG. The crop is clamped to the
/// frame dimensions; an empty crop after clamping is an error (a crop
/// never silently produces a zero-size image), and so is a crop row that
/// runs past the pixel buffer (also one whose byte offset is beyond the
/// address space). Every other crop is encoded.
pub fn encode_crop_png<D>(frame: &FrameData<D>, crop: CropPx) -> (r: Result<Vec<u8>, String>)
    ensures
        crop_encodable(*frame, crop) ==> (r matches Ok(bytes) && bytes@ == crop_png(*frame, crop)),
        !crop_encodable(*frame, crop) ==> (r matches Err(e) && crop_error(*frame, crop, e@)),
{
    let width = frame.width_px;
    let height = frame.height_px;
    let x = if crop.x < width { crop.x } else { width };
    let y = if crop.y < height { crop.y } else { height };
    let w = if crop.w < width - x { crop.w } else { width - x };
    let h = if crop.h < height - y { crop.h } else { height - y };
    assert(clamped(width, height, crop) == (x as int, y as int, w as int, h as int));
    if w == 0 || h == 0 {
        return Err(empty_crop_error(crop, width, height));
    }
    let bpr = frame.bytes_per_row;
    let len = frame.pixels.len();
    let ghost pixels = frame.pixels@;
    let mut rgb: Vec<u8> = Vec::new();
    let mut row: u32 = y;
    while row < y + h
        invariant
            y <= row <= y + h,
            y + h <= height,
            x + w <= width,
            w > 0,
            h > 0,
            clamped(width, height, crop) == (x as int, y as int, w as int, h as int),
            height == frame.height_px,
            width == frame.width_px,
            bpr == frame.bytes_per_row,
            len == pixels.len(),
            pixels == frame.pixels@,
            forall|earlier: int| y <= earlier < row ==> !row_truncated(len as int, bpr as int, x as int, w as int, earlier),
            rgb@ == crop_rgb(pixels, bpr as int, x as int, y as int, w as int, (row - y) as nat),
        decreases y + h - row,
    {
        let bounds = row_bounds(row, bpr, x, w);
        let (start, end): (usize, usize) = match bounds {
            Some(b) => b,
            None => (0, usize::MAX),
        };
        if bounds.is_none() || end > len {
            let e = truncated_error(row, len, bpr);
            proof {
                let rw = row as int;
                assert(row_truncated(len as int, bpr as int, x as int, w as int, rw));
                assert(y <= rw < y + h && row_truncated(len as int, bpr as int, x as int, w as int, rw)
                    && (forall|earlier: int| y <= earlier < rw ==> !row_truncated(len as int, bpr as int, x as int, w as int, earlier))
                    && e@ == truncated_message(rw, len as int, bpr as int));
                assert(exists|r2: int| y <= r2 < y + h && row_truncated(len as int, bpr as int, x as int, w as int, r2));
                assert(frame.pixels@.len() as int == len as int);
                let c = clamped(frame.width_px, frame.height_px, crop);
                assert(c.1 <= rw < c.1 + c.3 && row_truncated(
                    frame.pixels@.len() as int,
                    frame.bytes_per_row as int,
                    c.0,
                    c.2,
                    rw,
                ));
                assert(!crop_encodable(*frame, crop));
                assert(crop_error(*frame, crop, e@));
            }
            return Err(e);
        }
        let ghost before = rgb@;
        let mut k: usize = 0;
        while k < w as usize
            invariant
                0 <= k <= w,
                start + (w as usize) * 4 <= len,
                len == pixels.len(),
                pixels == frame.pixels@,
                rgb@ == before + row_rgb(pixels, start as int, w as int).take(3 * k),
            decreases w - k,
        {
            let p = start + 4 * k;
            rgb.push(frame.pixels[p + 2]);
            rgb.push(frame.pixels[p + 1]);
            rgb.push(frame.pixels[p]);
            proof {
                let full = row_rgb(pixels, start as int, w as int);
                assert(full.take(3 * (k + 1)) =~= full.take(3 * k).push(pixels[p + 2]).push(
                    pixels[p + 1],
                ).push(pixels[p as int]));
            }
            k = k + 1;
        }
        proof {
            let full = row_rgb(pixels, start as int, w as int);
            assert(full.take(3 * (w as int)) =~= full);
            assert(crop_rgb(pixels, bpr as int, x as int, y as int, w as int, (row + 1 - y) as nat)
                == crop_rgb(pixels, bpr as int, x as int, y as int, w as int, (row - y) as nat)
                + full);
        }
        row = row + 1;
    }
    proof {
        lemma_crop_rgb_len(pixels, bpr as int, x as int, y as int, w as int, h as nat);
        assert(rgb@.len() == 3 * (w as int) * (h as int)) by (nonlinear_arith)
            requires
                rgb@.len() == (3 * w as int) * (h as int),
        ;
    }
    png_encode_rgb(w, h, rgb.as_slice())
}

} // verus!
