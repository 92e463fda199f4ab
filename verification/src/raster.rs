//! Decoded seed images as plain pixel data.
//!
//! The automaton's first generation comes from an encoded raster file. The
//! decoding itself is the `image` crate's work and is taken on trust behind
//! one small wrapper; the decode is a function of the encoded bytes alone,
//! so its verdict and its result carry names that the contracts here speak
//! of exactly. Everything after the decode handles plain bytes and is
//! verified.
use vstd::prelude::*;

verus! {

/// Whether the encoded bytes decode as an image.
pub uninterp spec fn spec_decodes(bytes: Seq<u8>) -> bool;

/// The width, in pixels, of the image the bytes decode to.
pub uninterp spec fn spec_decoded_width(bytes: Seq<u8>) -> u32;

/// The height, in pixels, of the image the bytes decode to.
pub uninterp spec fn spec_decoded_height(bytes: Seq<u8>) -> u32;

/// The row-major single-channel pixel buffer the bytes decode to.
pub uninterp spec fn spec_decoded_luma(bytes: Seq<u8>) -> Seq<u8>;

/// Relies on image::load_from_memory and image::DynamicImage::to_luma8:
/// whether the bytes decode, and the single-channel image they decode to,
/// depend on the bytes alone; the gray buffer holds at least one byte per
/// pixel (an `ImageBuffer` never holds fewer samples than its dimensions
/// ask for).
#[verifier::external_body]
fn decode_luma(bytes: &Vec<u8>) -> (r: Result<(u32, u32, Vec<u8>), String>)
    ensures
        (r is Ok) == spec_decodes(bytes@),
        r matches Ok(t) ==> t.0 == spec_decoded_width(bytes@) && t.1 == spec_decoded_height(
            bytes@,
        ) && t.2@ == spec_decoded_luma(bytes@) && t.2@.len() >= t.0 * t.1,
{
    match image::load_from_memory(bytes.as_slice()) {
        Ok(img) => {
            let gray = img.to_luma8();
            let width = gray.width();
            let height = gray.height();
            Ok((width, height, gray.into_raw()))
        },
        Err(e) => Err(format!("{}", e)),
    }
}

/// A decoded single-channel raster: one byte per pixel, row-major.
pub struct Raster {
    pub width: u32,
    pub height: u32,
    pub pixels: Vec<u8>,
}

impl Raster {
    /// The pixel data holds exactly one byte per pixel.
    pub open spec fn wf(self) -> bool {
        self.pixels.len() == self.width * self.height
    }

    /// The byte of the pixel at column `x`, row `y`.
    pub open spec fn pixel(self, x: int, y: int) -> u8 {
        crate::generation::cell_in(self.pixels@, self.width as int, x, y)
    }

    /// Builds a raster from raw row-major pixel bytes.
    pub fn from_pixels(width: u32, height: u32, pixels: Vec<u8>) -> (r: Raster)
        requires
            pixels@.len() == width * height,
        ensures
            r.wf(),
            r.width == width,
            r.height == height,
            r.pixels@ == pixels@,
    {
        Raster { width, height, pixels }
    }
}

/// Decodes an encoded raster file's bytes into single-channel pixel data:
/// it succeeds exactly when the bytes decode as an image, and the returned
/// raster holds the decoded image's dimensions and its pixel bytes, one
/// per pixel.
pub fn decode_raster(bytes: &Vec<u8>) -> (r: Result<Raster, String>)
    ensures
        (r is Ok) == spec_decodes(bytes@),
        r matches Ok(t) ==> t.wf() && t.width == spec_decoded_width(bytes@) && t.height
            == spec_decoded_height(bytes@) && t.pixels@ == spec_decoded_luma(bytes@).take(
            (t.width * t.height) as int,
        ),
{
    let (width, height, mut pixels) = match decode_luma(bytes) {
        Ok(t) => t,
        Err(e) => {
            return Err(e);
        },
    };
    proof {
        assert(pixels.len() <= usize::MAX);
    }
    let count: usize = (width as usize) * (height as usize);
    pixels.truncate(count);
    Ok(Raster { width, height, pixels })
}

/// Where the first generation comes from: a decoded raster, or an empty
/// fill of the given dimensions.
pub enum ImageSource {
    Pixels(Raster),
    Empty { width: u32, height: u32 },
}

} // verus!
