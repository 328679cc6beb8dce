//! PNG encoding of a glyph's coverage buffer.
//!
//! The image encoder itself comes from the `png` crate; this module wraps
//! exactly the calls the library needs, states what they do, and builds the
//! verified encoding step on top of them.

use crate::glyph::Glyph;
use crate::glyph::TextureKind;
use vstd::prelude::*;

verus! {

/// The `png` crate's error type, carried through unopened.
#[verifier::external_type_specification]
#[verifier::external_body]
pub struct ExEncodingError(png::EncodingError);

/// An error of this library.
#[derive(Debug)]
pub enum Error {
    /// The PNG encoder rejected the image; in particular, it rejects an
    /// image with a zero dimension.
    Encoding(png::EncodingError),
}

/// The bytes of the PNG image that encodes `data` as `width` by `height`
/// 8-bit pixels, RGB when `rgb` holds and grayscale otherwise.  The
/// encoder writes the same bytes for the same arguments; nothing shorter
/// than the PNG format itself says which bytes they are.
pub uninterp spec fn png_encoding(width: u32, height: u32, rgb: bool, data: Seq<u8>) -> Seq<u8>;

/// How many bytes one pixel takes under the chosen color type.
pub open spec fn png_channels(rgb: bool) -> int {
    if rgb {
        3
    } else {
        1
    }
}

/// Relies on `png::Encoder::new`, `Encoder::set_color`,
/// `Encoder::write_header` and `png::Writer::write_image_data` / `finish`:
/// with 8-bit depth and a grayscale or RGB color type, `write_header`
/// fails exactly when a dimension is zero, `write_image_data` fails
/// exactly when the buffer is not `channels * width * height` bytes, and
/// writing into a `Vec` cannot fail.  The encoder compares the buffer
/// against that product in plain `usize` arithmetic, so the product must
/// fit in `usize` for the comparison — and this contract — to be about
/// the true count.
#[verifier::external_body]
fn encode_png_bytes(width: u32, height: u32, rgb: bool, data: &Vec<u8>) -> (r: Result<
    Vec<u8>,
    png::EncodingError,
>)
    requires
        png_channels(rgb) * width * height <= usize::MAX,
    ensures
        match r {
            Ok(bytes) => {
                &&& 0 < width
                &&& 0 < height
                &&& data@.len() == png_channels(rgb) * width * height
                &&& bytes@ == png_encoding(width, height, rgb, data@)
            },
            Err(_) => width == 0 || height == 0 || data@.len() != png_channels(rgb) * width
                * height,
        },
{
    let mut out: Vec<u8> = Vec::new();
    let mut enc = png::Encoder::new(&mut out, width, height);
    enc.set_color(if rgb { png::ColorType::Rgb } else { png::ColorType::Grayscale });
    let mut writer = enc.write_header()?;
    writer.write_image_data(data)?;
    writer.finish()?;
    Ok(out)
}

impl Glyph {
    /// Whether this glyph's texture carries three channels per pixel and
    /// is therefore encoded as RGB rather than grayscale.
    pub open spec fn is_rgb(self) -> bool {
        self.kind is Cleartype3x1
    }

    /// The PNG image of this glyph's coverage buffer.  Encoding succeeds
    /// exactly when the texture has a positive width and height; an empty
    /// texture is rejected by the encoder.
    pub fn encode(&self) -> (r: Result<Vec<u8>, Error>)
        requires
            self.wf(),
        ensures
            match r {
                Ok(bytes) => {
                    &&& 0 < self.bounds.width_spec()
                    &&& 0 < self.bounds.height_spec()
                    &&& bytes@ == png_encoding(
                        self.bounds.width_spec() as u32,
                        self.bounds.height_spec() as u32,
                        self.is_rgb(),
                        self.alpha_values@,
                    )
                },
                Err(e) => {
                    &&& (self.bounds.width_spec() == 0 || self.bounds.height_spec() == 0)
                    &&& e is Encoding
                },
            },
    {
        let w = self.bounds.width();
        let h = self.bounds.height();
        let rgb = match self.kind {
            TextureKind::Cleartype3x1 => true,
            TextureKind::Aliased1x1 => false,
        };
        // The buffer already holds the whole product, so the product fits
        // in `usize`.
        let _len: usize = self.alpha_values.len();
        match encode_png_bytes(w, h, rgb, &self.alpha_values) {
            Ok(bytes) => Ok(bytes),
            Err(e) => Err(Error::Encoding(e)),
        }
    }
}

} // verus!
