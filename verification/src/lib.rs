//! Rasterized-glyph bitmaps and their PNG encoding.
//!
//! A glyph rasterizer hands back an alpha-coverage texture: a bounding
//! rectangle, a texture kind (one coverage channel, or three for subpixel
//! rendering), and a byte buffer of coverage values.  This crate models such
//! a texture, checks that the buffer matches its declared shape, and encodes
//! it as a grayscale or RGB PNG image under a predictable file name.
mod encode;
mod glyph;
mod output;

pub use encode::png_encoding;
pub use encode::Error;
pub use glyph::antialias_modes;
pub use glyph::checked_alpha_len;
pub use glyph::AntialiasMode;
pub use glyph::Glyph;
pub use glyph::TextureBounds;
pub use glyph::TextureKind;
pub use output::file_name_spec;
pub use output::output_file_name;
pub use output::render_output;
pub use output::sample_characters;
