//! The model of a rasterized glyph: its anti-aliasing mode, the kind of
//! alpha texture it was rendered into, the texture's bounding rectangle,
//! and the coverage buffer itself.

use vstd::prelude::*;

verus! {

/// The anti-aliasing mode a glyph is rasterized under.  Each mode has a
/// stable numeric identifier, used in output file names.
#[derive(Clone, Copy, Debug, PartialEq, Eq, Structural)]
pub enum AntialiasMode {
    /// Subpixel (ClearType-style) anti-aliasing: three coverage values per
    /// pixel, one per display subpixel.
    Cleartype,
    /// Grayscale anti-aliasing: a single coverage value per pixel.
    Grayscale,
}

impl AntialiasMode {
    /// The numeric identifier of the mode.
    pub open spec fn id_spec(self) -> u32 {
        match self {
            AntialiasMode::Cleartype => 0,
            AntialiasMode::Grayscale => 1,
        }
    }

    /// The numeric identifier of the mode, as it appears in file names.
    pub fn id(&self) -> (r: u32)
        ensures
            r == self.id_spec(),
    {
        match self {
            AntialiasMode::Cleartype => 0,
            AntialiasMode::Grayscale => 1,
        }
    }

    /// The decimal digit of the mode's identifier.
    pub open spec fn id_char_spec(self) -> char {
        match self {
            AntialiasMode::Cleartype => '0',
            AntialiasMode::Grayscale => '1',
        }
    }

    /// The kind of alpha texture a glyph rasterized under this mode is
    /// rendered into: three channels for subpixel anti-aliasing, one
    /// otherwise.
    pub fn texture_kind(&self) -> (r: TextureKind)
        ensures
            r == self.texture_kind_spec(),
    {
        match self {
            AntialiasMode::Cleartype => TextureKind::Cleartype3x1,
            AntialiasMode::Grayscale => TextureKind::Aliased1x1,
        }
    }

    /// The texture kind that belongs to this mode.
    pub open spec fn texture_kind_spec(self) -> TextureKind {
        match self {
            AntialiasMode::Cleartype => TextureKind::Cleartype3x1,
            AntialiasMode::Grayscale => TextureKind::Aliased1x1,
        }
    }
}

/// The two modes a glyph is rasterized under, in the order their output is
/// produced.
pub fn antialias_modes() -> (r: Vec<AntialiasMode>)
    ensures
        r@ == seq![AntialiasMode::Cleartype, AntialiasMode::Grayscale],
{
    let r = vec![AntialiasMode::Cleartype, AntialiasMode::Grayscale];
    r
}

/// The kind of alpha texture a glyph was rendered into.
#[derive(Clone, Copy, Debug, PartialEq, Eq, Structural)]
pub enum TextureKind {
    /// One coverage byte per pixel.
    Aliased1x1,
    /// Three coverage bytes per pixel, one per horizontal subpixel.
    Cleartype3x1,
}

impl TextureKind {
    /// How many coverage bytes the texture holds per pixel.
    pub open spec fn channels_spec(self) -> int {
        match self {
            TextureKind::Aliased1x1 => 1,
            TextureKind::Cleartype3x1 => 3,
        }
    }

    /// How many coverage bytes the texture holds per pixel.
    pub fn channels(&self) -> (r: usize)
        ensures
            r == self.channels_spec(),
    {
        match self {
            TextureKind::Aliased1x1 => 1,
            TextureKind::Cleartype3x1 => 3,
        }
    }
}

/// The bounding rectangle of an alpha texture, in texel coordinates.
/// A rasterizer may report any integer corners; the rectangle is
/// well formed when it is not inverted (it may still be empty).
#[derive(Clone, Copy, Debug, PartialEq, Eq, Structural)]
pub struct TextureBounds {
    pub left: i32,
    pub top: i32,
    pub right: i32,
    pub bottom: i32,
}

impl TextureBounds {
    /// The rectangle is not inverted: each high corner is at or past the
    /// low one.
    pub open spec fn wf(self) -> bool {
        self.left <= self.right && self.top <= self.bottom
    }

    /// The width of the rectangle, in texels.
    pub open spec fn width_spec(self) -> int {
        self.right - self.left
    }

    /// The height of the rectangle, in texels.
    pub open spec fn height_spec(self) -> int {
        self.bottom - self.top
    }

    /// The width of the rectangle.  The difference of two `i32` corners
    /// always fits in a `u32`.
    pub fn width(&self) -> (r: u32)
        requires
            self.wf(),
        ensures
            r == self.width_spec(),
    {
        let w: i64 = self.right as i64 - self.left as i64;
        w as u32
    }

    /// The height of the rectangle.
    pub fn height(&self) -> (r: u32)
        requires
            self.wf(),
        ensures
            r == self.height_spec(),
    {
        let h: i64 = self.bottom as i64 - self.top as i64;
        h as u32
    }
}

/// A rasterized glyph: the bounding rectangle of its alpha texture, the
/// kind of texture, and the coverage buffer, which holds one byte per
/// channel per texel.
#[derive(Clone, Debug)]
pub struct Glyph {
    pub bounds: TextureBounds,
    pub kind: TextureKind,
    pub alpha_values: Vec<u8>,
}

impl Glyph {
    /// The buffer matches the declared shape: `channels * width * height`
    /// coverage bytes, under a well-formed rectangle.
    pub open spec fn wf(self) -> bool {
        &&& self.bounds.wf()
        &&& self.alpha_values@.len() == self.kind.channels_spec() * self.bounds.width_spec()
            * self.bounds.height_spec()
    }

    /// Builds a glyph from a rasterizer's output, accepting it only when
    /// the buffer matches the declared shape.
    pub fn new(bounds: TextureBounds, kind: TextureKind, alpha_values: Vec<u8>) -> (r: Option<
        Glyph,
    >)
        ensures
            match r {
                Some(g) => {
                    &&& g.wf()
                    &&& g.bounds == bounds
                    &&& g.kind == kind
                    &&& g.alpha_values@ == alpha_values@
                },
                None => !(bounds.wf() && alpha_values@.len() == kind.channels_spec()
                    * bounds.width_spec() * bounds.height_spec()),
            },
    {
        if bounds.right < bounds.left || bounds.bottom < bounds.top {
            return None;
        }
        let len: usize = alpha_values.len();
        match checked_alpha_len(kind, &bounds) {
            Some(n) => if n == len {
                Some(Glyph { bounds, kind, alpha_values })
            } else {
                None
            },
            None => None,
        }
    }
}

/// The number of coverage bytes a texture of this kind and rectangle must
/// hold, or `None` when that count does not fit in `usize`.
pub fn checked_alpha_len(kind: TextureKind, bounds: &TextureBounds) -> (r: Option<usize>)
    requires
        bounds.wf(),
    ensures
        match r {
            Some(n) => n == kind.channels_spec() * bounds.width_spec() * bounds.height_spec(),
            None => kind.channels_spec() * bounds.width_spec() * bounds.height_spec() > usize::MAX,
        },
{
    let w = bounds.width() as usize;
    let h = bounds.height() as usize;
    let c = kind.channels();
    proof {
        lemma_alpha_len_arith(c as int, w as int, h as int);
    }
    match w.checked_mul(h) {
        Some(wh) => wh.checked_mul(c),
        None => None,
    }
}

/// Rearranges the coverage-count product and bounds it below by the texel
/// count, so that overflow of either partial product decides overflow of
/// the whole.
proof fn lemma_alpha_len_arith(c: int, w: int, h: int)
    by (nonlinear_arith)
    requires
        c >= 1,
        w >= 0,
        h >= 0,
    ensures
        (w * h) * c == (c * w) * h,
        (w * h) * c >= w * h,
{
}

} // verus!
