//! The name and contents of one output file: a glyph's PNG image is
//! written under the name `{mode-id}_{character}.png`.

use crate::encode::png_encoding;
use crate::encode::Error;
use crate::glyph::AntialiasMode;
use crate::glyph::Glyph;
use vstd::prelude::*;
use vstd::string::StringExecFns;

verus! {

/// Relies on `String::push`, which appends the given character to the end
/// of the string.
pub assume_specification[ String::push ](s: &mut String, ch: char)
    ensures
        final(s)@ == old(s)@.push(ch),
;

/// The characters rasterized in one run, in the order their output files
/// are produced: the letters of `namespace`.
pub fn sample_characters() -> (r: Vec<char>)
    ensures
        r@ == seq!['n', 'a', 'm', 'e', 's', 'p', 'a', 'c', 'e'],
{
    let r = vec!['n', 'a', 'm', 'e', 's', 'p', 'a', 'c', 'e'];
    r
}

/// The name of the output file for one glyph: the mode's identifier digit,
/// an underscore, the character itself, and the `.png` suffix.
pub open spec fn file_name_spec(mode: AntialiasMode, ch: char) -> Seq<char> {
    seq![mode.id_char_spec(), '_', ch, '.', 'p', 'n', 'g']
}

/// Builds the output file name `{mode-id}_{character}.png`.
pub fn output_file_name(mode: &AntialiasMode, ch: char) -> (r: String)
    ensures
        r@ == file_name_spec(*mode, ch),
{
    proof {
        reveal_strlit("0");
        reveal_strlit("1");
        reveal_strlit(".png");
    }
    let mut name = match mode {
        AntialiasMode::Cleartype => String::from_str("0"),
        AntialiasMode::Grayscale => String::from_str("1"),
    };
    name.push('_');
    name.push(ch);
    name.append(".png");
    proof {
        assert(name@ =~= file_name_spec(*mode, ch));
    }
    name
}

/// Produces one output file's name and PNG contents for a rasterized
/// glyph, as they are written to disk.  Succeeds exactly when the glyph's
/// texture has a positive width and height.
pub fn render_output(mode: &AntialiasMode, ch: char, glyph: &Glyph) -> (r: Result<
    (String, Vec<u8>),
    Error,
>)
    requires
        glyph.wf(),
    ensures
        match r {
            Ok(out) => {
                &&& out.0@ == file_name_spec(*mode, ch)
                &&& 0 < glyph.bounds.width_spec()
                &&& 0 < glyph.bounds.height_spec()
                &&& out.1@ == png_encoding(
                    glyph.bounds.width_spec() as u32,
                    glyph.bounds.height_spec() as u32,
                    glyph.is_rgb(),
                    glyph.alpha_values@,
                )
            },
            Err(e) => {
                &&& (glyph.bounds.width_spec() == 0 || glyph.bounds.height_spec() == 0)
                &&& e is Encoding
            },
        },
{
    let bytes = match glyph.encode() {
        Ok(bytes) => bytes,
        Err(e) => {
            return Err(e);
        },
    };
    Ok((output_file_name(mode, ch), bytes))
}

} // verus!
