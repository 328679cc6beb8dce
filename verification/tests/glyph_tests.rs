use glyph_png::antialias_modes;
use glyph_png::checked_alpha_len;
use glyph_png::sample_characters;
use glyph_png::AntialiasMode;
use glyph_png::Glyph;
use glyph_png::TextureBounds;
use glyph_png::TextureKind;

#[test]
fn mode_ids() {
    assert_eq!(AntialiasMode::Cleartype.id(), 0);
    assert_eq!(AntialiasMode::Grayscale.id(), 1);
}

#[test]
fn modes_in_output_order() {
    let modes = antialias_modes();
    assert_eq!(modes, vec![AntialiasMode::Cleartype, AntialiasMode::Grayscale]);
}

#[test]
fn texture_kind_per_mode() {
    assert_eq!(AntialiasMode::Cleartype.texture_kind(), TextureKind::Cleartype3x1);
    assert_eq!(AntialiasMode::Grayscale.texture_kind(), TextureKind::Aliased1x1);
}

#[test]
fn channels_per_kind() {
    assert_eq!(TextureKind::Aliased1x1.channels(), 1);
    assert_eq!(TextureKind::Cleartype3x1.channels(), 3);
}

#[test]
fn characters_of_a_run() {
    let chars: Vec<char> = sample_characters();
    let expected: Vec<char> = "namespace".chars().collect();
    assert_eq!(chars, expected);
}

#[test]
fn bounds_width_and_height() {
    let b = TextureBounds { left: -3, top: 2, right: 4, bottom: 7 };
    assert_eq!(b.width(), 7);
    assert_eq!(b.height(), 5);
}

#[test]
fn alpha_len_exact() {
    let b = TextureBounds { left: 0, top: 0, right: 4, bottom: 2 };
    assert_eq!(checked_alpha_len(TextureKind::Cleartype3x1, &b), Some(24));
    assert_eq!(checked_alpha_len(TextureKind::Aliased1x1, &b), Some(8));
}

#[test]
fn alpha_len_empty_rectangle() {
    let b = TextureBounds { left: 5, top: -1, right: 5, bottom: 3 };
    assert_eq!(checked_alpha_len(TextureKind::Cleartype3x1, &b), Some(0));
}

#[test]
fn alpha_len_overflow() {
    let b = TextureBounds { left: i32::MIN, top: i32::MIN, right: i32::MAX, bottom: i32::MAX };
    assert_eq!(checked_alpha_len(TextureKind::Cleartype3x1, &b), None);
}

#[test]
fn glyph_new_accepts_matching_buffer() {
    let b = TextureBounds { left: -1, top: 0, right: 1, bottom: 1 };
    let g = Glyph::new(b, TextureKind::Cleartype3x1, vec![0, 1, 2, 3, 4, 5]);
    let g = g.expect("a matching buffer is accepted");
    assert_eq!(g.bounds, b);
    assert_eq!(g.kind, TextureKind::Cleartype3x1);
    assert_eq!(g.alpha_values, vec![0, 1, 2, 3, 4, 5]);
}

#[test]
fn glyph_new_rejects_wrong_length() {
    let b = TextureBounds { left: -1, top: 0, right: 1, bottom: 1 };
    assert!(Glyph::new(b, TextureKind::Cleartype3x1, vec![0, 1, 2, 3, 4]).is_none());
    assert!(Glyph::new(b, TextureKind::Aliased1x1, vec![0, 1, 2, 3, 4, 5]).is_none());
}

#[test]
fn glyph_new_rejects_inverted_bounds() {
    let b = TextureBounds { left: 1, top: 0, right: 0, bottom: 1 };
    assert!(Glyph::new(b, TextureKind::Aliased1x1, vec![]).is_none());
}
