use subtitle_core::decode::{decode_paletted, BitmapDecodeError};
use subtitle_core::dispatch::{BitmapRect, SubtitleError, SubtitleRect};
use subtitle_core::subtitle::{Align, FadeEffect, Margin, Rgba, Subtitle};

fn no_markup(_text: String) -> Result<Subtitle, SubtitleError> {
    panic!("markup collaborator must not be called for this rect");
}

fn assert_default_style(sub: &Subtitle) {
    assert!(sub.fade._is_zero());
    assert_eq!(sub.alignment.horizontal, Align::Center);
    assert_eq!(sub.alignment.vertical, Align::Center);
    assert_eq!(sub.primary_fill, Rgba { r: 255, g: 255, b: 255, a: 255 });
    assert_eq!(sub.position, None);
    assert_eq!(sub.font_size, 30);
    assert_eq!(sub.margin, Margin { left: 85, right: 85, top: 85, bottom: 85 });
}

#[test]
fn default_cue_has_documented_defaults() {
    let sub = Subtitle::default();
    assert_default_style(&sub);
    assert_eq!(sub.text, "");
    assert_eq!(sub.remaining_duration_ms, 0);
    assert_eq!(sub.presentation_time_ms, None);
    assert!(!sub.showing);
    assert!(sub.bitmap.data.is_empty());
    assert_eq!(sub.bitmap.x, 0);
    assert_eq!(sub.bitmap.y, 0);
    assert_eq!(sub.bitmap.w, 0);
    assert_eq!(sub.bitmap.h, 0);
}

#[test]
fn decoded_length_is_width_times_height() {
    // Rows of 3 pixels at a stride of 4: the trailing stride byte is skipped.
    let plane = vec![0u8, 1, 2, 9, 1, 2, 0, 9, 2, 0, 1, 9];
    let palette = vec![0x00000000u32, 0x11111111, 0x22222222];
    let pixels = decode_paletted(&plane, 4, &palette, 3, 3).unwrap();
    assert_eq!(pixels.len(), 9);
}

#[test]
fn uniform_plane_decodes_to_uniform_pixels() {
    // Every index byte is 2, and palette entry 2 is 0xAARRGGBB.
    let plane = vec![2u8; 8];
    let palette = vec![0u32, 0, 0xA1B2C3D4];
    let pixels = decode_paletted(&plane, 4, &palette, 3, 2).unwrap();
    assert_eq!(pixels.len(), 6);
    for p in &pixels {
        assert_eq!(*p, Rgba { r: 0xB2, g: 0xC3, b: 0xD4, a: 0xA1 });
    }
}

#[test]
fn concrete_two_pixel_decode() {
    // Index plane all zeros, palette[0] = 0x80102030, width 2, height 1.
    let plane = vec![0u8, 0];
    let palette = vec![0x80102030u32];
    let pixels = decode_paletted(&plane, 2, &palette, 2, 1).unwrap();
    assert_eq!(
        pixels,
        vec![
            Rgba { r: 16, g: 32, b: 48, a: 128 },
            Rgba { r: 16, g: 32, b: 48, a: 128 },
        ]
    );
}

#[test]
fn decoding_is_deterministic() {
    let plane: Vec<u8> = (0..24u8).map(|b| b % 4).collect();
    let palette = vec![0x01020304u32, 0x05060708, 0x090A0B0C, 0x0D0E0F10];
    let once = decode_paletted(&plane, 6, &palette, 5, 4).unwrap();
    let twice = decode_paletted(&plane, 6, &palette, 5, 4).unwrap();
    assert_eq!(once, twice);
}

#[test]
fn short_index_plane_is_reported() {
    // Two rows at stride 4 need at least 4 + 3 = 7 bytes; give 6.
    let plane = vec![0u8; 6];
    let palette = vec![0u32];
    let r = decode_paletted(&plane, 4, &palette, 3, 2);
    assert_eq!(r, Err(BitmapDecodeError::IndexPlaneTooShort));
}

#[test]
fn index_outside_palette_is_reported() {
    let plane = vec![0u8, 3, 0, 0];
    let palette = vec![0xFFFFFFFFu32, 0, 0];
    let r = decode_paletted(&plane, 2, &palette, 2, 2);
    assert_eq!(r, Err(BitmapDecodeError::PaletteIndexOutOfRange));
}

#[test]
fn zero_height_decodes_to_empty_raster() {
    let plane: Vec<u8> = Vec::new();
    let palette = vec![0u32];
    let pixels = decode_paletted(&plane, 2, &palette, 2, 0).unwrap();
    assert!(pixels.is_empty());
}

#[test]
fn zero_width_decodes_to_empty_raster() {
    let plane = vec![0u8; 4];
    let palette = vec![0u32];
    let pixels = decode_paletted(&plane, 2, &palette, 0, 2).unwrap();
    assert!(pixels.is_empty());
}

#[test]
fn empty_rect_fails_with_no_subtitle_content() {
    let r = Subtitle::from_rect(SubtitleRect::Empty, no_markup);
    assert_eq!(r.unwrap_err(), SubtitleError::NoSubtitleContent);
}

#[test]
fn text_rect_wraps_text_with_default_style() {
    let sub = Subtitle::from_rect(SubtitleRect::Text(String::from("hello")), no_markup).unwrap();
    assert_eq!(sub.text, "hello");
    assert_default_style(&sub);
    assert!(sub.bitmap.data.is_empty());
    assert_eq!(sub.remaining_duration_ms, 0);
    assert_eq!(sub.presentation_time_ms, None);
    assert!(!sub.showing);
}

#[test]
fn bitmap_rect_carries_decoded_raster() {
    let rect = BitmapRect {
        x: 12,
        y: 34,
        width: 2,
        height: 2,
        stride: 3,
        index_plane: vec![0, 1, 9, 1, 0, 9],
        palette: vec![0xFF000000u32, 0xFF0000FF],
    };
    let sub = Subtitle::from_rect(SubtitleRect::Bitmap(rect), no_markup).unwrap();
    assert_default_style(&sub);
    assert_eq!(sub.text, "");
    assert_eq!(sub.bitmap.x, 12);
    assert_eq!(sub.bitmap.y, 34);
    assert_eq!(sub.bitmap.w, 2);
    assert_eq!(sub.bitmap.h, 2);
    let black = Rgba { r: 0, g: 0, b: 0, a: 255 };
    let blue = Rgba { r: 0, g: 0, b: 255, a: 255 };
    assert_eq!(sub.bitmap.data, vec![black, blue, blue, black]);
}

#[test]
fn bitmap_rect_failure_is_classified() {
    let rect = BitmapRect {
        x: 0,
        y: 0,
        width: 2,
        height: 2,
        stride: 2,
        index_plane: vec![0, 0, 0, 7],
        palette: vec![0u32],
    };
    let r = Subtitle::from_rect(SubtitleRect::Bitmap(rect), no_markup);
    assert_eq!(
        r.unwrap_err(),
        SubtitleError::BitmapDecode(BitmapDecodeError::PaletteIndexOutOfRange)
    );
}

#[test]
fn markup_rect_propagates_collaborator_success() {
    let parse = |text: String| Ok(Subtitle::default().with_text(&text).with_duration_ms(7));
    let sub = Subtitle::from_rect(SubtitleRect::Markup(String::from("{\\b1}hi")), parse).unwrap();
    assert_eq!(sub.text, "{\\b1}hi");
    assert_eq!(sub.remaining_duration_ms, 7);
}

#[test]
fn markup_rect_propagates_collaborator_failure_unchanged() {
    let parse =
        |text: String| -> Result<Subtitle, SubtitleError> { Err(SubtitleError::MarkupParse(text)) };
    let r = Subtitle::from_rect(SubtitleRect::Markup(String::from("{\\bad")), parse);
    assert_eq!(r.unwrap_err(), SubtitleError::MarkupParse(String::from("{\\bad")));
}

#[test]
fn builder_chain_sets_exactly_three_fields() {
    let sub = Subtitle::default()
        .with_text("x")
        .with_duration_ms(1000)
        .with_presentation_time_ms(500);
    assert_eq!(sub.text, "x");
    assert_eq!(sub.remaining_duration_ms, 1000);
    assert_eq!(sub.presentation_time_ms, Some(500));
    assert_default_style(&sub);
    assert!(!sub.showing);
    assert!(sub.bitmap.data.is_empty());
    assert_eq!(sub.bitmap.w, 0);
    assert_eq!(sub.bitmap.h, 0);
}

#[test]
fn fade_sentinel_is_zero() {
    assert!(FadeEffect::default()._is_zero());
    assert!(!FadeEffect { _fade_in_ms: 1, _fade_out_ms: 0 }._is_zero());
    assert!(!FadeEffect { _fade_in_ms: 0, _fade_out_ms: -2 }._is_zero());
}

#[test]
fn margin_same_sets_all_sides() {
    let m = Margin::same(85);
    assert_eq!(m, Margin { left: 85, right: 85, top: 85, bottom: 85 });
}
