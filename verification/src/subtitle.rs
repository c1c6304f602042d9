//! The cue model: one subtitle entry with timing, style, and either text or a
//! decoded raster.
//!
//! All style values are held as plain data of this crate's own. The rendering
//! layer keeps its GPU texture handle on its own side of the boundary: a cue
//! produced here never carries one.

use vstd::prelude::*;

verus! {

/// One anchor direction: start, middle, or end of the axis.
#[derive(Clone, Copy, Debug, PartialEq, Eq, Structural)]
pub enum Align {
    Min,
    Center,
    Max,
}

/// A two-dimensional anchor (horizontal x vertical) used to position rendered
/// content relative to the cue's position.
#[derive(Clone, Copy, Debug, PartialEq, Eq, Structural)]
pub struct Align2 {
    pub horizontal: Align,
    pub vertical: Align,
}

/// One straight-alpha (unmultiplied) RGBA color.
#[derive(Clone, Copy, Debug, PartialEq, Eq, Structural)]
pub struct Rgba {
    pub r: u8,
    pub g: u8,
    pub b: u8,
    pub a: u8,
}

/// An absolute screen anchor, in screen units.
#[derive(Clone, Copy, Debug, PartialEq, Eq, Structural)]
pub struct Position {
    pub x: i32,
    pub y: i32,
}

/// A four-sided inset around rendered content, in layout points.
#[derive(Clone, Copy, Debug, PartialEq, Eq, Structural)]
pub struct Margin {
    pub left: i32,
    pub right: i32,
    pub top: i32,
    pub bottom: i32,
}

/// Fade-in and fade-out durations in milliseconds; (0, 0) is the canonical
/// no-fade sentinel.
#[derive(Clone, Copy, Debug, PartialEq, Eq, Structural)]
pub struct FadeEffect {
    pub _fade_in_ms: i64,
    pub _fade_out_ms: i64,
}

/// A decoded raster payload: row-major straight-alpha pixels plus the offset
/// of the raster within the full video frame.
#[derive(Debug)]
pub struct SubtitleBitmap {
    pub data: Vec<Rgba>,
    pub x: usize,
    pub y: usize,
    pub w: u32,
    pub h: u32,
}

/// One subtitle entry. Exactly one of `text` (non-empty) or `bitmap`
/// (non-empty raster) is meaningfully populated, depending on the source
/// rect; the rest of the fields carry style and timing.
#[derive(Debug)]
pub struct Subtitle {
    pub text: String,
    pub fade: FadeEffect,
    pub alignment: Align2,
    pub primary_fill: Rgba,
    pub position: Option<Position>,
    pub font_size: u32,
    pub margin: Margin,
    pub remaining_duration_ms: i64,
    pub presentation_time_ms: Option<i64>,
    pub showing: bool,
    pub bitmap: SubtitleBitmap,
}

/// Mathematical model of a [`SubtitleBitmap`].
#[verifier::ext_equal]
pub ghost struct BitmapView {
    pub pixels: Seq<Rgba>,
    pub x: int,
    pub y: int,
    pub w: int,
    pub h: int,
}

/// Mathematical model of a [`Subtitle`].
#[verifier::ext_equal]
pub ghost struct SubtitleView {
    pub text: Seq<char>,
    pub fade: FadeEffect,
    pub alignment: Align2,
    pub primary_fill: Rgba,
    pub position: Option<Position>,
    pub font_size: u32,
    pub margin: Margin,
    pub remaining_duration_ms: i64,
    pub presentation_time_ms: Option<i64>,
    pub showing: bool,
    pub bitmap: BitmapView,
}

impl View for SubtitleBitmap {
    type V = BitmapView;

    open spec fn view(&self) -> BitmapView {
        BitmapView {
            pixels: self.data@,
            x: self.x as int,
            y: self.y as int,
            w: self.w as int,
            h: self.h as int,
        }
    }
}

impl View for Subtitle {
    type V = SubtitleView;

    open spec fn view(&self) -> SubtitleView {
        SubtitleView {
            text: self.text@,
            fade: self.fade,
            alignment: self.alignment,
            primary_fill: self.primary_fill,
            position: self.position,
            font_size: self.font_size,
            margin: self.margin,
            remaining_duration_ms: self.remaining_duration_ms,
            presentation_time_ms: self.presentation_time_ms,
            showing: self.showing,
            bitmap: self.bitmap@,
        }
    }
}

impl BitmapView {
    /// The pixel buffer holds exactly one entry per raster cell; an empty
    /// raster (zero width or height) has an empty buffer.
    pub open spec fn wf(self) -> bool {
        self.pixels.len() == self.w * self.h
    }
}

impl SubtitleView {
    /// A cue is well formed when its raster is.
    pub open spec fn wf(self) -> bool {
        self.bitmap.wf()
    }
}

/// The model of a default (empty) raster.
pub open spec fn default_bitmap_view() -> BitmapView {
    BitmapView { pixels: Seq::empty(), x: 0, y: 0, w: 0, h: 0 }
}

/// The model of a default cue: empty text, no fade, centered, opaque white
/// fill, no position, font size 30, margin 85 on all sides, zero duration,
/// no presentation time, hidden, empty raster.
pub open spec fn default_subtitle_view() -> SubtitleView {
    SubtitleView {
        text: Seq::empty(),
        fade: FadeEffect { _fade_in_ms: 0, _fade_out_ms: 0 },
        alignment: Align2 { horizontal: Align::Center, vertical: Align::Center },
        primary_fill: Rgba { r: 255, g: 255, b: 255, a: 255 },
        position: None,
        font_size: 30,
        margin: Margin { left: 85, right: 85, top: 85, bottom: 85 },
        remaining_duration_ms: 0,
        presentation_time_ms: None,
        showing: false,
        bitmap: default_bitmap_view(),
    }
}

impl Margin {
    /// The same inset on all four sides.
    pub fn same(v: i32) -> (r: Self)
        ensures
            r == (Margin { left: v, right: v, top: v, bottom: v }),
    {
        Margin { left: v, right: v, top: v, bottom: v }
    }
}

impl FadeEffect {
    /// Whether this is the no-fade sentinel (0, 0).
    pub fn _is_zero(&self) -> (r: bool)
        ensures
            r == (self._fade_in_ms == 0 && self._fade_out_ms == 0),
    {
        self._fade_in_ms == 0 && self._fade_out_ms == 0
    }
}

impl Default for FadeEffect {
    /// The no-fade sentinel.
    fn default() -> (r: Self)
        ensures
            r == (FadeEffect { _fade_in_ms: 0, _fade_out_ms: 0 }),
    {
        FadeEffect { _fade_in_ms: 0, _fade_out_ms: 0 }
    }
}

impl Default for SubtitleBitmap {
    /// An empty raster at the frame origin.
    fn default() -> (r: Self)
        ensures
            r@ == default_bitmap_view(),
            r@.wf(),
    {
        let bitmap = SubtitleBitmap { data: Vec::new(), x: 0, y: 0, w: 0, h: 0 };
        proof {
            assert(bitmap@ =~= default_bitmap_view());
        }
        bitmap
    }
}

impl Default for Subtitle {
    /// A cue with every field at its default value.
    fn default() -> (r: Self)
        ensures
            r@ == default_subtitle_view(),
            r@.wf(),
    {
        let subtitle = Subtitle {
            text: String::new(),
            fade: FadeEffect { _fade_in_ms: 0, _fade_out_ms: 0 },
            alignment: Align2 { horizontal: Align::Center, vertical: Align::Center },
            primary_fill: Rgba { r: 255, g: 255, b: 255, a: 255 },
            position: None,
            font_size: 30,
            margin: Margin::same(85),
            remaining_duration_ms: 0,
            presentation_time_ms: None,
            showing: false,
            bitmap: SubtitleBitmap::default(),
        };
        proof {
            assert(subtitle@ =~= default_subtitle_view());
        }
        subtitle
    }
}

impl Subtitle {
    /// Wrap plain text in an otherwise-default cue.
    pub fn from_text(text: &str) -> (r: Self)
        ensures
            r@ == (SubtitleView { text: text@, ..default_subtitle_view() }),
            r@.wf(),
    {
        let subtitle = Subtitle::default().with_text(text);
        proof {
            assert(subtitle@ =~= (SubtitleView { text: text@, ..default_subtitle_view() }));
        }
        subtitle
    }

    /// Replace the text payload; every other field keeps its prior value.
    pub fn with_text(self, text: &str) -> (r: Self)
        ensures
            r@ == (SubtitleView { text: text@, ..self@ }),
    {
        let mut subtitle = self;
        subtitle.text = text.to_owned();
        proof {
            assert(subtitle@ =~= (SubtitleView { text: text@, ..self@ }));
        }
        subtitle
    }

    /// Replace the remaining duration; every other field keeps its prior
    /// value.
    pub fn with_duration_ms(self, duration_ms: i64) -> (r: Self)
        ensures
            r@ == (SubtitleView { remaining_duration_ms: duration_ms, ..self@ }),
    {
        let mut subtitle = self;
        subtitle.remaining_duration_ms = duration_ms;
        proof {
            assert(subtitle@ =~= (SubtitleView { remaining_duration_ms: duration_ms, ..self@ }));
        }
        subtitle
    }

    /// Set the presentation time; every other field keeps its prior value.
    pub fn with_presentation_time_ms(self, pts: i64) -> (r: Self)
        ensures
            r@ == (SubtitleView { presentation_time_ms: Some(pts), ..self@ }),
    {
        let mut subtitle = self;
        subtitle.presentation_time_ms = Some(pts);
        proof {
            assert(subtitle@ =~= (SubtitleView { presentation_time_ms: Some(pts), ..self@ }));
        }
        subtitle
    }
}

} // verus!
