//! The rect dispatcher: routes one incoming subtitle rect — a closed set of
//! exactly four shapes — to its conversion path, producing a cue or a
//! classified failure.
//!
//! The markup path delegates to an external collaborator handed in by the
//! caller; its outcome, success or parse failure, propagates unchanged.

use vstd::prelude::*;
use crate::decode::{
    decode_paletted, decoded_pixels, indices_in_range, plane_covered, BitmapDecodeError,
};
use crate::subtitle::{default_subtitle_view, BitmapView, Subtitle, SubtitleView};

verus! {

/// A palette-indexed raster as received from the decode pipeline: an index
/// plane with one byte per pixel and a row stride, a palette of packed
/// 32-bit entries, the raster size, and its offset in the video frame.
pub struct BitmapRect {
    pub x: usize,
    pub y: usize,
    pub width: u32,
    pub height: u32,
    pub stride: usize,
    pub index_plane: Vec<u8>,
    pub palette: Vec<u32>,
}

/// One incoming subtitle rect: the closed set of four representations a
/// media-decoding pipeline emits. Every variant must be handled; adding one
/// here forces every match over this enum to change.
pub enum SubtitleRect {
    /// Structured markup text for the external markup collaborator.
    Markup(String),
    /// A palette-indexed bitmap for the paletted bitmap decoder.
    Bitmap(BitmapRect),
    /// Plain text, wrapped directly into a cue.
    Text(String),
    /// A no-content marker.
    Empty,
}

/// A failed rect-to-cue conversion. Each failure affects only the current
/// rect and never blocks later conversions.
#[derive(Clone, Debug, PartialEq, Eq)]
pub enum SubtitleError {
    /// The markup collaborator rejected its input; its message is kept.
    MarkupParse(String),
    /// The Empty variant was received: nothing to display, not a fault.
    NoSubtitleContent,
    /// The paletted bitmap could not be decoded.
    BitmapDecode(BitmapDecodeError),
}

impl BitmapRect {
    /// The decoder reads one byte per pixel, rows starting every `stride`
    /// bytes, so the stride must be at least the width, and the spanned
    /// plane region must be addressable.
    pub open spec fn wf(self) -> bool {
        self.width <= self.stride && self.height * self.stride <= usize::MAX
    }

    /// The model of the cue this rect decodes to: a default cue carrying the
    /// decoded raster at the rect's frame offset.
    pub open spec fn decoded_view(self) -> SubtitleView {
        SubtitleView {
            bitmap: BitmapView {
                pixels: decoded_pixels(
                    self.index_plane@,
                    self.stride as int,
                    self.palette@,
                    self.width as int,
                    self.height as int,
                ),
                x: self.x as int,
                y: self.y as int,
                w: self.width as int,
                h: self.height as int,
            },
            ..default_subtitle_view()
        }
    }

    /// Whether the index plane covers every row the decoder would read.
    pub open spec fn covered(self) -> bool {
        plane_covered(
            self.index_plane@.len() as int,
            self.stride as int,
            self.width as int,
            self.height as int,
        )
    }

    /// Whether every index byte in the raster region is a valid palette
    /// position.
    pub open spec fn in_range(self) -> bool {
        indices_in_range(
            self.index_plane@,
            self.stride as int,
            self.palette@.len() as int,
            self.width as int,
            self.height as int,
        )
    }
}

impl Subtitle {
    /// Decode a paletted rect into an otherwise-default cue carrying the
    /// raster, or report exactly why the rect cannot be decoded.
    pub fn from_bitmap(rect: &BitmapRect) -> (r: Result<Self, SubtitleError>)
        requires
            rect.wf(),
        ensures
            match r {
                Ok(sub) => rect.covered() && rect.in_range() && sub@ == rect.decoded_view()
                    && sub@.wf(),
                Err(e) => (e == SubtitleError::BitmapDecode(BitmapDecodeError::IndexPlaneTooShort)
                    && !rect.covered()) || (e == SubtitleError::BitmapDecode(
                    BitmapDecodeError::PaletteIndexOutOfRange,
                ) && rect.covered() && !rect.in_range()),
            },
    {
        let pixels = match decode_paletted(
            &rect.index_plane,
            rect.stride,
            &rect.palette,
            rect.width,
            rect.height,
        ) {
            Ok(pixels) => pixels,
            Err(e) => {
                return Err(SubtitleError::BitmapDecode(e));
            },
        };
        let mut subtitle = Subtitle::default();
        subtitle.bitmap.x = rect.x;
        subtitle.bitmap.y = rect.y;
        subtitle.bitmap.w = rect.width;
        subtitle.bitmap.h = rect.height;
        subtitle.bitmap.data = pixels;
        proof {
            crate::decode::lemma_decoded_len(
                rect.index_plane@,
                rect.stride as int,
                rect.palette@,
                rect.width as int,
                rect.height as int,
            );
            assert(subtitle@ =~= rect.decoded_view());
        }
        Ok(subtitle)
    }

    /// Convert one incoming rect into a cue, or a classified failure.
    ///
    /// The four variants are matched exhaustively: markup text goes to the
    /// caller's markup collaborator `parse_markup` and its outcome — parsed
    /// cue or parse failure — propagates unchanged; a paletted bitmap goes
    /// through the decoder; plain text is wrapped directly; the no-content
    /// marker fails with [`SubtitleError::NoSubtitleContent`].
    pub fn from_rect<F: FnOnce(String) -> Result<Subtitle, SubtitleError>>(
        rect: SubtitleRect,
        parse_markup: F,
    ) -> (r: Result<Self, SubtitleError>)
        requires
            rect is Markup ==> call_requires(parse_markup, (rect->Markup_0,)),
            rect is Bitmap ==> rect->Bitmap_0.wf(),
        ensures
            rect is Markup ==> call_ensures(parse_markup, (rect->Markup_0,), r),
            rect is Bitmap ==> match r {
                Ok(sub) => rect->Bitmap_0.covered() && rect->Bitmap_0.in_range()
                    && sub@ == rect->Bitmap_0.decoded_view() && sub@.wf(),
                Err(e) => (e == SubtitleError::BitmapDecode(
                    BitmapDecodeError::IndexPlaneTooShort,
                ) && !rect->Bitmap_0.covered()) || (e == SubtitleError::BitmapDecode(
                    BitmapDecodeError::PaletteIndexOutOfRange,
                ) && rect->Bitmap_0.covered() && !rect->Bitmap_0.in_range()),
            },
            rect is Text ==> (r matches Ok(sub) && sub@ == (SubtitleView {
                text: rect->Text_0@,
                ..default_subtitle_view()
            })),
            rect is Empty ==> r == Err::<Subtitle, SubtitleError>(
                SubtitleError::NoSubtitleContent,
            ),
    {
        match rect {
            SubtitleRect::Markup(markup) => parse_markup(markup),
            SubtitleRect::Bitmap(bitmap) => Subtitle::from_bitmap(&bitmap),
            SubtitleRect::Text(text) => Ok(Subtitle::from_text(text.as_str())),
            SubtitleRect::Empty => Err(SubtitleError::NoSubtitleContent),
        }
    }
}

} // verus!
