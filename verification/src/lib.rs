//! Conversion of decoded subtitle rects into render-ready cues.
//!
//! A media pipeline hands this crate one subtitle rect at a time: structured
//! markup text, a palette-indexed bitmap, plain text, or an empty marker. The
//! crate normalizes each into a single [`subtitle::Subtitle`] cue carrying
//! timing, style, and (for bitmap sources) a decoded straight-alpha raster.

pub mod decode;
pub mod dispatch;
pub mod subtitle;
