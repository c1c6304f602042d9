//! The paletted bitmap decoder: expands an index plane plus a color palette
//! into a flat row-major straight-alpha RGBA raster.
//!
//! Every buffer access is bounds-checked: an index plane too short for the
//! requested rows, or an index byte outside the palette, is reported as a
//! [`BitmapDecodeError`] instead of being read out of bounds.

use vstd::prelude::*;
use vstd::arithmetic::div_mod::{
    lemma_div_pos_is_pos, lemma_fundamental_div_mod_converse, lemma_mod_bound,
    lemma_multiply_divide_lt,
};
use vstd::arithmetic::mul::lemma_mul_inequality;
use crate::subtitle::Rgba;

verus! {

/// Why a paletted bitmap could not be decoded.
#[derive(Clone, Copy, Debug, PartialEq, Eq, Structural)]
pub enum BitmapDecodeError {
    /// The index plane does not cover every row that would be read.
    IndexPlaneTooShort,
    /// Some index byte within the raster is not a valid palette position.
    PaletteIndexOutOfRange,
}

/// The four 8-bit channels packed in one palette entry: red in bits 16..=23,
/// green in bits 8..=15, blue in bits 0..=7, alpha in bits 24..=31. The
/// channels are straight (unmultiplied) alpha.
pub open spec fn unpacked(entry: u32) -> Rgba {
    Rgba {
        r: ((entry >> 16) & 0xff) as u8,
        g: ((entry >> 8) & 0xff) as u8,
        b: (entry & 0xff) as u8,
        a: ((entry >> 24) & 0xff) as u8,
    }
}

/// The index byte the decoder reads for the pixel at column `x` of row `y`:
/// rows start every `stride` bytes into the plane.
pub open spec fn index_at(plane: Seq<u8>, stride: int, x: int, y: int) -> u8 {
    plane[y * stride + x]
}

/// The plane is long enough for every read the decoder makes: each of the
/// `height` rows contributes `width` bytes starting at `y * stride`, so only
/// the last row's end matters. (The last row needs only `width` bytes, not a
/// full stride.)
pub open spec fn plane_covered(plane_len: int, stride: int, width: int, height: int) -> bool {
    height <= 0 || (height - 1) * stride + width <= plane_len
}

/// Every index byte within the raster region is a valid palette position.
pub open spec fn indices_in_range(
    plane: Seq<u8>,
    stride: int,
    palette_len: int,
    width: int,
    height: int,
) -> bool {
    forall|x: int, y: int|
        0 <= x < width && 0 <= y < height ==> index_at(plane, stride, x, y) < palette_len
}

/// The color of the pixel at column `x` of row `y`: its index byte, used as a
/// position into the palette, unpacked into four channels.
pub open spec fn pixel_at(plane: Seq<u8>, stride: int, palette: Seq<u32>, x: int, y: int) -> Rgba {
    unpacked(palette[index_at(plane, stride, x, y) as int])
}

/// The full decoded raster, row-major: pixel `k` sits at column `k % width`
/// of row `k / width`.
pub open spec fn decoded_pixels(
    plane: Seq<u8>,
    stride: int,
    palette: Seq<u32>,
    width: int,
    height: int,
) -> Seq<Rgba> {
    Seq::new((width * height) as nat, |k: int| pixel_at(plane, stride, palette, k % width, k / width))
}

/// Unpack one palette entry into its four channels.
pub fn unpack_entry(entry: u32) -> (p: Rgba)
    ensures
        p == unpacked(entry),
{
    proof {
        assert(((entry >> 16) & 0xff) <= 0xff) by (bit_vector);
        assert(((entry >> 8) & 0xff) <= 0xff) by (bit_vector);
        assert((entry & 0xff) <= 0xff) by (bit_vector);
        assert(((entry >> 24) & 0xff) <= 0xff) by (bit_vector);
    }
    Rgba {
        r: ((entry >> 16) & 0xff) as u8,
        g: ((entry >> 8) & 0xff) as u8,
        b: (entry & 0xff) as u8,
        a: ((entry >> 24) & 0xff) as u8,
    }
}

/// Expand a palette-indexed plane into a flat row-major straight-alpha
/// raster of exactly `width * height` pixels.
///
/// The plane holds one index byte per pixel, rows starting every `stride`
/// bytes; the palette is indexed by those bytes. A plane that cannot cover
/// every row, or an index byte outside the palette, is reported as an error
/// rather than read out of bounds.
pub fn decode_paletted(
    index_plane: &Vec<u8>,
    stride: usize,
    palette: &Vec<u32>,
    width: u32,
    height: u32,
) -> (r: Result<Vec<Rgba>, BitmapDecodeError>)
    requires
        width <= stride,
        height * stride <= usize::MAX,
    ensures
        match r {
            Ok(pixels) => plane_covered(
                index_plane@.len() as int,
                stride as int,
                width as int,
                height as int,
            ) && indices_in_range(
                index_plane@,
                stride as int,
                palette@.len() as int,
                width as int,
                height as int,
            ) && pixels@ == decoded_pixels(
                index_plane@,
                stride as int,
                palette@,
                width as int,
                height as int,
            ),
            Err(e) => (e == BitmapDecodeError::IndexPlaneTooShort && !plane_covered(
                index_plane@.len() as int,
                stride as int,
                width as int,
                height as int,
            )) || (e == BitmapDecodeError::PaletteIndexOutOfRange && plane_covered(
                index_plane@.len() as int,
                stride as int,
                width as int,
                height as int,
            ) && !indices_in_range(
                index_plane@,
                stride as int,
                palette@.len() as int,
                width as int,
                height as int,
            )),
        },
{
    let w = width as usize;
    let h = height as usize;
    if h > 0 {
        proof {
            assert(h as int * stride as int == (h as int - 1) * stride as int + stride as int)
                by (nonlinear_arith);
        }
        let last_row_end = (h - 1) * stride + w;
        if index_plane.len() < last_row_end {
            return Err(BitmapDecodeError::IndexPlaneTooShort);
        }
    }
    let plane_len = index_plane.len();
    let ghost plane: Seq<u8> = index_plane@;
    let ghost pal: Seq<u32> = palette@;
    let ghost target: Seq<Rgba> = decoded_pixels(plane, stride as int, pal, width as int, height as int);
    let mut out: Vec<Rgba> = Vec::new();
    let mut y: usize = 0;
    let mut row_off: usize = 0;
    while y < h
        invariant
            w == width,
            h == height,
            width <= stride,
            height * stride <= usize::MAX,
            plane == index_plane@,
            plane.len() == plane_len,
            pal == palette@,
            target == decoded_pixels(plane, stride as int, pal, width as int, height as int),
            plane_covered(plane.len() as int, stride as int, width as int, height as int),
            y <= h,
            row_off == y * stride,
            out@.len() == y * w,
            target.len() == width * height,
            out@.len() <= target.len(),
            forall|j: int| 0 <= j < out@.len() ==> out@[j] == target[j],
            forall|i: int, yy: int|
                0 <= i < width && 0 <= yy < y ==> index_at(plane, stride as int, i, yy) < pal.len(),
        decreases h - y,
    {
        proof {
            lemma_mul_inequality(y as int, h as int - 1, stride as int);
            assert((y as int + 1) * w as int == y as int * w as int + w as int)
                by (nonlinear_arith);
            lemma_mul_inequality(y as int + 1, h as int, w as int);
        }
        let mut x: usize = 0;
        while x < w
            invariant
                w == width,
                h == height,
                width <= stride,
                height * stride <= usize::MAX,
                plane == index_plane@,
                plane.len() == plane_len,
                pal == palette@,
                target == decoded_pixels(plane, stride as int, pal, width as int, height as int),
                plane_covered(plane.len() as int, stride as int, width as int, height as int),
                y < h,
                x <= w,
                row_off == y * stride,
                row_off + w <= plane.len(),
                out@.len() == y * w + x,
                target.len() == width * height,
                out@.len() + (w - x) <= target.len(),
                forall|j: int| 0 <= j < out@.len() ==> out@[j] == target[j],
                forall|i: int, yy: int|
                    0 <= i < width && 0 <= yy < y ==> index_at(plane, stride as int, i, yy) < pal.len(),
                forall|i: int| 0 <= i < x ==> index_at(plane, stride as int, i, y as int) < pal.len(),
            decreases w - x,
        {
            let idx = index_plane[row_off + x];
            assert(idx == index_at(plane, stride as int, x as int, y as int));
            if idx as usize >= palette.len() {
                assert(!indices_in_range(plane, stride as int, pal.len() as int, width as int, height as int));
                return Err(BitmapDecodeError::PaletteIndexOutOfRange);
            }
            let color = palette[idx as usize];
            let pixel = unpack_entry(color);
            proof {
                let k = out@.len() as int;
                lemma_fundamental_div_mod_converse(k, w as int, y as int, x as int);
                assert(target[k] == pixel_at(plane, stride as int, pal, x as int, y as int));
            }
            out.push(pixel);
            x += 1;
        }
        proof {
            assert((y as int + 1) * stride as int == y as int * stride as int + stride as int)
                by (nonlinear_arith);
            lemma_mul_inequality(y as int + 1, h as int, stride as int);
        }
        y += 1;
        row_off = row_off + stride;
    }
    proof {
        assert(h as int * w as int == width as int * height as int) by (nonlinear_arith)
            requires
                h == height,
                w == width,
        ;
        assert(out@.len() == target.len());
        assert(out@ =~= target);
    }
    Ok(out)
}

/// Law: the decoded raster holds exactly `width * height` pixels, for every
/// plane, stride, and palette.
pub proof fn lemma_decoded_len(
    plane: Seq<u8>,
    stride: int,
    palette: Seq<u32>,
    width: int,
    height: int,
)
    requires
        0 <= width,
        0 <= height,
    ensures
        decoded_pixels(plane, stride, palette, width, height).len() == width * height,
{
    assert(0 <= width * height) by (nonlinear_arith)
        requires
            0 <= width,
            0 <= height,
    ;
}

/// Law: if every index byte in the raster region equals the single value
/// `i`, and `i` is a valid palette position, then the decoding is uniform:
/// every pixel is palette entry `i` unpacked into its four channels.
pub proof fn lemma_uniform_decode(
    plane: Seq<u8>,
    stride: int,
    palette: Seq<u32>,
    width: int,
    height: int,
    i: u8,
)
    requires
        0 <= width,
        0 <= height,
        i < palette.len(),
        forall|x: int, y: int|
            0 <= x < width && 0 <= y < height ==> index_at(plane, stride, x, y) == i,
    ensures
        forall|k: int|
            0 <= k < width * height ==> #[trigger] decoded_pixels(
                plane,
                stride,
                palette,
                width,
                height,
            )[k] == unpacked(palette[i as int]),
{
    assert forall|k: int|
        0 <= k < width * height implies #[trigger] decoded_pixels(
        plane,
        stride,
        palette,
        width,
        height,
    )[k] == unpacked(palette[i as int]) by {
        assert(0 < width && 0 < height) by (nonlinear_arith)
            requires
                0 <= width,
                0 <= height,
                0 <= k < width * height,
        ;
        lemma_mod_bound(k, width);
        lemma_div_pos_is_pos(k, width);
        lemma_multiply_divide_lt(k, width, height);
    }
}

/// Law: decoding is deterministic. The decoder's contract pins its result to
/// the one mathematical decoding of its inputs, so any two results decoded
/// from identical inputs are identical.
pub proof fn lemma_decode_deterministic(
    r1: Seq<Rgba>,
    r2: Seq<Rgba>,
    plane: Seq<u8>,
    stride: int,
    palette: Seq<u32>,
    width: int,
    height: int,
)
    requires
        r1 == decoded_pixels(plane, stride, palette, width, height),
        r2 == decoded_pixels(plane, stride, palette, width, height),
    ensures
        r1 == r2,
{
}

} // verus!
