//! Pictures: their pixel extent, and the cells they take when they keep their
//! aspect ratio.

use vstd::prelude::*;

use crate::tui::layout::{clamp_u16, Axis, Size};
use crate::tui::sizing::{SizeError, SizingContext};
use crate::tui::Image;

verus! {

/// The pixel extent of a decoded picture.
#[derive(Debug, Clone, Copy, PartialEq, Eq, Structural)]
pub struct PixelSize {
    pub width: u32,
    pub height: u32,
}

/// `image::ImageError`, the error of the `image` crate's decoders: only that
/// there was one is used.
#[verifier::external_type_specification]
#[verifier::external_body]
pub struct ExImageError(image::ImageError);

/// The pixel width and height of the picture that the bytes `data` hold, or
/// `None` where they hold none that the built-in decoders can decode.
pub uninterp spec fn decoded_pixel_size(data: Seq<u8>) -> Option<(u32, u32)>;

/// Finds the format of `data` with `image::guess_format`, decodes it with
/// `image::load_from_memory_with_format`, and reads the picture's `width()`
/// and `height()`.
///
/// Both calls go by the crate's built-in table of formats and decoders: the
/// format hooks that a program may register are not asked. Taken on trust:
/// the outcome depends on the bytes alone, so it is the named
/// `decoded_pixel_size(data@)`, with the decoder's error in place of `None`.
#[verifier::external_body]
fn decode_pixel_size(data: &[u8]) -> (r: Result<(u32, u32), image::ImageError>)
    ensures
        r is Ok <==> decoded_pixel_size(data@) is Some,
        r matches Ok(d) ==> decoded_pixel_size(data@) == Some(d),
{
    let format = image::guess_format(data)?;
    let picture = image::load_from_memory_with_format(data, format)?;
    Ok((picture.width(), picture.height()))
}

/// `a / b` rounded up, for `a >= 0` and `b > 0`.
pub open spec fn ceil_div(a: int, b: int) -> int {
    (a + b - 1) / b
}

/// `ceil_div(a, b)` is the least whole number of `b`s that hold `a`.
pub proof fn lemma_ceil_div_is_least(a: int, b: int)
    requires
        a >= 0,
        b > 0,
    ensures
        ceil_div(a, b) * b >= a,
        (ceil_div(a, b) - 1) * b < a,
        ceil_div(a, b) >= 0,
{
    let q = (a + b - 1) / b;
    let r = (a + b - 1) % b;
    assert(a + b - 1 == q * b + r && 0 <= r < b) by (nonlinear_arith)
        requires
            b > 0,
            q == (a + b - 1) / b,
            r == (a + b - 1) % b,
    ;
    assert((q - 1) * b == q * b - b) by (nonlinear_arith);
    assert(q >= 0) by (nonlinear_arith)
        requires
            q * b + r >= 0,
            r < b,
            b > 0,
    ;
}

/// The cells that a picture of `pixels` takes along `axis` when it takes
/// `known` cells along the other axis, under a font cell of `font` pixels: the
/// picture keeps its aspect ratio on screen, and a cell begun counts whole.
///
/// Along the horizontal axis that is
/// `known * (width / height) * (font.h / font.w)`, rounded up; along the
/// vertical axis the ratio is turned over. The result is held to the `u16`
/// range. Where the divisor is 0 the quotient is without bound and the result
/// is the largest `u16`, but 0 where the dividend is 0 too.
pub open spec fn fit_spec(axis: Axis, known: u16, pixels: PixelSize, font: Size) -> int {
    let num = match axis {
        Axis::Horizontal => pixels.width * font.h,
        Axis::Vertical => pixels.height * font.w,
    };
    let den = match axis {
        Axis::Horizontal => pixels.height * font.w,
        Axis::Vertical => pixels.width * font.h,
    };
    if den == 0 {
        if known * num == 0 {
            0
        } else {
            u16::MAX as int
        }
    } else {
        clamp_u16(ceil_div(known * num, den))
    }
}

/// The cells that a picture takes along `axis`, given the `known` cells along
/// the other axis.
pub fn fit_cells(axis: Axis, known: u16, pixels: PixelSize, font: Size) -> (r: u16)
    ensures
        r == fit_spec(axis, known, pixels, font),
{
    let (num, den): (u64, u64) = match axis {
        Axis::Horizontal => {
            assert(pixels.width * font.h <= 0xFFFF_FFFF * 0xFFFF) by (nonlinear_arith)
                requires
                    0 <= pixels.width <= 0xFFFF_FFFF,
                    0 <= font.h <= 0xFFFF,
            ;
            assert(pixels.height * font.w <= 0xFFFF_FFFF * 0xFFFF) by (nonlinear_arith)
                requires
                    0 <= pixels.height <= 0xFFFF_FFFF,
                    0 <= font.w <= 0xFFFF,
            ;
            (pixels.width as u64 * font.h as u64, pixels.height as u64 * font.w as u64)
        },
        Axis::Vertical => {
            assert(pixels.height * font.w <= 0xFFFF_FFFF * 0xFFFF) by (nonlinear_arith)
                requires
                    0 <= pixels.height <= 0xFFFF_FFFF,
                    0 <= font.w <= 0xFFFF,
            ;
            assert(pixels.width * font.h <= 0xFFFF_FFFF * 0xFFFF) by (nonlinear_arith)
                requires
                    0 <= pixels.width <= 0xFFFF_FFFF,
                    0 <= font.h <= 0xFFFF,
            ;
            (pixels.height as u64 * font.w as u64, pixels.width as u64 * font.h as u64)
        },
    };
    assert(known * num <= 0xFFFF * (0xFFFF_FFFF * 0xFFFF)) by (nonlinear_arith)
        requires
            0 <= known <= 0xFFFF,
            0 <= num <= 0xFFFF_FFFF * 0xFFFF,
    ;
    let total: u128 = known as u128 * num as u128;
    if den == 0 {
        if total == 0 {
            0
        } else {
            u16::MAX
        }
    } else {
        let cells: u128 = (total + (den as u128 - 1)) / den as u128;
        if cells > 0xFFFF {
            u16::MAX
        } else {
            cells as u16
        }
    }
}

/// The size of a picture with pixel extent `pixels` (`None`: its bytes do not
/// decode) under `ctx`.
///
/// With both dimensions fixed it is the fixed size. With one fixed, the other
/// follows from the picture's aspect ratio (`fit_spec`), and a picture that
/// does not decode is an error. With none fixed there is nothing to go by.
pub open spec fn image_size(pixels: Option<PixelSize>, ctx: SizingContext) -> Result<
    Size,
    SizeError,
> {
    match (ctx.div_w, ctx.div_h) {
        (Some(w), Some(h)) => Ok(Size { w, h }),
        (Some(w), None) => match pixels {
            Some(p) => Ok(Size { w, h: fit_spec(Axis::Vertical, w, p, ctx.font_size) as u16 }),
            None => Err(SizeError::ImageDecode),
        },
        (None, Some(h)) => match pixels {
            Some(p) => Ok(Size { w: fit_spec(Axis::Horizontal, h, p, ctx.font_size) as u16, h }),
            None => Err(SizeError::ImageDecode),
        },
        (None, None) => Err(SizeError::NoFixedDimension),
    }
}

impl Image {
    /// The picture's pixel extent: what was stored at an earlier decoding, or
    /// else what decoding the bytes gives.
    pub open spec fn pixels(self) -> Option<PixelSize> {
        match self.cached {
            Some(p) => Some(p),
            None => match decoded_pixel_size(self.data@) {
                Some(d) => Some(PixelSize { width: d.0, height: d.1 }),
                None => None,
            },
        }
    }

    /// The picture's size under `ctx`.
    pub open spec fn size_spec(self, ctx: SizingContext) -> Result<Size, SizeError> {
        image_size(self.pixels(), ctx)
    }

    /// Whether this is `before`, with at most its pixel extent stored since.
    pub open spec fn loaded_from(self, before: Image) -> bool {
        &&& self.data@ == before.data@
        &&& self.format == before.format
        &&& (self.cached == before.cached || (before.cached is None && self.cached
            == before.pixels()))
    }
}

impl Image {
    /// The picture's pixel extent, decoded from its bytes at the first call
    /// and stored; the error where the bytes do not decode.
    pub fn load(&mut self) -> (r: Result<PixelSize, SizeError>)
        ensures
            r == (match old(self).pixels() {
                Some(p) => Ok::<PixelSize, SizeError>(p),
                None => Err(SizeError::ImageDecode),
            }),
            final(self).cached == old(self).pixels(),
            final(self).loaded_from(*old(self)),
    {
        match self.cached {
            Some(p) => Ok(p),
            None => match decode_pixel_size(self.data.as_slice()) {
                Ok(d) => {
                    let p = PixelSize { width: d.0, height: d.1 };
                    self.cached = Some(p);
                    Ok(p)
                },
                Err(_) => Err(SizeError::ImageDecode),
            },
        }
    }

    /// The picture's size under `ctx`. The picture is decoded only where one
    /// dimension has to be derived from the other.
    pub fn calc_auto_size(&mut self, ctx: SizingContext) -> (r: Result<Size, SizeError>)
        ensures
            r == old(self).size_spec(ctx),
            final(self).loaded_from(*old(self)),
            (ctx.div_w is Some) == (ctx.div_h is Some) ==> *final(self) == *old(self),
            (ctx.div_w is Some) != (ctx.div_h is Some) ==> final(self).cached == old(
                self,
            ).pixels(),
    {
        match (ctx.div_w, ctx.div_h) {
            (Some(w), Some(h)) => Ok(Size { w, h }),
            (Some(w), None) => match self.load() {
                Ok(p) => Ok(Size { w, h: fit_cells(Axis::Vertical, w, p, ctx.font_size) }),
                Err(e) => Err(e),
            },
            (None, Some(h)) => match self.load() {
                Ok(p) => Ok(Size { w: fit_cells(Axis::Horizontal, h, p, ctx.font_size), h }),
                Err(e) => Err(e),
            },
            (None, None) => Err(SizeError::NoFixedDimension),
        }
    }
}

} // verus!
