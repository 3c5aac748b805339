//! Crop rectangles and resize targets: what is asked for, and what dimensions
//! come of it for a source of a given size.

use vstd::prelude::*;
use vstd::arithmetic::div_mod::{lemma_fundamental_div_mod, lemma_fundamental_div_mod_converse};
use crate::error::{ProcessingError, ValidationReason};

verus! {

/// A rectangle to cut out of an image, in pixels from its top-left corner.
#[derive(Clone, Copy, Debug, PartialEq, Eq, Structural)]
pub struct CropParams {
    pub x: u32,
    pub y: u32,
    pub width: u32,
    pub height: u32,
}

/// A size to bring an image to. With `maintain_aspect_ratio` the size is a
/// bounding box and the image keeps its proportions inside it.
#[derive(Clone, Copy, Debug, PartialEq, Eq, Structural)]
pub struct ResizeParams {
    pub width: u32,
    pub height: u32,
    pub maintain_aspect_ratio: bool,
}

/// The integer nearest to `n / d`, a half rounding away from zero.
pub open spec fn round_half_up(n: int, d: int) -> int {
    (2 * n + d) / (2 * d)
}

/// The rectangle lies within a source of the given size on both axes.
pub open spec fn crop_in_bounds(source_width: nat, source_height: nat, params: CropParams) -> bool {
    params.x + params.width <= source_width && params.y + params.height <= source_height
}

/// An aspect-locked resize has a ratio to keep and a box to fit: the source
/// has no empty axis and the target height is not zero.
pub open spec fn aspect_defined(source_width: nat, source_height: nat, params: ResizeParams) -> bool {
    source_width > 0 && source_height > 0 && params.height > 0
}

/// The source is relatively wider than the target box, so the box's width is
/// the limiting axis.
pub open spec fn source_is_wider(source_width: nat, source_height: nat, params: ResizeParams) -> bool {
    source_width * params.height > params.width * source_height
}

/// The dimensions a resize produces. Without the aspect lock they are the
/// requested ones. With it, the limiting axis takes the requested value and
/// the other is derived from the source's proportions, rounded to the nearest
/// pixel.
pub open spec fn resized_dimensions(
    source_width: nat,
    source_height: nat,
    params: ResizeParams,
) -> Option<(int, int)> {
    if !params.maintain_aspect_ratio {
        Some((params.width as int, params.height as int))
    } else if !aspect_defined(source_width, source_height, params) {
        None
    } else if source_is_wider(source_width, source_height, params) {
        Some(
            (
                params.width as int,
                round_half_up(params.width * source_height, source_width as int),
            ),
        )
    } else {
        Some(
            (
                round_half_up(params.height * source_width, source_height as int),
                params.height as int,
            ),
        )
    }
}

/// Rounding a quotient that does not exceed `bound` stays within `bound`,
/// and lands within half a unit of the exact quotient.
pub proof fn lemma_round_half_up_is_nearest(n: int, d: int, bound: int)
    requires
        0 <= n,
        0 < d,
        n <= d * bound,
    ensures
        0 <= round_half_up(n, d) <= bound,
        -d < 2 * (round_half_up(n, d) * d - n) <= d,
{
    let r = round_half_up(n, d);
    lemma_fundamental_div_mod(2 * n + d, 2 * d);
    let rem = (2 * n + d) % (2 * d);
    assert(0 <= rem < 2 * d);
    assert(2 * n + d == (2 * d) * r + rem);
    assert((2 * d) * r == 2 * (r * d)) by (nonlinear_arith);
    assert(r >= 0) by (nonlinear_arith)
        requires
            2 * (r * d) + rem == 2 * n + d,
            rem < 2 * d,
            0 <= n,
            0 < d,
    ;
    assert(r <= bound) by (nonlinear_arith)
        requires
            2 * (r * d) + rem == 2 * n + d,
            0 <= rem,
            n <= d * bound,
            0 < d,
    ;
}

/// The integer nearest to `n / d`, a half rounding away from zero.
pub fn rounded_quotient(n: u64, d: u64) -> (out: u64)
    requires
        d > 0,
    ensures
        out == round_half_up(n as int, d as int),
{
    let q = n / d;
    let r = n % d;
    proof {
        lemma_fundamental_div_mod(n as int, d as int);
        assert(q * d <= n - r) by (nonlinear_arith)
            requires
                n == d * q + r,
        ;
        assert(q <= n - r) by (nonlinear_arith)
            requires
                q * d <= n - r,
                1 <= d,
                0 <= q,
        ;
    }
    if r >= d - r {
        proof {
            assert(2 * n + d == (q + 1) * (2 * d) + (2 * r - d)) by (nonlinear_arith)
                requires
                    n == d * q + r,
            ;
            lemma_fundamental_div_mod_converse(2 * n + d, 2 * d, q + 1, 2 * r - d);
        }
        q + 1
    } else {
        proof {
            assert(2 * n + d == q * (2 * d) + (2 * r + d)) by (nonlinear_arith)
                requires
                    n == d * q + r,
            ;
            lemma_fundamental_div_mod_converse(2 * n + d, 2 * d, q as int, 2 * r + d);
        }
        q
    }
}

/// Checks a crop rectangle against a source of the given size. A rectangle
/// within bounds is handed back as `(x, y, width, height)`; one that reaches
/// beyond the source on either axis is refused, never clamped.
pub fn resolve_crop(source_width: u32, source_height: u32, params: &CropParams) -> (out: Result<
    (u32, u32, u32, u32),
    ProcessingError,
>)
    ensures
        crop_in_bounds(source_width as nat, source_height as nat, *params) ==> out == Ok::<
            (u32, u32, u32, u32),
            ProcessingError,
        >((params.x, params.y, params.width, params.height)),
        !crop_in_bounds(source_width as nat, source_height as nat, *params) ==> out == Err::<
            (u32, u32, u32, u32),
            ProcessingError,
        >(ProcessingError::Validation(ValidationReason::CropOutOfBounds)),
{
    if params.x as u64 + params.width as u64 > source_width as u64 || params.y as u64
        + params.height as u64 > source_height as u64 {
        Err(ProcessingError::Validation(ValidationReason::CropOutOfBounds))
    } else {
        Ok((params.x, params.y, params.width, params.height))
    }
}

/// Computes the dimensions a resize produces for a source of the given size,
/// or refuses an aspect-locked request that has no ratio to keep.
pub fn resolve_resize(source_width: u32, source_height: u32, params: &ResizeParams) -> (out: Result<
    (u32, u32),
    ProcessingError,
>)
    ensures
        match resized_dimensions(source_width as nat, source_height as nat, *params) {
            Some((width, height)) => out == Ok::<(u32, u32), ProcessingError>(
                (width as u32, height as u32),
            ) && 0 <= width <= u32::MAX && 0 <= height <= u32::MAX,
            None => out == Err::<(u32, u32), ProcessingError>(
                ProcessingError::Validation(ValidationReason::AspectUndefined),
            ),
        },
{
    if !params.maintain_aspect_ratio {
        return Ok((params.width, params.height));
    }
    if source_width == 0 || source_height == 0 || params.height == 0 {
        return Err(ProcessingError::Validation(ValidationReason::AspectUndefined));
    }
    let sw = source_width as u64;
    let sh = source_height as u64;
    let tw = params.width as u64;
    let th = params.height as u64;
    proof {
        lemma_products_fit(sw as int, th as int);
        lemma_products_fit(tw as int, sh as int);
        lemma_products_fit(th as int, sw as int);
    }
    if sw * th > tw * sh {
        proof {
            assert(tw * sh <= sw * th);
            lemma_round_half_up_is_nearest(tw * sh, sw as int, th as int);
        }
        let height = rounded_quotient(tw * sh, sw);
        Ok((params.width, height as u32))
    } else {
        proof {
            assert(th * sw == sw * th) by (nonlinear_arith);
            assert(sh * tw == tw * sh) by (nonlinear_arith);
            lemma_round_half_up_is_nearest(th * sw, sh as int, tw as int);
        }
        let width = rounded_quotient(th * sw, sh);
        Ok((width as u32, params.height))
    }
}

proof fn lemma_products_fit(a: int, b: int)
    requires
        0 <= a <= u32::MAX,
        0 <= b <= u32::MAX,
    ensures
        0 <= a * b <= u32::MAX * u32::MAX,
        a * b <= u64::MAX,
{
    assert(0 <= a * b <= 0xffff_ffff * 0xffff_ffff) by (nonlinear_arith)
        requires
            0 <= a <= 0xffff_ffff,
            0 <= b <= 0xffff_ffff,
    ;
}

/// Without the aspect lock a resize has exactly the requested dimensions,
/// whatever the proportions of the source.
pub proof fn lemma_unlocked_resize_is_exact(source_width: nat, source_height: nat, params: ResizeParams)
    requires
        !params.maintain_aspect_ratio,
    ensures
        resized_dimensions(source_width, source_height, params) == Some(
            (params.width as int, params.height as int),
        ),
{
}

/// With the aspect lock the limiting axis has exactly the requested value,
/// the other axis is within half a pixel of what the source's proportions
/// give, and the result fits the requested box.
pub proof fn lemma_locked_resize_keeps_aspect(source_width: nat, source_height: nat, params: ResizeParams)
    requires
        params.maintain_aspect_ratio,
        aspect_defined(source_width, source_height, params),
    ensures
        resized_dimensions(source_width, source_height, params) matches Some((width, height)) && {
            &&& 0 <= width <= params.width
            &&& 0 <= height <= params.height
            &&& source_is_wider(source_width, source_height, params) ==> width == params.width
                && -source_width < 2 * (height * source_width - params.width * source_height)
                <= source_width
            &&& !source_is_wider(source_width, source_height, params) ==> height == params.height
                && -source_height < 2 * (width * source_height - params.height * source_width)
                <= source_height
        },
{
    let sw = source_width as int;
    let sh = source_height as int;
    let tw = params.width as int;
    let th = params.height as int;
    assert(0 <= tw * sh && 0 <= th * sw) by (nonlinear_arith)
        requires
            0 <= tw,
            0 <= sh,
            0 <= th,
            0 <= sw,
    ;
    if source_is_wider(source_width, source_height, params) {
        lemma_round_half_up_is_nearest(tw * sh, sw, th);
    } else {
        assert(th * sw == sw * th) by (nonlinear_arith);
        assert(sh * tw == tw * sh) by (nonlinear_arith);
        lemma_round_half_up_is_nearest(th * sw, sh, tw);
    }
}

} // verus!
