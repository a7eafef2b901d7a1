//! The output size and sharpen strength of a raster image.
use vstd::prelude::*;

use crate::config::ImageConfig;

verus! {

/// The largest automatic sharpen strength, in thousandths.
pub const AUTO_SHARPEN_MAX: u32 = 3000;

/// `other * given / along`, rounded to the nearest integer (halves up): the
/// side that keeps the aspect ratio when the side `along` becomes `given`.
pub open spec fn scaled_side(other: nat, given: nat, along: nat) -> nat
    recommends
        along > 0,
{
    (2 * other * given + along) / (2 * along)
}

/// The size asked for, before the shrink-only policy: a zero side follows the
/// source aspect ratio, two zero sides keep the source size.
pub open spec fn target_size(sw: nat, sh: nat, w: nat, h: nat) -> (nat, nat) {
    if w == 0 && h == 0 {
        (sw, sh)
    } else if h == 0 {
        (w, scaled_side(sh, w, sw))
    } else if w == 0 {
        (scaled_side(sw, h, sh), h)
    } else {
        (w, h)
    }
}

/// The final output size: the target size, unless the image may only shrink
/// and the target is larger than the source in some axis.
pub open spec fn output_size(shrink_only: bool, sw: nat, sh: nat, w: nat, h: nat) -> (nat, nat) {
    let t = target_size(sw, sh, w, h);
    if shrink_only && (t.0 > sw || t.1 > sh) {
        (sw, sh)
    } else {
        t
    }
}

/// How many times one side shrinks, in thousandths; a side that becomes zero
/// counts as one that becomes a single pixel.
pub open spec fn side_ratio(src: nat, out: nat) -> nat {
    if out == 0 {
        src * 1000
    } else {
        src * 1000 / out
    }
}

/// The downscale ratio of an image, in thousandths: that of the side that
/// shrinks the most.
pub open spec fn downscale_ratio(sw: nat, sh: nat, fw: nat, fh: nat) -> nat {
    let rw = side_ratio(sw, fw);
    let rh = side_ratio(sh, fh);
    if rw >= rh {
        rw
    } else {
        rh
    }
}

/// The automatic sharpen strength for a downscale ratio in thousandths: zero
/// up to a ratio of one, then half a unit more for each further unit of ratio,
/// up to `AUTO_SHARPEN_MAX`.
pub open spec fn auto_sharpen(ratio: nat) -> nat {
    if ratio <= 1000 {
        0
    } else if (ratio - 1000) / 2 >= AUTO_SHARPEN_MAX {
        AUTO_SHARPEN_MAX as nat
    } else {
        ((ratio - 1000) / 2) as nat
    }
}

/// The sharpen strength applied: a non-negative setting as it is, a negative
/// one replaced by the automatic strength for the scaling.
pub open spec fn resolved_sharpen(sharpen: int, sw: nat, sh: nat, fw: nat, fh: nat) -> int {
    if sharpen >= 0 {
        sharpen
    } else {
        auto_sharpen(downscale_ratio(sw, sh, fw, fh)) as int
    }
}

/// Rounds `other * given / along` to the nearest integer.
fn scale_side(other: u32, given: u16, along: u32) -> (r: u64)
    requires
        along > 0,
    ensures
        r == scaled_side(other as nat, given as nat, along as nat),
{
    assert(other as int * given as int <= 0xffff_ffff * 0xffff) by (nonlinear_arith)
        requires
            other <= 0xffff_ffffu32,
            given <= 0xffffu16,
    ;
    let p: u64 = other as u64 * given as u64;
    assert(2 * p == 2 * other as int * given as int) by (nonlinear_arith)
        requires
            p == other as int * given as int,
    ;
    (2 * p + along as u64) / (2 * along as u64)
}

/// The output size for a source of `input_width` by `input_height` pixels
/// and a requested size where `0` stands for "follow the source".
pub fn compute_output_size(
    shrink_only: bool,
    input_width: u32,
    input_height: u32,
    width: u16,
    height: u16,
) -> (r: (u64, u64))
    requires
        input_width > 0,
        input_height > 0,
    ensures
        (r.0 as nat, r.1 as nat) == output_size(
            shrink_only,
            input_width as nat,
            input_height as nat,
            width as nat,
            height as nat,
        ),
{
    let (tw, th): (u64, u64) = if width == 0 && height == 0 {
        (input_width as u64, input_height as u64)
    } else if height == 0 {
        (width as u64, scale_side(input_height, width, input_width))
    } else if width == 0 {
        (scale_side(input_width, height, input_height), height as u64)
    } else {
        (width as u64, height as u64)
    };
    if shrink_only && (tw > input_width as u64 || th > input_height as u64) {
        (input_width as u64, input_height as u64)
    } else {
        (tw, th)
    }
}

/// The downscale ratio of one side, in thousandths.
fn side_ratio_of(src: u32, out: u64) -> (r: u64)
    ensures
        r == side_ratio(src as nat, out as nat),
{
    if out == 0 {
        src as u64 * 1000
    } else {
        src as u64 * 1000 / out
    }
}

/// The output width, height and sharpen strength (in thousandths) for a
/// source image of `input_width` by `input_height` pixels.
pub fn compute_output_size_sharpen<C: ImageConfig>(
    config: &C,
    input_width: u32,
    input_height: u32,
) -> (r: (u64, u64, i32))
    requires
        input_width > 0,
        input_height > 0,
    ensures
        (r.0 as nat, r.1 as nat) == output_size(
            config.spec_shrink_only(),
            input_width as nat,
            input_height as nat,
            config.spec_width() as nat,
            config.spec_height() as nat,
        ),
        r.2 == resolved_sharpen(
            config.spec_sharpen() as int,
            input_width as nat,
            input_height as nat,
            r.0 as nat,
            r.1 as nat,
        ),
{
    let (width, height) = compute_output_size(
        config.is_shrink_only(),
        input_width,
        input_height,
        config.get_width(),
        config.get_height(),
    );
    let sharpen = config.get_sharpen();
    if sharpen >= 0 {
        return (width, height, sharpen);
    }
    let rw = side_ratio_of(input_width, width);
    let rh = side_ratio_of(input_height, height);
    let ratio: u64 = if rw >= rh {
        rw
    } else {
        rh
    };
    let auto: u64 = if ratio <= 1000 {
        0
    } else if (ratio - 1000) / 2 >= AUTO_SHARPEN_MAX as u64 {
        AUTO_SHARPEN_MAX as u64
    } else {
        (ratio - 1000) / 2
    };
    (width, height, auto as i32)
}

/// With neither side requested, the output keeps the source size, and an
/// automatic sharpen strength is the baseline of zero.
pub proof fn lemma_no_request_keeps_source(shrink_only: bool, sw: nat, sh: nat, sharpen: int)
    requires
        sw > 0,
        sh > 0,
    ensures
        output_size(shrink_only, sw, sh, 0, 0) == (sw, sh),
        resolved_sharpen(sharpen, sw, sh, sw, sh) == if sharpen >= 0 {
            sharpen
        } else {
            0
        },
{
    lemma_unit_ratio(sw);
    lemma_unit_ratio(sh);
}

/// A side that keeps its size has a ratio of one.
proof fn lemma_unit_ratio(n: nat)
    requires
        n > 0,
    ensures
        side_ratio(n, n) == 1000,
{
    assert(n * 1000 / n == 1000) by (nonlinear_arith)
        requires
            n > 0,
    ;
}

/// When the image may only shrink and both requested sides exceed the
/// source, the output keeps the source size.
pub proof fn lemma_shrink_only_never_enlarges(sw: nat, sh: nat, w: nat, h: nat)
    requires
        w > sw,
        h > sh,
    ensures
        output_size(true, sw, sh, w, h) == (sw, sh),
{
}

/// `n * d` lies within half of `d` of `m`, where `n` is `m / d` rounded.
proof fn lemma_rounding(other: nat, given: nat, along: nat)
    requires
        along > 0,
    ensures
        -(along as int) <= 2 * (scaled_side(other, given, along) * along - other * given) <= along,
{
    let q = scaled_side(other, given, along);
    let num = 2 * other * given + along;
    let den = 2 * along;
    assert(den * q <= num < den * q + den) by (nonlinear_arith)
        requires
            den > 0,
            q == num / den,
    ;
    assert(2 * (q * along - other * given) == den * q - num + along) by (nonlinear_arith)
        requires
            num == 2 * other * given + along,
            den == 2 * along,
    ;
}

/// With only the width requested, the output keeps the source aspect ratio
/// up to rounding: the height is within half a pixel of the exact height.
pub proof fn lemma_width_keeps_aspect(shrink_only: bool, sw: nat, sh: nat, w: nat)
    requires
        sw > 0,
        sh > 0,
        w > 0,
    ensures
        ({
            let (fw, fh) = output_size(shrink_only, sw, sh, w, 0);
            -(sw as int) <= 2 * (fh * sw - sh * fw) <= sw
        }),
{
    lemma_rounding(sh, w, sw);
    assert(sh * sw - sh * sw == 0);
}

/// With only the height requested, the output keeps the source aspect ratio
/// up to rounding: the width is within half a pixel of the exact width.
pub proof fn lemma_height_keeps_aspect(shrink_only: bool, sw: nat, sh: nat, h: nat)
    requires
        sw > 0,
        sh > 0,
        h > 0,
    ensures
        ({
            let (fw, fh) = output_size(shrink_only, sw, sh, 0, h);
            -(sh as int) <= 2 * (fw * sh - sw * fh) <= sh
        }),
{
    lemma_rounding(sw, h, sh);
    assert(sw * sh - sw * sh == 0);
}

/// The automatic sharpen strength never decreases as the downscale ratio
/// grows.
pub proof fn lemma_auto_sharpen_monotonic(r1: nat, r2: nat)
    requires
        r1 <= r2,
    ensures
        auto_sharpen(r1) <= auto_sharpen(r2),
{
    if r1 > 1000 {
        assert((r1 - 1000) / 2 <= (r2 - 1000) / 2) by (nonlinear_arith)
            requires
                1000 < r1 <= r2,
        ;
    }
}

/// A non-negative sharpen setting is applied as it is, whatever the scaling.
pub proof fn lemma_manual_sharpen_kept(sharpen: int, sw: nat, sh: nat, fw: nat, fh: nat)
    requires
        sharpen >= 0,
    ensures
        resolved_sharpen(sharpen, sw, sh, fw, fh) == sharpen,
{
}

/// The output size of a source that fits `u32` fits `u64`.
pub proof fn lemma_output_size_bound(shrink_only: bool, sw: nat, sh: nat, w: nat, h: nat)
    requires
        0 < sw <= u32::MAX,
        0 < sh <= u32::MAX,
        w <= u16::MAX,
        h <= u16::MAX,
    ensures
        output_size(shrink_only, sw, sh, w, h).0 <= u64::MAX,
        output_size(shrink_only, sw, sh, w, h).1 <= u64::MAX,
{
    lemma_scaled_side_bound(sh, w, sw);
    lemma_scaled_side_bound(sw, h, sh);
}

proof fn lemma_scaled_side_bound(other: nat, given: nat, along: nat)
    requires
        other <= u32::MAX,
        given <= u16::MAX,
        0 < along <= u32::MAX,
    ensures
        scaled_side(other, given, along) <= u64::MAX,
{
    assert(scaled_side(other, given, along) <= 2 * other * given + along) by (nonlinear_arith)
        requires
            along > 0,
            scaled_side(other, given, along) == (2 * other * given + along) / (2 * along),
    ;
    assert(2 * other * given <= 2 * 0xffff_ffff * 0xffff) by (nonlinear_arith)
        requires
            other <= 0xffff_ffff,
            given <= 0xffff,
    ;
}

} // verus!
