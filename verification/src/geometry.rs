//! Where the scaled image lies on the canvas.
//!
//! All lengths are exact: a border ratio is a whole number of millionths, so
//! the interior of the canvas, the fit scale and the scaled sides before
//! rounding are rationals, and nothing is rounded before the one place where a
//! pixel count is needed.

use crate::config::{Config, RATIO_SCALE};
use crate::error::ErrorKind;
use vstd::prelude::*;

verus! {

/// A positive rational factor, `num / den`.
#[derive(Clone, Copy, Debug, PartialEq, Eq, Structural)]
pub struct Scale {
    pub num: u64,
    pub den: u64,
}

/// How one source image is scaled and where it is placed.
#[derive(Clone, Copy, Debug, PartialEq, Eq, Structural)]
pub struct Geometry {
    /// The factor applied to both sides of the source.
    pub scale: Scale,
    pub scaled_width: u32,
    pub scaled_height: u32,
    /// Column of the canvas that takes the image's first column.
    pub offset_x: u32,
    /// Row of the canvas that takes the image's first row.
    pub offset_y: u32,
}

impl Geometry {
    /// The placed image lies within a canvas of the given size.
    pub open spec fn fits_within(self, target_width: int, target_height: int) -> bool {
        &&& self.offset_x + self.scaled_width <= target_width
        &&& self.offset_y + self.scaled_height <= target_height
    }
}

/// An image is landscape when it is strictly wider than high.  A square one
/// is portrait.
pub open spec fn is_landscape(width: int, height: int) -> bool {
    width > height
}

/// The vertical border ratio that applies to a source of the given size, in
/// millionths.
pub open spec fn vert_border(config: Config, width: int, height: int) -> int {
    if is_landscape(width, height) {
        config.landscape_vert_ratio.ppm as int
    } else {
        config.portrait_vert_ratio.ppm as int
    }
}

/// The horizontal border ratio that applies to a source of the given size, in
/// millionths.
pub open spec fn horiz_border(config: Config, width: int, height: int) -> int {
    if is_landscape(width, height) {
        config.landscape_horiz_ratio.ppm as int
    } else {
        config.portrait_horiz_ratio.ppm as int
    }
}

/// What two borders of the given ratio leave of a canvas side, in millionths
/// of a pixel: `target * (1 - 2 * ratio)`.
pub open spec fn interior(target: int, border_ppm: int) -> int {
    target * (RATIO_SCALE - 2 * border_ppm)
}

/// The quotient `num / den` rounded to the nearest integer, a half rounded up.
pub open spec fn round_half_up(num: int, den: int) -> int {
    (2 * num + den) / (2 * den)
}

/// The width limits the scale: `avail_width / width` is no more than
/// `avail_height / height`.
pub open spec fn width_governs(avail_width: int, avail_height: int, width: int, height: int) -> bool {
    avail_width * height <= avail_height * width
}

/// The numerator of the fit scale, which is the smaller of
/// `avail_width / width` and `avail_height / height` with the interiors in
/// pixels: the interior of the axis that limits, in millionths of a pixel.
pub open spec fn scale_num(avail_width: int, avail_height: int, width: int, height: int) -> int {
    if width_governs(avail_width, avail_height, width, height) {
        avail_width
    } else {
        avail_height
    }
}

/// The denominator of the fit scale: the source side of the axis that
/// limits, times `RATIO_SCALE`.
pub open spec fn scale_den(avail_width: int, avail_height: int, width: int, height: int) -> int {
    if width_governs(avail_width, avail_height, width, height) {
        RATIO_SCALE * width
    } else {
        RATIO_SCALE * height
    }
}

/// The geometry of a source of `width` by `height` pixels under `config`.
///
/// A source without pixels is refused first, then a canvas without interior.
/// Otherwise the source is scaled by the largest factor that keeps it inside
/// the interior on both axes (there is no guard against enlarging), each side
/// is rounded to the nearest pixel, and what is left of the canvas on each
/// axis is halved, the odd pixel going right and down.
pub open spec fn geometry_spec(width: u32, height: u32, config: Config) -> Result<Geometry, ErrorKind> {
    let w = width as int;
    let h = height as int;
    let avail_width = interior(config.target_width as int, horiz_border(config, w, h));
    let avail_height = interior(config.target_height as int, vert_border(config, w, h));
    if width == 0 || height == 0 {
        Err(ErrorKind::InvalidDimensions)
    } else if avail_width <= 0 || avail_height <= 0 {
        Err(ErrorKind::InvalidConfig)
    } else {
        let num = scale_num(avail_width, avail_height, w, h);
        let den = scale_den(avail_width, avail_height, w, h);
        let scaled_width = round_half_up(w * num, den);
        let scaled_height = round_half_up(h * num, den);
        Ok(
            Geometry {
                scale: Scale { num: num as u64, den: den as u64 },
                scaled_width: scaled_width as u32,
                scaled_height: scaled_height as u32,
                offset_x: ((config.target_width - scaled_width) / 2) as u32,
                offset_y: ((config.target_height - scaled_height) / 2) as u32,
            },
        )
    }
}

proof fn lemma_round_bounds(num: int, den: int, bound: int)
    requires
        den > 0,
        0 <= num <= bound * den,
    ensures
        0 <= round_half_up(num, den) <= bound,
        -den < 2 * (round_half_up(num, den) * den - num) <= den,
{
    let r = round_half_up(num, den);
    let a = 2 * num + den;
    let d = 2 * den;
    assert(a == d * (a / d) + a % d && 0 <= a % d < d) by (nonlinear_arith)
        requires
            d > 0,
    ;
    assert(d * r == 2 * (r * den)) by (nonlinear_arith)
        requires
            d == 2 * den,
    ;
    assert(r >= 0) by (nonlinear_arith)
        requires
            d * r > -d,
            d > 0,
    ;
    assert(r <= bound) by (nonlinear_arith)
        requires
            d * r <= 2 * num + den,
            num <= bound * den,
            d == 2 * den,
            den > 0,
    ;
}

proof fn lemma_interior_bounds(target: int, border_ppm: int)
    requires
        0 <= target <= u32::MAX,
        0 <= border_ppm <= u32::MAX,
    ensures
        interior(target, border_ppm) <= target * RATIO_SCALE,
        interior(target, border_ppm) <= 0x10_0000_0000_0000,
        (target == 0 || 2 * border_ppm >= RATIO_SCALE) <==> interior(target, border_ppm) <= 0,
{
    let f = RATIO_SCALE - 2 * border_ppm;
    assert(target * f <= target * RATIO_SCALE) by (nonlinear_arith)
        requires
            0 <= target,
            f <= RATIO_SCALE,
    ;
    assert(target * RATIO_SCALE <= 0x10_0000_0000_0000) by (nonlinear_arith)
        requires
            0 <= target <= 0xffff_ffff,
            RATIO_SCALE == 1_000_000,
    ;
    assert((target == 0 || f <= 0) <==> target * f <= 0) by (nonlinear_arith)
        requires
            0 <= target,
    ;
}

/// The facts about the fit scale and the products that the rounding divides,
/// for a source with pixels and a canvas with interior.
proof fn lemma_scale_bounds(width: u32, height: u32, config: Config)
    requires
        geometry_spec(width, height, config) is Ok,
    ensures
        ({
            let w = width as int;
            let h = height as int;
            let aw = interior(config.target_width as int, horiz_border(config, w, h));
            let ah = interior(config.target_height as int, vert_border(config, w, h));
            let num = scale_num(aw, ah, w, h);
            let den = scale_den(aw, ah, w, h);
            &&& 0 < aw <= 0x10_0000_0000_0000
            &&& 0 < ah <= 0x10_0000_0000_0000
            &&& 0 < num <= 0x10_0000_0000_0000
            &&& 0 < den <= 0x10_0000_0000_0000
            &&& 0 <= w * num <= config.target_width * den
            &&& 0 <= h * num <= config.target_height * den
            &&& w * num <= 0x10_0000_0000_0000_0000_0000
            &&& h * num <= 0x10_0000_0000_0000_0000_0000
            &&& aw * h <= 0x10_0000_0000_0000_0000_0000
            &&& ah * w <= 0x10_0000_0000_0000_0000_0000
        }),
{
    let w = width as int;
    let h = height as int;
    let tw = config.target_width as int;
    let th = config.target_height as int;
    let aw = interior(tw, horiz_border(config, w, h));
    let ah = interior(th, vert_border(config, w, h));
    let num = scale_num(aw, ah, w, h);
    let den = scale_den(aw, ah, w, h);
    let s = RATIO_SCALE as int;
    lemma_interior_bounds(tw, horiz_border(config, w, h));
    lemma_interior_bounds(th, vert_border(config, w, h));
    assert(s * w <= 0x10_0000_0000_0000 && s * h <= 0x10_0000_0000_0000 && s * w > 0 && s * h > 0)
        by (nonlinear_arith)
        requires
            0 < w <= 0xffff_ffff,
            0 < h <= 0xffff_ffff,
            s == 1_000_000,
    ;
    assert(aw * h <= 0x10_0000_0000_0000_0000_0000 && ah * w <= 0x10_0000_0000_0000_0000_0000
        && w * aw <= 0x10_0000_0000_0000_0000_0000 && h * ah <= 0x10_0000_0000_0000_0000_0000
        && w * ah <= 0x10_0000_0000_0000_0000_0000 && h * aw <= 0x10_0000_0000_0000_0000_0000
        && w * aw >= 0 && h * ah >= 0 && w * ah >= 0 && h * aw >= 0) by (nonlinear_arith)
        requires
            0 < w <= 0xffff_ffff,
            0 < h <= 0xffff_ffff,
            0 < aw <= 0x10_0000_0000_0000,
            0 < ah <= 0x10_0000_0000_0000,
    ;
    if width_governs(aw, ah, w, h) {
        assert(w * aw <= tw * (s * w)) by (nonlinear_arith)
            requires
                aw <= tw * s,
                w > 0,
        ;
        assert(h * aw <= th * (s * w)) by (nonlinear_arith)
            requires
                aw * h <= ah * w,
                ah <= th * s,
                w > 0,
        ;
    } else {
        assert(w * ah <= tw * (s * h)) by (nonlinear_arith)
            requires
                ah * w < aw * h,
                aw <= tw * s,
                h > 0,
        ;
        assert(h * ah <= th * (s * h)) by (nonlinear_arith)
            requires
                ah <= th * s,
                h > 0,
        ;
    }
}

/// The scaled image is no larger than the canvas, and the offsets leave it
/// inside: every geometry that is computed fits.
pub proof fn lemma_geometry_fits(width: u32, height: u32, config: Config)
    requires
        geometry_spec(width, height, config) is Ok,
    ensures
        ({
            let g = geometry_spec(width, height, config)->Ok_0;
            &&& g.scaled_width <= config.target_width
            &&& g.scaled_height <= config.target_height
            &&& g.offset_x >= 0
            &&& g.offset_y >= 0
            &&& g.fits_within(config.target_width as int, config.target_height as int)
            &&& g.offset_x == (config.target_width - g.scaled_width) / 2
            &&& g.offset_y == (config.target_height - g.scaled_height) / 2
        }),
{
    let w = width as int;
    let h = height as int;
    let aw = interior(config.target_width as int, horiz_border(config, w, h));
    let ah = interior(config.target_height as int, vert_border(config, w, h));
    let num = scale_num(aw, ah, w, h);
    let den = scale_den(aw, ah, w, h);
    lemma_scale_bounds(width, height, config);
    lemma_round_bounds(w * num, den, config.target_width as int);
    lemma_round_bounds(h * num, den, config.target_height as int);
}

/// Both sides are scaled by one factor: each scaled side is within half a
/// pixel of the source side times the scale, so the proportions of the source
/// are kept up to that rounding.  Cross-multiplied, the two ratios
/// `scaled_width / scaled_height` and `width / height` differ by at most
/// `(width + height) / 2`.
pub proof fn lemma_aspect_ratio_preserved(width: u32, height: u32, config: Config)
    requires
        geometry_spec(width, height, config) is Ok,
    ensures
        ({
            let g = geometry_spec(width, height, config)->Ok_0;
            let num = g.scale.num as int;
            let den = g.scale.den as int;
            &&& num > 0
            &&& den > 0
            &&& -den < 2 * (g.scaled_width * den - width * num) <= den
            &&& -den < 2 * (g.scaled_height * den - height * num) <= den
            &&& -(width + height) <= 2 * (g.scaled_width * height - g.scaled_height * width) <= width
                + height
        }),
{
    let w = width as int;
    let h = height as int;
    let aw = interior(config.target_width as int, horiz_border(config, w, h));
    let ah = interior(config.target_height as int, vert_border(config, w, h));
    let num = scale_num(aw, ah, w, h);
    let den = scale_den(aw, ah, w, h);
    lemma_scale_bounds(width, height, config);
    lemma_round_bounds(w * num, den, config.target_width as int);
    lemma_round_bounds(h * num, den, config.target_height as int);
    let sw = round_half_up(w * num, den);
    let sh = round_half_up(h * num, den);
    let e1 = sw * den - w * num;
    let e2 = sh * den - h * num;
    assert((sw * h - sh * w) * den == e1 * h - e2 * w) by (nonlinear_arith)
        requires
            e1 == sw * den - w * num,
            e2 == sh * den - h * num,
    ;
    let x = sw * h - sh * w;
    assert(-(w + h) <= 2 * x <= w + h) by (nonlinear_arith)
        requires
            x * den == e1 * h - e2 * w,
            -den < 2 * e1 <= den,
            -den < 2 * e2 <= den,
            den > 0,
            w > 0,
            h > 0,
    ;
}

/// A square source is portrait: its geometry is made with the portrait
/// borders and does not depend on the landscape ones.
pub proof fn lemma_square_is_portrait(side: u32, config: Config, other: Config)
    requires
        other.target_width == config.target_width,
        other.target_height == config.target_height,
        other.portrait_vert_ratio == config.portrait_vert_ratio,
        other.portrait_horiz_ratio == config.portrait_horiz_ratio,
    ensures
        !is_landscape(side as int, side as int),
        vert_border(config, side as int, side as int) == config.portrait_vert_ratio.ppm,
        horiz_border(config, side as int, side as int) == config.portrait_horiz_ratio.ppm,
        geometry_spec(side, side, config) == geometry_spec(side, side, other),
{
}

/// The geometry is a function of the source size and the parameters alone:
/// two results for the same inputs are the same.
pub proof fn lemma_geometry_deterministic(
    width: u32,
    height: u32,
    config: Config,
    first: Result<Geometry, ErrorKind>,
    second: Result<Geometry, ErrorKind>,
)
    requires
        first == geometry_spec(width, height, config),
        second == geometry_spec(width, height, config),
    ensures
        first == second,
{
}

/// Computes how a source of `orig_width` by `orig_height` pixels is scaled and
/// where it is placed on the canvas of `config`.
pub fn compute_geometry(orig_width: u32, orig_height: u32, config: &Config) -> (r: Result<
    Geometry,
    ErrorKind,
>)
    ensures
        r == geometry_spec(orig_width, orig_height, *config),
        r matches Ok(g) ==> g.fits_within(config.target_width as int, config.target_height as int),
{
    if orig_width == 0 || orig_height == 0 {
        return Err(ErrorKind::InvalidDimensions);
    }
    let landscape = orig_width > orig_height;
    let vert: u64 = if landscape {
        config.landscape_vert_ratio.ppm as u64
    } else {
        config.portrait_vert_ratio.ppm as u64
    };
    let horiz: u64 = if landscape {
        config.landscape_horiz_ratio.ppm as u64
    } else {
        config.portrait_horiz_ratio.ppm as u64
    };
    let one: u64 = RATIO_SCALE as u64;
    proof {
        lemma_interior_bounds(config.target_width as int, horiz as int);
        lemma_interior_bounds(config.target_height as int, vert as int);
    }
    if config.target_width == 0 || 2 * horiz >= one || config.target_height == 0 || 2 * vert
        >= one {
        return Err(ErrorKind::InvalidConfig);
    }
    let avail_width: u64 = config.target_width as u64 * (one - 2 * horiz);
    let avail_height: u64 = config.target_height as u64 * (one - 2 * vert);
    proof {
        lemma_scale_bounds(orig_width, orig_height, *config);
    }
    let width_first: bool = avail_width as u128 * orig_height as u128 <= avail_height as u128
        * orig_width as u128;
    let num: u64 = if width_first {
        avail_width
    } else {
        avail_height
    };
    let den: u64 = if width_first {
        one * orig_width as u64
    } else {
        one * orig_height as u64
    };
    proof {
        lemma_round_bounds(orig_width * num, den as int, config.target_width as int);
        lemma_round_bounds(orig_height * num, den as int, config.target_height as int);
    }
    let scaled_width: u32 = ((2 * (orig_width as u128 * num as u128) + den as u128) / (2
        * den as u128)) as u32;
    let scaled_height: u32 = ((2 * (orig_height as u128 * num as u128) + den as u128) / (2
        * den as u128)) as u32;
    Ok(
        Geometry {
            scale: Scale { num, den },
            scaled_width,
            scaled_height,
            offset_x: (config.target_width - scaled_width) / 2,
            offset_y: (config.target_height - scaled_height) / 2,
        },
    )
}

} // verus!
