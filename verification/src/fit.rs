//! The cover fit: how far to scale a picture so that it covers a target
//! rectangle, and where to cut the scaled picture so that exactly the target
//! remains.
//!
//! The scale is kept as an exact fraction, so every size below is the true
//! ceiling or floor of the stated quotient.

use vstd::prelude::*;
use vstd::arithmetic::div_mod::{lemma_fundamental_div_mod, lemma_fundamental_div_mod_converse};

verus! {

/// A positive scale factor, the fraction `num / den`.
#[derive(Clone, Copy, Debug, PartialEq, Eq, Structural)]
pub struct Scale {
    pub num: u32,
    pub den: u32,
}

/// The sizes that one fit goes through: the scale, the size of the scaled
/// picture, and the top-left corner of the part that is kept.
#[derive(Clone, Copy, Debug, PartialEq, Eq, Structural)]
pub struct FitPlan {
    pub target_width: u32,
    pub target_height: u32,
    pub scale: Scale,
    pub resized_width: u64,
    pub resized_height: u64,
    pub crop_x: u64,
    pub crop_y: u64,
}

/// The quotient `a / b` rounded up to the next integer.
pub open spec fn ceil_div(a: int, b: int) -> int {
    (a + b - 1) / b
}

/// The greater of the two fractions `target_width / source_width` and
/// `target_height / source_height`; the first where they are equal.
pub open spec fn cover_scale(
    target_width: u32,
    target_height: u32,
    source_width: u32,
    source_height: u32,
) -> Scale {
    if target_width * source_height >= target_height * source_width {
        Scale { num: target_width, den: source_width }
    } else {
        Scale { num: target_height, den: source_height }
    }
}

/// A length of `side` pixels after scaling, rounded up.
pub open spec fn scaled_side(side: u32, scale: Scale) -> int {
    ceil_div(side * scale.num, scale.den as int)
}

/// The offset that centres `target` pixels within `resized` pixels, rounded
/// down; 0 where nothing is left over.
pub open spec fn centre_offset(resized: int, target: int) -> int {
    if resized > target {
        (resized - target) / 2
    } else {
        0
    }
}

/// The whole plan for fitting a source of the given size over a target of the
/// given size.
pub open spec fn cover_plan(
    target_width: u32,
    target_height: u32,
    source_width: u32,
    source_height: u32,
) -> FitPlan {
    let scale = cover_scale(target_width, target_height, source_width, source_height);
    let resized_width = scaled_side(source_width, scale);
    let resized_height = scaled_side(source_height, scale);
    FitPlan {
        target_width,
        target_height,
        scale,
        resized_width: resized_width as u64,
        resized_height: resized_height as u64,
        crop_x: centre_offset(resized_width, target_width as int) as u64,
        crop_y: centre_offset(resized_height, target_height as int) as u64,
    }
}

/// `ceil_div(a, b)` is the least integer whose product with `b` reaches `a`:
/// it reaches `a`, and the integer before it does not.
pub proof fn lemma_ceil_div_is_least(a: int, b: int)
    requires
        a >= 0,
        b > 0,
    ensures
        ceil_div(a, b) * b >= a,
        (ceil_div(a, b) - 1) * b < a,
{
    let q = ceil_div(a, b);
    lemma_fundamental_div_mod(a + b - 1, b);
    let r = (a + b - 1) % b;
    assert(a + b - 1 == b * q + r);
    assert(0 <= r < b);
    assert(q * b == b * q) by (nonlinear_arith);
    assert((q - 1) * b == b * q - b) by (nonlinear_arith);
}

/// Scaling a side by a fraction whose denominator is that side gives the
/// numerator exactly.
pub proof fn lemma_scaled_side_exact(side: u32, num: u32)
    requires
        side > 0,
    ensures
        scaled_side(side, Scale { num, den: side }) == num,
{
    let x = side * num + side - 1;
    assert(x == num * side + (side - 1)) by (nonlinear_arith)
        requires
            x == side * num + side - 1,
    ;
    lemma_fundamental_div_mod_converse(x, side as int, num as int, side - 1);
}

/// The cover scale is one of the two ratios and not less than either:
/// `scale >= target_width / source_width` and
/// `scale >= target_height / source_height`, stated without division.
pub proof fn lemma_cover_scale_is_max(
    target_width: u32,
    target_height: u32,
    source_width: u32,
    source_height: u32,
)
    requires
        source_width > 0,
        source_height > 0,
    ensures
        ({
            let s = cover_scale(target_width, target_height, source_width, source_height);
            &&& s.den > 0
            &&& s.num * source_width >= target_width * s.den
            &&& s.num * source_height >= target_height * s.den
            &&& (s.num * source_width == target_width * s.den || s.num * source_height
                == target_height * s.den)
        }),
{
    let s = cover_scale(target_width, target_height, source_width, source_height);
    assert(s.num * source_width == source_width * s.num) by (nonlinear_arith);
    assert(s.num * source_height == source_height * s.num) by (nonlinear_arith);
    assert(target_width * source_width == source_width * target_width) by (nonlinear_arith);
    assert(target_height * source_height == source_height * target_height) by (nonlinear_arith);
}

/// The scaled picture covers the target, and the centred cut lies inside it:
/// in each axis the offset is not negative and offset plus target side does
/// not pass the scaled side. The axis whose ratio was chosen is matched
/// exactly, with offset 0.
pub proof fn lemma_cover_plan_in_bounds(
    target_width: u32,
    target_height: u32,
    source_width: u32,
    source_height: u32,
)
    requires
        source_width > 0,
        source_height > 0,
    ensures
        ({
            let p = cover_plan(target_width, target_height, source_width, source_height);
            &&& p.resized_width == scaled_side(source_width, p.scale)
            &&& p.resized_height == scaled_side(source_height, p.scale)
            &&& p.crop_x == centre_offset(p.resized_width as int, target_width as int)
            &&& p.crop_y == centre_offset(p.resized_height as int, target_height as int)
            &&& p.resized_width >= target_width
            &&& p.resized_height >= target_height
            &&& 0 <= p.crop_x
            &&& 0 <= p.crop_y
            &&& p.crop_x + target_width <= p.resized_width
            &&& p.crop_y + target_height <= p.resized_height
            &&& (p.resized_width == target_width && p.crop_x == 0 || p.resized_height
                == target_height && p.crop_y == 0)
        }),
{
    let s = cover_scale(target_width, target_height, source_width, source_height);
    let rw = scaled_side(source_width, s);
    let rh = scaled_side(source_height, s);
    let a = source_width * s.num;
    let b = source_height * s.num;
    assert(0 <= a <= 0xffff_ffff * 0xffff_ffff) by (nonlinear_arith)
        requires
            a == source_width * s.num,
            0 <= source_width <= 0xffff_ffff,
            0 <= s.num <= 0xffff_ffff,
    ;
    assert(0 <= b <= 0xffff_ffff * 0xffff_ffff) by (nonlinear_arith)
        requires
            b == source_height * s.num,
            0 <= source_height <= 0xffff_ffff,
            0 <= s.num <= 0xffff_ffff,
    ;
    lemma_ceil_div_is_least(a, s.den as int);
    lemma_ceil_div_is_least(b, s.den as int);
    assert(0 <= rw <= a && 0 <= rh <= b) by (nonlinear_arith)
        requires
            (rw - 1) * s.den < a,
            (rh - 1) * s.den < b,
            rw * s.den >= a,
            rh * s.den >= b,
            a >= 0,
            b >= 0,
            s.den >= 1,
    ;
    if target_width * source_height >= target_height * source_width {
        lemma_scaled_side_exact(source_width, target_width);
        assert(rh >= target_height) by (nonlinear_arith)
            requires
                rh * source_width >= b,
                b == source_height * target_width,
                target_width * source_height >= target_height * source_width,
                source_width > 0,
        ;
    } else {
        lemma_scaled_side_exact(source_height, target_height);
        assert(rw >= target_width) by (nonlinear_arith)
            requires
                rw * source_height >= a,
                a == source_width * target_height,
                target_width * source_height < target_height * source_width,
                source_height > 0,
        ;
    }
}

/// The product of two 32-bit numbers, which always fits in 64 bits.
pub(crate) fn product(a: u32, b: u32) -> (p: u64)
    ensures
        p == a * b,
        p <= 0xffff_ffff * 0xffff_ffff,
{
    proof {
        assert(0 <= a * b <= 0xffff_ffff * 0xffff_ffff) by (nonlinear_arith)
            requires
                0 <= a <= 0xffff_ffff,
                0 <= b <= 0xffff_ffff,
        ;
    }
    a as u64 * b as u64
}

/// Rounds `a / b` up.
fn div_round_up(a: u64, b: u32) -> (q: u64)
    requires
        b > 0,
        a <= 0xffff_ffff * 0xffff_ffff,
    ensures
        q == ceil_div(a as int, b as int),
{
    (a + (b as u64 - 1)) / (b as u64)
}

/// Half of what `resized` has more than `target`, rounded down.
fn centre(resized: u64, target: u32) -> (offset: u64)
    ensures
        offset == centre_offset(resized as int, target as int),
{
    if resized > target as u64 {
        (resized - target as u64) / 2
    } else {
        0
    }
}

/// Chooses the scale by which a source of the given size covers the target:
/// the greater of the width ratio and the height ratio.
pub fn choose_scale(
    target_width: u32,
    target_height: u32,
    source_width: u32,
    source_height: u32,
) -> (scale: Scale)
    ensures
        scale == cover_scale(target_width, target_height, source_width, source_height),
{
    let by_width: u64 = product(target_width, source_height);
    let by_height: u64 = product(target_height, source_width);
    if by_width >= by_height {
        Scale { num: target_width, den: source_width }
    } else {
        Scale { num: target_height, den: source_height }
    }
}

/// Plans the fit of a source picture over a target rectangle: the cover
/// scale, the size of the scaled picture (each side rounded up), and the
/// corner of the centred cut.
pub fn plan_fit(
    target_width: u32,
    target_height: u32,
    source_width: u32,
    source_height: u32,
) -> (plan: FitPlan)
    requires
        source_width > 0,
        source_height > 0,
    ensures
        plan == cover_plan(target_width, target_height, source_width, source_height),
        plan.resized_width >= target_width,
        plan.resized_height >= target_height,
        plan.crop_x + target_width <= plan.resized_width,
        plan.crop_y + target_height <= plan.resized_height,
{
    let scale = choose_scale(target_width, target_height, source_width, source_height);
    proof {
        lemma_cover_plan_in_bounds(target_width, target_height, source_width, source_height);
    }
    let resized_width: u64 = div_round_up(product(source_width, scale.num), scale.den);
    let resized_height: u64 = div_round_up(product(source_height, scale.num), scale.den);
    FitPlan {
        target_width,
        target_height,
        scale,
        resized_width,
        resized_height,
        crop_x: centre(resized_width, target_width),
        crop_y: centre(resized_height, target_height),
    }
}

} // verus!
