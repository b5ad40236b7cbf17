//! Sizes and scaling, in integers.
//!
//! Font units are turned into pixels by the exact scale of a font: its
//! pixel size times the device pixel ratio, over the face's units per em.
//! The product is rounded once, to the nearest pixel, halves away from zero,
//! and kept within the range of `i32`.
//!
//! A glyph size in app units, sixtieths of a pixel, is what a font instance
//! is registered and looked up with. Nothing is scaled from it.

use vstd::arithmetic::div_mod::{lemma_fundamental_div_mod, lemma_mod_bound};
use vstd::prelude::*;

verus! {

/// App units per pixel.
pub const AU_PER_PX: i32 = 60;

/// A length in app units.
#[derive(Clone, Copy, Debug, PartialEq, Eq, Structural, Hash)]
pub struct Au(pub i32);

/// The ratio of device pixels to logical pixels, as a fraction.
#[derive(Clone, Copy, Debug, PartialEq, Eq, Structural, Hash)]
pub struct PixelRatio {
    numerator: u32,
    denominator: u32,
}

/// `n / d` rounded to the nearest integer, halves away from zero.
pub open spec fn round_div(n: int, d: int) -> int
    recommends
        d > 0,
{
    if n >= 0 {
        (2 * n + d) / (2 * d)
    } else {
        -((2 * (-n) + d) / (2 * d))
    }
}

/// `x` brought into the range of `i32`.
pub open spec fn clamp_i32(x: int) -> int {
    if x < i32::MIN {
        i32::MIN as int
    } else if x > i32::MAX {
        i32::MAX as int
    } else {
        x
    }
}

/// The glyph size, in app units, of a font of `pixel_size` logical pixels
/// shown at `num / den` device pixels per logical pixel.
pub open spec fn glyph_size_of(pixel_size: int, num: int, den: int) -> int
    recommends
        den > 0,
{
    clamp_i32(round_div(pixel_size * AU_PER_PX * num, den))
}

/// `value` font units in pixels, for a font of `pixel_size` logical pixels
/// shown at `num / den` device pixels per logical pixel, and a face of
/// `units_per_em` units per em: `value * pixel_size * num / (den *
/// units_per_em)`, rounded once.
pub open spec fn scaled_of(
    value: int,
    pixel_size: int,
    num: int,
    den: int,
    units_per_em: int,
) -> int
    recommends
        den > 0,
        units_per_em > 0,
{
    clamp_i32(round_div(value * pixel_size * num, den * units_per_em))
}

impl PixelRatio {
    /// The numerator of the fraction.
    pub closed spec fn num(self) -> int {
        self.numerator as int
    }

    /// The denominator of the fraction.
    pub closed spec fn den(self) -> int {
        self.denominator as int
    }

    #[verifier::type_invariant]
    spec fn positive(self) -> bool {
        self.denominator > 0
    }

    /// The ratio `numerator / denominator`; none where the denominator is zero.
    pub fn new(numerator: u32, denominator: u32) -> (r: Option<PixelRatio>)
        ensures
            r is Some <==> denominator > 0,
            r is Some ==> r->0.num() == numerator && r->0.den() == denominator,
    {
        if denominator == 0 {
            None
        } else {
            Some(PixelRatio { numerator, denominator })
        }
    }

    /// The ratio of one device pixel per logical pixel.
    pub fn one() -> (r: PixelRatio)
        ensures
            r.num() == 1,
            r.den() == 1,
    {
        PixelRatio { numerator: 1, denominator: 1 }
    }

    /// The numerator of the fraction.
    pub fn numerator(&self) -> (r: u32)
        ensures
            r == self.num(),
    {
        self.numerator
    }

    /// The denominator of the fraction.
    pub fn denominator(&self) -> (r: u32)
        ensures
            r == self.den(),
            r > 0,
    {
        proof {
            use_type_invariant(self);
        }
        self.denominator
    }
}

/// `n / d`, rounded to the nearest integer and kept within `i32`.
fn div_round(n: i128, d: u64) -> (r: i32)
    requires
        d > 0,
        -0x10_0000_0000_0000_0000_0000_0000 <= n <= 0x10_0000_0000_0000_0000_0000_0000,
    ensures
        r == clamp_i32(round_div(n as int, d as int)),
{
    let negative = n < 0;
    let magnitude: u128 = if negative {
        (-n) as u128
    } else {
        n as u128
    };
    let quotient: u128 = (2 * magnitude + d as u128) / (2 * d as u128);
    if negative {
        if quotient > 0x8000_0000 {
            i32::MIN
        } else {
            (-(quotient as i64)) as i32
        }
    } else {
        if quotient > 0x7FFF_FFFF {
            i32::MAX
        } else {
            quotient as i32
        }
    }
}

/// The product of two bounded integers is bounded by the product of the bounds.
proof fn lemma_product_bound(a: int, b: int, x: int, y: int)
    requires
        -x <= a <= x,
        -y <= b <= y,
    ensures
        -(x * y) <= a * b <= x * y,
{
    assert(-(x * y) <= a * b <= x * y) by (nonlinear_arith)
        requires
            -x <= a <= x,
            -y <= b <= y,
    ;
}

/// The glyph size of a font of `pixel_size` logical pixels on a device of
/// the given pixel ratio.
pub fn glyph_size(pixel_size: i32, ratio: PixelRatio) -> (r: Au)
    ensures
        r.0 == glyph_size_of(pixel_size as int, ratio.num(), ratio.den()),
{
    proof {
        use_type_invariant(&ratio);
    }
    let in_au: i128 = (pixel_size as i128) * 60;
    proof {
        lemma_product_bound(
            in_au as int,
            ratio.numerator as int,
            0x80_0000_0000,
            0x1_0000_0000,
        );
    }
    let n: i128 = in_au * (ratio.numerator as i128);
    Au(div_round(n, ratio.denominator as u64))
}

/// Turns `value` font units into pixels, for a font of `pixel_size` logical
/// pixels on a device of the given pixel ratio and a face of `units_per_em`
/// units per em.
pub fn scaled(value: i32, pixel_size: i32, ratio: PixelRatio, units_per_em: u16) -> (r: i32)
    requires
        units_per_em > 0,
    ensures
        r == scaled_of(
            value as int,
            pixel_size as int,
            ratio.num(),
            ratio.den(),
            units_per_em as int,
        ),
{
    proof {
        use_type_invariant(&ratio);
        lemma_product_bound(value as int, pixel_size as int, 0x8000_0000, 0x8000_0000);
    }
    let in_pixels: i128 = (value as i128) * (pixel_size as i128);
    proof {
        lemma_product_bound(
            in_pixels as int,
            ratio.numerator as int,
            0x4000_0000_0000_0000,
            0x1_0000_0000,
        );
    }
    let n: i128 = in_pixels * (ratio.numerator as i128);
    proof {
        lemma_product_bound(ratio.denominator as int, units_per_em as int, 0x1_0000_0000, 0x1_0000);
        assert(ratio.denominator * units_per_em > 0) by (nonlinear_arith)
            requires
                ratio.denominator > 0,
                units_per_em > 0,
        ;
    }
    let d: u64 = (ratio.denominator as u64) * (units_per_em as u64);
    div_round(n, d)
}

/// Rounding goes to the nearest integer: the rounded quotient is at most
/// half a unit away from the exact one.
pub proof fn lemma_round_div_nearest(n: int, d: int)
    requires
        d > 0,
    ensures
        -d <= 2 * n - 2 * d * round_div(n, d) <= d,
{
    let x = if n >= 0 {
        2 * n + d
    } else {
        2 * (-n) + d
    };
    let q = x / (2 * d);
    let r = x % (2 * d);
    lemma_fundamental_div_mod(x, 2 * d);
    lemma_mod_bound(x, 2 * d);
    assert(x == 2 * d * q + r);
    assert(2 * d * (-q) == -(2 * d * q)) by (nonlinear_arith);
}

/// Rounding treats both signs alike: halves go away from zero.
pub proof fn lemma_round_div_symmetric(n: int, d: int)
    requires
        d > 0,
    ensures
        round_div(-n, d) == -round_div(n, d),
{
    if n == 0 {
        lemma_round_div_nearest(0, d);
        let q = round_div(0, d);
        assert(q == 0) by (nonlinear_arith)
            requires
                -d <= 0 - 2 * d * q <= d,
                d > 0,
        ;
    }
}

/// What is a whole number of pixels stays what it is.
pub proof fn lemma_round_div_exact(k: int, d: int)
    requires
        d > 0,
    ensures
        round_div(k * d, d) == k,
{
    lemma_round_div_nearest(k * d, d);
    let q = round_div(k * d, d);
    assert(2 * (k * d) - 2 * d * q == 2 * d * (k - q)) by (nonlinear_arith);
    assert(k - q == 0) by (nonlinear_arith)
        requires
            -d <= 2 * d * (k - q) <= d,
            d > 0,
    ;
}

/// Rounding keeps the sign: nothing that is not negative is rounded below
/// zero, and nothing that is not positive above it.
pub proof fn lemma_round_div_sign(n: int, d: int)
    requires
        d > 0,
    ensures
        n >= 0 ==> round_div(n, d) >= 0,
        n <= 0 ==> round_div(n, d) <= 0,
{
    lemma_round_div_nearest(n, d);
    let q = round_div(n, d);
    assert(n >= 0 ==> q >= 0) by (nonlinear_arith)
        requires
            -d <= 2 * n - 2 * d * q <= d,
            d > 0,
    ;
    assert(n <= 0 ==> q <= 0) by (nonlinear_arith)
        requires
            -d <= 2 * n - 2 * d * q <= d,
            d > 0,
    ;
}

/// Rounding a sum and summing what was rounded differ by one at most.
pub proof fn lemma_round_div_sum(a: int, b: int, d: int)
    requires
        d > 0,
    ensures
        -1 <= round_div(a + b, d) - (round_div(a, d) + round_div(b, d)) <= 1,
{
    lemma_round_div_nearest(a, d);
    lemma_round_div_nearest(b, d);
    lemma_round_div_nearest(a + b, d);
    let qa = round_div(a, d);
    let qb = round_div(b, d);
    let qs = round_div(a + b, d);
    let k = qs - (qa + qb);
    assert(2 * d * qs - 2 * d * qa - 2 * d * qb == 2 * d * k) by (nonlinear_arith)
        requires
            k == qs - (qa + qb),
    ;
    assert(-1 <= k <= 1) by (nonlinear_arith)
        requires
            -3 * d <= 2 * d * k <= 3 * d,
            d > 0,
    ;
}

/// Rounding does not go beyond the next whole number: what is at most `m`
/// whole units in size is rounded to at most `m`.
pub proof fn lemma_round_div_bound(n: int, d: int, m: int)
    requires
        d > 0,
        m >= 0,
        -(m * d) <= n <= m * d,
    ensures
        -m <= round_div(n, d) <= m,
{
    lemma_round_div_nearest(n, d);
    let q = round_div(n, d);
    assert(-m <= q <= m) by (nonlinear_arith)
        requires
            -d <= 2 * n - 2 * d * q <= d,
            -(m * d) <= n <= m * d,
            d > 0,
            m >= 0,
    ;
}

} // verus!
