//! Page geometry: the page width as the engine reports it, and the pixel
//! width that a page is rasterized at for a given resolution.
use vstd::arithmetic::div_mod::{lemma_div_is_ordered, lemma_fundamental_div_mod, lemma_div_pos_is_pos};
use vstd::arithmetic::power2::{lemma2_to64, lemma2_to64_rest, lemma_pow2_pos, lemma_pow2_strictly_increases, pow2};
use vstd::prelude::*;

verus! {

/// Points per inch: the unit that page geometry is given in.
pub const POINTS_PER_INCH: u32 = 72;

/// A positive, finite length in points, held exactly as
/// `mantissa * 2^exponent` (the value of a single-precision float).
#[derive(Clone, Copy, Debug, PartialEq, Eq, Structural)]
pub struct PagePoints {
    pub mantissa: u32,
    pub exponent: i32,
}

impl PagePoints {
    /// The shapes that a positive finite single-precision float can take.
    pub open spec fn wf(self) -> bool {
        &&& 0 < self.mantissa < 0x1000000
        &&& -149 <= self.exponent <= 104
    }
}

/// The sign bit of a single-precision float.
pub open spec fn sign_field(bits: u32) -> int {
    bits as int / 0x80000000
}

/// The biased exponent field of a single-precision float.
pub open spec fn exponent_field(bits: u32) -> int {
    (bits as int / 0x800000) % 256
}

/// The fraction field of a single-precision float.
pub open spec fn fraction_field(bits: u32) -> int {
    bits as int % 0x800000
}

/// The exact value of the float with these bits, where it is positive and
/// finite (IEEE 754 binary32); `None` for zero, negatives, infinities and NaN.
pub open spec fn points_of_bits(bits: u32) -> Option<PagePoints> {
    if sign_field(bits) != 0 || exponent_field(bits) == 255 || (exponent_field(bits) == 0
        && fraction_field(bits) == 0) {
        None
    } else if exponent_field(bits) == 0 {
        Some(PagePoints { mantissa: fraction_field(bits) as u32, exponent: -149i32 })
    } else {
        Some(
            PagePoints {
                mantissa: (fraction_field(bits) + 0x800000) as u32,
                exponent: (exponent_field(bits) - 150) as i32,
            },
        )
    }
}

/// Reads the page width from the bits of the float the engine reports.
pub fn decode_points(bits: u32) -> (r: Option<PagePoints>)
    ensures
        r == points_of_bits(bits),
        r matches Some(p) ==> p.wf(),
{
    let sign: u32 = bits / 0x80000000;
    let exp: u32 = (bits / 0x800000) % 256;
    let frac: u32 = bits % 0x800000;
    if sign != 0 || exp == 255 || (exp == 0 && frac == 0) {
        None
    } else if exp == 0 {
        Some(PagePoints { mantissa: frac, exponent: -149 })
    } else {
        Some(PagePoints { mantissa: frac + 0x800000, exponent: exp as i32 - 150 })
    }
}

/// `a / b` rounded to the nearest integer, halves upward (for `a >= 0`, `b > 0`).
pub open spec fn round_div(a: int, b: int) -> int {
    (2 * a + b) / (2 * b)
}

/// Numerator of the page width in inches, `width / 72 == width_num / width_den`.
pub open spec fn width_num(p: PagePoints) -> int {
    if p.exponent >= 0 {
        p.mantissa * (pow2(p.exponent as nat) as int)
    } else {
        p.mantissa as int
    }
}

/// Denominator of the page width in inches.
pub open spec fn width_den(p: PagePoints) -> int {
    if p.exponent >= 0 {
        72
    } else {
        72 * (pow2((-p.exponent) as nat) as int)
    }
}

/// The page width in pixels at `dpi` dots per inch: `round(width * dpi / 72)`.
pub open spec fn scaled_width(p: PagePoints, dpi: int) -> int {
    round_div(width_num(p) * dpi, width_den(p))
}

/// The width handed to the rasterizer: the scaled width where it is a
/// positive pixel count that the engine accepts, else `None`.
pub open spec fn target_width_spec(p: PagePoints, dpi: int) -> Option<i32> {
    if 1 <= scaled_width(p, dpi) <= i32::MAX {
        Some(scaled_width(p, dpi) as i32)
    } else {
        None
    }
}


/// `2^k` as an integer.
fn pow2_u128(k: u32) -> (r: u128)
    requires
        k <= 72,
    ensures
        r as int == pow2(k as nat),
{
    let mut r: u128 = 1;
    let mut i: u32 = 0;
    proof {
        lemma2_to64();
        vstd::arithmetic::power2::lemma_pow2_adds(64, 7);
    }
    while i < k
        invariant
            i <= k <= 72,
            r as int == pow2(i as nat),
            pow2(71) == 0x800000000000000000int,
        decreases k - i,
    {
        proof {
            lemma_pow2_mono(i as nat, 71);
            assert(r * 2 <= 0x1000000000000000000int);
            assert(pow2((i + 1) as nat) == 2 * pow2(i as nat)) by {
                vstd::arithmetic::power2::lemma_pow2_unfold((i + 1) as nat);
            }
        }
        r = r * 2;
        i = i + 1;
    }
    r
}

/// `2^a <= 2^b` where `a <= b`.
proof fn lemma_pow2_mono(a: nat, b: nat)
    requires
        a <= b,
    ensures
        pow2(a) <= pow2(b),
{
    if a < b {
        lemma_pow2_strictly_increases(a, b);
    }
}

/// `round_div` with a quotient that `a` and `b` bound.
proof fn lemma_round_div_small(a: int, b: int)
    requires
        0 <= a,
        0 < b,
        2 * a < b,
    ensures
        round_div(a, b) == 0,
{
    vstd::arithmetic::div_mod::lemma_basic_div(2 * a + b, 2 * b);
}

/// The pixel width that the page is rasterized at: the page width scaled from
/// points to `dpi` dots per inch and rounded to the nearest pixel.
pub fn target_width(p: PagePoints, dpi: u32) -> (r: Option<i32>)
    requires
        p.wf(),
    ensures
        r == target_width_spec(p, dpi as int),
{
    let m: u128 = p.mantissa as u128;
    let d: u128 = dpi as u128;
    let q: u128;
    if p.exponent >= 0 {
        let e: u32 = p.exponent as u32;
        if e > 40 {
            proof {
                lemma_pow2_mono(41, e as nat);
                lemma2_to64();
                lemma2_to64_rest();
                let n = width_num(p) * dpi;
                if dpi == 0 {
                    assert(n == 0) by (nonlinear_arith)
                        requires n == width_num(p) * dpi, dpi == 0;
                    lemma_round_div_small(n, 72);
                } else {
                    assert(n >= 0x20000000000) by (nonlinear_arith)
                        requires
                            n == p.mantissa * (pow2(e as nat) as int) * dpi,
                            p.mantissa >= 1,
                            dpi >= 1,
                            pow2(e as nat) >= 0x20000000000int,
                    ;
                    lemma_div_is_ordered(2 * 0x20000000000int + 72, 2 * n + 72, 144);
                }
            }
            return None;
        }
        let pe = pow2_u128(e);
        proof {
            lemma_pow2_strictly_increases(e as nat, 41);
            lemma2_to64();
            lemma2_to64_rest();
            assert(m * pe <= 0x1000000 * 0x20000000000) by (nonlinear_arith)
                requires m < 0x1000000, pe < 0x20000000000;
            assert(m * pe * d <= 0x1000000 * 0x20000000000 * 0x100000000) by (nonlinear_arith)
                requires m * pe <= 0x1000000 * 0x20000000000, d < 0x100000000;
        }
        let n = m * pe * d;
        q = (2 * n + 72) / 144;
        proof {
            assert(width_num(p) * dpi == n);
        }
    } else {
        let k: u32 = (0 - p.exponent) as u32;
        if k > 64 {
            proof {
                lemma_pow2_strictly_increases(64, k as nat);
                lemma2_to64();
                lemma2_to64_rest();
                assert(m * d <= 0x1000000 * 0x100000000) by (nonlinear_arith)
                    requires m < 0x1000000, d < 0x100000000;
                lemma_round_div_small(width_num(p) * dpi, width_den(p));
            }
            return None;
        }
        let pk = pow2_u128(k);
        proof {
            lemma_pow2_mono(k as nat, 64);
            lemma_pow2_pos(k as nat);
            lemma2_to64();
            lemma2_to64_rest();
            assert(m * d <= 0x1000000 * 0x100000000) by (nonlinear_arith)
                requires m < 0x1000000, d < 0x100000000;
        }
        assert(pk <= 0x10000000000000000);
        let den = 72 * pk;
        q = (2 * (m * d) + den) / (2 * den);
        proof {
            assert(width_den(p) == den);
        }
    }
    if q == 0 || q > 0x7fff_ffff {
        None
    } else {
        Some(q as i32)
    }
}


/// Whether a page `h` points high and `w` points wide, rasterized `t` pixels
/// wide, comes out at least one pixel high: `h * t >= w`, both sides scaled
/// by `2^-min(h.exponent, w.exponent)` so that they are integers.
pub open spec fn at_least_one_pixel_high(h: PagePoints, w: PagePoints, t: int) -> bool {
    let e = if h.exponent <= w.exponent {
        h.exponent
    } else {
        w.exponent
    };
    h.mantissa * t * (pow2((h.exponent - e) as nat) as int) >= w.mantissa * (pow2(
        (w.exponent - e) as nat,
    ) as int)
}

/// Whether the page keeps a height of at least one pixel at width `t`.
pub fn one_pixel_high(h: PagePoints, w: PagePoints, t: u32) -> (r: bool)
    requires
        h.wf(),
        w.wf(),
        t <= i32::MAX,
    ensures
        r == at_least_one_pixel_high(h, w, t as int),
{
    let hm: u128 = h.mantissa as u128;
    let wm: u128 = w.mantissa as u128;
    let tt: u128 = t as u128;
    proof {
        lemma2_to64();
        lemma2_to64_rest();
        assert(hm * tt < 0x80000000000000) by (nonlinear_arith)
            requires hm < 0x1000000, tt <= 0x7fffffff;
    }
    if h.exponent >= w.exponent {
        let k: u32 = (h.exponent - w.exponent) as u32;
        proof {
            assert(pow2((w.exponent - w.exponent) as nat) == 1);
            assert(at_least_one_pixel_high(h, w, t as int) == (hm * tt * pow2(k as nat) >= wm * 1));
        }
        if t == 0 {
            proof {
                assert(hm * tt * pow2(k as nat) == 0) by (nonlinear_arith)
                    requires tt == 0;
            }
            return false;
        }
        if k >= 24 {
            proof {
                lemma_pow2_mono(24, k as nat);
                assert(hm * tt * pow2(k as nat) >= pow2(k as nat)) by (nonlinear_arith)
                    requires hm >= 1, tt >= 1;
            }
            return true;
        }
        let p = pow2_u128(k);
        proof {
            lemma_pow2_mono(k as nat, 24);
            assert(hm * tt * p < 0x80000000000000 * 0x1000000) by (nonlinear_arith)
                requires hm * tt < 0x80000000000000, p <= 0x1000000;
        }
        hm * tt * p >= wm
    } else {
        let k: u32 = (w.exponent - h.exponent) as u32;
        proof {
            assert(pow2((h.exponent - h.exponent) as nat) == 1);
            assert(at_least_one_pixel_high(h, w, t as int) == (hm * tt * 1 >= wm * pow2(k as nat)));
        }
        if k >= 56 {
            proof {
                lemma_pow2_mono(56, k as nat);
                assert(wm * pow2(k as nat) >= pow2(k as nat)) by (nonlinear_arith)
                    requires wm >= 1;
            }
            return false;
        }
        let p = pow2_u128(k);
        proof {
            lemma_pow2_mono(k as nat, 56);
            assert(wm * p < 0x1000000 * 0x100000000000000) by (nonlinear_arith)
                requires wm < 0x1000000, p <= 0x100000000000000;
        }
        hm * tt >= wm * p
    }
}

/// A rounded quotient is within half a unit of the exact one:
/// `-b <= 2a - 2b * round_div(a, b) < b`.
proof fn lemma_round_div_bounds(a: int, b: int)
    requires
        0 <= a,
        0 < b,
    ensures
        -b <= 2 * a - 2 * b * round_div(a, b) < b,
        0 <= round_div(a, b),
{
    lemma_fundamental_div_mod(2 * a + b, 2 * b);
    vstd::arithmetic::div_mod::lemma_mod_bound(2 * a + b, 2 * b);
    lemma_div_pos_is_pos(2 * a + b, 2 * b);
}

/// The page width in inches is a positive fraction.
proof fn lemma_width_fraction(p: PagePoints)
    requires
        p.wf(),
    ensures
        width_num(p) > 0,
        width_den(p) > 0,
{
    if p.exponent >= 0 {
        lemma_pow2_pos(p.exponent as nat);
        assert(width_num(p) > 0) by (nonlinear_arith)
            requires width_num(p) == p.mantissa * (pow2(p.exponent as nat) as int), p.mantissa > 0, pow2(p.exponent as nat) > 0;
    } else {
        lemma_pow2_pos((-p.exponent) as nat);
    }
}

/// Raising the resolution never narrows the image, and the width at `d2`
/// is the width at `d1` scaled by `d2 / d1` to within rounding: with
/// `w1`, `w2` the widths at `d1`, `d2`, `|2 * (d1 * w2 - d2 * w1)| <= d1 + d2`.
pub proof fn lemma_dpi_scaling(p: PagePoints, d1: int, d2: int)
    requires
        p.wf(),
        0 < d1 < d2,
    ensures
        scaled_width(p, d1) <= scaled_width(p, d2),
        -(d1 + d2) <= 2 * (d1 * scaled_width(p, d2) - d2 * scaled_width(p, d1)) <= d1 + d2,
{
    let n = width_num(p);
    let den = width_den(p);
    lemma_width_fraction(p);
    let w1 = scaled_width(p, d1);
    let w2 = scaled_width(p, d2);
    assert(n * d1 <= n * d2) by (nonlinear_arith)
        requires n > 0, d1 < d2;
    assert(n * d1 >= 0) by (nonlinear_arith)
        requires n > 0, d1 > 0;
    lemma_round_div_bounds(n * d1, den);
    lemma_round_div_bounds(n * d2, den);
    lemma_div_is_ordered(2 * (n * d1) + den, 2 * (n * d2) + den, 2 * den);
    let e1 = 2 * (n * d1) - 2 * den * w1;
    let e2 = 2 * (n * d2) - 2 * den * w2;
    assert(d1 * e2 == 2 * (n * d1 * d2) - 2 * den * (d1 * w2)) by (nonlinear_arith)
        requires e2 == 2 * (n * d2) - 2 * den * w2;
    assert(d2 * e1 == 2 * (n * d1 * d2) - 2 * den * (d2 * w1)) by (nonlinear_arith)
        requires e1 == 2 * (n * d1) - 2 * den * w1;
    assert(d1 * e2 - d2 * e1 == -2 * den * (d1 * w2 - d2 * w1)) by (nonlinear_arith)
        requires
            d1 * e2 == 2 * (n * d1 * d2) - 2 * den * (d1 * w2),
            d2 * e1 == 2 * (n * d1 * d2) - 2 * den * (d2 * w1),
    ;
    assert(-(d1 + d2) * den <= d1 * e2 - d2 * e1 <= (d1 + d2) * den) by (nonlinear_arith)
        requires -den <= e1 < den, -den <= e2 < den, d1 > 0, d2 > 0;
    let x = 2 * (d1 * w2 - d2 * w1);
    assert(-den * x == d1 * e2 - d2 * e1) by (nonlinear_arith)
        requires x == 2 * (d1 * w2 - d2 * w1), d1 * e2 - d2 * e1 == -2 * den * (d1 * w2 - d2 * w1);
    assert(-(d1 + d2) <= x <= d1 + d2) by (nonlinear_arith)
        requires
            den > 0,
            -(d1 + d2) * den <= -den * x <= (d1 + d2) * den,
    ;
}

} // verus!
