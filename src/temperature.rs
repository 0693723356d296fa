//! Correlated colour temperature by McCamy's cubic approximation.
use vstd::prelude::*;

use crate::color::Color;
use crate::rgb::{xyz_of_rgb, RGBColor, RGB};
use crate::scalar::{clamp, ratio_in_units, ClampPolicy, NonNegativeScalar, Unsigned, NON_NEGATIVE_CEILING, UNIT};

verus! {

/// A correlated colour temperature in billionths of the approximation's units
/// (kelvin within the visible range the cubic was fitted to).
pub type Temperature = NonNegativeScalar;

/// Chromaticity (x / (x + y + z), y / (x + y + z)) of a canonical colour,
/// truncated to billionths; undefined for black.
pub open spec fn chromaticity(xyz: (int, int, int)) -> (int, int) {
    let (x, y, z) = xyz;
    let s = x + y + z;
    (x * UNIT / s, y * UNIT / s)
}

/// McCamy's cubic `449 n^3 + 3525 n^2 + 6823.3 n + 5520.33` at `n = a / d`,
/// times `100 d^3`.
pub open spec fn mccamy_numerator(a: int, d: int) -> int {
    44900 * (a * a * a) + 352500 * (a * a * d) + 682330 * (a * d * d) + 552033 * (d * d * d)
}

/// The temperature of a canonical colour, in billionths, clamped to the
/// non-negative range; `None` where the approximation is undefined: black
/// (`x + y + z == 0`) and chromaticity y exactly 0.1858.
pub open spec fn temperature_of(xyz: (int, int, int)) -> Option<int> {
    let (x, y, z) = xyz;
    if x + y + z == 0 {
        None
    } else {
        let (xc, yc) = chromaticity(xyz);
        let a = xc - 332_000_000;
        let d = 185_800_000 - yc;
        if d == 0 {
            None
        } else {
            let (n, m) = if d > 0 {
                (mccamy_numerator(a, d), 100 * (d * d * d))
            } else {
                (-mccamy_numerator(a, d), -(100 * (d * d * d)))
            };
            Some(clamp(ratio_in_units(n, m), Unsigned::ceiling()))
        }
    }
}

/// A share of a sum, in truncated billionths, lies in [0, 1].
proof fn lemma_share_in_unit(x: int, s: int)
    requires
        0 <= x <= s,
        0 < s,
    ensures
        0 <= x * UNIT / s <= UNIT,
{
    assert(x * UNIT <= s * UNIT) by (nonlinear_arith)
        requires
            x <= s,
    ;
    vstd::arithmetic::div_mod::lemma_div_is_ordered(x * UNIT, s * UNIT, s);
    vstd::arithmetic::div_mod::lemma_div_multiples_vanish(UNIT as int, s);
    vstd::arithmetic::div_mod::lemma_div_pos_is_pos(x * UNIT, s);
    assert(s * UNIT == UNIT * s) by (nonlinear_arith);
}

/// Sizes of the products in McCamy's cubic for chromaticity offsets within one.
proof fn lemma_cubic_terms(a: int, d: int)
    requires
        -1_000_000_000 <= a <= 1_000_000_000,
        -1_000_000_000 <= d <= 1_000_000_000,
    ensures
        -1_000_000_000_000_000_000 <= a * a <= 1_000_000_000_000_000_000,
        -1_000_000_000_000_000_000 <= a * d <= 1_000_000_000_000_000_000,
        -1_000_000_000_000_000_000 <= d * d <= 1_000_000_000_000_000_000,
        -1_000_000_000_000_000_000_000_000_000 <= a * a * a <= 1_000_000_000_000_000_000_000_000_000,
        -1_000_000_000_000_000_000_000_000_000 <= a * a * d <= 1_000_000_000_000_000_000_000_000_000,
        -1_000_000_000_000_000_000_000_000_000 <= a * d * d <= 1_000_000_000_000_000_000_000_000_000,
        -1_000_000_000_000_000_000_000_000_000 <= d * d * d <= 1_000_000_000_000_000_000_000_000_000,
        d > 0 ==> d * d * d > 0,
        d < 0 ==> d * d * d < 0,
{
    lemma_product_bound(a, a);
    lemma_product_bound(a, d);
    lemma_product_bound(d, d);
    lemma_cube_bound(a * a, a);
    lemma_cube_bound(a * a, d);
    lemma_cube_bound(a * d, d);
    lemma_cube_bound(d * d, d);
    assert(d > 0 ==> d * d * d > 0) by (nonlinear_arith);
    assert(d < 0 ==> d * d * d < 0) by (nonlinear_arith);
}

proof fn lemma_product_bound(a: int, b: int)
    requires
        -1_000_000_000 <= a <= 1_000_000_000,
        -1_000_000_000 <= b <= 1_000_000_000,
    ensures
        -1_000_000_000_000_000_000 <= a * b <= 1_000_000_000_000_000_000,
{
    assert(-1_000_000_000_000_000_000 <= a * b <= 1_000_000_000_000_000_000) by (nonlinear_arith)
        requires
            -1_000_000_000 <= a <= 1_000_000_000,
            -1_000_000_000 <= b <= 1_000_000_000,
    ;
}

proof fn lemma_cube_bound(p: int, b: int)
    requires
        -1_000_000_000_000_000_000 <= p <= 1_000_000_000_000_000_000,
        -1_000_000_000 <= b <= 1_000_000_000,
    ensures
        -1_000_000_000_000_000_000_000_000_000 <= p * b <= 1_000_000_000_000_000_000_000_000_000,
{
    assert(-1_000_000_000_000_000_000_000_000_000 <= p * b <= 1_000_000_000_000_000_000_000_000_000)
        by (nonlinear_arith)
        requires
            -1_000_000_000_000_000_000 <= p <= 1_000_000_000_000_000_000,
            -1_000_000_000 <= b <= 1_000_000_000,
    ;
}

/// Rounding `n / m` to billionths splits over the whole part `q` of `n / m`
/// and its remainder `r`.
proof fn lemma_ratio_split(n: int, m: int, q: int, r: int)
    requires
        0 < m,
        n == m * q + r,
        0 <= r < m,
    ensures
        ratio_in_units(n, m) == q * UNIT + ratio_in_units(r, m),
        0 <= ratio_in_units(r, m) <= UNIT,
{
    let x = 2 * UNIT * r + m;
    let t = x / (2 * m);
    let rem = x % (2 * m);
    vstd::arithmetic::div_mod::lemma_fundamental_div_mod(x, 2 * m);
    vstd::arithmetic::div_mod::lemma_mod_bound(x, 2 * m);
    assert(2 * UNIT * n + m == (q * UNIT + t) * (2 * m) + rem) by (nonlinear_arith)
        requires
            n == m * q + r,
            x == 2 * UNIT * r + m,
            x == (2 * m) * t + rem,
    ;
    vstd::arithmetic::div_mod::lemma_fundamental_div_mod_converse(2 * UNIT * n + m, 2 * m, q * UNIT + t, rem);
    crate::scalar::lemma_ratio_in_unit(r, m);
}

/// A ratio with a numerator at most zero rounds to at most zero.
proof fn lemma_ratio_not_positive(n: int, m: int)
    requires
        n <= 0,
        0 < m,
    ensures
        ratio_in_units(n, m) <= 0,
{
    assert(2 * UNIT * n + m <= m) by (nonlinear_arith)
        requires
            n <= 0,
    ;
    vstd::arithmetic::div_mod::lemma_div_is_ordered(2 * UNIT * n + m, m, 2 * m);
    vstd::arithmetic::div_mod::lemma_basic_div(m, 2 * m);
}

impl Color {
    /// The correlated colour temperature by McCamy's approximation:
    /// `n = (xc - 0.3320) / (0.1858 - yc)`, `449 n^3 + 3525 n^2 + 6823.3 n + 5520.33`.
    /// `None` where the approximation is undefined; negative results are clamped to
    /// zero and results beyond the non-negative range to its end.
    pub fn to_temperature(&self) -> (r: Option<Temperature>)
        ensures
            r.is_none() == temperature_of(self.components()).is_none(),
            r.is_some() ==> r.unwrap()@ == temperature_of(self.components()).unwrap(),
    {
        let x = self.x.get() as u128;
        let y = self.y.get() as u128;
        let z = self.z.get() as u128;
        let s = x + y + z;
        if s == 0 {
            return None;
        }
        proof {
            lemma_share_in_unit(x as int, s as int);
            lemma_share_in_unit(y as int, s as int);
        }
        let xc = (x * UNIT as u128 / s) as i128;
        let yc = (y * UNIT as u128 / s) as i128;
        let a = xc - 332_000_000;
        let d = 185_800_000 - yc;
        if d == 0 {
            return None;
        }
        proof {
            lemma_cubic_terms(a as int, d as int);
        }
        let numerator = 44900 * (a * a * a) + 352500 * (a * a * d) + 682330 * (a * d * d) + 552033 * (d * d * d);
        let denominator = 100 * (d * d * d);
        let (n, m) = if denominator > 0 {
            (numerator, denominator)
        } else {
            (-numerator, -denominator)
        };
        if n <= 0 {
            proof {
                lemma_ratio_not_positive(n as int, m as int);
            }
            return Some(Temperature::new(0));
        }
        let (n, m) = (n as u128, m as u128);
        let q = n / m;
        let r = n % m;
        proof {
            vstd::arithmetic::div_mod::lemma_fundamental_div_mod(n as int, m as int);
            vstd::arithmetic::div_mod::lemma_mod_bound(n as int, m as int);
            lemma_ratio_split(n as int, m as int, q as int, r as int);
        }
        if q >= 10_000_000_000 {
            return Some(Temperature::new(NON_NEGATIVE_CEILING as i64));
        }
        let units = q * UNIT as u128 + (2 * UNIT as u128 * r + m) / (2 * m);
        let bounded = if units > NON_NEGATIVE_CEILING as u128 {
            NON_NEGATIVE_CEILING as i64
        } else {
            units as i64
        };
        Some(Temperature::new(bounded))
    }
}

impl Color {
    /// Placeholder for the inverse of `to_temperature`, which does not exist
    /// yet: whatever the temperature, the result is one fixed warm white,
    /// XYZ (1.009794293, 1, 0.644485733). `to_temperature` of the result is not,
    /// in general, the temperature given.
    pub fn placeholder_from_temperature(t: &Temperature) -> (r: Color)
        ensures
            r.components() == (1_009_794_293int, 1_000_000_000int, 644_485_733int),
    {
        Color::new(1_009_794_293, 1_000_000_000, 644_485_733)
    }
}

impl RGBColor {
    /// Correlated colour temperature of the colour, through its canonical colour.
    pub fn to_temperature(&self) -> (r: Option<Temperature>)
        ensures
            r.is_none() == temperature_of(xyz_of_rgb(self.triple())).is_none(),
            r.is_some() ==> r.unwrap()@ == temperature_of(xyz_of_rgb(self.triple())).unwrap(),
    {
        Color::from_rgb(&RGB::new(self.red, self.green, self.blue)).to_temperature()
    }
}

} // verus!
