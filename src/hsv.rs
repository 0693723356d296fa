//! Hue, saturation and value, and their exchange with 8-bit sRGB and the
//! canonical colour.
use vstd::prelude::*;

use crate::color::Color;
use crate::rgb::{lemma_rgb_round_trip, rgb_of_xyz, xyz_of_rgb, RGBColor, RGB};
use crate::scalar::{
    clamp, lemma_from_own_units, ratio_in_units, ClampPolicy, Normalized,
    UnitScalar, UNIT,
};

verus! {

/// A colour as hue, saturation and value, each a fraction in [0, 1] held in
/// billionths. Hue is a fraction of the colour wheel: 0 is red, 1/3 green,
/// 2/3 blue; 1 denotes the same hue as 0 but is kept as 1.
#[derive(Clone, Copy, Debug)]
pub struct HSV {
    pub hue: UnitScalar,
    pub saturation: UnitScalar,
    pub value: UnitScalar,
}

/// The largest of three channels.
pub open spec fn max3(a: int, b: int, c: int) -> int {
    if a >= b && a >= c {
        a
    } else if b >= c {
        b
    } else {
        c
    }
}

/// The smallest of three channels.
pub open spec fn min3(a: int, b: int, c: int) -> int {
    if a <= b && a <= c {
        a
    } else if b <= c {
        b
    } else {
        c
    }
}

/// Hue of (r, g, b) as a fraction of the wheel times `6 * (max - min)`. The
/// channel that holds the maximum picks the sextant formula, red first, then
/// green, then blue; with red on top, a blue above green wraps below 1.
pub open spec fn hue_sixths(r: int, g: int, b: int) -> int {
    let top = max3(r, g, b);
    let diff = top - min3(r, g, b);
    if r == top {
        if g >= b {
            g - b
        } else {
            6 * diff - (b - g)
        }
    } else if g == top {
        2 * diff + (b - r)
    } else {
        4 * diff + (r - g)
    }
}

/// Hue, saturation and value of an 8-bit triple, in billionths. A grey
/// (all channels equal) has hue 0 and saturation 0.
pub open spec fn hsv_of_rgb(c: RGB) -> (int, int, int) {
    let (r, g, b) = (c.red as int, c.green as int, c.blue as int);
    let top = max3(r, g, b);
    let diff = top - min3(r, g, b);
    (
        if diff == 0 { 0 } else { ratio_in_units(hue_sixths(r, g, b), 6 * diff) },
        if top == 0 { 0 } else { ratio_in_units(diff, top) },
        ratio_in_units(top, 255),
    )
}

/// Units of the channels of `channels_of_hsv`: 10^-27 of an 8-bit level, the
/// precision at which the product of three billionths is exact.
pub const CHANNEL_UNIT: i128 = 1_000_000_000_000_000_000_000_000_000;

/// Exact channels, in `CHANNEL_UNIT`s, of hue `h`, saturation `s` and value `v`
/// (billionths). The top channel is `255 v`, the bottom one `255 v (1 - s)`, and
/// the third one moves between them with the hue. Bands: [0, 1/6) red on top
/// with green rising; [1/6, 1/2) green on top; [1/2, 5/6) blue on top;
/// [5/6, 1] red on top with blue falling.
pub open spec fn channels_of_hsv(h: int, s: int, v: int) -> (int, int, int) {
    let step = s * v * 255;
    let top = v * 255 * 1_000_000_000_000_000_000;
    let bottom = top - step * UNIT;
    if 6 * h < UNIT {
        (top, bottom + 6 * h * step, bottom)
    } else if 2 * h < UNIT {
        let rise = (6 * h - 2 * UNIT) * step;
        if rise >= 0 {
            (bottom, top, bottom + rise)
        } else {
            (bottom - rise, top, bottom)
        }
    } else if 6 * h < 5 * UNIT {
        let rise = (6 * h - 4 * UNIT) * step;
        if rise >= 0 {
            (bottom + rise, bottom, top)
        } else {
            (bottom, bottom - rise, top)
        }
    } else {
        (top, bottom, bottom - (6 * h - 6 * UNIT) * step)
    }
}

/// A channel in `CHANNEL_UNIT`s rounded to the nearest 8-bit level.
pub open spec fn round_channel(c: int) -> int {
    (c + CHANNEL_UNIT / 2) / (CHANNEL_UNIT as int)
}

/// The 8-bit triple of hue `h`, saturation `s` and value `v` (billionths).
pub open spec fn rgb_of_hsv(h: int, s: int, v: int) -> RGB {
    let (r, g, b) = channels_of_hsv(h, s, v);
    RGB {
        red: round_channel(r) as u8,
        green: round_channel(g) as u8,
        blue: round_channel(b) as u8,
    }
}

proof fn lemma_scaled_step(q: int, step: int)
    requires
        0 <= q <= UNIT,
        0 <= step,
    ensures
        0 <= q * step <= UNIT * step,
{
    assert(0 <= q * step <= UNIT * step) by (nonlinear_arith)
        requires
            0 <= q <= UNIT,
            0 <= step,
    ;
}

/// Every channel lies between the bottom and the top channel, within [0, 255].
proof fn lemma_channels_in_range(h: int, s: int, v: int)
    requires
        0 <= h <= UNIT,
        0 <= s <= UNIT,
        0 <= v <= UNIT,
    ensures
        ({
            let (r, g, b) = channels_of_hsv(h, s, v);
            &&& 0 <= r <= 255 * CHANNEL_UNIT
            &&& 0 <= g <= 255 * CHANNEL_UNIT
            &&& 0 <= b <= 255 * CHANNEL_UNIT
        }),
{
    let step = s * v * 255;
    assert(0 <= step * UNIT <= v * 255 * 1_000_000_000_000_000_000) by (nonlinear_arith)
        requires
            0 <= s <= UNIT,
            0 <= v,
            step == s * v * 255,
    ;
    if 6 * h < UNIT {
        lemma_scaled_step(6 * h, step);
    } else if 2 * h < UNIT {
        if 6 * h >= 2 * UNIT {
            lemma_scaled_step(6 * h - 2 * UNIT, step);
        } else {
            lemma_scaled_step(2 * UNIT - 6 * h, step);
            assert((2 * UNIT - 6 * h) * step == -((6 * h - 2 * UNIT) * step)) by (nonlinear_arith);
        }
    } else if 6 * h < 5 * UNIT {
        if 6 * h >= 4 * UNIT {
            lemma_scaled_step(6 * h - 4 * UNIT, step);
        } else {
            lemma_scaled_step(4 * UNIT - 6 * h, step);
            assert((4 * UNIT - 6 * h) * step == -((6 * h - 4 * UNIT) * step)) by (nonlinear_arith);
        }
    } else {
        lemma_scaled_step(6 * UNIT - 6 * h, step);
        assert((6 * UNIT - 6 * h) * step == -((6 * h - 6 * UNIT) * step)) by (nonlinear_arith);
    }
}

/// The largest channel of an 8-bit triple.
fn max_channel(c: &RGB) -> (r: u8)
    ensures
        r == max3(c.red as int, c.green as int, c.blue as int),
{
    let top = if c.red >= c.green { c.red } else { c.green };
    if top >= c.blue { top } else { c.blue }
}

/// The smallest channel of an 8-bit triple.
fn min_channel(c: &RGB) -> (r: u8)
    ensures
        r == min3(c.red as int, c.green as int, c.blue as int),
{
    let bottom = if c.red <= c.green { c.red } else { c.green };
    if bottom <= c.blue { bottom } else { c.blue }
}

/// `n / d` in billionths, rounded, for a ratio within [0, 1].
fn ratio(n: u64, d: u64) -> (r: i64)
    requires
        0 < d <= 2000,
        n <= d,
    ensures
        r == ratio_in_units(n as int, d as int),
        0 <= r <= UNIT,
{
    proof {
        crate::scalar::lemma_ratio_in_unit(n as int, d as int);
        assert(2 * UNIT * n <= 2 * UNIT * 2000) by (nonlinear_arith)
            requires
                n <= 2000,
        ;
    }
    ((2 * UNIT * n + d) / (2 * d)) as i64
}

impl HSV {
    /// Hue, saturation and value, in billionths.
    pub open spec fn components(&self) -> (int, int, int) {
        (self.hue@, self.saturation@, self.value@)
    }

    /// The HSV colour with components `hsv` (for components within [0, 1]).
    pub open spec fn with_components(hsv: (int, int, int)) -> HSV {
        HSV {
            hue: UnitScalar::from_units(hsv.0),
            saturation: UnitScalar::from_units(hsv.1),
            value: UnitScalar::from_units(hsv.2),
        }
    }

    /// An HSV colour is the one `with_components` names for its own components.
    pub proof fn lemma_with_components(c: HSV)
        ensures
            HSV::with_components(c.components()) == c,
    {
        lemma_from_own_units(c.hue);
        lemma_from_own_units(c.saturation);
        lemma_from_own_units(c.value);
    }

    /// An HSV colour from raw billionths; each is clamped to [0, 1].
    pub fn new(hue: i64, saturation: i64, value: i64) -> (r: HSV)
        ensures
            r.components() == (
                clamp(hue as int, Normalized::ceiling()),
                clamp(saturation as int, Normalized::ceiling()),
                clamp(value as int, Normalized::ceiling()),
            ),
    {
        HSV {
            hue: UnitScalar::new(hue),
            saturation: UnitScalar::new(saturation),
            value: UnitScalar::new(value),
        }
    }
}

impl HSV {
    /// Hue, saturation and value of an 8-bit triple: hue by the sextant of the
    /// largest channel, saturation `(max - min) / max`, value `max / 255`.
    pub fn from_rgb(c: &RGB) -> (r: HSV)
        ensures
            r.components() == hsv_of_rgb(*c),
    {
        let top = max_channel(c) as u64;
        let diff = top - min_channel(c) as u64;
        let (red, green, blue) = (c.red as u64, c.green as u64, c.blue as u64);
        let hue = if diff == 0 {
            0
        } else {
            let sixths = if red == top {
                if green >= blue {
                    green - blue
                } else {
                    6 * diff - (blue - green)
                }
            } else if green == top {
                2 * diff + blue - red
            } else {
                4 * diff + red - green
            };
            ratio(sixths, 6 * diff)
        };
        let saturation = if top == 0 {
            0
        } else {
            ratio(diff, top)
        };
        HSV {
            hue: UnitScalar::new(hue),
            saturation: UnitScalar::new(saturation),
            value: UnitScalar::new(ratio(top, 255)),
        }
    }

    /// Hue, saturation and value of a canonical colour, through its 8-bit triple.
    pub fn from_color(c: &Color) -> (r: HSV)
        ensures
            r.components() == hsv_of_rgb(rgb_of_xyz(c.components())),
    {
        HSV::from_rgb(&RGB::from_color(c))
    }
}

proof fn lemma_step_product(q: int, step: int)
    requires
        -6 * UNIT <= q <= 6 * UNIT,
        0 <= step <= 255 * UNIT * UNIT,
    ensures
        -6 * UNIT * (255 * UNIT * UNIT) <= q * step <= 6 * UNIT * (255 * UNIT * UNIT),
{
    assert(-6 * UNIT * (255 * UNIT * UNIT) <= q * step <= 6 * UNIT * (255 * UNIT * UNIT))
        by (nonlinear_arith)
        requires
            -6 * UNIT <= q <= 6 * UNIT,
            0 <= step <= 255 * UNIT * UNIT,
    ;
}

/// Bounds on the products that `RGB::from_hsv` forms.
proof fn lemma_product_bounds(h: int, s: int, v: int)
    requires
        0 <= h <= UNIT,
        0 <= s <= UNIT,
        0 <= v <= UNIT,
    ensures
        0 <= s * v <= UNIT * UNIT,
        -6 * UNIT * (255 * UNIT * UNIT) <= (6 * h - 6 * UNIT) * (s * v * 255) <= 6 * UNIT * (255 * UNIT * UNIT),
        -6 * UNIT * (255 * UNIT * UNIT) <= (6 * h - 4 * UNIT) * (s * v * 255) <= 6 * UNIT * (255 * UNIT * UNIT),
        -6 * UNIT * (255 * UNIT * UNIT) <= (6 * h - 2 * UNIT) * (s * v * 255) <= 6 * UNIT * (255 * UNIT * UNIT),
        0 <= 6 * h * (s * v * 255) <= 6 * UNIT * (255 * UNIT * UNIT),
{
    assert(0 <= s * v <= UNIT * UNIT) by (nonlinear_arith)
        requires
            0 <= s <= UNIT,
            0 <= v <= UNIT,
    ;
    let step = s * v * 255;
    lemma_step_product(6 * h - 6 * UNIT, step);
    lemma_step_product(6 * h - 4 * UNIT, step);
    lemma_step_product(6 * h - 2 * UNIT, step);
    lemma_step_product(6 * h, step);
    assert(6 * h * step == (6 * h) * step);
}

impl RGB {
    /// The 8-bit triple of an HSV colour, by the four hue bands of
    /// `channels_of_hsv`, each channel rounded to the nearest level.
    pub fn from_hsv(c: &HSV) -> (r: RGB)
        ensures
            r == rgb_of_hsv(c.hue@, c.saturation@, c.value@),
    {
        let h = c.hue.get() as i128;
        let s = c.saturation.get() as i128;
        let v = c.value.get() as i128;
        proof {
            lemma_product_bounds(h as int, s as int, v as int);
            lemma_channels_in_range(h as int, s as int, v as int);
        }
        let unit = UNIT as i128;
        let step = s * v * 255;
        let top = v * 255 * 1_000_000_000_000_000_000;
        let bottom = top - step * unit;
        let (red, green, blue) = if 6 * h < unit {
            (top, bottom + 6 * h * step, bottom)
        } else if 2 * h < unit {
            let rise = (6 * h - 2 * unit) * step;
            if rise >= 0 {
                (bottom, top, bottom + rise)
            } else {
                (bottom - rise, top, bottom)
            }
        } else if 6 * h < 5 * unit {
            let rise = (6 * h - 4 * unit) * step;
            if rise >= 0 {
                (bottom + rise, bottom, top)
            } else {
                (bottom, bottom - rise, top)
            }
        } else {
            (top, bottom, bottom - (6 * h - 6 * unit) * step)
        };
        let half = CHANNEL_UNIT / 2;
        RGB {
            red: ((red + half) / CHANNEL_UNIT) as u8,
            green: ((green + half) / CHANNEL_UNIT) as u8,
            blue: ((blue + half) / CHANNEL_UNIT) as u8,
        }
    }
}

impl Color {
    /// The canonical colour of an HSV colour, through its 8-bit triple.
    pub fn from_hsv(c: &HSV) -> (r: Color)
        ensures
            r.components() == xyz_of_rgb(rgb_of_hsv(c.hue@, c.saturation@, c.value@)),
    {
        Color::from_rgb(&RGB::from_hsv(c))
    }
}

impl RGBColor {
    /// Hue, saturation and value of the colour; always present.
    pub fn to_hsv(&self) -> (r: Option<HSV>)
        ensures
            r.is_some(),
            r.unwrap().components() == hsv_of_rgb(self.triple()),
    {
        Some(HSV::from_rgb(&RGB::new(self.red, self.green, self.blue)))
    }
}

impl From<RGB> for HSV {
    /// Hue, saturation and value of an 8-bit triple (`HSV::from_rgb`).
    fn from(c: RGB) -> (r: HSV) {
        let r = HSV::from_rgb(&c);
        proof {
            HSV::lemma_with_components(r);
        }
        r
    }
}

impl vstd::std_specs::convert::FromSpecImpl<RGB> for HSV {
    open spec fn obeys_from_spec() -> bool {
        true
    }

    open spec fn from_spec(c: RGB) -> HSV {
        HSV::with_components(hsv_of_rgb(c))
    }
}

impl From<HSV> for RGB {
    /// The 8-bit triple of an HSV colour (`RGB::from_hsv`).
    fn from(c: HSV) -> (r: RGB) {
        RGB::from_hsv(&c)
    }
}

impl vstd::std_specs::convert::FromSpecImpl<HSV> for RGB {
    open spec fn obeys_from_spec() -> bool {
        true
    }

    open spec fn from_spec(c: HSV) -> RGB {
        rgb_of_hsv(c.hue@, c.saturation@, c.value@)
    }
}

impl From<Color> for HSV {
    /// Hue, saturation and value of a canonical colour (`HSV::from_color`).
    fn from(c: Color) -> (r: HSV) {
        let r = HSV::from_color(&c);
        proof {
            HSV::lemma_with_components(r);
        }
        r
    }
}

impl vstd::std_specs::convert::FromSpecImpl<Color> for HSV {
    open spec fn obeys_from_spec() -> bool {
        true
    }

    open spec fn from_spec(c: Color) -> HSV {
        HSV::with_components(hsv_of_rgb(rgb_of_xyz(c.components())))
    }
}

impl From<HSV> for Color {
    /// The canonical colour of an HSV colour (`Color::from_hsv`).
    fn from(c: HSV) -> (r: Color) {
        let r = Color::from_hsv(&c);
        proof {
            Color::lemma_with_components(r);
        }
        r
    }
}

impl vstd::std_specs::convert::FromSpecImpl<HSV> for Color {
    open spec fn obeys_from_spec() -> bool {
        true
    }

    open spec fn from_spec(c: HSV) -> Color {
        Color::with_components(xyz_of_rgb(rgb_of_hsv(c.hue@, c.saturation@, c.value@)))
    }
}

/// A grey (all three channels equal, from 0 to 255) has hue 0 and saturation 0.
pub proof fn lemma_grey_is_achromatic(c: RGB)
    requires
        c.red == c.green,
        c.green == c.blue,
    ensures
        hsv_of_rgb(c).0 == 0,
        hsv_of_rgb(c).1 == 0,
{
    let top = c.red as int;
    if top > 0 {
        vstd::arithmetic::div_mod::lemma_basic_div(top, 2 * top);
    }
}

/// Going from HSV to the canonical colour and back loses nothing beyond what
/// going through the 8-bit triple loses: the XYZ leg adds no error.
pub proof fn lemma_hsv_round_trip_is_rgb_round_trip(h: int, s: int, v: int)
    ensures
        hsv_of_rgb(rgb_of_xyz(xyz_of_rgb(rgb_of_hsv(h, s, v)))) == hsv_of_rgb(rgb_of_hsv(h, s, v)),
{
    lemma_rgb_round_trip(rgb_of_hsv(h, s, v));
}

} // verus!
