//! 8-bit gamma-encoded sRGB and its exchange with the canonical colour.
use vstd::prelude::*;

use crate::color::Color;
use crate::scalar::NonNegativeScalar;
use crate::transfer::{
    is_level_of, lemma_level_unique, lemma_linear_in_unit, lemma_samples_spaced, level_of, linear,
    linear_of, SUB_STEPS,
};

verus! {

/// A display-ready colour: three gamma-encoded sRGB channels.
#[derive(Clone, Copy, Debug, PartialEq, Eq, Structural)]
pub struct RGB {
    pub red: u8,
    pub green: u8,
    pub blue: u8,
}

/// An 8-bit gamma-encoded sRGB colour as handed to and from devices; it
/// offers the other representations on demand.
#[derive(Clone, Copy, Debug, PartialEq, Eq, Structural)]
pub struct RGBColor {
    pub red: u8,
    pub green: u8,
    pub blue: u8,
}

/// Row X of the sRGB-to-XYZ (D65) matrix, entries in ten-millionths, applied to
/// linear light (r, g, b): billionths in, billionths times `SUB_STEPS` out.
pub open spec fn x_of_linear(r: int, g: int, b: int) -> int {
    4124564 * r + 3575761 * g + 1804375 * b
}

/// Y of linear sRGB light, in the units of `x_of_linear`.
pub open spec fn y_of_linear(r: int, g: int, b: int) -> int {
    2126729 * r + 7151522 * g + 721750 * b
}

/// Z of linear sRGB light, in the units of `x_of_linear`.
pub open spec fn z_of_linear(r: int, g: int, b: int) -> int {
    193339 * r + 1191920 * g + 9503041 * b
}

/// Row red of the XYZ-to-sRGB matrix, entries in ten-millionths, applied to
/// XYZ (x, y, z): billionths in, billionths times `SUB_STEPS` out.
pub open spec fn red_of_xyz(x: int, y: int, z: int) -> int {
    32404542 * x - 15371385 * y - 4985314 * z
}

/// Linear green of XYZ, in the units of `red_of_xyz`.
pub open spec fn green_of_xyz(x: int, y: int, z: int) -> int {
    18760108 * y + 415560 * z - 9692660 * x
}

/// Linear blue of XYZ, in the units of `red_of_xyz`.
pub open spec fn blue_of_xyz(x: int, y: int, z: int) -> int {
    556434 * x - 2040259 * y + 10572252 * z
}

/// `v`, in billionths times `SUB_STEPS`, rounded to the nearest billionth.
pub open spec fn round_sub_steps(v: int) -> int {
    (v + SUB_STEPS / 2) / (SUB_STEPS as int)
}

/// The canonical colour of an 8-bit triple, in billionths.
pub open spec fn xyz_of_rgb(c: RGB) -> (int, int, int) {
    let (r, g, b) = (linear_of(c.red), linear_of(c.green), linear_of(c.blue));
    (
        round_sub_steps(x_of_linear(r, g, b)),
        round_sub_steps(y_of_linear(r, g, b)),
        round_sub_steps(z_of_linear(r, g, b)),
    )
}

/// `c` is the 8-bit triple of the canonical colour with components `xyz`:
/// each channel is the level of its linear light, clamped to the gamut.
pub open spec fn is_rgb_of(xyz: (int, int, int), c: RGB) -> bool {
    let (x, y, z) = xyz;
    &&& is_level_of(red_of_xyz(x, y, z), c.red as int)
    &&& is_level_of(green_of_xyz(x, y, z), c.green as int)
    &&& is_level_of(blue_of_xyz(x, y, z), c.blue as int)
}

/// `v` rounded to the nearest billionth, written as the exact identity that
/// the rounding obeys.
proof fn lemma_round_sub_steps(v: int)
    requires
        v >= 0,
    ensures
        0 <= v + SUB_STEPS / 2 - round_sub_steps(v) * SUB_STEPS < SUB_STEPS,
{
    let d = SUB_STEPS as int;
    vstd::arithmetic::div_mod::lemma_fundamental_div_mod(v + d / 2, d);
    vstd::arithmetic::div_mod::lemma_mod_bound(v + d / 2, d);
}

/// Sending linear light through the forward matrix, rounding to billionths and
/// back through the inverse matrix lands each channel within `3 * 10^9` of where
/// it started (in billionths times `SUB_STEPS`).
proof fn lemma_matrices_nearly_invert(r: int, g: int, b: int)
    requires
        0 <= r <= 1_000_000_000,
        0 <= g <= 1_000_000_000,
        0 <= b <= 1_000_000_000,
    ensures
        ({
            let x = round_sub_steps(x_of_linear(r, g, b));
            let y = round_sub_steps(y_of_linear(r, g, b));
            let z = round_sub_steps(z_of_linear(r, g, b));
            &&& -3_000_000_000 <= red_of_xyz(x, y, z) - r * SUB_STEPS <= 3_000_000_000
            &&& -3_000_000_000 <= green_of_xyz(x, y, z) - g * SUB_STEPS <= 3_000_000_000
            &&& -3_000_000_000 <= blue_of_xyz(x, y, z) - b * SUB_STEPS <= 3_000_000_000
        }),
{
    lemma_round_sub_steps(x_of_linear(r, g, b));
    lemma_round_sub_steps(y_of_linear(r, g, b));
    lemma_round_sub_steps(z_of_linear(r, g, b));
}

/// The level of linear light that lies within `3 * 10^9` of level `level`'s own
/// linear light (in billionths times `SUB_STEPS`) is `level`.
proof fn lemma_level_recovered(level: u8, lin: int)
    requires
        -3_000_000_000 <= lin - linear_of(level) * SUB_STEPS <= 3_000_000_000,
    ensures
        is_level_of(lin, level as int),
{
    if level > 0 {
        lemma_samples_spaced((2 * level - 1) as u16);
    }
    if level < 255 {
        lemma_samples_spaced((2 * level) as u16);
    }
}

/// The components of the canonical colour of an 8-bit triple lie in
/// [0, 1.1]: the rows of the forward matrix sum to at most 1.0889.
pub proof fn lemma_xyz_of_rgb_in_range(c: RGB)
    ensures
        0 <= xyz_of_rgb(c).0 <= 1_100_000_000,
        0 <= xyz_of_rgb(c).1 <= 1_100_000_000,
        0 <= xyz_of_rgb(c).2 <= 1_100_000_000,
{
    lemma_linear_in_unit(c.red);
    lemma_linear_in_unit(c.green);
    lemma_linear_in_unit(c.blue);
    let (r, g, b) = (linear_of(c.red), linear_of(c.green), linear_of(c.blue));
    lemma_round_sub_steps(x_of_linear(r, g, b));
    lemma_round_sub_steps(y_of_linear(r, g, b));
    lemma_round_sub_steps(z_of_linear(r, g, b));
}

/// Converting an 8-bit triple to its canonical colour and back gives the same
/// triple: rounding happens once in each direction and never crosses a level.
/// The second clause is the same law for the `From` conversions, whose
/// canonical colour is `Color::with_components(xyz_of_rgb(c))`.
pub proof fn lemma_rgb_round_trip(c: RGB)
    ensures
        rgb_of_xyz(xyz_of_rgb(c)) == c,
        rgb_of_xyz(Color::with_components(xyz_of_rgb(c)).components()) == c,
{
    lemma_xyz_of_rgb_in_range(c);
    Color::lemma_components_of(xyz_of_rgb(c));
    let (r, g, b) = (linear_of(c.red), linear_of(c.green), linear_of(c.blue));
    lemma_linear_in_unit(c.red);
    lemma_linear_in_unit(c.green);
    lemma_linear_in_unit(c.blue);
    lemma_matrices_nearly_invert(r, g, b);
    let (x, y, z) = xyz_of_rgb(c);
    lemma_level_recovered(c.red, red_of_xyz(x, y, z));
    lemma_level_recovered(c.green, green_of_xyz(x, y, z));
    lemma_level_recovered(c.blue, blue_of_xyz(x, y, z));
    lemma_rgb_of_xyz(xyz_of_rgb(c), c);
}

/// The 8-bit triple of the canonical colour with components `xyz` (there is
/// exactly one: see `lemma_rgb_of_unique`).
pub open spec fn rgb_of_xyz(xyz: (int, int, int)) -> RGB {
    choose|c: RGB| is_rgb_of(xyz, c)
}

/// A canonical colour has one 8-bit triple.
pub proof fn lemma_rgb_of_unique(xyz: (int, int, int), a: RGB, b: RGB)
    requires
        is_rgb_of(xyz, a),
        is_rgb_of(xyz, b),
    ensures
        a == b,
{
    let (x, y, z) = xyz;
    lemma_level_unique(red_of_xyz(x, y, z), a.red as int, b.red as int);
    lemma_level_unique(green_of_xyz(x, y, z), a.green as int, b.green as int);
    lemma_level_unique(blue_of_xyz(x, y, z), a.blue as int, b.blue as int);
}

/// A triple that meets `is_rgb_of` is the one `rgb_of_xyz` names.
pub proof fn lemma_rgb_of_xyz(xyz: (int, int, int), c: RGB)
    requires
        is_rgb_of(xyz, c),
    ensures
        rgb_of_xyz(xyz) == c,
{
    lemma_rgb_of_unique(xyz, rgb_of_xyz(xyz), c);
}

impl RGB {
    pub fn new(red: u8, green: u8, blue: u8) -> (r: RGB)
        ensures
            r == (RGB { red, green, blue }),
    {
        RGB { red, green, blue }
    }

    /// The 8-bit triple of a canonical colour. Components that drive a channel
    /// out of the gamut are clamped to 0 or 255; no error is raised.
    pub fn from_color(c: &Color) -> (r: RGB)
        ensures
            is_rgb_of(c.components(), r),
            r == rgb_of_xyz(c.components()),
    {
        let x = c.x.get() as i128;
        let y = c.y.get() as i128;
        let z = c.z.get() as i128;
        let red = 32404542 * x - 15371385 * y - 4985314 * z;
        let green = 18760108 * y + 415560 * z - 9692660 * x;
        let blue = 556434 * x - 2040259 * y + 10572252 * z;
        let r = RGB { red: level_of(red), green: level_of(green), blue: level_of(blue) };
        proof {
            lemma_rgb_of_xyz(c.components(), r);
        }
        r
    }
}

impl Color {
    /// The canonical colour of an 8-bit triple: each channel is linearised
    /// with the sRGB decoding curve, then the sRGB-to-XYZ matrix is applied.
    pub fn from_rgb(c: &RGB) -> (r: Color)
        ensures
            r.components() == xyz_of_rgb(*c),
    {
        let red = linear(c.red) as i64;
        let green = linear(c.green) as i64;
        let blue = linear(c.blue) as i64;
        let half = (SUB_STEPS / 2) as i64;
        let steps = SUB_STEPS as i64;
        let x = (4124564 * red + 3575761 * green + 1804375 * blue + half) / steps;
        let y = (2126729 * red + 7151522 * green + 721750 * blue + half) / steps;
        let z = (193339 * red + 1191920 * green + 9503041 * blue + half) / steps;
        Color { x: NonNegativeScalar::new(x), y: NonNegativeScalar::new(y), z: NonNegativeScalar::new(z) }
    }
}

impl RGBColor {
    pub fn new(red: u8, green: u8, blue: u8) -> (r: RGBColor)
        ensures
            r == (RGBColor { red, green, blue }),
    {
        RGBColor { red, green, blue }
    }

    /// The same three channels as a plain triple.
    pub open spec fn triple(&self) -> RGB {
        RGB { red: self.red, green: self.green, blue: self.blue }
    }

    /// The plain triple; always present.
    pub fn to_rgb(&self) -> (r: Option<RGB>)
        ensures
            r == Some(self.triple()),
    {
        Some(RGB { red: self.red, green: self.green, blue: self.blue })
    }
}

impl From<RGB> for Color {
    /// The canonical colour of an 8-bit triple (`Color::from_rgb`).
    fn from(c: RGB) -> (r: Color) {
        let r = Color::from_rgb(&c);
        proof {
            Color::lemma_with_components(r);
        }
        r
    }
}

impl vstd::std_specs::convert::FromSpecImpl<RGB> for Color {
    open spec fn obeys_from_spec() -> bool {
        true
    }

    open spec fn from_spec(c: RGB) -> Color {
        Color::with_components(xyz_of_rgb(c))
    }
}

impl From<Color> for RGB {
    /// The 8-bit triple of a canonical colour (`RGB::from_color`).
    fn from(c: Color) -> (r: RGB) {
        RGB::from_color(&c)
    }
}

impl vstd::std_specs::convert::FromSpecImpl<Color> for RGB {
    open spec fn obeys_from_spec() -> bool {
        true
    }

    open spec fn from_spec(c: Color) -> RGB {
        rgb_of_xyz(c.components())
    }
}

} // verus!
