//! The canonical colour: CIE 1931 XYZ tristimulus values under the D65 white.
use vstd::prelude::*;

use crate::scalar::{clamp, lemma_from_own_units, lemma_from_units, ClampPolicy, NonNegativeScalar, Unsigned};

verus! {

/// A colour as its XYZ tristimulus values, in billionths. Each component is
/// non-negative; values above one stand for overexposed or out-of-gamut light.
#[derive(Clone, Copy, Debug)]
pub struct Color {
    pub x: NonNegativeScalar,
    pub y: NonNegativeScalar,
    pub z: NonNegativeScalar,
}

impl Color {
    /// The three components, in billionths.
    pub open spec fn components(&self) -> (int, int, int) {
        (self.x@, self.y@, self.z@)
    }

    /// The colour with components `xyz` (for components within the non-negative range).
    pub open spec fn with_components(xyz: (int, int, int)) -> Color {
        Color {
            x: NonNegativeScalar::from_units(xyz.0),
            y: NonNegativeScalar::from_units(xyz.1),
            z: NonNegativeScalar::from_units(xyz.2),
        }
    }

    /// A colour is the one `with_components` names for its own components.
    pub proof fn lemma_with_components(c: Color)
        ensures
            Color::with_components(c.components()) == c,
    {
        lemma_from_own_units(c.x);
        lemma_from_own_units(c.y);
        lemma_from_own_units(c.z);
    }

    /// `with_components` has the components it is given, when they are in range.
    pub proof fn lemma_components_of(xyz: (int, int, int))
        requires
            0 <= xyz.0 <= Unsigned::ceiling(),
            0 <= xyz.1 <= Unsigned::ceiling(),
            0 <= xyz.2 <= Unsigned::ceiling(),
        ensures
            Color::with_components(xyz).components() == xyz,
    {
        lemma_from_units::<Unsigned>(xyz.0);
        lemma_from_units::<Unsigned>(xyz.1);
        lemma_from_units::<Unsigned>(xyz.2);
    }

    /// A colour from raw components in billionths; negative ones become zero.
    pub fn new(x: i64, y: i64, z: i64) -> (r: Color)
        ensures
            r.components() == (
                clamp(x as int, Unsigned::ceiling()),
                clamp(y as int, Unsigned::ceiling()),
                clamp(z as int, Unsigned::ceiling()),
            ),
    {
        Color {
            x: NonNegativeScalar::new(x),
            y: NonNegativeScalar::new(y),
            z: NonNegativeScalar::new(z),
        }
    }
}

} // verus!
