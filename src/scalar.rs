//! Fixed-point scalars whose value is kept inside the range of a clamping policy.
use core::marker::PhantomData;
use vstd::prelude::*;

verus! {

/// Number of fixed-point steps in one whole unit: every scalar is held in billionths.
pub const UNIT: u64 = 1_000_000_000;

/// Largest value a non-negative scalar can hold (the largest `i64`).
pub const NON_NEGATIVE_CEILING: u64 = 0x7fff_ffff_ffff_ffff;

/// `raw` forced into the closed range `[0, ceiling]`.
pub open spec fn clamp(raw: int, ceiling: int) -> int {
    if raw < 0 {
        0
    } else if raw > ceiling {
        ceiling
    } else {
        raw
    }
}

/// `n / d` in billionths, rounded to the nearest billionth (halves round up).
pub open spec fn ratio_in_units(n: int, d: int) -> int {
    (2 * UNIT * n + d) / (2 * d)
}

/// A ratio within [0, 1], rounded to billionths, stays in [0, 1].
pub proof fn lemma_ratio_in_unit(n: int, d: int)
    requires
        0 <= n <= d,
        0 < d,
    ensures
        0 <= ratio_in_units(n, d) <= UNIT,
{
    let m = 2 * d;
    let x = 2 * UNIT * n + d;
    let q = x / m;
    vstd::arithmetic::div_mod::lemma_fundamental_div_mod(x, m);
    vstd::arithmetic::div_mod::lemma_mod_bound(x, m);
    assert(0 <= q <= UNIT) by (nonlinear_arith)
        requires
            x == m * q + x % m,
            0 <= x % m < m,
            m == 2 * d,
            x == 2 * UNIT * n + d,
            0 <= n <= d,
            0 < d,
    ;
}

/// A clamping policy: the range `[0, ceiling()]` in which a scalar must stay.
pub trait ClampPolicy {
    /// Upper end of the admitted range, in billionths.
    spec fn ceiling() -> int;

    /// The range is never empty and fits the storage.
    proof fn lemma_ceiling_in_range()
        ensures
            0 <= Self::ceiling() <= NON_NEGATIVE_CEILING,
    ;

    /// Forces a raw value, in billionths, into the admitted range.
    fn check(raw: i64) -> (r: u64)
        ensures
            r as int == clamp(raw as int, Self::ceiling()),
    ;
}

/// Policy of fractions: the closed interval [0, 1].
#[derive(Clone, Copy, Debug)]
pub struct Normalized();

impl ClampPolicy for Normalized {
    open spec fn ceiling() -> int {
        UNIT as int
    }

    proof fn lemma_ceiling_in_range() {
    }

    fn check(raw: i64) -> (r: u64) {
        if raw < 0 {
            0
        } else if raw as u64 > UNIT {
            UNIT
        } else {
            raw as u64
        }
    }
}

/// Policy of non-negative quantities: [0, +inf), bounded only by the width of the storage.
#[derive(Clone, Copy, Debug)]
pub struct Unsigned();

impl ClampPolicy for Unsigned {
    open spec fn ceiling() -> int {
        NON_NEGATIVE_CEILING as int
    }

    proof fn lemma_ceiling_in_range() {
    }

    fn check(raw: i64) -> (r: u64) {
        if raw < 0 {
            0
        } else {
            raw as u64
        }
    }
}

/// A fixed-point value, in billionths, that always satisfies the policy `C`.
#[derive(Debug)]
pub struct BoundedScalar<C: ClampPolicy> {
    units: u64,
    policy: PhantomData<C>,
}

impl<C: ClampPolicy> Clone for BoundedScalar<C> {
    fn clone(&self) -> (r: Self)
        ensures
            r == *self,
    {
        proof {
            use_type_invariant(self);
        }
        BoundedScalar { units: self.units, policy: PhantomData }
    }
}

impl<C: ClampPolicy> Copy for BoundedScalar<C> {
}

/// A fraction in [0, 1].
pub type UnitScalar = BoundedScalar<Normalized>;

/// A non-negative quantity.
pub type NonNegativeScalar = BoundedScalar<Unsigned>;

impl<C: ClampPolicy> View for BoundedScalar<C> {
    type V = int;

    closed spec fn view(&self) -> int {
        self.units as int
    }
}

impl<C: ClampPolicy> BoundedScalar<C> {
    /// The invariant of the policy: the held value lies in `[0, ceiling]`.
    #[verifier::type_invariant]
    closed spec fn well_formed(&self) -> bool {
        self.units <= C::ceiling()
    }

    /// The scalar that holds `units` (for a value within the policy's range).
    pub closed spec fn from_units(units: int) -> Self {
        BoundedScalar { units: units as u64, policy: PhantomData }
    }

    /// Wraps a raw value in billionths; anything outside the policy's range is
    /// clamped to its nearest end.
    pub fn new(raw: i64) -> (r: Self)
        ensures
            r@ == clamp(raw as int, C::ceiling()),
    {
        proof {
            C::lemma_ceiling_in_range();
        }
        BoundedScalar { units: C::check(raw), policy: PhantomData }
    }

    /// The held value, in billionths.
    pub fn get(&self) -> (r: u64)
        ensures
            r as int == self@,
            r <= C::ceiling(),
    {
        proof {
            use_type_invariant(self);
        }
        self.units
    }
}

/// A scalar is the one `from_units` names for its own value.
pub proof fn lemma_from_own_units<C: ClampPolicy>(a: BoundedScalar<C>)
    ensures
        BoundedScalar::<C>::from_units(a@) == a,
{
}

/// `from_units` holds the value it is given, for a value within the policy's range.
pub proof fn lemma_from_units<C: ClampPolicy>(units: int)
    requires
        0 <= units <= C::ceiling(),
    ensures
        BoundedScalar::<C>::from_units(units)@ == units,
{
    C::lemma_ceiling_in_range();
}

/// Wrapping the value that a scalar already holds gives the same scalar: for
/// every raw value, clamping twice is clamping once (so `new(new(v).get())`
/// holds what `new(v)` holds).
pub proof fn lemma_rewrap_is_identity<C: ClampPolicy>(raw: int)
    ensures
        clamp(clamp(raw, C::ceiling()), C::ceiling()) == clamp(raw, C::ceiling()),
{
    C::lemma_ceiling_in_range();
}

} // verus!
