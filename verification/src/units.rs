//! Quantities of the simulation, in fixed point.
//!
//! A length is counted in thousandths of an arena unit, a speed in thousandths
//! of a unit per second, and a span of time in microseconds. All of them are
//! integers, so that every step of the simulation is exact and repeatable.

use vstd::prelude::*;

verus! {

/// Thousandths in one arena unit.
pub const UNIT: i64 = 1_000;

/// Microseconds in one second.
pub const MICROS_PER_SECOND: u64 = 1_000_000;

/// Linear velocity of a body. `x` runs across the arena, `z` along it and `y`
/// upwards, away from the board.
#[derive(Clone, Copy, Debug, PartialEq, Eq, Structural)]
pub struct Velocity {
    pub x: i64,
    pub y: i64,
    pub z: i64,
}

/// The component `c` turned round. The one value without a counterpart, the
/// least `i64`, turns into the greatest.
pub open spec fn reversed(c: i64) -> i64 {
    if c == i64::MIN {
        i64::MAX
    } else {
        (-c) as i64
    }
}

/// Turns a velocity component round.
pub fn reverse(c: i64) -> (r: i64)
    ensures
        r == reversed(c),
{
    if c == i64::MIN {
        i64::MAX
    } else {
        -c
    }
}

impl Velocity {
    /// The velocity of a body at rest.
    pub open spec fn spec_zero() -> Velocity {
        Velocity { x: 0, y: 0, z: 0 }
    }

    /// The velocity of a body at rest.
    #[verifier::when_used_as_spec(spec_zero)]
    pub fn zero() -> (v: Velocity)
        ensures
            v == Velocity::spec_zero(),
    {
        Velocity { x: 0, y: 0, z: 0 }
    }

    /// This velocity after a bounce off a surface that faces along `x`.
    pub open spec fn spec_flip_x(self) -> Velocity {
        Velocity { x: reversed(self.x), y: self.y, z: self.z }
    }

    /// This velocity after a bounce off a surface that faces along `z`.
    pub open spec fn spec_flip_z(self) -> Velocity {
        Velocity { x: self.x, y: self.y, z: reversed(self.z) }
    }

    /// Reflects the velocity off a surface that faces along `x`: the `x`
    /// component changes sign, the others stay.
    #[verifier::when_used_as_spec(spec_flip_x)]
    pub fn flip_x(self) -> (v: Velocity)
        ensures
            v == self.spec_flip_x(),
    {
        Velocity { x: reverse(self.x), y: self.y, z: self.z }
    }

    /// Reflects the velocity off a surface that faces along `z`: the `z`
    /// component changes sign, the others stay.
    #[verifier::when_used_as_spec(spec_flip_z)]
    pub fn flip_z(self) -> (v: Velocity)
        ensures
            v == self.spec_flip_z(),
    {
        Velocity { x: self.x, y: self.y, z: reverse(self.z) }
    }
}

/// Reflection along `x` is an involution: two bounces in a row give the
/// velocity back, sign and magnitude, as long as the component has a
/// counterpart of the other sign.
pub proof fn lemma_flip_x_involutive(v: Velocity)
    requires
        v.x != i64::MIN,
    ensures
        v.flip_x().flip_x() == v,
{
}

/// Reflection along `z` is an involution, under the same proviso.
pub proof fn lemma_flip_z_involutive(v: Velocity)
    requires
        v.z != i64::MIN,
    ensures
        v.flip_z().flip_z() == v,
{
}

/// Reflections along the two axes commute: a corner hit gives the same
/// velocity whichever surface is taken first.
pub proof fn lemma_flips_commute(v: Velocity)
    ensures
        v.flip_x().flip_z() == v.flip_z().flip_x(),
{
}

} // verus!
