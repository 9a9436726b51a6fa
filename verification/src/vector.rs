//! Three-component vectors of fixed-point scalars.

use vstd::prelude::*;
use crate::fixed::Fixed;

verus! {

/// A point or a direction in space.
#[derive(Clone, Copy, PartialEq, Eq, Structural, Debug)]
pub struct Vec3 {
    pub x: Fixed,
    pub y: Fixed,
    pub z: Fixed,
}

impl Vec3 {
    /// Component-wise sum.
    pub open spec fn plus(self, other: Vec3) -> Vec3 {
        Vec3 { x: self.x.plus(other.x), y: self.y.plus(other.y), z: self.z.plus(other.z) }
    }

    /// Every component multiplied by `k`.
    pub open spec fn scaled_by(self, k: Fixed) -> Vec3 {
        Vec3 { x: self.x.times(k), y: self.y.times(k), z: self.z.times(k) }
    }

    /// The vector with the given components.
    pub fn new(x: Fixed, y: Fixed, z: Fixed) -> (r: Vec3)
        ensures
            r == (Vec3 { x, y, z }),
    {
        Vec3 { x, y, z }
    }

    /// The origin.
    pub fn zero() -> (r: Vec3)
        ensures
            r.x@ == 0,
            r.y@ == 0,
            r.z@ == 0,
    {
        Vec3 { x: Fixed::zero(), y: Fixed::zero(), z: Fixed::zero() }
    }

    /// Component-wise saturating sum.
    pub fn saturating_add(self, other: Vec3) -> (r: Vec3)
        ensures
            r == self.plus(other),
    {
        Vec3 {
            x: self.x.saturating_add(other.x),
            y: self.y.saturating_add(other.y),
            z: self.z.saturating_add(other.z),
        }
    }

    /// Every component multiplied by `k`, each product rounded toward zero
    /// and clamped into range.
    pub fn scaled(self, k: Fixed) -> (r: Vec3)
        ensures
            r == self.scaled_by(k),
    {
        Vec3 {
            x: self.x.saturating_mul(k),
            y: self.y.saturating_mul(k),
            z: self.z.saturating_mul(k),
        }
    }
}

} // verus!
