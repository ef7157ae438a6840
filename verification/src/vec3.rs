use vstd::prelude::*;
use crate::scalar::{UNIT, unit_mul_signed, unit_mul_signed_exec};

verus! {

/// A 3-vector with fixed-point components, used for positions,
/// directions and velocities in scene data. Heavy numeric work on
/// vectors (normalization, square roots, random sampling) is left to the
/// rendering front end; the verified core stores vectors and performs
/// the exact arithmetic its own rules need.
#[derive(Clone, Copy, Debug, PartialEq, Eq, Structural)]
pub struct Vec3 {
    pub x: i64,
    pub y: i64,
    pub z: i64,
}

impl Vec3 {
    /// Every component is zero.
    pub open spec fn all_zero(self) -> bool {
        self.x == 0 && self.y == 0 && self.z == 0
    }

    /// Component-wise sum of two vectors.
    pub open spec fn vsum(self, other: Vec3) -> Vec3 {
        Vec3 {
            x: (self.x + other.x) as i64,
            y: (self.y + other.y) as i64,
            z: (self.z + other.z) as i64,
        }
    }

    /// The vector scaled by a fixed-point factor.
    pub open spec fn vscale(self, t: int) -> Vec3 {
        Vec3 {
            x: unit_mul_signed(self.x as int, t) as i64,
            y: unit_mul_signed(self.y as int, t) as i64,
            z: unit_mul_signed(self.z as int, t) as i64,
        }
    }

    /// The sums of the components of two vectors all fit the scalar range.
    pub open spec fn sum_fits(self, other: Vec3) -> bool {
        &&& i64::MIN <= self.x + other.x <= i64::MAX
        &&& i64::MIN <= self.y + other.y <= i64::MAX
        &&& i64::MIN <= self.z + other.z <= i64::MAX
    }

    /// The components scaled by `t` all fit the scalar range.
    pub open spec fn scale_fits(self, t: int) -> bool {
        &&& i64::MIN <= unit_mul_signed(self.x as int, t) <= i64::MAX
        &&& i64::MIN <= unit_mul_signed(self.y as int, t) <= i64::MAX
        &&& i64::MIN <= unit_mul_signed(self.z as int, t) <= i64::MAX
    }

    pub fn new(x: i64, y: i64, z: i64) -> (v: Vec3)
        ensures
            v == (Vec3 { x, y, z }),
    {
        Vec3 { x, y, z }
    }

    pub fn zero() -> (v: Vec3)
        ensures
            v == (Vec3 { x: 0, y: 0, z: 0 }),
            v.all_zero(),
    {
        Vec3 { x: 0, y: 0, z: 0 }
    }

    /// The world axis the camera looks along by default.
    pub fn forward() -> (v: Vec3)
        ensures
            v == (Vec3 { x: 0, y: UNIT as i64, z: 0 }),
    {
        Vec3 { x: 0, y: UNIT, z: 0 }
    }

    pub fn right() -> (v: Vec3)
        ensures
            v == (Vec3 { x: UNIT as i64, y: 0, z: 0 }),
    {
        Vec3 { x: UNIT, y: 0, z: 0 }
    }

    pub fn up() -> (v: Vec3)
        ensures
            v == (Vec3 { x: 0, y: 0, z: UNIT as i64 }),
    {
        Vec3 { x: 0, y: 0, z: UNIT }
    }

    /// Whether the vector is the zero vector.
    pub fn is_zero(&self) -> (r: bool)
        ensures
            r == self.all_zero(),
    {
        self.x == 0 && self.y == 0 && self.z == 0
    }

    /// Component-wise sum.
    pub fn added(&self, other: &Vec3) -> (v: Vec3)
        requires
            self.sum_fits(*other),
        ensures
            v == self.vsum(*other),
    {
        Vec3 { x: self.x + other.x, y: self.y + other.y, z: self.z + other.z }
    }

    /// The vector scaled by a fixed-point factor, as a position is moved
    /// by a velocity over a sampled instant.
    pub fn scaled(&self, t: i64) -> (v: Vec3)
        requires
            self.scale_fits(t as int),
        ensures
            v == self.vscale(t as int),
    {
        Vec3 {
            x: unit_mul_signed_exec(self.x, t),
            y: unit_mul_signed_exec(self.y, t),
            z: unit_mul_signed_exec(self.z, t),
        }
    }
}

} // verus!
