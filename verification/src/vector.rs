//! Fixed-point vectors.
//!
//! Components are `i64` values scaled by [`crate::fixed::SCALE`]. `Vec2` is
//! the planar state of the point-mass model, `Vec3` carries positions and
//! Euler orientations of the steering model, and `Vec4` is the homogeneous
//! embedding used when a direction is pushed through a 4x4 transform: a
//! direction carries homogeneous coordinate 0, as opposed to a point's 1,
//! so translations cannot displace it.

use vstd::prelude::*;

verus! {

/// A planar fixed-point vector.
#[derive(Clone, Copy, Debug, PartialEq, Eq, Structural)]
pub struct Vec2 {
    pub x: i64,
    pub y: i64,
}

impl Vec2 {
    pub fn new(x: i64, y: i64) -> (v: Vec2)
        ensures
            v.x == x,
            v.y == y,
    {
        Vec2 { x, y }
    }

    /// The origin of the plane.
    pub fn zero() -> (v: Vec2)
        ensures
            v.x == 0,
            v.y == 0,
    {
        Vec2 { x: 0, y: 0 }
    }
}

/// A spatial fixed-point vector.
#[derive(Clone, Copy, Debug, PartialEq, Eq, Structural)]
pub struct Vec3 {
    pub x: i64,
    pub y: i64,
    pub z: i64,
}

impl Vec3 {
    pub fn new(x: i64, y: i64, z: i64) -> (v: Vec3)
        ensures
            v.x == x,
            v.y == y,
            v.z == z,
    {
        Vec3 { x, y, z }
    }

    /// The origin of space.
    pub fn zero() -> (v: Vec3)
        ensures
            v.x == 0,
            v.y == 0,
            v.z == 0,
    {
        Vec3 { x: 0, y: 0, z: 0 }
    }

    /// Embed the vector as a homogeneous direction: the fourth coordinate
    /// is 0, marking a direction rather than a point.
    pub fn to_homogeneous(&self) -> (h: Vec4)
        ensures
            h.x == self.x,
            h.y == self.y,
            h.z == self.z,
            h.w == 0,
    {
        Vec4 { x: self.x, y: self.y, z: self.z, w: 0 }
    }
}

/// A homogeneous fixed-point vector: `w == 0` marks a direction, any other
/// `w` a point (or an invalid direction).
#[derive(Clone, Copy, Debug, PartialEq, Eq, Structural)]
pub struct Vec4 {
    pub x: i64,
    pub y: i64,
    pub z: i64,
    pub w: i64,
}

impl Vec4 {
    /// Project a homogeneous vector back to three dimensions. Only a
    /// direction (`w == 0`) converts; for any other homogeneous coordinate
    /// the projection is refused, exactly when it would be undefined for a
    /// direction.
    pub fn from_homogeneous(&self) -> (r: Option<Vec3>)
        ensures
            self.w == 0 <==> r is Some,
            r matches Some(v) ==> v.x == self.x && v.y == self.y && v.z == self.z,
    {
        if self.w == 0 {
            Some(Vec3 { x: self.x, y: self.y, z: self.z })
        } else {
            None
        }
    }
}

} // verus!
