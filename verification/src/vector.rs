//! Positions, carried but never computed with.

use vstd::prelude::*;

verus! {

/// A single-precision float as its bit pattern. Equal patterns are equal
/// numbers; the crate does no arithmetic on them.
#[derive(Clone, Copy, Debug, PartialEq, Eq, Structural)]
pub struct Scalar {
    pub bits: u32,
}

impl Scalar {
    /// The pattern of positive zero.
    pub open spec fn zero_spec() -> Scalar {
        Scalar { bits: 0 }
    }

    /// The scalar with the given bit pattern.
    pub fn from_bits(bits: u32) -> (scalar: Scalar)
        ensures
            scalar.bits == bits,
    {
        Scalar { bits }
    }

    /// The bit pattern.
    pub fn to_bits(&self) -> (bits: u32)
        ensures
            bits == self.bits,
    {
        self.bits
    }

    /// Positive zero.
    pub fn zero() -> (scalar: Scalar)
        ensures
            scalar == Scalar::zero_spec(),
    {
        Scalar { bits: 0 }
    }
}

/// A point in space. The fields are named in the caller's convention
/// (`z` is up) and laid out in the order the engine reads them: `y`, `z`, `x`.
/// Both constructors name their arguments, so no caller has to know the layout.
#[derive(Clone, Copy, Debug, PartialEq, Eq, Structural)]
pub struct Vector {
    pub y: Scalar,
    pub z: Scalar,
    pub x: Scalar,
}

impl Vector {
    /// The point with the given coordinates.
    pub open spec fn at(x: Scalar, y: Scalar, z: Scalar) -> Vector {
        Vector { y, z, x }
    }

    /// A point from coordinates in the caller's order.
    pub fn from_xyz(x: Scalar, y: Scalar, z: Scalar) -> (point: Vector)
        ensures
            point == Vector::at(x, y, z),
    {
        Vector { y, z, x }
    }

    /// A point from coordinates in the engine's order.
    pub fn from_yzx(y: Scalar, z: Scalar, x: Scalar) -> (point: Vector)
        ensures
            point == Vector::at(x, y, z),
    {
        Vector { y, z, x }
    }

    /// The coordinates in the engine's order.
    pub fn to_yzx(&self) -> (coordinates: (Scalar, Scalar, Scalar))
        ensures
            coordinates == (self.y, self.z, self.x),
    {
        (self.y, self.z, self.x)
    }

    /// The coordinates in the caller's order.
    pub fn to_xyz(&self) -> (coordinates: (Scalar, Scalar, Scalar))
        ensures
            coordinates == (self.x, self.y, self.z),
    {
        (self.x, self.y, self.z)
    }

    /// This point with its height replaced by that of `other`.
    pub open spec fn level_with(self, other: Vector) -> Vector {
        Vector { y: self.y, z: other.z, x: self.x }
    }
}

} // verus!
