//! Points, directions and normals.
use vstd::prelude::*;
use crate::scalar::Scalar;
use crate::scalar::{NEG_ONE_BITS, ONE_BITS, ZERO_BITS};

verus! {

/// A triple of scalars: a position, a direction or a normal.
#[derive(Clone, Copy, Debug, PartialEq, Eq, Structural)]
pub struct Vector3 {
    pub x: Scalar,
    pub y: Scalar,
    pub z: Scalar,
}

/// One of the three coordinate axes.
#[derive(Clone, Copy, Debug, PartialEq, Eq, Structural)]
pub enum Axis {
    X,
    Y,
    Z,
}

impl Vector3 {
    /// The vector whose components have the given bit patterns.
    pub open spec fn of_bits(x: u32, y: u32, z: u32) -> Vector3 {
        Vector3 { x: Scalar { bits: x }, y: Scalar { bits: y }, z: Scalar { bits: z } }
    }

    /// The unit vector along `axis`, pointing up the axis when `positive` and
    /// down it otherwise.
    pub open spec fn unit_spec(axis: Axis, positive: bool) -> Vector3 {
        let one = if positive {
            ONE_BITS
        } else {
            NEG_ONE_BITS
        };
        match axis {
            Axis::X => Vector3::of_bits(one, ZERO_BITS, ZERO_BITS),
            Axis::Y => Vector3::of_bits(ZERO_BITS, one, ZERO_BITS),
            Axis::Z => Vector3::of_bits(ZERO_BITS, ZERO_BITS, one),
        }
    }

    /// The component along `axis`.
    pub open spec fn along_spec(&self, axis: Axis) -> Scalar {
        match axis {
            Axis::X => self.x,
            Axis::Y => self.y,
            Axis::Z => self.z,
        }
    }

    /// Builds a vector from its components.
    pub fn new(x: Scalar, y: Scalar, z: Scalar) -> (v: Vector3)
        ensures
            v == (Vector3 { x, y, z }),
    {
        Vector3 { x, y, z }
    }

    /// The vector of three positive zeros.
    pub fn zeros() -> (v: Vector3)
        ensures
            v == Vector3::of_bits(ZERO_BITS, ZERO_BITS, ZERO_BITS),
    {
        Vector3 { x: Scalar::zero(), y: Scalar::zero(), z: Scalar::zero() }
    }

    /// The unit vector along `axis`, in the positive or the negative sense.
    #[verifier::when_used_as_spec(unit_spec)]
    pub fn unit(axis: Axis, positive: bool) -> (v: Vector3)
        ensures
            v == Vector3::unit_spec(axis, positive),
    {
        let one = if positive {
            Scalar::one()
        } else {
            Scalar::neg_one()
        };
        let zero = Scalar::zero();
        match axis {
            Axis::X => Vector3 { x: one, y: zero, z: zero },
            Axis::Y => Vector3 { x: zero, y: one, z: zero },
            Axis::Z => Vector3 { x: zero, y: zero, z: one },
        }
    }

    /// The component along `axis`.
    #[verifier::when_used_as_spec(along_spec)]
    pub fn along(&self, axis: Axis) -> (s: Scalar)
        ensures
            s == self.along_spec(axis),
    {
        match axis {
            Axis::X => self.x,
            Axis::Y => self.y,
            Axis::Z => self.z,
        }
    }
}

} // verus!
