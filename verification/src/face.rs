//! Which face of a box a point on its surface belongs to.
//!
//! A point counts as lying on one of the six planes of a box when its
//! distance from that plane is below the tolerance. Near an edge a point lies
//! on two planes at once, and a fixed order of precedence settles which face
//! it is given to: one order for the texture, another for the normal.
use vstd::prelude::*;
use crate::scalar::Scalar;
use crate::scalar::EPSILON_BITS;
use crate::vector::{Axis, Vector3};

verus! {

/// The offsets of a point from the six planes of a box: along each axis, the
/// point's coordinate less that of the box's minimum corner, and less that of
/// its maximum corner.
#[derive(Clone, Copy, Debug, PartialEq, Eq, Structural)]
pub struct Clearance {
    pub from_min: Vector3,
    pub from_max: Vector3,
}

/// A face of a box as far as its texture goes. The two faces across the x axis
/// are not told apart, nor are the two across the z axis.
#[derive(Clone, Copy, Debug, PartialEq, Eq, Structural)]
pub enum Face {
    Top,
    Bottom,
    LeftRight,
    FrontBack,
}

/// One of the three textures that a box carries.
#[derive(Clone, Copy, Debug, PartialEq, Eq, Structural)]
pub enum TextureSlot {
    Top,
    Side,
    Bottom,
}

/// Whether an offset is small enough for the point to count as lying on the
/// plane: its absolute value is below the tolerance.
pub open spec fn touches_spec(offset: Scalar) -> bool {
    offset.abs().lt(&Scalar { bits: EPSILON_BITS })
}

/// Whether an offset is small enough for the point to count as lying on the
/// plane.
#[verifier::when_used_as_spec(touches_spec)]
pub fn touches(offset: Scalar) -> (r: bool)
    ensures
        r == touches_spec(offset),
{
    offset.abs().lt(&Scalar::epsilon())
}

impl Face {
    /// The texture that the face shows. The front and back faces share the
    /// side texture with the left and right ones.
    pub open spec fn texture_spec(self) -> TextureSlot {
        match self {
            Face::Top => TextureSlot::Top,
            Face::Bottom => TextureSlot::Bottom,
            Face::LeftRight => TextureSlot::Side,
            Face::FrontBack => TextureSlot::Side,
        }
    }

    /// The axes along which the two texture coordinates run, `u` first. Each
    /// coordinate is the point's offset from the minimum corner along its
    /// axis, as a fraction of the box's extent along that axis.
    pub open spec fn uv_axes_spec(self) -> (Axis, Axis) {
        match self {
            Face::Top => (Axis::X, Axis::Z),
            Face::Bottom => (Axis::X, Axis::Z),
            Face::LeftRight => (Axis::Z, Axis::Y),
            Face::FrontBack => (Axis::Z, Axis::Y),
        }
    }

    /// The texture that the face shows.
    #[verifier::when_used_as_spec(texture_spec)]
    pub fn texture(self) -> (slot: TextureSlot)
        ensures
            slot == self.texture_spec(),
    {
        match self {
            Face::Top => TextureSlot::Top,
            Face::Bottom => TextureSlot::Bottom,
            Face::LeftRight => TextureSlot::Side,
            Face::FrontBack => TextureSlot::Side,
        }
    }

    /// The axes along which the two texture coordinates run, `u` first.
    #[verifier::when_used_as_spec(uv_axes_spec)]
    pub fn uv_axes(self) -> (axes: (Axis, Axis))
        ensures
            axes == self.uv_axes_spec(),
    {
        match self {
            Face::Top => (Axis::X, Axis::Z),
            Face::Bottom => (Axis::X, Axis::Z),
            Face::LeftRight => (Axis::Z, Axis::Y),
            Face::FrontBack => (Axis::Z, Axis::Y),
        }
    }
}

impl Clearance {
    /// Whether the point lies on the plane across `axis` through the box's
    /// maximum corner (`upper`) or through its minimum corner.
    pub open spec fn on_plane(self, axis: Axis, upper: bool) -> bool {
        if upper {
            touches(self.from_max.along(axis))
        } else {
            touches(self.from_min.along(axis))
        }
    }

    /// Whether the point lies on the given plane and on no other plane of the
    /// box: it is on that face and away from the face's edges.
    pub open spec fn inside_face(self, axis: Axis, upper: bool) -> bool {
        &&& self.on_plane(axis, upper)
        &&& forall|a: Axis, u: bool| self.on_plane(a, u) ==> a == axis && u == upper
    }

    /// The face that gives the point its texture. The top face comes first,
    /// then the bottom face, then the faces across the x axis; whatever is
    /// left belongs to the faces across the z axis.
    pub open spec fn face_spec(&self) -> Face {
        if touches(self.from_max.y) {
            Face::Top
        } else if touches(self.from_min.y) {
            Face::Bottom
        } else if touches(self.from_min.x) || touches(self.from_max.x) {
            Face::LeftRight
        } else {
            Face::FrontBack
        }
    }

    /// The outward normal at the point. The planes are tried in the order
    /// minimum x, maximum x, minimum y, maximum y, minimum z; a point on none
    /// of them gets the normal of the maximum z plane.
    pub open spec fn normal_spec(&self) -> Vector3 {
        if touches(self.from_min.x) {
            Vector3::unit(Axis::X, false)
        } else if touches(self.from_max.x) {
            Vector3::unit(Axis::X, true)
        } else if touches(self.from_min.y) {
            Vector3::unit(Axis::Y, false)
        } else if touches(self.from_max.y) {
            Vector3::unit(Axis::Y, true)
        } else if touches(self.from_min.z) {
            Vector3::unit(Axis::Z, false)
        } else {
            Vector3::unit(Axis::Z, true)
        }
    }

    /// Builds a clearance from the offsets to the minimum and to the maximum
    /// corner.
    pub fn new(from_min: Vector3, from_max: Vector3) -> (c: Clearance)
        ensures
            c == (Clearance { from_min, from_max }),
    {
        Clearance { from_min, from_max }
    }

    /// The face that gives the point its texture.
    #[verifier::when_used_as_spec(face_spec)]
    pub fn face(&self) -> (f: Face)
        ensures
            f == self.face_spec(),
    {
        if touches(self.from_max.y) {
            Face::Top
        } else if touches(self.from_min.y) {
            Face::Bottom
        } else if touches(self.from_min.x) || touches(self.from_max.x) {
            Face::LeftRight
        } else {
            Face::FrontBack
        }
    }

    /// The outward normal at the point.
    #[verifier::when_used_as_spec(normal_spec)]
    pub fn calculate_normal(&self) -> (n: Vector3)
        ensures
            n == self.normal_spec(),
    {
        if touches(self.from_min.x) {
            Vector3::unit(Axis::X, false)
        } else if touches(self.from_max.x) {
            Vector3::unit(Axis::X, true)
        } else if touches(self.from_min.y) {
            Vector3::unit(Axis::Y, false)
        } else if touches(self.from_max.y) {
            Vector3::unit(Axis::Y, true)
        } else if touches(self.from_min.z) {
            Vector3::unit(Axis::Z, false)
        } else {
            Vector3::unit(Axis::Z, true)
        }
    }
}

/// Away from the edges the two orders of precedence agree: a point that lies
/// on exactly one plane of the box gets the texture of that plane's face and
/// the normal that points out of it. In particular a point inside the top
/// face never gets the normal of a side.
pub proof fn lemma_face_and_normal_agree(c: Clearance, axis: Axis, upper: bool)
    requires
        c.inside_face(axis, upper),
    ensures
        c.normal_spec() == Vector3::unit(axis, upper),
        c.face_spec() == match axis {
            Axis::X => Face::LeftRight,
            Axis::Y => if upper {
                Face::Top
            } else {
                Face::Bottom
            },
            Axis::Z => Face::FrontBack,
        },
{
    assert(c.on_plane(Axis::X, false) ==> axis == Axis::X && !upper);
    assert(c.on_plane(Axis::X, true) ==> axis == Axis::X && upper);
    assert(c.on_plane(Axis::Y, false) ==> axis == Axis::Y && !upper);
    assert(c.on_plane(Axis::Y, true) ==> axis == Axis::Y && upper);
    assert(c.on_plane(Axis::Z, false) ==> axis == Axis::Z && !upper);
}

} // verus!
