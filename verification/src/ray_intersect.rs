//! What a ray finds at a box.
use vstd::prelude::*;
use crate::color::Color;
use crate::material::Material;
use crate::scalar::Scalar;
use crate::scalar::{INFINITY_BITS, ZERO_BITS};
use crate::vector::Vector3;

verus! {

/// The outcome of testing one ray against one box.
///
/// For a hit, `is_intersecting` is set, `point` is where the ray meets the
/// surface, `normal` the outward normal there, `distance` the ray's parameter
/// at the point and `material` the material in effect there. A miss is the
/// value that [`Intersect::empty`] returns.
#[derive(Clone, Copy, Debug, PartialEq, Eq)]
pub struct Intersect {
    pub point: Vector3,
    pub normal: Vector3,
    pub distance: Scalar,
    pub is_intersecting: bool,
    pub material: Material,
}

impl Intersect {
    /// The value that stands for a miss: no hit, at an infinite distance, with
    /// a black material that answers no light.
    pub open spec fn empty_spec() -> Intersect {
        let zero = Scalar { bits: ZERO_BITS };
        let black = Color { r: 0, g: 0, b: 0 };
        Intersect {
            point: Vector3::of_bits(ZERO_BITS, ZERO_BITS, ZERO_BITS),
            normal: Vector3::of_bits(ZERO_BITS, ZERO_BITS, ZERO_BITS),
            distance: Scalar { bits: INFINITY_BITS },
            is_intersecting: false,
            material: Material {
                albedo: [zero, zero],
                specular: zero,
                transparency: zero,
                reflectivity: zero,
                diffuse: black,
                fresnel_color: black,
            },
        }
    }

    /// Records a hit.
    pub fn new(point: Vector3, normal: Vector3, distance: Scalar, material: Material) -> (i:
        Intersect)
        ensures
            i == (Intersect { point, normal, distance, is_intersecting: true, material }),
    {
        Intersect { point, normal, distance, is_intersecting: true, material }
    }

    /// The value that stands for a miss.
    #[verifier::when_used_as_spec(empty_spec)]
    pub fn empty() -> (i: Intersect)
        ensures
            i == Intersect::empty_spec(),
    {
        let zero = Scalar::zero();
        let black = Color::new(0, 0, 0);
        Intersect {
            point: Vector3::zeros(),
            normal: Vector3::zeros(),
            distance: Scalar::infinity(),
            is_intersecting: false,
            material: Material::new([zero, zero], zero, zero, zero, black, black),
        }
    }
}

} // verus!
