//! Which object casts a shadow on a point.
//!
//! A ray is sent from the point towards a light and tested against every
//! object of the scene. An object that it hits before it has gone as far as
//! the light is in the way. Only the first such object in the list counts:
//! the scan ends there, whatever the later objects would do.
//!
//! The ray does not start on the surface itself but a small step off it, so
//! that it does not hit the surface it comes from.
use vstd::prelude::*;
use crate::ray_intersect::Intersect;
use crate::scalar::Scalar;
use crate::scalar::{EPSILON_BITS, SIGN_BIT, ZERO_BITS};

verus! {

/// The step along the normal at which a shadow ray starts, given how the
/// direction to the light lies to the normal (their dot product): the
/// tolerance, taken against the normal where the light is behind the surface.
pub open spec fn shadow_bias_spec(facing: Scalar) -> Scalar {
    if facing.lt(&Scalar { bits: ZERO_BITS }) {
        Scalar { bits: (SIGN_BIT + EPSILON_BITS) as u32 }
    } else {
        Scalar { bits: EPSILON_BITS }
    }
}

/// The step along the normal at which a shadow ray starts.
#[verifier::when_used_as_spec(shadow_bias_spec)]
pub fn shadow_bias(facing: Scalar) -> (bias: Scalar)
    ensures
        bias == shadow_bias_spec(facing),
{
    if facing.lt(&Scalar::zero()) {
        Scalar::from_bits(SIGN_BIT + EPSILON_BITS)
    } else {
        Scalar::epsilon()
    }
}

/// Whether an outcome of the shadow ray puts its object between the point and
/// a light at `light_distance`: it is a hit, nearer than the light.
pub open spec fn occludes(hit: Intersect, light_distance: Scalar) -> bool {
    hit.is_intersecting && hit.distance.lt(&light_distance)
}

/// Whether no outcome of the list puts its object before the light.
pub open spec fn unoccluded(hits: Seq<Intersect>, light_distance: Scalar) -> bool {
    forall|k: int| 0 <= k < hits.len() ==> !occludes(#[trigger] hits[k], light_distance)
}

/// Whether the outcome at `i` is the first of the list whose object is before
/// the light.
pub open spec fn is_first_occluder(hits: Seq<Intersect>, light_distance: Scalar, i: int) -> bool {
    &&& 0 <= i < hits.len()
    &&& occludes(hits[i], light_distance)
    &&& forall|k: int| 0 <= k < i ==> !occludes(#[trigger] hits[k], light_distance)
}

/// Finds the object that shades a point from a light, given the outcomes of
/// testing the shadow ray against each object of the scene in turn and the
/// distance from the point to the light. Returns the place in the list of the
/// first object before the light, and `None` where the light reaches the
/// point unhindered.
pub fn first_occluder(hits: &[Intersect], light_distance: Scalar) -> (occluder: Option<usize>)
    ensures
        match occluder {
            Some(i) => is_first_occluder(hits@, light_distance, i as int),
            None => unoccluded(hits@, light_distance),
        },
{
    let mut i: usize = 0;
    while i < hits.len()
        invariant
            i <= hits.len(),
            forall|k: int| 0 <= k < i ==> !occludes(#[trigger] hits@[k], light_distance),
        decreases hits.len() - i,
    {
        if hits[i].is_intersecting && hits[i].distance.lt(&light_distance) {
            return Some(i);
        }
        i += 1;
    }
    None
}

} // verus!
