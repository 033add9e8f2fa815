//! The slab test: where a ray enters an axis-aligned box.
//!
//! Along each axis a box lies between two parallel planes. A ray meets the two
//! planes at two parameters, which bound the stretch of the ray inside that
//! slab. The ray is inside the box where it is inside all three slabs at once.
use vstd::prelude::*;
use crate::scalar::Scalar;
use crate::scalar::ZERO_BITS;

verus! {

/// The parameters at which a ray meets the two planes of one slab: the plane
/// through the box's minimum corner and the one through its maximum corner.
/// They come in no particular order, and are infinite for a ray that runs
/// parallel to the planes.
#[derive(Clone, Copy, Debug, PartialEq, Eq, Structural)]
pub struct Span {
    pub at_min: Scalar,
    pub at_max: Scalar,
}

/// The greater of two numbers, the first where neither is greater.
pub open spec fn later(a: Scalar, b: Scalar) -> Scalar {
    if b.gt(&a) {
        b
    } else {
        a
    }
}

/// The lesser of two numbers, the first where neither is less.
pub open spec fn earlier(a: Scalar, b: Scalar) -> Scalar {
    if b.lt(&a) {
        b
    } else {
        a
    }
}

impl Span {
    /// Whether one of the two parameters is not a number.
    pub open spec fn undefined(self) -> bool {
        self.at_min.is_nan() || self.at_max.is_nan()
    }

    /// The parameter at which the ray enters the slab.
    pub open spec fn low(self) -> Scalar {
        if self.at_min.gt(&self.at_max) {
            self.at_max
        } else {
            self.at_min
        }
    }

    /// The parameter at which the ray leaves the slab.
    pub open spec fn high(self) -> Scalar {
        if self.at_min.gt(&self.at_max) {
            self.at_min
        } else {
            self.at_max
        }
    }

    /// Whether the ray is inside the slab at parameter `t`.
    pub open spec fn holds(self, t: Scalar) -> bool {
        &&& !self.undefined()
        &&& !t.is_nan()
        &&& self.low().rank() <= t.rank() <= self.high().rank()
    }

    /// Builds a span from the two parameters.
    pub fn new(at_min: Scalar, at_max: Scalar) -> (s: Span)
        ensures
            s == (Span { at_min, at_max }),
    {
        Span { at_min, at_max }
    }

    /// The two parameters in ascending order.
    fn ordered(&self) -> (r: (Scalar, Scalar))
        ensures
            r.0 == self.low(),
            r.1 == self.high(),
    {
        if self.at_min.gt(&self.at_max) {
            (self.at_max, self.at_min)
        } else {
            (self.at_min, self.at_max)
        }
    }

    /// Whether one of the two parameters is not a number.
    fn is_undefined(&self) -> (r: bool)
        ensures
            r == self.undefined(),
    {
        self.at_min.is_nan() || self.at_max.is_nan()
    }
}

/// The parameter at which a ray is first inside all three slabs.
pub open spec fn enter(x: Span, y: Span, z: Span) -> Scalar {
    later(later(x.low(), y.low()), z.low())
}

/// The parameter at which a ray first leaves one of the three slabs.
pub open spec fn leave(x: Span, y: Span, z: Span) -> Scalar {
    earlier(earlier(x.high(), y.high()), z.high())
}

/// What the slab test reports for the three spans of a ray against a box.
///
/// The ray hits where it enters the last slab before leaving any, and does so
/// at or after its origin. A box behind the origin is missed, and so is one
/// that holds the origin. A span with a bound that is not a number admits no
/// hit.
pub open spec fn slab_entry_spec(x: Span, y: Span, z: Span) -> Option<Scalar> {
    let t = enter(x, y, z);
    if x.undefined() || y.undefined() || z.undefined() {
        None
    } else if t.gt(&leave(x, y, z)) {
        None
    } else if t.lt(&Scalar { bits: ZERO_BITS }) {
        None
    } else {
        Some(t)
    }
}

/// Runs the slab test on the three spans of a ray against a box, taking the
/// axes in the order x, y, z and giving up at the first axis that rules a hit
/// out. Returns the parameter of the hit, or `None` for a miss.
#[verifier::when_used_as_spec(slab_entry_spec)]
pub fn slab_entry(x: Span, y: Span, z: Span) -> (hit: Option<Scalar>)
    ensures
        hit == slab_entry_spec(x, y, z),
{
    if x.is_undefined() || y.is_undefined() || z.is_undefined() {
        return None;
    }
    let (x_min, x_max) = x.ordered();
    let (y_min, y_max) = y.ordered();
    let mut t_min = x_min;
    let mut t_max = x_max;
    if t_min.gt(&y_max) || y_min.gt(&t_max) {
        return None;
    }
    if y_min.gt(&t_min) {
        t_min = y_min;
    }
    if y_max.lt(&t_max) {
        t_max = y_max;
    }
    let (z_min, z_max) = z.ordered();
    if t_min.gt(&z_max) || z_min.gt(&t_max) {
        return None;
    }
    if z_min.gt(&t_min) {
        t_min = z_min;
    }
    if t_min.lt(&Scalar::zero()) {
        return None;
    }
    Some(t_min)
}

/// A reported hit lies inside all three slabs, at or after the origin, and no
/// parameter inside all three slabs comes before it.
pub proof fn lemma_entry_is_first_inside(x: Span, y: Span, z: Span, t: Scalar)
    requires
        slab_entry_spec(x, y, z) == Some(t),
    ensures
        x.holds(t),
        y.holds(t),
        z.holds(t),
        t.rank() >= 0,
        forall|s: Scalar| x.holds(s) && y.holds(s) && z.holds(s) ==> t.rank() <= s.rank(),
{
}

/// Whenever some parameter is inside all three slabs and the first such
/// parameter is not behind the origin, the test reports a hit.
pub proof fn lemma_inside_is_reported(x: Span, y: Span, z: Span, s: Scalar)
    requires
        x.holds(s),
        y.holds(s),
        z.holds(s),
        enter(x, y, z).rank() >= 0,
    ensures
        slab_entry_spec(x, y, z) == Some(enter(x, y, z)),
{
}

/// A ray that is outside one slab at every parameter from its origin on
/// misses the box, whatever the other two spans are.
pub proof fn lemma_outside_one_slab_misses(x: Span, y: Span, z: Span)
    requires
        (forall|t: Scalar| t.rank() >= 0 ==> !x.holds(t))
        || (forall|t: Scalar| t.rank() >= 0 ==> !y.holds(t))
        || (forall|t: Scalar| t.rank() >= 0 ==> !z.holds(t)),
    ensures
        slab_entry_spec(x, y, z) is None,
{
    if let Some(t) = slab_entry_spec(x, y, z) {
        lemma_entry_is_first_inside(x, y, z, t);
    }
}

} // verus!
