//! What a ray through one pixel gets to see.
//!
//! A ray is tested against every object of the scene, and the nearest hit is
//! the surface that it sees. A ray that hits no object sees the sky: the first
//! box of the skybox that it hits, or a plain background behind that.
use vstd::prelude::*;
use crate::color::Color;
use crate::ray_intersect::Intersect;
use crate::scalar::Scalar;
use crate::scalar::INFINITY_BITS;

verus! {

/// Whether an outcome can be seen at all: it is a hit, and its distance is
/// below infinity.
pub open spec fn in_view(hit: Intersect) -> bool {
    hit.is_intersecting && hit.distance.lt(&Scalar { bits: INFINITY_BITS })
}

/// Whether no outcome of the list can be seen.
pub open spec fn none_in_view(hits: Seq<Intersect>) -> bool {
    forall|k: int| 0 <= k < hits.len() ==> !in_view(#[trigger] hits[k])
}

/// Whether the outcome at `i` is the nearest that can be seen: none is nearer,
/// and none before it in the list is as near.
pub open spec fn is_nearest(hits: Seq<Intersect>, i: int) -> bool {
    &&& 0 <= i < hits.len()
    &&& in_view(hits[i])
    &&& forall|k: int|
        0 <= k < hits.len() && in_view(#[trigger] hits[k]) ==> hits[i].distance.rank()
            <= hits[k].distance.rank()
    &&& forall|k: int|
        0 <= k < i && in_view(#[trigger] hits[k]) ==> hits[i].distance.rank()
            < hits[k].distance.rank()
}

/// Whether no two outcomes of the list that can be seen are equally far.
pub open spec fn distinct_distances(hits: Seq<Intersect>) -> bool {
    forall|p: int, q: int|
        0 <= p < q < hits.len() && in_view(#[trigger] hits[p]) && in_view(#[trigger] hits[q])
            ==> hits[p].distance.rank() != hits[q].distance.rank()
}

/// The color behind everything, by night and by day.
pub open spec fn background_spec(is_night: bool) -> Color {
    if is_night {
        Color { r: 10, g: 10, b: 30 }
    } else {
        Color { r: 63, g: 96, b: 188 }
    }
}

/// Whether the outcome at `i` is the first hit of the list.
pub open spec fn is_first_hit(hits: Seq<Intersect>, i: int) -> bool {
    &&& 0 <= i < hits.len()
    &&& hits[i].is_intersecting
    &&& forall|k: int| 0 <= k < i ==> !(#[trigger] hits[k]).is_intersecting
}

/// The color that a ray sees when it hits no object, given the outcomes of
/// testing it against the boxes of the skybox: the diffuse color at the first
/// box that it hits, and the background where it hits none.
pub open spec fn sky_color_spec(skybox_hits: Seq<Intersect>, is_night: bool) -> Color
    decreases skybox_hits.len(),
{
    if skybox_hits.len() == 0 {
        background_spec(is_night)
    } else if skybox_hits[0].is_intersecting {
        skybox_hits[0].material.diffuse
    } else {
        sky_color_spec(skybox_hits.drop_first(), is_night)
    }
}

/// Picks the surface that a ray sees, given the outcomes of testing it against
/// each object of the scene in turn. Returns the place in the list of the
/// nearest hit, the earliest one where several are equally near, and `None`
/// where nothing can be seen.
pub fn nearest_hit(hits: &[Intersect]) -> (nearest: Option<usize>)
    ensures
        match nearest {
            Some(i) => is_nearest(hits@, i as int),
            None => none_in_view(hits@),
        },
{
    let mut nearest: Option<usize> = None;
    let mut zbuffer = Scalar::infinity();
    let mut i: usize = 0;
    while i < hits.len()
        invariant
            i <= hits.len(),
            !zbuffer.is_nan(),
            match nearest {
                Some(n) => is_nearest(hits@.take(i as int), n as int) && zbuffer
                    == hits@[n as int].distance,
                None => none_in_view(hits@.take(i as int)) && zbuffer.bits == INFINITY_BITS,
            },
        decreases hits.len() - i,
    {
        let hit = hits[i];
        if hit.is_intersecting && hit.distance.lt(&zbuffer) {
            zbuffer = hit.distance;
            nearest = Some(i);
        }
        i += 1;
    }
    assert(hits@.take(i as int) == hits@);
    nearest
}

/// The color behind everything, by night and by day.
#[verifier::when_used_as_spec(background_spec)]
pub fn background(is_night: bool) -> (c: Color)
    ensures
        c == background_spec(is_night),
{
    if is_night {
        Color::new(10, 10, 30)
    } else {
        Color::new(63, 96, 188)
    }
}

/// The color that a ray sees when it hits no object, given the outcomes of
/// testing it against the boxes of the skybox in turn.
pub fn sky_color(skybox_hits: &[Intersect], is_night: bool) -> (c: Color)
    ensures
        c == sky_color_spec(skybox_hits@, is_night),
{
    let mut i: usize = 0;
    assert(skybox_hits@.skip(0) == skybox_hits@);
    while i < skybox_hits.len()
        invariant
            i <= skybox_hits.len(),
            sky_color_spec(skybox_hits@, is_night) == sky_color_spec(
                skybox_hits@.skip(i as int),
                is_night,
            ),
        decreases skybox_hits.len() - i,
    {
        assert(skybox_hits@.skip(i as int).drop_first() == skybox_hits@.skip(i + 1));
        if skybox_hits[i].is_intersecting {
            return skybox_hits[i].material.diffuse;
        }
        i += 1;
    }
    background(is_night)
}

/// The sky shows the first box of the skybox that the ray hits, and the
/// background exactly when it hits none.
pub proof fn lemma_sky_color_is_first_hit(skybox_hits: Seq<Intersect>, is_night: bool)
    ensures
        forall|i: int|
            is_first_hit(skybox_hits, i) ==> sky_color_spec(skybox_hits, is_night)
                == skybox_hits[i].material.diffuse,
        (forall|k: int| 0 <= k < skybox_hits.len() ==> !(#[trigger] skybox_hits[k]).is_intersecting)
            ==> sky_color_spec(skybox_hits, is_night) == background_spec(is_night),
    decreases skybox_hits.len(),
{
    if skybox_hits.len() > 0 && !skybox_hits[0].is_intersecting {
        let rest = skybox_hits.drop_first();
        lemma_sky_color_is_first_hit(rest, is_night);
        assert forall|i: int| is_first_hit(skybox_hits, i) implies sky_color_spec(
            skybox_hits,
            is_night,
        ) == skybox_hits[i].material.diffuse by {
            assert(is_first_hit(rest, i - 1));
        }
    }
}

/// At most one place in a list holds the nearest hit.
pub proof fn lemma_nearest_is_unique(hits: Seq<Intersect>, i: int, j: int)
    requires
        is_nearest(hits, i),
        is_nearest(hits, j),
    ensures
        i == j,
{
}

/// The surface that a ray sees does not depend on the order of the objects,
/// as long as no two of them are hit at the same distance: for two lists that
/// hold the same outcomes in different orders, either nothing can be seen in
/// both, or the nearest hit of one is the nearest hit of the other.
pub proof fn lemma_nearest_hit_ignores_order(a: Seq<Intersect>, b: Seq<Intersect>)
    requires
        a.to_multiset() == b.to_multiset(),
        distinct_distances(a),
    ensures
        none_in_view(a) <==> none_in_view(b),
        forall|i: int, j: int| is_nearest(a, i) && is_nearest(b, j) ==> a[i] == b[j],
{
    a.to_multiset_ensures();
    b.to_multiset_ensures();
    assert forall|x: Intersect| a.contains(x) <==> b.contains(x) by {
        assert(a.contains(x) <==> a.to_multiset().count(x) > 0);
        assert(b.contains(x) <==> b.to_multiset().count(x) > 0);
    }
    if !none_in_view(a) {
        let k = choose|k: int| 0 <= k < a.len() && in_view(a[k]);
        assert(b.contains(a[k]));
    }
    if !none_in_view(b) {
        let k = choose|k: int| 0 <= k < b.len() && in_view(b[k]);
        assert(a.contains(b[k]));
    }
    assert forall|i: int, j: int| is_nearest(a, i) && is_nearest(b, j) implies a[i] == b[j] by {
        // The nearest hit of each list occurs in the other, so neither is
        // nearer than the other.
        assert(b.contains(a[i]));
        let q = choose|q: int| 0 <= q < b.len() && b[q] == a[i];
        assert(b[j].distance.rank() <= b[q].distance.rank());
        assert(a.contains(b[j]));
        let p = choose|p: int| 0 <= p < a.len() && a[p] == b[j];
        assert(a[i].distance.rank() <= a[p].distance.rank());
        // Two hits of the first list at one distance are one hit.
        assert(p == i);
    }
}

} // verus!
