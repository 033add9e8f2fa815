use raytracer::face::{Clearance, Face};
use raytracer::scalar::Scalar;
use raytracer::slab::{slab_entry, Span};
use raytracer::vector::Vector3;

fn s(value: f32) -> Scalar {
    Scalar::from_bits(value.to_bits())
}

/// The span of a ray along one axis, computed as a caller would.
fn span(min: f32, max: f32, origin: f32, direction: f32) -> Span {
    Span::new(s((min - origin) / direction), s((max - origin) / direction))
}

/// The spans of a ray against the unit box between the origin and (1, 1, 1).
fn unit_box(origin: [f32; 3], direction: [f32; 3]) -> (Span, Span, Span) {
    (
        span(0.0, 1.0, origin[0], direction[0]),
        span(0.0, 1.0, origin[1], direction[1]),
        span(0.0, 1.0, origin[2], direction[2]),
    )
}

fn entry(origin: [f32; 3], direction: [f32; 3]) -> Option<f32> {
    let (x, y, z) = unit_box(origin, direction);
    slab_entry(x, y, z).map(|t| f32::from_bits(t.to_bits()))
}

#[test]
fn span_keeps_its_two_parameters() {
    let sp = Span::new(s(5.0), s(4.0));
    assert_eq!(sp.at_min, s(5.0));
    assert_eq!(sp.at_max, s(4.0));
}

#[test]
fn ray_outside_the_box_on_one_axis_misses() {
    assert_eq!(entry([5.0, 5.0, 5.0], [1.0, 0.0, 0.0]), None);
}

#[test]
fn ray_below_the_box_on_a_parallel_axis_misses() {
    assert_eq!(entry([-5.0, -5.0, 0.5], [1.0, 0.0, 0.0]), None);
}

#[test]
fn ray_down_the_z_axis_enters_at_four() {
    assert_eq!(entry([0.5, 0.5, 5.0], [0.0, 0.0, -1.0]), Some(4.0));
}

#[test]
fn ray_along_each_axis_enters_at_the_near_plane() {
    assert_eq!(entry([-2.0, 0.5, 0.5], [1.0, 0.0, 0.0]), Some(2.0));
    assert_eq!(entry([3.0, 0.5, 0.5], [-1.0, 0.0, 0.0]), Some(2.0));
    assert_eq!(entry([0.5, -7.0, 0.5], [0.0, 1.0, 0.0]), Some(7.0));
    assert_eq!(entry([0.5, 9.0, 0.5], [0.0, -1.0, 0.0]), Some(8.0));
    assert_eq!(entry([0.5, 0.5, -1.5], [0.0, 0.0, 1.0]), Some(1.5));
}

#[test]
fn box_behind_the_origin_is_missed() {
    assert_eq!(entry([0.5, 0.5, 5.0], [0.0, 0.0, 1.0]), None);
    assert_eq!(entry([-2.0, 0.5, 0.5], [-1.0, 0.0, 0.0]), None);
}

#[test]
fn ray_from_inside_the_box_is_missed() {
    assert_eq!(entry([0.5, 0.5, 0.5], [0.0, 0.0, -1.0]), None);
    assert_eq!(entry([0.5, 0.5, 0.5], [1.0, 0.0, 0.0]), None);
}

#[test]
fn ray_starting_on_the_surface_enters_at_zero() {
    assert_eq!(entry([0.5, 0.5, 1.0], [0.0, 0.0, -1.0]), Some(0.0));
}

#[test]
fn slanted_ray_enters_where_the_last_slab_begins() {
    // x is entered at 1, y at 2, z at 0.5: the box is entered at 2.
    let x = Span::new(s(1.0), s(4.0));
    let y = Span::new(s(5.0), s(2.0));
    let z = Span::new(s(0.5), s(3.0));
    assert_eq!(slab_entry(x, y, z), Some(s(2.0)));
}

#[test]
fn slabs_that_do_not_overlap_give_a_miss() {
    // x is left at 2 before y is entered at 3.
    let x = Span::new(s(1.0), s(2.0));
    let y = Span::new(s(3.0), s(4.0));
    let z = Span::new(s(0.0), s(9.0));
    assert_eq!(slab_entry(x, y, z), None);
    // x and y overlap from 3 to 4, and z is left at 2.5.
    let x = Span::new(s(1.0), s(4.0));
    let y = Span::new(s(3.0), s(6.0));
    let z = Span::new(s(2.5), s(0.0));
    assert_eq!(slab_entry(x, y, z), None);
    // x and y overlap from 3 to 4, and z is entered at 5.
    let z = Span::new(s(5.0), s(8.0));
    assert_eq!(slab_entry(x, y, z), None);
}

#[test]
fn slabs_that_meet_in_one_parameter_give_a_hit() {
    let x = Span::new(s(1.0), s(3.0));
    let y = Span::new(s(3.0), s(6.0));
    let z = Span::new(s(0.0), s(9.0));
    assert_eq!(slab_entry(x, y, z), Some(s(3.0)));
}

#[test]
fn entry_just_behind_the_origin_is_a_miss() {
    let x = Span::new(s(-1e-6), s(3.0));
    let y = Span::new(s(-2.0), s(6.0));
    let z = Span::new(s(-3.0), s(9.0));
    assert_eq!(slab_entry(x, y, z), None);
}

#[test]
fn entry_at_negative_zero_is_a_hit() {
    let x = Span::new(s(-0.0), s(3.0));
    let y = Span::new(s(-2.0), s(6.0));
    let z = Span::new(s(-3.0), s(9.0));
    assert_eq!(slab_entry(x, y, z), Some(s(-0.0)));
}

#[test]
fn equal_entries_keep_the_earlier_axis() {
    let x = Span::new(s(-0.0), s(3.0));
    let y = Span::new(s(0.0), s(6.0));
    let z = Span::new(s(0.0), s(9.0));
    assert_eq!(slab_entry(x, y, z), Some(s(-0.0)));
    let x = Span::new(s(0.0), s(3.0));
    let y = Span::new(s(-0.0), s(6.0));
    assert_eq!(slab_entry(x, y, z), Some(s(0.0)));
}

#[test]
fn parallel_ray_inside_two_slabs_is_bounded_by_the_third() {
    let inf = f32::INFINITY;
    let x = Span::new(s(-inf), s(inf));
    let y = Span::new(s(inf), s(-inf));
    let z = Span::new(s(7.0), s(6.0));
    assert_eq!(slab_entry(x, y, z), Some(s(6.0)));
}

#[test]
fn undefined_bound_gives_a_miss() {
    let nan = f32::NAN;
    let wide = Span::new(s(1.0), s(9.0));
    assert_eq!(slab_entry(Span::new(s(nan), s(9.0)), wide, wide), None);
    assert_eq!(slab_entry(Span::new(s(1.0), s(nan)), wide, wide), None);
    assert_eq!(slab_entry(wide, Span::new(s(nan), s(9.0)), wide), None);
    assert_eq!(slab_entry(wide, Span::new(s(1.0), s(nan)), wide), None);
    assert_eq!(slab_entry(wide, wide, Span::new(s(nan), s(9.0))), None);
    assert_eq!(slab_entry(wide, wide, Span::new(s(1.0), s(nan))), None);
    assert_eq!(slab_entry(wide, wide, wide), Some(s(1.0)));
}

#[test]
fn ray_in_the_plane_of_a_face_misses() {
    // The origin lies in the plane x = 0 and the ray runs parallel to it.
    assert_eq!(entry([0.0, 0.5, 5.0], [0.0, 0.0, -1.0]), None);
}

#[test]
fn flat_box_is_hit_on_its_plane() {
    let x = Span::new(s(2.0), s(2.0));
    let y = Span::new(s(1.0), s(4.0));
    let z = Span::new(s(0.0), s(9.0));
    assert_eq!(slab_entry(x, y, z), Some(s(2.0)));
}

#[test]
fn ray_down_the_z_axis_hits_the_front_face_at_its_middle() {
    let origin = [0.5f32, 0.5, 5.0];
    let direction = [0.0f32, 0.0, -1.0];
    let (x, y, z) = unit_box(origin, direction);
    let distance = slab_entry(x, y, z).expect("the ray hits the box");
    assert_eq!(distance, s(4.0));

    let t = f32::from_bits(distance.to_bits());
    let point = [
        origin[0] + direction[0] * t,
        origin[1] + direction[1] * t,
        origin[2] + direction[2] * t,
    ];
    assert_eq!(point, [0.5, 0.5, 1.0]);

    let clearance = Clearance::new(
        Vector3::new(s(point[0] - 0.0), s(point[1] - 0.0), s(point[2] - 0.0)),
        Vector3::new(s(point[0] - 1.0), s(point[1] - 1.0), s(point[2] - 1.0)),
    );
    assert_eq!(clearance.calculate_normal(), Vector3::new(s(0.0), s(0.0), s(1.0)));
    assert_eq!(clearance.face(), Face::FrontBack);
}
