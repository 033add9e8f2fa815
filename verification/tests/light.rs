use raytracer::light::{first_occluder, shadow_bias};
use raytracer::material::Material;
use raytracer::ray_intersect::Intersect;
use raytracer::color::Color;
use raytracer::scalar::Scalar;
use raytracer::vector::Vector3;

fn s(value: f32) -> Scalar {
    Scalar::from_bits(value.to_bits())
}

fn hit(distance: f32) -> Intersect {
    let white = Color::new(255, 255, 255);
    let material = Material::new([s(1.0), s(0.0)], s(0.5), s(0.0), s(0.0), white, white);
    Intersect::new(Vector3::zeros(), Vector3::zeros(), s(distance), material)
}

fn miss() -> Intersect {
    Intersect::empty()
}

#[test]
fn light_reaches_a_point_in_an_empty_scene() {
    assert_eq!(first_occluder(&[], s(10.0)), None);
}

#[test]
fn light_reaches_a_point_that_no_object_shades() {
    assert_eq!(first_occluder(&[miss(), miss()], s(10.0)), None);
}

#[test]
fn object_before_the_light_shades_the_point() {
    assert_eq!(first_occluder(&[miss(), hit(4.0), miss()], s(10.0)), Some(1));
}

#[test]
fn object_behind_the_light_does_not_shade_the_point() {
    assert_eq!(first_occluder(&[hit(12.0), hit(10.0)], s(10.0)), None);
}

#[test]
fn first_object_before_the_light_counts_not_the_nearest() {
    assert_eq!(first_occluder(&[hit(12.0), hit(8.0), hit(2.0)], s(10.0)), Some(1));
}

#[test]
fn object_at_the_point_itself_shades_it() {
    assert_eq!(first_occluder(&[hit(0.0)], s(10.0)), Some(0));
}

#[test]
fn light_at_an_undefined_distance_is_never_shaded() {
    assert_eq!(first_occluder(&[hit(1.0)], s(f32::NAN)), None);
    assert_eq!(first_occluder(&[hit(f32::NAN)], s(10.0)), None);
}

#[test]
fn shadow_ray_starts_off_the_surface_towards_the_light() {
    assert_eq!(shadow_bias(s(0.7)).to_bits(), 1e-4f32.to_bits());
    assert_eq!(shadow_bias(s(0.0)).to_bits(), 1e-4f32.to_bits());
    assert_eq!(shadow_bias(s(-0.0)).to_bits(), 1e-4f32.to_bits());
    assert_eq!(shadow_bias(s(f32::NAN)).to_bits(), 1e-4f32.to_bits());
}

#[test]
fn shadow_ray_starts_behind_the_surface_for_a_light_behind_it() {
    assert_eq!(shadow_bias(s(-0.7)).to_bits(), (-1e-4f32).to_bits());
    assert_eq!(shadow_bias(s(-1e-30)).to_bits(), (-1e-4f32).to_bits());
}
