//! Surface materials.
use vstd::prelude::*;
use crate::color::Color;
use crate::scalar::Scalar;

verus! {

/// How a surface answers light.
///
/// `albedo` holds two weights: that of the diffuse term and that of the
/// specular term. `specular` is the exponent of the specular term,
/// `reflectivity` the base reflectance of the surface, and `fresnel_color` the
/// tint that the surface takes on at grazing angles. `transparency` is carried
/// along and plays no part in shading.
#[derive(Clone, Copy, Debug, PartialEq, Eq)]
pub struct Material {
    pub albedo: [Scalar; 2],
    pub specular: Scalar,
    pub transparency: Scalar,
    pub reflectivity: Scalar,
    pub diffuse: Color,
    pub fresnel_color: Color,
}

impl Material {
    /// The same material with another diffuse color.
    pub open spec fn with_diffuse_spec(&self, diffuse: Color) -> Material {
        Material {
            albedo: self.albedo,
            specular: self.specular,
            transparency: self.transparency,
            reflectivity: self.reflectivity,
            diffuse,
            fresnel_color: self.fresnel_color,
        }
    }

    /// Builds a material from its six properties.
    pub fn new(
        albedo: [Scalar; 2],
        specular: Scalar,
        transparency: Scalar,
        reflectivity: Scalar,
        diffuse: Color,
        fresnel_color: Color,
    ) -> (m: Material)
        ensures
            m == (Material { albedo, specular, transparency, reflectivity, diffuse, fresnel_color }),
    {
        Material { albedo, specular, transparency, reflectivity, diffuse, fresnel_color }
    }

    /// The material of a point whose color comes from a texture: the same
    /// material with `diffuse` in place of its own diffuse color.
    #[verifier::when_used_as_spec(with_diffuse_spec)]
    pub fn with_diffuse(&self, diffuse: Color) -> (m: Material)
        ensures
            m == self.with_diffuse_spec(diffuse),
    {
        Material {
            albedo: self.albedo,
            specular: self.specular,
            transparency: self.transparency,
            reflectivity: self.reflectivity,
            diffuse,
            fresnel_color: self.fresnel_color,
        }
    }
}

} // verus!
