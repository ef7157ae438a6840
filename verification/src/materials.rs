use vstd::prelude::*;
use crate::color::Color;
use crate::scalar::UNIT;
use crate::vec3::Vec3;

verus! {

/// A surface normal handed to the scattering protocol: unit length by
/// convention, so every component lies within `[-UNIT, UNIT]`.
pub open spec fn normal_in_range(n: Vec3) -> bool {
    &&& -UNIT <= n.x <= UNIT
    &&& -UNIT <= n.y <= UNIT
    &&& -UNIT <= n.z <= UNIT
}

/// The color the normal-visualization material reports for a surface
/// normal: each component mapped from `[-1, 1]` to `[0, 1]`, opaque.
pub open spec fn normal_color(n: Vec3) -> Color {
    Color {
        r: ((n.x + UNIT) / 2) as i64,
        g: ((n.y + UNIT) / 2) as i64,
        b: ((n.z + UNIT) / 2) as i64,
        a: UNIT as i64,
    }
}

/// A diffuse (Lambertian) surface: bounces in a random direction around
/// the normal and attenuates by its albedo.
#[derive(Clone, Copy, Debug, PartialEq, Eq, Structural)]
pub struct Diffuse {
    pub albedo: Color,
}

/// A debug material that terminates the path at the first hit and
/// reports the surface normal as a color.
#[derive(Clone, Copy, Debug, PartialEq, Eq, Structural)]
pub struct Normals {
}

/// A reflective surface: bounces along the mirrored direction,
/// perturbed by its roughness, and attenuates by its albedo.
#[derive(Clone, Copy, Debug, PartialEq, Eq, Structural)]
pub struct Metallic {
    pub albedo: Color,
    /// How far the reflection is perturbed, from `0` (mirror) to `UNIT`.
    pub roughness: i64,
}

/// A dielectric surface: refracts or reflects stochastically and
/// attenuates by its albedo (typically white).
#[derive(Clone, Copy, Debug, PartialEq, Eq, Structural)]
pub struct Refractive {
    pub albedo: Color,
    /// Ratio of refraction indices; positive.
    pub refractive_index: i64,
}

/// The closed set of material behaviors an object can have.
#[derive(Clone, Copy, Debug, PartialEq, Eq, Structural)]
pub enum Material {
    Diffuse(Diffuse),
    Normals(Normals),
    Metallic(Metallic),
    Refractive(Refractive),
}

/// What a material decides at a hit: either the path continues and its
/// color is attenuated, or the path terminates contributing the
/// attenuation directly.
#[derive(Clone, Copy, Debug, PartialEq, Eq, Structural)]
pub enum Scatter {
    Bounce { attenuation: Color },
    Absorb { attenuation: Color },
}

impl Scatter {
    /// The attenuation carried by either outcome.
    pub open spec fn attenuation_spec(self) -> Color {
        match self {
            Scatter::Bounce { attenuation } => attenuation,
            Scatter::Absorb { attenuation } => attenuation,
        }
    }
}

impl Material {
    /// Scene data is well formed: albedos have every channel in
    /// `[0, UNIT]` and are opaque, roughness lies in `[0, UNIT]`, and
    /// refraction indices are positive. Scenes must be rejected at
    /// construction time when this fails.
    pub open spec fn wf(self) -> bool {
        match self {
            Material::Diffuse(d) => d.albedo.in_unit() && d.albedo.opaque(),
            Material::Normals(_) => true,
            Material::Metallic(m) => m.albedo.in_unit() && m.albedo.opaque() && 0 <= m.roughness
                <= UNIT,
            Material::Refractive(r) => r.albedo.in_unit() && r.albedo.opaque()
                && r.refractive_index > 0,
        }
    }

    /// What the material decides at a hit with the given surface normal:
    /// diffuse, metallic and refractive materials always bounce and
    /// attenuate by their albedo; the normal-visualization material
    /// always absorbs and contributes the normal mapped to a color.
    pub open spec fn scatter_spec(self, normal: Vec3) -> Scatter {
        match self {
            Material::Diffuse(d) => Scatter::Bounce { attenuation: d.albedo },
            Material::Normals(_) => Scatter::Absorb { attenuation: normal_color(normal) },
            Material::Metallic(m) => Scatter::Bounce { attenuation: m.albedo },
            Material::Refractive(r) => Scatter::Bounce { attenuation: r.albedo },
        }
    }

    /// Whether the material's scene data is well formed.
    pub fn is_wf(&self) -> (r: bool)
        ensures
            r == self.wf(),
    {
        match self {
            Material::Diffuse(d) => d.albedo.is_valid() && d.albedo.a == UNIT,
            Material::Normals(_) => true,
            Material::Metallic(m) => m.albedo.is_valid() && m.albedo.a == UNIT && 0 <= m.roughness
                && m.roughness <= UNIT,
            Material::Refractive(r) => r.albedo.is_valid() && r.albedo.a == UNIT
                && r.refractive_index > 0,
        }
    }

    /// The decision part of the scattering protocol. The geometric part
    /// (choosing the bounced ray's direction) depends on random sampling
    /// and normalization and belongs to the rendering front end.
    ///
    /// The normal-visualization material is only legal at scatter depth
    /// zero; calling it deeper is a programming error, excluded here by
    /// precondition.
    pub fn scatter_decision(&self, normal: &Vec3, scatter_index: u16) -> (r: Scatter)
        requires
            self.wf(),
            normal_in_range(*normal),
            *self is Normals ==> scatter_index == 0,
        ensures
            r == self.scatter_spec(*normal),
            r.attenuation_spec().in_unit(),
            r.attenuation_spec().opaque(),
    {
        match self {
            Material::Diffuse(d) => Scatter::Bounce { attenuation: d.albedo },
            Material::Normals(_) => Scatter::Absorb {
                attenuation: Color {
                    r: (normal.x + UNIT) / 2,
                    g: (normal.y + UNIT) / 2,
                    b: (normal.z + UNIT) / 2,
                    a: UNIT,
                },
            },
            Material::Metallic(m) => Scatter::Bounce { attenuation: m.albedo },
            Material::Refractive(r) => Scatter::Bounce { attenuation: r.albedo },
        }
    }
}

impl Diffuse {
    /// A diffuse material with the given albedo; scene data must be
    /// well formed.
    pub fn new(albedo: Color) -> (r: Material)
        requires
            albedo.in_unit(),
            albedo.opaque(),
        ensures
            r == Material::Diffuse(Diffuse { albedo }),
            r.wf(),
    {
        Material::Diffuse(Diffuse { albedo })
    }

    pub fn albedo(&self) -> (r: Color)
        ensures
            r == self.albedo,
    {
        self.albedo
    }
}

impl Normals {
    /// The normal-visualization material.
    pub fn new() -> (r: Material)
        ensures
            r == Material::Normals(Normals {  }),
            r.wf(),
    {
        Material::Normals(Normals {  })
    }
}

impl Metallic {
    /// A metallic material with the given albedo and roughness; scene
    /// data must be well formed.
    pub fn new(albedo: Color, roughness: i64) -> (r: Material)
        requires
            albedo.in_unit(),
            albedo.opaque(),
            0 <= roughness <= UNIT,
        ensures
            r == Material::Metallic(Metallic { albedo, roughness }),
            r.wf(),
    {
        Material::Metallic(Metallic { albedo, roughness })
    }

    pub fn albedo(&self) -> (r: Color)
        ensures
            r == self.albedo,
    {
        self.albedo
    }

    pub fn roughness(&self) -> (r: i64)
        ensures
            r == self.roughness,
    {
        self.roughness
    }
}

impl Refractive {
    /// A refractive material with the given albedo and refraction index
    /// ratio; scene data must be well formed.
    pub fn new(albedo: Color, refractive_index: i64) -> (r: Material)
        requires
            albedo.in_unit(),
            albedo.opaque(),
            refractive_index > 0,
        ensures
            r == Material::Refractive(Refractive { albedo, refractive_index }),
            r.wf(),
    {
        Material::Refractive(Refractive { albedo, refractive_index })
    }

    pub fn albedo(&self) -> (r: Color)
        ensures
            r == self.albedo,
    {
        self.albedo
    }

    pub fn refractive_index(&self) -> (r: i64)
        ensures
            r == self.refractive_index,
    {
        self.refractive_index
    }
}

/// Diffuse and metallic materials always produce a bounce, and the
/// attenuation they return (their albedo) has every channel in
/// `[0, UNIT]` and is opaque.
pub proof fn lemma_diffuse_metallic_attenuation(m: Material, normal: Vec3)
    requires
        m.wf(),
        m is Diffuse || m is Metallic,
    ensures
        m.scatter_spec(normal) is Bounce,
        m.scatter_spec(normal).attenuation_spec().in_unit(),
        m.scatter_spec(normal).attenuation_spec().opaque(),
{
}

} // verus!
