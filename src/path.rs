use vstd::prelude::*;

verus! {

/// Marker for a ray that reached no surface.
pub struct HitRecordNoHit;

/// What the scene and the material of the surface it hit did with one traced
/// ray.
#[derive(Clone, Copy, Debug, PartialEq, Eq, Structural)]
pub enum Interaction {
    /// The ray reached no surface in the search range.
    Miss,
    /// The surface absorbed the ray.
    Absorbed,
    /// The surface sent out a new ray, with an attenuation.
    Scattered,
}

/// What a light path contributes at its current vertex.
#[derive(Clone, Copy, Debug, PartialEq, Eq, Structural)]
pub enum PathStep {
    /// No light: the path was absorbed or ran out of bounces.
    Black,
    /// The sky gradient, seen along the ray's direction.
    Background,
    /// The attenuation times the light of the scattered ray, followed with
    /// `bounces_left` bounces.
    Bounce { bounces_left: u64 },
}

/// Whether a path with `bounces_left` bounces still traces its ray; one with
/// none left ends in black without looking at the scene.
pub fn traces(bounces_left: u64) -> (r: bool)
    ensures
        r == (bounces_left > 0),
{
    bounces_left > 0
}

/// The next step of a light path with `bounces_left` bounces left, given what
/// became of its traced ray.
pub fn next_step(bounces_left: u64, interaction: Interaction) -> (r: PathStep)
    ensures
        bounces_left == 0 ==> r == PathStep::Black,
        bounces_left > 0 ==> r == match interaction {
            Interaction::Miss => PathStep::Background,
            Interaction::Absorbed => PathStep::Black,
            Interaction::Scattered => PathStep::Bounce { bounces_left: (bounces_left - 1) as u64 },
        },
{
    if bounces_left == 0 {
        return PathStep::Black;
    }
    match interaction {
        Interaction::Miss => PathStep::Background,
        Interaction::Absorbed => PathStep::Black,
        Interaction::Scattered => PathStep::Bounce { bounces_left: bounces_left - 1 },
    }
}

/// Whether a dielectric reflects rather than refracts: always when the
/// refraction ratio times the sine of the incidence angle exceeds one (total
/// internal reflection), otherwise when the draw against Schlick's reflectance
/// selects reflection.
pub fn dielectric_reflects(cannot_refract: bool, schlick_selects: bool) -> (r: bool)
    ensures
        r == (cannot_refract || schlick_selects),
        cannot_refract ==> r,
{
    cannot_refract || schlick_selects
}

} // verus!
