use vstd::prelude::*;
use crate::vec3::Vec3;

verus! {

/// The geometric sphere: a center and a fixed-point radius. A negative
/// radius flips the reported surface normal, which builds hollow or
/// inverted shells for dielectric bubbles; a radius of zero is invalid
/// scene data and is rejected when the scene is constructed.
#[derive(Clone, Copy, Debug, PartialEq, Eq, Structural)]
pub struct Sphere {
    pub center: Vec3,
    pub radius: i64,
}

impl Sphere {
    /// The sphere is valid scene data.
    pub open spec fn wf(self) -> bool {
        self.radius != 0
    }

    pub fn new(center: Vec3, radius: i64) -> (s: Sphere)
        requires
            radius != 0,
        ensures
            s == (Sphere { center, radius }),
            s.wf(),
    {
        Sphere { center, radius }
    }
}

/// Which root of the ray–sphere quadratic a hit takes: the nearer root
/// (smaller distance along the ray) or the farther one.
#[derive(Clone, Copy, Debug, PartialEq, Eq, Structural)]
pub enum RootChoice {
    Nearer,
    Farther,
}

/// The rule for picking a root: the first of the nearer and farther
/// roots, in that order, that lies strictly inside the admissible
/// distance interval; no hit when neither does.
pub open spec fn root_choice_spec(
    nearer: int,
    farther: int,
    min_length: int,
    max_length: int,
) -> Option<RootChoice> {
    if min_length < nearer < max_length {
        Some(RootChoice::Nearer)
    } else if min_length < farther < max_length {
        Some(RootChoice::Farther)
    } else {
        None
    }
}

/// A ray pointing away from a sphere never hits it, whatever the upper
/// distance bound: both roots of its quadratic lie at or behind the
/// near bound, so neither is ever selected.
pub proof fn lemma_roots_behind_never_hit(
    nearer: int,
    farther: int,
    min_length: int,
    max_length: int,
)
    requires
        nearer <= min_length,
        farther <= min_length,
    ensures
        root_choice_spec(nearer, farther, min_length, max_length) is None,
{
}

/// Selects the root of the ray–sphere quadratic that makes the hit:
/// roots and bounds may be in any order-preserving scalar encoding.
/// A negative discriminant (no real roots) never reaches this
/// selection: it is a miss outright.
pub fn select_root(nearer: i64, farther: i64, min_length: i64, max_length: i64) -> (r: Option<
    RootChoice,
>)
    ensures
        r == root_choice_spec(nearer as int, farther as int, min_length as int, max_length as int),
{
    if min_length < nearer && nearer < max_length {
        Some(RootChoice::Nearer)
    } else if min_length < farther && farther < max_length {
        Some(RootChoice::Farther)
    } else {
        None
    }
}

} // verus!
