use vstd::prelude::*;
use crate::color::{Color, lemma_cmul_in_unit};
use crate::materials::{Material, Diffuse, Normals, Scatter, normal_in_range};
use crate::parameters::DebugMode;
use crate::scalar::{UNIT, unit_mul, unit_mul_exec, lemma_unit_mul_bounds};
use crate::statistics::Statistics;
use crate::vec3::Vec3;

verus! {

/// The sky gradient a missing ray contributes: a vertical blend from
/// white at the bottom to a light blue at the top, keyed by the ray
/// direction's vertical component mapped from `[-1, 1]` to `[0, 1]`.
/// The blue channel and the alpha channel blend two full intensities,
/// so both are exactly `UNIT`.
pub open spec fn gradient_spec(z: int) -> Color {
    let t = (z + (UNIT as int)) / 2;
    Color {
        r: ((UNIT - t) + unit_mul(t, 500000)) as i64,
        g: ((UNIT - t) + unit_mul(t, 700000)) as i64,
        b: UNIT as i64,
        a: UNIT as i64,
    }
}

/// What a ray that hits nothing contributes: the sky gradient normally,
/// or a fixed flat color under a debug override.
pub open spec fn background_spec(mode: Option<DebugMode>, z: int) -> Color {
    match mode {
        None => gradient_spec(z),
        Some(DebugMode::Diffuse) => Color { r: 500000, g: 500000, b: 500000, a: UNIT as i64 },
        Some(DebugMode::Normals) => Color { r: 500000, g: 0, b: 500000, a: UNIT as i64 },
    }
}

/// The fixed gray diffuse material substituted for every scene material
/// under the diffuse debug override.
pub open spec fn debug_diffuse_spec() -> Material {
    Material::Diffuse(
        Diffuse { albedo: Color { r: 500000, g: 500000, b: 500000, a: UNIT as i64 } },
    )
}

/// The material actually scattered at a hit: the object's own, unless a
/// debug override substitutes a fixed one.
pub open spec fn effective_material_spec(mode: Option<DebugMode>, m: Material) -> Material {
    match mode {
        None => m,
        Some(DebugMode::Diffuse) => debug_diffuse_spec(),
        Some(DebugMode::Normals) => Material::Normals(Normals {  }),
    }
}

/// The color a terminated path contributes: the color at which it
/// terminated, attenuated by every recorded bounce, outermost bounce
/// applied last as the recursion unwinds.
pub open spec fn attenuated_fold(atts: Seq<Color>, terminal: Color) -> Color
    decreases atts.len(),
{
    if atts.len() == 0 {
        terminal
    } else {
        atts[0].cmul(attenuated_fold(atts.skip(1), terminal))
    }
}

/// Every color of a sequence has its channels in `[0, UNIT]` and is
/// opaque.
pub open spec fn all_in_unit_opaque(atts: Seq<Color>) -> bool {
    forall|i: int|
        0 <= i < atts.len() ==> (#[trigger] atts[i]).in_unit() && atts[i].opaque()
}

/// The background gradient has every channel in `[0, UNIT]` and is
/// exactly opaque for every admissible vertical component.
pub proof fn lemma_gradient_in_unit(z: int)
    requires
        -UNIT <= z <= UNIT,
    ensures
        gradient_spec(z).in_unit(),
        gradient_spec(z).opaque(),
{
    let t = (z + (UNIT as int)) / 2;
    lemma_unit_mul_bounds(t, 500000);
    lemma_unit_mul_bounds(t, 700000);
}

/// The background color is a function of the debug mode and the ray
/// direction's vertical component alone: two rays with the same
/// direction get the same background, whichever pixels they serve.
pub proof fn lemma_background_direction_only(
    mode: Option<DebugMode>,
    z1: int,
    z2: int,
)
    requires
        z1 == z2,
    ensures
        background_spec(mode, z1) == background_spec(mode, z2),
{
}

/// A path cut off at the scatter limit contributes opaque black however
/// many opaque attenuations it recorded: black absorbs the product.
pub proof fn lemma_fold_black(atts: Seq<Color>)
    requires
        all_in_unit_opaque(atts),
    ensures
        attenuated_fold(atts, Color { r: 0, g: 0, b: 0, a: UNIT as i64 }) == (Color {
            r: 0,
            g: 0,
            b: 0,
            a: UNIT as i64,
        }),
    decreases atts.len(),
{
    if atts.len() > 0 {
        lemma_fold_black(atts.skip(1));
        let a = atts[0];
        lemma_unit_mul_bounds(a.r as int, 0);
        lemma_unit_mul_bounds(a.g as int, 0);
        lemma_unit_mul_bounds(a.b as int, 0);
        lemma_unit_mul_bounds(a.a as int, UNIT as int);
    }
}

/// Computes the contribution of a terminated path: the terminal color
/// attenuated by every recorded bounce.
fn apply_attenuations(atts: &Vec<Color>, terminal: Color) -> (c: Color)
    requires
        all_in_unit_opaque(atts@),
        terminal.in_unit(),
        terminal.opaque(),
    ensures
        c == attenuated_fold(atts@, terminal),
        c.in_unit(),
        c.opaque(),
{
    let mut c = terminal;
    let mut i: usize = atts.len();
    proof {
        assert(atts@.skip(i as int) =~= Seq::<Color>::empty());
    }
    while i > 0
        invariant
            i <= atts@.len(),
            all_in_unit_opaque(atts@),
            terminal.in_unit(),
            terminal.opaque(),
            c == attenuated_fold(atts@.skip(i as int), terminal),
            c.in_unit(),
            c.opaque(),
        decreases i,
    {
        i = i - 1;
        c = atts[i].attenuated(&c);
        proof {
            assert(atts@.skip(i as int).skip(1) =~= atts@.skip(i as int + 1));
            assert(atts@.skip(i as int)[0] == atts@[i as int]);
        }
    }
    proof {
        assert(atts@.skip(0) =~= atts@);
    }
    c
}

/// The state of one path sample: how deep the scatter recursion has
/// gone, which attenuations the bounces so far have recorded, and the
/// final color once the path has terminated.
///
/// The rendering front end drives it: it traces each ray with its own
/// geometry and reports back either a miss or the hit's material and
/// normal; every decision of the integrator — cutting off at the limit,
/// substituting debug materials, terminating or bouncing, accounting
/// statistics, and composing the final color — happens here.
pub struct PathSampler {
    /// Paths are cut off after this many scatter events.
    pub limit: u16,
    /// The active debug override, if any.
    pub debug_mode: Option<DebugMode>,
    /// The current scatter depth: number of bounces recorded so far.
    pub scatter_index: u32,
    /// The attenuation of each bounce, outermost first.
    pub attenuations: Vec<Color>,
    /// The path's contribution, once it has terminated.
    pub outcome: Option<Color>,
}

impl PathSampler {
    /// The sampler's invariant: the depth never passes one beyond the
    /// limit, one attenuation is recorded per bounce, every recorded
    /// attenuation is in range and opaque, and so is the outcome.
    pub open spec fn wf(self) -> bool {
        &&& self.scatter_index <= self.limit + 1
        &&& self.attenuations@.len() == self.scatter_index
        &&& all_in_unit_opaque(self.attenuations@)
        &&& self.outcome matches Some(c) ==> c.in_unit() && c.opaque()
    }

    /// The path has not terminated yet.
    pub open spec fn pending_spec(self) -> bool {
        self.outcome is None
    }

    /// The next level would exceed the scatter limit.
    pub open spec fn over_limit_spec(self) -> bool {
        self.scatter_index > self.limit
    }

    /// The scatter decided at a hit, after any debug substitution.
    pub open spec fn hit_scatter(self, m: Material, normal: Vec3) -> Scatter {
        effective_material_spec(self.debug_mode, m).scatter_spec(normal)
    }

    /// A fresh path at depth zero.
    pub fn new(limit: u16, debug_mode: Option<DebugMode>) -> (s: PathSampler)
        ensures
            s.wf(),
            s.limit == limit,
            s.debug_mode == debug_mode,
            s.scatter_index == 0,
            s.attenuations@.len() == 0,
            s.pending_spec(),
            !s.over_limit_spec(),
    {
        PathSampler {
            limit,
            debug_mode,
            scatter_index: 0,
            attenuations: Vec::new(),
            outcome: None,
        }
    }

    /// Whether the path still awaits a trace result.
    pub fn pending(&self) -> (r: bool)
        ensures
            r == self.pending_spec(),
    {
        match self.outcome {
            None => true,
            Some(_) => false,
        }
    }

    /// Whether the next level would exceed the scatter limit; when it
    /// would, the front end must not trace another ray but cut the path
    /// off.
    pub fn over_limit(&self) -> (r: bool)
        ensures
            r == self.over_limit_spec(),
    {
        self.scatter_index > self.limit as u32
    }

    /// Terminates a path whose depth has passed the scatter limit: it
    /// contributes opaque black — equal, as the recorded attenuations
    /// are opaque, to black attenuated by all of them.
    pub fn cut_off(&mut self)
        requires
            old(self).wf(),
            old(self).pending_spec(),
            old(self).over_limit_spec(),
        ensures
            final(self).wf(),
            !final(self).pending_spec(),
            final(self).outcome == Some(Color { r: 0, g: 0, b: 0, a: UNIT as i64 }),
            final(self).outcome == Some(
                attenuated_fold(
                    old(self).attenuations@,
                    Color { r: 0, g: 0, b: 0, a: UNIT as i64 },
                ),
            ),
            final(self).limit == old(self).limit,
            final(self).debug_mode == old(self).debug_mode,
            final(self).scatter_index == old(self).scatter_index,
            final(self).attenuations@ == old(self).attenuations@,
    {
        proof {
            lemma_fold_black(self.attenuations@);
        }
        self.outcome = Some(Color { r: 0, g: 0, b: 0, a: UNIT });
    }

    /// Terminates a path whose ray hit nothing: it contributes the
    /// background keyed by the ray direction's vertical component,
    /// attenuated by the recorded bounces. Accounts one path sample.
    pub fn on_miss(&mut self, direction_z: i64, stats: &mut Statistics)
        requires
            old(self).wf(),
            old(self).pending_spec(),
            !old(self).over_limit_spec(),
            -UNIT <= direction_z <= UNIT,
            old(stats).samples < usize::MAX,
        ensures
            final(self).wf(),
            !final(self).pending_spec(),
            final(self).outcome == Some(
                attenuated_fold(
                    old(self).attenuations@,
                    background_spec(old(self).debug_mode, direction_z as int),
                ),
            ),
            final(self).limit == old(self).limit,
            final(self).debug_mode == old(self).debug_mode,
            final(self).scatter_index == old(self).scatter_index,
            final(self).attenuations@ == old(self).attenuations@,
            *final(stats) == (Statistics {
                samples: (old(stats).samples + 1) as usize,
                ..*old(stats)
            }),
    {
        stats.samples = stats.samples + 1;
        let background = background_color(&self.debug_mode, direction_z);
        let c = apply_attenuations(&self.attenuations, background);
        self.outcome = Some(c);
    }

    /// Processes a hit: substitutes the debug material if a debug mode
    /// is active, asks the effective material for its scatter decision,
    /// and either records the bounce — the front end must then trace
    /// the scattered ray — or terminates the path with the decision's
    /// attenuation. Accounts one path sample and one intersection, and,
    /// on a bounce, one scatter event at the current depth.
    ///
    /// Whenever the recorded deepest scatter was within the limit, it
    /// stays within the limit: the scatter recursion is depth-bounded.
    pub fn on_hit(&mut self, object_material: &Material, normal: &Vec3, stats: &mut Statistics)
        -> (bounced: bool)
        requires
            old(self).wf(),
            old(self).pending_spec(),
            !old(self).over_limit_spec(),
            object_material.wf(),
            normal_in_range(*normal),
            effective_material_spec(old(self).debug_mode, *object_material) is Normals
                ==> old(self).scatter_index == 0,
            old(stats).samples < usize::MAX,
            old(stats).intersections < usize::MAX,
            old(stats).scatters < usize::MAX,
        ensures
            final(self).wf(),
            bounced == (old(self).hit_scatter(*object_material, *normal) is Bounce),
            final(self).limit == old(self).limit,
            final(self).debug_mode == old(self).debug_mode,
            final(stats).samples == old(stats).samples + 1,
            final(stats).intersections == old(stats).intersections + 1,
            final(stats).pixels == old(stats).pixels,
            final(stats).subpixels == old(stats).subpixels,
            final(stats).max_scatters >= old(stats).max_scatters,
            old(stats).max_scatters <= old(self).limit ==> final(stats).max_scatters <= old(
                self,
            ).limit,
            bounced ==> {
                &&& final(self).pending_spec()
                &&& final(self).scatter_index == old(self).scatter_index + 1
                &&& final(self).attenuations@ == old(self).attenuations@.push(
                    old(self).hit_scatter(*object_material, *normal).attenuation_spec(),
                )
                &&& final(stats).scatters == old(stats).scatters + 1
                &&& final(stats).max_scatters == if old(stats).max_scatters >= old(
                    self,
                ).scatter_index {
                    old(stats).max_scatters as int
                } else {
                    old(self).scatter_index as int
                }
            },
            !bounced ==> {
                &&& !final(self).pending_spec()
                &&& final(self).outcome == Some(
                    attenuated_fold(
                        old(self).attenuations@,
                        old(self).hit_scatter(*object_material, *normal).attenuation_spec(),
                    ),
                )
                &&& final(self).scatter_index == old(self).scatter_index
                &&& final(self).attenuations@ == old(self).attenuations@
                &&& final(stats).scatters == old(stats).scatters
                &&& final(stats).max_scatters == old(stats).max_scatters
            },
    {
        stats.samples = stats.samples + 1;
        stats.intersections = stats.intersections + 1;
        let eff = effective_material(&self.debug_mode, object_material);
        let depth16: u16 = self.scatter_index as u16;
        let decision = eff.scatter_decision(normal, depth16);
        match decision {
            Scatter::Bounce { attenuation } => {
                stats.scatters = stats.scatters + 1;
                if stats.max_scatters < depth16 {
                    stats.max_scatters = depth16;
                }
                self.attenuations.push(attenuation);
                self.scatter_index = self.scatter_index + 1;
                true
            },
            Scatter::Absorb { attenuation } => {
                let c = apply_attenuations(&self.attenuations, attenuation);
                self.outcome = Some(c);
                false
            },
        }
    }

    /// The terminated path's contribution.
    pub fn color(&self) -> (c: Color)
        requires
            !self.pending_spec(),
        ensures
            self.outcome == Some(c),
            self.wf() ==> c.in_unit() && c.opaque(),
    {
        match &self.outcome {
            Some(c) => *c,
            None => {
                proof {
                    assert(false);
                }
                Color { r: 0, g: 0, b: 0, a: UNIT }
            },
        }
    }
}

/// The scatter recursion is depth-bounded: with scatter limit `L` a
/// path enters at most `L + 1` levels, so at most `L + 1` bounces are
/// ever recorded and no scatter is recorded deeper than `L`.
pub proof fn lemma_recursion_bounded(s: PathSampler)
    requires
        s.wf(),
    ensures
        s.scatter_index <= s.limit + 1,
        s.attenuations@.len() <= s.limit + 1,
{
}

/// Computes the background color for a ray that hit nothing.
pub fn background_color(mode: &Option<DebugMode>, direction_z: i64) -> (c: Color)
    requires
        -UNIT <= direction_z <= UNIT,
    ensures
        c == background_spec(*mode, direction_z as int),
        c.in_unit(),
        c.opaque(),
{
    match mode {
        None => {
            proof {
                lemma_gradient_in_unit(direction_z as int);
            }
            let t = (direction_z + UNIT) / 2;
            Color {
                r: (UNIT - t) + unit_mul_exec(t, 500000),
                g: (UNIT - t) + unit_mul_exec(t, 700000),
                b: UNIT,
                a: UNIT,
            }
        },
        Some(DebugMode::Diffuse) => Color { r: 500000, g: 500000, b: 500000, a: UNIT },
        Some(DebugMode::Normals) => Color { r: 500000, g: 0, b: 500000, a: UNIT },
    }
}

/// The material scattered at a hit: the object's own, unless a debug
/// override substitutes a fixed one; well-formedness is preserved.
pub fn effective_material(mode: &Option<DebugMode>, m: &Material) -> (r: Material)
    ensures
        r == effective_material_spec(*mode, *m),
        m.wf() ==> r.wf(),
{
    match mode {
        None => *m,
        Some(DebugMode::Diffuse) => Material::Diffuse(
            Diffuse { albedo: Color { r: 500000, g: 500000, b: 500000, a: UNIT } },
        ),
        Some(DebugMode::Normals) => Material::Normals(Normals {  }),
    }
}

} // verus!
