use vstd::prelude::*;

verus! {

/// A rendering override that replaces every material in the scene, to
/// visualize geometry or shading independently of scene authoring.
#[derive(Clone, Copy, Debug, PartialEq, Eq, Structural)]
pub enum DebugMode {
    /// Render everything with a fixed gray diffuse material.
    Diffuse,
    /// Render surface normals as colors; paths terminate at the first hit.
    Normals,
}

/// User-facing rendering parameters: output size, antialiasing grid
/// density, the path recursion limit, and an optional debug override.
#[derive(Clone, Copy, Debug, PartialEq, Eq, Structural)]
pub struct Parameters {
    pub image_width: usize,
    pub image_height: usize,
    /// The antialiasing grid is `antialias_samples` by `antialias_samples`
    /// subsamples per pixel; must be at least one.
    pub antialias_samples: u16,
    /// Paths are cut off after this many scatter events.
    pub scatter_limit: u16,
    pub debug_mode: Option<DebugMode>,
}

impl Parameters {
    /// The parameters describe an image that can actually be rendered:
    /// a nonempty image whose pixel count fits the address space and at
    /// least one antialiasing sample.
    pub open spec fn renderable(self) -> bool {
        &&& self.image_width >= 1
        &&& self.image_height >= 1
        &&& self.image_width * self.image_height <= usize::MAX
        &&& self.antialias_samples >= 1
    }

    /// Whether the parameters describe a renderable image.
    pub fn is_renderable(&self) -> (r: bool)
        ensures
            r == self.renderable(),
    {
        if self.image_width >= 1 && self.image_height >= 1 && self.antialias_samples >= 1 {
            proof {
                assert(((self.image_width as int) <= (usize::MAX as int) / (
                self.image_height as int)) == (self.image_width * self.image_height
                    <= usize::MAX)) by (nonlinear_arith)
                    requires
                        self.image_height >= 1,
                ;
            }
            self.image_width <= usize::MAX / self.image_height
        } else {
            false
        }
    }
}

impl Default for Parameters {
    /// The default render: a 1024 by 576 image, a 4 by 4 antialiasing
    /// grid, eight scatter bounces, no debug override.
    fn default() -> (r: Parameters)
        ensures
            r.image_width == 1024,
            r.image_height == 576,
            r.antialias_samples == 4,
            r.scatter_limit == 8,
            r.debug_mode is None,
            r.renderable(),
    {
        Parameters {
            image_width: 1024,
            image_height: 576,
            antialias_samples: 4,
            scatter_limit: 8,
            debug_mode: None,
        }
    }
}

} // verus!
