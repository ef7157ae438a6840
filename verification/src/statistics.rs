use vstd::prelude::*;

verus! {

/// Diagnostic counters accumulated while rendering an image.
///
/// One accumulator is kept per pixel (or per chunk of pixels) while the
/// renderer runs in parallel; the partial accumulators are then combined
/// with [`Statistics::accumulated`], whose merge is proved commutative and
/// associative below, so the order in which worker results arrive cannot
/// change the grand total.
#[derive(Clone, Copy, Debug, PartialEq, Eq, Structural)]
pub struct Statistics {
    /// Pixels fully evaluated.
    pub pixels: usize,
    /// Antialiasing subpixel samples taken.
    pub subpixels: usize,
    /// Path samples evaluated (levels of the scatter recursion entered).
    pub samples: usize,
    /// Ray/scene intersections that produced a hit.
    pub intersections: usize,
    /// Scatter events that produced a follow-up ray.
    pub scatters: usize,
    /// Deepest scatter index at which a scatter event occurred.
    pub max_scatters: u16,
}

impl Statistics {
    /// All counters are zero.
    pub open spec fn is_zero(self) -> bool {
        &&& self.pixels == 0
        &&& self.subpixels == 0
        &&& self.samples == 0
        &&& self.intersections == 0
        &&& self.scatters == 0
        &&& self.max_scatters == 0
    }

    /// The component-wise sums of two accumulators fit their counters.
    pub open spec fn merge_fits(self, other: Statistics) -> bool {
        &&& self.pixels + other.pixels <= usize::MAX
        &&& self.subpixels + other.subpixels <= usize::MAX
        &&& self.samples + other.samples <= usize::MAX
        &&& self.intersections + other.intersections <= usize::MAX
        &&& self.scatters + other.scatters <= usize::MAX
    }

    /// The merge of two accumulators: counters add, the deepest scatter
    /// index is the maximum of the two.
    pub open spec fn merged(self, other: Statistics) -> Statistics {
        Statistics {
            pixels: (self.pixels + other.pixels) as usize,
            subpixels: (self.subpixels + other.subpixels) as usize,
            samples: (self.samples + other.samples) as usize,
            intersections: (self.intersections + other.intersections) as usize,
            scatters: (self.scatters + other.scatters) as usize,
            max_scatters: if self.max_scatters >= other.max_scatters {
                self.max_scatters
            } else {
                other.max_scatters
            },
        }
    }

    /// An accumulator with every counter at zero.
    pub fn new() -> (r: Statistics)
        ensures
            r.is_zero(),
    {
        Statistics {
            pixels: 0,
            subpixels: 0,
            samples: 0,
            intersections: 0,
            scatters: 0,
            max_scatters: 0,
        }
    }

    /// The accumulator a single pixel task starts from: it accounts for
    /// that one pixel and nothing else.
    pub fn new_pixel() -> (r: Statistics)
        ensures
            r.pixels == 1,
            r.subpixels == 0,
            r.samples == 0,
            r.intersections == 0,
            r.scatters == 0,
            r.max_scatters == 0,
    {
        Statistics {
            pixels: 1,
            subpixels: 0,
            samples: 0,
            intersections: 0,
            scatters: 0,
            max_scatters: 0,
        }
    }

    /// Combines two partial accumulators into their total.
    pub fn accumulated(&self, other: &Statistics) -> (r: Statistics)
        requires
            self.merge_fits(*other),
        ensures
            r == self.merged(*other),
    {
        Statistics {
            pixels: self.pixels + other.pixels,
            subpixels: self.subpixels + other.subpixels,
            samples: self.samples + other.samples,
            intersections: self.intersections + other.intersections,
            scatters: self.scatters + other.scatters,
            max_scatters: if self.max_scatters >= other.max_scatters {
                self.max_scatters
            } else {
                other.max_scatters
            },
        }
    }
}

impl Default for Statistics {
    /// The default accumulator is empty.
    fn default() -> (r: Statistics)
        ensures
            r.is_zero(),
    {
        Statistics::new()
    }
}

/// Merging statistics is commutative: the totals do not depend on which of
/// two partial accumulators is folded into the other.
pub proof fn lemma_merge_commutative(a: Statistics, b: Statistics)
    requires
        a.merge_fits(b),
    ensures
        a.merged(b) == b.merged(a),
{
}

/// Merging statistics is associative: partial accumulators may be combined
/// in any grouping and yield the same totals.
pub proof fn lemma_merge_associative(a: Statistics, b: Statistics, c: Statistics)
    requires
        a.merge_fits(b),
        a.merged(b).merge_fits(c),
    ensures
        b.merge_fits(c),
        a.merge_fits(b.merged(c)),
        a.merged(b).merged(c) == a.merged(b.merged(c)),
{
}

/// The empty accumulator is the identity of the merge.
pub proof fn lemma_merge_identity(a: Statistics, z: Statistics)
    requires
        z.is_zero(),
    ensures
        a.merged(z) == a,
        z.merged(a) == a,
{
}

} // verus!
