use vstd::prelude::*;

verus! {

/// Parameters of a render, gathered in one place instead of scattered constants.
///
/// The non-integer quantities are kept in integer units: the field of view in
/// whole degrees, the visibility horizon in scene units, and the shadow bias
/// (the offset of a secondary ray's origin along the surface normal) in
/// thousandths of a scene unit.
#[derive(Clone, Copy, Debug, PartialEq, Eq, Structural)]
pub struct RenderConfig {
    pub width: usize,
    pub height: usize,
    pub fov_degrees: u32,
    pub max_depth: usize,
    pub horizon: u32,
    pub bias_thousandths: u32,
}

/// What the shading engine does with a ray at a given depth.
#[derive(Clone, Copy, Debug, PartialEq, Eq, Structural)]
pub enum Step {
    /// Stop here and return the background color.
    Background,
    /// Shade the hit surface, casting the reflection and refraction rays at `child_depth`.
    Shade { child_depth: usize },
}

/// A ray that hit a surface at `depth` is shaded (and spawns secondary rays)
/// exactly when the depth has not passed the cap.
pub open spec fn recurses(max_depth: int, hit: bool, depth: int) -> bool {
    hit && depth <= max_depth
}

/// For positive `h`, a product `w * h` stays within `m` exactly when `w <= m / h`.
proof fn lemma_fits_by_division(w: int, h: int, m: int)
    requires
        w >= 0,
        h > 0,
        m >= 0,
    ensures
        (w * h <= m) == (w <= m / h),
{
    vstd::arithmetic::div_mod::lemma_fundamental_div_mod(m, h);
    vstd::arithmetic::div_mod::lemma_mod_bound(m, h);
    let q = m / h;
    let r = m % h;
    assert((w * h <= m) == (w <= q)) by (nonlinear_arith)
        requires
            h > 0,
            m == h * q + r,
            0 <= r < h,
    ;
}

/// How many nested shading calls one ray path makes when it starts at
/// `depth`: `hits[k]` tells whether the ray cast at nesting level `k` hits a
/// surface (a path that runs past the end of `hits` misses).
pub open spec fn nested_calls(max_depth: int, depth: int, hits: Seq<bool>) -> nat
    decreases hits.len(),
{
    if hits.len() > 0 && recurses(max_depth, hits[0], depth) {
        1 + nested_calls(max_depth, depth + 1, hits.drop_first())
    } else {
        1
    }
}

/// The depth cap bounds the recursion for every scene: a path started at
/// `depth` makes at most `max_depth + 2 - depth` nested calls, so a primary ray
/// (depth 0) never goes past depth `max_depth + 1`; and a call made beyond the
/// cap is the last one, whatever it hits. The bound is reached by a path
/// that hits at every level (two facing mirrors).
pub proof fn lemma_depth_cap(max_depth: int, depth: int, hits: Seq<bool>)
    requires
        0 <= max_depth,
        0 <= depth,
    ensures
        depth <= max_depth + 1 ==> nested_calls(max_depth, depth, hits) <= max_depth + 2 - depth,
        depth > max_depth ==> nested_calls(max_depth, depth, hits) == 1,
        depth <= max_depth + 1 && hits.len() >= max_depth + 1 - depth && (forall|k: int|
            0 <= k < hits.len() ==> #[trigger] hits[k]) ==> nested_calls(max_depth, depth, hits)
            == max_depth + 2 - depth,
    decreases hits.len(),
{
    if hits.len() > 0 && recurses(max_depth, hits[0], depth) {
        lemma_depth_cap(max_depth, depth + 1, hits.drop_first());
    }
}

/// A ray that hits nothing yields the background color at every depth.
pub proof fn lemma_miss_is_background(max_depth: int, depth: int, hits: Seq<bool>)
    requires
        hits.len() > 0,
        !hits[0],
    ensures
        !recurses(max_depth, false, depth),
        nested_calls(max_depth, depth, hits) == 1,
{
}

impl Default for RenderConfig {
    /// A 1024 x 768 image, a 90 degree field of view, four levels of
    /// reflection and refraction, a horizon at 1000 units and a shadow bias of
    /// one thousandth of a unit.
    fn default() -> (c: Self)
        ensures
            c.width == 1024,
            c.height == 768,
            c.fov_degrees == 90,
            c.max_depth == 4,
            c.horizon == 1000,
            c.bias_thousandths == 1,
            c.wf(),
    {
        RenderConfig {
            width: 1024,
            height: 768,
            fov_degrees: 90,
            max_depth: 4,
            horizon: 1000,
            bias_thousandths: 1,
        }
    }
}

impl RenderConfig {
    /// The configuration is usable for a render: a non-empty image whose pixel
    /// count fits in memory, a field of view strictly between 0 and 180
    /// degrees, and a positive horizon and shadow bias.
    pub open spec fn wf(&self) -> bool {
        &&& self.width > 0
        &&& self.height > 0
        &&& self.width * self.height <= usize::MAX
        &&& self.max_depth < usize::MAX
        &&& 0 < self.fov_degrees < 180
        &&& self.horizon > 0
        &&& self.bias_thousandths > 0 && self.max_depth < usize::MAX
    }

    pub fn is_valid(&self) -> (r: bool)
        ensures
            r == self.wf(),
    {
        if self.width == 0 || self.height == 0 {
            return false;
        }
        proof {
            lemma_fits_by_division(self.width as int, self.height as int, usize::MAX as int);
        }
        self.width <= usize::MAX / self.height && 0 < self.fov_degrees && self.fov_degrees < 180 && self.horizon > 0
            && self.bias_thousandths > 0 && self.max_depth < usize::MAX
    }

    /// The termination policy of the recursive ray cast: a miss, or a hit
    /// beyond the depth cap, yields the background color; any other hit is
    /// shaded and its secondary rays are cast one level deeper.
    pub fn step(&self, hit: bool, depth: usize) -> (s: Step)
        requires
            self.max_depth < usize::MAX,
        ensures
            s == (if recurses(self.max_depth as int, hit, depth as int) {
                Step::Shade { child_depth: (depth + 1) as usize }
            } else {
                Step::Background
            }),
    {
        if !hit || depth > self.max_depth {
            Step::Background
        } else {
            Step::Shade { child_depth: depth + 1 }
        }
    }
}

} // verus!
