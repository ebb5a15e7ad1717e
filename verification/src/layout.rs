//! Laying out a run of glyphs.
//!
//! The pen starts at the origin on the baseline and moves left to right in
//! reading order.  Before every glyph but the first, the kerning adjustment
//! against the previous glyph is added to the pen.  The glyph is then drawn
//! with its bitmap offset from the pen by its bearing, and the pen moves on by
//! the glyph's advance.
//!
//! The bounding box is as wide as the right edge of the last glyph, rounded
//! up to whole pixels.  Its height is split at the baseline: the part above is
//! the greatest reach of any glyph above the baseline, the part below the
//! greatest reach below it, so the box fits the tallest ascender and the
//! deepest descender of the run and not only its last glyph.
//!
//! Measuring and drawing read the same pen positions: the placement
//! rectangles and the bounding box are both stated over [`pen_x_at`].

use vstd::prelude::*;
use crate::fixed::{ceil_pixels, ceil_px, from_kerning, from_pixels, kerning_units, px};
use crate::glyph::GlyphMetrics;

verus! {

/// One glyph of a run, with the kerning adjustment against the glyph before
/// it.
#[derive(Clone, Copy, Debug, PartialEq, Eq, Structural)]
pub struct GlyphStep {
    /// Slot of the glyph's record in the cache, which names its texture.
    pub glyph: usize,
    /// Horizontal kerning against the previous glyph, in 26.6 fixed point.
    /// It is not applied to the first glyph of a run.
    pub kerning_x: i32,
    pub metrics: GlyphMetrics,
}

/// Where one glyph's bitmap goes, in a space whose origin is the top-left
/// corner of the bounding box and whose y axis points down.
#[derive(Clone, Copy, Debug, PartialEq, Eq, Structural)]
pub struct Placement {
    /// Slot of the glyph's record in the cache.
    pub glyph: usize,
    /// Left edge, in 16.16 fixed point.
    pub x: i128,
    /// Top edge, in 16.16 fixed point.
    pub y: i128,
    /// Bitmap width in pixels.
    pub width: u32,
    /// Bitmap height in pixels.
    pub height: u32,
}

/// The layout of a run: one placement per glyph, and the bounding box.
#[derive(Clone, Debug)]
pub struct LayoutResult {
    pub placements: Vec<Placement>,
    /// Bounding width in whole pixels.
    pub width: i128,
    /// Bounding height in whole pixels.
    pub height: i128,
    /// Reach above the baseline, in 16.16 fixed point.
    pub above: i128,
    /// Reach below the baseline, in 16.16 fixed point.
    pub below: i128,
    /// Pen position after the last glyph, in 16.16 fixed point.
    pub pen_x: i128,
    pub pen_y: i128,
}

/// A placement over mathematical integers.
pub struct PlacementView {
    pub glyph: int,
    pub x: int,
    pub y: int,
    pub width: int,
    pub height: int,
}

/// A layout over mathematical integers.
pub struct LayoutView {
    pub placements: Seq<PlacementView>,
    pub width: int,
    pub height: int,
    pub above: int,
    pub below: int,
    pub pen_x: int,
    pub pen_y: int,
}

impl View for Placement {
    type V = PlacementView;

    open spec fn view(&self) -> PlacementView {
        PlacementView {
            glyph: self.glyph as int,
            x: self.x as int,
            y: self.y as int,
            width: self.width as int,
            height: self.height as int,
        }
    }
}

impl View for LayoutResult {
    type V = LayoutView;

    open spec fn view(&self) -> LayoutView {
        LayoutView {
            placements: Seq::new(self.placements@.len(), |i: int| self.placements@[i]@),
            width: self.width as int,
            height: self.height as int,
            above: self.above as int,
            below: self.below as int,
            pen_x: self.pen_x as int,
            pen_y: self.pen_y as int,
        }
    }
}

/// The kerning added to the pen before glyph `i`: none before the first.
pub open spec fn kerning_before(steps: Seq<GlyphStep>, i: int) -> int {
    if 0 < i < steps.len() {
        kerning_units(steps[i].kerning_x as int)
    } else {
        0
    }
}

/// How far glyph `i` moves the pen in x, its kerning counted in.
pub open spec fn step_advance_x(steps: Seq<GlyphStep>, i: int) -> int {
    kerning_before(steps, i) + steps[i].metrics.advance_x
}

/// Pen x after the first `n` glyphs have been drawn.
pub open spec fn pen_x_after(steps: Seq<GlyphStep>, n: int) -> int
    decreases n,
{
    if n <= 0 {
        0
    } else {
        pen_x_after(steps, n - 1) + step_advance_x(steps, n - 1)
    }
}

/// Pen y after the first `n` glyphs have been drawn.
pub open spec fn pen_y_after(steps: Seq<GlyphStep>, n: int) -> int
    decreases n,
{
    if n <= 0 {
        0
    } else {
        pen_y_after(steps, n - 1) + steps[n - 1].metrics.advance_y
    }
}

/// Pen x at which glyph `i` is drawn: after the glyphs before it and after
/// its own kerning.
pub open spec fn pen_x_at(steps: Seq<GlyphStep>, i: int) -> int {
    pen_x_after(steps, i) + kerning_before(steps, i)
}

/// Left edge of glyph `i`'s bitmap.
pub open spec fn left_edge(steps: Seq<GlyphStep>, i: int) -> int {
    pen_x_at(steps, i) + px(steps[i].metrics.bearing_left as int)
}

/// Right edge of glyph `i`'s bitmap.
pub open spec fn right_edge(steps: Seq<GlyphStep>, i: int) -> int {
    left_edge(steps, i) + px(steps[i].metrics.width as int)
}

/// How far glyph `i` reaches above the baseline.
pub open spec fn reach_above(steps: Seq<GlyphStep>, i: int) -> int {
    pen_y_after(steps, i) + px(steps[i].metrics.bearing_top as int)
}

/// How far glyph `i` reaches below the baseline.
pub open spec fn reach_below(steps: Seq<GlyphStep>, i: int) -> int {
    px(steps[i].metrics.height as int) - reach_above(steps, i)
}

/// Greatest reach above the baseline among the first `n` glyphs, and at
/// least zero.
pub open spec fn above_upto(steps: Seq<GlyphStep>, n: int) -> int
    decreases n,
{
    if n <= 0 {
        0
    } else if reach_above(steps, n - 1) > above_upto(steps, n - 1) {
        reach_above(steps, n - 1)
    } else {
        above_upto(steps, n - 1)
    }
}

/// Greatest reach below the baseline among the first `n` glyphs, and at
/// least zero.
pub open spec fn below_upto(steps: Seq<GlyphStep>, n: int) -> int
    decreases n,
{
    if n <= 0 {
        0
    } else if reach_below(steps, n - 1) > below_upto(steps, n - 1) {
        reach_below(steps, n - 1)
    } else {
        below_upto(steps, n - 1)
    }
}

/// Bounding width in pixels of the first `n` glyphs: the right edge of the
/// last of them, rounded up.
pub open spec fn width_upto(steps: Seq<GlyphStep>, n: int) -> int {
    if n <= 0 {
        0
    } else {
        ceil_px(right_edge(steps, n - 1))
    }
}

/// Bounding width of the run in pixels.
pub open spec fn bounding_width(steps: Seq<GlyphStep>) -> int {
    width_upto(steps, steps.len() as int)
}

/// Bounding height of the run in pixels.
pub open spec fn bounding_height(steps: Seq<GlyphStep>) -> int {
    ceil_px(above_upto(steps, steps.len() as int) + below_upto(steps, steps.len() as int))
}

/// Top edge of glyph `i`'s bitmap, measured down from the top of the box.
pub open spec fn top_edge(steps: Seq<GlyphStep>, i: int) -> int {
    above_upto(steps, steps.len() as int) - px(steps[i].metrics.bearing_top as int)
}

/// Bottom edge of glyph `i`'s bitmap, measured down from the top of the box.
pub open spec fn bottom_edge(steps: Seq<GlyphStep>, i: int) -> int {
    top_edge(steps, i) + px(steps[i].metrics.height as int)
}

/// The placement of glyph `i`.
pub open spec fn placement_of(steps: Seq<GlyphStep>, i: int) -> PlacementView {
    PlacementView {
        glyph: steps[i].glyph as int,
        x: left_edge(steps, i),
        y: top_edge(steps, i),
        width: steps[i].metrics.width as int,
        height: steps[i].metrics.height as int,
    }
}

/// The layout of a run.
pub open spec fn layout_of(steps: Seq<GlyphStep>) -> LayoutView {
    LayoutView {
        placements: Seq::new(steps.len(), |i: int| placement_of(steps, i)),
        width: bounding_width(steps),
        height: bounding_height(steps),
        above: above_upto(steps, steps.len() as int),
        below: below_upto(steps, steps.len() as int),
        pen_x: pen_x_after(steps, steps.len() as int),
        pen_y: pen_y_after(steps, steps.len() as int),
    }
}

/// A bound on every distance that the layout of `n` glyphs computes.
pub open spec fn reach_bound(n: int) -> int {
    (n + 1) * 0x4_0000_0000_0000
}

/// No distance in the layout of the first `n` glyphs exceeds
/// `reach_bound(n)`, so none overflows 128 bits for any run that fits in
/// memory.
pub proof fn lemma_reach_bounded(steps: Seq<GlyphStep>, n: int)
    requires
        0 <= n <= steps.len(),
    ensures
        -reach_bound(n) <= pen_x_after(steps, n) <= reach_bound(n),
        -reach_bound(n) <= pen_y_after(steps, n) <= reach_bound(n),
        0 <= above_upto(steps, n) <= reach_bound(n),
        0 <= below_upto(steps, n) <= reach_bound(n),
        n < steps.len() ==> {
            &&& -reach_bound(n) <= pen_x_at(steps, n) <= reach_bound(n)
            &&& -reach_bound(n) <= left_edge(steps, n) <= reach_bound(n)
            &&& -reach_bound(n) <= right_edge(steps, n) <= reach_bound(n)
            &&& -reach_bound(n) <= reach_above(steps, n) <= reach_bound(n)
            &&& -reach_bound(n) <= reach_below(steps, n) <= reach_bound(n)
        },
    decreases n,
{
    lemma_pen_bounded(steps, n);
    if n > 0 {
        lemma_reach_bounded(steps, n - 1);
    }
}

/// The pen moves less than 2^42 units per glyph in x and at most 2^31 in y.
proof fn lemma_pen_bounded(steps: Seq<GlyphStep>, n: int)
    requires
        0 <= n <= steps.len(),
    ensures
        -n * 0x400_0000_0000 <= pen_x_after(steps, n) <= n * 0x400_0000_0000,
        -n * 0x8000_0000 <= pen_y_after(steps, n) <= n * 0x8000_0000,
    decreases n,
{
    if n > 0 {
        lemma_pen_bounded(steps, n - 1);
    }
}

/// An empty run has an empty layout: no placement, a box of zero width and
/// zero height, and the pen at the origin.
pub proof fn lemma_empty_run_has_zero_box()
    ensures
        layout_of(Seq::<GlyphStep>::empty()) == (LayoutView {
            placements: Seq::<PlacementView>::empty(),
            width: 0,
            height: 0,
            above: 0,
            below: 0,
            pen_x: 0,
            pen_y: 0,
        }),
{
    let e = Seq::<GlyphStep>::empty();
    assert(layout_of(e).placements =~= Seq::<PlacementView>::empty());
}

/// Layout is a function of the run alone: two runs with the same glyphs in
/// the same order have the same pen positions, placements and bounding box.
pub proof fn lemma_layout_is_deterministic(a: Seq<GlyphStep>, b: Seq<GlyphStep>)
    requires
        a.len() == b.len(),
        forall|i: int| 0 <= i < a.len() ==> a[i] == b[i],
    ensures
        layout_of(a) == layout_of(b),
        forall|i: int| pen_x_at(a, i) == pen_x_at(b, i),
{
    assert(a =~= b);
}

/// The first `n` glyphs of a run are laid out alike whatever follows them.
pub proof fn lemma_prefix_pen(steps: Seq<GlyphStep>, k: int, n: int)
    requires
        0 <= n <= k <= steps.len(),
    ensures
        pen_x_after(steps.subrange(0, k), n) == pen_x_after(steps, n),
        pen_y_after(steps.subrange(0, k), n) == pen_y_after(steps, n),
    decreases n,
{
    if n > 0 {
        lemma_prefix_pen(steps, k, n - 1);
    }
}

/// Where no glyph moves the pen backwards, the pen never retreats: the pen
/// after the whole run is at or beyond the pen after any prefix of it.
///
/// A glyph's movement counts its kerning in.  Without that the claim fails:
/// a glyph that advances 10 pixels, followed by one kerned by -20 pixels that
/// advances 5, leaves the pen at -5.
pub proof fn lemma_pen_never_retreats(steps: Seq<GlyphStep>, k: int)
    requires
        0 <= k <= steps.len(),
        forall|j: int| 0 <= j < steps.len() ==> step_advance_x(steps, j) >= 0,
    ensures
        pen_x_after(steps, k) <= pen_x_after(steps, steps.len() as int),
        layout_of(steps.subrange(0, k)).pen_x <= layout_of(steps).pen_x,
{
    lemma_pen_monotone(steps, k, steps.len() as int);
    lemma_prefix_pen(steps, k, k);
}

/// Between two prefixes over which no glyph moves the pen backwards, the pen
/// does not retreat.
pub proof fn lemma_pen_monotone(steps: Seq<GlyphStep>, k: int, n: int)
    requires
        0 <= k <= n <= steps.len(),
        forall|j: int| k <= j < n ==> step_advance_x(steps, j) >= 0,
    ensures
        pen_x_after(steps, k) <= pen_x_after(steps, n),
    decreases n - k,
{
    if k < n {
        lemma_pen_monotone(steps, k, n - 1);
    }
}

/// Joining two runs lays the second out where the first one's pen stopped,
/// moved by the kerning between the last glyph of the first and the first
/// glyph of the second.
pub proof fn lemma_kerning_joins_runs(s: Seq<GlyphStep>, t: Seq<GlyphStep>, j: int)
    requires
        s.len() > 0,
        0 <= j < t.len(),
    ensures
        pen_x_at(s + t, s.len() + j) == pen_x_after(s, s.len() as int) + kerning_units(
            t[0].kerning_x as int,
        ) + pen_x_at(t, j),
        pen_x_after(s + t, s.len() + j + 1) == pen_x_after(s, s.len() as int) + kerning_units(
            t[0].kerning_x as int,
        ) + pen_x_after(t, j + 1),
        right_edge(s + t, s.len() + j) == pen_x_after(s, s.len() as int) + kerning_units(
            t[0].kerning_x as int,
        ) + right_edge(t, j),
    decreases j,
{
    let st = s + t;
    let m = s.len() as int;
    assert(st[m + j] == t[j]);
    assert(st[m] == t[0]);
    if j == 0 {
        lemma_join_keeps_first_run(s, t, m);
    } else {
        lemma_kerning_joins_runs(s, t, j - 1);
    }
}

/// The glyphs of the first of two joined runs are laid out as they are alone.
pub proof fn lemma_join_keeps_first_run(s: Seq<GlyphStep>, t: Seq<GlyphStep>, n: int)
    requires
        0 <= n <= s.len(),
    ensures
        pen_x_after(s + t, n) == pen_x_after(s, n),
        pen_y_after(s + t, n) == pen_y_after(s, n),
    decreases n,
{
    if n > 0 {
        lemma_join_keeps_first_run(s, t, n - 1);
        assert((s + t)[n - 1] == s[n - 1]);
    }
}

/// Kerning between a pair of glyphs moves the second glyph, and all that
/// follows from its position, by exactly the kerning: the pen after the pair
/// is the sum of the pens after each glyph alone plus the kerning, and the
/// bounding width of the pair is the width of the second glyph alone plus
/// the rounded-up pen position at which it is drawn.
pub proof fn lemma_kerning_applies_to_pair(a: GlyphStep, b: GlyphStep)
    ensures
        layout_of(seq![a, b]).pen_x == layout_of(seq![a]).pen_x + kerning_units(
            b.kerning_x as int,
        ) + layout_of(seq![b]).pen_x,
        pen_x_at(seq![a, b], 1) == a.metrics.advance_x + kerning_units(b.kerning_x as int),
        bounding_width(seq![a, b]) == ceil_px(pen_x_at(seq![a, b], 1)) + bounding_width(seq![b]),
{
    let ab = seq![a, b];
    assert(ab =~= seq![a] + seq![b]);
    lemma_kerning_joins_runs(seq![a], seq![b], 0);
    reveal_with_fuel(pen_x_after, 3);
    assert(pen_x_after(seq![a], 1) == a.metrics.advance_x);
    assert(pen_x_after(seq![b], 1) == b.metrics.advance_x);
}

/// Where the first glyph of a pair advances by exactly its own bounding
/// width and the kerning is a whole number of pixels, the bounding width of
/// the pair differs from the sum of the two widths measured alone by exactly
/// the kerning.
pub proof fn lemma_kerning_changes_width_by_kerning(a: GlyphStep, b: GlyphStep, pixels: int)
    requires
        a.metrics.advance_x == px(bounding_width(seq![a])),
        b.kerning_x == 64 * pixels,
    ensures
        bounding_width(seq![a, b]) == bounding_width(seq![a]) + bounding_width(seq![b]) + pixels,
{
    lemma_kerning_applies_to_pair(a, b);
}

/// Every placement of a horizontal run fits the box vertically: where the
/// pen is on the baseline when glyph `i` is drawn, the glyph's bitmap lies
/// between the top and the bottom of the bounding box.
pub proof fn lemma_placement_fits_height(steps: Seq<GlyphStep>, i: int)
    requires
        0 <= i < steps.len(),
        pen_y_after(steps, i) == 0,
    ensures
        0 <= top_edge(steps, i),
        bottom_edge(steps, i) <= px(bounding_height(steps)),
{
    lemma_reaches_are_covered(steps, steps.len() as int, i);
}

/// The reach above and below the baseline of the first `n` glyphs covers
/// that of each of them.
pub proof fn lemma_reaches_are_covered(steps: Seq<GlyphStep>, n: int, i: int)
    requires
        0 <= i < n <= steps.len(),
    ensures
        reach_above(steps, i) <= above_upto(steps, n),
        reach_below(steps, i) <= below_upto(steps, n),
        0 <= above_upto(steps, n),
        0 <= below_upto(steps, n),
    decreases n,
{
    if i < n - 1 {
        lemma_reaches_are_covered(steps, n - 1, i);
    } else {
        lemma_reaches_nonnegative(steps, n);
    }
}

/// The reach above and below the baseline is never negative.
pub proof fn lemma_reaches_nonnegative(steps: Seq<GlyphStep>, n: int)
    ensures
        0 <= above_upto(steps, n),
        0 <= below_upto(steps, n),
    decreases n,
{
    if n > 0 {
        lemma_reaches_nonnegative(steps, n - 1);
    }
}

/// No glyph is clipped by the box measured for its own run: the placement
/// of glyph `i` lies within the bounding width and the bounding height.
///
/// This holds of a glyph that is drawn with the pen on the baseline, whose
/// left edge is not left of the origin and whose right edge is not beyond
/// that of the last glyph.  The box is no wider than the last glyph's right
/// edge, so a glyph drawn before the origin or reaching past the last glyph
/// is cut off.
pub proof fn lemma_placement_within_box(steps: Seq<GlyphStep>, i: int)
    requires
        0 <= i < steps.len(),
        pen_y_after(steps, i) == 0,
        0 <= left_edge(steps, i),
        right_edge(steps, i) <= right_edge(steps, steps.len() - 1),
    ensures
        0 <= placement_of(steps, i).x,
        placement_of(steps, i).x + px(placement_of(steps, i).width) <= px(bounding_width(steps)),
        0 <= placement_of(steps, i).y,
        placement_of(steps, i).y + px(placement_of(steps, i).height) <= px(
            bounding_height(steps),
        ),
{
    lemma_placement_fits_height(steps, i);
}

/// The pen stays on the baseline where no glyph advances it vertically.
pub proof fn lemma_horizontal_run_keeps_baseline(steps: Seq<GlyphStep>, n: int)
    requires
        0 <= n <= steps.len(),
        forall|j: int| 0 <= j < steps.len() ==> (#[trigger] steps[j]).metrics.advance_y == 0,
    ensures
        pen_y_after(steps, n) == 0,
    decreases n,
{
    if n > 0 {
        lemma_horizontal_run_keeps_baseline(steps, n - 1);
    }
}

/// In a horizontal run no glyph is clipped by the box measured for the run,
/// where no glyph starts left of the origin and none reaches past the last
/// one: every placement lies within the bounding width and height.
pub proof fn lemma_run_within_box(steps: Seq<GlyphStep>)
    requires
        forall|j: int| 0 <= j < steps.len() ==> (#[trigger] steps[j]).metrics.advance_y == 0,
        forall|j: int| 0 <= j < steps.len() ==> 0 <= #[trigger] left_edge(steps, j),
        forall|j: int|
            0 <= j < steps.len() ==> #[trigger] right_edge(steps, j) <= right_edge(
                steps,
                steps.len() - 1,
            ),
    ensures
        forall|i: int|
            0 <= i < steps.len() ==> {
                let p = #[trigger] layout_of(steps).placements[i];
                &&& 0 <= p.x
                &&& p.x + px(p.width) <= px(layout_of(steps).width)
                &&& 0 <= p.y
                &&& p.y + px(p.height) <= px(layout_of(steps).height)
            },
{
    assert forall|i: int| 0 <= i < steps.len() implies {
        let p = #[trigger] layout_of(steps).placements[i];
        &&& 0 <= p.x
        &&& p.x + px(p.width) <= px(layout_of(steps).width)
        &&& 0 <= p.y
        &&& p.y + px(p.height) <= px(layout_of(steps).height)
    } by {
        lemma_horizontal_run_keeps_baseline(steps, i);
        assert(0 <= left_edge(steps, i));
        assert(right_edge(steps, i) <= right_edge(steps, steps.len() - 1));
        lemma_placement_within_box(steps, i);
    }
}

/// Lays out a run of glyphs.
pub fn lay_out(steps: &Vec<GlyphStep>) -> (r: LayoutResult)
    ensures
        r@ == layout_of(steps@),
        r.placements@.len() == steps@.len(),
        forall|i: int|
            0 <= i < steps@.len() ==> (#[trigger] r.placements@[i])@ == placement_of(steps@, i),
{
    let n: usize = steps.len();
    let mut pen_x: i128 = 0;
    let mut pen_y: i128 = 0;
    let mut above: i128 = 0;
    let mut below: i128 = 0;
    let mut width: i128 = 0;
    let mut i: usize = 0;
    while i < n
        invariant
            i <= n,
            n == steps@.len(),
            pen_x == pen_x_after(steps@, i as int),
            pen_y == pen_y_after(steps@, i as int),
            above == above_upto(steps@, i as int),
            below == below_upto(steps@, i as int),
            width == width_upto(steps@, i as int),
        decreases n - i,
    {
        proof {
            lemma_reach_bounded(steps@, i as int);
        }
        let step: GlyphStep = steps[i];
        let at_x: i128 = if i > 0 {
            pen_x + from_kerning(step.kerning_x)
        } else {
            pen_x
        };
        let left: i128 = at_x + from_pixels(step.metrics.bearing_left as i64);
        let right: i128 = left + from_pixels(step.metrics.width as i64);
        let this_above: i128 = pen_y + from_pixels(step.metrics.bearing_top as i64);
        let this_below: i128 = from_pixels(step.metrics.height as i64) - this_above;
        if this_above > above {
            above = this_above;
        }
        if this_below > below {
            below = this_below;
        }
        width = ceil_pixels(right);
        pen_x = at_x + step.metrics.advance_x as i128;
        pen_y = pen_y + step.metrics.advance_y as i128;
        i = i + 1;
    }
    proof {
        lemma_reach_bounded(steps@, n as int);
    }
    let height: i128 = ceil_pixels(above + below);
    let end_x: i128 = pen_x;

    let mut placements: Vec<Placement> = Vec::new();
    pen_x = 0;
    i = 0;
    while i < n
        invariant
            i <= n,
            n == steps@.len(),
            pen_x == pen_x_after(steps@, i as int),
            above == above_upto(steps@, n as int),
            0 <= above <= reach_bound(n as int),
            placements@.len() == i,
            forall|j: int| 0 <= j < i ==> (#[trigger] placements@[j])@ == placement_of(steps@, j),
        decreases n - i,
    {
        proof {
            lemma_reach_bounded(steps@, i as int);
        }
        let step: GlyphStep = steps[i];
        let at_x: i128 = if i > 0 {
            pen_x + from_kerning(step.kerning_x)
        } else {
            pen_x
        };
        placements.push(
            Placement {
                glyph: step.glyph,
                x: at_x + from_pixels(step.metrics.bearing_left as i64),
                y: above - from_pixels(step.metrics.bearing_top as i64),
                width: step.metrics.width,
                height: step.metrics.height,
            },
        );
        pen_x = at_x + step.metrics.advance_x as i128;
        i = i + 1;
    }
    let r = LayoutResult { placements, width, height, above, below, pen_x: end_x, pen_y };
    proof {
        assert(r@.placements =~= layout_of(steps@).placements);
    }
    r
}

} // verus!
