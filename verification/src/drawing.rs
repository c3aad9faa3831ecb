//! The freehand curve recorder.
//!
//! Pointer-drag samples are accumulated into strokes: a press starts a
//! [`Drawing`], each drag either appends a point or is discarded as noise
//! (closer than [`MIN_POINT_DISTANCE`] to the last accepted point), and a
//! secondary press clears every stroke. Once a stroke holds at least two
//! points, an interpolating sample [`Curve`] over the unit interval is
//! rebuilt from the full point sequence, and [`Drawing::render_sequence`]
//! hands the renderer one sample per recorded point.

use vstd::prelude::*;

use crate::color::{palette, spec_palette, Color, PALETTE_LEN};

verus! {

/// A position on the canvas, in integer canvas units. Also used for offset
/// vectors such as the drag distance.
#[derive(Clone, Copy, PartialEq, Eq, Structural, Debug)]
pub struct Point {
    /// Horizontal coordinate, growing to the right.
    pub x: i32,
    /// Vertical coordinate, growing upward.
    pub y: i32,
}

/// Minimum Euclidean distance between two consecutively accepted points of a
/// stroke: drag samples closer than this to the last point are discarded as
/// over-sampling noise.
pub const MIN_POINT_DISTANCE: i128 = 10;

/// Squared Euclidean distance between two points.
pub open spec fn dist2(a: Point, b: Point) -> int {
    (a.x - b.x) * (a.x - b.x) + (a.y - b.y) * (a.y - b.y)
}

/// Whether a candidate point lies far enough from the last accepted point to
/// be recorded. Distances are compared squared, which is equivalent for
/// nonnegative lengths.
pub open spec fn far_enough(last: Point, candidate: Point) -> bool {
    dist2(last, candidate) >= MIN_POINT_DISTANCE * MIN_POINT_DISTANCE
}

/// Computes the squared distance between two points.
pub fn squared_distance(a: Point, b: Point) -> (d: i128)
    ensures
        d == dist2(a, b),
{
    let dx: i128 = (a.x as i128) - (b.x as i128);
    let dy: i128 = (a.y as i128) - (b.y as i128);
    proof {
        assert(dx * dx <= 0x1_0000_0000_0000_0000i128 && dx * dx >= 0) by (nonlinear_arith)
            requires
                -0x1_0000_0000i128 <= dx <= 0x1_0000_0000i128,
        ;
        assert(dy * dy <= 0x1_0000_0000_0000_0000i128 && dy * dy >= 0) by (nonlinear_arith)
            requires
                -0x1_0000_0000i128 <= dy <= 0x1_0000_0000i128,
        ;
    }
    dx * dx + dy * dy
}

/// The interpolating sample curve derived from a stroke.
///
/// The curve is parameterized uniformly over the unit interval: knot `i` sits
/// at parameter `i / (knots.len() - 1)`, and because the curve interpolates
/// its knots, evaluating it at that parameter yields knot `i` exactly. The
/// knot sequence is therefore the data needed to sample the curve at the
/// renderer's parameter values.
#[derive(Debug)]
pub struct Curve {
    /// The interpolated points, in stroke order.
    pub knots: Vec<Point>,
}

impl Curve {
    /// Fits the interpolating curve over the unit interval through `points`.
    pub fn fit(points: &Vec<Point>) -> (c: Curve)
        ensures
            c.knots@ == points@,
    {
        let mut knots: Vec<Point> = Vec::new();
        let n = points.len();
        for i in 0..n
            invariant
                n == points@.len(),
                knots@ == points@.take(i as int),
        {
            knots.push(points[i]);
        }
        proof {
            assert(points@.take(n as int) =~= points@);
        }
        Curve { knots }
    }

    /// Evaluates the curve at parameter `i / (knots.len() - 1)`, the
    /// parameter of knot `i`; interpolation makes this the knot itself.
    pub fn sample(&self, i: usize) -> (p: Point)
        requires
            i < self.knots@.len(),
        ensures
            p == self.knots@[i as int],
    {
        self.knots[i]
    }
}

/// All consecutive points of the sequence keep the minimum distance.
pub open spec fn well_spaced(s: Seq<Point>) -> bool {
    forall|i: int| 0 <= i && i + 1 < s.len() ==> far_enough(#[trigger] s[i], s[i + 1])
}

/// One free-hand stroke, from a press to the next press.
#[derive(Debug)]
pub struct Drawing {
    /// Accepted drag samples, in temporal order; never empty and never
    /// reordered.
    pub points: Vec<Point>,
    /// The derived sample curve; present exactly once at least two points
    /// were recorded, and rebuilt from the full point sequence whenever a
    /// point is accepted.
    pub curve: Option<Curve>,
    /// The color selected when the stroke began; fixed at creation.
    pub color: Color,
}

impl Drawing {
    /// Structural invariant: the stroke holds its starting point, accepted
    /// points keep the minimum distance, and the curve is present and
    /// interpolates through every point exactly when two or more points were
    /// recorded.
    pub open spec fn wf(self) -> bool {
        &&& self.points@.len() >= 1
        &&& well_spaced(self.points@)
        &&& match self.curve {
            Option::None => self.points@.len() < 2,
            Option::Some(c) => self.points@.len() >= 2 && c.knots@ == self.points@,
        }
    }

    /// Begins a stroke at `start` with the given color.
    pub fn new(start: Point, color: Color) -> (d: Drawing)
        ensures
            d.points@ == seq![start],
            d.curve is None,
            d.color == color,
            d.wf(),
    {
        Drawing { points: vec![start], curve: Option::None, color }
    }

    /// Offers a candidate drag position to the stroke. A candidate closer
    /// than the minimum distance to the last accepted point is discarded
    /// without any change; otherwise it is appended and the curve is rebuilt
    /// over the full point sequence.
    pub fn extend(&mut self, candidate: Point)
        requires
            old(self).wf(),
        ensures
            final(self).wf(),
            final(self).points@.len() >= old(self).points@.len(),
            !far_enough(old(self).points@.last(), candidate) ==> *final(self) == *old(self),
            far_enough(old(self).points@.last(), candidate)
                ==> final(self).points@ == old(self).points@.push(candidate),
            far_enough(old(self).points@.last(), candidate) ==> (final(self).curve matches Some(c)
                && c.knots@ == final(self).points@),
            final(self).color == old(self).color,
    {
        let last = self.points[self.points.len() - 1];
        let d2 = squared_distance(last, candidate);
        if d2 < MIN_POINT_DISTANCE * MIN_POINT_DISTANCE {
            return ;
        }
        self.points.push(candidate);
        if self.points.len() > 1 {
            self.curve = Option::Some(Curve::fit(&self.points));
        }
    }

    /// Produces the samples the renderer should connect: one sample per
    /// recorded point, taken at the evenly spaced parameters
    /// `i / (n - 1)` for `i` in `0 .. n`. With fewer than two points there is
    /// no curve and nothing to draw, so the sequence is empty.
    pub fn render_sequence(&self) -> (samples: Vec<Point>)
        requires
            self.wf(),
        ensures
            self.points@.len() < 2 ==> samples@ == Seq::<Point>::empty(),
            self.points@.len() >= 2 ==> samples@ == self.points@,
    {
        match &self.curve {
            Option::None => Vec::new(),
            Option::Some(c) => {
                let n = c.knots.len();
                let mut samples: Vec<Point> = Vec::new();
                for i in 0..n
                    invariant
                        n == c.knots@.len(),
                        samples@ == c.knots@.take(i as int),
                {
                    let p = c.sample(i);
                    samples.push(p);
                }
                proof {
                    assert(c.knots@.take(n as int) =~= c.knots@);
                }
                samples
            },
        }
    }
}

/// Every drawing of the sequence is well formed.
pub open spec fn all_wf(ds: Seq<Drawing>) -> bool {
    forall|i: int| 0 <= i < ds.len() ==> (#[trigger] ds[i]).wf()
}

/// Creates a new Drawing with the given start point and color and hands back
/// its handle. Always succeeds given a valid position.
pub fn begin_stroke(drawings: &mut Vec<Drawing>, start: Point, color: Color) -> (h: usize)
    ensures
        h == old(drawings)@.len(),
        stroke_begun(old(drawings)@, final(drawings)@, start, color),
        all_wf(old(drawings)@) ==> all_wf(final(drawings)@),
{
    let h = drawings.len();
    let d = Drawing::new(start, color);
    drawings.push(d);
    proof {
        assert(drawings@.subrange(0, h as int) =~= old(drawings)@);
        if all_wf(old(drawings)@) {
            assert forall|i: int| 0 <= i < drawings@.len() implies (#[trigger] drawings@[i]).wf()
                by {
                if i < h {
                    assert(drawings@[i] == old(drawings)@[i]);
                }
            }
        }
    }
    h
}

/// Offers a candidate position to the stroke behind `handle`; the stroke must
/// exist. The candidate is appended or discarded by the minimum-distance
/// policy; every other drawing is untouched.
pub fn extend_stroke(drawings: &mut Vec<Drawing>, handle: usize, candidate: Point)
    requires
        handle < old(drawings)@.len(),
        all_wf(old(drawings)@),
    ensures
        all_wf(final(drawings)@),
        stroke_extended(old(drawings)@, final(drawings)@, handle as int, candidate),
{
    proof {
        assert(old(drawings)@[handle as int].wf());
    }
    let d = &mut drawings[handle];
    d.extend(candidate);
    proof {
        assert forall|i: int| 0 <= i < drawings@.len() implies (#[trigger] drawings@[i]).wf() by {
            if i != handle {
                assert(drawings@[i] == old(drawings)@[i]);
            }
        }
    }
}

/// Destroys every active Drawing: afterwards there are none, whatever the
/// count before.
pub fn clear_all(drawings: &mut Vec<Drawing>)
    ensures
        final(drawings)@.len() == 0,
{
    drawings.clear();
}

/// How `after` relates to `before` once a candidate point was offered to the
/// stroke at index `h`: every other drawing is untouched, and the stroke
/// either kept its points (candidate too close) or gained exactly the
/// candidate.
pub open spec fn stroke_extended(
    before: Seq<Drawing>,
    after: Seq<Drawing>,
    h: int,
    candidate: Point,
) -> bool {
    &&& after.len() == before.len()
    &&& forall|i: int| 0 <= i < before.len() && i != h ==> after[i] == before[i]
    &&& (!far_enough(before[h].points@.last(), candidate) ==> after[h] == before[h])
    &&& (far_enough(before[h].points@.last(), candidate) ==> after[h].points@
        == before[h].points@.push(candidate))
    &&& after[h].color == before[h].color
}

/// How `after` relates to `before` once a stroke was begun: the old drawings
/// are kept and one new drawing holding only `start`, without a curve and
/// with the given color, stands at the end.
pub open spec fn stroke_begun(
    before: Seq<Drawing>,
    after: Seq<Drawing>,
    start: Point,
    color: Color,
) -> bool {
    &&& after.len() == before.len() + 1
    &&& after.subrange(0, before.len() as int) == before
    &&& after.last().points@ == seq![start]
    &&& after.last().curve is None
    &&& after.last().color == color
}

/// The input-handling state: the handle of the stroke being recorded, the
/// selected palette color, and the position where the current stroke began.
#[derive(Clone, Copy, Debug)]
pub struct DrawData {
    /// Handle of the drawing that drag events extend; absent while no stroke
    /// is being recorded.
    pub current: Option<usize>,
    /// Index into the stroke palette used for the next stroke.
    pub selected_color: usize,
    /// Position of the press that began the current stroke; drag distances
    /// are offsets from it.
    pub line_start: Point,
}

impl DrawData {
    /// The selected color indexes the palette, and the current handle, if
    /// any, refers to an existing drawing.
    pub open spec fn wf(self, ds: Seq<Drawing>) -> bool {
        &&& self.selected_color < PALETTE_LEN
        &&& (self.current matches Some(h) ==> h < ds.len())
    }
}

impl Default for DrawData {
    /// No stroke being recorded, the first palette color selected, and the
    /// origin as line start.
    fn default() -> (d: DrawData)
        ensures
            d.current is None,
            d.selected_color == 0,
            d.line_start == (Point { x: 0, y: 0 }),
            d.wf(Seq::<Drawing>::empty()),
    {
        DrawData { current: Option::None, selected_color: 0, line_start: Point { x: 0, y: 0 } }
    }
}

/// The pointer button a press event carries.
#[derive(Clone, Copy, PartialEq, Eq, Structural, Debug)]
pub enum PointerButton {
    /// The primary button: starts a stroke.
    Primary,
    /// The secondary button: clears the canvas.
    Secondary,
    /// The middle button: does nothing.
    Middle,
}

/// Handles a pointer press: the primary button begins a stroke at the press
/// position with the selected palette color and makes it current, the
/// secondary button destroys every drawing, and the middle button does
/// nothing.
pub fn on_pointer_down(
    data: &mut DrawData,
    drawings: &mut Vec<Drawing>,
    button: PointerButton,
    pos: Point,
)
    requires
        old(data).wf(old(drawings)@),
        all_wf(old(drawings)@),
    ensures
        final(data).wf(final(drawings)@),
        all_wf(final(drawings)@),
        final(data).selected_color == old(data).selected_color,
        button is Primary ==> stroke_begun(
            old(drawings)@,
            final(drawings)@,
            pos,
            spec_palette(old(data).selected_color as int),
        ),
        button is Primary ==> (final(data).current == Some(old(drawings)@.len() as usize)
            && final(data).line_start == pos),
        button is Secondary ==> (final(drawings)@.len() == 0 && final(data).current is None
            && final(data).line_start == old(data).line_start),
        button is Middle ==> (*final(data) == *old(data) && final(drawings)@ == old(drawings)@),
{
    match button {
        PointerButton::Primary => {
            data.line_start = pos;
            let color = palette(data.selected_color);
            let h = begin_stroke(drawings, pos, color);
            data.current = Option::Some(h);
        },
        PointerButton::Secondary => {
            clear_all(drawings);
            data.current = Option::None;
        },
        PointerButton::Middle => {},
    }
}

/// Handles the color-cycling key: when it was just pressed, the selected
/// color advances to the next palette entry, wrapping around.
pub fn on_keyboard(data: &mut DrawData, cycle_pressed: bool)
    requires
        old(data).selected_color < PALETTE_LEN,
    ensures
        final(data).selected_color < PALETTE_LEN,
        cycle_pressed ==> final(data).selected_color == (old(data).selected_color + 1) % (
        PALETTE_LEN as int),
        !cycle_pressed ==> *final(data) == *old(data),
        final(data).current == old(data).current,
        final(data).line_start == old(data).line_start,
{
    if cycle_pressed {
        data.selected_color = (data.selected_color + 1) % PALETTE_LEN;
    }
}

/// Where a drag event's distance-from-start lands on the canvas: the drag
/// distance is reported in screen axes, whose vertical axis points the other
/// way, so it is mirrored before being added to the stroke's start.
pub open spec fn spec_drag_target(start: Point, distance: Point) -> Point {
    Point { x: (start.x + distance.x) as i32, y: (start.y - distance.y) as i32 }
}

/// The drag target stays within the coordinate space.
pub open spec fn drag_target_fits(start: Point, distance: Point) -> bool {
    &&& i32::MIN <= start.x + distance.x <= i32::MAX
    &&& i32::MIN <= start.y - distance.y <= i32::MAX
}

/// Handles a pointer drag, reported as the offset from the stroke's start:
/// while a stroke is current, the drag target is offered to it under the
/// minimum-distance policy; with no current stroke the event is a no-op.
pub fn on_pointer_draw(data: &DrawData, drawings: &mut Vec<Drawing>, distance: Point)
    requires
        data.wf(old(drawings)@),
        all_wf(old(drawings)@),
        data.current is Some ==> drag_target_fits(data.line_start, distance),
    ensures
        all_wf(final(drawings)@),
        data.current is None ==> final(drawings)@ == old(drawings)@,
        data.current matches Some(h) ==> stroke_extended(
            old(drawings)@,
            final(drawings)@,
            h as int,
            spec_drag_target(data.line_start, distance),
        ),
{
    match data.current {
        Option::None => {},
        Option::Some(h) => {
            let x: i64 = data.line_start.x as i64 + distance.x as i64;
            let y: i64 = data.line_start.y as i64 - distance.y as i64;
            let pos = Point { x: x as i32, y: y as i32 };
            extend_stroke(drawings, h, pos);
        },
    }
}

/// The interpolation law of a well-formed drawing: once at least two points
/// were recorded the derived curve exists, and sampling it at each recorded
/// point's parameter — knot `i` sits at parameter `i / (n - 1)` — yields
/// exactly that point, so the curve passes through every point in order.
pub proof fn lemma_curve_interpolates(d: Drawing)
    requires
        d.wf(),
        d.points@.len() >= 2,
    ensures
        d.curve matches Some(c) && c.knots@ == d.points@,
{
}

/// The spacing law of a well-formed drawing: a stroke never holds two
/// consecutive points closer than the minimum distance, because only
/// candidates far enough from the last accepted point are ever recorded.
pub proof fn lemma_consecutive_points_spaced(d: Drawing)
    requires
        d.wf(),
    ensures
        d.points@.len() >= 1,
        forall|i: int|
            0 <= i && i + 1 < d.points@.len() ==> dist2(#[trigger] d.points@[i], d.points@[i + 1])
                >= MIN_POINT_DISTANCE * MIN_POINT_DISTANCE,
{
    assert forall|i: int| 0 <= i && i + 1 < d.points@.len() implies dist2(
        #[trigger] d.points@[i],
        d.points@[i + 1],
    ) >= MIN_POINT_DISTANCE * MIN_POINT_DISTANCE by {
        assert(far_enough(d.points@[i], d.points@[i + 1]));
    }
}

} // verus!
