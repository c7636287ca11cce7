//! The canvas operations that draw a page.

use vstd::prelude::*;
use crate::bounds::{text_extents_wf, text_origin, text_position, Extent};
use crate::color::Color;
use crate::items::{
    all_drawable, item_views, Arc, LineCap, PlotItem, PlotItemView, Rectangle, Text, TextView,
};
use crate::order::{
    draw_order, drawn_before, is_draw_order, lemma_draw_order_complete, lemma_draw_order_exists,
    sorted_positions, z_orders,
};
use crate::parts::upright;
use crate::transform::{pt, rotated, rotation_of, Rotation};
use crate::units::{item_range, Point, ITEM_LIMIT};

verus! {

/// One operation on the canvas.
#[derive(Clone, Copy, Debug, PartialEq, Eq, Structural)]
pub enum DrawOp {
    /// Use this colour for what is stroked, filled or painted next.
    SetSource(Color),
    /// Cover the whole canvas.
    Paint,
    /// Stroke with lines of this width.
    SetLineWidth(i64),
    /// End stroked lines in this way.
    SetLineCap(LineCap),
    /// Begin a path at this point.
    MoveTo(Point),
    /// Extend the path by a line to this point.
    LineTo(Point),
    /// Add a rectangle to the path.
    Rectangle { origin: Point, width: i64, height: i64 },
    /// Add to the path an arc about `center` that runs from the angle `from`
    /// to the angle `to`, both in whole radians.
    Arc { center: Point, radius: i64, from: i64, to: i64 },
    /// Stroke the path and forget it.
    Stroke,
    /// Stroke the path and keep it.
    StrokePreserve,
    /// Fill the path and forget it.
    Fill,
    /// Remember the state of the canvas.
    Save,
    /// Return to the state remembered last.
    Restore,
    /// Extend the path by a line to the point `corner` turned about the
    /// origin by `angle` degrees, towards the positive y axis first, and then
    /// moved by `about`.
    LineToTurned { about: Point, angle: i64, corner: Point },
    /// Turn the coordinates by this many degrees.
    Rotate(i64),
    /// Draw the shaped text of the primitive at this position of the page.
    ShowLayout(usize),
}

/// Where the arc of a circle starts, in radians.
pub const SWEEP_FROM: i64 = 0;

/// Where the arc of a circle ends, in radians: past a full turn.
pub const SWEEP_TO: i64 = 10;

/// Distance of the point of a callout from its box, and of the box from the
/// text.
pub const LABEL_LEFT: i64 = 4_000;

/// Space between the text of a callout and its upper and lower border.
pub const LABEL_UP: i64 = 1_000;

/// Colour and width of what is stroked next.
pub open spec fn stroke_ops(color: Color, width: i64) -> Seq<DrawOp> {
    seq![DrawOp::SetSource(color), DrawOp::SetLineWidth(width)]
}

/// What fills the path, where the primitive is filled.
pub open spec fn fill_ops(fill: Option<Color>) -> Seq<DrawOp> {
    match fill {
        Some(c) => seq![DrawOp::SetSource(c), DrawOp::Fill],
        None => Seq::empty(),
    }
}

/// A shape is stroked with its path kept, filled where it has a fill, and
/// stroked again.
pub open spec fn shape_ops(color: Color, width: i64, path: Seq<DrawOp>, fill: Option<Color>) -> Seq<DrawOp> {
    stroke_ops(color, width) + path + fill_ops(fill) + seq![DrawOp::Stroke]
}

/// The path through the first `n` of `pts`: a move to the first point, and
/// for every further point a line to it that is stroked at once.
pub open spec fn path_ops(pts: Seq<Point>, n: int) -> Seq<DrawOp>
    decreases n,
{
    if n <= 0 {
        Seq::empty()
    } else if n == 1 {
        seq![DrawOp::MoveTo(pts[0])]
    } else {
        path_ops(pts, n - 1) + seq![DrawOp::LineTo(pts[n - 1]), DrawOp::StrokePreserve]
    }
}

/// The corners of a callout around a text of the size `e`, seen from the
/// point of the callout with the text running to the right.
pub open spec fn label_contour(e: Extent) -> Seq<Point> {
    seq![
        pt(0, 0),
        pt(2 * LABEL_LEFT, -(e.height / 2) - LABEL_UP),
        pt(3 * LABEL_LEFT + e.width, -(e.height / 2) - LABEL_UP),
        pt(3 * LABEL_LEFT + e.width, e.height / 2 + LABEL_UP),
        pt(2 * LABEL_LEFT, e.height / 2 + LABEL_UP),
        pt(0, 0),
    ]
}

/// Where the text of a callout begins: right of the point for a callout at
/// 0 degrees, left of it by the width of the text at 180 degrees, and half
/// the height of the text above the point in both cases; at the point for
/// any other angle.
pub open spec fn label_origin(t: TextView, e: Extent) -> Point {
    if t.angle == 0 {
        pt(t.pos.x + 2 * LABEL_LEFT, t.pos.y - e.height / 2)
    } else if t.angle == 180 {
        pt(t.pos.x - (2 * LABEL_LEFT + e.width), t.pos.y - e.height / 2)
    } else {
        t.pos
    }
}

/// The shaped text of primitive `index`, begun at `origin` and turned back
/// by the angle of the text, which counts less half a turn from half a turn
/// on.
pub open spec fn show_ops(origin: Point, angle: i64, index: usize) -> Seq<DrawOp> {
    seq![
        DrawOp::MoveTo(origin),
        DrawOp::Rotate((-upright(angle as int)) as i64),
        DrawOp::ShowLayout(index),
        DrawOp::Stroke,
    ]
}

/// The line to a corner of a callout: the corner is turned about the point
/// of the callout by the angle of the text and moved to its position. At a
/// whole number of quarter turns the line goes to that point; at any other
/// angle the canvas is left to turn the corner.
pub open spec fn corner_op(t: TextView, corner: Point) -> DrawOp {
    match rotation_of(t.angle as int) {
        Some(r) => {
            let turned = rotated(r, corner.x as int, corner.y as int);
            DrawOp::LineTo(pt(t.pos.x + turned.0, t.pos.y + turned.1))
        },
        None => DrawOp::LineToTurned { about: t.pos, angle: t.angle, corner },
    }
}

/// The border of a callout: a path from the position of the text round the
/// turned corners of the callout, stroked. The canvas itself is not turned.
pub open spec fn callout_ops(t: TextView, e: Extent) -> Seq<DrawOp> {
    let c = label_contour(e);
    seq![
        DrawOp::MoveTo(t.pos),
        corner_op(t, c[0]),
        corner_op(t, c[1]),
        corner_op(t, c[2]),
        corner_op(t, c[3]),
        corner_op(t, c[4]),
        corner_op(t, c[5]),
        DrawOp::Stroke,
    ]
}

/// What draws a text of the measured size `e`: a plain text is shown at its
/// aligned origin; a callout gets its border first and is then shown at its
/// own origin. The canvas is turned once, for the text, between one save and
/// its restore: its state is the same before and after.
pub open spec fn text_ops(t: TextView, e: Extent, index: usize) -> Seq<DrawOp> {
    if t.label {
        seq![DrawOp::Save] + callout_ops(t, e) + show_ops(label_origin(t, e), t.angle, index) + seq![
            DrawOp::Restore,
        ]
    } else {
        seq![DrawOp::Save] + show_ops(text_origin(t, e), t.angle, index) + seq![DrawOp::Restore]
    }
}

/// What draws the primitive at position `index` of the page; `e` is the
/// measured size of its text, if it is one.
pub open spec fn item_ops(item: PlotItemView, e: Extent, index: usize) -> Seq<DrawOp> {
    match item {
        PlotItemView::Line(_, l) => stroke_ops(l.color, l.linewidth) + seq![
            DrawOp::SetLineCap(l.linecap),
            DrawOp::MoveTo(l.pts[0]),
            DrawOp::LineTo(l.pts[1]),
            DrawOp::Stroke,
        ],
        PlotItemView::Polyline(_, p) => shape_ops(
            p.color,
            p.linewidth,
            path_ops(p.pts, p.pts.len() as int),
            p.fill,
        ),
        PlotItemView::Rectangle(_, r) => shape_ops(
            r.color,
            r.linewidth,
            seq![
                DrawOp::Rectangle {
                    origin: r.pts[0],
                    width: (r.pts[1].x - r.pts[0].x) as i64,
                    height: (r.pts[1].y - r.pts[0].y) as i64,
                },
                DrawOp::StrokePreserve,
            ],
            r.fill,
        ),
        PlotItemView::Circle(_, c) => shape_ops(
            c.color,
            c.linewidth,
            seq![
                DrawOp::Arc { center: c.pos, radius: c.radius, from: SWEEP_FROM, to: SWEEP_TO },
                DrawOp::StrokePreserve,
            ],
            c.fill,
        ),
        PlotItemView::Arc(_, a) => shape_ops(
            a.color,
            a.linewidth,
            seq![
                DrawOp::Arc { center: a.start, radius: a.mid.y, from: SWEEP_FROM, to: SWEEP_TO },
                DrawOp::StrokePreserve,
            ],
            a.fill,
        ),
        PlotItemView::Text(_, t) => text_ops(t, e, index),
    }
}

/// What draws the first `n` primitives of `order`, in that order.
pub open spec fn ordered_ops(items: Seq<PlotItemView>, extents: Seq<Extent>, order: Seq<usize>, n: int) -> Seq<
    DrawOp,
>
    decreases n,
{
    if n <= 0 {
        Seq::empty()
    } else {
        ordered_ops(items, extents, order, n - 1) + item_ops(
            items[order[n - 1] as int],
            extents[order[n - 1] as int],
            order[n - 1],
        )
    }
}

/// The canvas is painted white all over before anything is drawn.
pub open spec fn background_ops() -> Seq<DrawOp> {
    seq![DrawOp::SetSource(Color { r: 10_000, g: 10_000, b: 10_000, a: 10_000 }), DrawOp::Paint]
}

/// What draws a page: the white background, then every primitive in
/// drawing order, that is ascending by z-order and, among equal z-orders, in
/// the order of the page.
pub open spec fn page_ops(items: Seq<PlotItemView>, extents: Seq<Extent>) -> Seq<DrawOp> {
    background_ops() + ordered_ops(items, extents, draw_order(z_orders(items)), items.len() as int)
}

/// Where in the operations of a page those of the primitive drawn `k`-th
/// begin, counted from the end of the background.
pub open spec fn ops_start(items: Seq<PlotItemView>, extents: Seq<Extent>, order: Seq<usize>, k: int) -> int {
    ordered_ops(items, extents, order, k).len() as int
}

/// The operations of a page are those of its primitives one after the
/// other: the operations of the primitive drawn `k`-th stand between its
/// start and the start of the next.
pub proof fn lemma_ordered_ops_segment(
    items: Seq<PlotItemView>,
    extents: Seq<Extent>,
    order: Seq<usize>,
    n: int,
    k: int,
)
    requires
        0 <= k < n,
    ensures
        ops_start(items, extents, order, k) <= ops_start(items, extents, order, k + 1) <= ops_start(
            items,
            extents,
            order,
            n,
        ),
        ordered_ops(items, extents, order, n).subrange(
            ops_start(items, extents, order, k),
            ops_start(items, extents, order, k + 1),
        ) == item_ops(items[order[k] as int], extents[order[k] as int], order[k]),
    decreases n - k,
{
    let here = ordered_ops(items, extents, order, k);
    let ops = item_ops(items[order[k] as int], extents[order[k] as int], order[k]);
    assert(ordered_ops(items, extents, order, k + 1) == here + ops);
    if k + 1 == n {
        assert((here + ops).subrange(here.len() as int, (here + ops).len() as int) =~= ops);
    } else {
        lemma_ordered_ops_segment(items, extents, order, n - 1, k);
        let shorter = ordered_ops(items, extents, order, n - 1);
        let all = ordered_ops(items, extents, order, n);
        let a = ops_start(items, extents, order, k);
        let b = ops_start(items, extents, order, k + 1);
        assert(all.subrange(a, b) =~= shorter.subrange(a, b));
    }
}

/// Of two primitives of a page, the one with the lower z-order is drawn
/// first, and of two with the same z-order the one that stands first on the
/// page.
pub proof fn lemma_drawn_in_order(items: Seq<PlotItemView>, i: int, j: int)
    requires
        items.len() <= usize::MAX,
        0 <= i < items.len(),
        0 <= j < items.len(),
        items[i].z() < items[j].z() || (items[i].z() == items[j].z() && i < j),
    ensures
        exists|a: int, b: int|
            0 <= a < b < items.len() && #[trigger] draw_order(z_orders(items))[a] == i
                && #[trigger] draw_order(z_orders(items))[b] == j,
{
    let zs = z_orders(items);
    let order = draw_order(zs);
    lemma_draw_order_exists(zs);
    lemma_draw_order_complete(zs, order, i);
    lemma_draw_order_complete(zs, order, j);
    let a = choose|a: int| 0 <= a < order.len() && #[trigger] order[a] == i;
    let b = choose|b: int| 0 <= b < order.len() && #[trigger] order[b] == j;
    if b < a {
        assert(drawn_before(zs, order[b] as int, order[a] as int));
    }
    assert(a < b);
}

/// Appends the colour and width of what is stroked next.
fn push_stroke(ops: &mut Vec<DrawOp>, color: Color, width: i64)
    ensures
        final(ops)@ == old(ops)@ + stroke_ops(color, width),
{
    ops.push(DrawOp::SetSource(color));
    ops.push(DrawOp::SetLineWidth(width));
    assert(ops@ =~= old(ops)@ + stroke_ops(color, width));
}

/// Appends what fills the path, where there is a fill.
fn push_fill(ops: &mut Vec<DrawOp>, fill: Option<Color>)
    ensures
        final(ops)@ == old(ops)@ + fill_ops(fill),
{
    match fill {
        Some(c) => {
            ops.push(DrawOp::SetSource(c));
            ops.push(DrawOp::Fill);
        },
        None => {},
    }
    assert(ops@ =~= old(ops)@ + fill_ops(fill));
}

/// Appends the path through `pts`.
fn push_path(ops: &mut Vec<DrawOp>, pts: &Vec<Point>)
    ensures
        final(ops)@ == old(ops)@ + path_ops(pts@, pts@.len() as int),
{
    let mut i: usize = 0;
    assert(ops@ =~= old(ops)@ + path_ops(pts@, 0));
    while i < pts.len()
        invariant
            i <= pts@.len(),
            ops@ == old(ops)@ + path_ops(pts@, i as int),
        decreases pts@.len() - i,
    {
        if i == 0 {
            ops.push(DrawOp::MoveTo(pts[i]));
            assert(ops@ =~= old(ops)@ + path_ops(pts@, 1));
        } else {
            ops.push(DrawOp::LineTo(pts[i]));
            ops.push(DrawOp::StrokePreserve);
            assert(ops@ =~= old(ops)@ + path_ops(pts@, i + 1));
        }
        i += 1;
    }
}

/// Appends what shows the shaped text of primitive `index`.
fn push_show(ops: &mut Vec<DrawOp>, origin: Point, angle: i64, index: usize)
    requires
        item_range(angle as int),
    ensures
        final(ops)@ == old(ops)@ + show_ops(origin, angle, index),
{
    let turned: i64 = if angle >= 180 {
        angle - 180
    } else {
        angle
    };
    ops.push(DrawOp::MoveTo(origin));
    ops.push(DrawOp::Rotate(-turned));
    ops.push(DrawOp::ShowLayout(index));
    ops.push(DrawOp::Stroke);
    assert(ops@ =~= old(ops)@ + show_ops(origin, angle, index));
}

/// The line to a corner of the callout of `text`, with `turn` the quarter
/// turns of its angle, if it has a whole number of them.
fn corner_of(text: &Text, turn: Option<Rotation>, corner: Point) -> (op: DrawOp)
    requires
        text.pos.in_item_range(),
        turn == rotation_of(text.angle as int),
        -2 * ITEM_LIMIT <= corner.x <= 2 * ITEM_LIMIT,
        -2 * ITEM_LIMIT <= corner.y <= 2 * ITEM_LIMIT,
    ensures
        op == corner_op(text@, corner),
{
    match turn {
        Some(r) => {
            let (x, y): (i64, i64) = match r {
                Rotation::R0 => (corner.x, corner.y),
                Rotation::R90 => (-corner.y, corner.x),
                Rotation::R180 => (-corner.x, -corner.y),
                Rotation::R270 => (corner.y, -corner.x),
            };
            DrawOp::LineTo(Point { x: text.pos.x + x, y: text.pos.y + y })
        },
        None => DrawOp::LineToTurned { about: text.pos, angle: text.angle, corner },
    }
}

/// Appends what draws a text.
fn push_text(ops: &mut Vec<DrawOp>, text: &Text, e: Extent, index: usize)
    requires
        text.pos.in_item_range(),
        item_range(text.angle as int),
        e.wf(),
    ensures
        final(ops)@ == old(ops)@ + text_ops(text@, e, index),
{
    let ghost start = ops@;
    ops.push(DrawOp::Save);
    if text.label {
        let up: i64 = e.height / 2 + LABEL_UP;
        let near: i64 = 2 * LABEL_LEFT;
        let far: i64 = 3 * LABEL_LEFT + e.width;
        let turn = Rotation::of_angle(text.angle);
        ops.push(DrawOp::MoveTo(text.pos));
        ops.push(corner_of(text, turn, Point { x: 0, y: 0 }));
        ops.push(corner_of(text, turn, Point { x: near, y: -up }));
        ops.push(corner_of(text, turn, Point { x: far, y: -up }));
        ops.push(corner_of(text, turn, Point { x: far, y: up }));
        ops.push(corner_of(text, turn, Point { x: near, y: up }));
        ops.push(corner_of(text, turn, Point { x: 0, y: 0 }));
        ops.push(DrawOp::Stroke);
        assert(ops@ =~= start + seq![DrawOp::Save] + callout_ops(text@, e));
        let origin = if text.angle == 0 {
            Point { x: text.pos.x + near, y: text.pos.y - e.height / 2 }
        } else if text.angle == 180 {
            Point { x: text.pos.x - (near + e.width), y: text.pos.y - e.height / 2 }
        } else {
            text.pos
        };
        push_show(ops, origin, text.angle, index);
    } else {
        let origin = text_position(text, e);
        push_show(ops, origin, text.angle, index);
    }
    ops.push(DrawOp::Restore);
    assert(ops@ =~= start + text_ops(text@, e, index));
}

/// Appends to `ops` what draws `item`, which stands at position `index` of
/// its page; `e` is the measured size of its text, if it is one.
pub fn push_item(ops: &mut Vec<DrawOp>, item: &PlotItem, e: Extent, index: usize)
    requires
        item@.drawable(),
        item@ is Text ==> e.wf(),
    ensures
        final(ops)@ == old(ops)@ + item_ops(item@, e, index),
{
    let ghost start = ops@;
    match item {
        PlotItem::Line(_, line) => {
            push_stroke(ops, line.color, line.linewidth);
            ops.push(DrawOp::SetLineCap(line.linecap));
            ops.push(DrawOp::MoveTo(line.pts[0]));
            ops.push(DrawOp::LineTo(line.pts[1]));
            ops.push(DrawOp::Stroke);
            assert(ops@ =~= start + item_ops(item@, e, index));
        },
        PlotItem::Polyline(_, polyline) => {
            push_stroke(ops, polyline.color, polyline.linewidth);
            push_path(ops, &polyline.pts);
            push_fill(ops, polyline.fill);
            ops.push(DrawOp::Stroke);
            assert(ops@ =~= start + item_ops(item@, e, index));
        },
        PlotItem::Rectangle(_, rectangle) => {
            push_stroke(ops, rectangle.color, rectangle.linewidth);
            ops.push(
                DrawOp::Rectangle {
                    origin: rectangle.pts[0],
                    width: rectangle.pts[1].x - rectangle.pts[0].x,
                    height: rectangle.pts[1].y - rectangle.pts[0].y,
                },
            );
            ops.push(DrawOp::StrokePreserve);
            push_fill(ops, rectangle.fill);
            ops.push(DrawOp::Stroke);
            assert(ops@ =~= start + item_ops(item@, e, index));
        },
        PlotItem::Circle(_, circle) => {
            push_stroke(ops, circle.color, circle.linewidth);
            ops.push(
                DrawOp::Arc { center: circle.pos, radius: circle.radius, from: SWEEP_FROM, to: SWEEP_TO },
            );
            ops.push(DrawOp::StrokePreserve);
            push_fill(ops, circle.fill);
            ops.push(DrawOp::Stroke);
            assert(ops@ =~= start + item_ops(item@, e, index));
        },
        PlotItem::Arc(_, arc) => {
            push_stroke(ops, arc.color, arc.linewidth);
            ops.push(DrawOp::Arc { center: arc.start, radius: arc.mid.y, from: SWEEP_FROM, to: SWEEP_TO });
            ops.push(DrawOp::StrokePreserve);
            push_fill(ops, arc.fill);
            ops.push(DrawOp::Stroke);
            assert(ops@ =~= start + item_ops(item@, e, index));
        },
        PlotItem::Text(_, text) => {
            push_text(ops, text, e, index);
        },
    }
}

/// What draws the page `items`: the white background, then every primitive
/// in drawing order. `extents[i]` is the measured size of the text
/// `items[i]`; for other primitives the extent is not read.
pub fn draw_page(items: &Vec<PlotItem>, extents: &Vec<Extent>) -> (ops: Vec<DrawOp>)
    requires
        extents@.len() == items@.len(),
        all_drawable(item_views(items@)),
        text_extents_wf(item_views(items@), extents@),
    ensures
        ops@ == page_ops(item_views(items@), extents@),
{
    let ghost views = item_views(items@);
    let order = sorted_positions(items);
    let mut ops: Vec<DrawOp> = Vec::new();
    ops.push(DrawOp::SetSource(Color { r: 10_000, g: 10_000, b: 10_000, a: 10_000 }));
    ops.push(DrawOp::Paint);
    assert(ops@ =~= background_ops() + ordered_ops(views, extents@, order@, 0));
    let mut k: usize = 0;
    while k < order.len()
        invariant
            k <= order@.len(),
            order@.len() == items@.len(),
            extents@.len() == items@.len(),
            views == item_views(items@),
            all_drawable(views),
            text_extents_wf(views, extents@),
            is_draw_order(z_orders(views), order@),
            ops@ == background_ops() + ordered_ops(views, extents@, order@, k as int),
        decreases order@.len() - k,
    {
        let index = order[k];
        assert(views[index as int] == items@[index as int]@);
        let ghost before = ops@;
        push_item(&mut ops, &items[index], extents[index], index);
        assert(ops@ =~= background_ops() + ordered_ops(views, extents@, order@, k + 1)) by {
            assert(before + item_ops(views[index as int], extents@[index as int], index)
                =~= background_ops() + (ordered_ops(views, extents@, order@, k as int) + item_ops(
                views[index as int],
                extents@[index as int],
                index,
            )));
        }
        k += 1;
    }
    ops
}

} // verus!
