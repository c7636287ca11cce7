//! The smallest axis-parallel rectangle that covers a page.

use vstd::prelude::*;
use crate::items::{
    all_measurable, item_views, points_measurable, PlotItem, PlotItemView, Text, TextView,
};
use crate::rows::{ROW_LIMIT, Rows};
use crate::transform::pt;
use crate::units::{ITEM_LIMIT, Point};

verus! {

/// The measured size of a text.
#[derive(Clone, Copy, Debug, PartialEq, Eq, Structural)]
pub struct Extent {
    pub width: i64,
    pub height: i64,
}

impl Extent {
    /// Neither side is negative, and both are small enough to be added to
    /// coordinates.
    pub open spec fn wf(self) -> bool {
        0 <= self.width <= ITEM_LIMIT && 0 <= self.height <= ITEM_LIMIT
    }

    /// Whether the extent is well formed.
    pub fn is_wf(&self) -> (ok: bool)
        ensures
            ok == self.wf(),
    {
        0 <= self.width && self.width <= ITEM_LIMIT && 0 <= self.height && self.height <= ITEM_LIMIT
    }
}

/// The extent of every text of the page is well formed; the extents of
/// other primitives are not read.
pub open spec fn text_extents_wf(items: Seq<PlotItemView>, extents: Seq<Extent>) -> bool {
    forall|i: int|
        0 <= i < items.len() && i < extents.len() && (#[trigger] items[i]) is Text ==> extents[i].wf()
}

/// An axis-parallel rectangle, given by its corners with the least and the
/// greatest coordinates.
#[derive(Clone, Copy, Debug, PartialEq, Eq, Structural)]
pub struct Bounds {
    pub min: Point,
    pub max: Point,
}

impl Bounds {
    /// Whether `p` lies in the rectangle or on its edge.
    pub open spec fn contains(self, p: Point) -> bool {
        self.min.x <= p.x <= self.max.x && self.min.y <= p.y <= self.max.y
    }

    /// Whether the rectangle `other` lies in this one.
    pub open spec fn covers(self, other: Bounds) -> bool {
        &&& self.min.x <= other.min.x
        &&& self.min.y <= other.min.y
        &&& other.max.x <= self.max.x
        &&& other.max.y <= self.max.y
    }

    /// The smallest rectangle that covers this one and the point `p`.
    pub open spec fn with(self, p: Point) -> Bounds {
        Bounds {
            min: Point {
                x: if p.x < self.min.x {
                    p.x
                } else {
                    self.min.x
                },
                y: if p.y < self.min.y {
                    p.y
                } else {
                    self.min.y
                },
            },
            max: Point {
                x: if p.x > self.max.x {
                    p.x
                } else {
                    self.max.x
                },
                y: if p.y > self.max.y {
                    p.y
                } else {
                    self.max.y
                },
            },
        }
    }
}

/// The smallest rectangle that covers all of `pts`; `pts` is not empty.
pub open spec fn outline(pts: Seq<Point>) -> Bounds
    decreases pts.len(),
{
    if pts.len() <= 1 {
        Bounds { min: pts[0], max: pts[0] }
    } else {
        outline(pts.drop_last()).with(pts.last())
    }
}

/// Whether `b` is the smallest rectangle that covers all of `pts`: every
/// point lies in it, and each of its four sides touches a point.
pub open spec fn is_outline(pts: Seq<Point>, b: Bounds) -> bool {
    &&& forall|i: int| 0 <= i < pts.len() ==> b.contains(#[trigger] pts[i])
    &&& exists|i: int| 0 <= i < pts.len() && (#[trigger] pts[i]).x == b.min.x
    &&& exists|i: int| 0 <= i < pts.len() && (#[trigger] pts[i]).y == b.min.y
    &&& exists|i: int| 0 <= i < pts.len() && (#[trigger] pts[i]).x == b.max.x
    &&& exists|i: int| 0 <= i < pts.len() && (#[trigger] pts[i]).y == b.max.y
}

/// `outline` is the smallest covering rectangle.
pub proof fn lemma_outline(pts: Seq<Point>)
    requires
        pts.len() > 0,
    ensures
        is_outline(pts, outline(pts)),
    decreases pts.len(),
{
    if pts.len() <= 1 {
        assert(pts[0].x == outline(pts).min.x);
    } else {
        let init = pts.drop_last();
        let last = pts.last();
        let b0 = outline(init);
        let b = outline(pts);
        lemma_outline(init);
        assert forall|i: int| 0 <= i < pts.len() implies b.contains(#[trigger] pts[i]) by {
            if i < init.len() {
                assert(init[i] == pts[i]);
                assert(b0.contains(init[i]));
            }
        }
        let n = pts.len() - 1;
        let i0 = choose|i: int| 0 <= i < init.len() && (#[trigger] init[i]).x == b0.min.x;
        let i1 = choose|i: int| 0 <= i < init.len() && (#[trigger] init[i]).y == b0.min.y;
        let i2 = choose|i: int| 0 <= i < init.len() && (#[trigger] init[i]).x == b0.max.x;
        let i3 = choose|i: int| 0 <= i < init.len() && (#[trigger] init[i]).y == b0.max.y;
        assert(init[i0] == pts[i0] && init[i1] == pts[i1] && init[i2] == pts[i2] && init[i3] == pts[i3]);
        assert(pts[if last.x < b0.min.x { n } else { i0 }].x == b.min.x);
        assert(pts[if last.y < b0.min.y { n } else { i1 }].y == b.min.y);
        assert(pts[if last.x > b0.max.x { n } else { i2 }].x == b.max.x);
        assert(pts[if last.y > b0.max.y { n } else { i3 }].y == b.max.y);
    }
}

/// There is only one smallest covering rectangle.
pub proof fn lemma_outline_unique(pts: Seq<Point>, a: Bounds, b: Bounds)
    requires
        is_outline(pts, a),
        is_outline(pts, b),
    ensures
        a == b,
{
}

/// The outline of two runs of points covers the outline of the first, and
/// that of the second.
pub proof fn lemma_outline_append(a: Seq<Point>, b: Seq<Point>)
    requires
        a.len() > 0,
    ensures
        outline(a + b).covers(outline(a)),
        b.len() > 0 ==> outline(a + b).covers(outline(b)),
    decreases b.len(),
{
    if b.len() == 0 {
        assert(a + b =~= a);
    } else {
        let all = a + b;
        assert(all.drop_last() =~= a + b.drop_last());
        assert(all.last() == b.last());
        lemma_outline_append(a, b.drop_last());
        if b.len() == 1 {
            assert(b.drop_last() =~= Seq::<Point>::empty());
            assert(outline(b) == Bounds { min: b[0], max: b[0] });
        }
    }
}

/// The smallest rectangle that covers all points of `boxes`.
pub fn arr_outline(boxes: &Rows) -> (b: Bounds)
    requires
        boxes.wf(),
        boxes.points().len() > 0,
    ensures
        b == outline(boxes.points()),
        is_outline(boxes.points(), b),
{
    let ghost pts = boxes.points();
    let first = boxes.point(0);
    let n = boxes.len();
    let mut b = Bounds { min: first, max: first };
    let mut i: usize = 1;
    assert(pts.take(1).len() == 1);
    while i < n
        invariant
            1 <= i <= n,
            n == pts.len(),
            pts == boxes.points(),
            boxes.wf(),
            b == outline(pts.take(i as int)),
        decreases n - i,
    {
        let p = boxes.point(i);
        assert(pts.take(i + 1).drop_last() =~= pts.take(i as int));
        if p.x < b.min.x {
            b.min.x = p.x;
        }
        if p.y < b.min.y {
            b.min.y = p.y;
        }
        if p.x > b.max.x {
            b.max.x = p.x;
        }
        if p.y > b.max.y {
            b.max.y = p.y;
        }
        i += 1;
    }
    proof {
        assert(pts.take(i as int) =~= pts);
        lemma_outline(pts);
    }
    b
}

/// Where the top left corner of a text of the measured size `e` comes to
/// stand. A text that runs level, at 0 or 180 degrees, is moved left by its
/// width where it is aligned right and by half of it where it is aligned
/// neither left nor right, and up by its height where it is aligned bottom
/// and by half of it where it is aligned neither top nor bottom. For a text
/// that runs upright, at 90 or 270 degrees, the width counts downwards and
/// the height to the left. At any other angle the text stays at its
/// position.
pub open spec fn text_origin(t: TextView, e: Extent) -> Point {
    let along = if t.align.right {
        e.width as int
    } else if !t.align.left {
        e.width / 2
    } else {
        0
    };
    let across = if t.align.bottom {
        e.height as int
    } else if !t.align.top {
        e.height / 2
    } else {
        0
    };
    if t.angle == 0 || t.angle == 180 {
        pt(t.pos.x - along, t.pos.y - across)
    } else if t.angle == 90 || t.angle == 270 {
        pt(t.pos.x - across, t.pos.y + along)
    } else {
        t.pos
    }
}

/// The two opposite corners of the box of a primitive: the outline of all
/// points of a line, a rectangle or a path, the ends of an arc, centre minus
/// and plus radius of a circle, and for a text its origin and the origin
/// moved by the measured size.
pub open spec fn item_corners(item: PlotItemView, e: Extent) -> Seq<Point> {
    match item {
        PlotItemView::Arc(_, a) => seq![a.start, a.end],
        PlotItemView::Line(_, l) => seq![outline(l.pts).min, outline(l.pts).max],
        PlotItemView::Text(_, t) => {
            let o = text_origin(t, e);
            seq![o, pt(o.x + e.width, o.y + e.height)]
        },
        PlotItemView::Circle(_, c) => seq![
            pt(c.pos.x - c.radius, c.pos.y - c.radius),
            pt(c.pos.x + c.radius, c.pos.y + c.radius),
        ],
        PlotItemView::Polyline(_, p) => seq![outline(p.pts).min, outline(p.pts).max],
        PlotItemView::Rectangle(_, r) => seq![outline(r.pts).min, outline(r.pts).max],
    }
}

/// The corners of the first `n` primitives, in order.
pub open spec fn page_corners(items: Seq<PlotItemView>, extents: Seq<Extent>, n: int) -> Seq<Point>
    decreases n,
{
    if n <= 0 {
        Seq::empty()
    } else {
        page_corners(items, extents, n - 1) + item_corners(items[n - 1], extents[n - 1])
    }
}

/// The smallest rectangle that covers the boxes of all primitives, with
/// `extents[i]` the measured size of the text `items[i]`.
pub open spec fn page_bounds(items: Seq<PlotItemView>, extents: Seq<Extent>) -> Bounds {
    outline(page_corners(items, extents, items.len() as int))
}

/// Every primitive has two corners.
pub proof fn lemma_page_corners_len(items: Seq<PlotItemView>, extents: Seq<Extent>, n: int)
    requires
        0 <= n,
    ensures
        page_corners(items, extents, n).len() == 2 * n,
    decreases n,
{
    if n > 0 {
        lemma_page_corners_len(items, extents, n - 1);
    }
}

/// The corners of a prefix of a page do not depend on what follows.
pub proof fn lemma_page_corners_prefix(
    items: Seq<PlotItemView>,
    extents: Seq<Extent>,
    more_items: Seq<PlotItemView>,
    more_extents: Seq<Extent>,
    n: int,
)
    requires
        0 <= n <= items.len(),
        n <= extents.len(),
    ensures
        page_corners(items + more_items, extents + more_extents, n) == page_corners(items, extents, n),
    decreases n,
{
    if n > 0 {
        lemma_page_corners_prefix(items, extents, more_items, more_extents, n - 1);
    }
}

/// The points of a primitive whose extrema count for the bounds: every
/// point of a line, a rectangle and a path, the ends of an arc, and the two
/// corners of the box of a circle and of a measured text.
pub open spec fn item_points(item: PlotItemView, e: Extent) -> Seq<Point> {
    match item {
        PlotItemView::Line(_, l) => l.pts,
        PlotItemView::Rectangle(_, r) => r.pts,
        PlotItemView::Polyline(_, p) => p.pts,
        _ => item_corners(item, e),
    }
}

/// The bounds of a page contain every point of each of its lines,
/// rectangles and paths, centre minus and plus radius of each circle, the
/// ends of each arc and the measured box of each text.
pub proof fn lemma_bounds_contain_items(items: Seq<PlotItemView>, extents: Seq<Extent>, i: int)
    requires
        0 <= i < items.len(),
    ensures
        page_bounds(items, extents).contains(item_corners(items[i], extents[i])[0]),
        page_bounds(items, extents).contains(item_corners(items[i], extents[i])[1]),
        forall|k: int|
            0 <= k < item_points(items[i], extents[i]).len() ==> page_bounds(items, extents).contains(
                #[trigger] item_points(items[i], extents[i])[k],
            ),
{
    let n = items.len() as int;
    lemma_corner_index(items, extents, n, i);
    lemma_page_corners_len(items, extents, n);
    lemma_outline(page_corners(items, extents, n));
    let pts = item_points(items[i], extents[i]);
    match items[i] {
        PlotItemView::Line(_, l) => {
            if l.pts.len() > 0 {
                lemma_outline(l.pts);
            }
        },
        PlotItemView::Rectangle(_, r) => {
            if r.pts.len() > 0 {
                lemma_outline(r.pts);
            }
        },
        PlotItemView::Polyline(_, p) => {
            if p.pts.len() > 0 {
                lemma_outline(p.pts);
            }
        },
        _ => {
            assert(pts.len() == 2);
        },
    }
}

/// Where the corners of primitive `i` stand among the corners of a page.
proof fn lemma_corner_index(items: Seq<PlotItemView>, extents: Seq<Extent>, n: int, i: int)
    requires
        0 <= i < n,
    ensures
        page_corners(items, extents, n).len() == 2 * n,
        page_corners(items, extents, n)[2 * i] == item_corners(items[i], extents[i])[0],
        page_corners(items, extents, n)[2 * i + 1] == item_corners(items[i], extents[i])[1],
    decreases n,
{
    lemma_page_corners_len(items, extents, n);
    lemma_page_corners_len(items, extents, n - 1);
    if i < n - 1 {
        lemma_corner_index(items, extents, n - 1, i);
    }
}

/// Adding a primitive to a page that is not empty never shrinks its bounds:
/// the new bounds cover the old.
pub proof fn lemma_bounds_monotone(
    items: Seq<PlotItemView>,
    extents: Seq<Extent>,
    item: PlotItemView,
    extent: Extent,
)
    requires
        items.len() > 0,
        extents.len() == items.len(),
    ensures
        page_bounds(items.push(item), extents.push(extent)).covers(page_bounds(items, extents)),
{
    let n = items.len() as int;
    lemma_page_corners_prefix(items, extents, seq![item], seq![extent], n);
    assert(items.push(item) =~= items + seq![item]);
    assert(extents.push(extent) =~= extents + seq![extent]);
    lemma_page_corners_len(items, extents, n);
    lemma_outline_append(page_corners(items, extents, n), item_corners(item, extent));
}

/// Where the top left corner of `text`, of the measured size `e`, comes to
/// stand.
pub fn text_position(text: &Text, e: Extent) -> (o: Point)
    requires
        text.pos.in_item_range(),
        e.wf(),
    ensures
        o == text_origin(text@, e),
        -2 * ITEM_LIMIT <= o.x <= 2 * ITEM_LIMIT,
        -2 * ITEM_LIMIT <= o.y <= 2 * ITEM_LIMIT,
{
    let along: i64 = if text.align.right {
        e.width
    } else if !text.align.left {
        e.width / 2
    } else {
        0
    };
    let across: i64 = if text.align.bottom {
        e.height
    } else if !text.align.top {
        e.height / 2
    } else {
        0
    };
    if text.angle == 0 || text.angle == 180 {
        Point { x: text.pos.x - along, y: text.pos.y - across }
    } else if text.angle == 90 || text.angle == 270 {
        Point { x: text.pos.x - across, y: text.pos.y + along }
    } else {
        text.pos
    }
}

/// The number of primitives up to which the corners of a page fit one
/// array.
pub const PAGE_LIMIT: usize = 0x1fff_ffff;

/// Whether both coordinates of `p` are within three times the limit of a
/// primitive, as every corner of a primitive that can be measured is.
pub open spec fn near(p: Point) -> bool {
    -3 * ITEM_LIMIT <= p.x <= 3 * ITEM_LIMIT && -3 * ITEM_LIMIT <= p.y <= 3 * ITEM_LIMIT
}

/// The smallest rectangle that covers all of `pts`.
fn points_outline(pts: &Vec<Point>) -> (b: Bounds)
    requires
        points_measurable(pts@),
    ensures
        b == outline(pts@),
        b.min.in_item_range(),
        b.max.in_item_range(),
{
    let b = arr_outline(&Rows::from_points(pts));
    proof {
        let i0 = choose|i: int| 0 <= i < pts@.len() && (#[trigger] pts@[i]).x == b.min.x;
        let i1 = choose|i: int| 0 <= i < pts@.len() && (#[trigger] pts@[i]).y == b.min.y;
        let i2 = choose|i: int| 0 <= i < pts@.len() && (#[trigger] pts@[i]).x == b.max.x;
        let i3 = choose|i: int| 0 <= i < pts@.len() && (#[trigger] pts@[i]).y == b.max.y;
        assert(pts@[i0].in_item_range() && pts@[i1].in_item_range());
        assert(pts@[i2].in_item_range() && pts@[i3].in_item_range());
    }
    b
}

/// Appends the two corners of the box of `item` to `corners`.
fn push_corners(corners: &mut Rows, item: &PlotItem, e: Extent)
    requires
        item@.measurable(),
        item@ is Text ==> e.wf(),
        old(corners).wf(),
        old(corners).points().len() + 2 <= ROW_LIMIT,
    ensures
        final(corners).wf(),
        final(corners).points() == old(corners).points() + item_corners(item@, e),
        near(item_corners(item@, e)[0]),
        near(item_corners(item@, e)[1]),
{
    let (a, b): (Point, Point) = match item {
        PlotItem::Arc(_, arc) => (arc.start, arc.end),
        PlotItem::Line(_, line) => {
            let b = points_outline(&line.pts);
            (b.min, b.max)
        },
        PlotItem::Text(_, text) => {
            let o = text_position(text, e);
            (o, Point { x: o.x + e.width, y: o.y + e.height })
        },
        PlotItem::Circle(_, circle) => (
            Point { x: circle.pos.x - circle.radius, y: circle.pos.y - circle.radius },
            Point { x: circle.pos.x + circle.radius, y: circle.pos.y + circle.radius },
        ),
        PlotItem::Polyline(_, polyline) => {
            let b = points_outline(&polyline.pts);
            (b.min, b.max)
        },
        PlotItem::Rectangle(_, rect) => {
            let b = points_outline(&rect.pts);
            (b.min, b.max)
        },
    };
    corners.push(a);
    corners.push(b);
    assert(corners.points() =~= old(corners).points() + item_corners(item@, e));
}

/// The smallest rectangle that covers the boxes of all of `items`, with
/// `extents[i]` the measured size of the text `items[i]`; for other
/// primitives the extent is not read.
pub fn page_outline(items: &Vec<PlotItem>, extents: &Vec<Extent>) -> (b: Bounds)
    requires
        0 < items@.len() <= PAGE_LIMIT,
        extents@.len() == items@.len(),
        all_measurable(item_views(items@)),
        text_extents_wf(item_views(items@), extents@),
    ensures
        b == page_bounds(item_views(items@), extents@),
        near(b.min),
        near(b.max),
{
    let ghost views = item_views(items@);
    let mut corners = Rows::new();
    let mut i: usize = 0;
    while i < items.len()
        invariant
            i <= items@.len(),
            extents@.len() == items@.len(),
            views == item_views(items@),
            all_measurable(views),
            text_extents_wf(views, extents@),
            items@.len() <= PAGE_LIMIT,
            corners.wf(),
            corners.points() == page_corners(views, extents@, i as int),
            forall|k: int| 0 <= k < corners.points().len() ==> near(#[trigger] corners.points()[k]),
        decreases items@.len() - i,
    {
        assert(views[i as int] == items@[i as int]@);
        assert(views[i as int].measurable());
        proof {
            lemma_page_corners_len(views, extents@, i as int);
        }
        push_corners(&mut corners, &items[i], extents[i]);
        i += 1;
    }
    proof {
        lemma_page_corners_len(views, extents@, items@.len() as int);
    }
    let b = arr_outline(&corners);
    proof {
        let pts = corners.points();
        let i0 = choose|i: int| 0 <= i < pts.len() && (#[trigger] pts[i]).x == b.min.x;
        let i1 = choose|i: int| 0 <= i < pts.len() && (#[trigger] pts[i]).y == b.min.y;
        let i2 = choose|i: int| 0 <= i < pts.len() && (#[trigger] pts[i]).x == b.max.x;
        let i3 = choose|i: int| 0 <= i < pts.len() && (#[trigger] pts[i]).y == b.max.y;
        assert(near(pts[i0]) && near(pts[i1]) && near(pts[i2]) && near(pts[i3]));
    }
    b
}

} // verus!
