//! The drawable primitives a page is made of.

use vstd::prelude::*;
use vstd::string::*;
use crate::color::Color;
use crate::rows::ROW_LIMIT;
use crate::units::{item_range, ITEM_LIMIT, Point};

verus! {

/// How the ends of a stroked line are drawn.
#[derive(Clone, Copy, Debug, PartialEq, Eq, Structural)]
pub enum LineCap {
    Butt,
    Round,
    Square,
}

/// The alignment words a text carries; any subset may be present.
#[derive(Clone, Copy, Debug, PartialEq, Eq, Structural)]
pub struct Align {
    pub left: bool,
    pub right: bool,
    pub top: bool,
    pub bottom: bool,
    pub center: bool,
}

impl Align {
    /// No alignment word at all.
    pub fn none() -> (a: Align)
        ensures
            a == (Align { left: false, right: false, top: false, bottom: false, center: false }),
    {
        Align { left: false, right: false, top: false, bottom: false, center: false }
    }

    /// The single word `center`.
    pub fn centered() -> (a: Align)
        ensures
            a == (Align { left: false, right: false, top: false, bottom: false, center: true }),
    {
        Align { left: false, right: false, top: false, bottom: false, center: true }
    }
}

/// A straight line from the first to the second point of `pts`.
#[derive(Debug, PartialEq, Eq)]
pub struct Line {
    pub pts: Vec<Point>,
    pub linewidth: i64,
    pub linetype: String,
    pub linecap: LineCap,
    pub color: Color,
}

/// The mathematical content of a [`Line`].
pub struct LineView {
    pub pts: Seq<Point>,
    pub linewidth: i64,
    pub linetype: Seq<char>,
    pub linecap: LineCap,
    pub color: Color,
}

impl View for Line {
    type V = LineView;

    open spec fn view(&self) -> LineView {
        LineView {
            pts: self.pts@,
            linewidth: self.linewidth,
            linetype: self.linetype@,
            linecap: self.linecap,
            color: self.color,
        }
    }
}

impl Line {
    /// The line with these points and this style.
    pub fn new(pts: Vec<Point>, linewidth: i64, linetype: String, linecap: LineCap, color: Color) -> (line: Line)
        ensures
            line == (Line { pts, linewidth, linetype, linecap, color }),
    {
        Line { pts, linewidth, linetype, linecap, color }
    }
}

/// An axis-parallel rectangle spanned by the first two points of `pts`.
#[derive(Debug, PartialEq, Eq)]
pub struct Rectangle {
    pub pts: Vec<Point>,
    pub color: Color,
    pub linewidth: i64,
    pub linetype: String,
    pub fill: Option<Color>,
}

/// The mathematical content of a [`Rectangle`].
pub struct RectangleView {
    pub pts: Seq<Point>,
    pub color: Color,
    pub linewidth: i64,
    pub linetype: Seq<char>,
    pub fill: Option<Color>,
}

impl View for Rectangle {
    type V = RectangleView;

    open spec fn view(&self) -> RectangleView {
        RectangleView {
            pts: self.pts@,
            color: self.color,
            linewidth: self.linewidth,
            linetype: self.linetype@,
            fill: self.fill,
        }
    }
}

impl Rectangle {
    /// The rectangle with these corners and this style.
    pub fn new(
        pts: Vec<Point>,
        color: Color,
        linewidth: i64,
        linetype: String,
        fill: Option<Color>,
    ) -> (rectangle: Rectangle)
        ensures
            rectangle == (Rectangle { pts, color, linewidth, linetype, fill }),
    {
        Rectangle { pts, color, linewidth, linetype, fill }
    }
}

/// An arc given by its start, middle and end points.
#[derive(Debug, PartialEq, Eq)]
pub struct Arc {
    pub start: Point,
    pub mid: Point,
    pub end: Point,
    pub linewidth: i64,
    pub linetype: String,
    pub color: Color,
    pub fill: Option<Color>,
}

/// The mathematical content of an [`Arc`].
pub struct ArcView {
    pub start: Point,
    pub mid: Point,
    pub end: Point,
    pub linewidth: i64,
    pub linetype: Seq<char>,
    pub color: Color,
    pub fill: Option<Color>,
}

impl View for Arc {
    type V = ArcView;

    open spec fn view(&self) -> ArcView {
        ArcView {
            start: self.start,
            mid: self.mid,
            end: self.end,
            linewidth: self.linewidth,
            linetype: self.linetype@,
            color: self.color,
            fill: self.fill,
        }
    }
}

impl Arc {
    /// The arc through these points in this style.
    pub fn new(
        start: Point,
        mid: Point,
        end: Point,
        linewidth: i64,
        linetype: String,
        color: Color,
        fill: Option<Color>,
    ) -> (arc: Arc)
        ensures
            arc == (Arc { start, mid, end, linewidth, linetype, color, fill }),
    {
        Arc { start, mid, end, linewidth, linetype, color, fill }
    }
}

/// A circle around `pos`.
#[derive(Debug, PartialEq, Eq)]
pub struct Circle {
    pub pos: Point,
    pub radius: i64,
    pub linewidth: i64,
    pub linetype: String,
    pub color: Color,
    pub fill: Option<Color>,
}

/// The mathematical content of a [`Circle`].
pub struct CircleView {
    pub pos: Point,
    pub radius: i64,
    pub linewidth: i64,
    pub linetype: Seq<char>,
    pub color: Color,
    pub fill: Option<Color>,
}

impl View for Circle {
    type V = CircleView;

    open spec fn view(&self) -> CircleView {
        CircleView {
            pos: self.pos,
            radius: self.radius,
            linewidth: self.linewidth,
            linetype: self.linetype@,
            color: self.color,
            fill: self.fill,
        }
    }
}

impl Circle {
    /// The circle about `pos` in this style.
    pub fn new(
        pos: Point,
        radius: i64,
        linewidth: i64,
        linetype: String,
        color: Color,
        fill: Option<Color>,
    ) -> (circle: Circle)
        ensures
            circle == (Circle { pos, radius, linewidth, linetype, color, fill }),
    {
        Circle { pos, radius, linewidth, linetype, color, fill }
    }
}

/// An open path through all points of `pts`.
#[derive(Debug, PartialEq, Eq)]
pub struct Polyline {
    pub pts: Vec<Point>,
    pub color: Color,
    pub linewidth: i64,
    pub linetype: String,
    pub fill: Option<Color>,
}

/// The mathematical content of a [`Polyline`].
pub struct PolylineView {
    pub pts: Seq<Point>,
    pub color: Color,
    pub linewidth: i64,
    pub linetype: Seq<char>,
    pub fill: Option<Color>,
}

impl View for Polyline {
    type V = PolylineView;

    open spec fn view(&self) -> PolylineView {
        PolylineView {
            pts: self.pts@,
            color: self.color,
            linewidth: self.linewidth,
            linetype: self.linetype@,
            fill: self.fill,
        }
    }
}

impl Polyline {
    /// The path through these points in this style.
    pub fn new(
        pts: Vec<Point>,
        color: Color,
        linewidth: i64,
        linetype: String,
        fill: Option<Color>,
    ) -> (polyline: Polyline)
        ensures
            polyline == (Polyline { pts, color, linewidth, linetype, fill }),
    {
        Polyline { pts, color, linewidth, linetype, fill }
    }
}

/// A run of text anchored at `pos`; with `label` set it is drawn inside a
/// bordered callout.
#[derive(Debug, PartialEq, Eq)]
pub struct Text {
    pub pos: Point,
    pub text: String,
    pub color: Color,
    pub fontsize: i64,
    pub font: String,
    pub align: Align,
    pub angle: i64,
    pub label: bool,
}

/// The mathematical content of a [`Text`].
pub struct TextView {
    pub pos: Point,
    pub text: Seq<char>,
    pub color: Color,
    pub fontsize: i64,
    pub font: Seq<char>,
    pub align: Align,
    pub angle: i64,
    pub label: bool,
}

impl View for Text {
    type V = TextView;

    open spec fn view(&self) -> TextView {
        TextView {
            pos: self.pos,
            text: self.text@,
            color: self.color,
            fontsize: self.fontsize,
            font: self.font@,
            align: self.align,
            angle: self.angle,
            label: self.label,
        }
    }
}

impl Text {
    /// The text `text` at `pos` in this style.
    pub fn new(
        pos: Point,
        angle: i64,
        text: String,
        color: Color,
        fontsize: i64,
        font: &str,
        align: Align,
        label: bool,
    ) -> (t: Text)
        ensures
            t@ == (TextView { pos, text: text@, color, fontsize, font: font@, align, angle, label }),
    {
        Text { pos, text, color, fontsize, font: String::from_str(font), align, angle, label }
    }
}

/// A drawable primitive together with its z-order: primitives with a lower
/// z-order are drawn first.
#[derive(Debug, PartialEq, Eq)]
pub enum PlotItem {
    Arc(usize, Arc),
    Circle(usize, Circle),
    Line(usize, Line),
    Rectangle(usize, Rectangle),
    Polyline(usize, Polyline),
    Text(usize, Text),
}

/// The mathematical content of a [`PlotItem`].
pub enum PlotItemView {
    Arc(usize, ArcView),
    Circle(usize, CircleView),
    Line(usize, LineView),
    Rectangle(usize, RectangleView),
    Polyline(usize, PolylineView),
    Text(usize, TextView),
}

impl View for PlotItem {
    type V = PlotItemView;

    open spec fn view(&self) -> PlotItemView {
        match *self {
            PlotItem::Arc(z, a) => PlotItemView::Arc(z, a@),
            PlotItem::Circle(z, c) => PlotItemView::Circle(z, c@),
            PlotItem::Line(z, l) => PlotItemView::Line(z, l@),
            PlotItem::Rectangle(z, r) => PlotItemView::Rectangle(z, r@),
            PlotItem::Polyline(z, p) => PlotItemView::Polyline(z, p@),
            PlotItem::Text(z, t) => PlotItemView::Text(z, t@),
        }
    }
}

impl PlotItemView {
    /// The z-order of the primitive.
    pub open spec fn z(self) -> usize {
        match self {
            PlotItemView::Arc(z, _) => z,
            PlotItemView::Circle(z, _) => z,
            PlotItemView::Line(z, _) => z,
            PlotItemView::Rectangle(z, _) => z,
            PlotItemView::Polyline(z, _) => z,
            PlotItemView::Text(z, _) => z,
        }
    }

    /// The primitive has what drawing reads: a line and a rectangle two
    /// points at least; and what drawing adds up is small enough for it, the
    /// first two points of a rectangle and the position and angle of a text.
    pub open spec fn drawable(self) -> bool {
        match self {
            PlotItemView::Arc(_, _) => true,
            PlotItemView::Circle(_, _) => true,
            PlotItemView::Line(_, l) => l.pts.len() >= 2,
            PlotItemView::Rectangle(_, r) => {
                &&& r.pts.len() >= 2
                &&& r.pts[0].in_item_range()
                &&& r.pts[1].in_item_range()
            },
            PlotItemView::Polyline(_, _) => true,
            PlotItemView::Text(_, t) => t.pos.in_item_range() && item_range(t.angle as int),
        }
    }

    /// The primitive has what measuring reads: a line, a rectangle and a
    /// path have a point, and no more points than fit one array; and every
    /// coordinate and length that measuring reads is small enough to be
    /// added up.
    pub open spec fn measurable(self) -> bool {
        match self {
            PlotItemView::Arc(_, a) => a.start.in_item_range() && a.end.in_item_range(),
            PlotItemView::Circle(_, c) => c.pos.in_item_range() && item_range(c.radius as int),
            PlotItemView::Line(_, l) => points_measurable(l.pts),
            PlotItemView::Rectangle(_, r) => points_measurable(r.pts),
            PlotItemView::Polyline(_, p) => points_measurable(p.pts),
            PlotItemView::Text(_, t) => t.pos.in_item_range(),
        }
    }

    /// The primitive can be drawn and measured.
    pub open spec fn wf(self) -> bool {
        self.drawable() && self.measurable()
    }
}

/// There is a point, there are no more points than fit one array, and every
/// point is small enough to be added up.
pub open spec fn points_measurable(pts: Seq<Point>) -> bool {
    &&& 1 <= pts.len() <= ROW_LIMIT
    &&& forall|i: int| 0 <= i < pts.len() ==> (#[trigger] pts[i]).in_item_range()
}

/// The views of a sequence of primitives, in order.
pub open spec fn item_views(items: Seq<PlotItem>) -> Seq<PlotItemView> {
    items.map_values(|item: PlotItem| item@)
}

/// Every primitive of the sequence can be drawn.
pub open spec fn all_drawable(items: Seq<PlotItemView>) -> bool {
    forall|i: int| 0 <= i < items.len() ==> (#[trigger] items[i]).drawable()
}

/// Every primitive of the sequence can be measured.
pub open spec fn all_measurable(items: Seq<PlotItemView>) -> bool {
    forall|i: int| 0 <= i < items.len() ==> (#[trigger] items[i]).measurable()
}

/// Every primitive of the sequence can be drawn and measured.
pub open spec fn all_wf(items: Seq<PlotItemView>) -> bool {
    forall|i: int| 0 <= i < items.len() ==> (#[trigger] items[i]).wf()
}

impl PlotItem {
    /// The z-order of the primitive.
    pub fn z(&self) -> (z: usize)
        ensures
            z == self@.z(),
    {
        match self {
            PlotItem::Arc(z, _) => *z,
            PlotItem::Circle(z, _) => *z,
            PlotItem::Line(z, _) => *z,
            PlotItem::Rectangle(z, _) => *z,
            PlotItem::Polyline(z, _) => *z,
            PlotItem::Text(z, _) => *z,
        }
    }

    /// Whether the primitive can be drawn.
    pub fn can_draw(&self) -> (ok: bool)
        ensures
            ok == self@.drawable(),
    {
        match self {
            PlotItem::Arc(_, _) => true,
            PlotItem::Circle(_, _) => true,
            PlotItem::Line(_, l) => l.pts.len() >= 2,
            PlotItem::Rectangle(_, r) => {
                r.pts.len() >= 2 && point_in_range(r.pts[0]) && point_in_range(r.pts[1])
            },
            PlotItem::Polyline(_, _) => true,
            PlotItem::Text(_, t) => point_in_range(t.pos) && in_range(t.angle),
        }
    }

    /// Whether the primitive can be measured.
    pub fn can_measure(&self) -> (ok: bool)
        ensures
            ok == self@.measurable(),
    {
        match self {
            PlotItem::Arc(_, a) => point_in_range(a.start) && point_in_range(a.end),
            PlotItem::Circle(_, c) => point_in_range(c.pos) && in_range(c.radius),
            PlotItem::Line(_, l) => points_can_be_measured(&l.pts),
            PlotItem::Rectangle(_, r) => points_can_be_measured(&r.pts),
            PlotItem::Polyline(_, p) => points_can_be_measured(&p.pts),
            PlotItem::Text(_, t) => point_in_range(t.pos),
        }
    }

    /// Whether the primitive can be drawn and measured.
    pub fn is_wf(&self) -> (ok: bool)
        ensures
            ok == self@.wf(),
    {
        self.can_draw() && self.can_measure()
    }
}

/// Whether there is a point, there are no more points than fit one array,
/// and every point is small enough to be added up.
pub fn points_can_be_measured(pts: &Vec<Point>) -> (ok: bool)
    ensures
        ok == points_measurable(pts@),
{
    pts.len() >= 1 && pts.len() <= ROW_LIMIT && points_in_range(pts)
}

/// Whether a length is small enough for a primitive.
pub fn in_range(v: i64) -> (ok: bool)
    ensures
        ok == item_range(v as int),
{
    -ITEM_LIMIT <= v && v <= ITEM_LIMIT
}

/// Whether every point of `pts` is small enough for a primitive.
pub fn points_in_range(pts: &Vec<Point>) -> (ok: bool)
    ensures
        ok == (forall|i: int| 0 <= i < pts@.len() ==> (#[trigger] pts@[i]).in_item_range()),
{
    let mut i: usize = 0;
    while i < pts.len()
        invariant
            i <= pts@.len(),
            forall|k: int| 0 <= k < i ==> (#[trigger] pts@[k]).in_item_range(),
        decreases pts@.len() - i,
    {
        if !point_in_range(pts[i]) {
            return false;
        }
        i += 1;
    }
    true
}

/// Whether both coordinates are small enough for a primitive.
pub fn point_in_range(p: Point) -> (ok: bool)
    ensures
        ok == p.in_item_range(),
{
    in_range(p.x) && in_range(p.y)
}

} // verus!
