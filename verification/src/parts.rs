//! Parts of a page: runs of primitives, how they follow each other and what
//! the first failure does to them.

use vstd::prelude::*;
use vstd::string::*;
use crate::error::{Error, ErrorView};
use crate::items::{item_views, Line, LineCap, LineView, PlotItem, PlotItemView, Text, TextView};
use crate::theme::{found_or_error, Effects, EffectsView, Stroke, StrokeView, ThemeView};
use crate::units::Point;

verus! {

/// The primitives of a part of a page, or why they could not be made.
pub type Items = Result<Seq<PlotItemView>, ErrorView>;

/// z-order of lines, labels and texts of the page.
pub const Z_PAGE: usize = 10;

/// z-order of the shapes of a symbol and of sheet boxes.
pub const Z_SHAPE: usize = 1;

/// z-order of junctions and of the texts of a symbol: drawn last.
pub const Z_TOP: usize = 99;

/// What executable code produced, seen as mathematical values.
pub open spec fn result_view(res: Result<Vec<PlotItem>, Error>) -> Items {
    match res {
        Ok(items) => Ok(item_views(items@)),
        Err(e) => Err(e@),
    }
}

/// The primitives of `first` followed by those of `second`; the first error
/// where either failed.
pub open spec fn then(first: Items, second: Items) -> Items {
    match first {
        Err(e) => Err(e),
        Ok(a) => match second {
            Err(e) => Err(e),
            Ok(b) => Ok(a + b),
        },
    }
}

/// The primitives of the parts `0 .. n`, in order; the error of the first
/// part that failed.
pub open spec fn collect(n: int, part: spec_fn(int) -> Items) -> Items
    decreases n,
{
    if n <= 0 {
        Ok(Seq::empty())
    } else {
        then(collect(n - 1, part), part(n - 1))
    }
}

/// Once a part has failed, further parts change nothing.
pub proof fn lemma_collect_error(i: int, n: int, part: spec_fn(int) -> Items)
    requires
        0 <= i <= n,
        collect(i, part) is Err,
    ensures
        collect(n, part) == collect(i, part),
    decreases n - i,
{
    if i < n {
        lemma_collect_error(i, n - 1, part);
    }
}

/// The line style of `role`, or the error that names the role.
pub open spec fn stroke_for(theme: ThemeView, role: Seq<char>) -> Result<StrokeView, ErrorView> {
    found_or_error(theme.stroke(role), "stroke"@, role)
}

/// The text style of `role`, or the error that names the role.
pub open spec fn effects_for(theme: ThemeView, role: Seq<char>) -> Result<EffectsView, ErrorView> {
    found_or_error(theme.effects(role), "effects"@, role)
}

/// A line through `pts` in the style `s`, with butt caps.
pub open spec fn line_item(z: usize, pts: Seq<Point>, s: StrokeView) -> PlotItemView {
    PlotItemView::Line(
        z,
        LineView { pts, linewidth: s.width, linetype: s.linetype, linecap: LineCap::Butt, color: s.color },
    )
}

/// The text `text` at `pos` in the style `e`, aligned as `e` says.
pub open spec fn text_item(
    z: usize,
    pos: Point,
    angle: int,
    text: Seq<char>,
    e: EffectsView,
    label: bool,
) -> PlotItemView {
    PlotItemView::Text(
        z,
        TextView {
            pos,
            text,
            color: e.color,
            fontsize: e.font_size,
            font: e.font,
            align: e.justify,
            angle: angle as i64,
            label,
        },
    )
}

/// A text angle of half a turn or more is reduced by half a turn.
pub open spec fn upright(angle: int) -> int {
    if angle >= 180 {
        angle - 180
    } else {
        angle
    }
}

/// A text angle of more than half a turn is reduced by half a turn.
pub open spec fn upright_past(angle: int) -> int {
    if angle > 180 {
        angle - 180
    } else {
        angle
    }
}

/// A line through `pts` in the style `stroke`, with butt caps.
pub(crate) fn line_of(z: usize, pts: Vec<Point>, stroke: Stroke) -> (item: PlotItem)
    ensures
        item@ == line_item(z, pts@, stroke@),
{
    PlotItem::Line(z, Line::new(pts, stroke.width, stroke.linetype, LineCap::Butt, stroke.color))
}

/// The text `text` at `pos` in the style `effects`.
pub(crate) fn text_of(
    z: usize,
    pos: Point,
    angle: i64,
    text: String,
    effects: &Effects,
    label: bool,
) -> (item: PlotItem)
    ensures
        item@ == text_item(z, pos, angle as int, text@, effects@, label),
{
    PlotItem::Text(
        z,
        Text::new(
            pos,
            angle,
            text,
            effects.color,
            effects.font_size,
            effects.font.as_str(),
            effects.justify,
            label,
        ),
    )
}

/// One primitive as a run.
pub(crate) fn single(item: PlotItem) -> (items: Vec<PlotItem>)
    ensures
        item_views(items@) == seq![item@],
{
    let mut items: Vec<PlotItem> = Vec::new();
    items.push(item);
    assert(item_views(items@) =~= seq![item@]);
    items
}

/// Two primitives as a run.
pub(crate) fn pair(first: PlotItem, second: PlotItem) -> (items: Vec<PlotItem>)
    ensures
        item_views(items@) == seq![first@, second@],
{
    let mut items: Vec<PlotItem> = Vec::new();
    items.push(first);
    items.push(second);
    assert(item_views(items@) =~= seq![first@, second@]);
    items
}

/// Two points as a list.
pub(crate) fn two_points(a: Point, b: Point) -> (pts: Vec<Point>)
    ensures
        pts@ == seq![a, b],
{
    let mut pts: Vec<Point> = Vec::new();
    pts.push(a);
    pts.push(b);
    assert(pts@ =~= seq![a, b]);
    pts
}

/// The views of two runs of primitives, one after the other.
pub(crate) proof fn lemma_views_append(a: Seq<PlotItem>, b: Seq<PlotItem>)
    ensures
        item_views(a + b) == item_views(a) + item_views(b),
{
    assert(item_views(a + b) =~= item_views(a) + item_views(b));
}

/// The empty run.
pub(crate) fn no_items() -> (items: Vec<PlotItem>)
    ensures
        item_views(items@) == Seq::<PlotItemView>::empty(),
{
    let items: Vec<PlotItem> = Vec::new();
    assert(item_views(items@) =~= Seq::<PlotItemView>::empty());
    items
}

/// Appends `more` to `items`, given the primitives that both stand for.
pub(crate) fn extend(items: &mut Vec<PlotItem>, more: Vec<PlotItem>)
    ensures
        item_views(final(items)@) == item_views(old(items)@) + item_views(more@),
{
    let mut more = more;
    proof {
        lemma_views_append(items@, more@);
    }
    items.append(&mut more);
}

} // verus!
