//! What the plain elements of a page draw: wires, buses, texts, labels,
//! crosses, dots and sheets.

use vstd::prelude::*;
use vstd::string::*;
use crate::document::{
    points, to_points, BusEntry, DocPoint, PlainText, Property, Sheet, StyledPath, StyledText, Wire,
};
use crate::error::{Error, ErrorView};
use crate::items::{Circle, CircleView, PlotItem, PlotItemView, Rectangle, RectangleView};
use crate::parts::{
    effects_for, line_item, line_of, pair, result_view, single, stroke_for, text_item, text_of,
    two_points, upright, upright_past, Items, Z_PAGE, Z_SHAPE, Z_TOP,
};
use crate::theme::{
    effects_style_view, merged_effects, merged_stroke, stroke_style_view, Theme, ThemeView, Themer,
};
use crate::transform::pt;
use crate::units::Point;

verus! {

/// Half the width of the cross that marks an unconnected pin.
pub const NO_CONNECT_SIZE: i64 = 8_000;

/// Radius of a junction dot.
pub const JUNCTION_RADIUS: i64 = 3_500;

/// A wire is one line in the style of the role `wire`.
pub open spec fn wire_items(wire: Wire, theme: ThemeView) -> Items {
    match stroke_for(theme, "wire"@) {
        Err(e) => Err(e),
        Ok(s) => Ok(seq![line_item(Z_PAGE, points(wire.pts@), s)]),
    }
}

/// A bus or graphic line is one line in its own style merged onto that of
/// the role `bus`.
pub open spec fn path_items(path: StyledPath, theme: ThemeView) -> Items {
    match stroke_for(theme, "bus"@) {
        Err(e) => Err(e),
        Ok(s) => Ok(
            seq![line_item(Z_PAGE, points(path.pts@), merged_stroke(stroke_style_view(path.stroke), s))],
        ),
    }
}

/// The two ends of a bus entry.
pub open spec fn bus_entry_points(entry: BusEntry) -> Seq<Point> {
    seq![
        entry.at.point(),
        pt(entry.at.y + entry.size.x, entry.at.y + entry.size.y),
    ]
}

/// A bus entry is one line between its two ends.
pub open spec fn bus_entry_items(entry: BusEntry, theme: ThemeView) -> Items {
    match stroke_for(theme, "bus"@) {
        Err(e) => Err(e),
        Ok(s) => Ok(
            seq![
                line_item(Z_PAGE, bus_entry_points(entry), merged_stroke(stroke_style_view(entry.stroke), s)),
            ],
        ),
    }
}

/// A free text or local label is one text in its own style merged onto that
/// of `role`.
pub open spec fn styled_text_items(text: StyledText, role: Seq<char>, theme: ThemeView) -> Items {
    match effects_for(theme, role) {
        Err(e) => Err(e),
        Ok(d) => Ok(
            seq![
                text_item(
                    Z_PAGE,
                    text.at.point(),
                    upright(text.angle as int),
                    text.text@,
                    merged_effects(effects_style_view(text.effects), d),
                    false,
                ),
            ],
        ),
    }
}

/// A global label is one text, drawn as a callout, in the style of the role
/// `global_label`.
pub open spec fn global_label_items(label: PlainText, theme: ThemeView) -> Items {
    match effects_for(theme, "global_label"@) {
        Err(e) => Err(e),
        Ok(d) => Ok(
            seq![text_item(Z_PAGE, label.at.point(), upright_past(label.angle as int), label.text@, d, true)],
        ),
    }
}

/// A hierarchical label is one text in the style of the role `label`.
pub open spec fn hierarchical_label_items(label: PlainText, theme: ThemeView) -> Items {
    match effects_for(theme, "label"@) {
        Err(e) => Err(e),
        Ok(d) => Ok(
            seq![text_item(Z_PAGE, label.at.point(), upright(label.angle as int), label.text@, d, false)],
        ),
    }
}

/// The two diagonals of the cross at `at`.
pub open spec fn no_connect_items(at: DocPoint, theme: ThemeView) -> Items {
    match stroke_for(theme, "no_connect"@) {
        Err(e) => Err(e),
        Ok(s) => Ok(
            seq![
                line_item(
                    Z_PAGE,
                    seq![
                        pt(at.x - NO_CONNECT_SIZE, at.y + NO_CONNECT_SIZE),
                        pt(at.x + NO_CONNECT_SIZE, at.y - NO_CONNECT_SIZE),
                    ],
                    s,
                ),
                line_item(
                    Z_PAGE,
                    seq![
                        pt(at.x + NO_CONNECT_SIZE, at.y + NO_CONNECT_SIZE),
                        pt(at.x - NO_CONNECT_SIZE, at.y - NO_CONNECT_SIZE),
                    ],
                    s,
                ),
            ],
        ),
    }
}

/// A junction is a dot filled with its line colour, drawn last.
pub open spec fn junction_items(at: DocPoint, theme: ThemeView) -> Items {
    match stroke_for(theme, "junction"@) {
        Err(e) => Err(e),
        Ok(s) => Ok(
            seq![
                PlotItemView::Circle(
                    Z_TOP,
                    CircleView {
                        pos: at.point(),
                        radius: JUNCTION_RADIUS,
                        linewidth: s.width,
                        linetype: s.linetype,
                        color: s.color,
                        fill: Some(s.color),
                    },
                ),
            ],
        ),
    }
}

/// The index of the first property with the key `key`.
pub open spec fn property_index(properties: Seq<Property>, key: Seq<char>) -> Option<int>
    decreases properties.len(),
{
    if properties.len() == 0 {
        None
    } else if properties[0].key@ == key {
        Some(0)
    } else {
        match property_index(properties.drop_first(), key) {
            Some(i) => Some(i + 1),
            None => None,
        }
    }
}

/// A sheet is its name as text and its box, filled, beneath the lines of the
/// page. A sheet without the property `Sheet name` is an error.
pub open spec fn sheet_items(sheet: Sheet, theme: ThemeView) -> Items {
    match property_index(sheet.property@, "Sheet name"@) {
        None => Err(ErrorView::PropertyNotFound("Sheet name"@, "sheet"@)),
        Some(i) => match effects_for(theme, "text"@) {
            Err(e) => Err(e),
            Ok(d) => match stroke_for(theme, "symbol"@) {
                Err(e) => Err(e),
                Ok(s) => {
                    let effects = merged_effects(effects_style_view(sheet.property@[i].effects), d);
                    let stroke = merged_stroke(stroke_style_view(sheet.stroke), s);
                    Ok(
                        seq![
                            text_item(Z_PAGE, sheet.at.point(), 0, sheet.property@[i].value@, effects, false),
                            PlotItemView::Rectangle(
                                Z_SHAPE,
                                RectangleView {
                                    pts: seq![
                                        sheet.at.point(),
                                        pt(sheet.at.x + sheet.size.x, sheet.at.y + sheet.size.y),
                                    ],
                                    color: stroke.color,
                                    linewidth: stroke.width,
                                    linetype: stroke.linetype,
                                    fill: Some(sheet.fill),
                                },
                            ),
                        ],
                    )
                },
            },
        },
    }
}

/// The primitives of the element.
pub fn plot_wire(wire: &Wire, theme: &Theme) -> (res: Result<Vec<PlotItem>, Error>)
    ensures
        result_view(res) == wire_items(*wire, theme@),
{
    let stroke = match theme.stroke("wire") {
        Ok(s) => s,
        Err(e) => {
            return Err(e);
        },
    };
    Ok(single(line_of(Z_PAGE, to_points(&wire.pts), stroke)))
}

/// The primitives of the element.
pub fn plot_path(path: &StyledPath, theme: &Theme) -> (res: Result<Vec<PlotItem>, Error>)
    ensures
        result_view(res) == path_items(*path, theme@),
{
    let default = match theme.stroke("bus") {
        Ok(s) => s,
        Err(e) => {
            return Err(e);
        },
    };
    let stroke = Themer::stroke(&path.stroke, &default);
    Ok(single(line_of(Z_PAGE, to_points(&path.pts), stroke)))
}

/// The primitives of the element.
pub fn plot_bus_entry(entry: &BusEntry, theme: &Theme) -> (res: Result<Vec<PlotItem>, Error>)
    ensures
        result_view(res) == bus_entry_items(*entry, theme@),
{
    let default = match theme.stroke("bus") {
        Ok(s) => s,
        Err(e) => {
            return Err(e);
        },
    };
    let stroke = Themer::stroke(&entry.stroke, &default);
    let pts = two_points(
        entry.at.to_point(),
        Point { x: entry.at.y as i64 + entry.size.x as i64, y: entry.at.y as i64 + entry.size.y as i64 },
    );
    Ok(single(line_of(Z_PAGE, pts, stroke)))
}

/// The primitives of the element.
pub fn plot_styled_text(text: &StyledText, role: &str, theme: &Theme) -> (res: Result<Vec<PlotItem>, Error>)
    ensures
        result_view(res) == styled_text_items(*text, role@, theme@),
{
    let default = match theme.effects(role) {
        Ok(d) => d,
        Err(e) => {
            return Err(e);
        },
    };
    let effects = Themer::effects(&text.effects, &default);
    let mut angle: i64 = text.angle as i64;
    if angle >= 180 {
        angle -= 180;
    }
    Ok(single(text_of(Z_PAGE, text.at.to_point(), angle, text.text.clone(), &effects, false)))
}

/// The primitives of the element.
pub fn plot_global_label(label: &PlainText, theme: &Theme) -> (res: Result<Vec<PlotItem>, Error>)
    ensures
        result_view(res) == global_label_items(*label, theme@),
{
    let effects = match theme.effects("global_label") {
        Ok(d) => d,
        Err(e) => {
            return Err(e);
        },
    };
    let mut angle: i64 = label.angle as i64;
    if angle > 180 {
        angle -= 180;
    }
    Ok(single(text_of(Z_PAGE, label.at.to_point(), angle, label.text.clone(), &effects, true)))
}

/// The primitives of the element.
pub fn plot_hierarchical_label(label: &PlainText, theme: &Theme) -> (res: Result<Vec<PlotItem>, Error>)
    ensures
        result_view(res) == hierarchical_label_items(*label, theme@),
{
    let effects = match theme.effects("label") {
        Ok(d) => d,
        Err(e) => {
            return Err(e);
        },
    };
    let mut angle: i64 = label.angle as i64;
    if angle >= 180 {
        angle -= 180;
    }
    Ok(single(text_of(Z_PAGE, label.at.to_point(), angle, label.text.clone(), &effects, false)))
}

/// The primitives of the element.
pub fn plot_no_connect(at: DocPoint, theme: &Theme) -> (res: Result<Vec<PlotItem>, Error>)
    ensures
        result_view(res) == no_connect_items(at, theme@),
{
    let stroke = match theme.stroke("no_connect") {
        Ok(s) => s,
        Err(e) => {
            return Err(e);
        },
    };
    let x: i64 = at.x as i64;
    let y: i64 = at.y as i64;
    let falling = two_points(
        Point { x: x - NO_CONNECT_SIZE, y: y + NO_CONNECT_SIZE },
        Point { x: x + NO_CONNECT_SIZE, y: y - NO_CONNECT_SIZE },
    );
    let rising = two_points(
        Point { x: x + NO_CONNECT_SIZE, y: y + NO_CONNECT_SIZE },
        Point { x: x - NO_CONNECT_SIZE, y: y - NO_CONNECT_SIZE },
    );
    Ok(pair(line_of(Z_PAGE, falling, stroke.clone()), line_of(Z_PAGE, rising, stroke)))
}

/// The primitives of the element.
pub fn plot_junction(at: DocPoint, theme: &Theme) -> (res: Result<Vec<PlotItem>, Error>)
    ensures
        result_view(res) == junction_items(at, theme@),
{
    let stroke = match theme.stroke("junction") {
        Ok(s) => s,
        Err(e) => {
            return Err(e);
        },
    };
    Ok(
        single(
            PlotItem::Circle(
                Z_TOP,
                Circle::new(
                    at.to_point(),
                    JUNCTION_RADIUS,
                    stroke.width,
                    stroke.linetype,
                    stroke.color,
                    Some(stroke.color),
                ),
            ),
        ),
    )
}

/// The first property with the key `key`.
fn find_property<'a>(properties: &'a Vec<Property>, key: &str) -> (res: Option<&'a Property>)
    ensures
        match property_index(properties@, key@) {
            Some(i) => 0 <= i < properties@.len() && res == Some(&properties@[i]),
            None => res is None,
        },
{
    let wanted = String::from_str(key);
    let mut i: usize = 0;
    while i < properties.len()
        invariant
            i <= properties@.len(),
            wanted@ == key@,
            forall|k: int| 0 <= k < i ==> (#[trigger] properties@[k]).key@ != key@,
        decreases properties@.len() - i,
    {
        if properties[i].key == wanted {
            proof {
                lemma_property_index(properties@, key@, i as int);
                assert(properties@.skip(i as int)[0] == properties@[i as int]);
            }
            return Some(&properties[i]);
        }
        i += 1;
    }
    proof {
        lemma_property_index(properties@, key@, i as int);
    }
    None
}

/// With no property of the key before position `i`, the first with the
/// key is the first from `i` on.
proof fn lemma_property_index(properties: Seq<Property>, key: Seq<char>, i: int)
    requires
        0 <= i <= properties.len(),
        forall|k: int| 0 <= k < i ==> (#[trigger] properties[k]).key@ != key,
    ensures
        property_index(properties, key) == match property_index(properties.skip(i), key) {
            Some(k) => Some(k + i),
            None => None,
        },
    decreases i,
{
    if i == 0 {
        assert(properties.skip(0) =~= properties);
    } else {
        lemma_property_index(properties, key, i - 1);
        assert(properties.skip(i - 1).drop_first() =~= properties.skip(i));
        assert(properties.skip(i - 1)[0] == properties[i - 1]);
    }
}

/// The primitives of the element.
pub fn plot_sheet(sheet: &Sheet, theme: &Theme) -> (res: Result<Vec<PlotItem>, Error>)
    ensures
        result_view(res) == sheet_items(*sheet, theme@),
{
    let name = match find_property(&sheet.property, "Sheet name") {
        Some(p) => p,
        None => {
            return Err(
                Error::PropertyNotFound(String::from_str("Sheet name"), String::from_str("sheet")),
            );
        },
    };
    let default = match theme.effects("text") {
        Ok(d) => d,
        Err(e) => {
            return Err(e);
        },
    };
    let line = match theme.stroke("symbol") {
        Ok(s) => s,
        Err(e) => {
            return Err(e);
        },
    };
    let effects = Themer::effects(&name.effects, &default);
    let stroke = Themer::stroke(&sheet.stroke, &line);
    let corners = two_points(
        sheet.at.to_point(),
        Point { x: sheet.at.x as i64 + sheet.size.x as i64, y: sheet.at.y as i64 + sheet.size.y as i64 },
    );
    Ok(
        pair(
            text_of(Z_PAGE, sheet.at.to_point(), 0, name.value.clone(), &effects, false),
            PlotItem::Rectangle(
                Z_SHAPE,
                Rectangle::new(corners, stroke.color, stroke.width, stroke.linetype, Some(sheet.fill)),
            ),
        ),
    )
}

} // verus!
