//! What a symbol draws: its properties, the shapes and pins of its library
//! symbol, or a box where the library has none.

use vstd::prelude::*;
use vstd::pervasive::unreached;
use vstd::string::*;
use crate::color::Color;
use crate::document::{
    get_library, library_index, net_name, points, to_points, DocPoint, Graph, LibrarySymbol,
    Netlist, Pin, Property, Symbol, SymbolUnit,
};
use crate::error::{Error, ErrorView};
use crate::items::{
    item_views, Align, Arc, ArcView, Circle, CircleView, PlotItem, PlotItemView, Polyline,
    PolylineView, Rectangle, RectangleView, Text, TextView,
};
use crate::parts::{
    collect, effects_for, extend, lemma_collect_error, lemma_views_append, line_item, line_of,
    no_items, result_view, single, stroke_for, text_item, text_of, then, two_points, Items, Z_PAGE,
    Z_SHAPE, Z_TOP,
};
use crate::theme::{
    effects_style_view, merged_effects, merged_stroke, stroke_style_view, EffectsView, Stroke,
    StrokeStyle, StrokeView, Theme, ThemeView, Themer,
};
use crate::transform::{
    lemma_pin_slots_one_hot, one_hot, orientation, orientation_of_slot, pin_orientation, pin_slot,
    pin_slots_of, pt, rotation_of, PinOrientation, Placement, Rotation,
};
use crate::units::{item_range, Point};

verus! {

/// Distance of a pin's number and net name from the pin.
pub const PIN_TEXT_OFFSET: i64 = 10_000;

/// Corner of the box that stands for a symbol missing from the library.
pub const MISSING_SYMBOL_SIZE: i64 = 100_000;

/// Line width of the box that stands for a symbol missing from the library.
pub const MISSING_SYMBOL_WIDTH: i64 = 3_500;

/// The alignment of a property on a symbol, with `angle` the sum of the
/// rotations of symbol and property: from half a turn up to a full turn
/// `left` becomes `right` and `right` becomes `left`; below minus half a turn
/// only `right` becomes `left`.
pub open spec fn property_justify(j: Align, angle: int) -> Align {
    let left_flips = 180 <= angle < 360;
    let right_flips = (angle >= 180 || angle <= -180) && angle < 360;
    Align {
        left: (j.left && !left_flips) || (j.right && right_flips),
        right: (j.left && left_flips) || (j.right && !right_flips),
        top: j.top,
        bottom: j.bottom,
        center: j.center,
    }
}

/// The angle a property is drawn at: the difference of the rotations of
/// symbol and property, without its sign, less a full turn where it reaches
/// one.
pub open spec fn property_angle(symbol_angle: int, angle: int) -> int {
    let d = if symbol_angle - angle >= 0 {
        symbol_angle - angle
    } else {
        angle - symbol_angle
    };
    if d >= 360 {
        d - 360
    } else {
        d
    }
}

/// A property of a symbol is one text on top, unless its style hides it.
pub open spec fn property_items(symbol: Symbol, property: Property, theme: ThemeView) -> Items {
    match effects_for(theme, "property"@) {
        Err(e) => Err(e),
        Ok(d) => {
            let own = merged_effects(effects_style_view(property.effects), d);
            let effects = EffectsView {
                justify: property_justify(own.justify, property.angle + symbol.angle),
                ..own
            };
            if own.hide {
                Ok(Seq::empty())
            } else {
                Ok(
                    seq![
                        text_item(
                            Z_TOP,
                            property.at.point(),
                            property_angle(symbol.angle as int, property.angle as int),
                            property.value@,
                            effects,
                            false,
                        ),
                    ],
                )
            }
        },
    }
}

/// Part `i` of the properties of a symbol.
pub open spec fn property_part(symbol: Symbol, theme: ThemeView) -> spec_fn(int) -> Items {
    |i: int| property_items(symbol, symbol.property@[i], theme)
}

/// The primitives of one property of a symbol.
pub fn plot_property(symbol: &Symbol, property: &Property, theme: &Theme) -> (res: Result<Vec<PlotItem>, Error>)
    ensures
        result_view(res) == property_items(*symbol, *property, theme@),
{
    let default = match theme.effects("property") {
        Ok(d) => d,
        Err(e) => {
            return Err(e);
        },
    };
    let mut effects = Themer::effects(&property.effects, &default);
    let sum: i64 = property.angle as i64 + symbol.angle as i64;
    let left_flips = 180 <= sum && sum < 360;
    let right_flips = (sum >= 180 || sum <= -180) && sum < 360;
    let j = effects.justify;
    effects.justify = Align {
        left: (j.left && !left_flips) || (j.right && right_flips),
        right: (j.left && left_flips) || (j.right && !right_flips),
        top: j.top,
        bottom: j.bottom,
        center: j.center,
    };
    let diff: i64 = symbol.angle as i64 - property.angle as i64;
    let d: i64 = if diff >= 0 {
        diff
    } else {
        -diff
    };
    let angle: i64 = if d >= 360 {
        d - 360
    } else {
        d
    };
    if effects.hide {
        let items: Vec<PlotItem> = Vec::new();
        assert(item_views(items@) =~= Seq::empty());
        Ok(items)
    } else {
        Ok(single(text_of(Z_TOP, property.at.to_point(), angle, property.value.clone(), &effects, false)))
    }
}

/// The primitives of all properties of a symbol.
pub fn plot_properties(symbol: &Symbol, theme: &Theme) -> (res: Result<Vec<PlotItem>, Error>)
    ensures
        result_view(res) == collect(symbol.property@.len() as int, property_part(*symbol, theme@)),
{
    let ghost part = property_part(*symbol, theme@);
    let mut items: Vec<PlotItem> = Vec::new();
    let mut i: usize = 0;
    assert(item_views(items@) =~= Seq::empty());
    while i < symbol.property.len()
        invariant
            i <= symbol.property@.len(),
            part == property_part(*symbol, theme@),
            collect(i as int, part) == Ok::<Seq<PlotItemView>, ErrorView>(item_views(items@)),
        decreases symbol.property@.len() - i,
    {
        match plot_property(symbol, &symbol.property[i], theme) {
            Err(e) => {
                proof {
                    lemma_collect_error(i as int + 1, symbol.property@.len() as int, part);
                }
                return Err(e);
            },
            Ok(mut more) => {
                proof {
                    lemma_views_append(items@, more@);
                }
                items.append(&mut more);
            },
        }
        i += 1;
    }
    Ok(items)
}

/// The page positions of the symbol-local document points `pts`.
pub open spec fn placed(placement: Placement, pts: Seq<DocPoint>) -> Seq<Point> {
    points(pts).map_values(|p: Point| placement.transformed(p))
}

/// A shape of a library symbol is one primitive beneath the lines of the
/// page, in its own style merged onto that of the role `symbol` and filled as
/// the theme says for its fill type; a text is one text on top. Start point,
/// centre and corners are placed with the symbol; the middle and end of an
/// arc are taken as they are.
pub open spec fn graph_items(placement: Placement, graph: Graph, theme: ThemeView) -> Items {
    match graph {
        Graph::Polyline { pts, stroke, fill_type } => match stroke_for(theme, "symbol"@) {
            Err(e) => Err(e),
            Ok(d) => {
                let s = merged_stroke(stroke_style_view(stroke), d);
                Ok(
                    seq![
                        PlotItemView::Polyline(
                            Z_SHAPE,
                            PolylineView {
                                pts: placed(placement, pts@),
                                color: s.color,
                                linewidth: s.width,
                                linetype: s.linetype,
                                fill: theme.color(fill_type@),
                            },
                        ),
                    ],
                )
            },
        },
        Graph::Rectangle { start, end, stroke, fill_type } => match stroke_for(theme, "symbol"@) {
            Err(e) => Err(e),
            Ok(d) => {
                let s = merged_stroke(stroke_style_view(stroke), d);
                Ok(
                    seq![
                        PlotItemView::Rectangle(
                            Z_SHAPE,
                            RectangleView {
                                pts: seq![
                                    placement.transformed(start.point()),
                                    placement.transformed(end.point()),
                                ],
                                color: s.color,
                                linewidth: s.width,
                                linetype: s.linetype,
                                fill: theme.color(fill_type@),
                            },
                        ),
                    ],
                )
            },
        },
        Graph::Circle { center, radius, stroke, fill_type } => match stroke_for(theme, "symbol"@) {
            Err(e) => Err(e),
            Ok(d) => {
                let s = merged_stroke(stroke_style_view(stroke), d);
                Ok(
                    seq![
                        PlotItemView::Circle(
                            Z_SHAPE,
                            CircleView {
                                pos: placement.transformed(center.point()),
                                radius: radius as i64,
                                linewidth: s.width,
                                linetype: s.linetype,
                                color: s.color,
                                fill: theme.color(fill_type@),
                            },
                        ),
                    ],
                )
            },
        },
        Graph::Arc { start, mid, end, stroke, fill_type } => match stroke_for(theme, "symbol"@) {
            Err(e) => Err(e),
            Ok(d) => {
                let s = merged_stroke(stroke_style_view(stroke), d);
                Ok(
                    seq![
                        PlotItemView::Arc(
                            Z_SHAPE,
                            ArcView {
                                start: placement.transformed(start.point()),
                                mid: mid.point(),
                                end: end.point(),
                                linewidth: s.width,
                                linetype: s.linetype,
                                color: s.color,
                                fill: theme.color(fill_type@),
                            },
                        ),
                    ],
                )
            },
        },
        Graph::Text { at, angle, text, effects } => match effects_for(theme, "symbol"@) {
            Err(e) => Err(e),
            Ok(d) => Ok(
                seq![
                    text_item(
                        Z_TOP,
                        placement.transformed(at.point()),
                        angle as int,
                        text@,
                        merged_effects(effects_style_view(effects), d),
                        false,
                    ),
                ],
            ),
        },
    }
}

/// Part `i` of the shapes of a unit.
pub open spec fn graph_part(placement: Placement, unit: SymbolUnit, theme: ThemeView) -> spec_fn(int) -> Items {
    |i: int| graph_items(placement, unit.graph@[i], theme)
}

/// The line style of a shape: its own merged onto that of the role
/// `symbol`.
fn symbol_stroke(style: &Option<StrokeStyle>, theme: &Theme) -> (res: Result<Stroke, Error>)
    ensures
        match res {
            Ok(s) => Ok::<StrokeView, ErrorView>(s@),
            Err(e) => Err(e@),
        } == match stroke_for(theme@, "symbol"@) {
            Err(e) => Err::<StrokeView, ErrorView>(e),
            Ok(d) => Ok(merged_stroke(stroke_style_view(*style), d)),
        },
{
    match theme.stroke("symbol") {
        Ok(d) => Ok(Themer::stroke(style, &d)),
        Err(e) => Err(e),
    }
}

/// The primitives of one shape of a library symbol.
pub fn plot_graph(placement: &Placement, graph: &Graph, theme: &Theme) -> (res: Result<Vec<PlotItem>, Error>)
    requires
        placement.origin.in_item_range(),
    ensures
        result_view(res) == graph_items(*placement, *graph, theme@),
{
    match graph {
        Graph::Polyline { pts, stroke, fill_type } => {
            let s = match symbol_stroke(stroke, theme) {
                Ok(s) => s,
                Err(e) => {
                    return Err(e);
                },
            };
            let page = placement.transform_all(&to_points(pts));
            Ok(
                single(
                    PlotItem::Polyline(
                        Z_SHAPE,
                        Polyline::new(page, s.color, s.width, s.linetype, theme.color(fill_type.as_str())),
                    ),
                ),
            )
        },
        Graph::Rectangle { start, end, stroke, fill_type } => {
            let s = match symbol_stroke(stroke, theme) {
                Ok(s) => s,
                Err(e) => {
                    return Err(e);
                },
            };
            let page = two_points(placement.transform(start.to_point()), placement.transform(end.to_point()));
            Ok(
                single(
                    PlotItem::Rectangle(
                        Z_SHAPE,
                        Rectangle::new(page, s.color, s.width, s.linetype, theme.color(fill_type.as_str())),
                    ),
                ),
            )
        },
        Graph::Circle { center, radius, stroke, fill_type } => {
            let s = match symbol_stroke(stroke, theme) {
                Ok(s) => s,
                Err(e) => {
                    return Err(e);
                },
            };
            Ok(
                single(
                    PlotItem::Circle(
                        Z_SHAPE,
                        Circle::new(
                            placement.transform(center.to_point()),
                            *radius as i64,
                            s.width,
                            s.linetype,
                            s.color,
                            theme.color(fill_type.as_str()),
                        ),
                    ),
                ),
            )
        },
        Graph::Arc { start, mid, end, stroke, fill_type } => {
            let s = match symbol_stroke(stroke, theme) {
                Ok(s) => s,
                Err(e) => {
                    return Err(e);
                },
            };
            Ok(
                single(
                    PlotItem::Arc(
                        Z_SHAPE,
                        Arc::new(
                            placement.transform(start.to_point()),
                            mid.to_point(),
                            end.to_point(),
                            s.width,
                            s.linetype,
                            s.color,
                            theme.color(fill_type.as_str()),
                        ),
                    ),
                ),
            )
        },
        Graph::Text { at, angle, text, effects } => {
            let default = match theme.effects("symbol") {
                Ok(d) => d,
                Err(e) => {
                    return Err(e);
                },
            };
            let e = Themer::effects(effects, &default);
            Ok(single(text_of(Z_TOP, placement.transform(at.to_point()), *angle as i64, text.clone(), &e, false)))
        },
    }
}

/// The primitives of all shapes of a unit.
pub fn plot_graphs(placement: &Placement, unit: &SymbolUnit, theme: &Theme) -> (res: Result<Vec<PlotItem>, Error>)
    requires
        placement.origin.in_item_range(),
    ensures
        result_view(res) == collect(unit.graph@.len() as int, graph_part(*placement, *unit, theme@)),
{
    let ghost part = graph_part(*placement, *unit, theme@);
    let mut items: Vec<PlotItem> = Vec::new();
    let mut i: usize = 0;
    assert(item_views(items@) =~= Seq::empty());
    while i < unit.graph.len()
        invariant
            i <= unit.graph@.len(),
            placement.origin.in_item_range(),
            part == graph_part(*placement, *unit, theme@),
            collect(i as int, part) == Ok::<Seq<PlotItemView>, ErrorView>(item_views(items@)),
        decreases unit.graph@.len() - i,
    {
        match plot_graph(placement, &unit.graph[i], theme) {
            Err(e) => {
                proof {
                    lemma_collect_error(i as int + 1, unit.graph@.len() as int, part);
                }
                return Err(e);
            },
            Ok(mut more) => {
                proof {
                    lemma_views_append(items@, more@);
                }
                items.append(&mut more);
            },
        }
        i += 1;
    }
    Ok(items)
}

/// The displacement of `len` counts in the direction of `r`.
pub open spec fn along(r: Rotation, len: int) -> (int, int) {
    match r {
        Rotation::R0 => (len, 0),
        Rotation::R90 => (0, len),
        Rotation::R180 => (-len, 0),
        Rotation::R270 => (0, -len),
    }
}

/// The displacement along a rotation is the length times the cosine and the
/// sine of the rotation.
pub proof fn lemma_along_by_sine_and_cosine(r: Rotation, len: int)
    ensures
        along(r, len) == (len * r.cos(), len * r.sin()),
{
}

/// Half of `v`, rounded towards zero.
pub open spec fn half(v: int) -> int {
    if v >= 0 {
        v / 2
    } else {
        -((-v) / 2)
    }
}

/// Where the number of a pin stands, seen from the placed start of the pin:
/// `run` is half the horizontal extent of the pin in the symbol. For a pin
/// that faces right or left the number stands above the pin, `run` along it;
/// for one that faces bottom or top it stands to the right.
pub open spec fn number_offset(o: PinOrientation, run: int) -> (int, int) {
    match o {
        PinOrientation::Right => (run, -PIN_TEXT_OFFSET),
        PinOrientation::Bottom => (PIN_TEXT_OFFSET as int, run),
        PinOrientation::Left => (run, -PIN_TEXT_OFFSET),
        PinOrientation::Top => (PIN_TEXT_OFFSET as int, -run),
    }
}

/// Where the net name of a pin stands: across the pin from its number.
pub open spec fn net_offset(o: PinOrientation, run: int) -> (int, int) {
    match o {
        PinOrientation::Right => (run, PIN_TEXT_OFFSET as int),
        PinOrientation::Bottom => (-PIN_TEXT_OFFSET, run),
        PinOrientation::Left => (run, PIN_TEXT_OFFSET as int),
        PinOrientation::Top => (-PIN_TEXT_OFFSET, -run),
    }
}

/// The direction a pin turned by `pin` faces on a symbol placed by
/// `placement`.
pub open spec fn facing(placement: Placement, pin: Rotation) -> PinOrientation {
    pin_orientation(placement.rotation, placement.mirror, pin)
}

/// Half the horizontal extent of a pin in its symbol.
pub open spec fn pin_run(pin: Pin, r: Rotation) -> int {
    half(along(r, pin.length as int).0)
}

/// The leader line of a pin, from its start along its direction.
pub open spec fn pin_line(placement: Placement, pin: Pin, r: Rotation, s: StrokeView) -> PlotItemView {
    let run = along(r, pin.length as int);
    line_item(
        Z_PAGE,
        seq![
            placement.transformed(pin.at.point()),
            placement.transformed(pt(pin.at.x + run.0, pin.at.y + run.1)),
        ],
        s,
    )
}

/// The number of a pin, shown unless the symbol is a power symbol or hides
/// its pin numbers.
pub open spec fn pin_number_items(
    placement: Placement,
    lib: LibrarySymbol,
    pin: Pin,
    r: Rotation,
    theme: ThemeView,
) -> Items {
    if !lib.power && lib.pin_numbers_show {
        match effects_for(theme, "pin_number"@) {
            Err(e) => Err(e),
            Ok(e) => {
                let at = placement.transformed(pin.at.point());
                let off = number_offset(facing(placement, r), pin_run(pin, r));
                Ok(seq![text_item(Z_TOP, pt(at.x + off.0, at.y + off.1), 0, pin.number@, e, false)])
            },
        }
    } else {
        Ok(Seq::empty())
    }
}

/// The name of a pin, centred past the inner end of the pin: shown unless
/// the symbol is a power symbol or hides its pin names, or the name is `~`.
pub open spec fn pin_name_items(
    placement: Placement,
    lib: LibrarySymbol,
    pin: Pin,
    r: Rotation,
    theme: ThemeView,
) -> Items {
    if !lib.power && pin.name@ != "~"@ && lib.pin_names_show {
        match effects_for(theme, "pin_name"@) {
            Err(e) => Err(e),
            Ok(e) => {
                let run = along(r, pin.length + lib.pin_names_offset * 8);
                Ok(
                    seq![
                        PlotItemView::Text(
                            Z_TOP,
                            TextView {
                                pos: placement.transformed(pt(pin.at.x + run.0, pin.at.y + run.1)),
                                text: pin.name@,
                                color: e.color,
                                fontsize: e.font_size,
                                font: e.font,
                                align: Align {
                                    left: false,
                                    right: false,
                                    top: false,
                                    bottom: false,
                                    center: true,
                                },
                                angle: pin.angle as i64,
                                label: false,
                            },
                        ),
                    ],
                )
            },
        }
    } else {
        Ok(Seq::empty())
    }
}

/// The text shown for the net at `p`: its name, or `NaN` where the netlist
/// has none.
pub open spec fn net_text(netlist: Netlist, p: Point) -> Seq<char> {
    match net_name(netlist.nodes@, p) {
        Some(name) => name,
        None => "NaN"@,
    }
}

/// The net name of a pin, shown where a netlist is given unless the symbol
/// is a power symbol.
pub open spec fn pin_net_items(
    placement: Placement,
    lib: LibrarySymbol,
    pin: Pin,
    r: Rotation,
    theme: ThemeView,
    netlist: Option<Netlist>,
) -> Items {
    if !lib.power && netlist is Some {
        match effects_for(theme, "pin_number"@) {
            Err(e) => Err(e),
            Ok(e) => {
                let at = placement.transformed(pin.at.point());
                let off = net_offset(facing(placement, r), pin_run(pin, r));
                Ok(
                    seq![
                        text_item(
                            Z_TOP,
                            pt(at.x + off.0, at.y + off.1),
                            0,
                            net_text(netlist->0, at),
                            e,
                            false,
                        ),
                    ],
                )
            },
        }
    } else {
        Ok(Seq::empty())
    }
}

/// A pin is its leader line in the style of the role `pin`, then its number,
/// its name and its net name as far as they are shown. A pin whose angle is
/// no multiple of 90 degrees is an error.
pub open spec fn pin_items(
    placement: Placement,
    lib: LibrarySymbol,
    pin: Pin,
    theme: ThemeView,
    netlist: Option<Netlist>,
) -> Items {
    match stroke_for(theme, "pin"@) {
        Err(e) => Err(e),
        Ok(s) => match rotation_of(pin.angle as int) {
            None => Err(ErrorView::Geometry(pin.angle)),
            Some(r) => then(
                then(
                    then(
                        Ok(seq![pin_line(placement, pin, r, s)]),
                        pin_number_items(placement, lib, pin, r, theme),
                    ),
                    pin_name_items(placement, lib, pin, r, theme),
                ),
                pin_net_items(placement, lib, pin, r, theme, netlist),
            ),
        },
    }
}

/// Part `i` of the pins of a unit.
pub open spec fn pin_part(
    placement: Placement,
    lib: LibrarySymbol,
    unit: SymbolUnit,
    theme: ThemeView,
    netlist: Option<Netlist>,
) -> spec_fn(int) -> Items {
    |i: int| pin_items(placement, lib, unit.pin@[i], theme, netlist)
}

/// The displacement of `len` counts in the direction of `r`.
fn run_along(r: Rotation, len: i64) -> (d: (i64, i64))
    requires
        item_range(len as int),
    ensures
        d.0 == along(r, len as int).0,
        d.1 == along(r, len as int).1,
{
    match r {
        Rotation::R0 => (len, 0),
        Rotation::R90 => (0, len),
        Rotation::R180 => (-len, 0),
        Rotation::R270 => (0, -len),
    }
}

/// The direction a pin faces on a placed symbol.
fn pin_facing(placement: &Placement, pin: Rotation) -> (o: PinOrientation)
    ensures
        o == facing(*placement, pin),
{
    let position = pin_slots_of(placement.rotation, placement.mirror, pin);
    proof {
        lemma_pin_slots_one_hot(placement.rotation, placement.mirror, pin);
    }
    match orientation(&position) {
        Some(o) => {
            let ghost slot = pin_slot(placement.rotation, placement.mirror, pin);
            let ghost k = choose|k: int| 0 <= k < 4 && position@ == one_hot(k) && o
                == orientation_of_slot(k);
            assert(one_hot(k)[k] == 1);
            assert(one_hot(slot)[k] == 1);
            o
        },
        None => unreached(),
    }
}

/// Half of `v`, rounded towards zero.
fn half_of(v: i64) -> (h: i64)
    ensures
        h == half(v as int),
{
    v / 2
}

/// The number of a pin, where it is shown.
fn plot_pin_number(
    placement: &Placement,
    lib: &LibrarySymbol,
    pin: &Pin,
    r: Rotation,
    theme: &Theme,
) -> (res: Result<Vec<PlotItem>, Error>)
    requires
        placement.origin.in_item_range(),
    ensures
        result_view(res) == pin_number_items(*placement, *lib, *pin, r, theme@),
{
    if !lib.power && lib.pin_numbers_show {
        let effects = match theme.effects("pin_number") {
            Ok(e) => e,
            Err(e) => {
                return Err(e);
            },
        };
        let at = placement.transform(pin.at.to_point());
        let run: i64 = half_of(run_along(r, pin.length as i64).0);
        let (dx, dy): (i64, i64) = match pin_facing(placement, r) {
            PinOrientation::Right => (run, -PIN_TEXT_OFFSET),
            PinOrientation::Bottom => (PIN_TEXT_OFFSET, run),
            PinOrientation::Left => (run, -PIN_TEXT_OFFSET),
            PinOrientation::Top => (PIN_TEXT_OFFSET, -run),
        };
        Ok(single(text_of(Z_TOP, Point { x: at.x + dx, y: at.y + dy }, 0, pin.number.clone(), &effects, false)))
    } else {
        Ok(no_items())
    }
}

/// The name of a pin, where it is shown.
fn plot_pin_name(
    placement: &Placement,
    lib: &LibrarySymbol,
    pin: &Pin,
    r: Rotation,
    theme: &Theme,
) -> (res: Result<Vec<PlotItem>, Error>)
    requires
        placement.origin.in_item_range(),
    ensures
        result_view(res) == pin_name_items(*placement, *lib, *pin, r, theme@),
{
    if !lib.power && !(pin.name == String::from_str("~")) && lib.pin_names_show {
        let effects = match theme.effects("pin_name") {
            Ok(e) => e,
            Err(e) => {
                return Err(e);
            },
        };
        let (dx, dy): (i64, i64) = run_along(r, pin.length as i64 + lib.pin_names_offset as i64 * 8);
        let local = Point { x: pin.at.x as i64 + dx, y: pin.at.y as i64 + dy };
        Ok(
            single(
                PlotItem::Text(
                    Z_TOP,
                    Text::new(
                        placement.transform(local),
                        pin.angle as i64,
                        pin.name.clone(),
                        effects.color,
                        effects.font_size,
                        effects.font.as_str(),
                        Align::centered(),
                        false,
                    ),
                ),
            ),
        )
    } else {
        Ok(no_items())
    }
}

/// The net name of a pin, where it is shown.
fn plot_pin_net(
    placement: &Placement,
    lib: &LibrarySymbol,
    pin: &Pin,
    r: Rotation,
    theme: &Theme,
    netlist: &Option<Netlist>,
) -> (res: Result<Vec<PlotItem>, Error>)
    requires
        placement.origin.in_item_range(),
    ensures
        result_view(res) == pin_net_items(*placement, *lib, *pin, r, theme@, *netlist),
{
    if lib.power {
        return Ok(no_items());
    }
    match netlist {
        None => Ok(no_items()),
        Some(nets) => {
            let effects = match theme.effects("pin_number") {
                Ok(e) => e,
                Err(e) => {
                    return Err(e);
                },
            };
            let at = placement.transform(pin.at.to_point());
            let run: i64 = half_of(run_along(r, pin.length as i64).0);
            let (dx, dy): (i64, i64) = match pin_facing(placement, r) {
                PinOrientation::Right => (run, PIN_TEXT_OFFSET),
                PinOrientation::Bottom => (-PIN_TEXT_OFFSET, run),
                PinOrientation::Left => (run, PIN_TEXT_OFFSET),
                PinOrientation::Top => (-PIN_TEXT_OFFSET, -run),
            };
            let name = match nets.node_name(at) {
                Some(name) => name,
                None => String::from_str("NaN"),
            };
            Ok(single(text_of(Z_TOP, Point { x: at.x + dx, y: at.y + dy }, 0, name, &effects, false)))
        },
    }
}

/// The primitives of one pin of a library symbol.
pub fn plot_pin(
    placement: &Placement,
    lib: &LibrarySymbol,
    pin: &Pin,
    theme: &Theme,
    netlist: &Option<Netlist>,
) -> (res: Result<Vec<PlotItem>, Error>)
    requires
        placement.origin.in_item_range(),
    ensures
        result_view(res) == pin_items(*placement, *lib, *pin, theme@, *netlist),
{
    let stroke = match theme.stroke("pin") {
        Ok(s) => s,
        Err(e) => {
            return Err(e);
        },
    };
    let r = match Rotation::from_degrees(pin.angle) {
        Ok(r) => r,
        Err(e) => {
            return Err(e);
        },
    };
    let (dx, dy): (i64, i64) = run_along(r, pin.length as i64);
    let ends = two_points(
        placement.transform(pin.at.to_point()),
        placement.transform(Point { x: pin.at.x as i64 + dx, y: pin.at.y as i64 + dy }),
    );
    let mut items = single(line_of(Z_PAGE, ends, stroke));
    match plot_pin_number(placement, lib, pin, r, theme) {
        Ok(more) => extend(&mut items, more),
        Err(e) => {
            return Err(e);
        },
    }
    match plot_pin_name(placement, lib, pin, r, theme) {
        Ok(more) => extend(&mut items, more),
        Err(e) => {
            return Err(e);
        },
    }
    match plot_pin_net(placement, lib, pin, r, theme, netlist) {
        Ok(more) => extend(&mut items, more),
        Err(e) => {
            return Err(e);
        },
    }
    Ok(items)
}

/// The primitives of all pins of a unit.
pub fn plot_pins(
    placement: &Placement,
    lib: &LibrarySymbol,
    unit: &SymbolUnit,
    theme: &Theme,
    netlist: &Option<Netlist>,
) -> (res: Result<Vec<PlotItem>, Error>)
    requires
        placement.origin.in_item_range(),
    ensures
        result_view(res) == collect(
            unit.pin@.len() as int,
            pin_part(*placement, *lib, *unit, theme@, *netlist),
        ),
{
    let ghost part = pin_part(*placement, *lib, *unit, theme@, *netlist);
    let mut items: Vec<PlotItem> = no_items();
    let mut i: usize = 0;
    while i < unit.pin.len()
        invariant
            i <= unit.pin@.len(),
            placement.origin.in_item_range(),
            part == pin_part(*placement, *lib, *unit, theme@, *netlist),
            collect(i as int, part) == Ok::<Seq<PlotItemView>, ErrorView>(item_views(items@)),
        decreases unit.pin@.len() - i,
    {
        match plot_pin(placement, lib, &unit.pin[i], theme, netlist) {
            Err(e) => {
                proof {
                    lemma_collect_error(i as int + 1, unit.pin@.len() as int, part);
                }
                return Err(e);
            },
            Ok(more) => extend(&mut items, more),
        }
        i += 1;
    }
    Ok(items)
}

/// A unit contributes its shapes and then its pins where it is unit 0 or
/// the unit the symbol selects, and nothing otherwise.
pub open spec fn unit_items(
    symbol: Symbol,
    placement: Placement,
    lib: LibrarySymbol,
    unit: SymbolUnit,
    theme: ThemeView,
    netlist: Option<Netlist>,
) -> Items {
    if unit.unit == 0 || unit.unit == symbol.unit {
        then(
            collect(unit.graph@.len() as int, graph_part(placement, unit, theme)),
            collect(unit.pin@.len() as int, pin_part(placement, lib, unit, theme, netlist)),
        )
    } else {
        Ok(Seq::empty())
    }
}

/// Part `i` of the units of a library symbol.
pub open spec fn unit_part(
    symbol: Symbol,
    placement: Placement,
    lib: LibrarySymbol,
    theme: ThemeView,
    netlist: Option<Netlist>,
) -> spec_fn(int) -> Items {
    |i: int| unit_items(symbol, placement, lib, lib.symbols@[i], theme, netlist)
}

/// The box that stands for a symbol missing from the library: red, unfilled,
/// placed like the symbol.
pub open spec fn missing_symbol_item(placement: Placement) -> PlotItemView {
    PlotItemView::Rectangle(
        Z_PAGE,
        RectangleView {
            pts: seq![
                placement.transformed(pt(0, 0)),
                placement.transformed(pt(MISSING_SYMBOL_SIZE as int, MISSING_SYMBOL_SIZE as int)),
            ],
            color: Color { r: 10_000, g: 0, b: 0, a: 10_000 },
            linewidth: MISSING_SYMBOL_WIDTH,
            linetype: "default"@,
            fill: None,
        },
    )
}

/// What a visible symbol draws besides its properties: the units of its
/// library symbol, or the box for a missing one. A symbol turned by no
/// multiple of 90 degrees is an error.
pub open spec fn symbol_body_items(
    symbol: Symbol,
    libraries: Seq<LibrarySymbol>,
    theme: ThemeView,
    netlist: Option<Netlist>,
) -> Items {
    match rotation_of(symbol.angle as int) {
        None => Err(ErrorView::Geometry(symbol.angle)),
        Some(rotation) => {
            let placement = Placement { origin: symbol.at.point(), rotation, mirror: symbol.mirror };
            match library_index(libraries, symbol.lib_id@) {
                Some(i) => collect(
                    libraries[i].symbols@.len() as int,
                    unit_part(symbol, placement, libraries[i], theme, netlist),
                ),
                None => Ok(seq![missing_symbol_item(placement)]),
            }
        },
    }
}

/// A visible symbol is its properties and then its body.
pub open spec fn symbol_items(
    symbol: Symbol,
    libraries: Seq<LibrarySymbol>,
    theme: ThemeView,
    netlist: Option<Netlist>,
) -> Items {
    then(
        collect(symbol.property@.len() as int, property_part(symbol, theme)),
        symbol_body_items(symbol, libraries, theme, netlist),
    )
}

/// The primitives of one unit of a library symbol.
pub fn plot_unit(
    symbol: &Symbol,
    placement: &Placement,
    lib: &LibrarySymbol,
    unit: &SymbolUnit,
    theme: &Theme,
    netlist: &Option<Netlist>,
) -> (res: Result<Vec<PlotItem>, Error>)
    requires
        placement.origin.in_item_range(),
    ensures
        result_view(res) == unit_items(*symbol, *placement, *lib, *unit, theme@, *netlist),
{
    if unit.unit == 0 || unit.unit == symbol.unit {
        let mut items = match plot_graphs(placement, unit, theme) {
            Ok(items) => items,
            Err(e) => {
                return Err(e);
            },
        };
        match plot_pins(placement, lib, unit, theme, netlist) {
            Ok(more) => extend(&mut items, more),
            Err(e) => {
                return Err(e);
            },
        }
        Ok(items)
    } else {
        Ok(no_items())
    }
}

/// The primitives of all units of a library symbol.
pub fn plot_units(
    symbol: &Symbol,
    placement: &Placement,
    lib: &LibrarySymbol,
    theme: &Theme,
    netlist: &Option<Netlist>,
) -> (res: Result<Vec<PlotItem>, Error>)
    requires
        placement.origin.in_item_range(),
    ensures
        result_view(res) == collect(
            lib.symbols@.len() as int,
            unit_part(*symbol, *placement, *lib, theme@, *netlist),
        ),
{
    let ghost part = unit_part(*symbol, *placement, *lib, theme@, *netlist);
    let mut items: Vec<PlotItem> = no_items();
    let mut i: usize = 0;
    while i < lib.symbols.len()
        invariant
            i <= lib.symbols@.len(),
            placement.origin.in_item_range(),
            part == unit_part(*symbol, *placement, *lib, theme@, *netlist),
            collect(i as int, part) == Ok::<Seq<PlotItemView>, ErrorView>(item_views(items@)),
        decreases lib.symbols@.len() - i,
    {
        match plot_unit(symbol, placement, lib, &lib.symbols[i], theme, netlist) {
            Err(e) => {
                proof {
                    lemma_collect_error(i as int + 1, lib.symbols@.len() as int, part);
                }
                return Err(e);
            },
            Ok(more) => extend(&mut items, more),
        }
        i += 1;
    }
    Ok(items)
}

/// The primitives of a visible symbol.
pub fn plot_symbol(
    symbol: &Symbol,
    libraries: &Vec<LibrarySymbol>,
    theme: &Theme,
    netlist: &Option<Netlist>,
) -> (res: Result<Vec<PlotItem>, Error>)
    ensures
        result_view(res) == symbol_items(*symbol, libraries@, theme@, *netlist),
{
    let mut items = match plot_properties(symbol, theme) {
        Ok(items) => items,
        Err(e) => {
            return Err(e);
        },
    };
    let rotation = match Rotation::from_degrees(symbol.angle) {
        Ok(r) => r,
        Err(e) => {
            return Err(e);
        },
    };
    let placement = Placement { origin: symbol.at.to_point(), rotation, mirror: symbol.mirror };
    match get_library(libraries, &symbol.lib_id) {
        Some(lib) => {
            match plot_units(symbol, &placement, lib, theme, netlist) {
                Ok(body) => extend(&mut items, body),
                Err(e) => {
                    return Err(e);
                },
            }
        },
        None => {
            let corners = two_points(
                placement.transform(Point { x: 0, y: 0 }),
                placement.transform(Point { x: MISSING_SYMBOL_SIZE, y: MISSING_SYMBOL_SIZE }),
            );
            let marker = PlotItem::Rectangle(
                Z_PAGE,
                Rectangle::new(
                    corners,
                    Color { r: 10_000, g: 0, b: 0, a: 10_000 },
                    MISSING_SYMBOL_WIDTH,
                    String::from_str("default"),
                    None,
                ),
            );
            extend(&mut items, single(marker));
        },
    }
    Ok(items)
}

} // verus!
