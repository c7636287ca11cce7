use elektron_plot::color::Color;
use elektron_plot::document::{
    BusEntry, DocPoint, Graph, LibrarySymbol, NetNode, Netlist, Pin, PlainText, Property, SchemaElement,
    Sheet, StyledPath, StyledText, Symbol, SymbolUnit, TitleBlock, Wire,
};
use elektron_plot::items::Align;
use elektron_plot::elements::JUNCTION_RADIUS;
use elektron_plot::parts::{Z_PAGE, Z_SHAPE, Z_TOP};
use elektron_plot::schema::{plot_element, plot_page};
use elektron_plot::symbol::{plot_pin, plot_property, plot_symbol};
use elektron_plot::theme::{
    Effects, EffectsPreset, EffectsStyle, Stroke, StrokePreset, StrokeStyle, LINE_WIDTH,
};
use elektron_plot::transform::{Mirror, Placement, Rotation};
use elektron_plot::units::Point;
use elektron_plot::{
    Arc, Circle, Error, Line, LineCap, PlotItem, Polyline, Rectangle, SchemaPlot, Text, Theme,
};

fn p(x: i32, y: i32) -> DocPoint {
    DocPoint { x, y }
}

fn q(x: i64, y: i64) -> Point {
    Point { x, y }
}

fn black() -> Color {
    Color { r: 0, g: 0, b: 0, a: 10_000 }
}

fn line(z: usize, pts: Vec<Point>, stroke: &Stroke) -> PlotItem {
    PlotItem::Line(
        z,
        Line::new(pts, stroke.width, stroke.linetype.clone(), LineCap::Butt, stroke.color),
    )
}

fn text(z: usize, pos: Point, angle: i64, content: &str, e: &Effects, label: bool) -> PlotItem {
    PlotItem::Text(
        z,
        Text::new(pos, angle, String::from(content), e.color, e.font_size, &e.font, e.justify, label),
    )
}

fn one(element: &SchemaElement, theme: &Theme) -> Result<Vec<PlotItem>, Error> {
    plot_element(element, &vec![], theme, &None).unwrap()
}

fn resistor() -> LibrarySymbol {
    LibrarySymbol {
        lib_id: String::from("Device:R"),
        symbols: vec![
            SymbolUnit {
                unit: 0,
                graph: vec![Graph::Rectangle {
                    start: p(-10_160, -25_400),
                    end: p(10_160, 25_400),
                    stroke: None,
                    fill_type: String::from("background"),
                }],
                pin: vec![],
            },
            SymbolUnit {
                unit: 1,
                graph: vec![],
                pin: vec![Pin {
                    at: p(-50_800, 0),
                    angle: 0,
                    length: 25_400,
                    number: String::from("1"),
                    name: String::from("IN"),
                }],
            },
            SymbolUnit {
                unit: 2,
                graph: vec![Graph::Circle {
                    center: p(0, 0),
                    radius: 5,
                    stroke: None,
                    fill_type: String::from("none"),
                }],
                pin: vec![],
            },
        ],
        power: false,
        pin_numbers_show: true,
        pin_names_show: true,
        pin_names_offset: 5_080,
    }
}

fn placed_symbol(angle: i32, mirror: Mirror) -> Symbol {
    Symbol {
        lib_id: String::from("Device:R"),
        at: p(1_000, 2_000),
        angle,
        mirror,
        unit: 1,
        on_schema: true,
        property: vec![],
    }
}

fn one_pin(angle: i32) -> Pin {
    Pin { at: p(-50_800, 0), angle, length: 25_400, number: String::from("7"), name: String::from("~") }
}

#[test]
fn wire_is_one_line() {
    let theme = Theme::kicad_2000();
    let wire = SchemaElement::Wire(Wire { pts: vec![p(0, 0), p(100_000, 0)] });
    let stroke = theme.stroke("wire").unwrap();
    assert_eq!(Ok(vec![line(Z_PAGE, vec![q(0, 0), q(100_000, 0)], &stroke)]), one(&wire, &theme));
    assert_eq!(10, Z_PAGE);
}

#[test]
fn polyline_and_bus_merge_their_stroke_onto_bus() {
    let theme = Theme::kicad_2000();
    let bus = theme.stroke("bus").unwrap();
    let plain = StyledPath { pts: vec![p(1, 2), p(3, 4), p(5, 6)], stroke: None };
    let expected = line(Z_PAGE, vec![q(1, 2), q(3, 4), q(5, 6)], &bus);
    assert_eq!(Ok(vec![expected]), one(&SchemaElement::Bus(plain), &theme));
    let styled = StyledPath {
        pts: vec![p(1, 2), p(3, 4)],
        stroke: Some(StrokeStyle { width: Some(77), linetype: None, color: Some(black()) }),
    };
    let merged = Stroke { width: 77, linetype: bus.linetype.clone(), color: black() };
    assert_eq!(
        Ok(vec![line(Z_PAGE, vec![q(1, 2), q(3, 4)], &merged)]),
        one(&SchemaElement::Polyline(styled), &theme)
    );
}

#[test]
fn bus_entry_ends() {
    let theme = Theme::mono();
    let bus = theme.stroke("bus").unwrap();
    let entry = SchemaElement::BusEntry(BusEntry { at: p(10, 20), size: p(3, 4), stroke: None });
    assert_eq!(Ok(vec![line(Z_PAGE, vec![q(10, 20), q(23, 24)], &bus)]), one(&entry, &theme));
}

#[test]
fn text_angles_from_half_a_turn_are_reduced() {
    let theme = Theme::kicad_2000();
    let effects = theme.effects("text").unwrap();
    for (angle, drawn) in [(0, 0), (90, 90), (179, 179), (180, 0), (270, 90), (360, 180), (-90, -90)] {
        let element = SchemaElement::Text(StyledText {
            at: p(5, 6),
            angle,
            text: String::from("note"),
            effects: None,
        });
        assert_eq!(
            Ok(vec![text(Z_PAGE, q(5, 6), drawn, "note", &effects, false)]),
            one(&element, &theme)
        );
    }
}

#[test]
fn label_uses_its_own_effects() {
    let theme = Theme::kicad_2000();
    let default = theme.effects("label").unwrap();
    let element = SchemaElement::Label(StyledText {
        at: p(5, 6),
        angle: 180,
        text: String::from("CLK"),
        effects: Some(EffectsStyle {
            font: None,
            color: None,
            font_size: Some(20_000),
            justify: Some(Align { left: true, right: false, top: false, bottom: true, center: false }),
            hide: None,
        }),
    });
    let merged = Effects {
        font: default.font.clone(),
        color: default.color,
        font_size: 20_000,
        justify: Align { left: true, right: false, top: false, bottom: true, center: false },
        hide: false,
    };
    assert_eq!(Ok(vec![text(Z_PAGE, q(5, 6), 0, "CLK", &merged, false)]), one(&element, &theme));
}

#[test]
fn global_label_is_a_callout_and_keeps_half_a_turn() {
    let theme = Theme::kicad_2000();
    let effects = theme.effects("global_label").unwrap();
    for (angle, drawn) in [(0, 0), (90, 90), (180, 180), (181, 1), (270, 90)] {
        let element =
            SchemaElement::GlobalLabel(PlainText { at: p(1, 1), angle, text: String::from("VCC") });
        assert_eq!(
            Ok(vec![text(Z_PAGE, q(1, 1), drawn, "VCC", &effects, true)]),
            one(&element, &theme)
        );
    }
}

#[test]
fn hierarchical_label_is_a_plain_text() {
    let theme = Theme::kicad_2000();
    let effects = theme.effects("label").unwrap();
    let element =
        SchemaElement::HierarchicalLabel(PlainText { at: p(1, 1), angle: 180, text: String::from("D0") });
    assert_eq!(Ok(vec![text(Z_PAGE, q(1, 1), 0, "D0", &effects, false)]), one(&element, &theme));
}

#[test]
fn no_connect_is_a_cross() {
    let theme = Theme::kicad_2000();
    let stroke = theme.stroke("no_connect").unwrap();
    let element = SchemaElement::NoConnect(p(100_000, 200_000));
    assert_eq!(
        Ok(vec![
            line(Z_PAGE, vec![q(92_000, 208_000), q(108_000, 192_000)], &stroke),
            line(Z_PAGE, vec![q(108_000, 208_000), q(92_000, 192_000)], &stroke),
        ]),
        one(&element, &theme)
    );
}

#[test]
fn junction_is_a_filled_dot_drawn_last() {
    let theme = Theme::kicad_2000();
    let stroke = theme.stroke("junction").unwrap();
    let element = SchemaElement::Junction(p(7, 8));
    assert_eq!(3_500, JUNCTION_RADIUS);
    assert_eq!(99, Z_TOP);
    assert_eq!(
        Ok(vec![PlotItem::Circle(
            99,
            Circle::new(
                q(7, 8),
                3_500,
                stroke.width,
                stroke.linetype.clone(),
                stroke.color,
                Some(stroke.color)
            )
        )]),
        one(&element, &theme)
    );
}

#[test]
fn sheet_is_its_name_and_a_filled_box() {
    let theme = Theme::kicad_2000();
    let effects = theme.effects("text").unwrap();
    let stroke = theme.stroke("symbol").unwrap();
    let fill = Color { r: 1, g: 2, b: 3, a: 4 };
    let sheet = SchemaElement::Sheet(Sheet {
        at: p(100, 200),
        size: p(30, 40),
        property: vec![
            Property {
                key: String::from("Sheet file"),
                value: String::from("sub.kicad_sch"),
                at: p(0, 0),
                angle: 0,
                effects: None,
            },
            Property {
                key: String::from("Sheet name"),
                value: String::from("power"),
                at: p(0, 0),
                angle: 0,
                effects: None,
            },
        ],
        stroke: None,
        fill,
    });
    assert_eq!(1, Z_SHAPE);
    assert_eq!(
        Ok(vec![
            text(Z_PAGE, q(100, 200), 0, "power", &effects, false),
            PlotItem::Rectangle(
                1,
                Rectangle::new(
                    vec![q(100, 200), q(130, 240)],
                    stroke.color,
                    stroke.width,
                    stroke.linetype.clone(),
                    Some(fill)
                )
            ),
        ]),
        one(&sheet, &theme)
    );
}

#[test]
fn sheet_without_name_is_an_error() {
    let sheet = SchemaElement::Sheet(Sheet {
        at: p(100, 200),
        size: p(30, 40),
        property: vec![],
        stroke: None,
        fill: black(),
    });
    assert_eq!(
        Err(Error::PropertyNotFound(String::from("Sheet name"), String::from("sheet"))),
        one(&sheet, &Theme::kicad_2000())
    );
}

#[test]
fn theme_without_the_role_is_an_error() {
    let theme = Theme {
        strokes: vec![StrokePreset {
            role: String::from("bus"),
            stroke: Stroke { width: 1, linetype: String::from("default"), color: black() },
        }],
        effects: vec![EffectsPreset {
            role: String::from("label"),
            effects: Effects {
                font: String::from("f"),
                color: black(),
                font_size: 1,
                justify: Align::none(),
                hide: false,
            },
        }],
        fills: vec![],
    };
    let wire = SchemaElement::Wire(Wire { pts: vec![p(0, 0), p(1, 1)] });
    assert_eq!(Err(Error::Theme(String::from("stroke"), String::from("wire"))), one(&wire, &theme));
    let note =
        SchemaElement::Text(StyledText { at: p(0, 0), angle: 0, text: String::new(), effects: None });
    assert_eq!(Err(Error::Theme(String::from("effects"), String::from("text"))), one(&note, &theme));
    let label =
        SchemaElement::GlobalLabel(PlainText { at: p(0, 0), angle: 0, text: String::new() });
    assert_eq!(
        Err(Error::Theme(String::from("effects"), String::from("global_label"))),
        one(&label, &theme)
    );
    assert_eq!(
        Err(Error::Theme(String::from("stroke"), String::from("junction"))),
        one(&SchemaElement::Junction(p(0, 0)), &theme)
    );
    assert_eq!(
        Err(Error::Theme(String::from("stroke"), String::from("no_connect"))),
        one(&SchemaElement::NoConnect(p(0, 0)), &theme)
    );
    // the roles it has still work
    let bus = SchemaElement::Bus(StyledPath { pts: vec![p(0, 0), p(1, 1)], stroke: None });
    assert!(one(&bus, &theme).is_ok());
}

#[test]
fn symbol_off_the_page_draws_nothing() {
    let mut symbol = placed_symbol(0, Mirror::Off);
    symbol.on_schema = false;
    assert_eq!(
        None,
        plot_element(&SchemaElement::Symbol(symbol), &vec![resistor()], &Theme::kicad_2000(), &None)
    );
}

#[test]
fn symbol_missing_from_the_library_is_a_red_box() {
    let theme = Theme::kicad_2000();
    let marker = |pts| {
        PlotItem::Rectangle(
            Z_PAGE,
            Rectangle::new(
                pts,
                Color { r: 10_000, g: 0, b: 0, a: 10_000 },
                3_500,
                String::from("default"),
                None,
            ),
        )
    };
    assert_eq!(
        Ok(vec![marker(vec![q(1_000, 2_000), q(101_000, 102_000)])]),
        plot_symbol(&placed_symbol(0, Mirror::Off), &vec![], &theme, &None)
    );
    assert_eq!(
        Ok(vec![marker(vec![q(1_000, 2_000), q(-99_000, 102_000)])]),
        plot_symbol(&placed_symbol(90, Mirror::Off), &vec![], &theme, &None)
    );
    assert_eq!(
        Ok(vec![marker(vec![q(1_000, 2_000), q(101_000, -98_000)])]),
        plot_symbol(&placed_symbol(0, Mirror::X), &vec![], &theme, &None)
    );
}

#[test]
fn symbol_draws_common_and_selected_unit() {
    let theme = Theme::kicad_2000();
    let items = plot_symbol(&placed_symbol(0, Mirror::Off), &vec![resistor()], &theme, &None).unwrap();
    let outline = theme.stroke("symbol").unwrap();
    let pin = theme.stroke("pin").unwrap();
    let number = theme.effects("pin_number").unwrap();
    let name = theme.effects("pin_name").unwrap();
    assert_eq!(
        vec![
            PlotItem::Rectangle(
                Z_SHAPE,
                Rectangle::new(
                    vec![q(-9_160, -23_400), q(11_160, 27_400)],
                    outline.color,
                    outline.width,
                    outline.linetype.clone(),
                    theme.color("background"),
                )
            ),
            line(Z_PAGE, vec![q(-49_800, 2_000), q(-24_400, 2_000)], &pin),
            text(Z_TOP, q(-37_100, -8_000), 0, "1", &number, false),
            PlotItem::Text(
                Z_TOP,
                Text::new(
                    q(16_240, 2_000),
                    0,
                    String::from("IN"),
                    name.color,
                    name.font_size,
                    &name.font,
                    Align::centered(),
                    false
                )
            ),
        ],
        items
    );
    // unit 2 is selected: its circle, not the pin of unit 1
    let mut second = placed_symbol(0, Mirror::Off);
    second.unit = 2;
    let items = plot_symbol(&second, &vec![resistor()], &theme, &None).unwrap();
    assert_eq!(2, items.len());
    assert_eq!(
        PlotItem::Circle(
            Z_SHAPE,
            Circle::new(q(1_000, 2_000), 5, outline.width, outline.linetype.clone(), outline.color, None)
        ),
        items[1]
    );
}

#[test]
fn symbol_graphics_of_every_kind() {
    let theme = Theme::kicad_2000();
    let outline = theme.stroke("symbol").unwrap();
    let effects = theme.effects("symbol").unwrap();
    let lib = LibrarySymbol {
        lib_id: String::from("Device:R"),
        symbols: vec![SymbolUnit {
            unit: 1,
            graph: vec![
                Graph::Polyline {
                    pts: vec![p(0, 0), p(10, 0), p(10, 10)],
                    stroke: Some(StrokeStyle { width: Some(5), linetype: None, color: None }),
                    fill_type: String::from("outline"),
                },
                Graph::Arc {
                    start: p(1, 2),
                    mid: p(3, 4),
                    end: p(5, 6),
                    stroke: None,
                    fill_type: String::from("none"),
                },
                Graph::Text { at: p(7, 8), angle: 90, text: String::from("R"), effects: None },
            ],
            pin: vec![],
        }],
        power: false,
        pin_numbers_show: true,
        pin_names_show: true,
        pin_names_offset: 0,
    };
    let items = plot_symbol(&placed_symbol(180, Mirror::Off), &vec![lib], &theme, &None).unwrap();
    assert_eq!(
        vec![
            PlotItem::Polyline(
                Z_SHAPE,
                Polyline::new(
                    vec![q(1_000, 2_000), q(990, 2_000), q(990, 1_990)],
                    outline.color,
                    5,
                    outline.linetype.clone(),
                    theme.color("outline"),
                )
            ),
            // only the start of an arc is placed
            PlotItem::Arc(
                Z_SHAPE,
                Arc::new(
                    q(999, 1_998),
                    q(3, 4),
                    q(5, 6),
                    outline.width,
                    outline.linetype.clone(),
                    outline.color,
                    None
                )
            ),
            text(Z_TOP, q(993, 1_992), 90, "R", &effects, false),
        ],
        items
    );
}

#[test]
fn pin_on_a_turned_symbol() {
    let theme = Theme::kicad_2000();
    let pin = theme.stroke("pin").unwrap();
    let number = theme.effects("pin_number").unwrap();
    let placement =
        Placement { origin: q(1_000, 2_000), rotation: Rotation::R90, mirror: Mirror::Off };
    let items = plot_pin(&placement, &resistor(), &one_pin(0), &theme, &None).unwrap();
    assert_eq!(
        vec![
            line(Z_PAGE, vec![q(1_000, -48_800), q(1_000, -23_400)], &pin),
            // the pin faces bottom: its number stands to the right
            text(Z_TOP, q(11_000, -36_100), 0, "7", &number, false),
        ],
        items
    );
}

#[test]
fn pin_number_offsets_by_direction() {
    let theme = Theme::kicad_2000();
    let lib = resistor();
    let at = |rotation, mirror, angle| {
        let placement = Placement { origin: q(0, 0), rotation, mirror };
        let mut pin = one_pin(angle);
        pin.at = p(0, 0);
        match &plot_pin(&placement, &lib, &pin, &theme, &None).unwrap()[1] {
            PlotItem::Text(_, t) => (t.pos.x, t.pos.y),
            _ => unreachable!(),
        }
    };
    // right: half the pin along, one unit up
    assert_eq!((12_700, -10_000), at(Rotation::R0, Mirror::Off, 0));
    // bottom: one unit right; the pin has no horizontal extent in the symbol
    assert_eq!((10_000, 0), at(Rotation::R0, Mirror::Off, 90));
    // left: the pin runs against x
    assert_eq!((-12_700, -10_000), at(Rotation::R0, Mirror::Off, 180));
    // top
    assert_eq!((10_000, 0), at(Rotation::R0, Mirror::Off, 270));
    // a pin along x on a symbol turned to face top
    assert_eq!((10_000, -12_700), at(Rotation::R270, Mirror::Off, 0));
    // the run of the pin is taken in the symbol, where this one runs against x
    assert_eq!((10_000, -12_700), at(Rotation::R270, Mirror::Off, 180));
    assert_eq!((10_000, 12_700), at(Rotation::R90, Mirror::Off, 180));
    assert_eq!((10_000, 12_700), at(Rotation::R90, Mirror::Off, 0));
}

#[test]
fn pin_texts_depend_on_the_library() {
    let theme = Theme::kicad_2000();
    let placement = Placement { origin: q(0, 0), rotation: Rotation::R0, mirror: Mirror::Off };
    let mut named = one_pin(0);
    named.name = String::from("OUT");
    let count = |lib: &LibrarySymbol, pin: &Pin| plot_pin(&placement, lib, pin, &theme, &None).unwrap().len();
    let lib = resistor();
    assert_eq!(3, count(&lib, &named));
    // the name ~ is not shown
    assert_eq!(2, count(&lib, &one_pin(0)));
    let mut quiet = resistor();
    quiet.pin_numbers_show = false;
    assert_eq!(2, count(&quiet, &named));
    quiet.pin_names_show = false;
    assert_eq!(1, count(&quiet, &named));
    let mut power = resistor();
    power.power = true;
    assert_eq!(1, count(&power, &named));
}

#[test]
fn pin_net_name_comes_from_the_netlist() {
    let theme = Theme::kicad_2000();
    let number = theme.effects("pin_number").unwrap();
    let placement = Placement { origin: q(1_000, 2_000), rotation: Rotation::R0, mirror: Mirror::Off };
    let netlist = Some(Netlist {
        nodes: vec![
            NetNode { name: String::from("other"), points: vec![q(0, 0)] },
            NetNode { name: String::from("GND"), points: vec![q(5, 5), q(-49_800, 2_000)] },
            NetNode { name: String::from("late"), points: vec![q(-49_800, 2_000)] },
        ],
    });
    let items = plot_pin(&placement, &resistor(), &one_pin(0), &theme, &netlist).unwrap();
    assert_eq!(3, items.len());
    assert_eq!(text(Z_TOP, q(-37_100, 12_000), 0, "GND", &number, false), items[2]);
    let empty = Some(Netlist { nodes: vec![] });
    let items = plot_pin(&placement, &resistor(), &one_pin(0), &theme, &empty).unwrap();
    assert_eq!(text(Z_TOP, q(-37_100, 12_000), 0, "NaN", &number, false), items[2]);
    // a power symbol shows no net name
    let mut power = resistor();
    power.power = true;
    assert_eq!(1, plot_pin(&placement, &power, &one_pin(0), &theme, &netlist).unwrap().len());
}

#[test]
fn pin_at_an_odd_angle_is_a_geometry_error() {
    let theme = Theme::kicad_2000();
    let placement = Placement { origin: q(0, 0), rotation: Rotation::R0, mirror: Mirror::Off };
    assert_eq!(Err(Error::Geometry(45)), plot_pin(&placement, &resistor(), &one_pin(45), &theme, &None));
    let mut lib = resistor();
    lib.symbols[1].pin[0].angle = 30;
    assert_eq!(
        Err(Error::Geometry(30)),
        plot_symbol(&placed_symbol(0, Mirror::Off), &vec![lib], &theme, &None)
    );
}

#[test]
fn symbol_at_an_odd_angle_is_a_geometry_error() {
    let theme = Theme::kicad_2000();
    assert_eq!(
        Err(Error::Geometry(45)),
        plot_symbol(&placed_symbol(45, Mirror::Off), &vec![resistor()], &theme, &None)
    );
    assert_eq!(
        Err(Error::Geometry(-1)),
        plot_symbol(&placed_symbol(-1, Mirror::Off), &vec![], &theme, &None)
    );
}

#[test]
fn property_alignment_on_turned_symbols() {
    let theme = Theme::kicad_2000();
    let left = Align { left: true, right: false, top: false, bottom: true, center: false };
    let right = Align { left: false, right: true, top: false, bottom: true, center: false };
    let drawn = |symbol_angle: i32, angle: i32, justify: Align| {
        let property = Property {
            key: String::from("Reference"),
            value: String::from("R1"),
            at: p(3, 4),
            angle,
            effects: Some(EffectsStyle {
                font: None,
                color: None,
                font_size: None,
                justify: Some(justify),
                hide: None,
            }),
        };
        let items = plot_property(&placed_symbol(symbol_angle, Mirror::Off), &property, &theme).unwrap();
        assert_eq!(1, items.len());
        match &items[0] {
            PlotItem::Text(z, t) => {
                assert_eq!(99, *z);
                assert_eq!(q(3, 4), t.pos);
                assert_eq!("R1", t.text);
                assert!(!t.label);
                (t.angle, t.align)
            }
            _ => unreachable!(),
        }
    };
    assert_eq!((0, left), drawn(0, 0, left));
    assert_eq!((90, left), drawn(90, 0, left));
    assert_eq!((90, right), drawn(0, 90, right));
    // from half a turn on, left and right change places
    assert_eq!((180, right), drawn(180, 0, left));
    assert_eq!((180, left), drawn(180, 0, right));
    assert_eq!((90, right), drawn(180, 90, left));
    // a full turn is no half turn
    assert_eq!((180, left), drawn(270, 90, left));
    assert_eq!((180, right), drawn(270, 90, right));
    // below minus half a turn only right changes
    assert_eq!((200, left), drawn(0, -200, left));
    assert_eq!((200, left), drawn(0, -200, right));
    // the angle is taken without sign and less a full turn
    assert_eq!((90, left), drawn(0, -90, left));
    assert_eq!((90, right), drawn(360, -90, left));
    assert_eq!((0, left), drawn(360, 0, left));
}

#[test]
fn hidden_property_draws_nothing() {
    let theme = Theme::kicad_2000();
    let property = Property {
        key: String::from("Footprint"),
        value: String::from("R_0603"),
        at: p(3, 4),
        angle: 0,
        effects: Some(EffectsStyle {
            font: None,
            color: None,
            font_size: None,
            justify: None,
            hide: Some(true),
        }),
    };
    assert_eq!(Ok(vec![]), plot_property(&placed_symbol(0, Mirror::Off), &property, &theme));
    let mut symbol = placed_symbol(0, Mirror::Off);
    symbol.property = vec![property];
    // the box for the missing symbol is all that is left
    assert_eq!(1, plot_symbol(&symbol, &vec![], &theme, &None).unwrap().len());
}

#[test]
fn builder_emits_border_once_and_first() {
    let theme = Theme::kicad_2000();
    let elements = vec![
        SchemaElement::Wire(Wire { pts: vec![p(0, 0), p(100_000, 0)] }),
        SchemaElement::Junction(p(0, 0)),
    ];
    let libraries = vec![];
    let title_block = None;
    let netlist = None;
    let mut plot = SchemaPlot::new(
        &elements,
        &libraries,
        &title_block,
        (2_970_000, 2_100_000),
        &theme,
        true,
        &netlist,
    );
    let frame = theme.stroke("symbol").unwrap();
    assert_eq!(
        Some(Ok(vec![PlotItem::Rectangle(
            Z_PAGE,
            Rectangle::new(
                vec![q(50_000, 50_000), q(2_920_000, 2_050_000)],
                frame.color,
                frame.width,
                frame.linetype.clone(),
                None
            )
        )])),
        plot.next()
    );
    assert_eq!(Some(one(&elements[0], &theme)), plot.next());
    assert_eq!(Some(one(&elements[1], &theme)), plot.next());
    assert_eq!(None, plot.next());
    assert_eq!(None, plot.next());
}

#[test]
fn builder_without_border_starts_with_the_first_element() {
    let theme = Theme::kicad_2000();
    let elements = vec![SchemaElement::Junction(p(0, 0))];
    let libraries = vec![];
    let title_block = None;
    let netlist = None;
    let mut plot = SchemaPlot::new(&elements, &libraries, &title_block, (0, 0), &theme, false, &netlist);
    assert_eq!(Some(one(&elements[0], &theme)), plot.next());
    assert_eq!(None, plot.next());
    let none = vec![];
    let mut empty = SchemaPlot::new(&none, &libraries, &title_block, (0, 0), &theme, false, &netlist);
    assert_eq!(None, empty.next());
}

#[test]
fn builder_skips_symbols_off_the_page() {
    let theme = Theme::kicad_2000();
    let mut hidden = placed_symbol(0, Mirror::Off);
    hidden.on_schema = false;
    let mut also_hidden = placed_symbol(90, Mirror::X);
    also_hidden.on_schema = false;
    let elements = vec![
        SchemaElement::Symbol(hidden),
        SchemaElement::Junction(p(1, 1)),
        SchemaElement::Symbol(also_hidden),
    ];
    let libraries = vec![resistor()];
    let title_block = None;
    let netlist = None;
    let mut plot = SchemaPlot::new(&elements, &libraries, &title_block, (0, 0), &theme, false, &netlist);
    assert_eq!(Some(one(&elements[1], &theme)), plot.next());
    assert_eq!(None, plot.next());
}

#[test]
fn builder_ends_after_an_error() {
    let theme = Theme::kicad_2000();
    let elements = vec![
        SchemaElement::Junction(p(1, 1)),
        SchemaElement::Symbol(placed_symbol(45, Mirror::Off)),
        SchemaElement::Junction(p(2, 2)),
    ];
    let libraries = vec![resistor()];
    let title_block = None;
    let netlist = None;
    let mut plot = SchemaPlot::new(&elements, &libraries, &title_block, (0, 0), &theme, false, &netlist);
    assert!(matches!(plot.next(), Some(Ok(_))));
    assert_eq!(Some(Err(Error::Geometry(45))), plot.next());
    assert_eq!(None, plot.next());
    assert_eq!(
        Err(Error::Geometry(45)),
        plot_page(&elements, &libraries, &title_block, (0, 0), &theme, false, &netlist)
    );
}

#[test]
fn drain_is_what_next_gives_in_order() {
    let theme = Theme::mono();
    let elements = vec![
        SchemaElement::Wire(Wire { pts: vec![p(0, 0), p(100_000, 0)] }),
        SchemaElement::Symbol(placed_symbol(0, Mirror::Off)),
        SchemaElement::NoConnect(p(4, 4)),
        SchemaElement::Junction(p(0, 0)),
    ];
    let libraries = vec![resistor()];
    let title_block = Some(TitleBlock {
        title: String::from("Amplifier"),
        date: String::from("2024-01-01"),
        rev: String::from("B"),
        company: String::from("ACME"),
    });
    let netlist = None;
    let paper = (2_970_000, 2_100_000);
    let mut stepwise = Vec::new();
    let mut plot = SchemaPlot::new(&elements, &libraries, &title_block, paper, &theme, true, &netlist);
    while let Some(items) = plot.next() {
        stepwise.extend(items.unwrap());
    }
    let mut fresh = SchemaPlot::new(&elements, &libraries, &title_block, paper, &theme, true, &netlist);
    assert_eq!(stepwise, fresh.drain().unwrap());
    assert_eq!(Ok(vec![]), fresh.drain());
    assert_eq!(
        stepwise,
        plot_page(&elements, &libraries, &title_block, paper, &theme, true, &netlist).unwrap()
    );
    // frame, four title block texts, wire, four of the symbol, two of the cross, junction
    assert_eq!(13, stepwise.len());
    // what is left after the border was taken
    let mut partly = SchemaPlot::new(&elements, &libraries, &title_block, paper, &theme, true, &netlist);
    let border = partly.next().unwrap().unwrap();
    assert_eq!(5, border.len());
    assert_eq!(stepwise[5..], partly.drain().unwrap()[..]);
}

#[test]
fn title_block_texts() {
    let theme = Theme::mono();
    let effects = theme.effects("text").unwrap();
    let title_block = Some(TitleBlock {
        title: String::from("Amplifier"),
        date: String::from("2024-01-01"),
        rev: String::from("B"),
        company: String::from("ACME"),
    });
    let items = elektron_plot::border::draw_border(&title_block, (2_970_000, 2_100_000), &theme).unwrap();
    assert_eq!(
        [
            text(Z_PAGE, q(1_920_000, 1_850_000), 0, "Amplifier", &effects, false),
            text(Z_PAGE, q(1_920_000, 1_900_000), 0, "ACME", &effects, false),
            text(Z_PAGE, q(1_920_000, 1_950_000), 0, "B", &effects, false),
            text(Z_PAGE, q(1_920_000, 2_000_000), 0, "2024-01-01", &effects, false),
        ],
        items[1..]
    );
    assert_eq!(LINE_WIDTH, theme.stroke("symbol").unwrap().width);
}
