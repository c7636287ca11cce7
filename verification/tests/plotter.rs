use elektron_plot::bounds::{Bounds, Extent};
use elektron_plot::cairo_plotter::{
    canvas_length, device_size, text_run, Page, Ratio, TextRun, A4_HEIGHT, A4_WIDTH, MARGIN,
    SCALE_LIMIT, SIDE_LIMIT,
};
use elektron_plot::color::Color;
use elektron_plot::document::{DocPoint, SchemaElement, Wire};
use elektron_plot::draw::DrawOp;
use elektron_plot::items::Align;
use elektron_plot::render::{prepare_page, text_runs, Schema, SchemaPage};
use elektron_plot::units::{Point, ONE};
use elektron_plot::{
    CairoPlotter, Circle, Error, ImageType, Line, LineCap, PlotItem, Plotter, Text, Theme,
};

fn pos(x: i64, y: i64) -> Point {
    Point { x, y }
}

fn dark() -> Color {
    Color { r: 0, g: 0, b: 0, a: 10_000 }
}

fn dot(radius: i64) -> PlotItem {
    PlotItem::Circle(1, Circle::new(pos(0, 0), radius, 1_524, String::from("default"), dark(), None))
}

fn caption(size: i64) -> Text {
    Text::new(pos(0, 0), 0, String::from("R1"), dark(), size, "osifont", Align::none(), false)
}

fn one_wire() -> Schema {
    Schema {
        pages: vec![SchemaPage {
            elements: vec![SchemaElement::Wire(Wire {
                pts: vec![DocPoint { x: 0, y: 0 }, DocPoint { x: 100_000, y: 0 }],
            })],
            title_block: None,
            paper_size: (A4_WIDTH, A4_HEIGHT),
        }],
        libraries: vec![],
    }
}

#[test]
fn image_type_by_name() {
    assert_eq!(Ok(ImageType::Svg), ImageType::from_name("svg"));
    assert_eq!(Ok(ImageType::Png), ImageType::from_name("png"));
    assert_eq!(Ok(ImageType::Pdf), ImageType::from_name("pdf"));
    assert_eq!(Err(Error::UnknownImageType(String::from("jpg"))), ImageType::from_name("jpg"));
    assert_eq!(Err(Error::UnknownImageType(String::from("SVG"))), ImageType::from_name("SVG"));
    assert_eq!(Err(Error::UnknownImageType(String::new())), ImageType::from_name(""));
    assert_eq!(Ok(ImageType::Svg), ImageType::from_option(None));
    assert_eq!(Ok(ImageType::Png), ImageType::from_option(Some("png")));
    assert_eq!(Err(Error::UnknownImageType(String::from("gif"))), ImageType::from_option(Some("gif")));
}

#[test]
fn image_type_by_file_name() {
    assert_eq!(ImageType::Svg, ImageType::from_filename("out/page.svg"));
    assert_eq!(ImageType::Png, ImageType::from_filename("page.png"));
    assert_eq!(ImageType::Pdf, ImageType::from_filename("page.pdf"));
    assert_eq!(ImageType::Pdf, ImageType::from_filename("page"));
    assert_eq!(ImageType::Pdf, ImageType::from_filename("svg"));
    assert_eq!(ImageType::Svg, ImageType::from_filename(".svg"));
    assert_eq!(ImageType::Pdf, ImageType::from_filename("page.svg.bak"));
    assert_eq!(ImageType::Pdf, ImageType::from_filename(""));
    assert_eq!(ImageType::Png, ImageType::from_filename("größe.png"));
}

#[test]
fn device_sizes() {
    let points = Ratio { device: 72, tenths: 254 };
    let pixels = Ratio { device: 96, tenths: 254 };
    assert_eq!(841, device_size(A4_WIDTH, points));
    assert_eq!(595, device_size(A4_HEIGHT, points));
    assert_eq!(1_122, device_size(A4_WIDTH, pixels));
    assert_eq!(793, device_size(A4_HEIGHT, pixels));
    // 25.4 drawing units are 72 and 96 device units
    assert_eq!(72, device_size(254_000, points));
    assert_eq!(96, device_size(254_000, pixels));
    assert_eq!(71, device_size(253_999, points));
    assert_eq!(0, device_size(0, points));
    assert_eq!(0, device_size(-5, points));
    assert_eq!(0, device_size(5, Ratio { device: 0, tenths: 254 }));
    assert_eq!(0, device_size(5, Ratio { device: 72, tenths: 0 }));
    assert_eq!(i32::MAX, device_size(i64::MAX, Ratio { device: i32::MAX, tenths: 1 }));
}

#[test]
fn plotter_starts_on_a4() {
    let items = vec![];
    let mut plotter = CairoPlotter::new(&items);
    assert_eq!((2_970_000, 2_100_000), plotter.get_paper());
    assert_eq!((841, 595), plotter.measure_surface());
    plotter.paper("A3");
    assert_eq!((2_970_000, 2_100_000), plotter.get_paper());
    plotter.paper("A4");
    assert_eq!((A4_WIDTH, A4_HEIGHT), plotter.get_paper());
}

#[test]
fn document_format_is_refused() {
    let items = vec![dot(50_000)];
    let plotter = CairoPlotter::new(&items);
    let sizes = vec![Extent { width: 0, height: 0 }];
    for border in [true, false] {
        assert_eq!(
            Err(Error::UnknownImageType(String::from("pdf"))),
            plotter.plot(border, &ImageType::Pdf, &sizes, &sizes)
        );
    }
}

#[test]
fn page_fitted_to_a_circle() {
    // a circle of radius 5 about the origin
    let items = vec![dot(5 * ONE)];
    let plotter = CairoPlotter::new(&items);
    let sizes = vec![Extent { width: 0, height: 0 }];
    assert_eq!(
        Bounds { min: pos(-50_000, -50_000), max: pos(50_000, 50_000) },
        plotter.bounds(&sizes)
    );
    for format in [ImageType::Svg, ImageType::Png] {
        let page = plotter.plot(false, &format, &sizes, &sizes).unwrap();
        // 2 * 5 + 2 * 2.54 drawing units on each axis
        assert_eq!(150_800, page.width);
        assert_eq!(150_800, page.height);
        assert!((page.width as f64 / ONE as f64 - (2.0 * 5.0 + 2.0 * 2.54)).abs() < 1e-9);
        assert_eq!(pos(-75_400, -75_400), page.origin);
        // written out at 96 device units in 25.4, as a page on paper is
        assert_eq!(Ratio { device: 96, tenths: 254 }, page.ratio);
        assert!(page.scaled);
        assert_eq!(plotter.draw(&sizes), page.ops);
    }
    assert_eq!(25_400, MARGIN);
}

#[test]
fn page_on_paper_with_one_wire() {
    let schema = one_wire();
    let prepared = prepare_page(&schema, 0, true, "kicad_2000", &None, Some("svg")).unwrap();
    assert_eq!(ImageType::Svg, prepared.image_type);
    // the frame and the wire
    assert_eq!(2, prepared.items.len());
    let plotter = CairoPlotter::new(&prepared.items);
    let sizes = vec![Extent { width: 0, height: 0 }; 2];
    let page = plotter.plot(true, &prepared.image_type, &vec![], &sizes).unwrap();
    assert_eq!((A4_WIDTH, A4_HEIGHT), (page.width, page.height));
    assert_eq!(Ratio { device: 96, tenths: 254 }, page.ratio);
    assert!(!page.scaled);
    assert_eq!(pos(0, 0), page.origin);
    assert!(!page.ops.is_empty());
    let start = page.ops.iter().position(|op| *op == DrawOp::MoveTo(pos(0, 0))).unwrap();
    assert_eq!(DrawOp::LineTo(pos(100_000, 0)), page.ops[start + 1]);
    assert_eq!(DrawOp::Stroke, page.ops[start + 2]);
    // the far end of the wire in device units: 10 * 96 / 25.4
    let device = 100_000.0 / ONE as f64 * (page.ratio.device as f64 * 10.0 / page.ratio.tenths as f64);
    assert!((device - 37.795_275_590_551_18).abs() < 1e-9);
    assert_eq!(37, device_size(100_000, page.ratio));
    assert_eq!(1_122, device_size(page.width, page.ratio));
}

#[test]
fn page_on_paper_does_not_read_text_sizes_for_bounds() {
    let items = vec![];
    let plotter = CairoPlotter::new(&items);
    let page: Page = plotter.plot(true, &ImageType::Png, &vec![], &vec![]).unwrap();
    assert_eq!(2, page.ops.len());
    assert_eq!((A4_WIDTH, A4_HEIGHT), (page.width, page.height));
}

#[test]
fn fitted_page_uses_both_measurements() {
    let items = vec![
        PlotItem::Line(
            10,
            Line::new(vec![pos(0, 0), pos(10, 10)], 1, String::from("default"), LineCap::Butt, dark()),
        ),
        PlotItem::Text(10, caption(12_700)),
    ];
    let plotter = CairoPlotter::new(&items);
    let text_sizes = vec![Extent { width: 0, height: 0 }, Extent { width: 1_000, height: 200 }];
    let layout_sizes = vec![Extent { width: 0, height: 0 }, Extent { width: 2_000, height: 400 }];
    let page = plotter.plot(false, &ImageType::Svg, &text_sizes, &layout_sizes).unwrap();
    // bounds from the text sizes: the text is centred on the origin
    assert_eq!(pos(-500 - MARGIN, -100 - MARGIN), page.origin);
    assert_eq!(1_000 + 2 * MARGIN, page.width);
    assert_eq!(200 + 2 * MARGIN, page.height);
    // drawn with the layout sizes
    assert!(page.ops.contains(&DrawOp::MoveTo(pos(-1_000, -200))));
    assert!(page.ops.contains(&DrawOp::ShowLayout(1)));
}

#[test]
fn text_run_of_a_text() {
    let run = text_run(&caption(12_700));
    assert_eq!(
        TextRun {
            face: String::from("osifont"),
            foreground: String::from("#000000FF"),
            // 1.27 * 1024 = 1300.48
            size: 1_300,
            text: String::from("R1"),
        },
        run
    );
    assert_eq!(1_024, text_run(&caption(ONE)).size);
    assert_eq!(0, text_run(&caption(9)).size);
    assert_eq!(1, text_run(&caption(10)).size);
    assert_eq!(0, text_run(&caption(-9)).size);
    assert_eq!(-1, text_run(&caption(-10)).size);
    assert_eq!(i32::MAX, text_run(&caption(i64::MAX)).size);
    assert_eq!(i32::MIN, text_run(&caption(i64::MIN)).size);
}

#[test]
fn text_runs_by_position() {
    let items = vec![dot(1), PlotItem::Text(10, caption(12_700)), dot(2)];
    let runs = text_runs(&items);
    assert_eq!(vec![None, Some(text_run(&caption(12_700))), None], runs);
    assert_eq!(Vec::<Option<TextRun>>::new(), text_runs(&vec![]));
}

#[test]
fn unknown_format_is_reported_before_the_page_is_made() {
    let mut schema = one_wire();
    // the page itself would fail too
    schema.pages[0].elements.push(SchemaElement::Sheet(elektron_plot::document::Sheet {
        at: DocPoint { x: 0, y: 0 },
        size: DocPoint { x: 1, y: 1 },
        property: vec![],
        stroke: None,
        fill: dark(),
    }));
    assert_eq!(
        Err(Error::UnknownImageType(String::from("jpg"))),
        prepare_page(&schema, 0, false, "mono", &None, Some("jpg"))
    );
    assert_eq!(
        Err(Error::PropertyNotFound(String::from("Sheet name"), String::from("sheet"))),
        prepare_page(&schema, 0, false, "mono", &None, Some("png"))
    );
}

#[test]
fn page_is_made_in_the_named_theme() {
    let schema = one_wire();
    let colour = |theme: &str| match &prepare_page(&schema, 0, false, theme, &None, None).unwrap().items[0] {
        PlotItem::Line(_, line) => line.color,
        _ => unreachable!(),
    };
    assert_eq!(dark(), colour("mono"));
    assert_eq!(Theme::kicad_2000().stroke("wire").unwrap().color, colour("kicad_2000"));
    assert_eq!(1, schema.pages());
    assert_eq!(
        ImageType::Svg,
        prepare_page(&schema, 0, false, "mono", &None, None).unwrap().image_type
    );
}

#[test]
fn canvas_size_of_a_fitted_page() {
    let items = vec![dot(5 * ONE)];
    let plotter = CairoPlotter::new(&items);
    let sizes = vec![Extent { width: 0, height: 0 }];
    let page = plotter.plot(false, &ImageType::Svg, &sizes, &sizes).unwrap();
    // 15.08 * 96 / 25.4 = 56.9952...
    assert_eq!((569_952, 569_952), page.canvas_size(ONE));
    // three times as large: 170.9858...
    assert_eq!((1_709_858, 1_709_858), page.canvas_size(3 * ONE));
    // doubling the scale factor doubles both sides
    assert_eq!((1_139_905, 1_139_905), page.canvas_size(2 * ONE));
    assert_eq!((284_976, 284_976), page.canvas_size(ONE / 2));
    assert_eq!((0, 0), page.canvas_size(0));
    assert_eq!((0, 0), page.canvas_size(-ONE));
    // back in drawing units the canvas has the size of the page
    let units = page.canvas_size(ONE).0 as f64 / ONE as f64 * 25.4 / 96.0;
    assert!((units - (2.0 * 5.0 + 2.0 * 2.54)).abs() < 1e-3);
}

#[test]
fn canvas_size_of_a_page_on_paper() {
    let items = vec![];
    let plotter = CairoPlotter::new(&items);
    let page = plotter.plot(true, &ImageType::Svg, &vec![], &vec![]).unwrap();
    // 297 * 96 / 25.4 = 1122.5196..., 210 * 96 / 25.4 = 793.7007...
    assert_eq!((11_225_196, 7_937_007), page.canvas_size(ONE));
    // the scale factor does not apply
    assert_eq!((11_225_196, 7_937_007), page.canvas_size(3 * ONE));
    assert_eq!((11_225_196, 7_937_007), page.canvas_size(0));
}

#[test]
fn canvas_lengths() {
    let points = Ratio { device: 72, tenths: 254 };
    assert_eq!(720_000, canvas_length(254_000, points, ONE));
    assert_eq!(7_200_000, canvas_length(254_000, points, 10 * ONE));
    assert_eq!(2, canvas_length(1, points, ONE));
    assert_eq!(0, canvas_length(1, points, 3_527));
    assert_eq!(1, canvas_length(1, points, 3_528));
    assert_eq!(0, canvas_length(0, points, ONE));
    assert_eq!(0, canvas_length(-1, points, ONE));
    assert_eq!(0, canvas_length(1, Ratio { device: -72, tenths: 254 }, ONE));
    assert_eq!(0, canvas_length(1, Ratio { device: 72, tenths: 0 }, ONE));
    assert_eq!(
        i64::MAX,
        canvas_length(SIDE_LIMIT, Ratio { device: i32::MAX, tenths: 1 }, SCALE_LIMIT)
    );
}

#[test]
fn unknown_theme_is_a_theme_error() {
    let schema = one_wire();
    for name in ["nope", "", "Mono", "kicad_2000 "] {
        assert_eq!(
            Err(Error::Theme(String::from("theme"), String::from(name))),
            prepare_page(&schema, 0, false, name, &None, Some("svg"))
        );
    }
    // a page without elements fails all the same
    let empty = Schema {
        pages: vec![SchemaPage { elements: vec![], title_block: None, paper_size: (A4_WIDTH, A4_HEIGHT) }],
        libraries: vec![],
    };
    assert_eq!(
        Err(Error::Theme(String::from("theme"), String::from("nope"))),
        prepare_page(&empty, 0, true, "nope", &None, None)
    );
    assert!(prepare_page(&empty, 0, true, "mono", &None, None).is_ok());
    // the format is looked at first
    assert_eq!(
        Err(Error::UnknownImageType(String::from("jpg"))),
        prepare_page(&schema, 0, false, "nope", &None, Some("jpg"))
    );
}

#[test]
fn document_format_is_refused_whatever_the_page_holds() {
    // a line without points can be neither drawn nor measured
    let items = vec![PlotItem::Line(
        10,
        Line::new(vec![], 1, String::from("default"), LineCap::Butt, dark()),
    )];
    let plotter = CairoPlotter::new(&items);
    assert_eq!(
        Err(Error::UnknownImageType(String::from("pdf"))),
        plotter.plot(false, &ImageType::Pdf, &vec![], &vec![])
    );
}
