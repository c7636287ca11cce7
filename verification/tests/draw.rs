use elektron_plot::bounds::Extent;
use elektron_plot::color::Color;
use elektron_plot::draw::{draw_page, push_item, DrawOp};
use elektron_plot::items::Align;
use elektron_plot::order::{compare_z, sorted_positions, z_values};
use elektron_plot::units::Point;
use elektron_plot::{Arc, Circle, Line, LineCap, PlotItem, Polyline, Rectangle, Text};
use std::cmp::Ordering;

fn xy(x: i64, y: i64) -> Point {
    Point { x, y }
}

fn paint(v: i64) -> Color {
    Color { r: v, g: v, b: v, a: 10_000 }
}

fn white() -> Color {
    paint(10_000)
}

fn zero() -> Extent {
    Extent { width: 0, height: 0 }
}

fn stroke_line(z: usize, shade: i64) -> PlotItem {
    PlotItem::Line(
        z,
        Line::new(vec![xy(shade, 0), xy(shade, 1)], 1_524, String::from("default"), LineCap::Butt, paint(shade)),
    )
}

fn ops_of(item: PlotItem, e: Extent, index: usize) -> Vec<DrawOp> {
    let mut ops = vec![DrawOp::Save];
    push_item(&mut ops, &item, e, index);
    assert_eq!(DrawOp::Save, ops[0]);
    ops.split_off(1)
}

fn label_at(angle: i64, label: bool, align: Align) -> PlotItem {
    PlotItem::Text(
        10,
        Text::new(xy(1_000, 2_000), angle, String::from("VCC"), paint(0), 12_700, "osifont", align, label),
    )
}

#[test]
fn compare_z_orders_numbers() {
    assert_eq!(Ordering::Less, compare_z(1, 10));
    assert_eq!(Ordering::Equal, compare_z(10, 10));
    assert_eq!(Ordering::Greater, compare_z(99, 10));
    assert_eq!(Ordering::Less, compare_z(0, usize::MAX));
}

#[test]
fn positions_are_sorted_by_z_and_stable() {
    let items: Vec<PlotItem> = [10, 1, 99, 1, 10, 1].iter().map(|z| stroke_line(*z, 0)).collect();
    assert_eq!(vec![10, 1, 99, 1, 10, 1], z_values(&items));
    assert_eq!(vec![1, 3, 5, 0, 4, 2], sorted_positions(&items));
    assert_eq!(Vec::<usize>::new(), sorted_positions(&vec![]));
    assert_eq!(vec![0], sorted_positions(&vec![stroke_line(5, 0)]));
    let same: Vec<PlotItem> = (0..20).map(|i| stroke_line(7, i)).collect();
    assert_eq!((0..20).collect::<Vec<usize>>(), sorted_positions(&same));
    let falling: Vec<PlotItem> = (0..20).map(|i| stroke_line(20 - i, 0)).collect();
    assert_eq!((0..20).rev().collect::<Vec<usize>>(), sorted_positions(&falling));
}

#[test]
fn page_is_painted_white_first() {
    assert_eq!(vec![DrawOp::SetSource(white()), DrawOp::Paint], draw_page(&vec![], &vec![]));
    let ops = draw_page(&vec![stroke_line(1, 5)], &vec![zero()]);
    assert_eq!([DrawOp::SetSource(white()), DrawOp::Paint], ops[..2]);
    assert_eq!(8, ops.len());
}

#[test]
fn primitives_are_drawn_by_z_order_and_ties_in_page_order() {
    // shades tell the lines apart in the operations
    let items = vec![
        stroke_line(10, 1),
        stroke_line(99, 2),
        stroke_line(1, 3),
        stroke_line(10, 4),
        stroke_line(1, 5),
        stroke_line(10, 6),
    ];
    let extents = vec![zero(); 6];
    let ops = draw_page(&items, &extents);
    let shades: Vec<i64> = ops[2..]
        .iter()
        .filter_map(|op| match op {
            DrawOp::SetSource(c) => Some(c.r),
            _ => None,
        })
        .collect();
    assert_eq!(vec![3, 5, 1, 4, 6, 2], shades);
}

#[test]
fn line_operations() {
    let item = PlotItem::Line(
        10,
        Line::new(vec![xy(1, 2), xy(3, 4), xy(5, 6)], 1_524, String::from("default"), LineCap::Round, paint(7)),
    );
    assert_eq!(
        vec![
            DrawOp::SetSource(paint(7)),
            DrawOp::SetLineWidth(1_524),
            DrawOp::SetLineCap(LineCap::Round),
            DrawOp::MoveTo(xy(1, 2)),
            DrawOp::LineTo(xy(3, 4)),
            DrawOp::Stroke,
        ],
        ops_of(item, zero(), 0)
    );
}

#[test]
fn polyline_operations() {
    let item = |fill| {
        PlotItem::Polyline(
            1,
            Polyline::new(vec![xy(1, 2), xy(3, 4), xy(5, 6)], paint(7), 9, String::from("default"), fill),
        )
    };
    assert_eq!(
        vec![
            DrawOp::SetSource(paint(7)),
            DrawOp::SetLineWidth(9),
            DrawOp::MoveTo(xy(1, 2)),
            DrawOp::LineTo(xy(3, 4)),
            DrawOp::StrokePreserve,
            DrawOp::LineTo(xy(5, 6)),
            DrawOp::StrokePreserve,
            DrawOp::Stroke,
        ],
        ops_of(item(None), zero(), 0)
    );
    assert_eq!(
        vec![
            DrawOp::SetSource(paint(7)),
            DrawOp::SetLineWidth(9),
            DrawOp::MoveTo(xy(1, 2)),
            DrawOp::LineTo(xy(3, 4)),
            DrawOp::StrokePreserve,
            DrawOp::LineTo(xy(5, 6)),
            DrawOp::StrokePreserve,
            DrawOp::SetSource(paint(8)),
            DrawOp::Fill,
            DrawOp::Stroke,
        ],
        ops_of(item(Some(paint(8))), zero(), 0)
    );
    let single = PlotItem::Polyline(1, Polyline::new(vec![xy(1, 2)], paint(7), 9, String::from("default"), None));
    assert_eq!(
        vec![
            DrawOp::SetSource(paint(7)),
            DrawOp::SetLineWidth(9),
            DrawOp::MoveTo(xy(1, 2)),
            DrawOp::Stroke
        ],
        ops_of(single, zero(), 0)
    );
}

#[test]
fn rectangle_is_stroked_before_and_after_the_fill() {
    let item = PlotItem::Rectangle(
        1,
        Rectangle::new(vec![xy(10, 20), xy(40, 25)], paint(7), 9, String::from("default"), Some(paint(8))),
    );
    assert_eq!(
        vec![
            DrawOp::SetSource(paint(7)),
            DrawOp::SetLineWidth(9),
            DrawOp::Rectangle { origin: xy(10, 20), width: 30, height: 5 },
            DrawOp::StrokePreserve,
            DrawOp::SetSource(paint(8)),
            DrawOp::Fill,
            DrawOp::Stroke,
        ],
        ops_of(item, zero(), 0)
    );
    let open = PlotItem::Rectangle(
        1,
        Rectangle::new(vec![xy(10, 20), xy(0, 0)], paint(7), 9, String::from("default"), None),
    );
    assert_eq!(
        vec![
            DrawOp::SetSource(paint(7)),
            DrawOp::SetLineWidth(9),
            DrawOp::Rectangle { origin: xy(10, 20), width: -10, height: -20 },
            DrawOp::StrokePreserve,
            DrawOp::Stroke,
        ],
        ops_of(open, zero(), 0)
    );
}

#[test]
fn circle_and_arc_operations() {
    let circle = PlotItem::Circle(
        99,
        Circle::new(xy(10, 20), 3_500, 9, String::from("default"), paint(7), Some(paint(7))),
    );
    assert_eq!(
        vec![
            DrawOp::SetSource(paint(7)),
            DrawOp::SetLineWidth(9),
            DrawOp::Arc { center: xy(10, 20), radius: 3_500, from: 0, to: 10 },
            DrawOp::StrokePreserve,
            DrawOp::SetSource(paint(7)),
            DrawOp::Fill,
            DrawOp::Stroke,
        ],
        ops_of(circle, zero(), 0)
    );
    // an arc is drawn about its start, with the height of its middle as radius
    let arc = PlotItem::Arc(
        1,
        Arc::new(xy(10, 20), xy(30, 40), xy(50, 60), 9, String::from("default"), paint(7), None),
    );
    assert_eq!(
        vec![
            DrawOp::SetSource(paint(7)),
            DrawOp::SetLineWidth(9),
            DrawOp::Arc { center: xy(10, 20), radius: 40, from: 0, to: 10 },
            DrawOp::StrokePreserve,
            DrawOp::Stroke,
        ],
        ops_of(arc, zero(), 0)
    );
}

#[test]
fn text_operations() {
    let e = Extent { width: 100, height: 30 };
    let shown = |angle, align, index| ops_of(label_at(angle, false, align), e, index);
    let left_top = Align { left: true, right: false, top: true, bottom: false, center: false };
    assert_eq!(
        vec![
            DrawOp::Save,
            DrawOp::MoveTo(xy(1_000, 2_000)),
            DrawOp::Rotate(0),
            DrawOp::ShowLayout(4),
            DrawOp::Stroke,
            DrawOp::Restore,
        ],
        shown(0, left_top, 4)
    );
    assert_eq!(
        vec![
            DrawOp::Save,
            DrawOp::MoveTo(xy(950, 1_985)),
            DrawOp::Rotate(0),
            DrawOp::ShowLayout(0),
            DrawOp::Stroke,
            DrawOp::Restore,
        ],
        shown(0, Align::centered(), 0)
    );
    // upright text is turned back by a quarter turn
    assert_eq!(
        vec![
            DrawOp::Save,
            DrawOp::MoveTo(xy(985, 2_050)),
            DrawOp::Rotate(-90),
            DrawOp::ShowLayout(0),
            DrawOp::Stroke,
            DrawOp::Restore,
        ],
        shown(90, Align::centered(), 0)
    );
    // from half a turn on, half a turn less
    assert_eq!(DrawOp::Rotate(0), shown(180, Align::centered(), 0)[2]);
    assert_eq!(DrawOp::Rotate(-90), shown(270, Align::centered(), 0)[2]);
    assert_eq!(DrawOp::Rotate(-45), shown(45, Align::centered(), 0)[2]);
    assert_eq!(DrawOp::MoveTo(xy(1_000, 2_000)), shown(45, Align::centered(), 0)[1]);
}

#[test]
fn callout_operations() {
    let e = Extent { width: 100, height: 30 };
    let ops = ops_of(label_at(0, true, Align::none()), e, 3);
    assert_eq!(
        vec![
            DrawOp::Save,
            DrawOp::MoveTo(xy(1_000, 2_000)),
            DrawOp::LineTo(xy(1_000, 2_000)),
            DrawOp::LineTo(xy(9_000, 985)),
            DrawOp::LineTo(xy(13_100, 985)),
            DrawOp::LineTo(xy(13_100, 3_015)),
            DrawOp::LineTo(xy(9_000, 3_015)),
            DrawOp::LineTo(xy(1_000, 2_000)),
            DrawOp::Stroke,
            DrawOp::MoveTo(xy(9_000, 1_985)),
            DrawOp::Rotate(0),
            DrawOp::ShowLayout(3),
            DrawOp::Stroke,
            DrawOp::Restore,
        ],
        ops
    );
}

#[test]
fn callout_corners_reach_the_canvas_turned() {
    let e = Extent { width: 100, height: 30 };
    let corners = |angle| -> Vec<DrawOp> { ops_of(label_at(angle, true, Align::none()), e, 3)[2..8].to_vec() };
    let lines = |pts: [(i64, i64); 6]| -> Vec<DrawOp> {
        pts.iter().map(|p| DrawOp::LineTo(xy(p.0, p.1))).collect()
    };
    // a quarter turn takes what ran right to run down
    assert_eq!(
        lines([(1_000, 2_000), (2_015, 10_000), (2_015, 14_100), (-15, 14_100), (-15, 10_000), (1_000, 2_000)]),
        corners(90)
    );
    assert_eq!(
        lines([(1_000, 2_000), (-7_000, 3_015), (-11_100, 3_015), (-11_100, 985), (-7_000, 985), (1_000, 2_000)]),
        corners(180)
    );
    assert_eq!(
        lines([(1_000, 2_000), (-15, -6_000), (-15, -10_100), (2_015, -10_100), (2_015, -6_000), (1_000, 2_000)]),
        corners(270)
    );
    assert_eq!(corners(0), corners(360));
    assert_eq!(corners(270), corners(-90));
    // at any other angle the canvas turns the corner
    let about = xy(1_000, 2_000);
    assert_eq!(
        vec![
            DrawOp::LineToTurned { about, angle: 33, corner: xy(0, 0) },
            DrawOp::LineToTurned { about, angle: 33, corner: xy(8_000, -1_015) },
            DrawOp::LineToTurned { about, angle: 33, corner: xy(12_100, -1_015) },
            DrawOp::LineToTurned { about, angle: 33, corner: xy(12_100, 1_015) },
            DrawOp::LineToTurned { about, angle: 33, corner: xy(8_000, 1_015) },
            DrawOp::LineToTurned { about, angle: 33, corner: xy(0, 0) },
        ],
        corners(33)
    );
}

#[test]
fn callout_text_origin() {
    let e = Extent { width: 100, height: 30 };
    let ops = ops_of(label_at(180, true, Align::none()), e, 3);
    assert_eq!(DrawOp::MoveTo(xy(1_000 - 8_100, 1_985)), ops[9]);
    assert_eq!(DrawOp::Rotate(0), ops[10]);
    let ops = ops_of(label_at(90, true, Align::none()), e, 3);
    assert_eq!(DrawOp::MoveTo(xy(1_000, 2_000)), ops[9]);
    assert_eq!(DrawOp::Rotate(-90), ops[10]);
    let ops = ops_of(label_at(270, true, Align::none()), e, 3);
    assert_eq!(DrawOp::Rotate(-90), ops[10]);
}

#[test]
fn the_canvas_is_turned_once_for_a_text() {
    let e = Extent { width: 100, height: 30 };
    for label in [false, true] {
        for (angle, turned) in [(0, 0), (90, -90), (180, 0), (270, -90), (33, -33)] {
            let ops = ops_of(label_at(angle, label, Align::none()), e, 0);
            assert_eq!(DrawOp::Save, ops[0]);
            assert_eq!(DrawOp::Restore, ops[ops.len() - 1]);
            assert_eq!(1, ops.iter().filter(|op| **op == DrawOp::Save).count());
            assert_eq!(1, ops.iter().filter(|op| **op == DrawOp::Restore).count());
            let turns: Vec<&DrawOp> = ops.iter().filter(|op| matches!(op, DrawOp::Rotate(_))).collect();
            assert_eq!(vec![&DrawOp::Rotate(turned)], turns);
        }
    }
}

#[test]
fn shapes_without_points_are_drawn_as_they_are() {
    let empty = PlotItem::Polyline(1, Polyline::new(vec![], paint(7), 9, String::from("default"), None));
    assert_eq!(
        vec![DrawOp::SetSource(paint(7)), DrawOp::SetLineWidth(9), DrawOp::Stroke],
        ops_of(empty, zero(), 0)
    );
    // neither the size of a circle nor the extent of what is no text is held to a range
    let huge = PlotItem::Circle(1, Circle::new(xy(i64::MAX, i64::MIN), i64::MAX, 9, String::from("default"), paint(7), None));
    let ops = ops_of(huge, Extent { width: -1, height: -1 }, 0);
    assert_eq!(DrawOp::Arc { center: xy(i64::MAX, i64::MIN), radius: i64::MAX, from: 0, to: 10 }, ops[2]);
}

#[test]
fn saves_and_restores_are_balanced() {
    let e = Extent { width: 100, height: 30 };
    for label in [false, true] {
        for angle in [0, 90, 180, 270, 33] {
            let ops = ops_of(label_at(angle, label, Align::none()), e, 0);
            let mut depth: i32 = 0;
            for op in &ops {
                match op {
                    DrawOp::Save => depth += 1,
                    DrawOp::Restore => depth -= 1,
                    _ => {}
                }
                assert!(depth >= 0);
            }
            assert_eq!(0, depth);
        }
    }
}
