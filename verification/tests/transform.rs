use elektron_plot::document::{DocPoint, Pin, Symbol};
use elektron_plot::schema::pin_position;
use elektron_plot::transform::{orientation, pin_slots_of, Mirror, PinOrientation, Placement, Rotation};
use elektron_plot::units::Point;
use elektron_plot::Error;

fn symbol_at(angle: i32, mirror: Mirror) -> Symbol {
    Symbol {
        lib_id: String::from("Device:R"),
        at: DocPoint { x: 0, y: 0 },
        angle,
        mirror,
        unit: 1,
        on_schema: true,
        property: vec![],
    }
}

fn pin_at(angle: i32) -> Pin {
    Pin {
        at: DocPoint { x: 0, y: 0 },
        angle,
        length: 25_400,
        number: String::from("1"),
        name: String::from("~"),
    }
}

#[test]
fn rotation_from_degrees() {
    assert_eq!(Ok(Rotation::R0), Rotation::from_degrees(0));
    assert_eq!(Ok(Rotation::R90), Rotation::from_degrees(90));
    assert_eq!(Ok(Rotation::R180), Rotation::from_degrees(180));
    assert_eq!(Ok(Rotation::R270), Rotation::from_degrees(270));
    assert_eq!(Ok(Rotation::R0), Rotation::from_degrees(360));
    assert_eq!(Ok(Rotation::R90), Rotation::from_degrees(450));
    assert_eq!(Ok(Rotation::R270), Rotation::from_degrees(-90));
    assert_eq!(Ok(Rotation::R180), Rotation::from_degrees(-180));
    assert_eq!(Ok(Rotation::R90), Rotation::from_degrees(-270));
    assert_eq!(Ok(Rotation::R0), Rotation::from_degrees(-360));
}

#[test]
fn rotation_that_is_no_quarter_turn_fails() {
    assert_eq!(Err(Error::Geometry(45)), Rotation::from_degrees(45));
    assert_eq!(Err(Error::Geometry(1)), Rotation::from_degrees(1));
    assert_eq!(Err(Error::Geometry(-1)), Rotation::from_degrees(-1));
    assert_eq!(Err(Error::Geometry(89)), Rotation::from_degrees(89));
    assert_eq!(Err(Error::Geometry(i32::MAX)), Rotation::from_degrees(i32::MAX));
    assert_eq!(Err(Error::Geometry(i32::MIN)), Rotation::from_degrees(i32::MIN));
}

#[test]
fn sine_and_cosine_of_quarter_turns() {
    let values: Vec<(i64, i64)> = [Rotation::R0, Rotation::R90, Rotation::R180, Rotation::R270]
        .iter()
        .map(|r| (r.cosine(), r.sine()))
        .collect();
    assert_eq!(vec![(1, 0), (0, 1), (-1, 0), (0, -1)], values);
}

#[test]
fn transform_mirrors_then_turns_then_moves() {
    let p = Point { x: 3, y: 5 };
    let origin = Point { x: 100, y: 200 };
    let place = |rotation, mirror| Placement { origin, rotation, mirror }.transform(p);
    assert_eq!(Point { x: 103, y: 205 }, place(Rotation::R0, Mirror::Off));
    assert_eq!(Point { x: 95, y: 203 }, place(Rotation::R90, Mirror::Off));
    assert_eq!(Point { x: 97, y: 195 }, place(Rotation::R180, Mirror::Off));
    assert_eq!(Point { x: 105, y: 197 }, place(Rotation::R270, Mirror::Off));
    assert_eq!(Point { x: 103, y: 195 }, place(Rotation::R0, Mirror::X));
    assert_eq!(Point { x: 97, y: 205 }, place(Rotation::R0, Mirror::Y));
    // mirrored about x: (3, -5), then a quarter turn: (5, 3)
    assert_eq!(Point { x: 105, y: 203 }, place(Rotation::R90, Mirror::X));
    // mirrored about y: (-3, 5), then a quarter turn: (-5, -3)
    assert_eq!(Point { x: 95, y: 197 }, place(Rotation::R90, Mirror::Y));
}

#[test]
fn transform_all_keeps_the_order() {
    let placement =
        Placement { origin: Point { x: 10, y: 10 }, rotation: Rotation::R180, mirror: Mirror::Off };
    let pts = vec![Point { x: 1, y: 2 }, Point { x: -3, y: 4 }, Point { x: 0, y: 0 }];
    assert_eq!(
        vec![Point { x: 9, y: 8 }, Point { x: 13, y: 6 }, Point { x: 10, y: 10 }],
        placement.transform_all(&pts)
    );
    assert_eq!(Vec::<Point>::new(), placement.transform_all(&vec![]));
}

#[test]
fn pin_position_is_one_hot_for_every_combination() {
    for pin_angle in [0, 90, 180, 270] {
        for symbol_angle in [0, 90, 180, 270] {
            for mirror in [Mirror::Off, Mirror::X, Mirror::Y] {
                let position = pin_position(&symbol_at(symbol_angle, mirror), &pin_at(pin_angle)).unwrap();
                assert_eq!(4, position.len());
                assert_eq!(1, position.iter().filter(|v| **v == 1).count());
                assert_eq!(3, position.iter().filter(|v| **v == 0).count());
                assert!(orientation(&position).is_some());
            }
        }
    }
}

#[test]
fn pin_position_turns_right_and_swaps() {
    let slots = |symbol_angle, mirror, pin_angle| {
        pin_position(&symbol_at(symbol_angle, mirror), &pin_at(pin_angle)).unwrap()
    };
    assert_eq!(vec![1, 0, 0, 0], slots(0, Mirror::Off, 0));
    assert_eq!(vec![0, 1, 0, 0], slots(0, Mirror::Off, 90));
    assert_eq!(vec![0, 0, 1, 0], slots(0, Mirror::Off, 180));
    assert_eq!(vec![0, 0, 0, 1], slots(0, Mirror::Off, 270));
    // the symbol's rotation moves the one to the right
    assert_eq!(vec![0, 1, 0, 0], slots(90, Mirror::Off, 0));
    assert_eq!(vec![1, 0, 0, 0], slots(90, Mirror::Off, 270));
    assert_eq!(vec![0, 0, 0, 1], slots(270, Mirror::Off, 0));
    assert_eq!(vec![0, 1, 0, 0], slots(180, Mirror::Off, 270));
    // mirroring about x exchanges bottom and top
    assert_eq!(vec![0, 0, 0, 1], slots(0, Mirror::X, 90));
    assert_eq!(vec![0, 1, 0, 0], slots(0, Mirror::X, 270));
    assert_eq!(vec![1, 0, 0, 0], slots(0, Mirror::X, 0));
    // mirroring about y exchanges right and left
    assert_eq!(vec![0, 0, 1, 0], slots(0, Mirror::Y, 0));
    assert_eq!(vec![1, 0, 0, 0], slots(0, Mirror::Y, 180));
    assert_eq!(vec![0, 1, 0, 0], slots(0, Mirror::Y, 90));
    // turned first, mirrored after
    assert_eq!(vec![0, 0, 0, 1], slots(90, Mirror::X, 0));
    assert_eq!(vec![0, 0, 1, 0], slots(180, Mirror::Y, 180));
}

#[test]
fn pin_position_fails_for_other_angles() {
    assert_eq!(Err(Error::Geometry(45)), pin_position(&symbol_at(0, Mirror::Off), &pin_at(45)));
    assert_eq!(Err(Error::Geometry(30)), pin_position(&symbol_at(30, Mirror::X), &pin_at(90)));
    // the pin is looked at first
    assert_eq!(Err(Error::Geometry(10)), pin_position(&symbol_at(20, Mirror::Y), &pin_at(10)));
}

#[test]
fn orientation_names_the_slot() {
    assert_eq!(Some(PinOrientation::Right), orientation(&vec![1, 0, 0, 0]));
    assert_eq!(Some(PinOrientation::Bottom), orientation(&vec![0, 1, 0, 0]));
    assert_eq!(Some(PinOrientation::Left), orientation(&vec![0, 0, 1, 0]));
    assert_eq!(Some(PinOrientation::Top), orientation(&vec![0, 0, 0, 1]));
    assert_eq!(None, orientation(&vec![0, 0, 0, 0]));
    assert_eq!(None, orientation(&vec![1, 1, 0, 0]));
    assert_eq!(None, orientation(&vec![2, 0, 0, 0]));
    assert_eq!(None, orientation(&vec![1, 0, 0]));
    assert_eq!(None, orientation(&vec![1, 0, 0, 0, 0]));
    assert_eq!(None, orientation(&vec![]));
    assert_eq!(
        Some(PinOrientation::Top),
        orientation(&pin_slots_of(Rotation::R270, Mirror::Off, Rotation::R0))
    );
}
