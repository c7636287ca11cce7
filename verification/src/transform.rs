//! Placement of a symbol on the page and the direction its pins face.

use vstd::prelude::*;
use crate::error::Error;
use crate::units::Point;

verus! {

/// The axis a symbol is mirrored about.
#[derive(Clone, Copy, Debug, PartialEq, Eq, Structural)]
pub enum Mirror {
    Off,
    X,
    Y,
}

/// A rotation by a whole number of quarter turns.
#[derive(Clone, Copy, Debug, PartialEq, Eq, Structural)]
pub enum Rotation {
    R0,
    R90,
    R180,
    R270,
}

/// One of the four directions a pin can face on the page.
#[derive(Clone, Copy, Debug, PartialEq, Eq, Structural)]
pub enum PinOrientation {
    Right,
    Bottom,
    Left,
    Top,
}

/// The rotation by `q` quarter turns, `q` taken modulo 4.
pub open spec fn rotation_by(q: int) -> Rotation {
    if q % 4 == 0 {
        Rotation::R0
    } else if q % 4 == 1 {
        Rotation::R90
    } else if q % 4 == 2 {
        Rotation::R180
    } else {
        Rotation::R270
    }
}

/// The rotation by `angle` degrees, where that is a whole number of quarter
/// turns.
pub open spec fn rotation_of(angle: int) -> Option<Rotation> {
    if angle % 90 == 0 {
        Some(rotation_by(angle / 90))
    } else {
        None
    }
}

impl Rotation {
    /// The number of quarter turns, from 0 to 3.
    pub open spec fn quarters(self) -> int {
        match self {
            Rotation::R0 => 0,
            Rotation::R90 => 1,
            Rotation::R180 => 2,
            Rotation::R270 => 3,
        }
    }

    /// The cosine of the rotation.
    pub open spec fn cos(self) -> int {
        match self {
            Rotation::R0 => 1,
            Rotation::R90 => 0,
            Rotation::R180 => -1,
            Rotation::R270 => 0,
        }
    }

    /// The sine of the rotation.
    pub open spec fn sin(self) -> int {
        match self {
            Rotation::R0 => 0,
            Rotation::R90 => 1,
            Rotation::R180 => 0,
            Rotation::R270 => -1,
        }
    }

    /// The rotation by `angle` degrees; [`Error::Geometry`] with the angle
    /// where it is no multiple of 90.
    pub fn from_degrees(angle: i32) -> (res: Result<Rotation, Error>)
        ensures
            match rotation_of(angle as int) {
                Some(r) => res == Ok::<Rotation, Error>(r),
                None => res == Err::<Rotation, Error>(Error::Geometry(angle)),
            },
    {
        if angle % 90 != 0 {
            return Err(Error::Geometry(angle));
        }
        let turns: i32 = angle / 90;
        let q: i32 = turns % 4;
        let q: i32 = if q < 0 {
            q + 4
        } else {
            q
        };
        assert(q == (angle as int / 90) % 4);
        if q == 0 {
            Ok(Rotation::R0)
        } else if q == 1 {
            Ok(Rotation::R90)
        } else if q == 2 {
            Ok(Rotation::R180)
        } else {
            Ok(Rotation::R270)
        }
    }

    /// The rotation by `angle` degrees, where that is a whole number of
    /// quarter turns.
    pub fn of_angle(angle: i64) -> (res: Option<Rotation>)
        ensures
            res == rotation_of(angle as int),
    {
        if angle % 90 != 0 {
            return None;
        }
        let turns: i64 = angle / 90;
        let q: i64 = turns % 4;
        let q: i64 = if q < 0 {
            q + 4
        } else {
            q
        };
        assert(q == (angle as int / 90) % 4);
        if q == 0 {
            Some(Rotation::R0)
        } else if q == 1 {
            Some(Rotation::R90)
        } else if q == 2 {
            Some(Rotation::R180)
        } else {
            Some(Rotation::R270)
        }
    }

    /// The cosine of the rotation.
    pub fn cosine(self) -> (c: i64)
        ensures
            c == self.cos(),
    {
        match self {
            Rotation::R0 => 1,
            Rotation::R90 => 0,
            Rotation::R180 => -1,
            Rotation::R270 => 0,
        }
    }

    /// The sine of the rotation.
    pub fn sine(self) -> (s: i64)
        ensures
            s == self.sin(),
    {
        match self {
            Rotation::R0 => 0,
            Rotation::R90 => 1,
            Rotation::R180 => 0,
            Rotation::R270 => -1,
        }
    }
}

/// Where and how a symbol stands on the page.
#[derive(Clone, Copy, Debug, PartialEq, Eq, Structural)]
pub struct Placement {
    pub origin: Point,
    pub rotation: Rotation,
    pub mirror: Mirror,
}

/// The point with the given coordinates.
pub open spec fn pt(x: int, y: int) -> Point {
    Point { x: x as i64, y: y as i64 }
}

/// `p` mirrored about the axis `m`: about the x axis the sign of `y` flips,
/// about the y axis the sign of `x`.
pub open spec fn reflected(m: Mirror, x: int, y: int) -> (int, int) {
    match m {
        Mirror::Off => (x, y),
        Mirror::X => (x, -y),
        Mirror::Y => (-x, y),
    }
}

/// `(x, y)` turned about the origin by `r`: a quarter turn takes the positive
/// x axis to the positive y axis.
pub open spec fn rotated(r: Rotation, x: int, y: int) -> (int, int) {
    match r {
        Rotation::R0 => (x, y),
        Rotation::R90 => (-y, x),
        Rotation::R180 => (-x, -y),
        Rotation::R270 => (y, -x),
    }
}

/// Turning is the rotation of the plane with the cosine and the sine of the
/// angle.
pub proof fn lemma_rotated_by_sine_and_cosine(r: Rotation, x: int, y: int)
    ensures
        rotated(r, x, y) == (x * r.cos() - y * r.sin(), x * r.sin() + y * r.cos()),
{
}

/// Mirroring twice about the same axis, and four quarter turns, bring every
/// point back.
pub proof fn lemma_mirror_and_turn_back(m: Mirror, x: int, y: int)
    ensures
        reflected(m, reflected(m, x, y).0, reflected(m, x, y).1) == (x, y),
        ({
            let once = rotated(Rotation::R90, x, y);
            let twice = rotated(Rotation::R90, once.0, once.1);
            let thrice = rotated(Rotation::R90, twice.0, twice.1);
            &&& twice == rotated(Rotation::R180, x, y)
            &&& thrice == rotated(Rotation::R270, x, y)
            &&& rotated(Rotation::R90, thrice.0, thrice.1) == (x, y)
        }),
{
}

impl Placement {
    /// The page position of the symbol-local point `p`: `p` is mirrored, then
    /// turned, then moved by the symbol's origin.
    pub open spec fn transformed(self, p: Point) -> Point {
        let m = reflected(self.mirror, p.x as int, p.y as int);
        let r = rotated(self.rotation, m.0, m.1);
        pt(self.origin.x + r.0, self.origin.y + r.1)
    }

    /// The page position of the symbol-local point `p`.
    pub fn transform(&self, p: Point) -> (q: Point)
        requires
            self.origin.in_item_range(),
            p.in_item_range(),
        ensures
            q == self.transformed(p),
    {
        let (mx, my): (i64, i64) = match self.mirror {
            Mirror::Off => (p.x, p.y),
            Mirror::X => (p.x, -p.y),
            Mirror::Y => (-p.x, p.y),
        };
        let (rx, ry): (i64, i64) = match self.rotation {
            Rotation::R0 => (mx, my),
            Rotation::R90 => (-my, mx),
            Rotation::R180 => (-mx, -my),
            Rotation::R270 => (my, -mx),
        };
        Point { x: self.origin.x + rx, y: self.origin.y + ry }
    }

    /// The page positions of the symbol-local points `pts`, in order.
    pub fn transform_all(&self, pts: &Vec<Point>) -> (res: Vec<Point>)
        requires
            self.origin.in_item_range(),
            forall|i: int| 0 <= i < pts@.len() ==> (#[trigger] pts@[i]).in_item_range(),
        ensures
            res@ == pts@.map_values(|p: Point| self.transformed(p)),
    {
        let mut res: Vec<Point> = Vec::new();
        let mut i: usize = 0;
        while i < pts.len()
            invariant
                i <= pts@.len(),
                self.origin.in_item_range(),
                forall|k: int| 0 <= k < pts@.len() ==> (#[trigger] pts@[k]).in_item_range(),
                res@ == pts@.take(i as int).map_values(|p: Point| self.transformed(p)),
            decreases pts@.len() - i,
        {
            res.push(self.transform(pts[i]));
            assert(pts@.take(i + 1) =~= pts@.take(i as int).push(pts@[i as int]));
            assert(res@ =~= pts@.take(i + 1).map_values(|p: Point| self.transformed(p)));
            i += 1;
        }
        assert(pts@.take(i as int) =~= pts@);
        res
    }
}

/// The vector with a one in slot `k` of four and zeros elsewhere.
pub open spec fn one_hot(k: int) -> Seq<usize> {
    Seq::new(4, |i: int| if i == k { 1usize } else { 0usize })
}

/// `v` with every entry moved `shift` slots to the right, those pushed out at
/// the end coming back in at the front.
pub open spec fn rotated_right(v: Seq<usize>, shift: int) -> Seq<usize> {
    Seq::new(v.len(), |i: int| v[(i - shift) % (v.len() as int)])
}

/// `v` with the entries of slots `a` and `b` exchanged.
pub open spec fn swapped(v: Seq<usize>, a: int, b: int) -> Seq<usize> {
    v.update(a, v[b]).update(b, v[a])
}

/// The slots of a pin turned by `pin` on a symbol turned by `symbol` and
/// mirrored about `mirror`: a one is put in the slot of the pin's own
/// direction, the slots are turned right by the symbol's quarter turns, and
/// mirroring about x exchanges slots 1 and 3, about y slots 0 and 2.
pub open spec fn pin_slots(symbol: Rotation, mirror: Mirror, pin: Rotation) -> Seq<usize> {
    let turned = rotated_right(one_hot(pin.quarters()), symbol.quarters());
    match mirror {
        Mirror::Off => turned,
        Mirror::X => swapped(turned, 1, 3),
        Mirror::Y => swapped(turned, 0, 2),
    }
}

/// The number of the slot that holds the one.
pub open spec fn pin_slot(symbol: Rotation, mirror: Mirror, pin: Rotation) -> int {
    let turned = (pin.quarters() + symbol.quarters()) % 4;
    match mirror {
        Mirror::Off => turned,
        Mirror::X => if turned == 1 {
            3
        } else if turned == 3 {
            1
        } else {
            turned
        },
        Mirror::Y => if turned == 0 {
            2
        } else if turned == 2 {
            0
        } else {
            turned
        },
    }
}

/// The direction that slot `k` stands for.
pub open spec fn orientation_of_slot(k: int) -> PinOrientation {
    if k == 0 {
        PinOrientation::Right
    } else if k == 1 {
        PinOrientation::Bottom
    } else if k == 2 {
        PinOrientation::Left
    } else {
        PinOrientation::Top
    }
}

/// The direction a pin faces.
pub open spec fn pin_orientation(symbol: Rotation, mirror: Mirror, pin: Rotation) -> PinOrientation {
    orientation_of_slot(pin_slot(symbol, mirror, pin))
}

/// For every rotation of pin and symbol and every mirror axis exactly one of
/// the four slots holds a one and the others hold zero: the pin faces
/// exactly one direction.
pub proof fn lemma_pin_slots_one_hot(symbol: Rotation, mirror: Mirror, pin: Rotation)
    ensures
        0 <= pin_slot(symbol, mirror, pin) < 4,
        pin_slots(symbol, mirror, pin) == one_hot(pin_slot(symbol, mirror, pin)),
        pin_slots(symbol, mirror, pin).len() == 4,
        forall|i: int|
            0 <= i < 4 ==> (#[trigger] pin_slots(symbol, mirror, pin)[i] == 1usize <==> i == pin_slot(
                symbol,
                mirror,
                pin,
            )),
        forall|i: int|
            0 <= i < 4 && i != pin_slot(symbol, mirror, pin) ==> #[trigger] pin_slots(
                symbol,
                mirror,
                pin,
            )[i] == 0usize,
{
    assert(pin_slots(symbol, mirror, pin) =~= one_hot(pin_slot(symbol, mirror, pin)));
}

/// What classifying a pin at `pin_angle` degrees on a symbol turned by
/// `symbol_angle` degrees gives: the slots, or the first of the two angles,
/// pin first, that is no multiple of 90.
pub open spec fn pin_position_of(symbol_angle: int, mirror: Mirror, pin_angle: int) -> Result<
    Seq<usize>,
    int,
> {
    match rotation_of(pin_angle) {
        None => Err(pin_angle),
        Some(pin) => match rotation_of(symbol_angle) {
            None => Err(symbol_angle),
            Some(symbol) => Ok(pin_slots(symbol, mirror, pin)),
        },
    }
}

/// A pin is classified exactly where its angle and the rotation of its
/// symbol are multiples of 90 degrees, with any mirror axis, and then faces
/// exactly one of the four directions. Any other angle fails: the pin's
/// where that is none, else the symbol's.
pub proof fn lemma_pin_position_total(symbol_angle: int, mirror: Mirror, pin_angle: int)
    ensures
        pin_position_of(symbol_angle, mirror, pin_angle) is Ok <==> (pin_angle % 90 == 0 && symbol_angle
            % 90 == 0),
        pin_position_of(symbol_angle, mirror, pin_angle) is Ok ==> exists|k: int|
            0 <= k < 4 && pin_position_of(symbol_angle, mirror, pin_angle)->Ok_0 == #[trigger] one_hot(k),
        pin_angle % 90 != 0 ==> pin_position_of(symbol_angle, mirror, pin_angle) == Err::<Seq<usize>, int>(
            pin_angle,
        ),
        pin_angle % 90 == 0 && symbol_angle % 90 != 0 ==> pin_position_of(symbol_angle, mirror, pin_angle)
            == Err::<Seq<usize>, int>(symbol_angle),
{
    if pin_angle % 90 == 0 && symbol_angle % 90 == 0 {
        let pin = rotation_of(pin_angle)->0;
        let symbol = rotation_of(symbol_angle)->0;
        lemma_pin_slots_one_hot(symbol, mirror, pin);
        assert(pin_position_of(symbol_angle, mirror, pin_angle)->Ok_0 == one_hot(
            pin_slot(symbol, mirror, pin),
        ));
    }
}

/// Whole turns do not count: an angle and the angle a full turn further
/// are the same rotation.
pub proof fn lemma_rotation_full_turn(angle: int)
    ensures
        rotation_of(angle + 360) == rotation_of(angle),
        rotation_of(0) == Some(Rotation::R0),
        rotation_of(90) == Some(Rotation::R90),
        rotation_of(180) == Some(Rotation::R180),
        rotation_of(270) == Some(Rotation::R270),
{
    if angle % 90 == 0 {
        assert((angle + 360) / 90 == angle / 90 + 4);
    }
}

/// The slots of a pin, computed from the rotations.
pub fn pin_slots_of(symbol: Rotation, mirror: Mirror, pin: Rotation) -> (position: Vec<usize>)
    ensures
        position@ == pin_slots(symbol, mirror, pin),
{
    let lib_pos: usize = match pin {
        Rotation::R0 => 0,
        Rotation::R90 => 1,
        Rotation::R180 => 2,
        Rotation::R270 => 3,
    };
    let shift: usize = match symbol {
        Rotation::R0 => 0,
        Rotation::R90 => 1,
        Rotation::R180 => 2,
        Rotation::R270 => 3,
    };
    let slot: usize = (lib_pos + shift) % 4;
    let mut position: Vec<usize> = Vec::new();
    position.push(0);
    position.push(0);
    position.push(0);
    position.push(0);
    position.set(slot, 1);
    assert(position@ =~= rotated_right(one_hot(pin.quarters()), symbol.quarters()));
    match mirror {
        Mirror::Off => {},
        Mirror::X => {
            let a: usize = position[1];
            let b: usize = position[3];
            position.set(1, b);
            position.set(3, a);
        },
        Mirror::Y => {
            let a: usize = position[0];
            let b: usize = position[2];
            position.set(0, b);
            position.set(2, a);
        },
    }
    assert(position@ =~= pin_slots(symbol, mirror, pin));
    position
}

/// The direction that the slots `position` stand for: the one slot that
/// holds a one while the others hold zero. `None` for any other vector.
pub fn orientation(position: &Vec<usize>) -> (res: Option<PinOrientation>)
    ensures
        match res {
            Some(o) => exists|k: int| 0 <= k < 4 && position@ == one_hot(k) && o == orientation_of_slot(k),
            None => forall|k: int| 0 <= k < 4 ==> position@ != one_hot(k),
        },
{
    if position.len() != 4 {
        assert forall|k: int| 0 <= k < 4 implies position@ != one_hot(k) by {
            assert(one_hot(k).len() == 4);
        }
        return None;
    }
    let a: usize = position[0];
    let b: usize = position[1];
    let c: usize = position[2];
    let d: usize = position[3];
    if a == 1 && b == 0 && c == 0 && d == 0 {
        assert(position@ =~= one_hot(0));
        Some(PinOrientation::Right)
    } else if a == 0 && b == 1 && c == 0 && d == 0 {
        assert(position@ =~= one_hot(1));
        Some(PinOrientation::Bottom)
    } else if a == 0 && b == 0 && c == 1 && d == 0 {
        assert(position@ =~= one_hot(2));
        Some(PinOrientation::Left)
    } else if a == 0 && b == 0 && c == 0 && d == 1 {
        assert(position@ =~= one_hot(3));
        Some(PinOrientation::Top)
    } else {
        assert forall|k: int| 0 <= k < 4 implies position@ != one_hot(k) by {
            assert(one_hot(k)[k] == 1 && forall|i: int| 0 <= i < 4 && i != k ==> one_hot(k)[i] == 0);
        }
        None
    }
}

} // verus!
