//! The part of a schematic document that rendering reads.
//!
//! Coordinates and lengths are 32-bit counts, angles whole degrees.

use vstd::prelude::*;
use vstd::string::*;
use crate::color::Color;
use crate::theme::{EffectsStyle, StrokeStyle};
use crate::transform::Mirror;
use crate::units::Point;

verus! {

/// A position or a size in a document.
#[derive(Clone, Copy, Debug, PartialEq, Eq, Structural)]
pub struct DocPoint {
    pub x: i32,
    pub y: i32,
}

impl DocPoint {
    /// The same position as a page point.
    pub open spec fn point(self) -> Point {
        Point { x: self.x as i64, y: self.y as i64 }
    }

    pub fn new(x: i32, y: i32) -> (p: DocPoint)
        ensures
            p == (DocPoint { x, y }),
    {
        DocPoint { x, y }
    }

    /// The same position as a page point.
    pub fn to_point(self) -> (p: Point)
        ensures
            p == self.point(),
            p.in_item_range(),
    {
        Point { x: self.x as i64, y: self.y as i64 }
    }
}

/// The page points of document positions, in order.
pub open spec fn points(pts: Seq<DocPoint>) -> Seq<Point> {
    pts.map_values(|p: DocPoint| p.point())
}

/// The page points of document positions, in order.
pub fn to_points(pts: &Vec<DocPoint>) -> (res: Vec<Point>)
    ensures
        res@ == points(pts@),
        forall|i: int| 0 <= i < res@.len() ==> (#[trigger] res@[i]).in_item_range(),
{
    let mut res: Vec<Point> = Vec::new();
    let mut i: usize = 0;
    while i < pts.len()
        invariant
            i <= pts@.len(),
            res@ == points(pts@.take(i as int)),
            forall|k: int| 0 <= k < res@.len() ==> (#[trigger] res@[k]).in_item_range(),
        decreases pts@.len() - i,
    {
        res.push(pts[i].to_point());
        assert(pts@.take(i + 1) =~= pts@.take(i as int).push(pts@[i as int]));
        assert(res@ =~= points(pts@.take(i + 1)));
        i += 1;
    }
    assert(pts@.take(i as int) =~= pts@);
    res
}

/// A named value attached to a sheet or a symbol, shown as text.
#[derive(Debug, PartialEq, Eq)]
pub struct Property {
    pub key: String,
    pub value: String,
    pub at: DocPoint,
    pub angle: i32,
    pub effects: Option<EffectsStyle>,
}

/// A sub-sheet drawn as a filled box with its name.
#[derive(Debug, PartialEq, Eq)]
pub struct Sheet {
    pub at: DocPoint,
    pub size: DocPoint,
    pub property: Vec<Property>,
    pub stroke: Option<StrokeStyle>,
    pub fill: Color,
}

/// A wire.
#[derive(Debug, PartialEq, Eq)]
pub struct Wire {
    pub pts: Vec<DocPoint>,
}

/// A bus or a graphic line, with its own line style.
#[derive(Debug, PartialEq, Eq)]
pub struct StyledPath {
    pub pts: Vec<DocPoint>,
    pub stroke: Option<StrokeStyle>,
}

/// The short diagonal that joins a wire to a bus.
#[derive(Debug, PartialEq, Eq)]
pub struct BusEntry {
    pub at: DocPoint,
    pub size: DocPoint,
    pub stroke: Option<StrokeStyle>,
}

/// A free text or a local label, with its own text style.
#[derive(Debug, PartialEq, Eq)]
pub struct StyledText {
    pub at: DocPoint,
    pub angle: i32,
    pub text: String,
    pub effects: Option<EffectsStyle>,
}

/// A global or a hierarchical label.
#[derive(Debug, PartialEq, Eq)]
pub struct PlainText {
    pub at: DocPoint,
    pub angle: i32,
    pub text: String,
}

/// A placed occurrence of a library symbol.
#[derive(Debug, PartialEq, Eq)]
pub struct Symbol {
    pub lib_id: String,
    pub at: DocPoint,
    pub angle: i32,
    pub mirror: Mirror,
    pub unit: u32,
    pub on_schema: bool,
    pub property: Vec<Property>,
}

/// One element of a page.
#[derive(Debug, PartialEq, Eq)]
pub enum SchemaElement {
    Sheet(Sheet),
    Wire(Wire),
    Polyline(StyledPath),
    Bus(StyledPath),
    BusEntry(BusEntry),
    Text(StyledText),
    NoConnect(DocPoint),
    Junction(DocPoint),
    Label(StyledText),
    GlobalLabel(PlainText),
    HierarchicalLabel(PlainText),
    Symbol(Symbol),
}

/// A graphic shape of a library symbol, in the symbol's own coordinates.
#[derive(Debug, PartialEq, Eq)]
pub enum Graph {
    Polyline { pts: Vec<DocPoint>, stroke: Option<StrokeStyle>, fill_type: String },
    Rectangle { start: DocPoint, end: DocPoint, stroke: Option<StrokeStyle>, fill_type: String },
    Circle { center: DocPoint, radius: i32, stroke: Option<StrokeStyle>, fill_type: String },
    Arc { start: DocPoint, mid: DocPoint, end: DocPoint, stroke: Option<StrokeStyle>, fill_type: String },
    Text { at: DocPoint, angle: i32, text: String, effects: Option<EffectsStyle> },
}

/// A pin of a library symbol: it starts at `at` and runs `length` counts in
/// the direction of `angle`.
#[derive(Debug, PartialEq, Eq)]
pub struct Pin {
    pub at: DocPoint,
    pub angle: i32,
    pub length: i32,
    pub number: String,
    pub name: String,
}

/// One unit of a library symbol; unit 0 belongs to every unit.
#[derive(Debug, PartialEq, Eq)]
pub struct SymbolUnit {
    pub unit: u32,
    pub graph: Vec<Graph>,
    pub pin: Vec<Pin>,
}

/// A symbol definition of the document's library.
#[derive(Debug, PartialEq, Eq)]
pub struct LibrarySymbol {
    pub lib_id: String,
    pub symbols: Vec<SymbolUnit>,
    pub power: bool,
    pub pin_numbers_show: bool,
    pub pin_names_show: bool,
    pub pin_names_offset: i32,
}

/// The index of the first library symbol named `lib_id`.
pub open spec fn library_index(libraries: Seq<LibrarySymbol>, lib_id: Seq<char>) -> Option<int>
    decreases libraries.len(),
{
    if libraries.len() == 0 {
        None
    } else if libraries[0].lib_id@ == lib_id {
        Some(0)
    } else {
        match library_index(libraries.drop_first(), lib_id) {
            Some(i) => Some(i + 1),
            None => None,
        }
    }
}

/// `library_index` finds the first entry with the name, and none where no
/// entry has it.
pub proof fn lemma_library_index(libraries: Seq<LibrarySymbol>, lib_id: Seq<char>)
    ensures
        match library_index(libraries, lib_id) {
            Some(i) => {
                &&& 0 <= i < libraries.len()
                &&& libraries[i].lib_id@ == lib_id
                &&& forall|k: int| 0 <= k < i ==> (#[trigger] libraries[k]).lib_id@ != lib_id
            },
            None => forall|k: int| 0 <= k < libraries.len() ==> (#[trigger] libraries[k]).lib_id@ != lib_id,
        },
    decreases libraries.len(),
{
    if libraries.len() > 0 && libraries[0].lib_id@ != lib_id {
        let rest = libraries.drop_first();
        lemma_library_index(rest, lib_id);
        match library_index(rest, lib_id) {
            Some(i) => {
                assert(rest[i] == libraries[i + 1]);
                assert forall|k: int| 0 <= k < i + 1 implies (#[trigger] libraries[k]).lib_id@ != lib_id by {
                    if k > 0 {
                        assert(rest[k - 1] == libraries[k]);
                    }
                }
            },
            None => {
                assert forall|k: int| 0 <= k < libraries.len() implies (#[trigger] libraries[k]).lib_id@
                    != lib_id by {
                    if k > 0 {
                        assert(rest[k - 1] == libraries[k]);
                    }
                }
            },
        }
    }
}

/// The first library symbol named `lib_id`, if there is one.
pub fn get_library<'a>(libraries: &'a Vec<LibrarySymbol>, lib_id: &String) -> (res: Option<&'a LibrarySymbol>)
    ensures
        match library_index(libraries@, lib_id@) {
            Some(i) => res == Some(&libraries@[i]),
            None => res is None,
        },
{
    let mut i: usize = 0;
    proof {
        lemma_library_index(libraries@, lib_id@);
    }
    while i < libraries.len()
        invariant
            i <= libraries@.len(),
            forall|k: int| 0 <= k < i ==> (#[trigger] libraries@[k]).lib_id@ != lib_id@,
            match library_index(libraries@, lib_id@) {
                Some(j) => {
                    &&& 0 <= j < libraries@.len()
                    &&& libraries@[j].lib_id@ == lib_id@
                    &&& forall|k: int| 0 <= k < j ==> (#[trigger] libraries@[k]).lib_id@ != lib_id@
                },
                None => forall|k: int|
                    0 <= k < libraries@.len() ==> (#[trigger] libraries@[k]).lib_id@ != lib_id@,
            },
        decreases libraries@.len() - i,
    {
        if libraries[i].lib_id == *lib_id {
            return Some(&libraries[i]);
        }
        i += 1;
    }
    None
}

/// What the title block of a page says.
#[derive(Debug, PartialEq, Eq)]
pub struct TitleBlock {
    pub title: String,
    pub date: String,
    pub rev: String,
    pub company: String,
}

/// The points that carry one net name.
#[derive(Debug, PartialEq, Eq)]
pub struct NetNode {
    pub name: String,
    pub points: Vec<Point>,
}

/// Net names by page position.
#[derive(Debug, PartialEq, Eq)]
pub struct Netlist {
    pub nodes: Vec<NetNode>,
}

/// The name of the first of `nodes` that holds the point `p`.
pub open spec fn net_name(nodes: Seq<NetNode>, p: Point) -> Option<Seq<char>>
    decreases nodes.len(),
{
    if nodes.len() == 0 {
        None
    } else if nodes[0].points@.contains(p) {
        Some(nodes[0].name@)
    } else {
        net_name(nodes.drop_first(), p)
    }
}

impl Netlist {
    /// The name of the net at `p`: that of the first node that holds `p`.
    pub fn node_name(&self, p: Point) -> (res: Option<String>)
        ensures
            match net_name(self.nodes@, p) {
                Some(name) => res is Some && res->0@ == name,
                None => res is None,
            },
    {
        let mut i: usize = 0;
        assert(self.nodes@.skip(0) =~= self.nodes@);
        while i < self.nodes.len()
            invariant
                i <= self.nodes@.len(),
                net_name(self.nodes@, p) == net_name(self.nodes@.skip(i as int), p),
            decreases self.nodes@.len() - i,
        {
            if holds_point(&self.nodes[i].points, p) {
                return Some(self.nodes[i].name.clone());
            }
            assert(self.nodes@.skip(i as int).drop_first() =~= self.nodes@.skip(i + 1));
            i += 1;
        }
        None
    }
}

/// Whether `p` is one of `points`.
pub fn holds_point(points: &Vec<Point>, p: Point) -> (found: bool)
    ensures
        found == points@.contains(p),
{
    let mut i: usize = 0;
    while i < points.len()
        invariant
            i <= points@.len(),
            forall|k: int| 0 <= k < i ==> points@[k] != p,
        decreases points@.len() - i,
    {
        if points[i].x == p.x && points[i].y == p.y {
            return true;
        }
        i += 1;
    }
    false
}

} // verus!
